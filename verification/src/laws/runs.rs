//! Running a request, and looking at its past runs.
use vstd::prelude::*;

use crate::laws::browsing::{browsing, one_back, one_on};
use crate::run::RunHistoryEntry;
use crate::state::{EffectModel, HistoryOverlayModel, Message, RunState, SessionModel};
use crate::update::{
    entry_closed, entry_expanded, entry_viewed, reveal_toggled, selection_moved, session_updated,
};
use crate::view::response::{
    elapsed_text, entry_lines, history_for, panel_for, run_text,
};

verus! {

/// Asked to run, a session runs the selected request, at its top and with
/// nothing revealed; nothing else of it changes, and nothing is asked for
/// outside. Where no request is selected, nothing is run.
pub proof fn law_the_selected_request_is_run(s: SessionModel)
    requires
        browsing(s),
    ensures
        ({
            let (t, asked) = session_updated(s, Message::RunRequested);
            &&& asked == EffectModel::Nothing
            &&& s.request_selected() ==> t == (SessionModel {
                run_state: RunState::InFlight,
                response_scroll: 0,
                reveal_captures: false,
                ..s
            })
            &&& !s.request_selected() ==> t == s
        }),
{
}

/// The list of past runs opens on the newest, with none expanded and none in
/// full, and closes without a trace.
pub proof fn law_the_list_of_past_runs_opens_on_the_newest(s: SessionModel)
    requires
        browsing(s),
    ensures
        ({
            let t = session_updated(s, Message::OpenHistoryOverlay).0;
            let list = t.history_overlay->0;
            &&& t.history_overlay is Some
            &&& list.cursor == 0
            &&& list.viewing is None
            &&& list.expanded =~= Set::<usize>::empty()
            &&& t == (SessionModel { history_overlay: t.history_overlay, ..s })
        }),
        session_updated(s, Message::CloseHistoryOverlay).0 == (SessionModel {
            history_overlay: None,
            ..s
        }),
{
}

/// Down and up move the cursor of the list of past runs to the neighbours; the
/// selected request stays.
pub proof fn law_down_and_up_move_through_past_runs(s: SessionModel)
    requires
        s.environment_overlay is None,
        s.history_overlay is Some,
        s.history_overlay->0.viewing is None,
        s.history_overlay->0.cursor < s.selected_history().len(),
        s.selected_history().len() <= usize::MAX,
    ensures
        ({
            let i = s.history_overlay->0.cursor as int;
            let n = s.selected_history().len() as int;
            &&& selection_moved(s, 1) == (SessionModel {
                history_overlay: Some(
                    HistoryOverlayModel {
                        cursor: one_on(i, n) as usize,
                        ..s.history_overlay->0
                    },
                ),
                ..s
            })
            &&& selection_moved(s, -1) == (SessionModel {
                history_overlay: Some(
                    HistoryOverlayModel {
                        cursor: one_back(i, n) as usize,
                        ..s.history_overlay->0
                    },
                ),
                ..s
            })
        }),
{
    crate::laws::browsing::lemma_steps(
        s.history_overlay->0.cursor as int,
        s.selected_history().len() as int,
    );
}

/// The run that is shown in full is the one that the list's cursor is on, from
/// its first line and with nothing revealed; back in the list the cursor is
/// where it was.
pub proof fn law_the_run_at_the_cursor_is_shown_in_full(s: SessionModel)
    requires
        s.history_overlay is Some,
        s.history_overlay->0.viewing is None,
        s.history_overlay->0.cursor < s.selected_history().len(),
    ensures
        ({
            let t = entry_viewed(s);
            let (list, shown) = (s.history_overlay->0, t.history_overlay->0);
            &&& t == (SessionModel { history_overlay: t.history_overlay, ..s })
            &&& t.history_overlay is Some
            &&& shown.viewing == Some(list.cursor)
            &&& shown.view_scroll == 0
            &&& !shown.view_reveal_captures
            &&& shown.cursor == list.cursor && shown.expanded == list.expanded
        }),
{
}

/// Back from a run that was shown in full, the list stands as it was before.
pub proof fn law_back_from_a_run_the_list_is_as_it_was(s: SessionModel)
    requires
        s.history_overlay is Some,
    ensures
        ({
            let t = entry_closed(s);
            &&& t.history_overlay is Some
            &&& t.history_overlay->0.viewing is None
            &&& t.history_overlay->0.cursor == s.history_overlay->0.cursor
            &&& t.history_overlay->0.expanded == s.history_overlay->0.expanded
            &&& t == (SessionModel { history_overlay: t.history_overlay, ..s })
        }),
{
}

/// Expanding concerns the run that the cursor is on: it is expanded where it
/// was not and the other way round, and every other stays as it was.
pub proof fn law_the_run_at_the_cursor_is_expanded(s: SessionModel, k: usize)
    requires
        s.history_overlay is Some,
        s.history_overlay->0.viewing is None,
        s.history_overlay->0.cursor < s.selected_history().len(),
    ensures
        ({
            let t = entry_expanded(s);
            let (before, after) = (s.history_overlay->0, t.history_overlay->0);
            &&& t.history_overlay is Some
            &&& after.cursor == before.cursor && after.viewing == before.viewing
            &&& after.expanded.contains(k) == (if k == before.cursor {
                !before.expanded.contains(k)
            } else {
                before.expanded.contains(k)
            })
        }),
{
}

/// Revealing concerns what is on screen: the past run that is shown in full,
/// else the response of the selected request.
pub proof fn law_what_is_on_screen_is_revealed(s: SessionModel)
    ensures
        ({
            let t = reveal_toggled(s);
            if s.history_overlay is Some && s.history_overlay->0.viewing is Some {
                &&& t.history_overlay is Some
                &&& t.history_overlay->0.view_reveal_captures
                    == !s.history_overlay->0.view_reveal_captures
                &&& t.history_overlay->0.viewing == s.history_overlay->0.viewing
                &&& t.reveal_captures == s.reveal_captures
            } else {
                &&& t.reveal_captures == !s.reveal_captures
                &&& t.history_overlay == s.history_overlay
            }
        }),
{
}

/// While a past run is shown in full, what is shown is said of that run: the
/// panel tells of its outcome and the title of its age.
pub proof fn law_a_past_run_in_full_tells_of_itself(
    entries: Seq<RunHistoryEntry>,
    dropped: int,
    overlay: HistoryOverlayModel,
    now: int,
    height: int,
    k: usize,
)
    requires
        k < entries.len(),
        overlay.viewing == Some(k),
    ensures
        ({
            let view = history_for(entries, dropped, overlay, now, height);
            let run = entries[k as int];
            &&& view is Entry
            &&& view->panel.text == run_text(run.outcome, overlay.view_reveal_captures)
            &&& view->panel == panel_for(
                run.outcome,
                height,
                overlay.view_scroll as int,
                overlay.view_reveal_captures,
            )
            &&& view->Entry_title == "Run history — "@ + elapsed_text(run.completed_at as int, now)
                + " ago (esc back)"@
        }),
{
}

/// What is shown of a past run does not depend on any other run.
pub proof fn law_a_past_run_in_full_depends_on_no_other(
    a: Seq<RunHistoryEntry>,
    b: Seq<RunHistoryEntry>,
    overlay: HistoryOverlayModel,
    now: int,
    height: int,
    k: usize,
)
    requires
        k < a.len(),
        k < b.len(),
        a[k as int] == b[k as int],
        overlay.viewing == Some(k),
    ensures
        history_for(a, 0, overlay, now, height) == history_for(b, 1, overlay, now, height),
{
}

/// The list of past runs has one row for each run, in their order, expanded
/// where the run is, and its cursor where it stands.
pub proof fn law_each_past_run_has_its_row(
    entries: Seq<RunHistoryEntry>,
    dropped: int,
    overlay: HistoryOverlayModel,
    now: int,
    height: int,
    i: int,
)
    requires
        0 <= i < entries.len() <= usize::MAX,
        overlay.viewing is None,
    ensures
        ({
            let view = history_for(entries, dropped, overlay, now, height);
            &&& view is Entries
            &&& view->rows.len() == entries.len()
            &&& view->rows[i] == entry_lines(
                entries[i],
                overlay.expanded.contains(i as usize),
                now,
            )
            &&& overlay.cursor < entries.len() ==> view->picked == overlay.cursor
        }),
{
}

} // verus!
