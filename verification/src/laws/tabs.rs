//! Tabs, quitting, selection and past runs.
use vstd::prelude::*;

use crate::edit::lemma_wrap;
use crate::laws::sessions::well_formed;
use crate::run::RunHistoryEntry;
use crate::state::{
    AppModel, EffectModel, Message, RUN_HISTORY_CAP, RunState, SCROLL_STEP_LINES, SessionModel,
};
use crate::text_field::TextEdit;
use crate::update::{
    answers, app_updated, covered, dirty_count, filter_edited, matching, process_wide, reselected,
    reveal_toggled, run_completed, session_answered, session_updated, with_session, wrapped,
};
use crate::update::collection::{
    lemma_position, lemma_position_unique, next_tab, no_question, previous_tab,
};

verus! {

// ---------------------------------------------------------------------------
// Tabs
// ---------------------------------------------------------------------------

/// A message for a session reaches the active one and leaves every other as
/// it was, in its place. All else of the program stays too, but for what is
/// typed into the open prompt for a path.
#[verifier::spinoff_prover]
pub proof fn law_only_the_active_tab_changes(a: AppModel, msg: Message)
    requires
        a.tabs_valid(),
        !process_wide(msg),
    ensures
        ({
            let b = app_updated(a, msg).0;
            &&& b == (AppModel {
                collections: b.collections,
                open_collection_prompt: b.open_collection_prompt,
                ..a
            })
            &&& b.collections.len() == a.collections.len()
            &&& forall|i: int|
                0 <= i < a.collections.len() && i != a.active_collection
                    ==> #[trigger] b.collections[i] == a.collections[i]
            &&& b.should_quit == a.should_quit
            &&& b.quit_confirm == a.quit_confirm
            &&& b.close_confirm == a.close_confirm
            &&& b.spinner_tick == a.spinner_tick
            &&& b.active_collection == a.active_collection
        }),
{
}

/// The answer to something that was done for one session changes that session
/// and leaves every other as it was, whichever tab is active.
#[verifier::spinoff_prover]
pub proof fn law_an_answer_changes_only_its_tab(a: AppModel, msg: Message, i: int)
    requires
        a.tabs_valid(),
        answers(msg) is Some,
        0 <= i < a.collections.len(),
        a.collections[i].id != answers(msg)->0,
    ensures
        app_updated(a, msg).0.collections.len() == a.collections.len(),
        app_updated(a, msg).0.active_collection == a.active_collection,
        app_updated(a, msg).0.collections[i] == a.collections[i],
{
    lemma_position(a.collections, answers(msg)->0);
}

proof fn lemma_session_reached(
    a: AppModel,
    id: u64,
    becomes: spec_fn(SessionModel) -> SessionModel,
    i: int,
)
    requires
        a.tabs_valid(),
        0 <= i < a.collections.len(),
        a.collections[i].id == id,
    ensures
        with_session(a, id, becomes).collections[i] == becomes(a.collections[i]),
{
    assert forall|j: int| 0 <= j < i implies (#[trigger] a.collections[j]).id != id by {
        assert(a.collections[j].id != a.collections[i].id);
    }
    lemma_position_unique(a.collections, id, i);
}

/// The session that an answer is for is the one that it changes.
#[verifier::spinoff_prover]
#[verifier::rlimit(50)]
pub proof fn law_an_answer_reaches_its_tab(a: AppModel, msg: Message, i: int)
    requires
        a.tabs_valid(),
        answers(msg) is Some,
        0 <= i < a.collections.len(),
        a.collections[i].id == answers(msg)->0,
    ensures
        app_updated(a, msg).0.collections[i] == session_answered(a.collections[i], msg),
{
    lemma_session_reached(a, answers(msg)->0, |s: SessionModel| session_answered(s, msg), i);
}

/// The answer to something that was done for a session that is gone changes
/// nothing.
#[verifier::spinoff_prover]
pub proof fn law_an_answer_for_a_closed_tab_is_dropped(a: AppModel, msg: Message)
    requires
        answers(msg) is Some,
        forall|i: int|
            0 <= i < a.collections.len() ==> (#[trigger] a.collections[i]).id != answers(msg)->0,
    ensures
        app_updated(a, msg) == (a, EffectModel::Nothing),
{
    lemma_position(a.collections, answers(msg)->0);
}

/// The next tab and back, or the tab before and on, is the tab one was on.
pub proof fn law_tab_moves_are_inverse(a: AppModel)
    requires
        a.tabs_valid(),
    ensures
        previous_tab(next_tab(a)) == a,
        next_tab(previous_tab(a)) == a,
{
    if no_question(a) {
        let n = a.collections.len() as int;
        let i = a.active_collection as int;
        lemma_wrap(i, n);
    }
}

/// While something lies over the whole program, no session changes and
/// nothing is to be done, whatever message for a session comes.
#[verifier::spinoff_prover]
pub proof fn law_what_covers_the_program_keeps_the_sessions(a: AppModel, msg: Message)
    requires
        covered(a),
        !process_wide(msg),
    ensures
        app_updated(a, msg).0.collections == a.collections,
        app_updated(a, msg).0.active_collection == a.active_collection,
        app_updated(a, msg).1 == EffectModel::Nothing,
{
}

/// The list of keys can be opened over anything, and closing it again leaves
/// everything as it was.
#[verifier::spinoff_prover]
pub proof fn law_the_cheatsheet_changes_nothing_else(a: AppModel)
    ensures
        app_updated(app_updated(a, Message::OpenCheatsheet).0, Message::CloseCheatsheet).0 == (
        AppModel { cheatsheet_open: false, ..a }),
{
}

proof fn lemma_dirty_count(sessions: Seq<SessionModel>)
    ensures
        dirty_count(sessions) <= sessions.len(),
        dirty_count(sessions) == 0 <==> (forall|i: int|
            0 <= i < sessions.len() ==> !(#[trigger] sessions[i]).is_dirty()),
    decreases sessions.len(),
{
    if sessions.len() > 0 {
        let rest = sessions.drop_last();
        lemma_dirty_count(rest);
        if dirty_count(sessions) == 0 {
            assert forall|i: int| 0 <= i < sessions.len() implies !(
            #[trigger] sessions[i]).is_dirty() by {
                if i < rest.len() {
                    assert(rest[i] == sessions[i]);
                }
            }
        } else if forall|i: int|
            0 <= i < sessions.len() ==> !(#[trigger] sessions[i]).is_dirty() {
            assert forall|i: int| 0 <= i < rest.len() implies !(#[trigger] rest[i]).is_dirty() by {
                assert(rest[i] == sessions[i]);
            }
            assert(!sessions[sessions.len() - 1].is_dirty());
        }
    }
}

/// Asked to quit, the program quits at once exactly where no session would
/// lose anything, and asks first everywhere else. The question is withdrawn
/// without a trace, and quitting again or saying yes answers it.
#[verifier::spinoff_prover]
pub proof fn law_quitting_asks_where_something_would_be_lost(a: AppModel)
    requires
        a.quit_confirm is None,
        !a.should_quit,
    ensures
        app_updated(a, Message::Quit).0.should_quit <==> (forall|i: int|
            0 <= i < a.collections.len() ==> !(#[trigger] a.collections[i]).is_dirty()),
        app_updated(a, Message::Quit).0.quit_confirm is Some
            <==> !app_updated(a, Message::Quit).0.should_quit,
        app_updated(a, Message::Quit).0.collections == a.collections,
        app_updated(app_updated(a, Message::Quit).0, Message::CancelQuit).0 == (AppModel {
            should_quit: app_updated(a, Message::Quit).0.should_quit,
            ..a
        }),
        app_updated(app_updated(a, Message::Quit).0, Message::Quit).0.should_quit,
        app_updated(app_updated(a, Message::Quit).0, Message::ConfirmQuit).0.should_quit,
{
    lemma_dirty_count(a.collections);
}

// ---------------------------------------------------------------------------
// Selection and scrolling
// ---------------------------------------------------------------------------

/// Moving a selection on and back, or back and on, returns it to where it
/// was, and it is never moved out of the list.
pub proof fn law_selection_moves_are_inverse(selected: int, len: int)
    requires
        0 <= selected < len,
    ensures
        wrapped(wrapped(selected, len, 1), len, -1) == selected,
        wrapped(wrapped(selected, len, -1), len, 1) == selected,
        0 <= wrapped(selected, len, 1) < len,
        0 <= wrapped(selected, len, -1) < len,
{
    lemma_wrap(selected, len);
    vstd::arithmetic::div_mod::lemma_mod_add_multiples_vanish(selected - 1, len);
    vstd::arithmetic::div_mod::lemma_mod_add_multiples_vanish(wrapped(selected, len, 1) - 1, len);
    assert(wrapped(selected, len, -1) == (selected + len - 1) % len);
}

/// While a run is under way the selection stays where it is, so that its
/// answer is kept with the request that was run. Only another collection ends
/// that.
#[verifier::spinoff_prover]
pub proof fn law_a_run_keeps_its_selection(s: SessionModel, msg: Message)
    requires
        well_formed(s),
        s.run_state == RunState::InFlight,
        !(msg is CollectionLoaded),
        !(msg is NoCollectionPath),
    ensures
        session_updated(s, msg).0.load_state == s.load_state,
        session_updated(s, msg).0.run_state == RunState::InFlight,
        session_updated(s, msg).0.run_history == s.run_history,
{
}

/// Revealing what is hidden and hiding it again changes nothing.
pub proof fn law_revealing_twice_changes_nothing(s: SessionModel)
    ensures
        reveal_toggled(reveal_toggled(s)) == s,
{
}

/// A page down and a page up again is where one was, unless the end of what
/// can be counted was met.
#[verifier::spinoff_prover]
pub proof fn law_a_page_down_and_up_changes_nothing(s: SessionModel)
    requires
        s.response_scroll + SCROLL_STEP_LINES <= usize::MAX,
        s.history_overlay is Some ==> s.history_overlay->0.view_scroll + SCROLL_STEP_LINES
            <= usize::MAX,
    ensures
        session_updated(
            session_updated(s, Message::ScrollResponseDown).0,
            Message::ScrollResponseUp,
        ).0 == s,
{
}

/// Another request starts with nothing revealed and nothing scrolled, and
/// without the answer of the one before.
pub proof fn law_another_request_starts_afresh(s: SessionModel, index: usize)
    requires
        s.load_state is Loaded,
        index != s.load_state->selected,
    ensures
        reselected(s, index).run_state == RunState::Idle,
        reselected(s, index).response_scroll == 0,
        !reselected(s, index).reveal_captures,
        reselected(s, index).current_run() is None,
{
}

/// While requests are searched by name, the selection is on one that the
/// search shows after every change of the search, where it shows any.
pub proof fn law_a_search_selects_a_match(s: SessionModel, change: TextEdit)
    requires
        s.load_state is Loaded,
        s.request_filter is Some,
        s.run_state != RunState::InFlight,
    ensures
        ({
            let t = filter_edited(s, change);
            let shown = matching(t.load_state->document, t.request_filter->0.value);
            &&& t.load_state->document == s.load_state->document
            &&& shown.len() > 0 ==> shown.contains(t.load_state->selected)
        }),
{
    let t = filter_edited(s, change);
    let shown = matching(t.load_state->document, t.request_filter->0.value);
    if shown.len() > 0 && !shown.contains(s.load_state->selected) {
        assert(shown[0] == t.load_state->selected);
    }
}

// ---------------------------------------------------------------------------
// Past runs
// ---------------------------------------------------------------------------

/// A finished run is the first of its request's past runs, those before it
/// follow in their order, and of all that ever finished each is either
/// remembered or counted as forgotten.
pub proof fn law_the_newest_run_comes_first(s: SessionModel, entry: RunHistoryEntry)
    requires
        well_formed(s),
        s.load_state is Loaded,
        s.selected_history_dropped() < usize::MAX,
    ensures
        ({
            let t = run_completed(s, entry);
            let kept = t.selected_history();
            &&& 0 < kept.len() <= RUN_HISTORY_CAP
            &&& kept[0] == entry
            &&& forall|i: int| 1 <= i < kept.len() ==> kept[i] == s.selected_history()[i - 1]
            &&& kept.len() + t.selected_history_dropped() == s.selected_history().len()
                + s.selected_history_dropped() + 1
            &&& t.current_run() == Some(entry.outcome)
        }),
{
    let selected = s.load_state->selected;
    if s.run_history.contains_key(selected) {
        assert(s.run_history[selected].len() <= RUN_HISTORY_CAP);
    }
}

/// A finished run changes the past runs of no request but the selected one.
pub proof fn law_a_run_is_kept_with_its_request(
    s: SessionModel,
    entry: RunHistoryEntry,
    other: usize,
)
    requires
        s.load_state is Loaded,
        other != s.load_state->selected,
    ensures
        run_completed(s, entry).run_history.contains_key(other) == s.run_history.contains_key(
            other,
        ),
        run_completed(s, entry).run_history[other] == s.run_history[other],
{
}

} // verus!
