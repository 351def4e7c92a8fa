//! What a session shows fits together: a finished run is one that it remembers,
//! and at most one thing lies over its requests.
use vstd::prelude::*;

use crate::document::DocumentModel;
use crate::edit::RowChange;
use crate::paths::FilePathModel;
use crate::run::RunHistoryEntry;
use crate::state::{Message, RunState, SCROLL_STEP_LINES, SessionModel};
use crate::text_field::{CursorMove, TextEdit};
use crate::update::collection::{collection_loaded, loaded_result, no_path};
use crate::update::environment_edit::{variables_entered, variables_save_requested};
use crate::update::request_edit::{
    body_reading, cursor_moved, delete_confirmed, delete_requested, edit_cancelled, edit_entered,
    request_added, rows_edited, save_requested,
};
use crate::update::{
    entry_closed, entry_expanded, entry_viewed, filter_opened, focus_moved, moved_sideways,
    refused, reveal_toggled, run_completed, run_requested, saturating_difference, saturating_sum,
    scrolled, selection_moved, session_answered, session_updated, typed,
};

verus! {

/// Whether at most one of a form, the environment picker, the list of past
/// runs and the question about a deletion is open, and a form for variables
/// only over the picker.
pub open spec fn one_thing_open(s: SessionModel) -> bool {
    &&& s.edit_mode is Some ==> s.environment_overlay is None && s.history_overlay is None
        && s.delete_confirm is None
    &&& s.environment_overlay is Some ==> s.history_overlay is None && s.delete_confirm is None
    &&& s.history_overlay is Some ==> s.delete_confirm is None
    &&& s.environment_edit is Some ==> s.environment_overlay is Some
}

// ---------------------------------------------------------------------------
// One handler at a time
// ---------------------------------------------------------------------------

/// Whether what a session shows still fits together in another.
#[verifier::opaque]
spec fn steady(s: SessionModel, t: SessionModel) -> bool {
    &&& s.finished_run_known() ==> t.finished_run_known()
    &&& one_thing_open(s) ==> one_thing_open(t)
}

/// Whether two sessions agree on all that is shown of a run, and on what is
/// open.
spec fn same_shown(s: SessionModel, t: SessionModel) -> bool {
    &&& t.load_state == s.load_state
    &&& t.run_state == s.run_state
    &&& t.run_history == s.run_history
    &&& t.edit_mode is Some == s.edit_mode is Some
    &&& t.environment_overlay is Some == s.environment_overlay is Some
    &&& t.environment_edit is Some == s.environment_edit is Some
    &&& t.history_overlay is Some == s.history_overlay is Some
    &&& t.delete_confirm is Some == s.delete_confirm is Some
}

proof fn lemma_same_shown(s: SessionModel, t: SessionModel)
    requires
        same_shown(s, t),
    ensures
        steady(s, t),
{
    reveal(steady);
}

proof fn lemma_fits_together(s: SessionModel, t: SessionModel)
    requires
        steady(s, t),
    ensures
        s.finished_run_known() ==> t.finished_run_known(),
        one_thing_open(s) ==> one_thing_open(t),
{
    reveal(steady);
}

proof fn lemma_steady_loading(
    s: SessionModel,
    base_dir: Seq<char>,
    path: FilePathModel,
    result: Result<DocumentModel, Seq<char>>,
)
    ensures
        steady(s, no_path(s)),
        steady(s, collection_loaded(s, base_dir, path, result)),
{
    reveal(steady);
}

proof fn lemma_steady_running(s: SessionModel)
    ensures
        steady(s, run_requested(s).0),
{
    reveal(steady);
}

proof fn lemma_steady_deletion(s: SessionModel)
    ensures
        !refused(s, Message::RequestDelete) ==> steady(s, delete_requested(s)),
        steady(s, delete_confirmed(s).0),
{
    reveal(steady);
}

proof fn lemma_steady_typing(s: SessionModel, change: TextEdit)
    ensures
        steady(s, typed(s, change)),
{
    reveal(steady);
}

proof fn lemma_steady_cursor(s: SessionModel, forward: bool, step: CursorMove)
    ensures
        steady(s, focus_moved(s, forward)),
        steady(s, moved_sideways(s, forward)),
        steady(s, cursor_moved(s, step)),
{
    lemma_same_shown(s, focus_moved(s, forward));
    lemma_same_shown(s, moved_sideways(s, forward));
    lemma_same_shown(s, cursor_moved(s, step));
}

proof fn lemma_steady_rows(s: SessionModel, change: RowChange)
    ensures
        steady(s, rows_edited(s, change)),
{
    lemma_same_shown(s, rows_edited(s, change));
}

proof fn lemma_steady_opening(s: SessionModel)
    ensures
        !refused(s, Message::EnterEditMode) ==> steady(s, edit_entered(s)),
        !refused(s, Message::AddRequest) ==> steady(s, request_added(s)),
{
    reveal(steady);
}

proof fn lemma_steady_editing(s: SessionModel, delta: int)
    ensures
        steady(s, edit_cancelled(s)),
        steady(s, selection_moved(s, delta)),
        s.edit_mode is Some ==> steady(
            s,
            save_requested(s, body_reading(s.edit_mode->0.body)).0,
        ),
{
    reveal(steady);
}

proof fn lemma_steady_variables(s: SessionModel)
    ensures
        steady(s, variables_entered(s)),
        steady(s, SessionModel { environment_edit: None, ..s }),
        steady(s, variables_save_requested(s).0),
{
    reveal(steady);
}

proof fn lemma_steady_scrolling(s: SessionModel, to: spec_fn(usize) -> usize)
    ensures
        steady(s, scrolled(s, to)),
        steady(s, reveal_toggled(s)),
        steady(s, entry_viewed(s)),
        steady(s, entry_closed(s)),
        steady(s, entry_expanded(s)),
        steady(s, filter_opened(s)),
{
    lemma_same_shown(s, scrolled(s, to));
    lemma_same_shown(s, reveal_toggled(s));
    lemma_same_shown(s, entry_viewed(s));
    lemma_same_shown(s, entry_closed(s));
    lemma_same_shown(s, entry_expanded(s));
    lemma_same_shown(s, filter_opened(s));
}

proof fn lemma_steady_overlays(s: SessionModel, msg: Message)
    requires
        ({
            ||| msg is OpenEnvironmentOverlay
            ||| msg is CloseEnvironmentOverlay
            ||| msg is ConfirmEnvironmentSelection
            ||| msg is OpenHistoryOverlay
            ||| msg is CloseHistoryOverlay
            ||| msg is CancelDelete
        }),
    ensures
        steady(s, session_updated(s, msg).0),
{
    reveal(steady);
}

#[verifier::spinoff_prover]
proof fn lemma_steady(s: SessionModel, msg: Message)
    ensures
        steady(s, session_updated(s, msg).0),
{
    let t = session_updated(s, msg).0;
    let up = CursorMove::Up;
    let down = CursorMove::Down;
    if refused(s, msg) {
        lemma_same_shown(s, s);
    } else {
        match msg {
            Message::NoCollectionPath => {
                lemma_steady_loading(s, Seq::empty(), s.load_state->path, Err(Seq::empty()));
            },
            Message::CollectionLoaded { base_dir, path, result } => {
                lemma_steady_loading(s, base_dir@, path@, loaded_result(result));
            },
            Message::RunRequested => lemma_steady_running(s),
            Message::RequestDelete | Message::ConfirmDelete => lemma_steady_deletion(s),
            Message::SaveEdit => {
                if s.edit_mode is Some {
                    lemma_steady_editing(s, 0);
                } else {
                    lemma_same_shown(s, t);
                }
            },
            Message::SelectNext => lemma_steady_editing(s, 1),
            Message::SelectPrevious => lemma_steady_editing(s, -1),
            Message::CancelEdit => lemma_steady_editing(s, 0),
            Message::AddRequest | Message::EnterEditMode => lemma_steady_opening(s),
            Message::OpenEnvironmentOverlay
            | Message::CloseEnvironmentOverlay
            | Message::ConfirmEnvironmentSelection
            | Message::OpenHistoryOverlay
            | Message::CloseHistoryOverlay
            | Message::CancelDelete => lemma_steady_overlays(s, msg),
            Message::EditFocusNext => lemma_steady_cursor(s, true, up),
            Message::EditFocusPrev => lemma_steady_cursor(s, false, up),
            Message::EditCursorLeft => lemma_steady_cursor(s, false, up),
            Message::EditCursorRight => lemma_steady_cursor(s, true, up),
            Message::EditCursorUp => lemma_steady_cursor(s, true, up),
            Message::EditCursorDown => lemma_steady_cursor(s, true, down),
            Message::AddHeaderRow => lemma_steady_rows(s, RowChange::AddHeader),
            Message::DeleteHeaderRow => lemma_steady_rows(s, RowChange::DeleteHeader),
            Message::AddAssertionRow => lemma_steady_rows(s, RowChange::AddAssertion),
            Message::DeleteAssertionRow => lemma_steady_rows(s, RowChange::DeleteAssertion),
            Message::AddCaptureRow => lemma_steady_rows(s, RowChange::AddCapture),
            Message::DeleteCaptureRow => lemma_steady_rows(s, RowChange::DeleteCapture),
            Message::EditInsertChar(c) => lemma_steady_typing(s, TextEdit::Insert(c)),
            Message::EditBackspace => lemma_steady_typing(s, TextEdit::Backspace),
            Message::EditDelete => lemma_steady_typing(s, TextEdit::Delete),
            Message::EnterEnvironmentEdit
            | Message::CancelEnvironmentEdit
            | Message::SaveEnvironmentEdit => lemma_steady_variables(s),
            Message::ScrollResponseDown => {
                lemma_steady_scrolling(
                    s,
                    |at: usize| saturating_sum(at as int, SCROLL_STEP_LINES as int),
                );
            },
            Message::ScrollResponseUp => {
                lemma_steady_scrolling(
                    s,
                    |at: usize| saturating_difference(at as int, SCROLL_STEP_LINES as int),
                );
            },
            Message::ScrollResponseTop => lemma_steady_scrolling(s, |at: usize| 0),
            Message::ScrollResponseBottom => lemma_steady_scrolling(s, |at: usize| usize::MAX),
            Message::ToggleRevealCaptures
            | Message::ViewHistoryEntry
            | Message::CloseHistoryEntryView
            | Message::ToggleHistoryEntryExpanded
            | Message::OpenRequestFilter => lemma_steady_scrolling(s, |at: usize| at),
            _ => lemma_same_shown(s, t),
        }
    }
}

// ---------------------------------------------------------------------------
// Finished runs
// ---------------------------------------------------------------------------

/// A session shows a finished run only while it remembers it, whatever it is
/// told.
pub proof fn law_a_finished_run_stays_known(s: SessionModel, msg: Message)
    requires
        s.finished_run_known(),
    ensures
        session_updated(s, msg).0.finished_run_known(),
{
    lemma_steady(s, msg);
    lemma_fits_together(s, session_updated(s, msg).0);
}

/// A session shows a finished run only while it remembers it, whatever it is
/// told of what was done for it. A run that it is told of is the one that it
/// then shows, if any.
#[verifier::spinoff_prover]
pub proof fn law_an_answer_keeps_a_finished_run_known(s: SessionModel, msg: Message)
    requires
        s.finished_run_known(),
    ensures
        session_answered(s, msg).finished_run_known(),
        msg matches Message::RunCompleted { outcome, .. } ==> {
            let t = session_answered(s, msg);
            &&& t.run_state == RunState::Completed <==> s.load_state is Loaded
            &&& t.run_state == RunState::Completed ==> t.current_run() == Some(outcome)
        },
{
    if let Message::RunCompleted { outcome, completed_at, .. } = msg {
        let entry = RunHistoryEntry { completed_at, outcome };
        let t = run_completed(s, entry);
        if s.load_state is Loaded {
            assert(t.selected_history()[0] == entry);
        }
    }
}

// ---------------------------------------------------------------------------
// One thing at a time
// ---------------------------------------------------------------------------

/// Whatever a session is told, at most one thing stays open over its requests.
pub proof fn law_one_thing_stays_open(s: SessionModel, msg: Message)
    requires
        one_thing_open(s),
    ensures
        one_thing_open(session_updated(s, msg).0),
{
    lemma_steady(s, msg);
    lemma_fits_together(s, session_updated(s, msg).0);
}

/// Whatever a session is told of what was done for it, at most one thing stays
/// open over its requests.
pub proof fn law_an_answer_opens_nothing_else(s: SessionModel, msg: Message)
    requires
        one_thing_open(s),
    ensures
        one_thing_open(session_answered(s, msg)),
{
}

} // verus!
