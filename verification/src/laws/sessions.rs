//! What stays true of every session.
use vstd::prelude::*;

use crate::document::DocumentModel;
use crate::edit::{
    EditModel, RowChange, law_edits_keep_focus_valid, law_focus_moves_stay_valid,
    law_row_changes_keep_focus_valid,
};
use crate::paths::FilePathModel;
use crate::run::RunHistoryEntry;
use crate::state::{Message, RUN_HISTORY_CAP, RunState, SCROLL_STEP_LINES, SessionModel};
use crate::text_field::{CursorMove, TextEdit};
use crate::update::collection::{collection_loaded, loaded_result, no_path};
use crate::update::environment_edit::{variables_entered, variables_save_requested};
use crate::update::request_edit::{
    body_reading, cursor_moved, delete_confirmed, delete_requested, edit_cancelled, edit_entered,
    form_edited, moved_or_turned, request_added, rows_edited, save_requested, text_edited,
    unshifted,
};
use crate::update::{
    entry_closed, entry_expanded, entry_viewed, filter_opened, focus_moved, moved_sideways,
    refused, reveal_toggled, run_completed, run_requested, saturating_difference, saturating_sum,
    scrolled, selection_moved, session_answered, session_updated, typed,
};
use crate::variables_form::law_variables_focus_stays_valid;
use crate::view::screen::showable;

verus! {

/// What is true of every session: the focus of an open form is on one of its
/// fields, a finished run is remembered, no more runs are remembered than
/// may be, a form and a run never go on at once, and a request is being added
/// only while its form is open.
pub open spec fn well_formed(s: SessionModel) -> bool {
    &&& showable(s)
    &&& s.finished_run_known()
    &&& s.environment_edit is Some ==> s.environment_edit->0.focus_valid()
    &&& s.edit_mode is Some ==> s.run_state != RunState::InFlight
    &&& s.pending_new_request is Some ==> s.edit_mode is Some
    &&& forall|k: usize| #[trigger]
        s.run_history.contains_key(k) ==> s.run_history[k].len() <= RUN_HISTORY_CAP
}

/// The rows of a session's forms can be counted by the machine, one more
/// included.
pub open spec fn rows_countable(s: SessionModel) -> bool {
    &&& s.edit_mode is Some ==> {
        &&& s.edit_mode->0.headers.len() < usize::MAX
        &&& s.edit_mode->0.assertions.len() < usize::MAX
        &&& s.edit_mode->0.captures.len() < usize::MAX
    }
    &&& s.environment_edit is Some ==> s.environment_edit->0.rows.len() < usize::MAX
}

proof fn lemma_form_edits_keep_focus(edit: EditModel, change: TextEdit)
    requires
        edit.focus_valid(),
    ensures
        form_edited(edit, change).focus_valid(),
{
    if edit.field_at(edit.focus) is Some {
        law_edits_keep_focus_valid(edit, edit.field_at(edit.focus)->0.edited(change), true);
    }
}

/// A session with another form in place of its own, at most another mark on a
/// request, and otherwise as it was.
spec fn form_replaced(s: SessionModel, t: SessionModel) -> bool {
    &&& s.edit_mode is Some
    &&& t.edit_mode is Some
    &&& t == (SessionModel {
        edit_mode: t.edit_mode,
        dirty_requests: t.dirty_requests,
        ..s
    })
}

proof fn lemma_form_replaced(s: SessionModel, t: SessionModel)
    requires
        well_formed(s),
        form_replaced(s, t),
        t.edit_mode->0.focus_valid(),
    ensures
        well_formed(t),
{
}

proof fn lemma_text_edited(s: SessionModel, change: TextEdit)
    requires
        well_formed(s),
    ensures
        well_formed(text_edited(s, change)),
{
    if s.edit_mode is Some {
        lemma_form_edits_keep_focus(s.edit_mode->0, change);
        let t = text_edited(s, change);
        if t != s {
            lemma_form_replaced(s, t);
        }
    }
}

proof fn lemma_rows_edited(s: SessionModel, change: RowChange)
    requires
        well_formed(s),
        rows_countable(s),
    ensures
        well_formed(rows_edited(s, change)),
{
    if s.edit_mode is Some {
        law_row_changes_keep_focus_valid(s.edit_mode->0, change);
        lemma_form_replaced(s, rows_edited(s, change));
    }
}

proof fn lemma_cursor_moved(s: SessionModel, step: CursorMove)
    requires
        well_formed(s),
    ensures
        well_formed(cursor_moved(s, step)),
{
    if s.edit_mode is Some {
        let edit = s.edit_mode->0;
        if edit.field_at(edit.focus) is Some {
            law_edits_keep_focus_valid(edit, edit.field_at(edit.focus)->0.moved(step), true);
            lemma_form_replaced(s, cursor_moved(s, step));
        }
    }
}

proof fn lemma_moved_or_turned(s: SessionModel, forward: bool)
    requires
        well_formed(s),
    ensures
        well_formed(moved_or_turned(s, forward)),
{
    if s.edit_mode is Some {
        let edit = s.edit_mode->0;
        if edit.turned(forward) is Some {
            law_edits_keep_focus_valid(edit, edit.name, forward);
            lemma_form_replaced(s, moved_or_turned(s, forward));
        } else {
            lemma_cursor_moved(
                s,
                if forward {
                    CursorMove::Right
                } else {
                    CursorMove::Left
                },
            );
        }
    }
}

proof fn lemma_focus_moved(s: SessionModel, forward: bool)
    requires
        well_formed(s),
        rows_countable(s),
    ensures
        well_formed(focus_moved(s, forward)),
{
    if s.edit_mode is Some {
        law_focus_moves_stay_valid(s.edit_mode->0);
        lemma_form_replaced(s, focus_moved(s, forward));
    } else if s.environment_edit is Some {
        let form = s.environment_edit->0;
        law_variables_focus_stays_valid(form, form.rows[0].key);
    }
}

proof fn lemma_typed(s: SessionModel, change: TextEdit)
    requires
        well_formed(s),
        rows_countable(s),
    ensures
        well_formed(typed(s, change)),
{
    if s.edit_mode is Some {
        lemma_text_edited(s, change);
    }
}

proof fn lemma_moved_sideways(s: SessionModel, forward: bool)
    requires
        well_formed(s),
        rows_countable(s),
    ensures
        well_formed(moved_sideways(s, forward)),
{
    if s.edit_mode is Some {
        lemma_moved_or_turned(s, forward);
    }
}

proof fn lemma_form_opened(s: SessionModel)
    requires
        well_formed(s),
    ensures
        well_formed(edit_entered(s)),
        well_formed(request_added(s)),
        well_formed(edit_cancelled(s)),
{
}

proof fn lemma_save_requested(s: SessionModel, reading: Result<Seq<char>, Seq<char>>)
    requires
        well_formed(s),
    ensures
        well_formed(save_requested(s, reading).0),
{
    if s.edit_mode is Some {
        let t = save_requested(s, reading).0;
        assert(t.edit_mode->0.focus_valid());
        lemma_form_replaced(s, t);
    }
}

proof fn lemma_selection_moved(s: SessionModel, delta: int)
    requires
        well_formed(s),
        s.edit_mode is None,
    ensures
        well_formed(selection_moved(s, delta)),
{
}

/// Whether two sessions agree on all that well-formedness speaks of.
spec fn core_same(s: SessionModel, t: SessionModel) -> bool {
    &&& t.load_state == s.load_state
    &&& t.edit_mode == s.edit_mode
    &&& t.environment_edit == s.environment_edit
    &&& t.run_state == s.run_state
    &&& t.pending_new_request == s.pending_new_request
    &&& t.run_history == s.run_history
}

/// A session with another form for variables, at most other environments, and
/// otherwise as it was.
spec fn variables_replaced(s: SessionModel, t: SessionModel) -> bool {
    &&& t.load_state == s.load_state
    &&& t.edit_mode == s.edit_mode
    &&& t.environment_edit is Some ==> t.environment_edit->0.focus_valid()
    &&& t.run_state == s.run_state
    &&& t.pending_new_request == s.pending_new_request
    &&& t.run_history == s.run_history
}

/// Well-formedness, without what it says.
#[verifier::opaque]
spec fn kept(s: SessionModel) -> bool {
    well_formed(s)
}

proof fn lemma_core_same(s: SessionModel, t: SessionModel)
    requires
        kept(s),
        core_same(s, t),
    ensures
        kept(t),
{
    reveal(kept);
}

proof fn lemma_variables_replaced(s: SessionModel, t: SessionModel)
    requires
        kept(s),
        variables_replaced(s, t),
    ensures
        kept(t),
{
    reveal(kept);
}

proof fn lemma_kept_loading(
    s: SessionModel,
    base_dir: Seq<char>,
    path: FilePathModel,
    result: Result<DocumentModel, Seq<char>>,
)
    requires
        kept(s),
    ensures
        kept(no_path(s)),
        kept(collection_loaded(s, base_dir, path, result)),
        s.edit_mode is None ==> kept(run_requested(s).0),
        kept(delete_confirmed(s).0),
        kept(delete_requested(s)),
{
    reveal(kept);
}

proof fn lemma_kept_form(s: SessionModel, forward: bool, change: TextEdit, step: CursorMove)
    requires
        kept(s),
        rows_countable(s),
    ensures
        kept(focus_moved(s, forward)),
        kept(typed(s, change)),
        kept(moved_sideways(s, forward)),
        kept(cursor_moved(s, step)),
{
    reveal(kept);
    lemma_focus_moved(s, forward);
    lemma_typed(s, change);
    lemma_moved_sideways(s, forward);
    lemma_cursor_moved(s, step);
}

proof fn lemma_kept_rows(s: SessionModel, change: RowChange)
    requires
        kept(s),
        rows_countable(s),
    ensures
        kept(rows_edited(s, change)),
{
    reveal(kept);
    lemma_rows_edited(s, change);
}

proof fn lemma_kept_editing(s: SessionModel, delta: int)
    requires
        kept(s),
    ensures
        kept(edit_entered(s)),
        kept(request_added(s)),
        kept(edit_cancelled(s)),
        s.edit_mode is None ==> kept(selection_moved(s, delta)),
        s.edit_mode is Some ==> kept(
            save_requested(s, body_reading(s.edit_mode->0.body)).0,
        ),
{
    reveal(kept);
    lemma_form_opened(s);
    if s.edit_mode is None {
        lemma_selection_moved(s, delta);
    } else {
        lemma_save_requested(s, body_reading(s.edit_mode->0.body));
    }
}

proof fn lemma_kept_variables(s: SessionModel)
    requires
        kept(s),
        rows_countable(s),
    ensures
        kept(variables_entered(s)),
        kept(SessionModel { environment_edit: None, ..s }),
        kept(variables_save_requested(s).0),
        s.environment_edit is Some ==> {
            let form = s.environment_edit->0;
            &&& kept(SessionModel { environment_edit: Some(form.row_added()), ..s })
            &&& kept(SessionModel { environment_edit: Some(form.delete_requested()), ..s })
            &&& kept(SessionModel { environment_edit: Some(form.delete_confirmed()), ..s })
            &&& kept(SessionModel { environment_edit: Some(form.delete_cancelled()), ..s })
        },
{
    reveal(kept);
    lemma_variables_replaced(s, variables_entered(s));
    lemma_variables_replaced(s, variables_save_requested(s).0);
    if s.environment_edit is Some {
        let form = s.environment_edit->0;
        law_variables_focus_stays_valid(form, form.rows[0].key);
    }
}

proof fn lemma_kept_scrolling(s: SessionModel, to: spec_fn(usize) -> usize)
    requires
        kept(s),
    ensures
        kept(scrolled(s, to)),
        kept(reveal_toggled(s)),
        kept(entry_viewed(s)),
        kept(entry_closed(s)),
        kept(entry_expanded(s)),
        kept(filter_opened(s)),
{
    lemma_core_same(s, scrolled(s, to));
    lemma_core_same(s, reveal_toggled(s));
    lemma_core_same(s, entry_viewed(s));
    lemma_core_same(s, entry_closed(s));
    lemma_core_same(s, entry_expanded(s));
    lemma_core_same(s, filter_opened(s));
}

#[verifier::spinoff_prover]
proof fn lemma_kept(s: SessionModel, msg: Message)
    requires
        kept(s),
        rows_countable(s),
    ensures
        kept(session_updated(s, msg).0),
{
    let t = session_updated(s, msg).0;
    let up = CursorMove::Up;
    let down = CursorMove::Down;
    if !refused(s, msg) {
        match msg {
            Message::NoCollectionPath | Message::ConfirmDelete | Message::RequestDelete => {
                lemma_kept_loading(s, Seq::empty(), s.load_state->path, Err(Seq::empty()));
            },
            Message::RunRequested => {
                assert(s.edit_mode is None);
                lemma_kept_loading(s, Seq::empty(), s.load_state->path, Err(Seq::empty()));
            },
            Message::CollectionLoaded { base_dir, path, result } => {
                lemma_kept_loading(s, base_dir@, path@, loaded_result(result));
            },
            Message::SaveEdit => {
                if s.edit_mode is Some {
                    lemma_kept_editing(s, 0);
                }
            },
            Message::SelectNext => {
                lemma_kept_editing(s, 1);
            },
            Message::SelectPrevious => {
                lemma_kept_editing(s, -1);
            },
            Message::AddRequest | Message::EnterEditMode | Message::CancelEdit => {
                lemma_kept_editing(s, 0);
            },
            Message::EditFocusNext => lemma_kept_form(s, true, TextEdit::Delete, up),
            Message::EditFocusPrev => lemma_kept_form(s, false, TextEdit::Delete, up),
            Message::AddHeaderRow => lemma_kept_rows(s, RowChange::AddHeader),
            Message::DeleteHeaderRow => lemma_kept_rows(s, RowChange::DeleteHeader),
            Message::AddAssertionRow => lemma_kept_rows(s, RowChange::AddAssertion),
            Message::DeleteAssertionRow => lemma_kept_rows(s, RowChange::DeleteAssertion),
            Message::AddCaptureRow => lemma_kept_rows(s, RowChange::AddCapture),
            Message::DeleteCaptureRow => lemma_kept_rows(s, RowChange::DeleteCapture),
            Message::EditInsertChar(c) => lemma_kept_form(s, true, TextEdit::Insert(c), up),
            Message::EditBackspace => lemma_kept_form(s, true, TextEdit::Backspace, up),
            Message::EditDelete => lemma_kept_form(s, true, TextEdit::Delete, up),
            Message::EditCursorLeft => lemma_kept_form(s, false, TextEdit::Delete, up),
            Message::EditCursorRight => lemma_kept_form(s, true, TextEdit::Delete, up),
            Message::EditCursorUp => lemma_kept_form(s, true, TextEdit::Delete, up),
            Message::EditCursorDown => lemma_kept_form(s, true, TextEdit::Delete, down),
            Message::EnterEnvironmentEdit
            | Message::CancelEnvironmentEdit
            | Message::SaveEnvironmentEdit
            | Message::AddEnvVarRow
            | Message::RequestDeleteEnvVarRow
            | Message::ConfirmDeleteEnvVarRow
            | Message::CancelDeleteEnvVarRow => {
                lemma_kept_variables(s);
            },
            Message::ScrollResponseDown => {
                lemma_kept_scrolling(
                    s,
                    |at: usize| saturating_sum(at as int, SCROLL_STEP_LINES as int),
                );
            },
            Message::ScrollResponseUp => {
                lemma_kept_scrolling(
                    s,
                    |at: usize| saturating_difference(at as int, SCROLL_STEP_LINES as int),
                );
            },
            Message::ScrollResponseTop => {
                lemma_kept_scrolling(s, |at: usize| 0);
            },
            Message::ScrollResponseBottom => {
                lemma_kept_scrolling(s, |at: usize| usize::MAX);
            },
            Message::ToggleRevealCaptures
            | Message::ViewHistoryEntry
            | Message::CloseHistoryEntryView
            | Message::ToggleHistoryEntryExpanded
            | Message::OpenRequestFilter => {
                lemma_kept_scrolling(s, |at: usize| at);
            },
            _ => {
                lemma_core_same(s, t);
            },
        }
    }
}

/// Whatever a well-formed session is told, it stays well-formed.
pub proof fn law_sessions_stay_well_formed(s: SessionModel, msg: Message)
    requires
        well_formed(s),
        rows_countable(s),
    ensures
        well_formed(session_updated(s, msg).0),
{
    reveal(kept);
    lemma_kept(s, msg);
}

/// Whatever a well-formed session is told of what was done for it, it stays
/// well-formed.
#[verifier::spinoff_prover]
pub proof fn law_answered_sessions_stay_well_formed(s: SessionModel, msg: Message)
    requires
        well_formed(s),
    ensures
        well_formed(session_answered(s, msg)),
        session_answered(s, msg).id == s.id,
{
    match msg {
        Message::RunCompleted { outcome, completed_at, .. } => {
            let entry = RunHistoryEntry { completed_at, outcome };
            let t = session_answered(s, msg);
            assert(t == run_completed(s, entry));
            if s.load_state is Loaded {
                assert(t.selected_history()[0] == entry);
            }
            assert forall|k: usize| #[trigger] t.run_history.contains_key(k) implies
                t.run_history[k].len() <= RUN_HISTORY_CAP by {
                if s.run_history.contains_key(k) {
                    assert(s.run_history[k].len() <= RUN_HISTORY_CAP);
                }
            }
        },
        Message::DeleteSaved { index, .. } => {
            let t = session_answered(s, msg);
            assert forall|k: usize| #[trigger] t.run_history.contains_key(k) implies
                t.run_history[k].len() <= RUN_HISTORY_CAP by {
                if t.run_history != s.run_history {
                    assert(s.run_history.contains_key(unshifted(k, index) as usize));
                }
            }
        },
        _ => {},
    }
}

} // verus!
