//! What keeps a form from being saved, and how its cursor moves.
use vstd::prelude::*;

use crate::document::{DocumentModel, Method, lemma_document_problem, method_named};
use crate::edit::{BodyEditModel, EditField, EditModel};
use crate::laws::rows::{lemma_text_replaced, same_choices, text_at};
use crate::state::{EffectModel, Message, SessionModel};
use crate::text::{lower, trim};
use crate::text_field::CursorMove;
use crate::update::request_edit::{cursor_moved, moved_or_turned, save_requested};
use crate::update::session_updated;

verus! {

/// Whether something in a form is wrong: its method is none, one of its
/// assertions holds a value that is none, or its JSON body, where it has one,
/// could not be read.
pub open spec fn something_wrong(edit: EditModel, reading: Result<Seq<char>, Seq<char>>) -> bool {
    ||| edit.method_error is Some
    ||| exists|i: int|
        0 <= i < edit.assertions.len() && (#[trigger] edit.assertions[i]).value_error is Some
    ||| (edit.body matches BodyEditModel::Editable { text, is_json: true } && trim(
        text.value,
    ).len() > 0 && reading is Err)
}

/// A form that something is wrong with is not saved, and where its JSON body is
/// wrong it says so; the form stays open.
pub proof fn law_a_wrong_form_is_not_saved(
    s: SessionModel,
    reading: Result<Seq<char>, Seq<char>>,
)
    requires
        s.edit_mode is Some,
        something_wrong(s.edit_mode->0, reading),
    ensures
        ({
            let (t, asked) = save_requested(s, reading);
            &&& asked == EffectModel::Nothing
            &&& t.edit_mode is Some
            &&& t == (SessionModel { edit_mode: t.edit_mode, ..s })
            &&& (s.edit_mode->0.body matches BodyEditModel::Editable { text, is_json: true }
                && trim(text.value).len() > 0 && reading is Err) ==> t.edit_mode->0.body_error
                == Some("Body is not valid JSON: "@ + reading->Err_0)
        }),
{
    let edit = s.edit_mode->0;
    if edit.method_error is None && exists|i: int|
        0 <= i < edit.assertions.len() && (#[trigger] edit.assertions[i]).value_error is Some {
        let i = choose|i: int|
            0 <= i < edit.assertions.len() && (#[trigger] edit.assertions[i]).value_error is Some;
        assert(edit.assertions[i].value_error is Some);
    }
}

/// A form that nothing is wrong with is saved, where its document may be
/// written: a single request always, a collection where each of its requests
/// has a name.
pub proof fn law_a_right_form_is_saved(s: SessionModel, reading: Result<Seq<char>, Seq<char>>)
    requires
        s.edit_mode is Some,
        s.request_selected(),
        !something_wrong(s.edit_mode->0, reading),
        s.load_state->document is Single || (s.edit_mode->0.name.value.len() > 0 && forall|i: int|
            0 <= i < s.load_state->document.requests().len() ==> (
            #[trigger] s.load_state->document.requests()[i]).name is Some),
    ensures
        ({
            let (t, asked) = save_requested(s, reading);
            &&& asked is SaveEdit
            &&& t.edit_mode is Some
            &&& t.edit_mode->0.save_error is None
            &&& t.edit_mode->0.body_error is None
        }),
{
    let edit = s.edit_mode->0;
    let checked = crate::update::request_edit::save_checked(edit, reading);
    let candidate = crate::update::request_edit::save_candidate(
        checked,
        s.load_state->document,
        s.load_state->selected,
        reading,
    );
    assert forall|i: int| 0 <= i < checked.assertions.len() implies (
    #[trigger] checked.assertions[i]).value_error is None by {
        assert(edit.assertions[i].value_error is None);
    }
    lemma_document_problem(candidate);
}

/// A document is kept from being written exactly where it is a collection
/// without requests or with one that has no name.
pub proof fn law_a_collection_needs_names(document: DocumentModel)
    ensures
        crate::document::document_problem(document) is Some <==> {
            &&& document is Collection
            &&& document.requests().len() == 0 || exists|i: int|
                0 <= i < document.requests().len() && (
                #[trigger] document.requests()[i]).name is None
        },
{
    lemma_document_problem(document);
}

/// A text names a method exactly where it spells it, in capital or small
/// letters.
pub proof fn law_a_method_is_named_by_its_letters(text: Seq<char>, method: Method)
    ensures
        method_named(text) == Some(method) <==> lower(text) == lower(method.text()),
{
    crate::document::lemma_method_named_text(method);
    if lower(text) == lower(method.text()) {
        assert(method_named(text) == method_named(method.text()));
    }
}

/// A move of the cursor in a form moves the cursor of the text that has the
/// focus, and changes nothing else.
pub proof fn law_the_cursor_moves_in_the_text_in_focus(
    edit: EditModel,
    s: SessionModel,
    step: CursorMove,
)
    requires
        s.edit_mode == Some(edit),
        text_at(edit, edit.focus) is Some,
    ensures
        ({
            let after = cursor_moved(s, step).edit_mode->0;
            &&& cursor_moved(s, step) == (SessionModel {
                edit_mode: cursor_moved(s, step).edit_mode,
                ..s
            })
            &&& same_choices(edit, after)
            &&& after.dirty == edit.dirty
            &&& text_at(after, edit.focus) == Some(text_at(edit, edit.focus)->0.moved(step))
            &&& forall|field: EditField|
                field != edit.focus ==> #[trigger] text_at(after, field) == text_at(edit, field)
        }),
        moved_or_turned(s, true) == cursor_moved(s, CursorMove::Right),
        moved_or_turned(s, false) == cursor_moved(s, CursorMove::Left),
{
    lemma_text_replaced(edit, text_at(edit, edit.focus)->0.moved(step));
}

/// In a form the keys for up and down move the cursor their own way.
pub proof fn law_up_and_down_move_their_own_way(s: SessionModel)
    requires
        s.edit_mode is Some,
        text_at(s.edit_mode->0, s.edit_mode->0.focus) is Some,
    ensures
        session_updated(s, Message::EditCursorUp).0 == cursor_moved(s, CursorMove::Up),
        session_updated(s, Message::EditCursorDown).0 == cursor_moved(s, CursorMove::Down),
{
}

} // verus!
