//! The variables of an environment: which are shown, which row goes, and what
//! is typed into.
use vstd::prelude::*;

use crate::laws::rows::{is_empty, typing, with_one_more, without_item};
use crate::state::{Message, RunState, SessionModel};
use crate::text_field::{TextEdit, TextFieldModel};
use crate::update::session_updated;
use crate::variables_form::{EnvVarField, EnvironmentEditModel};

verus! {

/// Whether nothing of a session changed but its form for variables.
pub open spec fn only_variables_changed(s: SessionModel, t: SessionModel) -> bool {
    &&& t.environment_edit is Some
    &&& t == (SessionModel { environment_edit: t.environment_edit, ..s })
}

/// The form for variables opens for the environment that the picker's cursor
/// is on, with one row for each of its variables, in their order, the focus on
/// the first name.
#[verifier::spinoff_prover]
pub proof fn law_the_form_shows_the_variables_at_the_cursor(s: SessionModel)
    requires
        s.environment_overlay is Some,
        s.environment_overlay->0 < s.environments.len(),
        s.environment_edit is None,
        s.edit_mode is None,
        s.delete_confirm is None,
        s.history_overlay is None,
        s.run_state != RunState::InFlight,
    ensures
        ({
            let t = session_updated(s, Message::EnterEnvironmentEdit).0;
            let form = t.environment_edit->0;
            let held = s.environments[s.environment_overlay->0 as int].environment.variables;
            &&& only_variables_changed(s, t)
            &&& form.index == s.environment_overlay->0
            &&& form.rows.len() == held.len()
            &&& forall|i: int|
                0 <= i < held.len() ==> (#[trigger] form.rows[i]).key.value == held[i].0
                    && form.rows[i].value.value == held[i].1
            &&& form.focus == (if held.len() > 0 {
                Some(EnvVarField::Name(0))
            } else {
                None
            })
            &&& form.pending_delete is None && form.save_error is None
        }),
{
}

/// Deleting a row asks first, about the row that has the focus and by the name
/// that it holds; nothing is deleted by asking. Where no row has the focus
/// nothing is asked.
#[verifier::spinoff_prover]
pub proof fn law_a_deletion_asks_about_the_row_in_focus(s: SessionModel, k: usize)
    requires
        s.environment_edit is Some,
        k < s.environment_edit->0.rows.len(),
        s.environment_edit->0.focus == Some(EnvVarField::Name(k))
            || s.environment_edit->0.focus == Some(EnvVarField::Value(k)),
    ensures
        ({
            let t = session_updated(s, Message::RequestDeleteEnvVarRow).0;
            let (before, after) = (s.environment_edit->0, t.environment_edit->0);
            &&& only_variables_changed(s, t)
            &&& after == (EnvironmentEditModel { pending_delete: after.pending_delete, ..before })
            &&& after.pending_delete is Some
            &&& after.pending_delete->0.index == k
            &&& after.pending_delete->0.prompt.message == "Delete variable '"@
                + before.rows[k as int].key.value + "'? This cannot be undone."@
            &&& after.pending_delete->0.prompt.error is None
        }),
{
}

/// The row that is deleted is the one that was asked about, and the others
/// stay in their order. The focus goes to the row in front of it, and nowhere
/// where no row is left.
#[verifier::spinoff_prover]
pub proof fn law_the_row_in_question_is_deleted(s: SessionModel)
    requires
        s.environment_edit is Some,
        s.environment_edit->0.pending_delete is Some,
        s.environment_edit->0.pending_delete->0.index < s.environment_edit->0.rows.len(),
    ensures
        ({
            let t = session_updated(s, Message::ConfirmDeleteEnvVarRow).0;
            let (before, after) = (s.environment_edit->0, t.environment_edit->0);
            let k = before.pending_delete->0.index;
            &&& only_variables_changed(s, t)
            &&& without_item(before.rows, after.rows, k as int)
            &&& after == (EnvironmentEditModel {
                rows: after.rows,
                focus: after.focus,
                pending_delete: None,
                ..before
            })
            &&& k > 0 ==> after.focus == Some(EnvVarField::Name((k - 1) as usize))
            &&& k == 0 && after.rows.len() > 0 ==> after.focus == Some(EnvVarField::Name(0))
            &&& after.rows.len() == 0 ==> after.focus is None
        }),
{
}

/// Asking to delete and saying yes deletes the row that had the focus when it
/// was asked.
pub proof fn law_asked_and_confirmed_the_row_in_focus_is_deleted(
    form: EnvironmentEditModel,
    k: usize,
)
    requires
        k < form.rows.len(),
        form.focus == Some(EnvVarField::Name(k)) || form.focus == Some(EnvVarField::Value(k)),
    ensures
        without_item(form.rows, form.delete_requested().delete_confirmed().rows, k as int),
{
}

/// An added row stands behind the others, is empty, and its name has the
/// focus; the other rows stay as they are.
#[verifier::spinoff_prover]
pub proof fn law_an_added_variable_is_empty_and_last(s: SessionModel)
    requires
        s.environment_edit is Some,
        s.environment_edit->0.rows.len() < usize::MAX,
    ensures
        ({
            let t = session_updated(s, Message::AddEnvVarRow).0;
            let (before, after) = (s.environment_edit->0, t.environment_edit->0);
            &&& only_variables_changed(s, t)
            &&& with_one_more(before.rows, after.rows)
            &&& is_empty(after.rows.last().key) && is_empty(after.rows.last().value)
            &&& after == (EnvironmentEditModel {
                rows: after.rows,
                focus: Some(EnvVarField::Name(before.rows.len() as usize)),
                ..before
            })
        }),
{
}

/// The focus goes from a name to its value, from there to the name of the next
/// row, and from the last value to the first name; the other way it goes back.
pub proof fn law_the_focus_goes_through_names_and_values(form: EnvironmentEditModel, i: usize)
    requires
        i < form.rows.len() <= usize::MAX,
    ensures
        ({
            let n = form.rows.len();
            let (on, back) = (form.focused_next(), form.focused_prev());
            &&& on == (EnvironmentEditModel { focus: on.focus, ..form })
            &&& back == (EnvironmentEditModel { focus: back.focus, ..form })
            &&& form.focus == Some(EnvVarField::Name(i)) ==> {
                &&& on.focus == Some(EnvVarField::Value(i))
                &&& i > 0 ==> back.focus == Some(EnvVarField::Value((i - 1) as usize))
                &&& i == 0 ==> back.focus == Some(EnvVarField::Value((n - 1) as usize))
            }
            &&& form.focus == Some(EnvVarField::Value(i)) ==> {
                &&& i + 1 < n ==> on.focus == Some(EnvVarField::Name((i + 1) as usize))
                &&& i + 1 == n ==> on.focus == Some(EnvVarField::Name(0))
                &&& back.focus == Some(EnvVarField::Name(i))
            }
        }),
{
}

/// The text of one field of the form.
pub open spec fn variable_text(form: EnvironmentEditModel, field: EnvVarField) -> TextFieldModel {
    match field {
        EnvVarField::Name(i) => form.rows[i as int].key,
        EnvVarField::Value(i) => form.rows[i as int].value,
    }
}

/// What is typed goes into the name or the value that has the focus, and every
/// other stays as it is.
#[verifier::spinoff_prover]
pub proof fn law_typing_changes_the_variable_in_focus(s: SessionModel, change: TextEdit)
    requires
        s.edit_mode is None,
        s.environment_edit is Some,
        s.environment_edit->0.focus is Some,
        s.environment_edit->0.focus_valid(),
    ensures
        ({
            let t = session_updated(s, typing(change)).0;
            let (before, after) = (s.environment_edit->0, t.environment_edit->0);
            let focus = before.focus->0;
            &&& only_variables_changed(s, t)
            &&& after == (EnvironmentEditModel { rows: after.rows, ..before })
            &&& after.rows.len() == before.rows.len()
            &&& variable_text(after, focus) == variable_text(before, focus).edited(change)
            &&& forall|i: usize|
                i < before.rows.len() && EnvVarField::Name(i) != focus
                    ==> #[trigger] after.rows[i as int].key == before.rows[i as int].key
            &&& forall|i: usize|
                i < before.rows.len() && EnvVarField::Value(i) != focus
                    ==> #[trigger] after.rows[i as int].value == before.rows[i as int].value
        }),
{
}

/// A form for variables that is given up leaves no trace.
#[verifier::spinoff_prover]
pub proof fn law_variables_given_up_change_nothing(s: SessionModel)
    ensures
        session_updated(s, Message::CancelEnvironmentEdit).0 == (SessionModel {
            environment_edit: None,
            ..s
        }),
{
}

} // verus!
