//! The working copy of an environment whose variables are being edited.
use vstd::prelude::*;

use crate::document::{Environment, EnvironmentModel};
use crate::edit::{
    HeaderRow, HeaderRowModel, blank_row, make_rows, row_before, rows_for, rows_view,
};
use crate::prompt::{ConfirmPrompt, ConfirmPromptModel};
use crate::text::opt_text;
use crate::text_field::{TextField, TextFieldModel};

verus! {

broadcast use vstd::string::group_string_axioms;

/// One field of the list of variables.
#[derive(Clone, Copy, Debug, PartialEq, Eq, Structural)]
pub enum EnvVarField {
    Name(usize),
    Value(usize),
}

impl EnvVarField {
    /// The row that the field is in.
    pub open spec fn row(self) -> usize {
        match self {
            EnvVarField::Name(i) => i,
            EnvVarField::Value(i) => i,
        }
    }
}

/// A row that is deleted once the question about it is answered.
#[derive(Debug, PartialEq, Eq)]
pub struct PendingRowDelete {
    pub index: usize,
    pub prompt: ConfirmPrompt,
}

#[verifier::ext_equal]
pub struct PendingRowDeleteModel {
    pub index: usize,
    pub prompt: ConfirmPromptModel,
}

impl View for PendingRowDelete {
    type V = PendingRowDeleteModel;

    open spec fn view(&self) -> PendingRowDeleteModel {
        PendingRowDeleteModel { index: self.index, prompt: self.prompt@ }
    }
}

/// The working copy of an environment's variables.
#[derive(Debug, PartialEq, Eq)]
pub struct EnvironmentEditState {
    /// Which of the session's environments is edited.
    pub index: usize,
    pub rows: Vec<HeaderRow>,
    /// The field that has the focus; none where there is no row.
    pub focus: Option<EnvVarField>,
    /// Why the last save failed, where it did.
    pub save_error: Option<String>,
    pub pending_delete: Option<PendingRowDelete>,
}

#[verifier::ext_equal]
pub struct EnvironmentEditModel {
    pub index: usize,
    pub rows: Seq<HeaderRowModel>,
    pub focus: Option<EnvVarField>,
    pub save_error: Option<Seq<char>>,
    pub pending_delete: Option<PendingRowDeleteModel>,
}

impl View for EnvironmentEditState {
    type V = EnvironmentEditModel;

    open spec fn view(&self) -> EnvironmentEditModel {
        EnvironmentEditModel {
            index: self.index,
            rows: rows_view(self.rows@),
            focus: self.focus,
            save_error: opt_text(self.save_error),
            pending_delete: match self.pending_delete {
                Some(p) => Some(p@),
                None => None,
            },
        }
    }
}

/// The form for an environment, with nothing changed yet.
pub open spec fn variables_form_for(
    index: usize,
    environment: EnvironmentModel,
) -> EnvironmentEditModel {
    EnvironmentEditModel {
        index,
        rows: rows_for(environment.variables),
        focus: if environment.variables.len() == 0 {
            None
        } else {
            Some(EnvVarField::Name(0))
        },
        save_error: None,
        pending_delete: None,
    }
}

/// The question that is asked before a variable's row is deleted.
pub open spec fn delete_variable_question(name: Seq<char>) -> Seq<char> {
    "Delete variable '"@ + name + "'? This cannot be undone."@
}

impl EnvironmentEditModel {
    /// The focus is on a field that the form has.
    pub open spec fn focus_valid(self) -> bool {
        self.focus is Some ==> self.focus->0.row() < self.rows.len()
    }

    /// The focus on the next field: from a name to its value, from a value to
    /// the next row's name, from the last value to the first name.
    pub open spec fn focused_next(self) -> EnvironmentEditModel {
        EnvironmentEditModel {
            focus: if self.rows.len() == 0 {
                None
            } else {
                match self.focus {
                    Some(EnvVarField::Name(i)) if i < self.rows.len() => Some(
                        EnvVarField::Value(i),
                    ),
                    Some(EnvVarField::Value(i)) if i + 1 < self.rows.len() => Some(
                        EnvVarField::Name((i + 1) as usize),
                    ),
                    _ => Some(EnvVarField::Name(0)),
                }
            },
            ..self
        }
    }

    /// The focus on the field before: the way of [`Self::focused_next`],
    /// backward.
    pub open spec fn focused_prev(self) -> EnvironmentEditModel {
        EnvironmentEditModel {
            focus: if self.rows.len() == 0 {
                None
            } else {
                match self.focus {
                    Some(EnvVarField::Value(i)) if i < self.rows.len() => Some(
                        EnvVarField::Name(i),
                    ),
                    Some(EnvVarField::Name(i)) if 0 < i <= self.rows.len() => Some(
                        EnvVarField::Value((i - 1) as usize),
                    ),
                    _ => Some(EnvVarField::Value((self.rows.len() - 1) as usize)),
                }
            },
            ..self
        }
    }

    /// The text field that has the focus, where one has it.
    pub open spec fn focused_field(self) -> Option<TextFieldModel> {
        match self.focus {
            Some(EnvVarField::Name(i)) => if i < self.rows.len() {
                Some(self.rows[i as int].key)
            } else {
                None
            },
            Some(EnvVarField::Value(i)) => if i < self.rows.len() {
                Some(self.rows[i as int].value)
            } else {
                None
            },
            None => None,
        }
    }

    /// The form with the text field that has the focus replaced.
    pub open spec fn with_focused(self, t: TextFieldModel) -> EnvironmentEditModel {
        match self.focus {
            Some(EnvVarField::Name(i)) => EnvironmentEditModel {
                rows: self.rows.update(
                    i as int,
                    HeaderRowModel { key: t, ..self.rows[i as int] },
                ),
                ..self
            },
            Some(EnvVarField::Value(i)) => EnvironmentEditModel {
                rows: self.rows.update(
                    i as int,
                    HeaderRowModel { value: t, ..self.rows[i as int] },
                ),
                ..self
            },
            None => self,
        }
    }

    /// The form with an empty row added, whose name gets the focus.
    pub open spec fn row_added(self) -> EnvironmentEditModel {
        EnvironmentEditModel {
            rows: self.rows.push(blank_row()),
            focus: Some(EnvVarField::Name(self.rows.len() as usize)),
            ..self
        }
    }

    /// The form asking about the row that has the focus, where one has it.
    pub open spec fn delete_requested(self) -> EnvironmentEditModel {
        match self.focus {
            Some(f) if f.row() < self.rows.len() => EnvironmentEditModel {
                pending_delete: Some(
                    PendingRowDeleteModel {
                        index: f.row(),
                        prompt: ConfirmPromptModel {
                            message: delete_variable_question(
                                self.rows[f.row() as int].key.value,
                            ),
                            error: None,
                        },
                    },
                ),
                ..self
            },
            _ => self,
        }
    }

    /// The form with the row in question deleted and the focus on the row
    /// before it; unchanged where none is in question.
    pub open spec fn delete_confirmed(self) -> EnvironmentEditModel {
        match self.pending_delete {
            None => self,
            Some(p) => if p.index < self.rows.len() {
                EnvironmentEditModel {
                    rows: self.rows.remove(p.index as int),
                    focus: if self.rows.len() == 1 {
                        None
                    } else {
                        Some(EnvVarField::Name(row_before(p.index)))
                    },
                    pending_delete: None,
                    ..self
                }
            } else {
                EnvironmentEditModel { pending_delete: None, ..self }
            },
        }
    }

    /// The form with no row in question.
    pub open spec fn delete_cancelled(self) -> EnvironmentEditModel {
        EnvironmentEditModel { pending_delete: None, ..self }
    }
}

impl EnvironmentEditState {
    /// The form for an environment, with nothing changed yet.
    pub fn new(index: usize, environment: &Environment) -> (r: EnvironmentEditState)
        ensures
            r@ == variables_form_for(index, environment@),
    {
        let rows = make_rows(&environment.variables);
        let focus = if environment.variables.len() == 0 {
            None
        } else {
            Some(EnvVarField::Name(0))
        };
        EnvironmentEditState { index, rows, focus, save_error: None, pending_delete: None }
    }

    /// Moves the focus to the next field.
    pub fn focus_next(&mut self)
        ensures
            final(self)@ == old(self)@.focused_next(),
    {
        let n: usize = self.rows.len();
        self.focus = if n == 0 {
            None
        } else {
            match self.focus {
                Some(EnvVarField::Name(i)) if i < n => Some(EnvVarField::Value(i)),
                Some(EnvVarField::Value(i)) if i < n - 1 => Some(EnvVarField::Name(i + 1)),
                _ => Some(EnvVarField::Name(0)),
            }
        };
    }

    /// Moves the focus to the field before.
    pub fn focus_prev(&mut self)
        ensures
            final(self)@ == old(self)@.focused_prev(),
    {
        let n: usize = self.rows.len();
        self.focus = if n == 0 {
            None
        } else {
            match self.focus {
                Some(EnvVarField::Value(i)) if i < n => Some(EnvVarField::Name(i)),
                Some(EnvVarField::Name(i)) if 0 < i && i <= n => Some(EnvVarField::Value(i - 1)),
                _ => Some(EnvVarField::Value(n - 1)),
            }
        };
    }

    /// The text field that has the focus, where one has it, to be changed.
    pub fn focused_field_mut(&mut self) -> (r: Option<&mut TextField>)
        ensures
            match r {
                Some(t) => {
                    &&& old(self)@.focused_field() == Some(t@)
                    &&& final(self)@ == old(self)@.with_focused(final(t)@)
                },
                None => {
                    &&& old(self)@.focused_field() is None
                    &&& final(self)@ == old(self)@
                },
            },
    {
        match self.focus {
            Some(EnvVarField::Name(i)) => if i < self.rows.len() {
                Some(&mut self.rows[i].key)
            } else {
                None
            },
            Some(EnvVarField::Value(i)) => if i < self.rows.len() {
                Some(&mut self.rows[i].value)
            } else {
                None
            },
            None => None,
        }
    }

    /// Adds an empty row and gives its name the focus.
    pub fn add_row(&mut self)
        ensures
            final(self)@ == old(self)@.row_added(),
    {
        self.focus = Some(EnvVarField::Name(self.rows.len()));
        self.rows.push(HeaderRow { key: TextField::default(), value: TextField::default() });
        assert(rows_view(self.rows@) =~= rows_view(old(self).rows@).push(blank_row()));
    }

    /// Asks whether to delete the row that has the focus.
    pub fn request_delete_focused(&mut self)
        ensures
            final(self)@ == old(self)@.delete_requested(),
    {
        let index = match self.focus {
            Some(EnvVarField::Name(i)) => i,
            Some(EnvVarField::Value(i)) => i,
            None => return ,
        };
        if index < self.rows.len() {
            let mut message = "Delete variable '".to_owned();
            message.append(self.rows[index].key.value());
            message.append("'? This cannot be undone.");
            self.pending_delete = Some(
                PendingRowDelete { index, prompt: ConfirmPrompt::new(message) },
            );
        }
    }

    /// Deletes the row in question.
    pub fn confirm_pending_delete(&mut self)
        ensures
            final(self)@ == old(self)@.delete_confirmed(),
    {
        if let Some(pending) = self.pending_delete.take() {
            let index = pending.index;
            if index < self.rows.len() {
                self.rows.remove(index);
                assert(rows_view(self.rows@) =~= rows_view(old(self).rows@).remove(index as int));
                self.focus = if self.rows.len() == 0 {
                    None
                } else if index == 0 {
                    Some(EnvVarField::Name(0))
                } else {
                    Some(EnvVarField::Name(index - 1))
                };
            }
        }
    }

    /// Keeps the row in question.
    pub fn cancel_pending_delete(&mut self)
        ensures
            final(self)@ == old(self)@.delete_cancelled(),
    {
        self.pending_delete = None;
    }
}

/// Every step of the form keeps the focus on a field that it has.
pub proof fn law_variables_focus_stays_valid(form: EnvironmentEditModel, t: TextFieldModel)
    requires
        form.focus_valid(),
        form.rows.len() < usize::MAX,
    ensures
        form.focused_next().focus_valid(),
        form.focused_prev().focus_valid(),
        form.with_focused(t).focus_valid(),
        form.row_added().focus_valid(),
        form.delete_requested().focus_valid(),
        form.delete_cancelled().focus_valid(),
        form.delete_confirmed().focus_valid(),
{
}

/// Moving the focus on and back again, or back and on again, returns it to
/// where it was.
pub proof fn law_variables_focus_moves_are_inverse(form: EnvironmentEditModel)
    requires
        form.focus is Some,
        form.focus_valid(),
        form.rows.len() <= usize::MAX,
    ensures
        form.focused_next().focused_prev() == form,
        form.focused_prev().focused_next() == form,
{
}

/// Asking to delete a row and then keeping it changes nothing else.
pub proof fn law_cancelled_row_delete_changes_nothing(form: EnvironmentEditModel)
    requires
        form.pending_delete is None,
    ensures
        form.delete_requested().delete_cancelled() == form,
{
}

} // verus!
