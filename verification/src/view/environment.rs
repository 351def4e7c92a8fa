//! The environment picker, and the form in which an environment's variables
//! are edited.
use vstd::prelude::*;

use crate::document::{NamedEnvironment, NamedEnvironmentModel, environments_view};
use crate::state::{CollectionSession, SessionModel};
use crate::text::{copy_str, join, join_texts, one_text, opt_text, pairs_view, push_text, texts};
use crate::variables_form::{EnvVarField, EnvironmentEditModel, EnvironmentEditState};
use crate::view::response::smaller;
use crate::view::{error_text, format_error};

verus! {

broadcast use vstd::string::group_string_axioms;

/// The environment picker, or the form that takes its place.
#[derive(Debug, PartialEq, Eq)]
pub enum EnvironmentView {
    /// There is nothing to pick. `errors` tells of the environments that could
    /// not be read, where there are some.
    Notice { title: String, text: String, errors: Option<String> },
    /// The environments, the one that is picked, and its variables.
    Picker {
        title: String,
        rows: Vec<String>,
        picked: usize,
        detail: String,
        errors: Option<String>,
    },
    /// The variables of one environment, as they are edited.
    Variables { title: String, text: String },
}

#[verifier::ext_equal]
pub enum EnvironmentViewModel {
    Notice { title: Seq<char>, text: Seq<char>, errors: Option<Seq<char>> },
    Picker {
        title: Seq<char>,
        rows: Seq<Seq<char>>,
        picked: int,
        detail: Seq<char>,
        errors: Option<Seq<char>>,
    },
    Variables { title: Seq<char>, text: Seq<char> },
}

impl View for EnvironmentView {
    type V = EnvironmentViewModel;

    open spec fn view(&self) -> EnvironmentViewModel {
        match *self {
            EnvironmentView::Notice { title, text, errors } => EnvironmentViewModel::Notice {
                title: title@,
                text: text@,
                errors: opt_text(errors),
            },
            EnvironmentView::Picker {
                title,
                rows,
                picked,
                detail,
                errors,
            } => EnvironmentViewModel::Picker {
                title: title@,
                rows: texts(rows@),
                picked: picked as int,
                detail: detail@,
                errors: opt_text(errors),
            },
            EnvironmentView::Variables { title, text } => EnvironmentViewModel::Variables {
                title: title@,
                text: text@,
            },
        }
    }
}

// ---------------------------------------------------------------------------
// The picker
// ---------------------------------------------------------------------------

/// What is said of each environment that could not be read.
pub open spec fn load_errors(errors: Seq<(Seq<char>, Seq<char>)>) -> Seq<Seq<char>> {
    Seq::new(
        errors.len(),
        |i: int| error_text("Environment '"@ + errors[i].0 + "' failed to load"@, errors[i].1),
    )
}

/// What is said of the environments that could not be read, where there are
/// some.
pub open spec fn load_errors_text(errors: Seq<(Seq<char>, Seq<char>)>) -> Option<Seq<char>> {
    if errors.len() == 0 {
        None
    } else {
        Some(join(load_errors(errors), "\n"@))
    }
}

fn load_error_texts(errors: &Vec<(String, String)>) -> (r: Option<String>)
    ensures
        opt_text(r) == load_errors_text(pairs_view(errors@)),
{
    if errors.len() == 0 {
        return None;
    }
    let ghost said = load_errors(pairs_view(errors@));
    let mut shown: Vec<String> = Vec::new();
    let mut i: usize = 0;
    while i < errors.len()
        invariant
            i <= errors@.len(),
            said == load_errors(pairs_view(errors@)),
            texts(shown@) =~= said.take(i as int),
        decreases errors@.len() - i,
    {
        let mut heading = "Environment '".to_owned();
        heading.append(errors[i].0.as_str());
        heading.append("' failed to load");
        push_text(&mut shown, format_error(heading.as_str(), errors[i].1.as_str()));
        i = i + 1;
    }
    assert(said.take(i as int) =~= said);
    Some(join_texts(&shown, "\n"))
}

/// How many of `height` rows are given to what is said of `errors`
/// environments that could not be read: two for each, and no more than half of
/// the rows.
pub open spec fn error_rows_for(errors: int, height: int) -> int {
    smaller(2 * errors, height / 2)
}

/// How many of `height` rows are given to what is said of `errors`
/// environments that could not be read.
pub fn error_rows(errors: usize, height: u16) -> (r: u16)
    ensures
        r == error_rows_for(errors as int, height as int),
{
    let half: u16 = height / 2;
    if errors >= half as usize {
        half
    } else {
        let wanted: u16 = errors as u16 * 2;
        if wanted < half {
            wanted
        } else {
            half
        }
    }
}

/// The line of each environment, with a mark in front of the active one.
pub open spec fn environment_lines(
    environments: Seq<NamedEnvironmentModel>,
    active: Option<usize>,
) -> Seq<Seq<char>> {
    Seq::new(
        environments.len(),
        |i: int|
            (if active == Some(i as usize) {
                "* "@
            } else {
                "  "@
            }) + environments[i].name,
    )
}

fn environment_texts(environments: &Vec<NamedEnvironment>, active: Option<usize>) -> (r: Vec<
    String,
>)
    ensures
        texts(r@) == environment_lines(environments_view(environments@), active),
{
    let ghost model = environments_view(environments@);
    let mut r: Vec<String> = Vec::new();
    let mut i: usize = 0;
    while i < environments.len()
        invariant
            i <= environments@.len(),
            model == environments_view(environments@),
            texts(r@) =~= environment_lines(model, active).take(i as int),
        decreases environments@.len() - i,
    {
        let is_active = match active {
            Some(index) => index == i,
            None => false,
        };
        let mut line = copy_str(
            if is_active {
                "* "
            } else {
                "  "
            },
        );
        line.append(environments[i].name.as_str());
        push_text(&mut r, line);
        i = i + 1;
    }
    r
}

/// The lines about an environment's variables.
pub open spec fn variable_lines(named: NamedEnvironmentModel) -> Seq<Seq<char>> {
    let variables = named.environment.variables;
    seq!["Variables for '"@ + named.name + "':"@] + (if variables.len() == 0 {
        seq!["  (none)"@]
    } else {
        Seq::new(
            variables.len(),
            |i: int| "  "@ + variables[i].0 + " = "@ + variables[i].1,
        )
    })
}

fn variables_text(named: &NamedEnvironment) -> (r: String)
    ensures
        r@ == join(variable_lines(named@), "\n"@),
{
    let mut heading = "Variables for '".to_owned();
    heading.append(named.name.as_str());
    heading.append("':");
    let variables = &named.environment.variables;
    let ghost model = named@.environment.variables;
    let ghost all = variable_lines(named@);
    let mut shown = one_text(heading);
    if variables.len() == 0 {
        push_text(&mut shown, "  (none)".to_owned());
        assert(texts(shown@) =~= all);
        return join_texts(&shown, "\n");
    }
    let mut i: usize = 0;
    while i < variables.len()
        invariant
            0 < variables@.len(),
            i <= variables@.len(),
            model == pairs_view(variables@),
            model == named@.environment.variables,
            all == variable_lines(named@),
            texts(shown@) =~= all.take(i + 1),
        decreases variables@.len() - i,
    {
        let mut line = "  ".to_owned();
        line.append(variables[i].0.as_str());
        line.append(" = ");
        line.append(variables[i].1.as_str());
        assert(line@ == all[i + 1]);
        push_text(&mut shown, line);
        i = i + 1;
    }
    assert(all.take(i + 1) =~= all);
    join_texts(&shown, "\n")
}

/// The picker, its cursor on an environment.
pub open spec fn picker_for(s: SessionModel, cursor: usize) -> EnvironmentViewModel {
    let title = "Select environment — Enter to confirm, i to edit, Esc to cancel"@;
    let errors = load_errors_text(s.environment_errors);
    if s.environments.len() == 0 {
        EnvironmentViewModel::Notice {
            title,
            text: if errors is None {
                "No environments found in .sendra/environments/."@
            } else {
                "No environments loaded successfully — see the errors below."@
            },
            errors,
        }
    } else {
        EnvironmentViewModel::Picker {
            title,
            rows: environment_lines(s.environments, s.active_environment),
            picked: cursor as int,
            detail: join(
                variable_lines(
                    s.environments[smaller(cursor as int, s.environments.len() - 1)],
                ),
                "\n"@,
            ),
            errors,
        }
    }
}

// ---------------------------------------------------------------------------
// The form
// ---------------------------------------------------------------------------

/// A text, between arrows where it has the focus.
pub open spec fn between_arrows(text: Seq<char>, focused: bool) -> Seq<char> {
    if focused {
        "»"@ + text + "«"@
    } else {
        text
    }
}

fn arrowed(text: &str, focused: bool) -> (r: String)
    ensures
        r@ == between_arrows(text@, focused),
{
    if focused {
        let mut r = "»".to_owned();
        r.append(text);
        r.append("«");
        r
    } else {
        copy_str(text)
    }
}

/// The lines of the variables, the field that has the focus between arrows.
pub open spec fn variable_row_lines(form: EnvironmentEditModel) -> Seq<Seq<char>> {
    if form.rows.len() == 0 {
        seq!["(no variables — ctrl+n to add one)"@]
    } else {
        Seq::new(
            form.rows.len(),
            |i: int|
                between_arrows(
                    form.rows[i].key.value,
                    form.focus == Some(EnvVarField::Name(i as usize)),
                ) + " = "@ + between_arrows(
                    form.rows[i].value.value,
                    form.focus == Some(EnvVarField::Value(i as usize)),
                ),
        )
    }
}

/// The form's lines.
pub open spec fn variables_form_lines(form: EnvironmentEditModel) -> Seq<Seq<char>> {
    match form.save_error {
        Some(error) => variable_row_lines(form).push(""@).push(
            error_text("Could not save"@, error),
        ),
        None => variable_row_lines(form),
    }
}

/// The form over the environment that is edited.
pub open spec fn variables_form_for(
    s: SessionModel,
    form: EnvironmentEditModel,
) -> EnvironmentViewModel {
    EnvironmentViewModel::Variables {
        title: "Edit variables for '"@ + (if form.index < s.environments.len() {
            s.environments[form.index as int].name
        } else {
            "?"@
        })
            + "' — tab switch field, ctrl+n add, ctrl+d delete, ctrl+s save, esc cancel"@,
        text: join(variables_form_lines(form), "\n"@),
    }
}

/// The environment picker with its cursor on an environment, or the form that
/// takes its place while an environment's variables are edited.
pub open spec fn environment_overlay_for(s: SessionModel, cursor: usize) -> EnvironmentViewModel {
    match s.environment_edit {
        Some(form) => variables_form_for(s, form),
        None => picker_for(s, cursor),
    }
}

fn has_focus(focus: Option<EnvVarField>, field: EnvVarField) -> (r: bool)
    ensures
        r == (focus == Some(field)),
{
    match focus {
        Some(focused) => focused == field,
        None => false,
    }
}

fn variable_row_texts(form: &EnvironmentEditState) -> (r: Vec<String>)
    ensures
        texts(r@) == variable_row_lines(form@),
{
    if form.rows.len() == 0 {
        return one_text("(no variables — ctrl+n to add one)".to_owned());
    }
    let ghost model = form@;
    let mut r: Vec<String> = Vec::new();
    let mut i: usize = 0;
    while i < form.rows.len()
        invariant
            0 < form.rows@.len(),
            i <= form.rows@.len(),
            model == form@,
            texts(r@) =~= variable_row_lines(model).take(i as int),
        decreases form.rows@.len() - i,
    {
        assert(model.rows[i as int] == form.rows@[i as int]@);
        let mut line = arrowed(
            form.rows[i].key.value(),
            has_focus(form.focus, EnvVarField::Name(i)),
        );
        line.append(" = ");
        line.append(
            arrowed(
                form.rows[i].value.value(),
                has_focus(form.focus, EnvVarField::Value(i)),
            ).as_str(),
        );
        push_text(&mut r, line);
        i = i + 1;
    }
    r
}

/// The form in which an environment's variables are edited.
pub fn environment_edit_view(session: &CollectionSession, form: &EnvironmentEditState) -> (r:
    EnvironmentView)
    ensures
        r@ == variables_form_for(session@, form@),
{
    let mut title = "Edit variables for '".to_owned();
    if form.index < session.environments.len() {
        title.append(session.environments[form.index].name.as_str());
    } else {
        title.append("?");
    }
    title.append("' — tab switch field, ctrl+n add, ctrl+d delete, ctrl+s save, esc cancel");
    let mut shown = variable_row_texts(form);
    if let Some(error) = &form.save_error {
        push_text(&mut shown, "".to_owned());
        push_text(&mut shown, format_error("Could not save", error.as_str()));
    }
    EnvironmentView::Variables { title, text: join_texts(&shown, "\n") }
}

/// The environment picker with its cursor on an environment, or the form that
/// takes its place while an environment's variables are edited.
pub fn environment_overlay(session: &CollectionSession, cursor: usize) -> (r: EnvironmentView)
    ensures
        r@ == environment_overlay_for(session@, cursor),
{
    if let Some(form) = &session.environment_edit {
        return environment_edit_view(session, form);
    }
    let title = "Select environment — Enter to confirm, i to edit, Esc to cancel".to_owned();
    let errors = load_error_texts(&session.environment_errors);
    if session.environments.len() == 0 {
        let text = copy_str(
            if errors.is_none() {
                "No environments found in .sendra/environments/."
            } else {
                "No environments loaded successfully — see the errors below."
            },
        );
        return EnvironmentView::Notice { title, text, errors };
    }
    let last: usize = session.environments.len() - 1;
    let highlighted: usize = if cursor < last {
        cursor
    } else {
        last
    };
    EnvironmentView::Picker {
        title,
        rows: environment_texts(&session.environments, session.active_environment),
        picked: cursor,
        detail: variables_text(&session.environments[highlighted]),
        errors,
    }
}

} // verus!
