//! Editing the variables of an environment.
use vstd::prelude::*;

use crate::document::{Environment, EnvironmentModel, NamedEnvironmentModel, environments_view};
use crate::edit::{HeaderRow, HeaderRowModel, rows_for, rows_view};
use crate::state::{CollectionSession, Effect, EffectModel, RunState, SessionModel};
use crate::text::{chars_of, lemma_trim_idempotent, pairs_view, same_text, trim, trim_text};
use crate::text_field::{CursorMove, TextEdit};
use crate::update::request_edit::written_text;
use crate::variables_form::{EnvironmentEditModel, EnvironmentEditState, variables_form_for};

verus! {

broadcast use vstd::string::group_string_axioms;

// ---------------------------------------------------------------------------
// Variables in the order of their names
// ---------------------------------------------------------------------------

/// Whether `a` comes before `b` in a list that is ordered character by
/// character.
pub open spec fn text_less(a: Seq<char>, b: Seq<char>) -> bool
    decreases a.len(),
{
    if b.len() == 0 {
        false
    } else if a.len() == 0 {
        true
    } else if a[0] == b[0] {
        text_less(a.drop_first(), b.drop_first())
    } else {
        (a[0] as u32) < (b[0] as u32)
    }
}

proof fn lemma_char_codes_differ(c: char, d: char)
    requires
        c != d,
    ensures
        (c as u32) != (d as u32),
{
}

/// Exactly one of two different texts comes before the other, and no text
/// before itself.
pub proof fn lemma_text_order(a: Seq<char>, b: Seq<char>)
    ensures
        !(text_less(a, b) && text_less(b, a)),
        !text_less(a, a),
        a != b ==> text_less(a, b) || text_less(b, a),
    decreases a.len(),
{
    if a.len() > 0 {
        lemma_text_order(a.drop_first(), a.drop_first());
    }
    if a.len() > 0 && b.len() > 0 {
        lemma_text_order(a.drop_first(), b.drop_first());
        if a[0] != b[0] {
            lemma_char_codes_differ(a[0], b[0]);
        }
        if a[0] == b[0] && a.drop_first() == b.drop_first() {
            assert(a =~= seq![a[0]] + a.drop_first());
            assert(b =~= seq![b[0]] + b.drop_first());
        }
    } else if a.len() == 0 && b.len() == 0 {
        assert(a =~= b);
    }
}

/// What comes before something comes before all that follows it.
pub proof fn lemma_text_order_transitive(a: Seq<char>, b: Seq<char>, c: Seq<char>)
    requires
        text_less(a, b),
        text_less(b, c),
    ensures
        text_less(a, c),
    decreases a.len(),
{
    if a.len() > 0 && b.len() > 0 && c.len() > 0 && a[0] == b[0] && b[0] == c[0] {
        lemma_text_order_transitive(a.drop_first(), b.drop_first(), c.drop_first());
    }
}

/// The names are in order, and none occurs twice.
pub open spec fn ordered(variables: Seq<(Seq<char>, Seq<char>)>) -> bool {
    forall|i: int, j: int|
        0 <= i < j < variables.len() ==> text_less(
            (#[trigger] variables[i]).0,
            (#[trigger] variables[j]).0,
        )
}

/// Where a name belongs among ordered variables: in front of the first that
/// comes behind it.
pub open spec fn rank(variables: Seq<(Seq<char>, Seq<char>)>, name: Seq<char>) -> int
    decreases variables.len(),
{
    if variables.len() == 0 || text_less(name, variables[0].0) {
        0
    } else {
        1 + rank(variables.drop_first(), name)
    }
}

/// Whether one of the variables has a name.
pub open spec fn has_name(variables: Seq<(Seq<char>, Seq<char>)>, name: Seq<char>) -> bool {
    exists|i: int| 0 <= i < variables.len() && (#[trigger] variables[i]).0 == name
}

/// What is said of a row without a name.
pub open spec fn unnamed_problem() -> Seq<char> {
    "every variable needs a name"@
}

/// What is said of two rows with the same name.
pub open spec fn repeated_problem(name: Seq<char>) -> Seq<char> {
    "two variables are both named '"@ + name + "'; names must be unique"@
}

/// The variables that rows describe, in the order of their names; or what is
/// wrong with the first row that cannot be taken. Names are trimmed.
pub open spec fn variables_of(
    rows: Seq<HeaderRowModel>,
) -> Result<Seq<(Seq<char>, Seq<char>)>, Seq<char>>
    decreases rows.len(),
{
    if rows.len() == 0 {
        Ok(Seq::empty())
    } else {
        match variables_of(rows.drop_last()) {
            Err(problem) => Err(problem),
            Ok(variables) => {
                let name = trim(rows.last().key.value);
                if name.len() == 0 {
                    Err(unnamed_problem())
                } else if has_name(variables, name) {
                    Err(repeated_problem(name))
                } else {
                    Ok(
                        variables.insert(
                            rank(variables, name),
                            (name, rows.last().value.value),
                        ),
                    )
                }
            },
        }
    }
}

proof fn lemma_rank(variables: Seq<(Seq<char>, Seq<char>)>, name: Seq<char>)
    ensures
        0 <= rank(variables, name) <= variables.len(),
        forall|j: int|
            0 <= j < rank(variables, name) ==> !text_less(name, (#[trigger] variables[j]).0),
        rank(variables, name) < variables.len() ==> text_less(
            name,
            variables[rank(variables, name)].0,
        ),
    decreases variables.len(),
{
    if variables.len() > 0 && !text_less(name, variables[0].0) {
        let rest = variables.drop_first();
        lemma_rank(rest, name);
        assert forall|j: int| 0 <= j < rank(variables, name) implies !text_less(
            name,
            (#[trigger] variables[j]).0,
        ) by {
            if j > 0 {
                assert(rest[j - 1] == variables[j]);
            }
        }
    }
}

proof fn lemma_rank_unique(variables: Seq<(Seq<char>, Seq<char>)>, name: Seq<char>, k: int)
    requires
        0 <= k <= variables.len(),
        forall|j: int| 0 <= j < k ==> !text_less(name, (#[trigger] variables[j]).0),
        k < variables.len() ==> text_less(name, variables[k].0),
    ensures
        rank(variables, name) == k,
{
    lemma_rank(variables, name);
    let r = rank(variables, name);
    if r < k {
        assert(!text_less(name, variables[r].0));
    }
    if k < r {
        assert(!text_less(name, variables[k].0));
    }
}

proof fn lemma_insert_ordered(
    variables: Seq<(Seq<char>, Seq<char>)>,
    name: Seq<char>,
    value: Seq<char>,
)
    requires
        ordered(variables),
        !has_name(variables, name),
    ensures
        ordered(variables.insert(rank(variables, name), (name, value))),
{
    lemma_rank(variables, name);
    let k = rank(variables, name);
    let after = variables.insert(k, (name, value));
    assert forall|i: int, j: int| 0 <= i < j < after.len() implies text_less(
        (#[trigger] after[i]).0,
        (#[trigger] after[j]).0,
    ) by {
        if j < k {
            assert(after[i] == variables[i] && after[j] == variables[j]);
        } else if j == k {
            assert(after[i] == variables[i]);
            lemma_text_order(variables[i].0, name);
        } else if i < k {
            assert(after[i] == variables[i] && after[j] == variables[j - 1]);
        } else if i == k {
            assert(after[j] == variables[j - 1]);
            if j - 1 > k {
                lemma_text_order_transitive(name, variables[k].0, variables[j - 1].0);
            }
        } else {
            assert(after[i] == variables[i - 1] && after[j] == variables[j - 1]);
        }
    }
}

/// Rows are taken exactly when every name is more than whitespace and no two
/// are the same. The variables then are those of the rows, in the order of
/// their names, none twice.
pub proof fn law_saved_variables_are_the_rows(rows: Seq<HeaderRowModel>)
    ensures
        variables_of(rows) is Ok <==> {
            &&& forall|i: int| 0 <= i < rows.len() ==> trim((#[trigger] rows[i]).key.value).len() > 0
            &&& forall|i: int, j: int|
                0 <= i < j < rows.len() ==> trim((#[trigger] rows[i]).key.value) != trim(
                    (#[trigger] rows[j]).key.value,
                )
        },
        variables_of(rows) matches Ok(variables) ==> {
            &&& ordered(variables)
            &&& variables.len() == rows.len()
            &&& forall|name: Seq<char>, value: Seq<char>| #[trigger]
                variables.contains((name, value)) <==> exists|i: int|
                    0 <= i < rows.len() && trim((#[trigger] rows[i]).key.value) == name
                        && rows[i].value.value == value
        },
    decreases rows.len(),
{
    if rows.len() > 0 {
        let rest = rows.drop_last();
        let last = rows.last();
        let name = trim(last.key.value);
        law_saved_variables_are_the_rows(rest);
        assert(forall|i: int| 0 <= i < rest.len() ==> rest[i] == rows[i]);
        assert(rows[rows.len() - 1] == last);
        if let Ok(before) = variables_of(rest) {
            assert(has_name(before, name) <==> exists|i: int|
                0 <= i < rest.len() && trim((#[trigger] rows[i]).key.value) == name) by {
                if has_name(before, name) {
                    let k = choose|k: int|
                        0 <= k < before.len() && (#[trigger] before[k]).0 == name;
                    assert(before.contains((name, before[k].1)));
                }
                if exists|i: int|
                    0 <= i < rest.len() && trim((#[trigger] rows[i]).key.value) == name {
                    let i = choose|i: int|
                        0 <= i < rest.len() && trim((#[trigger] rows[i]).key.value) == name;
                    assert(rest[i] == rows[i]);
                    assert(before.contains((name, rows[i].value.value)));
                    let k = choose|k: int|
                        0 <= k < before.len() && before[k] == (name, rows[i].value.value);
                    assert(before[k].0 == name);
                }
            }
            if variables_of(rows) is Ok {
                lemma_rank(before, name);
                lemma_insert_ordered(before, name, last.value.value);
                let k = rank(before, name);
                let after = variables_of(rows)->Ok_0;
                assert forall|n: Seq<char>, v: Seq<char>| #[trigger]
                    after.contains((n, v)) <==> exists|i: int|
                        0 <= i < rows.len() && trim((#[trigger] rows[i]).key.value) == n
                            && rows[i].value.value == v by {
                    if after.contains((n, v)) {
                        let m = choose|m: int| 0 <= m < after.len() && after[m] == (n, v);
                        if m < k {
                            assert(before[m] == (n, v));
                            assert(before.contains((n, v)));
                        } else if m > k {
                            assert(before[m - 1] == (n, v));
                            assert(before.contains((n, v)));
                        } else {
                            assert(rows[rows.len() - 1].value.value == v);
                        }
                        if before.contains((n, v)) {
                            let i = choose|i: int|
                                0 <= i < rest.len() && trim((#[trigger] rest[i]).key.value) == n
                                    && rest[i].value.value == v;
                            assert(rows[i] == rest[i]);
                        }
                    }
                    if exists|i: int|
                        0 <= i < rows.len() && trim((#[trigger] rows[i]).key.value) == n
                            && rows[i].value.value == v {
                        let i = choose|i: int|
                            0 <= i < rows.len() && trim((#[trigger] rows[i]).key.value) == n
                                && rows[i].value.value == v;
                        if i < rest.len() {
                            assert(rest[i] == rows[i]);
                            assert(before.contains((n, v)));
                            let m = choose|m: int| 0 <= m < before.len() && before[m] == (n, v);
                            if m < k {
                                assert(after[m] == (n, v));
                            } else {
                                assert(after[m + 1] == (n, v));
                            }
                        } else {
                            assert(after[k] == (n, v));
                        }
                    }
                }
            }
        } else {
            assert(variables_of(rows) is Err);
            if forall|i: int|
                0 <= i < rows.len() ==> trim((#[trigger] rows[i]).key.value).len() > 0 {
                assert(forall|i: int|
                    0 <= i < rest.len() ==> trim((#[trigger] rest[i]).key.value).len() > 0) by {
                    assert(forall|i: int| 0 <= i < rest.len() ==> rest[i] == rows[i]);
                }
            }
        }
    }
}

/// Variables that are in order, under names without whitespace around them,
/// are what the rows of their unchanged form describe.
pub proof fn law_unchanged_rows_describe_their_variables(variables: Seq<(Seq<char>, Seq<char>)>)
    requires
        ordered(variables),
        forall|i: int|
            0 <= i < variables.len() ==> {
                &&& (#[trigger] variables[i]).0.len() > 0
                &&& trim(variables[i].0) == variables[i].0
            },
    ensures
        variables_of(rows_for(variables)) == Ok::<Seq<(Seq<char>, Seq<char>)>, Seq<char>>(
            variables,
        ),
    decreases variables.len(),
{
    if variables.len() > 0 {
        let rest = variables.drop_last();
        let last = variables.last();
        assert(last == variables[variables.len() - 1]);
        assert forall|i: int| 0 <= i < rest.len() implies {
            &&& (#[trigger] rest[i]).0.len() > 0
            &&& trim(rest[i].0) == rest[i].0
        } by {
            assert(rest[i] == variables[i]);
        }
        assert forall|i: int, j: int| 0 <= i < j < rest.len() implies text_less(
            (#[trigger] rest[i]).0,
            (#[trigger] rest[j]).0,
        ) by {
            assert(rest[i] == variables[i] && rest[j] == variables[j]);
        }
        law_unchanged_rows_describe_their_variables(rest);
        assert(rows_for(variables).drop_last() =~= rows_for(rest));
        assert forall|j: int| 0 <= j < rest.len() implies !text_less(
            last.0,
            (#[trigger] rest[j]).0,
        ) && rest[j].0 != last.0 by {
            assert(rest[j] == variables[j]);
            lemma_text_order(rest[j].0, last.0);
        }
        lemma_rank_unique(rest, last.0, rest.len() as int);
        assert(rest.insert(rest.len() as int, last) =~= variables);
    } else {
        assert(variables =~= Seq::empty());
    }
}

/// Variables that were saved can be saved again, and come out the same.
pub proof fn law_saved_variables_save_unchanged(rows: Seq<HeaderRowModel>)
    requires
        variables_of(rows) is Ok,
    ensures
        variables_of(rows_for(variables_of(rows)->Ok_0)) == variables_of(rows),
{
    let variables = variables_of(rows)->Ok_0;
    law_saved_variables_are_the_rows(rows);
    assert forall|i: int| 0 <= i < variables.len() implies {
        &&& (#[trigger] variables[i]).0.len() > 0
        &&& trim(variables[i].0) == variables[i].0
    } by {
        assert(variables.contains((variables[i].0, variables[i].1)));
        let k = choose|k: int|
            0 <= k < rows.len() && trim((#[trigger] rows[k]).key.value) == variables[i].0
                && rows[k].value.value == variables[i].1;
        assert(trim(rows[k].key.value).len() > 0);
        lemma_trim_idempotent(rows[k].key.value);
    }
    law_unchanged_rows_describe_their_variables(variables);
}

/// Whether `a` comes before `b`.
fn comes_before(a: &str, b: &str) -> (r: bool)
    ensures
        r == text_less(a@, b@),
{
    let x = chars_of(a);
    let y = chars_of(b);
    let mut i: usize = 0;
    assert(x@.skip(0) =~= x@ && y@.skip(0) =~= y@);
    loop
        invariant
            x@ == a@,
            y@ == b@,
            i <= x@.len(),
            i <= y@.len(),
            text_less(x@.skip(i as int), y@.skip(i as int)) == text_less(a@, b@),
        decreases x@.len() - i,
    {
        if i >= y.len() {
            return false;
        }
        if i >= x.len() {
            return true;
        }
        assert(x@.skip(i as int)[0] == x@[i as int] && y@.skip(i as int)[0] == y@[i as int]);
        assert(x@.skip(i as int).drop_first() =~= x@.skip(i + 1));
        assert(y@.skip(i as int).drop_first() =~= y@.skip(i + 1));
        if x[i] != y[i] {
            return (x[i] as u32) < (y[i] as u32);
        }
        i = i + 1;
    }
}

/// The variables that rows describe, in the order of their names; or what is
/// wrong with the first row that cannot be taken.
pub fn validate_env_var_rows(rows: &Vec<HeaderRow>) -> (r: Result<Vec<(String, String)>, String>)
    ensures
        match variables_of(rows_view(rows@)) {
            Ok(variables) => r is Ok && pairs_view(r->Ok_0@) == variables,
            Err(problem) => r is Err && r->Err_0@ == problem,
        },
{
    let ghost model = rows_view(rows@);
    let mut variables: Vec<(String, String)> = Vec::new();
    let mut i: usize = 0;
    assert(pairs_view(variables@) =~= Seq::empty());
    assert(model.take(0) =~= Seq::<HeaderRowModel>::empty());
    while i < rows.len()
        invariant
            i <= rows@.len(),
            model == rows_view(rows@),
            variables_of(model.take(i as int)) == Ok::<Seq<(Seq<char>, Seq<char>)>, Seq<char>>(
                pairs_view(variables@),
            ),
        decreases rows@.len() - i,
    {
        let ghost next = model.take(i + 1);
        let ghost before = pairs_view(variables@);
        proof {
            assert(next.drop_last() =~= model.take(i as int));
            assert(next.last() == rows@[i as int]@);
        }
        let name = trim_text(rows[i].key.value());
        if name.as_str().unicode_len() == 0 {
            proof {
                lemma_error_stays(model, i + 1);
            }
            return Err("every variable needs a name".to_owned());
        }
        let mut at: usize = 0;
        let mut found = false;
        while at < variables.len() && !found
            invariant
                at <= variables@.len(),
                before == pairs_view(variables@),
                found ==> has_name(before, name@),
                !found ==> forall|j: int| 0 <= j < at ==> (#[trigger] before[j]).0 != name@,
            decreases variables@.len() - at, if found { 0int } else { 1int },
        {
            assert(before[at as int].0 == variables@[at as int].0@);
            if same_text(variables[at].0.as_str(), name.as_str()) {
                found = true;
            } else {
                at = at + 1;
            }
        }
        if found {
            let mut message = "two variables are both named '".to_owned();
            message.append(name.as_str());
            message.append("'; names must be unique");
            proof {
                lemma_error_stays(model, i + 1);
            }
            return Err(message);
        }
        let mut k: usize = 0;
        while k < variables.len() && !comes_before(name.as_str(), variables[k].0.as_str())
            invariant
                k <= variables@.len(),
                before == pairs_view(variables@),
                forall|j: int| 0 <= j < k ==> !text_less(name@, (#[trigger] before[j]).0),
            decreases variables@.len() - k,
        {
            assert(before[k as int].0 == variables@[k as int].0@);
            k = k + 1;
        }
        proof {
            if k < variables@.len() {
                assert(before[k as int].0 == variables@[k as int].0@);
            }
            lemma_rank_unique(before, name@, k as int);
        }
        variables.insert(k, (name, rows[i].value.value().to_owned()));
        assert(pairs_view(variables@) =~= before.insert(
            k as int,
            (trim(next.last().key.value), next.last().value.value),
        ));
        i = i + 1;
    }
    assert(model.take(model.len() as int) =~= model);
    Ok(variables)
}

/// A problem found in the first rows is the problem of all of them.
proof fn lemma_error_stays(rows: Seq<HeaderRowModel>, n: int)
    requires
        0 <= n <= rows.len(),
        variables_of(rows.take(n)) is Err,
    ensures
        variables_of(rows) == variables_of(rows.take(n)),
    decreases rows.len() - n,
{
    if n < rows.len() {
        assert(rows.take(n + 1).drop_last() =~= rows.take(n));
        lemma_error_stays(rows, n + 1);
    } else {
        assert(rows.take(n) =~= rows);
    }
}

// ---------------------------------------------------------------------------
// What the messages do
// ---------------------------------------------------------------------------

/// A session with the form open for the environment that the picker's cursor
/// is on.
pub open spec fn variables_entered(s: SessionModel) -> SessionModel {
    match s.environment_overlay {
        Some(cursor) => if s.edit_mode is None && s.environment_edit is None && s.run_state
            != RunState::InFlight && cursor < s.environments.len() {
            SessionModel {
                environment_edit: Some(
                    variables_form_for(cursor, s.environments[cursor as int].environment),
                ),
                ..s
            }
        } else {
            s
        },
        None => s,
    }
}

/// What is said of an environment that was read from no file.
pub open spec fn no_file_problem() -> Seq<char> {
    "this environment has no file on disk to save to"@
}

/// A session whose form notes why it could not be saved.
pub open spec fn variables_refused(s: SessionModel, problem: Seq<char>) -> SessionModel {
    match s.environment_edit {
        Some(form) => SessionModel {
            environment_edit: Some(EnvironmentEditModel { save_error: Some(problem), ..form }),
            ..s
        },
        None => s,
    }
}

/// What a save attempt does: the session after it, and the environment to
/// write where there is one.
pub open spec fn variables_save_requested(s: SessionModel) -> (SessionModel, EffectModel) {
    match s.environment_edit {
        None => (s, EffectModel::Nothing),
        Some(form) => {
            let waiting = SessionModel {
                environment_edit: Some(EnvironmentEditModel { save_error: None, ..form }),
                ..s
            };
            match variables_of(form.rows) {
                Err(problem) => (variables_refused(s, problem), EffectModel::Nothing),
                Ok(variables) => if form.index >= s.environments.len() {
                    (SessionModel { environment_edit: None, ..s }, EffectModel::Nothing)
                } else {
                    let environment = s.environments[form.index as int].environment;
                    match environment.source {
                        None => (
                            variables_refused(s, no_file_problem()),
                            EffectModel::Nothing,
                        ),
                        Some(path) => (
                            waiting,
                            EffectModel::SaveEnvironment {
                                collection_id: s.id,
                                path,
                                index: form.index,
                                environment: EnvironmentModel { variables, ..environment },
                            },
                        ),
                    }
                },
            }
        },
    }
}

/// A session after an environment was written, or not, for its form.
pub open spec fn variables_saved(
    s: SessionModel,
    index: usize,
    environment: EnvironmentModel,
    written: Result<(), Seq<char>>,
) -> SessionModel {
    if s.environment_edit is None {
        s
    } else {
        match written {
            Ok(_) => SessionModel {
                environments: if index < s.environments.len() {
                    s.environments.update(
                        index as int,
                        NamedEnvironmentModel {
                            environment,
                            ..s.environments[index as int]
                        },
                    )
                } else {
                    s.environments
                },
                environment_edit: None,
                ..s
            },
            Err(error) => variables_refused(s, error),
        }
    }
}

/// A session after a change to the text that has the focus in its form.
pub open spec fn variable_edited(s: SessionModel, change: TextEdit) -> SessionModel {
    match s.environment_edit {
        Some(form) => match form.focused_field() {
            Some(field) => SessionModel {
                environment_edit: Some(form.with_focused(field.edited(change))),
                ..s
            },
            None => s,
        },
        None => s,
    }
}

/// A session after a move of the cursor in its form.
pub open spec fn variable_cursor_moved(s: SessionModel, step: CursorMove) -> SessionModel {
    match s.environment_edit {
        Some(form) => match form.focused_field() {
            Some(field) => SessionModel {
                environment_edit: Some(form.with_focused(field.moved(step))),
                ..s
            },
            None => s,
        },
        None => s,
    }
}

// ---------------------------------------------------------------------------
// Handlers
// ---------------------------------------------------------------------------

/// Opens the form for the environment that the picker's cursor is on.
pub fn handle_enter_environment_edit(state: &mut CollectionSession)
    ensures
        final(state)@ == variables_entered(old(state)@),
{
    if state.edit_mode.is_none() && state.environment_edit.is_none() && !matches!(
        state.run_state,
        RunState::InFlight
    ) {
        if let Some(cursor) = state.environment_overlay {
            if cursor < state.environments.len() {
                let form = EnvironmentEditState::new(
                    cursor,
                    &state.environments[cursor].environment,
                );
                state.environment_edit = Some(form);
            }
        }
    }
}

/// Gives the form up.
pub fn handle_cancel_environment_edit(state: &mut CollectionSession)
    ensures
        final(state)@ == (SessionModel { environment_edit: None, ..old(state)@ }),
{
    state.environment_edit = None;
}

/// Tries to save the form. The environment to write comes back as the effect.
pub fn handle_save_environment_edit(state: &mut CollectionSession) -> (effect: Effect)
    ensures
        (final(state)@, effect@) == variables_save_requested(old(state)@),
{
    let mut form = match state.environment_edit.take() {
        Some(form) => form,
        None => return Effect::Nothing,
    };
    form.save_error = None;
    let variables = match validate_env_var_rows(&form.rows) {
        Ok(variables) => variables,
        Err(problem) => {
            form.save_error = Some(problem);
            state.environment_edit = Some(form);
            return Effect::Nothing;
        },
    };
    let index = form.index;
    if index >= state.environments.len() {
        return Effect::Nothing;
    }
    let environment = &state.environments[index].environment;
    match &environment.source {
        None => {
            form.save_error = Some("this environment has no file on disk to save to".to_owned());
            state.environment_edit = Some(form);
            Effect::Nothing
        },
        Some(path) => {
            let mut candidate = environment.clone();
            candidate.variables = variables;
            let effect = Effect::SaveEnvironment {
                collection_id: state.id,
                path: path.clone(),
                index,
                environment: candidate,
            };
            state.environment_edit = Some(form);
            effect
        },
    }
}

/// Takes the answer to a save of the form.
pub fn handle_environment_saved(
    state: &mut CollectionSession,
    index: usize,
    environment: Environment,
    written: Result<(), String>,
)
    ensures
        final(state)@ == variables_saved(
            old(state)@,
            index,
            environment@,
            written_text(written),
        ),
{
    if let Some(form) = &mut state.environment_edit {
        match written {
            Ok(_) => {
                if index < state.environments.len() {
                    let ghost before = environments_view(state.environments@);
                    state.environments[index].environment = environment;
                    assert(environments_view(state.environments@) =~= before.update(
                        index as int,
                        NamedEnvironmentModel { environment: environment@, ..before[index as int] },
                    ));
                }
                state.environment_edit = None;
            },
            Err(error) => {
                form.save_error = Some(error);
            },
        }
    }
}

/// Adds an empty row to the form.
pub fn handle_add_env_var_row(state: &mut CollectionSession)
    ensures
        final(state)@ == (SessionModel {
            environment_edit: match old(state)@.environment_edit {
                Some(form) => Some(form.row_added()),
                None => None,
            },
            ..old(state)@
        }),
{
    if let Some(form) = &mut state.environment_edit {
        form.add_row();
    }
}

/// Asks whether to delete the row that has the focus.
pub fn handle_request_delete_env_var_row(state: &mut CollectionSession)
    ensures
        final(state)@ == (SessionModel {
            environment_edit: match old(state)@.environment_edit {
                Some(form) => Some(form.delete_requested()),
                None => None,
            },
            ..old(state)@
        }),
{
    if let Some(form) = &mut state.environment_edit {
        form.request_delete_focused();
    }
}

/// Deletes the row in question.
pub fn handle_confirm_delete_env_var_row(state: &mut CollectionSession)
    ensures
        final(state)@ == (SessionModel {
            environment_edit: match old(state)@.environment_edit {
                Some(form) => Some(form.delete_confirmed()),
                None => None,
            },
            ..old(state)@
        }),
{
    if let Some(form) = &mut state.environment_edit {
        form.confirm_pending_delete();
    }
}

/// Keeps the row in question.
pub fn handle_cancel_delete_env_var_row(state: &mut CollectionSession)
    ensures
        final(state)@ == (SessionModel {
            environment_edit: match old(state)@.environment_edit {
                Some(form) => Some(form.delete_cancelled()),
                None => None,
            },
            ..old(state)@
        }),
{
    if let Some(form) = &mut state.environment_edit {
        form.cancel_pending_delete();
    }
}

/// Changes the text that has the focus in the form.
pub fn env_var_mutate(state: &mut CollectionSession, change: TextEdit)
    ensures
        final(state)@ == variable_edited(old(state)@, change),
{
    if let Some(form) = &mut state.environment_edit {
        if let Some(field) = form.focused_field_mut() {
            field.apply(change);
        }
    }
}

/// Moves the cursor in the form.
pub fn env_var_move(state: &mut CollectionSession, step: CursorMove)
    ensures
        final(state)@ == variable_cursor_moved(old(state)@, step),
{
    if let Some(form) = &mut state.environment_edit {
        if let Some(field) = form.focused_field_mut() {
            field.step(step);
        }
    }
}

} // verus!
