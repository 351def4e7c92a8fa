//! Rows and fields of an open form: which row goes, which text is typed into,
//! where the focus goes, and what a save takes from each.
use vstd::prelude::*;

use crate::document::{
    ApiKeyLocation, CaptureKind, CaptureSourceModel, JsonOperator, OAuthGrantType,
    RequestModel, method_named,
};
use crate::edit::{
    AuthEditModel, AuthField, BodyEditModel, EditField, EditModel, RowChange, auth_field_at,
    auth_with_field,
};
use crate::outside::yaml_problem;
use crate::state::{Message, SessionModel};
use crate::text::trim;
use crate::text_field::{TextEdit, TextFieldModel};
use crate::update::request_edit::{applied, form_edited, rows_edited};
use crate::update::session_updated;

verus! {

/// Whether `after` is `before` without its item `i`, the others in their
/// order.
pub open spec fn without_item<T>(before: Seq<T>, after: Seq<T>, i: int) -> bool {
    &&& 0 <= i < before.len()
    &&& after.len() == before.len() - 1
    &&& forall|j: int| 0 <= j < i ==> #[trigger] after[j] == before[j]
    &&& forall|j: int| i <= j < after.len() ==> #[trigger] after[j] == before[j + 1]
}

/// Whether `after` is `before` with one more item behind the others.
pub open spec fn with_one_more<T>(before: Seq<T>, after: Seq<T>) -> bool {
    &&& after.len() == before.len() + 1
    &&& forall|j: int| 0 <= j < before.len() ==> #[trigger] after[j] == before[j]
}

/// Whether a text field is empty.
pub open spec fn is_empty(field: TextFieldModel) -> bool {
    field.value.len() == 0 && field.cursor == 0
}

/// Whether nothing of a session changed but its form, and the mark on the
/// request that the form is for.
pub open spec fn only_form_changed(s: SessionModel, t: SessionModel) -> bool {
    &&& t.edit_mode is Some
    &&& t == (SessionModel { edit_mode: t.edit_mode, dirty_requests: t.dirty_requests, ..s })
    &&& s.load_state is Loaded ==> forall|k: usize|
        t.dirty_requests.contains(k) == (s.dirty_requests.contains(k) || k
            == s.load_state->selected)
}

// ---------------------------------------------------------------------------
// Deleting rows
// ---------------------------------------------------------------------------

/// Deleting a header row takes the row that has the focus, and no other. The
/// focus goes to the row in front of it, and to the address where no row is
/// left.
pub proof fn law_the_header_row_in_focus_is_deleted(s: SessionModel, i: usize)
    requires
        s.edit_mode is Some,
        i < s.edit_mode->0.headers.len(),
        s.edit_mode->0.focus == EditField::HeaderKey(i) || s.edit_mode->0.focus
            == EditField::HeaderValue(i),
    ensures
        ({
            let t = session_updated(s, Message::DeleteHeaderRow).0;
            let (before, after) = (s.edit_mode->0, t.edit_mode->0);
            &&& only_form_changed(s, t)
            &&& without_item(before.headers, after.headers, i as int)
            &&& after == (EditModel {
                headers: after.headers,
                focus: after.focus,
                dirty: true,
                ..before
            })
            &&& i > 0 ==> after.focus == EditField::HeaderKey((i - 1) as usize)
            &&& i == 0 && after.headers.len() > 0 ==> after.focus == EditField::HeaderKey(0)
            &&& after.headers.len() == 0 ==> after.focus == EditField::Url
        }),
{
}

/// Deleting an assertion row takes the row that has the focus, and no other.
/// The focus goes to the row in front of it, and to the name where no row is
/// left.
pub proof fn law_the_assertion_row_in_focus_is_deleted(s: SessionModel, i: usize)
    requires
        s.edit_mode is Some,
        i < s.edit_mode->0.assertions.len(),
        ({
            let focus = s.edit_mode->0.focus;
            ||| focus == EditField::AssertionPath(i)
            ||| focus == EditField::AssertionOperator(i)
            ||| focus == EditField::AssertionValue(i)
            ||| focus == EditField::AssertionNegate(i)
        }),
    ensures
        ({
            let t = session_updated(s, Message::DeleteAssertionRow).0;
            let (before, after) = (s.edit_mode->0, t.edit_mode->0);
            &&& only_form_changed(s, t)
            &&& without_item(before.assertions, after.assertions, i as int)
            &&& after == (EditModel {
                assertions: after.assertions,
                focus: after.focus,
                dirty: true,
                ..before
            })
            &&& i > 0 ==> after.focus == EditField::AssertionPath((i - 1) as usize)
            &&& i == 0 && after.assertions.len() > 0 ==> after.focus
                == EditField::AssertionPath(0)
            &&& after.assertions.len() == 0 ==> after.focus == EditField::Name
        }),
{
}

/// Deleting a capture row takes the row that has the focus, and no other. The
/// focus goes to the row in front of it, and to the name where no row is left.
pub proof fn law_the_capture_row_in_focus_is_deleted(s: SessionModel, i: usize)
    requires
        s.edit_mode is Some,
        i < s.edit_mode->0.captures.len(),
        ({
            let focus = s.edit_mode->0.focus;
            ||| focus == EditField::CaptureName(i)
            ||| focus == EditField::CaptureKind(i)
            ||| focus == EditField::CaptureValue(i)
        }),
    ensures
        ({
            let t = session_updated(s, Message::DeleteCaptureRow).0;
            let (before, after) = (s.edit_mode->0, t.edit_mode->0);
            &&& only_form_changed(s, t)
            &&& without_item(before.captures, after.captures, i as int)
            &&& after == (EditModel {
                captures: after.captures,
                focus: after.focus,
                dirty: true,
                ..before
            })
            &&& i > 0 ==> after.focus == EditField::CaptureName((i - 1) as usize)
            &&& i == 0 && after.captures.len() > 0 ==> after.focus == EditField::CaptureName(0)
            &&& after.captures.len() == 0 ==> after.focus == EditField::Name
        }),
{
}

/// Where the focus is on no row of a kind, deleting one of that kind leaves
/// all rows and the focus as they are.
pub proof fn law_without_focus_no_row_is_deleted(s: SessionModel)
    requires
        s.edit_mode is Some,
    ensures
        ({
            let before = s.edit_mode->0;
            let focus = before.focus;
            let kept = Some(EditModel { dirty: true, ..before });
            &&& !(focus is HeaderKey || focus is HeaderValue) ==> rows_edited(
                s,
                RowChange::DeleteHeader,
            ).edit_mode == kept
            &&& !(focus is AssertionPath || focus is AssertionOperator || focus is AssertionValue
                || focus is AssertionNegate) ==> rows_edited(
                s,
                RowChange::DeleteAssertion,
            ).edit_mode == kept
            &&& !(focus is CaptureName || focus is CaptureKind || focus is CaptureValue)
                ==> rows_edited(s, RowChange::DeleteCapture).edit_mode == kept
        }),
{
}

// ---------------------------------------------------------------------------
// Adding rows
// ---------------------------------------------------------------------------

/// An added row stands behind the others of its kind, is empty, and has the
/// focus; nothing else of the form changes.
pub proof fn law_an_added_row_is_empty_and_last(s: SessionModel)
    requires
        s.edit_mode is Some,
        s.edit_mode->0.headers.len() < usize::MAX,
        s.edit_mode->0.assertions.len() < usize::MAX,
        s.edit_mode->0.captures.len() < usize::MAX,
    ensures
        ({
            let t = rows_edited(s, RowChange::AddHeader);
            let (before, after) = (s.edit_mode->0, t.edit_mode->0);
            &&& only_form_changed(s, t)
            &&& with_one_more(before.headers, after.headers)
            &&& is_empty(after.headers.last().key)
            &&& is_empty(after.headers.last().value)
            &&& after == (EditModel {
                headers: after.headers,
                focus: EditField::HeaderKey(before.headers.len() as usize),
                dirty: true,
                ..before
            })
        }),
        ({
            let t = rows_edited(s, RowChange::AddAssertion);
            let (before, after) = (s.edit_mode->0, t.edit_mode->0);
            &&& only_form_changed(s, t)
            &&& with_one_more(before.assertions, after.assertions)
            &&& is_empty(after.assertions.last().path)
            &&& is_empty(after.assertions.last().value)
            &&& after.assertions.last().operator == JsonOperator::Equals
            &&& !after.assertions.last().negate
            &&& after.assertions.last().value_error is None
            &&& after == (EditModel {
                assertions: after.assertions,
                focus: EditField::AssertionPath(before.assertions.len() as usize),
                dirty: true,
                ..before
            })
        }),
        ({
            let t = rows_edited(s, RowChange::AddCapture);
            let (before, after) = (s.edit_mode->0, t.edit_mode->0);
            &&& only_form_changed(s, t)
            &&& with_one_more(before.captures, after.captures)
            &&& is_empty(after.captures.last().name)
            &&& is_empty(after.captures.last().value)
            &&& after.captures.last().kind == CaptureKind::JsonPath
            &&& after == (EditModel {
                captures: after.captures,
                focus: EditField::CaptureName(before.captures.len() as usize),
                dirty: true,
                ..before
            })
        }),
{
}

// ---------------------------------------------------------------------------
// Typing
// ---------------------------------------------------------------------------

/// The text of an `auth:` block that a field shows, where it shows a text.
pub open spec fn auth_text_at(auth: AuthEditModel, field: AuthField) -> Option<TextFieldModel> {
    match auth {
        AuthEditModel::Absent => None,
        AuthEditModel::Bearer { token } => if field == AuthField::BearerToken {
            Some(token)
        } else {
            None
        },
        AuthEditModel::Basic { user, pass } => if field == AuthField::BasicUser {
            Some(user)
        } else if field == AuthField::BasicPass {
            Some(pass)
        } else {
            None
        },
        AuthEditModel::ApiKey { name, value, .. } => if field == AuthField::ApiKeyName {
            Some(name)
        } else if field == AuthField::ApiKeyValue {
            Some(value)
        } else {
            None
        },
        AuthEditModel::OAuth(o) => match field {
            AuthField::OAuthTokenUrl => Some(o.token_url),
            AuthField::OAuthClientId => Some(o.client_id),
            AuthField::OAuthClientSecret => Some(o.client_secret),
            AuthField::OAuthScope => Some(o.scope),
            AuthField::OAuthUsername => Some(o.username),
            AuthField::OAuthPassword => Some(o.password),
            AuthField::OAuthAuthorizationUrl => Some(o.authorization_code.authorization_url),
            AuthField::OAuthRedirectUri => Some(o.authorization_code.redirect_uri),
            _ => None,
        },
    }
}

/// The text of a form that a field shows, where it shows a text.
pub open spec fn text_at(edit: EditModel, field: EditField) -> Option<TextFieldModel> {
    match field {
        EditField::Name => Some(edit.name),
        EditField::Method => Some(edit.method),
        EditField::Url => Some(edit.url),
        EditField::HeaderKey(i) if i < edit.headers.len() => Some(edit.headers[i as int].key),
        EditField::HeaderValue(i) if i < edit.headers.len() => Some(edit.headers[i as int].value),
        EditField::Body => match edit.body {
            BodyEditModel::Editable { text, .. } => Some(text),
            _ => None,
        },
        EditField::Auth(field) => auth_text_at(edit.auth, field),
        EditField::AssertionPath(i) if i < edit.assertions.len() => Some(
            edit.assertions[i as int].path,
        ),
        EditField::AssertionValue(i) if i < edit.assertions.len() => Some(
            edit.assertions[i as int].value,
        ),
        EditField::CaptureName(i) if i < edit.captures.len() => Some(
            edit.captures[i as int].name,
        ),
        EditField::CaptureValue(i) if i < edit.captures.len() => Some(
            edit.captures[i as int].value,
        ),
        _ => None,
    }
}

/// Whether two forms have the same rows and fields, and the same choices in
/// those that are no text.
pub open spec fn same_choices(a: EditModel, b: EditModel) -> bool {
    &&& a.headers.len() == b.headers.len()
    &&& a.assertions.len() == b.assertions.len()
    &&& a.captures.len() == b.captures.len()
    &&& a.focus == b.focus
    &&& forall|i: int|
        0 <= i < a.assertions.len() ==> (#[trigger] a.assertions[i]).operator
            == b.assertions[i].operator && a.assertions[i].negate == b.assertions[i].negate
    &&& forall|i: int|
        0 <= i < a.captures.len() ==> (#[trigger] a.captures[i]).kind == b.captures[i].kind
    &&& match (a.body, b.body) {
        (
            BodyEditModel::Editable { is_json: x, .. },
            BodyEditModel::Editable { is_json: y, .. },
        ) => x == y,
        _ => a.body == b.body,
    }
    &&& match (a.auth, b.auth) {
        (AuthEditModel::Absent, AuthEditModel::Absent) => true,
        (AuthEditModel::Bearer { .. }, AuthEditModel::Bearer { .. }) => true,
        (AuthEditModel::Basic { .. }, AuthEditModel::Basic { .. }) => true,
        (
            AuthEditModel::ApiKey { location: x, .. },
            AuthEditModel::ApiKey { location: y, .. },
        ) => x == y,
        (AuthEditModel::OAuth(x), AuthEditModel::OAuth(y)) => x.grant_type == y.grant_type
            && x.authorization_code.login == y.authorization_code.login,
        _ => false,
    }
}

/// The message that makes a change to the text that has the focus.
pub open spec fn typing(change: TextEdit) -> Message {
    match change {
        TextEdit::Insert(c) => Message::EditInsertChar(c),
        TextEdit::Backspace => Message::EditBackspace,
        TextEdit::Delete => Message::EditDelete,
    }
}

proof fn lemma_auth_text_replaced(auth: AuthEditModel, field: AuthField, t: TextFieldModel)
    requires
        auth_text_at(auth, field) is Some,
    ensures
        auth_text_at(auth_with_field(auth, field, t), field) == Some(t),
        forall|other: AuthField|
            other != field ==> #[trigger] auth_text_at(auth_with_field(auth, field, t), other)
                == auth_text_at(auth, other),
        auth_field_at(auth, field) == auth_text_at(auth, field),
{
}

#[verifier::spinoff_prover]
pub proof fn lemma_text_replaced(edit: EditModel, t: TextFieldModel)
    requires
        text_at(edit, edit.focus) is Some,
    ensures
        ({
            let after = edit.with_field(edit.focus, t);
            &&& same_choices(edit, after)
            &&& text_at(after, edit.focus) == Some(t)
            &&& forall|field: EditField|
                field != edit.focus ==> #[trigger] text_at(after, field) == text_at(edit, field)
        }),
        edit.field_at(edit.focus) == text_at(edit, edit.focus),
{
    if let EditField::Auth(field) = edit.focus {
        lemma_auth_text_replaced(edit.auth, field, t);
    }
}

#[verifier::spinoff_prover]
proof fn lemma_form_typed(edit: EditModel, change: TextEdit)
    requires
        text_at(edit, edit.focus) is Some,
    ensures
        ({
            let after = form_edited(edit, change);
            let focus = edit.focus;
            &&& after.dirty
            &&& same_choices(edit, after)
            &&& text_at(after, focus) == Some(text_at(edit, focus)->0.edited(change))
            &&& forall|field: EditField|
                field != focus ==> #[trigger] text_at(after, field) == text_at(edit, field)
            &&& focus == EditField::Method ==> (after.method_error is Some <==> method_named(
                after.method.value,
            ) is None)
            &&& focus matches EditField::AssertionValue(i) ==> after.assertions[i as int].value_error
                == yaml_problem(after.assertions[i as int].value.value)
        }),
{
    let focus = edit.focus;
    let t = text_at(edit, focus)->0.edited(change);
    lemma_text_replaced(edit, t);
    let replaced = edit.with_field(focus, t);
    let after = form_edited(edit, change);
    assert forall|field: EditField| #[trigger] text_at(after, field) == text_at(
        replaced,
        field,
    ) by {}
}

/// What is typed goes into the text that has the focus, and no other text,
/// row or choice of the form changes. A method that is none and a value that
/// is no YAML are told of at once.
pub proof fn law_typing_changes_the_text_in_focus(s: SessionModel, change: TextEdit)
    requires
        s.edit_mode is Some,
        text_at(s.edit_mode->0, s.edit_mode->0.focus) is Some,
    ensures
        ({
            let t = session_updated(s, typing(change)).0;
            let (before, after) = (s.edit_mode->0, t.edit_mode->0);
            let focus = before.focus;
            &&& only_form_changed(s, t)
            &&& after.dirty
            &&& same_choices(before, after)
            &&& text_at(after, focus) == Some(text_at(before, focus)->0.edited(change))
            &&& forall|field: EditField|
                field != focus ==> #[trigger] text_at(after, field) == text_at(before, field)
            &&& focus == EditField::Method ==> (after.method_error is Some <==> method_named(
                after.method.value,
            ) is None)
            &&& focus matches EditField::AssertionValue(i) ==> after.assertions[i as int].value_error
                == yaml_problem(after.assertions[i as int].value.value)
        }),
{
    lemma_form_typed(s.edit_mode->0, change);
}

// ---------------------------------------------------------------------------
// Turning choices
// ---------------------------------------------------------------------------

/// The right key turns the choice in focus on, the left key back, each in a
/// circle: operators from equals to greater to less, captures from a JSON path
/// to a header to the status, a negation on and off, an API key's place from
/// header to query, and a grant from client credentials to password to
/// authorization code. Other rows stay as they are.
#[verifier::spinoff_prover]
pub proof fn law_a_choice_in_focus_is_turned(s: SessionModel, i: usize)
    requires
        s.edit_mode is Some,
    ensures
        ({
            let before = s.edit_mode->0;
            let right = session_updated(s, Message::EditCursorRight).0.edit_mode->0;
            let left = session_updated(s, Message::EditCursorLeft).0.edit_mode->0;
            &&& before.focus == EditField::AssertionOperator(i) && i < before.assertions.len() ==> {
                let (row, on, back) = (
                    before.assertions[i as int],
                    right.assertions[i as int].operator,
                    left.assertions[i as int].operator,
                );
                &&& row.operator == JsonOperator::Equals ==> on == JsonOperator::GreaterThan
                    && back == JsonOperator::LessThan
                &&& row.operator == JsonOperator::GreaterThan ==> on == JsonOperator::LessThan
                    && back == JsonOperator::Equals
                &&& row.operator == JsonOperator::LessThan ==> on == JsonOperator::Equals && back
                    == JsonOperator::GreaterThan
                &&& right.assertions.len() == before.assertions.len()
                &&& forall|j: int|
                    0 <= j < before.assertions.len() && j != i ==> #[trigger] right.assertions[j]
                        == before.assertions[j]
                &&& right.assertions[i as int].path == row.path
                &&& right.assertions[i as int].value == row.value
                &&& right.assertions[i as int].negate == row.negate
            }
            &&& before.focus == EditField::AssertionNegate(i) && i < before.assertions.len() ==> {
                &&& right.assertions[i as int].negate == !before.assertions[i as int].negate
                &&& left.assertions[i as int].negate == !before.assertions[i as int].negate
                &&& right.assertions[i as int].operator == before.assertions[i as int].operator
                &&& forall|j: int|
                    0 <= j < before.assertions.len() && j != i ==> #[trigger] right.assertions[j]
                        == before.assertions[j]
            }
            &&& before.focus == EditField::CaptureKind(i) && i < before.captures.len() ==> {
                let (kind, on, back) = (
                    before.captures[i as int].kind,
                    right.captures[i as int].kind,
                    left.captures[i as int].kind,
                );
                &&& kind == CaptureKind::JsonPath ==> on == CaptureKind::Header && back
                    == CaptureKind::Status
                &&& kind == CaptureKind::Header ==> on == CaptureKind::Status && back
                    == CaptureKind::JsonPath
                &&& kind == CaptureKind::Status ==> on == CaptureKind::JsonPath && back
                    == CaptureKind::Header
                &&& forall|j: int|
                    0 <= j < before.captures.len() && j != i ==> #[trigger] right.captures[j]
                        == before.captures[j]
            }
            &&& before.focus == EditField::Auth(AuthField::ApiKeyLocation)
                && before.auth is ApiKey ==> {
                &&& right.auth is ApiKey && left.auth is ApiKey
                &&& right.auth->location == left.auth->location
                &&& right.auth->location == ApiKeyLocation::Query <==> before.auth->location
                    == ApiKeyLocation::Header
            }
            &&& before.focus == EditField::Auth(AuthField::OAuthGrantType)
                && before.auth is OAuth ==> {
                let (grant, on, back) = (
                    before.auth->OAuth_0.grant_type,
                    right.auth->OAuth_0.grant_type,
                    left.auth->OAuth_0.grant_type,
                );
                &&& right.auth is OAuth && left.auth is OAuth
                &&& grant == OAuthGrantType::ClientCredentials ==> on == OAuthGrantType::Password
                    && back == OAuthGrantType::AuthorizationCode
                &&& grant == OAuthGrantType::Password ==> on == OAuthGrantType::AuthorizationCode
                    && back == OAuthGrantType::ClientCredentials
                &&& grant == OAuthGrantType::AuthorizationCode ==> on
                    == OAuthGrantType::ClientCredentials && back == OAuthGrantType::Password
            }
        }),
{
}

// ---------------------------------------------------------------------------
// What a save takes
// ---------------------------------------------------------------------------

/// The request that a form describes holds what the form shows, field by field
/// and row by row; a name or a block that the form leaves empty is absent, and
/// what the form does not show stays as it was.
#[verifier::spinoff_prover]
pub proof fn law_a_saved_request_holds_what_the_form_shows(
    edit: EditModel,
    request: RequestModel,
    reading: Result<Seq<char>, Seq<char>>,
)
    ensures
        ({
            let r = applied(edit, request, reading);
            &&& edit.name.value.len() == 0 ==> r.name is None
            &&& edit.name.value.len() > 0 ==> r.name == Some(edit.name.value)
            &&& r.url == edit.url.value
            &&& method_named(edit.method.value) is Some ==> r.method == method_named(
                edit.method.value,
            )->0
            &&& r.headers.len() == edit.headers.len()
            &&& forall|i: int|
                0 <= i < r.headers.len() ==> (#[trigger] r.headers[i]).0
                    == edit.headers[i].key.value && r.headers[i].1 == edit.headers[i].value.value
            &&& edit.assertions.len() > 0 ==> {
                &&& r.assertions is Some
                &&& r.assertions->0.json.len() == edit.assertions.len()
                &&& forall|i: int|
                    0 <= i < edit.assertions.len() ==> {
                        let check = #[trigger] r.assertions->0.json[i];
                        &&& check.path == edit.assertions[i].path.value
                        &&& check.operator == edit.assertions[i].operator
                        &&& check.value == edit.assertions[i].value.value
                        &&& check.negate == edit.assertions[i].negate
                    }
            }
            &&& edit.assertions.len() == 0 ==> r.assertions is None
                || r.assertions->0.json.len() == 0
            &&& request.assertions is Some && r.assertions is Some ==> r.assertions->0.others
                == request.assertions->0.others
            &&& r.capture is Some <==> edit.captures.len() > 0
            &&& edit.captures.len() > 0 ==> {
                &&& r.capture->0.len() == edit.captures.len()
                &&& forall|i: int|
                    0 <= i < edit.captures.len() ==> {
                        let (capture, row) = (#[trigger] r.capture->0[i], edit.captures[i]);
                        &&& capture.name == row.name.value
                        &&& row.kind == CaptureKind::JsonPath ==> capture.source
                            == CaptureSourceModel::JsonPath(row.value.value)
                        &&& row.kind == CaptureKind::Header ==> capture.source == (
                        CaptureSourceModel::Header { header: row.value.value })
                        &&& row.kind == CaptureKind::Status ==> capture.source
                            == CaptureSourceModel::Status
                    }
            }
            &&& r.auth is Some <==> !(edit.auth is Absent)
            &&& edit.auth matches AuthEditModel::Bearer { token } ==> r.auth->0.bearer == Some(
                token.value,
            ) && r.auth->0.basic is None && r.auth->0.api_key is None && r.auth->0.oauth is None
            &&& edit.auth matches AuthEditModel::Basic { user, pass } ==> r.auth->0.basic is Some
                && r.auth->0.basic->0.user == user.value && r.auth->0.basic->0.pass == pass.value
                && r.auth->0.bearer is None && r.auth->0.api_key is None && r.auth->0.oauth is None
            &&& edit.auth matches AuthEditModel::ApiKey { name, value, location }
                ==> r.auth->0.api_key is Some && r.auth->0.api_key->0.name == name.value
                && r.auth->0.api_key->0.value == value.value && r.auth->0.api_key->0.location
                == location && r.auth->0.bearer is None && r.auth->0.basic is None
                && r.auth->0.oauth is None
            &&& edit.auth matches AuthEditModel::OAuth(o) ==> {
                let a = r.auth->0.oauth->0;
                &&& r.auth->0.oauth is Some
                &&& r.auth->0.bearer is None && r.auth->0.basic is None
                    && r.auth->0.api_key is None
                &&& a.grant_type == o.grant_type
                &&& a.token_url == o.token_url.value
                &&& a.client_id == o.client_id.value
                &&& a.client_secret == o.client_secret.value
                &&& a.scope == (if o.scope.value.len() > 0 {
                    Some(o.scope.value)
                } else {
                    None
                })
                &&& a.username == (if o.username.value.len() > 0 {
                    Some(o.username.value)
                } else {
                    None
                })
                &&& a.password == (if o.password.value.len() > 0 {
                    Some(o.password.value)
                } else {
                    None
                })
                &&& a.authorization_url == (
                if o.authorization_code.authorization_url.value.len() > 0 {
                    Some(o.authorization_code.authorization_url.value)
                } else {
                    None
                })
                &&& a.redirect_uri == (if o.authorization_code.redirect_uri.value.len() > 0 {
                    Some(o.authorization_code.redirect_uri.value)
                } else {
                    None
                })
            }
            &&& edit.body is Unsupported ==> r.body == request.body && r.json == request.json
            &&& edit.body matches BodyEditModel::Editable { text, is_json } ==> {
                &&& trim(text.value).len() == 0 ==> r.body is None && r.json is None
                &&& trim(text.value).len() > 0 && !is_json ==> r.body == Some(text.value)
                    && r.json is None
                &&& trim(text.value).len() > 0 && is_json && reading is Ok ==> r.body is None
                    && r.json == Some(reading->Ok_0)
            }
            &&& r == (RequestModel {
                name: r.name,
                method: r.method,
                url: r.url,
                headers: r.headers,
                auth: r.auth,
                assertions: r.assertions,
                capture: r.capture,
                body: r.body,
                json: r.json,
                ..request
            })
        }),
{
}

} // verus!
