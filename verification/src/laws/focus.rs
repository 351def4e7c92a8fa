//! The way of the focus through a form.
use vstd::prelude::*;

use crate::document::OAuthGrantType;
use crate::edit::{
    AuthEditModel, AuthField, EditField, EditModel, assertion_fields, auth_fields, auth_order,
    capture_fields, header_fields, law_focus_moves_are_inverse, lemma_fields_distinct,
};
use crate::state::{Message, SessionModel};
use crate::update::session_updated;

verus! {

/// The first field behind the assertions.
pub open spec fn first_from_captures(edit: EditModel) -> EditField {
    if edit.captures.len() > 0 {
        EditField::CaptureName(0)
    } else {
        EditField::Name
    }
}

/// The first field behind the authentication.
pub open spec fn first_from_assertions(edit: EditModel) -> EditField {
    if edit.assertions.len() > 0 {
        EditField::AssertionPath(0)
    } else {
        first_from_captures(edit)
    }
}

/// The first field behind the body.
pub open spec fn first_from_auth(edit: EditModel) -> EditField {
    match edit.auth {
        AuthEditModel::Absent => first_from_assertions(edit),
        AuthEditModel::Bearer { .. } => EditField::Auth(AuthField::BearerToken),
        AuthEditModel::Basic { .. } => EditField::Auth(AuthField::BasicUser),
        AuthEditModel::ApiKey { .. } => EditField::Auth(AuthField::ApiKeyName),
        AuthEditModel::OAuth(_) => EditField::Auth(AuthField::OAuthGrantType),
    }
}

/// The first field behind the headers.
pub open spec fn first_from_body(edit: EditModel) -> EditField {
    if edit.body is Editable {
        EditField::Body
    } else {
        first_from_auth(edit)
    }
}

/// The field behind one field of the authentication.
pub open spec fn after_auth(edit: EditModel, field: AuthField) -> EditField {
    let leaves = first_from_assertions(edit);
    match field {
        AuthField::BearerToken => leaves,
        AuthField::BasicUser => EditField::Auth(AuthField::BasicPass),
        AuthField::BasicPass => leaves,
        AuthField::ApiKeyName => EditField::Auth(AuthField::ApiKeyValue),
        AuthField::ApiKeyValue => EditField::Auth(AuthField::ApiKeyLocation),
        AuthField::ApiKeyLocation => leaves,
        AuthField::OAuthGrantType => EditField::Auth(AuthField::OAuthTokenUrl),
        AuthField::OAuthTokenUrl => EditField::Auth(AuthField::OAuthClientId),
        AuthField::OAuthClientId => EditField::Auth(AuthField::OAuthClientSecret),
        AuthField::OAuthClientSecret => EditField::Auth(AuthField::OAuthScope),
        AuthField::OAuthScope => EditField::Auth(AuthField::OAuthUsername),
        AuthField::OAuthUsername => EditField::Auth(AuthField::OAuthPassword),
        AuthField::OAuthPassword => if edit.auth is OAuth && edit.auth->OAuth_0.grant_type
            == OAuthGrantType::AuthorizationCode {
            EditField::Auth(AuthField::OAuthAuthorizationUrl)
        } else {
            leaves
        },
        AuthField::OAuthAuthorizationUrl => EditField::Auth(AuthField::OAuthRedirectUri),
        AuthField::OAuthRedirectUri => leaves,
    }
}

/// The field behind another, from the top of the form to its end and from
/// there to the top again.
pub open spec fn field_behind(edit: EditModel, field: EditField) -> EditField {
    match field {
        EditField::Name => EditField::Method,
        EditField::Method => EditField::Url,
        EditField::Url => if edit.headers.len() > 0 {
            EditField::HeaderKey(0)
        } else {
            first_from_body(edit)
        },
        EditField::HeaderKey(i) => EditField::HeaderValue(i),
        EditField::HeaderValue(i) => if i + 1 < edit.headers.len() {
            EditField::HeaderKey((i + 1) as usize)
        } else {
            first_from_body(edit)
        },
        EditField::Body => first_from_auth(edit),
        EditField::Auth(f) => after_auth(edit, f),
        EditField::AssertionPath(i) => EditField::AssertionOperator(i),
        EditField::AssertionOperator(i) => EditField::AssertionValue(i),
        EditField::AssertionValue(i) => EditField::AssertionNegate(i),
        EditField::AssertionNegate(i) => if i + 1 < edit.assertions.len() {
            EditField::AssertionPath((i + 1) as usize)
        } else {
            first_from_captures(edit)
        },
        EditField::CaptureName(i) => EditField::CaptureKind(i),
        EditField::CaptureKind(i) => EditField::CaptureValue(i),
        EditField::CaptureValue(i) => if i + 1 < edit.captures.len() {
            EditField::CaptureName((i + 1) as usize)
        } else {
            EditField::Name
        },
    }
}

/// How many fields stand in front of the body, of the authentication, of the
/// assertions and of the captures.
spec fn before_body(edit: EditModel) -> int {
    3 + 2 * edit.headers.len() as int
}

spec fn before_auth(edit: EditModel) -> int {
    before_body(edit) + if edit.has_editable_body() { 1int } else { 0 }
}

spec fn before_assertions(edit: EditModel) -> int {
    before_auth(edit) + auth_order(edit.auth).len()
}

spec fn before_captures(edit: EditModel) -> int {
    before_assertions(edit) + 4 * edit.assertions.len()
}

/// Where a field stands among the others.
spec fn place(edit: EditModel, field: EditField) -> int {
    match field {
        EditField::Name => 0,
        EditField::Method => 1,
        EditField::Url => 2,
        EditField::HeaderKey(i) => 3 + 2 * i,
        EditField::HeaderValue(i) => 4 + 2 * i,
        EditField::Body => before_body(edit),
        EditField::Auth(f) => before_auth(edit) + auth_order(edit.auth).index_of(f),
        EditField::AssertionPath(i) => before_assertions(edit) + 4 * i,
        EditField::AssertionOperator(i) => before_assertions(edit) + 4 * i + 1,
        EditField::AssertionValue(i) => before_assertions(edit) + 4 * i + 2,
        EditField::AssertionNegate(i) => before_assertions(edit) + 4 * i + 3,
        EditField::CaptureName(i) => before_captures(edit) + 3 * i,
        EditField::CaptureKind(i) => before_captures(edit) + 3 * i + 1,
        EditField::CaptureValue(i) => before_captures(edit) + 3 * i + 2,
    }
}

/// The fields of a form, section by section.
proof fn lemma_sections(edit: EditModel, p: int)
    requires
        edit.countable(),
    ensures
        edit.fields().len() == before_captures(edit) + 3 * edit.captures.len(),
        0 <= p < 3 ==> edit.fields()[p] == seq![EditField::Name, EditField::Method, EditField::Url][p],
        0 <= p < 2 * edit.headers.len() ==> edit.fields()[3 + p] == header_fields(
            edit.headers.len(),
        )[p],
        edit.has_editable_body() ==> edit.fields()[before_body(edit)] == EditField::Body,
        0 <= p < auth_order(edit.auth).len() ==> edit.fields()[before_auth(edit) + p]
            == EditField::Auth(auth_order(edit.auth)[p]),
        0 <= p < 4 * edit.assertions.len() ==> edit.fields()[before_assertions(edit) + p]
            == assertion_fields(edit.assertions.len())[p],
        0 <= p < 3 * edit.captures.len() ==> edit.fields()[before_captures(edit) + p]
            == capture_fields(edit.captures.len())[p],
{
    let start = seq![EditField::Name, EditField::Method, EditField::Url];
    let headers = header_fields(edit.headers.len());
    let body = if edit.has_editable_body() {
        seq![EditField::Body]
    } else {
        seq![]
    };
    let auth = auth_fields(auth_order(edit.auth));
    let assertions = assertion_fields(edit.assertions.len());
    let captures = capture_fields(edit.captures.len());
    assert(edit.fields() == start + headers + body + auth + assertions + captures);
}

/// The focus visits the fields of a form from top to bottom, row by row, and
/// goes from the last to the first; the other way it goes back the same way.
#[verifier::spinoff_prover]
pub proof fn law_the_focus_goes_from_field_to_field(edit: EditModel)
    requires
        edit.countable(),
        edit.focus_valid(),
    ensures
        edit.focused_next() == (EditModel { focus: field_behind(edit, edit.focus), ..edit }),
        field_behind(edit, edit.focused_prev().focus) == edit.focus,
{
    lemma_next(edit);
    law_focus_moves_are_inverse(edit);
    crate::edit::law_focus_moves_stay_valid(edit);
    let back = edit.focused_prev();
    lemma_next(back);
    assert(back.focused_next() == edit);
    lemma_same_way(edit, back, back.focus);
}

proof fn lemma_same_way(a: EditModel, b: EditModel, field: EditField)
    requires
        b == (EditModel { focus: b.focus, ..a }),
    ensures
        field_behind(a, field) == field_behind(b, field),
{
}

proof fn lemma_row_fields(n: nat, i: usize)
    requires
        i < n,
    ensures
        header_fields(n)[2 * i] == EditField::HeaderKey(i),
        header_fields(n)[2 * i + 1] == EditField::HeaderValue(i),
        assertion_fields(n)[4 * i] == EditField::AssertionPath(i),
        assertion_fields(n)[4 * i + 1] == EditField::AssertionOperator(i),
        assertion_fields(n)[4 * i + 2] == EditField::AssertionValue(i),
        assertion_fields(n)[4 * i + 3] == EditField::AssertionNegate(i),
        capture_fields(n)[3 * i] == EditField::CaptureName(i),
        capture_fields(n)[3 * i + 1] == EditField::CaptureKind(i),
        capture_fields(n)[3 * i + 2] == EditField::CaptureValue(i),
{
}

proof fn lemma_placed(edit: EditModel, field: EditField)
    requires
        edit.countable(),
        (EditModel { focus: field, ..edit }).focus_valid(),
    ensures
        0 <= place(edit, field) < edit.fields().len(),
        edit.fields()[place(edit, field)] == field,
{
    match field {
        EditField::HeaderKey(i) | EditField::HeaderValue(i) => {
            lemma_row_fields(edit.headers.len(), i);
            lemma_sections(edit, 2 * i);
            lemma_sections(edit, 2 * i + 1);
        },
        EditField::Auth(f) => {
            lemma_sections(edit, auth_order(edit.auth).index_of(f));
        },
        EditField::AssertionPath(i)
        | EditField::AssertionOperator(i)
        | EditField::AssertionValue(i)
        | EditField::AssertionNegate(i) => {
            lemma_row_fields(edit.assertions.len(), i);
            lemma_sections(edit, 4 * i);
            lemma_sections(edit, 4 * i + 1);
            lemma_sections(edit, 4 * i + 2);
            lemma_sections(edit, 4 * i + 3);
        },
        EditField::CaptureName(i) | EditField::CaptureKind(i) | EditField::CaptureValue(i) => {
            lemma_row_fields(edit.captures.len(), i);
            lemma_sections(edit, 3 * i);
            lemma_sections(edit, 3 * i + 1);
            lemma_sections(edit, 3 * i + 2);
        },
        _ => {
            lemma_sections(edit, 0);
            lemma_sections(edit, 1);
            lemma_sections(edit, 2);
        },
    }
}

#[verifier::spinoff_prover]
proof fn lemma_behind(edit: EditModel, field: EditField)
    requires
        edit.countable(),
        (EditModel { focus: field, ..edit }).focus_valid(),
    ensures
        ({
            let next = field_behind(edit, field);
            let total = before_captures(edit) + 3 * edit.captures.len();
            &&& (EditModel { focus: next, ..edit }).focus_valid()
            &&& place(edit, field) + 1 < total ==> place(edit, next) == place(edit, field) + 1
            &&& place(edit, field) + 1 == total ==> next == EditField::Name
        }),
{
    let order = auth_order(edit.auth);
    crate::edit::lemma_auth_order_distinct(edit.auth);
    if order.len() > 0 {
        assert(order.contains(order[0]));
        assert(order.index_of(order[0]) == 0);
    }
    if let EditField::Auth(f) = field {
        let k = order.index_of(f);
        assert(order[k] == f);
        if k + 1 < order.len() {
            assert(order.contains(order[k + 1]));
            assert(order.index_of(order[k + 1]) == k + 1);
            assert(field_behind(edit, field) == EditField::Auth(order[k + 1]));
        }
    }
}

proof fn lemma_next(edit: EditModel)
    requires
        edit.countable(),
        edit.focus_valid(),
    ensures
        edit.focused_next() == (EditModel { focus: field_behind(edit, edit.focus), ..edit }),
{
    let s = edit.fields();
    let field = edit.focus;
    let next = field_behind(edit, field);
    lemma_fields_distinct(edit);
    lemma_sections(edit, 0);
    lemma_placed(edit, field);
    lemma_behind(edit, field);
    lemma_placed(edit, next);
    let p = place(edit, field);
    assert(s.contains(field));
    assert(s.index_of(field) == p);
    if p + 1 < s.len() {
        vstd::arithmetic::div_mod::lemma_small_mod((p + 1) as nat, s.len());
    } else {
        vstd::arithmetic::div_mod::lemma_mod_self_0(s.len() as int);
    }
}

/// The tab key moves the focus of the open form on, and shift with it back;
/// nothing else of the form changes.
pub proof fn law_tab_moves_the_focus_on(s: SessionModel)
    requires
        s.edit_mode is Some,
        s.edit_mode->0.countable(),
        s.edit_mode->0.focus_valid(),
    ensures
        ({
            let edit = s.edit_mode->0;
            let on = session_updated(s, Message::EditFocusNext).0;
            let back = session_updated(s, Message::EditFocusPrev).0;
            &&& on == (SessionModel {
                edit_mode: Some(EditModel { focus: field_behind(edit, edit.focus), ..edit }),
                ..s
            })
            &&& back == (SessionModel {
                edit_mode: Some(EditModel { focus: back.edit_mode->0.focus, ..edit }),
                ..s
            })
            &&& field_behind(edit, back.edit_mode->0.focus) == edit.focus
        }),
{
    law_the_focus_goes_from_field_to_field(s.edit_mode->0);
}

} // verus!
