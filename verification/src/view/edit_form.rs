//! The form in which a request is edited, and where its cursor stands.
use vstd::prelude::*;

use crate::document::{
    ApiKeyLocation, CaptureKind, JsonOperator, OAuthGrantType, Request, RequestModel,
};
use crate::edit::{
    AssertionRow, AssertionRowModel, AuthEdit, AuthEditModel, AuthField, BodyEdit,
    BodyEditModel, CaptureRow, CaptureRowModel, EditField, EditModel, EditState, HeaderRow,
    HeaderRowModel, OAuthLoginModel, OAuthLoginState, auth_field_at, auth_order,
};
use crate::preview::{added, added_pairs};
use crate::text::{
    copy_str, decimal, decimal_string, join, join_texts, one_text, opt_text, pairs_view,
    push_text, push_texts, split, split_text, texts,
};
use crate::text_field::TextField;
use crate::view::response::smaller;
use crate::view::status::{spinner_char, spinner_frame};
use crate::view::{error_text, format_error};

verus! {

broadcast use vstd::string::group_string_axioms;

/// The mark in front of a field: an arrow where it has the focus.
pub open spec fn mark(focused: bool) -> Seq<char> {
    if focused {
        "▶"@
    } else {
        " "@
    }
}

fn marker(focused: bool) -> (r: &'static str)
    ensures
        r@ == mark(focused),
{
    if focused {
        "▶"
    } else {
        " "
    }
}

// ---------------------------------------------------------------------------
// Header rows
// ---------------------------------------------------------------------------

/// What stands in front of a header's name.
pub open spec fn header_key_lead(index: nat) -> Seq<char> {
    " ["@ + decimal(index) + "] Key: "@
}

/// What stands in front of a header's value.
pub open spec fn header_value_lead(index: nat, key: Seq<char>) -> Seq<char> {
    header_key_lead(index) + key + "    Value: "@
}

/// The line of a header, with a mark for each of its two fields.
pub open spec fn header_line(focus: EditField, index: usize, row: HeaderRowModel) -> Seq<char> {
    mark(focus == EditField::HeaderKey(index)) + "["@ + decimal(index as nat) + "] Key: "@
        + row.key.value + "   "@ + mark(focus == EditField::HeaderValue(index)) + "Value: "@
        + row.value.value
}

/// What stands in front of a header's name.
pub fn header_key_prefix(index: usize) -> (r: String)
    ensures
        r@ == header_key_lead(index as nat),
{
    let mut text = " [".to_owned();
    text.append(decimal_string(index as u64).as_str());
    text.append("] Key: ");
    text
}

/// What stands in front of a header's value.
pub fn header_value_prefix(index: usize, key_value: &str) -> (r: String)
    ensures
        r@ == header_value_lead(index as nat, key_value@),
{
    let mut text = header_key_prefix(index);
    text.append(key_value);
    text.append("    Value: ");
    text
}

/// The line of a header, with a mark for each of its two fields.
pub fn header_row_line(focus: EditField, index: usize, row: &HeaderRow) -> (r: String)
    ensures
        r@ == header_line(focus, index, row@),
{
    let mut line = copy_str(marker(focus == EditField::HeaderKey(index)));
    line.append("[");
    line.append(decimal_string(index as u64).as_str());
    line.append("] Key: ");
    line.append(row.key.value());
    line.append("   ");
    line.append(marker(focus == EditField::HeaderValue(index)));
    line.append("Value: ");
    line.append(row.value.value());
    line
}

// ---------------------------------------------------------------------------
// Authentication
// ---------------------------------------------------------------------------

/// The label of a field of the `auth:` block.
pub open spec fn auth_label(field: AuthField) -> Seq<char> {
    match field {
        AuthField::BearerToken => "Bearer token: "@,
        AuthField::BasicUser => "User: "@,
        AuthField::BasicPass => "Password: "@,
        AuthField::ApiKeyName => "Name: "@,
        AuthField::ApiKeyValue => "Value: "@,
        AuthField::ApiKeyLocation => "Location: "@,
        AuthField::OAuthGrantType => "Grant type: "@,
        AuthField::OAuthTokenUrl => "Token URL: "@,
        AuthField::OAuthClientId => "Client ID: "@,
        AuthField::OAuthClientSecret => "Client secret: "@,
        AuthField::OAuthScope => "Scope: "@,
        AuthField::OAuthUsername => "Username: "@,
        AuthField::OAuthPassword => "Password: "@,
        AuthField::OAuthAuthorizationUrl => "Authorization URL: "@,
        AuthField::OAuthRedirectUri => "Redirect URI: "@,
    }
}

/// The label of a field of the `auth:` block.
pub fn auth_field_label(field: AuthField) -> (r: &'static str)
    ensures
        r@ == auth_label(field),
{
    match field {
        AuthField::BearerToken => "Bearer token: ",
        AuthField::BasicUser => "User: ",
        AuthField::BasicPass => "Password: ",
        AuthField::ApiKeyName => "Name: ",
        AuthField::ApiKeyValue => "Value: ",
        AuthField::ApiKeyLocation => "Location: ",
        AuthField::OAuthGrantType => "Grant type: ",
        AuthField::OAuthTokenUrl => "Token URL: ",
        AuthField::OAuthClientId => "Client ID: ",
        AuthField::OAuthClientSecret => "Client secret: ",
        AuthField::OAuthScope => "Scope: ",
        AuthField::OAuthUsername => "Username: ",
        AuthField::OAuthPassword => "Password: ",
        AuthField::OAuthAuthorizationUrl => "Authorization URL: ",
        AuthField::OAuthRedirectUri => "Redirect URI: ",
    }
}

/// Where an API key is sent, in words.
pub open spec fn location_text(location: ApiKeyLocation) -> Seq<char> {
    match location {
        ApiKeyLocation::Header => "header"@,
        ApiKeyLocation::Query => "query"@,
    }
}

/// Where an API key is sent, in words.
pub fn api_key_location_str(location: ApiKeyLocation) -> (r: &'static str)
    ensures
        r@ == location_text(location),
{
    match location {
        ApiKeyLocation::Header => "header",
        ApiKeyLocation::Query => "query",
    }
}

/// How a token is asked for, in words.
pub open spec fn grant_text(grant: OAuthGrantType) -> Seq<char> {
    match grant {
        OAuthGrantType::ClientCredentials => "client_credentials"@,
        OAuthGrantType::Password => "password"@,
        OAuthGrantType::AuthorizationCode => "authorization_code"@,
    }
}

/// How a token is asked for, in words.
pub fn oauth_grant_type_str(grant_type: OAuthGrantType) -> (r: &'static str)
    ensures
        r@ == grant_text(grant_type),
{
    match grant_type {
        OAuthGrantType::ClientCredentials => "client_credentials",
        OAuthGrantType::Password => "password",
        OAuthGrantType::AuthorizationCode => "authorization_code",
    }
}

/// What a field of the `auth:` block shows: its text, or the option that it
/// stands on.
pub open spec fn auth_display(auth: AuthEditModel, field: AuthField) -> Seq<char> {
    match auth_field_at(auth, field) {
        Some(text) => text.value,
        None => match auth {
            AuthEditModel::ApiKey { location, .. } => location_text(location)
                + " (←/→ to change)"@,
            AuthEditModel::OAuth(oauth) => grant_text(oauth.grant_type) + " (←/→ to change)"@,
            _ => ""@,
        },
    }
}

/// The text field behind one field of an `auth:` block, where there is one.
fn auth_text_field(auth: &AuthEdit, field: AuthField) -> (r: Option<&TextField>)
    ensures
        match auth_field_at(auth@, field) {
            Some(text) => r is Some && r->0@ == text,
            None => r is None,
        },
{
    match (auth, field) {
        (AuthEdit::Bearer { token }, AuthField::BearerToken) => Some(token),
        (AuthEdit::Basic { user, .. }, AuthField::BasicUser) => Some(user),
        (AuthEdit::Basic { pass, .. }, AuthField::BasicPass) => Some(pass),
        (AuthEdit::ApiKey { name, .. }, AuthField::ApiKeyName) => Some(name),
        (AuthEdit::ApiKey { value, .. }, AuthField::ApiKeyValue) => Some(value),
        (AuthEdit::OAuth(o), AuthField::OAuthTokenUrl) => Some(&o.token_url),
        (AuthEdit::OAuth(o), AuthField::OAuthClientId) => Some(&o.client_id),
        (AuthEdit::OAuth(o), AuthField::OAuthClientSecret) => Some(&o.client_secret),
        (AuthEdit::OAuth(o), AuthField::OAuthScope) => Some(&o.scope),
        (AuthEdit::OAuth(o), AuthField::OAuthUsername) => Some(&o.username),
        (AuthEdit::OAuth(o), AuthField::OAuthPassword) => Some(&o.password),
        (AuthEdit::OAuth(o), AuthField::OAuthAuthorizationUrl) => Some(
            &o.authorization_code.authorization_url,
        ),
        (AuthEdit::OAuth(o), AuthField::OAuthRedirectUri) => Some(
            &o.authorization_code.redirect_uri,
        ),
        _ => None,
    }
}

/// What a field of the `auth:` block shows: its text, or the option that it
/// stands on.
pub fn auth_field_display(auth: &AuthEdit, field: AuthField) -> (r: String)
    requires
        auth_order(auth@).contains(field),
    ensures
        r@ == auth_display(auth@, field),
{
    match auth_text_field(auth, field) {
        Some(text) => copy_str(text.value()),
        None => match auth {
            AuthEdit::ApiKey { location, .. } => {
                let mut text = copy_str(api_key_location_str(*location));
                text.append(" (←/→ to change)");
                text
            },
            AuthEdit::OAuth(oauth) => {
                let mut text = copy_str(oauth_grant_type_str(oauth.grant_type));
                text.append(" (←/→ to change)");
                text
            },
            _ => "".to_owned(),
        },
    }
}

/// How many characters of a field of the `auth:` block stand before its
/// cursor; none where it is no text.
pub open spec fn auth_cursor(auth: AuthEditModel, field: AuthField) -> int {
    match auth_field_at(auth, field) {
        Some(text) => text.cursor,
        None => 0,
    }
}

/// How many characters of a field of the `auth:` block stand before its
/// cursor; none where it is no text.
pub fn auth_field_cursor_chars(auth: &AuthEdit, field: AuthField) -> (r: usize)
    ensures
        r == auth_cursor(auth@, field),
{
    match auth_text_field(auth, field) {
        Some(text) => text.cursor_chars(),
        None => 0,
    }
}

/// The line about a login in the browser.
pub open spec fn login_line(login: OAuthLoginModel, tick: nat) -> Seq<char> {
    match login {
        OAuthLoginModel::Idle => "  Login: not started (Ctrl+L to log in)"@,
        OAuthLoginModel::WaitingForBrowser => "  Login: "@.push(spinner_frame(tick))
            + " waiting for the browser login to complete..."@,
        OAuthLoginModel::Succeeded => "  Login: ✓ succeeded — the acquired token is ready for this session"@,
        OAuthLoginModel::Failed(reason) => "  Login: ✗ failed — "@ + reason,
    }
}

/// The line about a login in the browser.
pub fn oauth_login_status_line(login: &OAuthLoginState, spinner_tick: usize) -> (r: String)
    ensures
        r@ == login_line(login@, spinner_tick as nat),
{
    match login {
        OAuthLoginState::Idle => "  Login: not started (Ctrl+L to log in)".to_owned(),
        OAuthLoginState::WaitingForBrowser => {
            let mut line = "  Login: ".to_owned();
            line.push(spinner_char(spinner_tick));
            line.append(" waiting for the browser login to complete...");
            line
        },
        OAuthLoginState::Succeeded => "  Login: ✓ succeeded — the acquired token is ready for this session".to_owned(),
        OAuthLoginState::Failed(reason) => {
            let mut line = "  Login: ✗ failed — ".to_owned();
            line.append(reason.as_str());
            line
        },
    }
}

// ---------------------------------------------------------------------------
// Assertion rows
// ---------------------------------------------------------------------------

/// What is said behind a value that is no YAML value.
pub open spec fn value_error_text(error: Option<Seq<char>>) -> Seq<char> {
    match error {
        Some(message) => "  ⚠ "@ + message,
        None => ""@,
    }
}

fn value_error_string(error: &Option<String>) -> (r: String)
    ensures
        r@ == value_error_text(opt_text(*error)),
{
    match error {
        Some(message) => {
            let mut text = "  ⚠ ".to_owned();
            text.append(message.as_str());
            text
        },
        None => "".to_owned(),
    }
}

/// What stands in front of an assertion's path.
pub open spec fn assertion_path_lead(index: nat) -> Seq<char> {
    " ["@ + decimal(index) + "] Path: "@
}

/// What stands in front of an assertion's operator.
pub open spec fn assertion_operator_lead(index: nat, path: Seq<char>) -> Seq<char> {
    assertion_path_lead(index) + path + "    Op: "@
}

/// What stands in front of an assertion's value.
pub open spec fn assertion_value_lead(
    index: nat,
    path: Seq<char>,
    operator: JsonOperator,
) -> Seq<char> {
    assertion_operator_lead(index, path) + operator.text() + " (←/→)    Value: "@
}

/// What stands in front of an assertion's negation.
pub open spec fn assertion_negate_lead(
    index: nat,
    path: Seq<char>,
    operator: JsonOperator,
    value: Seq<char>,
    error: Option<Seq<char>>,
) -> Seq<char> {
    assertion_value_lead(index, path, operator) + value + value_error_text(error)
        + "    Negate: "@
}

/// Whether an assertion is negated, in words.
pub open spec fn negate_text(negate: bool) -> Seq<char> {
    if negate {
        "yes"@
    } else {
        "no"@
    }
}

/// The line of an assertion, with a mark for each of its four fields.
pub open spec fn assertion_line(
    focus: EditField,
    index: usize,
    row: AssertionRowModel,
) -> Seq<char> {
    mark(focus == EditField::AssertionPath(index)) + "["@ + decimal(index as nat) + "] Path: "@
        + row.path.value + "   "@ + mark(focus == EditField::AssertionOperator(index)) + "Op: "@
        + row.operator.text() + " (←/→)   "@ + mark(focus == EditField::AssertionValue(index))
        + "Value: "@ + row.value.value + value_error_text(row.value_error) + "   "@ + mark(
        focus == EditField::AssertionNegate(index),
    ) + "Negate: "@ + negate_text(row.negate) + " (←/→)"@
}

/// What stands in front of an assertion's path.
pub fn assertion_path_prefix(index: usize) -> (r: String)
    ensures
        r@ == assertion_path_lead(index as nat),
{
    let mut text = " [".to_owned();
    text.append(decimal_string(index as u64).as_str());
    text.append("] Path: ");
    text
}

/// What stands in front of an assertion's operator.
pub fn assertion_operator_prefix(index: usize, path_value: &str) -> (r: String)
    ensures
        r@ == assertion_operator_lead(index as nat, path_value@),
{
    let mut text = assertion_path_prefix(index);
    text.append(path_value);
    text.append("    Op: ");
    text
}

/// What stands in front of an assertion's value.
pub fn assertion_value_prefix(
    index: usize,
    path_value: &str,
    operator: JsonOperator,
) -> (r: String)
    ensures
        r@ == assertion_value_lead(index as nat, path_value@, operator),
{
    let mut text = assertion_operator_prefix(index, path_value);
    text.append(operator.label());
    text.append(" (←/→)    Value: ");
    text
}

/// What stands in front of an assertion's negation.
pub fn assertion_negate_prefix(
    index: usize,
    path_value: &str,
    operator: JsonOperator,
    value_value: &str,
    value_error: &Option<String>,
) -> (r: String)
    ensures
        r@ == assertion_negate_lead(
            index as nat,
            path_value@,
            operator,
            value_value@,
            opt_text(*value_error),
        ),
{
    let mut text = assertion_value_prefix(index, path_value, operator);
    text.append(value_value);
    text.append(value_error_string(value_error).as_str());
    text.append("    Negate: ");
    text
}

/// The line of an assertion, with a mark for each of its four fields.
pub fn assertion_row_line(focus: EditField, index: usize, row: &AssertionRow) -> (r: String)
    ensures
        r@ == assertion_line(focus, index, row@),
{
    let mut line = copy_str(marker(focus == EditField::AssertionPath(index)));
    line.append("[");
    line.append(decimal_string(index as u64).as_str());
    line.append("] Path: ");
    line.append(row.path.value());
    line.append("   ");
    line.append(marker(focus == EditField::AssertionOperator(index)));
    line.append("Op: ");
    line.append(row.operator.label());
    line.append(" (←/→)   ");
    line.append(marker(focus == EditField::AssertionValue(index)));
    line.append("Value: ");
    line.append(row.value.value());
    line.append(value_error_string(&row.value_error).as_str());
    line.append("   ");
    line.append(marker(focus == EditField::AssertionNegate(index)));
    line.append("Negate: ");
    line.append(
        if row.negate {
            "yes"
        } else {
            "no"
        },
    );
    line.append(" (←/→)");
    line
}

// ---------------------------------------------------------------------------
// Capture rows
// ---------------------------------------------------------------------------

/// What stands in front of a capture's name.
pub open spec fn capture_name_lead(index: nat) -> Seq<char> {
    " ["@ + decimal(index) + "] Name: "@
}

/// What stands in front of where a capture reads from.
pub open spec fn capture_kind_lead(index: nat, name: Seq<char>) -> Seq<char> {
    capture_name_lead(index) + name + "    Source: "@
}

/// What stands in front of a capture's value.
pub open spec fn capture_value_lead(index: nat, name: Seq<char>, kind: CaptureKind) -> Seq<char> {
    capture_kind_lead(index, name) + kind.text() + " (←/→)    Value: "@
}

/// The line of a capture, with a mark for each of its three fields.
pub open spec fn capture_line(focus: EditField, index: usize, row: CaptureRowModel) -> Seq<char> {
    mark(focus == EditField::CaptureName(index)) + "["@ + decimal(index as nat) + "] Name: "@
        + row.name.value + "   "@ + mark(focus == EditField::CaptureKind(index)) + "Source: "@
        + row.kind.text() + " (←/→)   "@ + mark(focus == EditField::CaptureValue(index))
        + "Value: "@ + row.value.value
}

/// What stands in front of a capture's name.
pub fn capture_name_prefix(index: usize) -> (r: String)
    ensures
        r@ == capture_name_lead(index as nat),
{
    let mut text = " [".to_owned();
    text.append(decimal_string(index as u64).as_str());
    text.append("] Name: ");
    text
}

/// What stands in front of where a capture reads from.
pub fn capture_kind_prefix(index: usize, name_value: &str) -> (r: String)
    ensures
        r@ == capture_kind_lead(index as nat, name_value@),
{
    let mut text = capture_name_prefix(index);
    text.append(name_value);
    text.append("    Source: ");
    text
}

/// What stands in front of a capture's value.
pub fn capture_value_prefix(index: usize, name_value: &str, kind: CaptureKind) -> (r: String)
    ensures
        r@ == capture_value_lead(index as nat, name_value@, kind),
{
    let mut text = capture_kind_prefix(index, name_value);
    text.append(kind.label());
    text.append(" (←/→)    Value: ");
    text
}

/// The line of a capture, with a mark for each of its three fields.
pub fn capture_row_line(focus: EditField, index: usize, row: &CaptureRow) -> (r: String)
    ensures
        r@ == capture_line(focus, index, row@),
{
    let mut line = copy_str(marker(focus == EditField::CaptureName(index)));
    line.append("[");
    line.append(decimal_string(index as u64).as_str());
    line.append("] Name: ");
    line.append(row.name.value());
    line.append("   ");
    line.append(marker(focus == EditField::CaptureKind(index)));
    line.append("Source: ");
    line.append(row.kind.label());
    line.append(" (←/→)   ");
    line.append(marker(focus == EditField::CaptureValue(index)));
    line.append("Value: ");
    line.append(row.value.value());
    line
}

// ---------------------------------------------------------------------------
// What authentication comes to
// ---------------------------------------------------------------------------

/// What resolving gave, by value: the request with its authentication filled
/// in, or why that failed.
pub open spec fn resolution_of(
    resolution: Result<crate::preview::AuthPreview, String>,
) -> Result<RequestModel, Seq<char>> {
    match resolution {
        Ok(preview) => Ok(preview.resolved@),
        Err(error) => Err(error@),
    }
}

/// One part for each header and for each query parameter that was added.
pub open spec fn added_parts(
    headers: Seq<(Seq<char>, Seq<char>)>,
    query: Seq<(Seq<char>, Seq<char>)>,
) -> Seq<Seq<char>> {
    Seq::new(headers.len(), |i: int| "header "@ + headers[i].0 + ": "@ + headers[i].1) + Seq::new(
        query.len(),
        |i: int| "query "@ + query[i].0 + "="@ + query[i].1,
    )
}

/// What the form's authentication comes to: the headers and query parameters
/// that resolving added to the request the form describes, or why it failed.
pub open spec fn resolved_auth_text(
    auth: AuthEditModel,
    candidate: RequestModel,
    resolution: Result<RequestModel, Seq<char>>,
) -> Seq<char> {
    if auth is OAuth {
        "(OAuth token acquired at request time — not shown in this preview)"@
    } else {
        match resolution {
            Ok(resolved) => {
                let parts = added_parts(
                    added(candidate.headers, resolved.headers, true),
                    added(candidate.query, resolved.query, false),
                );
                if parts.len() == 0 {
                    "(no auth resolved)"@
                } else {
                    join(parts, ", "@)
                }
            },
            Err(error) => "could not resolve — "@ + error,
        }
    }
}

fn added_part_texts(
    headers: &Vec<(String, String)>,
    query: &Vec<(String, String)>,
) -> (r: Vec<String>)
    ensures
        texts(r@) == added_parts(pairs_view(headers@), pairs_view(query@)),
{
    let ghost h = pairs_view(headers@);
    let ghost q = pairs_view(query@);
    let ghost parts = added_parts(h, q);
    let mut r: Vec<String> = Vec::new();
    let mut i: usize = 0;
    while i < headers.len()
        invariant
            i <= headers@.len(),
            h == pairs_view(headers@),
            parts == added_parts(h, q),
            texts(r@) =~= parts.take(i as int),
        decreases headers@.len() - i,
    {
        let mut part = "header ".to_owned();
        part.append(headers[i].0.as_str());
        part.append(": ");
        part.append(headers[i].1.as_str());
        assert(part@ == parts[i as int]);
        push_text(&mut r, part);
        i = i + 1;
    }
    let mut j: usize = 0;
    while j < query.len()
        invariant
            j <= query@.len(),
            h == pairs_view(headers@),
            q == pairs_view(query@),
            parts == added_parts(h, q),
            texts(r@) =~= parts.take(headers@.len() + j),
        decreases query@.len() - j,
    {
        let mut part = "query ".to_owned();
        part.append(query[j].0.as_str());
        part.append("=");
        part.append(query[j].1.as_str());
        assert(part@ == parts[headers@.len() + j]);
        push_text(&mut r, part);
        j = j + 1;
    }
    assert(parts.take(parts.len() as int) =~= parts);
    r
}

/// What the form's authentication comes to. `candidate` is the request that
/// the form describes, `resolution` what resolving it gave.
pub fn describe_resolved_auth(
    candidate: &Request,
    edit: &EditState,
    resolution: &Result<crate::preview::AuthPreview, String>,
) -> (r: String)
    ensures
        r@ == resolved_auth_text(edit@.auth, candidate@, resolution_of(*resolution)),
{
    if matches!(edit.auth, AuthEdit::OAuth(_)) {
        return "(OAuth token acquired at request time — not shown in this preview)".to_owned();
    }
    match resolution {
        Ok(preview) => {
            let headers = added_pairs(&candidate.headers, &preview.resolved.headers, true);
            let query = added_pairs(&candidate.query, &preview.resolved.query, false);
            let parts = added_part_texts(&headers, &query);
            assert(texts(parts@).len() == parts@.len());
            if parts.len() == 0 {
                "(no auth resolved)".to_owned()
            } else {
                join_texts(&parts, ", ")
            }
        },
        Err(error) => {
            let mut text = "could not resolve — ".to_owned();
            text.append(error.as_str());
            text
        },
    }
}

// ---------------------------------------------------------------------------
// The pane
// ---------------------------------------------------------------------------

/// The form's lines, and where its cursor stands among them.
#[derive(Debug, PartialEq, Eq)]
pub struct EditPane {
    pub lines: Vec<String>,
    pub row: usize,
    pub column: usize,
}

#[verifier::ext_equal]
pub struct EditPaneModel {
    pub lines: Seq<Seq<char>>,
    pub row: int,
    pub column: int,
}

impl View for EditPane {
    type V = EditPaneModel;

    open spec fn view(&self) -> EditPaneModel {
        EditPaneModel {
            lines: texts(self.lines@),
            row: self.row as int,
            column: self.column as int,
        }
    }
}

/// The lines above the headers.
pub open spec fn head_lines(edit: EditModel) -> Seq<Seq<char>> {
    seq![
        mark(edit.focus == EditField::Name) + " Name:   "@ + edit.name.value,
        ""@,
        mark(edit.focus == EditField::Method) + " Method: "@ + edit.method.value,
        match edit.method_error {
            Some(error) => "  ⚠ "@ + error,
            None => ""@,
        },
        ""@,
        mark(edit.focus == EditField::Url) + " URL:    "@ + edit.url.value,
        ""@,
        "Headers:"@,
    ]
}

/// The lines of the headers.
pub open spec fn header_lines(edit: EditModel) -> Seq<Seq<char>> {
    if edit.headers.len() == 0 {
        seq!["  (none)"@]
    } else {
        Seq::new(
            edit.headers.len(),
            |i: int| header_line(edit.focus, i as usize, edit.headers[i]),
        )
    }
}

/// The lines above the body's own.
pub open spec fn body_heading(edit: EditModel) -> Seq<Seq<char>> {
    match edit.body {
        BodyEditModel::Unsupported { description } => seq!["Body: "@ + description],
        BodyEditModel::Editable { is_json, .. } => if is_json {
            seq![
                mark(edit.focus == EditField::Body) + " Body ("@ + "json"@ + "):"@,
                "  ⚠ "@ + match edit.body_error {
                    Some(error) => error,
                    None => ""@,
                },
            ]
        } else {
            seq![mark(edit.focus == EditField::Body) + " Body ("@ + "raw"@ + "):"@]
        },
    }
}

/// The lines of the body's text.
pub open spec fn body_lines(edit: EditModel) -> Seq<Seq<char>> {
    match edit.body {
        BodyEditModel::Unsupported { .. } => seq![],
        BodyEditModel::Editable { text, .. } => split(text.value, '\n'),
    }
}

/// The line of one field of the `auth:` block.
pub open spec fn auth_line(edit: EditModel, field: AuthField) -> Seq<char> {
    mark(edit.focus == EditField::Auth(field)) + auth_label(field) + auth_display(
        edit.auth,
        field,
    )
}

/// The lines of the `auth:` block.
pub open spec fn auth_lines(edit: EditModel) -> Seq<Seq<char>> {
    let order = auth_order(edit.auth);
    if order.len() == 0 {
        seq!["  (no auth configured on this request)"@]
    } else {
        Seq::new(order.len(), |i: int| auth_line(edit, order[i]))
    }
}

/// The line about a login, where one is needed.
pub open spec fn login_lines(edit: EditModel, tick: nat) -> Seq<Seq<char>> {
    match edit.auth {
        AuthEditModel::OAuth(oauth) => if oauth.grant_type == OAuthGrantType::AuthorizationCode {
            seq![login_line(oauth.authorization_code.login, tick)]
        } else {
            seq![]
        },
        _ => seq![],
    }
}

/// The lines of the assertions.
pub open spec fn assertion_lines(edit: EditModel) -> Seq<Seq<char>> {
    if edit.assertions.len() == 0 {
        seq!["  (none)"@]
    } else {
        Seq::new(
            edit.assertions.len(),
            |i: int| assertion_line(edit.focus, i as usize, edit.assertions[i]),
        )
    }
}

/// The lines of the captures.
pub open spec fn capture_lines(edit: EditModel) -> Seq<Seq<char>> {
    if edit.captures.len() == 0 {
        seq!["  (none)"@]
    } else {
        Seq::new(
            edit.captures.len(),
            |i: int| capture_line(edit.focus, i as usize, edit.captures[i]),
        )
    }
}

/// The lines about a save that failed.
pub open spec fn save_error_lines(edit: EditModel) -> Seq<Seq<char>> {
    match edit.save_error {
        Some(error) => seq![""@, error_text("Save failed"@, error)],
        None => seq![],
    }
}

/// The form's last line: its keys.
pub open spec fn form_keys() -> Seq<char> {
    "Tab/Shift+Tab move focus  Ctrl+N add header  Ctrl+D delete header  Ctrl+A add assertion  Ctrl+X delete assertion  Ctrl+P add capture  Ctrl+K delete capture  Ctrl+S save  Esc cancel  (Body: Enter for newline, ↑/↓ move lines; Auth/Assertions/Captures: ←/→ toggle option)"@
}

/// The form's lines up to the body's own text.
pub open spec fn lines_to_body(edit: EditModel) -> Seq<Seq<char>> {
    (head_lines(edit) + header_lines(edit)).push(""@) + body_heading(edit)
}

/// The form's lines up to the `auth:` fields.
pub open spec fn lines_to_auth(edit: EditModel) -> Seq<Seq<char>> {
    (lines_to_body(edit) + body_lines(edit)).push(""@).push("Auth:"@)
}

/// The form's lines up to the assertions.
pub open spec fn lines_to_assertions(
    edit: EditModel,
    resolved_auth: Seq<char>,
    tick: nat,
) -> Seq<Seq<char>> {
    (lines_to_auth(edit) + auth_lines(edit) + login_lines(edit, tick)).push(""@).push(
        "Resolved auth → "@ + resolved_auth,
    ).push(""@).push("Assertions (json path):"@)
}

/// The form's lines up to the captures.
pub open spec fn lines_to_captures(
    edit: EditModel,
    resolved_auth: Seq<char>,
    tick: nat,
) -> Seq<Seq<char>> {
    (lines_to_assertions(edit, resolved_auth, tick) + assertion_lines(edit)).push(""@).push(
        "Captures:"@,
    )
}

/// The form's lines.
pub open spec fn pane_lines(
    edit: EditModel,
    resolved_auth: Seq<char>,
    tick: nat,
) -> Seq<Seq<char>> {
    (lines_to_captures(edit, resolved_auth, tick) + capture_lines(edit) + save_error_lines(
        edit,
    )).push(""@).push(form_keys())
}

/// What stands on its line in front of the field that has the focus.
pub open spec fn focus_lead(edit: EditModel) -> Seq<char> {
    match edit.focus {
        EditField::Name => "  Name:   "@,
        EditField::Method => "  Method: "@,
        EditField::Url => "  URL:    "@,
        EditField::HeaderKey(i) => header_key_lead(i as nat),
        EditField::HeaderValue(i) => header_value_lead(
            i as nat,
            edit.headers[i as int].key.value,
        ),
        EditField::Body => Seq::empty(),
        EditField::Auth(field) => " "@ + auth_label(field),
        EditField::AssertionPath(i) => assertion_path_lead(i as nat),
        EditField::AssertionOperator(i) => assertion_operator_lead(
            i as nat,
            edit.assertions[i as int].path.value,
        ),
        EditField::AssertionValue(i) => assertion_value_lead(
            i as nat,
            edit.assertions[i as int].path.value,
            edit.assertions[i as int].operator,
        ),
        EditField::AssertionNegate(i) => assertion_negate_lead(
            i as nat,
            edit.assertions[i as int].path.value,
            edit.assertions[i as int].operator,
            edit.assertions[i as int].value.value,
            edit.assertions[i as int].value_error,
        ),
        EditField::CaptureName(i) => capture_name_lead(i as nat),
        EditField::CaptureKind(i) => capture_kind_lead(
            i as nat,
            edit.captures[i as int].name.value,
        ),
        EditField::CaptureValue(i) => capture_value_lead(
            i as nat,
            edit.captures[i as int].name.value,
            edit.captures[i as int].kind,
        ),
    }
}

/// How many characters of the line of the field that has the focus stand
/// between the field's beginning and the cursor.
pub open spec fn focus_offset(edit: EditModel) -> int {
    match edit.field_at(edit.focus) {
        Some(text) => if edit.focus == EditField::Body {
            text.column()
        } else {
            text.cursor
        },
        None => 0,
    }
}

/// The line of the field that has the focus; of the body, the line that its
/// cursor is on.
pub open spec fn focus_row(edit: EditModel, resolved_auth: Seq<char>, tick: nat) -> int {
    match edit.focus {
        EditField::Name => 0,
        EditField::Method => 2,
        EditField::Url => 5,
        EditField::HeaderKey(i) | EditField::HeaderValue(i) => head_lines(edit).len() + i,
        EditField::Body => match edit.body {
            BodyEditModel::Editable { text, .. } => (lines_to_body(edit).len() + text.row()) as int,
            BodyEditModel::Unsupported { .. } => 0,
        },
        EditField::Auth(field) => lines_to_auth(edit).len() + auth_order(edit.auth).index_of(
            field,
        ),
        EditField::AssertionPath(i)
        | EditField::AssertionOperator(i)
        | EditField::AssertionValue(i)
        | EditField::AssertionNegate(i) => lines_to_assertions(edit, resolved_auth, tick).len()
            + i,
        EditField::CaptureName(i)
        | EditField::CaptureKind(i)
        | EditField::CaptureValue(i) => lines_to_captures(edit, resolved_auth, tick).len() + i,
    }
}

/// The form's lines, and where its cursor stands among them: on the focused
/// field's line, behind what stands in front of the field and behind the
/// characters before its cursor, as far as columns can be counted.
pub open spec fn pane_for(
    edit: EditModel,
    resolved_auth: Seq<char>,
    tick: nat,
) -> EditPaneModel {
    EditPaneModel {
        lines: pane_lines(edit, resolved_auth, tick),
        row: focus_row(edit, resolved_auth, tick),
        column: smaller(focus_lead(edit).len() + focus_offset(edit), usize::MAX as int),
    }
}

fn head_texts(edit: &EditState) -> (r: Vec<String>)
    ensures
        texts(r@) == head_lines(edit@),
{
    let mut name = copy_str(marker(edit.focus == EditField::Name));
    name.append(" Name:   ");
    name.append(edit.name.value());
    let mut method = copy_str(marker(edit.focus == EditField::Method));
    method.append(" Method: ");
    method.append(edit.method.value());
    let problem = match &edit.method_error {
        Some(error) => {
            let mut line = "  ⚠ ".to_owned();
            line.append(error.as_str());
            line
        },
        None => "".to_owned(),
    };
    let mut url = copy_str(marker(edit.focus == EditField::Url));
    url.append(" URL:    ");
    url.append(edit.url.value());
    let mut r = one_text(name);
    push_text(&mut r, "".to_owned());
    push_text(&mut r, method);
    push_text(&mut r, problem);
    push_text(&mut r, "".to_owned());
    push_text(&mut r, url);
    push_text(&mut r, "".to_owned());
    push_text(&mut r, "Headers:".to_owned());
    assert(texts(r@) =~= head_lines(edit@));
    r
}

fn header_texts(edit: &EditState) -> (r: Vec<String>)
    ensures
        texts(r@) == header_lines(edit@),
{
    if edit.headers.len() == 0 {
        return one_text("  (none)".to_owned());
    }
    let mut r: Vec<String> = Vec::new();
    let mut i: usize = 0;
    while i < edit.headers.len()
        invariant
            0 < edit.headers@.len(),
            i <= edit.headers@.len(),
            texts(r@) =~= header_lines(edit@).take(i as int),
        decreases edit.headers@.len() - i,
    {
        push_text(&mut r, header_row_line(edit.focus, i, &edit.headers[i]));
        i = i + 1;
    }
    r
}

fn body_heading_texts(edit: &EditState) -> (r: Vec<String>)
    ensures
        texts(r@) == body_heading(edit@),
{
    match &edit.body {
        BodyEdit::Unsupported { description } => {
            let mut line = "Body: ".to_owned();
            line.append(description.as_str());
            one_text(line)
        },
        BodyEdit::Editable { is_json, .. } => {
            let mut line = copy_str(marker(edit.focus == EditField::Body));
            line.append(" Body (");
            line.append(
                if *is_json {
                    "json"
                } else {
                    "raw"
                },
            );
            line.append("):");
            let mut r = one_text(line);
            if *is_json {
                let mut problem = "  ⚠ ".to_owned();
                match &edit.body_error {
                    Some(error) => problem.append(error.as_str()),
                    None => problem.append(""),
                }
                push_text(&mut r, problem);
            }
            assert(texts(r@) =~= body_heading(edit@));
            r
        },
    }
}

fn body_texts(edit: &EditState) -> (r: Vec<String>)
    ensures
        texts(r@) == body_lines(edit@),
{
    match &edit.body {
        BodyEdit::Unsupported { .. } => {
            let r: Vec<String> = Vec::new();
            assert(texts(r@) =~= seq![]);
            r
        },
        BodyEdit::Editable { text, .. } => split_text(text.value(), '\n'),
    }
}

fn auth_texts(edit: &EditState) -> (r: Vec<String>)
    ensures
        texts(r@) == auth_lines(edit@),
{
    let order = edit.auth_field_order();
    if order.len() == 0 {
        return one_text("  (no auth configured on this request)".to_owned());
    }
    let mut r: Vec<String> = Vec::new();
    let mut i: usize = 0;
    while i < order.len()
        invariant
            0 < order@.len(),
            i <= order@.len(),
            order@ == auth_order(edit@.auth),
            texts(r@) =~= auth_lines(edit@).take(i as int),
        decreases order@.len() - i,
    {
        let field = order[i];
        assert(auth_order(edit@.auth).contains(field));
        let mut line = copy_str(marker(edit.focus == EditField::Auth(field)));
        line.append(auth_field_label(field));
        line.append(auth_field_display(&edit.auth, field).as_str());
        push_text(&mut r, line);
        i = i + 1;
    }
    r
}

fn login_texts(edit: &EditState, spinner_tick: usize) -> (r: Vec<String>)
    ensures
        texts(r@) == login_lines(edit@, spinner_tick as nat),
{
    if let AuthEdit::OAuth(oauth) = &edit.auth {
        if matches!(oauth.grant_type, OAuthGrantType::AuthorizationCode) {
            return one_text(
                oauth_login_status_line(&oauth.authorization_code.login, spinner_tick),
            );
        }
    }
    let r: Vec<String> = Vec::new();
    assert(texts(r@) =~= seq![]);
    r
}

fn assertion_texts(edit: &EditState) -> (r: Vec<String>)
    ensures
        texts(r@) == assertion_lines(edit@),
{
    if edit.assertions.len() == 0 {
        return one_text("  (none)".to_owned());
    }
    let mut r: Vec<String> = Vec::new();
    let mut i: usize = 0;
    while i < edit.assertions.len()
        invariant
            0 < edit.assertions@.len(),
            i <= edit.assertions@.len(),
            texts(r@) =~= assertion_lines(edit@).take(i as int),
        decreases edit.assertions@.len() - i,
    {
        push_text(&mut r, assertion_row_line(edit.focus, i, &edit.assertions[i]));
        i = i + 1;
    }
    r
}

fn capture_texts(edit: &EditState) -> (r: Vec<String>)
    ensures
        texts(r@) == capture_lines(edit@),
{
    if edit.captures.len() == 0 {
        return one_text("  (none)".to_owned());
    }
    let mut r: Vec<String> = Vec::new();
    let mut i: usize = 0;
    while i < edit.captures.len()
        invariant
            0 < edit.captures@.len(),
            i <= edit.captures@.len(),
            texts(r@) =~= capture_lines(edit@).take(i as int),
        decreases edit.captures@.len() - i,
    {
        push_text(&mut r, capture_row_line(edit.focus, i, &edit.captures[i]));
        i = i + 1;
    }
    r
}

/// Where the cursor stands on its line.
fn cursor_column(edit: &EditState) -> (r: usize)
    requires
        edit@.focus_valid(),
    ensures
        r == smaller(focus_lead(edit@).len() + focus_offset(edit@), usize::MAX as int),
{
    let ghost model = edit@;
    let (lead, offset) = match edit.focus {
        EditField::Name => ("  Name:   ".to_owned(), edit.name.cursor_chars()),
        EditField::Method => ("  Method: ".to_owned(), edit.method.cursor_chars()),
        EditField::Url => ("  URL:    ".to_owned(), edit.url.cursor_chars()),
        EditField::HeaderKey(index) => {
            assert(model.headers[index as int] == edit.headers@[index as int]@);
            (header_key_prefix(index), edit.headers[index].key.cursor_chars())
        },
        EditField::HeaderValue(index) => {
            assert(model.headers[index as int] == edit.headers@[index as int]@);
            let row = &edit.headers[index];
            (header_value_prefix(index, row.key.value()), row.value.cursor_chars())
        },
        EditField::Body => match &edit.body {
            BodyEdit::Editable { text, .. } => (String::new(), text.cursor_row_col().1),
            BodyEdit::Unsupported { .. } => (String::new(), 0),
        },
        EditField::Auth(field) => {
            let mut lead = " ".to_owned();
            lead.append(auth_field_label(field));
            (lead, auth_field_cursor_chars(&edit.auth, field))
        },
        EditField::AssertionPath(index) => {
            assert(model.assertions[index as int] == edit.assertions@[index as int]@);
            (assertion_path_prefix(index), edit.assertions[index].path.cursor_chars())
        },
        EditField::AssertionOperator(index) => {
            assert(model.assertions[index as int] == edit.assertions@[index as int]@);
            (assertion_operator_prefix(index, edit.assertions[index].path.value()), 0)
        },
        EditField::AssertionValue(index) => {
            assert(model.assertions[index as int] == edit.assertions@[index as int]@);
            let row = &edit.assertions[index];
            (
                assertion_value_prefix(index, row.path.value(), row.operator),
                row.value.cursor_chars(),
            )
        },
        EditField::AssertionNegate(index) => {
            assert(model.assertions[index as int] == edit.assertions@[index as int]@);
            let row = &edit.assertions[index];
            (
                assertion_negate_prefix(
                    index,
                    row.path.value(),
                    row.operator,
                    row.value.value(),
                    &row.value_error,
                ),
                0,
            )
        },
        EditField::CaptureName(index) => {
            assert(model.captures[index as int] == edit.captures@[index as int]@);
            (capture_name_prefix(index), edit.captures[index].name.cursor_chars())
        },
        EditField::CaptureKind(index) => {
            assert(model.captures[index as int] == edit.captures@[index as int]@);
            (capture_kind_prefix(index, edit.captures[index].name.value()), 0)
        },
        EditField::CaptureValue(index) => {
            assert(model.captures[index as int] == edit.captures@[index as int]@);
            let row = &edit.captures[index];
            (capture_value_prefix(index, row.name.value(), row.kind), row.value.cursor_chars())
        },
    };
    lead.as_str().unicode_len().saturating_add(offset)
}

/// The position of a field of the `auth:` block among them.
fn position_of(order: &Vec<AuthField>, field: AuthField) -> (r: usize)
    requires
        order@.contains(field),
        order@.no_duplicates(),
    ensures
        r < order@.len(),
        r == order@.index_of(field),
{
    let mut i: usize = 0;
    while i < order.len()
        invariant
            i <= order@.len(),
            order@.contains(field),
            forall|j: int| 0 <= j < i ==> order@[j] != field,
            order@.no_duplicates(),
        decreases order@.len() - i,
    {
        if order[i] == field {
            return i;
        }
        i = i + 1;
    }
    0
}

/// The form's lines, and where its cursor stands among them. `candidate` is
/// the request that the form describes, `resolution` what resolving it gave.
pub fn edit_pane(
    edit: &EditState,
    candidate: &Request,
    resolution: &Result<crate::preview::AuthPreview, String>,
    spinner_tick: usize,
) -> (r: EditPane)
    requires
        edit@.focus_valid(),
    ensures
        r@ == pane_for(
            edit@,
            resolved_auth_text(edit@.auth, candidate@, resolution_of(*resolution)),
            spinner_tick as nat,
        ),
{
    let ghost model = edit@;
    let ghost tick = spinner_tick as nat;
    let described = describe_resolved_auth(candidate, edit, resolution);
    let ghost said = described@;

    let mut shown = head_texts(edit);
    let headers_start: usize = shown.len();
    assert(headers_start == head_lines(model).len()) by {
        assert(texts(shown@).len() == shown@.len());
    }
    push_texts(&mut shown, header_texts(edit));
    push_text(&mut shown, "".to_owned());
    push_texts(&mut shown, body_heading_texts(edit));
    let body_start: usize = shown.len();
    assert(body_start == lines_to_body(model).len()) by {
        assert(texts(shown@).len() == shown@.len());
    }
    push_texts(&mut shown, body_texts(edit));
    push_text(&mut shown, "".to_owned());
    push_text(&mut shown, "Auth:".to_owned());
    let auth_start: usize = shown.len();
    assert(auth_start == lines_to_auth(model).len()) by {
        assert(texts(shown@).len() == shown@.len());
    }
    push_texts(&mut shown, auth_texts(edit));
    push_texts(&mut shown, login_texts(edit, spinner_tick));
    push_text(&mut shown, "".to_owned());
    let mut resolved_line = "Resolved auth → ".to_owned();
    resolved_line.append(described.as_str());
    push_text(&mut shown, resolved_line);
    push_text(&mut shown, "".to_owned());
    push_text(&mut shown, "Assertions (json path):".to_owned());
    let assertions_start: usize = shown.len();
    assert(assertions_start == lines_to_assertions(model, said, tick).len()) by {
        assert(texts(shown@).len() == shown@.len());
    }
    push_texts(&mut shown, assertion_texts(edit));
    push_text(&mut shown, "".to_owned());
    push_text(&mut shown, "Captures:".to_owned());
    let captures_start: usize = shown.len();
    assert(captures_start == lines_to_captures(model, said, tick).len()) by {
        assert(texts(shown@).len() == shown@.len());
    }
    push_texts(&mut shown, capture_texts(edit));
    let ghost so_far = texts(shown@);
    if let Some(error) = &edit.save_error {
        push_text(&mut shown, "".to_owned());
        push_text(&mut shown, format_error("Save failed", error.as_str()));
    }
    assert(texts(shown@) =~= so_far + save_error_lines(model));
    push_text(&mut shown, "".to_owned());
    push_text(
        &mut shown,
        "Tab/Shift+Tab move focus  Ctrl+N add header  Ctrl+D delete header  Ctrl+A add assertion  Ctrl+X delete assertion  Ctrl+P add capture  Ctrl+K delete capture  Ctrl+S save  Esc cancel  (Body: Enter for newline, ↑/↓ move lines; Auth/Assertions/Captures: ←/→ toggle option)".to_owned(),
    );
    assert(texts(shown@) == pane_lines(model, said, tick));

    let total: usize = shown.len();
    assert(total == pane_lines(model, said, tick).len()) by {
        assert(texts(shown@).len() == shown@.len());
    }
    let row: usize = match edit.focus {
        EditField::Name => 0,
        EditField::Method => 2,
        EditField::Url => 5,
        EditField::HeaderKey(index) | EditField::HeaderValue(index) => headers_start + index,
        EditField::Body => match &edit.body {
            BodyEdit::Editable { text, .. } => {
                let _ = text.cursor_chars();
                proof {
                    crate::text_field::law_cursor_is_on_its_line(text@);
                }
                body_start + text.cursor_row_col().0
            },
            BodyEdit::Unsupported { .. } => 0,
        },
        EditField::Auth(field) => {
            let order = edit.auth_field_order();
            proof {
                crate::edit::lemma_auth_order_distinct(model.auth);
            }
            auth_start + position_of(&order, field)
        },
        EditField::AssertionPath(index)
        | EditField::AssertionOperator(index)
        | EditField::AssertionValue(index)
        | EditField::AssertionNegate(index) => assertions_start + index,
        EditField::CaptureName(index)
        | EditField::CaptureKind(index)
        | EditField::CaptureValue(index) => captures_start + index,
    };
    let column = cursor_column(edit);
    EditPane { lines: shown, row, column }
}

// ---------------------------------------------------------------------------
// Where the cursor stands
// ---------------------------------------------------------------------------

/// What the field that has the focus shows on its line.
pub open spec fn focus_text(edit: EditModel) -> Seq<char> {
    match edit.focus {
        EditField::Auth(field) => auth_display(edit.auth, field),
        EditField::AssertionOperator(i) => edit.assertions[i as int].operator.text(),
        EditField::AssertionNegate(i) => negate_text(edit.assertions[i as int].negate),
        EditField::CaptureKind(i) => edit.captures[i as int].kind.text(),
        _ => match edit.field_at(edit.focus) {
            Some(text) => text.value,
            None => Seq::empty(),
        },
    }
}

/// The widths of the pieces that the lines are made of.
proof fn lemma_widths()
    ensures
        "▶"@.len() == 1,
        " "@.len() == 1,
        " ["@.len() == 2,
        "["@.len() == 1,
        "   "@.len() == 3,
        " Name:   "@.len() == 9,
        " Method: "@.len() == 9,
        " URL:    "@.len() == 9,
        "  Name:   "@.len() == 10,
        "  Method: "@.len() == 10,
        "  URL:    "@.len() == 10,
        "    Value: "@.len() == 11,
        "Value: "@.len() == 7,
        "    Op: "@.len() == 8,
        "Op: "@.len() == 4,
        " (←/→)    Value: "@.len() == 17,
        " (←/→)   "@.len() == 9,
        "    Negate: "@.len() == 12,
        "Negate: "@.len() == 8,
        "    Source: "@.len() == 12,
        "Source: "@.len() == 8,
{
    reveal_strlit("▶");
    reveal_strlit(" ");
    reveal_strlit(" [");
    reveal_strlit("[");
    reveal_strlit("   ");
    reveal_strlit(" Name:   ");
    reveal_strlit(" Method: ");
    reveal_strlit(" URL:    ");
    reveal_strlit("  Name:   ");
    reveal_strlit("  Method: ");
    reveal_strlit("  URL:    ");
    reveal_strlit("    Value: ");
    reveal_strlit("Value: ");
    reveal_strlit("    Op: ");
    reveal_strlit("Op: ");
    reveal_strlit(" (←/→)    Value: ");
    reveal_strlit(" (←/→)   ");
    reveal_strlit("    Negate: ");
    reveal_strlit("Negate: ");
    reveal_strlit("    Source: ");
    reveal_strlit("Source: ");
}

/// Whether a line shows a text from a column on.
pub open spec fn shows_at(line: Seq<char>, column: int, text: Seq<char>) -> bool {
    &&& 0 <= column
    &&& column + text.len() <= line.len()
    &&& line.subrange(column, column + text.len()) == text
}

proof fn lemma_header_cursor(focus: EditField, i: usize, row: HeaderRowModel)
    ensures
        shows_at(
            header_line(focus, i, row),
            header_key_lead(i as nat).len() as int,
            row.key.value,
        ),
        shows_at(
            header_line(focus, i, row),
            header_value_lead(i as nat, row.key.value).len() as int,
            row.value.value,
        ),
{
    lemma_widths();
    let line = header_line(focus, i, row);
    let a = mark(focus == EditField::HeaderKey(i)) + "["@ + decimal(i as nat) + "] Key: "@;
    assert(line.subrange(a.len() as int, a.len() as int + row.key.value.len()) =~= row.key.value);
    let b = a + row.key.value + "   "@ + mark(focus == EditField::HeaderValue(i)) + "Value: "@;
    assert(line.subrange(b.len() as int, b.len() as int + row.value.value.len()) =~= row.value.value);
}

proof fn lemma_assertion_cursor(focus: EditField, i: usize, row: AssertionRowModel)
    ensures
        shows_at(
            assertion_line(focus, i, row),
            assertion_path_lead(i as nat).len() as int,
            row.path.value,
        ),
        shows_at(
            assertion_line(focus, i, row),
            assertion_operator_lead(i as nat, row.path.value).len() as int,
            row.operator.text(),
        ),
        shows_at(
            assertion_line(focus, i, row),
            assertion_value_lead(i as nat, row.path.value, row.operator).len() as int,
            row.value.value,
        ),
        shows_at(
            assertion_line(focus, i, row),
            assertion_negate_lead(
                i as nat,
                row.path.value,
                row.operator,
                row.value.value,
                row.value_error,
            ).len() as int,
            negate_text(row.negate),
        ),
{
    lemma_widths();
    let line = assertion_line(focus, i, row);
    let a = mark(focus == EditField::AssertionPath(i)) + "["@ + decimal(i as nat) + "] Path: "@;
    assert(line.subrange(a.len() as int, a.len() as int + row.path.value.len()) =~= row.path.value);
    let op = row.operator.text();
    let b = a + row.path.value + "   "@ + mark(focus == EditField::AssertionOperator(i)) + "Op: "@;
    assert(line.subrange(b.len() as int, b.len() as int + op.len()) =~= op);
    let c = b + op + " (←/→)   "@ + mark(focus == EditField::AssertionValue(i)) + "Value: "@;
    assert(line.subrange(c.len() as int, c.len() as int + row.value.value.len()) =~= row.value.value);
    let d = c + row.value.value + value_error_text(row.value_error) + "   "@ + mark(
        focus == EditField::AssertionNegate(i),
    ) + "Negate: "@;
    let negate = negate_text(row.negate);
    assert(line.subrange(d.len() as int, d.len() as int + negate.len()) =~= negate);
}

proof fn lemma_capture_cursor(focus: EditField, i: usize, row: CaptureRowModel)
    ensures
        shows_at(
            capture_line(focus, i, row),
            capture_name_lead(i as nat).len() as int,
            row.name.value,
        ),
        shows_at(
            capture_line(focus, i, row),
            capture_kind_lead(i as nat, row.name.value).len() as int,
            row.kind.text(),
        ),
        shows_at(
            capture_line(focus, i, row),
            capture_value_lead(i as nat, row.name.value, row.kind).len() as int,
            row.value.value,
        ),
{
    lemma_widths();
    let line = capture_line(focus, i, row);
    let a = mark(focus == EditField::CaptureName(i)) + "["@ + decimal(i as nat) + "] Name: "@;
    assert(line.subrange(a.len() as int, a.len() as int + row.name.value.len()) =~= row.name.value);
    let kind = row.kind.text();
    let b = a + row.name.value + "   "@ + mark(focus == EditField::CaptureKind(i)) + "Source: "@;
    assert(line.subrange(b.len() as int, b.len() as int + kind.len()) =~= kind);
    let c = b + kind + " (←/→)   "@ + mark(focus == EditField::CaptureValue(i)) + "Value: "@;
    assert(line.subrange(c.len() as int, c.len() as int + row.value.value.len()) =~= row.value.value);
}

/// The line that the cursor is on is the focused field's own.
proof fn lemma_focus_line(edit: EditModel, said: Seq<char>, tick: nat)
    requires
        edit.focus_valid(),
        edit.field_at(edit.focus) is Some ==> edit.field_at(edit.focus)->0.valid(),
    ensures
        0 <= focus_row(edit, said, tick) < pane_lines(edit, said, tick).len(),
        pane_lines(edit, said, tick)[focus_row(edit, said, tick)] == match edit.focus {
            EditField::Name => head_lines(edit)[0],
            EditField::Method => head_lines(edit)[2],
            EditField::Url => head_lines(edit)[5],
            EditField::HeaderKey(i) | EditField::HeaderValue(i) => header_line(
                edit.focus,
                i,
                edit.headers[i as int],
            ),
            EditField::Body => body_lines(edit)[edit.body->text.row() as int],
            EditField::Auth(field) => auth_line(edit, field),
            EditField::AssertionPath(i)
            | EditField::AssertionOperator(i)
            | EditField::AssertionValue(i)
            | EditField::AssertionNegate(i) => assertion_line(
                edit.focus,
                i,
                edit.assertions[i as int],
            ),
            EditField::CaptureName(i)
            | EditField::CaptureKind(i)
            | EditField::CaptureValue(i) => capture_line(edit.focus, i, edit.captures[i as int]),
        },
{
    let row = focus_row(edit, said, tick);
    let to_body = lines_to_body(edit);
    let to_auth = lines_to_auth(edit);
    let to_assertions = lines_to_assertions(edit, said, tick);
    let to_captures = lines_to_captures(edit, said, tick);
    let all = pane_lines(edit, said, tick);
    match edit.focus {
        EditField::Name | EditField::Method | EditField::Url | EditField::HeaderKey(_)
        | EditField::HeaderValue(_) => {
            assert(to_body[row] == (head_lines(edit) + header_lines(edit))[row]);
            assert(to_auth[row] == to_body[row]);
            assert(to_assertions[row] == to_auth[row]);
            assert(to_captures[row] == to_assertions[row]);
            assert(all[row] == to_captures[row]);
        },
        EditField::Body => {
            crate::text_field::law_cursor_is_on_its_line(edit.body->text);
            assert(to_auth[row] == (to_body + body_lines(edit))[row]);
            assert(to_assertions[row] == to_auth[row]);
            assert(to_captures[row] == to_assertions[row]);
            assert(all[row] == to_captures[row]);
        },
        EditField::Auth(field) => {
            let order = auth_order(edit.auth);
            let at = order.index_of(field);
            assert(order[at] == field);
            assert(to_assertions[row] == (to_auth + auth_lines(edit))[row]);
            assert(to_captures[row] == to_assertions[row]);
            assert(all[row] == to_captures[row]);
        },
        EditField::AssertionPath(_) | EditField::AssertionOperator(_)
        | EditField::AssertionValue(_) | EditField::AssertionNegate(_) => {
            assert(to_captures[row] == (to_assertions + assertion_lines(edit))[row]);
            assert(all[row] == to_captures[row]);
        },
        EditField::CaptureName(_) | EditField::CaptureKind(_) | EditField::CaptureValue(_) => {
            assert(all[row] == (to_captures + capture_lines(edit))[row]);
        },
    }
}

/// The cursor stands on the text of the field that has the focus: the line it
/// is on shows that text behind what stands in front of the field, and the
/// cursor lies within it. In the body, it lies within the body's line that its
/// cursor is on.
pub proof fn law_cursor_stands_on_the_focused_text(edit: EditModel, said: Seq<char>, tick: nat)
    requires
        edit.focus_valid(),
        edit.field_at(edit.focus) is Some ==> edit.field_at(edit.focus)->0.valid(),
    ensures
        0 <= focus_row(edit, said, tick) < pane_lines(edit, said, tick).len(),
        edit.focus != EditField::Body ==> {
            &&& shows_at(
                pane_lines(edit, said, tick)[focus_row(edit, said, tick)],
                focus_lead(edit).len() as int,
                focus_text(edit),
            )
            &&& 0 <= focus_offset(edit) <= focus_text(edit).len()
        },
        edit.focus == EditField::Body ==> {
            let text = edit.body->text;
            let line = pane_lines(edit, said, tick)[focus_row(edit, said, tick)];
            &&& line == text.value.subrange(
                text.line_start(),
                crate::text_field::end_of_line(text.value, text.cursor),
            )
            &&& 0 <= focus_lead(edit).len() + focus_offset(edit) <= line.len()
        },
{
    lemma_focus_line(edit, said, tick);
    lemma_widths();
    let line = pane_lines(edit, said, tick)[focus_row(edit, said, tick)];
    let text = focus_text(edit);
    let at = focus_lead(edit).len() as int;
    match edit.focus {
        EditField::Name | EditField::Method | EditField::Url => {
            assert(line.subrange(at, at + text.len()) =~= text);
        },
        EditField::HeaderKey(i) | EditField::HeaderValue(i) => {
            lemma_header_cursor(edit.focus, i, edit.headers[i as int]);
        },
        EditField::Body => {
            crate::text_field::law_cursor_is_on_its_line(edit.body->text);
        },
        EditField::Auth(field) => {
            assert(line.subrange(at, at + text.len()) =~= text);
        },
        EditField::AssertionPath(i)
        | EditField::AssertionOperator(i)
        | EditField::AssertionValue(i)
        | EditField::AssertionNegate(i) => {
            lemma_assertion_cursor(edit.focus, i, edit.assertions[i as int]);
        },
        EditField::CaptureName(i)
        | EditField::CaptureKind(i)
        | EditField::CaptureValue(i) => {
            lemma_capture_cursor(edit.focus, i, edit.captures[i as int]);
        },
    }
}

} // verus!
