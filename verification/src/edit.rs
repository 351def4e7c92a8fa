//! The working copy of a request that is being edited: its text fields, its
//! rows, and the field that has the focus.
use vstd::prelude::*;

use crate::document::{
    ApiKeyAuth, ApiKeyAuthModel, ApiKeyLocation, Assertions, AssertionsModel, Auth, AuthModel,
    BasicAuth, BasicAuthModel, Capture, CaptureKind, CaptureModel, CaptureSource,
    CaptureSourceModel, JsonAssertion, JsonAssertionModel, JsonOperator, Method, OAuthAuth,
    OAuthAuthModel, OAuthGrantType, Request, RequestModel, captures_view, checks_view,
    opt_assertions, opt_auth, opt_captures,
};
use crate::outside::{indent_json, json_indented};
use crate::text::{
    copy_texts, decimal, decimal_string, non_empty, non_empty_text, opt_text, pairs_view, texts,
};
use crate::text_field::{TextField, TextFieldModel};

verus! {

broadcast use vstd::string::group_string_axioms;

// ---------------------------------------------------------------------------
// Fields
// ---------------------------------------------------------------------------

/// One field of an `auth:` block.
#[derive(Clone, Copy, Debug, PartialEq, Eq, Structural)]
pub enum AuthField {
    BearerToken,
    BasicUser,
    BasicPass,
    ApiKeyName,
    ApiKeyValue,
    ApiKeyLocation,
    OAuthGrantType,
    OAuthTokenUrl,
    OAuthClientId,
    OAuthClientSecret,
    OAuthScope,
    OAuthUsername,
    OAuthPassword,
    OAuthAuthorizationUrl,
    OAuthRedirectUri,
}

/// One field of the edit form.
#[derive(Clone, Copy, Debug, PartialEq, Eq, Structural)]
pub enum EditField {
    Name,
    Method,
    Url,
    HeaderKey(usize),
    HeaderValue(usize),
    Body,
    Auth(AuthField),
    AssertionPath(usize),
    AssertionOperator(usize),
    AssertionValue(usize),
    AssertionNegate(usize),
    CaptureName(usize),
    CaptureKind(usize),
    CaptureValue(usize),
}

// ---------------------------------------------------------------------------
// Rows
// ---------------------------------------------------------------------------

/// A name and a value that are edited side by side.
#[derive(Debug, PartialEq, Eq)]
pub struct HeaderRow {
    pub key: TextField,
    pub value: TextField,
}

#[verifier::ext_equal]
pub struct HeaderRowModel {
    pub key: TextFieldModel,
    pub value: TextFieldModel,
}

impl View for HeaderRow {
    type V = HeaderRowModel;

    open spec fn view(&self) -> HeaderRowModel {
        HeaderRowModel { key: self.key@, value: self.value@ }
    }
}

impl Clone for HeaderRow {
    fn clone(&self) -> (r: Self)
        ensures
            r@ == self@,
    {
        HeaderRow { key: self.key.clone(), value: self.value.clone() }
    }
}

/// A list of rows by value.
pub open spec fn rows_view(v: Seq<HeaderRow>) -> Seq<HeaderRowModel> {
    Seq::new(v.len(), |i: int| v[i]@)
}

/// A row with nothing in it.
pub open spec fn blank_row() -> HeaderRowModel {
    HeaderRowModel {
        key: TextFieldModel::holding(Seq::empty()),
        value: TextFieldModel::holding(Seq::empty()),
    }
}

/// The row for one name and value.
pub open spec fn row_for(pair: (Seq<char>, Seq<char>)) -> HeaderRowModel {
    HeaderRowModel {
        key: TextFieldModel::holding(pair.0),
        value: TextFieldModel::holding(pair.1),
    }
}

/// One row for each name and value.
pub open spec fn rows_for(pairs: Seq<(Seq<char>, Seq<char>)>) -> Seq<HeaderRowModel> {
    Seq::new(pairs.len(), |i: int| row_for(pairs[i]))
}

/// The name and value that each row holds.
pub open spec fn pairs_of(rows: Seq<HeaderRowModel>) -> Seq<(Seq<char>, Seq<char>)> {
    Seq::new(rows.len(), |i: int| (rows[i].key.value, rows[i].value.value))
}

/// One row for each name and value.
pub fn make_rows(pairs: &Vec<(String, String)>) -> (rows: Vec<HeaderRow>)
    ensures
        rows_view(rows@) == rows_for(pairs_view(pairs@)),
{
    let mut rows: Vec<HeaderRow> = Vec::new();
    let mut i: usize = 0;
    while i < pairs.len()
        invariant
            i <= pairs@.len(),
            rows@.len() == i,
            forall|j: int| 0 <= j < i ==> (#[trigger] rows@[j])@ == row_for(pairs_view(pairs@)[j]),
        decreases pairs@.len() - i,
    {
        rows.push(
            HeaderRow {
                key: TextField::new(pairs[i].0.as_str()),
                value: TextField::new(pairs[i].1.as_str()),
            },
        );
        i = i + 1;
    }
    assert(rows_view(rows@) =~= rows_for(pairs_view(pairs@)));
    rows
}

/// The name and value that each row holds.
pub fn row_pairs(rows: &Vec<HeaderRow>) -> (pairs: Vec<(String, String)>)
    ensures
        pairs_view(pairs@) == pairs_of(rows_view(rows@)),
{
    let mut pairs: Vec<(String, String)> = Vec::new();
    let mut i: usize = 0;
    while i < rows.len()
        invariant
            i <= rows@.len(),
            pairs@.len() == i,
            forall|j: int|
                0 <= j < i ==> (#[trigger] pairs@[j]).0@ == rows@[j]@.key.value && pairs@[j].1@
                    == rows@[j]@.value.value,
        decreases rows@.len() - i,
    {
        pairs.push((rows[i].key.value().to_owned(), rows[i].value.value().to_owned()));
        i = i + 1;
    }
    assert(pairs_view(pairs@) =~= pairs_of(rows_view(rows@)));
    pairs
}

/// Seeding rows from pairs and reading the pairs back gives the same pairs.
pub proof fn lemma_pairs_of_rows_for(pairs: Seq<(Seq<char>, Seq<char>)>)
    ensures
        pairs_of(rows_for(pairs)) == pairs,
{
    assert(pairs_of(rows_for(pairs)) =~= pairs);
}

/// A row of the form's assertions.
#[derive(Debug, PartialEq, Eq)]
pub struct AssertionRow {
    pub path: TextField,
    pub operator: JsonOperator,
    pub value: TextField,
    pub negate: bool,
    /// Why the value is no YAML value, where it is not.
    pub value_error: Option<String>,
}

#[verifier::ext_equal]
pub struct AssertionRowModel {
    pub path: TextFieldModel,
    pub operator: JsonOperator,
    pub value: TextFieldModel,
    pub negate: bool,
    pub value_error: Option<Seq<char>>,
}

impl View for AssertionRow {
    type V = AssertionRowModel;

    open spec fn view(&self) -> AssertionRowModel {
        AssertionRowModel {
            path: self.path@,
            operator: self.operator,
            value: self.value@,
            negate: self.negate,
            value_error: opt_text(self.value_error),
        }
    }
}

/// A list of assertion rows by value.
pub open spec fn assertion_rows_view(v: Seq<AssertionRow>) -> Seq<AssertionRowModel> {
    Seq::new(v.len(), |i: int| v[i]@)
}

/// An assertion row with nothing in it.
pub open spec fn blank_assertion_row() -> AssertionRowModel {
    AssertionRowModel {
        path: TextFieldModel::holding(Seq::empty()),
        operator: JsonOperator::Equals,
        value: TextFieldModel::holding(Seq::empty()),
        negate: false,
        value_error: None,
    }
}

/// The row for one check.
pub open spec fn assertion_row_for(check: JsonAssertionModel) -> AssertionRowModel {
    AssertionRowModel {
        path: TextFieldModel::holding(check.path),
        operator: check.operator,
        value: TextFieldModel::holding(check.value),
        negate: check.negate,
        value_error: None,
    }
}

/// One row for each check of a request.
pub open spec fn assertion_rows_for(
    assertions: Option<AssertionsModel>,
) -> Seq<AssertionRowModel> {
    match assertions {
        Some(a) => Seq::new(a.json.len(), |i: int| assertion_row_for(a.json[i])),
        None => Seq::empty(),
    }
}

/// The check that a row describes.
pub open spec fn check_of(row: AssertionRowModel) -> JsonAssertionModel {
    JsonAssertionModel {
        path: row.path.value,
        operator: row.operator,
        value: row.value.value,
        negate: row.negate,
    }
}

/// A row of the form's captures.
#[derive(Debug, PartialEq, Eq)]
pub struct CaptureRow {
    pub name: TextField,
    pub kind: CaptureKind,
    pub value: TextField,
}

#[verifier::ext_equal]
pub struct CaptureRowModel {
    pub name: TextFieldModel,
    pub kind: CaptureKind,
    pub value: TextFieldModel,
}

impl View for CaptureRow {
    type V = CaptureRowModel;

    open spec fn view(&self) -> CaptureRowModel {
        CaptureRowModel { name: self.name@, kind: self.kind, value: self.value@ }
    }
}

/// A list of capture rows by value.
pub open spec fn capture_rows_view(v: Seq<CaptureRow>) -> Seq<CaptureRowModel> {
    Seq::new(v.len(), |i: int| v[i]@)
}

/// A capture row with nothing in it.
pub open spec fn blank_capture_row() -> CaptureRowModel {
    CaptureRowModel {
        name: TextFieldModel::holding(Seq::empty()),
        kind: CaptureKind::JsonPath,
        value: TextFieldModel::holding(Seq::empty()),
    }
}

/// The row for one captured variable.
pub open spec fn capture_row_for(capture: CaptureModel) -> CaptureRowModel {
    CaptureRowModel {
        name: TextFieldModel::holding(capture.name),
        kind: match capture.source {
            CaptureSourceModel::JsonPath(_) => CaptureKind::JsonPath,
            CaptureSourceModel::Header { .. } => CaptureKind::Header,
            CaptureSourceModel::Status => CaptureKind::Status,
        },
        value: TextFieldModel::holding(
            match capture.source {
                CaptureSourceModel::JsonPath(path) => path,
                CaptureSourceModel::Header { header } => header,
                CaptureSourceModel::Status => Seq::empty(),
            },
        ),
    }
}

/// One row for each captured variable of a request.
pub open spec fn capture_rows_for(
    captures: Option<Seq<CaptureModel>>,
) -> Seq<CaptureRowModel> {
    match captures {
        Some(v) => Seq::new(v.len(), |i: int| capture_row_for(v[i])),
        None => Seq::empty(),
    }
}

/// The captured variable that a row describes.
pub open spec fn capture_of(row: CaptureRowModel) -> CaptureModel {
    CaptureModel {
        name: row.name.value,
        source: match row.kind {
            CaptureKind::JsonPath => CaptureSourceModel::JsonPath(row.value.value),
            CaptureKind::Header => CaptureSourceModel::Header { header: row.value.value },
            CaptureKind::Status => CaptureSourceModel::Status,
        },
    }
}

// ---------------------------------------------------------------------------
// Body
// ---------------------------------------------------------------------------

/// The body as the form shows it.
#[derive(Debug, PartialEq, Eq)]
pub enum BodyEdit {
    /// A text that can be edited, sent as it stands or as JSON.
    Editable { text: TextField, is_json: bool },
    /// A body of a kind that the form only describes.
    Unsupported { description: String },
}

#[verifier::ext_equal]
pub enum BodyEditModel {
    Editable { text: TextFieldModel, is_json: bool },
    Unsupported { description: Seq<char> },
}

impl View for BodyEdit {
    type V = BodyEditModel;

    open spec fn view(&self) -> BodyEditModel {
        match *self {
            BodyEdit::Editable { text, is_json } => BodyEditModel::Editable { text: text@, is_json },
            BodyEdit::Unsupported { description } => BodyEditModel::Unsupported {
                description: description@,
            },
        }
    }
}

/// The body that the form shows of a request. `indented` is the request's JSON
/// body over indented lines, where it has one.
pub open spec fn body_for(request: RequestModel, indented: Option<Seq<char>>) -> BodyEditModel {
    if request.body_file is Some {
        BodyEditModel::Unsupported {
            description: "file body ("@ + request.body_file->0 + ") is not editable here"@,
        }
    } else if request.form.len() > 0 {
        BodyEditModel::Unsupported {
            description: "form body with "@ + decimal(request.form.len())
                + " field(s) is not editable here"@,
        }
    } else if request.multipart.len() > 0 {
        BodyEditModel::Unsupported {
            description: "multipart body with "@ + decimal(request.multipart.len())
                + " part(s) is not editable here"@,
        }
    } else if request.json is Some {
        BodyEditModel::Editable {
            text: TextFieldModel::holding(
                match indented {
                    Some(text) => text,
                    None => request.json->0,
                },
            ),
            is_json: true,
        }
    } else {
        BodyEditModel::Editable {
            text: TextFieldModel::holding(
                match request.body {
                    Some(text) => text,
                    None => Seq::empty(),
                },
            ),
            is_json: false,
        }
    }
}

impl BodyEdit {
    /// The body that the form shows of a request. `indented` is the request's
    /// JSON body over indented lines, where it has one.
    pub fn new(request: &Request, indented: Option<String>) -> (r: BodyEdit)
        ensures
            r@ == body_for(request@, opt_text(indented)),
    {
        if let Some(path) = &request.body_file {
            let mut description = "file body (".to_owned();
            description.append(path.as_str());
            description.append(") is not editable here");
            return BodyEdit::Unsupported { description };
        }
        if request.form.len() > 0 {
            let mut description = "form body with ".to_owned();
            description.append(decimal_string(request.form.len() as u64).as_str());
            description.append(" field(s) is not editable here");
            return BodyEdit::Unsupported { description };
        }
        if request.multipart.len() > 0 {
            let mut description = "multipart body with ".to_owned();
            description.append(decimal_string(request.multipart.len() as u64).as_str());
            description.append(" part(s) is not editable here");
            return BodyEdit::Unsupported { description };
        }
        if let Some(json) = &request.json {
            let text = match &indented {
                Some(text) => TextField::new(text.as_str()),
                None => TextField::new(json.as_str()),
            };
            return BodyEdit::Editable { text, is_json: true };
        }
        let text = match &request.body {
            Some(body) => TextField::new(body.as_str()),
            None => TextField::default(),
        };
        BodyEdit::Editable { text, is_json: false }
    }
}

// ---------------------------------------------------------------------------
// Auth
// ---------------------------------------------------------------------------

/// How far a browser login has come.
#[derive(Debug, PartialEq, Eq)]
pub enum OAuthLoginState {
    Idle,
    WaitingForBrowser,
    Succeeded,
    Failed(String),
}

#[verifier::ext_equal]
pub enum OAuthLoginModel {
    Idle,
    WaitingForBrowser,
    Succeeded,
    Failed(Seq<char>),
}

impl View for OAuthLoginState {
    type V = OAuthLoginModel;

    open spec fn view(&self) -> OAuthLoginModel {
        match *self {
            OAuthLoginState::Idle => OAuthLoginModel::Idle,
            OAuthLoginState::WaitingForBrowser => OAuthLoginModel::WaitingForBrowser,
            OAuthLoginState::Succeeded => OAuthLoginModel::Succeeded,
            OAuthLoginState::Failed(reason) => OAuthLoginModel::Failed(reason@),
        }
    }
}

/// What an authorization-code login needs beside the other OAuth fields.
#[derive(Debug, PartialEq, Eq)]
pub struct AuthorizationCodeEdit {
    pub authorization_url: TextField,
    pub redirect_uri: TextField,
    pub login: OAuthLoginState,
}

#[verifier::ext_equal]
pub struct AuthorizationCodeModel {
    pub authorization_url: TextFieldModel,
    pub redirect_uri: TextFieldModel,
    pub login: OAuthLoginModel,
}

impl View for AuthorizationCodeEdit {
    type V = AuthorizationCodeModel;

    open spec fn view(&self) -> AuthorizationCodeModel {
        AuthorizationCodeModel {
            authorization_url: self.authorization_url@,
            redirect_uri: self.redirect_uri@,
            login: self.login@,
        }
    }
}

/// The fields of an OAuth block.
#[derive(Debug, PartialEq, Eq)]
pub struct OAuthEdit {
    pub grant_type: OAuthGrantType,
    pub token_url: TextField,
    pub client_id: TextField,
    pub client_secret: TextField,
    pub scope: TextField,
    pub username: TextField,
    pub password: TextField,
    pub authorization_code: AuthorizationCodeEdit,
}

#[verifier::ext_equal]
pub struct OAuthEditModel {
    pub grant_type: OAuthGrantType,
    pub token_url: TextFieldModel,
    pub client_id: TextFieldModel,
    pub client_secret: TextFieldModel,
    pub scope: TextFieldModel,
    pub username: TextFieldModel,
    pub password: TextFieldModel,
    pub authorization_code: AuthorizationCodeModel,
}

impl View for OAuthEdit {
    type V = OAuthEditModel;

    open spec fn view(&self) -> OAuthEditModel {
        OAuthEditModel {
            grant_type: self.grant_type,
            token_url: self.token_url@,
            client_id: self.client_id@,
            client_secret: self.client_secret@,
            scope: self.scope@,
            username: self.username@,
            password: self.password@,
            authorization_code: self.authorization_code@,
        }
    }
}

/// The `auth:` block as the form shows it.
#[derive(Debug, PartialEq, Eq)]
pub enum AuthEdit {
    Absent,
    Bearer { token: TextField },
    Basic { user: TextField, pass: TextField },
    ApiKey { name: TextField, value: TextField, location: ApiKeyLocation },
    OAuth(OAuthEdit),
}

#[verifier::ext_equal]
pub enum AuthEditModel {
    Absent,
    Bearer { token: TextFieldModel },
    Basic { user: TextFieldModel, pass: TextFieldModel },
    ApiKey { name: TextFieldModel, value: TextFieldModel, location: ApiKeyLocation },
    OAuth(OAuthEditModel),
}

impl View for AuthEdit {
    type V = AuthEditModel;

    open spec fn view(&self) -> AuthEditModel {
        match *self {
            AuthEdit::Absent => AuthEditModel::Absent,
            AuthEdit::Bearer { token } => AuthEditModel::Bearer { token: token@ },
            AuthEdit::Basic { user, pass } => AuthEditModel::Basic { user: user@, pass: pass@ },
            AuthEdit::ApiKey { name, value, location } => AuthEditModel::ApiKey {
                name: name@,
                value: value@,
                location,
            },
            AuthEdit::OAuth(oauth) => AuthEditModel::OAuth(oauth@),
        }
    }
}

/// The field for an optional text: empty when it is absent.
pub open spec fn field_for(o: Option<Seq<char>>) -> TextFieldModel {
    match o {
        Some(text) => TextFieldModel::holding(text),
        None => TextFieldModel::holding(Seq::empty()),
    }
}

fn make_field(o: &Option<String>) -> (r: TextField)
    ensures
        r@ == field_for(opt_text(*o)),
{
    match o {
        Some(text) => TextField::new(text.as_str()),
        None => TextField::default(),
    }
}

/// The form's fields for a request's `auth:` block.
pub open spec fn auth_for(auth: Option<AuthModel>) -> AuthEditModel {
    match auth {
        None => AuthEditModel::Absent,
        Some(a) => if a.bearer is Some {
            AuthEditModel::Bearer { token: TextFieldModel::holding(a.bearer->0) }
        } else if a.basic is Some {
            AuthEditModel::Basic {
                user: TextFieldModel::holding(a.basic->0.user),
                pass: TextFieldModel::holding(a.basic->0.pass),
            }
        } else if a.api_key is Some {
            AuthEditModel::ApiKey {
                name: TextFieldModel::holding(a.api_key->0.name),
                value: TextFieldModel::holding(a.api_key->0.value),
                location: a.api_key->0.location,
            }
        } else if a.oauth is Some {
            let o = a.oauth->0;
            AuthEditModel::OAuth(
                OAuthEditModel {
                    grant_type: o.grant_type,
                    token_url: TextFieldModel::holding(o.token_url),
                    client_id: TextFieldModel::holding(o.client_id),
                    client_secret: TextFieldModel::holding(o.client_secret),
                    scope: field_for(o.scope),
                    username: field_for(o.username),
                    password: field_for(o.password),
                    authorization_code: AuthorizationCodeModel {
                        authorization_url: field_for(o.authorization_url),
                        redirect_uri: field_for(o.redirect_uri),
                        login: OAuthLoginModel::Idle,
                    },
                },
            )
        } else {
            AuthEditModel::Absent
        },
    }
}

/// The `auth:` block that the form's fields describe.
pub open spec fn auth_of(auth: AuthEditModel) -> Option<AuthModel> {
    match auth {
        AuthEditModel::Absent => None,
        AuthEditModel::Bearer { token } => Some(
            AuthModel { bearer: Some(token.value), basic: None, api_key: None, oauth: None },
        ),
        AuthEditModel::Basic { user, pass } => Some(
            AuthModel {
                bearer: None,
                basic: Some(BasicAuthModel { user: user.value, pass: pass.value }),
                api_key: None,
                oauth: None,
            },
        ),
        AuthEditModel::ApiKey { name, value, location } => Some(
            AuthModel {
                bearer: None,
                basic: None,
                api_key: Some(
                    ApiKeyAuthModel { location, name: name.value, value: value.value },
                ),
                oauth: None,
            },
        ),
        AuthEditModel::OAuth(o) => Some(
            AuthModel {
                bearer: None,
                basic: None,
                api_key: None,
                oauth: Some(
                    OAuthAuthModel {
                        grant_type: o.grant_type,
                        token_url: o.token_url.value,
                        client_id: o.client_id.value,
                        client_secret: o.client_secret.value,
                        scope: non_empty_text(o.scope.value),
                        username: non_empty_text(o.username.value),
                        password: non_empty_text(o.password.value),
                        authorization_url: non_empty_text(
                            o.authorization_code.authorization_url.value,
                        ),
                        redirect_uri: non_empty_text(o.authorization_code.redirect_uri.value),
                    },
                ),
            },
        ),
    }
}

/// The fields of an `auth:` block, in the order the focus visits them.
pub open spec fn auth_order(auth: AuthEditModel) -> Seq<AuthField> {
    match auth {
        AuthEditModel::Absent => seq![],
        AuthEditModel::Bearer { .. } => seq![AuthField::BearerToken],
        AuthEditModel::Basic { .. } => seq![AuthField::BasicUser, AuthField::BasicPass],
        AuthEditModel::ApiKey { .. } => seq![
            AuthField::ApiKeyName,
            AuthField::ApiKeyValue,
            AuthField::ApiKeyLocation,
        ],
        AuthEditModel::OAuth(o) => if o.grant_type == OAuthGrantType::AuthorizationCode {
            seq![
                AuthField::OAuthGrantType,
                AuthField::OAuthTokenUrl,
                AuthField::OAuthClientId,
                AuthField::OAuthClientSecret,
                AuthField::OAuthScope,
                AuthField::OAuthUsername,
                AuthField::OAuthPassword,
                AuthField::OAuthAuthorizationUrl,
                AuthField::OAuthRedirectUri,
            ]
        } else {
            seq![
                AuthField::OAuthGrantType,
                AuthField::OAuthTokenUrl,
                AuthField::OAuthClientId,
                AuthField::OAuthClientSecret,
                AuthField::OAuthScope,
                AuthField::OAuthUsername,
                AuthField::OAuthPassword,
            ]
        },
    }
}

/// The text field behind one field of an `auth:` block, where there is one.
pub open spec fn auth_field_at(auth: AuthEditModel, field: AuthField) -> Option<TextFieldModel> {
    match (auth, field) {
        (AuthEditModel::Bearer { token }, AuthField::BearerToken) => Some(token),
        (AuthEditModel::Basic { user, .. }, AuthField::BasicUser) => Some(user),
        (AuthEditModel::Basic { pass, .. }, AuthField::BasicPass) => Some(pass),
        (AuthEditModel::ApiKey { name, .. }, AuthField::ApiKeyName) => Some(name),
        (AuthEditModel::ApiKey { value, .. }, AuthField::ApiKeyValue) => Some(value),
        (AuthEditModel::OAuth(o), AuthField::OAuthTokenUrl) => Some(o.token_url),
        (AuthEditModel::OAuth(o), AuthField::OAuthClientId) => Some(o.client_id),
        (AuthEditModel::OAuth(o), AuthField::OAuthClientSecret) => Some(o.client_secret),
        (AuthEditModel::OAuth(o), AuthField::OAuthScope) => Some(o.scope),
        (AuthEditModel::OAuth(o), AuthField::OAuthUsername) => Some(o.username),
        (AuthEditModel::OAuth(o), AuthField::OAuthPassword) => Some(o.password),
        (AuthEditModel::OAuth(o), AuthField::OAuthAuthorizationUrl) => Some(
            o.authorization_code.authorization_url,
        ),
        (AuthEditModel::OAuth(o), AuthField::OAuthRedirectUri) => Some(
            o.authorization_code.redirect_uri,
        ),
        _ => None,
    }
}

/// The `auth:` fields with one text field replaced.
pub open spec fn auth_with_field(
    auth: AuthEditModel,
    field: AuthField,
    t: TextFieldModel,
) -> AuthEditModel {
    match (auth, field) {
        (AuthEditModel::Bearer { .. }, AuthField::BearerToken) => AuthEditModel::Bearer {
            token: t,
        },
        (AuthEditModel::Basic { pass, .. }, AuthField::BasicUser) => AuthEditModel::Basic {
            user: t,
            pass,
        },
        (AuthEditModel::Basic { user, .. }, AuthField::BasicPass) => AuthEditModel::Basic {
            user,
            pass: t,
        },
        (
            AuthEditModel::ApiKey { value, location, .. },
            AuthField::ApiKeyName,
        ) => AuthEditModel::ApiKey { name: t, value, location },
        (
            AuthEditModel::ApiKey { name, location, .. },
            AuthField::ApiKeyValue,
        ) => AuthEditModel::ApiKey { name, value: t, location },
        (AuthEditModel::OAuth(o), AuthField::OAuthTokenUrl) => AuthEditModel::OAuth(
            OAuthEditModel { token_url: t, ..o },
        ),
        (AuthEditModel::OAuth(o), AuthField::OAuthClientId) => AuthEditModel::OAuth(
            OAuthEditModel { client_id: t, ..o },
        ),
        (AuthEditModel::OAuth(o), AuthField::OAuthClientSecret) => AuthEditModel::OAuth(
            OAuthEditModel { client_secret: t, ..o },
        ),
        (AuthEditModel::OAuth(o), AuthField::OAuthScope) => AuthEditModel::OAuth(
            OAuthEditModel { scope: t, ..o },
        ),
        (AuthEditModel::OAuth(o), AuthField::OAuthUsername) => AuthEditModel::OAuth(
            OAuthEditModel { username: t, ..o },
        ),
        (AuthEditModel::OAuth(o), AuthField::OAuthPassword) => AuthEditModel::OAuth(
            OAuthEditModel { password: t, ..o },
        ),
        (AuthEditModel::OAuth(o), AuthField::OAuthAuthorizationUrl) => AuthEditModel::OAuth(
            OAuthEditModel {
                authorization_code: AuthorizationCodeModel {
                    authorization_url: t,
                    ..o.authorization_code
                },
                ..o
            },
        ),
        (AuthEditModel::OAuth(o), AuthField::OAuthRedirectUri) => AuthEditModel::OAuth(
            OAuthEditModel {
                authorization_code: AuthorizationCodeModel {
                    redirect_uri: t,
                    ..o.authorization_code
                },
                ..o
            },
        ),
        _ => auth,
    }
}

/// The other place an API key can be sent.
pub open spec fn turned_location(location: ApiKeyLocation) -> ApiKeyLocation {
    match location {
        ApiKeyLocation::Header => ApiKeyLocation::Query,
        ApiKeyLocation::Query => ApiKeyLocation::Header,
    }
}

/// The grant type that follows (`forward`) or precedes, in a circle.
pub open spec fn turned_grant(grant: OAuthGrantType, forward: bool) -> OAuthGrantType {
    match (grant, forward) {
        (OAuthGrantType::ClientCredentials, true) => OAuthGrantType::Password,
        (OAuthGrantType::Password, true) => OAuthGrantType::AuthorizationCode,
        (OAuthGrantType::AuthorizationCode, true) => OAuthGrantType::ClientCredentials,
        (OAuthGrantType::ClientCredentials, false) => OAuthGrantType::AuthorizationCode,
        (OAuthGrantType::Password, false) => OAuthGrantType::ClientCredentials,
        (OAuthGrantType::AuthorizationCode, false) => OAuthGrantType::Password,
    }
}

/// The `auth:` fields with one of the fixed choices turned; nothing where the
/// field is no such choice.
pub open spec fn auth_turned(
    auth: AuthEditModel,
    field: AuthField,
    forward: bool,
) -> Option<AuthEditModel> {
    match (auth, field) {
        (AuthEditModel::ApiKey { name, value, location }, AuthField::ApiKeyLocation) => Some(
            AuthEditModel::ApiKey { name, value, location: turned_location(location) },
        ),
        (AuthEditModel::OAuth(o), AuthField::OAuthGrantType) => Some(
            AuthEditModel::OAuth(
                OAuthEditModel { grant_type: turned_grant(o.grant_type, forward), ..o },
            ),
        ),
        _ => None,
    }
}

impl AuthEdit {
    /// The form's fields for a request's `auth:` block.
    pub fn new(auth: &Option<Auth>) -> (r: AuthEdit)
        ensures
            r@ == auth_for(opt_auth(*auth)),
    {
        let auth = match auth {
            Some(auth) => auth,
            None => return AuthEdit::Absent,
        };
        if let Some(token) = &auth.bearer {
            return AuthEdit::Bearer { token: TextField::new(token.as_str()) };
        }
        if let Some(basic) = &auth.basic {
            return AuthEdit::Basic {
                user: TextField::new(basic.user.as_str()),
                pass: TextField::new(basic.pass.as_str()),
            };
        }
        if let Some(key) = &auth.api_key {
            return AuthEdit::ApiKey {
                name: TextField::new(key.name.as_str()),
                value: TextField::new(key.value.as_str()),
                location: key.location,
            };
        }
        if let Some(o) = &auth.oauth {
            return AuthEdit::OAuth(
                OAuthEdit {
                    grant_type: o.grant_type,
                    token_url: TextField::new(o.token_url.as_str()),
                    client_id: TextField::new(o.client_id.as_str()),
                    client_secret: TextField::new(o.client_secret.as_str()),
                    scope: make_field(&o.scope),
                    username: make_field(&o.username),
                    password: make_field(&o.password),
                    authorization_code: AuthorizationCodeEdit {
                        authorization_url: make_field(&o.authorization_url),
                        redirect_uri: make_field(&o.redirect_uri),
                        login: OAuthLoginState::Idle,
                    },
                },
            );
        }
        AuthEdit::Absent
    }

    /// The `auth:` block that the form's fields describe.
    pub fn to_auth(&self) -> (r: Option<Auth>)
        ensures
            opt_auth(r) == auth_of(self@),
    {
        match self {
            AuthEdit::Absent => None,
            AuthEdit::Bearer { token } => Some(
                Auth {
                    bearer: Some(token.value().to_owned()),
                    basic: None,
                    api_key: None,
                    oauth: None,
                },
            ),
            AuthEdit::Basic { user, pass } => Some(
                Auth {
                    bearer: None,
                    basic: Some(
                        BasicAuth {
                            user: user.value().to_owned(),
                            pass: pass.value().to_owned(),
                        },
                    ),
                    api_key: None,
                    oauth: None,
                },
            ),
            AuthEdit::ApiKey { name, value, location } => Some(
                Auth {
                    bearer: None,
                    basic: None,
                    api_key: Some(
                        ApiKeyAuth {
                            location: *location,
                            name: name.value().to_owned(),
                            value: value.value().to_owned(),
                        },
                    ),
                    oauth: None,
                },
            ),
            AuthEdit::OAuth(o) => Some(
                Auth {
                    bearer: None,
                    basic: None,
                    api_key: None,
                    oauth: Some(
                        OAuthAuth {
                            grant_type: o.grant_type,
                            token_url: o.token_url.value().to_owned(),
                            client_id: o.client_id.value().to_owned(),
                            client_secret: o.client_secret.value().to_owned(),
                            scope: non_empty(o.scope.value()),
                            username: non_empty(o.username.value()),
                            password: non_empty(o.password.value()),
                            authorization_url: non_empty(
                                o.authorization_code.authorization_url.value(),
                            ),
                            redirect_uri: non_empty(o.authorization_code.redirect_uri.value()),
                        },
                    ),
                },
            ),
        }
    }

    /// The fields of the block, in the order the focus visits them.
    pub fn field_order(&self) -> (r: Vec<AuthField>)
        ensures
            r@ == auth_order(self@),
    {
        let mut r: Vec<AuthField> = Vec::new();
        match self {
            AuthEdit::Absent => {},
            AuthEdit::Bearer { .. } => r.push(AuthField::BearerToken),
            AuthEdit::Basic { .. } => {
                r.push(AuthField::BasicUser);
                r.push(AuthField::BasicPass);
            },
            AuthEdit::ApiKey { .. } => {
                r.push(AuthField::ApiKeyName);
                r.push(AuthField::ApiKeyValue);
                r.push(AuthField::ApiKeyLocation);
            },
            AuthEdit::OAuth(o) => {
                r.push(AuthField::OAuthGrantType);
                r.push(AuthField::OAuthTokenUrl);
                r.push(AuthField::OAuthClientId);
                r.push(AuthField::OAuthClientSecret);
                r.push(AuthField::OAuthScope);
                r.push(AuthField::OAuthUsername);
                r.push(AuthField::OAuthPassword);
                if o.grant_type == OAuthGrantType::AuthorizationCode {
                    r.push(AuthField::OAuthAuthorizationUrl);
                    r.push(AuthField::OAuthRedirectUri);
                }
            },
        }
        assert(r@ =~= auth_order(self@));
        r
    }

    /// The text field behind `field`, where there is one, to be changed.
    pub fn field_mut(&mut self, field: AuthField) -> (r: Option<&mut TextField>)
        ensures
            match r {
                Some(t) => {
                    &&& auth_field_at(old(self)@, field) == Some(t@)
                    &&& final(self)@ == auth_with_field(old(self)@, field, final(t)@)
                },
                None => {
                    &&& auth_field_at(old(self)@, field) is None
                    &&& final(self)@ == old(self)@
                },
            },
    {
        match (self, field) {
            (AuthEdit::Bearer { token }, AuthField::BearerToken) => Some(token),
            (AuthEdit::Basic { user, .. }, AuthField::BasicUser) => Some(user),
            (AuthEdit::Basic { pass, .. }, AuthField::BasicPass) => Some(pass),
            (AuthEdit::ApiKey { name, .. }, AuthField::ApiKeyName) => Some(name),
            (AuthEdit::ApiKey { value, .. }, AuthField::ApiKeyValue) => Some(value),
            (AuthEdit::OAuth(o), AuthField::OAuthTokenUrl) => Some(&mut o.token_url),
            (AuthEdit::OAuth(o), AuthField::OAuthClientId) => Some(&mut o.client_id),
            (AuthEdit::OAuth(o), AuthField::OAuthClientSecret) => Some(&mut o.client_secret),
            (AuthEdit::OAuth(o), AuthField::OAuthScope) => Some(&mut o.scope),
            (AuthEdit::OAuth(o), AuthField::OAuthUsername) => Some(&mut o.username),
            (AuthEdit::OAuth(o), AuthField::OAuthPassword) => Some(&mut o.password),
            (AuthEdit::OAuth(o), AuthField::OAuthAuthorizationUrl) => Some(
                &mut o.authorization_code.authorization_url,
            ),
            (AuthEdit::OAuth(o), AuthField::OAuthRedirectUri) => Some(
                &mut o.authorization_code.redirect_uri,
            ),
            _ => None,
        }
    }
}

// ---------------------------------------------------------------------------
// The form
// ---------------------------------------------------------------------------

/// The working copy of the request that is being edited.
#[derive(Debug, PartialEq, Eq)]
pub struct EditState {
    pub name: TextField,
    pub method: TextField,
    pub url: TextField,
    pub headers: Vec<HeaderRow>,
    pub body: BodyEdit,
    pub auth: AuthEdit,
    pub assertions: Vec<AssertionRow>,
    pub captures: Vec<CaptureRow>,
    pub focus: EditField,
    /// Whether anything was changed since the form was opened.
    pub dirty: bool,
    /// Why the method is none, where it is not.
    pub method_error: Option<String>,
    /// Why the body could not be saved as JSON, where it could not.
    pub body_error: Option<String>,
    /// Why the last save failed, where it did.
    pub save_error: Option<String>,
}

#[verifier::ext_equal]
pub struct EditModel {
    pub name: TextFieldModel,
    pub method: TextFieldModel,
    pub url: TextFieldModel,
    pub headers: Seq<HeaderRowModel>,
    pub body: BodyEditModel,
    pub auth: AuthEditModel,
    pub assertions: Seq<AssertionRowModel>,
    pub captures: Seq<CaptureRowModel>,
    pub focus: EditField,
    pub dirty: bool,
    pub method_error: Option<Seq<char>>,
    pub body_error: Option<Seq<char>>,
    pub save_error: Option<Seq<char>>,
}

impl View for EditState {
    type V = EditModel;

    open spec fn view(&self) -> EditModel {
        EditModel {
            name: self.name@,
            method: self.method@,
            url: self.url@,
            headers: rows_view(self.headers@),
            body: self.body@,
            auth: self.auth@,
            assertions: assertion_rows_view(self.assertions@),
            captures: capture_rows_view(self.captures@),
            focus: self.focus,
            dirty: self.dirty,
            method_error: opt_text(self.method_error),
            body_error: opt_text(self.body_error),
            save_error: opt_text(self.save_error),
        }
    }
}

/// The form for a request, with nothing changed yet. `indented` is the
/// request's JSON body over indented lines, where it has one.
pub open spec fn form_for(request: RequestModel, indented: Option<Seq<char>>) -> EditModel {
    EditModel {
        name: field_for(request.name),
        method: TextFieldModel::holding(request.method.text()),
        url: TextFieldModel::holding(request.url),
        headers: rows_for(request.headers),
        body: body_for(request, indented),
        auth: auth_for(request.auth),
        assertions: assertion_rows_for(request.assertions),
        captures: capture_rows_for(request.capture),
        focus: EditField::Name,
        dirty: false,
        method_error: None,
        body_error: None,
        save_error: None,
    }
}

/// What the form shows of a request's JSON body: the body over indented lines.
pub open spec fn indented_body(request: RequestModel) -> Option<Seq<char>> {
    match request.json {
        Some(json) => json_indented(json),
        None => None,
    }
}

/// The focus positions of `n` header rows.
pub open spec fn header_fields(n: nat) -> Seq<EditField> {
    Seq::new(
        2 * n,
        |i: int|
            if i % 2 == 0 {
                EditField::HeaderKey((i / 2) as usize)
            } else {
                EditField::HeaderValue((i / 2) as usize)
            },
    )
}

/// The focus positions of `n` assertion rows.
pub open spec fn assertion_fields(n: nat) -> Seq<EditField> {
    Seq::new(
        4 * n,
        |i: int|
            if i % 4 == 0 {
                EditField::AssertionPath((i / 4) as usize)
            } else if i % 4 == 1 {
                EditField::AssertionOperator((i / 4) as usize)
            } else if i % 4 == 2 {
                EditField::AssertionValue((i / 4) as usize)
            } else {
                EditField::AssertionNegate((i / 4) as usize)
            },
    )
}

/// The focus positions of `n` capture rows.
pub open spec fn capture_fields(n: nat) -> Seq<EditField> {
    Seq::new(
        3 * n,
        |i: int|
            if i % 3 == 0 {
                EditField::CaptureName((i / 3) as usize)
            } else if i % 3 == 1 {
                EditField::CaptureKind((i / 3) as usize)
            } else {
                EditField::CaptureValue((i / 3) as usize)
            },
    )
}

/// The focus positions of an `auth:` block.
pub open spec fn auth_fields(order: Seq<AuthField>) -> Seq<EditField> {
    Seq::new(order.len(), |i: int| EditField::Auth(order[i]))
}

impl EditModel {
    /// Whether the body is a text that can be edited.
    pub open spec fn has_editable_body(self) -> bool {
        self.body is Editable
    }

    /// Every field of the form, in the order the focus visits them.
    pub open spec fn fields(self) -> Seq<EditField> {
        seq![EditField::Name, EditField::Method, EditField::Url] + header_fields(
            self.headers.len(),
        ) + (if self.has_editable_body() {
            seq![EditField::Body]
        } else {
            seq![]
        }) + auth_fields(auth_order(self.auth)) + assertion_fields(self.assertions.len())
            + capture_fields(self.captures.len())
    }

    /// The focus is on a field that the form has.
    pub open spec fn focus_valid(self) -> bool {
        match self.focus {
            EditField::Name | EditField::Method | EditField::Url => true,
            EditField::HeaderKey(i) | EditField::HeaderValue(i) => i < self.headers.len(),
            EditField::Body => self.has_editable_body(),
            EditField::Auth(field) => auth_order(self.auth).contains(field),
            EditField::AssertionPath(i) | EditField::AssertionOperator(i)
            | EditField::AssertionValue(i) | EditField::AssertionNegate(i) => i
                < self.assertions.len(),
            EditField::CaptureName(i) | EditField::CaptureKind(i) | EditField::CaptureValue(i) => i
                < self.captures.len(),
        }
    }

    /// The focus on the field behind the present one, on the first behind the
    /// last.
    pub open spec fn focused_next(self) -> EditModel {
        let fields = self.fields();
        EditModel {
            focus: if fields.contains(self.focus) {
                fields[(fields.index_of(self.focus) + 1) % (fields.len() as int)]
            } else {
                EditField::Name
            },
            ..self
        }
    }

    /// The focus on the field before the present one, on the last before the
    /// first.
    pub open spec fn focused_prev(self) -> EditModel {
        let fields = self.fields();
        EditModel {
            focus: if fields.contains(self.focus) {
                fields[(fields.index_of(self.focus) + fields.len() - 1) % (fields.len() as int)]
            } else {
                EditField::Name
            },
            ..self
        }
    }

    /// The text field at a position of the form, where there is one.
    pub open spec fn field_at(self, field: EditField) -> Option<TextFieldModel> {
        match field {
            EditField::Name => Some(self.name),
            EditField::Method => Some(self.method),
            EditField::Url => Some(self.url),
            EditField::HeaderKey(i) => if i < self.headers.len() {
                Some(self.headers[i as int].key)
            } else {
                None
            },
            EditField::HeaderValue(i) => if i < self.headers.len() {
                Some(self.headers[i as int].value)
            } else {
                None
            },
            EditField::Body => match self.body {
                BodyEditModel::Editable { text, .. } => Some(text),
                BodyEditModel::Unsupported { .. } => None,
            },
            EditField::Auth(f) => auth_field_at(self.auth, f),
            EditField::AssertionPath(i) => if i < self.assertions.len() {
                Some(self.assertions[i as int].path)
            } else {
                None
            },
            EditField::AssertionValue(i) => if i < self.assertions.len() {
                Some(self.assertions[i as int].value)
            } else {
                None
            },
            EditField::CaptureName(i) => if i < self.captures.len() {
                Some(self.captures[i as int].name)
            } else {
                None
            },
            EditField::CaptureValue(i) => if i < self.captures.len() {
                Some(self.captures[i as int].value)
            } else {
                None
            },
            EditField::AssertionOperator(_) | EditField::AssertionNegate(_)
            | EditField::CaptureKind(_) => None,
        }
    }

    /// The form with one text field replaced.
    pub open spec fn with_field(self, field: EditField, t: TextFieldModel) -> EditModel {
        match field {
            EditField::Name => EditModel { name: t, ..self },
            EditField::Method => EditModel { method: t, ..self },
            EditField::Url => EditModel { url: t, ..self },
            EditField::HeaderKey(i) => EditModel {
                headers: self.headers.update(
                    i as int,
                    HeaderRowModel { key: t, ..self.headers[i as int] },
                ),
                ..self
            },
            EditField::HeaderValue(i) => EditModel {
                headers: self.headers.update(
                    i as int,
                    HeaderRowModel { value: t, ..self.headers[i as int] },
                ),
                ..self
            },
            EditField::Body => match self.body {
                BodyEditModel::Editable { is_json, .. } => EditModel {
                    body: BodyEditModel::Editable { text: t, is_json },
                    ..self
                },
                BodyEditModel::Unsupported { .. } => self,
            },
            EditField::Auth(f) => EditModel { auth: auth_with_field(self.auth, f, t), ..self },
            EditField::AssertionPath(i) => EditModel {
                assertions: self.assertions.update(
                    i as int,
                    AssertionRowModel { path: t, ..self.assertions[i as int] },
                ),
                ..self
            },
            EditField::AssertionValue(i) => EditModel {
                assertions: self.assertions.update(
                    i as int,
                    AssertionRowModel { value: t, ..self.assertions[i as int] },
                ),
                ..self
            },
            EditField::CaptureName(i) => EditModel {
                captures: self.captures.update(
                    i as int,
                    CaptureRowModel { name: t, ..self.captures[i as int] },
                ),
                ..self
            },
            EditField::CaptureValue(i) => EditModel {
                captures: self.captures.update(
                    i as int,
                    CaptureRowModel { value: t, ..self.captures[i as int] },
                ),
                ..self
            },
            _ => self,
        }
    }

    /// The form with the fixed choice at the focus turned; nothing where the
    /// focus is on no such choice.
    pub open spec fn turned(self, forward: bool) -> Option<EditModel> {
        match self.focus {
            EditField::Auth(f) => match auth_turned(self.auth, f, forward) {
                Some(auth) => Some(EditModel { auth, ..self }),
                None => None,
            },
            EditField::AssertionOperator(i) => if i < self.assertions.len() {
                let row = self.assertions[i as int];
                let operator = if forward {
                    row.operator.after()
                } else {
                    row.operator.before()
                };
                Some(
                    EditModel {
                        assertions: self.assertions.update(
                            i as int,
                            AssertionRowModel { operator, ..row },
                        ),
                        ..self
                    },
                )
            } else {
                None
            },
            EditField::AssertionNegate(i) => if i < self.assertions.len() {
                let row = self.assertions[i as int];
                Some(
                    EditModel {
                        assertions: self.assertions.update(
                            i as int,
                            AssertionRowModel { negate: !row.negate, ..row },
                        ),
                        ..self
                    },
                )
            } else {
                None
            },
            EditField::CaptureKind(i) => if i < self.captures.len() {
                let row = self.captures[i as int];
                let kind = if forward {
                    row.kind.after()
                } else {
                    row.kind.before()
                };
                Some(
                    EditModel {
                        captures: self.captures.update(i as int, CaptureRowModel { kind, ..row }),
                        ..self
                    },
                )
            } else {
                None
            },
            _ => None,
        }
    }

    /// The form with an empty header row added, which gets the focus.
    pub open spec fn header_added(self) -> EditModel {
        EditModel {
            headers: self.headers.push(blank_row()),
            focus: EditField::HeaderKey(self.headers.len() as usize),
            ..self
        }
    }

    /// The form without the header row that has the focus, which goes to the
    /// row before it; unchanged where none has it.
    pub open spec fn header_deleted(self) -> EditModel {
        match self.focus {
            EditField::HeaderKey(i) | EditField::HeaderValue(i) => if i < self.headers.len() {
                EditModel {
                    headers: self.headers.remove(i as int),
                    focus: if self.headers.len() == 1 {
                        EditField::Url
                    } else {
                        EditField::HeaderKey(row_before(i))
                    },
                    ..self
                }
            } else {
                self
            },
            _ => self,
        }
    }

    /// The form with an empty assertion row added, which gets the focus.
    pub open spec fn assertion_added(self) -> EditModel {
        EditModel {
            assertions: self.assertions.push(blank_assertion_row()),
            focus: EditField::AssertionPath(self.assertions.len() as usize),
            ..self
        }
    }

    /// The form without the assertion row that has the focus, which goes to
    /// the row before it; unchanged where none has it.
    pub open spec fn assertion_deleted(self) -> EditModel {
        match self.focus {
            EditField::AssertionPath(i) | EditField::AssertionOperator(i)
            | EditField::AssertionValue(i) | EditField::AssertionNegate(i) => if i
                < self.assertions.len() {
                EditModel {
                    assertions: self.assertions.remove(i as int),
                    focus: if self.assertions.len() == 1 {
                        EditField::Name
                    } else {
                        EditField::AssertionPath(row_before(i))
                    },
                    ..self
                }
            } else {
                self
            },
            _ => self,
        }
    }

    /// The form with an empty capture row added, which gets the focus.
    pub open spec fn capture_added(self) -> EditModel {
        EditModel {
            captures: self.captures.push(blank_capture_row()),
            focus: EditField::CaptureName(self.captures.len() as usize),
            ..self
        }
    }

    /// The form without the capture row that has the focus, which goes to the
    /// row before it; unchanged where none has it.
    pub open spec fn capture_deleted(self) -> EditModel {
        match self.focus {
            EditField::CaptureName(i) | EditField::CaptureKind(i)
            | EditField::CaptureValue(i) => if i < self.captures.len() {
                EditModel {
                    captures: self.captures.remove(i as int),
                    focus: if self.captures.len() == 1 {
                        EditField::Name
                    } else {
                        EditField::CaptureName(row_before(i))
                    },
                    ..self
                }
            } else {
                self
            },
            _ => self,
        }
    }

    /// The form after one change to its rows.
    pub open spec fn rows_changed(self, change: RowChange) -> EditModel {
        match change {
            RowChange::AddHeader => self.header_added(),
            RowChange::DeleteHeader => self.header_deleted(),
            RowChange::AddAssertion => self.assertion_added(),
            RowChange::DeleteAssertion => self.assertion_deleted(),
            RowChange::AddCapture => self.capture_added(),
            RowChange::DeleteCapture => self.capture_deleted(),
        }
    }

    /// The `assertions:` block that the form describes. Checks that the form
    /// does not show are kept as they were.
    pub open spec fn assertions_of(
        self,
        existing: Option<AssertionsModel>,
    ) -> Option<AssertionsModel> {
        let json = Seq::new(self.assertions.len(), |i: int| check_of(self.assertions[i]));
        let others = match existing {
            Some(a) => a.others,
            None => Seq::empty(),
        };
        if json.len() == 0 && others.len() == 0 {
            None
        } else {
            Some(AssertionsModel { json, others })
        }
    }

    /// The `capture:` block that the form describes.
    pub open spec fn captures_of(self) -> Option<Seq<CaptureModel>> {
        if self.captures.len() == 0 {
            None
        } else {
            Some(Seq::new(self.captures.len(), |i: int| capture_of(self.captures[i])))
        }
    }
}

/// The row in front of row `i`; the first row stays the first.
pub open spec fn row_before(i: usize) -> usize {
    if i == 0 {
        0
    } else {
        (i - 1) as usize
    }
}

/// A change to the rows of the form.
#[derive(Clone, Copy, Debug, PartialEq, Eq, Structural)]
pub enum RowChange {
    AddHeader,
    DeleteHeader,
    AddAssertion,
    DeleteAssertion,
    AddCapture,
    DeleteCapture,
}

// ---------------------------------------------------------------------------
// Facts about the lists of rows and fields
// ---------------------------------------------------------------------------

spec fn section(field: EditField) -> int {
    match field {
        EditField::Name => 0,
        EditField::Method => 1,
        EditField::Url => 2,
        EditField::HeaderKey(_) | EditField::HeaderValue(_) => 3,
        EditField::Body => 4,
        EditField::Auth(_) => 5,
        EditField::AssertionPath(_) | EditField::AssertionOperator(_)
        | EditField::AssertionValue(_) | EditField::AssertionNegate(_) => 6,
        EditField::CaptureName(_) | EditField::CaptureKind(_) | EditField::CaptureValue(_) => 7,
    }
}

spec fn all_below(s: Seq<EditField>, bound: int) -> bool {
    forall|i: int| 0 <= i < s.len() ==> section(#[trigger] s[i]) < bound
}

spec fn all_in(s: Seq<EditField>, n: int) -> bool {
    forall|i: int| 0 <= i < s.len() ==> section(#[trigger] s[i]) == n
}

proof fn lemma_append_section(a: Seq<EditField>, b: Seq<EditField>, n: int)
    requires
        a.no_duplicates(),
        b.no_duplicates(),
        all_below(a, n),
        all_in(b, n),
    ensures
        (a + b).no_duplicates(),
        all_below(a + b, n + 1),
{
    assert forall|i: int, j: int| 0 <= i < a.len() && 0 <= j < b.len() implies a[i] != b[j] by {
        assert(section(a[i]) < n);
        assert(section(b[j]) == n);
    }
    vstd::seq_lib::lemma_no_dup_in_concat(a, b);
    assert forall|i: int| 0 <= i < (a + b).len() implies section(#[trigger] (a + b)[i]) < n + 1 by {
        if i < a.len() {
            assert((a + b)[i] == a[i]);
        } else {
            assert((a + b)[i] == b[i - a.len()]);
        }
    }
}

proof fn lemma_header_fields(n: nat)
    requires
        n <= usize::MAX,
    ensures
        header_fields(n).no_duplicates(),
        all_in(header_fields(n), 3),
        forall|i: usize|
            header_fields(n).contains(EditField::HeaderKey(i)) <==> i < n,
        forall|i: usize|
            header_fields(n).contains(EditField::HeaderValue(i)) <==> i < n,
{
    let s = header_fields(n);
    assert forall|i: usize| s.contains(EditField::HeaderKey(i)) <==> i < n by {
        if i < n {
            assert(s[2 * i] == EditField::HeaderKey(i));
        }
    }
    assert forall|i: usize| s.contains(EditField::HeaderValue(i)) <==> i < n by {
        if i < n {
            assert(s[2 * i + 1] == EditField::HeaderValue(i));
        }
    }
}

proof fn lemma_assertion_fields(n: nat)
    requires
        n <= usize::MAX,
    ensures
        assertion_fields(n).no_duplicates(),
        all_in(assertion_fields(n), 6),
        forall|i: usize|
            assertion_fields(n).contains(EditField::AssertionPath(i)) <==> i < n,
        forall|i: usize|
            assertion_fields(n).contains(EditField::AssertionOperator(i)) <==> i < n,
        forall|i: usize|
            assertion_fields(n).contains(EditField::AssertionValue(i)) <==> i < n,
        forall|i: usize|
            assertion_fields(n).contains(EditField::AssertionNegate(i)) <==> i < n,
{
    let s = assertion_fields(n);
    assert forall|i: usize| s.contains(EditField::AssertionPath(i)) <==> i < n by {
        if i < n {
            assert(s[4 * i] == EditField::AssertionPath(i));
        }
    }
    assert forall|i: usize| s.contains(EditField::AssertionOperator(i)) <==> i < n by {
        if i < n {
            assert(s[4 * i + 1] == EditField::AssertionOperator(i));
        }
    }
    assert forall|i: usize| s.contains(EditField::AssertionValue(i)) <==> i < n by {
        if i < n {
            assert(s[4 * i + 2] == EditField::AssertionValue(i));
        }
    }
    assert forall|i: usize| s.contains(EditField::AssertionNegate(i)) <==> i < n by {
        if i < n {
            assert(s[4 * i + 3] == EditField::AssertionNegate(i));
        }
    }
}

proof fn lemma_capture_fields(n: nat)
    requires
        n <= usize::MAX,
    ensures
        capture_fields(n).no_duplicates(),
        all_in(capture_fields(n), 7),
        forall|i: usize|
            capture_fields(n).contains(EditField::CaptureName(i)) <==> i < n,
        forall|i: usize|
            capture_fields(n).contains(EditField::CaptureKind(i)) <==> i < n,
        forall|i: usize|
            capture_fields(n).contains(EditField::CaptureValue(i)) <==> i < n,
{
    let s = capture_fields(n);
    assert forall|i: usize| s.contains(EditField::CaptureName(i)) <==> i < n by {
        if i < n {
            assert(s[3 * i] == EditField::CaptureName(i));
        }
    }
    assert forall|i: usize| s.contains(EditField::CaptureKind(i)) <==> i < n by {
        if i < n {
            assert(s[3 * i + 1] == EditField::CaptureKind(i));
        }
    }
    assert forall|i: usize| s.contains(EditField::CaptureValue(i)) <==> i < n by {
        if i < n {
            assert(s[3 * i + 2] == EditField::CaptureValue(i));
        }
    }
}

/// No field occurs twice in an `auth:` block.
pub proof fn lemma_auth_order_distinct(auth: AuthEditModel)
    ensures
        auth_order(auth).no_duplicates(),
{
}

proof fn lemma_auth_fields(auth: AuthEditModel)
    ensures
        auth_fields(auth_order(auth)).no_duplicates(),
        all_in(auth_fields(auth_order(auth)), 5),
        forall|f: AuthField|
            auth_fields(auth_order(auth)).contains(EditField::Auth(f)) <==> auth_order(
                auth,
            ).contains(f),
{
    let order = auth_order(auth);
    let s = auth_fields(order);
    assert(order.no_duplicates());
    assert forall|f: AuthField| s.contains(EditField::Auth(f)) <==> order.contains(f) by {
        if order.contains(f) {
            let i = order.index_of(f);
            assert(s[i] == EditField::Auth(f));
        }
        if s.contains(EditField::Auth(f)) {
            let i = s.index_of(EditField::Auth(f));
            assert(order[i] == f);
        }
    }
}

impl EditModel {
    /// The rows can be counted by the machine.
    pub open spec fn countable(self) -> bool {
        &&& self.headers.len() <= usize::MAX
        &&& self.assertions.len() <= usize::MAX
        &&& self.captures.len() <= usize::MAX
    }
}

/// No field occurs twice in the order that the focus visits them.
pub proof fn lemma_fields_distinct(edit: EditModel)
    requires
        edit.countable(),
    ensures
        edit.fields().no_duplicates(),
        edit.fields().len() >= 3,
        edit.fields()[0] == EditField::Name,
{
    let start = seq![EditField::Name, EditField::Method, EditField::Url];
    let headers = header_fields(edit.headers.len());
    let body = if edit.has_editable_body() {
        seq![EditField::Body]
    } else {
        seq![]
    };
    let auth = auth_fields(auth_order(edit.auth));
    let assertions = assertion_fields(edit.assertions.len());
    let captures = capture_fields(edit.captures.len());
    lemma_header_fields(edit.headers.len());
    lemma_auth_fields(edit.auth);
    lemma_assertion_fields(edit.assertions.len());
    lemma_capture_fields(edit.captures.len());
    lemma_append_section(start, headers, 3);
    lemma_append_section(start + headers, body, 4);
    lemma_append_section(start + headers + body, auth, 5);
    lemma_append_section(start + headers + body + auth, assertions, 6);
    lemma_append_section(start + headers + body + auth + assertions, captures, 7);
}

proof fn lemma_contains_append(a: Seq<EditField>, b: Seq<EditField>, f: EditField)
    ensures
        (a + b).contains(f) <==> a.contains(f) || b.contains(f),
{
    if a.contains(f) {
        let i = a.index_of(f);
        assert((a + b)[i] == f);
    }
    if b.contains(f) {
        let i = b.index_of(f);
        assert((a + b)[a.len() + i] == f);
    }
}

/// A field is in the order that the focus visits exactly when the form has
/// it.
pub proof fn lemma_focus_valid(edit: EditModel)
    requires
        edit.countable(),
    ensures
        edit.fields().contains(edit.focus) <==> edit.focus_valid(),
{
    let f = edit.focus;
    let start = seq![EditField::Name, EditField::Method, EditField::Url];
    let headers = header_fields(edit.headers.len());
    let body = if edit.has_editable_body() {
        seq![EditField::Body]
    } else {
        seq![]
    };
    let auth = auth_fields(auth_order(edit.auth));
    let assertions = assertion_fields(edit.assertions.len());
    let captures = capture_fields(edit.captures.len());
    lemma_header_fields(edit.headers.len());
    lemma_auth_fields(edit.auth);
    lemma_assertion_fields(edit.assertions.len());
    lemma_capture_fields(edit.captures.len());
    lemma_contains_append(start, headers, f);
    lemma_contains_append(start + headers, body, f);
    lemma_contains_append(start + headers + body, auth, f);
    lemma_contains_append(start + headers + body + auth, assertions, f);
    lemma_contains_append(start + headers + body + auth + assertions, captures, f);
    assert(start[0] == EditField::Name && start[1] == EditField::Method && start[2]
        == EditField::Url);
    assert(start.contains(f) <==> section(f) <= 2) by {
        if section(f) <= 2 {
            assert(start.contains(start[section(f)]));
        }
    }
    if edit.has_editable_body() {
        assert(body[0] == EditField::Body);
        assert(body.contains(EditField::Body));
    } else {
        assert(body.len() == 0);
    }
    assert(section(f) != 3 ==> !headers.contains(f));
    assert(section(f) != 4 ==> !body.contains(f));
    assert(section(f) != 5 ==> !auth.contains(f));
    assert(section(f) != 6 ==> !assertions.contains(f));
    assert(section(f) != 7 ==> !captures.contains(f));
    match f {
        EditField::Name | EditField::Method | EditField::Url => {
            assert(edit.fields().contains(f));
        },
        EditField::HeaderKey(i) => {
            assert(headers.contains(EditField::HeaderKey(i)) <==> i < edit.headers.len());
        },
        EditField::HeaderValue(i) => {
            assert(headers.contains(EditField::HeaderValue(i)) <==> i < edit.headers.len());
        },
        EditField::Body => {
            assert(body.contains(f) <==> edit.has_editable_body());
        },
        EditField::Auth(g) => {
            assert(auth.contains(EditField::Auth(g)) <==> auth_order(edit.auth).contains(g));
        },
        EditField::AssertionPath(i) => {
            assert(assertions.contains(EditField::AssertionPath(i)) <==> i < edit.assertions.len());
        },
        EditField::AssertionOperator(i) => {
            assert(assertions.contains(EditField::AssertionOperator(i)) <==> i
                < edit.assertions.len());
        },
        EditField::AssertionValue(i) => {
            assert(assertions.contains(EditField::AssertionValue(i)) <==> i < edit.assertions.len());
        },
        EditField::AssertionNegate(i) => {
            assert(assertions.contains(EditField::AssertionNegate(i)) <==> i
                < edit.assertions.len());
        },
        EditField::CaptureName(i) => {
            assert(captures.contains(EditField::CaptureName(i)) <==> i < edit.captures.len());
        },
        EditField::CaptureKind(i) => {
            assert(captures.contains(EditField::CaptureKind(i)) <==> i < edit.captures.len());
        },
        EditField::CaptureValue(i) => {
            assert(captures.contains(EditField::CaptureValue(i)) <==> i < edit.captures.len());
        },
    }
}

// ---------------------------------------------------------------------------
// Working on the form
// ---------------------------------------------------------------------------

fn make_assertion_rows(assertions: &Option<Assertions>) -> (rows: Vec<AssertionRow>)
    ensures
        assertion_rows_view(rows@) == assertion_rows_for(opt_assertions(*assertions)),
{
    let mut rows: Vec<AssertionRow> = Vec::new();
    if let Some(block) = assertions {
        let mut i: usize = 0;
        while i < block.json.len()
            invariant
                i <= block.json@.len(),
                rows@.len() == i,
                forall|j: int|
                    0 <= j < i ==> (#[trigger] rows@[j])@ == assertion_row_for(block.json@[j]@),
            decreases block.json@.len() - i,
        {
            let check = &block.json[i];
            rows.push(
                AssertionRow {
                    path: TextField::new(check.path.as_str()),
                    operator: check.operator,
                    value: TextField::new(check.value.as_str()),
                    negate: check.negate,
                    value_error: None,
                },
            );
            i = i + 1;
        }
    }
    assert(assertion_rows_view(rows@) =~= assertion_rows_for(opt_assertions(*assertions)));
    rows
}

fn make_capture_rows(captures: &Option<Vec<Capture>>) -> (rows: Vec<CaptureRow>)
    ensures
        capture_rows_view(rows@) == capture_rows_for(opt_captures(*captures)),
{
    let mut rows: Vec<CaptureRow> = Vec::new();
    if let Some(list) = captures {
        let mut i: usize = 0;
        while i < list.len()
            invariant
                i <= list@.len(),
                rows@.len() == i,
                forall|j: int|
                    0 <= j < i ==> (#[trigger] rows@[j])@ == capture_row_for(list@[j]@),
            decreases list@.len() - i,
        {
            let capture = &list[i];
            let (kind, value) = match &capture.source {
                CaptureSource::JsonPath(path) => (
                    CaptureKind::JsonPath,
                    TextField::new(path.as_str()),
                ),
                CaptureSource::Header { header } => (
                    CaptureKind::Header,
                    TextField::new(header.as_str()),
                ),
                CaptureSource::Status => (CaptureKind::Status, TextField::default()),
            };
            rows.push(CaptureRow { name: TextField::new(capture.name.as_str()), kind, value });
            i = i + 1;
        }
    }
    assert(capture_rows_view(rows@) =~= capture_rows_for(opt_captures(*captures)));
    rows
}

impl EditState {
    /// The form for a request, with nothing changed yet. `indented` is the
    /// request's JSON body over indented lines, where it has one.
    pub fn seeded(request: &Request, indented: Option<String>) -> (r: EditState)
        ensures
            r@ == form_for(request@, opt_text(indented)),
    {
        EditState {
            name: make_field(&request.name),
            method: TextField::new(request.method.as_str()),
            url: TextField::new(request.url.as_str()),
            headers: make_rows(&request.headers),
            body: BodyEdit::new(request, indented),
            auth: AuthEdit::new(&request.auth),
            assertions: make_assertion_rows(&request.assertions),
            captures: make_capture_rows(&request.capture),
            focus: EditField::Name,
            dirty: false,
            method_error: None,
            body_error: None,
            save_error: None,
        }
    }

    /// The form for a request, with nothing changed yet. A JSON body is shown
    /// over indented lines.
    pub fn new(request: &Request) -> (r: EditState)
        ensures
            r@ == form_for(request@, indented_body(request@)),
    {
        let indented = match &request.json {
            Some(json) => indent_json(json.as_str()),
            None => None,
        };
        EditState::seeded(request, indented)
    }

    /// Whether the body is a text that can be edited.
    pub fn has_editable_body(&self) -> (r: bool)
        ensures
            r == self@.has_editable_body(),
    {
        matches!(self.body, BodyEdit::Editable { .. })
    }

    /// The fields of the `auth:` block, in the order the focus visits them.
    pub fn auth_field_order(&self) -> (r: Vec<AuthField>)
        ensures
            r@ == auth_order(self@.auth),
    {
        self.auth.field_order()
    }

    /// Every field of the form, in the order the focus visits them.
    pub fn field_order(&self) -> (r: Vec<EditField>)
        ensures
            r@ == self@.fields(),
    {
        let mut r: Vec<EditField> = Vec::new();
        r.push(EditField::Name);
        r.push(EditField::Method);
        r.push(EditField::Url);
        let ghost base = r@;
        let mut i: usize = 0;
        assert(base + header_fields(0) =~= base);
        while i < self.headers.len()
            invariant
                i <= self.headers@.len(),
                r@ == base + header_fields(i as nat),
            decreases self.headers@.len() - i,
        {
            r.push(EditField::HeaderKey(i));
            r.push(EditField::HeaderValue(i));
            assert(r@ =~= base + header_fields((i + 1) as nat));
            i = i + 1;
        }
        if self.has_editable_body() {
            r.push(EditField::Body);
        }
        let auth = self.auth.field_order();
        let ghost base = r@;
        let mut i: usize = 0;
        assert(base + auth_fields(auth@.take(0)) =~= base);
        while i < auth.len()
            invariant
                i <= auth@.len(),
                r@ == base + auth_fields(auth@.take(i as int)),
            decreases auth@.len() - i,
        {
            r.push(EditField::Auth(auth[i]));
            assert(r@ =~= base + auth_fields(auth@.take(i + 1)));
            i = i + 1;
        }
        assert(auth@.take(auth@.len() as int) =~= auth@);
        let ghost base = r@;
        let mut i: usize = 0;
        assert(base + assertion_fields(0) =~= base);
        while i < self.assertions.len()
            invariant
                i <= self.assertions@.len(),
                r@ == base + assertion_fields(i as nat),
            decreases self.assertions@.len() - i,
        {
            r.push(EditField::AssertionPath(i));
            r.push(EditField::AssertionOperator(i));
            r.push(EditField::AssertionValue(i));
            r.push(EditField::AssertionNegate(i));
            assert(r@ =~= base + assertion_fields((i + 1) as nat));
            i = i + 1;
        }
        let ghost base = r@;
        let mut i: usize = 0;
        assert(base + capture_fields(0) =~= base);
        while i < self.captures.len()
            invariant
                i <= self.captures@.len(),
                r@ == base + capture_fields(i as nat),
            decreases self.captures@.len() - i,
        {
            r.push(EditField::CaptureName(i));
            r.push(EditField::CaptureKind(i));
            r.push(EditField::CaptureValue(i));
            assert(r@ =~= base + capture_fields((i + 1) as nat));
            i = i + 1;
        }
        assert(r@ =~= self@.fields());
        r
    }

    /// Where the focus is in `order`, or its length where it is not there.
    fn focus_position(&self, order: &Vec<EditField>) -> (i: usize)
        requires
            order@.no_duplicates(),
        ensures
            i < order@.len() ==> order@.contains(self.focus) && i == order@.index_of(self.focus),
            i >= order@.len() ==> i == order@.len() && !order@.contains(self.focus),
    {
        let mut i: usize = 0;
        while i < order.len()
            invariant
                i <= order@.len(),
                order@.no_duplicates(),
                forall|j: int| 0 <= j < i ==> order@[j] != self.focus,
            decreases order@.len() - i,
        {
            if order[i] == self.focus {
                assert(order@[i as int] == self.focus);
                return i;
            }
            i = i + 1;
        }
        i
    }

    /// Moves the focus to the field behind the present one.
    pub fn focus_next(&mut self)
        ensures
            final(self)@ == old(self)@.focused_next(),
    {
        let order = self.field_order();
        let rows: (usize, usize, usize) = (
            self.headers.len(),
            self.assertions.len(),
            self.captures.len(),
        );
        assert(self@.countable());
        proof {
            lemma_fields_distinct(self@);
        }
        let i = self.focus_position(&order);
        let n: usize = order.len();
        self.focus = if i < n {
            if i + 1 < n {
                assert((i + 1) % (n as int) == i + 1) by {
                    vstd::arithmetic::div_mod::lemma_small_mod((i + 1) as nat, n as nat);
                }
                order[i + 1]
            } else {
                assert((i + 1) % (n as int) == 0) by {
                    vstd::arithmetic::div_mod::lemma_mod_self_0(n as int);
                }
                order[0]
            }
        } else {
            EditField::Name
        };
    }

    /// Moves the focus to the field before the present one.
    pub fn focus_prev(&mut self)
        ensures
            final(self)@ == old(self)@.focused_prev(),
    {
        let order = self.field_order();
        let rows: (usize, usize, usize) = (
            self.headers.len(),
            self.assertions.len(),
            self.captures.len(),
        );
        assert(self@.countable());
        proof {
            lemma_fields_distinct(self@);
        }
        let i = self.focus_position(&order);
        let n: usize = order.len();
        self.focus = if i < n {
            if i > 0 {
                assert((i + n - 1) % (n as int) == i - 1) by {
                    vstd::arithmetic::div_mod::lemma_mod_add_multiples_vanish(
                        i - 1,
                        n as int,
                    );
                    vstd::arithmetic::div_mod::lemma_small_mod((i - 1) as nat, n as nat);
                }
                order[i - 1]
            } else {
                assert((i + n - 1) % (n as int) == n - 1) by {
                    vstd::arithmetic::div_mod::lemma_small_mod((n - 1) as nat, n as nat);
                }
                order[n - 1]
            }
        } else {
            EditField::Name
        };
    }

    /// The text field that has the focus, where one has it, to be changed.
    pub fn focused_field_mut(&mut self) -> (r: Option<&mut TextField>)
        ensures
            match r {
                Some(t) => {
                    &&& old(self)@.field_at(old(self)@.focus) == Some(t@)
                    &&& final(self)@ == old(self)@.with_field(old(self)@.focus, final(t)@)
                },
                None => {
                    &&& old(self)@.field_at(old(self)@.focus) is None
                    &&& final(self)@ == old(self)@
                },
            },
    {
        match self.focus {
            EditField::Name => Some(&mut self.name),
            EditField::Method => Some(&mut self.method),
            EditField::Url => Some(&mut self.url),
            EditField::HeaderKey(i) => if i < self.headers.len() {
                Some(&mut self.headers[i].key)
            } else {
                None
            },
            EditField::HeaderValue(i) => if i < self.headers.len() {
                Some(&mut self.headers[i].value)
            } else {
                None
            },
            EditField::Body => match &mut self.body {
                BodyEdit::Editable { text, .. } => Some(text),
                BodyEdit::Unsupported { .. } => None,
            },
            EditField::Auth(f) => self.auth.field_mut(f),
            EditField::AssertionPath(i) => if i < self.assertions.len() {
                Some(&mut self.assertions[i].path)
            } else {
                None
            },
            EditField::AssertionValue(i) => if i < self.assertions.len() {
                Some(&mut self.assertions[i].value)
            } else {
                None
            },
            EditField::CaptureName(i) => if i < self.captures.len() {
                Some(&mut self.captures[i].name)
            } else {
                None
            },
            EditField::CaptureValue(i) => if i < self.captures.len() {
                Some(&mut self.captures[i].value)
            } else {
                None
            },
            EditField::AssertionOperator(_) | EditField::AssertionNegate(_)
            | EditField::CaptureKind(_) => None,
        }
    }
}

impl EditState {
    /// Turns the fixed choice that has the focus, forward or back. Says
    /// whether there was one.
    pub fn toggle_focused(&mut self, forward: bool) -> (r: bool)
        ensures
            r == (old(self)@.turned(forward) is Some),
            final(self)@ == match old(self)@.turned(forward) {
                Some(edit) => edit,
                None => old(self)@,
            },
    {
        match self.focus {
            EditField::Auth(AuthField::ApiKeyLocation) => {
                if let AuthEdit::ApiKey { location, .. } = &mut self.auth {
                    *location = match *location {
                        ApiKeyLocation::Header => ApiKeyLocation::Query,
                        ApiKeyLocation::Query => ApiKeyLocation::Header,
                    };
                    true
                } else {
                    false
                }
            },
            EditField::Auth(AuthField::OAuthGrantType) => {
                if let AuthEdit::OAuth(o) = &mut self.auth {
                    o.grant_type = match (o.grant_type, forward) {
                        (OAuthGrantType::ClientCredentials, true) => OAuthGrantType::Password,
                        (OAuthGrantType::Password, true) => OAuthGrantType::AuthorizationCode,
                        (
                            OAuthGrantType::AuthorizationCode,
                            true,
                        ) => OAuthGrantType::ClientCredentials,
                        (
                            OAuthGrantType::ClientCredentials,
                            false,
                        ) => OAuthGrantType::AuthorizationCode,
                        (OAuthGrantType::Password, false) => OAuthGrantType::ClientCredentials,
                        (OAuthGrantType::AuthorizationCode, false) => OAuthGrantType::Password,
                    };
                    true
                } else {
                    false
                }
            },
            EditField::AssertionOperator(i) => {
                if i < self.assertions.len() {
                    let operator = self.assertions[i].operator.turned(forward);
                    self.assertions[i].operator = operator;
                    true
                } else {
                    false
                }
            },
            EditField::AssertionNegate(i) => {
                if i < self.assertions.len() {
                    let negate = !self.assertions[i].negate;
                    self.assertions[i].negate = negate;
                    true
                } else {
                    false
                }
            },
            EditField::CaptureKind(i) => {
                if i < self.captures.len() {
                    let kind = self.captures[i].kind.turned(forward);
                    self.captures[i].kind = kind;
                    true
                } else {
                    false
                }
            },
            _ => false,
        }
    }

    /// Adds an empty header row and gives it the focus.
    pub fn add_header_row(&mut self)
        ensures
            final(self)@ == old(self)@.header_added(),
    {
        self.focus = EditField::HeaderKey(self.headers.len());
        self.headers.push(HeaderRow { key: TextField::default(), value: TextField::default() });
        assert(rows_view(self.headers@) =~= rows_view(old(self).headers@).push(blank_row()));
    }

    /// Deletes the header row that has the focus.
    pub fn delete_focused_header_row(&mut self)
        ensures
            final(self)@ == old(self)@.header_deleted(),
    {
        match self.focus {
            EditField::HeaderKey(i) | EditField::HeaderValue(i) => {
                if i < self.headers.len() {
                    self.headers.remove(i);
                    assert(rows_view(self.headers@) =~= rows_view(old(self).headers@).remove(
                        i as int,
                    ));
                    self.focus = if self.headers.len() == 0 {
                        EditField::Url
                    } else {
                        EditField::HeaderKey(previous_row(i))
                    };
                }
            },
            _ => {},
        }
    }

    /// Adds an empty assertion row and gives it the focus.
    pub fn add_assertion_row(&mut self)
        ensures
            final(self)@ == old(self)@.assertion_added(),
    {
        self.focus = EditField::AssertionPath(self.assertions.len());
        self.assertions.push(
            AssertionRow {
                path: TextField::default(),
                operator: JsonOperator::Equals,
                value: TextField::default(),
                negate: false,
                value_error: None,
            },
        );
        assert(assertion_rows_view(self.assertions@) =~= assertion_rows_view(
            old(self).assertions@,
        ).push(blank_assertion_row()));
    }

    /// Deletes the assertion row that has the focus.
    pub fn delete_focused_assertion_row(&mut self)
        ensures
            final(self)@ == old(self)@.assertion_deleted(),
    {
        match self.focus {
            EditField::AssertionPath(i) | EditField::AssertionOperator(i)
            | EditField::AssertionValue(i) | EditField::AssertionNegate(i) => {
                if i < self.assertions.len() {
                    self.assertions.remove(i);
                    assert(assertion_rows_view(self.assertions@) =~= assertion_rows_view(
                        old(self).assertions@,
                    ).remove(i as int));
                    self.focus = if self.assertions.len() == 0 {
                        EditField::Name
                    } else {
                        EditField::AssertionPath(previous_row(i))
                    };
                }
            },
            _ => {},
        }
    }

    /// Adds an empty capture row and gives it the focus.
    pub fn add_capture_row(&mut self)
        ensures
            final(self)@ == old(self)@.capture_added(),
    {
        self.focus = EditField::CaptureName(self.captures.len());
        self.captures.push(
            CaptureRow {
                name: TextField::default(),
                kind: CaptureKind::JsonPath,
                value: TextField::default(),
            },
        );
        assert(capture_rows_view(self.captures@) =~= capture_rows_view(old(self).captures@).push(
            blank_capture_row(),
        ));
    }

    /// Deletes the capture row that has the focus.
    pub fn delete_focused_capture_row(&mut self)
        ensures
            final(self)@ == old(self)@.capture_deleted(),
    {
        match self.focus {
            EditField::CaptureName(i) | EditField::CaptureKind(i)
            | EditField::CaptureValue(i) => {
                if i < self.captures.len() {
                    self.captures.remove(i);
                    assert(capture_rows_view(self.captures@) =~= capture_rows_view(
                        old(self).captures@,
                    ).remove(i as int));
                    self.focus = if self.captures.len() == 0 {
                        EditField::Name
                    } else {
                        EditField::CaptureName(previous_row(i))
                    };
                }
            },
            _ => {},
        }
    }

    /// Makes one change to the rows of the form.
    pub fn change_rows(&mut self, change: RowChange)
        ensures
            final(self)@ == old(self)@.rows_changed(change),
    {
        match change {
            RowChange::AddHeader => self.add_header_row(),
            RowChange::DeleteHeader => self.delete_focused_header_row(),
            RowChange::AddAssertion => self.add_assertion_row(),
            RowChange::DeleteAssertion => self.delete_focused_assertion_row(),
            RowChange::AddCapture => self.add_capture_row(),
            RowChange::DeleteCapture => self.delete_focused_capture_row(),
        }
    }

    /// Notes why the value of assertion row `index` is no YAML value, or that
    /// it is one.
    pub fn set_value_error(&mut self, index: usize, problem: Option<String>)
        requires
            index < old(self)@.assertions.len(),
        ensures
            final(self)@ == (EditModel {
                assertions: old(self)@.assertions.update(
                    index as int,
                    AssertionRowModel {
                        value_error: opt_text(problem),
                        ..old(self)@.assertions[index as int]
                    },
                ),
                ..old(self)@
            }),
    {
        self.assertions[index].value_error = problem;
    }

    /// The `assertions:` block that the form describes. Checks that the form
    /// does not show are kept as they were.
    pub fn to_assertions(&self, existing: &Option<Assertions>) -> (r: Option<Assertions>)
        ensures
            opt_assertions(r) == self@.assertions_of(opt_assertions(*existing)),
    {
        let others = match existing {
            Some(block) => copy_texts(&block.others),
            None => Vec::new(),
        };
        let ghost kept = match opt_assertions(*existing) {
            Some(a) => a.others,
            None => Seq::empty(),
        };
        assert(texts(others@) =~= kept);
        let mut json: Vec<JsonAssertion> = Vec::new();
        let mut i: usize = 0;
        while i < self.assertions.len()
            invariant
                i <= self.assertions@.len(),
                json@.len() == i,
                forall|j: int| 0 <= j < i ==> (#[trigger] json@[j])@ == check_of(self.assertions@[j]@),
            decreases self.assertions@.len() - i,
        {
            let row = &self.assertions[i];
            json.push(
                JsonAssertion {
                    path: row.path.value().to_owned(),
                    operator: row.operator,
                    value: row.value.value().to_owned(),
                    negate: row.negate,
                },
            );
            i = i + 1;
        }
        if json.len() == 0 && others.len() == 0 {
            None
        } else {
            let ghost wanted = Seq::new(
                self@.assertions.len(),
                |k: int| check_of(self@.assertions[k]),
            );
            assert(checks_view(json@) =~= wanted);
            Some(Assertions { json, others })
        }
    }

    /// The `capture:` block that the form describes.
    pub fn to_captures(&self) -> (r: Option<Vec<Capture>>)
        ensures
            opt_captures(r) == self@.captures_of(),
    {
        if self.captures.len() == 0 {
            return None;
        }
        let mut list: Vec<Capture> = Vec::new();
        let mut i: usize = 0;
        while i < self.captures.len()
            invariant
                i <= self.captures@.len(),
                list@.len() == i,
                forall|j: int| 0 <= j < i ==> (#[trigger] list@[j])@ == capture_of(self.captures@[j]@),
            decreases self.captures@.len() - i,
        {
            let row = &self.captures[i];
            let source = match row.kind {
                CaptureKind::JsonPath => CaptureSource::JsonPath(row.value.value().to_owned()),
                CaptureKind::Header => CaptureSource::Header {
                    header: row.value.value().to_owned(),
                },
                CaptureKind::Status => CaptureSource::Status,
            };
            list.push(Capture { name: row.name.value().to_owned(), source });
            i = i + 1;
        }
        let ghost wanted = Seq::new(self@.captures.len(), |k: int| capture_of(self@.captures[k]));
        assert(captures_view(list@) =~= wanted);
        Some(list)
    }
}

fn previous_row(i: usize) -> (r: usize)
    ensures
        r == row_before(i),
{
    if i == 0 {
        0
    } else {
        i - 1
    }
}

// ---------------------------------------------------------------------------
// Laws
// ---------------------------------------------------------------------------

/// Moving the focus on and back again returns it to where it was, and so does
/// moving it back and on again.
pub proof fn law_focus_moves_are_inverse(edit: EditModel)
    requires
        edit.countable(),
        edit.focus_valid(),
    ensures
        edit.focused_next().focused_prev() == edit,
        edit.focused_prev().focused_next() == edit,
{
    lemma_fields_distinct(edit);
    lemma_focus_valid(edit);
    let s = edit.fields();
    let n = s.len() as int;
    let i = s.index_of(edit.focus);
    let next = edit.focused_next();
    let prev = edit.focused_prev();
    assert(next.fields() == s);
    assert(prev.fields() == s);
    lemma_wrap(i, n);
    let a = (i + 1) % n;
    let b = (i + n - 1) % n;
    assert(s[a] == next.focus);
    assert(s.contains(next.focus));
    assert(s.index_of(next.focus) == a);
    assert(s[b] == prev.focus);
    assert(s.contains(prev.focus));
    assert(s.index_of(prev.focus) == b);
}

/// Going one on and one back in a circle of `n`, in either order, ends where
/// it began.
pub proof fn lemma_wrap(i: int, n: int)
    requires
        0 <= i < n,
    ensures
        0 <= (i + 1) % n < n,
        0 <= (i + n - 1) % n < n,
        ((i + 1) % n + n - 1) % n == i,
        ((i + n - 1) % n + 1) % n == i,
{
    if i + 1 < n {
        vstd::arithmetic::div_mod::lemma_small_mod((i + 1) as nat, n as nat);
        vstd::arithmetic::div_mod::lemma_mod_add_multiples_vanish(i, n);
        vstd::arithmetic::div_mod::lemma_small_mod(i as nat, n as nat);
    } else {
        vstd::arithmetic::div_mod::lemma_mod_self_0(n);
        vstd::arithmetic::div_mod::lemma_small_mod((n - 1) as nat, n as nat);
    }
    if i > 0 {
        vstd::arithmetic::div_mod::lemma_mod_add_multiples_vanish(i - 1, n);
        vstd::arithmetic::div_mod::lemma_small_mod((i - 1) as nat, n as nat);
        vstd::arithmetic::div_mod::lemma_small_mod(i as nat, n as nat);
    } else {
        vstd::arithmetic::div_mod::lemma_small_mod((n - 1) as nat, n as nat);
        vstd::arithmetic::div_mod::lemma_mod_self_0(n);
    }
}

/// A form that was just opened has its focus on a field it has.
pub proof fn law_new_form_has_valid_focus(request: RequestModel, indented: Option<Seq<char>>)
    ensures
        form_for(request, indented).focus_valid(),
{
}

/// Moving the focus keeps it on a field that the form has.
pub proof fn law_focus_moves_stay_valid(edit: EditModel)
    requires
        edit.countable(),
    ensures
        edit.focused_next().focus_valid(),
        edit.focused_prev().focus_valid(),
{
    lemma_fields_distinct(edit);
    let s = edit.fields();
    let next = edit.focused_next();
    let prev = edit.focused_prev();
    if s.contains(edit.focus) {
        lemma_wrap(s.index_of(edit.focus), s.len() as int);
    }
    assert(s[0] == EditField::Name);
    assert(s.contains(next.focus));
    assert(s.contains(prev.focus));
    assert(next.fields() == s);
    assert(prev.fields() == s);
    lemma_focus_valid(next);
    lemma_focus_valid(prev);
}

/// Adding and deleting rows keeps the focus on a field that the form has.
pub proof fn law_row_changes_keep_focus_valid(edit: EditModel, change: RowChange)
    requires
        edit.focus_valid(),
        edit.headers.len() < usize::MAX,
        edit.assertions.len() < usize::MAX,
        edit.captures.len() < usize::MAX,
    ensures
        edit.rows_changed(change).focus_valid(),
{
}

/// Changing the text at the focus, or turning the choice at it, keeps the
/// focus on a field that the form has.
pub proof fn law_edits_keep_focus_valid(edit: EditModel, t: TextFieldModel, forward: bool)
    requires
        edit.focus_valid(),
    ensures
        edit.with_field(edit.focus, t).focus_valid(),
        edit.turned(forward) is Some ==> edit.turned(forward)->0.focus_valid(),
{
    if let EditField::Auth(f) = edit.focus {
        let order = auth_order(edit.auth);
        assert(auth_order(auth_with_field(edit.auth, f, t)) == order);
        if let Some(turned) = auth_turned(edit.auth, f, forward) {
            assert(auth_order(turned)[order.index_of(f)] == f || f == AuthField::OAuthGrantType);
            assert(f == AuthField::OAuthGrantType ==> auth_order(turned)[0] == f);
        }
    }
}

/// Turning a choice forward and back again leaves the form as it was.
pub proof fn law_turns_are_inverse(edit: EditModel, forward: bool)
    requires
        edit.turned(forward) is Some,
    ensures
        edit.turned(forward)->0.turned(!forward) == Some(edit),
{
    let there = edit.turned(forward)->0;
    let back = there.turned(!forward);
    assert(back is Some);
    match edit.focus {
        EditField::AssertionOperator(i) | EditField::AssertionNegate(i) => {
            assert(back->0.assertions =~= edit.assertions);
        },
        EditField::CaptureKind(i) => {
            assert(back->0.captures =~= edit.captures);
        },
        _ => {},
    }
    assert(back->0 =~= edit);
}

} // verus!
