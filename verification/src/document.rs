//! Requests, the documents that hold them, and the environments they are
//! resolved against, as plain values.
use vstd::prelude::*;

use crate::text::{
    copy_opt, copy_pairs, copy_texts, decimal, lower, opt_text, pairs_view, same_ignoring_case,
    texts,
};

verus! {

broadcast use vstd::string::group_string_axioms;

// ---------------------------------------------------------------------------
// Methods
// ---------------------------------------------------------------------------

/// An HTTP method.
#[derive(Clone, Copy, Debug, PartialEq, Eq, Structural)]
pub enum Method {
    Get,
    Post,
    Put,
    Patch,
    Delete,
    Head,
    Options,
}

impl Method {
    /// The method as it is written on a request line.
    pub open spec fn text(self) -> Seq<char> {
        match self {
            Method::Get => "GET"@,
            Method::Post => "POST"@,
            Method::Put => "PUT"@,
            Method::Patch => "PATCH"@,
            Method::Delete => "DELETE"@,
            Method::Head => "HEAD"@,
            Method::Options => "OPTIONS"@,
        }
    }

    /// The method as it is written on a request line.
    pub fn as_str(self) -> (r: &'static str)
        ensures
            r@ == self.text(),
    {
        match self {
            Method::Get => "GET",
            Method::Post => "POST",
            Method::Put => "PUT",
            Method::Patch => "PATCH",
            Method::Delete => "DELETE",
            Method::Head => "HEAD",
            Method::Options => "OPTIONS",
        }
    }
}

/// Whether `text` spells `method`, in capital or small letters.
pub open spec fn spells(text: Seq<char>, method: Method) -> bool {
    lower(text) == lower(method.text())
}

/// The method that `text` spells, if it spells one.
pub open spec fn method_named(text: Seq<char>) -> Option<Method> {
    if spells(text, Method::Get) {
        Some(Method::Get)
    } else if spells(text, Method::Post) {
        Some(Method::Post)
    } else if spells(text, Method::Put) {
        Some(Method::Put)
    } else if spells(text, Method::Patch) {
        Some(Method::Patch)
    } else if spells(text, Method::Delete) {
        Some(Method::Delete)
    } else if spells(text, Method::Head) {
        Some(Method::Head)
    } else if spells(text, Method::Options) {
        Some(Method::Options)
    } else {
        None
    }
}

/// What is said of a text that spells no method.
pub open spec fn bad_method_text(text: Seq<char>) -> Seq<char> {
    "'"@ + text + "' is not a valid HTTP method"@
}

/// The method that `text` spells, or what is wrong with it.
pub fn validate_method_text(text: &str) -> (r: Result<Method, String>)
    ensures
        match method_named(text@) {
            Some(method) => r == Ok::<Method, String>(method),
            None => r is Err && r->Err_0@ == bad_method_text(text@),
        },
{
    if same_ignoring_case(text, Method::Get.as_str()) {
        Ok(Method::Get)
    } else if same_ignoring_case(text, Method::Post.as_str()) {
        Ok(Method::Post)
    } else if same_ignoring_case(text, Method::Put.as_str()) {
        Ok(Method::Put)
    } else if same_ignoring_case(text, Method::Patch.as_str()) {
        Ok(Method::Patch)
    } else if same_ignoring_case(text, Method::Delete.as_str()) {
        Ok(Method::Delete)
    } else if same_ignoring_case(text, Method::Head.as_str()) {
        Ok(Method::Head)
    } else if same_ignoring_case(text, Method::Options.as_str()) {
        Ok(Method::Options)
    } else {
        let mut message = "'".to_owned();
        message.append(text);
        message.append("' is not a valid HTTP method");
        Err(message)
    }
}

/// A method's own text spells that method and no other.
pub proof fn lemma_method_named_text(method: Method)
    ensures
        method_named(method.text()) == Some(method),
{
    reveal_strlit("GET");
    reveal_strlit("POST");
    reveal_strlit("PUT");
    reveal_strlit("PATCH");
    reveal_strlit("DELETE");
    reveal_strlit("HEAD");
    reveal_strlit("OPTIONS");
    assert(lower("GET"@)[0] == 'g');
    assert(lower("POST"@)[0] == 'p' && lower("POST"@)[1] == 'o');
    assert(lower("PUT"@)[0] == 'p' && lower("PUT"@)[1] == 'u');
    assert(lower("PATCH"@)[0] == 'p' && lower("PATCH"@)[1] == 'a');
    assert(lower("DELETE"@)[0] == 'd');
    assert(lower("HEAD"@)[0] == 'h');
    assert(lower("OPTIONS"@)[0] == 'o');
}

// ---------------------------------------------------------------------------
// Authentication
// ---------------------------------------------------------------------------

/// Where an API key is sent.
#[derive(Clone, Copy, Debug, PartialEq, Eq, Structural)]
pub enum ApiKeyLocation {
    Header,
    Query,
}

/// How an OAuth token is asked for.
#[derive(Clone, Copy, Debug, PartialEq, Eq, Structural)]
pub enum OAuthGrantType {
    ClientCredentials,
    Password,
    AuthorizationCode,
}

/// A user and a password.
#[derive(Debug, PartialEq, Eq)]
pub struct BasicAuth {
    pub user: String,
    pub pass: String,
}

pub struct BasicAuthModel {
    pub user: Seq<char>,
    pub pass: Seq<char>,
}

impl View for BasicAuth {
    type V = BasicAuthModel;

    open spec fn view(&self) -> BasicAuthModel {
        BasicAuthModel { user: self.user@, pass: self.pass@ }
    }
}

impl Clone for BasicAuth {
    fn clone(&self) -> (r: Self)
        ensures
            r@ == self@,
    {
        BasicAuth { user: self.user.clone(), pass: self.pass.clone() }
    }
}

/// A named key, sent as a header or in the query string.
#[derive(Debug, PartialEq, Eq)]
pub struct ApiKeyAuth {
    pub location: ApiKeyLocation,
    pub name: String,
    pub value: String,
}

pub struct ApiKeyAuthModel {
    pub location: ApiKeyLocation,
    pub name: Seq<char>,
    pub value: Seq<char>,
}

impl View for ApiKeyAuth {
    type V = ApiKeyAuthModel;

    open spec fn view(&self) -> ApiKeyAuthModel {
        ApiKeyAuthModel { location: self.location, name: self.name@, value: self.value@ }
    }
}

impl Clone for ApiKeyAuth {
    fn clone(&self) -> (r: Self)
        ensures
            r@ == self@,
    {
        ApiKeyAuth {
            location: self.location,
            name: self.name.clone(),
            value: self.value.clone(),
        }
    }
}

/// What an OAuth token is asked for with.
#[derive(Debug, PartialEq, Eq)]
pub struct OAuthAuth {
    pub grant_type: OAuthGrantType,
    pub token_url: String,
    pub client_id: String,
    pub client_secret: String,
    pub scope: Option<String>,
    pub username: Option<String>,
    pub password: Option<String>,
    pub authorization_url: Option<String>,
    pub redirect_uri: Option<String>,
}

pub struct OAuthAuthModel {
    pub grant_type: OAuthGrantType,
    pub token_url: Seq<char>,
    pub client_id: Seq<char>,
    pub client_secret: Seq<char>,
    pub scope: Option<Seq<char>>,
    pub username: Option<Seq<char>>,
    pub password: Option<Seq<char>>,
    pub authorization_url: Option<Seq<char>>,
    pub redirect_uri: Option<Seq<char>>,
}

impl View for OAuthAuth {
    type V = OAuthAuthModel;

    open spec fn view(&self) -> OAuthAuthModel {
        OAuthAuthModel {
            grant_type: self.grant_type,
            token_url: self.token_url@,
            client_id: self.client_id@,
            client_secret: self.client_secret@,
            scope: opt_text(self.scope),
            username: opt_text(self.username),
            password: opt_text(self.password),
            authorization_url: opt_text(self.authorization_url),
            redirect_uri: opt_text(self.redirect_uri),
        }
    }
}

impl Clone for OAuthAuth {
    fn clone(&self) -> (r: Self)
        ensures
            r@ == self@,
    {
        OAuthAuth {
            grant_type: self.grant_type,
            token_url: self.token_url.clone(),
            client_id: self.client_id.clone(),
            client_secret: self.client_secret.clone(),
            scope: copy_opt(&self.scope),
            username: copy_opt(&self.username),
            password: copy_opt(&self.password),
            authorization_url: copy_opt(&self.authorization_url),
            redirect_uri: copy_opt(&self.redirect_uri),
        }
    }
}

/// A request's `auth:` block: at most one of its kinds is set.
#[derive(Debug, PartialEq, Eq)]
pub struct Auth {
    pub bearer: Option<String>,
    pub basic: Option<BasicAuth>,
    pub api_key: Option<ApiKeyAuth>,
    pub oauth: Option<OAuthAuth>,
}

pub struct AuthModel {
    pub bearer: Option<Seq<char>>,
    pub basic: Option<BasicAuthModel>,
    pub api_key: Option<ApiKeyAuthModel>,
    pub oauth: Option<OAuthAuthModel>,
}

impl View for Auth {
    type V = AuthModel;

    open spec fn view(&self) -> AuthModel {
        AuthModel {
            bearer: opt_text(self.bearer),
            basic: match self.basic {
                Some(b) => Some(b@),
                None => None,
            },
            api_key: match self.api_key {
                Some(k) => Some(k@),
                None => None,
            },
            oauth: match self.oauth {
                Some(o) => Some(o@),
                None => None,
            },
        }
    }
}

impl Clone for Auth {
    fn clone(&self) -> (r: Self)
        ensures
            r@ == self@,
    {
        let basic = match &self.basic {
            Some(b) => Some(b.clone()),
            None => None,
        };
        let api_key = match &self.api_key {
            Some(k) => Some(k.clone()),
            None => None,
        };
        let oauth = match &self.oauth {
            Some(o) => Some(o.clone()),
            None => None,
        };
        Auth { bearer: copy_opt(&self.bearer), basic, api_key, oauth }
    }
}

/// The value of an optional `auth:` block.
pub open spec fn opt_auth(o: Option<Auth>) -> Option<AuthModel> {
    match o {
        Some(a) => Some(a@),
        None => None,
    }
}

/// A copy of an optional `auth:` block.
pub fn copy_auth(o: &Option<Auth>) -> (r: Option<Auth>)
    ensures
        opt_auth(r) == opt_auth(*o),
{
    match o {
        Some(a) => Some(a.clone()),
        None => None,
    }
}

// ---------------------------------------------------------------------------
// Assertions and captures
// ---------------------------------------------------------------------------

/// How an assertion on a JSON path compares the value it finds.
#[derive(Clone, Copy, Debug, PartialEq, Eq, Structural)]
pub enum JsonOperator {
    Equals,
    GreaterThan,
    LessThan,
}

impl JsonOperator {
    /// The operator's name.
    pub open spec fn text(self) -> Seq<char> {
        match self {
            JsonOperator::Equals => "equals"@,
            JsonOperator::GreaterThan => "greater_than"@,
            JsonOperator::LessThan => "less_than"@,
        }
    }

    /// The operator's name.
    pub fn label(self) -> (r: &'static str)
        ensures
            r@ == self.text(),
    {
        match self {
            JsonOperator::Equals => "equals",
            JsonOperator::GreaterThan => "greater_than",
            JsonOperator::LessThan => "less_than",
        }
    }

    /// The operator that follows, the first one after the last.
    pub open spec fn after(self) -> JsonOperator {
        match self {
            JsonOperator::Equals => JsonOperator::GreaterThan,
            JsonOperator::GreaterThan => JsonOperator::LessThan,
            JsonOperator::LessThan => JsonOperator::Equals,
        }
    }

    /// The operator that precedes, the last one before the first.
    pub open spec fn before(self) -> JsonOperator {
        match self {
            JsonOperator::Equals => JsonOperator::LessThan,
            JsonOperator::GreaterThan => JsonOperator::Equals,
            JsonOperator::LessThan => JsonOperator::GreaterThan,
        }
    }

    /// The operator that follows (`forward`) or precedes.
    pub fn turned(self, forward: bool) -> (r: JsonOperator)
        ensures
            r == if forward { self.after() } else { self.before() },
    {
        if forward {
            match self {
                JsonOperator::Equals => JsonOperator::GreaterThan,
                JsonOperator::GreaterThan => JsonOperator::LessThan,
                JsonOperator::LessThan => JsonOperator::Equals,
            }
        } else {
            match self {
                JsonOperator::Equals => JsonOperator::LessThan,
                JsonOperator::GreaterThan => JsonOperator::Equals,
                JsonOperator::LessThan => JsonOperator::GreaterThan,
            }
        }
    }
}

/// One check on the value at a JSON path of the response body.
#[derive(Debug, PartialEq, Eq)]
pub struct JsonAssertion {
    pub path: String,
    pub operator: JsonOperator,
    /// The expected value, as the YAML text it is written as.
    pub value: String,
    pub negate: bool,
}

pub struct JsonAssertionModel {
    pub path: Seq<char>,
    pub operator: JsonOperator,
    pub value: Seq<char>,
    pub negate: bool,
}

impl View for JsonAssertion {
    type V = JsonAssertionModel;

    open spec fn view(&self) -> JsonAssertionModel {
        JsonAssertionModel {
            path: self.path@,
            operator: self.operator,
            value: self.value@,
            negate: self.negate,
        }
    }
}

impl Clone for JsonAssertion {
    fn clone(&self) -> (r: Self)
        ensures
            r@ == self@,
    {
        JsonAssertion {
            path: self.path.clone(),
            operator: self.operator,
            value: self.value.clone(),
            negate: self.negate,
        }
    }
}

/// A request's `assertions:` block.
#[derive(Debug, PartialEq, Eq)]
pub struct Assertions {
    /// The checks on JSON paths.
    pub json: Vec<JsonAssertion>,
    /// Every other check of the block, as the text it is written as.
    pub others: Vec<String>,
}

pub struct AssertionsModel {
    pub json: Seq<JsonAssertionModel>,
    pub others: Seq<Seq<char>>,
}

/// A list of checks by value.
pub open spec fn checks_view(v: Seq<JsonAssertion>) -> Seq<JsonAssertionModel> {
    Seq::new(v.len(), |i: int| v[i]@)
}

impl View for Assertions {
    type V = AssertionsModel;

    open spec fn view(&self) -> AssertionsModel {
        AssertionsModel { json: checks_view(self.json@), others: texts(self.others@) }
    }
}

impl Clone for Assertions {
    fn clone(&self) -> (r: Self)
        ensures
            r@ == self@,
    {
        let mut json: Vec<JsonAssertion> = Vec::new();
        let mut i: usize = 0;
        while i < self.json.len()
            invariant
                i <= self.json@.len(),
                json@.len() == i,
                forall|j: int| 0 <= j < i ==> json@[j]@ == self.json@[j]@,
            decreases self.json@.len() - i,
        {
            json.push(self.json[i].clone());
            i = i + 1;
        }
        assert(checks_view(json@) =~= checks_view(self.json@));
        Assertions { json, others: copy_texts(&self.others) }
    }
}

/// Where a captured value is read from.
#[derive(Clone, Copy, Debug, PartialEq, Eq, Structural)]
pub enum CaptureKind {
    JsonPath,
    Header,
    Status,
}

impl CaptureKind {
    /// The kind's name.
    pub open spec fn text(self) -> Seq<char> {
        match self {
            CaptureKind::JsonPath => "json path"@,
            CaptureKind::Header => "header"@,
            CaptureKind::Status => "status"@,
        }
    }

    /// The kind's name.
    pub fn label(self) -> (r: &'static str)
        ensures
            r@ == self.text(),
    {
        match self {
            CaptureKind::JsonPath => "json path",
            CaptureKind::Header => "header",
            CaptureKind::Status => "status",
        }
    }

    /// The kind that follows, the first one after the last.
    pub open spec fn after(self) -> CaptureKind {
        match self {
            CaptureKind::JsonPath => CaptureKind::Header,
            CaptureKind::Header => CaptureKind::Status,
            CaptureKind::Status => CaptureKind::JsonPath,
        }
    }

    /// The kind that precedes, the last one before the first.
    pub open spec fn before(self) -> CaptureKind {
        match self {
            CaptureKind::JsonPath => CaptureKind::Status,
            CaptureKind::Header => CaptureKind::JsonPath,
            CaptureKind::Status => CaptureKind::Header,
        }
    }

    /// The kind that follows (`forward`) or precedes.
    pub fn turned(self, forward: bool) -> (r: CaptureKind)
        ensures
            r == if forward { self.after() } else { self.before() },
    {
        if forward {
            match self {
                CaptureKind::JsonPath => CaptureKind::Header,
                CaptureKind::Header => CaptureKind::Status,
                CaptureKind::Status => CaptureKind::JsonPath,
            }
        } else {
            match self {
                CaptureKind::JsonPath => CaptureKind::Status,
                CaptureKind::Header => CaptureKind::JsonPath,
                CaptureKind::Status => CaptureKind::Header,
            }
        }
    }
}

/// What one captured variable is read from.
#[derive(Debug, PartialEq, Eq)]
pub enum CaptureSource {
    JsonPath(String),
    Header { header: String },
    Status,
}

pub enum CaptureSourceModel {
    JsonPath(Seq<char>),
    Header { header: Seq<char> },
    Status,
}

impl View for CaptureSource {
    type V = CaptureSourceModel;

    open spec fn view(&self) -> CaptureSourceModel {
        match *self {
            CaptureSource::JsonPath(path) => CaptureSourceModel::JsonPath(path@),
            CaptureSource::Header { header } => CaptureSourceModel::Header { header: header@ },
            CaptureSource::Status => CaptureSourceModel::Status,
        }
    }
}

impl Clone for CaptureSource {
    fn clone(&self) -> (r: Self)
        ensures
            r@ == self@,
    {
        match self {
            CaptureSource::JsonPath(path) => CaptureSource::JsonPath(path.clone()),
            CaptureSource::Header { header } => CaptureSource::Header { header: header.clone() },
            CaptureSource::Status => CaptureSource::Status,
        }
    }
}

/// One captured variable and what it is read from.
#[derive(Debug, PartialEq, Eq)]
pub struct Capture {
    pub name: String,
    pub source: CaptureSource,
}

pub struct CaptureModel {
    pub name: Seq<char>,
    pub source: CaptureSourceModel,
}

impl View for Capture {
    type V = CaptureModel;

    open spec fn view(&self) -> CaptureModel {
        CaptureModel { name: self.name@, source: self.source@ }
    }
}

impl Clone for Capture {
    fn clone(&self) -> (r: Self)
        ensures
            r@ == self@,
    {
        Capture { name: self.name.clone(), source: self.source.clone() }
    }
}

/// A list of captured variables by value.
pub open spec fn captures_view(v: Seq<Capture>) -> Seq<CaptureModel> {
    Seq::new(v.len(), |i: int| v[i]@)
}

/// A copy of a list of captured variables.
pub fn copy_captures(v: &Vec<Capture>) -> (r: Vec<Capture>)
    ensures
        captures_view(r@) == captures_view(v@),
{
    let mut r: Vec<Capture> = Vec::new();
    let mut i: usize = 0;
    while i < v.len()
        invariant
            i <= v@.len(),
            r@.len() == i,
            forall|j: int| 0 <= j < i ==> r@[j]@ == v@[j]@,
        decreases v@.len() - i,
    {
        r.push(v[i].clone());
        i = i + 1;
    }
    assert(captures_view(r@) =~= captures_view(v@));
    r
}

// ---------------------------------------------------------------------------
// Requests
// ---------------------------------------------------------------------------

/// One HTTP request as a document holds it.
#[derive(Debug, PartialEq, Eq)]
pub struct Request {
    pub name: Option<String>,
    pub method: Method,
    pub url: String,
    pub headers: Vec<(String, String)>,
    pub query: Vec<(String, String)>,
    /// A body that is sent as it stands.
    pub body: Option<String>,
    /// A JSON body, as compact JSON text.
    pub json: Option<String>,
    /// The path of a file that is sent as the body.
    pub body_file: Option<String>,
    pub form: Vec<(String, String)>,
    /// The parts of a multipart body, by name and value.
    pub multipart: Vec<(String, String)>,
    pub auth: Option<Auth>,
    pub assertions: Option<Assertions>,
    pub capture: Option<Vec<Capture>>,
}

pub struct RequestModel {
    pub name: Option<Seq<char>>,
    pub method: Method,
    pub url: Seq<char>,
    pub headers: Seq<(Seq<char>, Seq<char>)>,
    pub query: Seq<(Seq<char>, Seq<char>)>,
    pub body: Option<Seq<char>>,
    pub json: Option<Seq<char>>,
    pub body_file: Option<Seq<char>>,
    pub form: Seq<(Seq<char>, Seq<char>)>,
    pub multipart: Seq<(Seq<char>, Seq<char>)>,
    pub auth: Option<AuthModel>,
    pub assertions: Option<AssertionsModel>,
    pub capture: Option<Seq<CaptureModel>>,
}

/// The value of an optional `assertions:` block.
pub open spec fn opt_assertions(o: Option<Assertions>) -> Option<AssertionsModel> {
    match o {
        Some(a) => Some(a@),
        None => None,
    }
}

/// The value of an optional `capture:` block.
pub open spec fn opt_captures(o: Option<Vec<Capture>>) -> Option<Seq<CaptureModel>> {
    match o {
        Some(v) => Some(captures_view(v@)),
        None => None,
    }
}

impl View for Request {
    type V = RequestModel;

    open spec fn view(&self) -> RequestModel {
        RequestModel {
            name: opt_text(self.name),
            method: self.method,
            url: self.url@,
            headers: pairs_view(self.headers@),
            query: pairs_view(self.query@),
            body: opt_text(self.body),
            json: opt_text(self.json),
            body_file: opt_text(self.body_file),
            form: pairs_view(self.form@),
            multipart: pairs_view(self.multipart@),
            auth: opt_auth(self.auth),
            assertions: opt_assertions(self.assertions),
            capture: opt_captures(self.capture),
        }
    }
}

impl Clone for Request {
    fn clone(&self) -> (r: Self)
        ensures
            r@ == self@,
    {
        let assertions = match &self.assertions {
            Some(a) => Some(a.clone()),
            None => None,
        };
        let capture = match &self.capture {
            Some(v) => Some(copy_captures(v)),
            None => None,
        };
        Request {
            name: copy_opt(&self.name),
            method: self.method,
            url: self.url.clone(),
            headers: copy_pairs(&self.headers),
            query: copy_pairs(&self.query),
            body: copy_opt(&self.body),
            json: copy_opt(&self.json),
            body_file: copy_opt(&self.body_file),
            form: copy_pairs(&self.form),
            multipart: copy_pairs(&self.multipart),
            auth: copy_auth(&self.auth),
            assertions,
            capture,
        }
    }
}

impl RequestModel {
    /// What a request without a name is called: its method and URL.
    pub open spec fn label(self) -> Seq<char> {
        self.method.text() + " "@ + self.url
    }

    /// The request's name, or its label when it has none.
    pub open spec fn display_name(self) -> Seq<char> {
        match self.name {
            Some(name) => name,
            None => self.label(),
        }
    }
}

/// A `GET` request to an empty URL, with everything else absent.
pub open spec fn blank_request_model(name: Option<Seq<char>>) -> RequestModel {
    RequestModel {
        name,
        method: Method::Get,
        url: Seq::empty(),
        headers: Seq::empty(),
        query: Seq::empty(),
        body: None,
        json: None,
        body_file: None,
        form: Seq::empty(),
        multipart: Seq::empty(),
        auth: None,
        assertions: None,
        capture: None,
    }
}

impl Request {
    /// A `GET` request to an empty URL, with everything else absent.
    pub fn blank(name: Option<String>) -> (r: Request)
        ensures
            r@ == blank_request_model(opt_text(name)),
    {
        let r = Request {
            name,
            method: Method::Get,
            url: String::new(),
            headers: Vec::new(),
            query: Vec::new(),
            body: None,
            json: None,
            body_file: None,
            form: Vec::new(),
            multipart: Vec::new(),
            auth: None,
            assertions: None,
            capture: None,
        };
        assert(pairs_view(r.headers@) =~= Seq::empty());
        r
    }

    /// What a request without a name is called: its method and URL.
    pub fn label(&self) -> (r: String)
        ensures
            r@ == self@.label(),
    {
        let mut r = self.method.as_str().to_owned();
        r.append(" ");
        r.append(self.url.as_str());
        r
    }

    /// The request's name, or its label when it has none.
    pub fn display_name(&self) -> (r: String)
        ensures
            r@ == self@.display_name(),
    {
        match &self.name {
            Some(name) => name.clone(),
            None => self.label(),
        }
    }
}

// ---------------------------------------------------------------------------
// Documents
// ---------------------------------------------------------------------------

/// Several requests under an optional name.
#[derive(Debug, PartialEq, Eq)]
pub struct Collection {
    pub name: Option<String>,
    pub requests: Vec<Request>,
}

/// A file's content: one request, or a collection of them.
#[derive(Debug, PartialEq, Eq)]
pub enum Document {
    Single(Request),
    Collection(Collection),
}

pub enum DocumentModel {
    Single(RequestModel),
    Collection { name: Option<Seq<char>>, requests: Seq<RequestModel> },
}

/// A list of requests by value.
pub open spec fn requests_view(v: Seq<Request>) -> Seq<RequestModel> {
    Seq::new(v.len(), |i: int| v[i]@)
}

impl View for Document {
    type V = DocumentModel;

    open spec fn view(&self) -> DocumentModel {
        match *self {
            Document::Single(request) => DocumentModel::Single(request@),
            Document::Collection(collection) => DocumentModel::Collection {
                name: opt_text(collection.name),
                requests: requests_view(collection.requests@),
            },
        }
    }
}

impl DocumentModel {
    /// The document's requests, in order.
    pub open spec fn requests(self) -> Seq<RequestModel> {
        match self {
            DocumentModel::Single(request) => seq![request],
            DocumentModel::Collection { requests, .. } => requests,
        }
    }
}

impl Clone for Document {
    fn clone(&self) -> (r: Self)
        ensures
            r@ == self@,
    {
        match self {
            Document::Single(request) => Document::Single(request.clone()),
            Document::Collection(collection) => {
                let mut requests: Vec<Request> = Vec::new();
                let mut i: usize = 0;
                while i < collection.requests.len()
                    invariant
                        i <= collection.requests@.len(),
                        requests@.len() == i,
                        forall|j: int| 0 <= j < i ==> requests@[j]@ == collection.requests@[j]@,
                    decreases collection.requests@.len() - i,
                {
                    requests.push(collection.requests[i].clone());
                    i = i + 1;
                }
                assert(requests_view(requests@) =~= requests_view(collection.requests@));
                Document::Collection(Collection { name: copy_opt(&collection.name), requests })
            },
        }
    }
}

impl Document {
    /// How many requests the document holds.
    pub fn len(&self) -> (n: usize)
        ensures
            n == self@.requests().len(),
    {
        match self {
            Document::Single(_) => 1,
            Document::Collection(collection) => collection.requests.len(),
        }
    }

    /// The request at `index`, where there is one.
    pub fn get(&self, index: usize) -> (r: Option<&Request>)
        ensures
            r is Some <==> index < self@.requests().len(),
            r is Some ==> r->0@ == self@.requests()[index as int],
    {
        match self {
            Document::Single(request) => {
                if index == 0 {
                    Some(request)
                } else {
                    None
                }
            },
            Document::Collection(collection) => {
                if index < collection.requests.len() {
                    Some(&collection.requests[index])
                } else {
                    None
                }
            },
        }
    }
}

/// What a document must hold to be written to a file: a collection has at
/// least one request, and each of its requests is named.
pub open spec fn document_valid(document: DocumentModel) -> bool {
    match document {
        DocumentModel::Single(_) => true,
        DocumentModel::Collection { requests, .. } => {
            &&& requests.len() > 0
            &&& forall|i: int| 0 <= i < requests.len() ==> (#[trigger] requests[i]).name is Some
        },
    }
}

/// The position of the first request without a name, or the number of
/// requests.
pub open spec fn first_unnamed(requests: Seq<RequestModel>) -> int
    decreases requests.len(),
{
    if requests.len() == 0 || requests[0].name is None {
        0
    } else {
        1 + first_unnamed(requests.drop_first())
    }
}

/// What is wrong with a document that cannot be written, if anything is.
pub open spec fn document_problem(document: DocumentModel) -> Option<Seq<char>> {
    match document {
        DocumentModel::Single(_) => None,
        DocumentModel::Collection { requests, .. } => if requests.len() == 0 {
            Some("a collection needs at least one request"@)
        } else if first_unnamed(requests) < requests.len() {
            Some(
                "request "@ + decimal((first_unnamed(requests) + 1) as nat)
                    + " needs a name: every request in a collection must have one"@,
            )
        } else {
            None
        },
    }
}

proof fn lemma_first_unnamed(requests: Seq<RequestModel>, k: int)
    requires
        0 <= k <= requests.len(),
        forall|j: int| 0 <= j < k ==> (#[trigger] requests[j]).name is Some,
        k < requests.len() ==> requests[k].name is None,
    ensures
        first_unnamed(requests) == k,
    decreases requests.len(),
{
    if k > 0 {
        let rest = requests.drop_first();
        assert(requests[0].name is Some);
        assert forall|j: int| 0 <= j < k - 1 implies (#[trigger] rest[j]).name is Some by {
            assert(rest[j] == requests[j + 1]);
        }
        if k < requests.len() {
            assert(rest[k - 1] == requests[k]);
        }
        lemma_first_unnamed(rest, k - 1);
    }
}

proof fn lemma_first_unnamed_range(requests: Seq<RequestModel>)
    ensures
        0 <= first_unnamed(requests) <= requests.len(),
        first_unnamed(requests) < requests.len() ==> requests[first_unnamed(requests)].name is None,
        forall|j: int|
            0 <= j < first_unnamed(requests) ==> (#[trigger] requests[j]).name is Some,
    decreases requests.len(),
{
    if requests.len() > 0 && requests[0].name is Some {
        let rest = requests.drop_first();
        lemma_first_unnamed_range(rest);
        assert forall|j: int| 0 <= j < first_unnamed(requests) implies (
        #[trigger] requests[j]).name is Some by {
            if j > 0 {
                assert(rest[j - 1] == requests[j]);
            }
        }
    }
}

/// A document has a problem exactly when it is not fit to be written.
pub proof fn lemma_document_problem(document: DocumentModel)
    ensures
        document_problem(document) is None <==> document_valid(document),
{
    if let DocumentModel::Collection { requests, .. } = document {
        lemma_first_unnamed_range(requests);
    }
}

/// What is wrong with a document that cannot be written, if anything is.
pub fn validate_document(document: &Document) -> (r: Option<String>)
    ensures
        opt_text(r) == document_problem(document@),
        r is None <==> document_valid(document@),
{
    proof {
        lemma_document_problem(document@);
    }
    match document {
        Document::Single(_) => None,
        Document::Collection(collection) => {
            let requests = &collection.requests;
            let ghost model = requests_view(requests@);
            if requests.len() == 0 {
                return Some("a collection needs at least one request".to_owned());
            }
            let mut i: usize = 0;
            while i < requests.len()
                invariant
                    model == requests_view(requests@),
                    document@ == (DocumentModel::Collection {
                        name: opt_text(collection.name),
                        requests: model,
                    }),
                    document_problem(document@) is None <==> document_valid(document@),
                    i <= requests@.len(),
                    requests@.len() > 0,
                    forall|j: int| 0 <= j < i ==> (#[trigger] model[j]).name is Some,
                decreases requests@.len() - i,
            {
                assert(model[i as int] == requests@[i as int]@);
                if requests[i].name.is_none() {
                    proof {
                        lemma_first_unnamed(model, i as int);
                    }
                    let number = crate::text::decimal_string((i as u64) + 1);
                    let mut message = "request ".to_owned();
                    message.append(number.as_str());
                    message.append(" needs a name: every request in a collection must have one");
                    return Some(message);
                }
                i = i + 1;
            }
            proof {
                lemma_first_unnamed(model, requests@.len() as int);
            }
            None
        },
    }
}

// ---------------------------------------------------------------------------
// Environments
// ---------------------------------------------------------------------------

/// Named variables that requests are resolved against.
#[derive(Debug, PartialEq, Eq)]
pub struct Environment {
    /// The variables by name, in the order of their names.
    pub variables: Vec<(String, String)>,
    /// What a request without an `auth:` block of its own is sent with.
    pub auth: Option<Auth>,
    /// The file the environment was read from.
    pub source: Option<String>,
}

pub struct EnvironmentModel {
    pub variables: Seq<(Seq<char>, Seq<char>)>,
    pub auth: Option<AuthModel>,
    pub source: Option<Seq<char>>,
}

impl View for Environment {
    type V = EnvironmentModel;

    open spec fn view(&self) -> EnvironmentModel {
        EnvironmentModel {
            variables: pairs_view(self.variables@),
            auth: opt_auth(self.auth),
            source: opt_text(self.source),
        }
    }
}

impl Clone for Environment {
    fn clone(&self) -> (r: Self)
        ensures
            r@ == self@,
    {
        Environment {
            variables: copy_pairs(&self.variables),
            auth: copy_auth(&self.auth),
            source: copy_opt(&self.source),
        }
    }
}

/// An environment under the name it is picked by.
#[derive(Debug, PartialEq, Eq)]
pub struct NamedEnvironment {
    pub name: String,
    pub environment: Environment,
}

pub struct NamedEnvironmentModel {
    pub name: Seq<char>,
    pub environment: EnvironmentModel,
}

impl View for NamedEnvironment {
    type V = NamedEnvironmentModel;

    open spec fn view(&self) -> NamedEnvironmentModel {
        NamedEnvironmentModel { name: self.name@, environment: self.environment@ }
    }
}

/// A list of environments by value.
pub open spec fn environments_view(v: Seq<NamedEnvironment>) -> Seq<NamedEnvironmentModel> {
    Seq::new(v.len(), |i: int| v[i]@)
}

} // verus!
