//! What the screen shows.

use std::collections::{HashMap, HashSet};

use sendra_tui::document::{
    ApiKeyAuth, ApiKeyLocation, Assertions, Auth, BasicAuth, Capture, CaptureSource, Collection,
    Document, Environment, JsonAssertion, JsonOperator, Method, NamedEnvironment, OAuthAuth,
    OAuthGrantType, Request,
};
use sendra_tui::edit::{AuthField, EditField};
use sendra_tui::paths::FilePath;
use sendra_tui::preview::{added_by_auth_names, AuthPreview, BrowsingPreview};
use sendra_tui::run::{
    AssertionReport, AssertionResult, CaptureReport, CaptureResult, Response, RunOutcome,
};
use sendra_tui::state::{AppState, Effect, LoadState, Message, RunState, RUN_HISTORY_CAP};
use sendra_tui::view::Area;
use sendra_tui::view::browser::{truncate_body, MAX_BODY_PREVIEW_CHARS};
use sendra_tui::view::cheatsheet::cheatsheet_text;
use sendra_tui::view::environment::EnvironmentView;
use sendra_tui::view::format_error;
use sendra_tui::view::layout::{arranged_screen, Arrangement};
use sendra_tui::view::response::{
    body_for_display, claims_json, format_assertions, format_capture_section, format_response,
    format_run_result, response_panel, HistoryView, ResponsePanel, REDACTED_CAPTURE_VALUE,
};
use sendra_tui::view::screen::{Body, Detail, Overlay, Resolution, Screen};
use serde_yaml::Value;

const VALID_COLLECTION: &str = "\
name: test
requests:
  - name: One
    method: GET
    url: https://example.com
  - name: Two
    method: POST
    url: https://example.com/two
";

const THREE_REQUEST_COLLECTION: &str = "\
name: test
requests:
  - name: One
    method: GET
    url: https://example.com
  - name: Two
    method: GET
    url: https://example.com/two
  - name: Three
    method: GET
    url: https://example.com/three
";

const MALFORMED_YAML: &str = "name: [unclosed\n";

fn scalar(value: &Value) -> String {
    match value {
        Value::String(text) => text.clone(),
        other => serde_yaml::to_string(other).unwrap().trim_end().to_string(),
    }
}

fn optional(value: &Value, key: &str) -> Option<String> {
    value.get(key).map(scalar)
}

fn pairs(value: Option<&Value>) -> Vec<(String, String)> {
    match value {
        Some(Value::Mapping(map)) => map
            .iter()
            .map(|(name, value)| (scalar(name), scalar(value)))
            .collect(),
        _ => Vec::new(),
    }
}

fn parts(value: Option<&Value>) -> Vec<(String, String)> {
    match value {
        Some(Value::Sequence(parts)) => parts
            .iter()
            .map(|part| {
                (
                    optional(part, "name").unwrap_or_default(),
                    optional(part, "value").unwrap_or_default(),
                )
            })
            .collect(),
        _ => Vec::new(),
    }
}

fn auth_from(value: &Value) -> Auth {
    Auth {
        bearer: optional(value, "bearer"),
        basic: value.get("basic").map(|basic| BasicAuth {
            user: optional(basic, "user").unwrap_or_default(),
            pass: optional(basic, "pass").unwrap_or_default(),
        }),
        api_key: value.get("api_key").map(|key| ApiKeyAuth {
            location: if optional(key, "in").as_deref() == Some("query") {
                ApiKeyLocation::Query
            } else {
                ApiKeyLocation::Header
            },
            name: optional(key, "name").unwrap_or_default(),
            value: optional(key, "value").unwrap_or_default(),
        }),
        oauth: value.get("oauth").map(|oauth| OAuthAuth {
            grant_type: match optional(oauth, "grant_type").as_deref() {
                Some("password") => OAuthGrantType::Password,
                Some("authorization_code") => OAuthGrantType::AuthorizationCode,
                _ => OAuthGrantType::ClientCredentials,
            },
            token_url: optional(oauth, "token_url").unwrap_or_default(),
            client_id: optional(oauth, "client_id").unwrap_or_default(),
            client_secret: optional(oauth, "client_secret").unwrap_or_default(),
            scope: optional(oauth, "scope"),
            username: optional(oauth, "username"),
            password: optional(oauth, "password"),
            authorization_url: optional(oauth, "authorization_url"),
            redirect_uri: optional(oauth, "redirect_uri"),
        }),
    }
}

fn checks(value: Option<&Value>, negate: bool) -> Vec<JsonAssertion> {
    let Some(Value::Mapping(map)) = value else {
        return Vec::new();
    };
    map.iter()
        .map(|(path, expected)| {
            let (operator, value) = if let Some(bound) = expected.get("greater_than") {
                (JsonOperator::GreaterThan, bound)
            } else if let Some(bound) = expected.get("less_than") {
                (JsonOperator::LessThan, bound)
            } else {
                (JsonOperator::Equals, expected)
            };
            JsonAssertion {
                path: scalar(path),
                operator,
                value: scalar(value),
                negate,
            }
        })
        .collect()
}

fn assertions_from(value: &Value) -> Assertions {
    let mut json = checks(value.get("json"), false);
    json.extend(checks(value.get("not").and_then(|not| not.get("json")), true));
    let others = match value {
        Value::Mapping(map) => map
            .iter()
            .filter(|(key, _)| !["json", "not"].contains(&scalar(key).as_str()))
            .map(|(key, value)| format!("{}: {}", scalar(key), scalar(value)))
            .collect(),
        _ => Vec::new(),
    };
    Assertions { json, others }
}

fn captures_from(value: &Value) -> Vec<Capture> {
    let Value::Mapping(map) = value else {
        return Vec::new();
    };
    map.iter()
        .map(|(name, source)| Capture {
            name: scalar(name),
            source: if let Some(header) = source.get("header") {
                CaptureSource::Header {
                    header: scalar(header),
                }
            } else if source.get("status").is_some() {
                CaptureSource::Status
            } else {
                CaptureSource::JsonPath(scalar(source))
            },
        })
        .collect()
}

fn method_from(text: &str) -> Result<Method, String> {
    sendra_tui::document::validate_method_text(text)
}

fn request_from(value: &Value) -> Result<Request, String> {
    let method = optional(value, "method").ok_or("a request needs a method")?;
    Ok(Request {
        name: optional(value, "name"),
        method: method_from(&method)?,
        url: optional(value, "url").ok_or("a request needs a url")?,
        headers: pairs(value.get("headers")),
        query: pairs(value.get("query")),
        body: optional(value, "body"),
        json: value
            .get("json")
            .map(|json| serde_json::to_value(json).unwrap().to_string()),
        body_file: optional(value, "body_file"),
        form: pairs(value.get("form")),
        multipart: parts(value.get("multipart")),
        auth: value.get("auth").map(auth_from),
        assertions: value.get("assertions").map(assertions_from),
        capture: value.get("capture").map(captures_from),
    })
}

fn document_from(yaml: &str) -> Result<Document, String> {
    let value: Value = serde_yaml::from_str(yaml).map_err(|error| error.to_string())?;
    match value.get("requests") {
        Some(Value::Sequence(requests)) => Ok(Document::Collection(Collection {
            name: optional(&value, "name"),
            requests: requests
                .iter()
                .map(request_from)
                .collect::<Result<Vec<_>, _>>()?,
        })),
        _ => Ok(Document::Single(request_from(&value)?)),
    }
}

#[derive(Default)]
struct Disk {
    documents: HashMap<String, Result<Document, String>>,
    environments: HashMap<String, Environment>,
    blocked: HashSet<String>,
}

#[allow(dead_code)]
impl Disk {
    fn write(&mut self, path: &str, yaml: &str) {
        self.documents.insert(path.to_string(), document_from(yaml));
    }

    fn document(&self, path: &str) -> Result<Document, String> {
        match self.documents.get(path) {
            Some(Ok(document)) => Ok(document.clone()),
            Some(Err(error)) => Err(error.clone()),
            None => Err(format!("{path}: no such file")),
        }
    }

    fn environment(&self, path: &str) -> Result<Environment, String> {
        self.environments
            .get(path)
            .cloned()
            .ok_or_else(|| format!("{path}: no such file"))
    }

    fn block(&mut self, path: &str) {
        self.blocked.insert(path.to_string());
    }

    fn unblock(&mut self, path: &str) {
        self.blocked.remove(path);
    }

    fn state_loaded_from(&self, path: &str) -> AppState {
        let mut state = AppState::default();
        load(&mut state, path, self.document(path));
        state
    }

    fn refuses(&self, path: &str) -> Result<(), String> {
        if self.blocked.contains(path) {
            Err(format!("{path}: is a directory"))
        } else {
            Ok(())
        }
    }

    fn answer(&mut self, effect: Effect) -> Option<Message> {
        match effect {
            Effect::Nothing => None,
            Effect::Discover { collection_id } => Some(Message::CollectionsDiscovered {
                collection_id,
                paths: Vec::new(),
            }),
            Effect::LoadCollection {
                collection_id,
                base_dir,
                path,
            } => {
                let result = self.document(&path.text);
                Some(Message::DiscoveredLoaded {
                    collection_id,
                    base_dir,
                    path,
                    result,
                })
            }
            Effect::SaveEdit {
                collection_id,
                path,
                document,
            } => {
                let written = self.refuses(&path);
                if written.is_ok() {
                    self.documents.insert(path, Ok(document.clone()));
                }
                Some(Message::EditSaved {
                    collection_id,
                    document,
                    written,
                })
            }
            Effect::SaveDelete {
                collection_id,
                path,
                index,
                document,
            } => {
                let written = self.refuses(&path);
                if written.is_ok() {
                    self.documents.insert(path, Ok(document.clone()));
                }
                Some(Message::DeleteSaved {
                    collection_id,
                    index,
                    document,
                    written,
                })
            }
            Effect::SaveEnvironment {
                collection_id,
                path,
                index,
                environment,
            } => {
                let written = self.refuses(&path);
                if written.is_ok() {
                    self.environments.insert(path, environment.clone());
                }
                Some(Message::EnvironmentSaved {
                    collection_id,
                    index,
                    environment,
                    written,
                })
            }
        }
    }

    fn update(&mut self, state: &mut AppState, msg: Message) {
        let mut next = Some(msg);
        while let Some(msg) = next {
            let effect = sendra_tui::update::update(state, msg);
            next = self.answer(effect);
        }
    }
}

fn update(state: &mut AppState, msg: Message) {
    Disk::default().update(state, msg);
}

fn load(state: &mut AppState, path: &str, result: Result<Document, String>) {
    update(
        state,
        Message::CollectionLoaded {
            base_dir: ".".to_string(),
            path: FilePath::new(path.to_string()),
            result,
        },
    );
}

fn loaded_state(yaml: &str) -> AppState {
    let mut state = AppState::default();
    load(
        &mut state,
        "collection.yaml",
        Ok(document_from(yaml).expect("valid test YAML")),
    );
    state
}

fn environment_of(variables: &[(&str, &str)], source: Option<&str>) -> Environment {
    Environment {
        variables: variables
            .iter()
            .map(|(name, value)| (name.to_string(), value.to_string()))
            .collect(),
        auth: None,
        source: source.map(str::to_string),
    }
}

fn named_environment(name: &str, variables: &[(&str, &str)]) -> NamedEnvironment {
    NamedEnvironment {
        name: name.to_string(),
        environment: environment_of(variables, None),
    }
}

fn state_with_environments(names: &[&str]) -> AppState {
    let mut state = AppState::default();
    state.active_mut().environments = names
        .iter()
        .map(|name| named_environment(name, &[]))
        .collect();
    state
}

const ENVIRONMENT_PATH: &str = ".sendra/environments/staging.yaml";

fn loaded_state_with_saved_environment(value: &str) -> AppState {
    let mut state = loaded_state(
        "name: test\nrequests:\n  - name: One\n    method: GET\n    url: https://example.com/{{base_url}}\n",
    );
    state.active_mut().environments = vec![NamedEnvironment {
        name: "staging".to_string(),
        environment: environment_of(&[("base_url", value)], Some(ENVIRONMENT_PATH)),
    }];
    state.active_mut().active_environment = Some(0);
    state
}

fn selected(state: &AppState) -> usize {
    match &state.active().load_state {
        LoadState::Loaded { selected, .. } => *selected,
        other => panic!("expected LoadState::Loaded, got {other:?}"),
    }
}

fn saved_document(state: &AppState) -> &Document {
    match &state.active().load_state {
        LoadState::Loaded { document, .. } => document,
        other => panic!("expected LoadState::Loaded, got {other:?}"),
    }
}

fn document_name(state: &AppState, index: usize) -> String {
    saved_document(state)
        .get(index)
        .unwrap()
        .name
        .clone()
        .unwrap()
}

fn type_into_focused_field(state: &mut AppState, text: &str) {
    for ch in text.chars() {
        update(state, Message::EditInsertChar(ch));
    }
}

fn type_query(state: &mut AppState, query: &str) {
    for ch in query.chars() {
        update(state, Message::EditInsertChar(ch));
    }
}

fn backspace_n(state: &mut AppState, n: usize) {
    for _ in 0..n {
        update(state, Message::EditBackspace);
    }
}

fn response_of(status: u16, status_text: &str, headers: &[(&str, &str)], body: &str) -> Response {
    Response {
        status,
        status_text: status_text.to_string(),
        headers: headers
            .iter()
            .map(|(name, value)| (name.to_string(), value.to_string()))
            .collect(),
        body: body.to_string(),
        elapsed_ms: 42,
    }
}

fn response_with(headers: &[(&str, &str)], body: &str) -> Response {
    response_of(201, "Created", headers, body)
}

fn outcome_of(result: Result<Response, String>) -> RunOutcome {
    RunOutcome {
        result,
        assertions: AssertionReport::default(),
        capture: CaptureReport::default(),
    }
}

fn sample_outcome(status: u16) -> RunOutcome {
    outcome_of(Ok(response_of(status, "OK", &[], "")))
}

fn failed_outcome(error: String) -> RunOutcome {
    outcome_of(Err(error))
}

fn at_path(body: &str, path: &str) -> Option<serde_json::Value> {
    let root: serde_json::Value = serde_json::from_str(body).ok()?;
    let found = path.strip_prefix("$.")?.split('.').fold(Some(&root), |at, key| {
        at.and_then(|value| value.get(key))
    });
    found.cloned()
}

fn captured_from(captures: &[Capture], response: &Response) -> Vec<(String, Option<String>)> {
    captures
        .iter()
        .map(|capture| {
            let value = match &capture.source {
                CaptureSource::JsonPath(path) => {
                    at_path(&response.body, path).map(|found| match found {
                        serde_json::Value::String(text) => text,
                        other => other.to_string(),
                    })
                }
                CaptureSource::Header { header } => response
                    .headers
                    .iter()
                    .find(|(name, _)| name.eq_ignore_ascii_case(header))
                    .map(|(_, value)| value.clone()),
                CaptureSource::Status => Some(response.status.to_string()),
            };
            (capture.name.clone(), value)
        })
        .collect()
}

fn evaluate_assertions(yaml: &str, response: &Response) -> AssertionReport {
    let request: Value = serde_yaml::from_str(yaml).expect("valid test request");
    let declared = request.get("assertions").expect("an `assertions:` block");
    let mut results = Vec::new();
    if let Some(status) = declared.get("status").and_then(Value::as_u64) {
        results.push(judged(
            format!("status is {status}"),
            status == response.status as u64,
            response,
        ));
    }
    if let Some(Value::Sequence(allowed)) = declared.get("status_in") {
        let allowed: Vec<u64> = allowed.iter().filter_map(Value::as_u64).collect();
        results.push(judged(
            format!("status is one of {allowed:?}"),
            allowed.contains(&(response.status as u64)),
            response,
        ));
    }
    AssertionReport { results }
}

fn judged(expectation: String, held: bool, response: &Response) -> AssertionResult {
    AssertionResult {
        expectation,
        failure: if held {
            None
        } else {
            Some(format!("got {}", response.status))
        },
    }
}

fn evaluate_capture(yaml: &str, response: &Response) -> CaptureReport {
    let request = document_from(yaml).expect("valid test request");
    let captures = request
        .get(0)
        .unwrap()
        .capture
        .as_ref()
        .expect("a `capture:` block");
    CaptureReport {
        results: captured_from(captures, response)
            .into_iter()
            .zip(captures)
            .map(|((variable, value), capture)| CaptureResult {
                variable,
                path: match &capture.source {
                    CaptureSource::JsonPath(path) => path.clone(),
                    CaptureSource::Header { header } => format!("header {header}"),
                    CaptureSource::Status => "status".to_string(),
                },
                value: value.ok_or_else(|| "nothing to capture".to_string()),
            })
            .collect(),
    }
}

fn filled_in(text: &str, environment: &Environment) -> Result<String, String> {
    let mut rest = text;
    let mut out = String::new();
    while let Some(start) = rest.find("{{") {
        let end = rest[start..]
            .find("}}")
            .map(|end| start + end)
            .ok_or("unclosed placeholder")?;
        let name = rest[start + 2..end].trim();
        let value = environment
            .variables
            .iter()
            .find(|(known, _)| known == name)
            .ok_or_else(|| format!("variable `{name}` is not defined"))?;
        out.push_str(&rest[..start]);
        out.push_str(&value.1);
        rest = &rest[end + 2..];
    }
    out.push_str(rest);
    Ok(out)
}

fn base64(bytes: &[u8]) -> String {
    let alphabet: Vec<char> = ('A'..='Z')
        .chain('a'..='z')
        .chain('0'..='9')
        .chain(['+', '/'])
        .collect();
    let mut out = String::new();
    for chunk in bytes.chunks(3) {
        let word = chunk
            .iter()
            .chain(std::iter::repeat(&0))
            .take(3)
            .fold(0usize, |word, byte| word * 256 + *byte as usize);
        for place in 0..4 {
            if place <= chunk.len() {
                out.push(alphabet[(word >> (18 - 6 * place)) % 64]);
            } else {
                out.push('=');
            }
        }
    }
    out
}

fn with_auth(request: &Request) -> Result<Request, String> {
    let mut resolved = request.clone();
    if let Some(auth) = resolved.auth.take() {
        if let Some(token) = auth.bearer {
            resolved
                .headers
                .push(("Authorization".to_string(), format!("Bearer {token}")));
        }
        if let Some(basic) = auth.basic {
            let word = base64(format!("{}:{}", basic.user, basic.pass).as_bytes());
            resolved
                .headers
                .push(("Authorization".to_string(), format!("Basic {word}")));
        }
        if let Some(key) = auth.api_key {
            match key.location {
                ApiKeyLocation::Header => resolved.headers.push((key.name, key.value)),
                ApiKeyLocation::Query => resolved.query.push((key.name, key.value)),
            }
        }
        if auth.oauth.is_some() {
            return Err("no OAuth token was acquired".to_string());
        }
    }
    Ok(resolved)
}

fn resolved_auth(request: &Request, environment: &Environment) -> Result<AuthPreview, String> {
    let mut substituted = request.clone();
    substituted.url = filled_in(&request.url, environment)?;
    if substituted.auth.is_none() {
        substituted.auth = environment.auth.clone();
    }
    let resolved = with_auth(&substituted)?;
    Ok(AuthPreview {
        substituted,
        resolved,
    })
}

fn browsing_preview(request: &Request, environment: &Environment) -> Result<BrowsingPreview, String> {
    let preview = resolved_auth(request, environment)?;
    let (auth_headers, auth_query) =
        added_by_auth_names(&preview.substituted, &preview.resolved);
    let mut sent = preview.resolved;
    for (index, (name, value)) in sent.query.clone().iter().enumerate() {
        sent.url.push(if index == 0 { '?' } else { '&' });
        sent.url.push_str(&format!("{name}={value}"));
    }
    Ok(BrowsingPreview {
        request: sent,
        auth_headers,
        auth_query,
    })
}

fn resolution_of(state: &AppState) -> Resolution {
    let environment = match sendra_tui::view::active_environment(state) {
        Some(named) => named.environment.clone(),
        None => environment_of(&[], None),
    };
    match sendra_tui::view::screen::request_to_resolve(state.active()) {
        Some(request) => Resolution {
            browsing: browsing_preview(&request, &environment),
            auth: resolved_auth(&request, &environment),
        },
        None => Resolution {
            browsing: Err("nothing is selected".to_string()),
            auth: Err("nothing is selected".to_string()),
        },
    }
}

fn status_help_text(state: &AppState) -> String {
    let resolution = resolution_of(state);
    sendra_tui::view::status::status_help_text(state, resolution.auth.as_ref().ok())
}

fn panel_text(panel: &ResponsePanel, height: usize) -> String {
    let mut shown: Vec<&str> = panel
        .text
        .lines()
        .skip(panel.scroll)
        .take(height)
        .collect();
    shown.push(&panel.footer);
    shown.join("\n")
}

fn overlay_text(overlay: &Overlay, height: usize) -> String {
    match overlay {
        Overlay::Environments(EnvironmentView::Notice {
            title,
            text,
            errors,
        }) => format!("{title}\n{text}\n{}", errors.clone().unwrap_or_default()),
        Overlay::Environments(EnvironmentView::Picker {
            title,
            rows,
            detail,
            errors,
            ..
        }) => format!(
            "{title}\n{}\n{detail}\n{}",
            rows.join("\n"),
            errors.clone().unwrap_or_default()
        ),
        Overlay::Environments(EnvironmentView::Variables { title, text }) => {
            format!("{title}\n{text}")
        }
        Overlay::History(HistoryView::Notice { title, text }) => format!("{title}\n{text}"),
        Overlay::History(HistoryView::Gone { title, text }) => format!("{title}\n{text}"),
        Overlay::History(HistoryView::Entry { title, panel }) => {
            format!("{title}\n{}", panel_text(panel, height))
        }
        Overlay::History(HistoryView::Entries {
            title,
            rows,
            dropped,
            ..
        }) => {
            let lines: Vec<String> = rows.iter().map(|row| row.join("\n")).collect();
            format!(
                "{title}\n{}\n{}",
                lines.join("\n"),
                dropped.clone().unwrap_or_default()
            )
        }
        Overlay::Question(question) => format!(
            "{}\n{}\n{}",
            question.title,
            question.message,
            question.failure.clone().unwrap_or_default()
        ),
        Overlay::OpenPrompt { title, text } => format!("{title}\n{text}"),
        Overlay::Cheatsheet { title, text } => format!("{title}\n{text}"),
    }
}

fn arranged(state: &AppState, width: u16, height: u16) -> (Arrangement, Screen) {
    let area = Area {
        x: 0,
        y: 0,
        width,
        height,
    };
    arranged_screen(state, &resolution_of(state), area, 0)
}

fn render_sized(state: &AppState, rows: u16) -> String {
    let (arrangement, shown) = arranged(state, 100, rows);
    let mut text = String::new();
    for tab in &shown.tabs {
        text.push_str(&tab.label);
    }
    text.push('\n');
    match &shown.body {
        Body::Message(message) => text.push_str(message),
        Body::Candidates {
            title,
            rows,
            picked,
        } => {
            text.push_str(title);
            for (index, row) in rows.iter().enumerate() {
                text.push_str(if index == *picked { "\n> " } else { "\n  " });
                text.push_str(row);
            }
        }
        Body::Browser { list, detail } => {
            text.push_str(&list.title);
            text.push('\n');
            for row in &list.rows {
                text.push_str(&row.text);
                text.push('\n');
            }
            text.push_str(list.notice.as_deref().unwrap_or(""));
            text.push('\n');
            match detail {
                Detail::Text(detail) => text.push_str(detail),
                Detail::Form(pane) => text.push_str(&pane.lines.join("\n")),
                Detail::Response(panel) => {
                    text.push_str(&panel_text(panel, arrangement.response.height as usize))
                }
            }
        }
    }
    text.push('\n');
    if let Some((status, _)) = &shown.status.status {
        text.push_str(status);
        text.push_str("  |  ");
    }
    text.push_str(&shown.status.keys);
    for overlay in &shown.overlays {
        text.push('\n');
        text.push_str(&overlay_text(
            overlay,
            arrangement.past_response.height as usize,
        ));
    }
    text
}

fn render_screen(state: &AppState) -> String {
    render_sized(state, 40)
}

fn render_state(state: &AppState) -> String {
    render_sized(state, 20)
}

fn overlays_text(state: &AppState) -> String {
    let (arrangement, shown) = arranged(state, 100, 20);
    shown
        .overlays
        .iter()
        .map(|overlay| overlay_text(overlay, arrangement.past_response.height as usize))
        .collect::<Vec<_>>()
        .join("\n")
}

const REQUEST_WITH_BEARER_AUTH: &str = "\
name: test
requests:
  - name: One
    method: GET
    url: https://example.com
    auth:
      bearer: secret-token
";

const EIGHT_REQUEST_COLLECTION: &str = "\
name: test
requests:
  - name: Login
    method: POST
    url: https://example.com/login
  - name: Logout
    method: POST
    url: https://example.com/logout
  - name: GetUsers
    method: GET
    url: https://example.com/users
  - name: CreateUser
    method: POST
    url: https://example.com/users
  - name: DeleteUser
    method: DELETE
    url: https://example.com/users/1
  - name: Healthcheck
    method: GET
    url: https://example.com/health
  - name: GetOrders
    method: GET
    url: https://example.com/orders
  - name: CreateOrder
    method: POST
    url: https://example.com/orders
";

const REQUEST_WITH_BASIC_AUTH_PREVIEW: &str = "\
name: test
requests:
  - name: One
    method: GET
    url: https://example.com
    auth:
      basic:
        user: ada
        pass: hunter2
";

const REQUEST_WITH_API_KEY_HEADER_AUTH: &str = "\
name: test
requests:
  - name: One
    method: GET
    url: https://example.com
    headers:
      Accept: application/json
    auth:
      api_key:
        in: header
        name: X-Api-Key
        value: secret-key-value
";

const REQUEST_WITH_API_KEY_QUERY_AUTH: &str = "\
name: test
requests:
  - name: One
    method: GET
    url: https://example.com
    auth:
      api_key:
        in: query
        name: api_key
        value: secret-key-value
";

const REQUEST_WITH_BASIC_AUTH: &str = "\
name: test
requests:
  - name: One
    method: GET
    url: https://example.com
    auth:
      basic:
        user: ada
        pass: hunter2
";

const REQUEST_WITH_API_KEY_AUTH: &str = "\
name: test
requests:
  - name: One
    method: GET
    url: https://example.com
    auth:
      api_key:
        in: header
        name: X-Api-Key
        value: abc123
";

const REQUEST_WITH_OAUTH_AUTH: &str = "\
name: test
requests:
  - name: One
    method: GET
    url: https://example.com
    auth:
      oauth:
        grant_type: client_credentials
        token_url: https://auth.example.com/token
        client_id: my-client
        client_secret: my-secret
";

const REQUEST_WITH_JSON_ASSERTION: &str = "\
name: test
requests:
  - name: One
    method: GET
    url: https://example.com
    assertions:
      json:
        $.status: ok
";

const REQUEST_WITH_NO_ASSERTIONS: &str = "\
name: test
requests:
  - name: One
    method: GET
    url: https://example.com
";

const REQUEST_WITH_JSON_PATH_CAPTURE: &str = "\
name: test
requests:
  - name: One
    method: GET
    url: https://example.com
    capture:
      id: $.id
";

const REQUEST_WITH_NO_CAPTURE: &str = "\
name: test
requests:
  - name: One
    method: GET
    url: https://example.com
";

const REQUEST_WITH_HEADERS: &str = "\
name: test
requests:
  - name: One
    method: GET
    url: https://example.com
    headers:
      Accept: application/json
      X-Env: staging
";

const REQUEST_WITH_PLAIN_BODY: &str = "\
name: test
requests:
  - name: One
    method: POST
    url: https://example.com
    body: hello world
";

const REQUEST_WITH_JSON_BODY: &str = "\
name: test
requests:
  - name: One
    method: POST
    url: https://example.com
    json:
      name: ada
";

const REQUEST_WITH_BODY_FILE: &str = "\
name: test
requests:
  - name: One
    method: POST
    url: https://example.com
    body_file: ./payload.json
";

const REQUEST_WITH_FORM_BODY: &str = "\
name: test
requests:
  - name: One
    method: POST
    url: https://example.com
    form:
      username: ada
";

const REQUEST_WITH_MULTIPART_BODY: &str = "\
name: test
requests:
  - name: One
    method: POST
    url: https://example.com
    multipart:
      - name: description
        value: a photo of my cat
";

#[test]
fn mod_help_bar_shows_browser_keys_when_idle() {
    let state = loaded_state(VALID_COLLECTION);

    let text = status_help_text(&state);

    assert!(text.contains("nav"), "{text}");
    assert!(text.contains("run"), "{text}");
    assert!(text.contains("env"), "{text}");
    assert!(text.contains('q'), "{text}");
    assert!(!text.contains("scroll"), "{text}");
    assert!(!text.contains("reveal"), "{text}");
}

#[test]
fn mod_help_bar_shows_only_overlay_keys_when_the_overlay_is_open() {
    let mut state = state_with_environments(&["default", "staging"]);
    update(&mut state, Message::OpenEnvironmentOverlay);

    let text = status_help_text(&state);

    assert!(text.contains("confirm"), "{text}");
    assert!(text.contains("cancel"), "{text}");
    assert!(text.contains('q'), "{text}");
    assert!(!text.contains("run"), "{text}");
    assert!(!text.contains("env"), "{text}");
}

#[test]
fn mod_help_bar_shows_only_quit_while_a_run_is_in_flight() {
    let mut state = loaded_state(VALID_COLLECTION);
    update(&mut state, Message::RunRequested);
    assert!(matches!(state.active().run_state, RunState::InFlight));

    let text = status_help_text(&state);

    assert!(text.contains('q'), "{text}");
    assert!(!text.contains("nav"), "{text}");
    assert!(!text.contains("run again"), "{text}");
    assert!(!text.contains("env"), "{text}");
    assert!(!text.contains("scroll"), "{text}");
}

#[test]
fn mod_help_bar_shows_scroll_and_nav_keys_once_a_run_has_completed() {
    let mut state = loaded_state(VALID_COLLECTION);
    update(&mut state, Message::RunRequested);
    let collection_id = state.active().id;
    update(
        &mut state,
        Message::RunCompleted {
            collection_id,
            completed_at: 0,
            outcome: sample_outcome(200),
        },
    );

    let text = status_help_text(&state);

    assert!(text.contains("scroll"), "{text}");
    assert!(text.contains("nav"), "{text}");
    assert!(text.contains("run again"), "{text}");
    assert!(text.contains("env"), "{text}");
    assert!(text.contains('q'), "{text}");
}

#[test]
fn mod_help_bar_only_mentions_capture_reveal_when_there_is_something_to_reveal() {
    let mut state = loaded_state(VALID_COLLECTION);
    update(&mut state, Message::RunRequested);
    let collection_id = state.active().id;
    update(
        &mut state,
        Message::RunCompleted {
            collection_id,
            completed_at: 0,
            outcome: sample_outcome(200),
        },
    );
    let no_captures_text = status_help_text(&state);
    assert!(
        !no_captures_text.contains("reveal"),
        "a run with no `capture:` block has nothing to reveal: {no_captures_text}"
    );

    let response = response_with(&[("X-Token", "super-secret")], "");
    let capture = evaluate_capture(
        "method: GET\nurl: https://example.com\ncapture:\n  token: {header: X-Token}\n",
        &response,
    );
    update(&mut state, Message::RunRequested);
    let collection_id = state.active().id;
    update(
        &mut state,
        Message::RunCompleted {
            collection_id,
            completed_at: 0,
            outcome: RunOutcome {
                result: Ok(response),
                assertions: AssertionReport::default(),
                capture,
            },
        },
    );

    let with_captures_text = status_help_text(&state);
    assert!(
        with_captures_text.contains("reveal"),
        "a run with a non-empty `capture:` block must advertise the reveal key: {with_captures_text}"
    );
}

#[test]
fn mod_help_bar_text_differs_across_all_four_contexts() {
    let idle = loaded_state(VALID_COLLECTION);

    let mut overlaid = state_with_environments(&["default"]);
    update(&mut overlaid, Message::OpenEnvironmentOverlay);

    let mut in_flight = loaded_state(VALID_COLLECTION);
    update(&mut in_flight, Message::RunRequested);

    let mut completed = loaded_state(VALID_COLLECTION);
    update(&mut completed, Message::RunRequested);
    let collection_id = completed.active().id;
    update(
        &mut completed,
        Message::RunCompleted {
            collection_id,
            completed_at: 0,
            outcome: sample_outcome(200),
        },
    );

    let texts = [
        status_help_text(&idle),
        status_help_text(&overlaid),
        status_help_text(&in_flight),
        status_help_text(&completed),
    ];

    for (i, a) in texts.iter().enumerate() {
        for (j, b) in texts.iter().enumerate() {
            if i != j {
                assert_ne!(
                    a, b,
                    "contexts {i} and {j} must show different help text, both got: {a:?}"
                );
            }
        }
    }
}

#[test]
fn mod_view_renders_different_help_bar_text_across_contexts() {
    let render = |state: &AppState| render_sized(state, 15);

    let mut state = loaded_state(VALID_COLLECTION);
    let browsing_screen = render(&state);
    assert!(browsing_screen.contains("nav"));
    assert!(!browsing_screen.contains("scroll"));

    update(&mut state, Message::RunRequested);
    let in_flight_screen = render(&state);
    assert!(in_flight_screen.contains("Running request"));
    assert!(!in_flight_screen.contains("nav"));

    let collection_id = state.active().id;
    update(
        &mut state,
        Message::RunCompleted {
            collection_id,
            completed_at: 0,
            outcome: sample_outcome(200),
        },
    );
    let completed_screen = render(&state);
    assert!(completed_screen.contains("scroll"));
    assert!(completed_screen.contains("nav"));

    let mut overlaid = loaded_state(VALID_COLLECTION);
    overlaid.active_mut().environments = vec![named_environment("default", &[])];
    update(&mut overlaid, Message::OpenEnvironmentOverlay);
    let overlay_screen = render(&overlaid);
    assert!(overlay_screen.contains("confirm"));
    assert!(overlay_screen.contains("cancel"));
    assert!(!overlay_screen.contains("run again"));

    assert_ne!(browsing_screen, in_flight_screen);
    assert_ne!(in_flight_screen, completed_screen);
    assert_ne!(browsing_screen, completed_screen);
    assert_ne!(browsing_screen, overlay_screen);
    assert_ne!(completed_screen, overlay_screen);
}

#[test]
fn mod_help_bar_shows_editing_state_and_its_own_keys() {
    let mut state = loaded_state(THREE_REQUEST_COLLECTION);

    update(&mut state, Message::EnterEditMode);

    let text = status_help_text(&state);
    assert!(text.contains("Editing"));
    assert!(text.contains("ctrl+s save"));
    assert!(text.contains("esc cancel"));
    assert!(
        !text.contains("nav"),
        "browsing keys must not be advertised while editing"
    );
}

#[test]
fn mod_format_error_shows_a_heading_and_the_real_error_verbatim() {
    let error = document_from(MALFORMED_YAML).expect_err("malformed test YAML");
    let expected = error.to_string();

    let text = format_error("Failed to load collection", &error);

    assert!(text.starts_with('⚠'), "{text}");
    assert!(text.contains("Failed to load collection"), "{text}");
    assert!(
        text.contains(&expected),
        "the real error text must appear verbatim: {text}"
    );
}

#[test]
fn mod_help_bar_offers_only_env_and_quit_with_no_collection_loaded() {
    for state in [
        AppState::default(),
        {
            let mut s = AppState::default();
            update(&mut s, Message::NoCollectionPath);
            s
        },
        {
            let mut s = AppState::default();
            let error =
                document_from(MALFORMED_YAML).expect_err("malformed test YAML");
            update(
                &mut s,
                Message::CollectionLoaded {
                    base_dir: ".".to_string(),
                    path: FilePath::new("collection.yaml".to_string()),
                    result: Err(error),
                },
            );
            s
        },
    ] {
        let text = status_help_text(&state);
        assert!(text.contains("env"), "{text}");
        assert!(text.contains('q'), "{text}");
        assert!(
            !text.contains("nav") && !text.contains("run"),
            "no collection means nothing to navigate or run: {text}"
        );
    }
}

#[test]
fn mod_view_shows_a_readable_error_for_a_malformed_collection_and_stays_responsive() {
    let mut state = AppState::default();
    let error = document_from(MALFORMED_YAML).expect_err("malformed test YAML");
    let expected = error.to_string();
    update(
        &mut state,
        Message::CollectionLoaded {
            base_dir: ".".to_string(),
            path: FilePath::new("collection.yaml".to_string()),
            result: Err(error),
        },
    );

    let screen = render_sized(&state, 15);
    assert!(
        screen.contains(&expected),
        "the real parse error must be readable on screen:\n{screen}"
    );
    assert!(
        screen.contains('q'),
        "the help bar must still show quit works:\n{screen}"
    );
}

#[test]
fn mod_view_shows_a_readable_error_for_a_malformed_environment_file() {
    let mut state = loaded_state(VALID_COLLECTION);
    let bad_error = document_from(MALFORMED_YAML).expect_err("malformed test YAML");
    let expected = bad_error.to_string();
    update(
        &mut state,
        Message::EnvironmentsLoaded {
            environments: Vec::new(),
            errors: vec![("staging".to_string(), bad_error)],
        },
    );
    update(&mut state, Message::OpenEnvironmentOverlay);

    let screen = render_sized(&state, 15);
    assert!(
        screen.contains("staging"),
        "the broken environment's name must be visible:\n{screen}"
    );
    assert!(
        screen.contains(&expected),
        "the real environment error must be readable on screen:\n{screen}"
    );
}

#[test]
fn mod_every_screen_survives_a_very_small_terminal_size() {
    let draw = |state: &AppState, width: u16, height: u16| {
        let (arrangement, _) = arranged(state, width, height);
        for part in [
            arrangement.main,
            arrangement.list,
            arrangement.detail,
            arrangement.response,
            arrangement.response_footer,
            arrangement.status,
        ] {
            assert!(
                part.x + part.width <= width && part.y + part.height <= height,
                "{width}x{height}: {part:?} reaches beyond the screen"
            );
        }
    };

    let sizes: [(u16, u16); 4] = [(1, 1), (2, 1), (1, 2), (4, 3)];

    for (width, height) in sizes {
        draw(&AppState::default(), width, height);

        let mut browsing = loaded_state(THREE_REQUEST_COLLECTION);
        draw(&browsing, width, height);

        update(&mut browsing, Message::RunRequested);
        let collection_id = browsing.active().id;
        update(
            &mut browsing,
            Message::RunCompleted {
                collection_id,
                completed_at: 0,
                outcome: sample_outcome(200),
            },
        );
        browsing.active_mut().response_scroll = 9_999;
        draw(&browsing, width, height);

        let mut overlaid = loaded_state(VALID_COLLECTION);
        overlaid.active_mut().environments = vec![
            named_environment("default", &[("token", "abc")]),
            named_environment("staging", &[]),
        ];
        update(&mut overlaid, Message::OpenEnvironmentOverlay);
        draw(&overlaid, width, height);

        let mut failed = AppState::default();
        let error = document_from(MALFORMED_YAML).expect_err("malformed test YAML");
        update(
            &mut failed,
            Message::CollectionLoaded {
                base_dir: ".".to_string(),
                path: FilePath::new("collection.yaml".to_string()),
                result: Err(error),
            },
        );
        draw(&failed, width, height);

        let mut editing = loaded_state(THREE_REQUEST_COLLECTION);
        update(&mut editing, Message::EnterEditMode);
        type_into_focused_field(&mut editing, "X");
        draw(&editing, width, height);
    }
}

#[test]
fn help_bar_shows_environment_edit_keys_and_the_row_delete_confirmation_keys() {
    let mut state = loaded_state_with_saved_environment("https://example.com");
    update(&mut state, Message::OpenEnvironmentOverlay);
    update(&mut state, Message::EnterEnvironmentEdit);

    let editing_text = status_help_text(&state);
    assert!(editing_text.contains("ctrl+s save"), "{editing_text}");
    assert!(editing_text.contains("ctrl+d delete"), "{editing_text}");

    update(&mut state, Message::RequestDeleteEnvVarRow);
    let pending_text = status_help_text(&state);
    assert!(pending_text.contains("y/enter confirm"), "{pending_text}");
}

#[test]
fn filtering_shows_only_matches_and_marks_the_pane_as_filtered() {
    let mut state = loaded_state(EIGHT_REQUEST_COLLECTION);
    update(&mut state, Message::OpenRequestFilter);

    let unfiltered_screen = render_screen(&state);
    assert!(unfiltered_screen.contains("Login"));
    assert!(unfiltered_screen.contains("Healthcheck"));
    assert!(
        unfiltered_screen.contains(" Requests ") || unfiltered_screen.contains("filter: \"\""),
        "an empty query shows every request but the pane title should \
             already say a filter is active:\n{unfiltered_screen}"
    );

    type_query(&mut state, "user");
    let filtered_screen = render_screen(&state);

    assert!(
        filtered_screen.contains("GetUsers"),
        "a matching request must still be shown:\n{filtered_screen}"
    );
    assert!(
        filtered_screen.contains("CreateUser"),
        "a matching request must still be shown:\n{filtered_screen}"
    );
    assert!(
        filtered_screen.contains("DeleteUser"),
        "a matching request must still be shown:\n{filtered_screen}"
    );
    assert!(
        !filtered_screen.contains("Login"),
        "a non-matching request must be hidden, not merely unselected:\n{filtered_screen}"
    );
    assert!(
        !filtered_screen.contains("Healthcheck"),
        "a non-matching request must be hidden:\n{filtered_screen}"
    );
    assert!(
        filtered_screen.contains("filter: \"user\""),
        "the pane's own title must name the active query in plain text:\n{filtered_screen}"
    );
    assert!(
        filtered_screen.contains("(3/8)"),
        "the pane's own title must say how many of the 8 real requests \
             currently match:\n{filtered_screen}"
    );
}

#[test]
fn a_filter_matching_nothing_shows_a_placeholder_instead_of_an_empty_list() {
    let mut state = loaded_state(EIGHT_REQUEST_COLLECTION);
    update(&mut state, Message::OpenRequestFilter);
    type_query(&mut state, "zzz-no-such-request");

    let screen = render_screen(&state);
    assert!(
        screen.contains("no requests match"),
        "an empty filtered list must say so, not render blank:\n{screen}"
    );
}

#[test]
fn navigating_the_filtered_list_moves_only_between_visible_matches() {
    let mut state = loaded_state(EIGHT_REQUEST_COLLECTION);
    update(&mut state, Message::OpenRequestFilter);
    type_query(&mut state, "user");
    assert_eq!(
        document_name(&state, selected(&state)),
        "GetUsers",
        "typing must have snapped selection onto the first match"
    );

    update(&mut state, Message::SelectNext);
    assert_eq!(document_name(&state, selected(&state)), "CreateUser");

    update(&mut state, Message::SelectNext);
    assert_eq!(document_name(&state, selected(&state)), "DeleteUser");

    update(&mut state, Message::SelectNext);
    assert_eq!(document_name(&state, selected(&state)), "GetUsers");
}

#[test]
fn clearing_the_filter_restores_the_full_list_with_sane_selection() {
    let mut state = loaded_state(EIGHT_REQUEST_COLLECTION);
    update(&mut state, Message::OpenRequestFilter);
    type_query(&mut state, "user");
    update(&mut state, Message::SelectNext);
    assert_eq!(document_name(&state, selected(&state)), "CreateUser");

    update(&mut state, Message::CloseRequestFilter);

    let screen = render_screen(&state);
    assert!(
        screen.contains("Login"),
        "every request must be back:\n{screen}"
    );
    assert!(
        screen.contains("Healthcheck"),
        "every request must be back:\n{screen}"
    );
    assert!(
        screen.contains(" Requests "),
        "the pane title must go back to its plain, unfiltered form:\n{screen}"
    );
    assert_eq!(
        document_name(&state, selected(&state)),
        "CreateUser",
        "selection must still be on the same real request after clearing the filter"
    );
}

#[test]
fn browsing_preview_masks_a_bearer_token_by_default() {
    let state = loaded_state(REQUEST_WITH_BEARER_AUTH);

    let screen = render_screen(&state);

    assert!(
        !screen.contains("secret-token"),
        "the real bearer token must not appear while merely browsing:\n{screen}"
    );
    assert!(
        screen.contains(REDACTED_CAPTURE_VALUE),
        "the resolved Authorization header must show the redaction placeholder:\n{screen}"
    );
}

#[test]
fn browsing_preview_masks_a_basic_auth_password_by_masking_the_whole_header() {
    let state = loaded_state(REQUEST_WITH_BASIC_AUTH_PREVIEW);

    let screen = render_screen(&state);

    assert!(
        !screen.contains("aunter2") && !screen.contains("hunter2"),
        "the real password must not be recoverable from the screen:\n{screen}"
    );
    assert!(screen.contains(REDACTED_CAPTURE_VALUE), "{screen}");
}

#[test]
fn browsing_preview_masks_an_api_key_placed_in_a_header_but_not_an_ordinary_header() {
    let state = loaded_state(REQUEST_WITH_API_KEY_HEADER_AUTH);

    let screen = render_screen(&state);

    assert!(
        !screen.contains("secret-key-value"),
        "the real api key value must not appear while merely browsing:\n{screen}"
    );
    assert!(
        screen.contains("X-Api-Key") && screen.contains(REDACTED_CAPTURE_VALUE),
        "the api key header must still be listed by name, with its value masked:\n{screen}"
    );
    assert!(
        screen.contains("Accept: application/json"),
        "an ordinary, non-auth header must never be masked:\n{screen}"
    );
}

#[test]
fn browsing_preview_masks_an_api_key_placed_in_the_query_string() {
    let state = loaded_state(REQUEST_WITH_API_KEY_QUERY_AUTH);

    let screen = render_screen(&state);

    assert!(
        !screen.contains("secret-key-value"),
        "the real api key value must not appear in the URL while merely browsing:\n{screen}"
    );
    assert!(
        screen.contains(&format!("api_key={REDACTED_CAPTURE_VALUE}")),
        "the query parameter's name must stay visible, only its value masked:\n{screen}"
    );
}

#[test]
fn pressing_c_reveals_auth_in_the_browsing_preview_and_hides_it_again() {
    let mut state = loaded_state(REQUEST_WITH_BEARER_AUTH);

    let masked = render_screen(&state);
    assert!(!masked.contains("secret-token"), "{masked}");

    update(&mut state, Message::ToggleRevealCaptures);
    let revealed = render_screen(&state);
    assert!(
        revealed.contains("Bearer secret-token"),
        "the same key that reveals captures must reveal auth too:\n{revealed}"
    );

    update(&mut state, Message::ToggleRevealCaptures);
    let masked_again = render_screen(&state);
    assert!(!masked_again.contains("secret-token"), "{masked_again}");
}

#[test]
fn editing_the_request_always_shows_the_real_auth_value_regardless_of_reveal_state() {
    let mut state = loaded_state(REQUEST_WITH_BEARER_AUTH);
    assert!(
        !state.active().reveal_captures,
        "masked by default, same as browsing"
    );

    update(&mut state, Message::EnterEditMode);
    let screen = render_screen(&state);

    assert!(
        screen.contains("secret-token"),
        "edit mode must always show the real value, never masked:\n{screen}"
    );
}

#[test]
fn a_request_with_no_auth_shows_nothing_masked_and_advertises_no_reveal_key() {
    let state = loaded_state(THREE_REQUEST_COLLECTION);

    let screen = render_screen(&state);
    let help = status_help_text(&state);

    assert!(
        !screen.contains(REDACTED_CAPTURE_VALUE),
        "nothing to mask means nothing should show the placeholder:\n{screen}"
    );
    assert!(
        !help.contains("reveal"),
        "advertising the reveal key for a request with nothing to reveal would be \
             misleading: {help}"
    );
}

#[test]
fn browser_body_under_the_cap_is_shown_in_full() {
    let (preview, truncated) = truncate_body("short body");
    assert_eq!(preview, "short body");
    assert!(!truncated);
}

#[test]
fn browser_body_over_the_cap_is_truncated_not_panicked_on() {
    let huge = "x".repeat(MAX_BODY_PREVIEW_CHARS * 3);

    let (preview, truncated) = truncate_body(&huge);

    assert_eq!(preview.chars().count(), MAX_BODY_PREVIEW_CHARS);
    assert!(truncated);
}

#[test]
fn browser_dirty_marker_renders_next_to_the_edited_request_in_the_collection_browser() {
    let render = |state: &AppState| render_sized(state, 10);

    let mut state = loaded_state(THREE_REQUEST_COLLECTION);
    let clean_screen = render(&state);
    assert!(
        !clean_screen.contains('*'),
        "nothing is dirty yet, so no marker should render:\n{clean_screen}"
    );

    update(&mut state, Message::EnterEditMode);
    type_into_focused_field(&mut state, "X");
    let dirty_screen = render(&state);
    assert!(
        dirty_screen.contains("*GET One"),
        "the dirty request must show a marker in the collection browser:\n{dirty_screen}"
    );

    update(&mut state, Message::CancelEdit);
    let cancelled_screen = render(&state);
    assert!(
        !cancelled_screen.contains('*'),
        "cancelling must remove the marker again:\n{cancelled_screen}"
    );
}

#[test]
fn edit_form_edit_pane_shows_the_bearer_token_and_its_resolved_authorization_header() {
    let mut state = loaded_state(REQUEST_WITH_BEARER_AUTH);
    update(&mut state, Message::EnterEditMode);

    let screen = render_screen(&state);

    assert!(
        screen.contains("Bearer token: secret-token"),
        "the bearer token field must be shown:\n{screen}"
    );
    assert!(
        screen.contains("Resolved auth"),
        "the live resolved-auth preview must be shown:\n{screen}"
    );
    assert!(
        screen.contains("Authorization: Bearer secret-token"),
        "the resolved preview must show the real Authorization header \
             resolve_auth would send:\n{screen}"
    );
}

#[test]
fn edit_form_edit_pane_shows_basic_auth_user_and_password_fields() {
    let mut state = loaded_state(REQUEST_WITH_BASIC_AUTH);
    update(&mut state, Message::EnterEditMode);

    let screen = render_screen(&state);

    assert!(screen.contains("User: ada"), "{screen}");
    assert!(screen.contains("Password: hunter2"), "{screen}");
}

#[test]
fn edit_form_edit_pane_shows_api_key_fields_and_its_fixed_location_enum() {
    let mut state = loaded_state(REQUEST_WITH_API_KEY_AUTH);
    update(&mut state, Message::EnterEditMode);

    let screen = render_screen(&state);

    assert!(screen.contains("Name: X-Api-Key"), "{screen}");
    assert!(screen.contains("Value: abc123"), "{screen}");
    assert!(
        screen.contains("Location: header"),
        "the location must show its real fixed-enum value, not free text:\n{screen}"
    );
    assert!(
        screen.contains("←/→ to change"),
        "a toggle hint must be shown for the fixed-enum location field:\n{screen}"
    );
    assert!(
        screen.contains("X-Api-Key: abc123"),
        "the resolved preview must show the real header resolve_auth would add:\n{screen}"
    );
}

#[test]
fn edit_form_edit_pane_shows_oauth_config_fields_as_editable_plain_text() {
    let mut state = loaded_state(REQUEST_WITH_OAUTH_AUTH);
    update(&mut state, Message::EnterEditMode);

    let screen = render_screen(&state);

    assert!(
        screen.contains("Grant type: client_credentials"),
        "{screen}"
    );
    assert!(
        screen.contains("Token URL: https://auth.example.com/token"),
        "{screen}"
    );
    assert!(screen.contains("Client ID: my-client"), "{screen}");
    assert!(screen.contains("Client secret: my-secret"), "{screen}");
}

#[test]
fn edit_form_edit_pane_marks_oauth_as_read_only_in_the_resolved_auth_preview() {
    let mut state = loaded_state(REQUEST_WITH_OAUTH_AUTH);
    update(&mut state, Message::EnterEditMode);

    let screen = render_screen(&state);

    assert!(
        screen.contains("OAuth token acquired at request time"),
        "the resolved-auth preview must name the OAuth limitation, not just be blank:\n{screen}"
    );
}

#[test]
fn edit_form_edit_pane_shows_no_auth_configured_for_a_request_with_no_auth_block() {
    let mut state = loaded_state(THREE_REQUEST_COLLECTION);
    update(&mut state, Message::EnterEditMode);

    let screen = render_screen(&state);

    assert!(
        screen.contains("no auth configured on this request"),
        "{screen}"
    );
}

#[test]
fn edit_form_tab_reaches_the_auth_section_and_toggling_the_api_key_location_shows_up_live() {
    let mut state = loaded_state(REQUEST_WITH_API_KEY_AUTH);
    update(&mut state, Message::EnterEditMode);
    state.active_mut().edit_mode.as_mut().unwrap().focus = EditField::Auth(AuthField::ApiKeyLocation);

    let before = render_screen(&state);
    assert!(before.contains("X-Api-Key: abc123"), "{before}");
    assert!(!before.contains("query X-Api-Key=abc123"), "{before}");

    update(&mut state, Message::EditCursorRight);
    let after = render_screen(&state);
    assert!(
        after.contains("Location: query"),
        "the displayed location must reflect the toggle:\n{after}"
    );
    assert!(
        after.contains("query X-Api-Key=abc123"),
        "the resolved preview must move the api key into the query string too:\n{after}"
    );
}

#[test]
fn edit_pane_shows_no_assertions_placeholder_for_a_request_with_none() {
    let mut state = loaded_state(REQUEST_WITH_NO_ASSERTIONS);
    update(&mut state, Message::EnterEditMode);

    let screen = render_screen(&state);

    assert!(screen.contains("Assertions (json path):"), "{screen}");
    assert!(screen.contains("(none)"), "{screen}");
}

#[test]
fn edit_pane_lists_an_existing_json_assertion_row() {
    let mut state = loaded_state(REQUEST_WITH_JSON_ASSERTION);
    update(&mut state, Message::EnterEditMode);

    let screen = render_screen(&state);

    assert!(screen.contains("Path: $.status"), "{screen}");
    assert!(screen.contains("Op: equals"), "{screen}");
    assert!(screen.contains("Value: ok"), "{screen}");
    assert!(screen.contains("Negate: no"), "{screen}");
}

#[test]
fn add_assertion_row_key_bind_shows_up_as_a_new_empty_row_on_screen() {
    let mut state = loaded_state(REQUEST_WITH_JSON_ASSERTION);
    update(&mut state, Message::EnterEditMode);

    update(&mut state, Message::AddAssertionRow);

    let screen = render_screen(&state);
    assert!(screen.contains("[1] Path: "), "{screen}");
}

#[test]
fn delete_assertion_row_key_bind_removes_a_row_from_screen() {
    let mut state = loaded_state(REQUEST_WITH_JSON_ASSERTION);
    update(&mut state, Message::EnterEditMode);
    state.active_mut().edit_mode.as_mut().unwrap().focus = EditField::AssertionPath(0);

    update(&mut state, Message::DeleteAssertionRow);

    let screen = render_screen(&state);
    assert!(!screen.contains("$.status"), "{screen}");
    assert!(screen.contains("(none)"), "{screen}");
}

#[test]
fn edit_pane_marks_whichever_assertion_sub_field_has_focus() {
    let mut state = loaded_state(REQUEST_WITH_JSON_ASSERTION);
    update(&mut state, Message::EnterEditMode);
    state.active_mut().edit_mode.as_mut().unwrap().focus = EditField::AssertionValue(0);

    let screen = render_screen(&state);
    let value_line = screen
        .lines()
        .find(|line| line.contains("Value: ok"))
        .expect("the assertion row's line must be on screen");
    assert!(
        value_line.contains('▶'),
        "the focused sub-field's line must carry a focus marker: {value_line}"
    );
}

#[test]
fn tab_reaches_the_assertion_section_and_toggling_the_operator_shows_up_live() {
    let mut state = loaded_state(REQUEST_WITH_JSON_ASSERTION);
    update(&mut state, Message::EnterEditMode);
    state.active_mut().edit_mode.as_mut().unwrap().focus = EditField::AssertionOperator(0);

    let before = render_screen(&state);
    assert!(before.contains("Op: equals"), "{before}");

    update(&mut state, Message::EditCursorRight);
    let after = render_screen(&state);
    assert!(
        after.contains("Op: greater_than"),
        "the displayed operator must reflect the toggle:\n{after}"
    );
}

#[test]
fn tab_reaches_the_assertion_section_and_toggling_negate_shows_up_live() {
    let mut state = loaded_state(REQUEST_WITH_JSON_ASSERTION);
    update(&mut state, Message::EnterEditMode);
    state.active_mut().edit_mode.as_mut().unwrap().focus = EditField::AssertionNegate(0);

    update(&mut state, Message::EditCursorRight);
    let after = render_screen(&state);
    assert!(
        after.contains("Negate: yes"),
        "the displayed negate flag must reflect the toggle:\n{after}"
    );
}

#[test]
fn edit_pane_shows_a_value_parse_error_inline_on_the_assertion_row() {
    let mut state = loaded_state(REQUEST_WITH_JSON_ASSERTION);
    update(&mut state, Message::EnterEditMode);
    state.active_mut().edit_mode.as_mut().unwrap().focus = EditField::AssertionValue(0);
    backspace_n(&mut state, "ok".len());
    type_into_focused_field(&mut state, "[a, b");

    let screen = render_screen(&state);
    assert!(
        screen.contains('⚠'),
        "a malformed value must show an inline warning:\n{screen}"
    );
}

#[test]
fn edit_pane_shows_no_captures_placeholder_for_a_request_with_none() {
    let mut state = loaded_state(REQUEST_WITH_NO_CAPTURE);
    update(&mut state, Message::EnterEditMode);

    let screen = render_screen(&state);

    assert!(screen.contains("Captures:"), "{screen}");
    assert!(screen.contains("(none)"), "{screen}");
}

#[test]
fn edit_pane_lists_an_existing_json_path_capture_row() {
    let mut state = loaded_state(REQUEST_WITH_JSON_PATH_CAPTURE);
    update(&mut state, Message::EnterEditMode);

    let screen = render_screen(&state);

    assert!(screen.contains("Name: id"), "{screen}");
    assert!(screen.contains("Source: json path"), "{screen}");
    assert!(screen.contains("Value: $.id"), "{screen}");
}

#[test]
fn add_capture_row_key_bind_shows_up_as_a_new_empty_row_on_screen() {
    let mut state = loaded_state(REQUEST_WITH_JSON_PATH_CAPTURE);
    update(&mut state, Message::EnterEditMode);

    update(&mut state, Message::AddCaptureRow);

    let screen = render_screen(&state);
    assert!(screen.contains("[1] Name: "), "{screen}");
}

#[test]
fn delete_capture_row_key_bind_removes_a_row_from_screen() {
    let mut state = loaded_state(REQUEST_WITH_JSON_PATH_CAPTURE);
    update(&mut state, Message::EnterEditMode);
    state.active_mut().edit_mode.as_mut().unwrap().focus = EditField::CaptureName(0);

    update(&mut state, Message::DeleteCaptureRow);

    let screen = render_screen(&state);
    assert!(!screen.contains("Name: id"), "{screen}");
    assert!(screen.contains("(none)"), "{screen}");
}

#[test]
fn edit_pane_marks_whichever_capture_sub_field_has_focus() {
    let mut state = loaded_state(REQUEST_WITH_JSON_PATH_CAPTURE);
    update(&mut state, Message::EnterEditMode);
    state.active_mut().edit_mode.as_mut().unwrap().focus = EditField::CaptureValue(0);

    let screen = render_screen(&state);
    let value_line = screen
        .lines()
        .find(|line| line.contains("Value: $.id"))
        .expect("the capture row's line must be on screen");
    assert!(
        value_line.contains('▶'),
        "the focused sub-field's line must carry a focus marker: {value_line}"
    );
}

#[test]
fn tab_reaches_the_capture_section_and_toggling_the_kind_shows_up_live() {
    let mut state = loaded_state(REQUEST_WITH_JSON_PATH_CAPTURE);
    update(&mut state, Message::EnterEditMode);
    state.active_mut().edit_mode.as_mut().unwrap().focus = EditField::CaptureKind(0);

    let before = render_screen(&state);
    assert!(before.contains("Source: json path"), "{before}");

    update(&mut state, Message::EditCursorRight);
    let after = render_screen(&state);
    assert!(
        after.contains("Source: header"),
        "the displayed source kind must reflect the toggle:\n{after}"
    );
}

#[test]
fn edit_pane_shows_a_save_error_inline_after_a_failed_write() {
    let mut disk = Disk::default();
    let path = "collection.yaml".to_string();
    disk.block(&path);

    let mut state = AppState::default();
    let document = document_from("method: GET\nurl: https://example.com\n").unwrap();
    disk.update(
        &mut state,
        Message::CollectionLoaded {
            base_dir: ".".to_string(),
            path: FilePath::new(path),
            result: Ok(document),
        },
    );
    disk.update(&mut state, Message::EnterEditMode);

    disk.update(&mut state, Message::SaveEdit);

    let screen = render_screen(&state);
    assert!(
        screen.contains("Save failed"),
        "a failed save must show a readable error in the pane:\n{screen}"
    );
    assert!(
        state.active().edit_mode.is_some(),
        "the pane must still be in edit mode after a failed save"
    );
}

#[test]
fn pressing_n_shows_the_new_request_selected_dirty_and_already_in_edit_mode() {
    let mut state = loaded_state(THREE_REQUEST_COLLECTION);

    update(&mut state, Message::AddRequest);

    let screen = render_screen(&state);
    assert!(
        screen.contains("New request"),
        "the new request must show up in the collection browser:\n{screen}"
    );
    assert!(
        screen.contains('*'),
        "the new, unsaved request must carry the same dirty marker any other unsaved \
             edit does:\n{screen}"
    );
    assert!(
        screen.contains("▶ Name:   New request"),
        "AddRequest must land straight in the edit pane, focused on Name:\n{screen}"
    );
}

#[test]
fn edit_pane_shows_the_name_field_with_its_focus_marker_and_live_edits() {
    let mut state = loaded_state(THREE_REQUEST_COLLECTION);
    update(&mut state, Message::EnterEditMode);

    let before = render_screen(&state);
    assert!(before.contains("▶ Name:   One"), "{before}");

    type_into_focused_field(&mut state, " (renamed)");
    let after = render_screen(&state);
    assert!(after.contains("▶ Name:   One (renamed)"), "{after}");
}

#[test]
fn edit_pane_shows_a_save_error_inline_when_a_collection_request_is_left_unnamed() {
    let mut state = loaded_state(THREE_REQUEST_COLLECTION);
    update(&mut state, Message::EnterEditMode);
    backspace_n(&mut state, "One".len());

    update(&mut state, Message::SaveEdit);

    let screen = render_screen(&state);
    assert!(
        screen.contains("Save failed"),
        "an unnamed request inside a collection must be refused with a visible \
             error:\n{screen}"
    );
}

#[test]
fn edit_form_edit_pane_renders_both_fields_focus_marker_and_validation_message() {
    let render = |state: &AppState| render_sized(state, 13);

    let mut state = loaded_state(THREE_REQUEST_COLLECTION);
    update(&mut state, Message::EnterEditMode);

    let initial_screen = render(&state);
    assert!(initial_screen.contains("Method: GET"));
    assert!(initial_screen.contains("URL:    https://example.com"));
    assert!(
        initial_screen.contains("▶ Name"),
        "focus starts on the name field:\n{initial_screen}"
    );

    update(&mut state, Message::EditFocusNext);

    backspace_n(&mut state, "GET".len());
    type_into_focused_field(&mut state, "FOOBAR");
    let invalid_screen = render(&state);
    assert!(
        invalid_screen.contains("FOOBAR"),
        "the invalid text itself must still be shown:\n{invalid_screen}"
    );
    assert!(
        invalid_screen.contains("not a valid HTTP") && invalid_screen.contains("method"),
        "the inline validation message must be visible:\n{invalid_screen}"
    );

    update(&mut state, Message::EditFocusNext);
    let focus_moved_screen = render(&state);
    assert!(
        focus_moved_screen.contains("▶ URL"),
        "focus must have moved to the URL field:\n{focus_moved_screen}"
    );
}

#[test]
fn edit_form_edit_pane_shows_no_headers_placeholder_for_a_request_with_none() {
    let mut state = loaded_state(THREE_REQUEST_COLLECTION);
    update(&mut state, Message::EnterEditMode);

    let screen = render_state(&state);

    assert!(screen.contains("Headers:"));
    assert!(
        screen.contains("(none)"),
        "an edit with no headers must say so, not just show a bare heading:\n{screen}"
    );
}

#[test]
fn edit_form_edit_pane_lists_every_header_row_with_its_key_and_value() {
    let mut state = loaded_state(REQUEST_WITH_HEADERS);
    update(&mut state, Message::EnterEditMode);

    let screen = render_state(&state);

    assert!(screen.contains("Key: Accept"));
    assert!(screen.contains("Value: application/json"));
    assert!(screen.contains("Key: X-Env"));
    assert!(screen.contains("Value: staging"));
}

#[test]
fn edit_form_edit_pane_marks_whichever_header_side_has_focus() {
    let mut state = loaded_state(REQUEST_WITH_HEADERS);
    update(&mut state, Message::EnterEditMode);
    state.active_mut().edit_mode.as_mut().unwrap().focus = EditField::HeaderKey(0);

    let key_focused = render_state(&state);
    let key_line = key_focused
        .lines()
        .find(|line| line.contains("Key: Accept"))
        .expect("the Accept row must be on screen");
    assert!(
        key_line.contains("▶[0] Key: Accept"),
        "the key side must carry the focus marker:\n{key_line}"
    );

    state.active_mut().edit_mode.as_mut().unwrap().focus = EditField::HeaderValue(0);
    let value_focused = render_state(&state);
    let value_line = value_focused
        .lines()
        .find(|line| line.contains("Key: Accept"))
        .expect("the Accept row must be on screen");
    assert!(
        !value_line.contains("▶[0] Key:"),
        "focus moved off the key side, so it must no longer carry the marker:\n{value_line}"
    );
    assert!(
        value_line.contains('▶'),
        "the value side must now carry the focus marker:\n{value_line}"
    );
}

#[test]
fn edit_form_add_header_row_key_bind_shows_up_as_a_new_empty_row_on_screen() {
    let mut state = loaded_state(REQUEST_WITH_HEADERS);
    update(&mut state, Message::EnterEditMode);

    update(&mut state, Message::AddHeaderRow);
    let screen = render_state(&state);

    assert!(
        screen.contains("[2] Key:"),
        "a third, empty header row must now be on screen:\n{screen}"
    );
}

#[test]
fn edit_form_delete_header_row_key_bind_removes_a_row_from_screen() {
    let mut state = loaded_state(REQUEST_WITH_HEADERS);
    update(&mut state, Message::EnterEditMode);
    state.active_mut().edit_mode.as_mut().unwrap().focus = EditField::HeaderKey(0);

    update(&mut state, Message::DeleteHeaderRow);
    let screen = render_state(&state);

    assert!(
        !screen.contains("Accept"),
        "the deleted row's key must no longer be on screen:\n{screen}"
    );
    assert!(
        screen.contains("X-Env"),
        "the remaining row must still be on screen:\n{screen}"
    );
}

#[test]
fn edit_form_edit_pane_shows_a_plain_text_body_as_an_editable_raw_area() {
    let mut state = loaded_state(REQUEST_WITH_PLAIN_BODY);
    update(&mut state, Message::EnterEditMode);

    let screen = render_state(&state);

    assert!(screen.contains("Body (raw)"));
    assert!(screen.contains("hello world"));
}

#[test]
fn edit_form_edit_pane_shows_a_json_body_pretty_printed_and_editable() {
    let mut state = loaded_state(REQUEST_WITH_JSON_BODY);
    update(&mut state, Message::EnterEditMode);

    let screen = render_state(&state);

    assert!(screen.contains("Body (json)"));
    assert!(screen.contains("\"name\""));
    assert!(screen.contains("\"ada\""));
}

#[test]
fn edit_form_edit_pane_shows_body_file_as_read_only_with_its_path_visible() {
    let mut state = loaded_state(REQUEST_WITH_BODY_FILE);
    update(&mut state, Message::EnterEditMode);

    let screen = render_state(&state);

    assert!(
        screen.contains("./payload.json"),
        "the path must be visible so the limitation is honest, not just documented:\n{screen}"
    );
    assert!(screen.contains("not editable"));
    assert!(!screen.contains("▶ Body"));
}

#[test]
fn edit_form_edit_pane_shows_form_body_as_read_only_with_field_count() {
    let mut state = loaded_state(REQUEST_WITH_FORM_BODY);
    update(&mut state, Message::EnterEditMode);

    let screen = render_state(&state);

    assert!(screen.contains("form body"));
    assert!(screen.contains("not editable"));
}

#[test]
fn edit_form_edit_pane_shows_multipart_body_as_read_only_with_part_count() {
    let mut state = loaded_state(REQUEST_WITH_MULTIPART_BODY);
    update(&mut state, Message::EnterEditMode);

    let screen = render_state(&state);

    assert!(screen.contains("multipart body"));
    assert!(screen.contains("not editable"));
}

#[test]
fn edit_form_tab_reaches_the_body_field_and_shows_its_focus_marker() {
    let mut state = loaded_state(REQUEST_WITH_PLAIN_BODY);
    update(&mut state, Message::EnterEditMode);
    state.active_mut().edit_mode.as_mut().unwrap().focus = EditField::Body;

    let screen = render_state(&state);

    assert!(
        screen.lines().any(|line| line.contains("▶ Body (raw)")),
        "the Body heading must carry the focus marker:\n{screen}"
    );
}

#[test]
fn edit_form_invalid_json_body_shows_an_inline_error_on_screen_after_a_failed_save() {
    let mut state = loaded_state(REQUEST_WITH_JSON_BODY);
    update(&mut state, Message::EnterEditMode);
    state.active_mut().edit_mode.as_mut().unwrap().focus = EditField::Body;
    type_into_focused_field(&mut state, "not valid json at all");

    update(&mut state, Message::SaveEdit);
    let screen = render_state(&state);

    assert!(
        screen.contains("not valid JSON") || screen.contains("Body is not valid JSON"),
        "the JSON parse error must be visible in the pane itself:\n{screen}"
    );
    assert!(
        screen.contains("not valid json at all"),
        "the invalid text the user typed must still be shown, not discarded:\n{screen}"
    );
}

#[test]
fn edit_form_a_multiline_body_renders_every_line() {
    let mut state = loaded_state(REQUEST_WITH_PLAIN_BODY);
    update(&mut state, Message::EnterEditMode);
    state.active_mut().edit_mode.as_mut().unwrap().focus = EditField::Body;
    update(&mut state, Message::EditInsertChar('\n'));
    type_into_focused_field(&mut state, "second line");

    let screen = render_state(&state);

    assert!(screen.contains("hello world"));
    assert!(screen.contains("second line"));
}

#[test]
fn saved_environment_variable_edits_show_up_live_in_the_resolved_preview() {
    let mut state = loaded_state_with_saved_environment("old-value");

    let before = render_screen(&state);
    assert!(
        before.contains("https://example.com/old-value"),
        "sanity: the preview must resolve against the original value first:\n{before}"
    );

    update(&mut state, Message::OpenEnvironmentOverlay);
    update(&mut state, Message::EnterEnvironmentEdit);
    update(&mut state, Message::EditFocusNext);
    for _ in 0.."old-value".len() {
        update(&mut state, Message::EditBackspace);
    }
    for ch in "new-value".chars() {
        update(&mut state, Message::EditInsertChar(ch));
    }
    update(&mut state, Message::SaveEnvironmentEdit);
    assert!(
        state.active().environment_edit.is_none(),
        "the save must succeed for this test to mean anything"
    );
    update(&mut state, Message::CloseEnvironmentOverlay);

    let after = render_screen(&state);
    assert!(
        after.contains("https://example.com/new-value"),
        "the resolved preview must reflect the saved edit live:\n{after}"
    );
    assert!(
        !after.contains("old-value"),
        "the stale value must not linger anywhere on screen:\n{after}"
    );
}

#[test]
fn environment_edit_screen_renders_rows_and_the_focus_marker() {
    let mut state = loaded_state_with_saved_environment("https://example.com");
    update(&mut state, Message::OpenEnvironmentOverlay);
    update(&mut state, Message::EnterEnvironmentEdit);

    let screen = render_screen(&state);
    assert!(
        screen.contains("base_url"),
        "the variable's name must be on screen:\n{screen}"
    );
    assert!(
        screen.contains("»base_url«"),
        "the focused name field must carry a visible focus marker:\n{screen}"
    );
    assert!(
        screen.contains("https://example.com"),
        "the variable's value must be on screen too:\n{screen}"
    );
}

#[test]
fn environment_edit_screen_shows_no_variables_placeholder_when_empty() {
    let mut state = AppState::default();
    state.active_mut().environments = vec![NamedEnvironment {
        name: "empty".to_string(),
        environment: environment_of(&[], Some(".sendra/environments/empty.yaml")),
    }];
    state.active_mut().environment_overlay = Some(0);
    update(&mut state, Message::EnterEnvironmentEdit);

    let screen = render_screen(&state);
    assert!(
        screen.contains("no variables"),
        "the zero-variables case must render a clear placeholder, not a blank \
             or broken screen:\n{screen}"
    );
}

#[test]
fn env_var_delete_confirmation_renders_through_the_shared_confirm_prompt() {
    let mut state = loaded_state_with_saved_environment("https://example.com");
    update(&mut state, Message::OpenEnvironmentOverlay);
    update(&mut state, Message::EnterEnvironmentEdit);

    update(&mut state, Message::RequestDeleteEnvVarRow);

    let screen = render_screen(&state);
    assert!(
        screen.contains("Delete variable"),
        "a pending row delete must show the shared confirmation modal, \
             the same component every other destructive action uses:\n{screen}"
    );
    assert!(
        screen.contains("y/Enter confirm"),
        "the shared confirmation modal's own keys must be advertised:\n{screen}"
    );
}

#[test]
fn response_format_response_matches_the_status_headers_body_layout() {
    let response = response_with(&[("X-Request-Id", "abc123")], "plain text body");

    let text = format_response(&response);

    assert_eq!(
        text,
        "201 Created  42 ms\nX-Request-Id: abc123\n\nplain text body"
    );
}

#[test]
fn response_format_response_omits_the_body_section_when_the_body_is_empty() {
    let response = response_with(&[], "");

    let text = format_response(&response);

    assert_eq!(text, "201 Created  42 ms");
}

#[test]
fn response_body_for_display_pretty_prints_a_json_content_type() {
    let response = response_with(
        &[("Content-Type", "application/json; charset=utf-8")],
        "{\"id\":1,\"name\":\"widget\"}",
    );

    let displayed = body_for_display(&response);

    assert_eq!(displayed, "{\n  \"id\": 1,\n  \"name\": \"widget\"\n}");
}

#[test]
fn response_body_for_display_leaves_non_json_content_types_untouched() {
    let response = response_with(&[("Content-Type", "text/plain")], "{\"id\":1}");

    let displayed = body_for_display(&response);

    assert_eq!(
        displayed, "{\"id\":1}",
        "a non-JSON content type must not be re-formatted"
    );
}

#[test]
fn response_body_for_display_leaves_malformed_json_untouched() {
    let response = response_with(&[("Content-Type", "application/json")], "not json");

    let displayed = body_for_display(&response);

    assert_eq!(
        displayed, "not json",
        "a JSON content type whose body does not actually parse must be shown verbatim, not dropped or panicked on"
    );
}

#[test]
fn response_claims_json_matches_a_vendor_json_suffix() {
    assert!(claims_json(&vec![(
        "content-type".to_string(),
        "application/vnd.api+json".to_string()
    )]));
}

#[test]
fn response_format_assertions_marks_a_request_with_no_assertions_distinctly() {
    let text = format_assertions(&AssertionReport::default());

    assert_eq!(text, "assertions\n  no assertions declared");
}

#[test]
fn response_format_assertions_shows_every_result_individually_with_pass_fail() {
    let response = response_with(&[], "");
    let report = evaluate_assertions(
        "method: GET\nurl: https://example.com\nassertions:\n  status: 201\n  status_in: [404]\n",
        &response,
    );

    let text = format_assertions(&report);

    assert!(
        text.contains("✓ status is 201"),
        "the passing assertion must be shown on its own line: {text}"
    );
    assert!(
        text.contains("✗ status is one of [404]"),
        "the failing assertion must be shown on its own line, not folded into an aggregate: {text}"
    );
    assert!(
        text.contains("1 passed, 1 failed"),
        "a mixed report must show both counts: {text}"
    );
    assert_ne!(
        text,
        format_assertions(&AssertionReport::default()),
        "a report with real (even if all-failing) results must not read the same as \
             \"no assertions declared\""
    );
}

#[test]
fn response_format_assertions_all_passing_reads_differently_from_none_declared() {
    let response = response_with(&[], "");
    let report = evaluate_assertions(
        "method: GET\nurl: https://example.com\nassertions:\n  status: 201\n",
        &response,
    );

    let text = format_assertions(&report);

    assert!(text.contains("1 passed"));
    assert!(
        !text.contains("no assertions declared"),
        "an assertions block that all passed must not be confused with none being declared: {text}"
    );
}

#[test]
fn response_format_capture_section_marks_a_request_with_no_captures_distinctly() {
    let text = format_capture_section(&CaptureReport::default(), true);

    assert_eq!(text, "capture\n  no captures declared");
}

#[test]
fn response_format_capture_section_masks_the_value_by_default() {
    let response = response_with(&[("X-Token", "super-secret")], "");
    let report = evaluate_capture(
        "method: GET\nurl: https://example.com\ncapture:\n  token: {header: X-Token}\n",
        &response,
    );

    let path = report.results[0].path.clone();
    let masked = format_capture_section(&report, false);

    assert!(
        masked.contains(&format!("token from `{path}` = {REDACTED_CAPTURE_VALUE}")),
        "the value must be masked by default: {masked}"
    );
    assert!(
        !masked.contains("super-secret"),
        "the real captured value must not appear when not revealed: {masked}"
    );
}

#[test]
fn response_format_capture_section_reveals_the_value_when_asked() {
    let response = response_with(&[("X-Token", "super-secret")], "");
    let report = evaluate_capture(
        "method: GET\nurl: https://example.com\ncapture:\n  token: {header: X-Token}\n",
        &response,
    );

    let path = report.results[0].path.clone();
    let revealed = format_capture_section(&report, true);

    assert!(
        revealed.contains(&format!("token from `{path}` = super-secret")),
        "the real value must appear once revealed: {revealed}"
    );
}

#[test]
fn response_format_capture_section_never_masks_a_failure() {
    let response = response_with(&[], "");
    let report = evaluate_capture(
        "method: GET\nurl: https://example.com\ncapture:\n  token: {header: X-Token}\n",
        &response,
    );

    let path = report.results[0].path.clone();
    let masked = format_capture_section(&report, false);
    let revealed = format_capture_section(&report, true);

    assert_eq!(
        masked, revealed,
        "a failed capture has no value, so masking it must not change its rendering"
    );
    assert!(
        !masked.contains(REDACTED_CAPTURE_VALUE),
        "a failure is shown as a failure, not as a redacted value: {masked}"
    );
    assert!(masked.contains(&format!("✗ token from `{path}`")));
}

#[test]
fn response_view_masks_captures_by_default_reveals_on_toggle_and_remasks_on_a_new_run() {
    let mut state = loaded_state(VALID_COLLECTION);
    let outcome = || {
        let response = response_with(&[("X-Token", "super-secret")], "");
        let capture = evaluate_capture(
            "method: GET\nurl: https://example.com\ncapture:\n  token: {header: X-Token}\n",
            &response,
        );
        RunOutcome {
            result: Ok(response),
            assertions: AssertionReport::default(),
            capture,
        }
    };

    let render = |state: &AppState| render_sized(state, 15);

    let capture_line_contains = |screen: &str, needle: &str| {
        screen
            .lines()
            .any(|line| line.contains("token from") && line.contains(needle))
    };

    update(&mut state, Message::RunRequested);
    let collection_id = state.active().id;
    update(
        &mut state,
        Message::RunCompleted {
            collection_id,
            completed_at: 0,
            outcome: outcome(),
        },
    );
    let masked_screen = render(&state);
    assert!(
        capture_line_contains(&masked_screen, REDACTED_CAPTURE_VALUE),
        "captures must be masked by default:\n{masked_screen}"
    );
    assert!(
        !capture_line_contains(&masked_screen, "super-secret"),
        "the capture line must not show the real value by default:\n{masked_screen}"
    );

    update(&mut state, Message::ToggleRevealCaptures);
    let revealed_screen = render(&state);
    assert!(
        capture_line_contains(&revealed_screen, "super-secret"),
        "the real value must be on the capture line after the reveal keybinding:\n{revealed_screen}"
    );

    update(&mut state, Message::RunRequested);
    let collection_id = state.active().id;
    update(
        &mut state,
        Message::RunCompleted {
            collection_id,
            completed_at: 0,
            outcome: outcome(),
        },
    );
    let next_run_screen = render(&state);
    assert!(
        capture_line_contains(&next_run_screen, REDACTED_CAPTURE_VALUE),
        "a new run must not carry the reveal over — masked again by default:\n{next_run_screen}"
    );
    assert!(
        !capture_line_contains(&next_run_screen, "super-secret"),
        "a new run's capture line must not still show the real value:\n{next_run_screen}"
    );
}

#[test]
fn response_run_completed_err_renders_the_real_sendra_error_text() {
    let error = document_from(MALFORMED_YAML).expect_err("malformed test YAML");
    let expected = error.to_string();

    let text = format_run_result(&failed_outcome(error), false);

    assert!(
        text.contains(&expected),
        "the panel must show the real error text, got: {text}"
    );
}

#[test]
fn response_a_large_body_renders_into_a_small_area_without_panicking() {
    let huge_body = (0..5000)
        .map(|line| format!("line {line}"))
        .collect::<Vec<_>>()
        .join("\n");
    let outcome = outcome_of(Ok(response_with(&[], &huge_body)));

    let total_lines = format_run_result(&outcome, false).lines().count();

    let footer = response_panel(&outcome, 4, usize::MAX, false).footer;
    assert!(
        footer.contains(&format!("of {total_lines}")),
        "the footer must report the real total line count, got: {footer:?}"
    );
    assert!(
        !footer.contains(&format!("of {}", total_lines + 1)),
        "an over-scroll must not be reported as if it went past the real total"
    );
}

#[test]
fn response_home_and_end_jump_the_response_panel_to_the_real_top_and_bottom() {
    let body = (0..300)
        .map(|line| format!("line {line}"))
        .collect::<Vec<_>>()
        .join("\n");
    let outcome = RunOutcome {
        result: Ok(response_with(&[], &body)),
        assertions: AssertionReport::default(),
        capture: CaptureReport::default(),
    };
    let total_lines = format_run_result(&outcome, false).lines().count();

    let mut state = loaded_state(VALID_COLLECTION);
    update(&mut state, Message::RunRequested);
    let collection_id = state.active().id;
    update(
        &mut state,
        Message::RunCompleted {
            collection_id,
            completed_at: 0,
            outcome,
        },
    );

    let render = |state: &AppState| render_sized(state, 10);

    update(&mut state, Message::ScrollResponseBottom);
    let bottom_screen = render(&state);
    assert!(
        bottom_screen.contains(&format!("-{total_lines} of {total_lines}")),
        "End must jump straight to the real end of the body in one step, not \
             partway through it:\n{bottom_screen}"
    );

    update(&mut state, Message::ScrollResponseTop);
    let top_screen = render(&state);
    assert!(
        top_screen.contains("Line 1-"),
        "Home must jump straight back to the real top of the response:\n{top_screen}"
    );
    assert!(
        top_screen.contains("201 Created"),
        "the top of the response must show the status line:\n{top_screen}"
    );
}

#[test]
fn response_view_renders_a_completed_success_as_a_real_response_panel() {
    let mut state = loaded_state(VALID_COLLECTION);
    update(&mut state, Message::RunRequested);
    let response = response_with(&[("X-Request-Id", "abc123")], "hello world");
    let collection_id = state.active().id;
    update(
        &mut state,
        Message::RunCompleted {
            collection_id,
            completed_at: 0,
            outcome: RunOutcome {
                result: Ok(response),
                assertions: AssertionReport::default(),
                capture: CaptureReport::default(),
            },
        },
    );

    let screen = render_sized(&state, 15);
    assert!(
        screen.contains("201 Created"),
        "the real status must be on screen:\n{screen}"
    );
    assert!(
        screen.contains("X-Request-Id: abc123"),
        "a real response header must be on screen:\n{screen}"
    );
    assert!(
        screen.contains("hello world"),
        "the real response body must be on screen:\n{screen}"
    );
}

#[test]
fn response_view_renders_a_completed_failure_with_the_real_error_message() {
    let mut state = loaded_state(VALID_COLLECTION);
    update(&mut state, Message::RunRequested);
    let error = document_from(MALFORMED_YAML).expect_err("malformed test YAML");
    let expected_message = error.to_string();
    let collection_id = state.active().id;
    update(
        &mut state,
        Message::RunCompleted {
            collection_id,
            completed_at: 0,
            outcome: failed_outcome(error),
        },
    );

    let screen = render_sized(&state, 15);
    assert!(
        screen.contains(&expected_message),
        "the real error message must be on screen, not a generic \
             placeholder:\n{screen}\nexpected to find: {expected_message}"
    );
}

#[test]
fn response_response_panel_scroll_reclamps_to_a_shrunk_area() {
    let body = (0..200)
        .map(|line| format!("line {line}"))
        .collect::<Vec<_>>()
        .join("\n");
    let outcome = outcome_of(Ok(response_with(&[], &body)));
    let total_lines = format_run_result(&outcome, false).lines().count();
    let deep_scroll = total_lines - 5;

    let tall = response_panel(&outcome, 39, deep_scroll, false);
    assert_eq!(tall.scroll, total_lines - 39);

    let shrunk = response_panel(&outcome, 3, deep_scroll, false);
    assert_eq!(shrunk.scroll, deep_scroll);
    let screen = panel_text(&shrunk, 3);
    assert!(
        !screen.trim().is_empty(),
        "a re-clamped scroll must still show real content, not a blank pane:\n{screen}"
    );
    assert!(
        screen.contains(&format!("of {total_lines}")),
        "the footer must report the real total even after the area shrank:\n{screen}"
    );
}

#[test]
fn expanding_a_history_row_shows_more_detail_than_the_collapsed_summary() {
    let mut state = loaded_state(VALID_COLLECTION);
    let response = response_with(&[], "");
    let assertions = evaluate_assertions(
        "method: GET\nurl: https://example.com\nassertions:\n  status: 201\n",
        &response,
    );
    let outcome = RunOutcome {
        result: Ok(response),
        assertions,
        capture: CaptureReport::default(),
    };

    update(&mut state, Message::RunRequested);
    let collection_id = state.active().id;
    update(
        &mut state,
        Message::RunCompleted {
            collection_id,
            completed_at: 0,
            outcome,
        },
    );
    update(&mut state, Message::OpenHistoryOverlay);

    let render = |state: &AppState| overlays_text(state);

    let collapsed = render(&state);
    assert!(
        !collapsed.contains("status is 201"),
        "the collapsed row must not already show the per-assertion detail:\n{collapsed}"
    );

    update(&mut state, Message::ToggleHistoryEntryExpanded);
    let expanded = render(&state);
    assert!(
        expanded.contains("status is 201"),
        "expanding the row must show the real assertion detail in place:\n{expanded}"
    );
    assert!(
        expanded.contains("1 passed"),
        "expanding the row must show the pass/fail breakdown:\n{expanded}"
    );

    update(&mut state, Message::ToggleHistoryEntryExpanded);
    let recollapsed = render(&state);
    assert!(
        !recollapsed.contains("status is 201"),
        "toggling again must collapse the row back down:\n{recollapsed}"
    );
}

#[test]
fn history_overlay_shows_the_dropped_count_once_the_cap_is_exceeded() {
    let mut state = loaded_state(VALID_COLLECTION);
    let collection_id = state.active().id;
    for _ in 0..=RUN_HISTORY_CAP {
        update(&mut state, Message::RunRequested);
        let outcome = RunOutcome {
            result: Ok(response_with(&[], "")),
            assertions: AssertionReport::default(),
            capture: CaptureReport::default(),
        };
        update(
            &mut state,
            Message::RunCompleted {
                collection_id,
                completed_at: 0,
                outcome,
            },
        );
    }
    update(&mut state, Message::OpenHistoryOverlay);

    let screen = render_sized(&state, 20);

    assert!(
        screen.contains("1 older run dropped"),
        "exactly one run was evicted by the cap and the overlay must say so:\n{screen}"
    );
    assert!(
        screen.contains(&format!("capped at {RUN_HISTORY_CAP} per request")),
        "the notice must name the real cap, not a hardcoded number:\n{screen}"
    );
}

#[test]
fn every_real_keybinding_is_mentioned_somewhere_in_the_cheatsheet() {
    let text = cheatsheet_text();

    for ch in [
        'q', '?', 'k', 'j', 'r', 'i', 'n', 'd', 'e', 'h', 'o', '/', ']', '[', 'w', 'c', 'a', 'x',
        'p', 's', 'y', ' ',
    ] {
        let mentioned = if ch == ' ' {
            text.contains("Space")
        } else {
            text.contains(ch)
        };
        assert!(
            mentioned,
            "the key {ch:?} is bound but no cheatsheet section mentions it"
        );
    }

    for name in [
        "Esc",
        "Enter",
        "Tab",
        "BackTab",
        "Backspace",
        "Delete",
        "Left",
        "Right",
        "Up",
        "Down",
        "PageUp",
        "PageDown",
        "Home",
        "End",
    ] {
        let mentioned = match name {
            "BackTab" => text.contains("Shift+Tab"),
            "PageUp" => text.contains("PgUp"),
            "PageDown" => text.contains("PgDn"),
            _ => text.contains(name),
        };
        assert!(
            mentioned,
            "the key {name} is bound but no cheatsheet section mentions it"
        );
    }
}

#[test]
fn cheatsheet_opens_from_browsing_and_lists_multiple_sections() {
    let mut state = loaded_state(VALID_COLLECTION);
    update(&mut state, Message::OpenCheatsheet);
    assert!(state.cheatsheet_open);

    let screen = render_sized(&state, 90);
    assert!(screen.contains("Keybindings"));
    assert!(screen.contains("? or Esc to close"));
    assert!(screen.contains("Global"));
    assert!(screen.contains("Editing a request"));
    assert!(screen.contains("Run-history browser"));
    assert!(screen.contains("Any confirmation"));
}

#[test]
fn cheatsheet_opens_over_the_environment_overlay_and_history_overlay() {
    let mut env_state = state_with_environments(&["staging", "prod"]);
    update(&mut env_state, Message::OpenEnvironmentOverlay);
    update(&mut env_state, Message::OpenCheatsheet);
    let env_screen = render_screen(&env_state);
    assert!(env_screen.contains("Keybindings"));

    let mut history_state = loaded_state(VALID_COLLECTION);
    update(&mut history_state, Message::RunRequested);
    let collection_id = history_state.active().id;
    update(
        &mut history_state,
        Message::RunCompleted {
            collection_id,
            completed_at: 0,
            outcome: sample_outcome(200),
        },
    );
    update(&mut history_state, Message::OpenHistoryOverlay);
    update(&mut history_state, Message::OpenCheatsheet);
    let history_screen = render_screen(&history_state);
    assert!(history_screen.contains("Keybindings"));
}

#[test]
fn cheatsheet_opens_from_the_welcome_screen() {
    let mut state = AppState::default();
    update(&mut state, Message::OpenCheatsheet);
    let screen = render_screen(&state);
    assert!(screen.contains("Keybindings"));
    assert!(screen.contains("Welcome screen"));
}

#[test]
fn cheatsheet_opens_over_the_quit_confirmation() {
    let mut state = loaded_state(VALID_COLLECTION);
    update(&mut state, Message::EnterEditMode);
    update(&mut state, Message::Quit);
    assert!(state.quit_confirm.is_some());
    update(&mut state, Message::OpenCheatsheet);

    let screen = render_screen(&state);
    assert!(screen.contains("Keybindings"));
}

#[test]
fn closing_the_cheatsheet_clears_the_flag() {
    let mut state = loaded_state(VALID_COLLECTION);
    update(&mut state, Message::OpenCheatsheet);
    assert!(state.cheatsheet_open);
    update(&mut state, Message::CloseCheatsheet);
    assert!(!state.cheatsheet_open);
}

#[test]
fn the_welcome_screen_lists_what_was_discovered_with_one_picked() {
    let mut state = AppState::default();
    state.active_mut().load_state = LoadState::NoPathProvided {
        discovered: Vec::new(),
        cursor: 0,
    };
    assert_eq!(
        arranged(&state, 100, 20).1.body,
        Body::Message("No collection path provided.".to_string())
    );

    state.active_mut().load_state = LoadState::NoPathProvided {
        discovered: vec![
            FilePath::new("a.yaml".to_string()),
            FilePath::new("apis/b.yaml".to_string()),
        ],
        cursor: 0,
    };
    update(&mut state, Message::SelectNext);

    assert_eq!(
        arranged(&state, 100, 20).1.body,
        Body::Candidates {
            title: "No collection path provided.".to_string(),
            rows: vec!["a.yaml".to_string(), "apis/b.yaml".to_string()],
            picked: 1,
        }
    );
}
