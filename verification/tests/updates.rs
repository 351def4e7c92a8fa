//! What messages do to the program, its tabs and its environments.

use std::collections::{HashMap, HashSet};

use sendra_tui::document::{
    ApiKeyAuth, ApiKeyLocation, Assertions, Auth, BasicAuth, Capture, CaptureSource, Collection,
    Document, Environment, JsonAssertion, JsonOperator, Method, NamedEnvironment, OAuthAuth,
    OAuthGrantType, Request,
};
use sendra_tui::edit::EditField;
use sendra_tui::paths::FilePath;
use sendra_tui::run::{AssertionReport, CaptureReport, Response, RunOutcome};
use sendra_tui::state::{
    AppState, Effect, LoadState, Message, RunState, RUN_HISTORY_CAP, SCROLL_STEP_LINES,
};
use sendra_tui::variables_form::EnvVarField;
use serde_yaml::Value;

const VALID_COLLECTION: &str = "\
name: test
requests:
  - name: One
    method: GET
    url: https://example.com
  - name: Two
    method: POST
    url: https://example.com/two
";

const THREE_REQUEST_COLLECTION: &str = "\
name: test
requests:
  - name: One
    method: GET
    url: https://example.com
  - name: Two
    method: GET
    url: https://example.com/two
  - name: Three
    method: GET
    url: https://example.com/three
";

const MALFORMED_YAML: &str = "name: [unclosed\n";

fn scalar(value: &Value) -> String {
    match value {
        Value::String(text) => text.clone(),
        other => serde_yaml::to_string(other).unwrap().trim_end().to_string(),
    }
}

fn optional(value: &Value, key: &str) -> Option<String> {
    value.get(key).map(scalar)
}

fn pairs(value: Option<&Value>) -> Vec<(String, String)> {
    match value {
        Some(Value::Mapping(map)) => map
            .iter()
            .map(|(name, value)| (scalar(name), scalar(value)))
            .collect(),
        _ => Vec::new(),
    }
}

fn parts(value: Option<&Value>) -> Vec<(String, String)> {
    match value {
        Some(Value::Sequence(parts)) => parts
            .iter()
            .map(|part| {
                (
                    optional(part, "name").unwrap_or_default(),
                    optional(part, "value").unwrap_or_default(),
                )
            })
            .collect(),
        _ => Vec::new(),
    }
}

fn auth_from(value: &Value) -> Auth {
    Auth {
        bearer: optional(value, "bearer"),
        basic: value.get("basic").map(|basic| BasicAuth {
            user: optional(basic, "user").unwrap_or_default(),
            pass: optional(basic, "pass").unwrap_or_default(),
        }),
        api_key: value.get("api_key").map(|key| ApiKeyAuth {
            location: if optional(key, "in").as_deref() == Some("query") {
                ApiKeyLocation::Query
            } else {
                ApiKeyLocation::Header
            },
            name: optional(key, "name").unwrap_or_default(),
            value: optional(key, "value").unwrap_or_default(),
        }),
        oauth: value.get("oauth").map(|oauth| OAuthAuth {
            grant_type: match optional(oauth, "grant_type").as_deref() {
                Some("password") => OAuthGrantType::Password,
                Some("authorization_code") => OAuthGrantType::AuthorizationCode,
                _ => OAuthGrantType::ClientCredentials,
            },
            token_url: optional(oauth, "token_url").unwrap_or_default(),
            client_id: optional(oauth, "client_id").unwrap_or_default(),
            client_secret: optional(oauth, "client_secret").unwrap_or_default(),
            scope: optional(oauth, "scope"),
            username: optional(oauth, "username"),
            password: optional(oauth, "password"),
            authorization_url: optional(oauth, "authorization_url"),
            redirect_uri: optional(oauth, "redirect_uri"),
        }),
    }
}

fn checks(value: Option<&Value>, negate: bool) -> Vec<JsonAssertion> {
    let Some(Value::Mapping(map)) = value else {
        return Vec::new();
    };
    map.iter()
        .map(|(path, expected)| {
            let (operator, value) = if let Some(bound) = expected.get("greater_than") {
                (JsonOperator::GreaterThan, bound)
            } else if let Some(bound) = expected.get("less_than") {
                (JsonOperator::LessThan, bound)
            } else {
                (JsonOperator::Equals, expected)
            };
            JsonAssertion {
                path: scalar(path),
                operator,
                value: scalar(value),
                negate,
            }
        })
        .collect()
}

fn assertions_from(value: &Value) -> Assertions {
    let mut json = checks(value.get("json"), false);
    json.extend(checks(value.get("not").and_then(|not| not.get("json")), true));
    let others = match value {
        Value::Mapping(map) => map
            .iter()
            .filter(|(key, _)| !["json", "not"].contains(&scalar(key).as_str()))
            .map(|(key, value)| format!("{}: {}", scalar(key), scalar(value)))
            .collect(),
        _ => Vec::new(),
    };
    Assertions { json, others }
}

fn captures_from(value: &Value) -> Vec<Capture> {
    let Value::Mapping(map) = value else {
        return Vec::new();
    };
    map.iter()
        .map(|(name, source)| Capture {
            name: scalar(name),
            source: if let Some(header) = source.get("header") {
                CaptureSource::Header {
                    header: scalar(header),
                }
            } else if source.get("status").is_some() {
                CaptureSource::Status
            } else {
                CaptureSource::JsonPath(scalar(source))
            },
        })
        .collect()
}

fn method_from(text: &str) -> Result<Method, String> {
    sendra_tui::document::validate_method_text(text)
}

fn request_from(value: &Value) -> Result<Request, String> {
    let method = optional(value, "method").ok_or("a request needs a method")?;
    Ok(Request {
        name: optional(value, "name"),
        method: method_from(&method)?,
        url: optional(value, "url").ok_or("a request needs a url")?,
        headers: pairs(value.get("headers")),
        query: pairs(value.get("query")),
        body: optional(value, "body"),
        json: value
            .get("json")
            .map(|json| serde_json::to_value(json).unwrap().to_string()),
        body_file: optional(value, "body_file"),
        form: pairs(value.get("form")),
        multipart: parts(value.get("multipart")),
        auth: value.get("auth").map(auth_from),
        assertions: value.get("assertions").map(assertions_from),
        capture: value.get("capture").map(captures_from),
    })
}

fn document_from(yaml: &str) -> Result<Document, String> {
    let value: Value = serde_yaml::from_str(yaml).map_err(|error| error.to_string())?;
    match value.get("requests") {
        Some(Value::Sequence(requests)) => Ok(Document::Collection(Collection {
            name: optional(&value, "name"),
            requests: requests
                .iter()
                .map(request_from)
                .collect::<Result<Vec<_>, _>>()?,
        })),
        _ => Ok(Document::Single(request_from(&value)?)),
    }
}

fn value_of<'a>(environment: &'a Environment, name: &str) -> Option<&'a str> {
    environment
        .variables
        .iter()
        .find(|(known, _)| known == name)
        .map(|(_, value)| value.as_str())
}

#[derive(Default)]
struct Disk {
    documents: HashMap<String, Result<Document, String>>,
    environments: HashMap<String, Environment>,
    blocked: HashSet<String>,
}

#[allow(dead_code)]
impl Disk {
    fn write(&mut self, path: &str, yaml: &str) {
        self.documents.insert(path.to_string(), document_from(yaml));
    }

    fn document(&self, path: &str) -> Result<Document, String> {
        match self.documents.get(path) {
            Some(Ok(document)) => Ok(document.clone()),
            Some(Err(error)) => Err(error.clone()),
            None => Err(format!("{path}: no such file")),
        }
    }

    fn environment(&self, path: &str) -> Result<Environment, String> {
        self.environments
            .get(path)
            .cloned()
            .ok_or_else(|| format!("{path}: no such file"))
    }

    fn block(&mut self, path: &str) {
        self.blocked.insert(path.to_string());
    }

    fn unblock(&mut self, path: &str) {
        self.blocked.remove(path);
    }

    fn state_loaded_from(&self, path: &str) -> AppState {
        let mut state = AppState::default();
        load(&mut state, path, self.document(path));
        state
    }

    fn refuses(&self, path: &str) -> Result<(), String> {
        if self.blocked.contains(path) {
            Err(format!("{path}: is a directory"))
        } else {
            Ok(())
        }
    }

    fn answer(&mut self, effect: Effect) -> Option<Message> {
        match effect {
            Effect::Nothing => None,
            Effect::Discover { collection_id } => Some(Message::CollectionsDiscovered {
                collection_id,
                paths: Vec::new(),
            }),
            Effect::LoadCollection {
                collection_id,
                base_dir,
                path,
            } => {
                let result = self.document(&path.text);
                Some(Message::DiscoveredLoaded {
                    collection_id,
                    base_dir,
                    path,
                    result,
                })
            }
            Effect::SaveEdit {
                collection_id,
                path,
                document,
            } => {
                let written = self.refuses(&path);
                if written.is_ok() {
                    self.documents.insert(path, Ok(document.clone()));
                }
                Some(Message::EditSaved {
                    collection_id,
                    document,
                    written,
                })
            }
            Effect::SaveDelete {
                collection_id,
                path,
                index,
                document,
            } => {
                let written = self.refuses(&path);
                if written.is_ok() {
                    self.documents.insert(path, Ok(document.clone()));
                }
                Some(Message::DeleteSaved {
                    collection_id,
                    index,
                    document,
                    written,
                })
            }
            Effect::SaveEnvironment {
                collection_id,
                path,
                index,
                environment,
            } => {
                let written = self.refuses(&path);
                if written.is_ok() {
                    self.environments.insert(path, environment.clone());
                }
                Some(Message::EnvironmentSaved {
                    collection_id,
                    index,
                    environment,
                    written,
                })
            }
        }
    }

    fn update(&mut self, state: &mut AppState, msg: Message) {
        let mut next = Some(msg);
        while let Some(msg) = next {
            let effect = sendra_tui::update::update(state, msg);
            next = self.answer(effect);
        }
    }
}

fn update(state: &mut AppState, msg: Message) {
    Disk::default().update(state, msg);
}

fn load(state: &mut AppState, path: &str, result: Result<Document, String>) {
    update(
        state,
        Message::CollectionLoaded {
            base_dir: ".".to_string(),
            path: FilePath::new(path.to_string()),
            result,
        },
    );
}

fn loaded_state(yaml: &str) -> AppState {
    let mut state = AppState::default();
    load(
        &mut state,
        "collection.yaml",
        Ok(document_from(yaml).expect("valid test YAML")),
    );
    state
}

fn open_second_collection(state: &mut AppState, yaml: &str) -> u64 {
    update(
        state,
        Message::CollectionOpened {
            base_dir: ".".to_string(),
            path: FilePath::new("second.yaml".to_string()),
            result: Ok(document_from(yaml).expect("valid test YAML")),
            environments: Vec::new(),
            environment_errors: Vec::new(),
        },
    );
    state.active().id
}

fn environment_of(variables: &[(&str, &str)], source: Option<&str>) -> Environment {
    Environment {
        variables: variables
            .iter()
            .map(|(name, value)| (name.to_string(), value.to_string()))
            .collect(),
        auth: None,
        source: source.map(str::to_string),
    }
}

fn named_environment(name: &str, variables: &[(&str, &str)]) -> NamedEnvironment {
    NamedEnvironment {
        name: name.to_string(),
        environment: environment_of(variables, None),
    }
}

fn state_with_environments(names: &[&str]) -> AppState {
    let mut state = AppState::default();
    state.active_mut().environments = names
        .iter()
        .map(|name| named_environment(name, &[]))
        .collect();
    state
}

const ENVIRONMENT_PATH: &str = ".sendra/environments/staging.yaml";

fn state_with_saved_environment(
    name: &str,
    variables: &[(&str, &str)],
) -> (AppState, Disk, String) {
    let environment = environment_of(variables, Some(ENVIRONMENT_PATH));
    let mut disk = Disk::default();
    disk.environments
        .insert(ENVIRONMENT_PATH.to_string(), environment.clone());
    let mut state = AppState::default();
    state.active_mut().environments = vec![NamedEnvironment {
        name: name.to_string(),
        environment,
    }];
    state.active_mut().environment_overlay = Some(0);
    (state, disk, ENVIRONMENT_PATH.to_string())
}

fn state_with_discovered(paths: Vec<String>) -> AppState {
    let mut state = AppState::default();
    state.active_mut().load_state = LoadState::NoPathProvided {
        discovered: paths.into_iter().map(FilePath::new).collect(),
        cursor: 0,
    };
    state
}

fn selected(state: &AppState) -> usize {
    match &state.active().load_state {
        LoadState::Loaded { selected, .. } => *selected,
        other => panic!("expected LoadState::Loaded, got {other:?}"),
    }
}

fn saved_document(state: &AppState) -> &Document {
    match &state.active().load_state {
        LoadState::Loaded { document, .. } => document,
        other => panic!("expected LoadState::Loaded, got {other:?}"),
    }
}

fn document_name(state: &AppState, index: usize) -> String {
    saved_document(state)
        .get(index)
        .unwrap()
        .name
        .clone()
        .unwrap()
}

fn type_into_focused_field(state: &mut AppState, text: &str) {
    for ch in text.chars() {
        update(state, Message::EditInsertChar(ch));
    }
}

fn backspace_n(state: &mut AppState, n: usize) {
    for _ in 0..n {
        update(state, Message::EditBackspace);
    }
}

fn response_of(status: u16, status_text: &str, headers: &[(&str, &str)], body: &str) -> Response {
    Response {
        status,
        status_text: status_text.to_string(),
        headers: headers
            .iter()
            .map(|(name, value)| (name.to_string(), value.to_string()))
            .collect(),
        body: body.to_string(),
        elapsed_ms: 42,
    }
}

fn outcome_of(result: Result<Response, String>) -> RunOutcome {
    RunOutcome {
        result,
        assertions: AssertionReport::default(),
        capture: CaptureReport::default(),
    }
}

fn sample_outcome(status: u16) -> RunOutcome {
    outcome_of(Ok(response_of(status, "OK", &[], "")))
}

fn failed_outcome(error: String) -> RunOutcome {
    outcome_of(Err(error))
}

fn complete(state: &mut AppState, outcome: RunOutcome) {
    let collection_id = state.active().id;
    update(
        state,
        Message::RunCompleted {
            collection_id,
            outcome,
            completed_at: 0,
        },
    );
}

fn run_to_completion(state: &mut AppState, status: u16) {
    update(state, Message::RunRequested);
    complete(state, sample_outcome(status));
}

#[test]
fn quit_message_sets_should_quit() {
    let mut state = AppState::default();
    assert!(!state.should_quit);

    update(&mut state, Message::Quit);

    assert!(state.should_quit);
}

#[test]
fn tick_message_leaves_state_unchanged() {
    let mut state = AppState::default();

    update(&mut state, Message::Tick);

    assert!(!state.should_quit);
}

#[test]
fn collection_loaded_ok_stores_document_with_selection_at_zero() {
    let mut state = AppState::default();
    let document = document_from(VALID_COLLECTION).expect("valid test YAML");

    update(
        &mut state,
        Message::CollectionLoaded {
            base_dir: ".".to_string(),
            path: FilePath::new("collection.yaml".to_string()),
            result: Ok(document),
        },
    );

    match &state.active().load_state {
        LoadState::Loaded {
            document, selected, ..
        } => {
            assert_eq!(document.len(), 2);
            assert_eq!(*selected, 0);
        }
        other => panic!("expected LoadState::Loaded, got {other:?}"),
    }
}

#[test]
fn no_collection_path_message_sets_no_path_provided() {
    let mut state = AppState::default();

    update(&mut state, Message::NoCollectionPath);

    assert!(matches!(state.active().load_state, LoadState::NoPathProvided { .. }));
}

#[test]
fn collection_loaded_err_stores_error() {
    let mut state = AppState::default();
    let error = document_from(MALFORMED_YAML).expect_err("malformed test YAML");

    update(
        &mut state,
        Message::CollectionLoaded {
            base_dir: ".".to_string(),
            path: FilePath::new("collection.yaml".to_string()),
            result: Err(error),
        },
    );

    assert!(matches!(state.active().load_state, LoadState::Failed(_)));
}

#[test]
fn select_next_advances_selection() {
    let mut state = loaded_state(THREE_REQUEST_COLLECTION);

    update(&mut state, Message::SelectNext);

    assert_eq!(selected(&state), 1);
}

#[test]
fn select_previous_moves_selection_back() {
    let mut state = loaded_state(THREE_REQUEST_COLLECTION);
    update(&mut state, Message::SelectNext);
    update(&mut state, Message::SelectNext);

    update(&mut state, Message::SelectPrevious);

    assert_eq!(selected(&state), 1);
}

#[test]
fn select_next_wraps_from_last_to_first() {
    let mut state = loaded_state(THREE_REQUEST_COLLECTION);
    update(&mut state, Message::SelectNext);
    update(&mut state, Message::SelectNext);
    assert_eq!(selected(&state), 2);

    update(&mut state, Message::SelectNext);

    assert_eq!(selected(&state), 0);
}

#[test]
fn select_previous_wraps_from_first_to_last() {
    let mut state = loaded_state(THREE_REQUEST_COLLECTION);
    assert_eq!(selected(&state), 0);

    update(&mut state, Message::SelectPrevious);

    assert_eq!(selected(&state), 2);
}

#[test]
fn selection_messages_are_ignored_without_a_loaded_collection() {
    let mut state = AppState::default();

    update(&mut state, Message::SelectNext);
    update(&mut state, Message::SelectPrevious);

    assert!(matches!(state.active().load_state, LoadState::Loading));
}

#[test]
fn environments_loaded_message_populates_state() {
    let mut state = AppState::default();

    update(
        &mut state,
        Message::EnvironmentsLoaded {
            environments: vec![named_environment("default", &[])],
            errors: Vec::new(),
        },
    );

    assert_eq!(state.active().environments.len(), 1);
    assert_eq!(state.active().environments[0].name, "default");
}

#[test]
fn open_overlay_starts_cursor_at_active_environment() {
    let mut state = state_with_environments(&["default", "staging"]);
    state.active_mut().active_environment = Some(1);

    update(&mut state, Message::OpenEnvironmentOverlay);

    assert_eq!(state.active().environment_overlay, Some(1));
}

#[test]
fn overlay_navigation_moves_cursor_not_collection_selection() {
    let mut state = loaded_state(THREE_REQUEST_COLLECTION);
    state.active_mut().environments = ["default", "staging", "prod"]
        .into_iter()
        .map(|name| named_environment(name, &[]))
        .collect();
    update(&mut state, Message::OpenEnvironmentOverlay);

    update(&mut state, Message::SelectNext);

    assert_eq!(state.active().environment_overlay, Some(1));
    assert_eq!(selected(&state), 0, "collection selection must not move");
}

#[test]
fn confirm_sets_active_environment_and_closes_overlay() {
    let mut state = state_with_environments(&["default", "staging"]);
    update(&mut state, Message::OpenEnvironmentOverlay);
    update(&mut state, Message::SelectNext);

    update(&mut state, Message::ConfirmEnvironmentSelection);

    assert_eq!(state.active().active_environment, Some(1));
    assert_eq!(state.active().environment_overlay, None);
}

#[test]
fn cancel_closes_overlay_without_changing_active_environment() {
    let mut state = state_with_environments(&["default", "staging"]);
    state.active_mut().active_environment = Some(0);
    update(&mut state, Message::OpenEnvironmentOverlay);
    update(&mut state, Message::SelectNext);
    assert_eq!(state.active().environment_overlay, Some(1));

    update(&mut state, Message::CloseEnvironmentOverlay);

    assert_eq!(state.active().environment_overlay, None);
    assert_eq!(
        state.active().active_environment,
        Some(0),
        "cancel must leave the previously active environment untouched"
    );
}

#[test]
fn running_the_same_request_repeatedly_records_each_run_newest_first() {
    let mut state = loaded_state(VALID_COLLECTION);

    run_to_completion(&mut state, 200);
    run_to_completion(&mut state, 201);
    run_to_completion(&mut state, 202);

    let history = state.active().selected_history();
    assert_eq!(history.len(), 3, "one entry per run");
    let statuses: Vec<u16> = history
        .iter()
        .map(|entry| match &entry.outcome.result {
            Ok(response) => response.status,
            Err(_) => panic!("every sample_outcome here is Ok"),
        })
        .collect();
    assert_eq!(
        statuses,
        vec![202, 201, 200],
        "most recent run must be first, oldest last"
    );

    assert_eq!(
        state.active().current_run().unwrap().result.as_ref().unwrap().status,
        202
    );
}

#[test]
fn history_past_the_cap_drops_the_oldest_entry() {
    let mut state = loaded_state(VALID_COLLECTION);

    for status in 0..=(RUN_HISTORY_CAP as u16) {
        run_to_completion(&mut state, status);
    }

    let history = state.active().selected_history();
    assert_eq!(
        history.len(),
        RUN_HISTORY_CAP,
        "history must never grow past the documented cap"
    );
    let newest_status = match &history[0].outcome.result {
        Ok(response) => response.status,
        Err(_) => panic!("sample_outcome is always Ok"),
    };
    assert_eq!(
        newest_status, RUN_HISTORY_CAP as u16,
        "the newest run (the last one sent) must still be entry 0"
    );
    let oldest_status = match &history[history.len() - 1].outcome.result {
        Ok(response) => response.status,
        Err(_) => panic!("sample_outcome is always Ok"),
    };
    assert_eq!(
        oldest_status, 1,
        "run 0 (the very first, now the oldest past the cap) must have been \
             dropped to make room, leaving run 1 as the oldest surviving entry"
    );
    assert_eq!(
        state.active().selected_history_dropped(),
        1,
        "exactly one entry (run 0) was evicted by the trim, and that must be \
             counted rather than discarded silently"
    );
}

#[test]
fn history_dropped_count_accumulates_across_multiple_trims() {
    let mut state = loaded_state(VALID_COLLECTION);

    for status in 0..=(RUN_HISTORY_CAP as u16) + 1 {
        run_to_completion(&mut state, status);
    }

    assert_eq!(
        state.active().selected_history_dropped(),
        2,
        "two runs (0 and 1) have now been evicted by the trim"
    );
}

#[test]
fn toggle_history_entry_expanded_toggles_the_entry_at_cursor() {
    let mut state = loaded_state(VALID_COLLECTION);
    run_to_completion(&mut state, 200);
    run_to_completion(&mut state, 500);
    update(&mut state, Message::OpenHistoryOverlay);

    update(&mut state, Message::ToggleHistoryEntryExpanded);
    assert!(state.active()
        .history_overlay
        .as_ref()
        .unwrap()
        .expanded
        .contains(&0));

    update(&mut state, Message::SelectNext);
    update(&mut state, Message::ToggleHistoryEntryExpanded);
    assert!(state.active()
        .history_overlay
        .as_ref()
        .unwrap()
        .expanded
        .contains(&1));
    assert!(
        state.active()
            .history_overlay
            .as_ref()
            .unwrap()
            .expanded
            .contains(&0),
        "expanding a second row must not collapse the first"
    );

    update(&mut state, Message::ToggleHistoryEntryExpanded);
    assert!(
        !state.active()
            .history_overlay
            .as_ref()
            .unwrap()
            .expanded
            .contains(&1),
        "toggling an already-expanded row collapses it"
    );
}

#[test]
fn toggle_history_entry_expanded_is_a_no_op_while_viewing_an_entry() {
    let mut state = loaded_state(VALID_COLLECTION);
    run_to_completion(&mut state, 200);
    update(&mut state, Message::OpenHistoryOverlay);
    update(&mut state, Message::ViewHistoryEntry);

    update(&mut state, Message::ToggleHistoryEntryExpanded);

    assert!(state.active().history_overlay.as_ref().unwrap().expanded.is_empty());
}

#[test]
fn opening_history_overlay_starts_the_cursor_at_the_most_recent_run() {
    let mut state = loaded_state(VALID_COLLECTION);
    run_to_completion(&mut state, 200);
    run_to_completion(&mut state, 500);

    update(&mut state, Message::OpenHistoryOverlay);

    let overlay = state.active().history_overlay.as_ref().expect("just opened");
    assert_eq!(overlay.cursor, 0);
    assert_eq!(overlay.viewing, None);
}

#[test]
fn history_overlay_opens_even_with_no_runs_yet() {
    let mut state = loaded_state(VALID_COLLECTION);

    update(&mut state, Message::OpenHistoryOverlay);

    assert!(
        state.active().history_overlay.is_some(),
        "the overlay itself is what tells the user there's nothing yet, \
             not a refusal to open it at all"
    );
    assert!(state.active().selected_history().is_empty());
}

#[test]
fn selecting_and_viewing_a_past_entry_shows_that_entrys_own_outcome() {
    let mut state = loaded_state(VALID_COLLECTION);
    run_to_completion(&mut state, 200);
    run_to_completion(&mut state, 404);

    update(&mut state, Message::OpenHistoryOverlay);
    update(&mut state, Message::SelectNext);
    assert_eq!(state.active().history_overlay.as_ref().unwrap().cursor, 1);

    update(&mut state, Message::ViewHistoryEntry);

    let overlay = state.active().history_overlay.as_ref().unwrap();
    assert_eq!(overlay.viewing, Some(1));
    let viewed = &state.active().selected_history()[1];
    match &viewed.outcome.result {
        Ok(response) => assert_eq!(response.status, 200),
        Err(_) => panic!("expected the older, 200 run"),
    }
}

#[test]
fn viewing_a_history_entry_scrolls_and_reveals_independently_of_the_live_run() {
    let mut state = loaded_state(VALID_COLLECTION);
    run_to_completion(&mut state, 200);
    run_to_completion(&mut state, 200);
    update(&mut state, Message::ScrollResponseDown);
    update(&mut state, Message::ToggleRevealCaptures);
    assert_eq!(state.active().response_scroll, SCROLL_STEP_LINES);
    assert!(state.active().reveal_captures);

    update(&mut state, Message::OpenHistoryOverlay);
    update(&mut state, Message::ViewHistoryEntry);
    update(&mut state, Message::ScrollResponseDown);
    update(&mut state, Message::ToggleRevealCaptures);

    let overlay = state.active().history_overlay.as_ref().unwrap();
    assert_eq!(overlay.view_scroll, SCROLL_STEP_LINES);
    assert!(overlay.view_reveal_captures);
    assert_eq!(state.active().response_scroll, SCROLL_STEP_LINES);
    assert!(state.active().reveal_captures);
}

#[test]
fn esc_backs_out_of_viewing_then_closes_the_overlay() {
    let mut state = loaded_state(VALID_COLLECTION);
    run_to_completion(&mut state, 200);

    update(&mut state, Message::OpenHistoryOverlay);
    update(&mut state, Message::ViewHistoryEntry);
    assert!(state.active().history_overlay.as_ref().unwrap().viewing.is_some());

    update(&mut state, Message::CloseHistoryEntryView);
    assert!(
        state.active().history_overlay.is_some(),
        "closing the viewed entry goes back to the list, not out of the overlay entirely"
    );
    assert_eq!(state.active().history_overlay.as_ref().unwrap().viewing, None);

    update(&mut state, Message::CloseHistoryOverlay);
    assert!(state.active().history_overlay.is_none());
}

#[test]
fn history_in_one_tab_does_not_bleed_into_another() {
    let mut state = loaded_state(VALID_COLLECTION);
    run_to_completion(&mut state, 200);
    run_to_completion(&mut state, 200);
    assert_eq!(state.active().selected_history().len(), 2);

    open_second_collection(&mut state, VALID_COLLECTION);
    assert!(
        state.active().selected_history().is_empty(),
        "a freshly opened tab must start with no history of its own"
    );
    run_to_completion(&mut state, 500);
    assert_eq!(state.active().selected_history().len(), 1);

    update(&mut state, Message::PreviousCollection);
    assert_eq!(
        state.active().selected_history().len(),
        2,
        "tab 0's own history must be exactly as it was left"
    );

    update(&mut state, Message::NextCollection);
    assert_eq!(state.active().selected_history().len(), 1);
}

#[test]
fn history_is_reindexed_after_a_delete() {
    let mut state = loaded_state(THREE_REQUEST_COLLECTION);
    update(&mut state, Message::SelectNext);
    run_to_completion(&mut state, 200);
    update(&mut state, Message::SelectNext);
    run_to_completion(&mut state, 404);
    update(&mut state, Message::SelectNext);

    update(&mut state, Message::RequestDelete);
    update(&mut state, Message::ConfirmDelete);

    assert_eq!(
        state.active().run_history.get(&0).map(Vec::len),
        Some(1),
        "\"Two\"'s history must have followed it down to index 0"
    );
    assert_eq!(
        state.active().run_history.get(&1).map(Vec::len),
        Some(1),
        "\"Three\"'s history must have followed it down to index 1"
    );
    assert!(
        !state.active().run_history.contains_key(&2),
        "no request is left at the old highest index"
    );
}

#[test]
fn history_overlay_is_a_no_op_while_editing_or_run_in_flight() {
    let mut state = loaded_state(VALID_COLLECTION);
    run_to_completion(&mut state, 200);

    update(&mut state, Message::EnterEditMode);
    update(&mut state, Message::OpenHistoryOverlay);
    assert!(
        state.active().history_overlay.is_none(),
        "must not open while editing"
    );
    update(&mut state, Message::CancelEdit);

    update(&mut state, Message::RunRequested);
    update(&mut state, Message::OpenHistoryOverlay);
    assert!(
        state.active().history_overlay.is_none(),
        "must not open while a run is in flight"
    );
}

#[test]
fn enter_edit_mode_is_a_no_op_without_a_selected_request() {
    let mut state = AppState::default();

    update(&mut state, Message::EnterEditMode);

    assert!(state.active().edit_mode.is_none());
}

#[test]
fn enter_edit_mode_seeds_the_working_copy_from_the_real_request() {
    let mut state = loaded_state(THREE_REQUEST_COLLECTION);

    update(&mut state, Message::EnterEditMode);

    let edit = state.active().edit_mode.as_ref().expect("edit mode just entered");
    assert!(
        !edit.dirty,
        "entering edit mode alone must not mark the edit dirty"
    );
    assert_eq!(edit.method.value(), "GET");
    assert_eq!(edit.url.value(), "https://example.com");
    assert_eq!(edit.focus, EditField::Name);
    assert_eq!(
        edit.method_error, None,
        "the request's own method is always valid"
    );
    assert!(
        state.active().dirty_requests.is_empty(),
        "entering edit mode alone must not mark anything dirty"
    );
}

#[test]
fn entering_and_cancelling_edit_mode_with_no_changes_is_a_no_op() {
    let mut state = loaded_state(THREE_REQUEST_COLLECTION);
    let before_document = match &state.active().load_state {
        LoadState::Loaded { document, .. } => document.clone(),
        other => panic!("expected LoadState::Loaded, got {other:?}"),
    };

    update(&mut state, Message::EnterEditMode);
    update(&mut state, Message::CancelEdit);

    assert!(state.active().edit_mode.is_none());
    assert!(state.active().dirty_requests.is_empty());
    match &state.active().load_state {
        LoadState::Loaded {
            document, selected, ..
        } => {
            assert_eq!(*document, before_document);
            assert_eq!(*selected, 0);
        }
        other => panic!("expected LoadState::Loaded, got {other:?}"),
    }
}

#[test]
fn cancel_edit_round_trips_state_exactly_after_editing_method_and_url() {
    let mut state = loaded_state(THREE_REQUEST_COLLECTION);
    let before_document = match &state.active().load_state {
        LoadState::Loaded { document, .. } => document.clone(),
        other => panic!("expected LoadState::Loaded, got {other:?}"),
    };
    let before_selected = selected(&state);
    let before_active_environment = state.active().active_environment;
    let before_environment_overlay = state.active().environment_overlay;
    let before_response_scroll = state.active().response_scroll;
    let before_reveal_captures = state.active().reveal_captures;

    update(&mut state, Message::EnterEditMode);
    assert!(state.active().edit_mode.is_some());

    backspace_n(&mut state, "GET".len());
    type_into_focused_field(&mut state, "DELETE");
    update(&mut state, Message::EditFocusNext);
    type_into_focused_field(&mut state, "/changed");
    assert!(
        state.active().edit_mode.as_ref().expect("still editing").dirty,
        "a real edit must have marked the working copy dirty"
    );
    assert!(state.active().dirty_requests.contains(&before_selected));

    update(&mut state, Message::CancelEdit);

    assert_eq!(
        state.active().edit_mode, None,
        "cancel must leave edit mode entirely"
    );
    assert!(
        state.active().dirty_requests.is_empty(),
        "cancel must clear the dirty marker for the request that was being edited"
    );
    match &state.active().load_state {
        LoadState::Loaded {
            document, selected, ..
        } => {
            assert_eq!(
                *document, before_document,
                "cancel must not leave the loaded document's method/url changed, \
                     even though real edits were typed before cancelling"
            );
            assert_eq!(*selected, before_selected);
        }
        other => panic!("expected LoadState::Loaded, got {other:?}"),
    }
    assert_eq!(state.active().active_environment, before_active_environment);
    assert_eq!(state.active().environment_overlay, before_environment_overlay);
    assert_eq!(state.active().response_scroll, before_response_scroll);
    assert_eq!(state.active().reveal_captures, before_reveal_captures);
}

#[test]
fn save_edit_writes_the_new_method_and_url_into_the_loaded_document() {
    let mut state = loaded_state(THREE_REQUEST_COLLECTION);
    update(&mut state, Message::EnterEditMode);
    update(&mut state, Message::EditFocusNext);

    backspace_n(&mut state, "GET".len());
    type_into_focused_field(&mut state, "POST");
    update(&mut state, Message::EditFocusNext);
    backspace_n(&mut state, "https://example.com".len());
    type_into_focused_field(&mut state, "https://example.com/updated");

    update(&mut state, Message::SaveEdit);

    assert!(state.active().edit_mode.is_none(), "save must leave edit mode");
    assert!(
        state.active().dirty_requests.is_empty(),
        "save must clear the dirty marker for the request just saved"
    );
    let request = match &state.active().load_state {
        LoadState::Loaded {
            document, selected, ..
        } => document.get(*selected).unwrap(),
        other => panic!("expected LoadState::Loaded, got {other:?}"),
    };
    assert_eq!(request.method, Method::Post);
    assert_eq!(request.url, "https://example.com/updated");
}

#[test]
fn cannot_enter_edit_mode_while_the_environment_overlay_is_open() {
    let mut state = loaded_state(THREE_REQUEST_COLLECTION);
    update(&mut state, Message::OpenEnvironmentOverlay);
    assert!(state.active().environment_overlay.is_some());

    update(&mut state, Message::EnterEditMode);

    assert!(
        state.active().edit_mode.is_none(),
        "edit mode must not open on top of the environment overlay"
    );
}

#[test]
fn cannot_open_the_environment_overlay_while_editing() {
    let mut state = loaded_state(THREE_REQUEST_COLLECTION);
    update(&mut state, Message::EnterEditMode);
    assert!(state.active().edit_mode.is_some());

    update(&mut state, Message::OpenEnvironmentOverlay);

    assert!(
        state.active().environment_overlay.is_none(),
        "the environment overlay must not open while editing"
    );
}

#[test]
fn cannot_enter_edit_mode_while_a_run_is_in_flight() {
    let mut state = loaded_state(THREE_REQUEST_COLLECTION);
    update(&mut state, Message::RunRequested);
    assert!(matches!(state.active().run_state, RunState::InFlight));

    update(&mut state, Message::EnterEditMode);

    assert!(
        state.active().edit_mode.is_none(),
        "edit mode must not open while a run is in flight"
    );
}

#[test]
fn navigation_run_and_overlay_are_blocked_while_editing() {
    let mut state = loaded_state(THREE_REQUEST_COLLECTION);
    state.active_mut().environments = ["default", "staging"]
        .into_iter()
        .map(|name| named_environment(name, &[]))
        .collect();
    update(&mut state, Message::EnterEditMode);
    assert!(state.active().edit_mode.is_some());

    update(&mut state, Message::SelectNext);
    update(&mut state, Message::SelectPrevious);
    update(&mut state, Message::OpenEnvironmentOverlay);
    update(&mut state, Message::RunRequested);

    assert_eq!(selected(&state), 0, "selection must not move while editing");
    assert_eq!(state.active().environment_overlay, None);
    assert!(
        state.active().edit_mode.is_some(),
        "editing must still be active — none of the blocked messages should have ended it"
    );
    assert!(matches!(state.active().run_state, RunState::Idle));
}

#[test]
fn quitting_while_a_run_is_in_flight_prompts_then_exits_on_confirm() {
    let mut state = loaded_state(VALID_COLLECTION);
    update(&mut state, Message::RunRequested);

    update(&mut state, Message::Quit);
    assert!(
        !state.should_quit,
        "an in-flight run's result would be lost — this must prompt, not exit silently"
    );
    assert!(state.quit_confirm.is_some());

    update(&mut state, Message::ConfirmQuit);
    assert!(state.should_quit);
}

#[test]
fn cancelling_the_quit_prompt_leaves_the_in_flight_run_untouched() {
    let mut state = loaded_state(VALID_COLLECTION);
    update(&mut state, Message::RunRequested);

    update(&mut state, Message::Quit);
    update(&mut state, Message::CancelQuit);

    assert!(!state.should_quit);
    assert!(state.quit_confirm.is_none());
    assert!(
        matches!(state.active().run_state, RunState::InFlight),
        "cancelling quit must leave the in-flight run exactly as it was"
    );
}

#[test]
fn pressing_the_quit_key_again_while_confirming_exits_immediately() {
    let mut state = loaded_state(VALID_COLLECTION);
    update(&mut state, Message::RunRequested);

    update(&mut state, Message::Quit);
    assert!(state.quit_confirm.is_some());

    update(&mut state, Message::Quit);

    assert!(state.should_quit);
}

#[test]
fn quitting_with_nothing_unsaved_anywhere_exits_immediately_with_no_prompt() {
    let mut state = loaded_state(VALID_COLLECTION);

    update(&mut state, Message::Quit);

    assert!(state.should_quit);
    assert!(state.quit_confirm.is_none());
}

#[test]
fn selecting_a_different_request_resets_run_state_and_scroll() {
    let mut state = loaded_state(THREE_REQUEST_COLLECTION);
    update(&mut state, Message::RunRequested);
    let collection_id = state.active().id;
    update(
        &mut state,
        Message::RunCompleted {
            collection_id,
            completed_at: 0,
            outcome: sample_outcome(200),
        },
    );
    update(&mut state, Message::ScrollResponseDown);
    assert!(matches!(state.active().run_state, RunState::Completed));
    assert!(matches!(
        state.active().current_run(),
        Some(RunOutcome { result: Ok(_), .. })
    ));
    assert_eq!(state.active().response_scroll, SCROLL_STEP_LINES);

    update(&mut state, Message::SelectNext);

    assert!(
        matches!(state.active().run_state, RunState::Idle),
        "a previous run's result must not be attributed to the newly selected request"
    );
    assert_eq!(state.active().response_scroll, 0);
}

#[test]
fn selecting_the_same_request_again_does_not_reset_run_state() {
    let mut state = loaded_state(VALID_COLLECTION);
    if let LoadState::Loaded { document, .. } = &mut state.active_mut().load_state {
        let mut trimmed = document_from(
            "name: test\nrequests:\n  - name: One\n    method: GET\n    url: https://example.com\n",
        )
        .unwrap();
        std::mem::swap(document, &mut trimmed);
    }
    update(&mut state, Message::RunRequested);
    let collection_id = state.active().id;
    update(
        &mut state,
        Message::RunCompleted {
            collection_id,
            completed_at: 0,
            outcome: sample_outcome(200),
        },
    );

    update(&mut state, Message::SelectNext);

    assert!(matches!(state.active().run_state, RunState::Completed));
    assert!(matches!(
        state.active().current_run(),
        Some(RunOutcome { result: Ok(_), .. })
    ));
}

#[test]
fn starting_a_new_run_resets_the_previous_scroll_position() {
    let mut state = loaded_state(VALID_COLLECTION);
    update(&mut state, Message::RunRequested);
    let collection_id = state.active().id;
    update(
        &mut state,
        Message::RunCompleted {
            collection_id,
            completed_at: 0,
            outcome: sample_outcome(200),
        },
    );
    update(&mut state, Message::ScrollResponseDown);
    assert_eq!(state.active().response_scroll, SCROLL_STEP_LINES);

    update(&mut state, Message::RunRequested);

    assert_eq!(state.active().response_scroll, 0);
}

#[test]
fn scroll_down_then_up_returns_to_the_top() {
    let mut state = AppState::default();

    update(&mut state, Message::ScrollResponseDown);
    assert_eq!(state.active().response_scroll, SCROLL_STEP_LINES);

    update(&mut state, Message::ScrollResponseUp);
    assert_eq!(state.active().response_scroll, 0);
}

#[test]
fn scroll_up_from_the_top_saturates_at_zero() {
    let mut state = AppState::default();

    update(&mut state, Message::ScrollResponseUp);

    assert_eq!(state.active().response_scroll, 0);
}

#[test]
fn scroll_top_jumps_straight_to_zero_from_anywhere() {
    let mut state = AppState::default();
    state.active_mut().response_scroll = 5_000;

    update(&mut state, Message::ScrollResponseTop);

    assert_eq!(state.active().response_scroll, 0);
}

#[test]
fn scroll_bottom_sets_scroll_past_any_real_content_for_render_time_clamping() {
    let mut state = AppState::default();

    update(&mut state, Message::ScrollResponseBottom);

    assert_eq!(
        state.active().response_scroll,
        usize::MAX,
        "End hands off the real clamp to render_response_panel, the same as any \
             other over-scroll"
    );
}

#[test]
fn toggle_reveal_captures_flips_and_flips_back() {
    let mut state = AppState::default();
    assert!(!state.active().reveal_captures);

    update(&mut state, Message::ToggleRevealCaptures);
    assert!(state.active().reveal_captures);

    update(&mut state, Message::ToggleRevealCaptures);
    assert!(!state.active().reveal_captures);
}

#[test]
fn reveal_captures_is_not_carried_over_to_the_next_run() {
    let mut state = loaded_state(VALID_COLLECTION);
    update(&mut state, Message::RunRequested);
    update(&mut state, Message::ToggleRevealCaptures);
    assert!(state.active().reveal_captures);
    let collection_id = state.active().id;
    update(
        &mut state,
        Message::RunCompleted {
            collection_id,
            completed_at: 0,
            outcome: sample_outcome(200),
        },
    );
    assert!(
        state.active().reveal_captures,
        "revealing must survive until the run it was revealed for is replaced"
    );

    update(&mut state, Message::RunRequested);

    assert!(
        !state.active().reveal_captures,
        "a fresh run must start with captures masked again, never auto-revealed"
    );
}

#[test]
fn reveal_captures_resets_when_the_selection_changes() {
    let mut state = loaded_state(THREE_REQUEST_COLLECTION);
    update(&mut state, Message::RunRequested);
    let collection_id = state.active().id;
    update(
        &mut state,
        Message::RunCompleted {
            collection_id,
            completed_at: 0,
            outcome: sample_outcome(200),
        },
    );
    update(&mut state, Message::ToggleRevealCaptures);
    assert!(state.active().reveal_captures);

    update(&mut state, Message::SelectNext);

    assert!(
        !state.active().reveal_captures,
        "moving to a different request must not carry a reveal over to it"
    );
}

#[test]
fn environments_loaded_message_stores_errors_alongside_environments() {
    let mut state = AppState::default();
    let bad_error = document_from(MALFORMED_YAML).expect_err("malformed test YAML");

    update(
        &mut state,
        Message::EnvironmentsLoaded {
            environments: vec![named_environment("default", &[])],
            errors: vec![("broken".to_string(), bad_error)],
        },
    );

    assert_eq!(state.active().environments.len(), 1);
    assert_eq!(state.active().environment_errors.len(), 1);
    assert_eq!(state.active().environment_errors[0].0, "broken");
}

#[test]
fn app_stays_responsive_after_a_collection_load_failure() {
    let mut state = AppState::default();
    let error = document_from(MALFORMED_YAML).expect_err("malformed test YAML");
    update(
        &mut state,
        Message::CollectionLoaded {
            base_dir: ".".to_string(),
            path: FilePath::new("collection.yaml".to_string()),
            result: Err(error),
        },
    );
    assert!(matches!(state.active().load_state, LoadState::Failed(_)));

    state.active_mut().environments = vec![named_environment("default", &[])];
    update(&mut state, Message::OpenEnvironmentOverlay);
    assert_eq!(
        state.active().environment_overlay,
        Some(0),
        "the environment overlay must still open after a failed collection load"
    );

    update(&mut state, Message::Quit);
    assert!(
        state.should_quit,
        "quit must still work after a failed collection load"
    );
}

#[test]
fn app_stays_responsive_after_a_failed_run() {
    let mut state = loaded_state(THREE_REQUEST_COLLECTION);
    update(&mut state, Message::RunRequested);
    let error = document_from(MALFORMED_YAML).expect_err("malformed test YAML");
    let collection_id = state.active().id;
    update(
        &mut state,
        Message::RunCompleted {
            collection_id,
            completed_at: 0,
            outcome: failed_outcome(error),
        },
    );
    assert!(matches!(state.active().run_state, RunState::Completed));
    assert!(matches!(
        state.active().current_run(),
        Some(RunOutcome { result: Err(_), .. })
    ));

    update(&mut state, Message::SelectNext);
    assert_eq!(
        selected(&state),
        1,
        "selection must still move after a failed run"
    );

    update(&mut state, Message::RunRequested);
    assert!(
        matches!(state.active().run_state, RunState::InFlight),
        "a request must still be runnable again after a previous run failed"
    );

    update(&mut state, Message::Quit);
    assert!(!state.should_quit);
    update(&mut state, Message::ConfirmQuit);
    assert!(
        state.should_quit,
        "quit must still work (via its confirmation) after a failed run"
    );
}

#[test]
fn opening_a_second_collection_appends_a_new_tab_and_switches_to_it() {
    let mut state = loaded_state(THREE_REQUEST_COLLECTION);
    let first_id = state.active().id;

    let second_id = open_second_collection(&mut state, VALID_COLLECTION);

    assert_eq!(state.collections.len(), 2);
    assert_ne!(
        first_id, second_id,
        "every open collection must have its own, distinct id"
    );
    assert_eq!(
        state.active_collection, 1,
        "opening a collection switches straight to its new tab"
    );
    assert_eq!(saved_document(&state).len(), 2);
}

#[test]
fn a_failed_open_leaves_the_prompt_open_with_the_error_and_no_new_tab() {
    let mut state = loaded_state(THREE_REQUEST_COLLECTION);
    update(&mut state, Message::OpenCollectionPrompt);
    assert!(state.open_collection_prompt.is_some());

    let error = document_from(MALFORMED_YAML).expect_err("malformed test YAML");
    update(
        &mut state,
        Message::CollectionOpened {
            base_dir: ".".to_string(),
            path: FilePath::new("bad.yaml".to_string()),
            result: Err(error),
            environments: Vec::new(),
            environment_errors: Vec::new(),
        },
    );

    assert_eq!(
        state.collections.len(),
        1,
        "a failed open must not create a new tab"
    );
    let prompt = state
        .open_collection_prompt
        .as_ref()
        .expect("the prompt must stay open so the path can be fixed and retried");
    assert!(prompt.error.is_some());
}

#[test]
fn each_tab_keeps_independent_selection_run_state_and_edit_mode_with_no_bleed_through() {
    let mut state = loaded_state(THREE_REQUEST_COLLECTION);
    update(&mut state, Message::SelectNext);

    let _second_id = open_second_collection(&mut state, VALID_COLLECTION);
    assert_eq!(state.active_collection, 1);
    assert_eq!(
        selected(&state),
        0,
        "a freshly opened tab starts at index 0"
    );

    update(&mut state, Message::RunRequested);
    let tab1_id = state.active().id;
    update(
        &mut state,
        Message::RunCompleted {
            collection_id: tab1_id,
            completed_at: 0,
            outcome: sample_outcome(200),
        },
    );
    assert!(matches!(state.active().run_state, RunState::Completed));

    update(&mut state, Message::EnterEditMode);
    assert!(state.active().edit_mode.is_some());

    update(&mut state, Message::PreviousCollection);
    assert_eq!(state.active_collection, 0);
    assert_eq!(
        selected(&state),
        1,
        "tab 0's own selection must be untouched by anything done in tab 1"
    );
    assert!(
        matches!(state.active().run_state, RunState::Idle),
        "tab 0 never ran anything — its run_state must still be Idle, not tab 1's Completed"
    );
    assert!(
        state.active().edit_mode.is_none(),
        "tab 0 was never put into edit mode — tab 1's own edit session must not appear here"
    );

    update(&mut state, Message::NextCollection);
    assert_eq!(state.active_collection, 1);
    assert!(matches!(state.active().run_state, RunState::Completed));
    assert!(state.active().edit_mode.is_some());
}

#[test]
fn quit_prompts_for_unsaved_edits_in_a_tab_other_than_the_active_one() {
    let mut state = loaded_state(THREE_REQUEST_COLLECTION);
    update(&mut state, Message::EnterEditMode);
    assert!(state.active().edit_mode.is_some());

    open_second_collection(&mut state, VALID_COLLECTION);
    assert_eq!(state.active_collection, 1);
    assert!(
        !state.active().is_dirty(),
        "the active tab itself has nothing unsaved"
    );

    update(&mut state, Message::Quit);

    assert!(
        !state.should_quit,
        "tab 0's still-open edit session must still block quitting even \
             though tab 1, the active one, is completely clean"
    );
    assert!(state.quit_confirm.is_some());
}

#[test]
fn confirming_quit_exits_cancelling_preserves_every_tabs_edits() {
    let mut state = loaded_state(THREE_REQUEST_COLLECTION);
    update(&mut state, Message::EnterEditMode);
    state.active_mut().edit_mode.as_mut().unwrap().focus = EditField::Url;
    type_into_focused_field(&mut state, "/tab-0-unsaved-edit");
    assert!(state.active().edit_mode.as_ref().unwrap().dirty);

    open_second_collection(&mut state, VALID_COLLECTION);
    update(&mut state, Message::EnterEditMode);
    state.active_mut().edit_mode.as_mut().unwrap().focus = EditField::Url;
    type_into_focused_field(&mut state, "/tab-1-unsaved-edit");
    assert!(state.active().edit_mode.as_ref().unwrap().dirty);

    update(&mut state, Message::Quit);
    update(&mut state, Message::CancelQuit);
    assert!(!state.should_quit);
    assert!(
        state.active().edit_mode.is_some(),
        "tab 1's own edit session must still be open after cancelling quit"
    );
    assert!(state.active()
        .edit_mode
        .as_ref()
        .unwrap()
        .url
        .value()
        .ends_with("/tab-1-unsaved-edit"));
    update(&mut state, Message::PreviousCollection);
    assert_eq!(state.active_collection, 0);
    assert!(
        state.active().edit_mode.is_some(),
        "tab 0's own edit session must still be open too — cancelling \
             quit must not have touched any tab"
    );
    assert!(state.active()
        .edit_mode
        .as_ref()
        .unwrap()
        .url
        .value()
        .ends_with("/tab-0-unsaved-edit"));

    update(&mut state, Message::NextCollection);
    update(&mut state, Message::Quit);
    update(&mut state, Message::ConfirmQuit);
    assert!(state.should_quit);
}

#[test]
fn saving_in_one_tab_does_not_affect_an_unsaved_edit_in_another() {
    let mut disk = Disk::default();
    let path_a = "a.yaml".to_string();
    let path_b = "second.yaml".to_string();
    let second = "name: test\nrequests:\n  - name: One\n    method: GET\n    url: https://example.com\n";
    disk.write(&path_a, "method: GET\nurl: https://example.com\n");
    disk.write(&path_b, second);
    let mut state = disk.state_loaded_from(&path_a);
    open_second_collection(&mut state, second);
    let original_b = disk.document(&path_b).unwrap();

    disk.update(&mut state, Message::EnterEditMode);
    state.active_mut().edit_mode.as_mut().unwrap().focus = EditField::Url;
    backspace_n(&mut state, "https://example.com".len());
    type_into_focused_field(&mut state, "https://example.com/unsaved-in-b");
    assert!(state.active().dirty_requests.contains(&0));

    disk.update(&mut state, Message::PreviousCollection);
    assert_eq!(state.active_collection, 0);
    disk.update(&mut state, Message::EnterEditMode);
    state.active_mut().edit_mode.as_mut().unwrap().focus = EditField::Url;
    backspace_n(&mut state, "https://example.com".len());
    type_into_focused_field(&mut state, "https://example.com/saved-in-a");
    disk.update(&mut state, Message::SaveEdit);
    assert!(state.active().edit_mode.is_none(), "tab A's save must succeed");

    let reloaded_a = disk.document(&path_a).unwrap();
    assert_eq!(
        reloaded_a.get(0).unwrap().url,
        "https://example.com/saved-in-a"
    );

    let b_after = disk.document(&path_b).unwrap();
    assert_eq!(
        original_b, b_after,
        "saving in tab A must never touch tab B's file on disk"
    );
    disk.update(&mut state, Message::NextCollection);
    assert_eq!(state.active_collection, 1);
    assert!(
        state.active().edit_mode.is_some(),
        "tab B's own in-progress edit must still be open"
    );
    assert_eq!(
        state.active().edit_mode.as_ref().unwrap().url.value(),
        "https://example.com/unsaved-in-b",
        "tab B's unsaved edit must still hold exactly what was typed into it"
    );
    assert!(state.active().dirty_requests.contains(&0));
}

#[test]
fn next_and_previous_collection_wrap_and_are_exact_inverses() {
    let mut state = loaded_state(THREE_REQUEST_COLLECTION);
    let _id = open_second_collection(&mut state, VALID_COLLECTION);
    assert_eq!(state.active_collection, 1);

    update(&mut state, Message::NextCollection);
    assert_eq!(
        state.active_collection, 0,
        "must wrap from the last tab to the first"
    );

    update(&mut state, Message::PreviousCollection);
    assert_eq!(
        state.active_collection, 1,
        "must wrap back from the first to the last"
    );
}

#[test]
fn closing_a_clean_tab_removes_it_immediately_with_no_confirmation() {
    let mut state = loaded_state(THREE_REQUEST_COLLECTION);
    let _id = open_second_collection(&mut state, VALID_COLLECTION);
    assert_eq!(state.collections.len(), 2);

    update(&mut state, Message::CloseCollectionRequested);

    assert!(
        state.close_confirm.is_none(),
        "a clean tab must close without ever opening a confirmation"
    );
    assert_eq!(state.collections.len(), 1);
    assert_eq!(
        saved_document(&state).len(),
        3,
        "the remaining tab must be the other collection, untouched"
    );
}

#[test]
fn closing_a_dirty_tab_requires_confirmation_and_cancelling_keeps_it_open() {
    let mut state = loaded_state(THREE_REQUEST_COLLECTION);
    let dirty_id = open_second_collection(&mut state, VALID_COLLECTION);
    update(&mut state, Message::EnterEditMode);

    update(&mut state, Message::CloseCollectionRequested);
    assert_eq!(
        state
            .close_confirm
            .as_ref()
            .map(|confirm| confirm.collection_id),
        Some(dirty_id),
        "a tab with an open edit session must ask before closing"
    );
    assert_eq!(state.collections.len(), 2, "nothing has closed yet");

    update(&mut state, Message::CancelCloseCollection);
    assert!(state.close_confirm.is_none());
    assert_eq!(state.collections.len(), 2);
    assert!(
        state.active().edit_mode.is_some(),
        "cancelling the close must leave the edit session exactly as it was"
    );
}

#[test]
fn confirming_a_dirty_tab_close_actually_removes_it() {
    let mut state = loaded_state(THREE_REQUEST_COLLECTION);
    open_second_collection(&mut state, VALID_COLLECTION);
    update(&mut state, Message::EnterEditMode);

    update(&mut state, Message::CloseCollectionRequested);
    update(&mut state, Message::ConfirmCloseCollection);

    assert!(state.close_confirm.is_none());
    assert_eq!(state.collections.len(), 1);
    assert_eq!(saved_document(&state).len(), 3);
}

#[test]
fn closing_the_last_remaining_tab_resets_it_instead_of_removing_it() {
    let mut state = loaded_state(THREE_REQUEST_COLLECTION);
    assert_eq!(state.collections.len(), 1);

    update(&mut state, Message::CloseCollectionRequested);

    assert_eq!(
        state.collections.len(),
        1,
        "the Vec must never become empty"
    );
    assert!(matches!(state.active().load_state, LoadState::NoPathProvided { .. }));
    assert_eq!(state.active_collection, 0);
}

#[test]
fn run_completed_reaches_its_own_tab_even_after_switching_away() {
    let mut state = loaded_state(THREE_REQUEST_COLLECTION);
    let tab_a_id = state.active().id;
    update(&mut state, Message::RunRequested);
    assert!(matches!(state.active().run_state, RunState::InFlight));

    open_second_collection(&mut state, VALID_COLLECTION);
    assert_eq!(state.active_collection, 1);

    update(
        &mut state,
        Message::RunCompleted {
            collection_id: tab_a_id,
            completed_at: 0,
            outcome: sample_outcome(200),
        },
    );

    assert!(matches!(state.active().run_state, RunState::Idle));
    assert_eq!(
        state.active_collection, 1,
        "the result must not switch tabs either"
    );

    update(&mut state, Message::PreviousCollection);
    assert!(matches!(state.active().run_state, RunState::Completed));
}

#[test]
fn run_completed_for_a_since_closed_tab_is_silently_dropped_not_misrouted() {
    let mut state = loaded_state(THREE_REQUEST_COLLECTION);
    let closed_id = state.active().id;
    update(&mut state, Message::RunRequested);

    open_second_collection(&mut state, VALID_COLLECTION);
    update(&mut state, Message::PreviousCollection);
    update(&mut state, Message::CloseCollectionRequested);
    assert!(state.close_confirm.is_some());
    update(&mut state, Message::ConfirmCloseCollection);
    assert_eq!(state.collections.len(), 1);

    update(
        &mut state,
        Message::RunCompleted {
            collection_id: closed_id,
            completed_at: 0,
            outcome: sample_outcome(200),
        },
    );

    assert_eq!(state.collections.len(), 1);
    assert!(matches!(state.active().run_state, RunState::Idle));
}

#[test]
fn each_tabs_environments_and_active_environment_are_independent() {
    let mut state = loaded_state(THREE_REQUEST_COLLECTION);
    state.active_mut().environments = vec![
        named_environment("prod", &[("base_url", "https://prod.example.com")]),
        named_environment("staging", &[("base_url", "https://staging.example.com")]),
    ];
    update(&mut state, Message::OpenEnvironmentOverlay);
    update(&mut state, Message::ConfirmEnvironmentSelection);
    assert_eq!(state.active().active_environment, Some(0));

    open_second_collection(&mut state, VALID_COLLECTION);
    assert!(
        state.active().environments.is_empty(),
        "a newly opened tab must not inherit another tab's environments"
    );
    assert_eq!(state.active().active_environment, None);

    state.active_mut().environments = vec![named_environment(
        "only-here",
        &[("base_url", "https://only-here.example.com")],
    )];
    update(&mut state, Message::OpenEnvironmentOverlay);
    update(&mut state, Message::ConfirmEnvironmentSelection);
    assert_eq!(state.active().active_environment, Some(0));

    update(&mut state, Message::PreviousCollection);
    assert_eq!(state.active().environments.len(), 2);
    assert_eq!(state.active().active_environment, Some(0));
    assert_eq!(state.active().environments[0].name, "prod");
}

#[test]
fn confirming_a_discovered_valid_collection_loads_it() {
    let mut disk = Disk::default();
    let path = "found.yaml".to_string();
    disk.write(&path, VALID_COLLECTION);
    let mut state = state_with_discovered(vec![path.clone()]);

    disk.update(&mut state, Message::RunRequested);

    match &state.active().load_state {
        LoadState::Loaded {
            document, path: p, ..
        } => {
            assert_eq!(document.len(), 2);
            assert_eq!(&p.text, &path);
        }
        other => panic!("expected LoadState::Loaded, got {other:?}"),
    }
}

#[test]
fn confirming_a_discovered_malformed_collection_shows_the_real_error() {
    let mut disk = Disk::default();
    let path = "broken.yaml".to_string();
    disk.write(&path, MALFORMED_YAML);
    let mut state = state_with_discovered(vec![path]);

    disk.update(&mut state, Message::RunRequested);

    assert!(
        matches!(state.active().load_state, LoadState::Failed(_)),
        "a malformed discovered file must surface the real load error, \
             not be silently skipped or shown as an empty list entry"
    );
}

#[test]
fn confirming_moves_the_cursor_first_then_opens_the_highlighted_entry() {
    let mut disk = Disk::default();
    let first = "a.yaml".to_string();
    let second = "b.yaml".to_string();
    disk.write(&first, VALID_COLLECTION);
    disk.write(&second, THREE_REQUEST_COLLECTION);
    let mut state = state_with_discovered(vec![first, second.clone()]);

    disk.update(&mut state, Message::SelectNext);
    disk.update(&mut state, Message::RunRequested);

    match &state.active().load_state {
        LoadState::Loaded { path, .. } => assert_eq!(&path.text, &second),
        other => panic!("expected LoadState::Loaded, got {other:?}"),
    }
}

#[test]
fn run_requested_is_a_harmless_no_op_when_nothing_was_discovered() {
    let mut state = state_with_discovered(Vec::new());

    update(&mut state, Message::RunRequested);

    assert!(matches!(state.active().load_state, LoadState::NoPathProvided { .. }));
}

#[test]
fn selecting_up_and_down_wraps_through_the_discovered_list() {
    let paths: Vec<String> = ["a.yaml", "b.yaml", "c.yaml"]
        .iter()
        .map(|name| name.to_string())
        .collect();
    let mut state = state_with_discovered(paths);

    update(&mut state, Message::SelectPrevious);

    match &state.active().load_state {
        LoadState::NoPathProvided { cursor, .. } => {
            assert_eq!(
                *cursor, 2,
                "moving previous from 0 must wrap to the last entry"
            )
        }
        other => panic!("expected LoadState::NoPathProvided, got {other:?}"),
    }
}

#[test]
fn enter_environment_edit_seeds_rows_from_the_overlay_cursors_environment() {
    let (mut state, _dir, _path) =
        state_with_saved_environment("staging", &[("base_url", "https://example.com")]);

    update(&mut state, Message::EnterEnvironmentEdit);

    let env_edit = state.active()
        .environment_edit
        .as_ref()
        .expect("EnterEnvironmentEdit must open a session");
    assert_eq!(env_edit.index, 0);
    assert_eq!(env_edit.rows.len(), 1);
    assert_eq!(env_edit.rows[0].key.value(), "base_url");
    assert_eq!(env_edit.rows[0].value.value(), "https://example.com");
}

#[test]
fn enter_environment_edit_on_an_empty_environment_opens_with_no_rows_and_no_focus() {
    let (mut state, _dir, _path) = state_with_saved_environment("empty", &[]);

    update(&mut state, Message::EnterEnvironmentEdit);

    let env_edit = state.active().environment_edit.as_ref().unwrap();
    assert!(env_edit.rows.is_empty());
    assert_eq!(env_edit.focus, None);
}

#[test]
fn cancel_environment_edit_leaves_everything_untouched() {
    let (mut state, mut disk, path) =
        state_with_saved_environment("staging", &[("base_url", "https://example.com")]);
    let original_bytes = disk.environment(&path).unwrap();

    disk.update(&mut state, Message::EnterEnvironmentEdit);
    disk.update(&mut state, Message::AddEnvVarRow);
    type_into_focused_field(&mut state, "token");

    disk.update(&mut state, Message::CancelEnvironmentEdit);

    assert!(state.active().environment_edit.is_none());
    assert_eq!(
        state.active().environments[0].environment.variables.len(),
        1,
        "the in-memory environment must be exactly as it was"
    );
    let bytes_after = disk.environment(&path).unwrap();
    assert_eq!(
        original_bytes, bytes_after,
        "cancelling must never touch the file on disk"
    );
}

#[test]
fn adding_editing_and_deleting_variables_then_saving_persists_all_three_changes_to_disk() {
    let (mut state, mut disk, path) = state_with_saved_environment(
        "staging",
        &[
            ("base_url", "https://old.example.com"),
            ("to_delete", "gone-soon"),
        ],
    );

    disk.update(&mut state, Message::EnterEnvironmentEdit);
    assert_eq!(
        state.active().environment_edit.as_ref().unwrap().focus,
        Some(EnvVarField::Name(0)),
        "sanity: a fresh session focuses the first row's name field"
    );

    disk.update(&mut state, Message::EditFocusNext);
    backspace_n(&mut state, "https://old.example.com".len());
    type_into_focused_field(&mut state, "https://new.example.com");

    state.active_mut().environment_edit.as_mut().unwrap().focus = Some(EnvVarField::Name(1));
    disk.update(&mut state, Message::RequestDeleteEnvVarRow);
    disk.update(&mut state, Message::ConfirmDeleteEnvVarRow);

    disk.update(&mut state, Message::AddEnvVarRow);
    type_into_focused_field(&mut state, "token");
    disk.update(&mut state, Message::EditFocusNext);
    type_into_focused_field(&mut state, "abc123");

    disk.update(&mut state, Message::SaveEnvironmentEdit);
    assert!(state.active().environment_edit.is_none(), "the save must succeed");

    let reloaded = disk.environment(&path).expect("the saved file must exist and parse");
    assert_eq!(reloaded.variables.len(), 2);
    assert_eq!(
        value_of(&reloaded, "base_url"),
        Some("https://new.example.com")
    );
    assert_eq!(
        value_of(&reloaded, "token"),
        Some("abc123")
    );
    assert!(value_of(&reloaded, "to_delete").is_none());

    assert_eq!(
        state.active().environments[0].environment.variables,
        reloaded.variables
    );
}

#[test]
fn deleting_every_variable_and_saving_persists_a_genuinely_empty_environment() {
    let (mut state, mut disk, path) = state_with_saved_environment("staging", &[("only", "value")]);

    disk.update(&mut state, Message::EnterEnvironmentEdit);
    state.active_mut().environment_edit.as_mut().unwrap().focus = Some(EnvVarField::Name(0));
    disk.update(&mut state, Message::RequestDeleteEnvVarRow);
    disk.update(&mut state, Message::ConfirmDeleteEnvVarRow);
    assert_eq!(state.active().environment_edit.as_ref().unwrap().rows.len(), 0);

    disk.update(&mut state, Message::SaveEnvironmentEdit);

    assert!(
        state.active().environment_edit.is_none(),
        "saving down to zero variables must succeed, not refuse"
    );
    let reloaded = disk.environment(&path).unwrap();
    assert!(reloaded.variables.is_empty());
}

#[test]
fn saving_with_an_empty_variable_name_refuses_and_keeps_the_session_open() {
    let (mut state, mut disk, path) = state_with_saved_environment("staging", &[("base_url", "x")]);
    disk.update(&mut state, Message::EnterEnvironmentEdit);
    backspace_n(&mut state, "base_url".len());

    disk.update(&mut state, Message::SaveEnvironmentEdit);

    assert!(
        state.active().environment_edit.is_some(),
        "a refused save must not discard the session"
    );
    let error = state.active()
        .environment_edit
        .as_ref()
        .unwrap()
        .save_error
        .as_ref()
        .expect("an empty name must set a real error message");
    assert!(!error.is_empty());
    let reloaded = disk.environment(&path).unwrap();
    assert_eq!(
        value_of(&reloaded, "base_url"),
        Some("x")
    );
}

#[test]
fn saving_with_two_rows_sharing_a_name_refuses_and_keeps_the_session_open() {
    let (mut state, mut disk, path) = state_with_saved_environment("staging", &[("base_url", "x")]);
    disk.update(&mut state, Message::EnterEnvironmentEdit);
    disk.update(&mut state, Message::AddEnvVarRow);
    type_into_focused_field(&mut state, "base_url");

    disk.update(&mut state, Message::SaveEnvironmentEdit);

    assert!(
        state.active().environment_edit.is_some(),
        "a refused save must not discard the session"
    );
    assert!(state.active()
        .environment_edit
        .as_ref()
        .unwrap()
        .save_error
        .is_some());
    let reloaded = disk.environment(&path).unwrap();
    assert_eq!(
        reloaded.variables.len(),
        1,
        "the original single-variable file must be untouched"
    );
}

#[test]
fn cancelling_a_pending_row_delete_leaves_the_row_untouched() {
    let (mut state, _dir, _path) =
        state_with_saved_environment("staging", &[("base_url", "https://example.com")]);
    update(&mut state, Message::EnterEnvironmentEdit);
    state.active_mut().environment_edit.as_mut().unwrap().focus = Some(EnvVarField::Name(0));

    update(&mut state, Message::RequestDeleteEnvVarRow);
    assert_eq!(
        state.active()
            .environment_edit
            .as_ref()
            .unwrap()
            .pending_delete
            .as_ref()
            .map(|pending| pending.index),
        Some(0)
    );

    update(&mut state, Message::CancelDeleteEnvVarRow);

    let env_edit = state.active().environment_edit.as_ref().unwrap();
    assert_eq!(env_edit.pending_delete, None);
    assert_eq!(env_edit.rows.len(), 1, "the row must still be there");
    assert_eq!(env_edit.rows[0].key.value(), "base_url");
}

#[test]
fn environment_edit_is_a_no_op_while_already_editing_a_request_or_run_in_flight() {
    let mut editing = loaded_state(THREE_REQUEST_COLLECTION);
    update(&mut editing, Message::EnterEditMode);
    assert!(editing.active().edit_mode.is_some(), "sanity: edit mode is active");
    editing.active_mut().environments = vec![named_environment("staging", &[])];
    editing.active_mut().environment_overlay = Some(0);

    update(&mut editing, Message::EnterEnvironmentEdit);

    assert!(editing.active().environment_edit.is_none());

    let mut running = loaded_state(THREE_REQUEST_COLLECTION);
    running.active_mut().environments = vec![named_environment("staging", &[])];
    running.active_mut().environment_overlay = Some(0);
    update(&mut running, Message::RunRequested);
    update(&mut running, Message::EnterEnvironmentEdit);
    assert!(running.active().environment_edit.is_none());
}

#[test]
fn navigation_and_mode_entry_are_blocked_while_editing_environment_variables() {
    let (mut state, _dir, _path) =
        state_with_saved_environment("staging", &[("base_url", "https://example.com")]);
    update(&mut state, Message::EnterEnvironmentEdit);
    assert!(state.active().environment_edit.is_some());

    update(&mut state, Message::SelectNext);
    assert_eq!(state.active().environment_overlay, Some(0), "cursor must not move");

    update(&mut state, Message::CloseEnvironmentOverlay);
    assert!(
        state.active().environment_overlay.is_some(),
        "overlay must stay open"
    );

    assert!(
        state.active().environment_edit.is_some(),
        "the edit session itself must still be open throughout"
    );
}

#[test]
fn run_requested_moves_run_state_to_in_flight_when_a_request_is_selected() {
    let mut state = loaded_state(VALID_COLLECTION);

    update(&mut state, Message::RunRequested);

    assert!(matches!(state.active().run_state, RunState::InFlight));
}

#[test]
fn run_requested_is_a_no_op_with_nothing_loaded() {
    let mut state = AppState::default();

    update(&mut state, Message::RunRequested);

    assert!(matches!(state.active().run_state, RunState::Idle));
}

#[test]
fn run_completed_stores_the_real_response_in_run_state() {
    let mut state = loaded_state(VALID_COLLECTION);
    update(&mut state, Message::RunRequested);

    let collection_id = state.active().id;
    update(
        &mut state,
        Message::RunCompleted {
            collection_id,
            completed_at: 0,
            outcome: sample_outcome(200),
        },
    );

    assert!(matches!(state.active().run_state, RunState::Completed));
    match state.active().current_run() {
        Some(RunOutcome {
            result: Ok(response),
            ..
        }) => assert_eq!(response.status, 200),
        other => panic!(
            "expected current_run() to be Some(RunOutcome {{ result: Ok(_), .. }}), got {other:?}"
        ),
    }
}

#[test]
fn run_completed_stores_the_real_error_in_run_state() {
    let mut state = loaded_state(VALID_COLLECTION);
    update(&mut state, Message::RunRequested);
    let error = document_from(MALFORMED_YAML).expect_err("malformed test YAML");

    let collection_id = state.active().id;
    update(
        &mut state,
        Message::RunCompleted {
            collection_id,
            completed_at: 0,
            outcome: failed_outcome(error),
        },
    );

    assert!(matches!(state.active().run_state, RunState::Completed));
    assert!(matches!(
        state.active().current_run(),
        Some(RunOutcome { result: Err(_), .. })
    ));
}

#[test]
fn navigation_and_a_second_run_are_blocked_while_a_run_is_in_flight() {
    let mut state = loaded_state(THREE_REQUEST_COLLECTION);
    state.active_mut().environments = ["default", "staging"]
        .into_iter()
        .map(|name| named_environment(name, &[]))
        .collect();
    update(&mut state, Message::RunRequested);
    assert!(matches!(state.active().run_state, RunState::InFlight));

    update(&mut state, Message::SelectNext);
    update(&mut state, Message::SelectPrevious);
    update(&mut state, Message::OpenEnvironmentOverlay);
    update(&mut state, Message::RunRequested);

    assert_eq!(
        selected(&state),
        0,
        "selection must not move while a run is in flight"
    );
    assert_eq!(
        state.active().environment_overlay, None,
        "the environment overlay must not open while a run is in flight"
    );
    assert!(
        matches!(state.active().run_state, RunState::InFlight),
        "a second RunRequested must not restart or otherwise disturb the in-flight run"
    );
}

#[test]
fn run_completed_is_accepted_while_a_run_is_in_flight() {
    let mut state = loaded_state(VALID_COLLECTION);
    update(&mut state, Message::RunRequested);

    let collection_id = state.active().id;
    update(
        &mut state,
        Message::RunCompleted {
            collection_id,
            completed_at: 0,
            outcome: sample_outcome(204),
        },
    );

    assert!(
        matches!(state.active().run_state, RunState::Completed)
            && matches!(state.active().current_run(), Some(RunOutcome { result: Ok(_), .. })),
        "RunCompleted must end the in-flight state even though it would \
             otherwise be blocked by it"
    );
}

#[test]
fn navigation_works_again_once_a_run_has_completed() {
    let mut state = loaded_state(THREE_REQUEST_COLLECTION);
    update(&mut state, Message::RunRequested);
    let collection_id = state.active().id;
    update(
        &mut state,
        Message::RunCompleted {
            collection_id,
            completed_at: 0,
            outcome: sample_outcome(200),
        },
    );

    update(&mut state, Message::SelectNext);

    assert_eq!(selected(&state), 1);
}

#[test]
fn a_save_asks_for_the_document_to_be_written_and_shows_it_once_it_is() {
    let mut state = loaded_state(THREE_REQUEST_COLLECTION);
    update(&mut state, Message::SelectNext);
    update(&mut state, Message::EnterEditMode);
    type_into_focused_field(&mut state, "!");
    let before = saved_document(&state).clone();

    let effect = sendra_tui::update::update(&mut state, Message::SaveEdit);

    let Effect::SaveEdit {
        collection_id,
        path,
        document,
    } = effect
    else {
        panic!("expected Effect::SaveEdit, got {effect:?}");
    };
    assert_eq!(path, "collection.yaml");
    assert_eq!(collection_id, state.active().id);
    assert_eq!(document.get(0), before.get(0), "only one request may change");
    assert_eq!(document.get(1).unwrap().name.as_deref(), Some("Two!"));
    assert_eq!(document.get(2), before.get(2), "only one request may change");
    assert_eq!(saved_document(&state), &before, "nothing is written yet");

    update(
        &mut state,
        Message::EditSaved {
            collection_id,
            document,
            written: Ok(()),
        },
    );
    assert_eq!(document_name(&state, 1), "Two!");
    assert!(state.active().edit_mode.is_none());
}

#[test]
fn an_answer_for_a_tab_that_is_gone_changes_nothing() {
    let mut state = loaded_state(THREE_REQUEST_COLLECTION);
    let mut untouched = loaded_state(THREE_REQUEST_COLLECTION);
    untouched.next_id = state.next_id;
    let document = document_from(VALID_COLLECTION).unwrap();

    update(
        &mut state,
        Message::EditSaved {
            collection_id: 77,
            document,
            written: Ok(()),
        },
    );

    assert_eq!(state, untouched);
}

#[test]
fn an_unchanged_form_saves_the_request_it_was_opened_for() {
    let mut state = loaded_state(
        "name: test\nrequests:\n  - name: One\n    method: POST\n    url: https://example.com\n    json:\n      b: [1, 2]\n      a: true\n    assertions:\n      status: 200\n      json:\n        $.ok: true\n    capture:\n      token: $.token\n",
    );
    let before = saved_document(&state).clone();

    update(&mut state, Message::EnterEditMode);
    update(&mut state, Message::SaveEdit);

    assert!(state.active().edit_mode.is_none());
    assert_eq!(saved_document(&state), &before);
}

#[test]
fn a_json_body_is_kept_without_the_spaces_it_was_typed_with() {
    let mut state = loaded_state(
        "name: test\nrequests:\n  - name: One\n    method: POST\n    url: https://example.com\n    json: {}\n",
    );
    update(&mut state, Message::EnterEditMode);
    state.active_mut().edit_mode.as_mut().unwrap().focus = EditField::Body;
    backspace_n(&mut state, 2);
    type_into_focused_field(&mut state, "{ \"a\" : [ 1 , 2 ] }");

    update(&mut state, Message::SaveEdit);

    assert_eq!(
        saved_document(&state).get(0).unwrap().json.as_deref(),
        Some("{\"a\":[1,2]}")
    );
}

#[test]
fn a_refused_save_says_why_and_asks_for_nothing() {
    let mut state = loaded_state(THREE_REQUEST_COLLECTION);
    update(&mut state, Message::EnterEditMode);
    backspace_n(&mut state, "One".len());

    let effect = sendra_tui::update::update(&mut state, Message::SaveEdit);

    assert_eq!(effect, Effect::Nothing);
    assert_eq!(
        state.active().edit_mode.as_ref().unwrap().save_error.as_deref(),
        Some("request 1 needs a name: every request in a collection must have one")
    );
}

#[test]
fn a_method_that_does_not_exist_is_named() {
    assert_eq!(
        sendra_tui::document::validate_method_text("FETCH"),
        Err("'FETCH' is not a valid HTTP method".to_string())
    );
    assert_eq!(
        sendra_tui::document::validate_method_text("patch"),
        Ok(Method::Patch)
    );
}

#[test]
fn variables_are_refused_for_a_missing_and_for_a_repeated_name() {
    let (mut state, _disk, _path) = state_with_saved_environment("staging", &[("a", "1")]);
    update(&mut state, Message::EnterEnvironmentEdit);
    update(&mut state, Message::AddEnvVarRow);
    type_into_focused_field(&mut state, "  ");
    update(&mut state, Message::SaveEnvironmentEdit);
    assert_eq!(
        state.active().environment_edit.as_ref().unwrap().save_error.as_deref(),
        Some("every variable needs a name")
    );

    type_into_focused_field(&mut state, "a ");
    update(&mut state, Message::SaveEnvironmentEdit);
    assert_eq!(
        state.active().environment_edit.as_ref().unwrap().save_error.as_deref(),
        Some("two variables are both named 'a'; names must be unique")
    );
}

#[test]
fn variables_without_a_file_are_refused() {
    let mut state = state_with_environments(&["local"]);
    update(&mut state, Message::OpenEnvironmentOverlay);
    update(&mut state, Message::EnterEnvironmentEdit);

    let effect = sendra_tui::update::update(&mut state, Message::SaveEnvironmentEdit);

    assert_eq!(effect, Effect::Nothing);
    assert_eq!(
        state.active().environment_edit.as_ref().unwrap().save_error.as_deref(),
        Some("this environment has no file on disk to save to")
    );
}

#[test]
fn saved_variables_are_trimmed_and_in_the_order_of_their_names() {
    let (mut state, mut disk, path) =
        state_with_saved_environment("staging", &[("b", "2"), ("d", "4")]);
    disk.update(&mut state, Message::EnterEnvironmentEdit);
    disk.update(&mut state, Message::AddEnvVarRow);
    type_into_focused_field(&mut state, " c ");
    disk.update(&mut state, Message::EditFocusNext);
    type_into_focused_field(&mut state, " 3 ");

    disk.update(&mut state, Message::SaveEnvironmentEdit);

    assert_eq!(
        disk.environment(&path).unwrap(),
        environment_of(&[("b", "2"), ("c", " 3 "), ("d", "4")], Some(&path))
    );
}

#[test]
fn unchanged_variables_are_saved_as_they_were() {
    let (mut state, mut disk, path) =
        state_with_saved_environment("staging", &[("a", "1"), ("b", "2")]);
    let before = disk.environment(&path).unwrap();

    disk.update(&mut state, Message::EnterEnvironmentEdit);
    disk.update(&mut state, Message::SaveEnvironmentEdit);

    assert_eq!(disk.environment(&path).unwrap(), before);
    assert_eq!(state.active().environments[0].environment, before);
}

#[test]
fn quitting_counts_the_tabs_that_would_lose_something() {
    let mut state = loaded_state(THREE_REQUEST_COLLECTION);
    update(&mut state, Message::EnterEditMode);
    update(&mut state, Message::Quit);
    assert_eq!(
        state.quit_confirm.as_ref().unwrap().message,
        "Quit with unsaved changes in 1 tab? This cannot be undone."
    );
    update(&mut state, Message::CancelQuit);

    open_second_collection(&mut state, VALID_COLLECTION);
    update(&mut state, Message::RunRequested);
    update(&mut state, Message::Quit);
    assert_eq!(
        state.quit_confirm.as_ref().unwrap().message,
        "Quit with unsaved changes in 2 tabs? This cannot be undone."
    );
}

#[test]
fn a_search_and_its_end_keep_the_selected_request() {
    let mut state = loaded_state(THREE_REQUEST_COLLECTION);
    update(&mut state, Message::OpenRequestFilter);
    type_into_focused_field(&mut state, "TWO");
    assert_eq!(selected(&state), 1, "a search selects its first match");

    update(&mut state, Message::EditBackspace);
    update(&mut state, Message::CloseRequestFilter);

    assert_eq!(selected(&state), 1);
    assert_eq!(state.active().request_filter, None);
}

#[test]
fn a_page_down_and_up_leaves_the_panel_where_it_was() {
    let mut state = loaded_state(VALID_COLLECTION);
    state.active_mut().response_scroll = 7;

    update(&mut state, Message::ScrollResponseDown);
    assert_eq!(state.active().response_scroll, 7 + SCROLL_STEP_LINES);
    update(&mut state, Message::ScrollResponseUp);

    assert_eq!(state.active().response_scroll, 7);
}

#[test]
fn nothing_reaches_the_sessions_while_the_cheatsheet_is_open() {
    let mut state = loaded_state(THREE_REQUEST_COLLECTION);
    update(&mut state, Message::OpenCheatsheet);

    update(&mut state, Message::SelectNext);

    assert_eq!(selected(&state), 0);
    assert!(state.cheatsheet_open);
    update(&mut state, Message::CloseCheatsheet);
    update(&mut state, Message::SelectNext);
    assert_eq!(selected(&state), 1);
}

#[test]
fn a_program_without_a_path_looks_for_collections() {
    let mut state = AppState::default();
    let id = state.active().id;

    let effect = sendra_tui::update::update(&mut state, Message::NoCollectionPath);
    assert_eq!(effect, Effect::Discover { collection_id: id });

    update(
        &mut state,
        Message::CollectionsDiscovered {
            collection_id: id,
            paths: vec![FilePath::new("a.yaml".to_string())],
        },
    );
    assert_eq!(
        state.active().load_state,
        LoadState::NoPathProvided {
            discovered: vec![FilePath::new("a.yaml".to_string())],
            cursor: 0
        }
    );
}

#[test]
fn what_is_remembered_of_a_request_follows_it_when_another_is_deleted() {
    let mut state = loaded_state(THREE_REQUEST_COLLECTION);
    update(&mut state, Message::SelectPrevious);
    run_to_completion(&mut state, 404);
    update(&mut state, Message::SelectNext);

    update(&mut state, Message::RequestDelete);
    update(&mut state, Message::ConfirmDelete);

    update(&mut state, Message::SelectNext);
    assert_eq!(document_name(&state, selected(&state)), "Three");
    let history = state.active().selected_history();
    assert_eq!(history.len(), 1);
    assert_eq!(history[0].outcome.result.as_ref().unwrap().status, 404);
}

#[test]
fn a_run_that_ends_in_a_tab_begun_anew_is_not_shown() {
    let mut state = loaded_state(THREE_REQUEST_COLLECTION);
    let id = state.active().id;
    update(&mut state, Message::RunRequested);
    update(&mut state, Message::CloseCollectionRequested);
    update(&mut state, Message::ConfirmCloseCollection);
    state.active_mut().id = id;
    assert!(!matches!(
        state.active().load_state,
        LoadState::Loaded { .. }
    ));

    update(
        &mut state,
        Message::RunCompleted {
            collection_id: id,
            completed_at: 0,
            outcome: sample_outcome(200),
        },
    );

    assert_eq!(state.active().run_state, RunState::Idle);
    assert!(state.active().current_run().is_none());
    load(
        &mut state,
        "collection.yaml",
        Ok(document_from(VALID_COLLECTION).expect("valid test YAML")),
    );
    assert_eq!(state.active().run_state, RunState::Idle);
}

#[test]
fn a_finished_run_is_not_shown_for_a_collection_that_was_not_run() {
    let mut state = loaded_state(THREE_REQUEST_COLLECTION);
    update(&mut state, Message::SelectNext);
    run_to_completion(&mut state, 200);
    assert_eq!(state.active().run_state, RunState::Completed);

    load(
        &mut state,
        "other.yaml",
        Ok(document_from(VALID_COLLECTION).expect("valid test YAML")),
    );

    assert_eq!(selected(&state), 0);
    assert!(state.active().current_run().is_none());
    assert_eq!(state.active().run_state, RunState::Idle);
}

#[test]
fn a_discovered_collection_is_read_into_the_tab_that_asked_for_it() {
    let mut state = state_with_discovered(vec!["found.yaml".to_string()]);
    let asking = state.active().id;
    let effect = sendra_tui::update::update(&mut state, Message::RunRequested);
    match effect {
        Effect::LoadCollection {
            collection_id,
            base_dir,
            path,
        } => {
            assert_eq!(collection_id, asking);
            assert_eq!(base_dir, ".");
            assert_eq!(path.text, "found.yaml");
        }
        other => panic!("expected a collection to be asked for, got {other:?}"),
    }
    let second = open_second_collection(&mut state, VALID_COLLECTION);

    update(
        &mut state,
        Message::DiscoveredLoaded {
            collection_id: asking,
            base_dir: ".".to_string(),
            path: FilePath::new("found.yaml".to_string()),
            result: Ok(document_from(THREE_REQUEST_COLLECTION).expect("valid test YAML")),
        },
    );

    assert_eq!(state.active().id, second);
    assert_eq!(saved_document(&state).len(), 2);
    match &state.collections[0].load_state {
        LoadState::Loaded { document, path, .. } => {
            assert_eq!(document.len(), 3);
            assert_eq!(path.text, "found.yaml");
        }
        other => panic!("expected LoadState::Loaded, got {other:?}"),
    }
}

#[test]
fn a_discovered_collection_for_a_closed_tab_is_read_into_no_other() {
    let mut state = loaded_state(VALID_COLLECTION);
    let unused = state.next_id;

    update(
        &mut state,
        Message::DiscoveredLoaded {
            collection_id: unused,
            base_dir: ".".to_string(),
            path: FilePath::new("found.yaml".to_string()),
            result: Ok(document_from(THREE_REQUEST_COLLECTION).expect("valid test YAML")),
        },
    );

    assert_eq!(state, loaded_state(VALID_COLLECTION));
}

#[test]
fn one_thing_at_most_is_open_over_the_requests() {
    let opening = |index: usize| match index {
        0 => Message::EnterEditMode,
        1 => Message::OpenEnvironmentOverlay,
        2 => Message::OpenHistoryOverlay,
        _ => Message::RequestDelete,
    };
    for first in 0..4 {
        for second in 0..4 {
            let mut state = loaded_state(THREE_REQUEST_COLLECTION);
            update(&mut state, opening(first));
            update(&mut state, opening(second));
            let session = state.active();
            let open = [
                session.edit_mode.is_some(),
                session.environment_overlay.is_some(),
                session.history_overlay.is_some(),
                session.delete_confirm.is_some(),
            ];
            assert_eq!(
                open.iter().filter(|is_open| **is_open).count(),
                1,
                "{:?} and {:?}",
                opening(first),
                opening(second)
            );
        }
    }
}

#[test]
fn a_message_for_a_session_leaves_the_rest_of_the_program_alone() {
    let mut state = loaded_state(THREE_REQUEST_COLLECTION);
    open_second_collection(&mut state, VALID_COLLECTION);
    let mut untouched = loaded_state(THREE_REQUEST_COLLECTION);
    open_second_collection(&mut untouched, VALID_COLLECTION);

    update(&mut state, Message::SelectNext);

    assert_eq!(selected(&state), 1);
    assert_eq!(state.collections[0], untouched.collections[0]);
    assert_eq!(state.should_quit, untouched.should_quit);
    assert_eq!(state.quit_confirm, untouched.quit_confirm);
    assert_eq!(state.close_confirm, untouched.close_confirm);
    assert_eq!(state.spinner_tick, untouched.spinner_tick);
    assert_eq!(state.active_collection, untouched.active_collection);
}

#[test]
fn an_added_request_that_was_edited_is_given_up_without_a_trace() {
    for marked in [false, true] {
        let mut state = loaded_state(THREE_REQUEST_COLLECTION);
        update(&mut state, Message::SelectNext);
        state.active_mut().dirty_requests.insert(0);
        if marked {
            state.active_mut().dirty_requests.insert(3);
        }

        update(&mut state, Message::AddRequest);
        assert_eq!(selected(&state), 3);
        type_into_focused_field(&mut state, "abc");
        update(&mut state, Message::AddHeaderRow);
        update(&mut state, Message::EditFocusNext);
        update(&mut state, Message::CancelEdit);

        let untouched = loaded_state(THREE_REQUEST_COLLECTION);
        assert_eq!(selected(&state), 1);
        assert_eq!(saved_document(&state), saved_document(&untouched));
        assert!(state.active().dirty_requests.contains(&0));
        assert_eq!(state.active().dirty_requests.len(), 1);
        assert!(state.active().edit_mode.is_none());
    }
}
