//! Everything that is on the screen, before it is laid out and drawn.
use vstd::prelude::*;

use crate::document::{Request, RequestModel};
use crate::edit::EditModel;
use crate::paths::{FilePath, FilePathModel, paths_view};
use crate::preview::{AuthPreview, AuthPreviewModel, BrowsingPreview, BrowsingPreviewModel};
use crate::state::{AppModel, AppState, CollectionSession, LoadModel, LoadState, SessionModel};
use crate::text::{decimal, decimal_string, texts};
use crate::update::request_edit::{applied, body_reading, selected_request};
use crate::view::browser::{
    RequestList, RequestListModel, format_resolved_request, format_unresolved, preview_text,
    request_list, request_list_for, unresolved_text,
};
use crate::view::cheatsheet::{all_sections, cheatsheet_text, sections_text};
use crate::view::edit_form::{EditPane, EditPaneModel, edit_pane, pane_for, resolved_auth_text};
use crate::view::environment::{
    EnvironmentView, EnvironmentViewModel, environment_overlay, environment_overlay_for,
};
use crate::view::modals::{
    Question, QuestionModel, confirm_question, format_open_prompt, open_prompt_text, question_for,
};
use crate::view::response::{
    HistoryView, HistoryViewModel, ResponsePanel, ResponsePanelModel, history_for, history_view,
    panel_for, response_panel,
};
use crate::view::status::{
    StatusBar, StatusBarModel, bar_of, completed_run_known, help_text, status_bar_line,
    status_help_text,
};
use crate::view::{
    active_environment_in, collection_label, environment_in, error_text, format_error, label_of,
};

verus! {

broadcast use vstd::string::group_string_axioms;

/// What resolving the request on screen gave: for the preview, and for what is
/// told of its authentication.
#[derive(Debug, PartialEq, Eq)]
pub struct Resolution {
    pub browsing: Result<BrowsingPreview, String>,
    pub auth: Result<AuthPreview, String>,
}

#[verifier::ext_equal]
pub struct ResolutionModel {
    pub browsing: Result<BrowsingPreviewModel, Seq<char>>,
    pub auth: Result<AuthPreviewModel, Seq<char>>,
}

impl View for Resolution {
    type V = ResolutionModel;

    open spec fn view(&self) -> ResolutionModel {
        ResolutionModel {
            browsing: match self.browsing {
                Ok(preview) => Ok(preview@),
                Err(error) => Err(error@),
            },
            auth: match self.auth {
                Ok(preview) => Ok(preview@),
                Err(error) => Err(error@),
            },
        }
    }
}

/// How many rows there are for a response beside the requests, and for one in
/// the list of past runs.
#[derive(Clone, Copy, Debug, PartialEq, Eq)]
pub struct Room {
    pub detail: u16,
    pub history: u16,
}

/// One tab.
#[derive(Debug, PartialEq, Eq)]
pub struct Tab {
    pub label: String,
    pub active: bool,
}

#[verifier::ext_equal]
pub struct TabModel {
    pub label: Seq<char>,
    pub active: bool,
}

impl View for Tab {
    type V = TabModel;

    open spec fn view(&self) -> TabModel {
        TabModel { label: self.label@, active: self.active }
    }
}

/// What is shown of the selected request.
#[derive(Debug, PartialEq, Eq)]
pub enum Detail {
    Text(String),
    Form(EditPane),
    Response(ResponsePanel),
}

#[verifier::ext_equal]
pub enum DetailModel {
    Text(Seq<char>),
    Form(EditPaneModel),
    Response(ResponsePanelModel),
}

impl View for Detail {
    type V = DetailModel;

    open spec fn view(&self) -> DetailModel {
        match *self {
            Detail::Text(text) => DetailModel::Text(text@),
            Detail::Form(pane) => DetailModel::Form(pane@),
            Detail::Response(panel) => DetailModel::Response(panel@),
        }
    }
}

/// The main part of the screen.
#[derive(Debug, PartialEq, Eq)]
pub enum Body {
    Message(String),
    /// Collections to choose from, one of them picked.
    Candidates { title: String, rows: Vec<String>, picked: usize },
    Browser { list: RequestList, detail: Detail },
}

#[verifier::ext_equal]
pub enum BodyModel {
    Message(Seq<char>),
    Candidates { title: Seq<char>, rows: Seq<Seq<char>>, picked: int },
    Browser { list: RequestListModel, detail: DetailModel },
}

impl View for Body {
    type V = BodyModel;

    open spec fn view(&self) -> BodyModel {
        match *self {
            Body::Message(text) => BodyModel::Message(text@),
            Body::Candidates { title, rows, picked } => BodyModel::Candidates {
                title: title@,
                rows: texts(rows@),
                picked: picked as int,
            },
            Body::Browser { list, detail } => BodyModel::Browser {
                list: list@,
                detail: detail@,
            },
        }
    }
}

/// Something that lies over the main part.
#[derive(Debug, PartialEq, Eq)]
pub enum Overlay {
    Environments(EnvironmentView),
    History(HistoryView),
    Question(Question),
    /// The question for the path of a collection.
    OpenPrompt { title: String, text: String },
    /// The list of all keys.
    Cheatsheet { title: String, text: String },
}

#[verifier::ext_equal]
pub enum OverlayModel {
    Environments(EnvironmentViewModel),
    History(HistoryViewModel),
    Question(QuestionModel),
    OpenPrompt { title: Seq<char>, text: Seq<char> },
    Cheatsheet { title: Seq<char>, text: Seq<char> },
}

impl View for Overlay {
    type V = OverlayModel;

    open spec fn view(&self) -> OverlayModel {
        match *self {
            Overlay::Environments(view) => OverlayModel::Environments(view@),
            Overlay::History(view) => OverlayModel::History(view@),
            Overlay::Question(question) => OverlayModel::Question(question@),
            Overlay::OpenPrompt { title, text } => OverlayModel::OpenPrompt {
                title: title@,
                text: text@,
            },
            Overlay::Cheatsheet { title, text } => OverlayModel::Cheatsheet {
                title: title@,
                text: text@,
            },
        }
    }
}

/// Everything that is on the screen: tabs, where there is more than one, the
/// main part, the bottom bar, and what lies over them, the topmost last.
#[derive(Debug, PartialEq, Eq)]
pub struct Screen {
    pub tabs: Vec<Tab>,
    pub body: Body,
    pub status: StatusBar,
    pub overlays: Vec<Overlay>,
}

#[verifier::ext_equal]
pub struct ScreenModel {
    pub tabs: Seq<TabModel>,
    pub body: BodyModel,
    pub status: StatusBarModel,
    pub overlays: Seq<OverlayModel>,
}

/// A list of tabs by value.
pub open spec fn tabs_view(v: Seq<Tab>) -> Seq<TabModel> {
    Seq::new(v.len(), |i: int| v[i]@)
}

/// A list of overlays by value.
pub open spec fn overlays_view(v: Seq<Overlay>) -> Seq<OverlayModel> {
    Seq::new(v.len(), |i: int| v[i]@)
}

impl View for Screen {
    type V = ScreenModel;

    open spec fn view(&self) -> ScreenModel {
        ScreenModel {
            tabs: tabs_view(self.tabs@),
            body: self.body@,
            status: self.status@,
            overlays: overlays_view(self.overlays@),
        }
    }
}

// ---------------------------------------------------------------------------
// What is to be resolved
// ---------------------------------------------------------------------------

/// The request on screen: the one that the form describes, else the selected
/// one.
pub open spec fn request_on_screen(s: SessionModel) -> Option<RequestModel> {
    match s.load_state {
        LoadModel::Loaded { document, selected, .. } => if selected < document.requests().len() {
            let request = document.requests()[selected as int];
            Some(
                match s.edit_mode {
                    Some(edit) => applied(edit, request, body_reading(edit.body)),
                    None => request,
                },
            )
        } else {
            None
        },
        _ => None,
    }
}

/// The request on screen: the one that the form describes, else the selected
/// one.
pub fn request_to_resolve(session: &CollectionSession) -> (r: Option<Request>)
    ensures
        match request_on_screen(session@) {
            Some(request) => r is Some && r->0@ == request,
            None => r is None,
        },
{
    match selected_request(session) {
        Some(request) => match &session.edit_mode {
            Some(edit) => Some(edit.to_request(request)),
            None => Some(request.clone()),
        },
        None => None,
    }
}

// ---------------------------------------------------------------------------
// The parts
// ---------------------------------------------------------------------------

/// The tabs, where there is more than one.
pub open spec fn tabs_for(a: AppModel) -> Seq<TabModel> {
    if a.collections.len() > 1 {
        Seq::new(
            a.collections.len(),
            |i: int|
                TabModel {
                    label: " "@ + decimal((i + 1) as nat) + ":"@ + label_of(
                        a.collections[i].load_state,
                    ) + " "@,
                    active: i == a.active_collection,
                },
        )
    } else {
        Seq::empty()
    }
}

/// The tabs, where there is more than one.
pub fn tab_bar(state: &AppState) -> (r: Vec<Tab>)
    ensures
        tabs_view(r@) == tabs_for(state@),
{
    let ghost model = state@;
    let mut r: Vec<Tab> = Vec::new();
    if state.collections.len() <= 1 {
        assert(tabs_view(r@) =~= tabs_for(model));
        return r;
    }
    let mut i: usize = 0;
    while i < state.collections.len()
        invariant
            1 < state.collections@.len(),
            i <= state.collections@.len(),
            model == state@,
            tabs_view(r@) =~= tabs_for(model).take(i as int),
        decreases state.collections@.len() - i,
    {
        assert(model.collections[i as int] == state.collections@[i as int]@);
        let mut label = " ".to_owned();
        label.append(decimal_string(i as u64 + 1).as_str());
        label.append(":");
        label.append(collection_label(&state.collections[i]).as_str());
        label.append(" ");
        let ghost so_far = tabs_view(r@);
        let tab = Tab { label, active: i == state.active_collection };
        assert(tab@ == tabs_for(model)[i as int]);
        r.push(tab);
        assert(tabs_view(r@) =~= so_far.push(tabs_for(model)[i as int]));
        i = i + 1;
    }
    r
}

/// The preview of the selected request, or why there is none.
pub open spec fn preview_or_error(
    s: SessionModel,
    browsing: Result<BrowsingPreviewModel, Seq<char>>,
) -> Seq<char> {
    match browsing {
        Ok(preview) => preview_text(preview, s.reveal_captures),
        Err(error) => unresolved_text(
            match environment_in(s) {
                Some(named) => Some(named.name),
                None => None,
            },
            error,
        ),
    }
}

/// The authentication of a resolution.
pub open spec fn resolved_request(r: Result<AuthPreviewModel, Seq<char>>) -> Result<
    RequestModel,
    Seq<char>,
> {
    match r {
        Ok(preview) => Ok(preview.resolved),
        Err(error) => Err(error),
    }
}

/// The form of a request.
pub open spec fn form_pane(
    edit: EditModel,
    request: RequestModel,
    auth: Result<AuthPreviewModel, Seq<char>>,
    tick: nat,
) -> EditPaneModel {
    pane_for(
        edit,
        resolved_auth_text(
            edit.auth,
            applied(edit, request, body_reading(edit.body)),
            resolved_request(auth),
        ),
        tick,
    )
}

/// What is shown of the selected request: its form while it is edited, else
/// the answer once it was run, else its preview.
pub open spec fn detail_for(
    s: SessionModel,
    resolution: ResolutionModel,
    height: int,
    tick: nat,
) -> DetailModel {
    if !s.request_selected() {
        DetailModel::Text("No request selected."@)
    } else if s.edit_mode is Some {
        DetailModel::Form(
            form_pane(
                s.edit_mode->0,
                s.load_state->document.requests()[s.load_state->selected as int],
                resolution.auth,
                tick,
            ),
        )
    } else if s.current_run() is Some {
        DetailModel::Response(
            panel_for(
                s.current_run()->0,
                height,
                s.response_scroll as int,
                s.reveal_captures,
            ),
        )
    } else {
        DetailModel::Text(preview_or_error(s, resolution.browsing))
    }
}

/// What is shown of the selected request: its form while it is edited, else
/// the answer once it was run, else its preview.
pub fn detail_pane(
    session: &CollectionSession,
    resolution: &Resolution,
    height: u16,
    spinner_tick: usize,
) -> (r: Detail)
    requires
        session@.edit_mode is Some ==> session@.edit_mode->0.focus_valid(),
    ensures
        r@ == detail_for(session@, resolution@, height as int, spinner_tick as nat),
{
    let request = match selected_request(session) {
        Some(request) => request,
        None => return Detail::Text("No request selected.".to_owned()),
    };
    if let Some(edit) = &session.edit_mode {
        let candidate = edit.to_request(request);
        return Detail::Form(edit_pane(edit, &candidate, &resolution.auth, spinner_tick));
    }
    if let Some(outcome) = session.current_run() {
        return Detail::Response(
            response_panel(outcome, height, session.response_scroll, session.reveal_captures),
        );
    }
    match &resolution.browsing {
        Ok(preview) => Detail::Text(format_resolved_request(preview, session.reveal_captures)),
        Err(error) => {
            let name = match active_environment_in(session) {
                Some(named) => Some(named.name.as_str()),
                None => None,
            };
            Detail::Text(format_unresolved(name, error.as_str()))
        },
    }
}

/// What is shown where no collection was named: the collections found nearby,
/// with the one at the cursor picked, where there are any.
pub open spec fn welcome_for(discovered: Seq<FilePathModel>, cursor: usize) -> BodyModel {
    if discovered.len() == 0 {
        BodyModel::Message("No collection path provided."@)
    } else {
        BodyModel::Candidates {
            title: "No collection path provided."@,
            rows: Seq::new(discovered.len(), |i: int| discovered[i].text),
            picked: cursor as int,
        }
    }
}

fn welcome(discovered: &Vec<FilePath>, cursor: usize) -> (r: Body)
    ensures
        r@ == welcome_for(paths_view(discovered@), cursor),
{
    let title = "No collection path provided.".to_owned();
    if discovered.len() == 0 {
        return Body::Message(title);
    }
    let mut rows: Vec<String> = Vec::new();
    for i in 0..discovered.len()
        invariant
            rows@.len() == i,
            forall|j: int| 0 <= j < i ==> (#[trigger] rows@[j])@ == discovered@[j].text@,
    {
        rows.push(discovered[i].text.clone());
    }
    assert(texts(rows@) =~= Seq::new(
        discovered@.len(),
        |i: int| paths_view(discovered@)[i].text,
    ));
    Body::Candidates { title, rows, picked: cursor }
}

/// The main part of the screen.
pub open spec fn body_for(
    s: SessionModel,
    resolution: ResolutionModel,
    height: int,
    tick: nat,
) -> BodyModel {
    match s.load_state {
        LoadModel::Loading => BodyModel::Message("Loading collection..."@),
        LoadModel::NoPathProvided { discovered, cursor } => welcome_for(discovered, cursor),
        LoadModel::Failed(error) => BodyModel::Message(
            error_text("Failed to load collection"@, error),
        ),
        LoadModel::Loaded { document, selected, .. } => BodyModel::Browser {
            list: request_list_for(
                document,
                selected,
                s.dirty_requests,
                match s.request_filter {
                    Some(filter) => Some(filter.value),
                    None => None,
                },
            ),
            detail: detail_for(s, resolution, height, tick),
        },
    }
}

fn body_of(
    session: &CollectionSession,
    resolution: &Resolution,
    height: u16,
    spinner_tick: usize,
) -> (r: Body)
    requires
        session@.edit_mode is Some ==> session@.edit_mode->0.focus_valid(),
    ensures
        r@ == body_for(session@, resolution@, height as int, spinner_tick as nat),
{
    match &session.load_state {
        LoadState::Loading => Body::Message("Loading collection...".to_owned()),
        LoadState::NoPathProvided { discovered, cursor } => welcome(discovered, *cursor),
        LoadState::Failed(error) => Body::Message(
            format_error("Failed to load collection", error.as_str()),
        ),
        LoadState::Loaded { document, selected, .. } => {
            let query = match &session.request_filter {
                Some(filter) => Some(filter.value()),
                None => None,
            };
            Body::Browser {
                list: request_list(document, *selected, &session.dirty_requests, query),
                detail: detail_pane(session, resolution, height, spinner_tick),
            }
        },
    }
}

/// A list with something behind it, where there is something.
pub open spec fn pushed(overlays: Seq<OverlayModel>, more: Option<OverlayModel>) -> Seq<
    OverlayModel,
> {
    match more {
        Some(overlay) => overlays.push(overlay),
        None => overlays,
    }
}

/// An overlay by value, where there is one.
pub open spec fn opt_overlay(o: Option<Overlay>) -> Option<OverlayModel> {
    match o {
        Some(overlay) => Some(overlay@),
        None => None,
    }
}

fn push_overlay(overlays: &mut Vec<Overlay>, more: Option<Overlay>)
    ensures
        overlays_view(final(overlays)@) == pushed(overlays_view(old(overlays)@), opt_overlay(more)),
{
    if let Some(overlay) = more {
        let ghost so_far = overlays_view(overlays@);
        let ghost added = overlay@;
        overlays.push(overlay);
        assert(overlays_view(overlays@) =~= so_far.push(added));
    }
}

/// The environment picker or the variables form, while it is open.
pub open spec fn environments_shown(s: SessionModel) -> Option<OverlayModel> {
    match s.environment_overlay {
        Some(cursor) => Some(OverlayModel::Environments(environment_overlay_for(s, cursor))),
        None => None,
    }
}

/// The list of past runs, or one of them, while it is open.
pub open spec fn history_shown(s: SessionModel, now: int, height: int) -> Option<OverlayModel> {
    match s.history_overlay {
        Some(overlay) => Some(
            OverlayModel::History(
                history_for(
                    s.selected_history(),
                    s.selected_history_dropped(),
                    overlay,
                    now,
                    height,
                ),
            ),
        ),
        None => None,
    }
}

/// The question whether to delete a request, while it is asked.
pub open spec fn request_delete_shown(s: SessionModel) -> Option<OverlayModel> {
    match s.delete_confirm {
        Some(confirm) => Some(
            OverlayModel::Question(question_for("Delete request"@, confirm.prompt)),
        ),
        None => None,
    }
}

/// The question whether to delete a variable, while it is asked.
pub open spec fn variable_delete_shown(s: SessionModel) -> Option<OverlayModel> {
    match s.environment_edit {
        Some(form) => match form.pending_delete {
            Some(pending) => Some(
                OverlayModel::Question(question_for("Delete variable"@, pending.prompt)),
            ),
            None => None,
        },
        None => None,
    }
}

/// What lies over the main part because of the active session.
pub open spec fn session_overlays(s: SessionModel, now: int, height: int) -> Seq<OverlayModel> {
    pushed(
        pushed(
            pushed(
                pushed(Seq::empty(), environments_shown(s)),
                history_shown(s, now, height),
            ),
            request_delete_shown(s),
        ),
        variable_delete_shown(s),
    )
}

/// The question for a path, while it is asked.
pub open spec fn open_prompt_shown(a: AppModel) -> Option<OverlayModel> {
    match a.open_collection_prompt {
        Some(prompt) => Some(
            OverlayModel::OpenPrompt {
                title: "Open collection — Enter to confirm, Esc to cancel"@,
                text: open_prompt_text(prompt),
            },
        ),
        None => None,
    }
}

/// The question whether to close a tab, while it is asked.
pub open spec fn close_shown(a: AppModel) -> Option<OverlayModel> {
    match a.close_confirm {
        Some(confirm) => Some(
            OverlayModel::Question(question_for("Close collection"@, confirm.prompt)),
        ),
        None => None,
    }
}

/// The question whether to quit, while it is asked.
pub open spec fn quit_shown(a: AppModel) -> Option<OverlayModel> {
    match a.quit_confirm {
        Some(prompt) => Some(OverlayModel::Question(question_for("Quit sendra-tui"@, prompt))),
        None => None,
    }
}

/// The list of all keys, while it is open.
pub open spec fn cheatsheet_shown(a: AppModel) -> Option<OverlayModel> {
    if a.cheatsheet_open {
        Some(
            OverlayModel::Cheatsheet {
                title: "Keybindings — ? or Esc to close"@,
                text: sections_text(all_sections()),
            },
        )
    } else {
        None
    }
}

/// What lies over the main part, the topmost last.
pub open spec fn overlays_for(a: AppModel, now: int, height: int) -> Seq<OverlayModel> {
    pushed(
        pushed(
            pushed(
                pushed(session_overlays(a.active(), now, height), open_prompt_shown(a)),
                close_shown(a),
            ),
            quit_shown(a),
        ),
        cheatsheet_shown(a),
    )
}

fn session_overlays_of(session: &CollectionSession, now: u64, height: u16) -> (r: Vec<Overlay>)
    ensures
        overlays_view(r@) == session_overlays(session@, now as int, height as int),
{
    let environments = match session.environment_overlay {
        Some(cursor) => Some(Overlay::Environments(environment_overlay(session, cursor))),
        None => None,
    };
    let history = match &session.history_overlay {
        Some(overlay) => Some(
            Overlay::History(
                history_view(
                    session.selected_history(),
                    session.selected_history_dropped(),
                    overlay,
                    now,
                    height,
                ),
            ),
        ),
        None => None,
    };
    let request_delete = match &session.delete_confirm {
        Some(confirm) => Some(
            Overlay::Question(confirm_question("Delete request", &confirm.prompt)),
        ),
        None => None,
    };
    let variable_delete = match &session.environment_edit {
        Some(form) => match &form.pending_delete {
            Some(pending) => Some(
                Overlay::Question(confirm_question("Delete variable", &pending.prompt)),
            ),
            None => None,
        },
        None => None,
    };
    let mut r: Vec<Overlay> = Vec::new();
    assert(overlays_view(r@) =~= Seq::empty());
    push_overlay(&mut r, environments);
    push_overlay(&mut r, history);
    push_overlay(&mut r, request_delete);
    push_overlay(&mut r, variable_delete);
    r
}

/// What lies over the main part, the topmost last.
pub fn overlays_of(state: &AppState, now: u64, height: u16) -> (r: Vec<Overlay>)
    requires
        state@.tabs_valid(),
    ensures
        overlays_view(r@) == overlays_for(state@, now as int, height as int),
{
    let open_prompt = match &state.open_collection_prompt {
        Some(prompt) => Some(
            Overlay::OpenPrompt {
                title: "Open collection — Enter to confirm, Esc to cancel".to_owned(),
                text: format_open_prompt(prompt),
            },
        ),
        None => None,
    };
    let close = match &state.close_confirm {
        Some(confirm) => Some(
            Overlay::Question(confirm_question("Close collection", &confirm.prompt)),
        ),
        None => None,
    };
    let quit = match &state.quit_confirm {
        Some(prompt) => Some(Overlay::Question(confirm_question("Quit sendra-tui", prompt))),
        None => None,
    };
    let cheatsheet = if state.cheatsheet_open {
        Some(
            Overlay::Cheatsheet {
                title: "Keybindings — ? or Esc to close".to_owned(),
                text: cheatsheet_text(),
            },
        )
    } else {
        None
    };
    let mut r = session_overlays_of(state.active(), now, height);
    push_overlay(&mut r, open_prompt);
    push_overlay(&mut r, close);
    push_overlay(&mut r, quit);
    push_overlay(&mut r, cheatsheet);
    r
}

/// Whether there is something to show of the active session: its form has its
/// focus on one of its fields, and a finished run is remembered.
pub open spec fn showable(s: SessionModel) -> bool {
    &&& s.edit_mode is Some ==> s.edit_mode->0.focus_valid()
    &&& completed_run_known(s)
}

/// Everything that is on the screen.
pub open spec fn screen_for(
    a: AppModel,
    resolution: ResolutionModel,
    room: Room,
    now: int,
) -> ScreenModel {
    ScreenModel {
        tabs: tabs_for(a),
        body: body_for(a.active(), resolution, room.detail as int, a.spinner_tick as nat),
        status: bar_of(
            help_text(
                a,
                match resolution.auth {
                    Ok(preview) => Some(preview),
                    Err(_) => None,
                },
            ),
        ),
        overlays: overlays_for(a, now, room.history as int),
    }
}

/// Everything that is on the screen at a time, where `resolution` is what
/// resolving the request on screen gave.
pub fn screen(state: &AppState, resolution: &Resolution, room: Room, now: u64) -> (r: Screen)
    requires
        state@.tabs_valid(),
        showable(state@.active()),
    ensures
        r@ == screen_for(state@, resolution@, room, now as int),
{
    let session = state.active();
    let preview = match &resolution.auth {
        Ok(preview) => Some(preview),
        Err(_) => None,
    };
    Screen {
        tabs: tab_bar(state),
        body: body_of(session, resolution, room.detail, state.spinner_tick),
        status: status_bar_line(status_help_text(state, preview).as_str()),
        overlays: overlays_of(state, now, room.history),
    }
}

} // verus!
