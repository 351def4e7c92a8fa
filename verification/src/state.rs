//! What the program remembers: the open collections, what is shown over them,
//! and the messages that change it.
use std::collections::{HashMap, HashSet};

use vstd::prelude::*;

use crate::document::{
    Document, DocumentModel, Environment, NamedEnvironment, NamedEnvironmentModel,
    environments_view,
};
use crate::edit::{EditField, EditModel, EditState};
use crate::paths::{FilePath, FilePathModel, paths_view};
use crate::prompt::{ConfirmPrompt, ConfirmPromptModel};
use crate::run::{RunHistoryEntry, RunOutcome};
use crate::text::{opt_text, pairs_view};
use crate::text_field::{TextField, TextFieldModel};
use crate::variables_form::{EnvironmentEditModel, EnvironmentEditState};

verus! {

broadcast use {vstd::std_specs::hash::group_hash_axioms, vstd::string::group_string_axioms};

/// How many finished runs are remembered of one request.
pub const RUN_HISTORY_CAP: usize = 50;

/// How many lines one page key scrolls a response.
pub const SCROLL_STEP_LINES: usize = 10;

// ---------------------------------------------------------------------------
// Loading
// ---------------------------------------------------------------------------

/// What is known of a session's collection.
#[derive(Debug, PartialEq, Eq)]
pub enum LoadState {
    Loading,
    /// No collection was named; these were found nearby.
    NoPathProvided { discovered: Vec<FilePath>, cursor: usize },
    /// The collection could not be read, and why.
    Failed(String),
    Loaded { document: Document, selected: usize, base_dir: String, path: FilePath },
}

#[verifier::ext_equal]
pub enum LoadModel {
    Loading,
    NoPathProvided { discovered: Seq<FilePathModel>, cursor: usize },
    Failed(Seq<char>),
    Loaded { document: DocumentModel, selected: usize, base_dir: Seq<char>, path: FilePathModel },
}

impl View for LoadState {
    type V = LoadModel;

    open spec fn view(&self) -> LoadModel {
        match *self {
            LoadState::Loading => LoadModel::Loading,
            LoadState::NoPathProvided { discovered, cursor } => LoadModel::NoPathProvided {
                discovered: paths_view(discovered@),
                cursor,
            },
            LoadState::Failed(error) => LoadModel::Failed(error@),
            LoadState::Loaded { document, selected, base_dir, path } => LoadModel::Loaded {
                document: document@,
                selected,
                base_dir: base_dir@,
                path: path@,
            },
        }
    }
}

/// Whether the selected request is idle, being run, or has been run.
#[derive(Clone, Copy, Debug, PartialEq, Eq, Structural)]
pub enum RunState {
    Idle,
    InFlight,
    Completed,
}

// ---------------------------------------------------------------------------
// Parts of a session
// ---------------------------------------------------------------------------

/// What is restored when a request that was just added is given up.
#[derive(Debug, PartialEq, Eq)]
pub struct PendingNewRequest {
    pub previous_selected: usize,
    pub document_before: Document,
}

#[verifier::ext_equal]
pub struct PendingNewRequestModel {
    pub previous_selected: usize,
    pub document_before: DocumentModel,
}

impl View for PendingNewRequest {
    type V = PendingNewRequestModel;

    open spec fn view(&self) -> PendingNewRequestModel {
        PendingNewRequestModel {
            previous_selected: self.previous_selected,
            document_before: self.document_before@,
        }
    }
}

/// A request that is deleted once the question about it is answered.
#[derive(Debug, PartialEq, Eq)]
pub struct DeleteConfirm {
    pub index: usize,
    pub prompt: ConfirmPrompt,
}

#[verifier::ext_equal]
pub struct DeleteConfirmModel {
    pub index: usize,
    pub prompt: ConfirmPromptModel,
}

impl View for DeleteConfirm {
    type V = DeleteConfirmModel;

    open spec fn view(&self) -> DeleteConfirmModel {
        DeleteConfirmModel { index: self.index, prompt: self.prompt@ }
    }
}

/// The list of the selected request's past runs, or one of them.
#[derive(Debug, PartialEq, Eq)]
pub struct HistoryOverlay {
    pub cursor: usize,
    /// The run that is shown in full, where one is.
    pub viewing: Option<usize>,
    pub view_scroll: usize,
    pub view_reveal_captures: bool,
    /// The runs whose details are shown in the list.
    pub expanded: HashSet<usize>,
}

#[verifier::ext_equal]
pub struct HistoryOverlayModel {
    pub cursor: usize,
    pub viewing: Option<usize>,
    pub view_scroll: usize,
    pub view_reveal_captures: bool,
    pub expanded: Set<usize>,
}

impl View for HistoryOverlay {
    type V = HistoryOverlayModel;

    open spec fn view(&self) -> HistoryOverlayModel {
        HistoryOverlayModel {
            cursor: self.cursor,
            viewing: self.viewing,
            view_scroll: self.view_scroll,
            view_reveal_captures: self.view_reveal_captures,
            expanded: self.expanded@,
        }
    }
}

/// The list of past runs as it opens.
pub open spec fn fresh_history_overlay() -> HistoryOverlayModel {
    HistoryOverlayModel {
        cursor: 0,
        viewing: None,
        view_scroll: 0,
        view_reveal_captures: false,
        expanded: Set::empty(),
    }
}

impl Default for HistoryOverlay {
    fn default() -> (r: Self)
        ensures
            r@ == fresh_history_overlay(),
    {
        HistoryOverlay {
            cursor: 0,
            viewing: None,
            view_scroll: 0,
            view_reveal_captures: false,
            expanded: HashSet::new(),
        }
    }
}

// ---------------------------------------------------------------------------
// Sessions
// ---------------------------------------------------------------------------

/// One open collection and everything that is remembered about it.
#[derive(Debug, PartialEq, Eq)]
pub struct CollectionSession {
    pub id: u64,
    pub load_state: LoadState,
    pub environments: Vec<NamedEnvironment>,
    /// The environments that could not be read, and why.
    pub environment_errors: Vec<(String, String)>,
    /// Which environment requests are resolved against, once one was picked.
    pub active_environment: Option<usize>,
    /// The cursor of the environment picker, while it is open.
    pub environment_overlay: Option<usize>,
    pub run_state: RunState,
    pub response_scroll: usize,
    pub reveal_captures: bool,
    /// The form, while a request is edited.
    pub edit_mode: Option<EditState>,
    /// The requests with changes that were not saved.
    pub dirty_requests: HashSet<usize>,
    pub pending_new_request: Option<PendingNewRequest>,
    pub delete_confirm: Option<DeleteConfirm>,
    /// The form, while an environment's variables are edited.
    pub environment_edit: Option<EnvironmentEditState>,
    /// The past runs of each request, the newest first.
    pub run_history: HashMap<usize, Vec<RunHistoryEntry>>,
    /// How many runs of each request were forgotten.
    pub run_history_dropped: HashMap<usize, usize>,
    pub history_overlay: Option<HistoryOverlay>,
    /// What request names are searched for, while the list is filtered.
    pub request_filter: Option<TextField>,
}

#[verifier::ext_equal]
pub struct SessionModel {
    pub id: u64,
    pub load_state: LoadModel,
    pub environments: Seq<NamedEnvironmentModel>,
    pub environment_errors: Seq<(Seq<char>, Seq<char>)>,
    pub active_environment: Option<usize>,
    pub environment_overlay: Option<usize>,
    pub run_state: RunState,
    pub response_scroll: usize,
    pub reveal_captures: bool,
    pub edit_mode: Option<EditModel>,
    pub dirty_requests: Set<usize>,
    pub pending_new_request: Option<PendingNewRequestModel>,
    pub delete_confirm: Option<DeleteConfirmModel>,
    pub environment_edit: Option<EnvironmentEditModel>,
    pub run_history: Map<usize, Seq<RunHistoryEntry>>,
    pub run_history_dropped: Map<usize, usize>,
    pub history_overlay: Option<HistoryOverlayModel>,
    pub request_filter: Option<TextFieldModel>,
}

/// A history by the runs it holds.
pub open spec fn history_view(
    m: Map<usize, Vec<RunHistoryEntry>>,
) -> Map<usize, Seq<RunHistoryEntry>> {
    Map::new(|k: usize| m.contains_key(k), |k: usize| m[k]@)
}

impl View for CollectionSession {
    type V = SessionModel;

    open spec fn view(&self) -> SessionModel {
        SessionModel {
            id: self.id,
            load_state: self.load_state@,
            environments: environments_view(self.environments@),
            environment_errors: pairs_view(self.environment_errors@),
            active_environment: self.active_environment,
            environment_overlay: self.environment_overlay,
            run_state: self.run_state,
            response_scroll: self.response_scroll,
            reveal_captures: self.reveal_captures,
            edit_mode: match self.edit_mode {
                Some(e) => Some(e@),
                None => None,
            },
            dirty_requests: self.dirty_requests@,
            pending_new_request: match self.pending_new_request {
                Some(p) => Some(p@),
                None => None,
            },
            delete_confirm: match self.delete_confirm {
                Some(d) => Some(d@),
                None => None,
            },
            environment_edit: match self.environment_edit {
                Some(e) => Some(e@),
                None => None,
            },
            run_history: history_view(self.run_history@),
            run_history_dropped: self.run_history_dropped@,
            history_overlay: match self.history_overlay {
                Some(o) => Some(o@),
                None => None,
            },
            request_filter: match self.request_filter {
                Some(f) => Some(f@),
                None => None,
            },
        }
    }
}

/// A session that nothing has happened to.
pub open spec fn fresh_session(id: u64, load_state: LoadModel) -> SessionModel {
    SessionModel {
        id,
        load_state,
        environments: Seq::empty(),
        environment_errors: Seq::empty(),
        active_environment: None,
        environment_overlay: None,
        run_state: RunState::Idle,
        response_scroll: 0,
        reveal_captures: false,
        edit_mode: None,
        dirty_requests: Set::empty(),
        pending_new_request: None,
        delete_confirm: None,
        environment_edit: None,
        run_history: Map::empty(),
        run_history_dropped: Map::empty(),
        history_overlay: None,
        request_filter: None,
    }
}

impl SessionModel {
    /// Whether closing the session would lose something: an open form, a run
    /// whose answer is still to come, or changes that were not saved.
    pub open spec fn is_dirty(self) -> bool {
        ||| self.edit_mode is Some
        ||| self.environment_edit is Some
        ||| self.run_state == RunState::InFlight
        ||| self.dirty_requests != Set::<usize>::empty()
    }

    /// The index of the selected request, where a document is loaded.
    pub open spec fn selected(self) -> Option<usize> {
        match self.load_state {
            LoadModel::Loaded { selected, .. } => Some(selected),
            _ => None,
        }
    }

    /// Whether the selection is on a request.
    pub open spec fn request_selected(self) -> bool {
        match self.load_state {
            LoadModel::Loaded { document, selected, .. } => selected < document.requests().len(),
            _ => false,
        }
    }

    /// The past runs of the selected request, the newest first.
    pub open spec fn selected_history(self) -> Seq<RunHistoryEntry> {
        match self.selected() {
            Some(selected) => if self.run_history.contains_key(selected) {
                self.run_history[selected]
            } else {
                Seq::empty()
            },
            None => Seq::empty(),
        }
    }

    /// How many runs of the selected request were forgotten.
    pub open spec fn selected_history_dropped(self) -> int {
        match self.selected() {
            Some(selected) => if self.run_history_dropped.contains_key(selected) {
                self.run_history_dropped[selected] as int
            } else {
                0
            },
            None => 0,
        }
    }

    /// What the last run of the selected request came to, once it has
    /// finished.
    pub open spec fn current_run(self) -> Option<RunOutcome> {
        if self.run_state == RunState::Completed && self.selected_history().len() > 0 {
            Some(self.selected_history()[0].outcome)
        } else {
            None
        }
    }

    /// Whether a finished run is remembered, where the session has one to show.
    pub open spec fn finished_run_known(self) -> bool {
        self.run_state == RunState::Completed ==> self.current_run() is Some
    }

    /// The session without a finished run to show, where none is remembered.
    pub open spec fn settled(self) -> SessionModel {
        if self.finished_run_known() {
            self
        } else {
            SessionModel { run_state: RunState::Idle, ..self }
        }
    }
}

impl CollectionSession {
    /// Forgets that a run has finished, where none is remembered.
    pub fn settle(&mut self)
        ensures
            final(self)@ == old(self)@.settled(),
    {
        if matches!(self.run_state, RunState::Completed) && self.selected_history().len() == 0 {
            self.run_state = RunState::Idle;
        }
    }

    /// A session that nothing has happened to.
    pub fn fresh(id: u64, load_state: LoadState) -> (r: CollectionSession)
        ensures
            r@ == fresh_session(id, load_state@),
    {
        let r = CollectionSession {
            id,
            load_state,
            environments: Vec::new(),
            environment_errors: Vec::new(),
            active_environment: None,
            environment_overlay: None,
            run_state: RunState::Idle,
            response_scroll: 0,
            reveal_captures: false,
            edit_mode: None,
            dirty_requests: HashSet::new(),
            pending_new_request: None,
            delete_confirm: None,
            environment_edit: None,
            run_history: HashMap::new(),
            run_history_dropped: HashMap::new(),
            history_overlay: None,
            request_filter: None,
        };
        assert(environments_view(r.environments@) =~= Seq::empty());
        assert(pairs_view(r.environment_errors@) =~= Seq::empty());
        assert(history_view(r.run_history@) =~= Map::empty());
        r
    }

    /// Whether closing the session would lose something.
    pub fn is_dirty(&self) -> (r: bool)
        ensures
            r == self@.is_dirty(),
    {
        self.edit_mode.is_some() || self.environment_edit.is_some() || matches!(
            self.run_state,
            RunState::InFlight
        ) || !self.dirty_requests.is_empty()
    }

    /// The past runs of the selected request, the newest first.
    pub fn selected_history(&self) -> (r: &[RunHistoryEntry])
        ensures
            r@ == self@.selected_history(),
    {
        if let LoadState::Loaded { selected, .. } = &self.load_state {
            if let Some(entries) = self.run_history.get(selected) {
                return entries.as_slice();
            }
        }
        &[]
    }

    /// How many runs of the selected request were forgotten.
    pub fn selected_history_dropped(&self) -> (r: usize)
        ensures
            r == self@.selected_history_dropped(),
    {
        if let LoadState::Loaded { selected, .. } = &self.load_state {
            if let Some(dropped) = self.run_history_dropped.get(selected) {
                return *dropped;
            }
        }
        0
    }

    /// What the last run of the selected request came to, once it has
    /// finished.
    pub fn current_run(&self) -> (r: Option<&RunOutcome>)
        ensures
            match self@.current_run() {
                Some(outcome) => r is Some && *r->0 == outcome,
                None => r is None,
            },
    {
        if !matches!(self.run_state, RunState::Completed) {
            return None;
        }
        let history = self.selected_history();
        if history.len() == 0 {
            None
        } else {
            Some(&history[0].outcome)
        }
    }

    /// Whether the form's body has the focus.
    pub fn body_focused(&self) -> (r: bool)
        ensures
            r == (self@.edit_mode is Some && self@.edit_mode->0.focus == EditField::Body),
    {
        match &self.edit_mode {
            Some(edit) => edit.focus == EditField::Body,
            None => false,
        }
    }
}

// ---------------------------------------------------------------------------
// The program
// ---------------------------------------------------------------------------

/// The question for the path of a collection to open.
#[derive(Debug, PartialEq, Eq)]
pub struct OpenCollectionPromptState {
    pub path: TextField,
    /// Why the last path could not be opened, where it could not.
    pub error: Option<String>,
}

#[verifier::ext_equal]
pub struct OpenPromptModel {
    pub path: TextFieldModel,
    pub error: Option<Seq<char>>,
}

impl View for OpenCollectionPromptState {
    type V = OpenPromptModel;

    open spec fn view(&self) -> OpenPromptModel {
        OpenPromptModel { path: self.path@, error: opt_text(self.error) }
    }
}

/// The question as it opens.
pub open spec fn fresh_open_prompt() -> OpenPromptModel {
    OpenPromptModel { path: TextFieldModel::holding(Seq::empty()), error: None }
}

impl Default for OpenCollectionPromptState {
    fn default() -> (r: Self)
        ensures
            r@ == fresh_open_prompt(),
    {
        OpenCollectionPromptState { path: TextField::default(), error: None }
    }
}

/// A collection that is closed once the question about it is answered.
#[derive(Debug, PartialEq, Eq)]
pub struct CloseConfirm {
    pub collection_id: u64,
    pub prompt: ConfirmPrompt,
}

#[verifier::ext_equal]
pub struct CloseConfirmModel {
    pub collection_id: u64,
    pub prompt: ConfirmPromptModel,
}

impl View for CloseConfirm {
    type V = CloseConfirmModel;

    open spec fn view(&self) -> CloseConfirmModel {
        CloseConfirmModel { collection_id: self.collection_id, prompt: self.prompt@ }
    }
}

/// Everything the program remembers.
#[derive(Debug, PartialEq, Eq)]
pub struct AppState {
    /// The open collections: never none.
    pub collections: Vec<CollectionSession>,
    pub active_collection: usize,
    /// The id of the next collection that is opened.
    pub next_id: u64,
    pub should_quit: bool,
    pub quit_confirm: Option<ConfirmPrompt>,
    pub spinner_tick: usize,
    pub open_collection_prompt: Option<OpenCollectionPromptState>,
    pub close_confirm: Option<CloseConfirm>,
    pub cheatsheet_open: bool,
}

#[verifier::ext_equal]
pub struct AppModel {
    pub collections: Seq<SessionModel>,
    pub active_collection: usize,
    pub next_id: u64,
    pub should_quit: bool,
    pub quit_confirm: Option<ConfirmPromptModel>,
    pub spinner_tick: usize,
    pub open_collection_prompt: Option<OpenPromptModel>,
    pub close_confirm: Option<CloseConfirmModel>,
    pub cheatsheet_open: bool,
}

/// A list of sessions by value.
pub open spec fn sessions_view(v: Seq<CollectionSession>) -> Seq<SessionModel> {
    Seq::new(v.len(), |i: int| v[i]@)
}

impl View for AppState {
    type V = AppModel;

    open spec fn view(&self) -> AppModel {
        AppModel {
            collections: sessions_view(self.collections@),
            active_collection: self.active_collection,
            next_id: self.next_id,
            should_quit: self.should_quit,
            quit_confirm: match self.quit_confirm {
                Some(p) => Some(p@),
                None => None,
            },
            spinner_tick: self.spinner_tick,
            open_collection_prompt: match self.open_collection_prompt {
                Some(p) => Some(p@),
                None => None,
            },
            close_confirm: match self.close_confirm {
                Some(c) => Some(c@),
                None => None,
            },
            cheatsheet_open: self.cheatsheet_open,
        }
    }
}

impl AppModel {
    /// At least one collection is open, one of them is active, and no two
    /// share an id, now or later.
    pub open spec fn tabs_valid(self) -> bool {
        &&& 0 < self.collections.len() <= usize::MAX
        &&& self.active_collection < self.collections.len()
        &&& forall|i: int|
            0 <= i < self.collections.len() ==> (#[trigger] self.collections[i]).id < self.next_id
        &&& forall|i: int, j: int|
            0 <= i < j < self.collections.len() ==> (#[trigger] self.collections[i]).id != (
            #[trigger] self.collections[j]).id
    }

    /// The active collection's session.
    pub open spec fn active(self) -> SessionModel {
        self.collections[self.active_collection as int]
    }

    /// The program with the active session replaced.
    pub open spec fn with_active(self, session: SessionModel) -> AppModel {
        AppModel {
            collections: self.collections.update(self.active_collection as int, session),
            ..self
        }
    }
}

/// The program as it starts.
pub open spec fn initial_app() -> AppModel {
    AppModel {
        collections: seq![fresh_session(0, LoadModel::Loading)],
        active_collection: 0,
        next_id: 1,
        should_quit: false,
        quit_confirm: None,
        spinner_tick: 0,
        open_collection_prompt: None,
        close_confirm: None,
        cheatsheet_open: false,
    }
}

impl Default for AppState {
    fn default() -> (r: Self)
        ensures
            r@ == initial_app(),
            r@.tabs_valid(),
    {
        let mut collections: Vec<CollectionSession> = Vec::new();
        collections.push(CollectionSession::fresh(0, LoadState::Loading));
        let r = AppState {
            collections,
            active_collection: 0,
            next_id: 1,
            should_quit: false,
            quit_confirm: None,
            spinner_tick: 0,
            open_collection_prompt: None,
            close_confirm: None,
            cheatsheet_open: false,
        };
        assert(sessions_view(r.collections@) =~= seq![fresh_session(0, LoadModel::Loading)]);
        r
    }
}

impl AppState {
    /// The active collection's session.
    pub fn active(&self) -> (r: &CollectionSession)
        requires
            self@.tabs_valid(),
        ensures
            r@ == self@.active(),
    {
        &self.collections[self.active_collection]
    }

    /// The active collection's session, to be changed.
    pub fn active_mut(&mut self) -> (r: &mut CollectionSession)
        requires
            old(self)@.tabs_valid(),
        ensures
            r@ == old(self)@.active(),
            final(self)@ == old(self)@.with_active(final(r)@),
    {
        &mut self.collections[self.active_collection]
    }
}

// ---------------------------------------------------------------------------
// Messages and effects
// ---------------------------------------------------------------------------

/// Something that happened.
#[derive(Debug, PartialEq, Eq)]
pub enum Message {
    OpenCheatsheet,
    CloseCheatsheet,
    Quit,
    ConfirmQuit,
    CancelQuit,
    Tick,
    Resize,
    OpenCollectionPrompt,
    ConfirmOpenCollectionPath,
    CancelOpenCollectionPrompt,
    /// The answer to a path that was typed into the prompt.
    CollectionOpened {
        base_dir: String,
        path: FilePath,
        result: Result<Document, String>,
        environments: Vec<NamedEnvironment>,
        environment_errors: Vec<(String, String)>,
    },
    NextCollection,
    PreviousCollection,
    CloseCollectionRequested,
    ConfirmCloseCollection,
    CancelCloseCollection,
    NoCollectionPath,
    /// The answer to [`Effect::Discover`].
    CollectionsDiscovered { collection_id: u64, paths: Vec<FilePath> },
    CollectionLoaded { base_dir: String, path: FilePath, result: Result<Document, String> },
    /// The answer to [`Effect::LoadCollection`].
    DiscoveredLoaded {
        collection_id: u64,
        base_dir: String,
        path: FilePath,
        result: Result<Document, String>,
    },
    EnvironmentsLoaded { environments: Vec<NamedEnvironment>, errors: Vec<(String, String)> },
    SelectNext,
    SelectPrevious,
    OpenRequestFilter,
    CloseRequestFilter,
    OpenEnvironmentOverlay,
    CloseEnvironmentOverlay,
    ConfirmEnvironmentSelection,
    RunRequested,
    /// A run has finished, at `completed_at` milliseconds.
    RunCompleted { collection_id: u64, outcome: RunOutcome, completed_at: u64 },
    ScrollResponseDown,
    ScrollResponseUp,
    ScrollResponseTop,
    ScrollResponseBottom,
    ToggleRevealCaptures,
    OpenHistoryOverlay,
    CloseHistoryOverlay,
    ViewHistoryEntry,
    CloseHistoryEntryView,
    ToggleHistoryEntryExpanded,
    AddRequest,
    EnterEditMode,
    SaveEdit,
    /// The answer to [`Effect::SaveEdit`].
    EditSaved { collection_id: u64, document: Document, written: Result<(), String> },
    CancelEdit,
    RequestDelete,
    CancelDelete,
    ConfirmDelete,
    /// The answer to [`Effect::SaveDelete`].
    DeleteSaved {
        collection_id: u64,
        index: usize,
        document: Document,
        written: Result<(), String>,
    },
    EditFocusNext,
    EditFocusPrev,
    AddHeaderRow,
    DeleteHeaderRow,
    AddAssertionRow,
    DeleteAssertionRow,
    AddCaptureRow,
    DeleteCaptureRow,
    EditInsertChar(char),
    EditBackspace,
    EditDelete,
    EditCursorLeft,
    EditCursorRight,
    EditCursorUp,
    EditCursorDown,
    EnterEnvironmentEdit,
    CancelEnvironmentEdit,
    SaveEnvironmentEdit,
    /// The answer to [`Effect::SaveEnvironment`].
    EnvironmentSaved {
        collection_id: u64,
        index: usize,
        environment: Environment,
        written: Result<(), String>,
    },
    AddEnvVarRow,
    RequestDeleteEnvVarRow,
    ConfirmDeleteEnvVarRow,
    CancelDeleteEnvVarRow,
}

/// What is to be done outside, and answered with a message.
#[allow(inconsistent_fields)]
#[derive(Debug, PartialEq, Eq)]
pub enum Effect {
    /// Nothing.
    Nothing,
    /// Look for collections near the current directory and answer with
    /// [`Message::CollectionsDiscovered`].
    Discover { collection_id: u64 },
    /// Read the collection at `path` and answer with
    /// [`Message::DiscoveredLoaded`].
    LoadCollection { collection_id: u64, base_dir: String, path: FilePath },
    /// Write `document` to `path` and answer with [`Message::EditSaved`].
    SaveEdit { collection_id: u64, path: String, document: Document },
    /// Write `document` to `path` and answer with [`Message::DeleteSaved`].
    SaveDelete { collection_id: u64, path: String, index: usize, document: Document },
    /// Write `environment` to `path` and answer with
    /// [`Message::EnvironmentSaved`].
    SaveEnvironment {
        collection_id: u64,
        path: String,
        index: usize,
        environment: Environment,
    },
}

#[allow(inconsistent_fields)]
#[verifier::ext_equal]
pub enum EffectModel {
    Nothing,
    Discover { collection_id: u64 },
    LoadCollection { collection_id: u64, base_dir: Seq<char>, path: FilePathModel },
    SaveEdit { collection_id: u64, path: Seq<char>, document: DocumentModel },
    SaveDelete { collection_id: u64, path: Seq<char>, index: usize, document: DocumentModel },
    SaveEnvironment {
        collection_id: u64,
        path: Seq<char>,
        index: usize,
        environment: crate::document::EnvironmentModel,
    },
}

impl View for Effect {
    type V = EffectModel;

    open spec fn view(&self) -> EffectModel {
        match *self {
            Effect::Nothing => EffectModel::Nothing,
            Effect::Discover { collection_id } => EffectModel::Discover { collection_id },
            Effect::LoadCollection { collection_id, base_dir, path } => EffectModel::LoadCollection {
                collection_id,
                base_dir: base_dir@,
                path: path@,
            },
            Effect::SaveEdit { collection_id, path, document } => EffectModel::SaveEdit {
                collection_id,
                path: path@,
                document: document@,
            },
            Effect::SaveDelete { collection_id, path, index, document } => EffectModel::SaveDelete {
                collection_id,
                path: path@,
                index,
                document: document@,
            },
            Effect::SaveEnvironment {
                collection_id,
                path,
                index,
                environment,
            } => EffectModel::SaveEnvironment {
                collection_id,
                path: path@,
                index,
                environment: environment@,
            },
        }
    }
}

} // verus!
