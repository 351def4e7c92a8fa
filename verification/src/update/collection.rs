//! Opening, switching, loading and closing collections.
use vstd::prelude::*;

use crate::document::{
    Document, DocumentModel, NamedEnvironment, NamedEnvironmentModel, environments_view,
};
use crate::paths::{FilePath, FilePathModel, base_dir, base_dir_of, paths_view};
use crate::prompt::{ConfirmPrompt, prompt_asking};
use crate::state::{
    AppModel, AppState, CloseConfirm, CloseConfirmModel, CollectionSession, Effect, EffectModel,
    LoadModel, LoadState, OpenCollectionPromptState, OpenPromptModel, RunState, SessionModel,
    fresh_open_prompt, fresh_session, sessions_view,
};
use crate::text::pairs_view;
use crate::view::{collection_label, label_of};

verus! {

broadcast use vstd::string::group_string_axioms;

/// A result over documents by value.
pub open spec fn loaded_result(r: Result<Document, String>) -> Result<DocumentModel, Seq<char>> {
    match r {
        Ok(document) => Ok(document@),
        Err(error) => Err(error@),
    }
}

// ---------------------------------------------------------------------------
// What the messages do to the program
// ---------------------------------------------------------------------------

/// Whether no question about the program as a whole is open.
pub open spec fn no_question(a: AppModel) -> bool {
    &&& a.open_collection_prompt is None
    &&& a.close_confirm is None
    &&& a.quit_confirm is None
}

/// The program asking for the path of a collection to open.
pub open spec fn open_prompted(a: AppModel) -> AppModel {
    let s = a.active();
    if no_question(a) && s.edit_mode is None && s.environment_overlay is None
        && s.delete_confirm is None && s.run_state != RunState::InFlight {
        AppModel { open_collection_prompt: Some(fresh_open_prompt()), ..a }
    } else {
        a
    }
}

/// A session for a collection that was just opened.
pub open spec fn opened_session(
    id: u64,
    document: DocumentModel,
    base_dir: Seq<char>,
    path: FilePathModel,
    environments: Seq<NamedEnvironmentModel>,
    environment_errors: Seq<(Seq<char>, Seq<char>)>,
) -> SessionModel {
    SessionModel {
        environments,
        environment_errors,
        ..fresh_session(id, LoadModel::Loaded { document, selected: 0, base_dir, path })
    }
}

/// The program after a collection was read, or not, for the open prompt.
pub open spec fn collection_opened(
    a: AppModel,
    base_dir: Seq<char>,
    path: FilePathModel,
    result: Result<DocumentModel, Seq<char>>,
    environments: Seq<NamedEnvironmentModel>,
    environment_errors: Seq<(Seq<char>, Seq<char>)>,
) -> AppModel {
    match result {
        Ok(document) => AppModel {
            collections: a.collections.push(
                opened_session(
                    a.next_id,
                    document,
                    base_dir,
                    path,
                    environments,
                    environment_errors,
                ),
            ),
            active_collection: a.collections.len() as usize,
            next_id: (a.next_id + 1) as u64,
            open_collection_prompt: None,
            ..a
        },
        Err(error) => AppModel {
            open_collection_prompt: match a.open_collection_prompt {
                Some(prompt) => Some(OpenPromptModel { error: Some(error), ..prompt }),
                None => None,
            },
            ..a
        },
    }
}

/// The program with the next tab active, the first behind the last.
pub open spec fn next_tab(a: AppModel) -> AppModel {
    if no_question(a) {
        AppModel {
            active_collection: ((a.active_collection + 1) % (a.collections.len() as int)) as usize,
            ..a
        }
    } else {
        a
    }
}

/// The program with the tab before active, the last before the first.
pub open spec fn previous_tab(a: AppModel) -> AppModel {
    if no_question(a) {
        AppModel {
            active_collection: ((a.active_collection + a.collections.len() - 1) % (
            a.collections.len() as int)) as usize,
            ..a
        }
    } else {
        a
    }
}

/// The position of the first session with an id, or the number of sessions.
pub open spec fn position(sessions: Seq<SessionModel>, id: u64) -> int
    decreases sessions.len(),
{
    if sessions.len() == 0 || sessions[0].id == id {
        0
    } else {
        1 + position(sessions.drop_first(), id)
    }
}

pub proof fn lemma_position(sessions: Seq<SessionModel>, id: u64)
    ensures
        0 <= position(sessions, id) <= sessions.len(),
        position(sessions, id) < sessions.len() ==> sessions[position(sessions, id)].id == id,
        forall|j: int| 0 <= j < position(sessions, id) ==> (#[trigger] sessions[j]).id != id,
    decreases sessions.len(),
{
    if sessions.len() > 0 && sessions[0].id != id {
        let rest = sessions.drop_first();
        lemma_position(rest, id);
        assert forall|j: int| 0 <= j < position(sessions, id) implies (
        #[trigger] sessions[j]).id != id by {
            if j > 0 {
                assert(rest[j - 1] == sessions[j]);
            }
        }
    }
}

pub proof fn lemma_position_unique(sessions: Seq<SessionModel>, id: u64, k: int)
    requires
        0 <= k <= sessions.len(),
        k < sessions.len() ==> sessions[k].id == id,
        forall|j: int| 0 <= j < k ==> (#[trigger] sessions[j]).id != id,
    ensures
        position(sessions, id) == k,
{
    lemma_position(sessions, id);
    let p = position(sessions, id);
    if p < k {
        assert(sessions[p].id != id);
    }
    if k < p {
        assert(sessions[k].id != id);
    }
}

/// A session that waits for the collections found nearby.
pub open spec fn blank_session(id: u64) -> SessionModel {
    fresh_session(id, LoadModel::NoPathProvided { discovered: Seq::empty(), cursor: 0 })
}

/// The program with a session closed, and what is to be done. The only session
/// is not closed but begun anew.
pub open spec fn session_closed(a: AppModel, id: u64) -> (AppModel, EffectModel) {
    let index = position(a.collections, id);
    if index >= a.collections.len() {
        (a, EffectModel::Nothing)
    } else if a.collections.len() > 1 {
        let left = a.collections.remove(index);
        (
            AppModel {
                collections: left,
                active_collection: if a.active_collection >= left.len() {
                    (left.len() - 1) as usize
                } else {
                    a.active_collection
                },
                ..a
            },
            EffectModel::Nothing,
        )
    } else {
        (
            AppModel { collections: seq![blank_session(id)], ..a },
            EffectModel::Discover { collection_id: id },
        )
    }
}

/// The question that is asked before a session with unsaved changes is closed.
pub open spec fn close_question(label: Seq<char>) -> Seq<char> {
    "Close '"@ + label + "'? Unsaved changes will be lost."@
}

/// The program asked to close the active session: at once, or after a
/// question where that would lose something.
pub open spec fn close_requested(a: AppModel) -> (AppModel, EffectModel) {
    if !no_question(a) {
        (a, EffectModel::Nothing)
    } else if a.active().is_dirty() {
        (
            AppModel {
                close_confirm: Some(
                    CloseConfirmModel {
                        collection_id: a.active().id,
                        prompt: prompt_asking(close_question(label_of(a.active().load_state))),
                    },
                ),
                ..a
            },
            EffectModel::Nothing,
        )
    } else {
        session_closed(a, a.active().id)
    }
}

/// The program with the session in question closed.
pub open spec fn close_confirmed(a: AppModel) -> (AppModel, EffectModel) {
    match a.close_confirm {
        Some(confirm) => session_closed(
            AppModel { close_confirm: None, ..a },
            confirm.collection_id,
        ),
        None => (a, EffectModel::Nothing),
    }
}

// ---------------------------------------------------------------------------
// What the messages do to a session
// ---------------------------------------------------------------------------

/// A session that was told that no collection was named. A run that finished
/// before is no longer shown.
pub open spec fn no_path(s: SessionModel) -> SessionModel {
    (SessionModel {
        load_state: LoadModel::NoPathProvided { discovered: Seq::empty(), cursor: 0 },
        ..s
    }).settled()
}

/// A session that was told which collections are nearby.
pub open spec fn discovered(s: SessionModel, paths: Seq<FilePathModel>) -> SessionModel {
    match s.load_state {
        LoadModel::NoPathProvided { .. } => SessionModel {
            load_state: LoadModel::NoPathProvided { discovered: paths, cursor: 0 },
            ..s
        },
        _ => s,
    }
}

/// What is to be read when one of the collections found nearby is picked.
pub open spec fn discovered_pick(s: SessionModel) -> Option<EffectModel> {
    match s.load_state {
        LoadModel::NoPathProvided { discovered, cursor } => if cursor < discovered.len() {
            let path = discovered[cursor as int];
            Some(
                EffectModel::LoadCollection {
                    collection_id: s.id,
                    base_dir: base_dir(path),
                    path,
                },
            )
        } else {
            None
        },
        _ => None,
    }
}

/// A session after its collection was read, or not. A run that finished before
/// is shown no longer, unless one is remembered for the request that is now
/// selected.
pub open spec fn collection_loaded(
    s: SessionModel,
    base_dir: Seq<char>,
    path: FilePathModel,
    result: Result<DocumentModel, Seq<char>>,
) -> SessionModel {
    (SessionModel {
        load_state: match result {
            Ok(document) => LoadModel::Loaded { document, selected: 0, base_dir, path },
            Err(error) => LoadModel::Failed(error),
        },
        ..s
    }).settled()
}

// ---------------------------------------------------------------------------
// Handlers
// ---------------------------------------------------------------------------

/// Asks for the path of a collection to open.
pub fn handle_open_collection_prompt(state: &mut AppState)
    requires
        old(state)@.tabs_valid(),
    ensures
        final(state)@ == open_prompted(old(state)@),
{
    let free = {
        let session = state.active();
        session.edit_mode.is_none() && session.environment_overlay.is_none()
            && session.delete_confirm.is_none() && !matches!(session.run_state, RunState::InFlight)
    };
    if state.open_collection_prompt.is_none() && state.close_confirm.is_none()
        && state.quit_confirm.is_none() && free {
        state.open_collection_prompt = Some(OpenCollectionPromptState::default());
    }
}

/// Takes the answer to a path that was typed into the prompt.
pub fn handle_collection_opened(
    state: &mut AppState,
    base_dir: String,
    path: FilePath,
    result: Result<Document, String>,
    environments: Vec<NamedEnvironment>,
    environment_errors: Vec<(String, String)>,
)
    requires
        old(state)@.tabs_valid(),
        old(state)@.next_id < u64::MAX,
    ensures
        final(state)@ == collection_opened(
            old(state)@,
            base_dir@,
            path@,
            loaded_result(result),
            environments_view(environments@),
            pairs_view(environment_errors@),
        ),
        final(state)@.tabs_valid(),
{
    match result {
        Ok(document) => {
            let id = state.next_id;
            let index: usize = state.collections.len();
            let mut session = CollectionSession::fresh(
                id,
                LoadState::Loaded { document, selected: 0, base_dir, path },
            );
            session.environments = environments;
            session.environment_errors = environment_errors;
            let ghost before = sessions_view(state.collections@);
            let ghost opened = session@;
            state.collections.push(session);
            assert(sessions_view(state.collections@) =~= before.push(opened));
            let count: usize = state.collections.len();
            state.next_id = id + 1;
            state.active_collection = index;
            state.open_collection_prompt = None;
            proof {
                let after = state@;
                assert forall|i: int| 0 <= i < after.collections.len() implies (
                #[trigger] after.collections[i]).id < after.next_id by {
                    if i < before.len() {
                        assert(after.collections[i] == before[i]);
                    }
                }
                assert forall|i: int, j: int| 0 <= i < j < after.collections.len() implies (
                #[trigger] after.collections[i]).id != (#[trigger] after.collections[j]).id by {
                    assert(after.collections[i] == before[i]);
                    if j < before.len() {
                        assert(after.collections[j] == before[j]);
                    }
                }
            }
        },
        Err(error) => {
            if let Some(prompt) = &mut state.open_collection_prompt {
                prompt.error = Some(error);
            }
        },
    }
}

/// Makes the next tab active.
pub fn handle_next_collection(state: &mut AppState)
    requires
        old(state)@.tabs_valid(),
    ensures
        final(state)@ == next_tab(old(state)@),
        final(state)@.tabs_valid(),
{
    if state.close_confirm.is_none() && state.open_collection_prompt.is_none()
        && state.quit_confirm.is_none() {
        let n: usize = state.collections.len();
        let next: usize = if state.active_collection < n - 1 {
            state.active_collection + 1
        } else {
            0
        };
        proof {
            let i = state@.active_collection as int;
            if i + 1 < n {
                vstd::arithmetic::div_mod::lemma_small_mod((i + 1) as nat, n as nat);
            } else {
                vstd::arithmetic::div_mod::lemma_mod_self_0(n as int);
            }
        }
        state.active_collection = next;
    }
}

/// Makes the tab before active.
pub fn handle_previous_collection(state: &mut AppState)
    requires
        old(state)@.tabs_valid(),
    ensures
        final(state)@ == previous_tab(old(state)@),
        final(state)@.tabs_valid(),
{
    if state.close_confirm.is_none() && state.open_collection_prompt.is_none()
        && state.quit_confirm.is_none() {
        let n: usize = state.collections.len();
        let previous: usize = if state.active_collection > 0 {
            state.active_collection - 1
        } else {
            n - 1
        };
        proof {
            let i = state@.active_collection as int;
            if i > 0 {
                vstd::arithmetic::div_mod::lemma_mod_add_multiples_vanish(i - 1, n as int);
                vstd::arithmetic::div_mod::lemma_small_mod((i - 1) as nat, n as nat);
            } else {
                vstd::arithmetic::div_mod::lemma_small_mod((n - 1) as nat, n as nat);
            }
        }
        state.active_collection = previous;
    }
}

/// The position of the session with an id, where there is one.
pub fn find_session(state: &AppState, id: u64) -> (r: Option<usize>)
    ensures
        match r {
            Some(i) => i < state@.collections.len() && i == position(state@.collections, id),
            None => position(state@.collections, id) == state@.collections.len(),
        },
{
    let ghost sessions = state@.collections;
    let mut i: usize = 0;
    while i < state.collections.len()
        invariant
            i <= state.collections@.len(),
            sessions == sessions_view(state.collections@),
            forall|j: int| 0 <= j < i ==> (#[trigger] sessions[j]).id != id,
        decreases state.collections@.len() - i,
    {
        assert(sessions[i as int].id == state.collections@[i as int].id);
        if state.collections[i].id == id {
            proof {
                lemma_position_unique(sessions, id, i as int);
            }
            return Some(i);
        }
        i = i + 1;
    }
    proof {
        lemma_position_unique(sessions, id, sessions.len() as int);
    }
    None
}

/// Closes the session with an id; the only session is begun anew.
pub fn close_session_by_id(state: &mut AppState, id: u64) -> (effect: Effect)
    requires
        old(state)@.tabs_valid(),
    ensures
        (final(state)@, effect@) == session_closed(old(state)@, id),
        final(state)@.tabs_valid(),
{
    let index = match find_session(state, id) {
        Some(index) => index,
        None => return Effect::Nothing,
    };
    let ghost before = sessions_view(state.collections@);
    proof {
        lemma_position(before, id);
    }
    if state.collections.len() > 1 {
        state.collections.remove(index);
        assert(sessions_view(state.collections@) =~= before.remove(index as int));
        let n: usize = state.collections.len();
        if state.active_collection >= n {
            state.active_collection = n - 1;
        }
        proof {
            let after = state@.collections;
            assert forall|i: int| 0 <= i < after.len() implies (#[trigger] after[i]).id
                < state@.next_id by {
                let k = if i < index { i } else { i + 1 };
                assert(after[i] == before[k]);
            }
            assert forall|i: int, j: int| 0 <= i < j < after.len() implies (
            #[trigger] after[i]).id != (#[trigger] after[j]).id by {
                let k = if i < index { i } else { i + 1 };
                let l = if j < index { j } else { j + 1 };
                assert(after[i] == before[k]);
                assert(after[j] == before[l]);
            }
        }
        Effect::Nothing
    } else {
        let fresh = CollectionSession::fresh(
            id,
            LoadState::NoPathProvided { discovered: Vec::new(), cursor: 0 },
        );
        assert(fresh@ == blank_session(id)) by {
            assert(paths_view(fresh.load_state->discovered@) =~= Seq::empty());
        }
        state.collections[0] = fresh;
        assert(sessions_view(state.collections@) =~= seq![blank_session(id)]);
        assert(before[0].id == id);
        Effect::Discover { collection_id: id }
    }
}

/// Closes the active session, or asks first.
pub fn handle_close_collection_requested(state: &mut AppState) -> (effect: Effect)
    requires
        old(state)@.tabs_valid(),
    ensures
        (final(state)@, effect@) == close_requested(old(state)@),
        final(state)@.tabs_valid(),
{
    if state.close_confirm.is_none() && state.open_collection_prompt.is_none()
        && state.quit_confirm.is_none() {
        let id = state.active().id;
        if state.active().is_dirty() {
            let label = collection_label(state.active());
            let mut message = "Close '".to_owned();
            message.append(label.as_str());
            message.append("'? Unsaved changes will be lost.");
            state.close_confirm = Some(
                CloseConfirm { collection_id: id, prompt: ConfirmPrompt::new(message) },
            );
            Effect::Nothing
        } else {
            close_session_by_id(state, id)
        }
    } else {
        Effect::Nothing
    }
}

/// Closes the session in question.
pub fn handle_confirm_close_collection(state: &mut AppState) -> (effect: Effect)
    requires
        old(state)@.tabs_valid(),
    ensures
        (final(state)@, effect@) == close_confirmed(old(state)@),
        final(state)@.tabs_valid(),
{
    match state.close_confirm.take() {
        Some(confirm) => close_session_by_id(state, confirm.collection_id),
        None => Effect::Nothing,
    }
}

/// Keeps the session in question.
pub fn handle_cancel_close_collection(state: &mut AppState)
    ensures
        final(state)@ == (AppModel { close_confirm: None, ..old(state)@ }),
{
    state.close_confirm = None;
}

/// Notes that no collection was named, and asks what is nearby.
pub fn handle_no_collection_path(state: &mut CollectionSession) -> (effect: Effect)
    ensures
        final(state)@ == no_path(old(state)@),
        effect@ == (EffectModel::Discover { collection_id: old(state)@.id }),
{
    state.load_state = LoadState::NoPathProvided { discovered: Vec::new(), cursor: 0 };
    assert(paths_view(state.load_state->discovered@) =~= Seq::empty());
    state.settle();
    Effect::Discover { collection_id: state.id }
}

/// Notes which collections are nearby.
pub fn handle_collections_discovered(state: &mut CollectionSession, paths: Vec<FilePath>)
    ensures
        final(state)@ == discovered(old(state)@, paths_view(paths@)),
{
    if let LoadState::NoPathProvided { .. } = &state.load_state {
        state.load_state = LoadState::NoPathProvided { discovered: paths, cursor: 0 };
    }
}

/// What is to be read when one of the collections found nearby is picked.
pub fn confirm_discovered_selection(state: &CollectionSession) -> (r: Option<Effect>)
    ensures
        match discovered_pick(state@) {
            Some(effect) => r is Some && r->0@ == effect,
            None => r is None,
        },
{
    if let LoadState::NoPathProvided { discovered, cursor } = &state.load_state {
        if *cursor < discovered.len() {
            let path = discovered[*cursor].clone();
            return Some(
                Effect::LoadCollection {
                    collection_id: state.id,
                    base_dir: base_dir_of(&path),
                    path,
                },
            );
        }
    }
    None
}

/// Takes the session's collection, or why it could not be read.
pub fn handle_collection_loaded(
    state: &mut CollectionSession,
    base_dir: String,
    path: FilePath,
    result: Result<Document, String>,
)
    ensures
        final(state)@ == collection_loaded(
            old(state)@,
            base_dir@,
            path@,
            loaded_result(result),
        ),
{
    state.load_state = match result {
        Ok(document) => LoadState::Loaded { document, selected: 0, base_dir, path },
        Err(error) => LoadState::Failed(error),
    };
    state.settle();
}

/// Takes the session's environments, and those that could not be read.
pub fn handle_environments_loaded(
    state: &mut CollectionSession,
    environments: Vec<NamedEnvironment>,
    errors: Vec<(String, String)>,
)
    ensures
        final(state)@ == (SessionModel {
            environments: environments_view(environments@),
            environment_errors: pairs_view(errors@),
            ..old(state)@
        }),
{
    state.environments = environments;
    state.environment_errors = errors;
}

} // verus!
