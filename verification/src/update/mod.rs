//! How messages change what the program remembers.
//!
//! [`update`] takes every message first. What concerns the program as a whole
//! (quitting, the spinner, tabs, answers that are meant for one tab) it handles
//! itself; everything else goes to the active session and to no other.
use vstd::prelude::*;

use crate::document::{Document, DocumentModel, RequestModel, environments_view};
use crate::edit::RowChange;
use crate::paths::paths_view;
use crate::prompt::{ConfirmPrompt, prompt_asking};
use crate::run::{RunHistoryEntry, RunOutcome};
use crate::state::{
    AppModel, AppState, CollectionSession, Effect, EffectModel, HistoryOverlay,
    HistoryOverlayModel, LoadModel, LoadState, Message, OpenPromptModel, RUN_HISTORY_CAP, RunState,
    SCROLL_STEP_LINES, SessionModel, fresh_history_overlay, history_view, sessions_view,
};
use crate::text::{
    contains, contains_text, decimal, decimal_string, lower, lower_text, pairs_view,
};
use crate::text_field::{CursorMove, TextEdit, TextField, TextFieldModel};
use crate::update::collection::{
    close_confirmed, close_requested, collection_loaded, collection_opened, discovered,
    discovered_pick, find_session, loaded_result, next_tab, no_path, open_prompted, position,
    previous_tab,
};
use crate::update::environment_edit::{
    variable_cursor_moved, variable_edited, variables_entered, variables_save_requested,
    variables_saved,
};
use crate::update::request_edit::{
    body_reading, cursor_moved, delete_confirmed, delete_requested, delete_saved, edit_cancelled,
    edit_entered, edit_saved, moved_or_turned, request_added, rows_edited, save_requested,
    text_edited, written_text,
};

pub mod collection;
pub mod environment_edit;
pub mod request_edit;

verus! {

broadcast use {vstd::std_specs::hash::group_hash_axioms, vstd::string::group_string_axioms};

// ---------------------------------------------------------------------------
// Selection
// ---------------------------------------------------------------------------

/// `selected` moved by `delta` in a circle of `len`; 0 where there is nothing
/// to select.
pub open spec fn wrapped(selected: int, len: int, delta: int) -> int {
    if len == 0 {
        0
    } else {
        (selected + delta) % len
    }
}

/// Moves `selected` by `delta` through `len` items, past the last to the first
/// and back past the first to the last. A `len` of 0 gives 0.
pub fn move_selection(selected: usize, len: usize, delta: isize) -> (r: usize)
    ensures
        r == wrapped(selected as int, len as int, delta as int),
        len > 0 ==> r < len,
{
    if len == 0 {
        return 0;
    }
    let moved: i128 = selected as i128 + delta as i128;
    if moved >= 0 {
        (moved as u128 % len as u128) as usize
    } else {
        let back: u128 = (-(moved + 1)) as u128 % len as u128;
        proof {
            let n = len as int;
            let m = moved as int;
            let k = -(m + 1);
            vstd::arithmetic::div_mod::lemma_fundamental_div_mod(k, n);
            let q = k / n;
            assert(m == (n - 1 - k % n) + n * (-q - 1)) by (nonlinear_arith)
                requires
                    k == n * q + k % n,
                    k == -(m + 1),
            ;
            vstd::arithmetic::div_mod::lemma_fundamental_div_mod_converse(
                m,
                n,
                -q - 1,
                n - 1 - k % n,
            );
        }
        (len as u128 - 1 - back) as usize
    }
}

/// Whether a request's name holds `query`, in capital or small letters.
pub open spec fn name_matches(request: RequestModel, query: Seq<char>) -> bool {
    contains(
        lower(
            match request.name {
                Some(name) => name,
                None => Seq::empty(),
            },
        ),
        lower(query),
    )
}

/// The indices of those among the first `n` requests whose names match, in
/// order.
pub open spec fn matching_upto(
    requests: Seq<RequestModel>,
    query: Seq<char>,
    n: nat,
) -> Seq<usize>
    decreases n,
{
    if n == 0 {
        Seq::empty()
    } else {
        let before = matching_upto(requests, query, (n - 1) as nat);
        if name_matches(requests[n - 1], query) {
            before.push((n - 1) as usize)
        } else {
            before
        }
    }
}

/// The indices of the requests whose names match, in order.
pub open spec fn matching(document: DocumentModel, query: Seq<char>) -> Seq<usize> {
    matching_upto(document.requests(), query, document.requests().len())
}

/// The indices of the requests whose names match `query`, in order.
pub fn matching_request_indices(document: &Document, query: &str) -> (r: Vec<usize>)
    ensures
        r@ == matching(document@, query@),
{
    let needle = lower_text(query);
    let mut r: Vec<usize> = Vec::new();
    let n: usize = document.len();
    let mut i: usize = 0;
    while i < n
        invariant
            i <= n,
            n == document@.requests().len(),
            needle@ == lower(query@),
            r@ == matching_upto(document@.requests(), query@, i as nat),
        decreases n - i,
    {
        if let Some(request) = document.get(i) {
            let name = match &request.name {
                Some(name) => lower_text(name.as_str()),
                None => String::new(),
            };
            proof {
                if request@.name is None {
                    assert(name@ =~= lower(Seq::empty()));
                }
            }
            if contains_text(name.as_str(), needle.as_str()) {
                r.push(i);
            }
        }
        i = i + 1;
    }
    r
}

/// The listed index that follows (`delta` 1) or precedes (`delta` -1) the
/// selected one in a circle; the first listed one where the selected one is
/// not listed, and no move where nothing is listed.
pub open spec fn step_among(listed: Seq<usize>, selected: usize, delta: int) -> usize {
    if listed.len() == 0 {
        selected
    } else if listed.contains(selected) {
        listed[wrapped(first_at(listed, selected), listed.len() as int, delta)]
    } else {
        listed[0]
    }
}

/// The position of the first `x` in `s`, or its length.
pub open spec fn first_at(s: Seq<usize>, x: usize) -> int
    decreases s.len(),
{
    if s.len() == 0 || s[0] == x {
        0
    } else {
        1 + first_at(s.drop_first(), x)
    }
}

pub proof fn lemma_first_at(s: Seq<usize>, x: usize, k: int)
    requires
        0 <= k < s.len(),
        s[k] == x,
        forall|j: int| 0 <= j < k ==> s[j] != x,
    ensures
        first_at(s, x) == k,
    decreases s.len(),
{
    if k > 0 {
        let rest = s.drop_first();
        assert forall|j: int| 0 <= j < k - 1 implies rest[j] != x by {
            assert(rest[j] == s[j + 1]);
        }
        lemma_first_at(rest, x, k - 1);
    }
}

fn next_among(listed: &Vec<usize>, selected: usize, delta: isize) -> (r: usize)
    ensures
        r == step_among(listed@, selected, delta as int),
{
    if listed.len() == 0 {
        return selected;
    }
    let mut i: usize = 0;
    while i < listed.len()
        invariant
            i <= listed@.len(),
            listed@.len() > 0,
            forall|j: int| 0 <= j < i ==> listed@[j] != selected,
        decreases listed@.len() - i,
    {
        if listed[i] == selected {
            proof {
                lemma_first_at(listed@, selected, i as int);
                assert(listed@.contains(selected));
            }
            return listed[move_selection(i, listed.len(), delta)];
        }
        i = i + 1;
    }
    listed[0]
}

/// A session with another request selected: what was shown of the one before
/// is forgotten.
pub open spec fn reselected(s: SessionModel, index: usize) -> SessionModel {
    match s.load_state {
        LoadModel::Loaded { document, selected, base_dir, path } => {
            let moved = SessionModel {
                load_state: LoadModel::Loaded { document, selected: index, base_dir, path },
                ..s
            };
            if index != selected {
                SessionModel {
                    run_state: RunState::Idle,
                    response_scroll: 0,
                    reveal_captures: false,
                    ..moved
                }
            } else {
                moved
            }
        },
        _ => s,
    }
}

/// A session with the selection of whichever list is on top moved.
pub open spec fn selection_moved(s: SessionModel, delta: int) -> SessionModel {
    if let Some(cursor) = s.environment_overlay {
        SessionModel {
            environment_overlay: Some(
                wrapped(cursor as int, s.environments.len() as int, delta) as usize,
            ),
            ..s
        }
    } else if let Some(overlay) = s.history_overlay {
        if overlay.viewing is None {
            SessionModel {
                history_overlay: Some(
                    HistoryOverlayModel {
                        cursor: wrapped(
                            overlay.cursor as int,
                            s.selected_history().len() as int,
                            delta,
                        ) as usize,
                        ..overlay
                    },
                ),
                ..s
            }
        } else {
            s
        }
    } else {
        match s.load_state {
            LoadModel::NoPathProvided { discovered, cursor } => if discovered.len() == 0 {
                s
            } else {
                SessionModel {
                    load_state: LoadModel::NoPathProvided {
                        discovered,
                        cursor: wrapped(cursor as int, discovered.len() as int, delta) as usize,
                    },
                    ..s
                }
            },
            LoadModel::Loaded { document, selected, .. } => match s.request_filter {
                Some(filter) => reselected(
                    s,
                    step_among(matching(document, filter.value), selected, delta),
                ),
                None => reselected(
                    s,
                    wrapped(
                        selected as int,
                        document.requests().len() as int,
                        delta,
                    ) as usize,
                ),
            },
            _ => s,
        }
    }
}

/// Selects another request.
fn reselect(state: &mut CollectionSession, index: usize)
    ensures
        final(state)@ == reselected(old(state)@, index),
{
    if let LoadState::Loaded { selected, .. } = &mut state.load_state {
        if index != *selected {
            state.run_state = RunState::Idle;
            state.response_scroll = 0;
            state.reveal_captures = false;
        }
        *selected = index;
    }
}

/// Moves the selection of whichever list is on top.
pub fn select(state: &mut CollectionSession, delta: isize)
    ensures
        final(state)@ == selection_moved(old(state)@, delta as int),
{
    if let Some(cursor) = &mut state.environment_overlay {
        *cursor = move_selection(*cursor, state.environments.len(), delta);
        return ;
    }
    let history_len: usize = state.selected_history().len();
    if let Some(overlay) = &mut state.history_overlay {
        if overlay.viewing.is_none() {
            overlay.cursor = move_selection(overlay.cursor, history_len, delta);
        }
        return ;
    }
    let target: usize = match &mut state.load_state {
        LoadState::NoPathProvided { discovered, cursor } => {
            if discovered.len() > 0 {
                *cursor = move_selection(*cursor, discovered.len(), delta);
            }
            return ;
        },
        LoadState::Loaded { document, selected, .. } => match &state.request_filter {
            Some(filter) => next_among(
                &matching_request_indices(document, filter.value()),
                *selected,
                delta,
            ),
            None => move_selection(*selected, document.len(), delta),
        },
        _ => return ,
    };
    reselect(state, target);
}

// ---------------------------------------------------------------------------
// The filter
// ---------------------------------------------------------------------------

/// A session whose request list is searched by name.
pub open spec fn filter_opened(s: SessionModel) -> SessionModel {
    if s.load_state is Loaded && s.request_filter is None && s.edit_mode is None
        && s.environment_overlay is None && s.environment_edit is None && s.history_overlay is None
        && s.delete_confirm is None && s.run_state != RunState::InFlight {
        SessionModel { request_filter: Some(TextFieldModel::holding(Seq::empty())), ..s }
    } else {
        s
    }
}

/// A session whose selection is on a request that its filter shows, where it
/// shows any.
pub open spec fn snapped(s: SessionModel) -> SessionModel {
    match (s.load_state, s.request_filter) {
        (LoadModel::Loaded { document, selected, .. }, Some(filter)) => {
            let listed = matching(document, filter.value);
            if listed.len() == 0 || listed.contains(selected) {
                s
            } else {
                reselected(s, listed[0])
            }
        },
        _ => s,
    }
}

/// A session after a change to what its requests are searched for. While a
/// run is under way the selection may not move, and so the search may not
/// change.
pub open spec fn filter_edited(s: SessionModel, change: TextEdit) -> SessionModel {
    match s.request_filter {
        Some(filter) => if s.run_state == RunState::InFlight {
            s
        } else {
            snapped(SessionModel { request_filter: Some(filter.edited(change)), ..s })
        },
        None => s,
    }
}

/// A session after a move of the cursor in its filter.
pub open spec fn filter_cursor_moved(s: SessionModel, step: CursorMove) -> SessionModel {
    match s.request_filter {
        Some(filter) => SessionModel { request_filter: Some(filter.moved(step)), ..s },
        None => s,
    }
}

/// Opens the filter.
fn handle_open_request_filter(state: &mut CollectionSession)
    ensures
        final(state)@ == filter_opened(old(state)@),
{
    if matches!(state.load_state, LoadState::Loaded { .. }) && state.request_filter.is_none()
        && state.edit_mode.is_none() && state.environment_overlay.is_none()
        && state.environment_edit.is_none() && state.history_overlay.is_none()
        && state.delete_confirm.is_none() && !matches!(state.run_state, RunState::InFlight) {
        state.request_filter = Some(TextField::default());
    }
}

/// Changes what requests are searched for.
fn filter_mutate(state: &mut CollectionSession, change: TextEdit)
    ensures
        final(state)@ == filter_edited(old(state)@, change),
{
    if matches!(state.run_state, RunState::InFlight) {
        return ;
    }
    if let Some(filter) = &mut state.request_filter {
        filter.apply(change);
        let mut target: Option<usize> = None;
        if let LoadState::Loaded { document, selected, .. } = &state.load_state {
            let listed = matching_request_indices(document, filter.value());
            if listed.len() > 0 && !lists(&listed, *selected) {
                target = Some(listed[0]);
            }
        }
        if let Some(index) = target {
            reselect(state, index);
        }
    }
}

fn lists(listed: &Vec<usize>, x: usize) -> (r: bool)
    ensures
        r == listed@.contains(x),
{
    let mut i: usize = 0;
    while i < listed.len()
        invariant
            i <= listed@.len(),
            forall|j: int| 0 <= j < i ==> listed@[j] != x,
        decreases listed@.len() - i,
    {
        if listed[i] == x {
            return true;
        }
        i = i + 1;
    }
    false
}

/// Moves the cursor in the filter.
fn filter_move(state: &mut CollectionSession, step: CursorMove)
    ensures
        final(state)@ == filter_cursor_moved(old(state)@, step),
{
    if let Some(filter) = &mut state.request_filter {
        filter.step(step);
    }
}

// ---------------------------------------------------------------------------
// Running and its history
// ---------------------------------------------------------------------------

/// `a + b`, or the largest number where that is larger.
pub open spec fn saturating_sum(a: int, b: int) -> usize {
    if a + b > usize::MAX {
        usize::MAX
    } else {
        (a + b) as usize
    }
}

/// `a - b`, or 0 where that is negative.
pub open spec fn saturating_difference(a: int, b: int) -> usize {
    if a < b {
        0
    } else {
        (a - b) as usize
    }
}

/// A session with a finished run remembered in front of the selected
/// request's others. Runs over the limit are forgotten and counted.
pub open spec fn history_pushed(s: SessionModel, entry: RunHistoryEntry) -> SessionModel {
    match s.selected() {
        None => s,
        Some(selected) => {
            let entries = seq![entry] + s.selected_history();
            if entries.len() > RUN_HISTORY_CAP {
                SessionModel {
                    run_history: s.run_history.insert(
                        selected,
                        entries.take(RUN_HISTORY_CAP as int),
                    ),
                    run_history_dropped: s.run_history_dropped.insert(
                        selected,
                        saturating_sum(
                            s.selected_history_dropped(),
                            entries.len() - RUN_HISTORY_CAP,
                        ),
                    ),
                    ..s
                }
            } else {
                SessionModel { run_history: s.run_history.insert(selected, entries), ..s }
            }
        },
    }
}

/// A session whose run has finished: the run is remembered and shown, unless
/// the request that was run is gone with its collection.
pub open spec fn run_completed(s: SessionModel, entry: RunHistoryEntry) -> SessionModel {
    if s.load_state is Loaded {
        SessionModel { run_state: RunState::Completed, ..history_pushed(s, entry) }
    } else {
        SessionModel { run_state: RunState::Idle, ..s }
    }
}

/// What asking for a run does: one of the collections found nearby is read
/// where that is what is on screen, else the selected request is run.
pub open spec fn run_requested(s: SessionModel) -> (SessionModel, EffectModel) {
    match discovered_pick(s) {
        Some(effect) => (s, effect),
        None => (
            if s.request_selected() {
                SessionModel {
                    run_state: RunState::InFlight,
                    response_scroll: 0,
                    reveal_captures: false,
                    ..s
                }
            } else {
                s
            },
            EffectModel::Nothing,
        ),
    }
}

/// Whether one past run is shown in full.
pub open spec fn viewing_entry(s: SessionModel) -> bool {
    s.history_overlay is Some && s.history_overlay->0.viewing is Some
}

/// A session with the scroll position of the response on screen replaced: that
/// of the past run shown in full where one is, else that of the last run.
pub open spec fn scrolled(s: SessionModel, to: spec_fn(usize) -> usize) -> SessionModel {
    if viewing_entry(s) {
        let overlay = s.history_overlay->0;
        SessionModel {
            history_overlay: Some(
                HistoryOverlayModel { view_scroll: to(overlay.view_scroll), ..overlay },
            ),
            ..s
        }
    } else {
        SessionModel { response_scroll: to(s.response_scroll), ..s }
    }
}

/// A session with the captured values of the response on screen revealed or
/// hidden again.
pub open spec fn reveal_toggled(s: SessionModel) -> SessionModel {
    if viewing_entry(s) {
        let overlay = s.history_overlay->0;
        SessionModel {
            history_overlay: Some(
                HistoryOverlayModel {
                    view_reveal_captures: !overlay.view_reveal_captures,
                    ..overlay
                },
            ),
            ..s
        }
    } else {
        SessionModel { reveal_captures: !s.reveal_captures, ..s }
    }
}

/// Whether the list of past runs is on screen with its cursor on a run.
pub open spec fn on_listed_run(s: SessionModel) -> bool {
    &&& s.history_overlay is Some
    &&& s.history_overlay->0.viewing is None
    &&& s.history_overlay->0.cursor < s.selected_history().len()
}

/// A session showing the past run that the list's cursor is on in full.
pub open spec fn entry_viewed(s: SessionModel) -> SessionModel {
    if on_listed_run(s) {
        let overlay = s.history_overlay->0;
        SessionModel {
            history_overlay: Some(
                HistoryOverlayModel {
                    viewing: Some(overlay.cursor),
                    view_scroll: 0,
                    view_reveal_captures: false,
                    ..overlay
                },
            ),
            ..s
        }
    } else {
        s
    }
}

/// A session showing the list of past runs again.
pub open spec fn entry_closed(s: SessionModel) -> SessionModel {
    match s.history_overlay {
        Some(overlay) => SessionModel {
            history_overlay: Some(HistoryOverlayModel { viewing: None, ..overlay }),
            ..s
        },
        None => s,
    }
}

/// A session with the details of the past run that the list's cursor is on
/// shown, or hidden again.
pub open spec fn entry_expanded(s: SessionModel) -> SessionModel {
    if on_listed_run(s) {
        let overlay = s.history_overlay->0;
        SessionModel {
            history_overlay: Some(
                HistoryOverlayModel {
                    expanded: if overlay.expanded.contains(overlay.cursor) {
                        overlay.expanded.remove(overlay.cursor)
                    } else {
                        overlay.expanded.insert(overlay.cursor)
                    },
                    ..overlay
                },
            ),
            ..s
        }
    } else {
        s
    }
}

/// Remembers a finished run of the selected request.
pub fn push_history_entry(session: &mut CollectionSession, entry: RunHistoryEntry)
    ensures
        final(session)@ == history_pushed(old(session)@, entry),
{
    let selected = match &session.load_state {
        LoadState::Loaded { selected, .. } => *selected,
        _ => return ,
    };
    let ghost before = session@;
    let ghost map = session.run_history@;
    let mut entries: Vec<RunHistoryEntry> = match session.run_history.remove(&selected) {
        Some(entries) => entries,
        None => Vec::new(),
    };
    assert(entries@ =~= before.selected_history());
    entries.insert(0, entry);
    assert(entries@ =~= seq![entry] + before.selected_history());
    if entries.len() > RUN_HISTORY_CAP {
        let over: usize = entries.len() - RUN_HISTORY_CAP;
        entries.truncate(RUN_HISTORY_CAP);
        let dropped: usize = match session.run_history_dropped.get(&selected) {
            Some(dropped) => *dropped,
            None => 0,
        };
        session.run_history_dropped.insert(selected, dropped.saturating_add(over));
        assert(entries@ =~= (seq![entry] + before.selected_history()).take(
            RUN_HISTORY_CAP as int,
        ));
    }
    let ghost kept = entries@;
    session.run_history.insert(selected, entries);
    assert(history_view(session.run_history@) =~= history_view(map).insert(selected, kept));
}

/// The list of past runs, while it shows one of them in full, to be changed.
fn viewed_history_entry_mut(state: &mut CollectionSession) -> (r: Option<&mut HistoryOverlay>)
    ensures
        match r {
            Some(overlay) => {
                &&& viewing_entry(old(state)@)
                &&& overlay@ == old(state)@.history_overlay->0
                &&& final(state)@ == (SessionModel {
                    history_overlay: Some(final(overlay)@),
                    ..old(state)@
                })
            },
            None => !viewing_entry(old(state)@) && final(state)@ == old(state)@,
        },
{
    match &mut state.history_overlay {
        Some(overlay) => if overlay.viewing.is_some() {
            Some(overlay)
        } else {
            None
        },
        None => None,
    }
}

// ---------------------------------------------------------------------------
// One session
// ---------------------------------------------------------------------------

/// Whether a message is about browsing, overlays or running: what every mode
/// refuses.
pub open spec fn browses(msg: Message) -> bool {
    ||| msg is SelectNext
    ||| msg is SelectPrevious
    ||| msg is CloseEnvironmentOverlay
    ||| msg is ConfirmEnvironmentSelection
    ||| msg is OpenHistoryOverlay
    ||| msg is RunRequested
}

/// Whether a session refuses a message because of what is open or under way.
pub open spec fn refused(s: SessionModel, msg: Message) -> bool {
    ||| s.run_state == RunState::InFlight && (browses(msg) || msg is OpenEnvironmentOverlay
        || msg is EnterEditMode || msg is AddRequest || msg is RequestDelete
        || msg is EnterEnvironmentEdit)
    ||| s.edit_mode is Some && (browses(msg) || msg is OpenEnvironmentOverlay
        || msg is RequestDelete)
    ||| s.delete_confirm is Some && (browses(msg) || msg is OpenEnvironmentOverlay
        || msg is EnterEditMode || msg is AddRequest)
    ||| s.environment_edit is Some && (browses(msg) || msg is EnterEditMode || msg is AddRequest
        || msg is RequestDelete)
    ||| s.history_overlay is Some && (msg is OpenEnvironmentOverlay || msg is RunRequested
        || msg is EnterEditMode || msg is AddRequest || msg is RequestDelete
        || msg is EnterEnvironmentEdit)
}

/// A session after a change to the text that is being typed into: the form's,
/// else the variables', else the filter's.
pub open spec fn typed(s: SessionModel, change: TextEdit) -> SessionModel {
    if s.edit_mode is Some {
        text_edited(s, change)
    } else if s.environment_edit is Some {
        variable_edited(s, change)
    } else {
        filter_edited(s, change)
    }
}

/// A session after a move to the side in the text that is being typed into.
pub open spec fn moved_sideways(s: SessionModel, forward: bool) -> SessionModel {
    let step = if forward {
        CursorMove::Right
    } else {
        CursorMove::Left
    };
    if s.edit_mode is Some {
        moved_or_turned(s, forward)
    } else if s.environment_edit is Some {
        variable_cursor_moved(s, step)
    } else {
        filter_cursor_moved(s, step)
    }
}

/// A session with the focus of its form moved.
pub open spec fn focus_moved(s: SessionModel, forward: bool) -> SessionModel {
    if let Some(edit) = s.edit_mode {
        SessionModel {
            edit_mode: Some(
                if forward {
                    edit.focused_next()
                } else {
                    edit.focused_prev()
                },
            ),
            ..s
        }
    } else if let Some(form) = s.environment_edit {
        SessionModel {
            environment_edit: Some(
                if forward {
                    form.focused_next()
                } else {
                    form.focused_prev()
                },
            ),
            ..s
        }
    } else {
        s
    }
}

/// What a message does to the session it is meant for: the session after it,
/// and what is to be done outside.
pub open spec fn session_updated(s: SessionModel, msg: Message) -> (SessionModel, EffectModel) {
    if refused(s, msg) {
        (s, EffectModel::Nothing)
    } else {
        match msg {
            Message::NoCollectionPath => (
                no_path(s),
                EffectModel::Discover { collection_id: s.id },
            ),
            Message::RunRequested => run_requested(s),
            Message::SaveEdit => match s.edit_mode {
                Some(edit) => save_requested(s, body_reading(edit.body)),
                None => (s, EffectModel::Nothing),
            },
            Message::ConfirmDelete => delete_confirmed(s),
            Message::SaveEnvironmentEdit => variables_save_requested(s),
            _ => (quietly_updated(s, msg), EffectModel::Nothing),
        }
    }
}

/// What a message that asks for nothing outside does to the session it is
/// meant for.
pub open spec fn quietly_updated(s: SessionModel, msg: Message) -> SessionModel {
    match msg {
        Message::CollectionLoaded { base_dir, path, result } => collection_loaded(
            s,
            base_dir@,
            path@,
            loaded_result(result),
        ),
        Message::EnvironmentsLoaded { environments, errors } => SessionModel {
            environments: environments_view(environments@),
            environment_errors: pairs_view(errors@),
            ..s
        },
        Message::SelectNext => selection_moved(s, 1),
        Message::SelectPrevious => selection_moved(s, -1),
        Message::OpenRequestFilter => filter_opened(s),
        Message::CloseRequestFilter => SessionModel { request_filter: None, ..s },
        Message::OpenEnvironmentOverlay => if s.environment_overlay is None {
            SessionModel {
                environment_overlay: Some(
                    match s.active_environment {
                        Some(index) => index,
                        None => 0,
                    },
                ),
                ..s
            }
        } else {
            s
        },
        Message::CloseEnvironmentOverlay => SessionModel { environment_overlay: None, ..s },
        Message::ConfirmEnvironmentSelection => match s.environment_overlay {
            Some(cursor) => SessionModel {
                environment_overlay: None,
                active_environment: if s.environments.len() > 0 {
                    Some(cursor)
                } else {
                    s.active_environment
                },
                ..s
            },
            None => s,
        },
        Message::ScrollResponseDown => scrolled(
            s,
            |at: usize| saturating_sum(at as int, SCROLL_STEP_LINES as int),
        ),
        Message::ScrollResponseUp => scrolled(
            s,
            |at: usize| saturating_difference(at as int, SCROLL_STEP_LINES as int),
        ),
        Message::ScrollResponseTop => scrolled(s, |at: usize| 0),
        Message::ScrollResponseBottom => scrolled(s, |at: usize| usize::MAX),
        Message::ToggleRevealCaptures => reveal_toggled(s),
        Message::OpenHistoryOverlay => if s.history_overlay is None
            && s.environment_overlay is None {
            SessionModel { history_overlay: Some(fresh_history_overlay()), ..s }
        } else {
            s
        },
        Message::CloseHistoryOverlay => SessionModel { history_overlay: None, ..s },
        Message::ViewHistoryEntry => entry_viewed(s),
        Message::CloseHistoryEntryView => entry_closed(s),
        Message::ToggleHistoryEntryExpanded => entry_expanded(s),
        Message::AddRequest => request_added(s),
        Message::EnterEditMode => edit_entered(s),
        Message::CancelEdit => edit_cancelled(s),
        Message::RequestDelete => delete_requested(s),
        Message::CancelDelete => SessionModel { delete_confirm: None, ..s },
        Message::EditFocusNext => focus_moved(s, true),
        Message::EditFocusPrev => focus_moved(s, false),
        Message::AddHeaderRow => rows_edited(s, RowChange::AddHeader),
        Message::DeleteHeaderRow => rows_edited(s, RowChange::DeleteHeader),
        Message::AddAssertionRow => rows_edited(s, RowChange::AddAssertion),
        Message::DeleteAssertionRow => rows_edited(s, RowChange::DeleteAssertion),
        Message::AddCaptureRow => rows_edited(s, RowChange::AddCapture),
        Message::DeleteCaptureRow => rows_edited(s, RowChange::DeleteCapture),
        Message::EditInsertChar(c) => typed(s, TextEdit::Insert(c)),
        Message::EditBackspace => typed(s, TextEdit::Backspace),
        Message::EditDelete => typed(s, TextEdit::Delete),
        Message::EditCursorLeft => moved_sideways(s, false),
        Message::EditCursorRight => moved_sideways(s, true),
        Message::EditCursorUp => cursor_moved(s, CursorMove::Up),
        Message::EditCursorDown => cursor_moved(s, CursorMove::Down),
        Message::EnterEnvironmentEdit => variables_entered(s),
        Message::CancelEnvironmentEdit => SessionModel { environment_edit: None, ..s },
        Message::AddEnvVarRow => match s.environment_edit {
            Some(form) => SessionModel { environment_edit: Some(form.row_added()), ..s },
            None => s,
        },
        Message::RequestDeleteEnvVarRow => match s.environment_edit {
            Some(form) => SessionModel { environment_edit: Some(form.delete_requested()), ..s },
            None => s,
        },
        Message::ConfirmDeleteEnvVarRow => match s.environment_edit {
            Some(form) => SessionModel { environment_edit: Some(form.delete_confirmed()), ..s },
            None => s,
        },
        Message::CancelDeleteEnvVarRow => match s.environment_edit {
            Some(form) => SessionModel { environment_edit: Some(form.delete_cancelled()), ..s },
            None => s,
        },
        _ => s,
    }
}

/// Whether the message is about browsing, overlays or running.
fn is_browsing(msg: &Message) -> (r: bool)
    ensures
        r == browses(*msg),
{
    matches!(
        msg,
        Message::SelectNext
        | Message::SelectPrevious
        | Message::CloseEnvironmentOverlay
        | Message::ConfirmEnvironmentSelection
        | Message::OpenHistoryOverlay
        | Message::RunRequested
    )
}

/// Whether the session refuses the message because of what is open or under
/// way.
fn is_refused(state: &CollectionSession, msg: &Message) -> (r: bool)
    ensures
        r == refused(state@, *msg),
{
    let browsing = is_browsing(msg);
    if matches!(state.run_state, RunState::InFlight) && (browsing || matches!(
        msg,
        Message::OpenEnvironmentOverlay
        | Message::EnterEditMode
        | Message::AddRequest
        | Message::RequestDelete
        | Message::EnterEnvironmentEdit
    )) {
        return true;
    }
    if state.edit_mode.is_some() && (browsing || matches!(
        msg,
        Message::OpenEnvironmentOverlay | Message::RequestDelete
    )) {
        return true;
    }
    if state.delete_confirm.is_some() && (browsing || matches!(
        msg,
        Message::OpenEnvironmentOverlay | Message::EnterEditMode | Message::AddRequest
    )) {
        return true;
    }
    if state.environment_edit.is_some() && (browsing || matches!(
        msg,
        Message::EnterEditMode | Message::AddRequest | Message::RequestDelete
    )) {
        return true;
    }
    state.history_overlay.is_some() && matches!(
        msg,
        Message::OpenEnvironmentOverlay
        | Message::RunRequested
        | Message::EnterEditMode
        | Message::AddRequest
        | Message::RequestDelete
        | Message::EnterEnvironmentEdit
    )
}

/// Changes the text that is being typed into.
fn type_into(state: &mut CollectionSession, change: TextEdit)
    ensures
        final(state)@ == typed(old(state)@, change),
{
    if state.edit_mode.is_some() {
        request_edit::edit_mutate(state, change);
    } else if state.environment_edit.is_some() {
        environment_edit::env_var_mutate(state, change);
    } else {
        filter_mutate(state, change);
    }
}

/// Moves to the side in the text that is being typed into.
fn move_sideways(state: &mut CollectionSession, forward: bool)
    ensures
        final(state)@ == moved_sideways(old(state)@, forward),
{
    let step = if forward {
        CursorMove::Right
    } else {
        CursorMove::Left
    };
    if state.edit_mode.is_some() {
        request_edit::edit_move_or_toggle(state, forward);
    } else if state.environment_edit.is_some() {
        environment_edit::env_var_move(state, step);
    } else {
        filter_move(state, step);
    }
}

/// Moves the focus of the open form.
fn move_focus(state: &mut CollectionSession, forward: bool)
    ensures
        final(state)@ == focus_moved(old(state)@, forward),
{
    if let Some(edit) = &mut state.edit_mode {
        if forward {
            edit.focus_next();
        } else {
            edit.focus_prev();
        }
    } else if let Some(form) = &mut state.environment_edit {
        if forward {
            form.focus_next();
        } else {
            form.focus_prev();
        }
    }
}

/// Runs the selected request, or picks one of the collections found nearby.
fn handle_run_requested(state: &mut CollectionSession) -> (effect: Effect)
    ensures
        (final(state)@, effect@) == run_requested(old(state)@),
{
    if let Some(effect) = collection::confirm_discovered_selection(state) {
        return effect;
    }
    if request_edit::request_is_selected(state) {
        state.run_state = RunState::InFlight;
        state.response_scroll = 0;
        state.reveal_captures = false;
    }
    Effect::Nothing
}

/// Scrolls the response on screen by one page.
fn scroll_page(state: &mut CollectionSession, down: bool)
    ensures
        final(state)@ == if down {
            scrolled(
                old(state)@,
                |at: usize| saturating_sum(at as int, SCROLL_STEP_LINES as int),
            )
        } else {
            scrolled(
                old(state)@,
                |at: usize| saturating_difference(at as int, SCROLL_STEP_LINES as int),
            )
        },
{
    match viewed_history_entry_mut(state) {
        Some(overlay) => {
            overlay.view_scroll = if down {
                overlay.view_scroll.saturating_add(SCROLL_STEP_LINES)
            } else {
                overlay.view_scroll.saturating_sub(SCROLL_STEP_LINES)
            };
        },
        None => {
            state.response_scroll = if down {
                state.response_scroll.saturating_add(SCROLL_STEP_LINES)
            } else {
                state.response_scroll.saturating_sub(SCROLL_STEP_LINES)
            };
        },
    }
}

/// Scrolls the response on screen to a line.
fn scroll_to(state: &mut CollectionSession, line: usize)
    ensures
        final(state)@ == scrolled(old(state)@, |at: usize| line),
{
    match viewed_history_entry_mut(state) {
        Some(overlay) => {
            overlay.view_scroll = line;
        },
        None => {
            state.response_scroll = line;
        },
    }
}

/// Reveals or hides the captured values of the response on screen.
fn toggle_reveal(state: &mut CollectionSession)
    ensures
        final(state)@ == reveal_toggled(old(state)@),
{
    match viewed_history_entry_mut(state) {
        Some(overlay) => {
            overlay.view_reveal_captures = !overlay.view_reveal_captures;
        },
        None => {
            state.reveal_captures = !state.reveal_captures;
        },
    }
}

/// Shows the past run that the list's cursor is on in full.
fn view_entry(state: &mut CollectionSession)
    ensures
        final(state)@ == entry_viewed(old(state)@),
{
    let history_len: usize = state.selected_history().len();
    if let Some(overlay) = &mut state.history_overlay {
        if overlay.viewing.is_none() && overlay.cursor < history_len {
            overlay.viewing = Some(overlay.cursor);
            overlay.view_scroll = 0;
            overlay.view_reveal_captures = false;
        }
    }
}

/// Shows or hides the details of the past run that the list's cursor is on.
fn toggle_expanded(state: &mut CollectionSession)
    ensures
        final(state)@ == entry_expanded(old(state)@),
{
    let history_len: usize = state.selected_history().len();
    if let Some(overlay) = &mut state.history_overlay {
        if overlay.viewing.is_none() && overlay.cursor < history_len {
            let cursor = overlay.cursor;
            if !overlay.expanded.remove(&cursor) {
                overlay.expanded.insert(cursor);
            }
        }
    }
}

/// Takes a message that is meant for the session.
#[verifier::spinoff_prover]
#[verifier::rlimit(60)]
pub fn update_session(state: &mut CollectionSession, msg: Message) -> (effect: Effect)
    ensures
        (final(state)@, effect@) == session_updated(old(state)@, msg),
{
    if is_refused(state, &msg) {
        return Effect::Nothing;
    }
    match msg {
        Message::NoCollectionPath => return collection::handle_no_collection_path(state),
        Message::RunRequested => return handle_run_requested(state),
        Message::SaveEdit => return request_edit::handle_save_edit(state),
        Message::ConfirmDelete => return request_edit::handle_confirm_delete(state),
        Message::SaveEnvironmentEdit => return environment_edit::handle_save_environment_edit(
            state,
        ),
        Message::CollectionLoaded { base_dir, path, result } => collection::handle_collection_loaded(
            state,
            base_dir,
            path,
            result,
        ),
        Message::EnvironmentsLoaded {
            environments,
            errors,
        } => collection::handle_environments_loaded(state, environments, errors),
        Message::SelectNext => select(state, 1),
        Message::SelectPrevious => select(state, -1),
        Message::OpenRequestFilter => handle_open_request_filter(state),
        Message::CloseRequestFilter => {
            state.request_filter = None;
        },
        Message::OpenEnvironmentOverlay => {
            if state.environment_overlay.is_none() {
                state.environment_overlay = Some(
                    match state.active_environment {
                        Some(index) => index,
                        None => 0,
                    },
                );
            }
        },
        Message::CloseEnvironmentOverlay => {
            state.environment_overlay = None;
        },
        Message::ConfirmEnvironmentSelection => {
            if let Some(cursor) = state.environment_overlay.take() {
                if state.environments.len() > 0 {
                    state.active_environment = Some(cursor);
                }
            }
        },
        Message::ScrollResponseDown => scroll_page(state, true),
        Message::ScrollResponseUp => scroll_page(state, false),
        Message::ScrollResponseTop => scroll_to(state, 0),
        Message::ScrollResponseBottom => scroll_to(state, usize::MAX),
        Message::ToggleRevealCaptures => toggle_reveal(state),
        Message::OpenHistoryOverlay => {
            if state.history_overlay.is_none() && state.environment_overlay.is_none() {
                state.history_overlay = Some(HistoryOverlay::default());
            }
        },
        Message::CloseHistoryOverlay => {
            state.history_overlay = None;
        },
        Message::ViewHistoryEntry => view_entry(state),
        Message::CloseHistoryEntryView => {
            if let Some(overlay) = &mut state.history_overlay {
                overlay.viewing = None;
            }
        },
        Message::ToggleHistoryEntryExpanded => toggle_expanded(state),
        Message::AddRequest => request_edit::handle_add_request(state),
        Message::EnterEditMode => request_edit::handle_enter_edit_mode(state),
        Message::CancelEdit => request_edit::handle_cancel_edit(state),
        Message::RequestDelete => request_edit::handle_request_delete(state),
        Message::CancelDelete => request_edit::handle_cancel_delete(state),
        Message::EditFocusNext => move_focus(state, true),
        Message::EditFocusPrev => move_focus(state, false),
        Message::AddHeaderRow => request_edit::edit_state_mutate(state, RowChange::AddHeader),
        Message::DeleteHeaderRow => request_edit::edit_state_mutate(
            state,
            RowChange::DeleteHeader,
        ),
        Message::AddAssertionRow => request_edit::edit_state_mutate(
            state,
            RowChange::AddAssertion,
        ),
        Message::DeleteAssertionRow => request_edit::edit_state_mutate(
            state,
            RowChange::DeleteAssertion,
        ),
        Message::AddCaptureRow => request_edit::edit_state_mutate(state, RowChange::AddCapture),
        Message::DeleteCaptureRow => request_edit::edit_state_mutate(
            state,
            RowChange::DeleteCapture,
        ),
        Message::EditInsertChar(c) => type_into(state, TextEdit::Insert(c)),
        Message::EditBackspace => type_into(state, TextEdit::Backspace),
        Message::EditDelete => type_into(state, TextEdit::Delete),
        Message::EditCursorLeft => move_sideways(state, false),
        Message::EditCursorRight => move_sideways(state, true),
        Message::EditCursorUp => request_edit::edit_move(state, CursorMove::Up),
        Message::EditCursorDown => request_edit::edit_move(state, CursorMove::Down),
        Message::EnterEnvironmentEdit => environment_edit::handle_enter_environment_edit(state),
        Message::CancelEnvironmentEdit => environment_edit::handle_cancel_environment_edit(
            state,
        ),
        Message::AddEnvVarRow => environment_edit::handle_add_env_var_row(state),
        Message::RequestDeleteEnvVarRow => environment_edit::handle_request_delete_env_var_row(
            state,
        ),
        Message::ConfirmDeleteEnvVarRow => environment_edit::handle_confirm_delete_env_var_row(
            state,
        ),
        Message::CancelDeleteEnvVarRow => environment_edit::handle_cancel_delete_env_var_row(
            state,
        ),
        _ => {},
    }
    Effect::Nothing
}

// ---------------------------------------------------------------------------
// The program
// ---------------------------------------------------------------------------

/// How many of the sessions would lose something if they were closed.
pub open spec fn dirty_count(sessions: Seq<SessionModel>) -> nat
    decreases sessions.len(),
{
    if sessions.len() == 0 {
        0
    } else {
        dirty_count(sessions.drop_last()) + if sessions.last().is_dirty() {
            1nat
        } else {
            0nat
        }
    }
}

/// The question that is asked before unsaved changes in `dirty_tabs` tabs are
/// given up.
pub open spec fn quit_question(dirty_tabs: nat) -> Seq<char> {
    "Quit with unsaved changes in "@ + decimal(dirty_tabs) + " tab"@ + (if dirty_tabs == 1 {
        ""@
    } else {
        "s"@
    }) + "? This cannot be undone."@
}

/// The program asked to quit: at once, or after a question where that would
/// lose something. Asked again instead of answered, it quits.
pub open spec fn quit_requested(a: AppModel) -> AppModel {
    if a.quit_confirm is Some {
        AppModel { quit_confirm: None, should_quit: true, ..a }
    } else if dirty_count(a.collections) == 0 {
        AppModel { should_quit: true, ..a }
    } else {
        AppModel {
            quit_confirm: Some(prompt_asking(quit_question(dirty_count(a.collections)))),
            ..a
        }
    }
}

/// The program with the session of an id replaced by what it becomes; the
/// program as it is where no session has that id.
pub open spec fn with_session(
    a: AppModel,
    id: u64,
    becomes: spec_fn(SessionModel) -> SessionModel,
) -> AppModel {
    let index = position(a.collections, id);
    if index < a.collections.len() {
        AppModel { collections: a.collections.update(index, becomes(a.collections[index])), ..a }
    } else {
        a
    }
}

/// What a message does to the open prompt for a path, where it is typed into
/// that.
pub open spec fn prompt_typed(prompt: OpenPromptModel, msg: Message) -> Option<OpenPromptModel> {
    match msg {
        Message::EditInsertChar(c) => Some(
            OpenPromptModel { path: prompt.path.inserted(c), error: None },
        ),
        Message::EditBackspace => Some(
            OpenPromptModel { path: prompt.path.backspaced(), error: None },
        ),
        Message::EditDelete => Some(OpenPromptModel { path: prompt.path.deleted(), error: None }),
        Message::EditCursorLeft => Some(OpenPromptModel { path: prompt.path.left(), ..prompt }),
        Message::EditCursorRight => Some(OpenPromptModel { path: prompt.path.right(), ..prompt }),
        _ => None,
    }
}

/// The session that a message answers, where it is the answer to something
/// that was to be done for one.
pub open spec fn answers(msg: Message) -> Option<u64> {
    match msg {
        Message::RunCompleted { collection_id, .. } => Some(collection_id),
        Message::CollectionsDiscovered { collection_id, .. } => Some(collection_id),
        Message::DiscoveredLoaded { collection_id, .. } => Some(collection_id),
        Message::EditSaved { collection_id, .. } => Some(collection_id),
        Message::DeleteSaved { collection_id, .. } => Some(collection_id),
        Message::EnvironmentSaved { collection_id, .. } => Some(collection_id),
        _ => None,
    }
}

/// A session after it was told what came of something that was to be done for
/// it.
pub open spec fn session_answered(s: SessionModel, msg: Message) -> SessionModel {
    match msg {
        Message::RunCompleted { outcome, completed_at, .. } => run_completed(
            s,
            RunHistoryEntry { completed_at, outcome },
        ),
        Message::CollectionsDiscovered { paths, .. } => discovered(s, paths_view(paths@)),
        Message::DiscoveredLoaded { base_dir, path, result, .. } => collection_loaded(
            s,
            base_dir@,
            path@,
            loaded_result(result),
        ),
        Message::EditSaved { document, written, .. } => edit_saved(
            s,
            document@,
            written_text(written),
        ),
        Message::DeleteSaved { index, document, written, .. } => delete_saved(
            s,
            index,
            document@,
            written_text(written),
        ),
        Message::EnvironmentSaved { index, environment, written, .. } => variables_saved(
            s,
            index,
            environment@,
            written_text(written),
        ),
        _ => s,
    }
}

/// Whether a message concerns the program as a whole, or is the answer to
/// something that was to be done for one session.
pub open spec fn process_wide(msg: Message) -> bool {
    match msg {
        Message::OpenCheatsheet
        | Message::CloseCheatsheet
        | Message::Quit
        | Message::ConfirmQuit
        | Message::CancelQuit
        | Message::Tick
        | Message::OpenCollectionPrompt
        | Message::ConfirmOpenCollectionPath
        | Message::CancelOpenCollectionPrompt
        | Message::CollectionOpened { .. }
        | Message::NextCollection
        | Message::PreviousCollection
        | Message::CloseCollectionRequested
        | Message::ConfirmCloseCollection
        | Message::CancelCloseCollection
        | Message::RunCompleted { .. }
        | Message::CollectionsDiscovered { .. }
        | Message::DiscoveredLoaded { .. }
        | Message::EditSaved { .. }
        | Message::DeleteSaved { .. }
        | Message::EnvironmentSaved { .. } => true,
        _ => false,
    }
}

/// What a message that concerns the program as a whole does to it.
pub open spec fn process_updated(a: AppModel, msg: Message) -> (AppModel, EffectModel) {
    match msg {
        Message::OpenCheatsheet => (
            AppModel { cheatsheet_open: true, ..a },
            EffectModel::Nothing,
        ),
        Message::CloseCheatsheet => (
            AppModel { cheatsheet_open: false, ..a },
            EffectModel::Nothing,
        ),
        Message::Quit => (quit_requested(a), EffectModel::Nothing),
        Message::ConfirmQuit => (
            if a.quit_confirm is Some {
                AppModel { quit_confirm: None, should_quit: true, ..a }
            } else {
                a
            },
            EffectModel::Nothing,
        ),
        Message::CancelQuit => (AppModel { quit_confirm: None, ..a }, EffectModel::Nothing),
        Message::Tick => (
            AppModel {
                spinner_tick: if a.spinner_tick == usize::MAX {
                    0
                } else {
                    (a.spinner_tick + 1) as usize
                },
                ..a
            },
            EffectModel::Nothing,
        ),
        Message::OpenCollectionPrompt => (open_prompted(a), EffectModel::Nothing),
        Message::CancelOpenCollectionPrompt => (
            AppModel { open_collection_prompt: None, ..a },
            EffectModel::Nothing,
        ),
        Message::CollectionOpened {
            base_dir,
            path,
            result,
            environments,
            environment_errors,
        } => (
            collection_opened(
                a,
                base_dir@,
                path@,
                loaded_result(result),
                environments_view(environments@),
                pairs_view(environment_errors@),
            ),
            EffectModel::Nothing,
        ),
        Message::NextCollection => (next_tab(a), EffectModel::Nothing),
        Message::PreviousCollection => (previous_tab(a), EffectModel::Nothing),
        Message::CloseCollectionRequested => close_requested(a),
        Message::ConfirmCloseCollection => close_confirmed(a),
        Message::CancelCloseCollection => (
            AppModel { close_confirm: None, ..a },
            EffectModel::Nothing,
        ),
        Message::RunCompleted { .. }
        | Message::CollectionsDiscovered { .. }
        | Message::DiscoveredLoaded { .. }
        | Message::EditSaved { .. }
        | Message::DeleteSaved { .. }
        | Message::EnvironmentSaved { .. } => (
            with_session(a, answers(msg)->0, |s: SessionModel| session_answered(s, msg)),
            EffectModel::Nothing,
        ),
        _ => (a, EffectModel::Nothing),
    }
}

/// Whether something lies over the whole program, so that no message reaches
/// a session.
pub open spec fn covered(a: AppModel) -> bool {
    ||| a.open_collection_prompt is Some
    ||| a.close_confirm is Some
    ||| a.quit_confirm is Some
    ||| a.cheatsheet_open
}

/// What a message does to the program: the program after it, and what is to be
/// done outside.
pub open spec fn app_updated(a: AppModel, msg: Message) -> (AppModel, EffectModel) {
    if process_wide(msg) {
        process_updated(a, msg)
    } else if a.open_collection_prompt is Some && prompt_typed(
        a.open_collection_prompt->0,
        msg,
    ) is Some {
        (
            AppModel {
                open_collection_prompt: prompt_typed(a.open_collection_prompt->0, msg),
                ..a
            },
            EffectModel::Nothing,
        )
    } else if covered(a) {
        (a, EffectModel::Nothing)
    } else {
        let (session, effect) = session_updated(a.active(), msg);
        (a.with_active(session), effect)
    }
}

/// The question that is asked before unsaved changes in `dirty_tabs` tabs are
/// given up.
pub fn quit_confirm_message(dirty_tabs: usize) -> (r: String)
    ensures
        r@ == quit_question(dirty_tabs as nat),
{
    let mut message = "Quit with unsaved changes in ".to_owned();
    message.append(decimal_string(dirty_tabs as u64).as_str());
    message.append(" tab");
    message.append(
        if dirty_tabs == 1 {
            ""
        } else {
            "s"
        },
    );
    message.append("? This cannot be undone.");
    message
}

/// How many of the sessions would lose something if they were closed.
fn count_dirty(sessions: &Vec<CollectionSession>) -> (n: usize)
    ensures
        n == dirty_count(sessions_view(sessions@)),
{
    let ghost model = sessions_view(sessions@);
    let mut n: usize = 0;
    let mut i: usize = 0;
    while i < sessions.len()
        invariant
            i <= sessions@.len(),
            model == sessions_view(sessions@),
            n == dirty_count(model.take(i as int)),
            n <= i,
        decreases sessions@.len() - i,
    {
        assert(model.take(i + 1).drop_last() =~= model.take(i as int));
        assert(model.take(i + 1).last() == sessions@[i as int]@);
        if sessions[i].is_dirty() {
            n = n + 1;
        }
        i = i + 1;
    }
    assert(model.take(model.len() as int) =~= model);
    n
}

/// Quits, or asks first.
fn handle_quit(state: &mut AppState)
    ensures
        final(state)@ == quit_requested(old(state)@),
{
    if state.quit_confirm.take().is_some() {
        state.should_quit = true;
        return ;
    }
    let dirty_tabs = count_dirty(&state.collections);
    if dirty_tabs == 0 {
        state.should_quit = true;
    } else {
        state.quit_confirm = Some(ConfirmPrompt::new(quit_confirm_message(dirty_tabs)));
    }
}

/// Types into the open prompt for a path. Says whether the message was meant
/// for it.
fn type_into_prompt(
    prompt: &mut crate::state::OpenCollectionPromptState,
    msg: &Message,
) -> (r: bool)
    ensures
        r == (prompt_typed(old(prompt)@, *msg) is Some),
        final(prompt)@ == match prompt_typed(old(prompt)@, *msg) {
            Some(after) => after,
            None => old(prompt)@,
        },
{
    match msg {
        Message::EditInsertChar(c) => {
            prompt.path.insert_char(*c);
            prompt.error = None;
            true
        },
        Message::EditBackspace => {
            prompt.path.backspace();
            prompt.error = None;
            true
        },
        Message::EditDelete => {
            prompt.path.delete();
            prompt.error = None;
            true
        },
        Message::EditCursorLeft => {
            prompt.path.move_left();
            true
        },
        Message::EditCursorRight => {
            prompt.path.move_right();
            true
        },
        _ => false,
    }
}

/// The session that a message answers, where it answers one.
fn answered(msg: &Message) -> (r: Option<u64>)
    ensures
        r == answers(*msg),
{
    match msg {
        Message::RunCompleted { collection_id, .. } => Some(*collection_id),
        Message::CollectionsDiscovered { collection_id, .. } => Some(*collection_id),
        Message::DiscoveredLoaded { collection_id, .. } => Some(*collection_id),
        Message::EditSaved { collection_id, .. } => Some(*collection_id),
        Message::DeleteSaved { collection_id, .. } => Some(*collection_id),
        Message::EnvironmentSaved { collection_id, .. } => Some(*collection_id),
        _ => None,
    }
}

/// What a message may ask of the machine: a collection can be opened only
/// while there is an id left for it.
pub open spec fn within_limits(a: AppModel, msg: Message) -> bool {
    msg is CollectionOpened ==> a.next_id < u64::MAX
}

/// A session keeps its id whatever it is told.
#[verifier::spinoff_prover]
#[verifier::rlimit(60)]
pub proof fn law_sessions_keep_their_id(s: SessionModel, msg: Message)
    ensures
        session_updated(s, msg).0.id == s.id,
{
}

/// A list of tabs with one of them replaced by one of the same id stays valid.
proof fn lemma_replaced_tab_valid(a: AppModel, index: int, session: SessionModel)
    requires
        a.tabs_valid(),
        0 <= index < a.collections.len(),
        session.id == a.collections[index].id,
    ensures
        (AppModel { collections: a.collections.update(index, session), ..a }).tabs_valid(),
{
    let after = AppModel { collections: a.collections.update(index, session), ..a };
    assert forall|i: int| 0 <= i < after.collections.len() implies (
    #[trigger] after.collections[i]).id < after.next_id by {
        assert(after.collections[i].id == a.collections[i].id);
    }
    assert forall|i: int, j: int| 0 <= i < j < after.collections.len() implies (
    #[trigger] after.collections[i]).id != (#[trigger] after.collections[j]).id by {
        assert(after.collections[i].id == a.collections[i].id);
        assert(after.collections[j].id == a.collections[j].id);
    }
}

/// Takes the end of a run.
fn handle_run_completed(
    state: &mut CollectionSession,
    outcome: RunOutcome,
    completed_at: u64,
)
    ensures
        final(state)@ == run_completed(old(state)@, RunHistoryEntry { completed_at, outcome }),
{
    if matches!(state.load_state, LoadState::Loaded { .. }) {
        push_history_entry(state, RunHistoryEntry { completed_at, outcome });
        state.run_state = RunState::Completed;
    } else {
        state.run_state = RunState::Idle;
    }
}

/// Takes a message that is the answer to something that was to be done for
/// one session. An answer for a session that is gone is dropped.
fn update_answered(state: &mut AppState, collection_id: u64, msg: Message)
    requires
        old(state)@.tabs_valid(),
        answers(msg) == Some(collection_id),
    ensures
        (final(state)@, EffectModel::Nothing) == process_updated(old(state)@, msg),
        final(state)@.tabs_valid(),
{
    let index = match find_session(state, collection_id) {
        Some(index) => index,
        None => return ,
    };
    let ghost before = state@;
    let session = &mut state.collections[index];
    match msg {
        Message::RunCompleted { collection_id: _, outcome, completed_at } => handle_run_completed(
            session,
            outcome,
            completed_at,
        ),
        Message::CollectionsDiscovered {
            collection_id: _,
            paths,
        } => collection::handle_collections_discovered(session, paths),
        Message::DiscoveredLoaded {
            collection_id: _,
            base_dir,
            path,
            result,
        } => collection::handle_collection_loaded(session, base_dir, path, result),
        Message::EditSaved {
            collection_id: _,
            document,
            written,
        } => request_edit::handle_edit_saved(session, document, written),
        Message::DeleteSaved {
            collection_id: _,
            index,
            document,
            written,
        } => request_edit::handle_delete_saved(session, index, document, written),
        Message::EnvironmentSaved {
            collection_id: _,
            index,
            environment,
            written,
        } => environment_edit::handle_environment_saved(session, index, environment, written),
        _ => {},
    }
    proof {
        let after = state@.collections[index as int];
        assert(state@.collections =~= before.collections.update(index as int, after));
        lemma_replaced_tab_valid(before, index as int, after);
    }
}

/// Hands a message to the active session.
fn update_active(state: &mut AppState, msg: Message) -> (effect: Effect)
    requires
        old(state)@.tabs_valid(),
    ensures
        ({
            let (session, asked) = session_updated(old(state)@.active(), msg);
            (final(state)@, effect@) == (old(state)@.with_active(session), asked)
        }),
        final(state)@.tabs_valid(),
{
    proof {
        law_sessions_keep_their_id(state@.active(), msg);
        lemma_replaced_tab_valid(
            state@,
            state@.active_collection as int,
            session_updated(state@.active(), msg).0,
        );
    }
    update_session(state.active_mut(), msg)
}

/// Takes a message that is for the open prompt or for the active session,
/// which it reaches only where nothing lies over the program.
fn update_uncovered(state: &mut AppState, msg: Message) -> (effect: Effect)
    requires
        old(state)@.tabs_valid(),
        !process_wide(msg),
    ensures
        (final(state)@, effect@) == app_updated(old(state)@, msg),
        final(state)@.tabs_valid(),
{
    if let Some(prompt) = &mut state.open_collection_prompt {
        if type_into_prompt(prompt, &msg) {
            return Effect::Nothing;
        }
    }
    if state.open_collection_prompt.is_some() || state.close_confirm.is_some()
        || state.quit_confirm.is_some() || state.cheatsheet_open {
        return Effect::Nothing;
    }
    update_active(state, msg)
}

/// Takes a message: changes what the program remembers, and says what is to
/// be done outside.
#[verifier::spinoff_prover]
#[verifier::rlimit(60)]
pub fn update(state: &mut AppState, msg: Message) -> (effect: Effect)
    requires
        old(state)@.tabs_valid(),
        within_limits(old(state)@, msg),
    ensures
        (final(state)@, effect@) == app_updated(old(state)@, msg),
        final(state)@.tabs_valid(),
{
    match msg {
        Message::OpenCheatsheet => {
            state.cheatsheet_open = true;
            return Effect::Nothing;
        },
        Message::CloseCheatsheet => {
            state.cheatsheet_open = false;
            return Effect::Nothing;
        },
        Message::Quit => {
            handle_quit(state);
            return Effect::Nothing;
        },
        Message::ConfirmQuit => {
            if state.quit_confirm.take().is_some() {
                state.should_quit = true;
            }
            return Effect::Nothing;
        },
        Message::CancelQuit => {
            state.quit_confirm = None;
            return Effect::Nothing;
        },
        Message::Tick => {
            state.spinner_tick = state.spinner_tick.wrapping_add(1);
            return Effect::Nothing;
        },
        Message::OpenCollectionPrompt => {
            collection::handle_open_collection_prompt(state);
            return Effect::Nothing;
        },
        Message::ConfirmOpenCollectionPath => return Effect::Nothing,
        Message::CancelOpenCollectionPrompt => {
            state.open_collection_prompt = None;
            return Effect::Nothing;
        },
        Message::CollectionOpened {
            base_dir,
            path,
            result,
            environments,
            environment_errors,
        } => {
            collection::handle_collection_opened(
                state,
                base_dir,
                path,
                result,
                environments,
                environment_errors,
            );
            return Effect::Nothing;
        },
        Message::NextCollection => {
            collection::handle_next_collection(state);
            return Effect::Nothing;
        },
        Message::PreviousCollection => {
            collection::handle_previous_collection(state);
            return Effect::Nothing;
        },
        Message::CloseCollectionRequested => return collection::handle_close_collection_requested(
            state,
        ),
        Message::ConfirmCloseCollection => return collection::handle_confirm_close_collection(
            state,
        ),
        Message::CancelCloseCollection => {
            collection::handle_cancel_close_collection(state);
            return Effect::Nothing;
        },
        _ => {},
    }
    if let Some(collection_id) = answered(&msg) {
        update_answered(state, collection_id, msg);
        return Effect::Nothing;
    }
    update_uncovered(state, msg)
}

} // verus!
