//! Browsing: which request, match, environment, past run or tab a key selects.
use vstd::prelude::*;

use crate::document::{DocumentModel, RequestModel};
use crate::laws::rows::{with_one_more, without_item};
use crate::state::{
    AppModel, EffectModel, LoadModel, Message, RunState, SCROLL_STEP_LINES,
    SessionModel,
};
use crate::text::{lower, occurs_at};
use crate::update::{
    app_updated, filter_opened, lemma_first_at, matching, matching_upto, reselected, selection_moved,
    session_updated, wrapped,
};
use crate::update::collection::{
    lemma_position_unique, next_tab, no_question, position, previous_tab, session_closed,
};

verus! {

/// The item behind item `i` of `n` in a circle.
pub open spec fn one_on(i: int, n: int) -> int {
    if i + 1 < n {
        i + 1
    } else {
        0
    }
}

/// The item in front of item `i` of `n` in a circle.
pub open spec fn one_back(i: int, n: int) -> int {
    if i > 0 {
        i - 1
    } else {
        n - 1
    }
}

pub proof fn lemma_steps(i: int, n: int)
    requires
        0 <= i < n,
    ensures
        wrapped(i, n, 1) == one_on(i, n),
        wrapped(i, n, -1) == one_back(i, n),
{
    if i + 1 < n {
        vstd::arithmetic::div_mod::lemma_small_mod((i + 1) as nat, n as nat);
    } else {
        vstd::arithmetic::div_mod::lemma_mod_self_0(n);
    }
    if i > 0 {
        vstd::arithmetic::div_mod::lemma_small_mod((i - 1) as nat, n as nat);
    } else {
        vstd::arithmetic::div_mod::lemma_mod_add_multiples_vanish(-1, n);
        vstd::arithmetic::div_mod::lemma_small_mod((n - 1) as nat, n as nat);
    }
}

// ---------------------------------------------------------------------------
// Requests
// ---------------------------------------------------------------------------

/// Whether a session shows its requests, with nothing over them and no run
/// under way.
pub open spec fn browsing(s: SessionModel) -> bool {
    &&& s.load_state is Loaded
    &&& s.run_state != RunState::InFlight
    &&& s.edit_mode is None
    &&& s.delete_confirm is None
    &&& s.environment_overlay is None
    &&& s.environment_edit is None
    &&& s.history_overlay is None
}

/// Down selects the request below, and the first from the last; up selects the
/// request above, and the last from the first. The document stays as it is,
/// and what was shown of the request before is shown no longer.
pub proof fn law_down_and_up_select_the_neighbours(s: SessionModel)
    requires
        browsing(s),
        s.request_filter is None,
        s.request_selected(),
        s.load_state->document.requests().len() <= usize::MAX,
    ensures
        ({
            let down = session_updated(s, Message::SelectNext).0;
            let up = session_updated(s, Message::SelectPrevious).0;
            let n = s.load_state->document.requests().len() as int;
            let i = s.load_state->selected as int;
            &&& down.load_state is Loaded && up.load_state is Loaded
            &&& down.load_state->selected == one_on(i, n)
            &&& up.load_state->selected == one_back(i, n)
            &&& down.load_state->document == s.load_state->document
            &&& up.load_state->document == s.load_state->document
            &&& n > 1 ==> down.run_state == RunState::Idle && up.run_state == RunState::Idle
            &&& n > 1 ==> down.response_scroll == 0 && !down.reveal_captures
            &&& down.dirty_requests == s.dirty_requests && down.run_history == s.run_history
        }),
{
    lemma_steps(
        s.load_state->selected as int,
        s.load_state->document.requests().len() as int,
    );
}

/// Whether a text holds another, capital and small letters counting alike.
pub open spec fn holds_ignoring_case(text: Seq<char>, part: Seq<char>) -> bool {
    exists|at: int| #[trigger] occurs_at(lower(text), lower(part), at)
}

/// The name that a request is searched by.
pub open spec fn searched_name(request: RequestModel) -> Seq<char> {
    match request.name {
        Some(name) => name,
        None => Seq::empty(),
    }
}

pub proof fn lemma_matching(requests: Seq<RequestModel>, query: Seq<char>, n: nat)
    requires
        n <= requests.len() <= usize::MAX,
    ensures
        ({
            let m = matching_upto(requests, query, n);
            &&& forall|k: int|
                0 <= k < m.len() ==> (#[trigger] m[k]) < n && holds_ignoring_case(
                    searched_name(requests[m[k] as int]),
                    query,
                )
            &&& forall|k: int, l: int| 0 <= k < l < m.len() ==> #[trigger] m[k] < #[trigger] m[l]
            &&& forall|i: int|
                0 <= i < n && holds_ignoring_case(searched_name(#[trigger] requests[i]), query)
                    ==> m.contains(i as usize)
        }),
    decreases n,
{
    if n > 0 {
        lemma_matching(requests, query, (n - 1) as nat);
        let before = matching_upto(requests, query, (n - 1) as nat);
        let m = matching_upto(requests, query, n);
        assert forall|i: int|
            0 <= i < n && holds_ignoring_case(
                searched_name(#[trigger] requests[i]),
                query,
            ) implies m.contains(i as usize) by {
            if i < n - 1 {
                let k = before.index_of(i as usize);
                assert(m[k] == before[k]);
            } else {
                assert(m[m.len() - 1] == (n - 1) as usize);
            }
        }
    }
}

/// A search lists exactly the requests whose name holds what is searched for,
/// capital and small letters counting alike, each once and in their order.
pub proof fn law_a_search_lists_the_names_that_hold_it(document: DocumentModel, query: Seq<char>)
    requires
        document.requests().len() <= usize::MAX,
    ensures
        ({
            let m = matching(document, query);
            let requests = document.requests();
            &&& forall|k: int, l: int| 0 <= k < l < m.len() ==> #[trigger] m[k] < #[trigger] m[l]
            &&& forall|i: usize| #[trigger]
                m.contains(i) <==> i < requests.len() && holds_ignoring_case(
                    searched_name(requests[i as int]),
                    query,
                )
        }),
{
    let m = matching(document, query);
    let requests = document.requests();
    lemma_matching(requests, query, requests.len());
    assert forall|i: usize| #[trigger] m.contains(i) implies i < requests.len()
        && holds_ignoring_case(searched_name(requests[i as int]), query) by {
        let k = m.index_of(i);
        assert(m[k] == i);
    }
}

#[verifier::spinoff_prover]
proof fn lemma_match_step(s: SessionModel, i: int)
    requires
        browsing(s),
        s.request_filter is Some,
        s.load_state->document.requests().len() <= usize::MAX,
        ({
            let m = matching(s.load_state->document, s.request_filter->0.value);
            0 <= i < m.len() && m[i] == s.load_state->selected
        }),
    ensures
        ({
            let m = matching(s.load_state->document, s.request_filter->0.value);
            let n = m.len() as int;
            &&& selection_moved(s, 1) == reselected(s, m[one_on(i, n)])
            &&& selection_moved(s, -1) == reselected(s, m[one_back(i, n)])
        }),
{
    let document = s.load_state->document;
    let m = matching(document, s.request_filter->0.value);
    lemma_matching(document.requests(), s.request_filter->0.value, document.requests().len());
    lemma_steps(i, m.len() as int);
    lemma_first_at(m, m[i], i);
    assert(m.contains(m[i]));
}

/// While requests are searched, down selects the next match and up the one
/// before, in a circle; so the two are inverse on the matches.
#[verifier::spinoff_prover]
pub proof fn law_down_and_up_select_neighbouring_matches(s: SessionModel, i: int)
    requires
        browsing(s),
        s.request_filter is Some,
        s.load_state->document.requests().len() <= usize::MAX,
        ({
            let m = matching(s.load_state->document, s.request_filter->0.value);
            0 <= i < m.len() && m[i] == s.load_state->selected
        }),
    ensures
        ({
            let m = matching(s.load_state->document, s.request_filter->0.value);
            let n = m.len() as int;
            let down = session_updated(s, Message::SelectNext).0;
            let up = session_updated(s, Message::SelectPrevious).0;
            &&& down.load_state->selected == m[one_on(i, n)]
            &&& up.load_state->selected == m[one_back(i, n)]
            &&& down.load_state->document == s.load_state->document
            &&& up.load_state->document == s.load_state->document
        }),
{
    lemma_match_step(s, i);
}

/// While requests are searched, down and up are inverse: each takes back the
/// other.
#[verifier::spinoff_prover]
pub proof fn law_down_and_up_are_inverse_among_matches(s: SessionModel)
    requires
        browsing(s),
        s.request_filter is Some,
        s.load_state->document.requests().len() <= usize::MAX,
        matching(s.load_state->document, s.request_filter->0.value).contains(
            s.load_state->selected,
        ),
    ensures
        selection_moved(selection_moved(s, 1), -1).load_state == s.load_state,
        selection_moved(selection_moved(s, -1), 1).load_state == s.load_state,
{
    let m = matching(s.load_state->document, s.request_filter->0.value);
    let n = m.len() as int;
    let i = m.index_of(s.load_state->selected);
    lemma_match_step(s, i);
    lemma_match_step(selection_moved(s, 1), one_on(i, n));
    lemma_match_step(selection_moved(s, -1), one_back(i, n));
}

/// Where the selection is on no match, a key selects the first; where nothing
/// matches, it selects nothing else.
pub proof fn law_a_key_in_a_search_finds_the_first_match(s: SessionModel)
    requires
        browsing(s),
        s.request_filter is Some,
        !matching(s.load_state->document, s.request_filter->0.value).contains(
            s.load_state->selected,
        ),
    ensures
        ({
            let m = matching(s.load_state->document, s.request_filter->0.value);
            let down = session_updated(s, Message::SelectNext).0;
            let up = session_updated(s, Message::SelectPrevious).0;
            &&& m.len() > 0 ==> down.load_state->selected == m[0]
            &&& m.len() > 0 ==> up.load_state->selected == m[0]
            &&& m.len() == 0 ==> down == s && up == s
        }),
{
}

/// A search begins with nothing searched for and ends without a trace: the
/// selection and all else stay.
#[verifier::spinoff_prover]
pub proof fn law_a_search_is_opened_empty_and_closed(s: SessionModel)
    requires
        browsing(s),
        s.request_filter is None,
    ensures
        ({
            let t = filter_opened(s);
            &&& t.request_filter is Some
            &&& t.request_filter->0.value.len() == 0
            &&& t.request_filter->0.cursor == 0
            &&& session_updated(t, Message::CloseRequestFilter).0 == s
        }),
{
}

// ---------------------------------------------------------------------------
// Collections found nearby
// ---------------------------------------------------------------------------

/// Among the collections found nearby, down and up move the cursor to the
/// neighbours, and enter asks for the one at the cursor, for this session.
#[verifier::spinoff_prover]
pub proof fn law_enter_asks_for_the_collection_at_the_cursor(s: SessionModel)
    requires
        s.load_state is NoPathProvided,
        s.load_state->cursor < s.load_state->discovered.len(),
        s.load_state->discovered.len() <= usize::MAX,
        s.run_state != RunState::InFlight,
        s.edit_mode is None,
        s.delete_confirm is None,
        s.environment_overlay is None,
        s.environment_edit is None,
        s.history_overlay is None,
    ensures
        ({
            let n = s.load_state->discovered.len() as int;
            let i = s.load_state->cursor as int;
            let down = session_updated(s, Message::SelectNext).0;
            let up = session_updated(s, Message::SelectPrevious).0;
            let (t, asked) = session_updated(s, Message::RunRequested);
            &&& down.load_state == (LoadModel::NoPathProvided {
                discovered: s.load_state->discovered,
                cursor: one_on(i, n) as usize,
            })
            &&& up.load_state == (LoadModel::NoPathProvided {
                discovered: s.load_state->discovered,
                cursor: one_back(i, n) as usize,
            })
            &&& t == s
            &&& asked is LoadCollection
            &&& asked->LoadCollection_collection_id == s.id
            &&& asked->LoadCollection_path == s.load_state->discovered[i]
        }),
{
    lemma_steps(s.load_state->cursor as int, s.load_state->discovered.len() as int);
}

// ---------------------------------------------------------------------------
// Environments
// ---------------------------------------------------------------------------

/// The picker opens on the active environment, or on the first; down and up
/// move its cursor to the neighbours; confirming makes the environment at the
/// cursor the active one and closing changes none.
#[verifier::spinoff_prover]
pub proof fn law_the_picker_picks_the_environment_at_its_cursor(s: SessionModel)
    requires
        s.run_state != RunState::InFlight,
        s.edit_mode is None,
        s.delete_confirm is None,
        s.environment_edit is None,
        s.history_overlay is None,
        s.environments.len() <= usize::MAX,
    ensures
        s.environment_overlay is None ==> {
            let t = session_updated(s, Message::OpenEnvironmentOverlay).0;
            &&& t == (SessionModel { environment_overlay: t.environment_overlay, ..s })
            &&& s.active_environment is Some ==> t.environment_overlay == s.active_environment
            &&& s.active_environment is None ==> t.environment_overlay == Some(0usize)
        },
        s.environment_overlay is Some && s.environment_overlay->0 < s.environments.len() ==> {
            let i = s.environment_overlay->0;
            let n = s.environments.len() as int;
            let down = session_updated(s, Message::SelectNext).0;
            let up = session_updated(s, Message::SelectPrevious).0;
            let picked = session_updated(s, Message::ConfirmEnvironmentSelection).0;
            let closed = session_updated(s, Message::CloseEnvironmentOverlay).0;
            &&& down == (SessionModel {
                environment_overlay: Some(one_on(i as int, n) as usize),
                ..s
            })
            &&& up == (SessionModel {
                environment_overlay: Some(one_back(i as int, n) as usize),
                ..s
            })
            &&& picked == (SessionModel {
                environment_overlay: None,
                active_environment: Some(i),
                ..s
            })
            &&& closed == (SessionModel { environment_overlay: None, ..s })
        },
{
    if s.environment_overlay is Some && s.environment_overlay->0 < s.environments.len() {
        lemma_steps(s.environment_overlay->0 as int, s.environments.len() as int);
    }
}

// ---------------------------------------------------------------------------
// Scrolling
// ---------------------------------------------------------------------------

/// A page key scrolls the response on screen by one page: down adds lines, up
/// takes them back and stops at the first, and the keys for the ends go there.
/// While a past run is shown in full it is that which is scrolled.
#[verifier::spinoff_prover]
pub proof fn law_page_keys_scroll_the_response_on_screen(s: SessionModel)
    requires
        s.response_scroll + SCROLL_STEP_LINES <= usize::MAX,
        s.history_overlay is Some ==> s.history_overlay->0.view_scroll + SCROLL_STEP_LINES
            <= usize::MAX,
    ensures
        ({
            let down = session_updated(s, Message::ScrollResponseDown).0;
            let up = session_updated(s, Message::ScrollResponseUp).0;
            let top = session_updated(s, Message::ScrollResponseTop).0;
            let end = session_updated(s, Message::ScrollResponseBottom).0;
            if s.history_overlay is Some && s.history_overlay->0.viewing is Some {
                let at = s.history_overlay->0.view_scroll;
                &&& down.history_overlay->0.view_scroll == at + SCROLL_STEP_LINES
                &&& up.history_overlay->0.view_scroll == (if at < SCROLL_STEP_LINES {
                    0
                } else {
                    at - SCROLL_STEP_LINES
                })
                &&& top.history_overlay->0.view_scroll == 0
                &&& end.history_overlay->0.view_scroll == usize::MAX
                &&& down.response_scroll == s.response_scroll
                &&& up.response_scroll == s.response_scroll
            } else {
                let at = s.response_scroll;
                &&& down.response_scroll == at + SCROLL_STEP_LINES
                &&& up.response_scroll == (if at < SCROLL_STEP_LINES {
                    0
                } else {
                    at - SCROLL_STEP_LINES
                })
                &&& top.response_scroll == 0
                &&& end.response_scroll == usize::MAX
                &&& down.history_overlay == s.history_overlay
                &&& up.history_overlay == s.history_overlay
            }
        }),
{
}

// ---------------------------------------------------------------------------
// Tabs
// ---------------------------------------------------------------------------

/// The next-tab key makes the tab to the right active, and the first from the
/// last; the previous-tab key the tab to the left, and the last from the
/// first. The tabs themselves stay as they are.
#[verifier::spinoff_prover]
pub proof fn law_tab_keys_go_to_the_neighbours(a: AppModel)
    requires
        a.tabs_valid(),
        no_question(a),
        a.collections.len() <= usize::MAX,
    ensures
        ({
            let i = a.active_collection as int;
            let n = a.collections.len() as int;
            &&& app_updated(a, Message::NextCollection).0 == (AppModel {
                active_collection: one_on(i, n) as usize,
                ..a
            })
            &&& app_updated(a, Message::PreviousCollection).0 == (AppModel {
                active_collection: one_back(i, n) as usize,
                ..a
            })
        }),
{
    lemma_tab_steps(a);
}

proof fn lemma_tab_steps(a: AppModel)
    requires
        a.tabs_valid(),
        no_question(a),
        a.collections.len() <= usize::MAX,
    ensures
        ({
            let i = a.active_collection as int;
            let n = a.collections.len() as int;
            &&& next_tab(a) == (AppModel { active_collection: one_on(i, n) as usize, ..a })
            &&& previous_tab(a) == (AppModel { active_collection: one_back(i, n) as usize, ..a })
        }),
{
    let i = a.active_collection as int;
    let n = a.collections.len() as int;
    lemma_steps(i, n);
    vstd::arithmetic::div_mod::lemma_mod_add_multiples_vanish(i - 1, n);
}

/// Closing a tab that nothing would be lost with takes that tab out and leaves
/// the others in their order. The tab that takes its place becomes active, or
/// the last where it was the last. The only tab is begun anew under its id.
#[verifier::spinoff_prover]
pub proof fn law_closing_takes_out_the_active_tab(a: AppModel)
    requires
        a.tabs_valid(),
        no_question(a),
        a.collections.len() <= usize::MAX,
    ensures
        ({
            let (b, asked) = app_updated(a, Message::CloseCollectionRequested);
            let i = a.active_collection as int;
            &&& !a.active().is_dirty() && a.collections.len() > 1 ==> {
                &&& without_item(a.collections, b.collections, i)
                &&& b.active_collection == (if i < b.collections.len() {
                    i
                } else {
                    i - 1
                })
                &&& b.close_confirm is None
                &&& asked == EffectModel::Nothing
            }
            &&& !a.active().is_dirty() && a.collections.len() == 1 ==> {
                &&& b.collections.len() == 1
                &&& b.collections[0].id == a.collections[0].id
                &&& b.collections[0].load_state is NoPathProvided
                &&& b.collections[0].load_state->discovered.len() == 0
                &&& b.collections[0].run_history.dom() =~= Set::<usize>::empty()
                &&& b.collections[0].dirty_requests =~= Set::<usize>::empty()
                &&& asked == (EffectModel::Discover { collection_id: a.collections[0].id })
            }
            &&& a.active().is_dirty() ==> {
                &&& b.collections == a.collections
                &&& b.close_confirm is Some
                &&& b.close_confirm->0.collection_id == a.active().id
                &&& asked == EffectModel::Nothing
            }
        }),
{
    lemma_active_position(a);
}

proof fn lemma_active_position(a: AppModel)
    requires
        a.tabs_valid(),
    ensures
        position(a.collections, a.active().id)
            == a.active_collection,
{
    let i = a.active_collection as int;
    assert forall|j: int| 0 <= j < i implies (#[trigger] a.collections[j]).id != a.active().id by {
        assert(a.collections[j].id != a.collections[i].id);
    }
    lemma_position_unique(a.collections, a.active().id, i);
}

/// Saying yes to the question about closing takes out the tab that was asked
/// about, wherever it stands, and the others stay in their order; saying no
/// leaves every tab.
#[verifier::spinoff_prover]
pub proof fn law_a_confirmed_close_takes_out_the_tab_in_question(a: AppModel, k: int)
    requires
        a.tabs_valid(),
        a.collections.len() > 1,
        a.collections.len() <= usize::MAX,
        a.close_confirm is Some,
        0 <= k < a.collections.len(),
        a.collections[k].id == a.close_confirm->0.collection_id,
    ensures
        ({
            let b = app_updated(a, Message::ConfirmCloseCollection).0;
            &&& without_item(a.collections, b.collections, k)
            &&& b.close_confirm is None
            &&& b.active_collection < b.collections.len()
            &&& a.active_collection < b.collections.len() ==> b.active_collection
                == a.active_collection
        }),
        app_updated(a, Message::CancelCloseCollection).0 == (AppModel { close_confirm: None, ..a }),
{
    lemma_closed_at(AppModel { close_confirm: None, ..a }, k);
}

proof fn lemma_closed_at(a: AppModel, k: int)
    requires
        a.tabs_valid(),
        a.collections.len() > 1,
        a.collections.len() <= usize::MAX,
        0 <= k < a.collections.len(),
    ensures
        ({
            let b = session_closed(a, a.collections[k].id).0;
            &&& without_item(a.collections, b.collections, k)
            &&& b == (AppModel {
                collections: b.collections,
                active_collection: b.active_collection,
                ..a
            })
            &&& b.active_collection < b.collections.len()
            &&& a.active_collection < b.collections.len() ==> b.active_collection
                == a.active_collection
        }),
{
    let id = a.collections[k].id;
    assert forall|j: int| 0 <= j < k implies (#[trigger] a.collections[j]).id != id by {
        assert(a.collections[j].id != a.collections[k].id);
    }
    lemma_position_unique(a.collections, id, k);
}

/// An opened collection stands in a tab of its own behind the others, which
/// stay as they are; the tab is active, under an id that no other has, on its
/// first request, with nothing run, marked or open in it. One that could not
/// be opened opens no tab, and the prompt says why.
#[verifier::spinoff_prover]
pub proof fn law_an_opened_collection_gets_a_tab_of_its_own(a: AppModel, msg: Message)
    requires
        a.tabs_valid(),
        msg is CollectionOpened,
        a.next_id < u64::MAX,
        a.collections.len() < usize::MAX,
    ensures
        ({
            let b = app_updated(a, msg).0;
            let opened = b.collections.last();
            &&& msg->CollectionOpened_result is Ok ==> {
                &&& with_one_more(a.collections, b.collections)
                &&& b.active_collection == a.collections.len()
                &&& b.open_collection_prompt is None
                &&& forall|i: int|
                    0 <= i < a.collections.len() ==> (#[trigger] a.collections[i]).id != opened.id
                &&& opened.load_state is Loaded
                &&& opened.load_state->document == msg->CollectionOpened_result->Ok_0@
                &&& opened.load_state->selected == 0
                &&& opened.load_state->path == msg->CollectionOpened_path@
                &&& opened.load_state->base_dir == msg->CollectionOpened_base_dir@
                &&& opened.run_state == RunState::Idle
                &&& opened.edit_mode is None && opened.request_filter is None
                &&& opened.environment_overlay is None && opened.history_overlay is None
                &&& opened.active_environment is None
                &&& opened.run_history.dom() =~= Set::<usize>::empty()
                &&& opened.dirty_requests =~= Set::<usize>::empty()
                &&& opened.environments.len() == msg->CollectionOpened_environments@.len()
                &&& forall|i: int|
                    0 <= i < opened.environments.len() ==> #[trigger] opened.environments[i]
                        == msg->CollectionOpened_environments@[i]@
            }
            &&& msg->CollectionOpened_result is Err ==> {
                &&& b.collections == a.collections
                &&& b.active_collection == a.active_collection
                &&& a.open_collection_prompt is Some ==> b.open_collection_prompt is Some
                    && b.open_collection_prompt->0.path == a.open_collection_prompt->0.path
                    && b.open_collection_prompt->0.error == Some(
                    msg->CollectionOpened_result->Err_0@,
                )
            }
        }),
{
}

} // verus!
