//! Deleting requests.
use vstd::prelude::*;

use crate::document::{DocumentModel, document_valid, lemma_document_problem};
use crate::laws::browsing::browsing;
use crate::laws::rows::without_item;
use crate::state::{EffectModel, Message, RunState, SessionModel};
use crate::update::session_updated;
use crate::update::request_edit::{
    deletable, delete_confirmed, delete_requested, delete_saved, document_without, shifted, unshifted,
};

verus! {

/// What is remembered of the requests that are left follows them through a
/// deletion: marks, past runs and counts stand at the new place of the request
/// they stood at before.
pub proof fn law_what_is_remembered_follows_its_request(
    s: SessionModel,
    index: usize,
    i: usize,
)
    requires
        s.delete_confirm is Some,
        s.load_state is Loaded,
        deletable(s.load_state->document, index as int),
        i < s.load_state->document.requests().len(),
        i != index,
    ensures
        ({
            let before = s.load_state->document;
            let after = document_without(before, index as int);
            let t = delete_saved(s, index, after, Ok(()));
            let place = shifted(i, index);
            &&& place < after.requests().len()
            &&& t.load_state->document.requests()[place as int] == before.requests()[i as int]
            &&& t.dirty_requests.contains(place) == s.dirty_requests.contains(i)
            &&& t.run_history.contains_key(place) == s.run_history.contains_key(i)
            &&& s.run_history.contains_key(i) ==> t.run_history[place] == s.run_history[i]
            &&& t.run_history_dropped.contains_key(place) == s.run_history_dropped.contains_key(i)
            &&& s.run_history_dropped.contains_key(i) ==> t.run_history_dropped[place]
                == s.run_history_dropped[i]
        }),
{
    let place = shifted(i, index);
    assert(unshifted(place, index) == i);
}

/// Deleting asks first, about the selected request and by its name; nothing is
/// deleted by asking. The only request is never asked about.
pub proof fn law_a_deletion_asks_about_the_selected_request(s: SessionModel)
    requires
        browsing(s),
        s.request_selected(),
    ensures
        ({
            let t = delete_requested(s);
            let requests = s.load_state->document.requests();
            let request = requests[s.load_state->selected as int];
            &&& t == (SessionModel { delete_confirm: t.delete_confirm, ..s })
            &&& t.delete_confirm is Some <==> s.load_state->document is Collection
                && requests.len() > 1
            &&& t.delete_confirm is Some ==> {
                &&& t.delete_confirm->0.index == s.load_state->selected
                &&& request.name is Some ==> t.delete_confirm->0.prompt.message == "Delete '"@
                    + request.name->0 + "'? This cannot be undone."@
                &&& t.delete_confirm->0.prompt.error is None
            }
        }),
{
}

/// What is written for a deletion is the document without the request that was
/// asked about, the others in their order, for this session and to its file.
/// Until it is written the session stays as it is, and the question withdrawn
/// leaves no trace.
pub proof fn law_a_deletion_writes_the_others(s: SessionModel)
    requires
        s.delete_confirm is Some,
        s.load_state is Loaded,
        s.load_state->document is Collection,
        s.load_state->document.requests().len() > 1,
        s.delete_confirm->0.index < s.load_state->document.requests().len(),
    ensures
        ({
            let (t, asked) = delete_confirmed(s);
            let index = s.delete_confirm->0.index;
            let written = asked->SaveDelete_document;
            &&& t.load_state == s.load_state
            &&& t.dirty_requests == s.dirty_requests && t.run_history == s.run_history
            &&& asked is SaveDelete || asked == EffectModel::Nothing
            &&& asked is SaveDelete ==> {
                &&& t == s
                &&& asked->SaveDelete_collection_id == s.id
                &&& asked->SaveDelete_path == s.load_state->path.text
                &&& asked->SaveDelete_index == index
                &&& without_item(
                    s.load_state->document.requests(),
                    written.requests(),
                    index as int,
                )
                &&& written is Collection
                &&& written->name == s.load_state->document->name
                &&& document_valid(written)
            }
            &&& asked == EffectModel::Nothing ==> !document_valid(
                document_without(s.load_state->document, index as int),
            ) && t.delete_confirm is Some && t.delete_confirm->0.prompt.error is Some
        }),
        session_updated(s, Message::CancelDelete).0 == (SessionModel { delete_confirm: None, ..s }),
        session_updated(s, Message::ConfirmDelete) == delete_confirmed(s),
{
    lemma_document_problem(
        document_without(s.load_state->document, s.delete_confirm->0.index as int),
    );
}

/// Once a deletion is written, the selected request is the one that stood
/// right in front of the deleted one, and the first where the first was
/// deleted.
pub proof fn law_the_request_in_front_is_selected(s: SessionModel, k: usize, after: DocumentModel)
    requires
        s.delete_confirm is Some,
        s.load_state is Loaded,
        s.load_state->document.requests().len() <= usize::MAX,
        without_item(s.load_state->document.requests(), after.requests(), k as int),
    ensures
        ({
            let t = delete_saved(s, k, after, Ok(()));
            let before = s.load_state->document.requests();
            &&& t.load_state is Loaded
            &&& t.load_state->document == after
            &&& t.load_state->path == s.load_state->path
            &&& t.load_state->base_dir == s.load_state->base_dir
            &&& k > 0 ==> t.load_state->selected == k - 1
            &&& k > 0 ==> after.requests()[t.load_state->selected as int] == before[k - 1]
            &&& k == 0 ==> t.load_state->selected == 0
        }),
{
}

/// Of the marks, past runs and counts after a deletion each was one of another
/// request before: what stood at the deleted one is gone, what stood in front
/// of it stays in its place, and what stood behind it has moved up by one.
pub proof fn law_what_is_remembered_moves_up(s: SessionModel, k: usize, after: DocumentModel)
    requires
        s.delete_confirm is Some,
        s.load_state is Loaded,
    ensures
        ({
            let t = delete_saved(s, k, after, Ok(()));
            &&& forall|i: usize|
                i < k ==> #[trigger] t.dirty_requests.contains(i) == s.dirty_requests.contains(i)
            &&& forall|i: usize|
                k <= i < usize::MAX ==> #[trigger] t.dirty_requests.contains(i)
                    == s.dirty_requests.contains((i + 1) as usize)
            &&& forall|i: usize|
                i < k ==> #[trigger] t.run_history.contains_key(i) == s.run_history.contains_key(i)
            &&& forall|i: usize|
                k <= i < usize::MAX ==> #[trigger] t.run_history.contains_key(i)
                    == s.run_history.contains_key((i + 1) as usize)
            &&& forall|i: usize|
                i < k && s.run_history.contains_key(i) ==> #[trigger] t.run_history[i]
                    == s.run_history[i]
            &&& forall|i: usize|
                k <= i < usize::MAX && s.run_history.contains_key((i + 1) as usize)
                    ==> #[trigger] t.run_history[i] == s.run_history[(i + 1) as usize]
            &&& forall|i: usize|
                i < k && s.run_history_dropped.contains_key(i)
                    ==> #[trigger] t.run_history_dropped[i] == s.run_history_dropped[i]
            &&& forall|i: usize|
                k <= i < usize::MAX && s.run_history_dropped.contains_key((i + 1) as usize)
                    ==> #[trigger] t.run_history_dropped[i] == s.run_history_dropped[(i
                    + 1) as usize]
        }),
{
}

/// After a deletion a request is selected, and there is one request less.
pub proof fn law_a_deletion_keeps_a_selection(s: SessionModel, index: usize)
    requires
        s.delete_confirm is Some,
        s.load_state is Loaded,
        deletable(s.load_state->document, index as int),
        s.load_state->document.requests().len() <= usize::MAX,
    ensures
        ({
            let before = s.load_state->document;
            let after = document_without(before, index as int);
            let t = delete_saved(s, index, after, Ok(()));
            &&& after.requests().len() == before.requests().len() - 1
            &&& t.request_selected()
            &&& t.delete_confirm is None
            &&& t.run_state == RunState::Idle
        }),
{
}

/// A deletion that could not be written leaves the document and everything
/// remembered of it as they were.
pub proof fn law_a_failed_deletion_changes_nothing(
    s: SessionModel,
    index: usize,
    document: DocumentModel,
    error: Seq<char>,
)
    ensures
        ({
            let t = delete_saved(s, index, document, Err(error));
            &&& t.load_state == s.load_state
            &&& t.dirty_requests == s.dirty_requests
            &&& t.run_history == s.run_history
            &&& t.run_history_dropped == s.run_history_dropped
            &&& t.delete_confirm is Some == s.delete_confirm is Some
        }),
{
}

} // verus!
