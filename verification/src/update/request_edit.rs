//! Editing, adding and deleting the requests of a loaded document.
use std::collections::{HashMap, HashSet};

use vstd::prelude::*;

use crate::document::{
    Collection, Document, DocumentModel, Method, Request, RequestModel, blank_request_model,
    document_problem, method_named, bad_method_text, requests_view, validate_document,
    validate_method_text,
};
use crate::edit::{
    AssertionRowModel, BodyEdit, BodyEditModel, EditField, EditModel, EditState, RowChange,
    auth_of, form_for, indented_body, pairs_of, row_pairs,
};
use crate::outside::{json_read, read_json, result_text, yaml_error, yaml_problem};
use crate::prompt::{ConfirmPrompt, prompt_asking};
use crate::state::{
    CollectionSession, DeleteConfirm, DeleteConfirmModel, Effect, EffectModel, LoadModel,
    LoadState, PendingNewRequest, PendingNewRequestModel, RunState, SessionModel, history_view,
};
use crate::text::{
    contains_name, decimal, lemma_decimal_injective, non_empty, non_empty_text, opt_text, texts,
    trim, trim_text, wide_decimal_string,
};
use crate::text_field::{CursorMove, TextEdit};

verus! {

broadcast use {vstd::std_specs::hash::group_hash_axioms, vstd::string::group_string_axioms};

// ---------------------------------------------------------------------------
// Names
// ---------------------------------------------------------------------------

/// The `k`-th name tried for a new request: the base itself, then the base
/// with 2, 3, ... behind it.
pub open spec fn numbered(base: Seq<char>, k: nat) -> Seq<char> {
    if k <= 1 {
        base
    } else {
        base + " "@ + decimal(k)
    }
}

/// The first name from the `k`-th on that is not in `existing`.
pub open spec fn unique_from(base: Seq<char>, existing: Seq<Seq<char>>, k: nat) -> Seq<char>
    decreases existing.len() + 1 - k,
{
    if k > existing.len() || !existing.contains(numbered(base, k)) {
        numbered(base, k)
    } else {
        unique_from(base, existing, k + 1)
    }
}

/// The first of `base`, `base 2`, `base 3`, ... that is not in `existing`.
pub open spec fn unique_name(base: Seq<char>, existing: Seq<Seq<char>>) -> Seq<char> {
    unique_from(base, existing, 1)
}

proof fn lemma_numbered_injective(base: Seq<char>, i: nat, j: nat)
    requires
        1 <= i < j,
    ensures
        numbered(base, i) != numbered(base, j),
{
    reveal_strlit(" ");
    let a = numbered(base, i);
    let b = numbered(base, j);
    if a == b {
        if i == 1 {
            assert(b.len() == base.len() + 1 + decimal(j).len());
        } else {
            let n = (base + " "@).len() as int;
            assert(a.skip(n) =~= decimal(i));
            assert(b.skip(n) =~= decimal(j));
            lemma_decimal_injective(i, j);
        }
    }
}

/// The first `n` numbered names cannot all be among fewer than `n` names.
proof fn lemma_numbered_pigeonhole(base: Seq<char>, existing: Seq<Seq<char>>, n: nat)
    requires
        forall|k: nat| 1 <= k <= n ==> existing.contains(#[trigger] numbered(base, k)),
    ensures
        n <= existing.len(),
{
    let names = Seq::new(n, |i: int| numbered(base, (i + 1) as nat));
    assert(names.no_duplicates()) by {
        assert forall|i: int, j: int| 0 <= i < names.len() && 0 <= j < names.len() && i
            != j implies names[i] != names[j] by {
            if i < j {
                lemma_numbered_injective(base, (i + 1) as nat, (j + 1) as nat);
            } else {
                lemma_numbered_injective(base, (j + 1) as nat, (i + 1) as nat);
            }
        }
    }
    names.unique_seq_to_set();
    vstd::seq_lib::seq_to_set_is_finite(existing);
    vstd::seq_lib::seq_to_set_is_finite(names);
    assert(names.to_set().subset_of(existing.to_set())) by {
        assert forall|x: Seq<char>| names.to_set().contains(x) implies existing.to_set().contains(
            x,
        ) by {
            let i = choose|i: int| 0 <= i < names.len() && names[i] == x;
            assert(existing.contains(numbered(base, (i + 1) as nat)));
        }
    }
    vstd::set_lib::lemma_len_subset(names.to_set(), existing.to_set());
    existing.lemma_cardinality_of_set();
}

proof fn lemma_unique_from(base: Seq<char>, existing: Seq<Seq<char>>, k: nat)
    requires
        k >= 1,
        forall|j: nat| 1 <= j < k ==> existing.contains(#[trigger] numbered(base, j)),
    ensures
        !existing.contains(unique_from(base, existing, k)),
    decreases existing.len() + 1 - k,
{
    if k > existing.len() {
        if existing.contains(numbered(base, k)) {
            lemma_numbered_pigeonhole(base, existing, k);
        }
    } else if existing.contains(numbered(base, k)) {
        lemma_unique_from(base, existing, k + 1);
    }
}

/// A name made up for a new request is none of the names there are.
pub proof fn law_unique_name_is_new(base: Seq<char>, existing: Seq<Seq<char>>)
    ensures
        !existing.contains(unique_name(base, existing)),
{
    lemma_unique_from(base, existing, 1);
}

/// The first of `base`, `base 2`, `base 3`, ... that is not in `existing`.
pub fn unique_request_name(base: &str, existing: &Vec<String>) -> (r: String)
    ensures
        r@ == unique_name(base@, texts(existing@)),
{
    let total: usize = existing.len();
    if !contains_name(existing, base) {
        return base.to_owned();
    }
    let mut k: u128 = 2;
    loop
        invariant
            2 <= k <= existing@.len() + 1,
            existing@.len() <= usize::MAX,
            unique_from(base@, texts(existing@), k as nat) == unique_name(base@, texts(existing@)),
            forall|j: nat|
                1 <= j < k ==> texts(existing@).contains(#[trigger] numbered(base@, j)),
        decreases existing@.len() + 1 - k,
    {
        let mut candidate = base.to_owned();
        candidate.append(" ");
        candidate.append(wide_decimal_string(k).as_str());
        assert(candidate@ == numbered(base@, k as nat));
        if !contains_name(existing, candidate.as_str()) {
            return candidate;
        }
        proof {
            lemma_numbered_pigeonhole(base@, texts(existing@), k as nat);
        }
        k = k + 1;
    }
}

/// The names that requests have, in order.
pub open spec fn names_of(requests: Seq<RequestModel>) -> Seq<Seq<char>>
    decreases requests.len(),
{
    if requests.len() == 0 {
        Seq::empty()
    } else {
        match requests.last().name {
            Some(name) => names_of(requests.drop_last()).push(name),
            None => names_of(requests.drop_last()),
        }
    }
}

// ---------------------------------------------------------------------------
// Documents
// ---------------------------------------------------------------------------

/// The base of the name that a new request gets.
pub open spec fn new_request_base() -> Seq<char> {
    "New request"@
}

/// A document with a new request behind the others. A single request becomes
/// the first of a collection and is named.
pub open spec fn document_with_new_request(document: DocumentModel) -> DocumentModel {
    match document {
        DocumentModel::Single(request) => {
            let kept = RequestModel { name: Some(request.display_name()), ..request };
            DocumentModel::Collection {
                name: None,
                requests: seq![
                    kept,
                    blank_request_model(
                        Some(unique_name(new_request_base(), seq![request.display_name()])),
                    ),
                ],
            }
        },
        DocumentModel::Collection { name, requests } => DocumentModel::Collection {
            name,
            requests: requests.push(
                blank_request_model(Some(unique_name(new_request_base(), names_of(requests)))),
            ),
        },
    }
}

/// Where the new request of [`document_with_new_request`] stands.
pub open spec fn new_request_index(document: DocumentModel) -> int {
    document.requests().len() as int
}

/// A document with the request at `index` replaced; unchanged where there is
/// none.
pub open spec fn document_with_request(
    document: DocumentModel,
    index: int,
    request: RequestModel,
) -> DocumentModel {
    match document {
        DocumentModel::Single(_) => if index == 0 {
            DocumentModel::Single(request)
        } else {
            document
        },
        DocumentModel::Collection { name, requests } => if index < requests.len() {
            DocumentModel::Collection { name, requests: requests.update(index, request) }
        } else {
            document
        },
    }
}

/// Whether a request can be deleted: never the only one.
pub open spec fn deletable(document: DocumentModel, index: int) -> bool {
    match document {
        DocumentModel::Single(_) => false,
        DocumentModel::Collection { requests, .. } => requests.len() > 1 && index
            < requests.len(),
    }
}

/// A document without the request at `index`; unchanged where it is a single
/// request or has none there.
pub open spec fn document_without(document: DocumentModel, index: int) -> DocumentModel {
    match document {
        DocumentModel::Single(_) => document,
        DocumentModel::Collection { name, requests } => if index < requests.len() {
            DocumentModel::Collection { name, requests: requests.remove(index) }
        } else {
            document
        },
    }
}

/// What is selected after the request at `deleted` is gone and `len` are left:
/// the request in front of it, or the first.
pub open spec fn selection_after_delete(deleted: int, len: int) -> int {
    if deleted == 0 {
        0
    } else if len == 0 {
        0
    } else if deleted - 1 <= len - 1 {
        deleted - 1
    } else {
        len - 1
    }
}

/// A name that every request of a document has, and the new one's place:
/// appends a new request to `document` and returns its index.
pub fn add_request_to_document(document: &mut Document) -> (index: usize)
    ensures
        final(document)@ == document_with_new_request(old(document)@),
        index == new_request_index(old(document)@),
{
    match document {
        Document::Single(existing) => {
            let mut kept = existing.clone();
            let name = kept.display_name();
            kept.name = Some(name.clone());
            let mut names: Vec<String> = Vec::new();
            names.push(name);
            assert(texts(names@) =~= seq![existing@.display_name()]);
            let added = Request::blank(Some(unique_request_name("New request", &names)));
            let mut requests: Vec<Request> = Vec::new();
            requests.push(kept);
            requests.push(added);
            assert(requests_view(requests@) =~= seq![kept@, added@]);
            *document = Document::Collection(Collection { name: None, requests });
            1
        },
        Document::Collection(collection) => {
            let names = existing_names(&collection.requests);
            let added = Request::blank(Some(unique_request_name("New request", &names)));
            let index: usize = collection.requests.len();
            let ghost before = requests_view(collection.requests@);
            collection.requests.push(added);
            assert(requests_view(collection.requests@) =~= before.push(added@));
            index
        },
    }
}

/// The names that requests have, in order.
fn existing_names(requests: &Vec<Request>) -> (names: Vec<String>)
    ensures
        texts(names@) == names_of(requests_view(requests@)),
{
    let ghost model = requests_view(requests@);
    let mut names: Vec<String> = Vec::new();
    let mut i: usize = 0;
    assert(texts(names@) =~= Seq::<Seq<char>>::empty());
    assert(model.take(0) =~= Seq::<RequestModel>::empty());
    while i < requests.len()
        invariant
            i <= requests@.len(),
            model == requests_view(requests@),
            texts(names@) == names_of(model.take(i as int)),
        decreases requests@.len() - i,
    {
        proof {
            let next = model.take(i + 1);
            assert(next.drop_last() =~= model.take(i as int));
            assert(next.last() == requests@[i as int]@);
        }
        if let Some(name) = &requests[i].name {
            crate::text::push_text(&mut names, name.clone());
        }
        i = i + 1;
    }
    assert(model.take(model.len() as int) =~= model);
    names
}

/// Whether the request at `index` can be deleted.
fn can_delete(document: &Document, index: usize) -> (r: bool)
    ensures
        r == deletable(document@, index as int),
{
    match document {
        Document::Single(_) => false,
        Document::Collection(collection) => collection.requests.len() > 1 && index
            < collection.requests.len(),
    }
}

/// Removes the request at `index`.
fn remove_request(document: &mut Document, index: usize)
    ensures
        final(document)@ == document_without(old(document)@, index as int),
{
    if let Document::Collection(collection) = document {
        if index < collection.requests.len() {
            let ghost before = requests_view(collection.requests@);
            collection.requests.remove(index);
            assert(requests_view(collection.requests@) =~= before.remove(index as int));
        }
    }
}

/// What is selected after the request at `deleted_index` is gone and
/// `new_len` are left.
pub fn new_selection_after_delete(deleted_index: usize, new_len: usize) -> (r: usize)
    ensures
        r == selection_after_delete(deleted_index as int, new_len as int),
{
    if deleted_index == 0 || new_len == 0 {
        0
    } else if deleted_index - 1 <= new_len - 1 {
        deleted_index - 1
    } else {
        new_len - 1
    }
}

/// Replaces the request at `index`, where there is one.
fn replace_request(document: &mut Document, index: usize, request: Request)
    ensures
        final(document)@ == document_with_request(old(document)@, index as int, request@),
{
    match document {
        Document::Single(existing) => {
            if index == 0 {
                *existing = request;
            }
        },
        Document::Collection(collection) => {
            if index < collection.requests.len() {
                let ghost before = requests_view(collection.requests@);
                collection.requests[index] = request;
                assert(requests_view(collection.requests@) =~= before.update(
                    index as int,
                    request@,
                ));
            }
        },
    }
}

// ---------------------------------------------------------------------------
// Writing the form into a request
// ---------------------------------------------------------------------------

/// Whether a text is empty but for whitespace.
pub open spec fn blank(text: Seq<char>) -> bool {
    trim(text).len() == 0
}

/// What reading the form's body as JSON gives; an empty value where the body
/// is not to be read as JSON or is blank.
pub open spec fn body_reading(body: BodyEditModel) -> Result<Seq<char>, Seq<char>> {
    match body {
        BodyEditModel::Editable { text, is_json: true } => if blank(text.value) {
            Ok(Seq::empty())
        } else {
            json_read(text.value)
        },
        _ => Ok(Seq::empty()),
    }
}

/// What is wrong with the form's body, given what reading it as JSON gave:
/// only a JSON body that is neither blank nor JSON is refused.
pub open spec fn body_problem(
    body: BodyEditModel,
    reading: Result<Seq<char>, Seq<char>>,
) -> Option<Seq<char>> {
    match (body, reading) {
        (BodyEditModel::Editable { text, is_json: true }, Err(error)) => if blank(text.value) {
            None
        } else {
            Some("Body is not valid JSON: "@ + error)
        },
        _ => None,
    }
}

/// A request with the form's body written into it, given what reading that as
/// JSON gave. A body that the form only describes is left as it is.
pub open spec fn body_applied(
    request: RequestModel,
    body: BodyEditModel,
    reading: Result<Seq<char>, Seq<char>>,
) -> RequestModel {
    match body {
        BodyEditModel::Unsupported { .. } => request,
        BodyEditModel::Editable { text, is_json } => if blank(text.value) {
            RequestModel { body: None, json: None, ..request }
        } else if is_json {
            match reading {
                Ok(value) => RequestModel { body: None, json: Some(value), ..request },
                Err(_) => request,
            }
        } else {
            RequestModel { body: Some(text.value), json: None, ..request }
        },
    }
}

/// A request with everything the form holds written into it.
pub open spec fn applied(
    edit: EditModel,
    request: RequestModel,
    reading: Result<Seq<char>, Seq<char>>,
) -> RequestModel {
    let named = RequestModel {
        name: non_empty_text(edit.name.value),
        method: match method_named(edit.method.value) {
            Some(method) => method,
            None => request.method,
        },
        url: edit.url.value,
        headers: pairs_of(edit.headers),
        ..request
    };
    RequestModel {
        auth: auth_of(edit.auth),
        assertions: edit.assertions_of(request.assertions),
        capture: edit.captures_of(),
        ..body_applied(named, edit.body, reading)
    }
}

/// What is wrong with the form's body, given what reading it as JSON gave.
pub fn validate_body_for_save(body: &BodyEdit, reading: &Result<String, String>) -> (r: Option<
    String,
>)
    ensures
        opt_text(r) == body_problem(body@, result_text(*reading)),
{
    if let BodyEdit::Editable { text, is_json } = body {
        if *is_json {
            if let Err(error) = reading {
                let trimmed = trim_text(text.value());
                if trimmed.as_str().unicode_len() > 0 {
                    let mut message = "Body is not valid JSON: ".to_owned();
                    message.append(error.as_str());
                    return Some(message);
                }
            }
        }
    }
    None
}

/// What reading the form's body as JSON gives.
pub fn read_body(body: &BodyEdit) -> (r: Result<String, String>)
    ensures
        result_text(r) == body_reading(body@),
{
    if let BodyEdit::Editable { text, is_json } = body {
        if *is_json {
            let trimmed = trim_text(text.value());
            if trimmed.as_str().unicode_len() > 0 {
                return read_json(text.value());
            }
        }
    }
    let nothing = String::new();
    assert(nothing@ =~= Seq::<char>::empty());
    Ok(nothing)
}

/// Writes the form's body into `request`.
pub fn apply_body_edit(request: &mut Request, body: &BodyEdit, reading: &Result<String, String>)
    ensures
        final(request)@ == body_applied(old(request)@, body@, result_text(*reading)),
{
    if let BodyEdit::Editable { text, is_json } = body {
        let trimmed = trim_text(text.value());
        if trimmed.as_str().unicode_len() == 0 {
            request.body = None;
            request.json = None;
        } else if *is_json {
            if let Ok(value) = reading {
                request.json = Some(value.clone());
                request.body = None;
            }
        } else {
            request.body = Some(text.value().to_owned());
            request.json = None;
        }
    }
}

/// Writes everything the form holds into `request`.
pub fn apply_edit_to_request(
    request: &mut Request,
    edit: &EditState,
    reading: &Result<String, String>,
)
    ensures
        final(request)@ == applied(edit@, old(request)@, result_text(*reading)),
{
    request.name = non_empty(edit.name.value());
    if let Ok(method) = validate_method_text(edit.method.value()) {
        request.method = method;
    }
    request.url = edit.url.value().to_owned();
    request.headers = row_pairs(&edit.headers);
    apply_body_edit(request, &edit.body, reading);
    request.auth = edit.auth.to_auth();
    request.assertions = edit.to_assertions(&request.assertions);
    request.capture = edit.to_captures();
}

impl EditState {
    /// The request that the form describes, built on the one it was opened
    /// for.
    pub fn to_request(&self, base: &Request) -> (r: Request)
        ensures
            r@ == applied(self@, base@, body_reading(self@.body)),
    {
        let reading = read_body(&self.body);
        let mut request = base.clone();
        apply_edit_to_request(&mut request, self, &reading);
        request
    }
}

// ---------------------------------------------------------------------------
// What the messages do
// ---------------------------------------------------------------------------

/// Whether a form may open over a session: nothing else is open, and no run is
/// under way.
pub open spec fn form_may_open(s: SessionModel) -> bool {
    &&& s.edit_mode is None
    &&& s.environment_overlay is None
    &&& s.run_state != RunState::InFlight
}

/// A session with the selected request's form open.
pub open spec fn edit_entered(s: SessionModel) -> SessionModel {
    match s.load_state {
        LoadModel::Loaded { document, selected, .. } => if form_may_open(s) && selected
            < document.requests().len() {
            let request = document.requests()[selected as int];
            SessionModel {
                edit_mode: Some(form_for(request, indented_body(request))),
                ..s
            }
        } else {
            s
        },
        _ => s,
    }
}

/// Whether nothing in the form is known to be wrong.
pub open spec fn can_save(edit: EditModel) -> bool {
    &&& edit.method_error is None
    &&& edit.body_error is None
    &&& forall|i: int|
        0 <= i < edit.assertions.len() ==> (#[trigger] edit.assertions[i]).value_error is None
}

/// The form as a save attempt finds it: the body checked, the last failure
/// forgotten.
pub open spec fn save_checked(
    edit: EditModel,
    reading: Result<Seq<char>, Seq<char>>,
) -> EditModel {
    EditModel { body_error: body_problem(edit.body, reading), save_error: None, ..edit }
}

/// The document that a save would write.
pub open spec fn save_candidate(
    edit: EditModel,
    document: DocumentModel,
    selected: usize,
    reading: Result<Seq<char>, Seq<char>>,
) -> DocumentModel {
    if selected < document.requests().len() {
        document_with_request(
            document,
            selected as int,
            applied(edit, document.requests()[selected as int], reading),
        )
    } else {
        document
    }
}

/// What a save attempt does, given what reading the body as JSON gave: the
/// session after it, and the document to write where there is one.
pub open spec fn save_requested(
    s: SessionModel,
    reading: Result<Seq<char>, Seq<char>>,
) -> (SessionModel, EffectModel) {
    match s.edit_mode {
        None => (s, EffectModel::Nothing),
        Some(edit) => {
            let checked = save_checked(edit, reading);
            let waiting = SessionModel { edit_mode: Some(checked), ..s };
            match s.load_state {
                LoadModel::Loaded { document, selected, path, .. } => if can_save(checked) {
                    let candidate = save_candidate(checked, document, selected, reading);
                    match document_problem(candidate) {
                        Some(problem) => (
                            SessionModel {
                                edit_mode: Some(
                                    EditModel { save_error: Some(problem), ..checked },
                                ),
                                ..s
                            },
                            EffectModel::Nothing,
                        ),
                        None => (
                            waiting,
                            EffectModel::SaveEdit {
                                collection_id: s.id,
                                path: path.text,
                                document: candidate,
                            },
                        ),
                    }
                } else {
                    (waiting, EffectModel::Nothing)
                },
                _ => (waiting, EffectModel::Nothing),
            }
        },
    }
}

/// A session after a document was written, or not, for its form.
pub open spec fn edit_saved(
    s: SessionModel,
    document: DocumentModel,
    written: Result<(), Seq<char>>,
) -> SessionModel {
    match (s.edit_mode, s.load_state) {
        (Some(edit), LoadModel::Loaded { selected, base_dir, path, .. }) => match written {
            Ok(_) => SessionModel {
                load_state: LoadModel::Loaded { document, selected, base_dir, path },
                dirty_requests: s.dirty_requests.remove(selected),
                edit_mode: None,
                pending_new_request: None,
                ..s
            },
            Err(error) => SessionModel {
                edit_mode: Some(EditModel { save_error: Some(error), ..edit }),
                ..s
            },
        },
        _ => s,
    }
}

/// A session with its form given up. A request that was added for it goes too,
/// and with it a run that finished while it was selected.
pub open spec fn edit_cancelled(s: SessionModel) -> SessionModel {
    if s.edit_mode is None {
        s
    } else {
        let closed = SessionModel { edit_mode: None, pending_new_request: None, ..s };
        match s.load_state {
            LoadModel::Loaded { document, selected, base_dir, path } => {
                let unmarked = SessionModel {
                    dirty_requests: s.dirty_requests.remove(selected),
                    ..closed
                };
                match s.pending_new_request {
                    Some(pending) => (SessionModel {
                        load_state: LoadModel::Loaded {
                            document: pending.document_before,
                            selected: pending.previous_selected,
                            base_dir,
                            path,
                        },
                        ..unmarked
                    }).settled(),
                    None => unmarked,
                }
            },
            _ => closed,
        }
    }
}

/// A session with a new request added, selected, and open in the form.
pub open spec fn request_added(s: SessionModel) -> SessionModel {
    match s.load_state {
        LoadModel::Loaded { document, selected, base_dir, path } => if form_may_open(s) {
            let grown = document_with_new_request(document);
            let index = new_request_index(document) as usize;
            let request = grown.requests()[index as int];
            SessionModel {
                load_state: LoadModel::Loaded { document: grown, selected: index, base_dir, path },
                dirty_requests: s.dirty_requests.insert(index),
                pending_new_request: Some(
                    PendingNewRequestModel {
                        previous_selected: selected,
                        document_before: document,
                    },
                ),
                run_state: RunState::Idle,
                response_scroll: 0,
                reveal_captures: false,
                edit_mode: Some(form_for(request, indented_body(request))),
                ..s
            }
        } else {
            s
        },
        _ => s,
    }
}

/// The question that is asked before a request is deleted.
pub open spec fn delete_question(name: Option<Seq<char>>) -> Seq<char> {
    let shown = match name {
        Some(name) => name,
        None => "(unnamed)"@,
    };
    "Delete '"@ + shown + "'? This cannot be undone."@
}

/// A session asking whether to delete the selected request.
pub open spec fn delete_requested(s: SessionModel) -> SessionModel {
    match s.load_state {
        LoadModel::Loaded { document, selected, .. } => if form_may_open(s)
            && s.delete_confirm is None && deletable(document, selected as int) {
            SessionModel {
                delete_confirm: Some(
                    DeleteConfirmModel {
                        index: selected,
                        prompt: prompt_asking(
                            delete_question(document.requests()[selected as int].name),
                        ),
                    },
                ),
                ..s
            }
        } else {
            s
        },
        _ => s,
    }
}

/// A session with an error noted in the question about a deletion.
pub open spec fn delete_failed(s: SessionModel, error: Seq<char>) -> SessionModel {
    match s.delete_confirm {
        Some(confirm) => SessionModel {
            delete_confirm: Some(
                DeleteConfirmModel {
                    prompt: crate::prompt::ConfirmPromptModel {
                        error: Some(error),
                        ..confirm.prompt
                    },
                    ..confirm
                },
            ),
            ..s
        },
        None => s,
    }
}

/// What confirming a deletion does: the session after it, and the document to
/// write where there is one.
pub open spec fn delete_confirmed(s: SessionModel) -> (SessionModel, EffectModel) {
    match s.delete_confirm {
        None => (s, EffectModel::Nothing),
        Some(confirm) => {
            let closed = SessionModel { delete_confirm: None, ..s };
            match s.load_state {
                LoadModel::Loaded { document, path, .. } => if deletable(
                    document,
                    confirm.index as int,
                ) {
                    let candidate = document_without(document, confirm.index as int);
                    match document_problem(candidate) {
                        Some(problem) => (delete_failed(s, problem), EffectModel::Nothing),
                        None => (
                            s,
                            EffectModel::SaveDelete {
                                collection_id: s.id,
                                path: path.text,
                                index: confirm.index,
                                document: candidate,
                            },
                        ),
                    }
                } else {
                    (closed, EffectModel::Nothing)
                },
                _ => (closed, EffectModel::Nothing),
            }
        },
    }
}

/// Where the request at `index` stands after the one at `deleted` is gone.
pub open spec fn shifted(index: usize, deleted: usize) -> usize {
    if index > deleted {
        (index - 1) as usize
    } else {
        index
    }
}

/// Which request stood where the one at `index` stands after the one at
/// `deleted` was taken out.
pub open spec fn unshifted(index: usize, deleted: usize) -> int {
    if index >= deleted {
        index + 1
    } else {
        index as int
    }
}

/// A set of request indices that follows its requests through a deletion.
pub open spec fn reindexed_set(indices: Set<usize>, deleted: usize) -> Set<usize> {
    Set::new(
        |i: usize|
            unshifted(i, deleted) <= usize::MAX && indices.contains(unshifted(i, deleted) as usize),
    )
}

/// A map from request indices that follows its requests through a deletion.
pub open spec fn reindexed_map<V>(map: Map<usize, V>, deleted: usize) -> Map<usize, V> {
    Map::new(
        |i: usize|
            unshifted(i, deleted) <= usize::MAX && map.contains_key(unshifted(i, deleted) as usize),
        |i: usize| map[unshifted(i, deleted) as usize],
    )
}

/// A session after a document was written, or not, for a deletion.
pub open spec fn delete_saved(
    s: SessionModel,
    index: usize,
    document: DocumentModel,
    written: Result<(), Seq<char>>,
) -> SessionModel {
    match (s.delete_confirm, s.load_state) {
        (Some(confirm), LoadModel::Loaded { base_dir, path, .. }) => match written {
            Ok(_) => SessionModel {
                load_state: LoadModel::Loaded {
                    document,
                    selected: selection_after_delete(
                        index as int,
                        document.requests().len() as int,
                    ) as usize,
                    base_dir,
                    path,
                },
                dirty_requests: reindexed_set(s.dirty_requests, index),
                run_history: reindexed_map(s.run_history, index),
                run_history_dropped: reindexed_map(s.run_history_dropped, index),
                delete_confirm: None,
                run_state: RunState::Idle,
                response_scroll: 0,
                reveal_captures: false,
                ..s
            },
            Err(error) => delete_failed(s, error),
        },
        _ => s,
    }
}

/// A session with the selected request marked as changed.
pub open spec fn marked_dirty(s: SessionModel) -> SessionModel {
    match s.load_state {
        LoadModel::Loaded { selected, .. } => SessionModel {
            dirty_requests: s.dirty_requests.insert(selected),
            ..s
        },
        _ => s,
    }
}

/// What is said about a method's text while it is typed.
pub open spec fn method_problem(text: Seq<char>) -> Option<Seq<char>> {
    match method_named(text) {
        Some(_) => None,
        None => Some(bad_method_text(text)),
    }
}

/// The form after a change to the text that has the focus, with what is
/// checked while typing checked again.
pub open spec fn form_edited(edit: EditModel, change: TextEdit) -> EditModel {
    match edit.field_at(edit.focus) {
        None => edit,
        Some(field) => {
            let after = field.edited(change);
            let typed = EditModel { dirty: true, ..edit.with_field(edit.focus, after) };
            match edit.focus {
                EditField::Method => EditModel {
                    method_error: method_problem(after.value),
                    ..typed
                },
                EditField::Body => EditModel { body_error: None, ..typed },
                EditField::AssertionValue(i) => EditModel {
                    assertions: typed.assertions.update(
                        i as int,
                        AssertionRowModel {
                            value_error: yaml_problem(after.value),
                            ..typed.assertions[i as int]
                        },
                    ),
                    ..typed
                },
                _ => typed,
            }
        },
    }
}

/// A session after a change to the text that has the focus in its form.
pub open spec fn text_edited(s: SessionModel, change: TextEdit) -> SessionModel {
    match s.edit_mode {
        None => s,
        Some(edit) => if edit.field_at(edit.focus) is None {
            s
        } else {
            marked_dirty(SessionModel { edit_mode: Some(form_edited(edit, change)), ..s })
        },
    }
}

/// A session after a change to the rows of its form.
pub open spec fn rows_edited(s: SessionModel, change: RowChange) -> SessionModel {
    match s.edit_mode {
        None => s,
        Some(edit) => marked_dirty(
            SessionModel {
                edit_mode: Some(EditModel { dirty: true, ..edit.rows_changed(change) }),
                ..s
            },
        ),
    }
}

/// A session after a move of the cursor in its form.
pub open spec fn cursor_moved(s: SessionModel, step: CursorMove) -> SessionModel {
    match s.edit_mode {
        None => s,
        Some(edit) => match edit.field_at(edit.focus) {
            None => s,
            Some(field) => SessionModel {
                edit_mode: Some(edit.with_field(edit.focus, field.moved(step))),
                ..s
            },
        },
    }
}

/// A session after a move to the side: a fixed choice is turned, in a text the
/// cursor moves.
pub open spec fn moved_or_turned(s: SessionModel, forward: bool) -> SessionModel {
    match s.edit_mode {
        None => s,
        Some(edit) => match edit.turned(forward) {
            Some(turned) => marked_dirty(
                SessionModel { edit_mode: Some(EditModel { dirty: true, ..turned }), ..s },
            ),
            None => cursor_moved(
                s,
                if forward {
                    CursorMove::Right
                } else {
                    CursorMove::Left
                },
            ),
        },
    }
}

// ---------------------------------------------------------------------------
// Following requests through a deletion
// ---------------------------------------------------------------------------

/// The elements of a set, each once.
fn elements(set: &HashSet<usize>) -> (r: Vec<usize>)
    ensures
        r@.to_set() == set@,
{
    let mut r: Vec<usize> = Vec::new();
    for index in it: set.iter()
        invariant
            it.seq().unref().to_set() == set@,
            r@.len() == it.index(),
            forall|j: int| 0 <= j < it.index() ==> r@[j] == it.seq().unref()[j],
            it.index() == it.seq().len() ==> r@.to_set() == set@,
    {
        r.push(*index);
        assert(it.index() + 1 == it.seq().len() ==> r@ =~= it.seq().unref());
    }
    r
}

/// The keys of a map, each once.
fn key_list<V>(map: &HashMap<usize, V>) -> (r: Vec<usize>)
    ensures
        r@.to_set() == map@.dom(),
        r@.no_duplicates(),
{
    let mut r: Vec<usize> = Vec::new();
    for key in it: map.keys()
        invariant
            it.seq().unref().to_set() == map@.dom(),
            it.seq().no_duplicates(),
            r@.len() == it.index(),
            forall|j: int| 0 <= j < it.index() ==> r@[j] == *it.seq()[j],
            it.index() == it.seq().len() ==> r@.to_set() == map@.dom(),
    {
        r.push(*key);
        assert(it.index() + 1 == it.seq().len() ==> r@ =~= it.seq().unref());
    }
    r
}

/// `dirty` with every index following its request through the deletion of the
/// one at `deleted_index`, whose own index is dropped.
pub fn reindex_dirty_after_delete(dirty: &HashSet<usize>, deleted_index: usize) -> (r: HashSet<
    usize,
>)
    ensures
        r@ == reindexed_set(dirty@, deleted_index),
{
    let seen = elements(dirty);
    let mut r: HashSet<usize> = HashSet::new();
    let mut i: usize = 0;
    while i < seen.len()
        invariant
            i <= seen@.len(),
            forall|x: usize| #[trigger]
                r@.contains(x) <==> exists|j: int|
                    0 <= j < i && #[trigger] seen@[j] != deleted_index && shifted(
                        seen@[j],
                        deleted_index,
                    ) == x,
        decreases seen@.len() - i,
    {
        let ghost before = r@;
        let index = seen[i];
        if index < deleted_index {
            r.insert(index);
        } else if index > deleted_index {
            r.insert(index - 1);
        }
        assert forall|x: usize| #[trigger]
            r@.contains(x) <==> exists|j: int|
                0 <= j < i + 1 && #[trigger] seen@[j] != deleted_index && shifted(
                    seen@[j],
                    deleted_index,
                ) == x by {
            if r@.contains(x) && !before.contains(x) {
                assert(seen@[i as int] == index);
            }
            if exists|j: int|
                0 <= j < i + 1 && #[trigger] seen@[j] != deleted_index && shifted(
                    seen@[j],
                    deleted_index,
                ) == x {
                let j = choose|j: int|
                    0 <= j < i + 1 && #[trigger] seen@[j] != deleted_index && shifted(
                        seen@[j],
                        deleted_index,
                    ) == x;
                if j < i {
                    assert(before.contains(x));
                }
            }
        }
        i = i + 1;
    }
    assert forall|x: usize| r@.contains(x) <==> reindexed_set(dirty@, deleted_index).contains(
        x,
    ) by {
        lemma_unshifted(x, deleted_index);
        if r@.contains(x) {
            let j = choose|j: int|
                0 <= j < seen@.len() && #[trigger] seen@[j] != deleted_index && shifted(
                    seen@[j],
                    deleted_index,
                ) == x;
            assert(seen@.to_set().contains(seen@[j]));
        }
        if reindexed_set(dirty@, deleted_index).contains(x) {
            let y = unshifted(x, deleted_index) as usize;
            assert(seen@.to_set().contains(y));
            let j = choose|j: int| 0 <= j < seen@.len() && seen@[j] == y;
            assert(seen@[j] != deleted_index);
        }
    }
    assert(r@ =~= reindexed_set(dirty@, deleted_index));
    r
}

proof fn lemma_unshifted(x: usize, deleted: usize)
    ensures
        forall|y: usize|
            (y != deleted && #[trigger] shifted(y, deleted) == x) <==> y as int == unshifted(
                x,
                deleted,
            ),
{
}

/// `history` with every index following its request through the deletion of
/// the one at `deleted_index`, whose own entry is dropped.
pub fn reindex_history_after_delete<V>(
    history: HashMap<usize, V>,
    deleted_index: usize,
) -> (r: HashMap<usize, V>)
    ensures
        r@ == reindexed_map(history@, deleted_index),
{
    let ghost whole = history@;
    let keys = key_list(&history);
    let mut rest = history;
    let mut r: HashMap<usize, V> = HashMap::new();
    let mut i: usize = 0;
    while i < keys.len()
        invariant
            i <= keys@.len(),
            keys@.no_duplicates(),
            keys@.to_set() == whole.dom(),
            forall|j: int|
                i <= j < keys@.len() ==> rest@.contains_key(#[trigger] keys@[j]) && rest@[keys@[j]]
                    == whole[keys@[j]],
            forall|x: usize| #[trigger]
                r@.contains_key(x) <==> exists|j: int|
                    0 <= j < i && #[trigger] keys@[j] != deleted_index && shifted(
                        keys@[j],
                        deleted_index,
                    ) == x,
            forall|j: int|
                0 <= j < i && #[trigger] keys@[j] != deleted_index ==> r@[shifted(
                    keys@[j],
                    deleted_index,
                )] == whole[keys@[j]],
        decreases keys@.len() - i,
    {
        let key = keys[i];
        let ghost before = r@;
        let taken = rest.remove(&key);
        assert(keys@[i as int] == key);
        if let Some(value) = taken {
            if key < deleted_index {
                r.insert(key, value);
            } else if key > deleted_index {
                r.insert(key - 1, value);
            }
        }
        proof {
            assert forall|x: usize| #[trigger]
                r@.contains_key(x) <==> exists|j: int|
                    0 <= j < i + 1 && #[trigger] keys@[j] != deleted_index && shifted(
                        keys@[j],
                        deleted_index,
                    ) == x by {
                if r@.contains_key(x) && !before.contains_key(x) {
                    assert(keys@[i as int] == key);
                }
                if exists|j: int|
                    0 <= j < i + 1 && #[trigger] keys@[j] != deleted_index && shifted(
                        keys@[j],
                        deleted_index,
                    ) == x {
                    let j = choose|j: int|
                        0 <= j < i + 1 && #[trigger] keys@[j] != deleted_index && shifted(
                            keys@[j],
                            deleted_index,
                        ) == x;
                    if j < i {
                        assert(before.contains_key(x));
                    }
                }
            }
            assert forall|j: int| 0 <= j < i + 1 && #[trigger] keys@[j] != deleted_index implies r@[shifted(
                keys@[j],
                deleted_index,
            )] == whole[keys@[j]] by {
                if j < i {
                    lemma_unshifted(shifted(keys@[j], deleted_index), deleted_index);
                    assert(keys@[j] != key);
                    assert(key != deleted_index ==> shifted(key, deleted_index) != shifted(
                        keys@[j],
                        deleted_index,
                    ));
                }
            }
        }
        i = i + 1;
    }
    let ghost wanted = reindexed_map(whole, deleted_index);
    proof {
        assert forall|x: usize| r@.contains_key(x) <==> wanted.contains_key(x) by {
            lemma_unshifted(x, deleted_index);
            if r@.contains_key(x) {
                let j = choose|j: int|
                    0 <= j < keys@.len() && #[trigger] keys@[j] != deleted_index && shifted(
                        keys@[j],
                        deleted_index,
                    ) == x;
                assert(keys@.to_set().contains(keys@[j]));
            }
            if wanted.contains_key(x) {
                let y = unshifted(x, deleted_index) as usize;
                assert(keys@.to_set().contains(y));
                let j = choose|j: int| 0 <= j < keys@.len() && keys@[j] == y;
                assert(keys@[j] != deleted_index);
            }
        }
        assert forall|x: usize| #[trigger] wanted.contains_key(x) implies r@[x] == wanted[x] by {
            lemma_unshifted(x, deleted_index);
            let y = unshifted(x, deleted_index) as usize;
            assert(keys@.to_set().contains(y));
            let j = choose|j: int| 0 <= j < keys@.len() && keys@[j] == y;
            assert(keys@[j] != deleted_index);
            assert(shifted(keys@[j], deleted_index) == x);
        }
        assert(r@ =~= wanted);
    }
    r
}

// ---------------------------------------------------------------------------
// Handlers
// ---------------------------------------------------------------------------

/// A result without a value as a result over characters.
pub open spec fn written_text(r: Result<(), String>) -> Result<(), Seq<char>> {
    match r {
        Ok(_) => Ok(()),
        Err(error) => Err(error@),
    }
}

/// Whether the selection is on a request.
pub fn request_is_selected(state: &CollectionSession) -> (r: bool)
    ensures
        r == state@.request_selected(),
{
    match &state.load_state {
        LoadState::Loaded { document, selected, .. } => *selected < document.len(),
        _ => false,
    }
}

/// The selected request, where there is one.
pub fn selected_request(state: &CollectionSession) -> (r: Option<&Request>)
    ensures
        r is Some <==> state@.request_selected(),
        r is Some ==> r->0@ == state@.load_state->document.requests()[state@.load_state->selected as int],
{
    match &state.load_state {
        LoadState::Loaded { document, selected, .. } => document.get(*selected),
        _ => None,
    }
}

/// Opens the form for the selected request.
pub fn handle_enter_edit_mode(state: &mut CollectionSession)
    ensures
        final(state)@ == edit_entered(old(state)@),
{
    if state.edit_mode.is_none() && state.environment_overlay.is_none() && !matches!(
        state.run_state,
        RunState::InFlight
    ) {
        if let Some(request) = selected_request(state) {
            let edit = EditState::new(request);
            state.edit_mode = Some(edit);
        }
    }
}

/// Whether no assertion row's value is known to be wrong.
fn values_are_fine(edit: &EditState) -> (r: bool)
    ensures
        r == (forall|i: int|
            0 <= i < edit@.assertions.len() ==> (
            #[trigger] edit@.assertions[i]).value_error is None),
{
    let mut i: usize = 0;
    while i < edit.assertions.len()
        invariant
            i <= edit.assertions@.len(),
            forall|j: int|
                0 <= j < i ==> (#[trigger] edit@.assertions[j]).value_error is None,
        decreases edit.assertions@.len() - i,
    {
        assert(edit@.assertions[i as int] == edit.assertions@[i as int]@);
        if edit.assertions[i].value_error.is_some() {
            return false;
        }
        i = i + 1;
    }
    true
}

/// Builds the document that a save of `edit` writes.
pub fn build_save_candidate(
    document: &Document,
    selected: usize,
    edit: &EditState,
    reading: &Result<String, String>,
) -> (r: Document)
    ensures
        r@ == save_candidate(edit@, document@, selected, result_text(*reading)),
{
    let mut candidate = document.clone();
    if let Some(request) = document.get(selected) {
        let mut changed = request.clone();
        apply_edit_to_request(&mut changed, edit, reading);
        replace_request(&mut candidate, selected, changed);
    }
    candidate
}

/// Tries to save the form, given what reading its body as JSON gave. The
/// document to write comes back as the effect.
pub fn save_edit_with(state: &mut CollectionSession, reading: Result<String, String>) -> (effect:
    Effect)
    ensures
        (final(state)@, effect@) == save_requested(old(state)@, result_text(reading)),
{
    let mut edit = match state.edit_mode.take() {
        Some(edit) => edit,
        None => return Effect::Nothing,
    };
    edit.body_error = validate_body_for_save(&edit.body, &reading);
    edit.save_error = None;
    let ready = edit.method_error.is_none() && edit.body_error.is_none() && values_are_fine(&edit);
    let mut effect = Effect::Nothing;
    if ready {
        if let LoadState::Loaded { document, selected, path, .. } = &state.load_state {
            let candidate = build_save_candidate(document, *selected, &edit, &reading);
            match validate_document(&candidate) {
                Some(problem) => {
                    edit.save_error = Some(problem);
                },
                None => {
                    effect = Effect::SaveEdit {
                        collection_id: state.id,
                        path: path.text.clone(),
                        document: candidate,
                    };
                },
            }
        }
    }
    state.edit_mode = Some(edit);
    effect
}

/// Tries to save the form. The document to write comes back as the effect.
pub fn handle_save_edit(state: &mut CollectionSession) -> (effect: Effect)
    ensures
        (final(state)@, effect@) == match old(state)@.edit_mode {
            Some(edit) => save_requested(old(state)@, body_reading(edit.body)),
            None => (old(state)@, EffectModel::Nothing),
        },
{
    let reading = match &state.edit_mode {
        Some(edit) => read_body(&edit.body),
        None => return Effect::Nothing,
    };
    save_edit_with(state, reading)
}

/// Takes the answer to a save of the form.
pub fn handle_edit_saved(
    state: &mut CollectionSession,
    document: Document,
    written: Result<(), String>,
)
    ensures
        final(state)@ == edit_saved(old(state)@, document@, written_text(written)),
{
    if let Some(edit) = &mut state.edit_mode {
        if let LoadState::Loaded { document: loaded, selected, .. } = &mut state.load_state {
            match written {
                Ok(_) => {
                    let index = *selected;
                    *loaded = document;
                    state.dirty_requests.remove(&index);
                    state.edit_mode = None;
                    state.pending_new_request = None;
                },
                Err(error) => {
                    edit.save_error = Some(error);
                },
            }
        }
    }
}

/// Gives the form up.
pub fn handle_cancel_edit(state: &mut CollectionSession)
    ensures
        final(state)@ == edit_cancelled(old(state)@),
{
    if state.edit_mode.is_some() {
        state.edit_mode = None;
        let pending = state.pending_new_request.take();
        if let LoadState::Loaded { document, selected, .. } = &mut state.load_state {
            state.dirty_requests.remove(selected);
            if let Some(pending) = pending {
                *document = pending.document_before;
                *selected = pending.previous_selected;
                state.settle();
            }
        }
    }
}

/// Adds a request and opens the form for it.
pub fn handle_add_request(state: &mut CollectionSession)
    ensures
        final(state)@ == request_added(old(state)@),
{
    if state.edit_mode.is_none() && state.environment_overlay.is_none() && !matches!(
        state.run_state,
        RunState::InFlight
    ) {
        if let LoadState::Loaded { document, selected, .. } = &mut state.load_state {
            let document_before = document.clone();
            let previous_selected = *selected;
            let index = add_request_to_document(document);
            *selected = index;
            let edit = match document.get(index) {
                Some(request) => Some(EditState::new(request)),
                None => None,
            };
            state.dirty_requests.insert(index);
            state.pending_new_request = Some(
                PendingNewRequest { previous_selected, document_before },
            );
            state.run_state = RunState::Idle;
            state.response_scroll = 0;
            state.reveal_captures = false;
            state.edit_mode = edit;
        }
    }
}

/// Asks whether to delete the selected request.
pub fn handle_request_delete(state: &mut CollectionSession)
    ensures
        final(state)@ == delete_requested(old(state)@),
{
    if state.edit_mode.is_none() && state.environment_overlay.is_none()
        && state.delete_confirm.is_none() && !matches!(state.run_state, RunState::InFlight) {
        if let LoadState::Loaded { document, selected, .. } = &state.load_state {
            if can_delete(document, *selected) {
                if let Some(request) = document.get(*selected) {
                    let mut message = "Delete '".to_owned();
                    match &request.name {
                        Some(name) => message.append(name.as_str()),
                        None => message.append("(unnamed)"),
                    }
                    message.append("'? This cannot be undone.");
                    state.delete_confirm = Some(
                        DeleteConfirm { index: *selected, prompt: ConfirmPrompt::new(message) },
                    );
                }
            }
        }
    }
}

/// Keeps the request in question.
pub fn handle_cancel_delete(state: &mut CollectionSession)
    ensures
        final(state)@ == (SessionModel { delete_confirm: None, ..old(state)@ }),
{
    state.delete_confirm = None;
}

/// Starts to delete the request in question. The document to write comes back
/// as the effect.
pub fn handle_confirm_delete(state: &mut CollectionSession) -> (effect: Effect)
    ensures
        (final(state)@, effect@) == delete_confirmed(old(state)@),
{
    let index = match &state.delete_confirm {
        Some(confirm) => confirm.index,
        None => return Effect::Nothing,
    };
    if let LoadState::Loaded { document, path, .. } = &state.load_state {
        if can_delete(document, index) {
            let mut candidate = document.clone();
            remove_request(&mut candidate, index);
            match validate_document(&candidate) {
                Some(problem) => {
                    if let Some(confirm) = &mut state.delete_confirm {
                        confirm.prompt.error = Some(problem);
                    }
                    return Effect::Nothing;
                },
                None => {
                    return Effect::SaveDelete {
                        collection_id: state.id,
                        path: path.text.clone(),
                        index,
                        document: candidate,
                    };
                },
            }
        }
    }
    state.delete_confirm = None;
    Effect::Nothing
}

/// Takes the answer to the save of a deletion.
pub fn handle_delete_saved(
    state: &mut CollectionSession,
    index: usize,
    document: Document,
    written: Result<(), String>,
)
    ensures
        final(state)@ == delete_saved(old(state)@, index, document@, written_text(written)),
{
    if let Some(confirm) = &mut state.delete_confirm {
        if let LoadState::Loaded { document: loaded, selected, .. } = &mut state.load_state {
            match written {
                Ok(_) => {
                    *selected = new_selection_after_delete(index, document.len());
                    *loaded = document;
                    state.dirty_requests = reindex_dirty_after_delete(
                        &state.dirty_requests,
                        index,
                    );
                    let mut history: HashMap<
                        usize,
                        Vec<crate::run::RunHistoryEntry>,
                    > = HashMap::new();
                    std::mem::swap(&mut history, &mut state.run_history);
                    state.run_history = reindex_history_after_delete(history, index);
                    let mut dropped: HashMap<usize, usize> = HashMap::new();
                    std::mem::swap(&mut dropped, &mut state.run_history_dropped);
                    state.run_history_dropped = reindex_history_after_delete(dropped, index);
                    state.delete_confirm = None;
                    state.run_state = RunState::Idle;
                    state.response_scroll = 0;
                    state.reveal_captures = false;
                    assert(history_view(state.run_history@) =~= reindexed_map(
                        history_view(old(state).run_history@),
                        index,
                    ));
                },
                Err(error) => {
                    confirm.prompt.error = Some(error);
                },
            }
        }
    }
}

/// Marks the selected request as changed.
fn mark_dirty(state: &mut CollectionSession)
    ensures
        final(state)@ == marked_dirty(old(state)@),
{
    if let LoadState::Loaded { selected, .. } = &state.load_state {
        state.dirty_requests.insert(*selected);
    }
}

/// Changes the text that has the focus in the form, and checks again what is
/// checked while typing.
pub fn edit_form(edit: &mut EditState, change: TextEdit) -> (r: bool)
    ensures
        r == (old(edit)@.field_at(old(edit)@.focus) is Some),
        final(edit)@ == form_edited(old(edit)@, change),
{
    match edit.focused_field_mut() {
        Some(field) => field.apply(change),
        None => return false,
    }
    edit.dirty = true;
    match edit.focus {
        EditField::Method => {
            edit.method_error = match validate_method_text(edit.method.value()) {
                Ok(_) => None,
                Err(problem) => Some(problem),
            };
        },
        EditField::Body => {
            edit.body_error = None;
        },
        EditField::AssertionValue(index) => {
            assert(edit@.assertions.len() == edit.assertions@.len());
            let problem = yaml_error(edit.assertions[index].value.value());
            edit.set_value_error(index, problem);
        },
        _ => {},
    }
    true
}

/// Changes the text that has the focus in the form.
pub fn edit_mutate(state: &mut CollectionSession, change: TextEdit)
    ensures
        final(state)@ == text_edited(old(state)@, change),
{
    if let Some(edit) = &mut state.edit_mode {
        if edit_form(edit, change) {
            mark_dirty(state);
        }
    }
}

/// Changes the rows of the form.
pub fn edit_state_mutate(state: &mut CollectionSession, change: RowChange)
    ensures
        final(state)@ == rows_edited(old(state)@, change),
{
    if let Some(edit) = &mut state.edit_mode {
        edit.change_rows(change);
        edit.dirty = true;
        mark_dirty(state);
    }
}

/// Moves the cursor in the form.
pub fn edit_move(state: &mut CollectionSession, step: CursorMove)
    ensures
        final(state)@ == cursor_moved(old(state)@, step),
{
    if let Some(edit) = &mut state.edit_mode {
        if let Some(field) = edit.focused_field_mut() {
            field.step(step);
        }
    }
}

/// Turns the fixed choice that has the focus in the form, or moves the cursor.
pub fn edit_move_or_toggle(state: &mut CollectionSession, forward: bool)
    ensures
        final(state)@ == moved_or_turned(old(state)@, forward),
{
    if let Some(edit) = &mut state.edit_mode {
        if edit.toggle_focused(forward) {
            edit.dirty = true;
            mark_dirty(state);
        } else {
            edit_move(
                state,
                if forward {
                    CursorMove::Right
                } else {
                    CursorMove::Left
                },
            );
        }
    }
}

} // verus!
