//! Forms and what is written.
use vstd::prelude::*;

use crate::document::{
    AuthModel, DocumentModel, EnvironmentModel, RequestModel, document_valid,
    lemma_document_problem, lemma_method_named_text,
};
use crate::edit::{
    BodyEditModel, EditModel, auth_for, auth_of, body_for, capture_of, check_of, form_for,
    lemma_pairs_of_rows_for,
};
use crate::state::{EffectModel, Message, SessionModel};
use crate::text::trim;
use crate::update::environment_edit::{variables_of, variables_save_requested, variables_saved};
use crate::update::request_edit::{
    applied, blank, can_save, edit_cancelled, edit_saved, form_may_open, law_unique_name_is_new,
    names_of, new_request_base, new_request_index, request_added, save_candidate, save_checked,
    save_requested, unique_name,
};
use crate::update::session_updated;
use crate::variables_form::EnvironmentEditModel;

verus! {

/// Whether a message works on an open form without ending it.
pub open spec fn edits_form(msg: Message) -> bool {
    match msg {
        Message::EditFocusNext
        | Message::EditFocusPrev
        | Message::AddHeaderRow
        | Message::DeleteHeaderRow
        | Message::AddAssertionRow
        | Message::DeleteAssertionRow
        | Message::AddCaptureRow
        | Message::DeleteCaptureRow
        | Message::EditInsertChar(_)
        | Message::EditBackspace
        | Message::EditDelete
        | Message::EditCursorLeft
        | Message::EditCursorRight
        | Message::EditCursorUp
        | Message::EditCursorDown
        | Message::SaveEdit => true,
        _ => false,
    }
}

/// Nothing that is done in a form changes the document it was opened for, nor
/// the marks on other requests; only the answer that it was written does.
#[verifier::spinoff_prover]
pub proof fn law_a_form_changes_no_document(s: SessionModel, msg: Message)
    requires
        s.edit_mode is Some,
        edits_form(msg),
    ensures
        session_updated(s, msg).0.edit_mode is Some,
        session_updated(s, msg).0.load_state == s.load_state,
        session_updated(s, msg).0.pending_new_request == s.pending_new_request,
        session_updated(s, msg).0.dirty_requests.remove(s.load_state->selected)
            == s.dirty_requests.remove(s.load_state->selected),
{
}

/// A loaded document changes only when another is loaded, when a request is
/// added to it or given up again, and by what was written. Whatever else a
/// session is told leaves the document and its path as they are.
#[verifier::spinoff_prover]
#[verifier::rlimit(60)]
pub proof fn law_nothing_else_changes_the_document(s: SessionModel, msg: Message)
    requires
        s.load_state is Loaded,
        msg !is NoCollectionPath,
        msg !is CollectionLoaded,
        msg !is AddRequest,
        msg !is CancelEdit,
    ensures
        session_updated(s, msg).0.load_state is Loaded,
        session_updated(s, msg).0.load_state->document == s.load_state->document,
        session_updated(s, msg).0.load_state->path == s.load_state->path,
{
}

/// Environments change only when others are loaded, and by what was written.
/// Whatever else a session is told leaves them as they are, also what is typed
/// into a form and given up again.
#[verifier::spinoff_prover]
#[verifier::rlimit(60)]
pub proof fn law_nothing_else_changes_the_environments(s: SessionModel, msg: Message)
    requires
        msg !is EnvironmentsLoaded,
    ensures
        session_updated(s, msg).0.environments == s.environments,
{
}

/// A form that is given up leaves the document and the selection as they were
/// before it was opened: also before the request was added that it was opened
/// for.
pub proof fn law_a_form_given_up_leaves_the_document(s: SessionModel)
    requires
        s.edit_mode is Some,
        s.load_state is Loaded,
    ensures
        ({
            let t = session_updated(s, Message::CancelEdit).0;
            &&& t.edit_mode is None
            &&& t.pending_new_request is None
            &&& !t.dirty_requests.contains(s.load_state->selected)
            &&& s.pending_new_request is None ==> t.load_state == s.load_state
            &&& s.pending_new_request is Some ==> {
                &&& t.load_state is Loaded
                &&& t.load_state->document == s.pending_new_request->0.document_before
                &&& t.load_state->selected == s.pending_new_request->0.previous_selected
            }
        }),
{
}

/// A session that was told one thing after another.
pub open spec fn after_messages(s: SessionModel, messages: Seq<Message>) -> SessionModel
    decreases messages.len(),
{
    if messages.len() == 0 {
        s
    } else {
        session_updated(after_messages(s, messages.drop_last()), messages.last()).0
    }
}

proof fn lemma_edits_keep_what_is_pending(s: SessionModel, edits: Seq<Message>)
    requires
        s.edit_mode is Some,
        forall|i: int| 0 <= i < edits.len() ==> edits_form(#[trigger] edits[i]),
    ensures
        after_messages(s, edits).edit_mode is Some,
        after_messages(s, edits).load_state == s.load_state,
        after_messages(s, edits).pending_new_request == s.pending_new_request,
        after_messages(s, edits).dirty_requests.remove(s.load_state->selected)
            == s.dirty_requests.remove(s.load_state->selected),
    decreases edits.len(),
{
    if edits.len() > 0 {
        let before = edits.drop_last();
        assert forall|i: int| 0 <= i < before.len() implies edits_form(#[trigger] before[i]) by {
            assert(before[i] == edits[i]);
        }
        lemma_edits_keep_what_is_pending(s, before);
        law_a_form_changes_no_document(after_messages(s, before), edits.last());
    }
}

/// A request that is added and given up again, whatever was done in its form
/// in between, is gone without a trace: the document, the selection and the
/// marks are those of before, and its own place is not marked.
pub proof fn law_an_added_request_can_be_given_up(s: SessionModel, edits: Seq<Message>)
    requires
        s.load_state is Loaded,
        form_may_open(s),
        forall|i: int| 0 <= i < edits.len() ==> edits_form(#[trigger] edits[i]),
    ensures
        ({
            let index = new_request_index(s.load_state->document) as usize;
            let t = edit_cancelled(after_messages(request_added(s), edits));
            &&& t.load_state == s.load_state
            &&& t.dirty_requests == s.dirty_requests.remove(index)
            &&& !s.dirty_requests.contains(index) ==> t.dirty_requests == s.dirty_requests
            &&& t.edit_mode is None
            &&& t.pending_new_request is None
        }),
{
    let index = new_request_index(s.load_state->document) as usize;
    let added = request_added(s);
    lemma_edits_keep_what_is_pending(added, edits);
    let t = edit_cancelled(after_messages(added, edits));
    assert(added.load_state->selected == index);
    assert(added.dirty_requests.remove(index) =~= s.dirty_requests.remove(index));
    assert(!s.dirty_requests.contains(index) ==> s.dirty_requests.remove(index)
        =~= s.dirty_requests);
}

/// An added request stands behind the others, which it leaves as they were but
/// for the name that a single request gets; it has a name that no other has;
/// and it is selected and open in the form.
pub proof fn law_an_added_request_is_new(s: SessionModel)
    requires
        s.load_state is Loaded,
        form_may_open(s),
        s.load_state->document.requests().len() < usize::MAX,
    ensures
        ({
            let before = s.load_state->document.requests();
            let t = request_added(s);
            let after = t.load_state->document.requests();
            &&& after.len() == before.len() + 1
            &&& t.load_state->selected == before.len()
            &&& after[before.len() as int].name is Some
            &&& forall|i: int|
                0 <= i < before.len() ==> (#[trigger] after[i]).name
                    != after[before.len() as int].name
            &&& s.load_state->document is Collection ==> forall|i: int|
                0 <= i < before.len() ==> #[trigger] after[i] == before[i]
            &&& t.edit_mode is Some
        }),
{
    match s.load_state->document {
        DocumentModel::Single(request) => {
            let existing = seq![request.display_name()];
            law_unique_name_is_new(new_request_base(), existing);
            assert(existing[0] == request.display_name());
        },
        DocumentModel::Collection { requests, .. } => {
            let existing = names_of(requests);
            law_unique_name_is_new(new_request_base(), existing);
            assert forall|i: int| 0 <= i < requests.len() implies requests[i].name != Some(
                unique_name(new_request_base(), existing),
            ) by {
                lemma_names_of(requests, i);
            }
        },
    }
}

proof fn lemma_names_of(requests: Seq<RequestModel>, i: int)
    requires
        0 <= i < requests.len(),
    ensures
        requests[i].name is Some ==> names_of(requests).contains(requests[i].name->0),
    decreases requests.len(),
{
    let rest = requests.drop_last();
    if requests[i].name is Some {
        let name = requests[i].name->0;
        if i < rest.len() {
            lemma_names_of(rest, i);
            assert(rest[i] == requests[i]);
            let j = names_of(rest).index_of(name);
            assert(names_of(requests)[j] == name);
        } else {
            assert(names_of(requests)[names_of(rest).len() as int] == name);
        }
    }
}

/// A save that is refused writes nothing, changes no document and keeps the
/// form open: because something in the form is wrong, or because the document
/// would not be valid.
pub proof fn law_a_refused_save_writes_nothing(
    s: SessionModel,
    reading: Result<Seq<char>, Seq<char>>,
)
    requires
        s.edit_mode is Some,
        s.load_state is Loaded,
    ensures
        ({
            let checked = save_checked(s.edit_mode->0, reading);
            let candidate = save_candidate(
                checked,
                s.load_state->document,
                s.load_state->selected,
                reading,
            );
            let (t, effect) = save_requested(s, reading);
            &&& t.load_state == s.load_state
            &&& t.edit_mode is Some
            &&& effect == EffectModel::Nothing <==> !can_save(checked) || !document_valid(
                candidate,
            )
        }),
{
    let checked = save_checked(s.edit_mode->0, reading);
    lemma_document_problem(
        save_candidate(checked, s.load_state->document, s.load_state->selected, reading),
    );
}

/// A save writes the document with the selected request replaced by the one
/// that the form describes, and every other request as it was.
pub proof fn law_a_save_changes_one_request(
    s: SessionModel,
    reading: Result<Seq<char>, Seq<char>>,
    i: int,
)
    requires
        s.edit_mode is Some,
        s.request_selected(),
        save_requested(s, reading).1 != EffectModel::Nothing,
        0 <= i < s.load_state->document.requests().len(),
    ensures
        ({
            let selected = s.load_state->selected;
            let before = s.load_state->document.requests();
            let effect = save_requested(s, reading).1;
            &&& effect is SaveEdit
            &&& effect->SaveEdit_collection_id == s.id
            &&& effect->SaveEdit_path == s.load_state->path.text
            &&& effect->SaveEdit_document.requests().len() == before.len()
            &&& document_valid(effect->SaveEdit_document)
            &&& effect->SaveEdit_document.requests()[i] == if i == selected {
                applied(
                    save_checked(s.edit_mode->0, reading),
                    before[selected as int],
                    reading,
                )
            } else {
                before[i]
            }
        }),
{
    let checked = save_checked(s.edit_mode->0, reading);
    lemma_document_problem(
        save_candidate(checked, s.load_state->document, s.load_state->selected, reading),
    );
}

/// Once a document was written its form is closed, the document is the one
/// that was written, and its request is no longer marked. Where it was not
/// written, the form stays open and says why, and nothing else changes.
pub proof fn law_a_written_document_is_the_one_shown(
    s: SessionModel,
    document: DocumentModel,
    error: Seq<char>,
)
    requires
        s.edit_mode is Some,
        s.load_state is Loaded,
    ensures
        ({
            let t = edit_saved(s, document, Ok(()));
            &&& t.load_state is Loaded
            &&& t.load_state->document == document
            &&& t.load_state->selected == s.load_state->selected
            &&& t.edit_mode is None
            &&& !t.dirty_requests.contains(s.load_state->selected)
        }),
        edit_saved(s, document, Err(error)) == (SessionModel {
            edit_mode: Some(EditModel { save_error: Some(error), ..s.edit_mode->0 }),
            ..s
        }),
{
}

/// Variables are written exactly when every row has a name of its own, the
/// environment is still there and it has a file. What is written is the
/// environment with the variables of the rows, and all else of it as it was;
/// until it is, no environment changes.
pub proof fn law_variables_are_written_with_their_environment(s: SessionModel)
    requires
        s.environment_edit is Some,
    ensures
        ({
            let form = s.environment_edit->0;
            let (t, effect) = variables_save_requested(s);
            &&& t.environments == s.environments
            &&& effect == EffectModel::Nothing <==> {
                ||| variables_of(form.rows) is Err
                ||| form.index >= s.environments.len()
                ||| s.environments[form.index as int].environment.source is None
            }
            &&& effect != EffectModel::Nothing ==> {
                let before = s.environments[form.index as int].environment;
                effect == (EffectModel::SaveEnvironment {
                    collection_id: s.id,
                    path: before.source->0,
                    index: form.index,
                    environment: EnvironmentModel {
                        variables: variables_of(form.rows)->Ok_0,
                        ..before
                    },
                })
            }
        }),
{
}

/// Once variables were written their form is closed and their environment
/// holds them, and every other environment is as it was. Where they were not
/// written, the form stays open and says why, and nothing else changes.
pub proof fn law_written_variables_are_the_ones_held(
    s: SessionModel,
    index: usize,
    environment: EnvironmentModel,
    error: Seq<char>,
    i: int,
)
    requires
        s.environment_edit is Some,
        index < s.environments.len(),
        0 <= i < s.environments.len(),
    ensures
        ({
            let t = variables_saved(s, index, environment, Ok(()));
            &&& t.environment_edit is None
            &&& t.environments.len() == s.environments.len()
            &&& t.environments[i].name == s.environments[i].name
            &&& t.environments[i].environment == if i == index {
                environment
            } else {
                s.environments[i].environment
            }
        }),
        variables_saved(s, index, environment, Err(error)) == (SessionModel {
            environment_edit: Some(
                EnvironmentEditModel { save_error: Some(error), ..s.environment_edit->0 },
            ),
            ..s
        }),
{
}

/// Whether an optional text is absent or not empty.
pub open spec fn not_empty(text: Option<Seq<char>>) -> bool {
    text is Some ==> text->0.len() > 0
}

/// Whether an `auth:` block is of exactly one kind and holds no empty text
/// where it could hold none.
pub open spec fn of_one_kind(auth: AuthModel) -> bool {
    let kinds = (if auth.bearer is Some { 1int } else { 0 }) + (if auth.basic is Some {
        1int
    } else {
        0
    }) + (if auth.api_key is Some { 1int } else { 0 }) + (if auth.oauth is Some {
        1int
    } else {
        0
    });
    &&& kinds == 1
    &&& auth.oauth is Some ==> {
        let o = auth.oauth->0;
        &&& not_empty(o.scope)
        &&& not_empty(o.username)
        &&& not_empty(o.password)
        &&& not_empty(o.authorization_url)
        &&& not_empty(o.redirect_uri)
    }
}

/// Whether a request is written the way a form writes one: nothing empty
/// stands where nothing could stand, and its body is of one kind. `indented`
/// is its JSON body over indented lines, `reading` what reading the body that
/// the form shows gives.
pub open spec fn as_forms_write(
    request: RequestModel,
    indented: Option<Seq<char>>,
    reading: Result<Seq<char>, Seq<char>>,
) -> bool {
    &&& not_empty(request.name)
    &&& request.auth is Some ==> of_one_kind(request.auth->0)
    &&& request.assertions is Some ==> request.assertions->0.json.len() > 0
        || request.assertions->0.others.len() > 0
    &&& request.capture is Some ==> request.capture->0.len() > 0
    &&& body_for(request, indented) matches BodyEditModel::Editable { text, is_json } ==> if is_json {
        !blank(text.value) && request.body is None && reading == Ok::<Seq<char>, Seq<char>>(
            request.json->0,
        )
    } else {
        request.body is Some ==> !blank(text.value)
    }
}

/// A form that nothing was changed in describes the very request that it was
/// opened for, body, headers, authentication, assertions and captures
/// included.
#[verifier::spinoff_prover]
pub proof fn law_an_unchanged_form_describes_its_request(
    request: RequestModel,
    indented: Option<Seq<char>>,
    reading: Result<Seq<char>, Seq<char>>,
)
    requires
        as_forms_write(request, indented, reading),
    ensures
        applied(form_for(request, indented), request, reading) == request,
{
    let form = form_for(request, indented);
    let after = applied(form, request, reading);
    lemma_method_named_text(request.method);
    lemma_pairs_of_rows_for(request.headers);
    assert(after.name == request.name);
    assert(after.auth == request.auth) by {
        if request.auth is Some {
            let a = request.auth->0;
            if a.oauth is Some {
                assert(auth_of(auth_for(request.auth))->0.oauth->0 == a.oauth->0);
            }
        }
    }
    if request.assertions is Some {
        let a = request.assertions->0;
        let json = Seq::new(form.assertions.len(), |i: int| check_of(form.assertions[i]));
        assert(json =~= a.json);
    }
    assert(after.assertions == request.assertions);
    if request.capture is Some {
        let captures = Seq::new(form.captures.len(), |i: int| capture_of(form.captures[i]));
        assert(captures =~= request.capture->0);
    }
    assert(after.capture == request.capture);
    if let BodyEditModel::Editable { text, is_json } = form.body {
        if !is_json && request.body is None {
            assert(trim(text.value).len() == 0);
        }
    }
    assert(after.body == request.body && after.json == request.json);
}

} // verus!
