//! Questions, prompts and what lies over the screen; what is refused
//! meanwhile; and what is loaded.
use vstd::prelude::*;

use crate::document::{DocumentModel, Method, RequestModel};
use crate::edit::form_for;
use crate::paths::{FilePathModel, base_dir};
use crate::run::RunOutcome;
use crate::state::{
    AppModel, EffectModel, LoadModel, Message, OpenPromptModel, RunState, SessionModel,
};
use crate::text::decimal;
use crate::text_field::{CursorMove, TextEdit};
use crate::update::{
    app_updated, dirty_count, filter_edited, matching, prompt_typed, quit_requested, session_answered,
    session_updated,
};
use crate::update::collection::{
    close_requested, collection_loaded, discovered, no_question, open_prompted,
};
use crate::update::request_edit::{edit_entered, form_may_open, request_added, unique_name};
use crate::view::label_of;
use crate::view::screen::{overlays_for, session_overlays};
use crate::view::status::{bar_of, help_text, outcome_status, spinner_frame, tone_of};

verus! {

// ---------------------------------------------------------------------------
// What is refused
// ---------------------------------------------------------------------------

/// While a form or a question is open or a run is under way, the keys for
/// browsing, picking and running do nothing, and ask for nothing.
#[verifier::spinoff_prover]
pub proof fn law_browsing_waits_for_what_is_open(s: SessionModel, msg: Message)
    requires
        ({
            ||| msg is SelectNext
            ||| msg is SelectPrevious
            ||| msg is OpenHistoryOverlay
            ||| msg is RunRequested
            ||| msg is ConfirmEnvironmentSelection
            ||| msg is CloseEnvironmentOverlay
        }),
        ({
            ||| s.run_state == RunState::InFlight
            ||| s.edit_mode is Some
            ||| s.delete_confirm is Some
            ||| s.environment_edit is Some
        }),
    ensures
        session_updated(s, msg) == (s, EffectModel::Nothing),
{
}

/// While a run is under way, or anything is open over the requests, no form, no
/// question about a deletion and no new request is opened.
#[verifier::spinoff_prover]
pub proof fn law_forms_wait_for_what_is_open(s: SessionModel, msg: Message)
    requires
        msg is EnterEditMode || msg is AddRequest || msg is RequestDelete,
        ({
            ||| s.run_state == RunState::InFlight
            ||| s.edit_mode is Some
            ||| s.environment_overlay is Some
            ||| s.history_overlay is Some
            ||| s.environment_edit is Some
            ||| s.delete_confirm is Some
        }),
    ensures
        session_updated(s, msg) == (s, EffectModel::Nothing),
{
}

/// While a run is under way a search cannot be changed.
pub proof fn law_a_search_waits_for_a_run(s: SessionModel, change: TextEdit)
    requires
        s.run_state == RunState::InFlight,
    ensures
        filter_edited(s, change) == s,
{
}

// ---------------------------------------------------------------------------
// Forms and new requests
// ---------------------------------------------------------------------------

/// The form that is opened shows the selected request: its name, method and
/// address, its headers, assertions and captures row by row; the focus is on
/// the name and nothing counts as changed.
#[verifier::spinoff_prover]
pub proof fn law_the_form_shows_the_selected_request(s: SessionModel)
    requires
        s.request_selected(),
        s.edit_mode is None,
        s.environment_overlay is None,
        s.environment_edit is None,
        s.history_overlay is None,
        s.delete_confirm is None,
        s.run_state != RunState::InFlight,
    ensures
        ({
            let t = edit_entered(s);
            let edit = t.edit_mode->0;
            let request = s.load_state->document.requests()[s.load_state->selected as int];
            &&& t == (SessionModel { edit_mode: t.edit_mode, ..s })
            &&& t.edit_mode is Some
            &&& edit.focus == crate::edit::EditField::Name
            &&& !edit.dirty
            &&& request.name is Some ==> edit.name.value == request.name->0
            &&& request.name is None ==> edit.name.value.len() == 0
            &&& edit.method.value == request.method.text()
            &&& edit.url.value == request.url
            &&& edit.headers.len() == request.headers.len()
            &&& forall|i: int|
                0 <= i < edit.headers.len() ==> (#[trigger] edit.headers[i]).key.value
                    == request.headers[i].0 && edit.headers[i].value.value == request.headers[i].1
            &&& request.assertions is Some ==> {
                &&& edit.assertions.len() == request.assertions->0.json.len()
                &&& forall|i: int|
                    0 <= i < edit.assertions.len() ==> (#[trigger] edit.assertions[i]).path.value
                        == request.assertions->0.json[i].path
                        && edit.assertions[i].value.value == request.assertions->0.json[i].value
                        && edit.assertions[i].operator == request.assertions->0.json[i].operator
                        && edit.assertions[i].negate == request.assertions->0.json[i].negate
            }
            &&& request.assertions is None ==> edit.assertions.len() == 0
            &&& request.capture is Some ==> {
                &&& edit.captures.len() == request.capture->0.len()
                &&& forall|i: int|
                    0 <= i < edit.captures.len() ==> (#[trigger] edit.captures[i]).name.value
                        == request.capture->0[i].name
            }
            &&& request.capture is None ==> edit.captures.len() == 0
        }),
{
}

/// An added request is blank but for its name: a `GET` of nothing, without
/// headers, body, authentication, assertions or captures. It counts as
/// changed, and what was selected before is remembered.
pub proof fn law_an_added_request_is_blank(s: SessionModel)
    requires
        s.load_state is Loaded,
        form_may_open(s),
        s.load_state->document.requests().len() < usize::MAX,
    ensures
        ({
            let t = request_added(s);
            let new = t.load_state->document.requests().last();
            &&& new.method == Method::Get
            &&& new.url.len() == 0
            &&& new.headers.len() == 0 && new.query.len() == 0
            &&& new.body is None && new.json is None && new.body_file is None
            &&& new.auth is None && new.assertions is None && new.capture is None
            &&& t.dirty_requests.contains(s.load_state->document.requests().len() as usize)
            &&& t.pending_new_request is Some
            &&& t.pending_new_request->0.previous_selected == s.load_state->selected
            &&& t.pending_new_request->0.document_before == s.load_state->document
            &&& t.run_state == RunState::Idle
            &&& t.edit_mode is Some && t.edit_mode->0.name.value == new.name->0
        }),
{
}

/// A new name is the base, or the base and a number from 2 on: the first of
/// these that is not taken.
pub proof fn law_a_new_name_is_the_first_that_is_free(
    base: Seq<char>,
    existing: Seq<Seq<char>>,
    k: nat,
)
    requires
        2 <= k,
    ensures
        !existing.contains(base) ==> unique_name(base, existing) == base,
        existing.contains(base) && !existing.contains(base + " "@ + decimal(k)) && (forall|j: nat|
            2 <= j < k ==> existing.contains(base + " "@ + #[trigger] decimal(j))) && k
            <= existing.len() + 1 ==> unique_name(base, existing) == base + " "@ + decimal(k),
{
    if existing.contains(base) && !existing.contains(base + " "@ + decimal(k)) && (forall|j: nat|
        2 <= j < k ==> existing.contains(base + " "@ + #[trigger] decimal(j))) && k
        <= existing.len() + 1 {
        lemma_first_free(base, existing, 2, k);
    }
}

proof fn lemma_first_free(base: Seq<char>, existing: Seq<Seq<char>>, from: nat, k: nat)
    requires
        2 <= from <= k <= existing.len() + 1,
        !existing.contains(base + " "@ + decimal(k)),
        forall|j: nat| from <= j < k ==> existing.contains(base + " "@ + #[trigger] decimal(j)),
    ensures
        crate::update::request_edit::unique_from(base, existing, from) == base + " "@ + decimal(k),
    decreases k - from,
{
    if from < k {
        assert(existing.contains(base + " "@ + decimal(from)));
        lemma_first_free(base, existing, from + 1, k);
    }
}

// ---------------------------------------------------------------------------
// Loading
// ---------------------------------------------------------------------------

/// A collection that was read is the one that is shown, on its first request;
/// one that could not be read is told of with its error. What was remembered
/// stays.
pub proof fn law_a_collection_that_was_read_is_shown(
    s: SessionModel,
    base_dir: Seq<char>,
    path: FilePathModel,
    document: DocumentModel,
    error: Seq<char>,
)
    ensures
        ({
            let t = collection_loaded(s, base_dir, path, Ok(document));
            &&& t.load_state == (LoadModel::Loaded { document, selected: 0, base_dir, path })
            &&& t == (SessionModel { load_state: t.load_state, run_state: t.run_state, ..s })
        }),
        collection_loaded(s, base_dir, path, Err(error)).load_state == LoadModel::Failed(error),
{
}

/// The environments of a session are those that were loaded for it, and those
/// that could not be read are told of.
#[verifier::spinoff_prover]
pub proof fn law_loaded_environments_are_held(s: SessionModel, msg: Message)
    requires
        msg is EnvironmentsLoaded,
    ensures
        ({
            let t = session_updated(s, msg).0;
            let (loaded, failed) = (
                msg->EnvironmentsLoaded_environments@,
                msg->EnvironmentsLoaded_errors@,
            );
            &&& t == (SessionModel {
                environments: t.environments,
                environment_errors: t.environment_errors,
                ..s
            })
            &&& t.environments.len() == loaded.len()
            &&& forall|i: int|
                0 <= i < loaded.len() ==> #[trigger] t.environments[i] == loaded[i]@
            &&& t.environment_errors.len() == failed.len()
            &&& forall|i: int|
                0 <= i < failed.len() ==> (#[trigger] t.environment_errors[i]).0 == failed[i].0@
                    && t.environment_errors[i].1 == failed[i].1@
        }),
{
}

/// The collections that were found nearby are offered where none was named,
/// the first picked; elsewhere they change nothing.
pub proof fn law_found_collections_are_offered(s: SessionModel, paths: Seq<FilePathModel>)
    ensures
        s.load_state is NoPathProvided ==> discovered(s, paths) == (SessionModel {
            load_state: LoadModel::NoPathProvided { discovered: paths, cursor: 0 },
            ..s
        }),
        !(s.load_state is NoPathProvided) ==> discovered(s, paths) == s,
{
}

/// A file's relative paths start from the directory it is in, and from here
/// where its path names none.
pub proof fn law_relative_paths_start_from_the_directory(path: FilePathModel)
    ensures
        path.parent is Some && path.parent->0.len() > 0 ==> base_dir(path) == path.parent->0,
        path.parent is None || path.parent->0.len() == 0 ==> base_dir(path) == "."@,
{
}

/// The end of a run is remembered with its outcome and its time, as the newest
/// of the selected request.
#[verifier::spinoff_prover]
pub proof fn law_the_end_of_a_run_is_remembered(s: SessionModel, msg: Message)
    requires
        s.load_state is Loaded,
        msg is RunCompleted,
    ensures
        ({
            let t = session_answered(s, msg);
            let kept = t.selected_history();
            &&& kept.len() > 0
            &&& kept[0].outcome == msg->outcome
            &&& kept[0].completed_at == msg->completed_at
            &&& t.run_state == RunState::Completed
            &&& t.load_state == s.load_state
        }),
{
}

/// After a change of the search the selection stays where it is still on a
/// match, and else goes to the first match.
pub proof fn law_a_search_keeps_a_matching_selection(s: SessionModel, change: TextEdit)
    requires
        s.load_state is Loaded,
        s.request_filter is Some,
        s.run_state != RunState::InFlight,
    ensures
        ({
            let t = filter_edited(s, change);
            let searched = s.request_filter->0.edited(change);
            let m = matching(s.load_state->document, searched.value);
            &&& t.request_filter == Some(searched)
            &&& t.load_state->document == s.load_state->document
            &&& m.contains(s.load_state->selected) ==> t.load_state == s.load_state && t.run_state
                == s.run_state
            &&& m.len() > 0 && !m.contains(s.load_state->selected) ==> t.load_state->selected
                == m[0]
            &&& m.len() == 0 ==> t.load_state == s.load_state
        }),
{
}

/// The form shows a JSON body as JSON, indented where it can be, and a plain
/// body as it is; a body from a file, of form fields or of several parts it
/// only describes.
pub proof fn law_the_form_shows_the_body(request: RequestModel, indented: Option<Seq<char>>)
    ensures
        ({
            let body = form_for(request, indented).body;
            let described = request.body_file is Some || request.form.len() > 0
                || request.multipart.len() > 0;
            &&& body is Unsupported <==> described
            &&& !described && request.json is Some ==> body->is_json && body->text.value == (
            if indented is Some {
                indented->0
            } else {
                request.json->0
            })
            &&& !described && request.json is None ==> !body->is_json && body->text.value == (
            if request.body is Some {
                request.body->0
            } else {
                Seq::empty()
            })
        }),
{
}

// ---------------------------------------------------------------------------
// Quitting, closing and the prompt for a path
// ---------------------------------------------------------------------------

/// A session would lose something exactly where a form is open in it, a run is
/// under way, or a request is marked as changed.
pub proof fn law_what_a_session_would_lose(s: SessionModel)
    ensures
        s.is_dirty() <==> {
            ||| s.edit_mode is Some
            ||| s.environment_edit is Some
            ||| s.run_state == RunState::InFlight
            ||| exists|k: usize| #[trigger] s.dirty_requests.contains(k)
        },
{
    if s.dirty_requests != Set::<usize>::empty() {
        if forall|k: usize| !#[trigger] s.dirty_requests.contains(k) {
            assert(s.dirty_requests =~= Set::<usize>::empty());
        }
    }
}

/// The prompt for a path opens empty over a session that nothing is open or
/// under way in, and is given up without a trace.
#[verifier::spinoff_prover]
pub proof fn law_the_prompt_opens_empty(a: AppModel)
    requires
        a.tabs_valid(),
        no_question(a),
        a.active().edit_mode is None,
        a.active().environment_overlay is None,
        a.active().delete_confirm is None,
        a.active().run_state != RunState::InFlight,
    ensures
        ({
            let b = open_prompted(a);
            &&& b.open_collection_prompt is Some
            &&& b.open_collection_prompt->0.path.value.len() == 0
            &&& b.open_collection_prompt->0.error is None
            &&& b == (AppModel { open_collection_prompt: b.open_collection_prompt, ..a })
        }),
{
}

/// What is typed goes into the open prompt, where its cursor is, and takes away
/// what was said of the last path; no session changes.
#[verifier::spinoff_prover]
pub proof fn law_typing_goes_into_the_prompt(a: AppModel, c: char)
    requires
        a.open_collection_prompt is Some,
    ensures
        ({
            let before = a.open_collection_prompt->0;
            let typed = app_updated(a, Message::EditInsertChar(c)).0;
            &&& typed == (AppModel {
                open_collection_prompt: Some(
                    OpenPromptModel {
                        path: before.path.edited(TextEdit::Insert(c)),
                        error: None,
                    },
                ),
                ..a
            })
        }),
{
}

/// The cursor keys move the cursor of the open prompt, and the keys for taking
/// out a character do so.
pub proof fn law_cursor_keys_move_in_the_prompt(before: OpenPromptModel)
    ensures
        prompt_typed(before, Message::EditCursorLeft) == Some(
            OpenPromptModel { path: before.path.moved(CursorMove::Left), ..before },
        ),
        prompt_typed(before, Message::EditCursorRight) == Some(
            OpenPromptModel { path: before.path.moved(CursorMove::Right), ..before },
        ),
        prompt_typed(before, Message::EditBackspace) == Some(
            OpenPromptModel { path: before.path.edited(TextEdit::Backspace), error: None },
        ),
        prompt_typed(before, Message::EditDelete) == Some(
            OpenPromptModel { path: before.path.edited(TextEdit::Delete), error: None },
        ),
{
}

/// How many of the first `n` sessions would lose something.
pub open spec fn dirty_among(sessions: Seq<SessionModel>, n: int) -> nat
    decreases n,
{
    if n <= 0 {
        0
    } else {
        dirty_among(sessions, n - 1) + if sessions[n - 1].is_dirty() {
            1nat
        } else {
            0
        }
    }
}

proof fn lemma_dirty_among(sessions: Seq<SessionModel>, n: nat)
    requires
        n <= sessions.len(),
    ensures
        dirty_count(sessions.take(n as int)) == dirty_among(sessions, n as int),
    decreases n,
{
    if n > 0 {
        lemma_dirty_among(sessions, (n - 1) as nat);
        assert(sessions.take(n as int).drop_last() =~= sessions.take(n - 1));
    }
}

/// The question before quitting says how many tabs would lose something.
pub proof fn law_the_question_counts_the_tabs(a: AppModel)
    requires
        a.quit_confirm is None,
        dirty_among(a.collections, a.collections.len() as int) > 0,
    ensures
        ({
            let n = dirty_among(a.collections, a.collections.len() as int);
            let b = quit_requested(a);
            &&& b == (AppModel { quit_confirm: b.quit_confirm, ..a })
            &&& b.quit_confirm is Some
            &&& b.quit_confirm->0.error is None
            &&& n == 1 ==> b.quit_confirm->0.message == "Quit with unsaved changes in "@ + decimal(
                1,
            ) + " tab"@ + ""@ + "? This cannot be undone."@
            &&& n > 1 ==> b.quit_confirm->0.message == "Quit with unsaved changes in "@ + decimal(n)
                + " tab"@ + "s"@ + "? This cannot be undone."@
        }),
{
    lemma_dirty_among(a.collections, a.collections.len());
    assert(a.collections.take(a.collections.len() as int) =~= a.collections);
}

/// The question before closing names the tab that it is about, and no tab is
/// closed by asking.
pub proof fn law_the_question_names_the_tab(a: AppModel)
    requires
        no_question(a),
        a.active().is_dirty(),
    ensures
        ({
            let (b, asked) = close_requested(a);
            &&& b == (AppModel { close_confirm: b.close_confirm, ..a })
            &&& b.close_confirm is Some
            &&& b.close_confirm->0.collection_id == a.active().id
            &&& b.close_confirm->0.prompt.message == "Close '"@ + label_of(a.active().load_state)
                + "'? Unsaved changes will be lost."@
            &&& asked == EffectModel::Nothing
        }),
{
}

/// A clock tick moves the spinner by one and nothing else; the list of keys is
/// opened and closed by its keys and nothing else.
#[verifier::spinoff_prover]
pub proof fn law_ticks_and_the_list_of_keys(a: AppModel)
    requires
        a.spinner_tick < usize::MAX,
    ensures
        app_updated(a, Message::Tick).0 == (AppModel {
            spinner_tick: (a.spinner_tick + 1) as usize,
            ..a
        }),
        app_updated(a, Message::OpenCheatsheet).0 == (AppModel { cheatsheet_open: true, ..a }),
        app_updated(a, Message::CloseCheatsheet).0 == (AppModel { cheatsheet_open: false, ..a }),
{
}

/// Eight ticks turn the spinner once, through eight frames of its own.
pub proof fn law_the_spinner_turns_in_eight_ticks(i: nat, j: nat)
    ensures
        spinner_frame(i + 8) == spinner_frame(i),
        i < j < 8 ==> spinner_frame(i) != spinner_frame(j),
{
}

// ---------------------------------------------------------------------------
// What lies over the screen
// ---------------------------------------------------------------------------

/// How many of four things are there.
pub open spec fn count(a: bool, b: bool, c: bool, d: bool) -> nat {
    (if a { 1nat } else { 0 }) + (if b { 1nat } else { 0 }) + (if c { 1nat } else { 0 }) + (if d {
        1nat
    } else {
        0
    })
}

/// Over the screen lies exactly what is open: for a session its picker, its
/// past runs and its questions, and above these what is open over the whole
/// program, the list of keys topmost.
pub proof fn law_what_is_open_lies_over_the_screen(a: AppModel, now: int, height: int)
    ensures
        ({
            let s = a.active();
            let below = session_overlays(s, now, height);
            let shown = overlays_for(a, now, height);
            let asks = s.environment_edit is Some && s.environment_edit->0.pending_delete is Some;
            &&& below.len() == count(
                s.environment_overlay is Some,
                s.history_overlay is Some,
                s.delete_confirm is Some,
                asks,
            )
            &&& shown.len() == below.len() + count(
                a.open_collection_prompt is Some,
                a.close_confirm is Some,
                a.quit_confirm is Some,
                a.cheatsheet_open,
            )
            &&& a.cheatsheet_open ==> shown.last() is Cheatsheet
            &&& a.quit_confirm is Some && !a.cheatsheet_open ==> shown.last() is Question
                && shown.last()->Question_0.message == a.quit_confirm->0.message
            &&& a.close_confirm is Some && a.quit_confirm is None && !a.cheatsheet_open
                ==> shown.last() is Question && shown.last()->Question_0.message
                == a.close_confirm->0.prompt.message
            &&& a.open_collection_prompt is Some && a.close_confirm is None
                && a.quit_confirm is None && !a.cheatsheet_open ==> shown.last() is OpenPrompt
            &&& s.environment_overlay is Some ==> below[0] is Environments
            &&& s.environment_overlay is None && s.history_overlay is Some ==> below[0] is History
            &&& s.delete_confirm is Some && !asks ==> below.last() is Question
                && below.last()->Question_0.message == s.delete_confirm->0.prompt.message
            &&& asks ==> below.last() is Question && below.last()->Question_0.message
                == s.environment_edit->0.pending_delete->0.prompt.message
        }),
{
}

// ---------------------------------------------------------------------------
// The bottom bar
// ---------------------------------------------------------------------------

/// The bottom bar begins with the question that is open, the topmost first.
pub proof fn law_the_bar_tells_of_the_open_question(
    a: AppModel,
    preview: Option<crate::preview::AuthPreviewModel>,
)
    ensures
        ({
            let text = help_text(a, preview);
            let s = a.active();
            &&& a.quit_confirm is Some ==> text.take(a.quit_confirm->0.message.len() as int)
                == a.quit_confirm->0.message
            &&& a.quit_confirm is None && a.close_confirm is Some ==> text.take(
                a.close_confirm->0.prompt.message.len() as int,
            ) == a.close_confirm->0.prompt.message
            &&& a.quit_confirm is None && a.close_confirm is None && a.open_collection_prompt is None
                && s.delete_confirm is Some ==> text.take(
                s.delete_confirm->0.prompt.message.len() as int,
            ) == s.delete_confirm->0.prompt.message
        }),
{
    let text = help_text(a, preview);
    let s = a.active();
    if a.quit_confirm is Some {
        let m = a.quit_confirm->0.message;
        assert(text.take(m.len() as int) =~= m);
    } else if a.close_confirm is Some {
        let m = a.close_confirm->0.prompt.message;
        assert(text.take(m.len() as int) =~= m);
    } else if a.open_collection_prompt is None && s.delete_confirm is Some {
        let m = s.delete_confirm->0.prompt.message;
        assert(text.take(m.len() as int) =~= m);
    }
}

/// A finished run is summed up by its status and, where something was checked,
/// how many checks held and how many did not; a failed one by why.
pub proof fn law_a_finished_run_is_summed_up(outcome: RunOutcome)
    ensures
        outcome.result matches Ok(response) ==> {
            let results = outcome.assertions.results@;
            let failed = crate::run::failures(results);
            outcome_status(outcome) == "Done — "@ + decimal(response.status as nat) + (
            if results.len() == 0 {
                ""@
            } else {
                " — "@ + decimal((results.len() - failed) as nat) + " passed, "@ + decimal(failed)
                    + " failed"@
            })
        },
        outcome.result matches Err(error) ==> outcome_status(outcome) == "Failed — "@ + error@,
{
}

/// The bar shows what stands in front of the first bar of its text as a status
/// and what stands behind it as keys, losing nothing; without one, all of it
/// as keys.
pub proof fn law_the_bar_loses_nothing(text: Seq<char>)
    ensures
        ({
            let bar = bar_of(text);
            &&& bar.status matches Some((status, tone)) ==> {
                &&& status + "  |  "@ + bar.keys == text
                &&& tone == tone_of(status)
            }
            &&& bar.status is None ==> bar.keys == text
            &&& bar.status is None <==> !crate::text::contains(text, "  |  "@)
        }),
{
    let sep = "  |  "@;
    if crate::text::contains(text, sep) {
        crate::text::lemma_occurs_first(text, sep);
        let at = choose|at: int| crate::text::occurs_first_at(text, sep, at);
        assert(text.take(at) + sep + text.skip(at + sep.len()) =~= text);
    }
}

} // verus!
