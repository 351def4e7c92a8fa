//! What is on the screen tells of what it stands for: rows of their requests,
//! tabs of their sessions, panels of their runs, lists of their environments.
use vstd::prelude::*;

use crate::document::DocumentModel;
use crate::edit::{EditField, EditModel};
use crate::laws::browsing::lemma_matching;
use crate::outside::json_indented;
use crate::preview::{BrowsingPreviewModel, added};
use crate::run::{
    AssertionReport, AssertionResult, CaptureReport, Response, RunHistoryEntry, RunOutcome,
};
use crate::state::{AppModel, LoadModel, RunState, SessionModel};
use crate::text::{decimal, join, lines, lower};
use crate::update::{lemma_first_at, matching};
use crate::variables_form::EnvVarField;
use crate::view::browser::{
    listed, masked_pair, preview_header_line, preview_lines, preview_text, request_list_for,
    truncated,
};
use crate::view::edit_form::{head_lines, header_lines, pane_lines};
use crate::view::environment::{environment_overlay_for, variable_lines, variable_row_lines};
use crate::view::response::{
    assertions_text, captures_text, dropped_notice, elapsed_text, entry_lines, entry_text,
    panel_for, response_lines, run_text, shown_body,
};
use crate::view::screen::{BodyModel, ResolutionModel, body_for, detail_for, tabs_for};

verus! {

// ---------------------------------------------------------------------------
// The list of requests
// ---------------------------------------------------------------------------

/// Without a search, row `i` of the list tells of request `i`: a star where it
/// has unsaved changes, its method and its name. The highlighted row is that of
/// the selected request.
pub proof fn law_each_row_tells_of_its_request(
    document: DocumentModel,
    selected: usize,
    dirty: Set<usize>,
    i: usize,
)
    requires
        i < document.requests().len() <= usize::MAX,
    ensures
        ({
            let list = request_list_for(document, selected, dirty, None);
            let request = document.requests()[i as int];
            &&& list.rows.len() == document.requests().len()
            &&& list.notice is None
            &&& list.rows[i as int].dirty == dirty.contains(i)
            &&& list.rows[i as int].text == (if dirty.contains(i) {
                "*"@
            } else {
                " "@
            }) + request.method.text() + " "@ + (if request.name is Some {
                request.name->0
            } else {
                "(unnamed)"@
            })
            &&& selected < document.requests().len() ==> list.highlighted == selected
        }),
{
    let all = listed(document, None);
    if selected < document.requests().len() {
        assert(all[selected as int] == selected);
        lemma_first_at(all, selected, selected as int);
    }
}

/// While requests are searched, row `k` tells of the `k`-th match, the row of
/// the selected match is highlighted, and the title says how many match.
pub proof fn law_each_row_tells_of_its_match(
    document: DocumentModel,
    selected: usize,
    dirty: Set<usize>,
    query: Seq<char>,
    k: int,
)
    requires
        document.requests().len() <= usize::MAX,
        0 <= k < matching(document, query).len(),
    ensures
        ({
            let list = request_list_for(document, selected, dirty, Some(query));
            let m = matching(document, query);
            let request = document.requests()[m[k] as int];
            &&& list.rows.len() == m.len()
            &&& list.notice is None
            &&& list.rows[k].dirty == dirty.contains(m[k])
            &&& list.rows[k].text == (if dirty.contains(m[k]) {
                "*"@
            } else {
                " "@
            }) + request.method.text() + " "@ + (if request.name is Some {
                request.name->0
            } else {
                "(unnamed)"@
            })
            &&& m[k] == selected ==> list.highlighted == k
            &&& list.title == " Requests — filter: \""@ + query + "\" ("@ + decimal(m.len()) + "/"@
                + decimal(document.requests().len()) + ") "@
        }),
{
    let m = matching(document, query);
    lemma_matching(document.requests(), query, document.requests().len());
    lemma_first_at(m, m[k], k);
}

/// A search that nothing matches says so.
pub proof fn law_a_search_without_matches_says_so(
    document: DocumentModel,
    selected: usize,
    dirty: Set<usize>,
    query: Seq<char>,
)
    ensures
        ({
            let list = request_list_for(document, selected, dirty, Some(query));
            list.notice is Some <==> matching(document, query).len() == 0
        }),
{
}

// ---------------------------------------------------------------------------
// Tabs, body and overlays
// ---------------------------------------------------------------------------

/// Tab `i` carries the number `i + 1` and what its session is called, and the
/// active one alone is marked. A session is called by the name of its
/// collection, else by the stem of its file.
pub proof fn law_each_tab_tells_of_its_session(a: AppModel, i: int)
    requires
        a.collections.len() > 1,
        0 <= i < a.collections.len(),
    ensures
        ({
            let tab = tabs_for(a)[i];
            &&& tabs_for(a).len() == a.collections.len()
            &&& tab.active <==> i == a.active_collection
            &&& a.collections[i].load_state matches LoadModel::Loaded { document, path, .. } ==> {
                &&& document matches DocumentModel::Collection { name, .. } ==> {
                    &&& name is Some ==> tab.label == " "@ + decimal((i + 1) as nat) + ":"@ + name->0
                        + " "@
                    &&& name is None && path.stem is Some ==> tab.label == " "@ + decimal(
                        (i + 1) as nat,
                    ) + ":"@ + path.stem->0 + " "@
                }
                &&& document matches DocumentModel::Single(request) ==> (request.name is Some
                    ==> tab.label == " "@ + decimal((i + 1) as nat) + ":"@ + request.name->0 + " "@)
            }
        }),
{
}

/// Of the selected request the form is shown while it is edited, else its last
/// response once it was run, else its preview.
pub proof fn law_the_selected_request_is_shown(
    s: SessionModel,
    resolution: ResolutionModel,
    height: int,
    tick: nat,
)
    requires
        s.request_selected(),
    ensures
        ({
            let shown = detail_for(s, resolution, height, tick);
            &&& s.edit_mode is Some ==> shown is Form
            &&& s.edit_mode is None && s.run_state == RunState::Completed
                && s.selected_history().len() > 0 ==> {
                &&& shown is Response
                &&& shown->Response_0.text == run_text(
                    s.selected_history()[0].outcome,
                    s.reveal_captures,
                )
            }
            &&& s.edit_mode is None && s.run_state != RunState::Completed ==> {
                &&& shown is Text
                &&& resolution.browsing is Ok ==> shown->Text_0 == preview_text(
                    resolution.browsing->Ok_0,
                    s.reveal_captures,
                )
            }
        }),
{
}

/// The body of the screen lists the requests of a loaded collection, says why
/// one could not be loaded, and else says what is waited for.
pub proof fn law_the_body_tells_of_the_collection(
    s: SessionModel,
    resolution: ResolutionModel,
    height: int,
    tick: nat,
)
    ensures
        ({
            let body = body_for(s, resolution, height, tick);
            &&& s.load_state is Loaded <==> body is Browser
            &&& s.load_state is Loaded ==> {
                &&& body->list == request_list_for(
                    s.load_state->document,
                    s.load_state->selected,
                    s.dirty_requests,
                    if s.request_filter is Some {
                        Some(s.request_filter->0.value)
                    } else {
                        None
                    },
                )
                &&& body->detail == detail_for(s, resolution, height, tick)
            }
            &&& s.load_state matches LoadModel::Failed(error) ==> body == BodyModel::Message(
                "⚠ Failed to load collection\n"@ + error,
            )
            &&& s.load_state matches LoadModel::NoPathProvided { discovered, cursor } ==> (
            discovered.len() > 0 ==> {
                &&& body is Candidates
                &&& body->rows.len() == discovered.len()
                &&& body->picked == cursor
                &&& forall|i: int|
                    0 <= i < discovered.len() ==> #[trigger] body->rows[i] == discovered[i].text
            })
        }),
{
    reveal_strlit("⚠ ");
    reveal_strlit("Failed to load collection");
    reveal_strlit("\n");
    reveal_strlit("⚠ Failed to load collection\n");
    if let LoadModel::Failed(error) = s.load_state {
        assert("⚠ "@ + "Failed to load collection"@ + "\n"@
            =~= "⚠ Failed to load collection\n"@);
    }
}

// ---------------------------------------------------------------------------
// Responses
// ---------------------------------------------------------------------------

/// A response is laid out as its status, text and time, under it its headers
/// in their order, and under these, behind an empty line, its body where it
/// has one.
pub proof fn law_a_response_is_laid_out_in_full(response: Response, body: Seq<char>, i: int)
    requires
        0 <= i < response.headers@.len(),
    ensures
        ({
            let shown = response_lines(response, body);
            let n = response.headers@.len() as int;
            &&& shown[0] == decimal(response.status as nat) + " "@ + response.status_text@ + "  "@
                + decimal(response.elapsed_ms as nat) + " ms"@
            &&& shown[i + 1] == response.headers@[i].0@ + ": "@ + response.headers@[i].1@
            &&& response.body@.len() == 0 ==> shown.len() == n + 1
            &&& response.body@.len() > 0 ==> {
                &&& shown.len() == n + 3
                &&& shown[n + 1] == ""@
                &&& shown[n + 2] == body
            }
        }),
{
}

/// What is said of a run is its response, and under it what was checked and
/// what was captured, in this order; of a run that failed, only why.
pub proof fn law_a_run_tells_of_its_outcome(outcome: RunOutcome, reveal: bool)
    ensures
        ({
            let said = run_text(outcome, reveal);
            &&& outcome.result matches Ok(response) ==> said == join(
                response_lines(response, shown_body(response, json_indented(response.body@))),
                "\n"@,
            ) + "\n"@ + assertions_text(outcome.assertions) + "\n"@ + captures_text(
                outcome.capture,
                reveal,
            )
            &&& outcome.result matches Err(error) ==> said == "⚠ "@ + "Request failed"@ + "\n"@
                + error@
        }),
{
}

/// A body is shown over indented lines only where the response says that it is
/// JSON and it is; else as it came.
pub proof fn law_only_json_is_indented(response: Response, indented: Option<Seq<char>>)
    ensures
        indented is None ==> shown_body(response, indented) == response.body@,
        shown_body(response, indented) == response.body@ || Some(shown_body(response, indented))
            == indented,
        response.headers@.len() == 0 ==> shown_body(response, indented) == response.body@,
{
}

/// How many of the first `n` results failed.
pub open spec fn failed_among(results: Seq<AssertionResult>, n: int) -> nat
    decreases n,
{
    if n <= 0 {
        0
    } else {
        failed_among(results, n - 1) + if results[n - 1].failure is Some {
            1nat
        } else {
            0
        }
    }
}

proof fn lemma_failures(results: Seq<AssertionResult>, n: nat)
    requires
        n <= results.len(),
    ensures
        crate::run::failures(results.take(n as int)) == failed_among(results, n as int),
        failed_among(results, n as int) <= n,
    decreases n,
{
    if n > 0 {
        lemma_failures(results, (n - 1) as nat);
        assert(results.take(n as int).drop_last() =~= results.take(n - 1));
    }
}

/// Each check has a line with a mark for how it went, what was expected and,
/// where it failed, what was wrong; the last line counts those that held and
/// those that did not.
pub proof fn law_each_check_has_its_line(report: AssertionReport)
    requires
        report.results@.len() > 0,
    ensures
        ({
            let results = report.results@;
            let failed = failed_among(results, results.len() as int);
            let counts = if failed == 0 {
                "  "@ + decimal(results.len()) + " passed"@
            } else {
                "  "@ + decimal((results.len() - failed) as nat) + " passed, "@ + decimal(failed)
                    + " failed"@
            };
            exists|shown: Seq<Seq<char>>|
                #![trigger join(shown, "\n"@)]
                {
                    &&& assertions_text(report) == join(shown, "\n"@)
                    &&& shown.len() == results.len() + 2
                    &&& shown[0] == "assertions"@
                    &&& shown.last() == counts
                    &&& forall|i: int|
                        0 <= i < results.len() ==> #[trigger] shown[i + 1] == (
                        if results[i].failure is None {
                            "  ✓ "@ + results[i].expectation@
                        } else {
                            "  ✗ "@ + results[i].expectation@ + " — "@ + results[i].failure->0@
                        })
                }
        }),
{
    let results = report.results@;
    lemma_failures(results, results.len());
    assert(results.take(results.len() as int) =~= results);
    let shown = seq!["assertions"@] + Seq::new(
        results.len(),
        |i: int| crate::view::response::assertion_line(results[i]),
    ) + seq![crate::view::response::assertion_summary(results)];
    assert(assertions_text(report) == join(shown, "\n"@));
}

/// Each capture has a line with a mark for how it went, its variable and where
/// it was read; what was captured stands there where it is revealed, and why
/// it was not stands there in any case.
pub proof fn law_each_capture_has_its_line(report: CaptureReport, reveal: bool)
    requires
        report.results@.len() > 0,
    ensures
        ({
            let results = report.results@;
            exists|shown: Seq<Seq<char>>|
                #![trigger join(shown, "\n"@)]
                {
                    &&& captures_text(report, reveal) == join(shown, "\n"@)
                    &&& shown.len() == results.len() + 1
                    &&& shown[0] == "capture"@
                    &&& forall|i: int|
                        0 <= i < results.len() ==> #[trigger] shown[i + 1] == (
                        match results[i].value {
                            Ok(value) => "  ✓ "@ + (results[i].variable@ + " from `"@
                                + results[i].path@ + "`"@) + " = "@ + (if reveal {
                                value@
                            } else {
                                "<redacted>"@
                            }),
                            Err(failure) => "  ✗ "@ + (results[i].variable@ + " from `"@
                                + results[i].path@ + "`"@) + " — "@ + failure@,
                        })
                }
        }),
{
    let results = report.results@;
    let shown = seq!["capture"@] + Seq::new(
        results.len(),
        |i: int| crate::view::response::capture_line(results[i], reveal),
    );
    assert(captures_text(report, reveal) == join(shown, "\n"@));
}

/// A panel shows the text of its run, from the line it is scrolled to, and its
/// footer says which lines are in sight.
pub proof fn law_a_panel_shows_its_run(
    outcome: RunOutcome,
    height: int,
    scroll: int,
    reveal: bool,
)
    requires
        scroll >= 0,
        height >= 1,
    ensures
        ({
            let panel = panel_for(outcome, height, scroll, reveal);
            let total = lines(run_text(outcome, reveal)).len() as int;
            let last = if panel.scroll + height < total {
                panel.scroll + height
            } else {
                total
            };
            &&& panel.text == run_text(outcome, reveal)
            &&& 0 <= panel.scroll <= scroll
            &&& scroll + height <= total ==> panel.scroll == scroll
            &&& total > height ==> panel.scroll + height <= total
            &&& total <= height ==> panel.scroll == 0
            &&& total > 0 ==> panel.footer == "Line "@ + decimal((panel.scroll + 1) as nat) + "-"@
                + decimal(last as nat) + " of "@ + decimal(total as nat)
                + " — PgUp/PgDn to scroll"@ + (if outcome.capture.results@.len() == 0 {
                ""@
            } else if reveal {
                "  |  c: hide captures"@
            } else {
                "  |  c: reveal captures"@
            })
        }),
{
}

/// How long ago a moment was is given in whole seconds up to a minute, in
/// whole minutes up to an hour and in whole hours beyond; less than a second,
/// or a moment to come, is just now.
pub proof fn law_an_age_is_given_in_its_coarsest_unit(when: int, now: int, k: nat)
    requires
        k > 0,
    ensures
        k < 60 && 1000 * k <= now - when < 1000 * (k + 1) ==> elapsed_text(when, now) == decimal(k)
            + "s"@,
        k < 60 && 60000 * k <= now - when < 60000 * (k + 1) ==> elapsed_text(when, now) == decimal(k)
            + "m"@,
        3600000 * k <= now - when < 3600000 * (k + 1) ==> elapsed_text(when, now) == decimal(k)
            + "h"@,
        now - when < 1000 ==> elapsed_text(when, now) == "just now"@,
{
}

// ---------------------------------------------------------------------------
// Previews
// ---------------------------------------------------------------------------

/// A revealed preview shows the request as it would be sent: its method, its
/// address, each header with its value, and its body.
pub proof fn law_a_revealed_preview_shows_all(preview: BrowsingPreviewModel, i: int)
    requires
        0 <= i < preview.request.headers.len(),
    ensures
        ({
            let shown = preview_lines(preview, true);
            let request = preview.request;
            let n = request.headers.len() as int;
            &&& shown[0] == "Method: "@ + request.method.text()
            &&& shown[1] == "URL:    "@ + request.url
            &&& shown[4 + i] == "  "@ + request.headers[i].0 + ": "@ + request.headers[i].1
            &&& request.body is Some && 0 < request.body->0.len() <= 2000 ==> shown.len() == n + 7
                && shown[n + 6] == request.body->0
            &&& preview_text(preview, true) == join(shown, "\n"@)
        }),
{
}

/// In a preview that is not revealed, headers and query parameters that
/// authentication did not add are shown with their values all the same.
pub proof fn law_only_what_authentication_added_is_redacted(
    header: (Seq<char>, Seq<char>),
    pair: Seq<char>,
    names: Seq<Seq<char>>,
    reveal: bool,
)
    ensures
        reveal || !names.contains(lower(header.0)) ==> preview_header_line(header, names, reveal)
            == "  "@ + header.0 + ": "@ + header.1,
        !reveal && names.contains(lower(header.0)) ==> preview_header_line(header, names, reveal)
            == "  "@ + header.0 + ": "@ + "<redacted>"@,
        (forall|end: int| 0 <= end <= pair.len() ==> !names.contains(#[trigger] pair.take(end)))
            ==> masked_pair(pair, names) == pair,
{
    crate::text::lemma_first_index(pair, '=');
}

/// A body that is longer than can be shown is cut off at the limit, and it is
/// said that it was.
pub proof fn law_a_long_body_is_cut_off(body: Seq<char>)
    ensures
        body.len() <= 2000 ==> truncated(body) == (body, false),
        body.len() > 2000 ==> truncated(body).1 && truncated(body).0.len() == 2000
            && truncated(body).0 == body.take(2000),
{
}

/// A header or query parameter counts as added by authentication exactly where
/// it has a name that none had before; names of headers count alike in capital
/// and small letters.
pub proof fn law_what_authentication_added(
    before: Seq<(Seq<char>, Seq<char>)>,
    after: Seq<(Seq<char>, Seq<char>)>,
    fold: bool,
)
    ensures
        forall|k: int|
            0 <= k < added(before, after, fold).len() ==> after.contains(
                #[trigger] added(before, after, fold)[k],
            ) && forall|i: int|
                0 <= i < before.len() ==> if fold {
                    lower((#[trigger] before[i]).0) != lower(added(before, after, fold)[k].0)
                } else {
                    before[i].0 != added(before, after, fold)[k].0
                },
        forall|j: int|
            0 <= j < after.len() && (forall|i: int|
                0 <= i < before.len() ==> if fold {
                    lower((#[trigger] before[i]).0) != lower(after[j].0)
                } else {
                    before[i].0 != after[j].0
                }) ==> added(before, after, fold).contains(#[trigger] after[j]),
    decreases after.len(),
{
    if after.len() > 0 {
        let rest = after.drop_last();
        law_what_authentication_added(before, rest, fold);
        let part = added(before, rest, fold);
        let all = added(before, after, fold);
        let last = after.last();
        assert forall|k: int| 0 <= k < all.len() implies after.contains(#[trigger] all[k])
            && forall|i: int|
            0 <= i < before.len() ==> if fold {
                lower((#[trigger] before[i]).0) != lower(all[k].0)
            } else {
                before[i].0 != all[k].0
            } by {
            if k < part.len() {
                assert(all[k] == part[k]);
                let j = rest.index_of(part[k]);
                assert(after[j] == part[k]);
            } else {
                assert(all[k] == last);
                assert(after[after.len() - 1] == last);
                assert forall|i: int| 0 <= i < before.len() implies if fold {
                    lower((#[trigger] before[i]).0) != lower(last.0)
                } else {
                    before[i].0 != last.0
                } by {
                    assert(!crate::preview::same_name(before[i].0, last.0, fold));
                }
            }
        }
        assert forall|j: int|
            0 <= j < after.len() && (forall|i: int|
                0 <= i < before.len() ==> if fold {
                    lower((#[trigger] before[i]).0) != lower(after[j].0)
                } else {
                    before[i].0 != after[j].0
                }) implies all.contains(#[trigger] after[j]) by {
            if j < rest.len() {
                assert(rest[j] == after[j]);
                let k = part.index_of(rest[j]);
                assert(all[k] == part[k]);
            } else {
                assert(!crate::preview::names(before, last.0, fold));
                assert(all[all.len() - 1] == last);
            }
        }
    }
}

// ---------------------------------------------------------------------------
// Past runs and forms
// ---------------------------------------------------------------------------

/// The row of a past run tells of its age and its outcome; expanded it tells
/// more, each further line moved in.
pub proof fn law_the_row_of_a_past_run_tells_of_it(entry: RunHistoryEntry, now: int, i: int)
    ensures
        ({
            let (closed, open) = (entry_lines(entry, false, now), entry_lines(entry, true, now));
            let age = elapsed_text(entry.completed_at as int, now);
            &&& closed.len() == 1
            &&& entry.outcome.result matches Err(error) ==> closed[0] == ">"@ + " "@ + age
                + " ago  —  "@ + ("failed — "@ + error@) && open[0] == "v"@ + " "@ + age
                + " ago  —  "@ + ("failed — "@ + error@)
            &&& entry.outcome.result matches Ok(response) ==> (
            entry.outcome.assertions.results@.len() == 0 ==> closed[0] == ">"@ + " "@ + age
                + " ago  —  "@ + (decimal(response.status as nat) + ""@))
            &&& open.len() == 1 + lines(entry_text(entry.outcome)).len()
            &&& 0 <= i < lines(entry_text(entry.outcome)).len() ==> open[i + 1] == "    "@ + lines(
                entry_text(entry.outcome),
            )[i]
        }),
{
}

/// The note about forgotten runs says how many they were.
pub proof fn law_forgotten_runs_are_counted(dropped: int)
    requires
        dropped > 0,
    ensures
        dropped_notice(dropped) is Some,
        dropped_notice(dropped)->0.take(decimal(dropped as nat).len() as int) == decimal(
            dropped as nat,
        ),
{
    assert(dropped_notice(dropped)->0.take(decimal(dropped as nat).len() as int) =~= decimal(
        dropped as nat,
    ));
}

/// The form's lines tell of the name, the method and the address, and under
/// these of each header, by its number, name and value.
pub proof fn law_the_form_tells_of_its_fields(
    edit: EditModel,
    resolved: Seq<char>,
    tick: nat,
    i: usize,
)
    requires
        i < edit.headers.len(),
        edit.focus == EditField::Body,
    ensures
        ({
            let shown = pane_lines(edit, resolved, tick);
            &&& shown[0] == " "@ + " Name:   "@ + edit.name.value
            &&& shown[2] == " "@ + " Method: "@ + edit.method.value
            &&& shown[5] == " "@ + " URL:    "@ + edit.url.value
            &&& shown[8 + i] == " "@ + "["@ + decimal(i as nat) + "] Key: "@
                + edit.headers[i as int].key.value + "   "@ + " "@ + "Value: "@
                + edit.headers[i as int].value.value
        }),
{
    let head = head_lines(edit) + header_lines(edit);
    let shown = pane_lines(edit, resolved, tick);
    assert(shown.take(head.len() as int) =~= head);
    assert(forall|k: int| 0 <= k < head.len() ==> shown[k] == head[k]);
}

// ---------------------------------------------------------------------------
// Environments
// ---------------------------------------------------------------------------

/// Row `i` of the picker names environment `i`, with a star where it is the
/// active one, and beside the list stand the variables of the environment at
/// the cursor.
pub proof fn law_the_picker_tells_of_its_environments(s: SessionModel, cursor: usize, i: usize)
    requires
        s.environment_edit is None,
        i < s.environments.len(),
        cursor < s.environments.len(),
    ensures
        ({
            let view = environment_overlay_for(s, cursor);
            let at = s.environments[cursor as int];
            &&& view is Picker
            &&& view->Picker_rows.len() == s.environments.len()
            &&& view->Picker_rows[i as int] == (if s.active_environment == Some(i) {
                "* "@
            } else {
                "  "@
            }) + s.environments[i as int].name
            &&& view->Picker_picked == cursor
            &&& view->Picker_detail == join(variable_lines(at), "\n"@)
            &&& variable_lines(at)[0] == "Variables for '"@ + at.name + "':"@
            &&& forall|k: int|
                0 <= k < at.environment.variables.len() ==> #[trigger] variable_lines(at)[k + 1]
                    == "  "@ + at.environment.variables[k].0 + " = "@
                    + at.environment.variables[k].1
        }),
{
}

/// The form for variables has one line for each row, its name and its value,
/// and names the environment that it is for.
pub proof fn law_the_variables_form_shows_its_rows(s: SessionModel, cursor: usize, i: usize)
    requires
        s.environment_edit is Some,
        i < s.environment_edit->0.rows.len() <= usize::MAX,
    ensures
        ({
            let view = environment_overlay_for(s, cursor);
            let form = s.environment_edit->0;
            let row = form.rows[i as int];
            let shown = variable_row_lines(form);
            &&& view is Variables
            &&& shown.len() == form.rows.len()
            &&& form.focus != Some(EnvVarField::Name(i)) && form.focus != Some(
                EnvVarField::Value(i),
            ) ==> shown[i as int] == row.key.value + " = "@ + row.value.value
            &&& form.focus == Some(EnvVarField::Name(i)) ==> shown[i as int] == "»"@
                + row.key.value + "«"@ + " = "@ + row.value.value
            &&& form.focus == Some(EnvVarField::Value(i)) ==> shown[i as int] == row.key.value
                + " = "@ + ("»"@ + row.value.value + "«"@)
            &&& form.save_error is None ==> view->Variables_text == join(shown, "\n"@)
            &&& form.index < s.environments.len() ==> view->Variables_title
                == "Edit variables for '"@ + s.environments[form.index as int].name
                + "' — tab switch field, ctrl+n add, ctrl+d delete, ctrl+s save, esc cancel"@
        }),
{
}

} // verus!
