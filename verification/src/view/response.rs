//! What a run came to, live or from the list of past runs.
use std::collections::HashSet;

use vstd::prelude::*;

use crate::outside::{indent_json, json_indented};
use crate::run::{
    AssertionReport, AssertionResult, CaptureReport, CaptureResult, Response, RunHistoryEntry,
    RunOutcome, failures,
};
use crate::state::{HistoryOverlay, HistoryOverlayModel, RUN_HISTORY_CAP};
use crate::text::{
    copy_str, decimal, decimal_string, ends_with, ends_with_text, join, join_texts,
    lemma_first_index, lines, lines_of, lower, lower_text, one_text, opt_text, pairs_view,
    push_text, push_texts, same_ignoring_case, same_text, split, split_text, texts, trim,
    trim_text,
};
use crate::view::status::{assertion_counts, assertion_counts_text};
use crate::view::{error_text, format_error};

verus! {

broadcast use {vstd::std_specs::hash::group_hash_axioms, vstd::string::group_string_axioms};

/// What stands in for a captured value that was not revealed.
pub const REDACTED_CAPTURE_VALUE: &'static str = "<redacted>";

// ---------------------------------------------------------------------------
// The body
// ---------------------------------------------------------------------------

/// Whether a header says that the body is JSON.
pub open spec fn says_json(header: (Seq<char>, Seq<char>)) -> bool {
    let media_type = lower(trim(split(header.1, ';')[0]));
    lower(header.0) == lower("content-type"@) && (media_type == "application/json"@ || ends_with(
        media_type,
        "+json"@,
    ))
}

/// Whether some header says that the body is JSON.
pub open spec fn json_claimed(headers: Seq<(Seq<char>, Seq<char>)>) -> bool {
    exists|i: int| 0 <= i < headers.len() && says_json(#[trigger] headers[i])
}

fn header_says_json(name: &str, value: &str) -> (r: bool)
    ensures
        r == says_json((name@, value@)),
{
    if !same_ignoring_case(name, "content-type") {
        return false;
    }
    let parts = split_text(value, ';');
    proof {
        lemma_first_index(value@, ';');
        assert(split(value@, ';').len() > 0);
        assert(texts(parts@).len() == parts@.len());
        assert(texts(parts@)[0] == parts@[0]@);
    }
    let media_type = lower_text(trim_text(parts[0].as_str()).as_str());
    same_text(media_type.as_str(), "application/json") || ends_with_text(
        media_type.as_str(),
        "+json",
    )
}

/// Whether these headers say that the body is JSON.
pub fn claims_json(headers: &Vec<(String, String)>) -> (r: bool)
    ensures
        r == json_claimed(pairs_view(headers@)),
{
    let ghost model = pairs_view(headers@);
    let mut i: usize = 0;
    while i < headers.len()
        invariant
            i <= headers@.len(),
            model == pairs_view(headers@),
            forall|j: int| 0 <= j < i ==> !says_json(#[trigger] model[j]),
        decreases headers@.len() - i,
    {
        assert(model[i as int] == (headers@[i as int].0@, headers@[i as int].1@));
        if header_says_json(headers[i].0.as_str(), headers[i].1.as_str()) {
            return true;
        }
        i = i + 1;
    }
    false
}

/// The body as it is shown, where `indented` is the body over indented lines
/// and nothing where it is no JSON.
pub open spec fn shown_body(response: Response, indented: Option<Seq<char>>) -> Seq<char> {
    match indented {
        Some(text) => if json_claimed(pairs_view(response.headers@)) {
            text
        } else {
            response.body@
        },
        None => response.body@,
    }
}

/// The body as it is shown, where `indented` is the body over indented lines
/// and nothing where it is no JSON.
pub fn body_shown_as(response: &Response, indented: Option<String>) -> (r: String)
    ensures
        r@ == shown_body(*response, opt_text(indented)),
{
    match indented {
        Some(text) => if claims_json(&response.headers) {
            text
        } else {
            response.body.clone()
        },
        None => response.body.clone(),
    }
}

/// The body over indented lines where the headers say that it is JSON and it
/// is, and as it came otherwise.
pub fn body_for_display(response: &Response) -> (r: String)
    ensures
        r@ == shown_body(*response, json_indented(response.body@)),
{
    body_shown_as(response, indent_json(response.body.as_str()))
}

// ---------------------------------------------------------------------------
// The response, the assertions and the captures
// ---------------------------------------------------------------------------

/// The first line about a response: its status and how long it took.
pub open spec fn status_line(response: Response) -> Seq<char> {
    decimal(response.status as nat) + " "@ + response.status_text@ + "  "@ + decimal(
        response.elapsed_ms as nat,
    ) + " ms"@
}

fn status_line_text(response: &Response) -> (r: String)
    ensures
        r@ == status_line(*response),
{
    let mut line = decimal_string(response.status as u64);
    line.append(" ");
    line.append(response.status_text.as_str());
    line.append("  ");
    line.append(decimal_string(response.elapsed_ms).as_str());
    line.append(" ms");
    line
}

/// One line for each header.
pub open spec fn header_lines(headers: Seq<(Seq<char>, Seq<char>)>) -> Seq<Seq<char>> {
    Seq::new(headers.len(), |i: int| headers[i].0 + ": "@ + headers[i].1)
}

fn header_line_texts(headers: &Vec<(String, String)>) -> (r: Vec<String>)
    ensures
        texts(r@) == header_lines(pairs_view(headers@)),
{
    let mut r: Vec<String> = Vec::new();
    let mut i: usize = 0;
    while i < headers.len()
        invariant
            i <= headers@.len(),
            texts(r@) =~= header_lines(pairs_view(headers@)).take(i as int),
        decreases headers@.len() - i,
    {
        let mut line = headers[i].0.clone();
        line.append(": ");
        line.append(headers[i].1.as_str());
        push_text(&mut r, line);
        i = i + 1;
    }
    r
}

/// The lines about a response whose body is shown as `body`.
pub open spec fn response_lines(response: Response, body: Seq<char>) -> Seq<Seq<char>> {
    seq![status_line(response)] + header_lines(pairs_view(response.headers@)) + (
    if response.body@.len() > 0 {
        seq![""@, body]
    } else {
        seq![]
    })
}

/// A response laid out, its body over indented lines where it is JSON.
pub open spec fn response_text(response: Response) -> Seq<char> {
    join(
        response_lines(response, shown_body(response, json_indented(response.body@))),
        "\n"@,
    )
}

/// A response laid out: its status line, its headers in the order it carried
/// them and, where it has one, its body.
pub fn format_response(response: &Response) -> (r: String)
    ensures
        r@ == response_text(*response),
{
    let mut shown = one_text(status_line_text(response));
    push_texts(&mut shown, header_line_texts(&response.headers));
    if response.body.as_str().unicode_len() > 0 {
        push_text(&mut shown, "".to_owned());
        push_text(&mut shown, body_for_display(response));
    }
    assert(texts(shown@) =~= response_lines(
        *response,
        shown_body(*response, json_indented(response.body@)),
    ));
    join_texts(&shown, "\n")
}

/// The line about one assertion.
pub open spec fn assertion_line(result: AssertionResult) -> Seq<char> {
    match result.failure {
        None => "  ✓ "@ + result.expectation@,
        Some(detail) => "  ✗ "@ + result.expectation@ + " — "@ + detail@,
    }
}

fn assertion_line_text(result: &AssertionResult) -> (r: String)
    ensures
        r@ == assertion_line(*result),
{
    match &result.failure {
        None => {
            let mut line = "  ✓ ".to_owned();
            line.append(result.expectation.as_str());
            line
        },
        Some(detail) => {
            let mut line = "  ✗ ".to_owned();
            line.append(result.expectation.as_str());
            line.append(" — ");
            line.append(detail.as_str());
            line
        },
    }
}

/// The last line about the assertions: how many held and, unless all did, how
/// many did not.
pub open spec fn assertion_summary(results: Seq<AssertionResult>) -> Seq<char> {
    let passed = (results.len() - failures(results)) as nat;
    if failures(results) == 0 {
        "  "@ + decimal(passed) + " passed"@
    } else {
        "  "@ + decimal(passed) + " passed, "@ + decimal(failures(results)) + " failed"@
    }
}

/// The section about the assertions.
pub open spec fn assertions_text(report: AssertionReport) -> Seq<char> {
    let results = report.results@;
    if results.len() == 0 {
        "assertions\n  no assertions declared"@
    } else {
        join(
            seq!["assertions"@] + Seq::new(results.len(), |i: int| assertion_line(results[i]))
                + seq![assertion_summary(results)],
            "\n"@,
        )
    }
}

/// The section about the assertions: one line for each, and how many held.
pub fn format_assertions(report: &AssertionReport) -> (r: String)
    ensures
        r@ == assertions_text(*report),
{
    if report.is_empty() {
        return "assertions\n  no assertions declared".to_owned();
    }
    let ghost results = report.results@;
    let ghost about = Seq::new(results.len(), |i: int| assertion_line(results[i]));
    let mut shown = one_text("assertions".to_owned());
    let mut i: usize = 0;
    while i < report.results.len()
        invariant
            i <= report.results@.len(),
            results == report.results@,
            about == Seq::new(results.len(), |i: int| assertion_line(results[i])),
            texts(shown@) =~= seq!["assertions"@] + about.take(i as int),
        decreases report.results@.len() - i,
    {
        push_text(&mut shown, assertion_line_text(&report.results[i]));
        i = i + 1;
    }
    let mut summary = "  ".to_owned();
    summary.append(decimal_string(report.passed_count() as u64).as_str());
    if report.passed() {
        summary.append(" passed");
    } else {
        summary.append(" passed, ");
        summary.append(decimal_string(report.failed_count() as u64).as_str());
        summary.append(" failed");
    }
    push_text(&mut shown, summary);
    assert(about.take(i as int) =~= about);
    assert(texts(shown@) =~= seq!["assertions"@] + about + seq![assertion_summary(results)]);
    join_texts(&shown, "\n")
}

/// The line about one capture: its value, redacted unless `reveal`, or why
/// there is none.
pub open spec fn capture_line(result: CaptureResult, reveal: bool) -> Seq<char> {
    let from = result.variable@ + " from `"@ + result.path@ + "`"@;
    match result.value {
        Ok(value) => "  ✓ "@ + from + " = "@ + (if reveal {
            value@
        } else {
            "<redacted>"@
        }),
        Err(failure) => "  ✗ "@ + from + " — "@ + failure@,
    }
}

fn capture_line_text(result: &CaptureResult, reveal: bool) -> (r: String)
    ensures
        r@ == capture_line(*result, reveal),
{
    let mut from = result.variable.clone();
    from.append(" from `");
    from.append(result.path.as_str());
    from.append("`");
    match &result.value {
        Ok(value) => {
            let mut line = "  ✓ ".to_owned();
            line.append(from.as_str());
            line.append(" = ");
            line.append(
                if reveal {
                    value.as_str()
                } else {
                    REDACTED_CAPTURE_VALUE
                },
            );
            line
        },
        Err(failure) => {
            let mut line = "  ✗ ".to_owned();
            line.append(from.as_str());
            line.append(" — ");
            line.append(failure.as_str());
            line
        },
    }
}

/// The section about the captures.
pub open spec fn captures_text(report: CaptureReport, reveal: bool) -> Seq<char> {
    let results = report.results@;
    if results.len() == 0 {
        "capture\n  no captures declared"@
    } else {
        join(
            seq!["capture"@] + Seq::new(
                results.len(),
                |i: int| capture_line(results[i], reveal),
            ),
            "\n"@,
        )
    }
}

/// The section about the captures: one line for each, its value redacted
/// unless `reveal`. Failures are always shown.
pub fn format_capture_section(report: &CaptureReport, reveal: bool) -> (r: String)
    ensures
        r@ == captures_text(*report, reveal),
{
    if report.is_empty() {
        return "capture\n  no captures declared".to_owned();
    }
    let ghost results = report.results@;
    let ghost about = Seq::new(results.len(), |i: int| capture_line(results[i], reveal));
    let mut shown = one_text("capture".to_owned());
    let mut i: usize = 0;
    while i < report.results.len()
        invariant
            i <= report.results@.len(),
            results == report.results@,
            about == Seq::new(results.len(), |i: int| capture_line(results[i], reveal)),
            texts(shown@) =~= seq!["capture"@] + about.take(i as int),
        decreases report.results@.len() - i,
    {
        push_text(&mut shown, capture_line_text(&report.results[i], reveal));
        i = i + 1;
    }
    assert(about.take(i as int) =~= about);
    join_texts(&shown, "\n")
}

// ---------------------------------------------------------------------------
// A whole run
// ---------------------------------------------------------------------------

/// A response's text followed by what was checked and captured.
pub open spec fn with_sections(text: Seq<char>, outcome: RunOutcome, reveal: bool) -> Seq<char> {
    text + "\n"@ + assertions_text(outcome.assertions) + "\n"@ + captures_text(
        outcome.capture,
        reveal,
    )
}

/// What is said of a run: its response, what was checked and what was
/// captured, or the error.
pub open spec fn run_text(outcome: RunOutcome, reveal: bool) -> Seq<char> {
    match outcome.result {
        Ok(response) => with_sections(response_text(response), outcome, reveal),
        Err(error) => error_text("Request failed"@, error@),
    }
}

/// What is said of a run: its response, what was checked and what was
/// captured, or the error.
pub fn format_run_result(outcome: &RunOutcome, reveal_captures: bool) -> (r: String)
    ensures
        r@ == run_text(*outcome, reveal_captures),
{
    match &outcome.result {
        Ok(response) => {
            let mut text = format_response(response);
            text.append("\n");
            text.append(format_assertions(&outcome.assertions).as_str());
            text.append("\n");
            text.append(format_capture_section(&outcome.capture, reveal_captures).as_str());
            text
        },
        Err(error) => format_error("Request failed", error.as_str()),
    }
}

// ---------------------------------------------------------------------------
// The panel
// ---------------------------------------------------------------------------

/// What is said of a run, scrolled to a line that leaves no row empty that
/// could be filled, and the line under it that says so.
#[derive(Debug, PartialEq, Eq)]
pub struct ResponsePanel {
    pub text: String,
    /// The first line that is shown, counted from 0.
    pub scroll: usize,
    pub footer: String,
}

#[verifier::ext_equal]
pub struct ResponsePanelModel {
    pub text: Seq<char>,
    pub scroll: int,
    pub footer: Seq<char>,
}

impl View for ResponsePanel {
    type V = ResponsePanelModel;

    open spec fn view(&self) -> ResponsePanelModel {
        ResponsePanelModel {
            text: self.text@,
            scroll: self.scroll as int,
            footer: self.footer@,
        }
    }
}

/// The smaller of two numbers.
pub open spec fn smaller(a: int, b: int) -> int {
    if a < b {
        a
    } else {
        b
    }
}

/// The larger of two numbers.
pub open spec fn larger(a: int, b: int) -> int {
    if a > b {
        a
    } else {
        b
    }
}

/// The first line that is shown of `total` lines over `height` rows, where
/// `scroll` was asked for: no further down than is needed to show the last
/// line.
pub open spec fn clamped_scroll(scroll: int, total: int, height: int) -> int {
    smaller(scroll, larger(total - larger(height, 1), 0))
}

/// The line under a response: which of its lines are shown, and the keys.
pub open spec fn panel_footer(
    first: int,
    total: int,
    height: int,
    captures: bool,
    reveal: bool,
) -> Seq<char> {
    "Line "@ + decimal(smaller(first + 1, larger(total, 1)) as nat) + "-"@ + decimal(
        smaller(first + height, total) as nat,
    ) + " of "@ + decimal(total as nat) + " — PgUp/PgDn to scroll"@ + (if !captures {
        ""@
    } else if reveal {
        "  |  c: hide captures"@
    } else {
        "  |  c: reveal captures"@
    })
}

/// What is said of a run over `height` rows.
pub open spec fn panel_for(
    outcome: RunOutcome,
    height: int,
    scroll: int,
    reveal: bool,
) -> ResponsePanelModel {
    let text = run_text(outcome, reveal);
    let total = lines(text).len() as int;
    let first = clamped_scroll(scroll, total, height);
    ResponsePanelModel {
        text,
        scroll: first,
        footer: panel_footer(first, total, height, outcome.capture.results@.len() > 0, reveal),
    }
}

/// What is said of a run, over `height` rows and scrolled to a line.
pub fn response_panel(
    outcome: &RunOutcome,
    height: u16,
    scroll: usize,
    reveal_captures: bool,
) -> (r: ResponsePanel)
    ensures
        r@ == panel_for(*outcome, height as int, scroll as int, reveal_captures),
{
    let text = format_run_result(outcome, reveal_captures);
    let shown = lines_of(text.as_str());
    let total: usize = shown.len();
    assert(texts(shown@).len() == shown@.len());
    let rows: usize = height as usize;
    let window: usize = if rows > 1 {
        rows
    } else {
        1
    };
    let max_scroll: usize = if total > window {
        total - window
    } else {
        0
    };
    let first: usize = if scroll < max_scroll {
        scroll
    } else {
        max_scroll
    };
    let first_shown: usize = if total == 0 {
        1
    } else if first < total {
        first + 1
    } else {
        total
    };
    let last_shown: usize = if rows < total && first < total - rows {
        first + rows
    } else {
        total
    };
    let mut footer = "Line ".to_owned();
    footer.append(decimal_string(first_shown as u64).as_str());
    footer.append("-");
    footer.append(decimal_string(last_shown as u64).as_str());
    footer.append(" of ");
    footer.append(decimal_string(total as u64).as_str());
    footer.append(" — PgUp/PgDn to scroll");
    footer.append(
        if outcome.capture.is_empty() {
            ""
        } else if reveal_captures {
            "  |  c: hide captures"
        } else {
            "  |  c: reveal captures"
        },
    );
    ResponsePanel { text, scroll: first, footer }
}

// ---------------------------------------------------------------------------
// Past runs
// ---------------------------------------------------------------------------

/// How long ago something was, in its coarsest unit. A moment that is still
/// to come was just now.
pub open spec fn elapsed_text(when: int, now: int) -> Seq<char> {
    let secs = (now - when) / 1000;
    if now < when || secs == 0 {
        "just now"@
    } else if secs < 60 {
        decimal(secs as nat) + "s"@
    } else if secs < 3600 {
        decimal((secs / 60) as nat) + "m"@
    } else {
        decimal((secs / 3600) as nat) + "h"@
    }
}

/// How long before `now` the moment `when` was, both in milliseconds.
pub fn format_elapsed(when: u64, now: u64) -> (r: String)
    ensures
        r@ == elapsed_text(when as int, now as int),
{
    if now < when {
        return "just now".to_owned();
    }
    let secs: u64 = (now - when) / 1000;
    if secs == 0 {
        return "just now".to_owned();
    }
    let mut text = if secs < 60 {
        decimal_string(secs)
    } else if secs < 3600 {
        decimal_string(secs / 60)
    } else {
        decimal_string(secs / 3600)
    };
    text.append(
        if secs < 60 {
            "s"
        } else if secs < 3600 {
            "m"
        } else {
            "h"
        },
    );
    text
}

/// What is said of a past run beyond its line in the list. Captured values
/// are never revealed here.
pub open spec fn entry_text(outcome: RunOutcome) -> Seq<char> {
    match outcome.result {
        Ok(response) => with_sections(status_line(response), outcome, false),
        Err(error) => error_text("Request failed"@, error@),
    }
}

/// Each line moved in.
pub open spec fn moved_in(shown: Seq<Seq<char>>) -> Seq<Seq<char>> {
    Seq::new(shown.len(), |i: int| "    "@ + shown[i])
}

/// The lines about a past run beyond its line in the list.
pub fn format_history_entry_detail(entry: &RunHistoryEntry) -> (r: Vec<String>)
    ensures
        texts(r@) == moved_in(lines(entry_text(entry.outcome))),
{
    let body = match &entry.outcome.result {
        Ok(response) => {
            let mut text = status_line_text(response);
            text.append("\n");
            text.append(format_assertions(&entry.outcome.assertions).as_str());
            text.append("\n");
            text.append(format_capture_section(&entry.outcome.capture, false).as_str());
            text
        },
        Err(error) => format_error("Request failed", error.as_str()),
    };
    let shown = lines_of(body.as_str());
    let ghost model = lines(entry_text(entry.outcome));
    let mut r: Vec<String> = Vec::new();
    let mut i: usize = 0;
    while i < shown.len()
        invariant
            i <= shown@.len(),
            texts(shown@) == model,
            texts(r@) =~= moved_in(model).take(i as int),
        decreases shown@.len() - i,
    {
        assert(model[i as int] == shown@[i as int]@);
        assert(texts(shown@).len() == shown@.len());
        let mut line = "    ".to_owned();
        line.append(shown[i].as_str());
        push_text(&mut r, line);
        i = i + 1;
    }
    assert(texts(shown@).len() == shown@.len());
    r
}

/// The line of a past run in the list.
pub open spec fn entry_heading(entry: RunHistoryEntry, expanded: bool, now: int) -> Seq<char> {
    (if expanded {
        "v"@
    } else {
        ">"@
    }) + " "@ + elapsed_text(entry.completed_at as int, now) + " ago  —  "@ + (
    match entry.outcome.result {
        Ok(response) => decimal(response.status as nat) + assertion_counts(
            entry.outcome.assertions,
        ),
        Err(error) => "failed — "@ + error@,
    })
}

/// The lines of a past run in the list.
pub open spec fn entry_lines(entry: RunHistoryEntry, expanded: bool, now: int) -> Seq<Seq<char>> {
    if expanded {
        seq![entry_heading(entry, expanded, now)] + moved_in(lines(entry_text(entry.outcome)))
    } else {
        seq![entry_heading(entry, expanded, now)]
    }
}

/// The lines of a past run in the list.
pub fn history_entry_lines(entry: &RunHistoryEntry, expanded: bool, now: u64) -> (r: Vec<String>)
    ensures
        texts(r@) == entry_lines(*entry, expanded, now as int),
{
    let summary = match &entry.outcome.result {
        Ok(response) => {
            let mut text = decimal_string(response.status as u64);
            text.append(assertion_counts_text(&entry.outcome.assertions).as_str());
            text
        },
        Err(error) => {
            let mut text = "failed — ".to_owned();
            text.append(error.as_str());
            text
        },
    };
    let mut heading = copy_str(
        if expanded {
            "v"
        } else {
            ">"
        },
    );
    heading.append(" ");
    heading.append(format_elapsed(entry.completed_at, now).as_str());
    heading.append(" ago  —  ");
    heading.append(summary.as_str());
    let mut shown = one_text(heading);
    if expanded {
        push_texts(&mut shown, format_history_entry_detail(entry));
    }
    shown
}

/// The list of past runs, or one of them.
#[derive(Debug, PartialEq, Eq)]
pub enum HistoryView {
    /// There is nothing to list.
    Notice { title: String, text: String },
    /// There is nothing left of the run that was shown.
    Gone { title: String, text: String },
    /// One past run in full.
    Entry { title: String, panel: ResponsePanel },
    /// The lines of each past run, the one that is picked, and what is said of
    /// those that were forgotten.
    Entries { title: String, rows: Vec<Vec<String>>, picked: usize, dropped: Option<String> },
}

#[verifier::ext_equal]
pub enum HistoryViewModel {
    Notice { title: Seq<char>, text: Seq<char> },
    Gone { title: Seq<char>, text: Seq<char> },
    Entry { title: Seq<char>, panel: ResponsePanelModel },
    Entries {
        title: Seq<char>,
        rows: Seq<Seq<Seq<char>>>,
        picked: int,
        dropped: Option<Seq<char>>,
    },
}

/// Lists of lines by value.
pub open spec fn row_texts(v: Seq<Vec<String>>) -> Seq<Seq<Seq<char>>> {
    Seq::new(v.len(), |i: int| texts(v[i]@))
}

impl View for HistoryView {
    type V = HistoryViewModel;

    open spec fn view(&self) -> HistoryViewModel {
        match *self {
            HistoryView::Notice { title, text } => HistoryViewModel::Notice {
                title: title@,
                text: text@,
            },
            HistoryView::Gone { title, text } => HistoryViewModel::Gone {
                title: title@,
                text: text@,
            },
            HistoryView::Entry { title, panel } => HistoryViewModel::Entry {
                title: title@,
                panel: panel@,
            },
            HistoryView::Entries { title, rows, picked, dropped } => HistoryViewModel::Entries {
                title: title@,
                rows: row_texts(rows@),
                picked: picked as int,
                dropped: opt_text(dropped),
            },
        }
    }
}

/// What is said of the runs that were forgotten, where some were.
pub open spec fn dropped_notice(dropped: int) -> Option<Seq<char>> {
    if dropped == 0 {
        None
    } else {
        Some(
            decimal(dropped as nat) + " older "@ + (if dropped == 1 {
                "run"@
            } else {
                "runs"@
            }) + " dropped (history capped at "@ + decimal(RUN_HISTORY_CAP as nat)
                + " per request)"@,
        )
    }
}

/// The lines of each past run.
pub open spec fn history_rows(
    entries: Seq<RunHistoryEntry>,
    expanded: Set<usize>,
    now: int,
) -> Seq<Seq<Seq<char>>> {
    Seq::new(
        entries.len(),
        |i: int| entry_lines(entries[i], expanded.contains(i as usize), now),
    )
}

/// The list of past runs, or the one that is shown in full over `height` rows.
pub open spec fn history_for(
    entries: Seq<RunHistoryEntry>,
    dropped: int,
    overlay: HistoryOverlayModel,
    now: int,
    height: int,
) -> HistoryViewModel {
    match overlay.viewing {
        Some(index) => if index < entries.len() {
            let entry = entries[index as int];
            HistoryViewModel::Entry {
                title: "Run history — "@ + elapsed_text(entry.completed_at as int, now)
                    + " ago (esc back)"@,
                panel: panel_for(
                    entry.outcome,
                    height,
                    overlay.view_scroll as int,
                    overlay.view_reveal_captures,
                ),
            }
        } else {
            HistoryViewModel::Gone {
                title: "Run history (esc back)"@,
                text: "This run is no longer available."@,
            }
        },
        None => if entries.len() == 0 {
            HistoryViewModel::Notice {
                title: "Run history — Enter to view, Space to expand, Esc to close"@,
                text: "No runs yet for this request. Press enter/r to run it."@,
            }
        } else {
            HistoryViewModel::Entries {
                title: "Run history — Enter to view, Space to expand, Esc to close"@,
                rows: history_rows(entries, overlay.expanded, now),
                picked: smaller(overlay.cursor as int, entries.len() - 1),
                dropped: dropped_notice(dropped),
            }
        },
    }
}

fn history_row_texts(
    entries: &[RunHistoryEntry],
    expanded: &HashSet<usize>,
    now: u64,
) -> (r: Vec<Vec<String>>)
    ensures
        row_texts(r@) == history_rows(entries@, expanded@, now as int),
{
    let mut rows: Vec<Vec<String>> = Vec::new();
    let mut i: usize = 0;
    while i < entries.len()
        invariant
            i <= entries@.len(),
            row_texts(rows@) =~= history_rows(entries@, expanded@, now as int).take(i as int),
        decreases entries@.len() - i,
    {
        let ghost so_far = row_texts(rows@);
        let row = history_entry_lines(&entries[i], expanded.contains(&i), now);
        let ghost shown = texts(row@);
        rows.push(row);
        assert(row_texts(rows@) =~= so_far.push(shown));
        i = i + 1;
    }
    rows
}

/// The list of past runs, or the one that is shown in full over `height` rows,
/// `now` being the time in milliseconds.
pub fn history_view(
    entries: &[RunHistoryEntry],
    dropped: usize,
    overlay: &HistoryOverlay,
    now: u64,
    height: u16,
) -> (r: HistoryView)
    ensures
        r@ == history_for(entries@, dropped as int, overlay@, now as int, height as int),
{
    if let Some(index) = overlay.viewing {
        if index < entries.len() {
            let mut title = "Run history — ".to_owned();
            title.append(format_elapsed(entries[index].completed_at, now).as_str());
            title.append(" ago (esc back)");
            let panel = response_panel(
                &entries[index].outcome,
                height,
                overlay.view_scroll,
                overlay.view_reveal_captures,
            );
            return HistoryView::Entry { title, panel };
        }
        return HistoryView::Gone {
            title: "Run history (esc back)".to_owned(),
            text: "This run is no longer available.".to_owned(),
        };
    }
    let title = "Run history — Enter to view, Space to expand, Esc to close".to_owned();
    if entries.len() == 0 {
        return HistoryView::Notice {
            title,
            text: "No runs yet for this request. Press enter/r to run it.".to_owned(),
        };
    }
    let rows = history_row_texts(entries, &overlay.expanded, now);
    let last: usize = entries.len() - 1;
    let picked: usize = if overlay.cursor < last {
        overlay.cursor
    } else {
        last
    };
    let notice = if dropped == 0 {
        None
    } else {
        let mut text = decimal_string(dropped as u64);
        text.append(" older ");
        text.append(
            if dropped == 1 {
                "run"
            } else {
                "runs"
            },
        );
        text.append(" dropped (history capped at ");
        text.append(decimal_string(RUN_HISTORY_CAP as u64).as_str());
        text.append(" per request)");
        Some(text)
    };
    HistoryView::Entries { title, rows, picked, dropped: notice }
}

} // verus!
