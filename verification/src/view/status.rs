//! The bottom bar: what happened, and the keys that do something now.
use vstd::prelude::*;

use crate::edit::EditModel;
use crate::preview::{AuthPreview, AuthPreviewModel, added_by_auth_names, added_names};
use crate::prompt::{ConfirmPrompt, ConfirmPromptModel};
use crate::run::{AssertionReport, RunOutcome, failures};
use crate::state::{
    AppModel, AppState, HistoryOverlayModel, LoadState, RunState, SessionModel,
};
use crate::text::{
    chars_of, contains, contains_text, copy_str, decimal, decimal_string, split_once,
    split_text_once,
};
use crate::variables_form::EnvironmentEditModel;

verus! {

broadcast use vstd::string::group_string_axioms;

// ---------------------------------------------------------------------------
// The spinner
// ---------------------------------------------------------------------------

/// The frames of the spinner, one for each step of its clock.
pub open spec fn spinner_frame(tick: nat) -> char {
    let frame = tick % 8;
    if frame == 0 {
        '⠋'
    } else if frame == 1 {
        '⠙'
    } else if frame == 2 {
        '⠹'
    } else if frame == 3 {
        '⠸'
    } else if frame == 4 {
        '⠼'
    } else if frame == 5 {
        '⠴'
    } else if frame == 6 {
        '⠦'
    } else {
        '⠧'
    }
}

/// The spinner's frame at a step of its clock.
pub fn spinner_char(tick: usize) -> (r: char)
    ensures
        r == spinner_frame(tick as nat),
{
    match tick % 8 {
        0 => '⠋',
        1 => '⠙',
        2 => '⠹',
        3 => '⠸',
        4 => '⠼',
        5 => '⠴',
        6 => '⠦',
        _ => '⠧',
    }
}

/// Whether a character is a frame of the spinner.
pub open spec fn is_spinner_frame(c: char) -> bool {
    exists|tick: nat| c == #[trigger] spinner_frame(tick)
}

fn is_spinner_char(c: char) -> (r: bool)
    ensures
        r == is_spinner_frame(c),
{
    let mut tick: usize = 0;
    while tick < 8
        invariant
            tick <= 8,
            forall|t: nat| t < tick ==> c != #[trigger] spinner_frame(t),
        decreases 8 - tick,
    {
        if spinner_char(tick) == c {
            return true;
        }
        tick = tick + 1;
    }
    proof {
        assert forall|t: nat| c != #[trigger] spinner_frame(t) by {
            let u = (t % 8) as nat;
            assert(u % 8 == u);
            assert(spinner_frame(u) == spinner_frame(t));
        }
    }
    false
}

// ---------------------------------------------------------------------------
// Parts of the line
// ---------------------------------------------------------------------------

/// The line while a question is open.
pub open spec fn confirm_status(prompt: ConfirmPromptModel) -> Seq<char> {
    prompt.message + (if prompt.error is Some {
        "  (failed — see message)"@
    } else {
        ""@
    }) + "  |  y/enter confirm  n/esc cancel  q quit"@
}

/// The line while a question is open.
pub fn confirm_status_line(prompt: &ConfirmPrompt) -> (r: String)
    ensures
        r@ == confirm_status(prompt@),
{
    let mut line = prompt.message.clone();
    line.append(
        if prompt.error.is_some() {
            "  (failed — see message)"
        } else {
            ""
        },
    );
    line.append("  |  y/enter confirm  n/esc cancel  q quit");
    line
}

/// The hint about tabs, once there is more than one.
pub open spec fn tabs_hint(tabs: nat) -> Seq<char> {
    if tabs > 1 {
        "  [/] tabs  ctrl+w close"@
    } else {
        ""@
    }
}

/// The hint about tabs, once there is more than one.
pub fn tab_hint(state: &AppState) -> (r: &'static str)
    ensures
        r@ == tabs_hint(state@.collections.len()),
{
    if state.collections.len() > 1 {
        "  [/] tabs  ctrl+w close"
    } else {
        ""
    }
}

/// The hint about revealing what authentication adds to the selected request,
/// where it adds anything. `preview` is that request before and after its
/// authentication was filled in, where that succeeded.
pub open spec fn auth_reveal_hint(
    s: SessionModel,
    preview: Option<AuthPreviewModel>,
) -> Seq<char> {
    match preview {
        Some(p) => {
            let (headers, query) = added_names(p.substituted, p.resolved);
            if s.request_selected() && (headers.len() > 0 || query.len() > 0) {
                "  c reveal/hide auth"@
            } else {
                ""@
            }
        },
        None => ""@,
    }
}

/// A preview that succeeded, by value.
pub open spec fn opt_preview(o: Option<&AuthPreview>) -> Option<AuthPreviewModel> {
    match o {
        Some(p) => Some(p@),
        None => None,
    }
}

/// The hint about revealing what authentication adds to the selected request,
/// where it adds anything.
pub fn idle_reveal_hint(state: &AppState, preview: Option<&AuthPreview>) -> (r: &'static str)
    requires
        state@.tabs_valid(),
    ensures
        r@ == auth_reveal_hint(state@.active(), opt_preview(preview)),
{
    if !crate::update::request_edit::request_is_selected(state.active()) {
        return "";
    }
    match preview {
        Some(preview) => {
            let (headers, query) = added_by_auth_names(&preview.substituted, &preview.resolved);
            proof {
                assert(crate::text::texts(headers@).len() == headers@.len());
                assert(crate::text::texts(query@).len() == query@.len());
            }
            if headers.len() > 0 || query.len() > 0 {
                "  c reveal/hide auth"
            } else {
                ""
            }
        },
        None => "",
    }
}

/// How many assertions held and how many did not, where there were any.
pub open spec fn assertion_counts(report: AssertionReport) -> Seq<char> {
    if report.results@.len() == 0 {
        ""@
    } else {
        " — "@ + decimal((report.results@.len() - failures(report.results@)) as nat) + " passed, "@
            + decimal(failures(report.results@)) + " failed"@
    }
}

/// How many assertions held and how many did not, where there were any.
pub fn assertion_counts_text(report: &AssertionReport) -> (r: String)
    ensures
        r@ == assertion_counts(*report),
{
    if report.is_empty() {
        return "".to_owned();
    }
    let mut text = " — ".to_owned();
    text.append(decimal_string(report.passed_count() as u64).as_str());
    text.append(" passed, ");
    text.append(decimal_string(report.failed_count() as u64).as_str());
    text.append(" failed");
    text
}

/// What is said of the last run.
pub open spec fn outcome_status(outcome: RunOutcome) -> Seq<char> {
    match outcome.result {
        Ok(response) => "Done — "@ + decimal(response.status as nat) + assertion_counts(
            outcome.assertions,
        ),
        Err(error) => "Failed — "@ + error@,
    }
}

fn outcome_status_text(outcome: &RunOutcome) -> (r: String)
    ensures
        r@ == outcome_status(*outcome),
{
    match &outcome.result {
        Ok(response) => {
            let mut text = "Done — ".to_owned();
            text.append(decimal_string(response.status as u64).as_str());
            text.append(assertion_counts_text(&outcome.assertions).as_str());
            text
        },
        Err(error) => {
            let mut text = "Failed — ".to_owned();
            text.append(error.as_str());
            text
        },
    }
}

// ---------------------------------------------------------------------------
// The line
// ---------------------------------------------------------------------------

/// The line while the path of a collection is asked for.
pub open spec fn open_status(failed: bool) -> Seq<char> {
    "Open collection"@ + (if failed {
        "  (open failed — see message)"@
    } else {
        ""@
    }) + "  |  enter confirm  esc cancel  q quit"@
}

/// The line while an environment's variables are edited.
pub open spec fn variables_status(form: EnvironmentEditModel) -> Seq<char> {
    match form.pending_delete {
        Some(pending) => confirm_status(pending.prompt),
        None => "Editing variables"@ + (if form.save_error is Some {
            "  (save failed — see message)"@
        } else {
            ""@
        }) + "  |  tab/shift+tab switch field  ctrl+n add  ctrl+d delete  ctrl+s save  esc cancel  q quit"@,
    }
}

/// The line while the list of past runs, or one of them, is open.
pub open spec fn history_status(s: SessionModel, overlay: HistoryOverlayModel) -> Seq<char> {
    match overlay.viewing {
        Some(index) => "PgUp/PgDn/Home/End scroll"@ + (if index < s.selected_history().len()
            && s.selected_history()[index as int].outcome.capture.results@.len() > 0 {
            "  c reveal/hide captures"@
        } else {
            ""@
        }) + "  esc back  q quit"@,
        None => "↑/↓ nav  enter view  space expand  esc close  q quit"@,
    }
}

/// The line while a request is edited.
pub open spec fn edit_status(edit: EditModel) -> Seq<char> {
    "Editing"@ + (if edit.dirty {
        " (unsaved changes)"@
    } else {
        ""@
    }) + (if edit.method_error is Some {
        "  (fix method to save)"@
    } else {
        ""@
    }) + "  |  tab/shift+tab switch field  ctrl+n add header  ctrl+d delete header  ctrl+s save  esc cancel  q quit"@
}

/// The line while nothing is open over the requests.
pub open spec fn browsing_status(a: AppModel, preview: Option<AuthPreviewModel>) -> Seq<char> {
    let s = a.active();
    if !(s.load_state is Loaded) {
        "e env  o open"@ + tabs_hint(a.collections.len()) + "  q quit"@
    } else {
        match s.run_state {
            RunState::Idle => "↑/↓ nav  enter/r run  i edit  n new request  d delete  e env  o open"@
                + tabs_hint(a.collections.len()) + auth_reveal_hint(s, preview) + "  q quit"@,
            RunState::InFlight => seq![spinner_frame(a.spinner_tick as nat)]
                + " Running request...  |  q quit"@,
            RunState::Completed => {
                let outcome = s.current_run()->0;
                outcome_status(outcome)
                    + "  |  ↑/↓ nav  enter/r run again  PgUp/PgDn/Home/End scroll"@ + (
                if outcome.capture.results@.len() == 0 {
                    ""@
                } else {
                    "  c reveal/hide captures"@
                }) + "  i edit  n new request  d delete  e env  o open  h history"@ + tabs_hint(
                    a.collections.len(),
                ) + "  q quit"@
            },
        }
    }
}

/// The bottom bar's text: what happened, where something did, and the keys
/// that do something now.
pub open spec fn help_text(a: AppModel, preview: Option<AuthPreviewModel>) -> Seq<char> {
    let s = a.active();
    if a.quit_confirm is Some {
        confirm_status(a.quit_confirm->0)
    } else if a.close_confirm is Some {
        confirm_status(a.close_confirm->0.prompt)
    } else if a.open_collection_prompt is Some {
        open_status(a.open_collection_prompt->0.error is Some)
    } else if s.delete_confirm is Some {
        confirm_status(s.delete_confirm->0.prompt)
    } else if s.environment_edit is Some {
        variables_status(s.environment_edit->0)
    } else if s.environment_overlay is Some {
        "↑/↓ nav  enter confirm  i edit variables  esc cancel  q quit"@
    } else if s.history_overlay is Some {
        history_status(s, s.history_overlay->0)
    } else if s.edit_mode is Some {
        edit_status(s.edit_mode->0)
    } else {
        browsing_status(a, preview)
    }
}

/// Whether a session that has finished running its selected request remembers
/// the run.
pub open spec fn completed_run_known(s: SessionModel) -> bool {
    s.load_state is Loaded && s.run_state == RunState::Completed ==> s.selected_history().len()
        > 0
}

fn browsing_status_text(state: &AppState, preview: Option<&AuthPreview>) -> (r: String)
    requires
        state@.tabs_valid(),
        completed_run_known(state@.active()),
    ensures
        r@ == browsing_status(state@, opt_preview(preview)),
{
    let session = state.active();
    if !matches!(session.load_state, LoadState::Loaded { .. }) {
        let mut line = "e env  o open".to_owned();
        line.append(tab_hint(state));
        line.append("  q quit");
        return line;
    }
    match session.run_state {
        RunState::Idle => {
            let mut line =
                "↑/↓ nav  enter/r run  i edit  n new request  d delete  e env  o open".to_owned();
            line.append(tab_hint(state));
            line.append(idle_reveal_hint(state, preview));
            line.append("  q quit");
            line
        },
        RunState::InFlight => {
            let mut line = String::new();
            line.push(spinner_char(state.spinner_tick));
            line.append(" Running request...  |  q quit");
            line
        },
        RunState::Completed => {
            let outcome = match session.current_run() {
                Some(outcome) => outcome,
                None => return "".to_owned(),
            };
            let mut line = outcome_status_text(outcome);
            line.append("  |  ↑/↓ nav  enter/r run again  PgUp/PgDn/Home/End scroll");
            line.append(
                if outcome.capture.is_empty() {
                    ""
                } else {
                    "  c reveal/hide captures"
                },
            );
            line.append("  i edit  n new request  d delete  e env  o open  h history");
            line.append(tab_hint(state));
            line.append("  q quit");
            line
        },
    }
}

/// The bottom bar's text: what happened, where something did, and the keys
/// that do something now. `preview` is the selected request before and after
/// its authentication was filled in, where that succeeded.
pub fn status_help_text(state: &AppState, preview: Option<&AuthPreview>) -> (r: String)
    requires
        state@.tabs_valid(),
        completed_run_known(state@.active()),
    ensures
        r@ == help_text(state@, opt_preview(preview)),
{
    if let Some(prompt) = &state.quit_confirm {
        return confirm_status_line(prompt);
    }
    if let Some(confirm) = &state.close_confirm {
        return confirm_status_line(&confirm.prompt);
    }
    if let Some(prompt) = &state.open_collection_prompt {
        let mut line = "Open collection".to_owned();
        line.append(
            if prompt.error.is_some() {
                "  (open failed — see message)"
            } else {
                ""
            },
        );
        line.append("  |  enter confirm  esc cancel  q quit");
        return line;
    }
    let session = state.active();
    if let Some(confirm) = &session.delete_confirm {
        return confirm_status_line(&confirm.prompt);
    }
    if let Some(form) = &session.environment_edit {
        if let Some(pending) = &form.pending_delete {
            return confirm_status_line(&pending.prompt);
        }
        let mut line = "Editing variables".to_owned();
        line.append(
            if form.save_error.is_some() {
                "  (save failed — see message)"
            } else {
                ""
            },
        );
        line.append(
            "  |  tab/shift+tab switch field  ctrl+n add  ctrl+d delete  ctrl+s save  esc cancel  q quit",
        );
        return line;
    }
    if session.environment_overlay.is_some() {
        return "↑/↓ nav  enter confirm  i edit variables  esc cancel  q quit".to_owned();
    }
    if let Some(overlay) = &session.history_overlay {
        if let Some(index) = overlay.viewing {
            let history = session.selected_history();
            let mut line = "PgUp/PgDn/Home/End scroll".to_owned();
            line.append(
                if index < history.len() && !history[index].outcome.capture.is_empty() {
                    "  c reveal/hide captures"
                } else {
                    ""
                },
            );
            line.append("  esc back  q quit");
            return line;
        }
        return "↑/↓ nav  enter view  space expand  esc close  q quit".to_owned();
    }
    if let Some(edit) = &session.edit_mode {
        let mut line = "Editing".to_owned();
        line.append(
            if edit.dirty {
                " (unsaved changes)"
            } else {
                ""
            },
        );
        line.append(
            if edit.method_error.is_some() {
                "  (fix method to save)"
            } else {
                ""
            },
        );
        line.append(
            "  |  tab/shift+tab switch field  ctrl+n add header  ctrl+d delete header  ctrl+s save  esc cancel  q quit",
        );
        return line;
    }
    browsing_status_text(state, preview)
}

// ---------------------------------------------------------------------------
// How the line is shown
// ---------------------------------------------------------------------------

/// How a status is to be read.
#[derive(Clone, Copy, Debug, PartialEq, Eq, Structural)]
pub enum Tone {
    Fail,
    Success,
    InProgress,
    Emphasis,
}

/// The bottom bar: a status, where there is one, and the keys.
#[derive(Debug, PartialEq, Eq)]
pub struct StatusBar {
    pub status: Option<(String, Tone)>,
    pub keys: String,
}

#[verifier::ext_equal]
pub struct StatusBarModel {
    pub status: Option<(Seq<char>, Tone)>,
    pub keys: Seq<char>,
}

impl View for StatusBar {
    type V = StatusBarModel;

    open spec fn view(&self) -> StatusBarModel {
        StatusBarModel {
            status: match self.status {
                Some((text, tone)) => Some((text@, tone)),
                None => None,
            },
            keys: self.keys@,
        }
    }
}

/// How a status is to be read, by what it says.
pub open spec fn tone_of(status: Seq<char>) -> Tone {
    if contains(status, "Failed"@) || contains(status, "failed"@) {
        Tone::Fail
    } else if contains(status, "Done"@) {
        Tone::Success
    } else if status.len() > 0 && is_spinner_frame(status[0]) {
        Tone::InProgress
    } else {
        Tone::Emphasis
    }
}

/// A line of text as the bottom bar shows it: a status before the first
/// separator, keys behind it, and keys alone where there is none.
pub open spec fn bar_of(text: Seq<char>) -> StatusBarModel {
    match split_once(text, "  |  "@) {
        Some((status, keys)) => StatusBarModel { status: Some((status, tone_of(status))), keys },
        None => StatusBarModel { status: None, keys: text },
    }
}

fn tone_of_text(status: &str) -> (r: Tone)
    ensures
        r == tone_of(status@),
{
    if contains_text(status, "Failed") || contains_text(status, "failed") {
        return Tone::Fail;
    }
    if contains_text(status, "Done") {
        return Tone::Success;
    }
    let chars = chars_of(status);
    if chars.len() > 0 && is_spinner_char(chars[0]) {
        return Tone::InProgress;
    }
    Tone::Emphasis
}

/// A line of text as the bottom bar shows it.
pub fn status_bar_line(text: &str) -> (r: StatusBar)
    ensures
        r@ == bar_of(text@),
{
    match split_text_once(text, "  |  ") {
        Some((status, keys)) => {
            let tone = tone_of_text(status.as_str());
            StatusBar { status: Some((status, tone)), keys }
        },
        None => StatusBar { status: None, keys: copy_str(text) },
    }
}

} // verus!
