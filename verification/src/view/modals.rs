//! Questions that lie over everything else.
use vstd::prelude::*;

use crate::prompt::{ConfirmPrompt, ConfirmPromptModel};
use crate::state::{OpenCollectionPromptState, OpenPromptModel};
use crate::text::{copy_str, opt_text};
use crate::view::{error_text, format_error};

verus! {

broadcast use vstd::string::group_string_axioms;

/// A question that is answered with yes or no: its title, the question, and
/// why the answer could not be carried out, where it could not.
#[derive(Debug, PartialEq, Eq)]
pub struct Question {
    pub title: String,
    pub message: String,
    pub failure: Option<String>,
}

#[verifier::ext_equal]
pub struct QuestionModel {
    pub title: Seq<char>,
    pub message: Seq<char>,
    pub failure: Option<Seq<char>>,
}

impl View for Question {
    type V = QuestionModel;

    open spec fn view(&self) -> QuestionModel {
        QuestionModel {
            title: self.title@,
            message: self.message@,
            failure: opt_text(self.failure),
        }
    }
}

/// A question about what `heading` names.
pub open spec fn question_for(heading: Seq<char>, prompt: ConfirmPromptModel) -> QuestionModel {
    QuestionModel {
        title: heading + " — y/Enter confirm, n/Esc cancel"@,
        message: prompt.message,
        failure: match prompt.error {
            Some(error) => Some(error_text("Failed"@, error)),
            None => None,
        },
    }
}

/// A question about what `heading` names.
pub fn confirm_question(heading: &str, prompt: &ConfirmPrompt) -> (r: Question)
    ensures
        r@ == question_for(heading@, prompt@),
{
    let mut title = copy_str(heading);
    title.append(" — y/Enter confirm, n/Esc cancel");
    let failure = match &prompt.error {
        Some(error) => Some(format_error("Failed", error.as_str())),
        None => None,
    };
    Question { title, message: prompt.message.clone(), failure }
}

/// The question for the path of a collection, with what was typed so far.
pub open spec fn open_prompt_text(prompt: OpenPromptModel) -> Seq<char> {
    match prompt.error {
        Some(error) => "Path: "@ + prompt.path.value + "\n\n"@ + error_text(
            "Failed to open"@,
            error,
        ),
        None => "Path: "@ + prompt.path.value,
    }
}

/// The question for the path of a collection, with what was typed so far.
pub fn format_open_prompt(prompt: &OpenCollectionPromptState) -> (r: String)
    ensures
        r@ == open_prompt_text(prompt@),
{
    let mut text = "Path: ".to_owned();
    text.append(prompt.path.value());
    if let Some(error) = &prompt.error {
        text.append("\n\n");
        text.append(format_error("Failed to open", error.as_str()).as_str());
    }
    text
}

} // verus!
