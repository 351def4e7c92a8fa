//! A question that is answered with yes or no.
use vstd::prelude::*;

use crate::text::opt_text;

verus! {

/// A question about something that cannot be undone.
#[derive(Debug, PartialEq, Eq)]
pub struct ConfirmPrompt {
    pub message: String,
    /// Why the answer could not be carried out, where it could not.
    pub error: Option<String>,
}

#[verifier::ext_equal]
pub struct ConfirmPromptModel {
    pub message: Seq<char>,
    pub error: Option<Seq<char>>,
}

impl View for ConfirmPrompt {
    type V = ConfirmPromptModel;

    open spec fn view(&self) -> ConfirmPromptModel {
        ConfirmPromptModel { message: self.message@, error: opt_text(self.error) }
    }
}

/// A question that nothing has gone wrong with.
pub open spec fn prompt_asking(message: Seq<char>) -> ConfirmPromptModel {
    ConfirmPromptModel { message, error: None }
}

impl ConfirmPrompt {
    /// A question that nothing has gone wrong with.
    pub fn new(message: String) -> (r: ConfirmPrompt)
        ensures
            r@ == prompt_asking(message@),
    {
        ConfirmPrompt { message, error: None }
    }
}

} // verus!
