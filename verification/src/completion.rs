//! What the completion service answers, and which text of the answer is used.

use crate::error::CreateErrorView;
use crate::error::CreateJournalEntryError;
use vstd::prelude::*;

verus! {

/// What came back for one completion request.
#[derive(Clone, Debug, PartialEq, Eq)]
pub enum CompletionOutcome {
    /// The service answered with these choices, in its order; a choice may have
    /// no text.
    Answered(Vec<Option<String>>),
    /// The prompt was refused before anything was sent.
    Refused(String),
    /// The service could not be reached, or it reported a failure.
    Failed(String),
}

/// A [`CompletionOutcome`] as mathematics.
pub enum OutcomeView {
    Answered(Seq<Option<Seq<char>>>),
    Refused(Seq<char>),
    Failed(Seq<char>),
}

impl View for CompletionOutcome {
    type V = OutcomeView;

    open spec fn view(&self) -> OutcomeView {
        match self {
            CompletionOutcome::Answered(choices) => OutcomeView::Answered(choices.deep_view()),
            CompletionOutcome::Refused(message) => OutcomeView::Refused(message@),
            CompletionOutcome::Failed(message) => OutcomeView::Failed(message@),
        }
    }
}

/// The text of the first choice; nothing where there is no choice, or the first
/// one has no text.
pub open spec fn first_text(choices: Seq<Option<Seq<char>>>) -> Option<Seq<char>> {
    if choices.len() == 0 {
        None
    } else {
        choices[0]
    }
}

/// The completion text of an outcome, or the error that the request ends with.
pub open spec fn completion_reading(outcome: OutcomeView) -> Result<Seq<char>, CreateErrorView> {
    match outcome {
        OutcomeView::Answered(choices) => match first_text(choices) {
            Some(text) => Ok(text),
            None => Err(CreateErrorView::NoOutput),
        },
        OutcomeView::Refused(message) => Err(CreateErrorView::PromptBuild(message)),
        OutcomeView::Failed(message) => Err(CreateErrorView::CompletionService(message)),
    }
}

/// The view of a completion text or of the error in its place.
pub open spec fn text_result_view(result: Result<String, CreateJournalEntryError>) -> Result<
    Seq<char>,
    CreateErrorView,
> {
    match result {
        Ok(text) => Ok(text@),
        Err(error) => Err(error@),
    }
}

/// Picks the text of the first choice. Later choices are never looked at.
pub fn first_choice_text(choices: &Vec<Option<String>>) -> (text: Option<String>)
    ensures
        text.deep_view() == first_text(choices.deep_view()),
{
    if choices.len() == 0 {
        None
    } else {
        match &choices[0] {
            Some(text) => Some(text.clone()),
            None => None,
        }
    }
}

/// Reads the completion text out of an outcome: an answer without a usable text
/// is `NoOutput`, a refusal or a failure of the service is passed on with its
/// diagnostic.
pub fn completion_text(outcome: &CompletionOutcome) -> (text: Result<
    String,
    CreateJournalEntryError,
>)
    ensures
        text_result_view(text) == completion_reading(outcome@),
{
    match outcome {
        CompletionOutcome::Answered(choices) => match first_choice_text(choices) {
            Some(text) => Ok(text),
            None => Err(CreateJournalEntryError::NoOutput),
        },
        CompletionOutcome::Refused(message) => Err(
            CreateJournalEntryError::PromptBuild(message.clone()),
        ),
        CompletionOutcome::Failed(message) => Err(
            CreateJournalEntryError::CompletionService(message.clone()),
        ),
    }
}

} // verus!
