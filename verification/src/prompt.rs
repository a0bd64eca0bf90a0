//! The prompt: a fixed instruction and one message made from the submission.

use crate::entry::CreateJournalEntry;
use crate::entry::SubmissionView;
use vstd::prelude::*;

verus! {

/// The model that every completion is asked of.
pub const MODEL: &'static str = "gpt-3.5-turbo";

/// The number of completions that are asked for.
pub const COMPLETIONS: u8 = 1;

/// Who speaks in a message of the prompt.
#[derive(Clone, Copy, Debug, PartialEq, Eq, Structural)]
pub enum Role {
    System,
    User,
}

/// One message of the prompt.
#[derive(Clone, Debug, PartialEq, Eq)]
pub struct PromptMessage {
    pub role: Role,
    pub content: String,
}

/// A [`PromptMessage`] as mathematics.
pub struct MessageView {
    pub role: Role,
    pub content: Seq<char>,
}

impl View for PromptMessage {
    type V = MessageView;

    open spec fn view(&self) -> MessageView {
        MessageView { role: self.role, content: self.content@ }
    }
}

/// What is sent to the completion service.
#[derive(Clone, Debug, PartialEq, Eq)]
pub struct CompletionRequest {
    pub model: String,
    pub messages: Vec<PromptMessage>,
    pub n: u8,
}

/// A [`CompletionRequest`] as mathematics.
pub struct CompletionRequestView {
    pub model: Seq<char>,
    pub messages: Seq<MessageView>,
    pub n: u8,
}

impl View for CompletionRequest {
    type V = CompletionRequestView;

    open spec fn view(&self) -> CompletionRequestView {
        CompletionRequestView {
            model: self.model@,
            messages: self.messages@.map_values(|message: PromptMessage| message@),
            n: self.n,
        }
    }
}

/// The message that carries a submission: the name, the date in parentheses, a
/// colon and the summary.
pub open spec fn user_message_text(submission: SubmissionView) -> Seq<char> {
    submission.name + " ("@ + submission.date.text() + "): "@ + submission.summary
}

/// The two messages of the prompt, in order: the instruction, word for word, then
/// the submission.
pub open spec fn prompt_messages(instruction: Seq<char>, submission: SubmissionView) -> Seq<
    MessageView,
> {
    seq![
        MessageView { role: Role::System, content: instruction },
        MessageView { role: Role::User, content: user_message_text(submission) },
    ]
}

/// The request for a submission: the fixed model, the two messages, one completion.
pub open spec fn completion_request(
    instruction: Seq<char>,
    submission: SubmissionView,
) -> CompletionRequestView {
    CompletionRequestView {
        model: MODEL@,
        messages: prompt_messages(instruction, submission),
        n: COMPLETIONS,
    }
}

/// Writes the message that carries the submission.
pub fn user_message(submission: &CreateJournalEntry) -> (content: String)
    ensures
        content@ == user_message_text(submission@),
{
    let date = submission.date.to_text();
    let mut content = submission.name.clone();
    content.append(" (");
    content.append(date.as_str());
    content.append("): ");
    content.append(submission.summary.as_str());
    content
}

/// Builds the two messages of the prompt. The instruction is taken as it is given.
pub fn build_prompt(instruction: &str, submission: &CreateJournalEntry) -> (messages: Vec<
    PromptMessage,
>)
    ensures
        messages@.map_values(|message: PromptMessage| message@) == prompt_messages(
            instruction@,
            submission@,
        ),
{
    let mut messages: Vec<PromptMessage> = Vec::new();
    messages.push(PromptMessage { role: Role::System, content: instruction.to_owned() });
    messages.push(PromptMessage { role: Role::User, content: user_message(submission) });
    messages
}

/// Builds the request that is sent to the completion service for a submission.
pub fn build_completion_request(instruction: &str, submission: &CreateJournalEntry) -> (request:
    CompletionRequest)
    ensures
        request@ == completion_request(instruction@, submission@),
{
    CompletionRequest {
        model: MODEL.to_owned(),
        messages: build_prompt(instruction, submission),
        n: COMPLETIONS,
    }
}

} // verus!
