//! The ways a request fails, and what the caller is told.

use vstd::prelude::*;

verus! {

/// The status that every failed request is answered with: none of the failures is
/// caused by input that the server validates.
pub const FAILURE_STATUS: u16 = 500;

/// The status that a request that succeeded is answered with.
pub const SUCCESS_STATUS: u16 = 200;

/// The status that a response is given with: success for every entry, listing or
/// deletion, failure for every error.
pub fn response_status<T, E>(response: &Result<T, E>) -> (status: u16)
    ensures
        status == if response is Ok {
            SUCCESS_STATUS
        } else {
            FAILURE_STATUS
        },
{
    match response {
        Ok(_) => SUCCESS_STATUS,
        Err(_) => FAILURE_STATUS,
    }
}

/// One of the three members that an entry is read from.
#[derive(Clone, Copy, Debug, PartialEq, Eq, Structural)]
pub enum EntryField {
    Date,
    Rate,
    ShortSummary,
}

impl EntryField {
    /// The key of the member in the document.
    pub open spec fn key(self) -> Seq<char> {
        match self {
            EntryField::Date => "date"@,
            EntryField::Rate => "rate"@,
            EntryField::ShortSummary => "short_summary"@,
        }
    }

    /// The key of the member in the document.
    pub fn name(&self) -> (name: &'static str)
        ensures
            name@ == self.key(),
    {
        match self {
            EntryField::Date => "date",
            EntryField::Rate => "rate",
            EntryField::ShortSummary => "short_summary",
        }
    }
}

/// Why a completion text is not an entry.
#[derive(Clone, Debug, PartialEq, Eq)]
pub enum EntryFault {
    /// The text is no JSON document; the parser's message says why.
    Syntax(String),
    /// The document has no member under the key of this field.
    MissingField(EntryField),
    /// The member of this field has the wrong JSON type.
    WrongType(EntryField),
    /// The `date` member is a string that is not read as a date; it is given.
    InvalidDate(String),
}

/// An [`EntryFault`] as mathematics.
pub enum FaultView {
    Syntax(Seq<char>),
    MissingField(EntryField),
    WrongType(EntryField),
    InvalidDate(Seq<char>),
}

impl View for EntryFault {
    type V = FaultView;

    open spec fn view(&self) -> FaultView {
        match self {
            EntryFault::Syntax(message) => FaultView::Syntax(message@),
            EntryFault::MissingField(field) => FaultView::MissingField(*field),
            EntryFault::WrongType(field) => FaultView::WrongType(*field),
            EntryFault::InvalidDate(text) => FaultView::InvalidDate(text@),
        }
    }
}

/// What [`EntryFault::message`] says.
pub open spec fn fault_message(fault: FaultView) -> Seq<char> {
    match fault {
        FaultView::Syntax(message) => message,
        FaultView::MissingField(field) => "missing field `"@ + field.key() + "`"@,
        FaultView::WrongType(field) => "invalid type for field `"@ + field.key() + "`"@,
        FaultView::InvalidDate(text) => "invalid date `"@ + text + "`"@,
    }
}

/// `before`, `middle` and `after` in one string.
fn enclosed(before: &str, middle: &str, after: &str) -> (whole: String)
    ensures
        whole@ == before@ + middle@ + after@,
{
    let mut whole = before.to_owned();
    whole.append(middle);
    whole.append(after);
    whole
}

impl EntryFault {
    /// The diagnostic of the fault, for a log or a response body.
    pub fn message(&self) -> (message: String)
        ensures
            message@ == fault_message(self@),
    {
        match self {
            EntryFault::Syntax(message) => message.clone(),
            EntryFault::MissingField(field) => enclosed("missing field `", field.name(), "`"),
            EntryFault::WrongType(field) => enclosed(
                "invalid type for field `",
                field.name(),
                "`",
            ),
            EntryFault::InvalidDate(text) => enclosed("invalid date `", text.as_str(), "`"),
        }
    }
}

/// Why a submission was not turned into a stored entry. A conflict on the date is
/// not among these: it is handled by merging.
#[derive(Clone, Debug, PartialEq, Eq)]
pub enum CreateJournalEntryError {
    /// The prompt was refused before it was sent.
    PromptBuild(String),
    /// The completion service could not be reached or refused the request.
    CompletionService(String),
    /// The service answered, but with no text to use.
    NoOutput,
    /// The service answered with a text that is not an entry.
    MalformedModelOutput(EntryFault),
    /// The store failed for another reason than a conflict.
    Storage(String),
}

/// A [`CreateJournalEntryError`] as mathematics.
pub enum CreateErrorView {
    PromptBuild(Seq<char>),
    CompletionService(Seq<char>),
    NoOutput,
    MalformedModelOutput(FaultView),
    Storage(Seq<char>),
}

impl View for CreateJournalEntryError {
    type V = CreateErrorView;

    open spec fn view(&self) -> CreateErrorView {
        match self {
            CreateJournalEntryError::PromptBuild(message) => CreateErrorView::PromptBuild(
                message@,
            ),
            CreateJournalEntryError::CompletionService(message) => {
                CreateErrorView::CompletionService(message@)
            },
            CreateJournalEntryError::NoOutput => CreateErrorView::NoOutput,
            CreateJournalEntryError::MalformedModelOutput(fault) => {
                CreateErrorView::MalformedModelOutput(fault@)
            },
            CreateJournalEntryError::Storage(message) => CreateErrorView::Storage(message@),
        }
    }
}

/// What [`CreateJournalEntryError::message`] says.
pub open spec fn create_error_message(error: CreateErrorView) -> Seq<char> {
    match error {
        CreateErrorView::PromptBuild(message) => message,
        CreateErrorView::CompletionService(message) => message,
        CreateErrorView::NoOutput => "no output from GPT-4"@,
        CreateErrorView::MalformedModelOutput(fault) => fault_message(fault),
        CreateErrorView::Storage(message) => message,
    }
}

impl CreateJournalEntryError {
    /// The text of the error: the underlying diagnostic where there is one.
    pub fn message(&self) -> (message: String)
        ensures
            message@ == create_error_message(self@),
    {
        match self {
            CreateJournalEntryError::PromptBuild(message) => message.clone(),
            CreateJournalEntryError::CompletionService(message) => message.clone(),
            CreateJournalEntryError::NoOutput => "no output from GPT-4".to_owned(),
            CreateJournalEntryError::MalformedModelOutput(fault) => fault.message(),
            CreateJournalEntryError::Storage(message) => message.clone(),
        }
    }

    /// The status that the request is answered with.
    pub fn status_code(&self) -> (status: u16)
        ensures
            status == FAILURE_STATUS,
    {
        FAILURE_STATUS
    }
}

/// Why the entries could not be listed.
#[derive(Clone, Debug, PartialEq, Eq)]
pub enum ListJournalEntryError {
    /// The store failed.
    Storage(String),
}

impl ListJournalEntryError {
    /// The diagnostic that the store gave.
    pub open spec fn diagnostic(self) -> Seq<char> {
        match self {
            ListJournalEntryError::Storage(message) => message@,
        }
    }

    /// The text of the error: the store's diagnostic.
    pub fn message(&self) -> (message: String)
        ensures
            message@ == self.diagnostic(),
    {
        match self {
            ListJournalEntryError::Storage(message) => message.clone(),
        }
    }

    /// The status that the request is answered with.
    pub fn status_code(&self) -> (status: u16)
        ensures
            status == FAILURE_STATUS,
    {
        FAILURE_STATUS
    }
}

/// Why an entry could not be deleted. That no entry has the date is no reason.
#[derive(Clone, Debug, PartialEq, Eq)]
pub enum DeleteJournalEntryError {
    /// The store failed.
    Storage(String),
}

impl DeleteJournalEntryError {
    /// The diagnostic that the store gave.
    pub open spec fn diagnostic(self) -> Seq<char> {
        match self {
            DeleteJournalEntryError::Storage(message) => message@,
        }
    }

    /// The text of the error: the store's diagnostic.
    pub fn message(&self) -> (message: String)
        ensures
            message@ == self.diagnostic(),
    {
        match self {
            DeleteJournalEntryError::Storage(message) => message.clone(),
        }
    }

    /// The status that the request is answered with.
    pub fn status_code(&self) -> (status: u16)
        ensures
            status == FAILURE_STATUS,
    {
        FAILURE_STATUS
    }
}

} // verus!
