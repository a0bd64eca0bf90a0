//! The ingestion of one submission, from prompt to stored entry.
//!
//! The pipeline is a state machine: [`step`] takes the stage that a submission is
//! in and the event that ends the stage's outside work, and gives the next stage
//! and what is to be done next. Reading and checking the completion text takes no
//! outside work, so it is part of the step that takes the completion. A caller
//! that talks to a real service and a real store runs [`step`] in a loop;
//! [`create_journal_entry`] runs it against an [`EntryStore`].

use crate::completion::completion_reading;
use crate::completion::completion_text;
use crate::completion::CompletionOutcome;
use crate::completion::OutcomeView;
use crate::date::Date;
use crate::entry::CreateJournalEntry;
use crate::entry::DeleteJournalEntry;
use crate::entry::EntryView;
use crate::entry::JournalEntry;
use crate::entry::Rate;
use crate::entry::SubmissionView;
use crate::error::CreateErrorView;
use crate::error::CreateJournalEntryError;
use crate::error::DeleteJournalEntryError;
use crate::error::ListJournalEntryError;
use crate::parser::entry_of_text;
use crate::parser::parse_entry;
use crate::prompt::build_completion_request;
use crate::prompt::completion_request;
use crate::prompt::CompletionRequest;
use crate::prompt::CompletionRequestView;
use crate::store::dates_unique;
use crate::store::delete_spec;
use crate::store::entry_views;
use crate::store::insert_result_view;
use crate::store::insert_spec;
use crate::store::list_spec;
use crate::store::merge_spec;
use crate::store::unit_result_view;
use crate::store::EntryStore;
use crate::store::InsertError;
use crate::store::InsertErrorView;
use crate::store::StorageFault;
use crate::store::StoreView;
use vstd::pervasive::unreached;
use vstd::prelude::*;

verus! {

/// Where a submission stands.
#[derive(Clone, Debug, PartialEq, Eq)]
pub enum Stage {
    /// Nothing has been sent yet.
    Prompting,
    /// The completion request is with the service.
    Completing,
    /// The entry was read from the completion and its insertion is with the store.
    Persisting(JournalEntry),
    /// The insertion met an entry of the same date; the merge is with the store.
    MergeOnConflict(JournalEntry),
    /// The response was given.
    Done,
}

/// A [`Stage`] as mathematics.
pub enum StageView {
    Prompting,
    Completing,
    Persisting(EntryView),
    MergeOnConflict(EntryView),
    Done,
}

impl View for Stage {
    type V = StageView;

    open spec fn view(&self) -> StageView {
        match self {
            Stage::Prompting => StageView::Prompting,
            Stage::Completing => StageView::Completing,
            Stage::Persisting(entry) => StageView::Persisting(entry@),
            Stage::MergeOnConflict(entry) => StageView::MergeOnConflict(entry@),
            Stage::Done => StageView::Done,
        }
    }
}

/// What ends a stage.
#[derive(Debug, PartialEq, Eq)]
pub enum Event {
    /// A submission came in; `instruction` is the fixed instruction of the prompt.
    Submitted { instruction: String, submission: CreateJournalEntry },
    /// The completion service was asked; this is what came back.
    Completed(CompletionOutcome),
    /// The store was asked to insert the entry; this is what came back.
    Inserted(Result<(), InsertError>),
    /// The store was asked to merge the entry; this is what came back.
    Merged(Result<(), StorageFault>),
}

/// An [`Event`] as mathematics.
pub enum EventView {
    Submitted { instruction: Seq<char>, submission: SubmissionView },
    Completed(OutcomeView),
    Inserted(Result<(), InsertErrorView>),
    Merged(Result<(), Seq<char>>),
}

impl View for Event {
    type V = EventView;

    open spec fn view(&self) -> EventView {
        match self {
            Event::Submitted { instruction, submission } => EventView::Submitted {
                instruction: instruction@,
                submission: submission@,
            },
            Event::Completed(outcome) => EventView::Completed(outcome@),
            Event::Inserted(inserted) => EventView::Inserted(insert_result_view(*inserted)),
            Event::Merged(merged) => EventView::Merged(unit_result_view(*merged)),
        }
    }
}

/// What is to be done next.
#[derive(Debug, PartialEq, Eq)]
pub enum Action {
    /// Send the request to the completion service, once.
    Complete(CompletionRequest),
    /// Insert the entry into the store.
    Insert(JournalEntry),
    /// Set the score and the summary of the entry of `date` in the store.
    Merge { date: Date, rate: Rate, short_summary: String },
    /// Answer the submission.
    Respond(Result<JournalEntry, CreateJournalEntryError>),
}

/// An [`Action`] as mathematics.
pub enum ActionView {
    Complete(CompletionRequestView),
    Insert(EntryView),
    Merge { date: Date, rate: Rate, short_summary: Seq<char> },
    Respond(Result<EntryView, CreateErrorView>),
}

/// The view of a response.
pub open spec fn response_view(response: Result<JournalEntry, CreateJournalEntryError>) -> Result<
    EntryView,
    CreateErrorView,
> {
    match response {
        Ok(entry) => Ok(entry@),
        Err(error) => Err(error@),
    }
}

impl View for Action {
    type V = ActionView;

    open spec fn view(&self) -> ActionView {
        match self {
            Action::Complete(request) => ActionView::Complete(request@),
            Action::Insert(entry) => ActionView::Insert(entry@),
            Action::Merge { date, rate, short_summary } => ActionView::Merge {
                date: *date,
                rate: *rate,
                short_summary: short_summary@,
            },
            Action::Respond(response) => ActionView::Respond(response_view(*response)),
        }
    }
}

/// The view of what a step gives.
pub open spec fn transition_view(transition: Option<(Stage, Action)>) -> Option<
    (StageView, ActionView),
> {
    match transition {
        Some((stage, action)) => Some((stage@, action@)),
        None => None,
    }
}

/// What follows a completion: any failure to get a text, and any text that is no
/// entry, ends the submission with that error and asks nothing of the store; an
/// entry is sent to be inserted.
pub open spec fn after_completion(outcome: OutcomeView) -> (StageView, ActionView) {
    match completion_reading(outcome) {
        Err(error) => (StageView::Done, ActionView::Respond(Err(error))),
        Ok(text) => match entry_of_text(text) {
            Err(fault) => (
                StageView::Done,
                ActionView::Respond(Err(CreateErrorView::MalformedModelOutput(fault))),
            ),
            Ok(entry) => (StageView::Persisting(entry), ActionView::Insert(entry)),
        },
    }
}

/// What follows an insertion: success answers with the entry; a conflict on the
/// date, and nothing else, leads to the merge; any other failure ends the
/// submission.
pub open spec fn after_insert(entry: EntryView, inserted: Result<(), InsertErrorView>) -> (
    StageView,
    ActionView,
) {
    match inserted {
        Ok(()) => (StageView::Done, ActionView::Respond(Ok(entry))),
        Err(InsertErrorView::DuplicateKey) => (
            StageView::MergeOnConflict(entry),
            ActionView::Merge {
                date: entry.date,
                rate: entry.rate,
                short_summary: entry.short_summary,
            },
        ),
        Err(InsertErrorView::Storage(diagnostic)) => (
            StageView::Done,
            ActionView::Respond(Err(CreateErrorView::Storage(diagnostic))),
        ),
    }
}

/// What follows a merge: success answers with the entry as it was read from the
/// completion, a failure ends the submission.
pub open spec fn after_merge(entry: EntryView, merged: Result<(), Seq<char>>) -> (
    StageView,
    ActionView,
) {
    match merged {
        Ok(()) => (StageView::Done, ActionView::Respond(Ok(entry))),
        Err(diagnostic) => (
            StageView::Done,
            ActionView::Respond(Err(CreateErrorView::Storage(diagnostic))),
        ),
    }
}

/// The state machine. Each stage is ended by one kind of event; an event of
/// another kind is not taken. No transition leads back, and none is tried twice.
pub open spec fn next(stage: StageView, event: EventView) -> Option<(StageView, ActionView)> {
    match (stage, event) {
        (StageView::Prompting, EventView::Submitted { instruction, submission }) => Some(
            (
                StageView::Completing,
                ActionView::Complete(completion_request(instruction, submission)),
            ),
        ),
        (StageView::Completing, EventView::Completed(outcome)) => Some(after_completion(outcome)),
        (StageView::Persisting(entry), EventView::Inserted(inserted)) => Some(
            after_insert(entry, inserted),
        ),
        (StageView::MergeOnConflict(entry), EventView::Merged(merged)) => Some(
            after_merge(entry, merged),
        ),
        _ => None,
    }
}

/// How far a stage is along the pipeline.
pub open spec fn progress(stage: StageView) -> nat {
    match stage {
        StageView::Prompting => 0,
        StageView::Completing => 1,
        StageView::Persisting(_) => 2,
        StageView::MergeOnConflict(_) => 3,
        StageView::Done => 4,
    }
}

/// What becomes of an entry that is to be stored: it is inserted; where an entry
/// of its date is held already, that one gets its score and its summary.
pub open spec fn persist_spec(store: StoreView, entry: EntryView) -> (
    StoreView,
    Result<EntryView, CreateErrorView>,
) {
    let (after, inserted) = insert_spec(store, entry);
    match inserted {
        Ok(()) => (after, Ok(entry)),
        Err(InsertErrorView::Storage(diagnostic)) => (
            after,
            Err(CreateErrorView::Storage(diagnostic)),
        ),
        Err(InsertErrorView::DuplicateKey) => {
            let (after, merged) = merge_spec(after, entry.date, entry.rate, entry.short_summary);
            match merged {
                Ok(()) => (after, Ok(entry)),
                Err(diagnostic) => (after, Err(CreateErrorView::Storage(diagnostic))),
            }
        },
    }
}

/// What a submission does to the store and what it is answered with, given what
/// the completion service gave back.
pub open spec fn ingest_spec(store: StoreView, outcome: OutcomeView) -> (
    StoreView,
    Result<EntryView, CreateErrorView>,
) {
    match completion_reading(outcome) {
        Err(error) => (store, Err(error)),
        Ok(text) => match entry_of_text(text) {
            Err(fault) => (store, Err(CreateErrorView::MalformedModelOutput(fault))),
            Ok(entry) => persist_spec(store, entry),
        },
    }
}

/// Takes the completion: reads the text, reads the entry out of it.
fn take_completion(outcome: CompletionOutcome) -> (transition: (Stage, Action))
    ensures
        (transition.0@, transition.1@) == after_completion(outcome@),
{
    match completion_text(&outcome) {
        Err(error) => (Stage::Done, Action::Respond(Err(error))),
        Ok(text) => match parse_entry(text.as_str()) {
            Err(fault) => (
                Stage::Done,
                Action::Respond(Err(CreateJournalEntryError::MalformedModelOutput(fault))),
            ),
            Ok(entry) => {
                let kept = entry.duplicate();
                (Stage::Persisting(kept), Action::Insert(entry))
            },
        },
    }
}

/// Takes the result of the insertion.
fn take_insertion(entry: JournalEntry, inserted: Result<(), InsertError>) -> (transition: (
    Stage,
    Action,
))
    ensures
        (transition.0@, transition.1@) == after_insert(entry@, insert_result_view(inserted)),
{
    match inserted {
        Ok(()) => (Stage::Done, Action::Respond(Ok(entry))),
        Err(InsertError::DuplicateKey) => {
            let action = Action::Merge {
                date: entry.date,
                rate: entry.rate,
                short_summary: entry.short_summary.clone(),
            };
            (Stage::MergeOnConflict(entry), action)
        },
        Err(InsertError::Storage(fault)) => (
            Stage::Done,
            Action::Respond(Err(CreateJournalEntryError::Storage(fault.diagnostic))),
        ),
    }
}

/// Takes the result of the merge.
fn take_merge(entry: JournalEntry, merged: Result<(), StorageFault>) -> (transition: (
    Stage,
    Action,
))
    ensures
        (transition.0@, transition.1@) == after_merge(entry@, unit_result_view(merged)),
{
    match merged {
        Ok(()) => (Stage::Done, Action::Respond(Ok(entry))),
        Err(fault) => (
            Stage::Done,
            Action::Respond(Err(CreateJournalEntryError::Storage(fault.diagnostic))),
        ),
    }
}

/// One step of the pipeline: from the stage and the event that ends it to the
/// next stage and what is to be done next. An event that does not end the stage
/// gives nothing.
pub fn step(stage: Stage, event: Event) -> (transition: Option<(Stage, Action)>)
    ensures
        transition_view(transition) == next(stage@, event@),
{
    match stage {
        Stage::Prompting => match event {
            Event::Submitted { instruction, submission } => {
                let request = build_completion_request(instruction.as_str(), &submission);
                Some((Stage::Completing, Action::Complete(request)))
            },
            _ => None,
        },
        Stage::Completing => match event {
            Event::Completed(outcome) => Some(take_completion(outcome)),
            _ => None,
        },
        Stage::Persisting(entry) => match event {
            Event::Inserted(inserted) => Some(take_insertion(entry, inserted)),
            _ => None,
        },
        Stage::MergeOnConflict(entry) => match event {
            Event::Merged(merged) => Some(take_merge(entry, merged)),
            _ => None,
        },
        Stage::Done => None,
    }
}

/// Carries a submission on from the completion: reads the entry out of what the
/// service gave back and stores it, merging where the date is taken.
pub fn ingest_completion(store: &mut EntryStore, outcome: CompletionOutcome) -> (response: Result<
    JournalEntry,
    CreateJournalEntryError,
>)
    ensures
        (final(store)@, response_view(response)) == ingest_spec(old(store)@, outcome@),
        dates_unique(final(store)@.records),
{
    // Counting the entries brings into view that no two of them share a date:
    // on the paths that ask nothing of the store, nothing else would say so.
    let _ = store.len();
    match step(Stage::Completing, Event::Completed(outcome)) {
        Some((stage, Action::Insert(entry))) => {
            let inserted = store.insert(entry);
            match step(stage, Event::Inserted(inserted)) {
                Some((_, Action::Respond(response))) => response,
                Some((stage, Action::Merge { date, rate, short_summary })) => {
                    let merged = store.upsert_merge(date, rate, short_summary);
                    match step(stage, Event::Merged(merged)) {
                        Some((_, Action::Respond(response))) => response,
                        _ => unreached(),
                    }
                },
                _ => unreached(),
            }
        },
        Some((_, Action::Respond(response))) => response,
        _ => unreached(),
    }
}

/// Handles one submission from beginning to end: builds the prompt, asks
/// `complete` for the completion, once, and carries on as [`ingest_completion`]
/// does with what came back. `instruction` is the fixed instruction that opens the
/// prompt.
pub fn create_journal_entry<F: FnOnce(CompletionRequest) -> CompletionOutcome>(
    store: &mut EntryStore,
    instruction: &str,
    submission: &CreateJournalEntry,
    complete: F,
) -> (response: Result<JournalEntry, CreateJournalEntryError>)
    requires
        forall|request: CompletionRequest|
            request@ == completion_request(instruction@, submission@) ==> call_requires(
                complete,
                (request,),
            ),
    ensures
        exists|request: CompletionRequest, outcome: CompletionOutcome|
            request@ == completion_request(instruction@, submission@) && #[trigger] call_ensures(
                complete,
                (request,),
                outcome,
            ) && (final(store)@, response_view(response)) == ingest_spec(old(store)@, outcome@),
        dates_unique(final(store)@.records),
{
    let submitted = Event::Submitted {
        instruction: instruction.to_owned(),
        submission: CreateJournalEntry {
            name: submission.name.clone(),
            summary: submission.summary.clone(),
            date: submission.date,
        },
    };
    match step(Stage::Prompting, submitted) {
        Some((_, Action::Complete(request))) => {
            let outcome = complete(request);
            ingest_completion(store, outcome)
        },
        _ => unreached(),
    }
}

/// The view of a listing or of the error in its place.
pub open spec fn listing_view(listed: Result<Vec<JournalEntry>, ListJournalEntryError>) -> Result<
    Seq<EntryView>,
    Seq<char>,
> {
    match listed {
        Ok(entries) => Ok(entry_views(entries@)),
        Err(error) => Err(error.diagnostic()),
    }
}

/// The view of the result of a deletion.
pub open spec fn deletion_view(deleted: Result<(), DeleteJournalEntryError>) -> Result<
    (),
    Seq<char>,
> {
    match deleted {
        Ok(()) => Ok(()),
        Err(error) => Err(error.diagnostic()),
    }
}

/// Lists every entry of the store, in the order in which they came.
pub fn list_journal_entries(store: &EntryStore) -> (listed: Result<
    Vec<JournalEntry>,
    ListJournalEntryError,
>)
    ensures
        listing_view(listed) == list_spec(store@),
        dates_unique(store@.records),
{
    match store.list_all() {
        Ok(entries) => Ok(entries),
        Err(fault) => Err(ListJournalEntryError::Storage(fault.diagnostic)),
    }
}

/// Removes the entry of the date that the request names. That there is none is
/// no error.
pub fn delete_journal_entry(store: &mut EntryStore, request: &DeleteJournalEntry) -> (deleted:
    Result<(), DeleteJournalEntryError>)
    ensures
        (final(store)@, deletion_view(deleted)) == delete_spec(old(store)@, request.date),
        dates_unique(final(store)@.records),
{
    match store.delete_by_date(request.date) {
        Ok(()) => Ok(()),
        Err(fault) => Err(DeleteJournalEntryError::Storage(fault.diagnostic)),
    }
}

} // verus!
