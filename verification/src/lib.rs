//! Ingestion of daily journal summaries: a free-text summary is turned into a
//! structured entry by a text-generation service, checked, and reconciled with a
//! store that holds at most one entry per calendar date.
//!
//! The library does no input or output. It builds the prompt, reads the entry out
//! of the completion, decides what is stored and what is answered, and states
//! what the store must do; talking to the service and to a real store is the
//! caller's part.

pub mod completion;
pub mod date;
pub mod entry;
pub mod error;
pub mod guarantees;
pub mod ingest;
pub mod json;
pub mod parser;
pub mod prompt;
pub mod store;

pub use crate::date::Date;
pub use crate::entry::CreateJournalEntry;
pub use crate::entry::DeleteJournalEntry;
pub use crate::entry::JournalEntry;
pub use crate::entry::Rate;
pub use crate::error::CreateJournalEntryError;
pub use crate::error::DeleteJournalEntryError;
pub use crate::error::ListJournalEntryError;
pub use crate::ingest::create_journal_entry;
pub use crate::ingest::delete_journal_entry;
pub use crate::ingest::list_journal_entries;
pub use crate::store::EntryStore;
