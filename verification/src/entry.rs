//! The journal entry and the two requests that name one.

use crate::date::Date;
use vstd::prelude::*;

verus! {

/// The score of a day. It is carried as the bit pattern of a double-precision
/// number and never computed with: no range is imposed on it.
#[derive(Clone, Copy, Debug, PartialEq, Eq, Structural)]
pub struct Rate {
    pub bits: u64,
}

/// The record that is stored and returned: one day, its score and a short text.
#[derive(Clone, Debug, PartialEq, Eq)]
pub struct JournalEntry {
    pub date: Date,
    pub rate: Rate,
    pub short_summary: String,
}

/// A [`JournalEntry`] as mathematics.
pub struct EntryView {
    pub date: Date,
    pub rate: Rate,
    pub short_summary: Seq<char>,
}

impl View for JournalEntry {
    type V = EntryView;

    open spec fn view(&self) -> EntryView {
        EntryView { date: self.date, rate: self.rate, short_summary: self.short_summary@ }
    }
}

impl JournalEntry {
    /// A second entry with the same contents.
    pub fn duplicate(&self) -> (copy: JournalEntry)
        ensures
            copy@ == self@,
    {
        JournalEntry {
            date: self.date,
            rate: self.rate,
            short_summary: self.short_summary.clone(),
        }
    }
}

/// A submission: who writes, what the day was like, and which day it was. The
/// day is always named by the caller: the library knows no clock and fills in no
/// date of its own.
#[derive(Clone, Debug, PartialEq, Eq)]
pub struct CreateJournalEntry {
    pub name: String,
    pub summary: String,
    pub date: Date,
}

/// A [`CreateJournalEntry`] as mathematics.
pub struct SubmissionView {
    pub name: Seq<char>,
    pub summary: Seq<char>,
    pub date: Date,
}

impl View for CreateJournalEntry {
    type V = SubmissionView;

    open spec fn view(&self) -> SubmissionView {
        SubmissionView { name: self.name@, summary: self.summary@, date: self.date }
    }
}

/// A request to remove the entry of one day.
#[derive(Clone, Copy, Debug, PartialEq, Eq, Structural)]
pub struct DeleteJournalEntry {
    pub date: Date,
}

} // verus!
