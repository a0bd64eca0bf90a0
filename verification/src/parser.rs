//! From a completion text to an entry.
//!
//! A text is an entry in three steps: it is a JSON document; the document has a
//! string under `date`, a number under `rate` and a string under
//! `short_summary`; and the string under `date` is read as a date. Members under
//! other keys are ignored. Nothing else is checked: the score has no range.

use crate::date::date_of_text;
use crate::date::Date;
use crate::entry::EntryView;
use crate::entry::JournalEntry;
use crate::entry::Rate;
use crate::error::EntryFault;
use crate::error::EntryField;
use crate::error::FaultView;
use crate::json::diagnostic;
use crate::json::document_of;
use crate::json::json_of;
use crate::json::member;
use crate::json::member_of;
use crate::json::number_bits;
use crate::json::number_of;
use crate::json::parse_document;
use crate::json::string_of;
use crate::json::text_of;
use crate::json::Json;
use vstd::prelude::*;

verus! {

/// What a document holds under the key of one field.
#[derive(Clone, Debug, PartialEq, Eq)]
pub enum Field<T> {
    /// No member under the key, or the document is no object.
    Missing,
    /// A member of another JSON type than the field has.
    WrongType,
    /// The member's value.
    Found(T),
}

/// The three members of a document that has the shape of an entry; the date is
/// still the string that was found.
#[derive(Clone, Debug, PartialEq, Eq)]
pub struct RawEntry {
    pub date_text: String,
    pub rate: Rate,
    pub short_summary: String,
}

/// A [`RawEntry`] as mathematics.
pub struct RawView {
    pub date_text: Seq<char>,
    pub rate: Rate,
    pub short_summary: Seq<char>,
}

impl View for RawEntry {
    type V = RawView;

    open spec fn view(&self) -> RawView {
        RawView {
            date_text: self.date_text@,
            rate: self.rate,
            short_summary: self.short_summary@,
        }
    }
}

/// The view of what was found for a field that holds a string.
pub open spec fn text_field_view(field: Field<String>) -> Field<Seq<char>> {
    match field {
        Field::Missing => Field::Missing,
        Field::WrongType => Field::WrongType,
        Field::Found(text) => Field::Found(text@),
    }
}

/// The view of a raw entry or of the fault in its place.
pub open spec fn raw_result_view(result: Result<RawEntry, EntryFault>) -> Result<
    RawView,
    FaultView,
> {
    match result {
        Ok(raw) => Ok(raw@),
        Err(fault) => Err(fault@),
    }
}

/// The view of an entry or of the fault in its place.
pub open spec fn entry_result_view(result: Result<JournalEntry, EntryFault>) -> Result<
    EntryView,
    FaultView,
> {
    match result {
        Ok(entry) => Ok(entry@),
        Err(fault) => Err(fault@),
    }
}

/// What a JSON value holds under `key`, for a field that is a string.
pub open spec fn text_member(json: Json, key: Seq<char>) -> Field<Seq<char>> {
    match member_of(json, key) {
        None => Field::Missing,
        Some(found) => match text_of(found) {
            Some(text) => Field::Found(text),
            None => Field::WrongType,
        },
    }
}

/// What a JSON value holds under `key`, for a field that is a number.
pub open spec fn number_member(json: Json, key: Seq<char>) -> Field<Rate> {
    match member_of(json, key) {
        None => Field::Missing,
        Some(found) => match number_of(found) {
            Some(bits) => Field::Found(Rate { bits }),
            None => Field::WrongType,
        },
    }
}

/// The shape check: the fields are looked at in the order date, score, summary,
/// and the first one that is missing or of the wrong type is the fault.
pub open spec fn shape_of(
    date: Field<Seq<char>>,
    rate: Field<Rate>,
    short_summary: Field<Seq<char>>,
) -> Result<RawView, FaultView> {
    match date {
        Field::Missing => Err(FaultView::MissingField(EntryField::Date)),
        Field::WrongType => Err(FaultView::WrongType(EntryField::Date)),
        Field::Found(date_text) => match rate {
            Field::Missing => Err(FaultView::MissingField(EntryField::Rate)),
            Field::WrongType => Err(FaultView::WrongType(EntryField::Rate)),
            Field::Found(rate) => match short_summary {
                Field::Missing => Err(FaultView::MissingField(EntryField::ShortSummary)),
                Field::WrongType => Err(FaultView::WrongType(EntryField::ShortSummary)),
                Field::Found(short_summary) => Ok(RawView { date_text, rate, short_summary }),
            },
        },
    }
}

/// The entry of a raw entry whose date string was read as `date`; the string
/// itself is the fault where it was read as none.
pub open spec fn dated(raw: RawView, date: Option<Date>) -> Result<EntryView, FaultView> {
    match date {
        Some(date) => Ok(
            EntryView { date, rate: raw.rate, short_summary: raw.short_summary },
        ),
        None => Err(FaultView::InvalidDate(raw.date_text)),
    }
}

/// The entry that a JSON value is read as, or why it is none.
pub open spec fn entry_of_json(json: Json) -> Result<EntryView, FaultView> {
    match shape_of(
        text_member(json, EntryField::Date.key()),
        number_member(json, EntryField::Rate.key()),
        text_member(json, EntryField::ShortSummary.key()),
    ) {
        Ok(raw) => dated(raw, date_of_text(raw.date_text)),
        Err(fault) => Err(fault),
    }
}

/// The entry that a completion text is read as, or why it is none.
pub open spec fn entry_of_text(text: Seq<char>) -> Result<EntryView, FaultView> {
    match document_of(text) {
        Ok(json) => entry_of_json(json),
        Err(message) => Err(FaultView::Syntax(message)),
    }
}

/// Checks that all three fields were found with their types.
pub fn check_shape(date: Field<String>, rate: Field<Rate>, short_summary: Field<String>) -> (raw:
    Result<RawEntry, EntryFault>)
    ensures
        raw_result_view(raw) == shape_of(
            text_field_view(date),
            rate,
            text_field_view(short_summary),
        ),
{
    let date_text = match date {
        Field::Missing => { return Err(EntryFault::MissingField(EntryField::Date)); },
        Field::WrongType => { return Err(EntryFault::WrongType(EntryField::Date)); },
        Field::Found(text) => text,
    };
    let rate = match rate {
        Field::Missing => { return Err(EntryFault::MissingField(EntryField::Rate)); },
        Field::WrongType => { return Err(EntryFault::WrongType(EntryField::Rate)); },
        Field::Found(rate) => rate,
    };
    let short_summary = match short_summary {
        Field::Missing => { return Err(EntryFault::MissingField(EntryField::ShortSummary)); },
        Field::WrongType => { return Err(EntryFault::WrongType(EntryField::ShortSummary)); },
        Field::Found(text) => text,
    };
    Ok(RawEntry { date_text, rate, short_summary })
}

/// Completes a raw entry with the date that its date string was read as.
pub fn entry_with_date(raw: RawEntry, date: Option<Date>) -> (entry: Result<
    JournalEntry,
    EntryFault,
>)
    ensures
        entry_result_view(entry) == dated(raw@, date),
{
    match date {
        Some(date) => Ok(JournalEntry { date, rate: raw.rate, short_summary: raw.short_summary }),
        None => Err(EntryFault::InvalidDate(raw.date_text)),
    }
}

/// Looks up a field that holds a string.
fn read_text_member(document: &serde_json::Value, field: EntryField) -> (found: Field<String>)
    ensures
        text_field_view(found) == text_member(json_of(*document), field.key()),
{
    match member(document, field.name()) {
        None => Field::Missing,
        Some(inner) => match string_of(inner) {
            Some(text) => Field::Found(text.to_owned()),
            None => Field::WrongType,
        },
    }
}

/// Looks up a field that holds a number.
fn read_number_member(document: &serde_json::Value, field: EntryField) -> (found: Field<Rate>)
    ensures
        found == number_member(json_of(*document), field.key()),
{
    match member(document, field.name()) {
        None => Field::Missing,
        Some(inner) => match number_bits(inner) {
            Some(bits) => Field::Found(Rate { bits }),
            None => Field::WrongType,
        },
    }
}

/// Reads an entry out of a document that was parsed already.
pub fn read_entry(document: &serde_json::Value) -> (entry: Result<JournalEntry, EntryFault>)
    ensures
        entry_result_view(entry) == entry_of_json(json_of(*document)),
{
    let date = read_text_member(document, EntryField::Date);
    let rate = read_number_member(document, EntryField::Rate);
    let short_summary = read_text_member(document, EntryField::ShortSummary);
    match check_shape(date, rate, short_summary) {
        Ok(raw) => {
            let date = Date::parse(raw.date_text.as_str());
            entry_with_date(raw, date)
        },
        Err(fault) => Err(fault),
    }
}

/// Reads an entry out of a completion text. The text is an entry exactly when
/// all three steps succeed; otherwise the first step that fails gives the fault.
pub fn parse_entry(text: &str) -> (entry: Result<JournalEntry, EntryFault>)
    ensures
        entry_result_view(entry) == entry_of_text(text@),
{
    match parse_document(text) {
        Ok(document) => read_entry(&document),
        Err(error) => Err(EntryFault::Syntax(diagnostic(&error))),
    }
}

} // verus!
