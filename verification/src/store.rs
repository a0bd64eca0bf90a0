//! The store of entries: a collection in which no two entries share a date.
//!
//! [`StoreView`] and the four `*_spec` functions say what a store is and what
//! each operation does to it. [`EntryStore`] is that store held in memory; it can
//! be put out of service, so that the paths through a storage failure can be run.

use crate::date::Date;
use crate::entry::EntryView;
use crate::entry::JournalEntry;
use crate::entry::Rate;
use vstd::prelude::*;

verus! {

/// A store as mathematics: its records in the order in which they came, and the
/// diagnostic of the outage that it is in, if it is in one.
pub struct StoreView {
    pub records: Seq<EntryView>,
    pub outage: Option<Seq<char>>,
}

/// Whether some record has the date.
pub open spec fn holds_date(records: Seq<EntryView>, date: Date) -> bool {
    exists|i: int| 0 <= i < records.len() && (#[trigger] records[i]).date == date
}

/// Whether no two records share a date.
pub open spec fn dates_unique(records: Seq<EntryView>) -> bool {
    forall|i: int, j: int|
        0 <= i < j < records.len() ==> (#[trigger] records[i]).date != (#[trigger] records[j]).date
}

/// The records after the score and the summary of the record of `date` were set.
pub open spec fn merged(
    records: Seq<EntryView>,
    date: Date,
    rate: Rate,
    short_summary: Seq<char>,
) -> Seq<EntryView> {
    records.map_values(
        |record: EntryView|
            if record.date == date {
                EntryView { date, rate, short_summary }
            } else {
                record
            },
    )
}

/// The records without the record of `date`.
pub open spec fn without_date(records: Seq<EntryView>, date: Date) -> Seq<EntryView> {
    records.filter(|record: EntryView| record.date != date)
}

/// The store failed for a reason of its own; the diagnostic says which.
#[derive(Clone, Debug, PartialEq, Eq)]
pub struct StorageFault {
    pub diagnostic: String,
}

/// Why an entry was not inserted.
#[derive(Clone, Debug, PartialEq, Eq)]
pub enum InsertError {
    /// The store holds an entry of the same date already.
    DuplicateKey,
    /// The store failed for a reason of its own.
    Storage(StorageFault),
}

/// The code with which a document store refuses a write that would break a
/// unique index.
pub const DUPLICATE_KEY_CODE: i32 = 11000;

/// An [`InsertError`] as mathematics.
pub enum InsertErrorView {
    DuplicateKey,
    Storage(Seq<char>),
}

impl View for InsertError {
    type V = InsertErrorView;

    open spec fn view(&self) -> InsertErrorView {
        match self {
            InsertError::DuplicateKey => InsertErrorView::DuplicateKey,
            InsertError::Storage(fault) => InsertErrorView::Storage(fault.diagnostic@),
        }
    }
}

/// Tells a conflict from every other failure of an insertion: a write that the
/// store refused with the code of a duplicate key is a conflict, and nothing else
/// is. `write_error_code` is the code of the refused write, where the failure is
/// one.
pub fn insert_failure(write_error_code: Option<i32>, diagnostic: String) -> (error: InsertError)
    ensures
        error@ == if write_error_code == Some(DUPLICATE_KEY_CODE) {
            InsertErrorView::DuplicateKey
        } else {
            InsertErrorView::Storage(diagnostic@)
        },
{
    match write_error_code {
        Some(code) if code == DUPLICATE_KEY_CODE => InsertError::DuplicateKey,
        _ => InsertError::Storage(StorageFault { diagnostic }),
    }
}

/// The view of the result of an insertion.
pub open spec fn insert_result_view(result: Result<(), InsertError>) -> Result<
    (),
    InsertErrorView,
> {
    match result {
        Ok(()) => Ok(()),
        Err(error) => Err(error@),
    }
}

/// The view of the result of a merge or a deletion.
pub open spec fn unit_result_view(result: Result<(), StorageFault>) -> Result<(), Seq<char>> {
    match result {
        Ok(()) => Ok(()),
        Err(fault) => Err(fault.diagnostic@),
    }
}

/// The views of some entries, in their order.
pub open spec fn entry_views(entries: Seq<JournalEntry>) -> Seq<EntryView> {
    entries.map_values(|entry: JournalEntry| entry@)
}

/// The view of the result of a listing.
pub open spec fn list_result_view(result: Result<Vec<JournalEntry>, StorageFault>) -> Result<
    Seq<EntryView>,
    Seq<char>,
> {
    match result {
        Ok(entries) => Ok(entry_views(entries@)),
        Err(fault) => Err(fault.diagnostic@),
    }
}

/// Insertion: in an outage it fails with the outage's diagnostic; an entry whose
/// date is held already is refused as a duplicate; any other entry is added at the
/// end.
pub open spec fn insert_spec(store: StoreView, entry: EntryView) -> (
    StoreView,
    Result<(), InsertErrorView>,
) {
    match store.outage {
        Some(diagnostic) => (store, Err(InsertErrorView::Storage(diagnostic))),
        None => if holds_date(store.records, entry.date) {
            (store, Err(InsertErrorView::DuplicateKey))
        } else {
            (StoreView { records: store.records.push(entry), outage: store.outage }, Ok(()))
        },
    }
}

/// Merge: in an outage it fails; otherwise the record of the date, if there is
/// one, gets the score and the summary, and the call succeeds either way.
pub open spec fn merge_spec(
    store: StoreView,
    date: Date,
    rate: Rate,
    short_summary: Seq<char>,
) -> (StoreView, Result<(), Seq<char>>) {
    match store.outage {
        Some(diagnostic) => (store, Err(diagnostic)),
        None => (
            StoreView {
                records: merged(store.records, date, rate, short_summary),
                outage: store.outage,
            },
            Ok(()),
        ),
    }
}

/// Listing: in an outage it fails; otherwise it gives every record, in the order
/// in which they came.
pub open spec fn list_spec(store: StoreView) -> Result<Seq<EntryView>, Seq<char>> {
    match store.outage {
        Some(diagnostic) => Err(diagnostic),
        None => Ok(store.records),
    }
}

/// Deletion: in an outage it fails; otherwise the record of the date is gone, and
/// the call succeeds whether or not there was one.
pub open spec fn delete_spec(store: StoreView, date: Date) -> (StoreView, Result<(), Seq<char>>) {
    match store.outage {
        Some(diagnostic) => (store, Err(diagnostic)),
        None => (
            StoreView { records: without_date(store.records, date), outage: store.outage },
            Ok(()),
        ),
    }
}

/// A store held in memory. No two of its entries share a date, whatever is done
/// to it.
#[derive(Debug)]
pub struct EntryStore {
    entries: Vec<JournalEntry>,
    outage: Option<String>,
}

impl View for EntryStore {
    type V = StoreView;

    closed spec fn view(&self) -> StoreView {
        StoreView {
            records: entry_views(self.entries@),
            outage: match self.outage {
                Some(diagnostic) => Some(diagnostic@),
                None => None,
            },
        }
    }
}

impl EntryStore {
    #[verifier::type_invariant]
    spec fn dates_apart(self) -> bool {
        dates_unique(entry_views(self.entries@))
    }

    /// An empty store, in service.
    pub fn new() -> (store: EntryStore)
        ensures
            store@.records == Seq::<EntryView>::empty(),
            store@.outage is None,
    {
        let store = EntryStore { entries: Vec::new(), outage: None };
        store
    }

    /// The number of entries. No two of them share a date.
    pub fn len(&self) -> (count: usize)
        ensures
            count == self@.records.len(),
            dates_unique(self@.records),
    {
        proof {
            use_type_invariant(self);
        }
        self.entries.len()
    }

    /// Puts the store out of service: until [`EntryStore::recover`], every
    /// operation fails with this diagnostic and changes nothing.
    pub fn fail_with(&mut self, diagnostic: String)
        ensures
            final(self)@.records == old(self)@.records,
            final(self)@.outage == Some(diagnostic@),
    {
        proof {
            use_type_invariant(&*self);
        }
        self.outage = Some(diagnostic);
    }

    /// Puts the store back in service.
    pub fn recover(&mut self)
        ensures
            final(self)@.records == old(self)@.records,
            final(self)@.outage is None,
    {
        proof {
            use_type_invariant(&*self);
        }
        self.outage = None;
    }

    /// The outage that the store is in, as the fault that its operations give.
    fn fault(&self) -> (fault: Option<StorageFault>)
        ensures
            match fault {
                Some(fault) => self@.outage == Some(fault.diagnostic@),
                None => self@.outage is None,
            },
    {
        match &self.outage {
            Some(diagnostic) => Some(StorageFault { diagnostic: diagnostic.clone() }),
            None => None,
        }
    }

    /// Takes the entries out, to change them and put them back: a field of the
    /// store is not lent out for changes, since its entries must stay apart at
    /// every moment.
    fn take_entries(&mut self) -> (entries: Vec<JournalEntry>)
        ensures
            entries@ == old(self).entries@,
            final(self).entries@.len() == 0,
            final(self).outage == old(self).outage,
    {
        let mut entries: Vec<JournalEntry> = Vec::new();
        core::mem::swap(&mut self.entries, &mut entries);
        entries
    }

    /// Where the entry of a date stands, if there is one.
    fn position_of(&self, date: Date) -> (position: Option<usize>)
        ensures
            dates_unique(self@.records),
            match position {
                Some(at) => at < self@.records.len() && self@.records[at as int].date == date,
                None => !holds_date(self@.records, date),
            },
    {
        proof {
            use_type_invariant(self);
        }
        let mut at: usize = 0;
        while at < self.entries.len()
            invariant
                at <= self.entries.len(),
                dates_unique(self@.records),
                forall|i: int| 0 <= i < at ==> (#[trigger] self@.records[i]).date != date,
            decreases self.entries.len() - at,
        {
            if self.entries[at].date == date {
                return Some(at);
            }
            at = at + 1;
        }
        None
    }

    /// Adds an entry, unless one of the same date is held.
    pub fn insert(&mut self, entry: JournalEntry) -> (inserted: Result<(), InsertError>)
        ensures
            (final(self)@, insert_result_view(inserted)) == insert_spec(old(self)@, entry@),
            dates_unique(final(self)@.records),
    {
        proof {
            use_type_invariant(&*self);
        }
        if let Some(fault) = self.fault() {
            return Err(InsertError::Storage(fault));
        }
        if self.position_of(entry.date).is_some() {
            return Err(InsertError::DuplicateKey);
        }
        proof {
            assert(entry_views(self.entries@.push(entry)) =~= self@.records.push(entry@));
        }
        let mut entries = self.take_entries();
        entries.push(entry);
        self.entries = entries;
        Ok(())
    }

    /// Sets the score and the summary of the entry of `date`. Without such an
    /// entry nothing changes, and the call succeeds all the same.
    pub fn upsert_merge(&mut self, date: Date, rate: Rate, short_summary: String) -> (updated:
        Result<(), StorageFault>)
        ensures
            (final(self)@, unit_result_view(updated)) == merge_spec(
                old(self)@,
                date,
                rate,
                short_summary@,
            ),
            dates_unique(final(self)@.records),
    {
        proof {
            use_type_invariant(&*self);
        }
        if let Some(fault) = self.fault() {
            return Err(fault);
        }
        match self.position_of(date) {
            Some(at) => {
                let replacement = JournalEntry { date, rate, short_summary };
                proof {
                    let before = self@.records;
                    let after = entry_views(self.entries@.update(at as int, replacement));
                    assert(after =~= merged(before, date, rate, short_summary@));
                }
                let mut entries = self.take_entries();
                entries.set(at, replacement);
                self.entries = entries;
            },
            None => {
                proof {
                    let before = self@.records;
                    assert(before =~= merged(before, date, rate, short_summary@));
                }
            },
        }
        Ok(())
    }

    /// Every entry, in the order in which they came.
    pub fn list_all(&self) -> (listed: Result<Vec<JournalEntry>, StorageFault>)
        ensures
            list_result_view(listed) == list_spec(self@),
            dates_unique(self@.records),
    {
        proof {
            use_type_invariant(self);
        }
        if let Some(fault) = self.fault() {
            return Err(fault);
        }
        let mut entries: Vec<JournalEntry> = Vec::new();
        let mut at: usize = 0;
        while at < self.entries.len()
            invariant
                at <= self.entries.len(),
                entries@.len() == at,
                forall|i: int| 0 <= i < at ==> (#[trigger] entries@[i])@ == self.entries@[i]@,
            decreases self.entries.len() - at,
        {
            entries.push(self.entries[at].duplicate());
            at = at + 1;
        }
        assert(entry_views(entries@) =~= self@.records);
        Ok(entries)
    }

    /// Removes the entry of `date`, if there is one.
    pub fn delete_by_date(&mut self, date: Date) -> (deleted: Result<(), StorageFault>)
        ensures
            (final(self)@, unit_result_view(deleted)) == delete_spec(old(self)@, date),
            dates_unique(final(self)@.records),
    {
        proof {
            use_type_invariant(&*self);
        }
        if let Some(fault) = self.fault() {
            return Err(fault);
        }
        match self.position_of(date) {
            Some(at) => {
                proof {
                    let before = self@.records;
                    lemma_filter_drops_one(
                        before,
                        |record: EntryView| record.date != date,
                        at as int,
                    );
                    assert(entry_views(self.entries@.remove(at as int)) =~= before.remove(
                        at as int,
                    ));
                }
                let mut entries = self.take_entries();
                entries.remove(at);
                self.entries = entries;
            },
            None => {
                proof {
                    lemma_delete_absent_changes_nothing(self@.records, date);
                }
            },
        }
        Ok(())
    }
}

/// A sequence of which every element is kept is left as it is by the filter.
proof fn lemma_filter_keeps_all(records: Seq<EntryView>, keep: spec_fn(EntryView) -> bool)
    requires
        forall|i: int| 0 <= i < records.len() ==> keep(#[trigger] records[i]),
    ensures
        records.filter(keep) == records,
    decreases records.len(),
{
    reveal(Seq::filter);
    if records.len() > 0 {
        lemma_filter_keeps_all(records.drop_last(), keep);
    }
}

/// A sequence of which every element but the one at `at` is kept is left without
/// that element by the filter.
proof fn lemma_filter_drops_one(
    records: Seq<EntryView>,
    keep: spec_fn(EntryView) -> bool,
    at: int,
)
    requires
        0 <= at < records.len(),
        !keep(records[at]),
        forall|i: int| 0 <= i < records.len() && i != at ==> keep(#[trigger] records[i]),
    ensures
        records.filter(keep) == records.remove(at),
    decreases records.len(),
{
    reveal(Seq::filter);
    let front = records.drop_last();
    if at == records.len() - 1 {
        lemma_filter_keeps_all(front, keep);
    } else {
        lemma_filter_drops_one(front, keep, at);
    }
}

/// Deleting a date that no record has leaves the records as they are.
pub proof fn lemma_delete_absent_changes_nothing(records: Seq<EntryView>, date: Date)
    requires
        !holds_date(records, date),
    ensures
        without_date(records, date) == records,
{
    lemma_filter_keeps_all(records, |record: EntryView| record.date != date);
}

/// Deletion is idempotent. Deleting a date that no record has leaves the store as
/// it is, and succeeds unless the store is out of service; so does deleting a
/// date a second time.
pub proof fn lemma_delete_is_idempotent(store: StoreView, date: Date)
    ensures
        !holds_date(store.records, date) ==> delete_spec(store, date).0 == store,
        delete_spec(delete_spec(store, date).0, date).0 == delete_spec(store, date).0,
        delete_spec(store, date).1 is Ok <==> store.outage is None,
        delete_spec(delete_spec(store, date).0, date).1 is Ok <==> store.outage is None,
{
    if !holds_date(store.records, date) {
        lemma_delete_absent_changes_nothing(store.records, date);
    }
    lemma_delete_absent_changes_nothing(without_date(store.records, date), date);
}

/// After a deletion no record has the date, every other date is held exactly if
/// it was held before, and no two records share a date if none did before.
pub proof fn lemma_delete_removes_date(records: Seq<EntryView>, date: Date)
    ensures
        !holds_date(without_date(records, date), date),
        dates_unique(records) ==> dates_unique(without_date(records, date)),
        forall|other: Date|
            other != date ==> (holds_date(without_date(records, date), other) <==> holds_date(
                records,
                other,
            )),
    decreases records.len(),
{
    reveal(Seq::filter);
    if records.len() > 0 {
        let front = records.drop_last();
        let last = records.last();
        let kept = without_date(front, date);
        lemma_delete_removes_date(front, date);
        assert(front.push(last) =~= records);
        assert forall|other: Date| other != date implies (holds_date(
            without_date(records, date),
            other,
        ) <==> holds_date(records, other)) by {
            lemma_holds_date_push(front, last, other);
            lemma_holds_date_push(kept, last, other);
        }
        if dates_unique(records) {
            lemma_unique_drop_last(records);
        }
    }
}

/// Where no two records share a date, none do without the last record, and the
/// last record's date is held by no other.
proof fn lemma_unique_drop_last(records: Seq<EntryView>)
    requires
        records.len() > 0,
        dates_unique(records),
    ensures
        dates_unique(records.drop_last()),
        !holds_date(records.drop_last(), records.last().date),
{
    let front = records.drop_last();
    assert forall|i: int| 0 <= i < front.len() implies (#[trigger] front[i]).date
        != records.last().date by {
        assert(records[i].date != records[records.len() - 1].date);
    }
}

/// A record is held after a push if it was held before or is the one pushed.
pub proof fn lemma_holds_date_push(records: Seq<EntryView>, pushed: EntryView, date: Date)
    ensures
        holds_date(records.push(pushed), date) <==> (holds_date(records, date) || pushed.date
            == date),
{
    let longer = records.push(pushed);
    if holds_date(records, date) {
        let i = choose|i: int| 0 <= i < records.len() && (#[trigger] records[i]).date == date;
        assert(longer[i].date == date);
    }
    if pushed.date == date {
        assert(longer[records.len() as int].date == date);
    }
    if holds_date(longer, date) && pushed.date != date {
        let i = choose|i: int| 0 <= i < longer.len() && (#[trigger] longer[i]).date == date;
        assert(records[i].date == date);
    }
}

/// No operation of the store brings two records of one date together, so no
/// interleaving of the operations of several callers does.
pub proof fn lemma_operations_keep_dates_apart(
    store: StoreView,
    entry: EntryView,
    date: Date,
    rate: Rate,
    short_summary: Seq<char>,
)
    requires
        dates_unique(store.records),
    ensures
        dates_unique(insert_spec(store, entry).0.records),
        dates_unique(merge_spec(store, date, rate, short_summary).0.records),
        dates_unique(delete_spec(store, date).0.records),
{
    lemma_delete_removes_date(store.records, date);
}

/// A merge is idempotent: made a second time with the same score and summary, it
/// changes nothing.
pub proof fn lemma_merge_is_idempotent(
    store: StoreView,
    date: Date,
    rate: Rate,
    short_summary: Seq<char>,
)
    ensures
        merge_spec(merge_spec(store, date, rate, short_summary).0, date, rate, short_summary)
            == merge_spec(store, date, rate, short_summary),
{
    let once = merged(store.records, date, rate, short_summary);
    assert(merged(once, date, rate, short_summary) =~= once);
}

/// A merge changes no date: the same dates are held, and they stay apart.
pub proof fn lemma_merge_keeps_dates(
    records: Seq<EntryView>,
    date: Date,
    rate: Rate,
    short_summary: Seq<char>,
)
    ensures
        merged(records, date, rate, short_summary).len() == records.len(),
        forall|i: int|
            0 <= i < records.len() ==> (#[trigger] merged(
                records,
                date,
                rate,
                short_summary,
            )[i]).date == records[i].date,
        dates_unique(records) ==> dates_unique(merged(records, date, rate, short_summary)),
        forall|other: Date|
            holds_date(merged(records, date, rate, short_summary), other) <==> holds_date(
                records,
                other,
            ),
{
    let after = merged(records, date, rate, short_summary);
    assert forall|other: Date| holds_date(after, other) <==> holds_date(records, other) by {
        if holds_date(after, other) {
            let i = choose|i: int| 0 <= i < after.len() && (#[trigger] after[i]).date == other;
            assert(records[i].date == other);
        }
        if holds_date(records, other) {
            let i = choose|i: int|
                0 <= i < records.len() && (#[trigger] records[i]).date == other;
            assert(after[i].date == other);
        }
    }
}

} // verus!
