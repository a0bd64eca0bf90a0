//! What holds of submissions, whatever the completion service gives back.
//!
//! Each statement here is about [`ingest_spec`], the meaning of a submission, or
//! about [`next`], the state machine; [`crate::ingest::ingest_completion`] and
//! [`crate::ingest::step`] are proved to compute them.

use crate::completion::completion_reading;
use crate::completion::OutcomeView;
use crate::entry::EntryView;
use crate::entry::SubmissionView;
use crate::error::CreateErrorView;
use crate::ingest::after_insert;
use crate::ingest::after_merge;
use crate::ingest::ingest_spec;
use crate::ingest::next;
use crate::ingest::persist_spec;
use crate::ingest::progress;
use crate::ingest::ActionView;
use crate::ingest::EventView;
use crate::ingest::StageView;
use crate::parser::entry_of_text;
use crate::store::dates_unique;
use crate::store::holds_date;
use crate::store::insert_spec;
use crate::store::lemma_holds_date_push;
use crate::store::lemma_merge_keeps_dates;
use crate::store::merge_spec;
use crate::store::StoreView;
use vstd::prelude::*;

verus! {

/// The store after a run of submissions, taken one after the other; `outcomes`
/// holds what the completion service gave back for each.
pub open spec fn ingest_all(store: StoreView, outcomes: Seq<OutcomeView>) -> StoreView
    decreases outcomes.len(),
{
    if outcomes.len() == 0 {
        store
    } else {
        ingest_spec(ingest_all(store, outcomes.drop_last()), outcomes.last()).0
    }
}

/// Storing an entry keeps the dates apart and leaves the store in or out of
/// service as it was; where the entry was stored, its date is held afterwards.
pub proof fn lemma_persist_keeps_dates_apart(store: StoreView, entry: EntryView)
    requires
        dates_unique(store.records),
    ensures
        dates_unique(persist_spec(store, entry).0.records),
        persist_spec(store, entry).0.outage == store.outage,
        persist_spec(store, entry).1 is Ok ==> holds_date(
            persist_spec(store, entry).0.records,
            entry.date,
        ),
{
    lemma_merge_keeps_dates(store.records, entry.date, entry.rate, entry.short_summary);
    lemma_holds_date_push(store.records, entry, entry.date);
}

/// Uniqueness, for one submission: whatever the completion service gives back,
/// and whether the submission succeeds or fails, afterwards no two records of the
/// store share a date.
pub proof fn lemma_submission_keeps_dates_apart(store: StoreView, outcome: OutcomeView)
    requires
        dates_unique(store.records),
    ensures
        dates_unique(ingest_spec(store, outcome).0.records),
{
    match completion_reading(outcome) {
        Ok(text) => match entry_of_text(text) {
            Ok(entry) => lemma_persist_keeps_dates_apart(store, entry),
            Err(_) => {},
        },
        Err(_) => {},
    }
}

/// Uniqueness: after any run of submissions to a store in which no two records
/// share a date, and so to an empty one, any two places of the store that hold the
/// same date are the same place: there is at most one record of each date.
pub proof fn lemma_one_record_per_date(store: StoreView, outcomes: Seq<OutcomeView>)
    requires
        dates_unique(store.records),
    ensures
        ({
            let records = ingest_all(store, outcomes).records;
            &&& dates_unique(records)
            &&& forall|i: int, j: int|
                0 <= i < records.len() && 0 <= j < records.len() && (#[trigger] records[i]).date
                    == (#[trigger] records[j]).date ==> i == j
        }),
    decreases outcomes.len(),
{
    if outcomes.len() > 0 {
        lemma_one_record_per_date(store, outcomes.drop_last());
        lemma_submission_keeps_dates_apart(
            ingest_all(store, outcomes.drop_last()),
            outcomes.last(),
        );
    }
}

/// Merge convergence: of two submissions for the same date that both succeed, one
/// after the other, the second one wins. The store then holds a record of that
/// date, every record of that date is the entry of the second submission (its
/// score and its summary, under the date that was there), and the second
/// submission added no record.
pub proof fn lemma_second_submission_wins(
    store: StoreView,
    first: OutcomeView,
    second: OutcomeView,
)
    requires
        dates_unique(store.records),
        ingest_spec(store, first).1 is Ok,
        ingest_spec(ingest_spec(store, first).0, second).1 is Ok,
        ingest_spec(store, first).1->Ok_0.date == ingest_spec(
            ingest_spec(store, first).0,
            second,
        ).1->Ok_0.date,
    ensures
        ({
            let between = ingest_spec(store, first).0;
            let after = ingest_spec(between, second).0;
            let winner = ingest_spec(between, second).1->Ok_0;
            &&& dates_unique(after.records)
            &&& holds_date(after.records, winner.date)
            &&& after.records.len() == between.records.len()
            &&& forall|i: int|
                0 <= i < after.records.len() && (#[trigger] after.records[i]).date == winner.date
                    ==> after.records[i] == winner
            &&& forall|i: int|
                0 <= i < after.records.len() && (#[trigger] after.records[i]).date != winner.date
                    ==> after.records[i] == between.records[i]
        }),
{
    let between = ingest_spec(store, first).0;
    let loser = ingest_spec(store, first).1->Ok_0;
    let winner = ingest_spec(between, second).1->Ok_0;
    lemma_persist_keeps_dates_apart(store, loser);
    lemma_merge_keeps_dates(between.records, winner.date, winner.rate, winner.short_summary);
}

/// What comes of running the state machine against a store: each action that a
/// step asks for is performed, on the store as the operations of the store say
/// and on the completion service by taking `outcome` for its answer, and what
/// came back is the next event. `steps` bounds the number of steps; nothing comes
/// of a run that needs more, or that meets an event that is not taken.
pub open spec fn run(
    stage: StageView,
    event: EventView,
    store: StoreView,
    outcome: OutcomeView,
    steps: nat,
) -> Option<(StoreView, Result<EntryView, CreateErrorView>)>
    decreases steps,
{
    if steps == 0 {
        None
    } else {
        match next(stage, event) {
            None => None,
            Some((later, ActionView::Complete(_))) => run(
                later,
                EventView::Completed(outcome),
                store,
                outcome,
                (steps - 1) as nat,
            ),
            Some((later, ActionView::Insert(entry))) => run(
                later,
                EventView::Inserted(insert_spec(store, entry).1),
                insert_spec(store, entry).0,
                outcome,
                (steps - 1) as nat,
            ),
            Some((later, ActionView::Merge { date, rate, short_summary })) => run(
                later,
                EventView::Merged(merge_spec(store, date, rate, short_summary).1),
                merge_spec(store, date, rate, short_summary).0,
                outcome,
                (steps - 1) as nat,
            ),
            Some((_, ActionView::Respond(response))) => Some((store, response)),
        }
    }
}

/// The state machine means what a submission means: run from the first stage
/// against a store, it ends within four steps, with the store and the response
/// that [`ingest_spec`] gives.
pub proof fn lemma_running_the_steps_ingests(
    instruction: Seq<char>,
    submission: SubmissionView,
    store: StoreView,
    outcome: OutcomeView,
)
    ensures
        run(
            StageView::Prompting,
            EventView::Submitted { instruction, submission },
            store,
            outcome,
            4,
        ) == Some(ingest_spec(store, outcome)),
{
    reveal_with_fuel(run, 5);
}

/// One turn of a submission that waits for the store: the insertion or the merge
/// that it asked for is made, and it takes the result. A submission in any other
/// stage does nothing to the store.
pub open spec fn store_turn(store: StoreView, stage: StageView) -> (StoreView, StageView) {
    match stage {
        StageView::Persisting(entry) => {
            let (after, inserted) = insert_spec(store, entry);
            (after, after_insert(entry, inserted).0)
        },
        StageView::MergeOnConflict(entry) => {
            let (after, merged) = merge_spec(store, entry.date, entry.rate, entry.short_summary);
            (after, after_merge(entry, merged).0)
        },
        _ => (store, stage),
    }
}

/// Two submissions on one store, their turns taken in the order that `turns`
/// gives: `true` is a turn of the first, `false` a turn of the second.
pub open spec fn interleaved(
    store: StoreView,
    first: StageView,
    second: StageView,
    turns: Seq<bool>,
) -> (StoreView, StageView, StageView)
    decreases turns.len(),
{
    if turns.len() == 0 {
        (store, first, second)
    } else {
        let (before, one, other) = interleaved(store, first, second, turns.drop_last());
        if turns.last() {
            (store_turn(before, one).0, store_turn(before, one).1, other)
        } else {
            (store_turn(before, other).0, one, store_turn(before, other).1)
        }
    }
}

/// Whether a submission of `entry` can be in `stage` once its entry was read.
spec fn on_its_way(stage: StageView, entry: EntryView) -> bool {
    stage == StageView::Persisting(entry) || stage == StageView::MergeOnConflict(entry) || stage
        == StageView::Done
}

/// What holds at every moment of a race of two submissions for one date, from a
/// store `before` that is in service.
spec fn race_invariant(
    before: StoreView,
    first: EntryView,
    second: EntryView,
    now: (StoreView, StageView, StageView),
) -> bool {
    let (store, one, other) = now;
    let date = first.date;
    &&& store.outage is None
    &&& dates_unique(store.records)
    &&& on_its_way(one, first)
    &&& on_its_way(other, second)
    &&& store.records.len() == before.records.len() || (store.records.len() == before.records.len()
        + 1 && !holds_date(before.records, date) && store.records.last().date == date)
    &&& forall|i: int|
        0 <= i < before.records.len() ==> (#[trigger] store.records[i]).date
            == before.records[i].date
    &&& forall|i: int|
        0 <= i < before.records.len() && before.records[i].date != date
            ==> #[trigger] store.records[i] == before.records[i]
    &&& !(one is Persisting && other is Persisting) ==> holds_date(store.records, date)
    &&& one is Done || other is Done ==> forall|i: int|
        0 <= i < store.records.len() && (#[trigger] store.records[i]).date == date
            ==> store.records[i] == first || store.records[i] == second
}

/// The invariant of a race holds at its start and after every turn.
proof fn lemma_race_invariant(
    before: StoreView,
    first: EntryView,
    second: EntryView,
    turns: Seq<bool>,
)
    requires
        dates_unique(before.records),
        before.outage is None,
        first.date == second.date,
    ensures
        race_invariant(
            before,
            first,
            second,
            interleaved(
                before,
                StageView::Persisting(first),
                StageView::Persisting(second),
                turns,
            ),
        ),
    decreases turns.len(),
{
    if turns.len() > 0 {
        lemma_race_invariant(before, first, second, turns.drop_last());
        let (store, one, other) = interleaved(
            before,
            StageView::Persisting(first),
            StageView::Persisting(second),
            turns.drop_last(),
        );
        if turns.last() {
            lemma_turn_keeps_race_invariant(before, first, second, store, one, other);
        } else {
            lemma_turn_keeps_race_invariant(before, second, first, store, other, one);
        }
    }
}

/// A turn of one of the two submissions keeps the invariant of the race, whichever
/// of the two is counted as the first.
proof fn lemma_turn_keeps_race_invariant(
    before: StoreView,
    mine: EntryView,
    theirs: EntryView,
    store: StoreView,
    stage: StageView,
    waiting: StageView,
)
    requires
        mine.date == theirs.date,
        race_invariant(before, mine, theirs, (store, stage, waiting)),
    ensures
        race_invariant(
            before,
            mine,
            theirs,
            (store_turn(store, stage).0, store_turn(store, stage).1, waiting),
        ),
        race_invariant(
            before,
            theirs,
            mine,
            (store_turn(store, stage).0, waiting, store_turn(store, stage).1),
        ),
{
    let date = mine.date;
    lemma_holds_date_push(store.records, mine, date);
    lemma_merge_keeps_dates(store.records, date, mine.rate, mine.short_summary);
    if stage is Persisting && !holds_date(store.records, date) {
        assert forall|i: int| 0 <= i < before.records.len() implies before.records[i].date
            != date by {
            assert(store.records[i].date == before.records[i].date);
        }
    }
}

/// A race for a date is benign. Two submissions whose entries have the same date
/// may take their turns at the store in any order: whoever inserts first wins the
/// insertion, the other meets the conflict and merges. When both are done, no two
/// records share a date, the store holds a record of the date, that record is
/// wholly the entry of one of the two, at most one record was added, and every
/// record of another date is what it was.
pub proof fn lemma_race_for_a_date_is_benign(
    store: StoreView,
    first: EntryView,
    second: EntryView,
    turns: Seq<bool>,
)
    requires
        dates_unique(store.records),
        store.outage is None,
        first.date == second.date,
        interleaved(
            store,
            StageView::Persisting(first),
            StageView::Persisting(second),
            turns,
        ).1 is Done,
        interleaved(
            store,
            StageView::Persisting(first),
            StageView::Persisting(second),
            turns,
        ).2 is Done,
    ensures
        ({
            let after = interleaved(
                store,
                StageView::Persisting(first),
                StageView::Persisting(second),
                turns,
            ).0;
            &&& dates_unique(after.records)
            &&& holds_date(after.records, first.date)
            &&& forall|i: int|
                0 <= i < after.records.len() && (#[trigger] after.records[i]).date == first.date
                    ==> after.records[i] == first || after.records[i] == second
            &&& forall|i: int|
                0 <= i < store.records.len() && store.records[i].date != first.date
                    ==> #[trigger] after.records[i] == store.records[i]
            &&& store.records.len() <= after.records.len() <= store.records.len() + 1
        }),
{
    lemma_race_invariant(store, first, second, turns);
}

/// The stages are gone through in order, once: every step leads to a later
/// stage, so nothing is tried again; a step answers the submission exactly when
/// it leads to the last stage; and the last stage takes no event.
pub proof fn lemma_steps_move_forward(stage: StageView, event: EventView)
    ensures
        next(StageView::Done, event) is None,
        next(stage, event) matches Some((later, action)) ==> {
            &&& progress(later) > progress(stage)
            &&& action is Respond <==> later is Done
        },
{
}

/// No partial success: a submission that fails, at whatever stage, leaves the
/// store as it was.
pub proof fn lemma_failure_changes_nothing(store: StoreView, outcome: OutcomeView)
    requires
        ingest_spec(store, outcome).1 is Err,
    ensures
        ingest_spec(store, outcome).0 == store,
{
}

/// The last write for a date wins, and nothing else is touched: after a
/// submission that succeeds, a record that had the entry's date is the entry, every
/// other record is what it was and where it was, and the entry was added at the
/// end exactly if no record had its date.
pub proof fn lemma_submission_touches_only_its_date(store: StoreView, outcome: OutcomeView)
    requires
        ingest_spec(store, outcome).1 is Ok,
    ensures
        ({
            let after = ingest_spec(store, outcome).0;
            let entry = ingest_spec(store, outcome).1->Ok_0;
            &&& after.outage == store.outage
            &&& if holds_date(store.records, entry.date) {
                after.records.len() == store.records.len()
            } else {
                after.records == store.records.push(entry)
            }
            &&& forall|i: int|
                0 <= i < store.records.len() && store.records[i].date == entry.date
                    ==> #[trigger] after.records[i] == entry
            &&& forall|i: int|
                0 <= i < store.records.len() && store.records[i].date != entry.date
                    ==> #[trigger] after.records[i] == store.records[i]
        }),
{
}

/// Fail-closed on a completion that is no entry: where the service gave a text
/// and the text is not read as an entry, the submission fails with the fault, the
/// store is as it was, and the state machine asks nothing of the store.
pub proof fn lemma_malformed_output_changes_nothing(store: StoreView, outcome: OutcomeView)
    requires
        completion_reading(outcome) is Ok,
        entry_of_text(completion_reading(outcome)->Ok_0) is Err,
    ensures
        ({
            let fault = entry_of_text(completion_reading(outcome)->Ok_0)->Err_0;
            let failure = Err::<EntryView, CreateErrorView>(
                CreateErrorView::MalformedModelOutput(fault),
            );
            &&& ingest_spec(store, outcome) == (store, failure)
            &&& next(StageView::Completing, EventView::Completed(outcome)) == Some(
                (StageView::Done, ActionView::Respond(failure)),
            )
        }),
{
}

/// Fail-closed on an empty completion: where the service gave no choice, or a
/// first choice without a text, the submission fails with `NoOutput`, the store
/// is as it was, and the state machine asks nothing of the store.
pub proof fn lemma_empty_completion_changes_nothing(
    store: StoreView,
    choices: Seq<Option<Seq<char>>>,
)
    requires
        choices.len() == 0 || choices[0] is None,
    ensures
        ({
            let outcome = OutcomeView::Answered(choices);
            let failure = Err::<EntryView, CreateErrorView>(CreateErrorView::NoOutput);
            &&& ingest_spec(store, outcome) == (store, failure)
            &&& next(StageView::Completing, EventView::Completed(outcome)) == Some(
                (StageView::Done, ActionView::Respond(failure)),
            )
        }),
{
}

} // verus!
