//! The table of the store as a set of records, and what holds of flushing
//! into it.
//!
//! The uniqueness constraint of the table makes it a set: inserting a record
//! that is there already changes nothing. The laws below hold of every store
//! that behaves so.

use vstd::prelude::*;
use crate::collector::Trace;
use crate::location::{record_of, Location, Record};
use crate::store::{count_of, lemma_count_of_next, FlushState, InsertOutcome};

verus! {

/// The table after a batch of records was inserted into it, each one stored
/// unless it was already there.
pub open spec fn table_after(table: Set<Record>, batch: Seq<Record>) -> Set<Record> {
    table.union(batch.to_set())
}

/// The table after the trace of a test was flushed into it.
pub open spec fn table_after_flush(table: Set<Record>, trace: Trace) -> Set<Record> {
    table_after(table, trace.records())
}

/// After a flush the table holds what it held before and the records of the
/// trace, and nothing else.
pub proof fn lemma_flush_stores_the_trace(table: Set<Record>, trace: Trace, record: Record)
    ensures
        table_after_flush(table, trace).contains(record) <==> table.contains(record)
            || trace.records().contains(record),
{
}

/// Flushing is idempotent: a trace that is flushed a second time leaves the
/// table as the first flush left it.
pub proof fn lemma_flush_is_idempotent(table: Set<Record>, trace: Trace)
    ensures
        table_after_flush(table_after_flush(table, trace), trace) == table_after_flush(
            table,
            trace,
        ),
{
    assert(table_after_flush(table_after_flush(table, trace), trace) =~= table_after_flush(
        table,
        trace,
    ));
}

/// A location that is flushed twice for one test is stored once, be it in
/// two flushes or twice in one: the table gains that one record, and an
/// empty table ends with exactly one row.
pub proof fn lemma_location_flushed_twice_is_one_row(
    table: Set<Record>,
    test_id: Seq<char>,
    location: Location,
)
    ensures
        ({
            let record = record_of(test_id, location);
            let once = Trace { test_id, locations: seq![location] };
            let twice = Trace { test_id, locations: seq![location, location] };
            &&& table_after_flush(table_after_flush(table, once), once) == table.insert(record)
            &&& table_after_flush(table, twice) == table.insert(record)
            &&& table_after_flush(table_after_flush(Set::empty(), once), once).len() == 1
            &&& table_after_flush(Set::empty(), twice).len() == 1
        }),
{
    let record = record_of(test_id, location);
    let once = Trace { test_id, locations: seq![location] };
    let twice = Trace { test_id, locations: seq![location, location] };
    assert(once.records() =~= seq![record]);
    assert(twice.records() =~= seq![record, record]);
    assert(seq![record][0] == record);
    assert(seq![record, record][0] == record);
    assert(seq![record].to_set() =~= set![record]);
    assert(seq![record, record].to_set() =~= set![record]);
    assert(table_after_flush(table_after_flush(table, once), once) =~= table.insert(record));
    assert(table_after_flush(table, twice) =~= table.insert(record));
    assert(table_after_flush(table_after_flush(Set::empty(), once), once) =~= set![record]);
    assert(table_after_flush(Set::empty(), twice) =~= set![record]);
}

/// What a store with set semantics does with one record: the table with the
/// record in it, and one changed row if the record was new, none if it was
/// there already.
pub open spec fn store_insert(table: Set<Record>, record: Record) -> (Set<Record>, Option<usize>) {
    (
        table.insert(record),
        if table.contains(record) {
            Some(0usize)
        } else {
            Some(1usize)
        },
    )
}

/// A flush run to its end against a store with set semantics: the table and
/// the flush when nothing is pending any more.
pub open spec fn flush_into(table: Set<Record>, flush: FlushState) -> (Set<Record>, FlushState)
    decreases flush.records.len() - flush.outcomes.len(),
{
    match flush.pending() {
        None => (table, flush),
        Some(record) => {
            let (next, changed) = store_insert(table, record);
            flush_into(next, flush.after_answer(changed))
        },
    }
}

/// Run against a store with set semantics, a flush leaves in the table what
/// the table held and the records that were still to store, and it ends
/// done, with no failure counted.
pub proof fn lemma_flush_into_stores_the_rest(table: Set<Record>, flush: FlushState)
    requires
        flush.outcomes.len() <= flush.records.len(),
        count_of(flush.outcomes, InsertOutcome::Failed) == 0,
    ensures
        flush_into(table, flush).0 == table_after(
            table,
            flush.records.skip(flush.outcomes.len() as int),
        ),
        flush_into(table, flush).1.done(),
        flush_into(table, flush).1.records == flush.records,
        count_of(flush_into(table, flush).1.outcomes, InsertOutcome::Failed) == 0,
    decreases flush.records.len() - flush.outcomes.len(),
{
    let done = flush.outcomes.len() as int;
    let rest = flush.records.skip(done);
    match flush.pending() {
        None => {
            assert(rest =~= Seq::<Record>::empty());
            assert(table_after(table, rest) =~= table);
        },
        Some(record) => {
            let (next, changed) = store_insert(table, record);
            let after = flush.after_answer(changed);
            assert(after.outcomes.take(done) =~= flush.outcomes);
            assert(after.outcomes.take(done + 1) =~= after.outcomes);
            lemma_count_of_next(after.outcomes, done, InsertOutcome::Failed);
            lemma_flush_into_stores_the_rest(next, after);
            let later = flush.records.skip(done + 1);
            assert(rest[0] == record);
            assert(rest.skip(1) =~= later);
            assert(table_after(next, later) =~= table_after(table, rest)) by {
                assert forall|r: Record| rest.contains(r) <==> r == record || later.contains(
                    r,
                ) by {
                    if rest.contains(r) {
                        let k = choose|k: int| 0 <= k < rest.len() && rest[k] == r;
                        if k > 0 {
                            assert(later[k - 1] == r);
                        }
                    }
                    if later.contains(r) {
                        let k = choose|k: int| 0 <= k < later.len() && later[k] == r;
                        assert(rest[k + 1] == r);
                    }
                }
            }
        },
    }
}

/// Against a store with set semantics, the flush of a trace leaves the table
/// as the model of the table says, and a second flush of the same trace
/// leaves it as the first did.
pub proof fn lemma_flush_into_follows_the_table(table: Set<Record>, trace: Trace)
    ensures
        ({
            let start = FlushState { records: trace.records(), outcomes: Seq::empty() };
            let first = flush_into(table, start).0;
            &&& first == table_after_flush(table, trace)
            &&& flush_into(first, start).0 == first
        }),
{
    let start = FlushState { records: trace.records(), outcomes: Seq::empty() };
    reveal(Seq::filter);
    assert(start.outcomes.filter(|outcome: InsertOutcome| outcome == InsertOutcome::Failed)
        =~= Seq::<InsertOutcome>::empty());
    assert(trace.records().skip(0) =~= trace.records());
    let first = flush_into(table, start).0;
    lemma_flush_into_stores_the_rest(table, start);
    lemma_flush_into_stores_the_rest(first, start);
    lemma_flush_is_idempotent(table, trace);
}

} // verus!
