//! What the persistent store is asked to do, and what it answers.
//!
//! The store is a durable table of records with set semantics: a record that
//! is already there is not stored again. This module says how the store is
//! opened, drives a flush record by record, and counts the answers. The host
//! makes the calls.

use vstd::prelude::*;
use crate::collector::TestTrace;
use crate::location::{records_of, Record, TraceRecord};

verus! {

/// How long a contended write may wait for the lock, in seconds.
pub const BUSY_TIMEOUT_SECS: u64 = 5;

/// The statements that make the table and its uniqueness constraint, unless
/// they are there already.
pub const SCHEMA_SQL: &'static str =
    "CREATE TABLE IF NOT EXISTS trace (\
         id      INTEGER PRIMARY KEY,\
         nodeid  TEXT NOT NULL,\
         file    TEXT NOT NULL,\
         line    INTEGER NOT NULL\
     );\
     CREATE UNIQUE INDEX IF NOT EXISTS unique_line ON trace (nodeid, file, line);";

/// The statement that stores one record. Its three parameters are the test
/// identifier, the file and the line. A record that is already there is
/// left alone and changes no row.
pub const INSERT_SQL: &'static str =
    "INSERT OR IGNORE INTO trace (nodeid, file, line) VALUES (?1, ?2, ?3)";

/// How the store protects a write against a crash.
#[derive(Clone, Copy, Debug, PartialEq, Eq, Structural)]
pub enum Journal {
    /// Changes go to a write-ahead log first; readers are not blocked.
    WriteAhead,
}

/// How the backing file of the store is opened and configured.
#[derive(Debug)]
pub struct StoreSettings {
    /// Where the backing file is.
    pub location: String,
    /// The file is opened for reading and writing.
    pub read_write: bool,
    /// The file is created when it does not exist.
    pub create_if_missing: bool,
    /// The connection serialises the calls made on it.
    pub serialized: bool,
    /// How long a contended write waits before it fails, in seconds.
    pub busy_timeout_secs: u64,
    /// The journaling mode.
    pub journal: Journal,
}

impl StoreSettings {
    /// Whether these are the settings every store is opened with, for the
    /// file at `location`.
    pub open spec fn is_standard_for(&self, location: Seq<char>) -> bool {
        &&& self.location@ == location
        &&& self.read_write
        &&& self.create_if_missing
        &&& self.serialized
        &&& self.busy_timeout_secs == BUSY_TIMEOUT_SECS
        &&& self.journal == Journal::WriteAhead
    }

    /// The settings every store is opened with: read-write, created when
    /// absent, write-ahead journaling and a bounded wait on a held lock.
    pub fn standard(location: String) -> (settings: StoreSettings)
        ensures
            settings.is_standard_for(location@),
    {
        StoreSettings {
            location,
            read_write: true,
            create_if_missing: true,
            serialized: true,
            busy_timeout_secs: BUSY_TIMEOUT_SECS,
            journal: Journal::WriteAhead,
        }
    }
}

/// What became of one record handed to the store.
#[derive(Clone, Copy, Debug, PartialEq, Eq, Structural)]
pub enum InsertOutcome {
    /// The record was new and is now stored.
    Stored,
    /// The record was already there; nothing changed.
    Duplicate,
    /// The store reported an error; the record may be missing.
    Failed,
}

/// The outcome that an answer of the store stands for. `changed` is the
/// number of rows that the insertion changed, or `None` when the store
/// reported an error.
pub open spec fn outcome_of(changed: Option<usize>) -> InsertOutcome {
    match changed {
        Some(n) => if n == 0 {
            InsertOutcome::Duplicate
        } else {
            InsertOutcome::Stored
        },
        None => InsertOutcome::Failed,
    }
}

/// Reads the answer of the store to one insertion.
pub fn classify_insert(changed: Option<usize>) -> (outcome: InsertOutcome)
    ensures
        outcome == outcome_of(changed),
{
    match changed {
        Some(n) => if n == 0 {
            InsertOutcome::Duplicate
        } else {
            InsertOutcome::Stored
        },
        None => InsertOutcome::Failed,
    }
}

/// How many of `outcomes` are `kind`.
pub open spec fn count_of(outcomes: Seq<InsertOutcome>, kind: InsertOutcome) -> nat {
    outcomes.filter(|outcome: InsertOutcome| outcome == kind).len()
}

/// What a flush did, by outcome. A failure is counted, never raised.
#[derive(Clone, Copy, Debug, PartialEq, Eq, Structural)]
pub struct FlushReport {
    pub stored: usize,
    pub duplicates: usize,
    pub failed: usize,
}

impl FlushReport {
    /// Counts the outcomes of one flush.
    pub fn tally(outcomes: &[InsertOutcome]) -> (report: FlushReport)
        ensures
            report.stored == count_of(outcomes@, InsertOutcome::Stored),
            report.duplicates == count_of(outcomes@, InsertOutcome::Duplicate),
            report.failed == count_of(outcomes@, InsertOutcome::Failed),
            report.stored + report.duplicates + report.failed == outcomes@.len(),
    {
        let mut report = FlushReport { stored: 0, duplicates: 0, failed: 0 };
        let mut i: usize = 0;
        while i < outcomes.len()
            invariant
                i <= outcomes@.len(),
                report.stored == count_of(outcomes@.take(i as int), InsertOutcome::Stored),
                report.duplicates == count_of(outcomes@.take(i as int), InsertOutcome::Duplicate),
                report.failed == count_of(outcomes@.take(i as int), InsertOutcome::Failed),
                report.stored + report.duplicates + report.failed == i,
            decreases outcomes@.len() - i,
        {
            proof {
                lemma_count_of_next(outcomes@, i as int, InsertOutcome::Stored);
                lemma_count_of_next(outcomes@, i as int, InsertOutcome::Duplicate);
                lemma_count_of_next(outcomes@, i as int, InsertOutcome::Failed);
            }
            match outcomes[i] {
                InsertOutcome::Stored => {
                    report.stored = report.stored + 1;
                },
                InsertOutcome::Duplicate => {
                    report.duplicates = report.duplicates + 1;
                },
                InsertOutcome::Failed => {
                    report.failed = report.failed + 1;
                },
            }
            i += 1;
        }
        assert(outcomes@.take(i as int) =~= outcomes@);
        report
    }
}

/// Counting one more outcome adds one to the count of its kind and leaves
/// the other counts as they are.
pub proof fn lemma_count_of_next(outcomes: Seq<InsertOutcome>, i: int, kind: InsertOutcome)
    requires
        0 <= i < outcomes.len(),
    ensures
        count_of(outcomes.take(i + 1), kind) == count_of(outcomes.take(i), kind) + (if outcomes[i]
            == kind {
            1nat
        } else {
            0nat
        }),
{
    let pred = |outcome: InsertOutcome| outcome == kind;
    assert(outcomes.take(i + 1) =~= outcomes.take(i).push(outcomes[i]));
    assert(outcomes.take(i + 1).drop_last() =~= outcomes.take(i));
    reveal(Seq::filter);
    if i == 0 {
        assert(outcomes.take(0).filter(pred) =~= Seq::<InsertOutcome>::empty());
    }
}

/// The mathematical value of a flush in progress: the records to store, in
/// order, and what became of those that the store has answered.
pub struct FlushState {
    pub records: Seq<Record>,
    pub outcomes: Seq<InsertOutcome>,
}

impl FlushState {
    /// Whether every record was handed to the store.
    pub open spec fn done(self) -> bool {
        self.outcomes.len() >= self.records.len()
    }

    /// The record to hand to the store next.
    pub open spec fn pending(self) -> Option<Record> {
        if self.done() {
            None
        } else {
            Some(self.records[self.outcomes.len() as int])
        }
    }

    /// The flush after the store answered for the pending record. Whatever
    /// the answer, the flush moves on to the next record.
    pub open spec fn after_answer(self, changed: Option<usize>) -> FlushState {
        if self.done() {
            self
        } else {
            FlushState { outcomes: self.outcomes.push(outcome_of(changed)), ..self }
        }
    }

    /// The flush after a sequence of answers.
    pub open spec fn after_answers(self, answers: Seq<Option<usize>>) -> FlushState
        decreases answers.len(),
    {
        if answers.len() == 0 {
            self
        } else {
            self.after_answers(answers.drop_last()).after_answer(answers.last())
        }
    }
}

/// The flush of one trace, record by record. The host hands the pending
/// record to the store and gives the answer back, until nothing is pending.
/// An insertion that fails is counted and the flush goes on: writing the
/// trace is best effort and never fails a test.
pub struct Flush {
    records: Vec<TraceRecord>,
    outcomes: Vec<InsertOutcome>,
}

impl View for Flush {
    type V = FlushState;

    closed spec fn view(&self) -> FlushState {
        FlushState { records: records_of(self.records@), outcomes: self.outcomes@ }
    }
}

impl Flush {
    /// The flush of `trace`: one record for each buffered location, in the
    /// order of discovery and with repetitions, none of them stored yet.
    pub fn new(trace: &TestTrace) -> (flush: Flush)
        ensures
            flush@ == (FlushState { records: trace@.records(), outcomes: Seq::empty() }),
    {
        Flush { records: trace.records(), outcomes: Vec::new() }
    }

    /// The record to hand to the store next, or `None` when the flush is
    /// done.
    pub fn pending(&self) -> (record: Option<&TraceRecord>)
        ensures
            match self@.pending() {
                Some(value) => record is Some && record->0@ == value,
                None => record is None,
            },
    {
        if self.outcomes.len() < self.records.len() {
            Some(&self.records[self.outcomes.len()])
        } else {
            None
        }
    }

    /// Takes the answer of the store for the pending record: the number of
    /// rows that the insertion changed, or `None` when the store reported an
    /// error. Does nothing when the flush is done.
    pub fn answer(&mut self, changed: Option<usize>)
        ensures
            final(self)@ == old(self)@.after_answer(changed),
    {
        if self.outcomes.len() < self.records.len() {
            self.outcomes.push(classify_insert(changed));
        }
    }

    /// What the flush did so far, by outcome.
    pub fn report(&self) -> (report: FlushReport)
        ensures
            report.stored == count_of(self@.outcomes, InsertOutcome::Stored),
            report.duplicates == count_of(self@.outcomes, InsertOutcome::Duplicate),
            report.failed == count_of(self@.outcomes, InsertOutcome::Failed),
            report.stored + report.duplicates + report.failed == self@.outcomes.len(),
    {
        FlushReport::tally(self.outcomes.as_slice())
    }
}

/// Every record of a flush is handed to the store, once and in order,
/// whatever the store answers: after as many answers as there are records
/// the flush is done, the record that was pending at each answer is the
/// next in order, and each answer is counted as what it was.
pub proof fn lemma_flush_tries_every_record(records: Seq<Record>, answers: Seq<Option<usize>>)
    requires
        answers.len() <= records.len(),
    ensures
        ({
            let start = FlushState { records, outcomes: Seq::empty() };
            let end = start.after_answers(answers);
            &&& end.records == records
            &&& end.outcomes == answers.map_values(|changed: Option<usize>| outcome_of(changed))
            &&& end.done() <==> answers.len() == records.len()
            &&& forall|i: int|
                0 <= i < answers.len() ==> (#[trigger] start.after_answers(
                    answers.take(i),
                )).pending() == Some(records[i])
        }),
    decreases answers.len(),
{
    let start = FlushState { records, outcomes: Seq::empty() };
    let end = start.after_answers(answers);
    let read = |changed: Option<usize>| outcome_of(changed);
    if answers.len() == 0 {
        assert(end.outcomes =~= answers.map_values(read));
    } else {
        let earlier = answers.drop_last();
        lemma_flush_tries_every_record(records, earlier);
        let before = start.after_answers(earlier);
        assert(before.outcomes.len() == earlier.len());
        assert(end.outcomes =~= answers.map_values(read));
        assert forall|i: int| 0 <= i < answers.len() implies (#[trigger] start.after_answers(
            answers.take(i),
        )).pending() == Some(records[i]) by {
            if i < earlier.len() {
                assert(answers.take(i) =~= earlier.take(i));
            } else {
                assert(answers.take(i) =~= earlier);
            }
        }
    }
}

} // verus!
