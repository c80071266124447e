//! The per-test buffer of executed lines.
//!
//! A collector is armed for one test at a time. While it is armed, every
//! line event whose file the filter admits is appended to the buffer, in the
//! order of discovery and with repetitions. While it is idle it records
//! nothing.

use vstd::prelude::*;
use crate::filter::LocationFilter;
use crate::location::{
    locations_of, record_of, records_of, Location, Record, SourceLocation, TraceRecord,
};

verus! {

/// What the interpreter reports to its trace hook.
#[derive(Clone, Copy, Debug, PartialEq, Eq, Structural)]
pub enum TraceEvent {
    /// Control reached a new source line.
    Line,
    /// Anything else: a call, a return, an exception.
    Other,
}

/// The mathematical value of a test's trace: its identifier and the
/// locations it executed, in order of discovery.
pub struct Trace {
    pub test_id: Seq<char>,
    pub locations: Seq<Location>,
}

impl Trace {
    /// The facts this trace asserts, one for each buffered location, in order.
    pub open spec fn records(self) -> Seq<Record> {
        self.locations.map_values(|location: Location| record_of(self.test_id, location))
    }
}

/// The lines that one test has executed: what is flushed to the store when
/// the test ends.
#[derive(Debug)]
pub struct TestTrace {
    pub test_id: String,
    pub locations: Vec<SourceLocation>,
}

impl View for TestTrace {
    type V = Trace;

    open spec fn view(&self) -> Trace {
        Trace { test_id: self.test_id@, locations: locations_of(self.locations@) }
    }
}

impl TestTrace {
    /// The facts to persist for this trace: one record for each buffered
    /// location, in the order of discovery, repetitions kept.
    pub fn records(&self) -> (records: Vec<TraceRecord>)
        ensures
            records_of(records@) == self@.records(),
    {
        let mut records: Vec<TraceRecord> = Vec::new();
        let mut i: usize = 0;
        while i < self.locations.len()
            invariant
                i <= self.locations.len(),
                records.len() == i,
                forall|j: int|
                    0 <= j < i ==> (#[trigger] records@[j])@ == record_of(
                        self.test_id@,
                        self.locations@[j]@,
                    ),
            decreases self.locations.len() - i,
        {
            let location = &self.locations[i];
            records.push(
                TraceRecord {
                    test_id: self.test_id.clone(),
                    file: location.file.clone(),
                    line: location.line,
                },
            );
            i += 1;
        }
        assert(records_of(records@) =~= self@.records());
        records
    }
}

/// What would be recorded: the collector is armed, the event is a line
/// event, and the filter admits the file.
pub open spec fn accepts(
    state: Option<Trace>,
    filter: &LocationFilter,
    event: TraceEvent,
    file: Seq<char>,
) -> bool {
    state is Some && event == TraceEvent::Line && filter.admits(file)
}

/// The state with one more location in the buffer of the running test; the
/// idle state stays idle.
pub open spec fn appended(state: Option<Trace>, file: Seq<char>, line: nat) -> Option<Trace> {
    match state {
        Some(trace) => Some(
            Trace { test_id: trace.test_id, locations: trace.locations.push(Location { file, line }) },
        ),
        None => None,
    }
}

/// The state after one event: an accepted location is appended, anything
/// else leaves the state as it was.
pub open spec fn after_event(
    state: Option<Trace>,
    filter: &LocationFilter,
    event: TraceEvent,
    file: Seq<char>,
    line: nat,
) -> Option<Trace> {
    if accepts(state, filter, event, file) {
        appended(state, file, line)
    } else {
        state
    }
}

/// The buffer of the test that is running now, if one is.
pub struct Collector {
    active: Option<TestTrace>,
}

impl View for Collector {
    type V = Option<Trace>;

    closed spec fn view(&self) -> Option<Trace> {
        match self.active {
            Some(trace) => Some(trace@),
            None => None,
        }
    }
}

impl Collector {
    /// An idle collector.
    pub fn new() -> (collector: Collector)
        ensures
            collector@ is None,
    {
        Collector { active: None }
    }

    /// Starts a fresh, empty buffer for `test_id`. Whatever an earlier test
    /// had buffered is dropped.
    pub fn arm(&mut self, test_id: &str)
        ensures
            final(self)@ == Some(Trace { test_id: test_id@, locations: Seq::empty() }),
    {
        self.active = Some(TestTrace { test_id: test_id.to_owned(), locations: Vec::new() });
        assert(locations_of(Seq::<SourceLocation>::empty()) =~= Seq::<Location>::empty());
    }

    /// Whether an event would be recorded: a test is running, the event is a
    /// line event, and the filter admits the file. Nothing is allocated.
    pub fn wants(&self, filter: &LocationFilter, event: TraceEvent, file: &str) -> (wanted: bool)
        ensures
            wanted == accepts(self@, filter, event, file@),
    {
        match event {
            TraceEvent::Line => {},
            TraceEvent::Other => {
                return false;
            },
        }
        self.active.is_some() && filter.includes(file)
    }

    /// Appends a location to the buffer of the running test, whatever it is.
    /// Does nothing when no test is running.
    pub(crate) fn append(&mut self, file: &str, line: usize)
        ensures
            final(self)@ == appended(old(self)@, file@, line as nat),
    {
        match &mut self.active {
            None => {},
            Some(trace) => {
                let ghost before = trace.locations@;
                trace.locations.push(SourceLocation::new(file.to_owned(), line));
                assert(locations_of(trace.locations@) =~= locations_of(before).push(
                    Location { file: file@, line: line as nat },
                ));
            },
        }
    }

    /// Handles one event of the interpreter's trace hook. Returns whether the
    /// location was recorded. Nothing is allocated for an event that is not.
    pub fn on_event(
        &mut self,
        filter: &LocationFilter,
        event: TraceEvent,
        file: &str,
        line: usize,
    ) -> (recorded: bool)
        ensures
            recorded == accepts(old(self)@, filter, event, file@),
            final(self)@ == after_event(old(self)@, filter, event, file@, line as nat),
    {
        if !self.wants(filter, event, file) {
            return false;
        }
        self.append(file, line);
        true
    }

    /// Whether a test is running.
    pub fn is_armed(&self) -> (armed: bool)
        ensures
            armed == (self@ is Some),
    {
        self.active.is_some()
    }

    /// Ends the running test: hands out its trace and leaves the collector
    /// idle. Returns `None` when no test was running.
    pub fn disarm(&mut self) -> (trace: Option<TestTrace>)
        ensures
            final(self)@ is None,
            match old(self)@ {
                Some(value) => trace is Some && trace->0@ == value,
                None => trace is None,
            },
    {
        self.active.take()
    }
}

} // verus!
