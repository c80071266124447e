//! Source locations and the persisted facts built from them.

use vstd::prelude::*;

verus! {

/// The mathematical value of a source location: a file path and a line.
pub struct Location {
    pub file: Seq<char>,
    pub line: nat,
}

/// One executed line: the absolute path of a source file and a line number
/// in it. Never changed once observed.
#[derive(Clone, Debug, PartialEq, Eq)]
pub struct SourceLocation {
    pub file: String,
    pub line: usize,
}

impl View for SourceLocation {
    type V = Location;

    open spec fn view(&self) -> Location {
        Location { file: self.file@, line: self.line as nat }
    }
}

impl SourceLocation {
    /// The location of line `line` of the file at `file`.
    pub fn new(file: String, line: usize) -> (location: SourceLocation)
        ensures
            location@ == (Location { file: file@, line: line as nat }),
    {
        SourceLocation { file, line }
    }
}

/// The values of a sequence of locations, in the same order.
pub open spec fn locations_of(items: Seq<SourceLocation>) -> Seq<Location> {
    items.map_values(|item: SourceLocation| item@)
}

/// The mathematical value of a persisted fact.
pub struct Record {
    pub test_id: Seq<char>,
    pub file: Seq<char>,
    pub line: nat,
}

/// The fact that test `test_id` executed the line at `location`.
pub open spec fn record_of(test_id: Seq<char>, location: Location) -> Record {
    Record { test_id, file: location.file, line: location.line }
}

/// A persisted fact: the named test executed this line of this file at
/// least once.
#[derive(Clone, Debug, PartialEq, Eq)]
pub struct TraceRecord {
    pub test_id: String,
    pub file: String,
    pub line: usize,
}

impl View for TraceRecord {
    type V = Record;

    open spec fn view(&self) -> Record {
        Record { test_id: self.test_id@, file: self.file@, line: self.line as nat }
    }
}

/// The values of a sequence of records, in the same order.
pub open spec fn records_of(items: Seq<TraceRecord>) -> Seq<Record> {
    items.map_values(|item: TraceRecord| item@)
}

} // verus!
