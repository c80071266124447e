use rusqlite::Connection;
use skippy_tracer::collector::{TestTrace, TraceEvent};
use skippy_tracer::location::SourceLocation;
use skippy_tracer::session::{Session, SetupOutcome};
use skippy_tracer::location::TraceRecord;
use skippy_tracer::store::{
    classify_insert, Flush, FlushReport, InsertOutcome, Journal, StoreSettings,
    BUSY_TIMEOUT_SECS, INSERT_SQL, SCHEMA_SQL,
};

fn open_store() -> Connection {
    let conn = Connection::open_in_memory().unwrap();
    conn.execute_batch(SCHEMA_SQL).unwrap();
    conn
}

fn flush(conn: &Connection, trace: &TestTrace) -> FlushReport {
    let mut flush = Flush::new(trace);
    while let Some(record) = flush.pending() {
        let changed = conn.execute(INSERT_SQL, (&record.test_id, &record.file, record.line));
        flush.answer(changed.ok());
    }
    flush.report()
}

fn rows(conn: &Connection) -> Vec<(String, String, i64)> {
    let mut statement =
        conn.prepare("SELECT nodeid, file, line FROM trace ORDER BY nodeid, file, line").unwrap();
    let found = statement.query_map((), |row| Ok((row.get(0)?, row.get(1)?, row.get(2)?))).unwrap();
    found.map(|row| row.unwrap()).collect()
}

fn trace(test_id: &str, locations: &[(&str, usize)]) -> TestTrace {
    TestTrace {
        test_id: test_id.to_string(),
        locations: locations
            .iter()
            .map(|(file, line)| SourceLocation::new(file.to_string(), *line))
            .collect(),
    }
}

fn row(test_id: &str, file: &str, line: i64) -> (String, String, i64) {
    (test_id.to_string(), file.to_string(), line)
}

#[test]
fn changed_row_means_stored() {
    assert_eq!(classify_insert(Some(1)), InsertOutcome::Stored);
    assert_eq!(classify_insert(Some(7)), InsertOutcome::Stored);
    assert_eq!(classify_insert(Some(usize::MAX)), InsertOutcome::Stored);
}

#[test]
fn no_changed_row_means_duplicate() {
    assert_eq!(classify_insert(Some(0)), InsertOutcome::Duplicate);
}

#[test]
fn error_means_failed() {
    assert_eq!(classify_insert(None), InsertOutcome::Failed);
}

#[test]
fn tally_of_nothing_is_zero() {
    assert_eq!(FlushReport::tally(&[]), FlushReport { stored: 0, duplicates: 0, failed: 0 });
}

#[test]
fn tally_counts_each_outcome() {
    let outcomes = [
        InsertOutcome::Stored,
        InsertOutcome::Duplicate,
        InsertOutcome::Stored,
        InsertOutcome::Failed,
        InsertOutcome::Stored,
        InsertOutcome::Duplicate,
    ];
    assert_eq!(
        FlushReport::tally(&outcomes),
        FlushReport { stored: 3, duplicates: 2, failed: 1 }
    );
}

#[test]
fn tally_of_one_kind_counts_only_that_kind() {
    let outcomes = [InsertOutcome::Failed, InsertOutcome::Failed];
    assert_eq!(
        FlushReport::tally(&outcomes),
        FlushReport { stored: 0, duplicates: 0, failed: 2 }
    );
}

#[test]
fn standard_settings_are_durable_and_patient() {
    let settings = StoreSettings::standard("/tmp/trace.db".to_string());
    assert_eq!(settings.location, "/tmp/trace.db");
    assert!(settings.read_write);
    assert!(settings.create_if_missing);
    assert!(settings.serialized);
    assert_eq!(settings.busy_timeout_secs, 5);
    assert_eq!(settings.busy_timeout_secs, BUSY_TIMEOUT_SECS);
    assert_eq!(settings.journal, Journal::WriteAhead);
}

#[test]
fn schema_can_be_applied_to_a_store_that_has_it() {
    let conn = open_store();
    flush(&conn, &trace("t", &[("/proj/a.py", 1)]));
    conn.execute_batch(SCHEMA_SQL).unwrap();
    assert_eq!(rows(&conn), vec![row("t", "/proj/a.py", 1)]);
}

#[test]
fn flush_stores_each_distinct_location_once() {
    let conn = open_store();
    let report = flush(&conn, &trace("t1", &[("f1", 10), ("f1", 10), ("f2", 3)]));
    assert_eq!(report, FlushReport { stored: 2, duplicates: 1, failed: 0 });
    assert_eq!(rows(&conn), vec![row("t1", "f1", 10), row("t1", "f2", 3)]);
}

#[test]
fn flushing_the_same_triple_twice_leaves_one_row() {
    let conn = open_store();
    let once = trace("t", &[("/proj/app.py", 5)]);
    assert_eq!(flush(&conn, &once), FlushReport { stored: 1, duplicates: 0, failed: 0 });
    assert_eq!(flush(&conn, &once), FlushReport { stored: 0, duplicates: 1, failed: 0 });
    assert_eq!(rows(&conn), vec![row("t", "/proj/app.py", 5)]);
}

#[test]
fn flushing_a_batch_again_changes_nothing() {
    let conn = open_store();
    let batch = trace("t", &[("a", 1), ("b", 2), ("a", 1), ("c", 3)]);
    flush(&conn, &batch);
    let before = rows(&conn);
    let report = flush(&conn, &batch);
    assert_eq!(report, FlushReport { stored: 0, duplicates: 4, failed: 0 });
    assert_eq!(rows(&conn), before);
    assert_eq!(before.len(), 3);
}

#[test]
fn the_same_line_under_two_tests_is_two_rows() {
    let conn = open_store();
    flush(&conn, &trace("a", &[("f", 1)]));
    flush(&conn, &trace("b", &[("f", 1)]));
    assert_eq!(rows(&conn), vec![row("a", "f", 1), row("b", "f", 1)]);
}

#[test]
fn flush_of_an_empty_trace_stores_nothing() {
    let conn = open_store();
    let report = flush(&conn, &trace("t", &[]));
    assert_eq!(report, FlushReport { stored: 0, duplicates: 0, failed: 0 });
    assert!(rows(&conn).is_empty());
}

#[test]
fn failed_insert_is_counted_and_the_rest_is_stored() {
    let conn = open_store();
    // A line beyond what the store can hold cannot be stored.
    let report = flush(&conn, &trace("t", &[("a", 1), ("a", usize::MAX), ("b", 2)]));
    assert_eq!(report, FlushReport { stored: 2, duplicates: 0, failed: 1 });
    assert_eq!(rows(&conn), vec![row("t", "a", 1), row("t", "b", 2)]);
}

#[test]
fn flush_into_a_store_without_schema_fails_quietly() {
    let conn = Connection::open_in_memory().unwrap();
    let report = flush(&conn, &trace("t", &[("a", 1), ("b", 2)]));
    assert_eq!(report, FlushReport { stored: 0, duplicates: 0, failed: 2 });
}

#[test]
fn only_the_project_line_is_persisted() {
    let conn = open_store();
    let mut session = Session::new();
    session.configure(Some(":memory:".to_string())).unwrap();
    session
        .complete_setup(SetupOutcome::Ready {
            project_root: "/proj".to_string(),
            excluded_root: "/proj/.venv".to_string(),
        })
        .unwrap();
    session.test_start("t");
    session.on_event(TraceEvent::Line, "/proj/app.py", 5);
    session.on_event(TraceEvent::Line, "/proj/.venv/lib/x.py", 1);
    session.on_event(TraceEvent::Line, "/other/y.py", 2);
    let end = session.test_end("t");
    let report = flush(&conn, &end.trace.unwrap());
    assert_eq!(report, FlushReport { stored: 1, duplicates: 0, failed: 0 });
    assert_eq!(rows(&conn), vec![row("t", "/proj/app.py", 5)]);
}

#[test]
fn failed_test_body_is_persisted_before_its_failure_is_reported() {
    let conn = open_store();
    let mut session = Session::new();
    session.configure(Some(":memory:".to_string())).unwrap();
    session
        .complete_setup(SetupOutcome::Ready {
            project_root: "/proj".to_string(),
            excluded_root: "/venv".to_string(),
        })
        .unwrap();
    session.test_start("t");
    session.on_event(TraceEvent::Line, "/proj/app.py", 5);
    let body: Result<(), String> = Err("assertion failed".to_string());
    let (end, outcome) = session.finish_run("t", body);
    flush(&conn, &end.trace.unwrap());
    assert_eq!(rows(&conn), vec![row("t", "/proj/app.py", 5)]);
    assert_eq!(outcome, Err("assertion failed".to_string()));
}

fn record(test_id: &str, file: &str, line: usize) -> TraceRecord {
    TraceRecord { test_id: test_id.to_string(), file: file.to_string(), line }
}

#[test]
fn flush_of_an_empty_trace_is_done_at_once() {
    let flush = Flush::new(&trace("t", &[]));
    assert!(flush.pending().is_none());
    assert_eq!(flush.report(), FlushReport { stored: 0, duplicates: 0, failed: 0 });
}

#[test]
fn flush_offers_each_record_once_and_in_order() {
    let mut flush = Flush::new(&trace("t1", &[("f1", 10), ("f1", 10), ("f2", 3)]));
    assert_eq!(flush.pending(), Some(&record("t1", "f1", 10)));
    // Asking again offers the same record: nothing moves without an answer.
    assert_eq!(flush.pending(), Some(&record("t1", "f1", 10)));
    flush.answer(Some(1));
    assert_eq!(flush.pending(), Some(&record("t1", "f1", 10)));
    flush.answer(Some(0));
    assert_eq!(flush.pending(), Some(&record("t1", "f2", 3)));
    flush.answer(Some(1));
    assert_eq!(flush.pending(), None);
    assert_eq!(flush.report(), FlushReport { stored: 2, duplicates: 1, failed: 0 });
}

#[test]
fn flush_goes_on_after_a_failure() {
    let mut flush = Flush::new(&trace("t", &[("a", 1), ("b", 2), ("c", 3)]));
    flush.answer(None);
    assert_eq!(flush.pending(), Some(&record("t", "b", 2)));
    flush.answer(None);
    assert_eq!(flush.pending(), Some(&record("t", "c", 3)));
    flush.answer(Some(1));
    assert!(flush.pending().is_none());
    assert_eq!(flush.report(), FlushReport { stored: 1, duplicates: 0, failed: 2 });
}

#[test]
fn flush_reports_what_was_answered_so_far() {
    let mut flush = Flush::new(&trace("t", &[("a", 1), ("b", 2)]));
    assert_eq!(flush.report(), FlushReport { stored: 0, duplicates: 0, failed: 0 });
    flush.answer(Some(0));
    assert_eq!(flush.report(), FlushReport { stored: 0, duplicates: 1, failed: 0 });
}

#[test]
fn answer_to_a_finished_flush_is_dropped() {
    let mut flush = Flush::new(&trace("t", &[("a", 1)]));
    flush.answer(Some(1));
    flush.answer(Some(1));
    flush.answer(None);
    assert!(flush.pending().is_none());
    assert_eq!(flush.report(), FlushReport { stored: 1, duplicates: 0, failed: 0 });
}
