//! Per-test line tracing: which source lines of a project each test executes.
//!
//! While a test runs, the interpreter reports every line it reaches. The
//! lines that belong to the project are buffered, and when the test ends they
//! are handed out to be stored as facts of the form "this test executed this
//! line of this file". A later tool can tell from them which tests a change
//! touches.
//!
//! The library decides and the host acts. Nothing in here reads a file,
//! touches the interpreter or writes to the store: each call returns what the
//! host has to do next.
//!
//! - [`filter`]: which files belong to the project.
//! - [`collector`]: the buffer of the test that is running.
//! - [`session`]: the life cycle, from configuration to the end of each test.
//! - [`store`]: how the store is opened, what it is asked to hold, and how its
//!   answers are counted.
//! - [`table`]: the table of the store as a set, and what holds of a flush.
//! - [`location`]: source locations and the records built from them.
//! - [`lifecycle`]: what holds of every run of a session.

pub mod collector;
pub mod filter;
pub mod lifecycle;
pub mod location;
pub mod session;
pub mod store;
pub mod table;
