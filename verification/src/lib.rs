//! Turns a stream of JSON test-runner events into a Markdown test report.
//!
//! One line of input is one event: a suite starting or finishing, or a single
//! test starting or finishing.  [`event::decode`] reads a line; a
//! [`processor::Processor`] ingests the decoded records one at a time and, once
//! the stream is exhausted, renders the report: a summary table, an index of
//! the tests, and a detail section per test.

pub mod duration;
pub mod event;
pub mod git;
pub mod processor;
pub mod text;
