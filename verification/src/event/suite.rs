//! Suite-level events: a whole test run starting or finishing.

use vstd::prelude::*;

use crate::duration::Duration;

verus! {

/// One record about the suite as a whole.
///
/// `Passed` and `Failed` both carry the run's counters; which of the two it
/// is tells the run's outcome.  All fields are plain numbers, so a value can
/// be used in specifications as it stands.
#[derive(Clone, Copy, Debug, PartialEq, Eq, Structural)]
pub enum Event {
    Started { test_count: u64 },
    Passed {
        passed: u64,
        failed: u64,
        allowed_fail: u64,
        ignored: u64,
        filtered_out: u64,
        exec_time: Duration,
    },
    Failed {
        passed: u64,
        failed: u64,
        allowed_fail: u64,
        ignored: u64,
        filtered_out: u64,
        exec_time: Duration,
    },
}

impl Event {
    /// Every duration carried by the event is well-formed.
    pub open spec fn wf(self) -> bool {
        match self {
            Event::Started { .. } => true,
            Event::Passed { exec_time, .. } => exec_time.wf(),
            Event::Failed { exec_time, .. } => exec_time.wf(),
        }
    }
}

} // verus!
