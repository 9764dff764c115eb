//! Test-level events: one test case starting or finishing.

use vstd::prelude::*;

use crate::duration::Duration;

verus! {

/// One record about a single test case.
///
/// A failed test may carry the output it captured; when the input omits it,
/// it decodes as the empty string.
#[derive(Clone, Debug)]
pub enum Event {
    Started { name: String },
    Passed { name: String, exec_time: Duration },
    Failed { name: String, exec_time: Duration, stdout: String },
}

/// The mathematical shape of an [`Event`]: the same variants with the
/// strings replaced by their character sequences.
pub enum EventView {
    Started { name: Seq<char> },
    Passed { name: Seq<char>, exec_time: Duration },
    Failed { name: Seq<char>, exec_time: Duration, stdout: Seq<char> },
}

impl View for Event {
    type V = EventView;

    open spec fn view(&self) -> EventView {
        match self {
            Event::Started { name } => EventView::Started { name: name@ },
            Event::Passed { name, exec_time } => EventView::Passed {
                name: name@,
                exec_time: *exec_time,
            },
            Event::Failed { name, exec_time, stdout } => EventView::Failed {
                name: name@,
                exec_time: *exec_time,
                stdout: stdout@,
            },
        }
    }
}

impl EventView {
    /// Every duration carried by the event is well-formed.
    pub open spec fn wf(self) -> bool {
        match self {
            EventView::Started { .. } => true,
            EventView::Passed { exec_time, .. } => exec_time.wf(),
            EventView::Failed { exec_time, .. } => exec_time.wf(),
        }
    }
}

} // verus!
