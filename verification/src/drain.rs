//! The background drain of the backend's standard error.
//!
//! Once the handshake is over the host reads standard error line by line for
//! as long as the pipe stays open, so that the backend never stalls on a full
//! pipe and its diagnostics reach the operator. The drain runs apart from
//! startup and has no way to fail it: whatever a read brings, the answer is to
//! go on or to stop.

use vstd::prelude::*;

verus! {

/// What one blocking read of a line from the pipe brought.
#[derive(Clone, Copy, Debug, PartialEq, Eq, Structural)]
pub enum ReadOutcome {
    /// A line of text.
    Line,
    /// The end of the stream: the backend exited or closed the pipe.
    Closed,
    /// The read failed.
    Failed,
}

/// What the drain does after a read.
#[derive(Clone, Copy, Debug, PartialEq, Eq, Structural)]
pub enum DrainStep {
    /// Write the line to the host's error output and read again.
    Emit,
    /// Stop reading.
    Finish,
    /// Log the failure and stop reading.
    ReportAndFinish,
}

impl DrainStep {
    /// Whether the drain reads again after this step.
    pub open spec fn continues(self) -> bool {
        self is Emit
    }
}

/// Decides what the drain does after `read`: a line is emitted and reading
/// goes on, the end of the stream stops the drain, and a failure is logged
/// and stops it.
pub fn after_read(read: ReadOutcome) -> (step: DrainStep)
    ensures
        step == match read {
            ReadOutcome::Line => DrainStep::Emit,
            ReadOutcome::Closed => DrainStep::Finish,
            ReadOutcome::Failed => DrainStep::ReportAndFinish,
        },
        step.continues() <==> read is Line,
{
    match read {
        ReadOutcome::Line => DrainStep::Emit,
        ReadOutcome::Closed => DrainStep::Finish,
        ReadOutcome::Failed => DrainStep::ReportAndFinish,
    }
}

} // verus!
