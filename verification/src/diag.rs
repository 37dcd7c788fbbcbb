//! Diagnostic events surfaced to the external log sink. The sink is for
//! observability only and never influences control flow; ordering and
//! delivery are best effort.

use vstd::prelude::*;

verus! {

/// An event worth reporting to the diagnostic sink.
#[derive(Clone, Copy, Debug, PartialEq, Eq, Structural)]
pub enum DiagnosticEvent {
    /// The slave engine lost frame alignment.
    FrameError,
    /// A received half-word was dropped because it was not read in time.
    Overrun,
    /// The transmit side was not refilled in time.
    Underrun,
    /// The slave engine was re-enabled on a rising frame-select edge.
    Resynced,
    /// Throughput report: this many stereo frames were received since the
    /// previous report.
    FramesReceived(u32),
    /// Bring-up finished; both engines are enabled.
    InitDone,
}

impl DiagnosticEvent {
    /// The fixed label the log sink recognizes for this event. For
    /// `FramesReceived` the count is carried separately by the variant's
    /// field; the label holds only the trailing words.
    pub fn label(&self) -> (s: &'static str)
        ensures
            self is FrameError ==> s@ == "Frame Error"@,
            self is Overrun ==> s@ == "Overrun"@,
            self is Underrun ==> s@ == "underrun"@,
            self is Resynced ==> s@ == "Resynced"@,
            self is FramesReceived ==> s@ == "frame received"@,
            self is InitDone ==> s@ == "init done"@,
    {
        match self {
            DiagnosticEvent::FrameError => "Frame Error",
            DiagnosticEvent::Overrun => "Overrun",
            DiagnosticEvent::Underrun => "underrun",
            DiagnosticEvent::Resynced => "Resynced",
            DiagnosticEvent::FramesReceived(_) => "frame received",
            DiagnosticEvent::InitDone => "init done",
        }
    }
}

} // verus!
