//! Fault detection and resynchronization: the interrupt-driven state
//! machine that keeps the slave engine phase-locked to the master's
//! frame-select line.
//!
//! The monitor owns [`SyncState`] exclusively: it is the only place the
//! state is written, and diagnostics may only read it. Each handler
//! decides on a list of [`Action`]s; the hardware shell performs them on
//! the registers in the given order and hands the next observed event
//! back. Within one slave-side invocation, flags are resolved in a fixed
//! priority order — frame error, then overrun, then underrun, then data
//! ready — so an overlap of conditions always resolves toward the most
//! severe fault first.

use vstd::prelude::*;

use crate::diag::DiagnosticEvent;

verus! {

/// Alignment of the slave engine with respect to the master's frame clock.
#[derive(Clone, Copy, Debug, PartialEq, Eq, Structural)]
pub enum SyncState {
    /// Initial: the slave engine has not been enabled yet.
    Unsynced,
    /// The slave engine is enabled and receiving without error.
    Locked,
    /// A frame fault was observed; the slave engine is disabled.
    FaultPending,
    /// The edge watch is armed; the slave engine restarts on the next
    /// rising frame-select edge.
    AwaitingEdge,
}

/// One operation the hardware shell must perform, in list order.
#[derive(Clone, Copy, Debug, PartialEq, Eq, Structural)]
pub enum Action {
    /// Stop the slave engine so it consumes no further frame pulses in a
    /// misaligned position.
    DisableSlave,
    /// Start the slave engine; it restarts aligned to the current frame.
    EnableSlave,
    /// Start the master engine; the first frame edge follows.
    EnableMaster,
    /// Unmask the rising-edge interrupt on the frame-select line.
    ArmEdgeWatch,
    /// Mask the frame-select edge interrupt so the next natural frame edge
    /// does not re-trigger it.
    DisarmEdgeWatch,
    /// Clear the pending flag of the edge interrupt.
    ClearEdgePending,
    /// Read the slave's data register (consumes the received half-word;
    /// first half of the documented overrun clear sequence).
    ReadDataRegister,
    /// Read the slave's status register (second half of the overrun clear
    /// sequence; alone, the underrun clear sequence).
    ReadStatusRegister,
    /// Hand an event to the diagnostic sink.
    Report(DiagnosticEvent),
}

/// Status flags of the slave engine, as read from its status register.
#[derive(Clone, Copy, Debug, PartialEq, Eq, Structural)]
pub struct SlaveStatus {
    /// Frame alignment was lost.
    pub frame_error: bool,
    /// A received half-word was overwritten before it was read.
    pub overrun: bool,
    /// No data was ready when the engine needed it.
    pub underrun: bool,
    /// A received half-word is ready to be read.
    pub data_ready: bool,
}

/// Status flags of the master engine. The master is the timing source and
/// never needs resynchronization; its faults are report-only.
#[derive(Clone, Copy, Debug, PartialEq, Eq, Structural)]
pub struct MasterStatus {
    /// Frame alignment fault.
    pub frame_error: bool,
    /// Receive overrun.
    pub overrun: bool,
    /// Transmit underrun.
    pub underrun: bool,
}

/// The one condition a slave-side invocation handles, picked from the
/// status flags in fixed priority order.
#[derive(Clone, Copy, Debug, PartialEq, Eq, Structural)]
pub enum SlaveEvent {
    /// Frame alignment was lost.
    FrameError,
    /// A received half-word was dropped.
    Overrun,
    /// The engine ran dry.
    Underrun,
    /// A received half-word is ready.
    DataReady,
}

/// Count of received half-words after which a throughput report is due.
pub const REPORT_THRESHOLD: u32 = 16000;

/// Stereo frames per report: two received half-words make one frame.
pub const FRAMES_PER_REPORT: u32 = 8000;

/// Priority resolution of the slave status flags: frame error, then
/// overrun, then underrun, then data ready; `None` when nothing is set.
pub open spec fn classify_slave_spec(st: SlaveStatus) -> Option<SlaveEvent> {
    if st.frame_error {
        Some(SlaveEvent::FrameError)
    } else if st.overrun {
        Some(SlaveEvent::Overrun)
    } else if st.underrun {
        Some(SlaveEvent::Underrun)
    } else if st.data_ready {
        Some(SlaveEvent::DataReady)
    } else {
        None
    }
}

/// First half of frame-error handling: a fault observed while locked
/// leaves the locked state.
pub open spec fn fault_step(s: SyncState) -> SyncState {
    if s is Locked {
        SyncState::FaultPending
    } else {
        s
    }
}

/// Second half of frame-error handling: with the fault pending, the edge
/// watch is armed.
pub open spec fn arm_step(s: SyncState) -> SyncState {
    if s is FaultPending {
        SyncState::AwaitingEdge
    } else {
        s
    }
}

/// Effect of an observed frame-select edge: only a rising edge, and only
/// while awaiting one, locks the slave back in.
pub open spec fn edge_step(s: SyncState, ws_high: bool) -> SyncState {
    if s is AwaitingEdge && ws_high {
        SyncState::Locked
    } else {
        s
    }
}

/// Effect of the self-polling recovery variant: with the fault pending,
/// a frame-select line already high re-enables the slave at once;
/// otherwise the edge watch is armed.
pub open spec fn line_resync_step(s: SyncState, ws_high: bool) -> SyncState {
    if s is FaultPending {
        if ws_high {
            SyncState::Locked
        } else {
            SyncState::AwaitingEdge
        }
    } else {
        s
    }
}

/// State after one slave-side event: a frame error runs both halves of the
/// fault transition; overrun, underrun and data ready are recovered in
/// place and never move the state.
pub open spec fn slave_event_step(s: SyncState, ev: SlaveEvent) -> SyncState {
    match ev {
        SlaveEvent::FrameError => arm_step(fault_step(s)),
        SlaveEvent::Overrun => s,
        SlaveEvent::Underrun => s,
        SlaveEvent::DataReady => s,
    }
}

/// Received-half-word counter after one more half-word: resets to zero
/// exactly upon reaching the report threshold.
pub open spec fn counter_step(c: u32) -> u32 {
    if c + 1 == REPORT_THRESHOLD {
        0u32
    } else {
        (c + 1) as u32
    }
}

/// Actions of the frame-error path from state `s`: the fault is reported;
/// leaving `Locked` disables the slave; entering the pending state arms
/// the edge watch.
pub open spec fn frame_error_actions(s: SyncState) -> Seq<Action> {
    let reported = seq![Action::Report(DiagnosticEvent::FrameError)];
    let disabled = if s is Locked {
        reported.push(Action::DisableSlave)
    } else {
        reported
    };
    if fault_step(s) is FaultPending {
        disabled.push(Action::ArmEdgeWatch)
    } else {
        disabled
    }
}

/// Actions of the data-ready path with `c` half-words already counted:
/// the half-word is consumed, and on reaching the threshold a throughput
/// report is emitted.
pub open spec fn data_ready_actions(c: u32) -> Seq<Action> {
    if c + 1 == REPORT_THRESHOLD {
        seq![
            Action::ReadDataRegister,
            Action::Report(DiagnosticEvent::FramesReceived(FRAMES_PER_REPORT)),
        ]
    } else {
        seq![Action::ReadDataRegister]
    }
}

/// Actions of one slave-side invocation on state `s` with counter `c`.
pub open spec fn slave_actions(s: SyncState, c: u32, st: SlaveStatus) -> Seq<Action> {
    match classify_slave_spec(st) {
        Some(SlaveEvent::FrameError) => frame_error_actions(s),
        Some(SlaveEvent::Overrun) => seq![
            Action::Report(DiagnosticEvent::Overrun),
            Action::ReadDataRegister,
            Action::ReadStatusRegister,
        ],
        Some(SlaveEvent::Underrun) => seq![
            Action::Report(DiagnosticEvent::Underrun),
            Action::ReadStatusRegister,
        ],
        Some(SlaveEvent::DataReady) => data_ready_actions(c),
        None => Seq::empty(),
    }
}

/// Actions of one edge-watch invocation: the pending event flag is always
/// cleared; a rising edge seen while awaiting one masks the watch,
/// re-enables the slave and reports the resynchronization.
pub open spec fn edge_actions(s: SyncState, ws_high: bool) -> Seq<Action> {
    if s is AwaitingEdge && ws_high {
        seq![
            Action::ClearEdgePending,
            Action::DisarmEdgeWatch,
            Action::EnableSlave,
            Action::Report(DiagnosticEvent::Resynced),
        ]
    } else {
        seq![Action::ClearEdgePending]
    }
}

/// Master-side reports for one invocation: each set flag is reported, in
/// the fixed order frame error, overrun, underrun. No state is touched.
pub open spec fn master_reports(st: MasterStatus) -> Seq<DiagnosticEvent> {
    let fe = if st.frame_error {
        seq![DiagnosticEvent::FrameError]
    } else {
        Seq::<DiagnosticEvent>::empty()
    };
    let ov = if st.overrun {
        fe.push(DiagnosticEvent::Overrun)
    } else {
        fe
    };
    if st.underrun {
        ov.push(DiagnosticEvent::Underrun)
    } else {
        ov
    }
}

/// Pick the one condition to handle from the slave status flags, in the
/// fixed priority order.
pub fn classify_slave(st: SlaveStatus) -> (ev: Option<SlaveEvent>)
    ensures
        ev == classify_slave_spec(st),
{
    if st.frame_error {
        Some(SlaveEvent::FrameError)
    } else if st.overrun {
        Some(SlaveEvent::Overrun)
    } else if st.underrun {
        Some(SlaveEvent::Underrun)
    } else if st.data_ready {
        Some(SlaveEvent::DataReady)
    } else {
        None
    }
}

/// Report each master-side fault flag, in the fixed order. The master is
/// the timing source; nothing is recovered or resynchronized.
pub fn poll_master_faults(st: MasterStatus) -> (evs: Vec<DiagnosticEvent>)
    ensures
        evs@ == master_reports(st),
{
    let mut evs: Vec<DiagnosticEvent> = Vec::new();
    if st.frame_error {
        evs.push(DiagnosticEvent::FrameError);
    }
    if st.overrun {
        evs.push(DiagnosticEvent::Overrun);
    }
    if st.underrun {
        evs.push(DiagnosticEvent::Underrun);
    }
    assert(evs@ =~= master_reports(st));
    evs
}

/// The resynchronization engine: owns the sync state and the received
/// frame counter, both mutated only through its handlers.
pub struct FaultMonitor {
    /// Alignment of the slave engine. Written only here; diagnostics and
    /// the shell may read it.
    pub state: SyncState,
    /// Received half-words since the last throughput report.
    pub frames: u32,
}

impl FaultMonitor {
    /// The counter never reaches the report threshold between handler
    /// invocations: it resets exactly when the threshold is hit.
    pub open spec fn wf(self) -> bool {
        self.frames < REPORT_THRESHOLD
    }

    /// A fresh monitor: unsynchronized, nothing counted.
    pub fn new() -> (m: FaultMonitor)
        ensures
            m.state is Unsynced,
            m.frames == 0,
            m.wf(),
    {
        FaultMonitor { state: SyncState::Unsynced, frames: 0 }
    }

    /// Note that the slave engine was enabled during bring-up: the link is
    /// locked from the first frame edge on.
    pub fn on_slave_started(&mut self)
        requires
            old(self).state is Unsynced,
        ensures
            final(self).state is Locked,
            final(self).frames == old(self).frames,
    {
        self.state = SyncState::Locked;
    }

    /// First half of frame-error handling: report the fault and, when it
    /// hits the locked state, disable the slave engine at once so it stops
    /// consuming frame pulses in a misaligned position.
    pub fn note_frame_error(&mut self) -> (acts: Vec<Action>)
        ensures
            final(self).state == fault_step(old(self).state),
            final(self).frames == old(self).frames,
            acts@ == if old(self).state is Locked {
                seq![Action::Report(DiagnosticEvent::FrameError), Action::DisableSlave]
            } else {
                seq![Action::Report(DiagnosticEvent::FrameError)]
            },
    {
        let mut acts: Vec<Action> = Vec::new();
        acts.push(Action::Report(DiagnosticEvent::FrameError));
        if matches!(self.state, SyncState::Locked) {
            self.state = SyncState::FaultPending;
            acts.push(Action::DisableSlave);
        }
        proof {
            if old(self).state is Locked {
                assert(acts@ =~= seq![
                    Action::Report(DiagnosticEvent::FrameError),
                    Action::DisableSlave,
                ]);
            } else {
                assert(acts@ =~= seq![Action::Report(DiagnosticEvent::FrameError)]);
            }
        }
        acts
    }

    /// Second half of frame-error handling, the primary recovery path:
    /// with the fault pending, unmask the frame-select edge interrupt and
    /// wait for the next rising edge.
    pub fn arm_edge_watch(&mut self) -> (acts: Vec<Action>)
        ensures
            final(self).state == arm_step(old(self).state),
            final(self).frames == old(self).frames,
            acts@ == if old(self).state is FaultPending {
                seq![Action::ArmEdgeWatch]
            } else {
                Seq::<Action>::empty()
            },
    {
        let mut acts: Vec<Action> = Vec::new();
        if matches!(self.state, SyncState::FaultPending) {
            self.state = SyncState::AwaitingEdge;
            acts.push(Action::ArmEdgeWatch);
        }
        proof {
            if old(self).state is FaultPending {
                assert(acts@ =~= seq![Action::ArmEdgeWatch]);
            } else {
                assert(acts@ =~= Seq::<Action>::empty());
            }
        }
        acts
    }

    /// Alternate second half of frame-error handling, the self-polling
    /// variant: the handler itself looked at the frame-select line. A line
    /// already high re-enables the slave at once; a low line arms the edge
    /// watch as the primary path does.
    pub fn resync_by_line(&mut self, ws_high: bool) -> (acts: Vec<Action>)
        ensures
            final(self).state == line_resync_step(old(self).state, ws_high),
            final(self).frames == old(self).frames,
            acts@ == if old(self).state is FaultPending {
                if ws_high {
                    seq![Action::EnableSlave, Action::Report(DiagnosticEvent::Resynced)]
                } else {
                    seq![Action::ArmEdgeWatch]
                }
            } else {
                Seq::<Action>::empty()
            },
    {
        let mut acts: Vec<Action> = Vec::new();
        if matches!(self.state, SyncState::FaultPending) {
            if ws_high {
                self.state = SyncState::Locked;
                acts.push(Action::EnableSlave);
                acts.push(Action::Report(DiagnosticEvent::Resynced));
                assert(acts@ =~= seq![
                    Action::EnableSlave,
                    Action::Report(DiagnosticEvent::Resynced),
                ]);
            } else {
                self.state = SyncState::AwaitingEdge;
                acts.push(Action::ArmEdgeWatch);
                assert(acts@ =~= seq![Action::ArmEdgeWatch]);
            }
        } else {
            assert(acts@ =~= Seq::<Action>::empty());
        }
        acts
    }

    /// Handle one slave-side invocation: resolve the status flags in
    /// priority order and run the matching recovery. Overrun and underrun
    /// are recovered in place by their documented clear sequences and never
    /// move the state; data ready advances the frame counter, which resets
    /// exactly on reaching the report threshold.
    pub fn handle_slave_status(&mut self, st: SlaveStatus) -> (acts: Vec<Action>)
        requires
            old(self).wf(),
        ensures
            final(self).wf(),
            final(self).state == match classify_slave_spec(st) {
                Some(ev) => slave_event_step(old(self).state, ev),
                None => old(self).state,
            },
            final(self).frames == if classify_slave_spec(st) == Some(SlaveEvent::DataReady) {
                counter_step(old(self).frames)
            } else {
                old(self).frames
            },
            acts@ == slave_actions(old(self).state, old(self).frames, st),
    {
        match classify_slave(st) {
            Some(SlaveEvent::FrameError) => {
                let mut acts = self.note_frame_error();
                let mut armed = self.arm_edge_watch();
                acts.append(&mut armed);
                assert(acts@ =~= frame_error_actions(old(self).state));
                acts
            },
            Some(SlaveEvent::Overrun) => {
                let mut acts: Vec<Action> = Vec::new();
                acts.push(Action::Report(DiagnosticEvent::Overrun));
                acts.push(Action::ReadDataRegister);
                acts.push(Action::ReadStatusRegister);
                assert(acts@ =~= slave_actions(old(self).state, old(self).frames, st));
                acts
            },
            Some(SlaveEvent::Underrun) => {
                let mut acts: Vec<Action> = Vec::new();
                acts.push(Action::Report(DiagnosticEvent::Underrun));
                acts.push(Action::ReadStatusRegister);
                assert(acts@ =~= slave_actions(old(self).state, old(self).frames, st));
                acts
            },
            Some(SlaveEvent::DataReady) => {
                let mut acts: Vec<Action> = Vec::new();
                acts.push(Action::ReadDataRegister);
                if self.frames + 1 == REPORT_THRESHOLD {
                    acts.push(Action::Report(DiagnosticEvent::FramesReceived(
                        FRAMES_PER_REPORT,
                    )));
                    self.frames = 0;
                } else {
                    self.frames = self.frames + 1;
                }
                assert(acts@ =~= slave_actions(old(self).state, old(self).frames, st));
                acts
            },
            None => {
                let acts: Vec<Action> = Vec::new();
                assert(acts@ =~= Seq::<Action>::empty());
                acts
            },
        }
    }

    /// Handle one frame-select edge invocation. The pending event flag is
    /// always cleared. Only a rising edge (line high), and only while the
    /// monitor awaits one, masks the watch, re-enables the slave engine
    /// and locks the link back in; any other edge leaves the state alone.
    pub fn on_edge_event(&mut self, ws_high: bool) -> (acts: Vec<Action>)
        ensures
            final(self).state == edge_step(old(self).state, ws_high),
            final(self).frames == old(self).frames,
            acts@ == edge_actions(old(self).state, ws_high),
    {
        let mut acts: Vec<Action> = Vec::new();
        acts.push(Action::ClearEdgePending);
        if matches!(self.state, SyncState::AwaitingEdge) && ws_high {
            self.state = SyncState::Locked;
            acts.push(Action::DisarmEdgeWatch);
            acts.push(Action::EnableSlave);
            acts.push(Action::Report(DiagnosticEvent::Resynced));
            assert(acts@ =~= edge_actions(old(self).state, ws_high));
        } else {
            assert(acts@ =~= edge_actions(old(self).state, ws_high));
        }
        acts
    }
}

/// Law of the resynchronization discipline. A slave-side frame error seen
/// while locked moves the machine to `FaultPending` and then, once the
/// edge watch is armed, to `AwaitingEdge`. From `AwaitingEdge` the machine
/// returns to `Locked` on a rising frame-select edge and on nothing else:
/// not on a falling edge, and not through any slave-side event.
pub proof fn lemma_resync_discipline()
    ensures
        fault_step(SyncState::Locked) is FaultPending,
        arm_step(SyncState::FaultPending) is AwaitingEdge,
        edge_step(SyncState::AwaitingEdge, true) is Locked,
        edge_step(SyncState::AwaitingEdge, false) is AwaitingEdge,
        forall|ev: SlaveEvent| slave_event_step(SyncState::AwaitingEdge, ev) is AwaitingEdge,
        forall|ws: bool| line_resync_step(SyncState::AwaitingEdge, ws) is AwaitingEdge,
        forall|s: SyncState, ws: bool|
            edge_step(s, ws) is Locked ==> (s is Locked || (s is AwaitingEdge && ws)),
{
}

/// Law of in-place fault recovery: overrun and underrun are data-rate
/// mismatches recovered by their clear sequences alone; they never change
/// the synchronization state, whatever it is.
pub proof fn lemma_overrun_underrun_keep_state(s: SyncState)
    ensures
        slave_event_step(s, SlaveEvent::Overrun) == s,
        slave_event_step(s, SlaveEvent::Underrun) == s,
{
}

/// Law of the frame counter: starting under the report threshold, one more
/// received half-word never passes the threshold — the counter resets to
/// zero exactly upon reaching it.
pub proof fn lemma_counter_never_passes_threshold(c: u32)
    requires
        c < REPORT_THRESHOLD,
    ensures
        counter_step(c) < REPORT_THRESHOLD,
        counter_step(c) == 0 <==> c + 1 == REPORT_THRESHOLD,
{
}

} // verus!
