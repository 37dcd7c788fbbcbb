//! Frame-format configuration of the two serial engines. Both engines must
//! agree bit for bit on the frame shape — word length, channel length,
//! protocol standard and clock polarity — or frames misalign; a mismatch is
//! rejected here, at configuration time, before any data flows. Bring-up
//! order is fixed: the slave-receive engine is enabled strictly before the
//! master-transmit engine, so the first master-emitted frame edge is never
//! missed.

use vstd::prelude::*;

use crate::diag::DiagnosticEvent;
use crate::sync::Action;

verus! {

/// Data word length within one channel, in bits.
#[derive(Clone, Copy, Debug, PartialEq, Eq, Structural)]
pub enum WordLength {
    /// 16-bit data words.
    W16,
    /// 24-bit data words.
    W24,
    /// 32-bit data words.
    W32,
}

/// Channel (half-frame) length, in bits.
#[derive(Clone, Copy, Debug, PartialEq, Eq, Structural)]
pub enum ChannelLength {
    /// 16 bit clocks per channel.
    C16,
    /// 32 bit clocks per channel.
    C32,
}

/// Serial audio protocol standard.
#[derive(Clone, Copy, Debug, PartialEq, Eq, Structural)]
pub enum Protocol {
    /// Philips standard: data one bit clock after the frame edge; the
    /// rising frame-select edge starts the left channel.
    Philips,
    /// Most-significant-bit justified.
    MsbJustified,
    /// Least-significant-bit justified.
    LsbJustified,
    /// Pulse-code modulation framing.
    Pcm,
}

/// Idle level of the bit clock.
#[derive(Clone, Copy, Debug, PartialEq, Eq, Structural)]
pub enum ClockPolarity {
    /// The bit clock rests high.
    IdleHigh,
    /// The bit clock rests low.
    IdleLow,
}

/// Role of one engine: exactly one master exists per frame-clock domain.
#[derive(Clone, Copy, Debug, PartialEq, Eq, Structural)]
pub enum Role {
    /// Owns and derives the bit and frame clocks; transmits.
    MasterTransmit,
    /// Receives both clocks externally and tracks frame boundaries.
    SlaveReceive,
}

/// Configuration-time fault.
#[derive(Clone, Copy, Debug, PartialEq, Eq, Structural)]
pub enum ConfigFault {
    /// Master and slave were handed frame formats that differ in shape.
    FormatMismatch,
}

/// The three interrupt sources this link claims; the shell must unmask
/// exactly these before data flow starts.
#[derive(Clone, Copy, Debug, PartialEq, Eq, Structural)]
pub enum IrqSource {
    /// Error flags of the master engine.
    MasterEngine,
    /// Error and data flags of the slave engine.
    SlaveEngine,
    /// Rising-edge watch on the frame-select line.
    EdgeLine,
}

/// The frame shape both engines share, plus the master-side clock division.
/// Fixed at startup and never mutated.
#[derive(Clone, Copy, Debug, PartialEq, Eq, Structural)]
pub struct FrameFormat {
    /// Bits per data word.
    pub word_length: WordLength,
    /// Bit clocks per channel.
    pub channel_length: ChannelLength,
    /// Protocol standard.
    pub protocol: Protocol,
    /// Idle level of the bit clock.
    pub clock_polarity: ClockPolarity,
    /// Integer bit-clock divider (master only).
    pub divider: u8,
    /// Fractional divider bit (master only).
    pub odd: bool,
    /// Whether the master also emits a derived output clock.
    pub generate_master_clock: bool,
}

/// The fields that must be bit-for-bit identical on master and slave for
/// frames to align; the clock-division fields belong to the master alone
/// and are not compared.
pub open spec fn shape_matches(a: FrameFormat, b: FrameFormat) -> bool {
    &&& a.word_length == b.word_length
    &&& a.channel_length == b.channel_length
    &&& a.protocol == b.protocol
    &&& a.clock_polarity == b.clock_polarity
}

/// Everything the shell must program into one engine.
#[derive(Clone, Copy, Debug, PartialEq, Eq, Structural)]
pub struct EngineSettings {
    /// Direction and clock ownership.
    pub role: Role,
    /// The frame shape (and, on the master, the clock division).
    pub format: FrameFormat,
    /// Whether the engine's error interrupt is enabled.
    pub error_irq_enabled: bool,
    /// Whether the engine's data-ready interrupt is enabled.
    pub data_irq_enabled: bool,
}

/// The accepted configuration of the whole link.
#[derive(Clone, Copy, Debug, PartialEq, Eq, Structural)]
pub struct LinkPlan {
    /// Settings of the master-transmit engine: errors interrupt, data does
    /// not — the foreground loop polls for it.
    pub master: EngineSettings,
    /// Settings of the slave-receive engine: both errors and received data
    /// interrupt.
    pub slave: EngineSettings,
}

/// Validate and lay out the configuration of both engines. Mismatched
/// frame shapes are rejected here, before any data flow starts, rather
/// than left to surface as runtime frame errors.
pub fn configure_link(master: &FrameFormat, slave: &FrameFormat) -> (r: Result<
    LinkPlan,
    ConfigFault,
>)
    ensures
        r is Ok <==> shape_matches(*master, *slave),
        r matches Ok(plan) ==> {
            &&& plan.master.role is MasterTransmit
            &&& plan.master.format == *master
            &&& plan.master.error_irq_enabled
            &&& !plan.master.data_irq_enabled
            &&& plan.slave.role is SlaveReceive
            &&& plan.slave.format == *slave
            &&& plan.slave.error_irq_enabled
            &&& plan.slave.data_irq_enabled
        },
        r matches Err(f) ==> f is FormatMismatch,
{
    if master.word_length == slave.word_length && master.channel_length == slave.channel_length
        && master.protocol == slave.protocol && master.clock_polarity == slave.clock_polarity {
        Ok(LinkPlan {
            master: EngineSettings {
                role: Role::MasterTransmit,
                format: *master,
                error_irq_enabled: true,
                data_irq_enabled: false,
            },
            slave: EngineSettings {
                role: Role::SlaveReceive,
                format: *slave,
                error_irq_enabled: true,
                data_irq_enabled: true,
            },
        })
    } else {
        Err(ConfigFault::FormatMismatch)
    }
}

/// The interrupt sources an accepted link claims: the shell must unmask
/// exactly these three.
pub fn claimed_interrupts(_plan: &LinkPlan) -> (irqs: Vec<IrqSource>)
    ensures
        irqs@ == seq![IrqSource::MasterEngine, IrqSource::SlaveEngine, IrqSource::EdgeLine],
{
    let mut irqs: Vec<IrqSource> = Vec::new();
    irqs.push(IrqSource::MasterEngine);
    irqs.push(IrqSource::SlaveEngine);
    irqs.push(IrqSource::EdgeLine);
    assert(irqs@ =~= seq![IrqSource::MasterEngine, IrqSource::SlaveEngine, IrqSource::EdgeLine]);
    irqs
}

/// Bring-up phase of an accepted link.
#[derive(Clone, Copy, Debug, PartialEq, Eq, Structural)]
pub enum BringupPhase {
    /// Both engines are programmed; neither is enabled.
    Configured,
    /// The slave-receive engine is enabled and ready for the first edge.
    SlaveEnabled,
    /// Both engines run; data flows.
    Running,
}

/// Enforces the bring-up order by construction: only an accepted plan
/// yields a sequencer, the slave can only be enabled first, and the master
/// only after the slave.
pub struct LinkBringup {
    /// Current phase.
    pub phase: BringupPhase,
}

impl LinkBringup {
    /// Start bring-up of an accepted configuration.
    pub fn new(_plan: &LinkPlan) -> (b: LinkBringup)
        ensures
            b.phase is Configured,
    {
        LinkBringup { phase: BringupPhase::Configured }
    }

    /// Enable the slave-receive engine. Must come first, so the slave is
    /// ready to receive from the first frame edge the master emits.
    pub fn enable_slave(&mut self) -> (a: Action)
        requires
            old(self).phase is Configured,
        ensures
            final(self).phase is SlaveEnabled,
            a == Action::EnableSlave,
    {
        self.phase = BringupPhase::SlaveEnabled;
        Action::EnableSlave
    }

    /// Enable the master-transmit engine, strictly after the slave; the
    /// bring-up is then complete and reported.
    pub fn enable_master(&mut self) -> (acts: Vec<Action>)
        requires
            old(self).phase is SlaveEnabled,
        ensures
            final(self).phase is Running,
            acts@ == seq![Action::EnableMaster, Action::Report(DiagnosticEvent::InitDone)],
    {
        self.phase = BringupPhase::Running;
        let mut acts: Vec<Action> = Vec::new();
        acts.push(Action::EnableMaster);
        acts.push(Action::Report(DiagnosticEvent::InitDone));
        assert(acts@ =~= seq![Action::EnableMaster, Action::Report(DiagnosticEvent::InitDone)]);
        acts
    }
}

/// Law of configuration-time rejection: a master/slave pair whose word
/// length or channel length differ never yields an accepted link plan.
pub proof fn lemma_mismatch_rejected(a: FrameFormat, b: FrameFormat)
    requires
        a.word_length != b.word_length || a.channel_length != b.channel_length,
    ensures
        !shape_matches(a, b),
{
}

} // verus!
