use i2s_sync::format::claimed_interrupts;
use i2s_sync::format::configure_link;
use i2s_sync::format::BringupPhase;
use i2s_sync::format::ChannelLength;
use i2s_sync::format::ClockPolarity;
use i2s_sync::format::ConfigFault;
use i2s_sync::format::FrameFormat;
use i2s_sync::format::IrqSource;
use i2s_sync::format::LinkBringup;
use i2s_sync::format::Protocol;
use i2s_sync::format::Role;
use i2s_sync::format::WordLength;
use i2s_sync::diag::DiagnosticEvent;
use i2s_sync::sync::Action;

fn board_format() -> FrameFormat {
    FrameFormat {
        word_length: WordLength::W16,
        channel_length: ChannelLength::C32,
        protocol: Protocol::Philips,
        clock_polarity: ClockPolarity::IdleHigh,
        divider: 62,
        odd: true,
        generate_master_clock: false,
    }
}

#[test]
fn matching_formats_are_accepted() {
    let fmt = board_format();
    let plan = configure_link(&fmt, &fmt).expect("matching formats must configure");
    assert_eq!(plan.master.role, Role::MasterTransmit);
    assert_eq!(plan.slave.role, Role::SlaveReceive);
    assert_eq!(plan.master.format, fmt);
    assert_eq!(plan.slave.format, fmt);
    assert!(plan.master.error_irq_enabled);
    assert!(!plan.master.data_irq_enabled);
    assert!(plan.slave.error_irq_enabled);
    assert!(plan.slave.data_irq_enabled);
}

#[test]
fn mismatched_word_length_is_rejected() {
    let master = board_format();
    let mut slave = board_format();
    slave.word_length = WordLength::W24;
    assert_eq!(configure_link(&master, &slave), Err(ConfigFault::FormatMismatch));
}

#[test]
fn mismatched_channel_length_is_rejected() {
    let master = board_format();
    let mut slave = board_format();
    slave.channel_length = ChannelLength::C16;
    assert_eq!(configure_link(&master, &slave), Err(ConfigFault::FormatMismatch));
}

#[test]
fn mismatched_protocol_is_rejected() {
    let master = board_format();
    let mut slave = board_format();
    slave.protocol = Protocol::MsbJustified;
    assert_eq!(configure_link(&master, &slave), Err(ConfigFault::FormatMismatch));
}

#[test]
fn mismatched_polarity_is_rejected() {
    let master = board_format();
    let mut slave = board_format();
    slave.clock_polarity = ClockPolarity::IdleLow;
    assert_eq!(configure_link(&master, &slave), Err(ConfigFault::FormatMismatch));
}

#[test]
fn divider_fields_do_not_affect_matching() {
    let master = board_format();
    let mut slave = board_format();
    slave.divider = 0;
    slave.odd = false;
    slave.generate_master_clock = true;
    assert!(configure_link(&master, &slave).is_ok());
}

#[test]
fn link_claims_exactly_the_three_interrupt_sources() {
    let fmt = board_format();
    let plan = configure_link(&fmt, &fmt).unwrap();
    let irqs = claimed_interrupts(&plan);
    assert_eq!(
        irqs,
        vec![IrqSource::MasterEngine, IrqSource::SlaveEngine, IrqSource::EdgeLine]
    );
}

#[test]
fn bringup_enables_slave_then_master() {
    let fmt = board_format();
    let plan = configure_link(&fmt, &fmt).unwrap();
    let mut bringup = LinkBringup::new(&plan);
    assert_eq!(bringup.phase, BringupPhase::Configured);
    let first = bringup.enable_slave();
    assert_eq!(first, Action::EnableSlave);
    assert_eq!(bringup.phase, BringupPhase::SlaveEnabled);
    let rest = bringup.enable_master();
    assert_eq!(
        rest,
        vec![Action::EnableMaster, Action::Report(DiagnosticEvent::InitDone)]
    );
    assert_eq!(bringup.phase, BringupPhase::Running);
}
