use i2s_sync::clock::ClockAction;
use i2s_sync::clock::ClockBringup;
use i2s_sync::clock::ClockConfig;
use i2s_sync::clock::ClockFault;
use i2s_sync::clock::ClockPhase;
use i2s_sync::clock::LockPoll;
use i2s_sync::clock::LockWait;

#[test]
fn board_pll_triple_is_accepted() {
    let cfg = ClockConfig::new(2, 64, 4).expect("the board triple is in range");
    assert_eq!(cfg.pll_m, 2);
    assert_eq!(cfg.pll_n, 64);
    assert_eq!(cfg.pll_r, 4);
}

#[test]
fn out_of_range_pll_fields_are_refused() {
    assert_eq!(ClockConfig::new(1, 64, 4), None);
    assert_eq!(ClockConfig::new(64, 64, 4), None);
    assert_eq!(ClockConfig::new(2, 49, 4), None);
    assert_eq!(ClockConfig::new(2, 433, 4), None);
    assert_eq!(ClockConfig::new(2, 64, 1), None);
    assert_eq!(ClockConfig::new(2, 64, 8), None);
}

#[test]
fn range_boundaries_are_accepted() {
    assert!(ClockConfig::new(2, 50, 2).is_some());
    assert!(ClockConfig::new(63, 432, 7).is_some());
}

#[test]
fn lock_wait_ends_locked_when_the_ready_bit_rises() {
    let mut wait = LockWait::new(3);
    assert_eq!(wait.poll(false), LockPoll::Pending);
    assert_eq!(wait.poll(false), LockPoll::Pending);
    assert_eq!(wait.poll(true), LockPoll::Locked);
    assert_eq!(wait.remaining, 1);
}

#[test]
fn lock_wait_times_out_when_the_budget_is_spent() {
    let mut wait = LockWait::new(2);
    assert_eq!(wait.poll(false), LockPoll::Pending);
    assert_eq!(wait.poll(false), LockPoll::Pending);
    assert_eq!(
        wait.poll(false),
        LockPoll::TimedOut(ClockFault::LockTimeout),
        "a clock that never locks must be reported, not waited on forever"
    );
}

#[test]
fn lock_wait_locks_even_with_an_empty_budget() {
    let mut wait = LockWait::new(0);
    assert_eq!(wait.poll(true), LockPoll::Locked);
}

#[test]
fn clock_bringup_programs_then_starts_then_locks() {
    let cfg = ClockConfig::new(2, 64, 4).unwrap();
    let mut bringup = ClockBringup::new(&cfg, 8);
    assert_eq!(bringup.phase, ClockPhase::Idle);
    assert_eq!(bringup.program(), ClockAction::ProgramDividers);
    assert_eq!(bringup.phase, ClockPhase::Programmed);
    assert_eq!(bringup.start(), ClockAction::StartClock);
    assert_eq!(bringup.phase, ClockPhase::Started);
    assert_eq!(bringup.poll(false), LockPoll::Pending);
    assert_eq!(bringup.phase, ClockPhase::Started);
    assert_eq!(bringup.poll(true), LockPoll::Locked);
    assert_eq!(bringup.phase, ClockPhase::LockedIn);
    assert_eq!(bringup.wait.remaining, 7);
}

#[test]
fn clock_bringup_reports_a_lock_timeout() {
    let cfg = ClockConfig::new(2, 64, 4).unwrap();
    let mut bringup = ClockBringup::new(&cfg, 1);
    bringup.program();
    bringup.start();
    assert_eq!(bringup.poll(false), LockPoll::Pending);
    assert_eq!(bringup.poll(false), LockPoll::TimedOut(ClockFault::LockTimeout));
    assert_eq!(bringup.phase, ClockPhase::Started, "a timed-out clock never reports lock");
}
