//! Secondary (audio) clock domain: the dedicated PLL that derives the bit
//! and frame clocks. The configuration triple is validated against the
//! device's accepted field ranges and then held constant for the run. The
//! wait for the lock-ready bit is bounded: a clock that never locks is
//! reported as a fault instead of hanging the device.

use vstd::prelude::*;

verus! {

/// Smallest accepted input divider.
pub const PLL_M_MIN: u8 = 2;

/// Largest accepted input divider.
pub const PLL_M_MAX: u8 = 63;

/// Smallest accepted multiplier.
pub const PLL_N_MIN: u16 = 50;

/// Largest accepted multiplier.
pub const PLL_N_MAX: u16 = 432;

/// Smallest accepted output divider.
pub const PLL_R_MIN: u8 = 2;

/// Largest accepted output divider.
pub const PLL_R_MAX: u8 = 7;

/// Clock-domain fault.
#[derive(Clone, Copy, Debug, PartialEq, Eq, Structural)]
pub enum ClockFault {
    /// The lock-ready bit never rose within the polling budget.
    LockTimeout,
}

/// The multiplier/divider triple of the secondary PLL. Built once through
/// [`ClockConfig::new`] and never mutated afterwards.
#[derive(Clone, Copy, Debug, PartialEq, Eq, Structural)]
pub struct ClockConfig {
    /// Input divider.
    pub pll_m: u8,
    /// Multiplier.
    pub pll_n: u16,
    /// Output divider.
    pub pll_r: u8,
}

/// The triple keeps the PLL's input and output frequencies within the
/// device's accepted range.
pub open spec fn clock_config_valid(m: u8, n: u16, r: u8) -> bool {
    &&& PLL_M_MIN <= m <= PLL_M_MAX
    &&& PLL_N_MIN <= n <= PLL_N_MAX
    &&& PLL_R_MIN <= r <= PLL_R_MAX
}

impl ClockConfig {
    /// The held triple is within the device's accepted ranges.
    pub open spec fn wf(self) -> bool {
        clock_config_valid(self.pll_m, self.pll_n, self.pll_r)
    }

    /// Validate and freeze a configuration triple; a triple outside the
    /// device's accepted field ranges yields nothing.
    pub fn new(pll_m: u8, pll_n: u16, pll_r: u8) -> (r: Option<ClockConfig>)
        ensures
            r is Some <==> clock_config_valid(pll_m, pll_n, pll_r),
            r matches Some(c) ==> c == (ClockConfig { pll_m, pll_n, pll_r }) && c.wf(),
    {
        if PLL_M_MIN <= pll_m && pll_m <= PLL_M_MAX && PLL_N_MIN <= pll_n && pll_n <= PLL_N_MAX
            && PLL_R_MIN <= pll_r && pll_r <= PLL_R_MAX {
            Some(ClockConfig { pll_m, pll_n, pll_r })
        } else {
            None
        }
    }
}

/// Outcome of one poll of the lock-ready bit.
#[derive(Clone, Copy, Debug, PartialEq, Eq, Structural)]
pub enum LockPoll {
    /// The clock reports lock; bring-up may continue.
    Locked,
    /// Not locked yet; poll again.
    Pending,
    /// The polling budget is exhausted: the clock never locked.
    TimedOut(ClockFault),
}

/// One register operation of the clock bring-up.
#[derive(Clone, Copy, Debug, PartialEq, Eq, Structural)]
pub enum ClockAction {
    /// Write the multiplier/divider triple into the PLL's configuration
    /// fields.
    ProgramDividers,
    /// Issue the start command to the PLL.
    StartClock,
}

/// Bounded wait for the PLL's lock-ready bit. The shell starts the clock,
/// then polls the ready bit through [`LockWait::poll`] until the wait
/// either locks or times out; the budget guarantees the wait ends.
pub struct LockWait {
    /// Polls left before the wait gives up.
    pub remaining: u32,
}

impl LockWait {
    /// A wait with the given polling budget.
    pub fn new(budget: u32) -> (w: LockWait)
        ensures
            w.remaining == budget,
    {
        LockWait { remaining: budget }
    }

    /// Account one observation of the lock-ready bit. A high bit ends the
    /// wait locked whatever the budget; a low bit spends one poll of the
    /// budget, and an exhausted budget ends the wait as a lock timeout.
    pub fn poll(&mut self, ready: bool) -> (r: LockPoll)
        ensures
            ready ==> r is Locked && *final(self) == *old(self),
            !ready && old(self).remaining == 0 ==> {
                &&& r == LockPoll::TimedOut(ClockFault::LockTimeout)
                &&& *final(self) == *old(self)
            },
            !ready && old(self).remaining > 0 ==> {
                &&& r is Pending
                &&& final(self).remaining == old(self).remaining - 1
            },
    {
        if ready {
            LockPoll::Locked
        } else if self.remaining == 0 {
            LockPoll::TimedOut(ClockFault::LockTimeout)
        } else {
            self.remaining = self.remaining - 1;
            LockPoll::Pending
        }
    }
}

/// Phase of the clock-domain bring-up.
#[derive(Clone, Copy, Debug, PartialEq, Eq, Structural)]
pub enum ClockPhase {
    /// Nothing written yet.
    Idle,
    /// The divider fields are programmed; the clock is not running.
    Programmed,
    /// The start command was issued; the lock-ready bit is being polled.
    Started,
    /// The clock reports lock; the domain is up.
    LockedIn,
}

/// Sequences the clock-domain bring-up: the divider fields are programmed
/// strictly before the start command, and the lock wait begins strictly
/// after it — the order the hardware requires, enforced by construction.
pub struct ClockBringup {
    /// Current phase.
    pub phase: ClockPhase,
    /// The bounded wait on the lock-ready bit.
    pub wait: LockWait,
}

impl ClockBringup {
    /// Begin bring-up of a validated configuration with the given polling
    /// budget.
    pub fn new(_cfg: &ClockConfig, budget: u32) -> (b: ClockBringup)
        ensures
            b.phase is Idle,
            b.wait.remaining == budget,
    {
        ClockBringup { phase: ClockPhase::Idle, wait: LockWait::new(budget) }
    }

    /// Program the multiplier/divider fields. Must come first.
    pub fn program(&mut self) -> (a: ClockAction)
        requires
            old(self).phase is Idle,
        ensures
            final(self).phase is Programmed,
            final(self).wait == old(self).wait,
            a == ClockAction::ProgramDividers,
    {
        self.phase = ClockPhase::Programmed;
        ClockAction::ProgramDividers
    }

    /// Issue the start command, strictly after programming; the lock wait
    /// runs from here.
    pub fn start(&mut self) -> (a: ClockAction)
        requires
            old(self).phase is Programmed,
        ensures
            final(self).phase is Started,
            final(self).wait == old(self).wait,
            a == ClockAction::StartClock,
    {
        self.phase = ClockPhase::Started;
        ClockAction::StartClock
    }

    /// Account one observation of the lock-ready bit, as [`LockWait::poll`]
    /// does; a high bit completes the bring-up.
    pub fn poll(&mut self, ready: bool) -> (r: LockPoll)
        requires
            old(self).phase is Started,
        ensures
            ready ==> r is Locked && final(self).phase is LockedIn && final(self).wait == old(
                self,
            ).wait,
            !ready ==> final(self).phase is Started,
            !ready && old(self).wait.remaining == 0 ==> {
                &&& r == LockPoll::TimedOut(ClockFault::LockTimeout)
                &&& final(self).wait == old(self).wait
            },
            !ready && old(self).wait.remaining > 0 ==> {
                &&& r is Pending
                &&& final(self).wait.remaining == old(self).wait.remaining - 1
            },
    {
        let r = self.wait.poll(ready);
        if ready {
            self.phase = ClockPhase::LockedIn;
        }
        r
    }
}

} // verus!
