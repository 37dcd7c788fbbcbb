//! The transmitted tone: one period of a sawtooth ramp, produced lazily as
//! an infinite, restartable cyclic sequence of signed 32-bit samples.

use vstd::prelude::*;

verus! {

/// Number of samples in one period of the tone.
pub const TONE_PERIOD: usize = 480;

/// First sample of the ramp: half the signed 32-bit minimum.
pub const RAMP_BASE: i32 = -1073741824;

/// Increment between consecutive samples of the ramp,
/// `u32::MAX / TONE_PERIOD / 2` rounded toward zero.
pub const SAMPLE_STEP: i32 = 4473924;

/// The sample at position `i` of one period: a linear ramp from just above
/// the signed minimum to just below the signed maximum.
pub open spec fn tone_sample(i: int) -> int {
    RAMP_BASE + i * SAMPLE_STEP
}

/// The infinite tone: the periodic extension of one ramp period.
pub open spec fn wave(k: int) -> int {
    tone_sample(k % (TONE_PERIOD as int))
}

/// The ramp constants are exactly the documented formula:
/// the base is half the signed 32-bit minimum and the step is
/// `u32::MAX / TONE_PERIOD / 2`.
pub proof fn lemma_tone_formula(i: int)
    ensures
        tone_sample(i) == i32::MIN as int / 2 + i * ((u32::MAX as int) / (TONE_PERIOD as int) / 2),
{
    assert(i32::MIN as int / 2 == RAMP_BASE as int);
    assert((u32::MAX as int) / (TONE_PERIOD as int) / 2 == SAMPLE_STEP as int);
}

/// The tone is exactly periodic: the sample at `k + TONE_PERIOD` equals the
/// sample at `k`, so the sequence restarts to the same first value after
/// exhausting one period.
pub proof fn lemma_tone_periodic(k: int)
    requires
        0 <= k,
    ensures
        wave(k + TONE_PERIOD as int) == wave(k),
{
    let p = TONE_PERIOD as int;
    assert((k + p) % p == k % p) by (nonlinear_arith)
        requires p > 0 && k >= 0;
}

/// The sample at period position `i`, computed.
pub fn sample_at(i: usize) -> (s: i32)
    requires
        i < TONE_PERIOD,
    ensures
        s == tone_sample(i as int),
{
    RAMP_BASE + (i as i32) * SAMPLE_STEP
}

/// Lazy cursor into one tone period; wraps modulo the period length.
/// The cursor is advanced only by the foreground transmit activity.
pub struct ToneSampleSource {
    /// Position of the next sample within the current period.
    pub cursor: usize,
}

impl ToneSampleSource {
    /// The cursor never leaves the period.
    pub open spec fn wf(self) -> bool {
        self.cursor < TONE_PERIOD
    }

    /// A fresh source starts at the first sample of the period.
    pub fn new() -> (src: ToneSampleSource)
        ensures
            src.cursor == 0,
            src.wf(),
    {
        ToneSampleSource { cursor: 0 }
    }

    /// Produce the sample under the cursor and advance, wrapping at the end
    /// of the period so the sequence restarts at the same first value.
    pub fn next(&mut self) -> (s: i32)
        requires
            old(self).wf(),
        ensures
            final(self).wf(),
            s == tone_sample(old(self).cursor as int),
            final(self).cursor == if old(self).cursor + 1 == TONE_PERIOD {
                0usize
            } else {
                (old(self).cursor + 1) as usize
            },
    {
        let s = sample_at(self.cursor);
        if self.cursor + 1 == TONE_PERIOD {
            self.cursor = 0;
        } else {
            self.cursor = self.cursor + 1;
        }
        s
    }

    /// Rewind to the first sample of the period.
    pub fn restart(&mut self)
        ensures
            final(self).cursor == 0,
            final(self).wf(),
    {
        self.cursor = 0;
    }
}

} // verus!
