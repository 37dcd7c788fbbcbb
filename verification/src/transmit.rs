//! The foreground transmit activity: choosing the next 16-bit half-word to
//! hand to the master engine. Channel selection follows the engine's own
//! current-channel status bit — the hardware's notion of the current
//! channel is authoritative, and a software parity counter could drift
//! after a resynchronization. A 32-bit tone sample is split at transmit
//! time into its high and low half-words, one per channel.

use vstd::prelude::*;

use crate::tone::ToneSampleSource;
use crate::tone::TONE_PERIOD;
use crate::tone::tone_sample;

verus! {

/// Fixed half-word transmitted on channel 0 in the self-test loopback
/// pattern.
pub const LEFT_TEST_WORD: u16 = 0b1111_1111_0000_0000;

/// Fixed half-word transmitted on channel 1 in the self-test loopback
/// pattern.
pub const RIGHT_TEST_WORD: u16 = 0b1111_1111_0000_0110;

/// The two's-complement bit image of a signed 32-bit sample.
pub open spec fn sample_bits(v: i32) -> u32 {
    if v >= 0 {
        v as u32
    } else {
        (v + 0x1_0000_0000) as u32
    }
}

/// Upper half-word of a 32-bit bit image.
pub open spec fn high_half(w: u32) -> u16 {
    (w >> 16) as u16
}

/// Lower half-word of a 32-bit bit image.
pub open spec fn low_half(w: u32) -> u16 {
    (w & 0xFFFF) as u16
}

/// The split loses nothing: the two half-words rejoin to the bit image
/// they were taken from.
pub proof fn lemma_halves_rejoin(w: u32)
    ensures
        ((high_half(w) as u32) << 16) | (low_half(w) as u32) == w,
{
    assert((((w >> 16) as u16) as u32) << 16 | (((w & 0xFFFF) as u16) as u32) == w)
        by (bit_vector);
}

/// The two's-complement bit image of a signed sample, computed.
pub fn bits_of(v: i32) -> (w: u32)
    ensures
        w == sample_bits(v),
{
    if v >= 0 {
        v as u32
    } else {
        let wide: i64 = (v as i64) + 0x1_0000_0000;
        wide as u32
    }
}

/// Split a signed 32-bit sample into its high and low half-words.
pub fn split_sample(v: i32) -> (halves: (u16, u16))
    ensures
        halves.0 == high_half(sample_bits(v)),
        halves.1 == low_half(sample_bits(v)),
{
    let w = bits_of(v);
    proof {
        assert(w >> 16 <= 0xFFFF) by (bit_vector);
        assert(w & 0xFFFF <= 0xFFFF) by (bit_vector);
    }
    ((w >> 16) as u16, (w & 0xFFFF) as u16)
}

/// The fixed self-test half-word for the given channel: the documented
/// loopback tone pattern, one value per channel side.
pub fn selftest_word(left_channel: bool) -> (w: u16)
    ensures
        w == if left_channel {
            LEFT_TEST_WORD
        } else {
            RIGHT_TEST_WORD
        },
{
    if left_channel {
        LEFT_TEST_WORD
    } else {
        RIGHT_TEST_WORD
    }
}

/// Feeds the master engine one half-word per poll, splitting each tone
/// sample over the two channels: the high half-word on the left channel,
/// the low half-word on the right.
pub struct ToneFeeder {
    /// The cyclic sample source.
    pub tone: ToneSampleSource,
    /// Low half-word of the current sample, still owed to the right
    /// channel.
    pub pending_low: Option<u16>,
}

impl ToneFeeder {
    /// The source's cursor is within its period.
    pub open spec fn wf(self) -> bool {
        self.tone.wf()
    }

    /// A fresh feeder at the start of the tone period, owing nothing.
    pub fn new() -> (f: ToneFeeder)
        ensures
            f.wf(),
            f.tone.cursor == 0,
            f.pending_low is None,
    {
        ToneFeeder { tone: ToneSampleSource::new(), pending_low: None }
    }

    /// The next half-word for the channel the engine reports as current.
    /// On the left channel a fresh sample is drawn: its high half-word goes
    /// out and its low half-word is kept for the right channel. On the
    /// right channel the kept half-word goes out; if none is owed (as right
    /// after a resynchronization mid-frame), a fresh sample's low half-word
    /// goes out instead and nothing is kept.
    pub fn next_word(&mut self, left_channel: bool) -> (w: u16)
        requires
            old(self).wf(),
        ensures
            final(self).wf(),
            left_channel ==> {
                &&& w == high_half(sample_bits(tone_sample(old(self).tone.cursor as int) as i32))
                &&& final(self).pending_low == Some(
                    low_half(sample_bits(tone_sample(old(self).tone.cursor as int) as i32)),
                )
                &&& final(self).tone.cursor == (old(self).tone.cursor + 1) % (TONE_PERIOD as int)
            },
            !left_channel && old(self).pending_low is Some ==> {
                &&& Some(w) == old(self).pending_low
                &&& final(self).pending_low is None
                &&& final(self).tone == old(self).tone
            },
            !left_channel && old(self).pending_low is None ==> {
                &&& w == low_half(sample_bits(tone_sample(old(self).tone.cursor as int) as i32))
                &&& final(self).pending_low is None
                &&& final(self).tone.cursor == (old(self).tone.cursor + 1) % (TONE_PERIOD as int)
            },
    {
        if left_channel {
            let s = self.tone.next();
            let halves = split_sample(s);
            self.pending_low = Some(halves.1);
            halves.0
        } else {
            match self.pending_low {
                Some(lo) => {
                    self.pending_low = None;
                    lo
                },
                None => {
                    let s = self.tone.next();
                    let halves = split_sample(s);
                    halves.1
                },
            }
        }
    }
}

} // verus!
