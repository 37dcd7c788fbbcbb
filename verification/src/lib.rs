//! Bring-up and frame synchronization for a pair of serial audio engines.
//!
//! One engine owns the bit and frame clocks and transmits a synthesized
//! tone; the other follows those clocks and must stay phase-locked to the
//! frame-select line. This crate holds the decision logic of that system:
//! the secondary-clock configuration and its bounded lock wait, the
//! frame-format matching that both engines must agree on, the tone sample
//! source, the transmit word selection, and the interrupt-driven fault
//! detection and resynchronization state machine. The hardware shell that
//! reads status flags and pokes registers performs the actions this
//! library decides on and hands the observed events back.

pub mod clock;
pub mod diag;
pub mod format;
pub mod sync;
pub mod tone;
pub mod transmit;
