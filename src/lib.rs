//! Gameplay rules of a small arcade game: a blinking label and a
//! microphone-driven ball-dodging round.
//!
//! Time is counted in whole microseconds, so every rule here is exact integer
//! arithmetic; the host converts its frame deltas before calling in.
use vstd::prelude::*;

pub mod flicker;
pub mod round;

pub use flicker::Flicker;
pub use round::{BallEvent, Frame, FrameInput, Turboballs};

verus! {

/// Microseconds in one second.
pub const MICROS_PER_SECOND: u64 = 1_000_000;

} // verus!
