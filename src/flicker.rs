//! A label that toggles its visibility at a fixed period.
use vstd::prelude::*;

verus! {

/// Default blink period: three quarters of a second.
pub const DEFAULT_FLICKER_TIME_US: u64 = 750_000;

/// Blink timer of a label.
///
/// `time_us` accumulates frame time; once it exceeds `flicker_time_us` the
/// label's visibility is toggled and the accumulator starts again from zero.
pub struct Flicker {
    /// Period after which the visibility toggles, in microseconds.
    pub flicker_time_us: u64,
    /// Time accumulated since the last toggle, in microseconds.
    pub time_us: u64,
}

/// Whether a frame of `delta` microseconds, added to `time` accumulated so
/// far, passes the blink period `period`.
pub open spec fn passes_period(time: int, delta: int, period: int) -> bool {
    time + delta > period
}

impl Flicker {
    /// A timer with the default period and nothing accumulated.
    pub fn new() -> (r: Flicker)
        ensures
            r.flicker_time_us == DEFAULT_FLICKER_TIME_US,
            r.time_us == 0,
    {
        Flicker { flicker_time_us: DEFAULT_FLICKER_TIME_US, time_us: 0 }
    }

    /// Accounts for a frame of `delta_us` microseconds. Returns whether the
    /// label's visibility must be toggled now.
    pub fn process(&mut self, delta_us: u64) -> (toggle: bool)
        ensures
            toggle == passes_period(
                old(self).time_us as int,
                delta_us as int,
                old(self).flicker_time_us as int,
            ),
            final(self).flicker_time_us == old(self).flicker_time_us,
            toggle ==> final(self).time_us == 0,
            !toggle ==> final(self).time_us == old(self).time_us + delta_us,
    {
        if delta_us > self.flicker_time_us || self.time_us > self.flicker_time_us - delta_us {
            self.time_us = 0;
            true
        } else {
            self.time_us = self.time_us + delta_us;
            false
        }
    }
}

} // verus!
