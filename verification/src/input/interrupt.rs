//! Multi-press interrupt state machine: the graduated cancel gesture.
//!
//! One press is a soft interrupt, two within the window are a hard one, three also clear the
//! compose buffer.

use vstd::prelude::*;
use crate::input::tap::TapCounter;
use crate::time::Moment;

verus! {

/// Time window for counting consecutive interrupt presses (milliseconds).
pub const WINDOW_MS: u128 = 500;

/// Per-session state for the multi-press interrupt gesture.
#[derive(Debug)]
pub struct InterruptState {
    pub taps: TapCounter,
}

impl Default for InterruptState {
    fn default() -> (state: Self)
        ensures
            state.taps.window_ms == WINDOW_MS,
            state.taps.window_ms == 500,
            state.taps.max == 3,
            state.taps.count == 0,
            state.taps.last is None,
    {
        InterruptState { taps: TapCounter::new(WINDOW_MS, 3) }
    }
}

impl InterruptState {
    /// Record an interrupt press at `now` and return the current count.
    pub fn press_at(&mut self, now: Moment) -> (count: u8)
        ensures
            old(self).taps.pressed_at(now, &final(self).taps),
            count == final(self).taps.count,
    {
        self.taps.press_at(now)
    }

    /// Record a new interrupt press and return the current count.
    pub fn press(&mut self) -> (count: u8)
        ensures
            final(self).taps.last matches Some(now) && old(self).taps.clock.reads(now)
                && old(self).taps.pressed_at(now, &final(self).taps),
            count == final(self).taps.count,
    {
        self.taps.press()
    }

    /// Reset the press count and timestamp (after a 3-press clear).
    pub fn reset(&mut self)
        ensures
            old(self).taps.cleared(&final(self).taps),
    {
        self.taps.reset()
    }
}

} // verus!
