//! Multi-press Escape state for compose dismissal.
//!
//! In Insert mode Escape switches to Normal mode, where the vim machine has no use for it. So
//! that the user can leave compose, rapid Escape presses are counted: the second within the
//! window, while vim is in Normal mode, dismisses. The counter saturates at 2 and only the
//! dismiss consumes it, so a double press that lands outside Normal mode stays armed.

use std::time::Instant;
use vstd::prelude::*;
use crate::input::tap::TapCounter;
use crate::time::Moment;

verus! {

/// Time window for counting consecutive Escape presses (milliseconds).
pub const WINDOW_MS: u128 = 500;

/// Per-session state for the double-Escape dismiss gesture.
#[derive(Debug)]
pub struct EscapeDismissState {
    pub taps: TapCounter,
}

impl Default for EscapeDismissState {
    fn default() -> (state: Self)
        ensures
            state.taps.window_ms == WINDOW_MS,
            state.taps.window_ms == 500,
            state.taps.max == 2,
            state.taps.count == 0,
            state.taps.last is None,
    {
        EscapeDismissState { taps: TapCounter::new(WINDOW_MS, 2) }
    }
}

impl EscapeDismissState {
    /// Reset the press count and timestamp.
    ///
    /// Called after a successful dismiss, and on any non-Escape keypress so that `Esc x Esc`
    /// does not count as a double press.
    pub fn reset(&mut self)
        ensures
            old(self).taps.cleared(&final(self).taps),
    {
        self.taps.reset()
    }

    /// Whether an Escape press at `now` dismisses.
    pub open spec fn dismisses(&self, now: Moment, in_normal_mode: bool) -> bool {
        self.taps.count_after(now) >= 2 && in_normal_mode
    }
}

/// Decide whether an Escape press at `now` dismisses compose; a dismiss consumes the gesture.
pub fn should_dismiss_at(
    state: &mut EscapeDismissState,
    now: Moment,
    in_normal_mode: bool,
) -> (dismiss: bool)
    ensures
        dismiss == old(state).dismisses(now, in_normal_mode),
        dismiss ==> old(state).taps.cleared(&final(state).taps),
        !dismiss ==> old(state).taps.pressed_at(now, &final(state).taps),
{
    let count: u8 = state.taps.press_at(now);
    if count >= 2 && in_normal_mode {
        state.reset();
        true
    } else {
        false
    }
}

/// Decide whether an Escape press at the present moment dismisses compose.
pub fn should_dismiss_after_escape(state: &mut EscapeDismissState, in_normal_mode: bool) -> (dismiss:
    bool)
    ensures
        exists|reading: Instant|
            {
                let now = #[trigger] old(state).taps.clock.moment_at(reading);
                &&& dismiss == old(state).dismisses(now, in_normal_mode)
                &&& dismiss ==> old(state).taps.cleared(&final(state).taps)
                &&& !dismiss ==> old(state).taps.pressed_at(now, &final(state).taps)
            },
{
    let now = state.taps.clock.now();
    should_dismiss_at(state, now, in_normal_mode)
}

/// Two presses within the window, the second in Normal mode, dismiss; whatever the mode at the
/// first.
pub proof fn law_second_press_in_normal_mode_dismisses(
    fresh: EscapeDismissState,
    once: EscapeDismissState,
    first: Moment,
    second: Moment,
)
    requires
        fresh.taps.max == 2,
        fresh.taps.last is None,
        fresh.taps.pressed_at(first, &once.taps),
        once.taps.in_window(second),
    ensures
        !fresh.dismisses(first, true),
        once.dismisses(second, true),
        !once.dismisses(second, false),
{
}

/// Another key between two presses breaks the gesture: the press after it counts as the first.
pub proof fn law_another_key_breaks_the_gesture(
    state: EscapeDismissState,
    interrupted: EscapeDismissState,
    now: Moment,
    in_normal_mode: bool,
)
    requires
        state.taps.cleared(&interrupted.taps),
    ensures
        !interrupted.dismisses(now, in_normal_mode),
{
}

/// A double press outside Normal mode stays armed: the next one in the window dismisses as
/// soon as vim is in Normal mode.
pub proof fn law_gesture_stays_armed_until_normal_mode(
    armed: EscapeDismissState,
    next: EscapeDismissState,
    now: Moment,
    later: Moment,
)
    requires
        armed.taps.max == 2,
        armed.taps.count == 2,
        armed.taps.in_window(now),
        armed.taps.pressed_at(now, &next.taps),
        next.taps.in_window(later),
    ensures
        next.taps.count == 2,
        next.dismisses(later, true),
{
}

} // verus!
