//! Shared multi-press window counter: the one primitive under every rapid-repeat gesture.
//!
//! A press returns the running count, restarting at 1 when the previous press fell outside
//! the window and saturating at `max`. It never resets itself; the caller decides when a count
//! consumes the gesture and calls `reset`.

use vstd::prelude::*;
use crate::time::{Clock, Moment, NANOS_PER_MILLI};
use crate::time;

verus! {

#[derive(Debug)]
pub struct TapCounter {
    pub window_ms: u128,
    pub max: u8,
    pub count: u8,
    pub last: Option<Moment>,
    pub clock: Clock,
}

impl TapCounter {
    /// Whether a press at `now` falls within the window of the last one.
    pub open spec fn in_window(&self, now: Moment) -> bool {
        self.last matches Some(last) && time::millis_between(now, last) < self.window_ms
    }

    /// The count after a press at `now`: one more, but at most `max`, within the window, and 1
    /// outside of it.
    pub open spec fn count_after(&self, now: Moment) -> int {
        if self.in_window(now) {
            if self.count + 1 <= self.max {
                self.count + 1
            } else {
                self.max as int
            }
        } else {
            1
        }
    }

    /// `new` is this counter after a press at `now`.
    pub open spec fn pressed_at(&self, now: Moment, new: &Self) -> bool {
        &&& new.count == self.count_after(now)
        &&& new.last == Some(now)
        &&& new.window_ms == self.window_ms
        &&& new.max == self.max
        &&& new.clock == self.clock
    }

    /// `new` is this counter with its gesture consumed.
    pub open spec fn cleared(&self, new: &Self) -> bool {
        &&& new.count == 0
        &&& new.last is None
        &&& new.window_ms == self.window_ms
        &&& new.max == self.max
        &&& new.clock == self.clock
    }

    pub fn new(window_ms: u128, max: u8) -> (counter: Self)
        ensures
            counter.window_ms == window_ms,
            counter.max == max,
            counter.count == 0,
            counter.last is None,
    {
        TapCounter { window_ms, max, count: 0, last: None, clock: Clock::start() }
    }

    /// Register a press at `now`; returns the running count.
    pub fn press_at(&mut self, now: Moment) -> (count: u8)
        ensures
            old(self).pressed_at(now, final(self)),
            count == final(self).count,
    {
        let within: bool = match self.last {
            Some(last) => (now.millis_since(last) as u128) < self.window_ms,
            None => false,
        };
        self.count = if within {
            if self.count < self.max {
                self.count + 1
            } else {
                self.max
            }
        } else {
            1
        };
        self.last = Some(now);
        self.count
    }

    /// Register a press at the present moment.
    pub fn press(&mut self) -> (count: u8)
        ensures
            final(self).last matches Some(now) && old(self).clock.reads(now)
                && old(self).pressed_at(now, final(self)),
            count == final(self).count,
    {
        let now = self.clock.now();
        self.press_at(now)
    }

    /// Clear the count and timestamp. The caller owns gesture consumption.
    pub fn reset(&mut self)
        ensures
            old(self).cleared(final(self)),
    {
        self.count = 0;
        self.last = None;
    }

    /// The running count.
    pub fn count(&self) -> (count: u8)
        ensures
            count == self.count,
    {
        self.count
    }

    /// Move the last press `by_ms` milliseconds into the past.
    pub fn backdate(&mut self, by_ms: u64)
        requires
            old(self).last matches Some(last) ==> last.nanos - by_ms * 1_000_000 >= i64::MIN,
        ensures
            final(self).last == (match old(self).last {
                Some(last) => Some(Moment { nanos: (last.nanos - by_ms * 1_000_000) as i64 }),
                None => None,
            }),
            final(self).count == old(self).count,
            final(self).window_ms == old(self).window_ms,
            final(self).max == old(self).max,
            final(self).clock == old(self).clock,
    {
        if let Some(last) = self.last {
            let nanos: i128 = last.nanos as i128 - by_ms as i128 * NANOS_PER_MILLI as i128;
            self.last = Some(Moment { nanos: nanos as i64 });
        }
    }
}

/// A counter that allows at least one press stays between 1 and `max`.
pub proof fn law_count_stays_in_range(counter: TapCounter, now: Moment)
    requires
        counter.max >= 1,
    ensures
        1 <= counter.count_after(now) <= counter.max,
{
}

/// A press never lowers the count within the window, and raises it by at most one.
pub proof fn law_presses_count_up(counter: TapCounter, now: Moment)
    requires
        counter.in_window(now),
        counter.count <= counter.max,
    ensures
        counter.count <= counter.count_after(now) <= counter.count + 1,
        counter.count < counter.max ==> counter.count_after(now) == counter.count + 1,
{
}

/// `states` are the counter after each press of a run: the first press starts it, and each of
/// the others falls within the window of the one before.
pub open spec fn is_run(
    counter: TapCounter,
    times: Seq<Moment>,
    states: Seq<TapCounter>,
) -> bool {
    &&& states.len() == times.len()
    &&& times.len() > 0 ==> !counter.in_window(times[0]) && counter.pressed_at(
        times[0],
        &states[0],
    )
    &&& forall|i: int|
        0 < i < times.len() ==> states[i - 1].in_window(times[i]) && (#[trigger] states[i
            - 1]).pressed_at(times[i], &states[i])
}

/// The i-th press of a run counts i, but at most `max`.
pub proof fn law_a_run_counts_its_presses(
    counter: TapCounter,
    times: Seq<Moment>,
    states: Seq<TapCounter>,
    i: int,
)
    requires
        counter.max >= 1,
        is_run(counter, times, states),
        0 <= i < states.len(),
    ensures
        states[i].max == counter.max,
        states[i].count == (if i + 1 <= counter.max {
            i + 1
        } else {
            counter.max as int
        }),
    decreases i,
{
    if i > 0 {
        law_a_run_counts_its_presses(counter, times, states, i - 1);
        assert(states[i - 1].pressed_at(times[i], &states[i]));
    }
}

/// After a reset the next press counts as the first, whenever it comes.
pub proof fn law_reset_starts_over(counter: TapCounter, cleared: TapCounter, now: Moment)
    requires
        counter.cleared(&cleared),
    ensures
        cleared.count_after(now) == 1,
{
}

/// A press falls within the window exactly if less than the window has passed since the last one,
/// to the nanosecond.
pub proof fn law_the_window_ends_on_time(counter: TapCounter, now: Moment)
    requires
        counter.window_ms > 0,
    ensures
        counter.in_window(now) <==> (counter.last matches Some(last) && now.nanos - last.nanos
            < counter.window_ms * 1_000_000),
{
}

/// A press after the window, or the first there is, counts 1, and is the one that the next is
/// timed from.
pub proof fn law_a_late_press_starts_over(counter: TapCounter, new: TapCounter, now: Moment)
    requires
        counter.pressed_at(now, &new),
        counter.last matches Some(last) ==> now.nanos - last.nanos >= counter.window_ms
            * 1_000_000,
    ensures
        new.count == 1,
        new.last == Some(now),
{
}

} // verus!
