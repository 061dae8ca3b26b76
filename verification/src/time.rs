//! Moments on a monotonic clock.

use std::time::{Duration, Instant};
use vstd::prelude::*;

verus! {

/// The monotonic clock reading of the standard library.
#[verifier::external_type_specification]
#[verifier::external_body]
pub struct ExInstant(Instant);

/// `Instant::now` reads the monotonic clock. Nothing is stated of the reading: it rests on the
/// machine.
pub assume_specification[ Instant::now ]() -> (now: Instant)
;

/// The time from one clock reading to another, as `Instant::saturating_duration_since` gives it.
pub uninterp spec fn time_between(later: Instant, earlier: Instant) -> Duration;

/// `Instant::saturating_duration_since` is the time from the earlier reading to this one, or no
/// time if that reading is the later one. It depends on the two readings alone, and is only
/// named: a reading cannot be looked into.
pub assume_specification[ Instant::saturating_duration_since ](
    later: &Instant,
    earlier: Instant,
) -> (span: Duration)
    ensures
        span == time_between(*later, earlier),
;

/// The nanoseconds in a duration, as `Duration::as_nanos` counts them.
pub uninterp spec fn nanos_in(span: Duration) -> u128;

/// `Duration::as_nanos` is the whole number of nanoseconds in a duration. It depends on the
/// duration alone, and is only named: a duration cannot be looked into.
pub assume_specification[ Duration::as_nanos ](span: &Duration) -> (nanos: u128)
    ensures
        nanos == nanos_in(*span),
;

/// Nanoseconds in a millisecond.
pub const NANOS_PER_MILLI: i64 = 1_000_000;

/// A moment, in nanoseconds from the start of the clock that read it.
#[derive(Clone, Copy, Debug, PartialEq, Eq, Structural)]
pub struct Moment {
    pub nanos: i64,
}

/// Nanoseconds from `earlier` to `later`; none if `later` is not later.
pub open spec fn nanos_between(later: Moment, earlier: Moment) -> int {
    if later.nanos >= earlier.nanos {
        later.nanos - earlier.nanos
    } else {
        0
    }
}

/// Whole milliseconds from `earlier` to `later`; none if `later` is not later.
pub open spec fn millis_between(later: Moment, earlier: Moment) -> int {
    nanos_between(later, earlier) / 1_000_000
}

impl Moment {
    /// Nanoseconds since an earlier moment; none if it is not earlier.
    pub fn nanos_since(&self, earlier: Moment) -> (nanos: u64)
        ensures
            nanos == nanos_between(*self, earlier),
    {
        if self.nanos >= earlier.nanos {
            (self.nanos as i128 - earlier.nanos as i128) as u64
        } else {
            0
        }
    }

    /// Whole milliseconds since an earlier moment; none if it is not earlier.
    pub fn millis_since(&self, earlier: Moment) -> (millis: u64)
        ensures
            millis == millis_between(*self, earlier),
    {
        self.nanos_since(earlier) / 1_000_000
    }
}

/// A running clock.
#[derive(Debug)]
pub struct Clock {
    /// The reading at which the clock was started.
    pub origin: Instant,
}

impl Clock {
    /// The moment of a reading: the nanoseconds from the clock's start to it, as far as a moment
    /// can hold them.
    pub open spec fn moment_at(&self, reading: Instant) -> Moment {
        let nanos = nanos_in(time_between(reading, self.origin));
        Moment {
            nanos: if nanos <= i64::MAX {
                nanos as i64
            } else {
                i64::MAX
            },
        }
    }

    /// The moment is that of some reading: what this clock can show as the present one.
    pub open spec fn reads(&self, now: Moment) -> bool {
        exists|reading: Instant| now == #[trigger] self.moment_at(reading)
    }

    /// Start a clock, at the present reading. Which reading that is rests on the machine.
    pub fn start() -> Clock {
        Clock { origin: Instant::now() }
    }

    /// The moment of a reading by this clock.
    pub fn moment_of(&self, reading: Instant) -> (moment: Moment)
        ensures
            moment == self.moment_at(reading),
    {
        let nanos: u128 = reading.saturating_duration_since(self.origin).as_nanos();
        if nanos <= i64::MAX as u128 {
            Moment { nanos: nanos as i64 }
        } else {
            Moment { nanos: i64::MAX }
        }
    }

    /// The present moment, no earlier than the clock's start. Which reading it is the moment of
    /// rests on the machine.
    pub fn now(&self) -> (now: Moment)
        ensures
            self.reads(now),
            now.nanos >= 0,
    {
        let reading = Instant::now();
        self.moment_of(reading)
    }
}

} // verus!
