//! Sequence state: tracks multi-key sequences such as g then t.

use std::time::Instant;
use vstd::prelude::*;
use crate::input::binding::InputSource;
use crate::time::{Clock, Moment};
use crate::time;

verus! {

/// Tracks an in-progress multi-key sequence.
#[derive(Debug)]
pub struct SequenceState {
    /// The pending prefix key (`None`: no sequence in progress).
    pub pending: Option<InputSource>,
    /// When the prefix was pressed.
    pub started_at: Option<Moment>,
    pub clock: Clock,
}

impl Default for SequenceState {
    fn default() -> (state: Self)
        ensures
            state.pending is None,
            state.started_at is None,
    {
        SequenceState { pending: None, started_at: None, clock: Clock::start() }
    }
}

impl SequenceState {
    /// More than `timeout_ms` have passed by `now` since the prefix was pressed.
    pub open spec fn expired(&self, timeout_ms: u64, now: Moment) -> bool {
        self.started_at matches Some(at) && time::millis_between(now, at) > timeout_ms
    }

    /// Start a new sequence with the given prefix at `now`.
    pub fn start_at(&mut self, prefix: InputSource, now: Moment)
        ensures
            final(self).pending == Some(prefix),
            final(self).started_at == Some(now),
            final(self).clock == old(self).clock,
    {
        self.pending = Some(prefix);
        self.started_at = Some(now);
    }

    /// Start a new sequence with the given prefix.
    pub fn start(&mut self, prefix: InputSource)
        ensures
            final(self).pending == Some(prefix),
            final(self).started_at matches Some(now) && old(self).clock.reads(now),
            final(self).clock == old(self).clock,
    {
        let now = self.clock.now();
        self.start_at(prefix, now)
    }

    /// Clear the pending sequence.
    pub fn clear(&mut self)
        ensures
            final(self).pending is None,
            final(self).started_at is None,
            final(self).clock == old(self).clock,
    {
        self.pending = None;
        self.started_at = None;
    }

    /// Check if the sequence has timed out by `now`.
    pub fn is_expired_at(&self, timeout_ms: u64, now: Moment) -> (yes: bool)
        ensures
            yes == self.expired(timeout_ms, now),
    {
        match self.started_at {
            Some(at) => now.millis_since(at) > timeout_ms,
            None => false,
        }
    }

    /// Check if the sequence has timed out.
    pub fn is_expired(&self, timeout_ms: u64) -> (yes: bool)
        ensures
            exists|reading: Instant|
                yes == self.expired(timeout_ms, #[trigger] self.clock.moment_at(reading)),
    {
        let now = self.clock.now();
        self.is_expired_at(timeout_ms, now)
    }

    /// Check if a given prefix matches the pending sequence.
    pub fn matches_prefix(&self, prefix: &InputSource) -> (yes: bool)
        ensures
            yes == (self.pending == Some(*prefix)),
    {
        match self.pending {
            Some(pending) => pending == *prefix,
            None => false,
        }
    }
}

/// A sequence that waits for its second key expires one millisecond after its timeout, to the
/// nanosecond: whole milliseconds are counted.
pub proof fn law_a_sequence_expires_after_its_timeout(
    state: SequenceState,
    timeout_ms: u64,
    now: Moment,
)
    ensures
        state.expired(timeout_ms, now) <==> (state.started_at matches Some(at) && now.nanos
            - at.nanos >= (timeout_ms + 1) * 1_000_000),
{
}

} // verus!
