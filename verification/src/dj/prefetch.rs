//! Fetching stored objects ahead: when to dial, when to dial again, when to give up.

use vstd::prelude::*;
use crate::time::Moment;

verus! {

/// A gain in decibels, held as the bit pattern of a double-precision number.
#[derive(Debug, Clone, Copy, PartialEq, Eq, Structural)]
pub struct Gain {
    pub bits: u64,
}

/// What a fetched object is for.
#[derive(Debug, Clone, Copy, PartialEq, Eq, Structural)]
pub enum PrefetchKind {
    /// A sound: the object is the sample. `stamped` is whether the cue said when it was emitted.
    Audio { deadline: Moment, stamped: bool },
    /// A clip record: its media is fetched next.
    ClipRecord { deadline: Moment, stamped: bool },
    /// A clip's media, with the record's trim (in nanoseconds) and gain.
    ClipMedia {
        deadline: Moment,
        stamped: bool,
        src_offset: Option<u128>,
        src_len: Option<u128>,
        gain: Gain,
    },
    /// Nothing plays: the fetch itself warms the cache.
    Warm { started: Moment },
}

/// A fetched object, or why it could not be fetched.
#[derive(Debug)]
pub struct PrefetchOutcome {
    pub mime: String,
    pub hash: String,
    pub kind: PrefetchKind,
    pub result: Result<Vec<u8>, String>,
}

/// How long (in nanoseconds) a fetch may be silent before its transport counts as dead.
pub const FETCH_TIMEOUT: u64 = 10_000_000_000;

/// How one attempt to fetch ended.
#[derive(Debug, Clone, Copy, PartialEq, Eq, Structural)]
pub enum FetchAttempt {
    /// The object came.
    Resolved,
    /// The transport failed.
    TransportError,
    /// Nothing came within [`FETCH_TIMEOUT`].
    TimedOut,
    /// The object is missing or wrong; the transport is healthy.
    ObjectError,
}

/// What to do after an attempt.
#[derive(Debug, Clone, Copy, PartialEq, Eq, Structural)]
pub enum FetchStep {
    /// Hand the object over.
    Deliver,
    /// Drop the connection, and try once more.
    Redial,
    /// Drop the connection, and report the error.
    GiveUpAndReset,
    /// Keep the connection, and report the error.
    GiveUp,
}

/// What to do after an attempt: a dead transport is dialed again once.
pub open spec fn step_after(attempt: FetchAttempt, redialed: bool) -> FetchStep {
    match attempt {
        FetchAttempt::Resolved => FetchStep::Deliver,
        FetchAttempt::ObjectError => FetchStep::GiveUp,
        _ => if redialed {
            FetchStep::GiveUpAndReset
        } else {
            FetchStep::Redial
        },
    }
}

/// What to do after an attempt: a dead transport is dialed again once.
pub fn next_fetch_step(attempt: FetchAttempt, redialed: bool) -> (step: FetchStep)
    ensures
        step == step_after(attempt, redialed),
{
    match attempt {
        FetchAttempt::Resolved => FetchStep::Deliver,
        FetchAttempt::ObjectError => FetchStep::GiveUp,
        FetchAttempt::TransportError | FetchAttempt::TimedOut => if redialed {
            FetchStep::GiveUpAndReset
        } else {
            FetchStep::Redial
        },
    }
}

/// The connection slot after the connection `failed` broke: it is cleared only if it still holds
/// that connection, so a fresh one is never lost. Connections are told apart by number.
pub fn reset_slot_if_same(slot: Option<u64>, failed: u64) -> (after: Option<u64>)
    ensures
        after == (if slot == Some(failed) {
            None
        } else {
            slot
        }),
{
    match slot {
        Some(current) => if current == failed {
            None
        } else {
            slot
        },
        None => None,
    }
}

/// A fetch makes at most two attempts: after a redial, whatever happens ends it.
pub proof fn law_at_most_one_redial(attempt: FetchAttempt)
    ensures
        step_after(attempt, true) != FetchStep::Redial,
{
}

/// The connection is dropped exactly where the transport is to blame, a timeout included.
pub proof fn law_only_a_dead_transport_is_dropped(attempt: FetchAttempt, redialed: bool)
    ensures
        (step_after(attempt, redialed) == FetchStep::Redial || step_after(attempt, redialed)
            == FetchStep::GiveUpAndReset) <==> (attempt == FetchAttempt::TransportError || attempt
            == FetchAttempt::TimedOut),
{
}

/// An object that came is delivered and one that is missing is given up, with the connection
/// kept; a dead transport is dialed anew once, and given up the second time.
pub proof fn law_each_attempt_has_its_step(redialed: bool)
    ensures
        step_after(FetchAttempt::Resolved, redialed) == FetchStep::Deliver,
        step_after(FetchAttempt::ObjectError, redialed) == FetchStep::GiveUp,
        step_after(FetchAttempt::TransportError, false) == FetchStep::Redial,
        step_after(FetchAttempt::TimedOut, false) == FetchStep::Redial,
        step_after(FetchAttempt::TransportError, true) == FetchStep::GiveUpAndReset,
        step_after(FetchAttempt::TimedOut, true) == FetchStep::GiveUpAndReset,
{
}

} // verus!
