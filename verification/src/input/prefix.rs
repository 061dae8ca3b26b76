//! The Ctrl+A prefix machine.
//!
//! Ctrl+A arms it on any surface; the next pressed key resolves to an action. Unbound keys are
//! swallowed. The pending state times out.

use std::time::Instant;
use vstd::prelude::*;
use crate::input::action::Action;
use crate::input::keys::KeyCode;
use crate::time::{Clock, Moment};
use crate::time;

verus! {

/// How long an armed prefix waits for its second key (milliseconds).
pub const PREFIX_TIMEOUT_MS: u128 = 1000;

/// Pending-prefix state. Armed by Ctrl+A, cleared by the resolving key or the timeout.
#[derive(Debug)]
pub struct PrefixState {
    pub armed_at: Option<Moment>,
    pub clock: Clock,
}

impl Default for PrefixState {
    fn default() -> (state: Self)
        ensures
            state.armed_at is None,
    {
        PrefixState { armed_at: None, clock: Clock::start() }
    }
}

impl PrefixState {
    /// The window of an armed prefix has lapsed by `now`.
    pub open spec fn lapsed(&self, now: Moment) -> bool {
        self.armed_at matches Some(at) && time::millis_between(now, at) >= PREFIX_TIMEOUT_MS
    }

    /// Arm at `now`.
    pub fn arm_at(&mut self, now: Moment)
        ensures
            final(self).armed_at == Some(now),
            final(self).clock == old(self).clock,
    {
        self.armed_at = Some(now);
    }

    /// Arm at the present moment.
    pub fn arm(&mut self)
        ensures
            final(self).armed_at matches Some(now) && old(self).clock.reads(now),
            final(self).clock == old(self).clock,
    {
        let now = self.clock.now();
        self.arm_at(now)
    }

    pub fn disarm(&mut self)
        ensures
            final(self).armed_at is None,
            final(self).clock == old(self).clock,
    {
        self.armed_at = None;
    }

    pub fn armed(&self) -> (armed: bool)
        ensures
            armed == (self.armed_at is Some),
    {
        self.armed_at.is_some()
    }

    /// Disarm if the window has lapsed by `now`; returns whether it just expired.
    pub fn tick_timeout_at(&mut self, now: Moment) -> (expired: bool)
        ensures
            expired == old(self).lapsed(now),
            final(self).clock == old(self).clock,
            final(self).armed_at == (if expired {
                None
            } else {
                old(self).armed_at
            }),
    {
        if let Some(at) = self.armed_at {
            if now.millis_since(at) as u128 >= PREFIX_TIMEOUT_MS {
                self.armed_at = None;
                return true;
            }
        }
        false
    }

    /// Disarm if the window has lapsed; returns whether it just expired.
    pub fn tick_timeout(&mut self) -> (expired: bool)
        ensures
            exists|reading: Instant|
                expired == old(self).lapsed(#[trigger] old(self).clock.moment_at(reading)),
            final(self).armed_at == (if expired {
                None
            } else {
                old(self).armed_at
            }),
            final(self).clock == old(self).clock,
    {
        let now = self.clock.now();
        self.tick_timeout_at(now)
    }
}

/// The modifier keys.
pub open spec fn modifier_key(key: KeyCode) -> bool {
    match key {
        KeyCode::ControlLeft | KeyCode::ControlRight => true,
        KeyCode::ShiftLeft | KeyCode::ShiftRight => true,
        KeyCode::AltLeft | KeyCode::AltRight => true,
        KeyCode::SuperLeft | KeyCode::SuperRight => true,
        _ => false,
    }
}

/// Bare modifier keys neither resolve nor cancel an armed prefix: the user may still be
/// holding Ctrl on the way to the second key.
pub fn is_bare_modifier(key: KeyCode) -> (bare: bool)
    ensures
        bare == modifier_key(key),
{
    match key {
        KeyCode::ControlLeft | KeyCode::ControlRight => true,
        KeyCode::ShiftLeft | KeyCode::ShiftRight => true,
        KeyCode::AltLeft | KeyCode::AltRight => true,
        KeyCode::SuperLeft | KeyCode::SuperRight => true,
        _ => false,
    }
}

/// The number on a digit key.
pub open spec fn digit_of(key: KeyCode) -> Option<usize> {
    match key {
        KeyCode::Digit0 => Some(0),
        KeyCode::Digit1 => Some(1),
        KeyCode::Digit2 => Some(2),
        KeyCode::Digit3 => Some(3),
        KeyCode::Digit4 => Some(4),
        KeyCode::Digit5 => Some(5),
        KeyCode::Digit6 => Some(6),
        KeyCode::Digit7 => Some(7),
        KeyCode::Digit8 => Some(8),
        KeyCode::Digit9 => Some(9),
        _ => None,
    }
}

/// The chord table: what the second key of an armed prefix means. Digits accept Ctrl held or
/// released; on A, Ctrl wins over Shift.
pub open spec fn chord(key: KeyCode, ctrl: bool, shift: bool) -> Option<Action> {
    if digit_of(key) is Some {
        Some(Action::SwitchToActiveSeat(digit_of(key)->0))
    } else {
        match key {
            KeyCode::KeyA => Some(
                if ctrl {
                    Action::SwitchToPreviousContext
                } else if shift {
                    Action::PromptContextRename
                } else {
                    Action::SendLiteralPrefix
                },
            ),
            KeyCode::KeyQ => Some(Action::CloseAndDemoteContext),
            KeyCode::KeyW => Some(Action::GoToWell),
            KeyCode::Quote => Some(
                if shift {
                    Action::GoToWell
                } else {
                    Action::PromptContextSwitch
                },
            ),
            KeyCode::KeyN => Some(Action::ActiveSeatStep(1)),
            KeyCode::KeyP => Some(Action::ActiveSeatStep((-1) as i32)),
            KeyCode::KeyD => Some(Action::DetachToConversation),
            _ => None,
        }
    }
}

/// Resolve the second key of an armed prefix. `None` is unbound.
pub fn resolve_chord(key: KeyCode, ctrl: bool, shift: bool) -> (action: Option<Action>)
    ensures
        action == chord(key, ctrl, shift),
        key == KeyCode::KeyN ==> action == Some(Action::ActiveSeatStep(1)),
        key == KeyCode::KeyP ==> action == Some(Action::ActiveSeatStep((-1) as i32)),
        key == KeyCode::KeyQ ==> action == Some(Action::CloseAndDemoteContext),
        key == KeyCode::KeyD ==> action == Some(Action::DetachToConversation),
        key == KeyCode::KeyW ==> action == Some(Action::GoToWell),
        key == KeyCode::KeyA && ctrl ==> action == Some(Action::SwitchToPreviousContext),
        key == KeyCode::KeyA && !ctrl && shift ==> action == Some(Action::PromptContextRename),
        key == KeyCode::KeyA && !ctrl && !shift ==> action == Some(Action::SendLiteralPrefix),
        key == KeyCode::Quote && shift ==> action == Some(Action::GoToWell),
        key == KeyCode::Quote && !shift ==> action == Some(Action::PromptContextSwitch),
        key == KeyCode::Digit0 ==> action == Some(Action::SwitchToActiveSeat(0)),
        key == KeyCode::Digit1 ==> action == Some(Action::SwitchToActiveSeat(1)),
        key == KeyCode::Digit2 ==> action == Some(Action::SwitchToActiveSeat(2)),
        key == KeyCode::Digit3 ==> action == Some(Action::SwitchToActiveSeat(3)),
        key == KeyCode::Digit4 ==> action == Some(Action::SwitchToActiveSeat(4)),
        key == KeyCode::Digit5 ==> action == Some(Action::SwitchToActiveSeat(5)),
        key == KeyCode::Digit6 ==> action == Some(Action::SwitchToActiveSeat(6)),
        key == KeyCode::Digit7 ==> action == Some(Action::SwitchToActiveSeat(7)),
        key == KeyCode::Digit8 ==> action == Some(Action::SwitchToActiveSeat(8)),
        key == KeyCode::Digit9 ==> action == Some(Action::SwitchToActiveSeat(9)),
{
    match key {
        KeyCode::Digit0 => Some(Action::SwitchToActiveSeat(0)),
        KeyCode::Digit1 => Some(Action::SwitchToActiveSeat(1)),
        KeyCode::Digit2 => Some(Action::SwitchToActiveSeat(2)),
        KeyCode::Digit3 => Some(Action::SwitchToActiveSeat(3)),
        KeyCode::Digit4 => Some(Action::SwitchToActiveSeat(4)),
        KeyCode::Digit5 => Some(Action::SwitchToActiveSeat(5)),
        KeyCode::Digit6 => Some(Action::SwitchToActiveSeat(6)),
        KeyCode::Digit7 => Some(Action::SwitchToActiveSeat(7)),
        KeyCode::Digit8 => Some(Action::SwitchToActiveSeat(8)),
        KeyCode::Digit9 => Some(Action::SwitchToActiveSeat(9)),
        KeyCode::KeyA => if ctrl {
            Some(Action::SwitchToPreviousContext)
        } else if shift {
            Some(Action::PromptContextRename)
        } else {
            Some(Action::SendLiteralPrefix)
        },
        KeyCode::KeyQ => Some(Action::CloseAndDemoteContext),
        KeyCode::KeyW => Some(Action::GoToWell),
        KeyCode::Quote => if shift {
            Some(Action::GoToWell)
        } else {
            Some(Action::PromptContextSwitch)
        },
        KeyCode::KeyN => Some(Action::ActiveSeatStep(1)),
        KeyCode::KeyP => Some(Action::ActiveSeatStep(-1)),
        KeyCode::KeyD => Some(Action::DetachToConversation),
        _ => None,
    }
}

/// An armed prefix waits for one second, to the nanosecond: before that it has not lapsed, from
/// then on it has. One that is not armed never lapses.
pub proof fn law_an_armed_prefix_waits_one_second(state: PrefixState, now: Moment)
    ensures
        state.lapsed(now) <==> (state.armed_at matches Some(at) && now.nanos - at.nanos
            >= 1_000_000_000),
{
}

} // verus!
