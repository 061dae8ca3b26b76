//! Binding types: map input sources to actions in specific contexts.

use vstd::prelude::*;
use crate::input::action::Action;
use crate::input::context::InputContext;
use crate::input::keys::{GamepadButton, HeldKeys, KeyCode};
use crate::input::keys;

verus! {

/// What physical input triggers a binding.
#[derive(Clone, Copy, Debug, PartialEq, Eq, Structural)]
pub enum InputSource {
    /// A keyboard key.
    Key(KeyCode),
    /// A gamepad button.
    GamepadButton(GamepadButton),
}

/// Modifier key state required for a binding to match.
#[derive(Clone, Copy, Debug, PartialEq, Eq, Structural)]
pub struct Modifiers {
    pub ctrl: bool,
    pub shift: bool,
    pub alt: bool,
    pub super_key: bool,
}

impl Modifiers {
    /// No modifier.
    #[verifier::allow_in_spec]
    pub fn none() -> Self
        returns
            (Modifiers { ctrl: false, shift: false, alt: false, super_key: false }),
    {
        Modifiers { ctrl: false, shift: false, alt: false, super_key: false }
    }

    /// Control alone.
    #[verifier::allow_in_spec]
    pub fn ctrl() -> Self
        returns
            (Modifiers { ctrl: true, shift: false, alt: false, super_key: false }),
    {
        Modifiers { ctrl: true, shift: false, alt: false, super_key: false }
    }

    /// Shift alone.
    #[verifier::allow_in_spec]
    pub fn shift() -> Self
        returns
            (Modifiers { ctrl: false, shift: true, alt: false, super_key: false }),
    {
        Modifiers { ctrl: false, shift: true, alt: false, super_key: false }
    }

    /// Alt alone.
    #[verifier::allow_in_spec]
    pub fn alt() -> Self
        returns
            (Modifiers { ctrl: false, shift: false, alt: true, super_key: false }),
    {
        Modifiers { ctrl: false, shift: false, alt: true, super_key: false }
    }

    /// Control and Shift.
    #[verifier::allow_in_spec]
    pub fn ctrl_shift() -> Self
        returns
            (Modifiers { ctrl: true, shift: true, alt: false, super_key: false }),
    {
        Modifiers { ctrl: true, shift: true, alt: false, super_key: false }
    }

    /// These are exactly the modifiers that are held.
    pub open spec fn are_held(&self, held: Set<KeyCode>) -> bool {
        &&& self.ctrl == keys::ctrl_held(held)
        &&& self.shift == keys::shift_held(held)
        &&& self.alt == keys::alt_held(held)
        &&& self.super_key == keys::super_held(held)
    }

    /// Check if the currently-held keys match these modifiers.
    pub fn matches(&self, keys: &HeldKeys) -> (held: bool)
        ensures
            held == self.are_held(keys@),
    {
        self.ctrl == keys.ctrl() && self.shift == keys.shift() && self.alt == keys.alt()
            && self.super_key == keys.super_key()
    }
}

impl Default for Modifiers {
    fn default() -> (modifiers: Self)
        ensures
            modifiers == Modifiers::none(),
    {
        Modifiers::none()
    }
}

/// A single input binding: source + modifiers + context to action.
#[derive(Debug)]
pub struct Binding {
    /// What input triggers this binding.
    pub source: InputSource,
    /// Required modifier keys.
    pub modifiers: Modifiers,
    /// When this binding is active.
    pub context: InputContext,
    /// What action it fires.
    pub action: Action,
    /// Human-readable description.
    pub description: String,
    /// For multi-key sequences: the prefix key that must be pending.
    /// `None` is a direct binding.
    pub sequence_prefix: Option<InputSource>,
}

/// A binding as mathematical values.
#[verifier::ext_equal]
pub struct BindingView {
    pub source: InputSource,
    pub modifiers: Modifiers,
    pub context: InputContext,
    pub action: Action,
    pub description: Seq<char>,
    pub sequence_prefix: Option<InputSource>,
}

impl Binding {
    /// The binding as mathematical values.
    pub open spec fn view(&self) -> BindingView {
        BindingView {
            source: self.source,
            modifiers: self.modifiers,
            context: self.context,
            action: self.action,
            description: self.description@,
            sequence_prefix: self.sequence_prefix,
        }
    }

    /// Create a simple key binding with no modifiers or sequence.
    pub fn key(key: KeyCode, context: InputContext, action: Action, desc: &str) -> (b: Self)
        ensures
            b@ == (BindingView {
                source: InputSource::Key(key),
                modifiers: Modifiers::none(),
                context,
                action,
                description: desc@,
                sequence_prefix: None,
            }),
    {
        Binding::key_mod(key, Modifiers::none(), context, action, desc)
    }

    /// Create a binding with modifiers.
    pub fn key_mod(
        key: KeyCode,
        modifiers: Modifiers,
        context: InputContext,
        action: Action,
        desc: &str,
    ) -> (b: Self)
        ensures
            b@ == (BindingView {
                source: InputSource::Key(key),
                modifiers,
                context,
                action,
                description: desc@,
                sequence_prefix: None,
            }),
    {
        Binding {
            source: InputSource::Key(key),
            modifiers,
            context,
            action,
            description: desc.to_owned(),
            sequence_prefix: None,
        }
    }

    /// Create a sequence binding (e.g. g then t).
    pub fn key_seq(
        prefix: KeyCode,
        key: KeyCode,
        context: InputContext,
        action: Action,
        desc: &str,
    ) -> (b: Self)
        ensures
            b@ == (BindingView {
                source: InputSource::Key(key),
                modifiers: Modifiers::none(),
                context,
                action,
                description: desc@,
                sequence_prefix: Some(InputSource::Key(prefix)),
            }),
    {
        Binding::key_seq_mod(prefix, key, Modifiers::none(), context, action, desc)
    }

    /// Create a sequence binding with modifiers on the second key.
    pub fn key_seq_mod(
        prefix: KeyCode,
        key: KeyCode,
        modifiers: Modifiers,
        context: InputContext,
        action: Action,
        desc: &str,
    ) -> (b: Self)
        ensures
            b@ == (BindingView {
                source: InputSource::Key(key),
                modifiers,
                context,
                action,
                description: desc@,
                sequence_prefix: Some(InputSource::Key(prefix)),
            }),
    {
        Binding {
            source: InputSource::Key(key),
            modifiers,
            context,
            action,
            description: desc.to_owned(),
            sequence_prefix: Some(InputSource::Key(prefix)),
        }
    }

    /// Create a gamepad button binding.
    pub fn gamepad(
        button: GamepadButton,
        context: InputContext,
        action: Action,
        desc: &str,
    ) -> (b: Self)
        ensures
            b@ == (BindingView {
                source: InputSource::GamepadButton(button),
                modifiers: Modifiers::none(),
                context,
                action,
                description: desc@,
                sequence_prefix: None,
            }),
    {
        Binding {
            source: InputSource::GamepadButton(button),
            modifiers: Modifiers::none(),
            context,
            action,
            description: desc.to_owned(),
            sequence_prefix: None,
        }
    }
}

} // verus!
