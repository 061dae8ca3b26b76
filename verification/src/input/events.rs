//! Input messages: the output of the dispatcher.

use vstd::prelude::*;
use crate::input::action::Action;
use crate::input::context::InputContext;

verus! {

/// A resolved action from the input dispatcher.
///
/// `context` is the binding context that matched when the action fired. Consumers filter on
/// it: an Escape fired under one screen must not pop the next.
#[derive(Clone, Copy, Debug, PartialEq, Eq, Structural)]
pub struct ActionFired {
    pub action: Action,
    pub context: InputContext,
}

impl ActionFired {
    pub fn new(action: Action, context: InputContext) -> (fired: Self)
        ensures
            fired.action == action,
            fired.context == context,
    {
        ActionFired { action, context }
    }
}

/// Raw text to insert into the focused text field.
#[derive(Debug)]
pub struct TextInputReceived {
    pub text: String,
}

} // verus!
