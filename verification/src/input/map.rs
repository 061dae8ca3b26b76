//! InputMap: the binding table that can be inspected and changed at run time.

use vstd::prelude::*;
use crate::input::binding::Binding;
use crate::input::bindings_config::{BindingsConfigError, LoadedBindings};
use crate::input::defaults;

verus! {

/// The complete input binding configuration.
#[derive(Debug)]
pub struct InputMap {
    /// All active bindings, checked in order (first match wins per context priority).
    pub bindings: Vec<Binding>,
}

impl InputMap {
    /// The map after loading: what was loaded, or the defaults where the file could not be used.
    pub fn from_load(loaded: Result<LoadedBindings, BindingsConfigError>) -> (map: Self)
        ensures
            match loaded {
                Ok(l) => map.bindings@ == l.bindings@,
                Err(_) => defaults::binding_views(map.bindings@) == defaults::default_table(),
            },
    {
        match loaded {
            Ok(l) => InputMap { bindings: l.bindings },
            Err(_) => InputMap { bindings: defaults::default_bindings() },
        }
    }
}

} // verus!
