//! Keyboard, gamepad and vim input.

pub mod action;
pub mod binding;
pub mod bindings_config;
pub mod compose;
pub mod context;
pub mod defaults;
pub mod dispatch;
pub mod escape;
pub mod events;
pub mod focus;
pub mod interrupt;
pub mod keys;
pub mod map;
pub mod names;
pub mod overlay;
pub mod prefix;
pub mod rhai_config;
pub mod sequence;
pub mod systems;
pub mod tap;
pub mod vim;
