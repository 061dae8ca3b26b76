//! The DJ: beat clock, clicks, MIDI and audio cue decisions.

pub mod audio;
pub mod clock;
pub mod midi;
pub mod prefetch;
pub mod thread;
