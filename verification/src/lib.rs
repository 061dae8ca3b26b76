//! The decision logic of a modal, cell-based workspace client: text motions, key
//! dispatch, compose editing, clock following and cue scheduling.

pub mod dashboard;
pub mod dj;
pub mod input;
pub mod layout;
pub mod llm;
pub mod patch_graph;
pub mod strutil;
pub mod textbuf;
pub mod time;
