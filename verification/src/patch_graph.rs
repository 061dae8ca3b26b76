//! The sequencer graph: ports and the wires between them.

use vstd::prelude::*;

verus! {

/// A port of the sequencer graph.
#[derive(Debug)]
pub struct EndpointInfo {
    pub client_id: i32,
    pub port_id: i32,
    pub client_name: String,
    pub port_name: String,
    /// Others may read from it.
    pub is_source: bool,
    /// Others may write to it.
    pub is_sink: bool,
}

/// A wire between two ports, each a client and a port number.
#[derive(Debug, Clone, Copy, PartialEq, Eq)]
pub struct WireInfo {
    pub src: (i32, i32),
    pub dst: (i32, i32),
}

} // verus!
