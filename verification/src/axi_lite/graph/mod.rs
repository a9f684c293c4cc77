//! The AXI-Lite handshaking state machines as free category graphs.

pub mod write_graph;
pub mod read_graph;
