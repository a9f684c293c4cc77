//! The DMA controller state machine as a free category graph.

pub mod controller_graph;
