//! DMA engine domain: register map, transfer descriptors, the controller
//! state machine as a graph and its interpretation, and the memory-copy
//! golden model.

pub mod graph;
pub mod interpret;
pub mod register;
pub mod sim;
pub mod transaction;
