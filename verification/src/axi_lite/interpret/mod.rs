//! Interpretation of the AXI-Lite handshaking graphs into bus states and
//! action descriptors.

pub mod descriptor;
pub mod write_morphism;
pub mod read_morphism;
