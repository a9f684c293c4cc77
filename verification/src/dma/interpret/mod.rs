//! Interpretation of the DMA controller graph into controller states and
//! action descriptors.

pub mod descriptor;
pub mod controller_morphism;
