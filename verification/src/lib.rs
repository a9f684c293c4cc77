//! AXI4-Lite bus bridge and DMA engine models with verified protocol state
//! machines.

pub mod action;
pub mod axi_lite;
pub mod composition;
pub mod dma;
pub mod error;
pub mod path;
pub mod primitives;
pub mod text;
