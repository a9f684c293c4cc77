//! Bus composition via monoidal category structure.
//!
//! - [`axi_channel_tensor`]: tensor product for independent AXI-Lite writes.
//! - [`dma_pipeline`]: DMA configuration over AXI-Lite, then the transfer.

pub mod axi_channel_tensor;

pub mod dma_pipeline;
