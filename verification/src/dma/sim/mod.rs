//! Behavioral models of the DMA engine.

pub mod golden;
pub mod runner;
