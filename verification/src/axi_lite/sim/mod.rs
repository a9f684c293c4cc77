//! Behavioral models of the AXI-Lite bus.

pub mod golden;
pub mod runner;
