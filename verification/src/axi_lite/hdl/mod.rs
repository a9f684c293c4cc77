//! Clocked AXI-Lite state machines: one cycle of each module as a function
//! from registered state and sampled inputs to driven outputs and next state.

pub mod bus;
pub mod master;
pub mod slave;
