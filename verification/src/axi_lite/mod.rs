//! AXI4-Lite bus protocol domain: channel payloads, transactions, the
//! handshaking state machines as graphs and their interpretation, the
//! clocked master and slave, and the register-file golden model.

pub mod channel;
pub mod graph;
pub mod hdl;
pub mod interpret;
pub mod sim;
pub mod transaction;
