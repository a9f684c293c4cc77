//! Domain primitives of the AXI protocol: addresses, protection bits,
//! response codes and write strobes.

pub mod address;
pub mod protection;
pub mod response;
pub mod strobe;
