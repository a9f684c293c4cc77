//! Project-wide error type.

use vstd::prelude::*;

use crate::path::{graph_error_text, GraphError};
use crate::text::{digits, push_digits};

verus! {

/// Unified error type for all operations in this crate.
#[derive(Debug)]
pub enum Error {
    /// AXI-Lite protocol error.
    AxiLite(String),
    /// DMA engine error.
    Dma(String),
    /// Free category graph error.
    Graph(GraphError),
    /// HDL simulation error.
    Simulation(String),
    /// Invalid AXI address.
    InvalidAddress { addr: u32 },
    /// Invalid AXI response code.
    InvalidResponse { code: u8 },
    /// DMA transfer error.
    TransferError { source: u32, dest: u32 },
}

/// How an error is written.
pub open spec fn error_text(e: Error) -> Seq<char> {
    match e {
        Error::AxiLite(msg) => "AXI-Lite error: "@ + msg@,
        Error::Dma(msg) => "DMA error: "@ + msg@,
        Error::Graph(g) => "graph error: "@ + graph_error_text(g),
        Error::Simulation(msg) => "simulation error: "@ + msg@,
        Error::InvalidAddress { addr } => "invalid address: 0x"@ + digits(addr as nat, 16, 8),
        Error::InvalidResponse { code } => "invalid response code: 0x"@ + digits(code as nat, 16, 2),
        Error::TransferError { source, dest } => "transfer error: src=0x"@ + digits(
            source as nat,
            16,
            8,
        ) + " dst=0x"@ + digits(dest as nat, 16, 8),
    }
}

impl Error {
    /// The error as text, as in `invalid address: 0xffffffff`.
    pub fn to_string(&self) -> (r: String)
        ensures
            r@ == error_text(*self),
    {
        let mut s = String::new();
        match self {
            Error::AxiLite(msg) => {
                s.append("AXI-Lite error: ");
                s.append(msg.as_str());
            },
            Error::Dma(msg) => {
                s.append("DMA error: ");
                s.append(msg.as_str());
            },
            Error::Graph(g) => {
                s.append("graph error: ");
                let t = g.to_string();
                s.append(t.as_str());
            },
            Error::Simulation(msg) => {
                s.append("simulation error: ");
                s.append(msg.as_str());
            },
            Error::InvalidAddress { addr } => {
                s.append("invalid address: 0x");
                push_digits(&mut s, *addr as u64, 16, 8);
            },
            Error::InvalidResponse { code } => {
                s.append("invalid response code: 0x");
                push_digits(&mut s, *code as u64, 16, 2);
            },
            Error::TransferError { source, dest } => {
                s.append("transfer error: src=0x");
                push_digits(&mut s, *source as u64, 16, 8);
                s.append(" dst=0x");
                push_digits(&mut s, *dest as u64, 16, 8);
            },
        }
        proof {
            assert(s@ =~= error_text(*self));
        }
        s
    }
}

impl From<GraphError> for Error {
    fn from(e: GraphError) -> (r: Self) {
        Error::Graph(e)
    }
}

impl vstd::std_specs::convert::FromSpecImpl<GraphError> for Error {
    open spec fn obeys_from_spec() -> bool {
        true
    }

    open spec fn from_spec(e: GraphError) -> Error {
        Error::Graph(e)
    }
}

} // verus!
