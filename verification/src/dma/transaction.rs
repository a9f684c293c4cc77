//! DMA transfer descriptor.

use vstd::prelude::*;

use crate::dma::register::TransferLength;
use crate::primitives::address::AxiAddress;

verus! {

/// A DMA transfer descriptor: source, destination, and length.
#[derive(Debug, Clone, Copy, PartialEq, Eq, Structural)]
pub struct DmaTransferDescriptor {
    source: AxiAddress,
    destination: AxiAddress,
    length: TransferLength,
}

impl DmaTransferDescriptor {
    /// The source address.
    pub closed spec fn spec_source(self) -> AxiAddress {
        self.source
    }

    /// The destination address.
    pub closed spec fn spec_destination(self) -> AxiAddress {
        self.destination
    }

    /// The transfer length.
    pub closed spec fn spec_length(self) -> TransferLength {
        self.length
    }

    /// Create a new transfer descriptor.
    pub fn new(source: AxiAddress, destination: AxiAddress, length: TransferLength) -> (r: Self)
        ensures
            r.spec_source() == source,
            r.spec_destination() == destination,
            r.spec_length() == length,
    {
        DmaTransferDescriptor { source, destination, length }
    }

    /// The source address.
    pub fn source(&self) -> (r: AxiAddress)
        ensures
            r == self.spec_source(),
    {
        self.source
    }

    /// The destination address.
    pub fn destination(&self) -> (r: AxiAddress)
        ensures
            r == self.spec_destination(),
    {
        self.destination
    }

    /// The transfer length.
    pub fn length(&self) -> (r: TransferLength)
        ensures
            r == self.spec_length(),
    {
        self.length
    }

    /// Whether this is a zero-length (no-op) transfer.
    pub fn is_noop(&self) -> (r: bool)
        ensures
            r == (self.spec_length()@ == 0),
    {
        self.length.is_zero()
    }
}

} // verus!
