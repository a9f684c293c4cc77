//! AXI-Lite channel payloads.
//!
//! Each of the five AXI-Lite channels is represented as a struct carrying
//! the channel's payload fields.

use vstd::prelude::*;

use crate::primitives::address::AxiAddress;
use crate::primitives::protection::AxiProt;
use crate::primitives::response::AxiResponse;
use crate::primitives::strobe::WriteStrobe;

verus! {

/// Write address channel payload.
#[derive(Debug, Clone, Copy, PartialEq, Eq, Structural)]
pub struct WriteAddressPayload {
    addr: AxiAddress,
    prot: AxiProt,
}

impl WriteAddressPayload {
    /// The address.
    pub closed spec fn spec_addr(self) -> AxiAddress {
        self.addr
    }

    /// The protection type.
    pub closed spec fn spec_prot(self) -> AxiProt {
        self.prot
    }

    /// Create a new write address payload.
    pub fn new(addr: AxiAddress, prot: AxiProt) -> (r: Self)
        ensures
            r.spec_addr() == addr,
            r.spec_prot() == prot,
    {
        WriteAddressPayload { addr, prot }
    }

    /// The address.
    pub fn addr(&self) -> (r: AxiAddress)
        ensures
            r == self.spec_addr(),
    {
        self.addr
    }

    /// The protection type.
    pub fn prot(&self) -> (r: AxiProt)
        ensures
            r == self.spec_prot(),
    {
        self.prot
    }
}

/// Write data channel payload.
#[derive(Debug, Clone, Copy, PartialEq, Eq, Structural)]
pub struct WriteDataPayload {
    data: u64,
    strobe: WriteStrobe,
}

impl WriteDataPayload {
    /// The data value.
    pub closed spec fn spec_data(self) -> u64 {
        self.data
    }

    /// The write strobe.
    pub closed spec fn spec_strobe(self) -> WriteStrobe {
        self.strobe
    }

    /// Create a new write data payload.
    pub fn new(data: u64, strobe: WriteStrobe) -> (r: Self)
        ensures
            r.spec_data() == data,
            r.spec_strobe() == strobe,
    {
        WriteDataPayload { data, strobe }
    }

    /// The data value (up to 64 bits).
    pub fn data(&self) -> (r: u64)
        ensures
            r == self.spec_data(),
    {
        self.data
    }

    /// The write strobe.
    pub fn strobe(&self) -> (r: WriteStrobe)
        ensures
            r == self.spec_strobe(),
    {
        self.strobe
    }
}

/// Write response channel payload.
#[derive(Debug, Clone, Copy, PartialEq, Eq, Structural)]
pub struct WriteResponsePayload {
    resp: AxiResponse,
}

impl WriteResponsePayload {
    /// The response code.
    pub closed spec fn spec_resp(self) -> AxiResponse {
        self.resp
    }

    /// Create a new write response payload.
    pub fn new(resp: AxiResponse) -> (r: Self)
        ensures
            r.spec_resp() == resp,
    {
        WriteResponsePayload { resp }
    }

    /// The response code.
    pub fn resp(&self) -> (r: AxiResponse)
        ensures
            r == self.spec_resp(),
    {
        self.resp
    }
}

/// Read address channel payload.
#[derive(Debug, Clone, Copy, PartialEq, Eq, Structural)]
pub struct ReadAddressPayload {
    addr: AxiAddress,
    prot: AxiProt,
}

impl ReadAddressPayload {
    /// The address.
    pub closed spec fn spec_addr(self) -> AxiAddress {
        self.addr
    }

    /// The protection type.
    pub closed spec fn spec_prot(self) -> AxiProt {
        self.prot
    }

    /// Create a new read address payload.
    pub fn new(addr: AxiAddress, prot: AxiProt) -> (r: Self)
        ensures
            r.spec_addr() == addr,
            r.spec_prot() == prot,
    {
        ReadAddressPayload { addr, prot }
    }

    /// The address.
    pub fn addr(&self) -> (r: AxiAddress)
        ensures
            r == self.spec_addr(),
    {
        self.addr
    }

    /// The protection type.
    pub fn prot(&self) -> (r: AxiProt)
        ensures
            r == self.spec_prot(),
    {
        self.prot
    }
}

/// Read data channel payload.
#[derive(Debug, Clone, Copy, PartialEq, Eq, Structural)]
pub struct ReadDataPayload {
    data: u64,
    resp: AxiResponse,
}

impl ReadDataPayload {
    /// The data value.
    pub closed spec fn spec_data(self) -> u64 {
        self.data
    }

    /// The response code.
    pub closed spec fn spec_resp(self) -> AxiResponse {
        self.resp
    }

    /// Create a new read data payload.
    pub fn new(data: u64, resp: AxiResponse) -> (r: Self)
        ensures
            r.spec_data() == data,
            r.spec_resp() == resp,
    {
        ReadDataPayload { data, resp }
    }

    /// The data value.
    pub fn data(&self) -> (r: u64)
        ensures
            r == self.spec_data(),
    {
        self.data
    }

    /// The response code.
    pub fn resp(&self) -> (r: AxiResponse)
        ensures
            r == self.spec_resp(),
    {
        self.resp
    }
}

} // verus!
