//! AXI-Lite transaction and result types.

use vstd::prelude::*;

use crate::primitives::address::AxiAddress;
use crate::primitives::protection::AxiProt;
use crate::primitives::response::AxiResponse;
use crate::primitives::strobe::WriteStrobe;

verus! {

/// An AXI-Lite write transaction request.
#[derive(Debug, Clone, Copy, PartialEq, Eq, Structural)]
pub struct AxiLiteWriteRequest {
    addr: AxiAddress,
    data: u64,
    strobe: WriteStrobe,
    prot: AxiProt,
}

impl AxiLiteWriteRequest {
    /// The target address.
    pub closed spec fn spec_addr(self) -> AxiAddress {
        self.addr
    }

    /// The data value.
    pub closed spec fn spec_data(self) -> u64 {
        self.data
    }

    /// The write strobe.
    pub closed spec fn spec_strobe(self) -> WriteStrobe {
        self.strobe
    }

    /// The protection type.
    pub closed spec fn spec_prot(self) -> AxiProt {
        self.prot
    }

    /// Create a new write request.
    pub fn new(addr: AxiAddress, data: u64, strobe: WriteStrobe, prot: AxiProt) -> (r: Self)
        ensures
            r.spec_addr() == addr,
            r.spec_data() == data,
            r.spec_strobe() == strobe,
            r.spec_prot() == prot,
    {
        AxiLiteWriteRequest { addr, data, strobe, prot }
    }

    /// A 32-bit write on all four byte lanes with default protection.
    pub fn write32(addr: AxiAddress, data: u32) -> (r: Self)
        ensures
            r.spec_addr() == addr,
            r.spec_data() == data as u64,
            r.spec_strobe()@ == 0x0F,
            r.spec_prot()@ == 0,
    {
        AxiLiteWriteRequest {
            addr,
            data: data as u64,
            strobe: WriteStrobe::all_32(),
            prot: AxiProt::default_prot(),
        }
    }

    /// The target address.
    pub fn addr(&self) -> (r: AxiAddress)
        ensures
            r == self.spec_addr(),
    {
        self.addr
    }

    /// The data value.
    pub fn data(&self) -> (r: u64)
        ensures
            r == self.spec_data(),
    {
        self.data
    }

    /// The write strobe.
    pub fn strobe(&self) -> (r: WriteStrobe)
        ensures
            r == self.spec_strobe(),
    {
        self.strobe
    }

    /// The protection type.
    pub fn prot(&self) -> (r: AxiProt)
        ensures
            r == self.spec_prot(),
    {
        self.prot
    }
}

/// An AXI-Lite write transaction result.
#[derive(Debug, Clone, Copy, PartialEq, Eq, Structural)]
pub struct AxiLiteWriteResult {
    resp: AxiResponse,
}

impl AxiLiteWriteResult {
    /// The response code.
    pub closed spec fn spec_resp(self) -> AxiResponse {
        self.resp
    }

    /// Create a new write result.
    pub fn new(resp: AxiResponse) -> (r: Self)
        ensures
            r.spec_resp() == resp,
    {
        AxiLiteWriteResult { resp }
    }

    /// The response code.
    pub fn resp(&self) -> (r: AxiResponse)
        ensures
            r == self.spec_resp(),
    {
        self.resp
    }
}

/// An AXI-Lite read transaction request.
#[derive(Debug, Clone, Copy, PartialEq, Eq, Structural)]
pub struct AxiLiteReadRequest {
    addr: AxiAddress,
    prot: AxiProt,
}

impl AxiLiteReadRequest {
    /// The target address.
    pub closed spec fn spec_addr(self) -> AxiAddress {
        self.addr
    }

    /// The protection type.
    pub closed spec fn spec_prot(self) -> AxiProt {
        self.prot
    }

    /// Create a new read request.
    pub fn new(addr: AxiAddress, prot: AxiProt) -> (r: Self)
        ensures
            r.spec_addr() == addr,
            r.spec_prot() == prot,
    {
        AxiLiteReadRequest { addr, prot }
    }

    /// A read with default protection.
    pub fn read(addr: AxiAddress) -> (r: Self)
        ensures
            r.spec_addr() == addr,
            r.spec_prot()@ == 0,
    {
        AxiLiteReadRequest { addr, prot: AxiProt::default_prot() }
    }

    /// The target address.
    pub fn addr(&self) -> (r: AxiAddress)
        ensures
            r == self.spec_addr(),
    {
        self.addr
    }

    /// The protection type.
    pub fn prot(&self) -> (r: AxiProt)
        ensures
            r == self.spec_prot(),
    {
        self.prot
    }
}

/// An AXI-Lite read transaction result.
#[derive(Debug, Clone, Copy, PartialEq, Eq, Structural)]
pub struct AxiLiteReadResult {
    data: u64,
    resp: AxiResponse,
}

impl AxiLiteReadResult {
    /// The data value.
    pub closed spec fn spec_data(self) -> u64 {
        self.data
    }

    /// The response code.
    pub closed spec fn spec_resp(self) -> AxiResponse {
        self.resp
    }

    /// Create a new read result.
    pub fn new(data: u64, resp: AxiResponse) -> (r: Self)
        ensures
            r.spec_data() == data,
            r.spec_resp() == resp,
    {
        AxiLiteReadResult { data, resp }
    }

    /// The data value.
    pub fn data(&self) -> (r: u64)
        ensures
            r == self.spec_data(),
    {
        self.data
    }

    /// The response code.
    pub fn resp(&self) -> (r: AxiResponse)
        ensures
            r == self.spec_resp(),
    {
        self.resp
    }
}

} // verus!
