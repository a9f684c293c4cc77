//! The AXI-Lite golden model: a register file.
//!
//! Writes inside the address window store data at the offset from the base,
//! reads return it.  Unwritten offsets read zero; addresses outside the
//! window answer DECERR and change nothing.

use vstd::prelude::*;

use std::collections::BTreeMap;

use crate::axi_lite::transaction::{
    AxiLiteReadRequest, AxiLiteReadResult, AxiLiteWriteRequest, AxiLiteWriteResult,
};
use crate::primitives::address::AxiAddress;
use crate::primitives::response::AxiResponse;

verus! {

/// The mathematical model of a register file: stored values by offset, and
/// the address window `[base, base + size)`, whose end saturates at the top
/// of the address space.
pub struct RegisterFileModel {
    pub regs: Map<u32, u64>,
    pub base: u32,
    pub size: u32,
}

impl RegisterFileModel {
    /// The exclusive end of the window, saturated at `u32::MAX`.
    pub open spec fn end(self) -> int {
        if self.base + self.size > u32::MAX {
            u32::MAX as int
        } else {
            self.base + self.size
        }
    }

    /// Whether an address falls in the window.
    pub open spec fn in_range(self, addr: u32) -> bool {
        self.base <= addr && addr < self.end()
    }

    /// The offset of an address from the base.
    pub open spec fn offset_of(self, addr: u32) -> u32 {
        (addr - self.base) as u32
    }

    /// The value stored at an offset; unwritten offsets hold zero.
    pub open spec fn value_at(self, offset: u32) -> u64 {
        if self.regs.contains_key(offset) {
            self.regs[offset]
        } else {
            0
        }
    }

    /// A write: inside the window it stores `data` and answers OKAY, outside
    /// it changes nothing and answers DECERR.
    pub open spec fn write(self, addr: u32, data: u64) -> (RegisterFileModel, AxiResponse) {
        if self.in_range(addr) {
            (
                RegisterFileModel {
                    regs: self.regs.insert(self.offset_of(addr), data),
                    base: self.base,
                    size: self.size,
                },
                AxiResponse::Okay,
            )
        } else {
            (self, AxiResponse::DecErr)
        }
    }

    /// A read: inside the window the stored value with OKAY, outside it zero
    /// with DECERR.
    pub open spec fn read(self, addr: u32) -> (u64, AxiResponse) {
        if self.in_range(addr) {
            (self.value_at(self.offset_of(addr)), AxiResponse::Okay)
        } else {
            (0, AxiResponse::DecErr)
        }
    }
}

/// A register file mapping offsets from its base address to 64-bit values.
#[derive(Debug, Clone)]
pub struct RegisterFile {
    regs: BTreeMap<u32, u64>,
    base: AxiAddress,
    size: u32,
}

impl View for RegisterFile {
    type V = RegisterFileModel;

    closed spec fn view(&self) -> RegisterFileModel {
        RegisterFileModel { regs: self.regs@, base: self.base@, size: self.size }
    }
}

impl RegisterFile {
    /// An empty register file with a 4 KB window at base 0.
    pub fn new() -> (r: Self)
        ensures
            r@ == (RegisterFileModel { regs: Map::empty(), base: 0, size: 4096 }),
    {
        RegisterFile { regs: BTreeMap::new(), base: AxiAddress::zero(), size: 4096 }
    }

    /// An empty register file with the window `[base, base + size)`.
    pub fn with_range(base: AxiAddress, size: u32) -> (r: Self)
        ensures
            r@ == (RegisterFileModel { regs: Map::empty(), base: base@, size }),
    {
        RegisterFile { regs: BTreeMap::new(), base, size }
    }

    /// Process a write request, returning the updated register file and the
    /// write result.
    pub fn write(self, req: AxiLiteWriteRequest) -> (r: (Self, AxiLiteWriteResult))
        ensures
            (r.0@, r.1.spec_resp()) == self@.write(req.spec_addr()@, req.spec_data()),
    {
        let addr = req.addr().value();
        let base = self.base.value();
        if addr < base || addr >= base.saturating_add(self.size) {
            (self, AxiLiteWriteResult::new(AxiResponse::DecErr))
        } else {
            let offset = addr.wrapping_sub(base);
            let mut regs = self.regs;
            regs.insert(offset, req.data());
            (
                RegisterFile { regs, base: self.base, size: self.size },
                AxiLiteWriteResult::new(AxiResponse::Okay),
            )
        }
    }

    /// Process a read request, returning the register file, unchanged, and
    /// the read result.
    pub fn read(&self, req: AxiLiteReadRequest) -> (r: (Self, AxiLiteReadResult))
        ensures
            r.0@ == self@,
            (r.1.spec_data(), r.1.spec_resp()) == self@.read(req.spec_addr()@),
    {
        let addr = req.addr().value();
        let base = self.base.value();
        let copy = RegisterFile { regs: self.regs.clone(), base: self.base, size: self.size };
        if addr < base || addr >= base.saturating_add(self.size) {
            (copy, AxiLiteReadResult::new(0, AxiResponse::DecErr))
        } else {
            let offset = addr.wrapping_sub(base);
            let data = match self.regs.get(&offset) {
                Some(v) => *v,
                None => 0,
            };
            (copy, AxiLiteReadResult::new(data, AxiResponse::Okay))
        }
    }

    /// The value at an offset from the base; unwritten offsets hold zero.
    pub fn get(&self, offset: u32) -> (r: u64)
        ensures
            r == self@.value_at(offset),
    {
        match self.regs.get(&offset) {
            Some(v) => *v,
            None => 0,
        }
    }
}

impl Default for RegisterFile {
    fn default() -> (r: Self)
        ensures
            r@ == (RegisterFileModel { regs: Map::empty(), base: 0, size: 4096 }),
    {
        RegisterFile::new()
    }
}

/// What a read gives back of a write: after a write at `a`, a read at `b`
/// returns the written data if `a` was in the window and `b == a`, and
/// otherwise exactly what it returned before the write.
pub proof fn lemma_read_after_write(m: RegisterFileModel, a: u32, data: u64, b: u32)
    ensures
        m.write(a, data).0.read(b) == (if m.in_range(a) && a == b {
            (data, AxiResponse::Okay)
        } else {
            m.read(b)
        }),
{
    let m1 = m.write(a, data).0;
    if m.in_range(a) && m.in_range(b) && a != b {
        assert(m.offset_of(a) != m.offset_of(b));
    }
}

/// Writes never move the address window.
pub proof fn lemma_write_keeps_window(m: RegisterFileModel, a: u32, data: u64)
    ensures
        m.write(a, data).0.base == m.base,
        m.write(a, data).0.size == m.size,
{
}

/// Writes at different addresses commute: their order does not matter to
/// the resulting register file.
pub proof fn lemma_writes_commute(m: RegisterFileModel, a: u32, da: u64, b: u32, db: u64)
    requires
        a != b,
    ensures
        m.write(a, da).0.write(b, db).0 == m.write(b, db).0.write(a, da).0,
{
    if m.in_range(a) && m.in_range(b) {
        assert(m.offset_of(a) != m.offset_of(b));
        assert(m.write(a, da).0.write(b, db).0.regs =~= m.write(b, db).0.write(a, da).0.regs);
    }
}

/// A second write at the same address replaces the first.
pub proof fn lemma_overwrite(m: RegisterFileModel, a: u32, d1: u64, d2: u64)
    ensures
        m.write(a, d1).0.write(a, d2).0 == m.write(a, d2).0,
{
    if m.in_range(a) {
        assert(m.write(a, d1).0.write(a, d2).0.regs =~= m.write(a, d2).0.regs);
    }
}

/// A fresh register file reads zero with OKAY everywhere in its window.
pub proof fn lemma_fresh_reads_zero(base: u32, size: u32, a: u32)
    ensures
        ({
            let m = RegisterFileModel { regs: Map::empty(), base, size };
            m.in_range(a) ==> m.read(a) == (0u64, AxiResponse::Okay)
        }),
{
}

} // verus!
