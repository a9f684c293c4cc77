//! The DMA golden model: transfers as memory copies.
//!
//! Memory is byte-addressable with 32-bit addresses that wrap around; bytes
//! never written read as zero.

use vstd::prelude::*;

use std::collections::BTreeMap;

use crate::dma::register::DmaStatus;
use crate::dma::transaction::DmaTransferDescriptor;
use crate::primitives::address::AxiAddress;

verus! {

/// The byte at an address; unwritten bytes are zero.
pub open spec fn byte_at(m: Map<u32, u8>, addr: u32) -> u8 {
    if m.contains_key(addr) {
        m[addr]
    } else {
        0
    }
}

/// `base + off` modulo 2^32.
pub open spec fn wrap_add(base: u32, off: u32) -> u32 {
    if base + off > u32::MAX {
        (base + off - 0x1_0000_0000) as u32
    } else {
        (base + off) as u32
    }
}

/// The distance from `base` up to `addr`, modulo 2^32.
pub open spec fn wrap_offset(addr: u32, base: u32) -> int {
    if addr >= base {
        addr - base
    } else {
        addr - base + 0x1_0000_0000
    }
}

/// The address at which a block starting at `base` keeps its byte number
/// `i`: `base + i` modulo 2^32, where indices that do not fit in 32 bits
/// count as 0.
pub open spec fn block_addr(base: u32, i: int) -> u32 {
    wrap_add(base, if 0 <= i <= u32::MAX { i as u32 } else { 0 })
}

/// Memory after writing `bytes` at `base`, byte by byte in order.
pub open spec fn write_bytes(m: Map<u32, u8>, base: u32, bytes: Seq<u8>) -> Map<u32, u8>
    decreases bytes.len(),
{
    if bytes.len() == 0 {
        m
    } else {
        write_bytes(m, base, bytes.drop_last()).insert(
            block_addr(base, bytes.len() - 1),
            bytes.last(),
        )
    }
}

/// The `len` bytes starting at `base`.
pub open spec fn read_bytes(m: Map<u32, u8>, base: u32, len: nat) -> Seq<u8> {
    Seq::new(len, |i: int| byte_at(m, block_addr(base, i)))
}

/// Memory after copying `len` bytes from `source` to `dest`: the source
/// block is read whole, then written.
pub open spec fn copy_bytes(m: Map<u32, u8>, source: u32, dest: u32, len: u32) -> Map<u32, u8> {
    write_bytes(m, dest, read_bytes(m, source, len as nat))
}

/// Writing a block that fits in the address space leaves byte `k` of the
/// block at `base + k` and every other byte unchanged.
pub proof fn lemma_write_bytes_pointwise(m: Map<u32, u8>, base: u32, bytes: Seq<u8>, a: u32)
    requires
        bytes.len() <= 0x1_0000_0000,
    ensures
        byte_at(write_bytes(m, base, bytes), a) == (if wrap_offset(a, base) < bytes.len() {
            bytes[wrap_offset(a, base)]
        } else {
            byte_at(m, a)
        }),
    decreases bytes.len(),
{
    if bytes.len() > 0 {
        let n = bytes.len() - 1;
        lemma_write_bytes_pointwise(m, base, bytes.drop_last(), a);
        if a != block_addr(base, n) {
            assert(wrap_offset(a, base) != n);
        }
    }
}

/// Result of a DMA transfer simulation.
#[derive(Debug, Clone, PartialEq, Eq, Structural)]
pub struct DmaSimResult {
    status: DmaStatus,
    bytes_transferred: u32,
}

impl DmaSimResult {
    /// The final DMA status.
    pub closed spec fn spec_status(self) -> DmaStatus {
        self.status
    }

    /// Number of bytes transferred.
    pub closed spec fn spec_bytes_transferred(self) -> u32 {
        self.bytes_transferred
    }

    /// The final DMA status.
    pub fn status(&self) -> (r: DmaStatus)
        ensures
            r == self.spec_status(),
    {
        self.status
    }

    /// Number of bytes transferred.
    pub fn bytes_transferred(&self) -> (r: u32)
        ensures
            r == self.spec_bytes_transferred(),
    {
        self.bytes_transferred
    }
}

/// Two transfer results with the same status and byte count are equal.
pub proof fn lemma_sim_result_ext(a: DmaSimResult, b: DmaSimResult)
    requires
        a.spec_status() == b.spec_status(),
        a.spec_bytes_transferred() == b.spec_bytes_transferred(),
    ensures
        a == b,
{
}

/// A byte-addressable memory.
#[derive(Debug, Clone)]
pub struct MemoryModel {
    data: BTreeMap<u32, u8>,
}

impl View for MemoryModel {
    type V = Map<u32, u8>;

    closed spec fn view(&self) -> Map<u32, u8> {
        self.data@
    }
}

impl MemoryModel {
    /// An empty memory: every byte reads zero.
    pub fn new() -> (r: Self)
        ensures
            r@ == Map::<u32, u8>::empty(),
    {
        MemoryModel { data: BTreeMap::new() }
    }

    /// This memory with `bytes` written from `base` upward.
    pub fn write_block(self, base: AxiAddress, bytes: &[u8]) -> (r: Self)
        ensures
            r@ == write_bytes(self@, base@, bytes@),
    {
        let mut data = self.data;
        let n = bytes.len();
        for i in 0..n
            invariant
                n == bytes@.len(),
                data@ == write_bytes(self@, base@, bytes@.take(i as int)),
        {
            proof {
                assert(bytes@.take(i + 1).drop_last() =~= bytes@.take(i as int));
            }
            let off: u32 = if i <= 0xFFFF_FFFFusize {
                i as u32
            } else {
                0
            };
            let addr = base.value().wrapping_add(off);
            data.insert(addr, bytes[i]);
        }
        proof {
            assert(bytes@.take(n as int) =~= bytes@);
        }
        MemoryModel { data }
    }

    /// The `length` bytes from `base` upward.
    pub fn read_block(&self, base: AxiAddress, length: u32) -> (r: Vec<u8>)
        ensures
            r@ == read_bytes(self@, base@, length as nat),
    {
        let mut out: Vec<u8> = Vec::new();
        for i in 0..length
            invariant
                out@ =~= read_bytes(self@, base@, i as nat),
        {
            let addr = base.value().wrapping_add(i);
            let b = match self.data.get(&addr) {
                Some(v) => *v,
                None => 0,
            };
            out.push(b);
        }
        out
    }

    /// The byte at an address.
    pub fn read_byte(&self, addr: AxiAddress) -> (r: u8)
        ensures
            r == byte_at(self@, addr@),
    {
        match self.data.get(&addr.value()) {
            Some(v) => *v,
            None => 0,
        }
    }
}

impl Default for MemoryModel {
    fn default() -> (r: Self)
        ensures
            r@ == Map::<u32, u8>::empty(),
    {
        MemoryModel::new()
    }
}

/// Execute a DMA transfer on the memory: copy `length` bytes from `source`
/// to `destination`.  Every transfer ends with the done status and reports
/// its length as the bytes transferred.
pub fn dma_transfer_golden(memory: MemoryModel, desc: &DmaTransferDescriptor) -> (r: (
    MemoryModel,
    DmaSimResult,
))
    ensures
        r.0@ == copy_bytes(
            memory@,
            desc.spec_source()@,
            desc.spec_destination()@,
            desc.spec_length()@,
        ),
        r.1.spec_status()@ == 2,
        r.1.spec_bytes_transferred() == desc.spec_length()@,
{
    let length = desc.length().bytes();
    if desc.is_noop() {
        proof {
            assert(read_bytes(memory@, desc.spec_source()@, 0) =~= Seq::<u8>::empty());
        }
        (memory, DmaSimResult { status: DmaStatus::done_status(), bytes_transferred: 0 })
    } else {
        let source_data = memory.read_block(desc.source(), length);
        let new_memory = memory.write_block(desc.destination(), source_data.as_slice());
        (new_memory, DmaSimResult { status: DmaStatus::done_status(), bytes_transferred: length })
    }
}

/// Memory after the transfers, in order.
pub open spec fn chain_memory(m: Map<u32, u8>, descs: Seq<DmaTransferDescriptor>) -> Map<u32, u8>
    decreases descs.len(),
{
    if descs.len() == 0 {
        m
    } else {
        let d = descs.last();
        copy_bytes(
            chain_memory(m, descs.drop_last()),
            d.spec_source()@,
            d.spec_destination()@,
            d.spec_length()@,
        )
    }
}

/// Execute a sequence of DMA transfers, one result per transfer.
pub fn dma_transfer_chain(memory: MemoryModel, descriptors: &[DmaTransferDescriptor]) -> (r: (
    MemoryModel,
    Vec<DmaSimResult>,
))
    ensures
        r.0@ == chain_memory(memory@, descriptors@),
        r.1@.len() == descriptors@.len(),
        forall|i: int|
            0 <= i < r.1@.len() ==> (#[trigger] r.1@[i]).spec_status()@ == 2
                && r.1@[i].spec_bytes_transferred() == descriptors@[i].spec_length()@,
{
    let mut mem = memory;
    let mut results: Vec<DmaSimResult> = Vec::with_capacity(descriptors.len());
    let n = descriptors.len();
    for k in 0..n
        invariant
            n == descriptors@.len(),
            mem@ == chain_memory(memory@, descriptors@.take(k as int)),
            results@.len() == k,
            forall|i: int|
                0 <= i < k ==> (#[trigger] results@[i]).spec_status()@ == 2
                    && results@[i].spec_bytes_transferred() == descriptors@[i].spec_length()@,
    {
        proof {
            assert(descriptors@.take(k + 1).drop_last() =~= descriptors@.take(k as int));
        }
        let (next, result) = dma_transfer_golden(mem, &descriptors[k]);
        mem = next;
        results.push(result);
    }
    proof {
        assert(descriptors@.take(n as int) =~= descriptors@);
    }
    (mem, results)
}

/// Data integrity: after a transfer, the destination block holds what the
/// source block held before it, whether or not the two overlap.
pub proof fn lemma_transfer_copies_source(m: Map<u32, u8>, source: u32, dest: u32, len: u32)
    ensures
        read_bytes(copy_bytes(m, source, dest, len), dest, len as nat) == read_bytes(
            m,
            source,
            len as nat,
        ),
{
    let src = read_bytes(m, source, len as nat);
    let after = copy_bytes(m, source, dest, len);
    assert forall|i: int| 0 <= i < len implies #[trigger] read_bytes(after, dest, len as nat)[i]
        == src[i] by {
        lemma_write_bytes_pointwise(m, dest, src, block_addr(dest, i));
    }
    assert(read_bytes(after, dest, len as nat) =~= src);
}

/// A zero-length transfer leaves memory unchanged.
pub proof fn lemma_zero_length_transfer_is_noop(m: Map<u32, u8>, source: u32, dest: u32)
    ensures
        copy_bytes(m, source, dest, 0) == m,
{
    assert(read_bytes(m, source, 0) =~= Seq::<u8>::empty());
}

/// A transfer changes no byte outside the destination block.
pub proof fn lemma_transfer_frame(m: Map<u32, u8>, source: u32, dest: u32, len: u32, a: u32)
    requires
        wrap_offset(a, dest) >= len,
    ensures
        byte_at(copy_bytes(m, source, dest, len), a) == byte_at(m, a),
{
    lemma_write_bytes_pointwise(m, dest, read_bytes(m, source, len as nat), a);
}

} // verus!
