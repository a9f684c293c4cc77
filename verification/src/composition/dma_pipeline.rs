//! DMA pipeline composition.
//!
//! The DMA engine composes an AXI-Lite register interface (configuration)
//! with the data interface (the transfer): `Controller ; (Registers ⊗ Data)`.
//! The pipeline writes the configuration registers, starts the transfer,
//! reads the configuration back and performs the transfer it describes.

use vstd::prelude::*;

use crate::axi_lite::sim::golden::{lemma_read_after_write, RegisterFile, RegisterFileModel};
use crate::composition::axi_channel_tensor::{rejected_read, rejected_write, rejected_write_text};
use crate::axi_lite::transaction::{AxiLiteReadRequest, AxiLiteWriteRequest};
use crate::dma::register::{
    DmaControl, TransferLength, REG_CONTROL, REG_DEST, REG_LENGTH, REG_SOURCE,
};
use crate::dma::sim::golden::{copy_bytes, dma_transfer_golden, DmaSimResult, MemoryModel};
use crate::dma::transaction::DmaTransferDescriptor;
use crate::error::Error;
use crate::primitives::address::AxiAddress;

verus! {

/// Result of a full DMA pipeline operation.
#[derive(Debug, Clone)]
pub struct DmaPipelineResult {
    reg_file: RegisterFile,
    memory: MemoryModel,
    transfer_result: DmaSimResult,
}

impl DmaPipelineResult {
    /// The register file after configuration.
    pub closed spec fn spec_reg_file(self) -> RegisterFile {
        self.reg_file
    }

    /// The memory after the transfer.
    pub closed spec fn spec_memory(self) -> MemoryModel {
        self.memory
    }

    /// The transfer result.
    pub closed spec fn spec_transfer_result(self) -> DmaSimResult {
        self.transfer_result
    }

    /// The register file after configuration.
    pub fn reg_file(&self) -> (r: &RegisterFile)
        ensures
            *r == self.spec_reg_file(),
    {
        &self.reg_file
    }

    /// The memory after the transfer.
    pub fn memory(&self) -> (r: &MemoryModel)
        ensures
            *r == self.spec_memory(),
    {
        &self.memory
    }

    /// The transfer result.
    pub fn transfer_result(&self) -> (r: &DmaSimResult)
        ensures
            *r == self.spec_transfer_result(),
    {
        &self.transfer_result
    }
}

/// A register value read back as a 32-bit word: values that do not fit read
/// as 0.
pub open spec fn word_of(data: u64) -> u32 {
    if data <= u32::MAX {
        data as u32
    } else {
        0
    }
}

/// The register file after writing the source, destination and length
/// registers and then the control register with the start bit.
pub open spec fn configured(m: RegisterFileModel, source: u32, dest: u32, length: u32) -> RegisterFileModel {
    m.write(REG_SOURCE, source as u64).0.write(REG_DEST, dest as u64).0.write(
        REG_LENGTH,
        length as u64,
    ).0.write(REG_CONTROL, 1).0
}

/// The word read back from a register offset.
pub open spec fn read_back(m: RegisterFileModel, reg: u32) -> u32 {
    word_of(m.read(reg).0)
}

fn word_from(data: u64) -> (r: u32)
    ensures
        r == word_of(data),
{
    if data <= 0xFFFF_FFFFu64 {
        data as u32
    } else {
        0
    }
}

/// Whether every configuration access of the pipeline is answered OKAY:
/// the register window covers the control, source, destination and length
/// registers.
pub open spec fn configuration_accepted(m: RegisterFileModel) -> bool {
    &&& m.in_range(REG_CONTROL)
    &&& m.in_range(REG_SOURCE)
    &&& m.in_range(REG_DEST)
    &&& m.in_range(REG_LENGTH)
}

/// Execute a full DMA pipeline: configure source, destination and length
/// through AXI-Lite writes, set the start bit, read the configuration back
/// and perform the transfer it describes.  An error when any of these
/// AXI-Lite accesses is not answered OKAY.
pub fn dma_pipeline(
    reg_file: RegisterFile,
    memory: MemoryModel,
    source: AxiAddress,
    dest: AxiAddress,
    length: TransferLength,
) -> (r: Result<DmaPipelineResult, Error>)
    ensures
        r is Err <==> !configuration_accepted(reg_file@),
        r matches Err(e) ==> (e matches Error::AxiLite(msg) && msg@ == rejected_write_text()),
        r matches Ok(res) ==> {
            let c = configured(reg_file@, source@, dest@, length@);
            &&& res.spec_reg_file()@ == c
            &&& res.spec_memory()@ == copy_bytes(
                memory@,
                read_back(c, REG_SOURCE),
                read_back(c, REG_DEST),
                read_back(c, REG_LENGTH),
            )
            &&& res.spec_memory()@ == copy_bytes(memory@, source@, dest@, length@)
            &&& res.spec_transfer_result().spec_status()@ == 2
            &&& res.spec_transfer_result().spec_bytes_transferred() == read_back(c, REG_LENGTH)
            &&& res.spec_transfer_result().spec_bytes_transferred() == length@
        },
{
    let ghost m = reg_file@;
    let (rf, w1) = reg_file.write(
        AxiLiteWriteRequest::write32(AxiAddress::new(REG_SOURCE), source.value()),
    );
    if !w1.resp().is_okay() {
        return Err(rejected_write());
    }
    let (rf, w2) = rf.write(AxiLiteWriteRequest::write32(AxiAddress::new(REG_DEST), dest.value()));
    if !w2.resp().is_okay() {
        return Err(rejected_write());
    }
    let (rf, w3) = rf.write(
        AxiLiteWriteRequest::write32(AxiAddress::new(REG_LENGTH), length.bytes()),
    );
    if !w3.resp().is_okay() {
        return Err(rejected_write());
    }
    let (rf, w4) = rf.write(
        AxiLiteWriteRequest::write32(AxiAddress::new(REG_CONTROL), DmaControl::with_start().value()),
    );
    if !w4.resp().is_okay() {
        return Err(rejected_write());
    }
    proof {
        lemma_pipeline_reads_back_configuration(m, source@, dest@, length@, memory@);
    }

    let (_, rd_src) = rf.read(AxiLiteReadRequest::read(AxiAddress::new(REG_SOURCE)));
    if !rd_src.resp().is_okay() {
        return Err(rejected_read());
    }
    let (_, rd_dst) = rf.read(AxiLiteReadRequest::read(AxiAddress::new(REG_DEST)));
    if !rd_dst.resp().is_okay() {
        return Err(rejected_read());
    }
    let (_, rd_len) = rf.read(AxiLiteReadRequest::read(AxiAddress::new(REG_LENGTH)));
    if !rd_len.resp().is_okay() {
        return Err(rejected_read());
    }

    let src_addr = AxiAddress::new(word_from(rd_src.data()));
    let dst_addr = AxiAddress::new(word_from(rd_dst.data()));
    let xfer_len = TransferLength::new(word_from(rd_len.data()));

    let xfer = DmaTransferDescriptor::new(src_addr, dst_addr, xfer_len);
    let (new_memory, transfer_result) = dma_transfer_golden(memory, &xfer);

    Ok(DmaPipelineResult { reg_file: rf, memory: new_memory, transfer_result })
}

/// Configure-and-transfer: when the register window covers the DMA register
/// map (it starts at 0 and reaches past the length register, as a fresh
/// register file does), the configuration reads back exactly as written, so
/// the pipeline copies `length` bytes from `source` to `dest`.
pub proof fn lemma_pipeline_reads_back_configuration(
    m: RegisterFileModel,
    source: u32,
    dest: u32,
    length: u32,
    mem: Map<u32, u8>,
)
    requires
        m.in_range(REG_CONTROL),
        m.in_range(REG_LENGTH),
    ensures
        read_back(configured(m, source, dest, length), REG_SOURCE) == source,
        read_back(configured(m, source, dest, length), REG_DEST) == dest,
        read_back(configured(m, source, dest, length), REG_LENGTH) == length,
        copy_bytes(
            mem,
            read_back(configured(m, source, dest, length), REG_SOURCE),
            read_back(configured(m, source, dest, length), REG_DEST),
            read_back(configured(m, source, dest, length), REG_LENGTH),
        ) == copy_bytes(mem, source, dest, length),
{
    let m1 = m.write(REG_SOURCE, source as u64).0;
    let m2 = m1.write(REG_DEST, dest as u64).0;
    let m3 = m2.write(REG_LENGTH, length as u64).0;
    let m4 = m3.write(REG_CONTROL, 1).0;
    lemma_read_after_write(m, REG_SOURCE, source as u64, REG_SOURCE);
    lemma_read_after_write(m1, REG_DEST, dest as u64, REG_SOURCE);
    lemma_read_after_write(m1, REG_DEST, dest as u64, REG_DEST);
    lemma_read_after_write(m2, REG_LENGTH, length as u64, REG_SOURCE);
    lemma_read_after_write(m2, REG_LENGTH, length as u64, REG_DEST);
    lemma_read_after_write(m2, REG_LENGTH, length as u64, REG_LENGTH);
    lemma_read_after_write(m3, REG_CONTROL, 1, REG_SOURCE);
    lemma_read_after_write(m3, REG_CONTROL, 1, REG_DEST);
    lemma_read_after_write(m3, REG_CONTROL, 1, REG_LENGTH);
}

} // verus!
