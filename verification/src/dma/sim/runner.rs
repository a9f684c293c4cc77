//! A DMA transfer simulation: configuration in, final memory and result out.

use vstd::prelude::*;

use crate::dma::sim::golden::{copy_bytes, dma_transfer_golden, DmaSimResult, MemoryModel};
use crate::dma::transaction::DmaTransferDescriptor;

verus! {

/// Configuration for a DMA simulation: the initial memory and the transfer.
#[derive(Debug, Clone)]
pub struct DmaSimConfig {
    memory: MemoryModel,
    descriptor: DmaTransferDescriptor,
}

impl DmaSimConfig {
    /// The initial memory.
    pub closed spec fn spec_memory(self) -> MemoryModel {
        self.memory
    }

    /// The transfer.
    pub closed spec fn spec_descriptor(self) -> DmaTransferDescriptor {
        self.descriptor
    }

    /// Create a new DMA simulation config.
    pub fn new(memory: MemoryModel, descriptor: DmaTransferDescriptor) -> (r: Self)
        ensures
            r.spec_memory() == memory,
            r.spec_descriptor() == descriptor,
    {
        DmaSimConfig { memory, descriptor }
    }
}

/// Result of a DMA simulation including the final memory state.
#[derive(Debug, Clone)]
pub struct DmaSimFullResult {
    memory: MemoryModel,
    transfer_result: DmaSimResult,
}

impl DmaSimFullResult {
    /// The memory after the transfer.
    pub closed spec fn spec_memory(self) -> MemoryModel {
        self.memory
    }

    /// The transfer result.
    pub closed spec fn spec_transfer_result(self) -> DmaSimResult {
        self.transfer_result
    }

    /// The memory after the transfer.
    pub fn memory(&self) -> (r: &MemoryModel)
        ensures
            *r == self.spec_memory(),
    {
        &self.memory
    }

    /// The transfer result.
    pub fn transfer_result(&self) -> (r: &DmaSimResult)
        ensures
            *r == self.spec_transfer_result(),
    {
        &self.transfer_result
    }
}

/// Run the configured transfer on the configured memory.
pub fn run_dma(config: DmaSimConfig) -> (r: DmaSimFullResult)
    ensures
        r.spec_memory()@ == copy_bytes(
            config.spec_memory()@,
            config.spec_descriptor().spec_source()@,
            config.spec_descriptor().spec_destination()@,
            config.spec_descriptor().spec_length()@,
        ),
        r.spec_transfer_result().spec_status()@ == 2,
        r.spec_transfer_result().spec_bytes_transferred()
            == config.spec_descriptor().spec_length()@,
{
    let DmaSimConfig { memory, descriptor } = config;
    let (memory, transfer_result) = dma_transfer_golden(memory, &descriptor);
    DmaSimFullResult { memory, transfer_result }
}

} // verus!
