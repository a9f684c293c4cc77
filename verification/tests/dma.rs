use axi_dma_cat::dma::graph::controller_graph::{
    read_error_path, single_transfer_path, DmaControllerGraph, DMA_EDGES, DMA_VERTICES,
};
use axi_dma_cat::dma::interpret::controller_morphism::DmaControllerMorphism;
use axi_dma_cat::dma::interpret::descriptor::DmaAction;
use axi_dma_cat::dma::register::{
    DmaControl, DmaRegisterSet, DmaStatus, TransferLength, REG_CONTROL, REG_DEST, REG_LENGTH,
    REG_SOURCE, REG_STATUS,
};
use axi_dma_cat::dma::sim::golden::{dma_transfer_chain, dma_transfer_golden, MemoryModel};
use axi_dma_cat::dma::sim::runner::{run_dma, DmaSimConfig};
use axi_dma_cat::dma::transaction::DmaTransferDescriptor;
use axi_dma_cat::error::Error;
use axi_dma_cat::path::{FsmGraph, GraphError};
use axi_dma_cat::primitives::address::AxiAddress;

#[test]
fn controller_graph_graph_dimensions() {
    let g = DmaControllerGraph;
    assert_eq!(g.vertex_count(), 7);
    assert_eq!(g.edge_count(), 10);
}

#[test]
fn controller_graph_all_edges_valid() -> Result<(), GraphError> {
    let g = DmaControllerGraph;
    (0..DMA_EDGES).try_for_each(|k| {
        let s = g.source(k)?;
        let t = g.target(k)?;
        assert!(s < DMA_VERTICES);
        assert!(t < DMA_VERTICES);
        Ok(())
    })
}

#[test]
fn single_transfer_is_round_trip() -> Result<(), GraphError> {
    let path = single_transfer_path()?;
    assert_eq!(path.source(), 0);
    assert_eq!(path.target(), 0);
    assert_eq!(path.len(), 6);
    Ok(())
}

#[test]
fn read_error_is_round_trip() -> Result<(), GraphError> {
    let path = read_error_path()?;
    assert_eq!(path.source(), 0);
    assert_eq!(path.target(), 0);
    assert_eq!(path.len(), 4);
    Ok(())
}

#[test]
fn loop_edge_returns_to_read_phase() -> Result<(), GraphError> {
    let g = DmaControllerGraph;
    assert_eq!(g.source(4)?, 4);
    assert_eq!(g.target(4)?, 2);
    Ok(())
}

#[test]
fn controller_paths_list_their_edges() -> Result<(), GraphError> {
    assert_eq!(single_transfer_path()?.edges(), &[0, 1, 2, 3, 5, 8]);
    assert_eq!(read_error_path()?.edges(), &[0, 1, 6, 9]);
    assert_eq!(
        DmaControllerGraph.source(10),
        Err(GraphError::EdgeOutOfBounds { edge: 10, count: 10 })
    );
    Ok(())
}

#[test]
fn single_transfer_has_6_actions() -> Result<(), Error> {
    let morphism = DmaControllerMorphism;
    let path = single_transfer_path()?;
    let composed = morphism.interpret(&path);
    assert_eq!(composed.action_count(), 6);
    Ok(())
}

#[test]
fn error_path_has_4_actions() -> Result<(), Error> {
    let morphism = DmaControllerMorphism;
    let path = read_error_path()?;
    let composed = morphism.interpret(&path);
    assert_eq!(composed.action_count(), 4);
    Ok(())
}

#[test]
fn idle_not_transferring() {
    let morphism = DmaControllerMorphism;
    let state = morphism.map_vertex(0);
    assert!(!state.transferring());
    assert!(!state.error());
}

#[test]
fn read_phase_is_transferring() {
    let morphism = DmaControllerMorphism;
    let state = morphism.map_vertex(2);
    assert!(state.transferring());
}

#[test]
fn error_state_has_error() {
    let morphism = DmaControllerMorphism;
    let state = morphism.map_vertex(6);
    assert!(state.error());
    assert!(!state.transferring());
}

#[test]
fn error_path_actions_in_order() -> Result<(), GraphError> {
    let composed = DmaControllerMorphism.interpret(&read_error_path()?);
    assert_eq!(
        composed,
        DmaAction::Sequence(vec![
            DmaAction::Configure,
            DmaAction::IssueRead,
            DmaAction::Error,
            DmaAction::ReturnIdle,
        ])
    );
    assert_eq!(DmaControllerMorphism.map_edge(4), DmaAction::IssueRead);
    assert_eq!(DmaControllerMorphism.map_edge(11), DmaAction::Identity);
    assert!(!DmaControllerMorphism.map_vertex(5).transferring());
    assert_eq!(DmaControllerMorphism.map_vertex(9).vertex(), 9);
    Ok(())
}

#[test]
fn control_bit_fields() {
    let ctrl = DmaControl::new(0x07);
    assert!(ctrl.start());
    assert!(ctrl.stop());
    assert!(ctrl.interrupt_enable());
}

#[test]
fn control_start_only() {
    let ctrl = DmaControl::with_start();
    assert!(ctrl.start());
    assert!(!ctrl.stop());
}

#[test]
fn status_bit_fields() {
    let stat = DmaStatus::new(0x0F);
    assert!(stat.busy());
    assert!(stat.done());
    assert!(stat.error());
    assert!(stat.interrupt_pending());
}

#[test]
fn status_idle_is_all_clear() {
    let stat = DmaStatus::idle();
    assert!(!stat.busy());
    assert!(!stat.done());
    assert!(!stat.error());
}

#[test]
fn register_set_with_updates() {
    let regs = DmaRegisterSet::new()
        .with_source(AxiAddress::new(0x1000))
        .with_dest(AxiAddress::new(0x2000))
        .with_length(TransferLength::new(256));
    assert_eq!(regs.source().value(), 0x1000);
    assert_eq!(regs.dest().value(), 0x2000);
    assert_eq!(regs.length().bytes(), 256);
}

#[test]
fn transfer_length_zero() {
    assert!(TransferLength::new(0).is_zero());
    assert!(!TransferLength::new(1).is_zero());
}

#[test]
fn register_map_values() {
    assert_eq!((REG_CONTROL, REG_STATUS, REG_SOURCE, REG_DEST, REG_LENGTH), (0, 4, 8, 0xC, 0x10));
    assert_eq!(DmaControl::with_stop().value(), 2);
    assert!(!DmaControl::with_stop().start() && DmaControl::with_stop().stop());
    assert!(!DmaControl::new(0x03).interrupt_enable());
    assert_eq!(DmaStatus::busy_status().value(), 1);
    assert!(DmaStatus::done_status().done() && !DmaStatus::done_status().busy());
    assert!(DmaStatus::error_status().error() && !DmaStatus::error_status().interrupt_pending());
    let regs = DmaRegisterSet::default()
        .with_control(DmaControl::with_start())
        .with_status(DmaStatus::busy_status());
    assert!(regs.control().start() && regs.status().busy());
    assert_eq!(regs.source().value(), 0);
}

#[test]
fn basic_transfer() {
    let mem = MemoryModel::new().write_block(AxiAddress::new(0x100), &[1, 2, 3, 4]);

    let desc = DmaTransferDescriptor::new(
        AxiAddress::new(0x100),
        AxiAddress::new(0x200),
        TransferLength::new(4),
    );

    let (mem, result) = dma_transfer_golden(mem, &desc);
    assert!(result.status().done());
    assert_eq!(result.bytes_transferred(), 4);
    assert_eq!(mem.read_block(AxiAddress::new(0x200), 4), vec![1, 2, 3, 4]);
}

#[test]
fn zero_length_transfer_is_done() {
    let mem = MemoryModel::new();
    let desc = DmaTransferDescriptor::new(
        AxiAddress::new(0x100),
        AxiAddress::new(0x200),
        TransferLength::new(0),
    );

    let (_mem, result) = dma_transfer_golden(mem, &desc);
    assert!(result.status().done());
    assert_eq!(result.bytes_transferred(), 0);
}

#[test]
fn uninitialized_source_reads_zero() {
    let mem = MemoryModel::new();
    let desc = DmaTransferDescriptor::new(
        AxiAddress::new(0x100),
        AxiAddress::new(0x200),
        TransferLength::new(4),
    );

    let (mem, _) = dma_transfer_golden(mem, &desc);
    assert_eq!(mem.read_block(AxiAddress::new(0x200), 4), vec![0, 0, 0, 0]);
}

#[test]
fn in_place_copy_works() {
    let mem = MemoryModel::new().write_block(AxiAddress::new(0x100), &[0xAA, 0xBB]);

    let desc = DmaTransferDescriptor::new(
        AxiAddress::new(0x100),
        AxiAddress::new(0x100),
        TransferLength::new(2),
    );

    let (mem, result) = dma_transfer_golden(mem, &desc);
    assert!(result.status().done());
    assert_eq!(mem.read_block(AxiAddress::new(0x100), 2), vec![0xAA, 0xBB]);
}

#[test]
fn chain_of_transfers() {
    let mem = MemoryModel::new().write_block(AxiAddress::new(0x000), &[0x11, 0x22]);

    let descs = [
        DmaTransferDescriptor::new(
            AxiAddress::new(0x000),
            AxiAddress::new(0x100),
            TransferLength::new(2),
        ),
        DmaTransferDescriptor::new(
            AxiAddress::new(0x100),
            AxiAddress::new(0x200),
            TransferLength::new(2),
        ),
    ];

    let (mem, results) = dma_transfer_chain(mem, &descs);
    assert!(results.iter().all(|r| r.status().done()));
    assert_eq!(mem.read_block(AxiAddress::new(0x200), 2), vec![0x11, 0x22]);
}

#[test]
fn overlapping_copy_reads_source_first() {
    let mem = MemoryModel::new().write_block(AxiAddress::new(0x100), &[1, 2, 3, 4]);
    let desc = DmaTransferDescriptor::new(
        AxiAddress::new(0x100),
        AxiAddress::new(0x102),
        TransferLength::new(4),
    );
    let (mem, _) = dma_transfer_golden(mem, &desc);
    assert_eq!(mem.read_block(AxiAddress::new(0x100), 6), vec![1, 2, 1, 2, 3, 4]);
}

#[test]
fn transfer_wraps_around_address_space() {
    let mem = MemoryModel::new().write_block(AxiAddress::new(0xFFFF_FFFE), &[7, 8, 9]);
    assert_eq!(mem.read_byte(AxiAddress::new(0)), 9);
    assert_eq!(mem.read_byte(AxiAddress::new(u32::MAX)), 8);
    let desc = DmaTransferDescriptor::new(
        AxiAddress::new(0xFFFF_FFFE),
        AxiAddress::new(0x10),
        TransferLength::new(3),
    );
    assert!(!desc.is_noop());
    let (mem, result) = dma_transfer_golden(mem, &desc);
    assert_eq!(result.bytes_transferred(), 3);
    assert_eq!(mem.read_block(AxiAddress::new(0x10), 3), vec![7, 8, 9]);
    assert_eq!(mem.read_byte(AxiAddress::new(0x13)), 0);
}

#[test]
fn data_integrity_over_many_lengths() {
    for len in 1u32..64 {
        let data: Vec<u8> = (0..len).map(|i| (i * 7 + 3) as u8).collect();
        let src = AxiAddress::new(len * 4);
        let dst = AxiAddress::new(len * 4 + 0x10000);
        let mem = MemoryModel::default().write_block(src, &data);
        let desc = DmaTransferDescriptor::new(src, dst, TransferLength::new(len));
        assert_eq!(desc.source().value(), len * 4);
        assert_eq!(desc.destination().value(), len * 4 + 0x10000);
        assert_eq!(desc.length().bytes(), len);
        let (mem, result) = dma_transfer_golden(mem, &desc);
        assert!(result.status().done());
        assert_eq!(result.bytes_transferred(), len);
        assert_eq!(mem.read_block(dst, len), data);
        assert_eq!(mem.read_block(src, len), data);
    }
}

#[test]
fn dma_sim_via_io() -> Result<(), Error> {
    let mem = MemoryModel::new().write_block(AxiAddress::new(0x1000), &[0xCA, 0xFE]);
    let desc = DmaTransferDescriptor::new(
        AxiAddress::new(0x1000),
        AxiAddress::new(0x2000),
        TransferLength::new(2),
    );
    let config = DmaSimConfig::new(mem, desc);
    let result = run_dma(config);

    assert!(result.transfer_result().status().done());
    assert_eq!(result.memory().read_block(AxiAddress::new(0x2000), 2), vec![0xCA, 0xFE],);
    Ok(())
}
