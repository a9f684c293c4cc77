use axi_dma_cat::axi_lite::graph::read_graph::{read_transfer_path, AxiLiteReadGraph, READ_EDGES, READ_VERTICES};
use axi_dma_cat::axi_lite::graph::write_graph::{
    write_transfer_path, AxiLiteWriteGraph, WRITE_EDGES, WRITE_VERTICES,
};
use axi_dma_cat::axi_lite::interpret::descriptor::AxiLiteAction;
use axi_dma_cat::axi_lite::interpret::read_morphism::AxiLiteReadMorphism;
use axi_dma_cat::axi_lite::interpret::write_morphism::AxiLiteWriteMorphism;
use axi_dma_cat::axi_lite::sim::golden::RegisterFile;
use axi_dma_cat::axi_lite::sim::runner::{run_axi_lite_ops, AxiLiteOp, AxiLiteOpResult};
use axi_dma_cat::axi_lite::transaction::{
    AxiLiteReadRequest, AxiLiteReadResult, AxiLiteWriteRequest, AxiLiteWriteResult,
};
use axi_dma_cat::axi_lite::channel::{
    ReadAddressPayload, ReadDataPayload, WriteAddressPayload, WriteDataPayload,
    WriteResponsePayload,
};
use axi_dma_cat::dma::interpret::descriptor::DmaAction;
use axi_dma_cat::error::Error;
use axi_dma_cat::path::{FsmGraph, FsmPath, GraphError};
use axi_dma_cat::primitives::address::AxiAddress;
use axi_dma_cat::primitives::protection::AxiProt;
use axi_dma_cat::primitives::response::AxiResponse;
use axi_dma_cat::primitives::strobe::WriteStrobe;

#[test]
fn read_graph_graph_dimensions() {
    let g = AxiLiteReadGraph;
    assert_eq!(g.vertex_count(), 4);
    assert_eq!(g.edge_count(), 4);
}

#[test]
fn read_graph_all_edges_valid() -> Result<(), GraphError> {
    let g = AxiLiteReadGraph;
    (0..READ_EDGES).try_for_each(|k| {
        let s = g.source(k)?;
        let t = g.target(k)?;
        assert!(s < READ_VERTICES);
        assert!(t < READ_VERTICES);
        Ok(())
    })
}

#[test]
fn read_path_is_round_trip() -> Result<(), GraphError> {
    let path = read_transfer_path()?;
    assert_eq!(path.source(), 0);
    assert_eq!(path.target(), 0);
    assert_eq!(path.len(), 4);
    Ok(())
}

#[test]
fn write_graph_graph_dimensions() {
    let g = AxiLiteWriteGraph;
    assert_eq!(g.vertex_count(), 5);
    assert_eq!(g.edge_count(), 5);
}

#[test]
fn write_graph_all_edges_valid() -> Result<(), GraphError> {
    let g = AxiLiteWriteGraph;
    (0..WRITE_EDGES).try_for_each(|k| {
        let s = g.source(k)?;
        let t = g.target(k)?;
        assert!(s < WRITE_VERTICES);
        assert!(t < WRITE_VERTICES);
        Ok(())
    })
}

#[test]
fn write_path_is_round_trip() -> Result<(), GraphError> {
    let path = write_transfer_path()?;
    assert_eq!(path.source(), 0);
    assert_eq!(path.target(), 0);
    assert_eq!(path.len(), 5);
    Ok(())
}

#[test]
fn edge_out_of_bounds_is_reported() {
    let g = AxiLiteWriteGraph;
    assert_eq!(g.source(5), Err(GraphError::EdgeOutOfBounds { edge: 5, count: 5 }));
    assert_eq!(g.target(7), Err(GraphError::EdgeOutOfBounds { edge: 7, count: 5 }));
    assert_eq!(
        AxiLiteReadGraph.source(4),
        Err(GraphError::EdgeOutOfBounds { edge: 4, count: 4 })
    );
    assert!(FsmPath::singleton(&g, 9).is_err());
}

#[test]
fn write_path_edges_in_order() -> Result<(), GraphError> {
    let path = write_transfer_path()?;
    assert_eq!(path.edges(), &[0, 1, 2, 3, 4]);
    let read = read_transfer_path()?;
    assert_eq!(read.edges(), &[0, 1, 2, 3]);
    Ok(())
}

#[test]
fn path_composition_checks_endpoints() -> Result<(), GraphError> {
    let g = AxiLiteWriteGraph;
    let e0 = FsmPath::singleton(&g, 0)?;
    let e2 = FsmPath::singleton(&g, 2)?;
    match e0.compose(e2) {
        Err(GraphError::CompositionMismatch { target, source }) => {
            assert_eq!(target, 1);
            assert_eq!(source, 2);
        }
        other => panic!("unexpected {:?}", other.map(|p| p.len())),
    }
    let id = FsmPath::identity(0);
    assert!(id.is_identity());
    let p = id.compose(FsmPath::singleton(&g, 0)?)?;
    assert_eq!((p.source(), p.target(), p.len()), (0, 1, 1));
    let q = p.compose(FsmPath::identity(1))?;
    assert_eq!((q.source(), q.target(), q.len()), (0, 1, 1));
    assert!(!q.is_empty());
    Ok(())
}

#[test]
fn descriptor_identity_is_neutral() {
    let a = AxiLiteAction::AssertAddrValid;
    assert_eq!(AxiLiteAction::identity().compose(a.clone()), a);
    assert_eq!(a.clone().compose(AxiLiteAction::identity()), a);
    let d = DmaAction::Configure;
    assert_eq!(DmaAction::identity().compose(d.clone()), d);
    assert_eq!(d.clone().compose(DmaAction::identity()), d);
}

#[test]
fn descriptor_compose_counts() {
    let c = AxiLiteAction::AssertAddrValid
        .compose(AxiLiteAction::AddrHandshake)
        .compose(AxiLiteAction::Complete);
    assert_eq!(c.action_count(), 3);
    let d = DmaAction::Configure.compose(DmaAction::IssueRead).compose(DmaAction::IssueWrite);
    assert_eq!(d.action_count(), 3);
}

#[test]
fn compose_flattens_sequences() {
    let ab = AxiLiteAction::AssertAddrValid.compose(AxiLiteAction::AddrHandshake);
    let cd = AxiLiteAction::AssertDataValid.compose(AxiLiteAction::DataHandshake);
    let all = ab.clone().compose(cd.clone());
    assert_eq!(
        all,
        AxiLiteAction::Sequence(vec![
            AxiLiteAction::AssertAddrValid,
            AxiLiteAction::AddrHandshake,
            AxiLiteAction::AssertDataValid,
            AxiLiteAction::DataHandshake,
        ])
    );
    let left = ab.clone().compose(AxiLiteAction::Complete);
    assert_eq!(left.action_count(), 3);
    let right = AxiLiteAction::Complete.compose(cd);
    assert_eq!(right.action_count(), 3);
    let nested = AxiLiteAction::Sequence(vec![ab.clone(), AxiLiteAction::Identity, ab]);
    assert_eq!(nested.action_count(), 4);
    assert_eq!(AxiLiteAction::identity().action_count(), 0);
    assert_eq!(nested.clone().action_count(), 4);
}

#[test]
fn compose_is_associative_on_examples() {
    let a = AxiLiteAction::AssertAddrValid;
    let b = AxiLiteAction::Sequence(vec![AxiLiteAction::AddrHandshake]);
    let c = AxiLiteAction::Complete;
    let left = a.clone().compose(b.clone()).compose(c.clone());
    let right = a.compose(b.compose(c));
    assert_eq!(left, right);
}

#[test]
fn read_transfer_has_4_actions() -> Result<(), GraphError> {
    let morphism = AxiLiteReadMorphism;
    let path = read_transfer_path()?;
    let composed = morphism.interpret(&path);
    assert_eq!(composed.action_count(), 4);
    Ok(())
}

#[test]
fn idle_nothing_asserted() {
    let morphism = AxiLiteReadMorphism;
    let state = morphism.map_vertex(0);
    assert!(!state.ar_valid());
    assert!(!state.r_ready());
}

#[test]
fn send_addr_ar_valid() {
    let morphism = AxiLiteReadMorphism;
    let state = morphism.map_vertex(1);
    assert!(state.ar_valid());
}

#[test]
fn write_transfer_has_5_actions() -> Result<(), GraphError> {
    let morphism = AxiLiteWriteMorphism;
    let path = write_transfer_path()?;
    let composed = morphism.interpret(&path);
    assert_eq!(composed.action_count(), 5);
    Ok(())
}

#[test]
fn idle_state_nothing_asserted() {
    let morphism = AxiLiteWriteMorphism;
    let state = morphism.map_vertex(0);
    assert!(!state.aw_valid());
    assert!(!state.w_valid());
    assert!(!state.b_ready());
}

#[test]
fn send_addr_state_aw_valid() {
    let morphism = AxiLiteWriteMorphism;
    let state = morphism.map_vertex(1);
    assert!(state.aw_valid());
    assert!(!state.w_valid());
}

#[test]
fn write_interpretation_lists_edge_actions() -> Result<(), GraphError> {
    let composed = AxiLiteWriteMorphism.interpret(&write_transfer_path()?);
    assert_eq!(
        composed,
        AxiLiteAction::Sequence(vec![
            AxiLiteAction::AssertAddrValid,
            AxiLiteAction::AssertDataValid,
            AxiLiteAction::AssertRespReady,
            AxiLiteAction::RespHandshake,
            AxiLiteAction::Complete,
        ])
    );
    let one = AxiLiteReadMorphism.interpret(&FsmPath::singleton(&AxiLiteReadGraph, 2)?);
    assert_eq!(one, AxiLiteAction::RespHandshake);
    let none = AxiLiteReadMorphism.interpret(&FsmPath::identity(3));
    assert_eq!(none, AxiLiteAction::Identity);
    let s = AxiLiteWriteMorphism.map_vertex(3);
    assert!(s.b_ready() && !s.aw_valid() && s.vertex() == 3);
    assert!(AxiLiteWriteMorphism.map_vertex(2).w_valid());
    assert!(!AxiLiteWriteMorphism.map_vertex(4).b_ready());
    assert!(AxiLiteReadMorphism.map_vertex(2).r_ready());
    assert_eq!(AxiLiteReadMorphism.map_edge(9), AxiLiteAction::Identity);
    Ok(())
}

#[test]
fn write_then_read_returns_same_data() {
    let rf = RegisterFile::new();
    let (rf, wr) = rf.write(AxiLiteWriteRequest::write32(AxiAddress::new(0x10), 0xCAFE));
    assert!(wr.resp().is_okay());
    let (_rf, rd) = rf.read(AxiLiteReadRequest::read(AxiAddress::new(0x10)));
    assert!(rd.resp().is_okay());
    assert_eq!(rd.data(), 0xCAFE);
}

#[test]
fn unwritten_address_reads_zero() {
    let rf = RegisterFile::new();
    let (_rf, rd) = rf.read(AxiLiteReadRequest::read(AxiAddress::new(0x20)));
    assert!(rd.resp().is_okay());
    assert_eq!(rd.data(), 0);
}

#[test]
fn out_of_range_write_returns_decerr() {
    let rf = RegisterFile::with_range(AxiAddress::new(0x1000), 256);
    let (_rf, wr) = rf.write(AxiLiteWriteRequest::write32(AxiAddress::new(0x00), 0xFF));
    assert_eq!(wr.resp(), AxiResponse::DecErr);
}

#[test]
fn out_of_range_read_returns_decerr() {
    let rf = RegisterFile::with_range(AxiAddress::new(0x1000), 256);
    let (_rf, rd) = rf.read(AxiLiteReadRequest::read(AxiAddress::new(0x2000)));
    assert_eq!(rd.resp(), AxiResponse::DecErr);
}

#[test]
fn overwrite_replaces_value() {
    let rf = RegisterFile::new();
    let (rf, _) = rf.write(AxiLiteWriteRequest::write32(AxiAddress::new(0x00), 0x111));
    let (rf, _) = rf.write(AxiLiteWriteRequest::write32(AxiAddress::new(0x00), 0x222));
    let (_rf, rd) = rf.read(AxiLiteReadRequest::read(AxiAddress::new(0x00)));
    assert_eq!(rd.data(), 0x222);
}

#[test]
fn multiple_addresses_independent() {
    let rf = RegisterFile::new();
    let (rf, _) = rf.write(AxiLiteWriteRequest::write32(AxiAddress::new(0x00), 0xAA));
    let (rf, _) = rf.write(AxiLiteWriteRequest::write32(AxiAddress::new(0x04), 0xBB));
    let (rf, r0) = rf.read(AxiLiteReadRequest::read(AxiAddress::new(0x00)));
    let (_rf, r4) = rf.read(AxiLiteReadRequest::read(AxiAddress::new(0x04)));
    assert_eq!(r0.data(), 0xAA);
    assert_eq!(r4.data(), 0xBB);
}

#[test]
fn register_window_edges() {
    let rf = RegisterFile::with_range(AxiAddress::new(0x1000), 0x10);
    let (rf, lo) = rf.write(AxiLiteWriteRequest::write32(AxiAddress::new(0x1000), 1));
    let (rf, hi) = rf.write(AxiLiteWriteRequest::write32(AxiAddress::new(0x100F), 2));
    let (rf, past) = rf.write(AxiLiteWriteRequest::write32(AxiAddress::new(0x1010), 3));
    assert!(lo.resp().is_okay() && hi.resp().is_okay());
    assert_eq!(past.resp(), AxiResponse::DecErr);
    assert_eq!(rf.get(0), 1);
    assert_eq!(rf.get(0xF), 2);
    assert_eq!(rf.get(0x10), 0);
    let (_, rd) = rf.read(AxiLiteReadRequest::read(AxiAddress::new(0xFFF)));
    assert_eq!((rd.data(), rd.resp()), (0, AxiResponse::DecErr));
}

#[test]
fn saturated_window_excludes_top_address() {
    let rf = RegisterFile::with_range(AxiAddress::new(0xFFFF_FF00), 0x1000);
    let (rf, top) = rf.write(AxiLiteWriteRequest::write32(AxiAddress::new(u32::MAX), 9));
    assert_eq!(top.resp(), AxiResponse::DecErr);
    let (_, below) = rf.write(AxiLiteWriteRequest::write32(AxiAddress::new(0xFFFF_FFFE), 9));
    assert_eq!(below.resp(), AxiResponse::Okay);
}

#[test]
fn write_read_round_trip_all_registers() {
    for i in 0u32..16 {
        for &data in &[0u32, 1, 0xDEAD_BEEF, u32::MAX] {
            let rf = RegisterFile::new();
            let (rf, wr) = rf.write(AxiLiteWriteRequest::write32(AxiAddress::new(i * 4), data));
            assert!(wr.resp().is_okay());
            let (_rf, rd) = rf.read(AxiLiteReadRequest::read(AxiAddress::new(i * 4)));
            assert!(rd.resp().is_okay());
            assert_eq!(rd.data(), u64::from(data));
        }
    }
}

#[test]
fn sixty_four_bit_write_keeps_all_bits() {
    let req = AxiLiteWriteRequest::new(
        AxiAddress::new(0x08),
        0x0123_4567_89AB_CDEF,
        WriteStrobe::all_64(),
        AxiProt::new(0b011),
    );
    assert_eq!(req.strobe().mask(), 0xFF);
    assert_eq!(req.prot().value(), 0b011);
    let (rf, _) = RegisterFile::new().write(req);
    assert_eq!(rf.get(0x08), 0x0123_4567_89AB_CDEF);
}

#[test]
fn transaction_and_payload_accessors() {
    let w = AxiLiteWriteRequest::write32(AxiAddress::new(0x44), 7);
    assert_eq!((w.addr().value(), w.data(), w.strobe().mask(), w.prot().value()), (0x44, 7, 0x0F, 0));
    let r = AxiLiteReadRequest::new(AxiAddress::new(0x48), AxiProt::new(5));
    assert_eq!((r.addr().value(), r.prot().value()), (0x48, 5));
    assert_eq!(AxiLiteReadRequest::read(AxiAddress::new(4)).prot().value(), 0);
    assert_eq!(AxiLiteWriteResult::new(AxiResponse::SlvErr).resp(), AxiResponse::SlvErr);
    let rr = AxiLiteReadResult::new(99, AxiResponse::Okay);
    assert_eq!((rr.data(), rr.resp()), (99, AxiResponse::Okay));
    let aw = WriteAddressPayload::new(AxiAddress::new(1), AxiProt::new(2));
    assert_eq!((aw.addr().value(), aw.prot().value()), (1, 2));
    let wd = WriteDataPayload::new(3, WriteStrobe::new(4));
    assert_eq!((wd.data(), wd.strobe().mask()), (3, 4));
    assert_eq!(WriteResponsePayload::new(AxiResponse::DecErr).resp(), AxiResponse::DecErr);
    let ar = ReadAddressPayload::new(AxiAddress::new(5), AxiProt::new(6));
    assert_eq!((ar.addr().value(), ar.prot().value()), (5, 6));
    let rd = ReadDataPayload::new(7, AxiResponse::Okay);
    assert_eq!((rd.data(), rd.resp()), (7, AxiResponse::Okay));
}

#[test]
fn write_then_read_via_io() -> Result<(), Error> {
    let ops = vec![
        AxiLiteOp::Write(AxiLiteWriteRequest::write32(AxiAddress::new(0x00), 0x42)),
        AxiLiteOp::Read(AxiLiteReadRequest::read(AxiAddress::new(0x00))),
    ];
    let results = run_axi_lite_ops(&ops);
    assert_eq!(results.len(), 2);

    let read_result = results.get(1).and_then(|r| match r {
        AxiLiteOpResult::Read(rd) => Some(rd),
        AxiLiteOpResult::Write(_) => None,
    });
    assert_eq!(read_result.map(AxiLiteReadResult::data), Some(0x42));
    Ok(())
}

#[test]
fn op_results_follow_operations() {
    let ops = vec![
        AxiLiteOp::Read(AxiLiteReadRequest::read(AxiAddress::new(0x2000))),
        AxiLiteOp::Write(AxiLiteWriteRequest::write32(AxiAddress::new(0x08), 5)),
        AxiLiteOp::Write(AxiLiteWriteRequest::write32(AxiAddress::new(0x3000), 6)),
    ];
    let results = run_axi_lite_ops(&ops);
    assert_eq!(
        results,
        vec![
            AxiLiteOpResult::Read(AxiLiteReadResult::new(0, AxiResponse::DecErr)),
            AxiLiteOpResult::Write(AxiLiteWriteResult::new(AxiResponse::Okay)),
            AxiLiteOpResult::Write(AxiLiteWriteResult::new(AxiResponse::DecErr)),
        ]
    );
    assert!(run_axi_lite_ops(&Vec::new()).is_empty());
}
