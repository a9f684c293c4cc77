//! AXI-Lite write channel handshaking FSM as a free category graph.
//!
//! ```text
//! Idle(0) -> SendAddr(1) -> SendData(2) -> WaitResp(3) -> GotResp(4) -> Idle(0)
//! ```
//!
//! Simplified model: the address phase completes before the data phase.

use vstd::prelude::*;

use crate::path::{is_path_in, FsmGraph, FsmPath, GraphError, PathModel};

verus! {

/// Number of states in the write handshaking FSM.
pub const WRITE_VERTICES: usize = 5;

/// Number of transitions in the write handshaking FSM.
pub const WRITE_EDGES: usize = 5;

/// AXI-Lite write channel handshaking graph.
pub struct AxiLiteWriteGraph;

/// The edges, as (source, target):
/// 0: Idle -> SendAddr [assert AWVALID + AWADDR],
/// 1: SendAddr -> SendData [AWREADY handshake, assert WVALID + WDATA],
/// 2: SendData -> WaitResp [WREADY handshake, assert BREADY],
/// 3: WaitResp -> GotResp [BVALID handshake, capture BRESP],
/// 4: GotResp -> Idle [complete].
pub open spec fn write_edge_table() -> Seq<(usize, usize)> {
    seq![(0, 1), (1, 2), (2, 3), (3, 4), (4, 0)]
}

/// Every edge of the write graph goes between vertices of the graph.
pub proof fn lemma_write_edges_within_vertices()
    ensures
        forall|e: int|
            0 <= e < write_edge_table().len() ==> #[trigger] write_edge_table()[e].0 < WRITE_VERTICES && write_edge_table()[e].1
                < WRITE_VERTICES,
{
}

fn write_edge(edge: usize) -> (r: Option<(usize, usize)>)
    ensures
        edge < WRITE_EDGES ==> r == Some(write_edge_table()[edge as int]),
        edge >= WRITE_EDGES ==> r is None,
{
    match edge {
        0 => Some((0, 1)),
        1 => Some((1, 2)),
        2 => Some((2, 3)),
        3 => Some((3, 4)),
        4 => Some((4, 0)),
        _ => None,
    }
}

impl FsmGraph for AxiLiteWriteGraph {
    open spec fn spec_vertex_count(&self) -> nat {
        WRITE_VERTICES as nat
    }

    open spec fn spec_edges(&self) -> Seq<(usize, usize)> {
        write_edge_table()
    }

    fn vertex_count(&self) -> (r: usize) {
        WRITE_VERTICES
    }

    fn edge_count(&self) -> (r: usize) {
        WRITE_EDGES
    }

    fn source(&self, edge: usize) -> (r: Result<usize, GraphError>) {
        match write_edge(edge) {
            Some((src, _)) => Ok(src),
            None => Err(GraphError::EdgeOutOfBounds { edge, count: WRITE_EDGES }),
        }
    }

    fn target(&self, edge: usize) -> (r: Result<usize, GraphError>) {
        match write_edge(edge) {
            Some((_, tgt)) => Ok(tgt),
            None => Err(GraphError::EdgeOutOfBounds { edge, count: WRITE_EDGES }),
        }
    }
}

/// The full write transfer path, `Idle -> ... -> Idle`: every edge once, in
/// order.  It is a path of the graph and a round trip from Idle.
pub fn write_transfer_path() -> (r: Result<FsmPath, GraphError>)
    ensures
        r matches Ok(p) && p@ == (PathModel { source: 0, edges: seq![0usize, 1, 2, 3, 4], target: 0 })
            && is_path_in(p@, write_edge_table()),
{
    let graph = AxiLiteWriteGraph;
    let mut acc = FsmPath::identity(0);
    for k in 0..WRITE_EDGES
        invariant
            acc@.source == 0,
            acc@.target == k % 5,
            acc@.edges =~= Seq::new(k as nat, |i: int| i as usize),
    {
        let edge_path = match FsmPath::singleton(&graph, k) {
            Ok(p) => p,
            Err(e) => return Err(e),
        };
        acc = match acc.compose(edge_path) {
            Ok(p) => p,
            Err(e) => return Err(e),
        };
    }
    proof {
        assert(acc@.edges =~= seq![0usize, 1, 2, 3, 4]);
    }
    Ok(acc)
}

} // verus!
