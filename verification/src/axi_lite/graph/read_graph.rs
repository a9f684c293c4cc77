//! AXI-Lite read channel handshaking FSM as a free category graph.
//!
//! ```text
//! Idle(0) -> SendAddr(1) -> WaitData(2) -> GotData(3) -> Idle(0)
//! ```

use vstd::prelude::*;

use crate::path::{is_path_in, FsmGraph, FsmPath, GraphError, PathModel};

verus! {

/// Number of states in the read handshaking FSM.
pub const READ_VERTICES: usize = 4;

/// Number of transitions in the read handshaking FSM.
pub const READ_EDGES: usize = 4;

/// AXI-Lite read channel handshaking graph.
pub struct AxiLiteReadGraph;

/// The edges, as (source, target):
/// 0: Idle -> SendAddr [assert ARVALID + ARADDR],
/// 1: SendAddr -> WaitData [ARREADY handshake, assert RREADY],
/// 2: WaitData -> GotData [RVALID handshake, capture RDATA + RRESP],
/// 3: GotData -> Idle [complete].
pub open spec fn read_edge_table() -> Seq<(usize, usize)> {
    seq![(0, 1), (1, 2), (2, 3), (3, 0)]
}

/// Every edge of the read graph goes between vertices of the graph.
pub proof fn lemma_read_edges_within_vertices()
    ensures
        forall|e: int|
            0 <= e < read_edge_table().len() ==> #[trigger] read_edge_table()[e].0 < READ_VERTICES && read_edge_table()[e].1
                < READ_VERTICES,
{
}

fn read_edge(edge: usize) -> (r: Option<(usize, usize)>)
    ensures
        edge < READ_EDGES ==> r == Some(read_edge_table()[edge as int]),
        edge >= READ_EDGES ==> r is None,
{
    match edge {
        0 => Some((0, 1)),
        1 => Some((1, 2)),
        2 => Some((2, 3)),
        3 => Some((3, 0)),
        _ => None,
    }
}

impl FsmGraph for AxiLiteReadGraph {
    open spec fn spec_vertex_count(&self) -> nat {
        READ_VERTICES as nat
    }

    open spec fn spec_edges(&self) -> Seq<(usize, usize)> {
        read_edge_table()
    }

    fn vertex_count(&self) -> (r: usize) {
        READ_VERTICES
    }

    fn edge_count(&self) -> (r: usize) {
        READ_EDGES
    }

    fn source(&self, edge: usize) -> (r: Result<usize, GraphError>) {
        match read_edge(edge) {
            Some((src, _)) => Ok(src),
            None => Err(GraphError::EdgeOutOfBounds { edge, count: READ_EDGES }),
        }
    }

    fn target(&self, edge: usize) -> (r: Result<usize, GraphError>) {
        match read_edge(edge) {
            Some((_, tgt)) => Ok(tgt),
            None => Err(GraphError::EdgeOutOfBounds { edge, count: READ_EDGES }),
        }
    }
}

/// The full read transfer path, `Idle -> ... -> Idle`: every edge once, in
/// order.  It is a path of the graph and a round trip from Idle.
pub fn read_transfer_path() -> (r: Result<FsmPath, GraphError>)
    ensures
        r matches Ok(p) && p@ == (PathModel { source: 0, edges: seq![0usize, 1, 2, 3], target: 0 })
            && is_path_in(p@, read_edge_table()),
{
    let graph = AxiLiteReadGraph;
    let mut acc = FsmPath::identity(0);
    for k in 0..READ_EDGES
        invariant
            acc@.source == 0,
            acc@.target == k % 4,
            acc@.edges =~= Seq::new(k as nat, |i: int| i as usize),
    {
        let edge_path = match FsmPath::singleton(&graph, k) {
            Ok(p) => p,
            Err(e) => return Err(e),
        };
        acc = match acc.compose(edge_path) {
            Ok(p) => p,
            Err(e) => return Err(e),
        };
    }
    proof {
        assert(acc@.edges =~= seq![0usize, 1, 2, 3]);
    }
    Ok(acc)
}

} // verus!
