//! DMA controller FSM as a free category graph.
//!
//! ```text
//! Idle(0) -> Configured(1) -> ReadPhase(2) -> WritePhase(3) -> CheckDone(4)
//!   CheckDone -> ReadPhase (loop: more data)
//!   CheckDone -> Done(5) -> Idle
//!   ReadPhase -> Error(6) -> Idle
//!   WritePhase -> Error(6) -> Idle
//! ```

use vstd::prelude::*;

use crate::path::{is_path_in, FsmGraph, FsmPath, GraphError, PathModel};

verus! {

/// Number of states in the DMA controller FSM.
pub const DMA_VERTICES: usize = 7;

/// Number of transitions in the DMA controller FSM.
pub const DMA_EDGES: usize = 10;

/// The DMA controller FSM graph.
pub struct DmaControllerGraph;

/// The edges, as (source, target):
///  0: Idle -> Configured [registers written, start bit],
///  1: Configured -> ReadPhase [issue AXI read from source],
///  2: ReadPhase -> WritePhase [read complete, issue AXI write],
///  3: WritePhase -> CheckDone [write complete, check remaining],
///  4: CheckDone -> ReadPhase [more data, loop],
///  5: CheckDone -> Done [transfer complete],
///  6: ReadPhase -> Error [AXI read error],
///  7: WritePhase -> Error [AXI write error],
///  8: Done -> Idle [return to idle],
///  9: Error -> Idle [error acknowledged].
pub open spec fn dma_edge_table() -> Seq<(usize, usize)> {
    seq![(0, 1), (1, 2), (2, 3), (3, 4), (4, 2), (4, 5), (2, 6), (3, 6), (5, 0), (6, 0)]
}

/// Every edge of the controller graph goes between vertices of the graph.
pub proof fn lemma_dma_edges_within_vertices()
    ensures
        forall|e: int|
            0 <= e < dma_edge_table().len() ==> #[trigger] dma_edge_table()[e].0 < DMA_VERTICES && dma_edge_table()[e].1
                < DMA_VERTICES,
{
}

/// The controller graph has no parallel edges: distinct edges never share
/// both their source and their target.
pub proof fn lemma_dma_edges_distinct()
    ensures
        forall|e1: int, e2: int|
            0 <= e1 < dma_edge_table().len() && 0 <= e2 < dma_edge_table().len() && e1 != e2
                ==> #[trigger] dma_edge_table()[e1] != #[trigger] dma_edge_table()[e2],
{
    let t = dma_edge_table();
    assert forall|e1: int, e2: int|
        0 <= e1 < t.len() && 0 <= e2 < t.len() && e1 != e2 implies #[trigger] t[e1] != #[trigger] t[e2] by {
        assert(t[0] == (0usize, 1usize) && t[1] == (1usize, 2usize) && t[2] == (2usize, 3usize));
        assert(t[3] == (3usize, 4usize) && t[4] == (4usize, 2usize) && t[5] == (4usize, 5usize));
        assert(t[6] == (2usize, 6usize) && t[7] == (3usize, 6usize) && t[8] == (5usize, 0usize));
        assert(t[9] == (6usize, 0usize));
    }
}

fn dma_edge(edge: usize) -> (r: Option<(usize, usize)>)
    ensures
        edge < DMA_EDGES ==> r == Some(dma_edge_table()[edge as int]),
        edge >= DMA_EDGES ==> r is None,
{
    match edge {
        0 => Some((0, 1)),
        1 => Some((1, 2)),
        2 => Some((2, 3)),
        3 => Some((3, 4)),
        4 => Some((4, 2)),
        5 => Some((4, 5)),
        6 => Some((2, 6)),
        7 => Some((3, 6)),
        8 => Some((5, 0)),
        9 => Some((6, 0)),
        _ => None,
    }
}

impl FsmGraph for DmaControllerGraph {
    open spec fn spec_vertex_count(&self) -> nat {
        DMA_VERTICES as nat
    }

    open spec fn spec_edges(&self) -> Seq<(usize, usize)> {
        dma_edge_table()
    }

    fn vertex_count(&self) -> (r: usize) {
        DMA_VERTICES
    }

    fn edge_count(&self) -> (r: usize) {
        DMA_EDGES
    }

    fn source(&self, edge: usize) -> (r: Result<usize, GraphError>) {
        match dma_edge(edge) {
            Some((src, _)) => Ok(src),
            None => Err(GraphError::EdgeOutOfBounds { edge, count: DMA_EDGES }),
        }
    }

    fn target(&self, edge: usize) -> (r: Result<usize, GraphError>) {
        match dma_edge(edge) {
            Some((_, tgt)) => Ok(tgt),
            None => Err(GraphError::EdgeOutOfBounds { edge, count: DMA_EDGES }),
        }
    }
}

/// The vertex a chain of edges from `start` ends at.
pub open spec fn chain_end(start: usize, plan: Seq<usize>, table: Seq<(usize, usize)>) -> usize {
    if plan.len() == 0 {
        start
    } else {
        table[plan.last() as int].1
    }
}

/// The path from `start` along the edges of `plan`, composed one edge at a
/// time.
fn path_along(start: usize, plan: &[usize]) -> (r: Result<FsmPath, GraphError>)
    requires
        is_path_in(
            PathModel { source: start, edges: plan@, target: chain_end(start, plan@, dma_edge_table()) },
            dma_edge_table(),
        ),
    ensures
        r matches Ok(p) && p@ == (PathModel {
            source: start,
            edges: plan@,
            target: chain_end(start, plan@, dma_edge_table()),
        }),
{
    let graph = DmaControllerGraph;
    let ghost table = dma_edge_table();
    let mut acc = FsmPath::identity(start);
    let n = plan.len();
    proof {
        assert(plan@.take(0) =~= Seq::<usize>::empty());
    }
    for k in 0..n
        invariant
            n == plan@.len(),
            is_path_in(
                PathModel { source: start, edges: plan@, target: chain_end(start, plan@, table) },
                table,
            ),
            table == dma_edge_table(),
            acc@ == (PathModel {
                source: start,
                edges: plan@.take(k as int),
                target: chain_end(start, plan@.take(k as int), table),
            }),
    {
        let e = plan[k];
        proof {
            assert(plan@[k as int] < table.len());
            if k > 0 {
                assert(table[plan@[k - 1] as int].1 == table[plan@[k as int] as int].0);
                assert(plan@.take(k as int).last() == plan@[k - 1]);
            }
        }
        let edge_path = match FsmPath::singleton(&graph, e) {
            Ok(p) => p,
            Err(err) => return Err(err),
        };
        acc = match acc.compose(edge_path) {
            Ok(p) => p,
            Err(err) => return Err(err),
        };
        proof {
            assert(plan@.take(k + 1) =~= plan@.take(k as int) + seq![e]);
        }
    }
    proof {
        assert(plan@.take(n as int) =~= plan@);
    }
    Ok(acc)
}

/// The single-transfer path, no looping and no error:
/// `Idle -> Configured -> ReadPhase -> WritePhase -> CheckDone -> Done -> Idle`.
pub fn single_transfer_path() -> (r: Result<FsmPath, GraphError>)
    ensures
        r matches Ok(p) && p@ == (PathModel {
            source: 0,
            edges: seq![0usize, 1, 2, 3, 5, 8],
            target: 0,
        }) && is_path_in(p@, dma_edge_table()),
{
    let plan: [usize; 6] = [0, 1, 2, 3, 5, 8];
    proof {
        assert(plan@ =~= seq![0usize, 1, 2, 3, 5, 8]);
    }
    path_along(0, &plan)
}

/// The error path from the read phase:
/// `Idle -> Configured -> ReadPhase -> Error -> Idle`.
pub fn read_error_path() -> (r: Result<FsmPath, GraphError>)
    ensures
        r matches Ok(p) && p@ == (PathModel { source: 0, edges: seq![0usize, 1, 6, 9], target: 0 })
            && is_path_in(p@, dma_edge_table()),
{
    let plan: [usize; 4] = [0, 1, 6, 9];
    proof {
        assert(plan@ =~= seq![0usize, 1, 6, 9]);
    }
    path_along(0, &plan)
}

} // verus!
