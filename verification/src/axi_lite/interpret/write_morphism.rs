//! Graph morphism mapping the AXI-Lite write FSM into bus states and action
//! descriptors, and its extension to paths.

use vstd::prelude::*;

use crate::action::{lemma_shape_push, shape_of_actions, ActionShape};
use crate::axi_lite::graph::write_graph::write_edge_table;
use crate::axi_lite::interpret::descriptor::{axi_action_count, axi_shape_count, AxiLiteAction};
use crate::path::{is_path_in, FsmPath, PathModel};

verus! {

/// Bus state at a write FSM vertex.
#[derive(Debug, Clone, PartialEq, Eq, Structural)]
pub struct WriteChannelState {
    vertex: usize,
    aw_valid: bool,
    w_valid: bool,
    b_ready: bool,
}

impl WriteChannelState {
    /// The vertex index.
    pub closed spec fn spec_vertex(self) -> usize {
        self.vertex
    }

    /// Whether AWVALID is asserted.
    pub closed spec fn spec_aw_valid(self) -> bool {
        self.aw_valid
    }

    /// Whether WVALID is asserted.
    pub closed spec fn spec_w_valid(self) -> bool {
        self.w_valid
    }

    /// Whether BREADY is asserted.
    pub closed spec fn spec_b_ready(self) -> bool {
        self.b_ready
    }

    /// The vertex index.
    pub fn vertex(&self) -> (r: usize)
        ensures
            r == self.spec_vertex(),
    {
        self.vertex
    }

    /// Whether AWVALID is asserted.
    pub fn aw_valid(&self) -> (r: bool)
        ensures
            r == self.spec_aw_valid(),
    {
        self.aw_valid
    }

    /// Whether WVALID is asserted.
    pub fn w_valid(&self) -> (r: bool)
        ensures
            r == self.spec_w_valid(),
    {
        self.w_valid
    }

    /// Whether BREADY is asserted.
    pub fn b_ready(&self) -> (r: bool)
        ensures
            r == self.spec_b_ready(),
    {
        self.b_ready
    }
}

/// The action of each write FSM edge; edges outside the graph act as the
/// identity.
pub open spec fn write_edge_action(e: usize) -> AxiLiteAction {
    if e == 0 {
        AxiLiteAction::AssertAddrValid
    } else if e == 1 {
        AxiLiteAction::AssertDataValid
    } else if e == 2 {
        AxiLiteAction::AssertRespReady
    } else if e == 3 {
        AxiLiteAction::RespHandshake
    } else if e == 4 {
        AxiLiteAction::Complete
    } else {
        AxiLiteAction::Identity
    }
}

/// The non-identity actions of a list of edges, in order.
pub open spec fn write_actions(edges: Seq<usize>) -> Seq<AxiLiteAction>
    decreases edges.len(),
{
    if edges.len() == 0 {
        Seq::empty()
    } else {
        let before = write_actions(edges.drop_last());
        let a = write_edge_action(edges.last());
        if a is Identity {
            before
        } else {
            before.push(a)
        }
    }
}

/// Whether AWVALID is asserted at a write FSM vertex.
pub open spec fn write_aw_valid_at(v: usize) -> bool {
    v == 1
}

/// Whether WVALID is asserted at a write FSM vertex.
pub open spec fn write_w_valid_at(v: usize) -> bool {
    v == 2
}

/// Whether BREADY is asserted at a write FSM vertex.
pub open spec fn write_b_ready_at(v: usize) -> bool {
    v == 3 || v > 4
}

/// Maps `AxiLiteWriteGraph` into bus states and action descriptors.
pub struct AxiLiteWriteMorphism;

impl AxiLiteWriteMorphism {
    /// The bus state at a vertex: AWVALID in SendAddr (1), WVALID in
    /// SendData (2), BREADY in WaitResp (3) and past the last vertex, nothing
    /// in Idle (0) and GotResp (4).
    pub fn map_vertex(&self, v: usize) -> (r: WriteChannelState)
        ensures
            r.spec_vertex() == v,
            r.spec_aw_valid() == (v == 1),
            r.spec_w_valid() == (v == 2),
            r.spec_b_ready() == (v == 3 || v > 4),
            r.spec_aw_valid() == write_aw_valid_at(v),
            r.spec_w_valid() == write_w_valid_at(v),
            r.spec_b_ready() == write_b_ready_at(v),
    {
        match v {
            0 | 4 => WriteChannelState { vertex: v, aw_valid: false, w_valid: false, b_ready: false },
            1 => WriteChannelState { vertex: v, aw_valid: true, w_valid: false, b_ready: false },
            2 => WriteChannelState { vertex: v, aw_valid: false, w_valid: true, b_ready: false },
            _ => WriteChannelState { vertex: v, aw_valid: false, w_valid: false, b_ready: true },
        }
    }

    /// The action of an edge.
    pub fn map_edge(&self, e: usize) -> (r: AxiLiteAction)
        ensures
            r == write_edge_action(e),
    {
        match e {
            0 => AxiLiteAction::AssertAddrValid,
            1 => AxiLiteAction::AssertDataValid,
            2 => AxiLiteAction::AssertRespReady,
            3 => AxiLiteAction::RespHandshake,
            4 => AxiLiteAction::Complete,
            _ => AxiLiteAction::Identity,
        }
    }

    /// The functor this morphism extends to: a path goes to the composition
    /// of its edges' actions, in order; the empty path to the identity.
    pub fn interpret(&self, path: &FsmPath) -> (r: AxiLiteAction)
        ensures
            r@ == shape_of_actions(write_actions(path@.edges)),
    {
        let edges = path.edges();
        let n = edges.len();
        if n == 0 {
            let _ = self.map_vertex(path.source());
            return AxiLiteAction::identity();
        }
        let mut acc = self.map_edge(edges[0]);
        proof {
            assert(edges@.take(1).drop_last() =~= Seq::<usize>::empty());
            assert(edges@.take(1).last() == edges@[0]);
            assert(write_actions(edges@.take(1).drop_last()) == Seq::<AxiLiteAction>::empty());
            assert(Seq::<AxiLiteAction>::empty().push(acc) =~= seq![acc]);
        }
        for i in 1..n
            invariant
                n == edges@.len(),
                edges@ == path@.edges,
                acc@ == shape_of_actions(write_actions(edges@.take(i as int))),
        {
            let a = self.map_edge(edges[i]);
            proof {
                assert(edges@.take(i + 1).drop_last() =~= edges@.take(i as int));
                assert(edges@.take(i + 1).last() == edges@[i as int]);
                lemma_shape_push(write_actions(edges@.take(i as int)), a);
            }
            acc = acc.compose(a);
        }
        proof {
            assert(edges@.take(n as int) =~= edges@);
        }
        acc
    }
}

proof fn lemma_write_actions_of_path(edges: Seq<usize>)
    requires
        forall|i: int| 0 <= i < edges.len() ==> #[trigger] edges[i] < 5,
    ensures
        write_actions(edges).len() == edges.len(),
        forall|i: int|
            0 <= i < edges.len() ==> #[trigger] write_actions(edges)[i] == write_edge_action(
                edges[i],
            ),
    decreases edges.len(),
{
    if edges.len() > 0 {
        lemma_write_actions_of_path(edges.drop_last());
    }
}

/// Interpreting a path of the write graph gives one atomic action per edge:
/// the action of each edge, in order.
pub proof fn lemma_write_interpretation_per_edge(p: PathModel)
    requires
        is_path_in(p, write_edge_table()),
    ensures
        write_actions(p.edges) == p.edges.map_values(|e: usize| write_edge_action(e)),
        axi_shape_count(shape_of_actions(write_actions(p.edges))) == p.edges.len(),
{
    lemma_write_actions_of_path(p.edges);
    let acts = write_actions(p.edges);
    assert(acts =~= p.edges.map_values(|e: usize| write_edge_action(e)));
    crate::axi_lite::interpret::descriptor::lemma_axi_actions_count_atoms(acts);
    if acts.len() == 1 {
        assert(axi_action_count(acts[0]) == 1);
    }
}

/// Each write transition is named by what it does to the bus: the edge that
/// raises AWVALID asserts the address, the edge that raises WVALID asserts
/// the data, the edge that raises BREADY asserts response-ready, the edge
/// that drops BREADY is the response handshake, and the edge back into Idle
/// completes the transfer.
pub proof fn lemma_write_edge_actions_follow_bus_state()
    ensures
        forall|e: int|
            #![trigger write_edge_table()[e]]
            0 <= e < write_edge_table().len() ==> {
                let s = write_edge_table()[e].0;
                let t = write_edge_table()[e].1;
                let a = write_edge_action(e as usize);
                &&& (a is AssertAddrValid) == (!write_aw_valid_at(s) && write_aw_valid_at(t))
                &&& (a is AssertDataValid) == (!write_w_valid_at(s) && write_w_valid_at(t))
                &&& (a is AssertRespReady) == (!write_b_ready_at(s) && write_b_ready_at(t))
                &&& (a is RespHandshake) == (write_b_ready_at(s) && !write_b_ready_at(t))
                &&& (a is Complete) == (t == 0)
                &&& !(a is Identity) && !(a is Sequence)
            },
{
    assert forall|e: int| #![trigger write_edge_table()[e]] 0 <= e < write_edge_table().len() implies {
        let s = write_edge_table()[e].0;
        let t = write_edge_table()[e].1;
        let a = write_edge_action(e as usize);
        &&& (a is AssertAddrValid) == (!write_aw_valid_at(s) && write_aw_valid_at(t))
        &&& (a is AssertDataValid) == (!write_w_valid_at(s) && write_w_valid_at(t))
        &&& (a is AssertRespReady) == (!write_b_ready_at(s) && write_b_ready_at(t))
        &&& (a is RespHandshake) == (write_b_ready_at(s) && !write_b_ready_at(t))
        &&& (a is Complete) == (t == 0)
        &&& !(a is Identity) && !(a is Sequence)
    } by {
        if e == 0 {} else if e == 1 {} else if e == 2 {} else if e == 3 {} else {}
    }
}

} // verus!
