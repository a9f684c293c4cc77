//! Graph morphism mapping the AXI-Lite read FSM into bus states and action
//! descriptors, and its extension to paths.

use vstd::prelude::*;

use crate::action::{lemma_shape_push, shape_of_actions, ActionShape};
use crate::axi_lite::graph::read_graph::read_edge_table;
use crate::axi_lite::interpret::descriptor::{axi_action_count, axi_shape_count, AxiLiteAction};
use crate::path::{is_path_in, FsmPath, PathModel};

verus! {

/// Bus state at a read FSM vertex.
#[derive(Debug, Clone, PartialEq, Eq, Structural)]
pub struct ReadChannelState {
    vertex: usize,
    ar_valid: bool,
    r_ready: bool,
}

impl ReadChannelState {
    /// The vertex index.
    pub closed spec fn spec_vertex(self) -> usize {
        self.vertex
    }

    /// Whether ARVALID is asserted.
    pub closed spec fn spec_ar_valid(self) -> bool {
        self.ar_valid
    }

    /// Whether RREADY is asserted.
    pub closed spec fn spec_r_ready(self) -> bool {
        self.r_ready
    }

    /// The vertex index.
    pub fn vertex(&self) -> (r: usize)
        ensures
            r == self.spec_vertex(),
    {
        self.vertex
    }

    /// Whether ARVALID is asserted.
    pub fn ar_valid(&self) -> (r: bool)
        ensures
            r == self.spec_ar_valid(),
    {
        self.ar_valid
    }

    /// Whether RREADY is asserted.
    pub fn r_ready(&self) -> (r: bool)
        ensures
            r == self.spec_r_ready(),
    {
        self.r_ready
    }
}

/// The action of each read FSM edge; edges outside the graph act as the
/// identity.
pub open spec fn read_edge_action(e: usize) -> AxiLiteAction {
    if e == 0 {
        AxiLiteAction::AssertAddrValid
    } else if e == 1 {
        AxiLiteAction::AssertRespReady
    } else if e == 2 {
        AxiLiteAction::RespHandshake
    } else if e == 3 {
        AxiLiteAction::Complete
    } else {
        AxiLiteAction::Identity
    }
}

/// The non-identity actions of a list of edges, in order.
pub open spec fn read_actions(edges: Seq<usize>) -> Seq<AxiLiteAction>
    decreases edges.len(),
{
    if edges.len() == 0 {
        Seq::empty()
    } else {
        let before = read_actions(edges.drop_last());
        let a = read_edge_action(edges.last());
        if a is Identity {
            before
        } else {
            before.push(a)
        }
    }
}

/// Whether ARVALID is asserted at a read FSM vertex.
pub open spec fn read_ar_valid_at(v: usize) -> bool {
    v == 1
}

/// Whether RREADY is asserted at a read FSM vertex.
pub open spec fn read_r_ready_at(v: usize) -> bool {
    v == 2 || v > 3
}

/// Maps `AxiLiteReadGraph` into bus states and action descriptors.
pub struct AxiLiteReadMorphism;

impl AxiLiteReadMorphism {
    /// The bus state at a vertex: ARVALID in SendAddr (1), RREADY in
    /// WaitData (2) and past the last vertex, nothing in Idle (0) and
    /// GotData (3).
    pub fn map_vertex(&self, v: usize) -> (r: ReadChannelState)
        ensures
            r.spec_vertex() == v,
            r.spec_ar_valid() == (v == 1),
            r.spec_r_ready() == (v == 2 || v > 3),
            r.spec_ar_valid() == read_ar_valid_at(v),
            r.spec_r_ready() == read_r_ready_at(v),
    {
        match v {
            0 | 3 => ReadChannelState { vertex: v, ar_valid: false, r_ready: false },
            1 => ReadChannelState { vertex: v, ar_valid: true, r_ready: false },
            _ => ReadChannelState { vertex: v, ar_valid: false, r_ready: true },
        }
    }

    /// The action of an edge.
    pub fn map_edge(&self, e: usize) -> (r: AxiLiteAction)
        ensures
            r == read_edge_action(e),
    {
        match e {
            0 => AxiLiteAction::AssertAddrValid,
            1 => AxiLiteAction::AssertRespReady,
            2 => AxiLiteAction::RespHandshake,
            3 => AxiLiteAction::Complete,
            _ => AxiLiteAction::Identity,
        }
    }

    /// The functor this morphism extends to: a path goes to the composition
    /// of its edges' actions, in order; the empty path to the identity.
    pub fn interpret(&self, path: &FsmPath) -> (r: AxiLiteAction)
        ensures
            r@ == shape_of_actions(read_actions(path@.edges)),
    {
        let edges = path.edges();
        let n = edges.len();
        if n == 0 {
            let _ = self.map_vertex(path.source());
            return AxiLiteAction::identity();
        }
        let mut acc = self.map_edge(edges[0]);
        proof {
            assert(edges@.take(1).drop_last() =~= Seq::<usize>::empty());
            assert(edges@.take(1).last() == edges@[0]);
            assert(read_actions(edges@.take(1).drop_last()) == Seq::<AxiLiteAction>::empty());
            assert(Seq::<AxiLiteAction>::empty().push(acc) =~= seq![acc]);
        }
        for i in 1..n
            invariant
                n == edges@.len(),
                edges@ == path@.edges,
                acc@ == shape_of_actions(read_actions(edges@.take(i as int))),
        {
            let a = self.map_edge(edges[i]);
            proof {
                assert(edges@.take(i + 1).drop_last() =~= edges@.take(i as int));
                assert(edges@.take(i + 1).last() == edges@[i as int]);
                lemma_shape_push(read_actions(edges@.take(i as int)), a);
            }
            acc = acc.compose(a);
        }
        proof {
            assert(edges@.take(n as int) =~= edges@);
        }
        acc
    }
}

proof fn lemma_read_actions_of_path(edges: Seq<usize>)
    requires
        forall|i: int| 0 <= i < edges.len() ==> #[trigger] edges[i] < 4,
    ensures
        read_actions(edges).len() == edges.len(),
        forall|i: int|
            0 <= i < edges.len() ==> #[trigger] read_actions(edges)[i] == read_edge_action(
                edges[i],
            ),
    decreases edges.len(),
{
    if edges.len() > 0 {
        lemma_read_actions_of_path(edges.drop_last());
    }
}

/// Interpreting a path of the read graph gives one atomic action per edge:
/// the action of each edge, in order.
pub proof fn lemma_read_interpretation_per_edge(p: PathModel)
    requires
        is_path_in(p, read_edge_table()),
    ensures
        read_actions(p.edges) == p.edges.map_values(|e: usize| read_edge_action(e)),
        axi_shape_count(shape_of_actions(read_actions(p.edges))) == p.edges.len(),
{
    lemma_read_actions_of_path(p.edges);
    let acts = read_actions(p.edges);
    assert(acts =~= p.edges.map_values(|e: usize| read_edge_action(e)));
    crate::axi_lite::interpret::descriptor::lemma_axi_actions_count_atoms(acts);
    if acts.len() == 1 {
        assert(axi_action_count(acts[0]) == 1);
    }
}

/// Each read transition is named by what it does to the bus: the edge that
/// raises ARVALID asserts the address, the edge that raises RREADY asserts
/// response-ready, the edge that drops RREADY is the response handshake, and
/// the edge back into Idle completes the transfer.
pub proof fn lemma_read_edge_actions_follow_bus_state()
    ensures
        forall|e: int|
            #![trigger read_edge_table()[e]]
            0 <= e < read_edge_table().len() ==> {
                let s = read_edge_table()[e].0;
                let t = read_edge_table()[e].1;
                let a = read_edge_action(e as usize);
                &&& (a is AssertAddrValid) == (!read_ar_valid_at(s) && read_ar_valid_at(t))
                &&& (a is AssertRespReady) == (!read_r_ready_at(s) && read_r_ready_at(t))
                &&& (a is RespHandshake) == (read_r_ready_at(s) && !read_r_ready_at(t))
                &&& (a is Complete) == (t == 0)
                &&& !(a is Identity) && !(a is Sequence)
            },
{
    assert forall|e: int| #![trigger read_edge_table()[e]] 0 <= e < read_edge_table().len() implies {
        let s = read_edge_table()[e].0;
        let t = read_edge_table()[e].1;
        let a = read_edge_action(e as usize);
        &&& (a is AssertAddrValid) == (!read_ar_valid_at(s) && read_ar_valid_at(t))
        &&& (a is AssertRespReady) == (!read_r_ready_at(s) && read_r_ready_at(t))
        &&& (a is RespHandshake) == (read_r_ready_at(s) && !read_r_ready_at(t))
        &&& (a is Complete) == (t == 0)
        &&& !(a is Identity) && !(a is Sequence)
    } by {
        if e == 0 {} else if e == 1 {} else if e == 2 {} else {}
    }
}

} // verus!
