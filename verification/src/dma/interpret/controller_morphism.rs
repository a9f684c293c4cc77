//! Graph morphism mapping the DMA controller FSM into controller states and
//! action descriptors, and its extension to paths.

use vstd::prelude::*;

use crate::action::{lemma_shape_push, shape_of_actions};
use crate::dma::graph::controller_graph::dma_edge_table;
use crate::dma::interpret::descriptor::{
    dma_action_count, dma_shape_count, lemma_dma_actions_count_atoms, DmaAction,
};
use crate::path::{is_path_in, FsmPath, PathModel};

verus! {

/// DMA controller state at a given FSM vertex.
#[derive(Debug, Clone, PartialEq, Eq, Structural)]
pub struct DmaControllerState {
    vertex: usize,
    transferring: bool,
    error: bool,
}

impl DmaControllerState {
    /// The vertex index.
    pub closed spec fn spec_vertex(self) -> usize {
        self.vertex
    }

    /// Whether a transfer is in progress.
    pub closed spec fn spec_transferring(self) -> bool {
        self.transferring
    }

    /// Whether an error has occurred.
    pub closed spec fn spec_error(self) -> bool {
        self.error
    }

    /// The vertex index.
    pub fn vertex(&self) -> (r: usize)
        ensures
            r == self.spec_vertex(),
    {
        self.vertex
    }

    /// Whether a transfer is in progress.
    pub fn transferring(&self) -> (r: bool)
        ensures
            r == self.spec_transferring(),
    {
        self.transferring
    }

    /// Whether an error has occurred.
    pub fn error(&self) -> (r: bool)
        ensures
            r == self.spec_error(),
    {
        self.error
    }
}

/// The action of each controller edge; edges outside the graph act as the
/// identity.
pub open spec fn dma_edge_action(e: usize) -> DmaAction {
    if e == 0 {
        DmaAction::Configure
    } else if e == 1 || e == 4 {
        DmaAction::IssueRead
    } else if e == 2 {
        DmaAction::IssueWrite
    } else if e == 3 {
        DmaAction::CheckRemaining
    } else if e == 5 {
        DmaAction::Complete
    } else if e == 6 || e == 7 {
        DmaAction::Error
    } else if e == 8 || e == 9 {
        DmaAction::ReturnIdle
    } else {
        DmaAction::Identity
    }
}

/// The non-identity actions of a list of edges, in order.
pub open spec fn dma_actions(edges: Seq<usize>) -> Seq<DmaAction>
    decreases edges.len(),
{
    if edges.len() == 0 {
        Seq::empty()
    } else {
        let before = dma_actions(edges.drop_last());
        let a = dma_edge_action(edges.last());
        if a is Identity {
            before
        } else {
            before.push(a)
        }
    }
}

/// Maps `DmaControllerGraph` into controller states and action descriptors.
pub struct DmaControllerMorphism;

impl DmaControllerMorphism {
    /// The controller state at a vertex: idle in Idle (0) and Done (5), the
    /// error flag in Error (6), transferring in Configured, ReadPhase,
    /// WritePhase, CheckDone (1 to 4) and past the last vertex.
    pub fn map_vertex(&self, v: usize) -> (r: DmaControllerState)
        ensures
            r.spec_vertex() == v,
            r.spec_transferring() == (v != 0 && v != 5 && v != 6),
            r.spec_error() == (v == 6),
    {
        match v {
            0 | 5 => DmaControllerState { vertex: v, transferring: false, error: false },
            6 => DmaControllerState { vertex: v, transferring: false, error: true },
            _ => DmaControllerState { vertex: v, transferring: true, error: false },
        }
    }

    /// The action of an edge.
    pub fn map_edge(&self, e: usize) -> (r: DmaAction)
        ensures
            r == dma_edge_action(e),
    {
        match e {
            0 => DmaAction::Configure,
            1 | 4 => DmaAction::IssueRead,
            2 => DmaAction::IssueWrite,
            3 => DmaAction::CheckRemaining,
            5 => DmaAction::Complete,
            6 | 7 => DmaAction::Error,
            8 | 9 => DmaAction::ReturnIdle,
            _ => DmaAction::Identity,
        }
    }

    /// The functor this morphism extends to: a path goes to the composition
    /// of its edges' actions, in order; the empty path to the identity.
    pub fn interpret(&self, path: &FsmPath) -> (r: DmaAction)
        ensures
            r@ == shape_of_actions(dma_actions(path@.edges)),
    {
        let edges = path.edges();
        let n = edges.len();
        if n == 0 {
            let _ = self.map_vertex(path.source());
            return DmaAction::identity();
        }
        let mut acc = self.map_edge(edges[0]);
        proof {
            assert(edges@.take(1).drop_last() =~= Seq::<usize>::empty());
            assert(edges@.take(1).last() == edges@[0]);
            assert(dma_actions(edges@.take(1).drop_last()) == Seq::<DmaAction>::empty());
            assert(Seq::<DmaAction>::empty().push(acc) =~= seq![acc]);
        }
        for i in 1..n
            invariant
                n == edges@.len(),
                edges@ == path@.edges,
                acc@ == shape_of_actions(dma_actions(edges@.take(i as int))),
        {
            let a = self.map_edge(edges[i]);
            proof {
                assert(edges@.take(i + 1).drop_last() =~= edges@.take(i as int));
                assert(edges@.take(i + 1).last() == edges@[i as int]);
                lemma_shape_push(dma_actions(edges@.take(i as int)), a);
            }
            acc = acc.compose(a);
        }
        proof {
            assert(edges@.take(n as int) =~= edges@);
        }
        acc
    }
}

proof fn lemma_dma_actions_of_path(edges: Seq<usize>)
    requires
        forall|i: int| 0 <= i < edges.len() ==> #[trigger] edges[i] < 10,
    ensures
        dma_actions(edges).len() == edges.len(),
        forall|i: int|
            0 <= i < edges.len() ==> #[trigger] dma_actions(edges)[i] == dma_edge_action(edges[i]),
    decreases edges.len(),
{
    if edges.len() > 0 {
        lemma_dma_actions_of_path(edges.drop_last());
    }
}

/// Interpreting a path of the controller graph gives one atomic action per
/// edge: the action of each edge, in order.
pub proof fn lemma_dma_interpretation_per_edge(p: PathModel)
    requires
        is_path_in(p, dma_edge_table()),
    ensures
        dma_actions(p.edges) == p.edges.map_values(|e: usize| dma_edge_action(e)),
        dma_shape_count(shape_of_actions(dma_actions(p.edges))) == p.edges.len(),
{
    lemma_dma_actions_of_path(p.edges);
    let acts = dma_actions(p.edges);
    assert(acts =~= p.edges.map_values(|e: usize| dma_edge_action(e)));
    lemma_dma_actions_count_atoms(acts);
    if acts.len() == 1 {
        assert(dma_action_count(acts[0]) == 1);
    }
}

/// Each controller transition is named by the state it enters: entering
/// Configured (1) configures, entering ReadPhase (2) issues a read, entering
/// WritePhase (3) issues a write, entering CheckDone (4) checks what remains,
/// entering Done (5) completes, entering Error (6) reports the error, and
/// entering Idle (0) returns to idle.
pub proof fn lemma_dma_edge_actions_follow_target()
    ensures
        forall|e: int|
            #![trigger dma_edge_table()[e]]
            0 <= e < dma_edge_table().len() ==> {
                let t = dma_edge_table()[e].1;
                let a = dma_edge_action(e as usize);
                &&& (a is Configure) == (t == 1)
                &&& (a is IssueRead) == (t == 2)
                &&& (a is IssueWrite) == (t == 3)
                &&& (a is CheckRemaining) == (t == 4)
                &&& (a is Complete) == (t == 5)
                &&& (a is Error) == (t == 6)
                &&& (a is ReturnIdle) == (t == 0)
                &&& !(a is Identity) && !(a is Sequence)
            },
{
    assert forall|e: int| #![trigger dma_edge_table()[e]] 0 <= e < dma_edge_table().len() implies {
                let t = dma_edge_table()[e].1;
                let a = dma_edge_action(e as usize);
                &&& (a is Configure) == (t == 1)
                &&& (a is IssueRead) == (t == 2)
                &&& (a is IssueWrite) == (t == 3)
                &&& (a is CheckRemaining) == (t == 4)
                &&& (a is Complete) == (t == 5)
                &&& (a is Error) == (t == 6)
                &&& (a is ReturnIdle) == (t == 0)
                &&& !(a is Identity) && !(a is Sequence)
            } by {
        if e == 0 {} else if e == 1 {} else if e == 2 {} else if e == 3 {} else if e == 4 {}
        else if e == 5 {} else if e == 6 {} else if e == 7 {} else if e == 8 {} else {}
    }
}

/// Whether some controller edge issues an AXI access (a read or a write) and
/// enters `v`.
pub open spec fn dma_access_enters(v: usize) -> bool {
    exists|e: int|
        #![trigger dma_edge_table()[e]]
        0 <= e < dma_edge_table().len() && (dma_edge_action(e as usize) is IssueRead
            || dma_edge_action(e as usize) is IssueWrite) && dma_edge_table()[e].1 == v
}

/// Whether some controller edge goes from `v` to Error (6).
pub open spec fn dma_can_fail_from(v: usize) -> bool {
    exists|e: int|
        #![trigger dma_edge_table()[e]]
        0 <= e < dma_edge_table().len() && dma_edge_table()[e] == (v, 6usize)
}

/// Errors come from AXI accesses: the controller can move to Error exactly
/// from the states that an AXI read or write is issued into, so both the
/// read phase and the write phase can fail and no other state can.
pub proof fn lemma_dma_failures_follow_accesses()
    ensures
        forall|v: usize| #[trigger] dma_can_fail_from(v) == dma_access_enters(v),
{
    assert forall|v: usize| #[trigger] dma_can_fail_from(v) == dma_access_enters(v) by {
        let t = dma_edge_table();
        if v == 2 {
            assert(t[6] == (2usize, 6usize));
            assert(dma_edge_action(1) is IssueRead && t[1].1 == 2);
        } else if v == 3 {
            assert(t[7] == (3usize, 6usize));
            assert(dma_edge_action(2) is IssueWrite && t[2].1 == 3);
        } else {
            assert forall|e: int| #![trigger t[e]] 0 <= e < t.len() implies t[e] != (v, 6usize) && !((
                dma_edge_action(e as usize) is IssueRead || dma_edge_action(e as usize) is IssueWrite)
                && t[e].1 == v) by {
                if e == 0 {} else if e == 1 {} else if e == 2 {} else if e == 3 {} else if e == 4 {}
                else if e == 5 {} else if e == 6 {} else if e == 7 {} else if e == 8 {} else {}
            }
        }
    }
}

/// Transitions follow the order of a transfer: configuring starts from Idle
/// (0), a read is issued from Configured (1) or from CheckDone (4) when data
/// remains, a write only once the read phase (2) is over, the remaining
/// count is checked after the write phase (3), completion is decided in
/// CheckDone (4), errors arise in the read or write phase, and the
/// controller returns to idle from Done (5) or Error (6).
pub proof fn lemma_dma_edge_actions_follow_protocol_order()
    ensures
        forall|e: int|
            #![trigger dma_edge_table()[e]]
            0 <= e < dma_edge_table().len() ==> {
                let src = dma_edge_table()[e].0;
                let a = dma_edge_action(e as usize);
                &&& (a is Configure) ==> src == 0
                &&& (a is IssueRead) ==> (src == 1 || src == 4)
                &&& (a is IssueWrite) ==> src == 2
                &&& (a is CheckRemaining) ==> src == 3
                &&& (a is Complete) ==> src == 4
                &&& (a is Error) ==> (src == 2 || src == 3)
                &&& (a is ReturnIdle) ==> (src == 5 || src == 6)
            },
{
    assert forall|e: int| #![trigger dma_edge_table()[e]] 0 <= e < dma_edge_table().len() implies {
                let src = dma_edge_table()[e].0;
                let a = dma_edge_action(e as usize);
                &&& (a is Configure) ==> src == 0
                &&& (a is IssueRead) ==> (src == 1 || src == 4)
                &&& (a is IssueWrite) ==> src == 2
                &&& (a is CheckRemaining) ==> src == 3
                &&& (a is Complete) ==> src == 4
                &&& (a is Error) ==> (src == 2 || src == 3)
                &&& (a is ReturnIdle) ==> (src == 5 || src == 6)
            } by {
        if e == 0 {} else if e == 1 {} else if e == 2 {} else if e == 3 {} else if e == 4 {}
        else if e == 5 {} else if e == 6 {} else if e == 7 {} else if e == 8 {} else {}
    }
}

} // verus!
