//! DMA action descriptors: what the controller transitions do.

use vstd::prelude::*;

use crate::action::{compose_shapes, top_level, ActionShape};

verus! {

/// An action performed during a DMA controller FSM transition.
#[derive(Debug, PartialEq, Eq)]
pub enum DmaAction {
    /// No-op (identity morphism).
    Identity,
    /// Configure: load registers, prepare for transfer.
    Configure,
    /// Issue AXI read from source address.
    IssueRead,
    /// Issue AXI write to destination address.
    IssueWrite,
    /// Check whether more data remains to transfer.
    CheckRemaining,
    /// Transfer complete, set done status.
    Complete,
    /// Error occurred, set error status.
    Error,
    /// Return to idle.
    ReturnIdle,
    /// A composed sequence of actions.
    Sequence(Vec<DmaAction>),
}

impl View for DmaAction {
    type V = ActionShape<DmaAction>;

    open spec fn view(&self) -> ActionShape<DmaAction> {
        match self {
            DmaAction::Identity => ActionShape::Identity,
            DmaAction::Sequence(v) => ActionShape::Sequence(v@),
            _ => ActionShape::Atom(*self),
        }
    }
}

/// Whether two actions are equal, nested sequences compared element by
/// element.
pub open spec fn dma_same_action(a: DmaAction, b: DmaAction) -> bool
    decreases a,
{
    match a {
        DmaAction::Sequence(v) => match b {
            DmaAction::Sequence(w) => {
                proof {
                    assert(decreases_to!(a => v@));
                }
                dma_same_actions(v@, w@)
            },
            _ => false,
        },
        _ => a == b,
    }
}

/// Whether two lists of actions have the same length and equal actions at
/// each position.
pub open spec fn dma_same_actions(s: Seq<DmaAction>, t: Seq<DmaAction>) -> bool
    decreases s,
{
    if s.len() == 0 {
        t.len() == 0
    } else {
        proof {
            assert(decreases_to!(s => s[s.len() - 1]));
        }
        t.len() == s.len() && dma_same_actions(s.drop_last(), t.drop_last()) && dma_same_action(
            s[s.len() - 1],
            t[t.len() - 1],
        )
    }
}

/// The number of atomic actions in an action, counting through nested
/// sequences.
pub open spec fn dma_action_count(a: DmaAction) -> nat
    decreases a,
{
    match a {
        DmaAction::Identity => 0,
        DmaAction::Sequence(v) => {
            proof {
                assert(decreases_to!(a => v@));
            }
            dma_actions_count(v@)
        },
        _ => 1,
    }
}

/// The number of atomic actions in a list of actions.
pub open spec fn dma_actions_count(s: Seq<DmaAction>) -> nat
    decreases s,
{
    if s.len() == 0 {
        0
    } else {
        proof {
            assert(decreases_to!(s => s[s.len() - 1]));
        }
        dma_actions_count(s.drop_last()) + dma_action_count(s[s.len() - 1])
    }
}

proof fn lemma_dma_actions_count_append(s: Seq<DmaAction>, t: Seq<DmaAction>)
    ensures
        dma_actions_count(s + t) == dma_actions_count(s) + dma_actions_count(t),
    decreases t.len(),
{
    if t.len() == 0 {
        assert(s + t =~= s);
    } else {
        assert((s + t).drop_last() =~= s + t.drop_last());
        lemma_dma_actions_count_append(s, t.drop_last());
    }
}

proof fn lemma_dma_actions_count_prefix(s: Seq<DmaAction>, i: int)
    requires
        0 <= i <= s.len(),
    ensures
        dma_actions_count(s.take(i)) <= dma_actions_count(s),
        i < s.len() ==> dma_actions_count(s.take(i)) + dma_action_count(s[i]) <= dma_actions_count(s),
        i < s.len() ==> dma_actions_count(s.take(i + 1)) == dma_actions_count(s.take(i))
            + dma_action_count(s[i]),
{
    lemma_dma_actions_count_append(s.take(i), s.skip(i));
    assert(s.take(i) + s.skip(i) =~= s);
    if i < s.len() {
        assert(s.take(i + 1).drop_last() =~= s.take(i));
        lemma_dma_actions_count_append(s.take(i + 1), s.skip(i + 1));
        assert(s.take(i + 1) + s.skip(i + 1) =~= s);
    }
}

/// A list of atomic actions counts one per action.
pub proof fn lemma_dma_actions_count_atoms(s: Seq<DmaAction>)
    requires
        forall|i: int|
            0 <= i < s.len() ==> !(#[trigger] s[i] is Identity) && !(s[i] is Sequence),
    ensures
        dma_actions_count(s) == s.len(),
    decreases s.len(),
{
    if s.len() > 0 {
        let t = s.drop_last();
        assert forall|i: int| 0 <= i < t.len() implies !(#[trigger] t[i] is Identity) && !(
        t[i] is Sequence) by {
            assert(t[i] == s[i]);
        }
        lemma_dma_actions_count_atoms(t);
        let x = s[s.len() - 1];
        assert(!(x is Identity) && !(x is Sequence));
        assert(dma_action_count(x) == 1);
    }
}

/// The number of atomic actions of an action shape.
pub open spec fn dma_shape_count(s: ActionShape<DmaAction>) -> nat {
    match s {
        ActionShape::Identity => 0,
        ActionShape::Atom(_) => 1,
        ActionShape::Sequence(v) => dma_actions_count(v),
    }
}

/// The count of a composition is the sum of the counts: counting atomic
/// actions is a monoid homomorphism.
pub proof fn lemma_dma_count_of_compose(
    a: ActionShape<DmaAction>,
    b: ActionShape<DmaAction>,
)
    requires
        a is Atom ==> dma_action_count(a->Atom_0) == 1,
        b is Atom ==> dma_action_count(b->Atom_0) == 1,
    ensures
        dma_shape_count(compose_shapes(a, b)) == dma_shape_count(a) + dma_shape_count(b),
{
    reveal_with_fuel(dma_actions_count, 2);
    if !(a is Identity) && !(b is Identity) {
        lemma_dma_actions_count_append(top_level(a), top_level(b));
        if a is Atom {
            assert(dma_actions_count(top_level(a)) == 1) by {
                assert(top_level(a).drop_last() =~= Seq::<DmaAction>::empty());
            }
        }
        if b is Atom {
            assert(dma_actions_count(top_level(b)) == 1) by {
                assert(top_level(b).drop_last() =~= Seq::<DmaAction>::empty());
            }
        }
    }
}

/// The count of an action is the count of its shape.
pub proof fn lemma_dma_count_of_view(a: DmaAction)
    ensures
        dma_action_count(a) == dma_shape_count(a@),
{
}

impl Clone for DmaAction {
    /// A copy of the action, nested sequences included.
    fn clone(&self) -> (r: Self)
        ensures
            dma_same_action(*self, r),
        decreases *self,
    {
        match self {
            DmaAction::Sequence(actions) => {
                let n = actions.len();
                let mut copy: Vec<DmaAction> = Vec::new();
                proof {
                    assert(actions@.take(0) =~= Seq::<DmaAction>::empty());
                }
                for i in 0..n
                    invariant
                        n == actions@.len(),
                        *self is Sequence,
                        (*self)->Sequence_0 == *actions,
                        copy@.len() == i,
                        dma_same_actions(actions@.take(i as int), copy@),
                {
                    proof {
                        assert(decreases_to!(*self => (*self)->Sequence_0));
                        assert(decreases_to!(*actions => actions[i as int]));
                    }
                    let c = actions[i].clone();
                    let ghost before = copy@;
                    copy.push(c);
                    proof {
                        assert(actions@.take(i + 1).drop_last() =~= actions@.take(i as int));
                        assert(copy@.drop_last() =~= before);
                    }
                }
                let r = DmaAction::Sequence(copy);
                proof {
                    assert(actions@.take(n as int) =~= actions@);
                }
                r
            },
            DmaAction::Identity => DmaAction::Identity,
            DmaAction::Configure => DmaAction::Configure,
            DmaAction::IssueRead => DmaAction::IssueRead,
            DmaAction::IssueWrite => DmaAction::IssueWrite,
            DmaAction::CheckRemaining => DmaAction::CheckRemaining,
            DmaAction::Complete => DmaAction::Complete,
            DmaAction::Error => DmaAction::Error,
            DmaAction::ReturnIdle => DmaAction::ReturnIdle,
        }
    }
}

impl DmaAction {
    /// The identity action.
    pub fn identity() -> (r: Self)
        ensures
            r@ == ActionShape::<DmaAction>::Identity,
    {
        DmaAction::Identity
    }

    /// Compose two actions sequentially.
    pub fn compose(self, other: Self) -> (r: Self)
        ensures
            r@ == compose_shapes(self@, other@),
    {
        match self {
            DmaAction::Identity => other,
            DmaAction::Sequence(a) => match other {
                DmaAction::Identity => DmaAction::Sequence(a),
                DmaAction::Sequence(b) => {
                    let mut a = a;
                    let mut b = b;
                    a.append(&mut b);
                    proof {
                        assert(a@ =~= top_level(self@) + top_level(other@));
                    }
                    DmaAction::Sequence(a)
                },
                b => {
                    let mut a = a;
                    a.push(b);
                    proof {
                        assert(a@ =~= top_level(self@) + top_level(other@));
                    }
                    DmaAction::Sequence(a)
                },
            },
            a => match other {
                DmaAction::Identity => a,
                DmaAction::Sequence(b) => {
                    let mut v = Vec::new();
                    v.push(a);
                    let mut b = b;
                    v.append(&mut b);
                    proof {
                        assert(v@ =~= top_level(self@) + top_level(other@));
                    }
                    DmaAction::Sequence(v)
                },
                b => {
                    let mut v = Vec::new();
                    v.push(a);
                    v.push(b);
                    proof {
                        assert(v@ =~= top_level(self@) + top_level(other@));
                    }
                    DmaAction::Sequence(v)
                },
            },
        }
    }

    /// Number of atomic actions, counting through nested sequences.
    pub fn action_count(&self) -> (r: usize)
        requires
            dma_action_count(*self) <= usize::MAX,
        ensures
            r == dma_action_count(*self),
        decreases *self,
    {
        match self {
            DmaAction::Identity => 0,
            DmaAction::Sequence(actions) => {
                let n = actions.len();
                let mut sum: usize = 0;
                for i in 0..n
                    invariant
                        n == actions@.len(),
                        *self is Sequence,
                        (*self)->Sequence_0 == *actions,
                        dma_action_count(*self) <= usize::MAX,
                        dma_action_count(*self) == dma_actions_count(actions@),
                        sum == dma_actions_count(actions@.take(i as int)),
                {
                    proof {
                        lemma_dma_actions_count_prefix(actions@, i as int);
                        assert(decreases_to!(*self => (*self)->Sequence_0));
                        assert(decreases_to!(*actions => actions[i as int]));
                    }
                    let c = actions[i].action_count();
                    sum = sum + c;
                }
                proof {
                    assert(actions@.take(n as int) =~= actions@);
                }
                sum
            },
            _ => 1,
        }
    }
}

} // verus!
