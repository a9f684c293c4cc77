//! AXI-Lite action descriptors: what the handshaking transitions do.

use vstd::prelude::*;

use crate::action::{compose_shapes, top_level, ActionShape};

verus! {

/// An action performed during an AXI-Lite handshaking transition.
#[derive(Debug, PartialEq, Eq)]
pub enum AxiLiteAction {
    /// No-op (identity morphism).
    Identity,
    /// Assert address valid (AWVALID or ARVALID) with address.
    AssertAddrValid,
    /// Address handshake complete (READY received).
    AddrHandshake,
    /// Assert write data valid (WVALID) with data and strobe.
    AssertDataValid,
    /// Write data handshake complete (WREADY received).
    DataHandshake,
    /// Assert response ready (BREADY or RREADY).
    AssertRespReady,
    /// Response handshake complete (BVALID or RVALID received).
    RespHandshake,
    /// Transfer complete, return to idle.
    Complete,
    /// A composed sequence of actions.
    Sequence(Vec<AxiLiteAction>),
}

impl View for AxiLiteAction {
    type V = ActionShape<AxiLiteAction>;

    open spec fn view(&self) -> ActionShape<AxiLiteAction> {
        match self {
            AxiLiteAction::Identity => ActionShape::Identity,
            AxiLiteAction::Sequence(v) => ActionShape::Sequence(v@),
            _ => ActionShape::Atom(*self),
        }
    }
}

/// Whether two actions are equal, nested sequences compared element by
/// element.
pub open spec fn axi_same_action(a: AxiLiteAction, b: AxiLiteAction) -> bool
    decreases a,
{
    match a {
        AxiLiteAction::Sequence(v) => match b {
            AxiLiteAction::Sequence(w) => {
                proof {
                    assert(decreases_to!(a => v@));
                }
                axi_same_actions(v@, w@)
            },
            _ => false,
        },
        _ => a == b,
    }
}

/// Whether two lists of actions have the same length and equal actions at
/// each position.
pub open spec fn axi_same_actions(s: Seq<AxiLiteAction>, t: Seq<AxiLiteAction>) -> bool
    decreases s,
{
    if s.len() == 0 {
        t.len() == 0
    } else {
        proof {
            assert(decreases_to!(s => s[s.len() - 1]));
        }
        t.len() == s.len() && axi_same_actions(s.drop_last(), t.drop_last()) && axi_same_action(
            s[s.len() - 1],
            t[t.len() - 1],
        )
    }
}

/// The number of atomic actions in an action, counting through nested
/// sequences.
pub open spec fn axi_action_count(a: AxiLiteAction) -> nat
    decreases a,
{
    match a {
        AxiLiteAction::Identity => 0,
        AxiLiteAction::Sequence(v) => {
            proof {
                assert(decreases_to!(a => v@));
            }
            axi_actions_count(v@)
        },
        _ => 1,
    }
}

/// The number of atomic actions in a list of actions.
pub open spec fn axi_actions_count(s: Seq<AxiLiteAction>) -> nat
    decreases s,
{
    if s.len() == 0 {
        0
    } else {
        proof {
            assert(decreases_to!(s => s[s.len() - 1]));
        }
        axi_actions_count(s.drop_last()) + axi_action_count(s[s.len() - 1])
    }
}

proof fn lemma_actions_count_append(s: Seq<AxiLiteAction>, t: Seq<AxiLiteAction>)
    ensures
        axi_actions_count(s + t) == axi_actions_count(s) + axi_actions_count(t),
    decreases t.len(),
{
    if t.len() == 0 {
        assert(s + t =~= s);
    } else {
        assert((s + t).drop_last() =~= s + t.drop_last());
        lemma_actions_count_append(s, t.drop_last());
    }
}

proof fn lemma_actions_count_prefix(s: Seq<AxiLiteAction>, i: int)
    requires
        0 <= i <= s.len(),
    ensures
        axi_actions_count(s.take(i)) <= axi_actions_count(s),
        i < s.len() ==> axi_actions_count(s.take(i)) + axi_action_count(s[i]) <= axi_actions_count(s),
        i < s.len() ==> axi_actions_count(s.take(i + 1)) == axi_actions_count(s.take(i))
            + axi_action_count(s[i]),
{
    lemma_actions_count_append(s.take(i), s.skip(i));
    assert(s.take(i) + s.skip(i) =~= s);
    if i < s.len() {
        assert(s.take(i + 1).drop_last() =~= s.take(i));
        lemma_actions_count_append(s.take(i + 1), s.skip(i + 1));
        assert(s.take(i + 1) + s.skip(i + 1) =~= s);
    }
}

/// A list of atomic actions counts one per action.
pub proof fn lemma_axi_actions_count_atoms(s: Seq<AxiLiteAction>)
    requires
        forall|i: int|
            0 <= i < s.len() ==> !(#[trigger] s[i] is Identity) && !(s[i] is Sequence),
    ensures
        axi_actions_count(s) == s.len(),
    decreases s.len(),
{
    if s.len() > 0 {
        let t = s.drop_last();
        assert forall|i: int| 0 <= i < t.len() implies !(#[trigger] t[i] is Identity) && !(
        t[i] is Sequence) by {
            assert(t[i] == s[i]);
        }
        lemma_axi_actions_count_atoms(t);
        let x = s[s.len() - 1];
        assert(!(x is Identity) && !(x is Sequence));
        assert(axi_action_count(x) == 1);
    }
}

/// The number of atomic actions of an action shape.
pub open spec fn axi_shape_count(s: ActionShape<AxiLiteAction>) -> nat {
    match s {
        ActionShape::Identity => 0,
        ActionShape::Atom(_) => 1,
        ActionShape::Sequence(v) => axi_actions_count(v),
    }
}

/// The count of a composition is the sum of the counts: counting atomic
/// actions is a monoid homomorphism.
pub proof fn lemma_axi_count_of_compose(
    a: ActionShape<AxiLiteAction>,
    b: ActionShape<AxiLiteAction>,
)
    requires
        a is Atom ==> axi_action_count(a->Atom_0) == 1,
        b is Atom ==> axi_action_count(b->Atom_0) == 1,
    ensures
        axi_shape_count(compose_shapes(a, b)) == axi_shape_count(a) + axi_shape_count(b),
{
    reveal_with_fuel(axi_actions_count, 2);
    if !(a is Identity) && !(b is Identity) {
        lemma_actions_count_append(top_level(a), top_level(b));
        if a is Atom {
            assert(axi_actions_count(top_level(a)) == 1) by {
                assert(top_level(a).drop_last() =~= Seq::<AxiLiteAction>::empty());
            }
        }
        if b is Atom {
            assert(axi_actions_count(top_level(b)) == 1) by {
                assert(top_level(b).drop_last() =~= Seq::<AxiLiteAction>::empty());
            }
        }
    }
}

/// The count of an action is the count of its shape.
pub proof fn lemma_axi_count_of_view(a: AxiLiteAction)
    ensures
        axi_action_count(a) == axi_shape_count(a@),
{
}

impl Clone for AxiLiteAction {
    /// A copy of the action, nested sequences included.
    fn clone(&self) -> (r: Self)
        ensures
            axi_same_action(*self, r),
        decreases *self,
    {
        match self {
            AxiLiteAction::Sequence(actions) => {
                let n = actions.len();
                let mut copy: Vec<AxiLiteAction> = Vec::new();
                proof {
                    assert(actions@.take(0) =~= Seq::<AxiLiteAction>::empty());
                }
                for i in 0..n
                    invariant
                        n == actions@.len(),
                        *self is Sequence,
                        (*self)->Sequence_0 == *actions,
                        copy@.len() == i,
                        axi_same_actions(actions@.take(i as int), copy@),
                {
                    proof {
                        assert(decreases_to!(*self => (*self)->Sequence_0));
                        assert(decreases_to!(*actions => actions[i as int]));
                    }
                    let c = actions[i].clone();
                    let ghost before = copy@;
                    copy.push(c);
                    proof {
                        assert(actions@.take(i + 1).drop_last() =~= actions@.take(i as int));
                        assert(copy@.drop_last() =~= before);
                    }
                }
                let r = AxiLiteAction::Sequence(copy);
                proof {
                    assert(actions@.take(n as int) =~= actions@);
                }
                r
            },
            AxiLiteAction::Identity => AxiLiteAction::Identity,
            AxiLiteAction::AssertAddrValid => AxiLiteAction::AssertAddrValid,
            AxiLiteAction::AddrHandshake => AxiLiteAction::AddrHandshake,
            AxiLiteAction::AssertDataValid => AxiLiteAction::AssertDataValid,
            AxiLiteAction::DataHandshake => AxiLiteAction::DataHandshake,
            AxiLiteAction::AssertRespReady => AxiLiteAction::AssertRespReady,
            AxiLiteAction::RespHandshake => AxiLiteAction::RespHandshake,
            AxiLiteAction::Complete => AxiLiteAction::Complete,
        }
    }
}

impl AxiLiteAction {
    /// The identity action.
    pub fn identity() -> (r: Self)
        ensures
            r@ == ActionShape::<AxiLiteAction>::Identity,
    {
        AxiLiteAction::Identity
    }

    /// Compose two actions sequentially.
    pub fn compose(self, other: Self) -> (r: Self)
        ensures
            r@ == compose_shapes(self@, other@),
    {
        match self {
            AxiLiteAction::Identity => other,
            AxiLiteAction::Sequence(a) => match other {
                AxiLiteAction::Identity => AxiLiteAction::Sequence(a),
                AxiLiteAction::Sequence(b) => {
                    let mut a = a;
                    let mut b = b;
                    a.append(&mut b);
                    proof {
                        assert(a@ =~= top_level(self@) + top_level(other@));
                    }
                    AxiLiteAction::Sequence(a)
                },
                b => {
                    let mut a = a;
                    a.push(b);
                    proof {
                        assert(a@ =~= top_level(self@) + top_level(other@));
                    }
                    AxiLiteAction::Sequence(a)
                },
            },
            a => match other {
                AxiLiteAction::Identity => a,
                AxiLiteAction::Sequence(b) => {
                    let mut v = Vec::new();
                    v.push(a);
                    let mut b = b;
                    v.append(&mut b);
                    proof {
                        assert(v@ =~= top_level(self@) + top_level(other@));
                    }
                    AxiLiteAction::Sequence(v)
                },
                b => {
                    let mut v = Vec::new();
                    v.push(a);
                    v.push(b);
                    proof {
                        assert(v@ =~= top_level(self@) + top_level(other@));
                    }
                    AxiLiteAction::Sequence(v)
                },
            },
        }
    }

    /// Number of atomic actions, counting through nested sequences.
    pub fn action_count(&self) -> (r: usize)
        requires
            axi_action_count(*self) <= usize::MAX,
        ensures
            r == axi_action_count(*self),
        decreases *self,
    {
        match self {
            AxiLiteAction::Identity => 0,
            AxiLiteAction::Sequence(actions) => {
                let n = actions.len();
                let mut sum: usize = 0;
                for i in 0..n
                    invariant
                        n == actions@.len(),
                        *self is Sequence,
                        (*self)->Sequence_0 == *actions,
                        axi_action_count(*self) <= usize::MAX,
                        axi_action_count(*self) == axi_actions_count(actions@),
                        sum == axi_actions_count(actions@.take(i as int)),
                {
                    proof {
                        lemma_actions_count_prefix(actions@, i as int);
                        assert(decreases_to!(*self => (*self)->Sequence_0));
                        assert(decreases_to!(*actions => actions[i as int]));
                    }
                    let c = actions[i].action_count();
                    sum = sum + c;
                }
                proof {
                    assert(actions@.take(n as int) =~= actions@);
                }
                sum
            },
            _ => 1,
        }
    }
}

} // verus!
