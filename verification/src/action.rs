//! The monoid of action sequences that the protocol state machines are
//! interpreted into.
//!
//! An action is the identity, a single atomic action, or a sequence of
//! actions.  Composition drops identities and concatenates the top-level
//! actions of both sides, so it is associative with the identity as unit.

use vstd::prelude::*;

verus! {

/// The top-level shape of an action.
pub enum ActionShape<A> {
    /// The identity (no action).
    Identity,
    /// One atomic action.
    Atom(A),
    /// A sequence of actions.
    Sequence(Seq<A>),
}

/// The top-level actions of a shape that is not the identity.
pub open spec fn top_level<A>(s: ActionShape<A>) -> Seq<A> {
    match s {
        ActionShape::Sequence(v) => v,
        ActionShape::Atom(a) => seq![a],
        ActionShape::Identity => Seq::empty(),
    }
}

/// Composition: identities vanish, otherwise the sequence of both sides'
/// top-level actions.
pub open spec fn compose_shapes<A>(a: ActionShape<A>, b: ActionShape<A>) -> ActionShape<A> {
    if a is Identity {
        b
    } else if b is Identity {
        a
    } else {
        ActionShape::Sequence(top_level(a) + top_level(b))
    }
}

/// The identity is a left and a right unit of composition.
pub proof fn lemma_identity_is_neutral<A>(a: ActionShape<A>)
    ensures
        compose_shapes(ActionShape::Identity, a) == a,
        compose_shapes(a, ActionShape::Identity) == a,
{
}

/// Composition is associative.
pub proof fn lemma_compose_associative<A>(a: ActionShape<A>, b: ActionShape<A>, c: ActionShape<A>)
    ensures
        compose_shapes(compose_shapes(a, b), c) == compose_shapes(a, compose_shapes(b, c)),
{
    if !(a is Identity) && !(b is Identity) && !(c is Identity) {
        assert(top_level(a) + top_level(b) + top_level(c) =~= top_level(a) + (top_level(b)
            + top_level(c)));
    }
}


/// The shape of the composition of a list of atomic actions, in order: the
/// identity for none, the action itself for one, their sequence otherwise.
pub open spec fn shape_of_actions<A>(s: Seq<A>) -> ActionShape<A> {
    if s.len() == 0 {
        ActionShape::Identity
    } else if s.len() == 1 {
        ActionShape::Atom(s[0])
    } else {
        ActionShape::Sequence(s)
    }
}

/// Composing the shape of a list with one more atomic action gives the
/// shape of the longer list.
pub proof fn lemma_shape_push<A>(s: Seq<A>, x: A)
    ensures
        shape_of_actions(s.push(x)) == compose_shapes(shape_of_actions(s), ActionShape::Atom(x)),
{
    if s.len() == 1 {
        assert(s.push(x) =~= seq![s[0]] + seq![x]);
    } else if s.len() > 1 {
        assert(s.push(x) =~= s + seq![x]);
    }
}

} // verus!
