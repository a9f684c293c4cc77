//! Paths in the free category over a finite state machine graph.
//!
//! A graph is a table of edges, each with a source and a target vertex.
//! Its free category has the vertices as objects and the paths (chains of
//! composable edges) as morphisms; composition concatenates paths and the
//! empty path on a vertex is the identity.

use vstd::prelude::*;

use crate::text::{decimal, push_decimal};

verus! {

/// Errors arising from graph and path operations.
#[derive(Debug, Clone, Copy, PartialEq, Eq, Structural)]
pub enum GraphError {
    /// An edge index was out of bounds.
    EdgeOutOfBounds { edge: usize, count: usize },
    /// A vertex index was out of bounds.
    VertexOutOfBounds { vertex: usize, count: usize },
    /// Path composition failed: target of the first path is not the source
    /// of the second.
    CompositionMismatch { target: usize, source: usize },
}

/// How a graph error is written.
pub open spec fn graph_error_text(e: GraphError) -> Seq<char> {
    match e {
        GraphError::EdgeOutOfBounds { edge, count } => "edge index "@ + decimal(edge as nat)
            + " out of bounds (count: "@ + decimal(count as nat) + ")"@,
        GraphError::VertexOutOfBounds { vertex, count } => "vertex index "@ + decimal(
            vertex as nat,
        ) + " out of bounds (count: "@ + decimal(count as nat) + ")"@,
        GraphError::CompositionMismatch { target, source } => "composition mismatch: target vertex "@
            + decimal(target as nat) + " != source vertex "@ + decimal(source as nat),
    }
}

impl GraphError {
    /// The error as text, as in `edge index 7 out of bounds (count: 5)`.
    pub fn to_string(&self) -> (r: String)
        ensures
            r@ == graph_error_text(*self),
    {
        let mut s = String::new();
        match *self {
            GraphError::EdgeOutOfBounds { edge, count } => {
                s.append("edge index ");
                push_decimal(&mut s, edge as u64);
                s.append(" out of bounds (count: ");
                push_decimal(&mut s, count as u64);
                s.append(")");
            },
            GraphError::VertexOutOfBounds { vertex, count } => {
                s.append("vertex index ");
                push_decimal(&mut s, vertex as u64);
                s.append(" out of bounds (count: ");
                push_decimal(&mut s, count as u64);
                s.append(")");
            },
            GraphError::CompositionMismatch { target, source } => {
                s.append("composition mismatch: target vertex ");
                push_decimal(&mut s, target as u64);
                s.append(" != source vertex ");
                push_decimal(&mut s, source as u64);
            },
        }
        proof {
            assert(s@ =~= graph_error_text(*self));
        }
        s
    }
}

/// A directed graph given by its vertex count and its edge table: edge `e`
/// goes from `spec_edges()[e].0` to `spec_edges()[e].1`.
pub trait FsmGraph {
    /// The number of vertices.
    spec fn spec_vertex_count(&self) -> nat;

    /// The edge table.
    spec fn spec_edges(&self) -> Seq<(usize, usize)>;

    /// The number of vertices.
    fn vertex_count(&self) -> (r: usize)
        ensures
            r == self.spec_vertex_count(),
    ;

    /// The number of edges.
    fn edge_count(&self) -> (r: usize)
        ensures
            r == self.spec_edges().len(),
    ;

    /// The source vertex of an edge; an error past the last edge.
    fn source(&self, edge: usize) -> (r: Result<usize, GraphError>)
        ensures
            edge < self.spec_edges().len() ==> r == Ok::<usize, GraphError>(
                self.spec_edges()[edge as int].0,
            ),
            edge >= self.spec_edges().len() ==> r == Err::<usize, GraphError>(
                GraphError::EdgeOutOfBounds { edge, count: self.spec_edges().len() as usize },
            ),
    ;

    /// The target vertex of an edge; an error past the last edge.
    fn target(&self, edge: usize) -> (r: Result<usize, GraphError>)
        ensures
            edge < self.spec_edges().len() ==> r == Ok::<usize, GraphError>(
                self.spec_edges()[edge as int].1,
            ),
            edge >= self.spec_edges().len() ==> r == Err::<usize, GraphError>(
                GraphError::EdgeOutOfBounds { edge, count: self.spec_edges().len() as usize },
            ),
    ;
}

/// The mathematical model of a path: its endpoints and its edges in order.
pub struct PathModel {
    pub source: usize,
    pub edges: Seq<usize>,
    pub target: usize,
}

/// Whether a path model is a path of the graph with edge table `table`:
/// every edge is in the table, consecutive edges meet, the first edge leaves
/// the source and the last enters the target; an empty path stays at its
/// source.
pub open spec fn is_path_in(p: PathModel, table: Seq<(usize, usize)>) -> bool {
    &&& forall|i: int| 0 <= i < p.edges.len() ==> #[trigger] p.edges[i] < table.len()
    &&& forall|i: int|
        0 <= i < p.edges.len() - 1 ==> table[#[trigger] p.edges[i] as int].1 == table[p.edges[i
            + 1] as int].0
    &&& p.edges.len() == 0 ==> p.source == p.target
    &&& p.edges.len() > 0 ==> table[p.edges[0] as int].0 == p.source && table[p.edges.last() as int].1
        == p.target
}

/// Composition in the free category: defined when the first path ends where
/// the second starts, and then the concatenation.
pub open spec fn compose_paths(p: PathModel, q: PathModel) -> Option<PathModel> {
    if p.target == q.source {
        Some(PathModel { source: p.source, edges: p.edges + q.edges, target: q.target })
    } else {
        None
    }
}

/// The identity morphism on a vertex.
pub open spec fn identity_path(v: usize) -> PathModel {
    PathModel { source: v, edges: Seq::empty(), target: v }
}

/// A path in the free category over a graph.
pub struct FsmPath {
    source: usize,
    edges: Vec<usize>,
    target: usize,
}

impl View for FsmPath {
    type V = PathModel;

    closed spec fn view(&self) -> PathModel {
        PathModel { source: self.source, edges: self.edges@, target: self.target }
    }
}

impl FsmPath {
    /// The identity path on a vertex (no edges).
    pub fn identity(v: usize) -> (r: Self)
        ensures
            r@ == identity_path(v),
    {
        FsmPath { source: v, edges: Vec::new(), target: v }
    }

    /// The path of a single edge; an error if the graph has no such edge.
    pub fn singleton<G: FsmGraph>(graph: &G, edge: usize) -> (r: Result<Self, GraphError>)
        ensures
            edge < graph.spec_edges().len() ==> (r matches Ok(p) && p@ == PathModel {
                source: graph.spec_edges()[edge as int].0,
                edges: seq![edge],
                target: graph.spec_edges()[edge as int].1,
            }),
            edge >= graph.spec_edges().len() ==> r == Err::<FsmPath, GraphError>(
                GraphError::EdgeOutOfBounds { edge, count: graph.spec_edges().len() as usize },
            ),
    {
        let src = match graph.source(edge) {
            Ok(v) => v,
            Err(e) => return Err(e),
        };
        let tgt = match graph.target(edge) {
            Ok(v) => v,
            Err(e) => return Err(e),
        };
        let mut edges = Vec::new();
        edges.push(edge);
        proof {
            assert(edges@ =~= seq![edge]);
        }
        Ok(FsmPath { source: src, edges, target: tgt })
    }

    /// The source vertex.
    pub fn source(&self) -> (r: usize)
        ensures
            r == self@.source,
    {
        self.source
    }

    /// The target vertex.
    pub fn target(&self) -> (r: usize)
        ensures
            r == self@.target,
    {
        self.target
    }

    /// The edges, in order.
    pub fn edges(&self) -> (r: &[usize])
        ensures
            r@ == self@.edges,
    {
        self.edges.as_slice()
    }

    /// The number of edges.
    pub fn len(&self) -> (r: usize)
        ensures
            r == self@.edges.len(),
    {
        self.edges.len()
    }

    /// Whether the path has no edges.
    pub fn is_empty(&self) -> (r: bool)
        ensures
            r == (self@.edges.len() == 0),
    {
        self.edges.len() == 0
    }

    /// Whether this is an identity (empty) path.
    pub fn is_identity(&self) -> (r: bool)
        ensures
            r == (self@.edges.len() == 0),
    {
        self.is_empty()
    }

    /// `self` followed by `other`; an error unless `self` ends where `other`
    /// starts.
    pub fn compose(self, other: Self) -> (r: Result<Self, GraphError>)
        ensures
            compose_paths(self@, other@) matches Some(p) ==> (r matches Ok(q) && q@ == p),
            compose_paths(self@, other@) is None ==> r == Err::<FsmPath, GraphError>(
                GraphError::CompositionMismatch { target: self@.target, source: other@.source },
            ),
    {
        if self.target == other.source {
            let mut edges = self.edges;
            let mut rest = other.edges;
            edges.append(&mut rest);
            Ok(FsmPath { source: self.source, edges, target: other.target })
        } else {
            Err(GraphError::CompositionMismatch { target: self.target, source: other.source })
        }
    }
}

/// The identity path is a left and a right unit of composition.
pub proof fn lemma_identity_is_unit(p: PathModel)
    ensures
        compose_paths(identity_path(p.source), p) == Some(p),
        compose_paths(p, identity_path(p.target)) == Some(p),
{
    assert(Seq::<usize>::empty() + p.edges =~= p.edges);
    assert(p.edges + Seq::<usize>::empty() =~= p.edges);
}

/// Composition is associative: composing `p ; q` with `r` is defined exactly
/// when composing `p` with `q ; r` is, and then both give the same path.
pub proof fn lemma_compose_associative(p: PathModel, q: PathModel, r: PathModel)
    requires
        compose_paths(p, q) is Some,
        compose_paths(q, r) is Some,
    ensures
        compose_paths(compose_paths(p, q).unwrap(), r) == compose_paths(
            p,
            compose_paths(q, r).unwrap(),
        ),
        compose_paths(compose_paths(p, q).unwrap(), r) is Some,
{
    assert(p.edges + q.edges + r.edges =~= p.edges + (q.edges + r.edges));
}

/// Composing two paths of a graph gives a path of the graph.
pub proof fn lemma_compose_preserves_path(p: PathModel, q: PathModel, table: Seq<(usize, usize)>)
    requires
        is_path_in(p, table),
        is_path_in(q, table),
        compose_paths(p, q) is Some,
    ensures
        is_path_in(compose_paths(p, q).unwrap(), table),
{
    let c = compose_paths(p, q).unwrap();
    if p.edges.len() == 0 {
        assert(c.edges =~= q.edges);
    } else if q.edges.len() == 0 {
        assert(c.edges =~= p.edges);
    } else {
        assert forall|i: int| 0 <= i < c.edges.len() - 1 implies table[#[trigger] c.edges[i] as int].1
            == table[c.edges[i + 1] as int].0 by {
            if i < p.edges.len() - 1 {
                assert(c.edges[i] == p.edges[i] && c.edges[i + 1] == p.edges[i + 1]);
            } else if i == p.edges.len() - 1 {
                assert(c.edges[i] == p.edges.last() && c.edges[i + 1] == q.edges[0]);
            } else {
                let j = i - p.edges.len();
                assert(c.edges[i] == q.edges[j] && c.edges[i + 1] == q.edges[j + 1]);
            }
        }
        assert forall|i: int| 0 <= i < c.edges.len() implies #[trigger] c.edges[i] < table.len() by {
            if i < p.edges.len() {
                assert(c.edges[i] == p.edges[i]);
            } else {
                assert(c.edges[i] == q.edges[i - p.edges.len()]);
            }
        }
        assert(c.edges.last() == q.edges.last());
    }
}

} // verus!
