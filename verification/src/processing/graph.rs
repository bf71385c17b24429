//! The worker graph, kept in a `petgraph` stable graph.
//!
//! The library only ever adds nodes and edges. What is claimed of the graph
//! is claimed of a graph from which nothing was removed, and every claim
//! names that premise: there a node's index is the number of nodes that
//! were added before it.

use vstd::prelude::*;
use petgraph::stable_graph::{NodeIndex, StableGraph};
use petgraph::Direction;

verus! {

/// `petgraph`'s stable graph, of which the verifier sees nothing but the name.
#[verifier::external_type_specification]
#[verifier::external_body]
#[verifier::reject_recursive_types(N)]
#[verifier::reject_recursive_types(E)]
#[verifier::reject_recursive_types(Ty)]
#[verifier::reject_recursive_types(Ix)]
pub struct ExStableGraph<N, E, Ty, Ix>(petgraph::stable_graph::StableGraph<N, E, Ty, Ix>);

/// `petgraph`'s marker for directed edges, the third parameter of the graph's type.
#[verifier::external_type_specification]
#[verifier::external_body]
pub struct ExDirected(petgraph::Directed);

/// Whether nothing was ever removed from the graph, so that it has no
/// vacant place for a node or an edge.
pub uninterp spec fn graph_intact(g: StableGraph<(), ()>) -> bool;

/// The number of nodes of a graph.
pub uninterp spec fn graph_size(g: StableGraph<(), ()>) -> nat;

/// The edges of a graph, as pairs of parent and child, in the order of
/// their indices: with nothing removed, the order in which they were added.
pub uninterp spec fn graph_edges(g: StableGraph<(), ()>) -> Seq<(usize, usize)>;

/// The children of a node: the targets of its edges, latest edge first.
pub open spec fn children_of(edges: Seq<(usize, usize)>, id: usize) -> Seq<usize>
    decreases edges.len(),
{
    if edges.len() == 0 {
        Seq::empty()
    } else if edges.last().0 == id {
        seq![edges.last().1] + children_of(edges.drop_last(), id)
    } else {
        children_of(edges.drop_last(), id)
    }
}

/// Whether every edge joins two nodes among the first `size`.
pub open spec fn edges_within(edges: Seq<(usize, usize)>, size: nat) -> bool {
    forall|i: int| 0 <= i < edges.len() ==> edges[i].0 < size && edges[i].1 < size
}

/// Calls `StableGraph::new`: a graph without nodes or edges, from which
/// nothing was removed.
#[verifier::external_body]
pub(crate) fn graph_new() -> (g: StableGraph<(), ()>)
    ensures
        graph_intact(g),
        graph_size(g) == 0,
        graph_edges(g) == Seq::<(usize, usize)>::empty(),
{
    StableGraph::new()
}

/// Calls `StableGraph::node_count`.
#[verifier::external_body]
pub(crate) fn graph_node_count(g: &StableGraph<(), ()>) -> (n: usize)
    ensures
        n == graph_size(*g),
{
    g.node_count()
}

/// Calls `StableGraph::edge_count`. With no edge removed, the edges that
/// are counted are all that the graph holds.
#[verifier::external_body]
pub(crate) fn graph_edge_count(g: &StableGraph<(), ()>) -> (n: usize)
    requires
        graph_intact(*g),
    ensures
        n == graph_edges(*g).len(),
{
    g.edge_count()
}

/// Calls `StableGraph::add_node`. With nothing removed, the new node
/// takes the next index, which is the number of nodes so far; the edges
/// stay. The call panics once the indices below `u32::MAX` are used up,
/// which the precondition rules out.
#[verifier::external_body]
pub(crate) fn graph_add_node(g: &mut StableGraph<(), ()>) -> (id: usize)
    requires
        graph_intact(*old(g)),
        graph_size(*old(g)) < u32::MAX,
    ensures
        graph_intact(*final(g)),
        id == graph_size(*old(g)),
        graph_size(*final(g)) == graph_size(*old(g)) + 1,
        graph_edges(*final(g)) == graph_edges(*old(g)),
{
    g.add_node(()).index()
}

/// Calls `StableGraph::add_edge`, which, with nothing removed, appends
/// the edge; it keeps the nodes. The call panics if one of the two nodes does not exist or if the
/// edge indices below `u32::MAX` are used up; the precondition rules out both.
#[verifier::external_body]
pub(crate) fn graph_add_edge(g: &mut StableGraph<(), ()>, parent: usize, child: usize)
    requires
        graph_intact(*old(g)),
        parent < graph_size(*old(g)),
        child < graph_size(*old(g)),
        graph_edges(*old(g)).len() < u32::MAX,
    ensures
        graph_intact(*final(g)),
        graph_size(*final(g)) == graph_size(*old(g)),
        graph_edges(*final(g)) == graph_edges(*old(g)).push((parent, child)),
{
    g.add_edge(NodeIndex::new(parent), NodeIndex::new(child), ());
}

/// Calls `StableGraph::neighbors_directed` for the outgoing direction,
/// which lists the targets of the node's edges, the most recently added
/// edge first.
#[verifier::external_body]
pub(crate) fn graph_children(g: &StableGraph<(), ()>, id: usize) -> (r: Vec<usize>)
    requires
        graph_intact(*g),
        id < graph_size(*g),
    ensures
        r@ == children_of(graph_edges(*g), id),
{
    g.neighbors_directed(NodeIndex::new(id), Direction::Outgoing).map(|n| n.index()).collect()
}

/// A node without edges in range has no children.
pub proof fn no_children_outside(edges: Seq<(usize, usize)>, size: nat, id: usize)
    requires
        edges_within(edges, size),
        id >= size,
    ensures
        children_of(edges, id) == Seq::<usize>::empty(),
    decreases edges.len(),
{
    if edges.len() > 0 {
        no_children_outside(edges.drop_last(), size, id);
    }
}

} // verus!
