//! Directed dependency graphs kept in a `petgraph` graph, and their
//! topological order.

use vstd::prelude::*;

use petgraph::graph::Graph;
use petgraph::Directed;

verus! {

#[verifier::external_type_specification]
#[verifier::external_body]
#[verifier::reject_recursive_types(N)]
#[verifier::reject_recursive_types(E)]
#[verifier::reject_recursive_types(Ty)]
#[verifier::reject_recursive_types(Ix)]
pub struct ExGraph<N, E, Ty, Ix>(Graph<N, E, Ty, Ix>);

#[verifier::external_type_specification]
#[verifier::external_body]
pub struct ExDirected(Directed);

/// The graph type the resolver builds: node weights are indices into a list of
/// dependencies, edges carry nothing.
pub type DepGraph = Graph<usize, (), Directed, u32>;

/// The node weights of a graph, in the order the nodes were added.
pub uninterp spec fn graph_node_weights(g: DepGraph) -> Seq<usize>;

/// The edges of a graph as (source, target) node indices, in the order they were added.
pub uninterp spec fn graph_edges(g: DepGraph) -> Seq<(usize, usize)>;

/// What `petgraph::algo::toposort` returns for the graph with these node weights
/// and edges: the node indices in its order, or the index of a node its cycle
/// report names.
pub uninterp spec fn petgraph_toposort(weights: Seq<usize>, edges: Seq<(usize, usize)>) -> Result<
    Seq<usize>,
    usize,
>;

/// A walk along `edges`: consecutive nodes are joined by an edge.
pub open spec fn is_walk(edges: Seq<(usize, usize)>, w: Seq<usize>) -> bool {
    forall|k: int| 0 <= k < w.len() - 1 ==> #[trigger] edges.contains((w[k], w[k + 1]))
}

/// Node `v` lies on a cycle: a walk of at least one edge leads from `v` back to `v`.
pub open spec fn on_cycle(edges: Seq<(usize, usize)>, v: usize) -> bool {
    exists|w: Seq<usize>| w.len() >= 2 && w[0] == v && w.last() == v && #[trigger] is_walk(edges, w)
}

/// The graph has a cycle (a self loop counts as one).
pub open spec fn has_cycle(edges: Seq<(usize, usize)>) -> bool {
    exists|v: usize| #[trigger] on_cycle(edges, v)
}

/// `order` lists each of the nodes `0..n` exactly once, and every edge goes from an
/// earlier node to a later one.
pub open spec fn is_topological_order(n: nat, edges: Seq<(usize, usize)>, order: Seq<usize>) -> bool {
    &&& order.len() == n
    &&& order.no_duplicates()
    &&& forall|i: int| 0 <= i < order.len() ==> #[trigger] order[i] < n
    &&& forall|v: usize| v < n ==> #[trigger] order.contains(v)
    &&& forall|k: int, i: int, j: int|
        #![trigger edges[k], order[i], order[j]]
        0 <= k < edges.len() && 0 <= i < order.len() && 0 <= j < order.len() && order[i]
            == edges[k].0 && order[j] == edges[k].1 ==> i < j
}

/// Every edge joins two of the nodes `0..n`.
pub open spec fn edges_within(n: nat, edges: Seq<(usize, usize)>) -> bool {
    forall|k: int| 0 <= k < edges.len() ==> (#[trigger] edges[k]).0 < n && edges[k].1 < n
}

/// `Graph::new`: an empty directed graph.
#[verifier::external_body]
pub(crate) fn graph_new() -> (g: DepGraph)
    ensures
        graph_node_weights(g) == Seq::<usize>::empty(),
        graph_edges(g) == Seq::<(usize, usize)>::empty(),
{
    Graph::new()
}

/// `Graph::add_node`: appends a node with weight `w` and returns its index. It
/// panics once the graph holds `u32::MAX` nodes, which `requires` leaves out.
#[verifier::external_body]
pub(crate) fn graph_add_node(g: &mut DepGraph, w: usize) -> (r: usize)
    requires
        graph_node_weights(*old(g)).len() < u32::MAX,
    ensures
        graph_node_weights(*final(g)) == graph_node_weights(*old(g)).push(w),
        graph_edges(*final(g)) == graph_edges(*old(g)),
        r == graph_node_weights(*old(g)).len(),
{
    g.add_node(w).index()
}

/// `Graph::add_edge`: appends the edge `a -> b`. It panics when a node index is out
/// of bounds or the graph holds `u32::MAX` edges, which `requires` leaves out.
#[verifier::external_body]
pub(crate) fn graph_add_edge(g: &mut DepGraph, a: usize, b: usize)
    requires
        a < graph_node_weights(*old(g)).len(),
        b < graph_node_weights(*old(g)).len(),
        graph_edges(*old(g)).len() < u32::MAX,
    ensures
        graph_node_weights(*final(g)) == graph_node_weights(*old(g)),
        graph_edges(*final(g)) == graph_edges(*old(g)).push((a, b)),
{
    g.add_edge(petgraph::graph::NodeIndex::new(a), petgraph::graph::NodeIndex::new(b), ());
}

/// `petgraph::algo::toposort`, with node indices given as `usize`. As its
/// documentation states: for an acyclic graph it returns the nodes in topological
/// order, each node before its successors; otherwise it reports a node that
/// participates in a cycle (self loops are cycles).
#[verifier::external_body]
pub(crate) fn graph_toposort(g: &DepGraph) -> (r: Result<Vec<usize>, usize>)
    requires
        edges_within(graph_node_weights(*g).len(), graph_edges(*g)),
    ensures
        match r {
            Ok(o) => petgraph_toposort(graph_node_weights(*g), graph_edges(*g)) == Ok::<
                Seq<usize>,
                usize,
            >(o@) && is_topological_order(graph_node_weights(*g).len(), graph_edges(*g), o@),
            Err(v) => petgraph_toposort(graph_node_weights(*g), graph_edges(*g)) == Err::<
                Seq<usize>,
                usize,
            >(v) && v < graph_node_weights(*g).len() && on_cycle(graph_edges(*g), v),
        },
{
    match petgraph::algo::toposort(g, None) {
        Ok(order) => Ok(order.iter().map(|n| n.index()).collect()),
        Err(cycle) => Err(cycle.node_id().index()),
    }
}

/// Position of `v` in `order`.
pub open spec fn order_pos(order: Seq<usize>, v: usize) -> int {
    choose|i: int| 0 <= i < order.len() && order[i] == v
}

proof fn lemma_order_pos(n: nat, order: Seq<usize>, v: usize)
    requires
        v < n,
        order.len() == n,
        forall|w: usize| w < n ==> #[trigger] order.contains(w),
    ensures
        0 <= order_pos(order, v) < order.len(),
        order[order_pos(order, v)] == v,
{
    assert(order.contains(v));
}

proof fn lemma_edge_forward(n: nat, edges: Seq<(usize, usize)>, order: Seq<usize>, a: usize, b: usize)
    requires
        is_topological_order(n, edges, order),
        edges_within(n, edges),
        edges.contains((a, b)),
    ensures
        a < n,
        b < n,
        order_pos(order, a) < order_pos(order, b),
{
    let k = choose|k: int| 0 <= k < edges.len() && edges[k] == (a, b);
    assert(edges[k].0 < n);
    lemma_order_pos(n, order, a);
    lemma_order_pos(n, order, b);
    let i = order_pos(order, a);
    let j = order_pos(order, b);
    assert(edges[k] == (a, b));
    assert(order[i] == edges[k].0 && order[j] == edges[k].1);
}

/// Along a walk, positions in a topological order strictly increase.
proof fn lemma_walk_increases(
    n: nat,
    edges: Seq<(usize, usize)>,
    order: Seq<usize>,
    w: Seq<usize>,
    k: int,
)
    requires
        is_topological_order(n, edges, order),
        edges_within(n, edges),
        is_walk(edges, w),
        1 <= k < w.len(),
    ensures
        order_pos(order, w[0]) < order_pos(order, w[k]),
    decreases k,
{
    let j = k - 1;
    assert(0 <= j < w.len() - 1);
    assert(edges.contains((w[j], w[j + 1])));
    assert(w[j + 1] == w[k]);
    lemma_edge_forward(n, edges, order, w[k - 1], w[k]);
    if k > 1 {
        lemma_walk_increases(n, edges, order, w, k - 1);
    }
}

/// A graph whose edges admit a topological order has no cycle.
pub proof fn lemma_order_excludes_cycle(n: nat, edges: Seq<(usize, usize)>, order: Seq<usize>)
    requires
        is_topological_order(n, edges, order),
        edges_within(n, edges),
    ensures
        !has_cycle(edges),
{
    if has_cycle(edges) {
        let v = choose|v: usize| #[trigger] on_cycle(edges, v);
        let w = choose|w: Seq<usize>|
            w.len() >= 2 && w[0] == v && w.last() == v && #[trigger] is_walk(edges, w);
        lemma_walk_increases(n, edges, order, w, w.len() - 1);
    }
}

} // verus!
