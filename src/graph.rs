use petgraph::graph::{Graph, NodeIndex};
use petgraph::Undirected;
use vstd::prelude::*;

verus! {

#[verifier::external_type_specification]
#[verifier::external_body]
#[verifier::reject_recursive_types(N)]
#[verifier::reject_recursive_types(E)]
#[verifier::reject_recursive_types(Ty)]
#[verifier::reject_recursive_types(Ix)]
pub struct ExGraph<N, E, Ty, Ix>(Graph<N, E, Ty, Ix>);

#[verifier::external_type_specification]
#[verifier::external_body]
pub struct ExUndirected(Undirected);

/// The payloads of a graph's vertices; a vertex's index is its position.
pub uninterp spec fn graph_nodes(g: Graph<String, i32, Undirected, u32>) -> Seq<Seq<char>>;

/// The edges of a graph in the order they were added: both endpoints, then
/// the weight.
pub uninterp spec fn graph_edges(g: Graph<String, i32, Undirected, u32>) -> Seq<(int, int, int)>;

/// The largest index that a graph with `u32` indices reserves for itself.
pub const INDEX_END: usize = 4294967295;

/// Edge `e` joins `u` and `v`, in either direction.
pub open spec fn joins(e: (int, int, int), u: int, v: int) -> bool {
    (e.0 == u && e.1 == v) || (e.0 == v && e.1 == u)
}

/// `vs` and `es` are a walk from `a` to `b`: `vs` lists the vertices passed,
/// `es` the indices of the edges taken, and edge `es[k]` joins `vs[k]` to
/// `vs[k + 1]`.
pub open spec fn is_walk(
    edges: Seq<(int, int, int)>,
    a: int,
    b: int,
    vs: Seq<int>,
    es: Seq<int>,
) -> bool {
    &&& vs.len() == es.len() + 1
    &&& vs[0] == a
    &&& vs[vs.len() - 1] == b
    &&& forall|k: int|
        0 <= k < es.len() ==> 0 <= #[trigger] es[k] < edges.len() && joins(
            edges[es[k]],
            vs[k],
            vs[k + 1],
        )
}

/// The total weight of the edges `es`.
pub open spec fn walk_cost(edges: Seq<(int, int, int)>, es: Seq<int>) -> int
    decreases es.len(),
{
    if es.len() == 0 {
        0
    } else {
        walk_cost(edges, es.drop_last()) + edges[es.last()].2
    }
}

/// Some walk leads from `a` to `b`.
pub open spec fn reachable(edges: Seq<(int, int, int)>, a: int, b: int) -> bool {
    exists|vs: Seq<int>, es: Seq<int>| is_walk(edges, a, b, vs, es)
}

/// `c` is the total weight of a walk from `a` to `b`, and no walk from `a` to
/// `b` weighs less.
pub open spec fn is_least_cost(edges: Seq<(int, int, int)>, a: int, b: int, c: int) -> bool {
    &&& exists|vs: Seq<int>, es: Seq<int>|
        is_walk(edges, a, b, vs, es) && walk_cost(edges, es) == c
    &&& forall|vs: Seq<int>, es: Seq<int>|
        is_walk(edges, a, b, vs, es) ==> c <= walk_cost(edges, es)
}

/// The least total weight of a walk from `a` to `b`, or `None` when there is
/// no such least weight (no walk at all, on non-negative weights).
pub open spec fn least_cost(edges: Seq<(int, int, int)>, a: int, b: int) -> Option<int> {
    if exists|c: int| is_least_cost(edges, a, b, c) {
        Some(choose|c: int| is_least_cost(edges, a, b, c))
    } else {
        None
    }
}

/// The sum of all edge weights.
pub open spec fn total_weight(edges: Seq<(int, int, int)>) -> int
    decreases edges.len(),
{
    if edges.len() == 0 {
        0
    } else {
        total_weight(edges.drop_last()) + edges.last().2
    }
}

/// Every weight is non-negative, and twice their sum fits an `i32`, so that
/// no sum the search forms can overflow.
pub open spec fn weights_fit(edges: Seq<(int, int, int)>) -> bool {
    &&& forall|k: int| 0 <= k < edges.len() ==> 0 <= #[trigger] edges[k].2
    &&& 2 * total_weight(edges) <= i32::MAX
}

/// The walk's sequences read backwards.
pub open spec fn backwards(s: Seq<int>) -> Seq<int> {
    Seq::new(s.len(), |i: int| s[s.len() - 1 - i])
}

/// The weight of a walk is that of its first edge plus that of the rest.
pub proof fn lemma_walk_cost_front(edges: Seq<(int, int, int)>, es: Seq<int>)
    requires
        es.len() > 0,
    ensures
        walk_cost(edges, es) == edges[es[0]].2 + walk_cost(edges, es.subrange(1, es.len() as int)),
    decreases es.len(),
{
    if es.len() == 1 {
        assert(es.drop_last() =~= Seq::<int>::empty());
        assert(es.subrange(1, 1) =~= Seq::<int>::empty());
    } else {
        lemma_walk_cost_front(edges, es.drop_last());
        assert(es.subrange(1, es.len() as int).drop_last() =~= es.drop_last().subrange(
            1,
            es.len() - 1,
        ));
    }
}

/// A walk taken backwards weighs the same.
pub proof fn lemma_walk_cost_backwards(edges: Seq<(int, int, int)>, es: Seq<int>)
    ensures
        walk_cost(edges, backwards(es)) == walk_cost(edges, es),
    decreases es.len(),
{
    if es.len() > 0 {
        let rest = es.subrange(1, es.len() as int);
        assert(backwards(es).drop_last() =~= backwards(rest));
        lemma_walk_cost_backwards(edges, rest);
        lemma_walk_cost_front(edges, es);
    }
}

/// Every walk from `a` to `b`, taken backwards, is a walk from `b` to `a`
/// of the same weight.
pub proof fn lemma_walk_backwards(
    edges: Seq<(int, int, int)>,
    a: int,
    b: int,
    vs: Seq<int>,
    es: Seq<int>,
)
    requires
        is_walk(edges, a, b, vs, es),
    ensures
        is_walk(edges, b, a, backwards(vs), backwards(es)),
        walk_cost(edges, backwards(es)) == walk_cost(edges, es),
{
    let n = es.len();
    assert forall|k: int| 0 <= k < n implies 0 <= #[trigger] backwards(es)[k] < edges.len()
        && joins(edges[backwards(es)[k]], backwards(vs)[k], backwards(vs)[k + 1]) by {
        let j = n - 1 - k;
        assert(backwards(es)[k] == es[j]);
        assert(backwards(vs)[k] == vs[j + 1]);
        assert(backwards(vs)[k + 1] == vs[j]);
    }
    lemma_walk_cost_backwards(edges, es);
}

/// On non-negative weights no walk weighs less than nothing.
pub proof fn lemma_walk_cost_nonnegative(edges: Seq<(int, int, int)>, es: Seq<int>)
    requires
        forall|j: int| 0 <= j < edges.len() ==> 0 <= #[trigger] edges[j].2,
        forall|k: int| 0 <= k < es.len() ==> 0 <= #[trigger] es[k] < edges.len(),
    ensures
        0 <= walk_cost(edges, es),
    decreases es.len(),
{
    if es.len() > 0 {
        let rest = es.drop_last();
        assert forall|k: int| 0 <= k < rest.len() implies 0 <= #[trigger] rest[k] < edges.len() by {
            assert(rest[k] == es[k]);
        }
        lemma_walk_cost_nonnegative(edges, rest);
        assert(0 <= edges[es.last()].2);
    }
}

/// The least weight from `a` to `b` is the least weight from `b` to `a`: the
/// edges have no direction.
pub proof fn lemma_least_cost_symmetric(edges: Seq<(int, int, int)>, a: int, b: int)
    ensures
        least_cost(edges, a, b) == least_cost(edges, b, a),
{
    if exists|c: int| is_least_cost(edges, a, b, c) {
        let c = choose|c: int| is_least_cost(edges, a, b, c);
        lemma_least_cost_turns(edges, a, b, c);
        lemma_least_cost_unique(edges, a, b, c);
        lemma_least_cost_unique(edges, b, a, c);
    } else if exists|c: int| is_least_cost(edges, b, a, c) {
        let c = choose|c: int| is_least_cost(edges, b, a, c);
        lemma_least_cost_turns(edges, b, a, c);
    }
}

/// A least weight from `a` to `b` is a least weight from `b` to `a`.
pub proof fn lemma_least_cost_turns(edges: Seq<(int, int, int)>, a: int, b: int, c: int)
    requires
        is_least_cost(edges, a, b, c),
    ensures
        is_least_cost(edges, b, a, c),
{
    let (vs, es) = choose|vs: Seq<int>, es: Seq<int>|
        is_walk(edges, a, b, vs, es) && walk_cost(edges, es) == c;
    lemma_walk_backwards(edges, a, b, vs, es);
    assert forall|ws: Seq<int>, fs: Seq<int>| is_walk(edges, b, a, ws, fs) implies c <= walk_cost(
        edges,
        fs,
    ) by {
        lemma_walk_backwards(edges, b, a, ws, fs);
    }
}

/// On non-negative weights the least weight from a vertex to itself is zero.
pub proof fn lemma_least_cost_to_itself(edges: Seq<(int, int, int)>, a: int)
    requires
        forall|j: int| 0 <= j < edges.len() ==> 0 <= #[trigger] edges[j].2,
    ensures
        least_cost(edges, a, a) == Some(0int),
{
    let vs = seq![a];
    let es = Seq::<int>::empty();
    assert(is_walk(edges, a, a, vs, es));
    assert(walk_cost(edges, es) == 0);
    assert forall|ws: Seq<int>, fs: Seq<int>| is_walk(edges, a, a, ws, fs) implies 0 <= walk_cost(
        edges,
        fs,
    ) by {
        lemma_walk_cost_nonnegative(edges, fs);
    }
    lemma_least_cost_unique(edges, a, a, 0);
}

/// Adding up one more edge of a prefix adds its weight.
pub proof fn lemma_total_weight_step(edges: Seq<(int, int, int)>, k: int)
    requires
        0 <= k < edges.len(),
    ensures
        total_weight(edges.subrange(0, k + 1)) == total_weight(edges.subrange(0, k)) + edges[k].2,
{
    assert(edges.subrange(0, k + 1).drop_last() =~= edges.subrange(0, k));
}

/// On non-negative weights a prefix weighs no more than the whole.
pub proof fn lemma_total_weight_prefix(edges: Seq<(int, int, int)>, k: int)
    requires
        0 <= k <= edges.len(),
        forall|j: int| 0 <= j < edges.len() ==> 0 <= #[trigger] edges[j].2,
    ensures
        total_weight(edges.subrange(0, k)) <= total_weight(edges),
    decreases edges.len() - k,
{
    if k == edges.len() {
        assert(edges.subrange(0, k) =~= edges);
    } else {
        lemma_total_weight_step(edges, k);
        lemma_total_weight_prefix(edges, k + 1);
    }
}

/// Relies on `Graph::new_undirected`: a graph with no vertex and no edge.
#[verifier::external_body]
pub(crate) fn new_graph() -> (g: Graph<String, i32, Undirected, u32>)
    ensures
        graph_nodes(g) == Seq::<Seq<char>>::empty(),
        graph_edges(g) == Seq::<(int, int, int)>::empty(),
{
    Graph::new_undirected()
}

/// Relies on `Graph::add_node`: it appends a vertex and returns its index. It
/// panics when the new index would be `u32::MAX`, which `requires` leaves out.
#[verifier::external_body]
pub(crate) fn add_vertex(g: &mut Graph<String, i32, Undirected, u32>, payload: String) -> (r: usize)
    requires
        graph_nodes(*old(g)).len() < INDEX_END,
    ensures
        r == graph_nodes(*old(g)).len(),
        graph_nodes(*final(g)) == graph_nodes(*old(g)).push(payload@),
        graph_edges(*final(g)) == graph_edges(*old(g)),
{
    g.add_node(payload).index()
}

/// Relies on `Graph::add_edge`: it appends an edge between two existing
/// vertices, parallel edges included. It panics on a missing vertex and when
/// the new edge index would be `u32::MAX`, which `requires` leaves out.
#[verifier::external_body]
pub(crate) fn add_weighted_edge(g: &mut Graph<String, i32, Undirected, u32>, a: usize, b: usize, weight: i32)
    requires
        a < graph_nodes(*old(g)).len(),
        b < graph_nodes(*old(g)).len(),
        graph_edges(*old(g)).len() < INDEX_END,
    ensures
        graph_nodes(*final(g)) == graph_nodes(*old(g)),
        graph_edges(*final(g)) == graph_edges(*old(g)).push((a as int, b as int, weight as int)),
{
    g.add_edge(NodeIndex::new(a), NodeIndex::new(b), weight);
}

/// Whether `n` is the vertex `goal`.
fn is_vertex(n: usize, goal: usize) -> (r: bool)
    ensures
        r == (n == goal),
{
    n == goal
}

/// Relies on `petgraph::algo::astar`, with a zero estimate and each edge's
/// weight as its cost, which makes it Dijkstra's search: on non-negative
/// weights it returns the least total weight of a walk from `start` to
/// `goal`, or `None` when no walk leads there. Its sums stay below twice the
/// total weight, which `requires` keeps within `i32`.
#[verifier::external_body]
fn astar_cost(g: &Graph<String, i32, Undirected, u32>, start: usize, goal: usize) -> (r: Option<i32>)
    requires
        start < graph_nodes(*g).len(),
        goal < graph_nodes(*g).len(),
        weights_fit(graph_edges(*g)),
    ensures
        r is None <==> !reachable(graph_edges(*g), start as int, goal as int),
        r matches Some(c) ==> is_least_cost(graph_edges(*g), start as int, goal as int, c as int),
{
    petgraph::algo::astar(
        g,
        NodeIndex::new(start),
        |n: NodeIndex<u32>| is_vertex(n.index(), goal),
        |e| *e.weight(),
        |_| 0,
    ).map(|found| found.0)
}

/// The least total weight of a walk from vertex `start` to vertex `goal`, or
/// `None` when they are not connected.
pub fn shortest_path_cost(g: &Graph<String, i32, Undirected, u32>, start: usize, goal: usize) -> (r: Option<i32>)
    requires
        start < graph_nodes(*g).len(),
        goal < graph_nodes(*g).len(),
        weights_fit(graph_edges(*g)),
    ensures
        match r {
            Some(c) => least_cost(graph_edges(*g), start as int, goal as int) == Some(c as int),
            None => least_cost(graph_edges(*g), start as int, goal as int) is None,
        },
{
    let r = astar_cost(g, start, goal);
    proof {
        let edges = graph_edges(*g);
        match r {
            Some(c) => {
                lemma_least_cost_unique(edges, start as int, goal as int, c as int);
            },
            None => {
                if exists|c: int| is_least_cost(edges, start as int, goal as int, c) {
                    let c = choose|c: int| is_least_cost(edges, start as int, goal as int, c);
                    assert(reachable(edges, start as int, goal as int));
                }
            },
        }
    }
    r
}

/// A least cost, where there is one, is what `least_cost` gives.
pub proof fn lemma_least_cost_unique(edges: Seq<(int, int, int)>, a: int, b: int, c: int)
    requires
        is_least_cost(edges, a, b, c),
    ensures
        least_cost(edges, a, b) == Some(c),
{
    let d = choose|d: int| is_least_cost(edges, a, b, d);
    let (vs, es) = choose|vs: Seq<int>, es: Seq<int>|
        is_walk(edges, a, b, vs, es) && walk_cost(edges, es) == c;
    let (ws, fs) = choose|ws: Seq<int>, fs: Seq<int>|
        is_walk(edges, a, b, ws, fs) && walk_cost(edges, fs) == d;
    assert(d <= walk_cost(edges, es));
    assert(c <= walk_cost(edges, fs));
}

} // verus!
