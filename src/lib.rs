//! A library for the delta-v maps of Kerbal Space Program: a tree of named
//! categories and locations for menus, bound to a weighted undirected graph
//! over which the cost of travel between two locations is computed.

mod menutree;
pub mod graph;
mod stock;

pub use crate::menutree::{shapes, MenuTree, NoSuchNodeError, NodeView};
pub use crate::stock::{STOCK_EDGES, STOCK_VERTICES};
use crate::graph::{
    add_vertex, add_weighted_edge, graph_edges, graph_nodes, least_cost,
    lemma_least_cost_symmetric, lemma_least_cost_to_itself, lemma_total_weight_prefix,
    lemma_total_weight_step, new_graph, shortest_path_cost, total_weight, weights_fit,
    INDEX_END,
};
use petgraph::graph::Graph;
use petgraph::Undirected;
use vstd::prelude::*;

verus! {

/// Why a delta-v query failed.
#[derive(Debug)]
pub enum QueryError {
    /// A name that no node of the menu tree has.
    NoSuchNode(NoSuchNodeError),
    /// A name that belongs to a category, which has no vertex in the graph.
    NotALocation(String),
}

/// Why a description could not be made into a delta-v map.
#[derive(PartialEq, Eq, Debug, Clone, Copy)]
pub enum DeserializeError {
    /// More vertices than a graph with `u32` indices holds.
    TooManyVertices,
    /// More edges than a graph with `u32` indices holds.
    TooManyEdges,
    /// A location of the tree names a vertex that the graph lacks.
    DanglingHandle,
    /// An edge names a vertex that the graph lacks.
    DanglingEdge,
    /// An edge has a negative weight.
    NegativeWeight,
    /// The weights sum to more than the search can add up in an `i32`.
    WeightsTooLarge,
}

/// What a delta-v query gives, in mathematical terms.
pub enum Outcome {
    /// The least cost of travel, or `None` when the two are not connected.
    Cost(Option<int>),
    /// The name that no node has.
    NotFound(Seq<char>),
    /// The name of a category where a location was needed.
    NotALocation(Seq<char>),
}

/// The outcome that a query's result stands for.
pub open spec fn outcome_of(r: Result<Option<i32>, QueryError>) -> Outcome {
    match r {
        Ok(Some(c)) => Outcome::Cost(Some(c as int)),
        Ok(None) => Outcome::Cost(None),
        Err(QueryError::NoSuchNode(e)) => Outcome::NotFound(e.name@),
        Err(QueryError::NotALocation(name)) => Outcome::NotALocation(name@),
    }
}

/// The view of a list of edges as the graph holds them.
pub open spec fn edges_view(edges: Seq<(usize, usize, i32)>) -> Seq<(int, int, int)> {
    edges.map_values(|e: (usize, usize, i32)| (e.0 as int, e.1 as int, e.2 as int))
}

/// The view of a list of vertex payloads.
pub open spec fn names_view(names: Seq<String>) -> Seq<Seq<char>> {
    names.map_values(|s: String| s@)
}

/// Every edge joins two of the `n` vertices.
pub open spec fn endpoints_below(edges: Seq<(int, int, int)>, n: int) -> bool {
    forall|k: int|
        0 <= k < edges.len() ==> 0 <= (#[trigger] edges[k]).0 < n && 0 <= edges[k].1 < n
}

/// Why a description of a map is refused, checked in this order; `None` when
/// it is accepted.
pub open spec fn description_error(
    tree: MenuTree,
    nodes: Seq<Seq<char>>,
    edges: Seq<(int, int, int)>,
) -> Option<DeserializeError> {
    if nodes.len() >= INDEX_END {
        Some(DeserializeError::TooManyVertices)
    } else if edges.len() >= INDEX_END {
        Some(DeserializeError::TooManyEdges)
    } else if !tree.handles_below(nodes.len() as int) {
        Some(DeserializeError::DanglingHandle)
    } else if !endpoints_below(edges, nodes.len() as int) {
        Some(DeserializeError::DanglingEdge)
    } else if exists|k: int| 0 <= k < edges.len() && #[trigger] edges[k].2 < 0 {
        Some(DeserializeError::NegativeWeight)
    } else if 2 * total_weight(edges) > i32::MAX {
        Some(DeserializeError::WeightsTooLarge)
    } else {
        None
    }
}

/// A usable delta-v map: a menu tree whose locations name vertices of an
/// undirected graph weighted by the delta-v of each transfer.
pub struct DeltavMap {
    menu_tree: MenuTree,
    graph: Graph<String, i32, Undirected, u32>,
}

impl DeltavMap {
    /// The menu tree.
    pub closed spec fn tree(self) -> MenuTree {
        self.menu_tree
    }

    /// The payloads of the graph's vertices.
    pub closed spec fn nodes(self) -> Seq<Seq<char>> {
        graph_nodes(self.graph)
    }

    /// The graph's edges.
    pub closed spec fn edges(self) -> Seq<(int, int, int)> {
        graph_edges(self.graph)
    }

    /// Every location names a vertex, every edge joins two vertices, and the
    /// weights are non-negative with a sum that the search can add up.
    pub open spec fn wf(self) -> bool {
        &&& self.nodes().len() < INDEX_END
        &&& self.edges().len() < INDEX_END
        &&& self.tree().handles_below(self.nodes().len() as int)
        &&& endpoints_below(self.edges(), self.nodes().len() as int)
        &&& weights_fit(self.edges())
    }

    #[verifier::type_invariant]
    closed spec fn inv(self) -> bool {
        self.wf()
    }

    /// The outcome of asking for the delta-v from `start` to `end`: each name
    /// is looked up in the tree, the start first; both must be locations.
    pub open spec fn delta_v(self, start: Seq<char>, end: Seq<char>) -> Outcome {
        match self.tree().find(start) {
            None => Outcome::NotFound(start),
            Some(s) => match self.tree().find(end) {
                None => Outcome::NotFound(end),
                Some(t) => match s {
                    MenuTree::MiddleNode { .. } => Outcome::NotALocation(start),
                    MenuTree::EndNode { index: a, .. } => match t {
                        MenuTree::MiddleNode { .. } => Outcome::NotALocation(end),
                        MenuTree::EndNode { index: b, .. } => Outcome::Cost(
                            least_cost(self.edges(), a as int, b as int),
                        ),
                    },
                },
            },
        }
    }

    /// Builds a map from a menu tree, the payloads of the graph's vertices,
    /// and its edges as (vertex, vertex, delta-v). A location's index is the
    /// position of its vertex in `nodes`.
    ///
    /// Fails, and builds nothing, when the description names a vertex that
    /// `nodes` lacks, has a negative weight, or is too large for the graph.
    pub fn from_description(
        menu_tree: MenuTree,
        nodes: Vec<String>,
        edges: Vec<(usize, usize, i32)>,
    ) -> (r: Result<DeltavMap, DeserializeError>)
        ensures
            match r {
                Ok(m) => {
                    &&& description_error(menu_tree, names_view(nodes@), edges_view(edges@)) is None
                    &&& m.tree() == menu_tree
                    &&& m.nodes() == names_view(nodes@)
                    &&& m.edges() == edges_view(edges@)
                },
                Err(e) => description_error(menu_tree, names_view(nodes@), edges_view(edges@))
                    == Some(e),
            },
    {
        let ghost ev = edges_view(edges@);
        let n = nodes.len();
        if n >= INDEX_END {
            return Err(DeserializeError::TooManyVertices);
        }
        if edges.len() >= INDEX_END {
            return Err(DeserializeError::TooManyEdges);
        }
        if !menu_tree.handles_within(n) {
            return Err(DeserializeError::DanglingHandle);
        }
        let mut k: usize = 0;
        while k < edges.len()
            invariant
                k <= edges@.len(),
                ev == edges_view(edges@),
                n == nodes@.len(),
                n < INDEX_END,
                edges@.len() < INDEX_END,
                menu_tree.handles_below(n as int),
                forall|j: int| 0 <= j < k ==> 0 <= (#[trigger] ev[j]).0 < n && 0 <= ev[j].1 < n,
            decreases edges@.len() - k,
        {
            if edges[k].0 >= n || edges[k].1 >= n {
                assert(ev[k as int].0 == edges@[k as int].0 && ev[k as int].1 == edges@[k as int].1);
                assert(!endpoints_below(ev, n as int));
                return Err(DeserializeError::DanglingEdge);
            }
            k = k + 1;
        }
        k = 0;
        while k < edges.len()
            invariant
                k <= edges@.len(),
                ev == edges_view(edges@),
                n == nodes@.len(),
                n < INDEX_END,
                edges@.len() < INDEX_END,
                menu_tree.handles_below(n as int),
                endpoints_below(ev, n as int),
                forall|j: int| 0 <= j < k ==> 0 <= #[trigger] ev[j].2,
            decreases edges@.len() - k,
        {
            if edges[k].2 < 0 {
                assert(ev[k as int].2 < 0);
                return Err(DeserializeError::NegativeWeight);
            }
            k = k + 1;
        }
        let mut total: i64 = 0;
        k = 0;
        while k < edges.len()
            invariant
                k <= edges@.len(),
                ev == edges_view(edges@),
                n == nodes@.len(),
                n < INDEX_END,
                edges@.len() < INDEX_END,
                menu_tree.handles_below(n as int),
                endpoints_below(ev, n as int),
                forall|j: int| 0 <= j < ev.len() ==> 0 <= #[trigger] ev[j].2,
                total == total_weight(ev.subrange(0, k as int)),
                0 <= total,
                2 * total <= i32::MAX,
            decreases edges@.len() - k,
        {
            assert(ev[k as int].2 == edges@[k as int].2);
            total = total + edges[k].2 as i64;
            proof {
                lemma_total_weight_step(ev, k as int);
            }
            if 2 * total > i32::MAX as i64 {
                proof {
                    lemma_total_weight_prefix(ev, k + 1);
                }
                return Err(DeserializeError::WeightsTooLarge);
            }
            k = k + 1;
        }
        assert(ev.subrange(0, ev.len() as int) =~= ev);
        let mut graph = new_graph();
        let mut i: usize = 0;
        while i < n
            invariant
                n == nodes@.len(),
                n < INDEX_END,
                i <= n,
                graph_nodes(graph) =~= names_view(nodes@.subrange(0, i as int)),
                graph_edges(graph) == Seq::<(int, int, int)>::empty(),
            decreases n - i,
        {
            add_vertex(&mut graph, nodes[i].clone());
            assert(names_view(nodes@.subrange(0, i + 1)) =~= names_view(
                nodes@.subrange(0, i as int),
            ).push(nodes@[i as int]@));
            i = i + 1;
        }
        assert(nodes@.subrange(0, n as int) =~= nodes@);
        k = 0;
        while k < edges.len()
            invariant
                k <= edges@.len(),
                edges@.len() < INDEX_END,
                ev == edges_view(edges@),
                graph_nodes(graph) == names_view(nodes@),
                names_view(nodes@).len() == n,
                endpoints_below(ev, n as int),
                graph_edges(graph) =~= ev.subrange(0, k as int),
            decreases edges@.len() - k,
        {
            let e = edges[k];
            assert(ev[k as int] == (e.0 as int, e.1 as int, e.2 as int));
            add_weighted_edge(&mut graph, e.0, e.1, e.2);
            assert(ev.subrange(0, k + 1) =~= ev.subrange(0, k as int).push(ev[k as int]));
            k = k + 1;
        }
        assert(ev.subrange(0, ev.len() as int) =~= ev);
        Ok(DeltavMap { menu_tree, graph })
    }

    /// The menu tree you can use to structure your menu.
    pub fn menu_tree(&self) -> (r: &MenuTree)
        ensures
            *r == self.tree(),
    {
        &self.menu_tree
    }

    /// The menu tree you can use to structure your menu.
    pub fn get_menu_tree(&self) -> (r: &MenuTree)
        ensures
            *r == self.tree(),
    {
        &self.menu_tree
    }

    /// The graph of the map, with the delta-v of each transfer as the weight
    /// of its edge.
    pub fn get_graph(&self) -> (r: &Graph<String, i32, Undirected, u32>)
        ensures
            graph_nodes(*r) == self.nodes(),
            graph_edges(*r) == self.edges(),
    {
        &self.graph
    }

    /// Calculates the delta-v required to get from the location `start` to
    /// the location `end`.
    ///
    /// Fails with [`QueryError::NoSuchNode`] for the first of the two names
    /// that no node has, and with [`QueryError::NotALocation`] for the first
    /// that names a category. Returns `Ok(None)` when there is no path between
    /// the two; the map is then probably malformed.
    pub fn calculate_delta_v(&self, start: &str, end: &str) -> (r: Result<Option<i32>, QueryError>)
        ensures
            outcome_of(r) == self.delta_v(start@, end@),
    {
        proof {
            use_type_invariant(self);
        }
        let s = match self.menu_tree.search(start) {
            Ok(node) => node,
            Err(e) => return Err(QueryError::NoSuchNode(e)),
        };
        let t = match self.menu_tree.search(end) {
            Ok(node) => node,
            Err(e) => return Err(QueryError::NoSuchNode(e)),
        };
        let a = match s {
            MenuTree::EndNode { index, .. } => *index,
            MenuTree::MiddleNode { .. } => return Err(QueryError::NotALocation(start.to_owned())),
        };
        let b = match t {
            MenuTree::EndNode { index, .. } => *index,
            MenuTree::MiddleNode { .. } => return Err(QueryError::NotALocation(end.to_owned())),
        };
        proof {
            self.menu_tree.lemma_found_within(start@, self.nodes().len() as int);
            self.menu_tree.lemma_found_within(end@, self.nodes().len() as int);
        }
        Ok(shortest_path_cost(&self.graph, a, b))
    }
}

/// The delta-v from a location to itself is zero.
pub proof fn lemma_delta_v_to_itself(m: DeltavMap, name: Seq<char>)
    requires
        m.wf(),
        m.tree().find(name) matches Some(MenuTree::EndNode { .. }),
    ensures
        m.delta_v(name, name) == Outcome::Cost(Some(0int)),
{
    let a = m.tree().find(name)->0->index;
    lemma_least_cost_to_itself(m.edges(), a as int);
}

/// The delta-v between two locations is the same in both directions.
pub proof fn lemma_delta_v_symmetric(m: DeltavMap, a: Seq<char>, b: Seq<char>)
    requires
        m.wf(),
        m.tree().find(a) matches Some(MenuTree::EndNode { .. }),
        m.tree().find(b) matches Some(MenuTree::EndNode { .. }),
    ensures
        m.delta_v(a, b) == m.delta_v(b, a),
{
    let x = m.tree().find(a)->0->index;
    let y = m.tree().find(b)->0->index;
    lemma_least_cost_symmetric(m.edges(), x as int, y as int);
}

/// A name that no node has makes a query fail with that very name, whether
/// it stands as the start or as the end (after a start that is found).
pub proof fn lemma_unknown_name(m: DeltavMap, name: Seq<char>, other: Seq<char>)
    requires
        m.tree().find(name) is None,
    ensures
        m.delta_v(name, other) == Outcome::NotFound(name),
        m.tree().find(other) is Some ==> m.delta_v(other, name) == Outcome::NotFound(name),
{
}

/// A well-formed map, written out as its tree, its vertex payloads and its
/// edges, is a description that `from_description` accepts; it then builds a
/// map with that same tree, payloads and edges.
pub proof fn lemma_description_round_trip(m: DeltavMap)
    requires
        m.wf(),
    ensures
        description_error(m.tree(), m.nodes(), m.edges()) is None,
{
}

} // verus!
