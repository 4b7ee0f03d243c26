use std::collections::HashMap;
use std::hash::Hash;
use vstd::prelude::*;
use vstd::std_specs::hash::{obeys_key_model, spec_hash_map_iter, spec_keys_iter};
use vstd::std_specs::iter::IteratorSpec;

verus! {

/// An undirected graph: a payload for each node, and for each node the
/// payloads of the edges to its neighbours.
///
/// The methods that look up or store by identifier ask that `N` behave
/// consistently as a hash key (`obeys_key_model`): equal identifiers hash
/// alike, and `==` agrees with equality of values.
pub struct Graph<N, ND, ED> {
    nodes: HashMap<N, ND>,
    edges: HashMap<N, HashMap<N, ED>>,
}

/// The abstract state of a graph: the payload of each node, and for each
/// identifier with an adjacency entry, its neighbours and the payload of the
/// edge to each.
#[verifier::reject_recursive_types(N)]
pub struct GraphView<N, ND, ED> {
    pub nodes: Map<N, ND>,
    pub adj: Map<N, Map<N, ED>>,
}

impl<N, ND, ED> GraphView<N, ND, ED> {
    /// The graph with no nodes and no edges.
    pub open spec fn empty() -> Self {
        GraphView { nodes: Map::empty(), adj: Map::empty() }
    }

    /// The neighbours of `u`, none where `u` has no adjacency entry.
    pub open spec fn neighbours(self, u: N) -> Map<N, ED> {
        if self.adj.contains_key(u) {
            self.adj[u]
        } else {
            Map::empty()
        }
    }

    /// The payload of node `n`, if it has one.
    pub open spec fn node_data(self, n: N) -> Option<ND> {
        if self.nodes.contains_key(n) {
            Some(self.nodes[n])
        } else {
            None
        }
    }

    /// The payload of the edge from `u` to `v`, if there is one.
    pub open spec fn edge(self, u: N, v: N) -> Option<ED> {
        if self.adj.contains_key(u) && self.adj[u].contains_key(v) {
            Some(self.adj[u][v])
        } else {
            None
        }
    }

    /// Every node has an adjacency entry, and each edge is recorded in both
    /// directions with the same payload.
    pub open spec fn wf(self) -> bool {
        &&& forall|n: N| #[trigger] self.nodes.contains_key(n) ==> self.adj.contains_key(n)
        &&& forall|u: N, v: N| #[trigger] self.edge(u, v) == self.edge(v, u)
    }

    /// The node `n` with payload `d`: a new payload replaces the old one, and
    /// an identifier without an adjacency entry gets an empty one.
    pub open spec fn add_node(self, n: N, d: ND) -> Self {
        GraphView { nodes: self.nodes.insert(n, d), adj: self.adj.insert(n, self.neighbours(n)) }
    }

    /// The one-way entry `u -> v` set to `d`.
    pub open spec fn add_half_edge(self, u: N, v: N, d: ED) -> Self {
        GraphView { nodes: self.nodes, adj: self.adj.insert(u, self.neighbours(u).insert(v, d)) }
    }

    /// The edge between `u` and `v` set to `d` in both directions; the node
    /// payloads are left as they are.
    pub open spec fn add_edge(self, u: N, v: N, d: ED) -> Self {
        self.add_half_edge(u, v, d).add_half_edge(v, u, d)
    }
}

/// One mutating call on a graph, for reasoning about sequences of calls.
pub enum GraphOp<N, ND, ED> {
    AddNode(N, ND),
    AddEdge(N, N, ED),
}

impl<N, ND, ED> GraphView<N, ND, ED> {
    /// The graph after `op`.
    pub open spec fn apply(self, op: GraphOp<N, ND, ED>) -> Self {
        match op {
            GraphOp::AddNode(n, d) => self.add_node(n, d),
            GraphOp::AddEdge(u, v, d) => self.add_edge(u, v, d),
        }
    }

    /// The graph after each of `ops`, first to last.
    pub open spec fn apply_all(self, ops: Seq<GraphOp<N, ND, ED>>) -> Self
        decreases ops.len(),
    {
        if ops.len() == 0 {
            self
        } else {
            self.apply(ops[0]).apply_all(ops.drop_first())
        }
    }
}

impl<N, ND, ED> View for Graph<N, ND, ED> {
    type V = GraphView<N, ND, ED>;

    closed spec fn view(&self) -> GraphView<N, ND, ED> {
        GraphView { nodes: self.nodes@, adj: self.edges@.map_values(|m: HashMap<N, ED>| m@) }
    }
}

impl<N: Copy + Eq + Hash, ND, ED: Copy> Graph<N, ND, ED> {
    /// An empty graph.
    pub fn new() -> (g: Self)
        ensures
            g@ == GraphView::<N, ND, ED>::empty(),
            g@.wf(),
    {
        let g = Graph { nodes: HashMap::new(), edges: HashMap::new() };
        assert(g@.adj =~= Map::<N, Map<N, ED>>::empty());
        g
    }

    /// Sets the payload of `node` to `data`, replacing an earlier one. An
    /// identifier without an adjacency entry gets an empty one; the edges of
    /// one that has an entry are kept.
    pub fn add_node(&mut self, node: N, data: ND)
        requires
            obeys_key_model::<N>(),
            old(self)@.wf(),
        ensures
            final(self)@ == old(self)@.add_node(node, data),
            final(self)@.wf(),
    {
        self.nodes.insert(node, data);
        if !self.edges.contains_key(&node) {
            self.edges.insert(node, HashMap::new());
        }
        assert(self@.adj =~= old(self)@.add_node(node, data).adj);
        proof {
            lemma_add_node_edge(old(self)@, node, data);
        }
    }

    /// The payload of `node`, or `None` where it was never added as a node.
    pub fn node_data(&self, node: N) -> (r: Option<&ND>)
        requires
            obeys_key_model::<N>(),
        ensures
            match r {
                Some(d) => self@.node_data(node) == Some(*d),
                None => self@.node_data(node) is None,
            },
    {
        self.nodes.get(&node)
    }

    /// The payload of the edge from `u` to `v`, or `None` where there is no
    /// such edge.
    pub fn edge_data(&self, u: N, v: N) -> (r: Option<&ED>)
        requires
            obeys_key_model::<N>(),
        ensures
            match r {
                Some(d) => self@.edge(u, v) == Some(*d),
                None => self@.edge(u, v) is None,
            },
    {
        match self.edges.get(&u) {
            Some(m) => m.get(&v),
            None => None,
        }
    }

    /// The identifiers of all nodes, each once, in no particular order.
    pub fn nodes(&self) -> (r: Vec<N>)
        requires
            obeys_key_model::<N>(),
        ensures
            r@.to_set() == self@.nodes.dom(),
            r@.no_duplicates(),
    {
        let mut r: Vec<N> = Vec::new();
        for k in it: self.nodes.keys()
            invariant
                it.seq() == spec_keys_iter(&self.nodes).remaining(),
                r@ == it.seq().unref().take(it.index()),
        {
            r.push(*k);
            assert(r@ =~= it.seq().unref().take(it.index() + 1));
        }
        assert(r@ =~= spec_keys_iter(&self.nodes).remaining().unref());
        r
    }

    /// Each node with its payload, each once, in no particular order.
    pub fn nodes_data(&self) -> (r: Vec<(&N, &ND)>)
        requires
            obeys_key_model::<N>(),
        ensures
            r@.unref().to_set() == self@.nodes.kv_pairs(),
            r@.unref().no_duplicates(),
    {
        let mut r: Vec<(&N, &ND)> = Vec::new();
        for p in it: self.nodes.iter()
            invariant
                it.seq() == spec_hash_map_iter(&self.nodes).remaining(),
                r@ == it.seq().take(it.index()),
        {
            r.push(p);
            assert(r@ =~= it.seq().take(it.index() + 1));
        }
        assert(r@ =~= spec_hash_map_iter(&self.nodes).remaining());
        r
    }

    /// Sets the one-way entry `u -> v` to `data`.
    fn add_half_edge(&mut self, u: N, v: N, data: ED)
        requires
            obeys_key_model::<N>(),
        ensures
            final(self)@ == old(self)@.add_half_edge(u, v, data),
    {
        let mut inner = match self.edges.remove(&u) {
            Some(m) => m,
            None => HashMap::new(),
        };
        inner.insert(v, data);
        self.edges.insert(u, inner);
        assert(self@.adj =~= old(self)@.add_half_edge(u, v, data).adj);
    }

    /// Records `data` as the payload of the edge between `u` and `v`, in both
    /// directions, replacing any earlier payload between them. The node
    /// payloads are not touched: an endpoint that was never added as a node
    /// stays without payload.
    pub fn add_edge(&mut self, u: N, v: N, data: ED)
        requires
            obeys_key_model::<N>(),
            old(self)@.wf(),
        ensures
            final(self)@ == old(self)@.add_edge(u, v, data),
            final(self)@.wf(),
    {
        self.add_half_edge(u, v, data);
        self.add_half_edge(v, u, data);
        proof {
            lemma_add_edge_edge(old(self)@, u, v, data);
        }
    }
}

/// Adding a node leaves every edge as it was.
pub proof fn lemma_add_node_edge<N, ND, ED>(g: GraphView<N, ND, ED>, n: N, d: ND)
    ensures
        forall|a: N, b: N| #[trigger] g.add_node(n, d).edge(a, b) == g.edge(a, b),
{
}

/// After `add_edge(u, v, d)`, the edge between `u` and `v` carries `d` both
/// ways and every other edge is as it was.
pub proof fn lemma_add_edge_edge<N, ND, ED>(g: GraphView<N, ND, ED>, u: N, v: N, d: ED)
    ensures
        forall|a: N, b: N| #[trigger]
            g.add_edge(u, v, d).edge(a, b) == if (a == u && b == v) || (a == v && b == u) {
                Some(d)
            } else {
                g.edge(a, b)
            },
{
}

} // verus!
