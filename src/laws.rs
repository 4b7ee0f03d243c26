//! Laws of the graph operations, stated over the abstract state that the
//! methods of `Graph` are proved to follow.
use vstd::prelude::*;

use crate::graph::{GraphOp, GraphView};

verus! {

/// Whether `op` adds the node `id`.
pub open spec fn adds_node<N, ND, ED>(op: GraphOp<N, ND, ED>, id: N) -> bool {
    op matches GraphOp::AddNode(n, _) && n == id
}

/// Adding a node twice keeps the second payload.
pub proof fn lemma_add_node_last_write_wins<N, ND, ED>(
    g: GraphView<N, ND, ED>,
    id: N,
    d1: ND,
    d2: ND,
)
    ensures
        g.add_node(id, d1).add_node(id, d2).node_data(id) == Some(d2),
{
}

/// An identifier that no call adds as a node has no payload, whatever edges
/// mention it.
pub proof fn lemma_never_added_is_absent<N, ND, ED>(ops: Seq<GraphOp<N, ND, ED>>, id: N)
    requires
        forall|i: int| 0 <= i < ops.len() ==> !adds_node(#[trigger] ops[i], id),
    ensures
        GraphView::<N, ND, ED>::empty().apply_all(ops).node_data(id) is None,
{
    lemma_absent_stays_absent(GraphView::empty(), ops, id);
}

proof fn lemma_absent_stays_absent<N, ND, ED>(
    g: GraphView<N, ND, ED>,
    ops: Seq<GraphOp<N, ND, ED>>,
    id: N,
)
    requires
        g.node_data(id) is None,
        forall|i: int| 0 <= i < ops.len() ==> !adds_node(#[trigger] ops[i], id),
    ensures
        g.apply_all(ops).node_data(id) is None,
    decreases ops.len(),
{
    if ops.len() > 0 {
        assert(!adds_node(ops[0], id));
        let rest = ops.drop_first();
        assert forall|i: int| 0 <= i < rest.len() implies !adds_node(#[trigger] rest[i], id) by {
            assert(rest[i] == ops[i + 1]);
        }
        lemma_absent_stays_absent(g.apply(ops[0]), rest, id);
    }
}

/// After `add_edge(u, v, d)` the edge carries `d` from `u` to `v` and from
/// `v` to `u`.
pub proof fn lemma_add_edge_symmetric<N, ND, ED>(g: GraphView<N, ND, ED>, u: N, v: N, d: ED)
    ensures
        g.add_edge(u, v, d).edge(u, v) == Some(d),
        g.add_edge(u, v, d).edge(v, u) == Some(d),
{
}

/// Adding the same edge twice leaves one entry each way, with the second
/// payload: the graph is as if only the second call had been made.
pub proof fn lemma_add_edge_overwrites<N, ND, ED>(
    g: GraphView<N, ND, ED>,
    u: N,
    v: N,
    d1: ED,
    d2: ED,
)
    ensures
        g.add_edge(u, v, d1).add_edge(u, v, d2) == g.add_edge(u, v, d2),
        g.add_edge(u, v, d1).add_edge(u, v, d2).edge(u, v) == Some(d2),
        g.add_edge(u, v, d1).add_edge(u, v, d2).edge(v, u) == Some(d2),
        g.add_edge(u, v, d1).add_edge(u, v, d2).neighbours(u).dom() == g.neighbours(u).dom().insert(
            v,
        ),
{
    let once = g.add_edge(u, v, d2);
    let twice = g.add_edge(u, v, d1).add_edge(u, v, d2);
    assert(twice.neighbours(u) =~= once.neighbours(u));
    assert(twice.neighbours(v) =~= once.neighbours(v));
    assert(twice.adj =~= once.adj);
    assert(twice.neighbours(u).dom() =~= g.neighbours(u).dom().insert(v));
}

/// A self-loop `add_edge(u, u, d)` gives `u` exactly one entry for itself,
/// with payload `d`.
pub proof fn lemma_self_loop<N, ND, ED>(g: GraphView<N, ND, ED>, u: N, d: ED)
    ensures
        g.add_edge(u, u, d).neighbours(u) == g.neighbours(u).insert(u, d),
        g.add_edge(u, u, d).edge(u, u) == Some(d),
{
    assert(g.add_edge(u, u, d).neighbours(u) =~= g.neighbours(u).insert(u, d));
}

} // verus!
