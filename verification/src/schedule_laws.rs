//! What holds of every schedule of a graph.

use vstd::prelude::*;
use crate::alias::overlaps;
use crate::analyze::{hazard_edges, lemma_hazard_edges_sound, lemma_live_ranges_unique, lists_conflict};
use crate::compile::{
    all_edges, is_acyclic, is_schedule_of, lifetimes_of, queue_nodes, ScheduleView,
};
use crate::graph::{graph_wf, lists_of, GraphView};
use crate::order_laws::{
    lemma_complete_greedy_is_topological, lemma_forward_edges_keep_declaration_order,
    lemma_greedy_no_duplicates, lemma_greedy_unique,
};
use crate::schedule::{
    declaration_order, edges_valid, is_greedy_order, is_ready, is_stuck, is_topological,
    lemma_distinct_covers, Edge,
};
use crate::slot_laws::{lemma_first_fit_unique, lemma_overlapping_never_share};

verus! {

/// The edges of a well-formed graph join nodes that exist.
pub proof fn lemma_all_edges_valid(g: GraphView)
    requires
        graph_wf(g),
    ensures
        edges_valid(g.nodes.len(), all_edges(g)),
{
    let lists = lists_of(g);
    let h = hazard_edges(lists);
    lemma_hazard_edges_sound(lists, lists.len());
    let all = all_edges(g);
    assert forall|i: int| 0 <= i < all.len() implies (#[trigger] all[i]).from < g.nodes.len()
        && all[i].to < g.nodes.len() by {
        if i < h.len() {
            assert(all[i] == h[i]);
        } else {
            assert(all[i] == g.edges[i - h.len()]);
        }
    }
}

/// After a greedy order that holds every node, no node may come next.
pub proof fn lemma_complete_greedy_is_stuck(n: nat, edges: Seq<Edge>, order: Seq<usize>)
    requires
        n <= usize::MAX,
        is_greedy_order(n, edges, order),
        order.len() == n,
    ensures
        is_stuck(n, edges, order),
{
    lemma_greedy_no_duplicates(n, edges, order);
    assert forall|v: usize| v < n implies !is_ready(edges, order, v) by {
        lemma_distinct_covers(order, n, v);
    }
}

/// The order of a schedule is a topological sort: for every dependency
/// edge, the node it starts at comes before the node it ends in.
pub proof fn lemma_schedule_is_topological(g: GraphView, s: ScheduleView)
    requires
        graph_wf(g),
        is_schedule_of(g, s),
    ensures
        is_topological(g.nodes.len(), all_edges(g), s.order),
        is_acyclic(g),
{
    lemma_complete_greedy_is_topological(g.nodes.len(), s.edges, s.order);
}

/// Two nodes with a hazard between them run in the order of their
/// declaration.
pub proof fn lemma_hazards_run_in_declaration_order(
    g: GraphView,
    s: ScheduleView,
    x: int,
    y: int,
    i: int,
    j: int,
)
    requires
        graph_wf(g),
        is_schedule_of(g, s),
        0 <= x < y < g.nodes.len(),
        lists_conflict(g.nodes[x].accesses, g.nodes[y].accesses),
        0 <= i < s.order.len(),
        0 <= j < s.order.len(),
        s.order[i] == x,
        s.order[j] == y,
    ensures
        i < j,
{
    let lists = lists_of(g);
    crate::analyze::lemma_hazard_edges_complete(lists, lists.len(), x, y);
    let h = hazard_edges(lists);
    let e = Edge { from: x as usize, to: y as usize };
    let k = choose|k: int| 0 <= k < h.len() && h[k] == e;
    let all = all_edges(g);
    assert(all[k] == e);
    lemma_schedule_is_topological(g, s);
    assert(s.order[i] == all[k].from && s.order[j] == all[k].to);
}

/// Determinism: a graph has one schedule. Compiling the same declarations
/// twice gives the same order, queues, edges, transitions, synchronization
/// points, lifetimes and slots.
pub proof fn lemma_schedule_unique(g: GraphView, a: ScheduleView, b: ScheduleView)
    requires
        graph_wf(g),
        is_schedule_of(g, a),
        is_schedule_of(g, b),
    ensures
        a == b,
{
    let n = g.nodes.len();
    lemma_complete_greedy_is_stuck(n, a.edges, a.order);
    lemma_complete_greedy_is_stuck(n, b.edges, b.order);
    lemma_greedy_unique(n, a.edges, a.order, b.order);
    lemma_live_ranges_unique(g.resources, lists_of(g), a.order, a.ranges, b.ranges);
    lemma_first_fit_unique(lifetimes_of(a.ranges), a.slots, b.slots);
}

/// Two transient resources whose lifetimes overlap are never given the same
/// slot.
pub proof fn lemma_schedule_never_aliases_overlapping(g: GraphView, s: ScheduleView, i: int, j: int)
    requires
        is_schedule_of(g, s),
        0 <= i < s.ranges.len(),
        0 <= j < s.ranges.len(),
        i != j,
        overlaps(s.ranges[i].lifetime, s.ranges[j].lifetime),
    ensures
        s.slots[i] != s.slots[j],
        s.ranges[i].resource != s.ranges[j].resource,
{
    lemma_overlapping_never_share(lifetimes_of(s.ranges), s.slots, i, j);
}

/// Where no edge that was declared by hand leads from a node to one
/// declared before it, and so where there is no such edge at all, the nodes
/// run in the order of their declaration.
pub proof fn lemma_schedule_keeps_declaration_order(g: GraphView, s: ScheduleView)
    requires
        graph_wf(g),
        is_schedule_of(g, s),
        forall|i: int| 0 <= i < g.edges.len() ==> (#[trigger] g.edges[i]).from < g.edges[i].to,
    ensures
        s.order == declaration_order(g.nodes.len()),
{
    let n = g.nodes.len();
    let lists = lists_of(g);
    let h = hazard_edges(lists);
    let all = all_edges(g);
    lemma_all_edges_valid(g);
    lemma_hazard_edges_sound(lists, lists.len());
    assert forall|i: int| 0 <= i < all.len() implies (#[trigger] all[i]).from < all[i].to by {
        if i < h.len() {
            assert(all[i] == h[i]);
        } else {
            assert(all[i] == g.edges[i - h.len()]);
        }
    }
    lemma_complete_greedy_is_stuck(n, all, s.order);
    lemma_forward_edges_keep_declaration_order(n, all, s.order);
}

/// Two edges that join the same nodes in opposite directions are a cycle:
/// no order has both point forward.
pub proof fn lemma_opposed_edges_are_a_cycle(n: nat, edges: Seq<Edge>, x: usize, y: usize)
    requires
        n <= usize::MAX,
        x < n,
        y < n,
        edges.contains(Edge { from: x, to: y }),
        edges.contains(Edge { from: y, to: x }),
    ensures
        forall|o: Seq<usize>| !is_topological(n, edges, o),
{
    assert forall|o: Seq<usize>| !is_topological(n, edges, o) by {
        if is_topological(n, edges, o) {
            lemma_distinct_covers(o, n, x);
            lemma_distinct_covers(o, n, y);
            let i = choose|i: int| 0 <= i < o.len() && o[i] == x;
            let j = choose|j: int| 0 <= j < o.len() && o[j] == y;
            let a = choose|a: int| 0 <= a < edges.len() && edges[a] == Edge { from: x, to: y };
            let b = choose|b: int| 0 <= b < edges.len() && edges[b] == Edge { from: y, to: x };
            assert(o[i] == edges[a].from && o[j] == edges[a].to);
            assert(o[j] == edges[b].from && o[i] == edges[b].to);
        }
    }
}

/// Cycle detection: a graph in which a node is declared by hand to precede
/// a node that was declared before it and with which it has a hazard has
/// no schedule.
pub proof fn lemma_edge_against_hazard_is_a_cycle(g: GraphView, x: int, y: int)
    requires
        graph_wf(g),
        0 <= x < y < g.nodes.len(),
        lists_conflict(g.nodes[x].accesses, g.nodes[y].accesses),
        g.edges.contains(Edge { from: y as usize, to: x as usize }),
    ensures
        !is_acyclic(g),
        forall|s: ScheduleView| !is_schedule_of(g, s),
{
    let lists = lists_of(g);
    let h = hazard_edges(lists);
    let all = all_edges(g);
    crate::analyze::lemma_hazard_edges_complete(lists, lists.len(), x, y);
    let e = Edge { from: x as usize, to: y as usize };
    let r = Edge { from: y as usize, to: x as usize };
    let k = choose|k: int| 0 <= k < h.len() && h[k] == e;
    assert(all[k] == e);
    let m = choose|m: int| 0 <= m < g.edges.len() && g.edges[m] == r;
    assert(all[h.len() + m] == r);
    lemma_opposed_edges_are_a_cycle(g.nodes.len(), all, x as usize, y as usize);
    assert forall|s: ScheduleView| !is_schedule_of(g, s) by {
        if is_schedule_of(g, s) {
            lemma_schedule_is_topological(g, s);
        }
    }
}

/// Node `v` runs on queue `q` at one of the first `upto` positions.
pub open spec fn runs_on(order: Seq<usize>, queues: Seq<u32>, q: u32, upto: nat, v: usize) -> bool {
    exists|p: int| 0 <= p < upto && queues[p] == q && #[trigger] order[p] == v
}

/// The batch of a queue holds the nodes that run on it and no others.
pub proof fn lemma_queue_nodes_members(order: Seq<usize>, queues: Seq<u32>, q: u32, upto: nat)
    requires
        upto <= order.len(),
        queues.len() == order.len(),
    ensures
        forall|v: usize|
            queue_nodes(order, queues, q, upto).contains(v) <==> runs_on(order, queues, q, upto, v),
    decreases upto,
{
    let cur = queue_nodes(order, queues, q, upto);
    if upto > 0 {
        lemma_queue_nodes_members(order, queues, q, (upto - 1) as nat);
        let prev = queue_nodes(order, queues, q, (upto - 1) as nat);
        let last = order[upto - 1];
        assert forall|v: usize| cur.contains(v) <==> runs_on(order, queues, q, upto, v) by {
            if cur.contains(v) {
                let i = choose|i: int| 0 <= i < cur.len() && cur[i] == v;
                if i < prev.len() {
                    assert(prev[i] == v);
                    assert(prev.contains(v));
                    assert(runs_on(order, queues, q, (upto - 1) as nat, v));
                    let p = choose|p: int|
                        0 <= p < upto - 1 && queues[p] == q && #[trigger] order[p] == v;
                    assert(0 <= p < upto && queues[p] == q && order[p] == v);
                } else {
                    assert(queues[upto - 1] == q && order[upto - 1] == v);
                }
            }
            if runs_on(order, queues, q, upto, v) {
                let p = choose|p: int| 0 <= p < upto && queues[p] == q && #[trigger] order[p] == v;
                if p < upto - 1 {
                    assert(runs_on(order, queues, q, (upto - 1) as nat, v));
                    let i = choose|i: int| 0 <= i < prev.len() && prev[i] == v;
                    assert(cur[i] == v);
                } else {
                    assert(cur[prev.len() as int] == v);
                }
            }
        }
    } else {
        assert forall|v: usize| cur.contains(v) <==> runs_on(order, queues, q, upto, v) by {}
    }
}

/// The batch of a queue keeps the order of the schedule: of two nodes on
/// one queue, the one that runs first comes first in the batch.
pub proof fn lemma_queue_nodes_keep_order(
    order: Seq<usize>,
    queues: Seq<u32>,
    q: u32,
    upto: nat,
    p1: int,
    p2: int,
)
    requires
        upto <= order.len(),
        queues.len() == order.len(),
        0 <= p1 < p2 < upto,
        queues[p1] == q,
        queues[p2] == q,
    ensures
        exists|i1: int, i2: int|
            0 <= i1 < i2 < queue_nodes(order, queues, q, upto).len() && #[trigger] queue_nodes(
                order,
                queues,
                q,
                upto,
            )[i1] == order[p1] && #[trigger] queue_nodes(order, queues, q, upto)[i2] == order[p2],
    decreases upto,
{
    let prev = queue_nodes(order, queues, q, (upto - 1) as nat);
    let cur = queue_nodes(order, queues, q, upto);
    if p2 < upto - 1 {
        lemma_queue_nodes_keep_order(order, queues, q, (upto - 1) as nat, p1, p2);
        let (i1, i2) = choose|i1: int, i2: int|
            0 <= i1 < i2 < prev.len() && #[trigger] prev[i1] == order[p1] && #[trigger] prev[i2]
                == order[p2];
        assert(cur[i1] == order[p1] && cur[i2] == order[p2]);
    } else {
        lemma_queue_nodes_members(order, queues, q, (upto - 1) as nat);
        assert(runs_on(order, queues, q, (upto - 1) as nat, order[p1]));
        assert(prev.contains(order[p1]));
        let i1 = choose|i1: int| 0 <= i1 < prev.len() && prev[i1] == order[p1];
        let i2 = prev.len() as int;
        assert(cur[i1] == order[p1] && cur[i2] == order[p2]);
    }
}

} // verus!
