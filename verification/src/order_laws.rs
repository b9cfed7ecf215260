//! What holds of every order that the scheduler produces.

use vstd::prelude::*;
use crate::schedule::{
    declaration_order, edges_valid, is_greedy_order, is_ready, is_stuck, is_topological,
    lemma_covering_length, lemma_distinct_below, lemma_distinct_covers, Edge,
};

verus! {

/// A greedy order holds no node twice.
pub proof fn lemma_greedy_no_duplicates(n: nat, edges: Seq<Edge>, order: Seq<usize>)
    requires
        is_greedy_order(n, edges, order),
    ensures
        order.no_duplicates(),
{
    assert forall|i: int, j: int|
        0 <= i < order.len() && 0 <= j < order.len() && i != j implies order[i] != order[j] by {
        let (lo, hi) = if i < j { (i, j) } else { (j, i) };
        assert(is_ready(edges, order.take(hi), order[hi]));
        assert(order.take(hi)[lo] == order[lo]);
        assert(order.take(hi).contains(order[lo]));
    }
}

/// A greedy order of `n` nodes has at most `n` elements.
pub proof fn lemma_greedy_length(n: nat, edges: Seq<Edge>, order: Seq<usize>)
    requires
        n <= usize::MAX,
        is_greedy_order(n, edges, order),
    ensures
        order.len() <= n,
{
    lemma_greedy_no_duplicates(n, edges, order);
    lemma_distinct_below(order, n);
}

/// Two greedy orders of one graph agree wherever both are defined.
pub proof fn lemma_greedy_agree(n: nat, edges: Seq<Edge>, a: Seq<usize>, b: Seq<usize>, k: int)
    requires
        is_greedy_order(n, edges, a),
        is_greedy_order(n, edges, b),
        0 <= k <= a.len(),
        k <= b.len(),
    ensures
        a.take(k) == b.take(k),
    decreases k,
{
    if k > 0 {
        lemma_greedy_agree(n, edges, a, b, k - 1);
        let p = a.take(k - 1);
        assert(b.take(k - 1) == p);
        let x = a[k - 1];
        let y = b[k - 1];
        assert(is_ready(edges, p, x));
        assert(is_ready(edges, p, y));
        assert(x == y);
        assert(a.take(k) =~= p.push(x));
        assert(b.take(k) =~= p.push(y));
    }
}

/// Determinism of the order: a graph has one greedy order after which no
/// node may come next.
pub proof fn lemma_greedy_unique(n: nat, edges: Seq<Edge>, a: Seq<usize>, b: Seq<usize>)
    requires
        is_greedy_order(n, edges, a),
        is_stuck(n, edges, a),
        is_greedy_order(n, edges, b),
        is_stuck(n, edges, b),
    ensures
        a == b,
{
    if a.len() <= b.len() {
        lemma_greedy_agree(n, edges, a, b, a.len() as int);
        assert(a.take(a.len() as int) =~= a);
        if a.len() < b.len() {
            let k = a.len() as int;
            assert(is_ready(edges, b.take(k), b[k]));
            assert(b[k] < n);
        }
        assert(b.take(b.len() as int) =~= b);
    } else {
        lemma_greedy_agree(n, edges, a, b, b.len() as int);
        assert(b.take(b.len() as int) =~= b);
        let k = b.len() as int;
        assert(is_ready(edges, a.take(k), a[k]));
        assert(a[k] < n);
    }
}

/// The order is a topological sort: a greedy order that holds all `n` nodes
/// places the start of every edge before its end.
pub proof fn lemma_complete_greedy_is_topological(n: nat, edges: Seq<Edge>, order: Seq<usize>)
    requires
        is_greedy_order(n, edges, order),
        order.len() == n,
    ensures
        is_topological(n, edges, order),
{
    lemma_greedy_no_duplicates(n, edges, order);
    assert forall|e: int, i: int, j: int|
        0 <= e < edges.len() && 0 <= i < order.len() && 0 <= j < order.len()
            && #[trigger] order[i] == (#[trigger] edges[e]).from && #[trigger] order[j]
            == edges[e].to implies i < j by {
        assert(is_ready(edges, order.take(j), order[j]));
        assert(order.take(j).contains(edges[e].from));
        let m = choose|m: int| 0 <= m < order.take(j).len() && order.take(j)[m] == edges[e].from;
        assert(order[m] == order[i]);
    }
}

proof fn lemma_topological_within_stuck(
    n: nat,
    edges: Seq<Edge>,
    order: Seq<usize>,
    o: Seq<usize>,
    i: int,
)
    requires
        n <= usize::MAX,
        edges_valid(n, edges),
        is_stuck(n, edges, order),
        is_topological(n, edges, o),
        0 <= i < o.len(),
    ensures
        order.contains(o[i]),
    decreases i,
{
    let w = o[i];
    if !order.contains(w) {
        assert(w < n);
        assert(!is_ready(edges, order, w));
        let e = choose|e: int|
            0 <= e < edges.len() && (#[trigger] edges[e]).to == w && !order.contains(
                edges[e].from,
            );
        let u = edges[e].from;
        assert(u < n);
        lemma_distinct_covers(o, n, u);
        let j = choose|j: int| 0 <= j < o.len() && o[j] == u;
        assert(o[j] == edges[e].from && o[i] == edges[e].to);
        assert(j < i);
        lemma_topological_within_stuck(n, edges, order, o, j);
    }
}

/// Cycle detection: where the greedy order stops before it holds every
/// node, no order of the nodes has every edge point forward.
pub proof fn lemma_stuck_has_no_topological(n: nat, edges: Seq<Edge>, order: Seq<usize>)
    requires
        n <= usize::MAX,
        edges_valid(n, edges),
        is_stuck(n, edges, order),
        order.len() < n,
    ensures
        forall|o: Seq<usize>| !is_topological(n, edges, o),
{
    assert forall|o: Seq<usize>| !is_topological(n, edges, o) by {
        if is_topological(n, edges, o) {
            assert forall|v: usize| v < n implies order.contains(v) by {
                lemma_distinct_covers(o, n, v);
                let i = choose|i: int| 0 <= i < o.len() && o[i] == v;
                lemma_topological_within_stuck(n, edges, order, o, i);
            }
            lemma_covering_length(order, n);
        }
    }
}

/// The declaration order is greedy where every edge leads from a node to
/// one declared later.
pub proof fn lemma_declaration_order_greedy(n: nat, edges: Seq<Edge>)
    requires
        n <= usize::MAX,
        edges_valid(n, edges),
        forall|i: int| 0 <= i < edges.len() ==> (#[trigger] edges[i]).from < edges[i].to,
    ensures
        is_greedy_order(n, edges, declaration_order(n)),
        is_stuck(n, edges, declaration_order(n)),
{
    let id = declaration_order(n);
    assert forall|k: int| 0 <= k < id.len() implies {
        &&& (#[trigger] id[k]) < n
        &&& is_ready(edges, id.take(k), id[k])
        &&& forall|v: usize| v < id[k] ==> !is_ready(edges, id.take(k), v)
    } by {
        let p = id.take(k);
        assert forall|v: usize| v < k implies p.contains(v) by {
            assert(p[v as int] == v);
        }
        if p.contains(id[k]) {
            let m = choose|m: int| 0 <= m < p.len() && p[m] == id[k];
            assert(p[m] == m);
        }
        assert forall|i: int| 0 <= i < edges.len() && (#[trigger] edges[i]).to == id[k] implies p.contains(
            edges[i].from,
        ) by {
            assert(edges[i].from < k);
        }
    }
    assert forall|v: usize| v < n implies !is_ready(edges, id, v) by {
        assert(id[v as int] == v);
    }
}

/// Where every edge leads from a node to one declared later, and so where
/// there is no edge at all, the order is the order of declaration.
pub proof fn lemma_forward_edges_keep_declaration_order(
    n: nat,
    edges: Seq<Edge>,
    order: Seq<usize>,
)
    requires
        n <= usize::MAX,
        edges_valid(n, edges),
        forall|i: int| 0 <= i < edges.len() ==> (#[trigger] edges[i]).from < edges[i].to,
        is_greedy_order(n, edges, order),
        is_stuck(n, edges, order),
    ensures
        order == declaration_order(n),
{
    lemma_declaration_order_greedy(n, edges);
    lemma_greedy_unique(n, edges, order, declaration_order(n));
}

} // verus!
