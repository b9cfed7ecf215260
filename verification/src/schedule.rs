//! The scheduler: orders the nodes of a graph so that every dependency edge
//! points forward, preferring among the nodes that may come next the one
//! that was declared first.

use vstd::prelude::*;
use crate::result::Error;

verus! {

/// A dependency edge: `to` must not execute before `from` completes.
#[derive(Debug, Clone, Copy, PartialEq, Eq, Structural)]
pub struct Edge {
    pub from: usize,
    pub to: usize,
}

/// Every edge joins two of the `n` nodes.
pub open spec fn edges_valid(n: nat, edges: Seq<Edge>) -> bool {
    forall|i: int| 0 <= i < edges.len() ==> (#[trigger] edges[i]).from < n && edges[i].to < n
}

/// Node `v` may come next after the nodes of `done`: it is not among them,
/// and every edge into it starts at one of them.
pub open spec fn is_ready(edges: Seq<Edge>, done: Seq<usize>, v: usize) -> bool {
    &&& !done.contains(v)
    &&& forall|i: int|
        0 <= i < edges.len() && (#[trigger] edges[i]).to == v ==> done.contains(edges[i].from)
}

/// Each node of `order` is the lowest node that may come next after the
/// nodes before it.
pub open spec fn is_greedy_order(n: nat, edges: Seq<Edge>, order: Seq<usize>) -> bool {
    forall|k: int|
        0 <= k < order.len() ==> {
            &&& (#[trigger] order[k]) < n
            &&& is_ready(edges, order.take(k), order[k])
            &&& forall|v: usize| v < order[k] ==> !is_ready(edges, order.take(k), v)
        }
}

/// No node may come next after the nodes of `order`.
pub open spec fn is_stuck(n: nat, edges: Seq<Edge>, order: Seq<usize>) -> bool {
    forall|v: usize| v < n ==> !is_ready(edges, order, v)
}

/// `order` holds each of the `n` nodes once, and every edge points forward
/// in it.
pub open spec fn is_topological(n: nat, edges: Seq<Edge>, order: Seq<usize>) -> bool {
    &&& order.len() == n
    &&& order.no_duplicates()
    &&& forall|k: int| 0 <= k < order.len() ==> (#[trigger] order[k]) < n
    &&& forall|e: int, i: int, j: int|
        0 <= e < edges.len() && 0 <= i < order.len() && 0 <= j < order.len()
            && #[trigger] order[i] == (#[trigger] edges[e]).from && #[trigger] order[j]
            == edges[e].to ==> i < j
}

/// The nodes in the order of their declaration.
pub open spec fn declaration_order(n: nat) -> Seq<usize> {
    Seq::new(n, |i: int| i as usize)
}

/// The number of edges among the first `k` that end in `v` and start at a
/// node outside `done`.
pub open spec fn pending_upto(edges: Seq<Edge>, done: Seq<usize>, v: usize, k: nat) -> nat
    decreases k,
{
    if k == 0 {
        0
    } else {
        let e = edges[k - 1];
        pending_upto(edges, done, v, (k - 1) as nat) + if e.to == v && !done.contains(e.from) {
            1nat
        } else {
            0nat
        }
    }
}

/// The in-degree of `v` once the nodes of `done` are taken out of the graph.
pub open spec fn pending(edges: Seq<Edge>, done: Seq<usize>, v: usize) -> nat {
    pending_upto(edges, done, v, edges.len())
}

proof fn lemma_pending_bounds(edges: Seq<Edge>, done: Seq<usize>, v: usize, j: nat, k: nat)
    requires
        j <= k <= edges.len(),
    ensures
        pending_upto(edges, done, v, j) <= pending_upto(edges, done, v, k),
        pending_upto(edges, done, v, k) <= k,
    decreases k,
{
    if k > 0 {
        if j < k {
            lemma_pending_bounds(edges, done, v, j, (k - 1) as nat);
        } else {
            lemma_pending_bounds(edges, done, v, (k - 1) as nat, (k - 1) as nat);
        }
    }
}

proof fn lemma_pending_zero(edges: Seq<Edge>, done: Seq<usize>, v: usize, k: nat)
    requires
        k <= edges.len(),
    ensures
        pending_upto(edges, done, v, k) == 0 <==> forall|i: int|
            0 <= i < k && (#[trigger] edges[i]).to == v ==> done.contains(edges[i].from),
    decreases k,
{
    if k > 0 {
        lemma_pending_zero(edges, done, v, (k - 1) as nat);
        if pending_upto(edges, done, v, k) == 0 {
            assert forall|i: int| 0 <= i < k && (#[trigger] edges[i]).to == v implies done.contains(
                edges[i].from,
            ) by {
                if i < k - 1 {
                } else {
                }
            }
        } else {
            if pending_upto(edges, done, v, (k - 1) as nat) == 0 {
                assert(edges[k - 1].to == v && !done.contains(edges[k - 1].from));
            }
        }
    }
}

/// A node is ready exactly when it is not yet placed and no edge is pending
/// on it.
pub proof fn lemma_ready_iff_pending_zero(edges: Seq<Edge>, done: Seq<usize>, v: usize)
    ensures
        is_ready(edges, done, v) <==> !done.contains(v) && pending(edges, done, v) == 0,
{
    lemma_pending_zero(edges, done, v, edges.len());
}

/// A sequence with one more element at its end holds that element and
/// what it held before; and it holds nothing twice if it did not before and
/// the element is new.
pub proof fn lemma_push<T>(s: Seq<T>, v: T)
    ensures
        forall|x: T| s.push(v).contains(x) <==> s.contains(x) || x == v,
        s.no_duplicates() && !s.contains(v) ==> s.push(v).no_duplicates(),
{
    let t = s.push(v);
    assert forall|x: T| t.contains(x) <==> s.contains(x) || x == v by {
        if s.contains(x) {
            let m = choose|m: int| 0 <= m < s.len() && s[m] == x;
            assert(t[m] == x);
        }
        if x == v {
            assert(t[s.len() as int] == x);
        }
        if t.contains(x) && x != v {
            let m = choose|m: int| 0 <= m < t.len() && t[m] == x;
            assert(s[m] == x);
        }
    }
    if s.no_duplicates() && !s.contains(v) {
        assert forall|i: int, j: int| 0 <= i < t.len() && 0 <= j < t.len() && i != j implies t[i]
            != t[j] by {
            if i < s.len() && j < s.len() {
            } else if i < s.len() {
                assert(s.contains(s[i]));
            } else {
                assert(s.contains(s[j]));
            }
        }
    }
}

/// Distinct numbers below `n` are at most `n`.
pub proof fn lemma_distinct_below(s: Seq<usize>, n: nat)
    requires
        n <= usize::MAX,
        s.no_duplicates(),
        forall|i: int| 0 <= i < s.len() ==> (#[trigger] s[i]) < n,
    ensures
        s.len() <= n,
    decreases n,
{
    if s.len() > 0 {
        if n == 0 {
            assert(s[0] < n);
        } else {
            let top = (n - 1) as usize;
            if s.contains(top) {
                let k = choose|k: int| 0 <= k < s.len() && s[k] == top;
                let r = s.remove(k);
                assert forall|i: int| 0 <= i < r.len() implies (#[trigger] r[i]) < n - 1 by {
                    if i < k {
                        assert(r[i] == s[i]);
                    } else {
                        assert(r[i] == s[i + 1]);
                    }
                }
                assert(r.no_duplicates()) by {
                    assert forall|i: int, j: int|
                        0 <= i < r.len() && 0 <= j < r.len() && i != j implies r[i] != r[j] by {
                        let si = if i < k { i } else { i + 1 };
                        let sj = if j < k { j } else { j + 1 };
                        assert(r[i] == s[si]);
                        assert(r[j] == s[sj]);
                    }
                }
                lemma_distinct_below(r, (n - 1) as nat);
            } else {
                assert forall|i: int| 0 <= i < s.len() implies (#[trigger] s[i]) < n - 1 by {
                    assert(s.contains(s[i]));
                }
                lemma_distinct_below(s, (n - 1) as nat);
            }
        }
    }
}

/// A sequence that holds every number below `n` has at least `n` elements.
pub proof fn lemma_covering_length(s: Seq<usize>, n: nat)
    requires
        n <= usize::MAX,
        forall|v: usize| v < n ==> s.contains(v),
    ensures
        s.len() >= n,
    decreases n,
{
    if n > 0 {
        let top = (n - 1) as usize;
        assert(s.contains(top));
        let k = choose|k: int| 0 <= k < s.len() && s[k] == top;
        let r = s.remove(k);
        assert forall|v: usize| v < n - 1 implies r.contains(v) by {
            assert(s.contains(v));
            let i = choose|i: int| 0 <= i < s.len() && s[i] == v;
            if i < k {
                assert(r[i] == v);
            } else {
                assert(r[i - 1] == s[i]);
            }
        }
        lemma_covering_length(r, (n - 1) as nat);
    }
}

/// `n` distinct numbers below `n` are all the numbers below `n`.
pub proof fn lemma_distinct_covers(s: Seq<usize>, n: nat, v: usize)
    requires
        s.no_duplicates(),
        forall|i: int| 0 <= i < s.len() ==> (#[trigger] s[i]) < n,
        s.len() == n,
        v < n <= usize::MAX,
    ensures
        s.contains(v),
{
    if !s.contains(v) {
        let t = s.push(v);
        lemma_push(s, v);
        assert forall|i: int| 0 <= i < t.len() implies (#[trigger] t[i]) < n by {
            if i < s.len() {
                assert(t[i] == s[i]);
            }
        }
        lemma_distinct_below(t, n);
    }
}

pub(crate) fn zeros(n: usize) -> (v: Vec<usize>)
    ensures
        v.len() == n,
        forall|i: int| 0 <= i < n ==> v[i] == 0,
{
    let mut v: Vec<usize> = Vec::new();
    while v.len() < n
        invariant
            v.len() <= n,
            forall|i: int| 0 <= i < v.len() ==> v[i] == 0,
        decreases n - v.len(),
    {
        v.push(0);
    }
    v
}

pub(crate) fn all_false(n: usize) -> (v: Vec<bool>)
    ensures
        v.len() == n,
        forall|i: int| 0 <= i < n ==> !v[i],
{
    let mut v: Vec<bool> = Vec::new();
    while v.len() < n
        invariant
            v.len() <= n,
            forall|i: int| 0 <= i < v.len() ==> !v[i],
        decreases n - v.len(),
    {
        v.push(false);
    }
    v
}

/// Whether every edge joins two of the `n` nodes.
pub fn check_edges(n: usize, edges: &Vec<Edge>) -> (ok: bool)
    ensures
        ok == edges_valid(n as nat, edges@),
{
    let mut i: usize = 0;
    while i < edges.len()
        invariant
            i <= edges.len(),
            edges_valid(n as nat, edges@.take(i as int)),
        decreases edges.len() - i,
    {
        if edges[i].from >= n || edges[i].to >= n {
            return false;
        }
        proof {
            let a = edges@.take(i as int);
            let b = edges@.take(i + 1);
            assert forall|k: int| 0 <= k < b.len() implies (#[trigger] b[k]).from < n && b[k].to
                < n by {
                if k < i {
                    assert(b[k] == a[k]);
                }
            }
        }
        i += 1;
    }
    proof {
        assert(edges@.take(i as int) =~= edges@);
    }
    true
}

/// The in-degree of every node: the number of edges that end in it.
fn in_degrees(n: usize, edges: &Vec<Edge>) -> (indeg: Vec<usize>)
    requires
        edges_valid(n as nat, edges@),
    ensures
        indeg.len() == n,
        forall|v: int| 0 <= v < n ==> indeg[v] == pending(edges@, Seq::empty(), v as usize),
{
    let mut indeg = zeros(n);
    let mut j: usize = 0;
    while j < edges.len()
        invariant
            j <= edges.len(),
            indeg.len() == n,
            edges_valid(n as nat, edges@),
            forall|v: int|
                0 <= v < n ==> indeg[v] == pending_upto(
                    edges@,
                    Seq::empty(),
                    v as usize,
                    j as nat,
                ),
        decreases edges.len() - j,
    {
        let t = edges[j].to;
        proof {
            lemma_pending_bounds(edges@, Seq::empty(), t, j as nat, j as nat);
        }
        let d = indeg[t];
        indeg.set(t, d + 1);
        j += 1;
    }
    indeg
}

/// The lowest node that is not placed and has no pending edge.
fn first_ready(indeg: &Vec<usize>, placed: &Vec<bool>) -> (r: Option<usize>)
    requires
        indeg.len() == placed.len(),
    ensures
        match r {
            Some(v) => v < indeg.len() && !placed[v as int] && indeg[v as int] == 0 && forall|
                u: int,
            | 0 <= u < v ==> placed[u] || indeg[u] != 0,
            None => forall|u: int| 0 <= u < indeg.len() ==> placed[u] || indeg[u] != 0,
        },
{
    let mut v: usize = 0;
    while v < indeg.len()
        invariant
            v <= indeg.len(),
            indeg.len() == placed.len(),
            forall|u: int| 0 <= u < v ==> placed[u] || indeg[u] != 0,
        decreases indeg.len() - v,
    {
        if !placed[v] && indeg[v] == 0 {
            return Some(v);
        }
        v += 1;
    }
    None
}

/// Takes the edges that start at `u` out of the in-degrees.
fn release(n: usize, edges: &Vec<Edge>, u: usize, indeg: &mut Vec<usize>, Ghost(done): Ghost<Seq<usize>>)
    requires
        edges_valid(n as nat, edges@),
        old(indeg).len() == n,
        !done.contains(u),
        forall|v: int| 0 <= v < n ==> old(indeg)[v] == pending(edges@, done, v as usize),
    ensures
        final(indeg).len() == n,
        forall|v: int| 0 <= v < n ==> final(indeg)[v] == pending(edges@, done.push(u), v as usize),
{
    let ghost after = done.push(u);
    let mut j: usize = 0;
    while j < edges.len()
        invariant
            j <= edges.len(),
            indeg.len() == n,
            edges_valid(n as nat, edges@),
            after == done.push(u),
            !done.contains(u),
            forall|v: int|
                0 <= v < n ==> indeg[v] == pending_upto(edges@, after, v as usize, j as nat)
                    + pending(edges@, done, v as usize) - pending_upto(
                    edges@,
                    done,
                    v as usize,
                    j as nat,
                ),
        decreases edges.len() - j,
    {
        let e = edges[j];
        proof {
            lemma_push(done, u);
        }
        if e.from == u {
            proof {
                lemma_pending_bounds(edges@, done, e.to, (j + 1) as nat, edges@.len());
            }
            let d = indeg[e.to];
            indeg.set(e.to, d - 1);
        }
        j += 1;
    }
}

/// The longest greedy order of the graph: node after node, the lowest node
/// all of whose predecessors are placed, until no node is left that may come
/// next. It holds every node exactly if the graph has no cycle.
pub fn greedy_order(n: usize, edges: &Vec<Edge>) -> (order: Vec<usize>)
    requires
        edges_valid(n as nat, edges@),
    ensures
        is_greedy_order(n as nat, edges@, order@),
        is_stuck(n as nat, edges@, order@),
        order@.no_duplicates(),
        order.len() <= n,
{
    let mut indeg = in_degrees(n, edges);
    let mut placed = all_false(n);
    let mut order: Vec<usize> = Vec::new();
    loop
        invariant_except_break
            indeg.len() == n,
            placed.len() == n,
            edges_valid(n as nat, edges@),
            forall|v: int| 0 <= v < n ==> placed[v] == order@.contains(v as usize),
            forall|v: int| 0 <= v < n ==> indeg[v] == pending(edges@, order@, v as usize),
            is_greedy_order(n as nat, edges@, order@),
            order.len() <= n,
        ensures
            is_greedy_order(n as nat, edges@, order@),
            is_stuck(n as nat, edges@, order@),
            order.len() <= n,
        decreases n - order.len(),
    {
        let next = first_ready(&indeg, &placed);
        match next {
            None => {
                proof {
                    assert forall|v: usize| v < n implies !is_ready(edges@, order@, v) by {
                        lemma_ready_iff_pending_zero(edges@, order@, v);
                        assert(placed[v as int] || indeg[v as int] != 0);
                    }
                }
                break ;
            },
            Some(v) => {
                let ghost before = order@;
                proof {
                    lemma_ready_iff_pending_zero(edges@, before, v);
                    assert(is_ready(edges@, before, v));
                    assert forall|u: usize| u < v implies !is_ready(edges@, before, u) by {
                        lemma_ready_iff_pending_zero(edges@, before, u);
                        assert(placed[u as int] || indeg[u as int] != 0);
                    }
                }
                order.push(v);
                placed.set(v, true);
                release(n, edges, v, &mut indeg, Ghost(before));
                proof {
                    let after = order@;
                    assert(after == before.push(v));
                    assert forall|k: int| 0 <= k < after.len() implies {
                        &&& (#[trigger] after[k]) < n
                        &&& is_ready(edges@, after.take(k), after[k])
                        &&& forall|u: usize| u < after[k] ==> !is_ready(edges@, after.take(k), u)
                    } by {
                        if k < before.len() {
                            assert(after.take(k) =~= before.take(k));
                            assert(after[k] == before[k]);
                        } else {
                            assert(after.take(k) =~= before);
                        }
                    }
                    lemma_push(before, v);
                    crate::order_laws::lemma_greedy_length(n as nat, edges@, after);
                }
            },
        }
    }
    proof {
        crate::order_laws::lemma_greedy_no_duplicates(n as nat, edges@, order@);
    }
    order
}

/// Orders the `n` nodes so that every edge points forward, taking at every
/// step the lowest node that may come next. Fails with `IndexOutOfBounds`
/// where an edge names a node that does not exist, and with
/// `ValidationFailed` where the edges form a cycle.
pub fn topological_order(n: usize, edges: &Vec<Edge>) -> (r: Result<Vec<usize>, Error>)
    ensures
        !edges_valid(n as nat, edges@) ==> r == Err::<Vec<usize>, Error>(Error::IndexOutOfBounds),
        edges_valid(n as nat, edges@) && (forall|o: Seq<usize>| !is_topological(n as nat, edges@, o))
            ==> r == Err::<Vec<usize>, Error>(Error::ValidationFailed),
        edges_valid(n as nat, edges@) && (exists|o: Seq<usize>| is_topological(n as nat, edges@, o))
            ==> r.is_ok(),
        r.is_ok() ==> {
            &&& is_topological(n as nat, edges@, r.unwrap()@)
            &&& is_greedy_order(n as nat, edges@, r.unwrap()@)
            &&& is_stuck(n as nat, edges@, r.unwrap()@)
        },
{
    if !check_edges(n, edges) {
        return Err(Error::IndexOutOfBounds);
    }
    let order = greedy_order(n, edges);
    if order.len() == n {
        proof {
            crate::order_laws::lemma_complete_greedy_is_topological(n as nat, edges@, order@);
        }
        Ok(order)
    } else {
        proof {
            crate::order_laws::lemma_stuck_has_no_topological(n as nat, edges@, order@);
        }
        Err(Error::ValidationFailed)
    }
}

/// The nodes that `order` does not hold, in ascending order: after a failed
/// sort, the nodes on a cycle or behind one.
pub fn unscheduled_nodes(n: usize, order: &Vec<usize>) -> (rest: Vec<usize>)
    ensures
        forall|i: int| 0 <= i < rest.len() ==> (#[trigger] rest[i]) < n && !order@.contains(rest[i]),
        forall|v: usize| v < n && !order@.contains(v) ==> rest@.contains(v),
        forall|i: int, j: int| 0 <= i < j < rest.len() ==> rest[i] < rest[j],
{
    let mut rest: Vec<usize> = Vec::new();
    let mut v: usize = 0;
    while v < n
        invariant
            v <= n,
            forall|i: int| 0 <= i < rest.len() ==> (#[trigger] rest[i]) < v && !order@.contains(rest[i]),
            forall|u: usize| u < v && !order@.contains(u) ==> rest@.contains(u),
            forall|i: int, j: int| 0 <= i < j < rest.len() ==> rest[i] < rest[j],
        decreases n - v,
    {
        let found = holds(order, v);
        if !found {
            let ghost before = rest@;
            rest.push(v);
            proof {
                lemma_push(before, v);
                assert(rest@ == before.push(v));
                assert forall|u: usize| u < v + 1 && !order@.contains(u) implies rest@.contains(
                    u,
                ) by {
                    assert(before.contains(u) || u == v);
                }
            }
        }
        v += 1;
    }
    rest
}

/// Whether `s` holds `v`.
pub fn holds(s: &Vec<usize>, v: usize) -> (r: bool)
    ensures
        r == s@.contains(v),
{
    let mut i: usize = 0;
    while i < s.len()
        invariant
            i <= s.len(),
            forall|k: int| 0 <= k < i ==> s[k] != v,
        decreases s.len() - i,
    {
        if s[i] == v {
            return true;
        }
        i += 1;
    }
    false
}

} // verus!
