//! The dependency and hazard analyzer: finds the pairs of accesses that
//! must not run unordered, and the lifetimes of the resources.

use vstd::prelude::*;
use crate::access::{bits_read, bits_write, AFTER, BEFORE, RELAXED_ORDER};
use crate::model::{node_lists, ranges_overlap, Access, Node};
use crate::alias::Lifetime;
use crate::model::ResourceDesc;
use crate::schedule::Edge;

verus! {

/// Two accesses that both carry the relaxed-order decorator are independent
/// unless one of them writes what the other reads.
pub open spec fn relaxed_pair(x: i32, y: i32) -> bool {
    &&& x & RELAXED_ORDER != 0
    &&& y & RELAXED_ORDER != 0
    &&& !(bits_write(x) && bits_read(y))
    &&& !(bits_write(y) && bits_read(x))
}

/// The two accesses are a hazard: they touch a common sub-resource of one
/// resource, at least one of them writes, and they are not declared
/// independent.
pub open spec fn conflicts(a: Access, b: Access) -> bool {
    &&& a.resource == b.resource
    &&& ranges_overlap(a.range, b.range)
    &&& (bits_write(a.flags@) || bits_write(b.flags@))
    &&& !relaxed_pair(a.flags@, b.flags@)
}

/// Some access of `xs` is a hazard with some access of `ys`.
pub open spec fn lists_conflict(xs: Seq<Access>, ys: Seq<Access>) -> bool {
    exists|p: int, q: int|
        0 <= p < xs.len() && 0 <= q < ys.len() && #[trigger] conflicts(xs[p], ys[q])
}

/// The hazard edges into node `j` from the first `i` nodes, in the order of
/// the nodes they start at.
pub open spec fn edge_row(lists: Seq<Seq<Access>>, j: int, i: nat) -> Seq<Edge>
    decreases i,
{
    if i == 0 {
        Seq::empty()
    } else {
        let row = edge_row(lists, j, (i - 1) as nat);
        if lists_conflict(lists[i - 1], lists[j]) {
            row.push(Edge { from: (i - 1) as usize, to: j as usize })
        } else {
            row
        }
    }
}

/// The hazard edges into the first `j` lists.
pub open spec fn hazard_edges_upto(lists: Seq<Seq<Access>>, j: nat) -> Seq<Edge>
    decreases j,
{
    if j == 0 {
        Seq::empty()
    } else {
        hazard_edges_upto(lists, (j - 1) as nat) + edge_row(lists, j - 1, (j - 1) as nat)
    }
}

/// The hazard edges of a graph: one edge from the node declared earlier to
/// the node declared later for every two lists with a hazard between them,
/// ordered by the node they end in and then by the node they start at.
pub open spec fn hazard_edges(lists: Seq<Seq<Access>>) -> Seq<Edge> {
    hazard_edges_upto(lists, lists.len())
}

/// One of the two accesses is the entry state and the other the exit state
/// of a node.
pub open spec fn entry_exit_pair(x: i32, y: i32) -> bool {
    (x & BEFORE != 0 && y & AFTER != 0) || (x & AFTER != 0 && y & BEFORE != 0)
}

/// Two accesses of one node claim a common sub-resource, and at least one
/// of the claims is exclusive.
pub open spec fn exclusive_overlap(a: Access, b: Access) -> bool {
    &&& a.resource == b.resource
    &&& ranges_overlap(a.range, b.range)
    &&& (bits_write(a.flags@) || bits_write(b.flags@))
    &&& !entry_exit_pair(a.flags@, b.flags@)
}

/// Some two accesses of the node overlap exclusively.
pub open spec fn self_conflict(xs: Seq<Access>) -> bool {
    exists|p: int, q: int| 0 <= p < q < xs.len() && #[trigger] exclusive_overlap(xs[p], xs[q])
}

/// Whether the two accesses are a hazard.
pub fn accesses_conflict(a: &Access, b: &Access) -> (r: bool)
    ensures
        r == conflicts(*a, *b),
{
    if a.resource != b.resource || !a.range.overlaps(&b.range) {
        return false;
    }
    if !a.flags.is_write() && !b.flags.is_write() {
        return false;
    }
    let relaxed = a.flags.is_relaxed() && b.flags.is_relaxed() && !(a.flags.is_write()
        && b.flags.is_read()) && !(b.flags.is_write() && a.flags.is_read());
    !relaxed
}

/// Whether some access of `xs` is a hazard with some access of `ys`.
pub fn access_lists_conflict(xs: &Vec<Access>, ys: &Vec<Access>) -> (r: bool)
    ensures
        r == lists_conflict(xs@, ys@),
{
    let mut p: usize = 0;
    while p < xs.len()
        invariant
            p <= xs.len(),
            forall|a: int, b: int|
                0 <= a < p && 0 <= b < ys.len() ==> !#[trigger] conflicts(xs[a], ys[b]),
        decreases xs.len() - p,
    {
        let mut q: usize = 0;
        while q < ys.len()
            invariant
                p < xs.len(),
                q <= ys.len(),
                forall|b: int| 0 <= b < q ==> !#[trigger] conflicts(xs[p as int], ys[b]),
            decreases ys.len() - q,
        {
            if accesses_conflict(&xs[p], &ys[q]) {
                return true;
            }
            q += 1;
        }
        p += 1;
    }
    false
}

/// The hazard edges of the nodes.
pub fn find_hazard_edges(nodes: &Vec<Node>) -> (edges: Vec<Edge>)
    ensures
        edges@ == hazard_edges(node_lists(nodes@)),
{
    let mut edges: Vec<Edge> = Vec::new();
    let mut j: usize = 0;
    while j < nodes.len()
        invariant
            j <= nodes.len(),
            edges@ == hazard_edges_upto(node_lists(nodes@), j as nat),
        decreases nodes.len() - j,
    {
        let ghost base = edges@;
        let mut i: usize = 0;
        while i < j
            invariant
                i <= j < nodes.len(),
                edges@ == base + edge_row(node_lists(nodes@), j as int, i as nat),
            decreases j - i,
        {
            let ghost row = edge_row(node_lists(nodes@), j as int, i as nat);
            if access_lists_conflict(&nodes[i].accesses, &nodes[j].accesses) {
                edges.push(Edge { from: i, to: j });
                proof {
                    assert(edges@ =~= base + row.push(Edge { from: i, to: j }));
                }
            }
            i += 1;
        }
        j += 1;
    }
    edges
}

/// Whether two accesses of one node overlap exclusively.
pub fn accesses_overlap_exclusively(a: &Access, b: &Access) -> (r: bool)
    ensures
        r == exclusive_overlap(*a, *b),
{
    if a.resource != b.resource || !a.range.overlaps(&b.range) {
        return false;
    }
    if !a.flags.is_write() && !b.flags.is_write() {
        return false;
    }
    let x = a.flags.bits();
    let y = b.flags.bits();
    let pair = (x & BEFORE != 0 && y & AFTER != 0) || (x & AFTER != 0 && y & BEFORE != 0);
    !pair
}

/// The first two accesses of a node that overlap exclusively: the pair
/// whose later access comes first, and for it the earliest partner.
pub fn first_self_conflict(xs: &Vec<Access>) -> (r: Option<(usize, usize)>)
    ensures
        r.is_some() == self_conflict(xs@),
        match r {
            Some((p, q)) => {
                &&& p < q < xs.len()
                &&& exclusive_overlap(xs[p as int], xs[q as int])
                &&& forall|a: int| 0 <= a < p ==> !#[trigger] exclusive_overlap(xs[a], xs[q as int])
                &&& forall|a: int, b: int|
                    0 <= a < b < q ==> !#[trigger] exclusive_overlap(xs[a], xs[b])
            },
            None => true,
        },
{
    let mut q: usize = 0;
    while q < xs.len()
        invariant
            q <= xs.len(),
            forall|a: int, b: int| 0 <= a < b < q ==> !#[trigger] exclusive_overlap(xs[a], xs[b]),
        decreases xs.len() - q,
    {
        let mut p: usize = 0;
        while p < q
            invariant
                p <= q < xs.len(),
                forall|a: int, b: int|
                    0 <= a < b < q ==> !#[trigger] exclusive_overlap(xs[a], xs[b]),
                forall|a: int| 0 <= a < p ==> !#[trigger] exclusive_overlap(xs[a], xs[q as int]),
            decreases q - p,
        {
            if accesses_overlap_exclusively(&xs[p], &xs[q]) {
                return Some((p, q));
            }
            p += 1;
        }
        q += 1;
    }
    None
}

proof fn lemma_edge_row(lists: Seq<Seq<Access>>, j: int, i: nat)
    requires
        i <= j < lists.len() <= usize::MAX,
    ensures
        forall|k: int|
            0 <= k < edge_row(lists, j, i).len() ==> {
                let e = #[trigger] edge_row(lists, j, i)[k];
                &&& e.from < i
                &&& e.to == j
                &&& lists_conflict(lists[e.from as int], lists[j])
            },
        forall|x: int|
            0 <= x < i && lists_conflict(lists[x], lists[j]) ==> edge_row(
                lists,
                j,
                i,
            ).contains(Edge { from: x as usize, to: j as usize }),
    decreases i,
{
    if i > 0 {
        lemma_edge_row(lists, j, (i - 1) as nat);
        let prev = edge_row(lists, j, (i - 1) as nat);
        let row = edge_row(lists, j, i);
        assert forall|x: int|
            0 <= x < i && lists_conflict(
                lists[x],
                lists[j],
            ) implies row.contains(Edge { from: x as usize, to: j as usize }) by {
            let e = Edge { from: x as usize, to: j as usize };
            if x < i - 1 {
                let k = choose|k: int| 0 <= k < prev.len() && prev[k] == e;
                assert(row[k] == e);
            } else {
                assert(row[prev.len() as int] == e);
            }
        }
    }
}

/// Every hazard edge leads from a node to one declared later, and the two
/// lists have a hazard between them.
pub proof fn lemma_hazard_edges_sound(lists: Seq<Seq<Access>>, j: nat)
    requires
        j <= lists.len() <= usize::MAX,
    ensures
        forall|k: int|
            0 <= k < hazard_edges_upto(lists, j).len() ==> {
                let e = #[trigger] hazard_edges_upto(lists, j)[k];
                &&& e.from < e.to < j
                &&& lists_conflict(lists[e.from as int], lists[e.to as int])
            },
    decreases j,
{
    if j > 0 {
        lemma_hazard_edges_sound(lists, (j - 1) as nat);
        lemma_edge_row(lists, j - 1, (j - 1) as nat);
        let prev = hazard_edges_upto(lists, (j - 1) as nat);
        let row = edge_row(lists, j - 1, (j - 1) as nat);
        let all = hazard_edges_upto(lists, j);
        assert(all == prev + row);
        assert forall|k: int| 0 <= k < all.len() implies {
            let e = #[trigger] all[k];
            &&& e.from < e.to < j
            &&& lists_conflict(lists[e.from as int], lists[e.to as int])
        } by {
            if k < prev.len() {
                assert(all[k] == prev[k]);
            } else {
                assert(all[k] == row[k - prev.len()]);
            }
        }
    }
}

/// Every two lists with a hazard between them are joined by a hazard edge.
pub proof fn lemma_hazard_edges_complete(lists: Seq<Seq<Access>>, j: nat, x: int, y: int)
    requires
        j <= lists.len() <= usize::MAX,
        0 <= x < y < j,
        lists_conflict(lists[x], lists[y]),
    ensures
        hazard_edges_upto(lists, j).contains(Edge { from: x as usize, to: y as usize }),
    decreases j,
{
    let e = Edge { from: x as usize, to: y as usize };
    let prev = hazard_edges_upto(lists, (j - 1) as nat);
    let row = edge_row(lists, j - 1, (j - 1) as nat);
    if y < j - 1 {
        lemma_hazard_edges_complete(lists, (j - 1) as nat, x, y);
        let k = choose|k: int| 0 <= k < prev.len() && prev[k] == e;
        assert((prev + row)[k] == e);
    } else {
        lemma_edge_row(lists, j - 1, (j - 1) as nat);
        let k = choose|k: int| 0 <= k < row.len() && row[k] == e;
        assert((prev + row)[prev.len() + k] == e);
    }
}

/// Two lists whose accesses touch no common sub-resource, or only read, or
/// are declared independent, are joined by no hazard edge.
pub proof fn lemma_independent_nodes_have_no_edge(lists: Seq<Seq<Access>>, x: int, y: int)
    requires
        lists.len() <= usize::MAX,
        0 <= x < lists.len(),
        0 <= y < lists.len(),
        !lists_conflict(lists[x], lists[y]),
    ensures
        !hazard_edges(lists).contains(Edge { from: x as usize, to: y as usize }),
{
    lemma_hazard_edges_sound(lists, lists.len());
}

/// Accesses on ranges that share no sub-resource are no hazard, whatever
/// they do.
pub proof fn lemma_disjoint_ranges_no_hazard(a: Access, b: Access)
    requires
        !ranges_overlap(a.range, b.range),
    ensures
        !conflicts(a, b),
        !exclusive_overlap(a, b),
{
}

/// Two accesses that only read are no hazard.
pub proof fn lemma_reads_no_hazard(a: Access, b: Access)
    requires
        !bits_write(a.flags@),
        !bits_write(b.flags@),
    ensures
        !conflicts(a, b),
{
}

/// Some access of the node is on resource `r`.
pub open spec fn node_uses(xs: Seq<Access>, r: usize) -> bool {
    exists|a: int| 0 <= a < xs.len() && (#[trigger] xs[a]).resource == r
}

/// The node at position `p` of the order uses resource `r`.
pub open spec fn used_at(lists: Seq<Seq<Access>>, order: Seq<usize>, r: usize, p: int) -> bool {
    node_uses(lists[order[p] as int], r)
}

/// Some node of the order uses resource `r`.
pub open spec fn is_used(lists: Seq<Seq<Access>>, order: Seq<usize>, r: usize) -> bool {
    exists|p: int| 0 <= p < order.len() && #[trigger] used_at(lists, order, r, p)
}

/// `lt` is the lifetime of resource `r`: the span from the first to the
/// last position of the order at which a node uses it.
pub open spec fn is_lifetime(lists: Seq<Seq<Access>>, order: Seq<usize>, r: usize, lt: Lifetime) -> bool {
    &&& lt.first <= lt.last < order.len()
    &&& used_at(lists, order, r, lt.first as int)
    &&& used_at(lists, order, r, lt.last as int)
    &&& forall|p: int| 0 <= p < lt.first ==> !#[trigger] used_at(lists, order, r, p)
    &&& forall|p: int| lt.last < p < order.len() ==> !#[trigger] used_at(lists, order, r, p)
}

/// The order names lists that exist.
pub open spec fn order_in_range(n: nat, order: Seq<usize>) -> bool {
    forall|p: int| 0 <= p < order.len() ==> (#[trigger] order[p]) < n
}

/// A resource has one lifetime.
pub proof fn lemma_lifetime_unique(
    lists: Seq<Seq<Access>>,
    order: Seq<usize>,
    r: usize,
    a: Lifetime,
    b: Lifetime,
)
    requires
        is_lifetime(lists, order, r, a),
        is_lifetime(lists, order, r, b),
    ensures
        a == b,
{
}

/// Whether some access of the node is on resource `r`.
pub fn uses_resource(xs: &Vec<Access>, r: usize) -> (u: bool)
    ensures
        u == node_uses(xs@, r),
{
    let mut a: usize = 0;
    while a < xs.len()
        invariant
            a <= xs.len(),
            forall|k: int| 0 <= k < a ==> (#[trigger] xs[k]).resource != r,
        decreases xs.len() - a,
    {
        if xs[a].resource == r {
            return true;
        }
        a += 1;
    }
    false
}

/// The lifetime of resource `r` under the given order, if any node uses it.
pub fn lifetime_of(nodes: &Vec<Node>, order: &Vec<usize>, r: usize) -> (lt: Option<Lifetime>)
    requires
        order_in_range(nodes@.len(), order@),
    ensures
        lt.is_some() == is_used(node_lists(nodes@), order@, r),
        lt.is_some() ==> is_lifetime(node_lists(nodes@), order@, r, lt.unwrap()),
{
    let mut found: Option<Lifetime> = None;
    let mut p: usize = 0;
    while p < order.len()
        invariant
            p <= order.len(),
            order_in_range(nodes@.len(), order@),
            match found {
                None => forall|k: int| 0 <= k < p ==> !#[trigger] used_at(node_lists(nodes@), order@, r, k),
                Some(lt) => {
                    &&& lt.first <= lt.last < p
                    &&& used_at(node_lists(nodes@), order@, r, lt.first as int)
                    &&& used_at(node_lists(nodes@), order@, r, lt.last as int)
                    &&& forall|k: int| 0 <= k < lt.first ==> !#[trigger] used_at(node_lists(nodes@), order@, r, k)
                    &&& forall|k: int| lt.last < k < p ==> !#[trigger] used_at(node_lists(nodes@), order@, r, k)
                },
            },
        decreases order.len() - p,
    {
        if uses_resource(&nodes[order[p]].accesses, r) {
            found = match found {
                None => Some(Lifetime { first: p, last: p }),
                Some(lt) => Some(Lifetime { first: lt.first, last: p }),
            };
        }
        p += 1;
    }
    proof {
        if found.is_some() {
            assert(used_at(node_lists(nodes@), order@, r, found.unwrap().first as int));
        }
    }
    found
}

/// A transient resource that is in use, with its lifetime.
#[derive(Debug, Clone, Copy, PartialEq, Eq, Structural)]
pub struct LiveRange {
    pub resource: usize,
    pub lifetime: Lifetime,
}

/// `out` lists those of the first `upto` resources that are transient and
/// that some node uses, each once and in the order of their declaration,
/// with their lifetimes.
pub open spec fn is_live_ranges_upto(
    resources: Seq<ResourceDesc>,
    lists: Seq<Seq<Access>>,
    order: Seq<usize>,
    out: Seq<LiveRange>,
    upto: int,
) -> bool {
    &&& forall|k: int|
        0 <= k < out.len() ==> {
            &&& (#[trigger] out[k]).resource < upto
            &&& resources[out[k].resource as int].transient
            &&& is_lifetime(lists, order, out[k].resource, out[k].lifetime)
        }
    &&& forall|r: int|
        0 <= r < upto && resources[r].transient && is_used(lists, order, r as usize)
            ==> exists|k: int| 0 <= k < out.len() && (#[trigger] out[k]).resource == r
    &&& forall|k: int, m: int| 0 <= k < m < out.len() ==> out[k].resource < out[m].resource
}

/// `out` lists the transient resources that some node uses, each once and
/// in the order of their declaration, with their lifetimes.
pub open spec fn is_live_ranges(
    resources: Seq<ResourceDesc>,
    lists: Seq<Seq<Access>>,
    order: Seq<usize>,
    out: Seq<LiveRange>,
) -> bool {
    is_live_ranges_upto(resources, lists, order, out, resources.len() as int)
}

/// The lifetimes of the transient resources under the given order.
pub fn live_ranges(resources: &Vec<ResourceDesc>, nodes: &Vec<Node>, order: &Vec<usize>) -> (out:
    Vec<LiveRange>)
    requires
        order_in_range(nodes@.len(), order@),
    ensures
        is_live_ranges(resources@, node_lists(nodes@), order@, out@),
{
    let mut out: Vec<LiveRange> = Vec::new();
    let mut r: usize = 0;
    while r < resources.len()
        invariant
            r <= resources.len(),
            order_in_range(nodes@.len(), order@),
            is_live_ranges_upto(resources@, node_lists(nodes@), order@, out@, r as int),
        decreases resources.len() - r,
    {
        if resources[r].transient {
            match lifetime_of(nodes, order, r) {
                Some(lt) => {
                    let ghost before = out@;
                    out.push(LiveRange { resource: r, lifetime: lt });
                    proof {
                        assert forall|x: int|
                            0 <= x < r + 1 && resources[x].transient && is_used(
                                node_lists(nodes@),
                                order@,
                                x as usize,
                            ) implies exists|k: int|
                            0 <= k < out.len() && (#[trigger] out[k]).resource == x by {
                            if x < r {
                                let k = choose|k: int|
                                    0 <= k < before.len() && (#[trigger] before[k]).resource == x;
                                assert(out[k].resource == x);
                            } else {
                                assert(out[before.len() as int].resource == x);
                            }
                        }
                    }
                },
                None => {},
            }
        }
        r += 1;
    }
    out
}

proof fn lemma_live_ranges_agree(
    resources: Seq<ResourceDesc>,
    lists: Seq<Seq<Access>>,
    order: Seq<usize>,
    a: Seq<LiveRange>,
    b: Seq<LiveRange>,
    upto: int,
)
    requires
        0 <= upto <= resources.len(),
        is_live_ranges_upto(resources, lists, order, a, upto),
        is_live_ranges_upto(resources, lists, order, b, upto),
    ensures
        a == b,
    decreases upto,
{
    if upto == 0 {
        if a.len() > 0 {
            assert(a[0].resource < upto);
        }
        if b.len() > 0 {
            assert(b[0].resource < upto);
        }
        assert(a =~= b);
    } else {
        let r = upto - 1;
        if resources[r].transient && is_used(lists, order, r as usize) {
            let ka = choose|k: int| 0 <= k < a.len() && (#[trigger] a[k]).resource == r;
            let kb = choose|k: int| 0 <= k < b.len() && (#[trigger] b[k]).resource == r;
            if ka < a.len() - 1 {
                assert(a[ka].resource < a[a.len() - 1].resource);
            }
            if kb < b.len() - 1 {
                assert(b[kb].resource < b[b.len() - 1].resource);
            }
            let la = a[a.len() - 1];
            let lb = b[b.len() - 1];
            lemma_lifetime_unique(lists, order, r as usize, la.lifetime, lb.lifetime);
            let a0 = a.drop_last();
            let b0 = b.drop_last();
            lemma_drop_last_live(resources, lists, order, a, upto);
            lemma_drop_last_live(resources, lists, order, b, upto);
            lemma_live_ranges_agree(resources, lists, order, a0, b0, r);
            assert(a =~= a0.push(la));
            assert(b =~= b0.push(lb));
        } else {
            lemma_unused_not_listed(resources, lists, order, a, upto);
            lemma_unused_not_listed(resources, lists, order, b, upto);
            lemma_live_ranges_agree(resources, lists, order, a, b, r);
        }
    }
}

proof fn lemma_drop_last_live(
    resources: Seq<ResourceDesc>,
    lists: Seq<Seq<Access>>,
    order: Seq<usize>,
    a: Seq<LiveRange>,
    upto: int,
)
    requires
        0 < upto <= resources.len(),
        is_live_ranges_upto(resources, lists, order, a, upto),
        a.len() > 0,
        a[a.len() - 1].resource == upto - 1,
    ensures
        is_live_ranges_upto(resources, lists, order, a.drop_last(), upto - 1),
{
    let a0 = a.drop_last();
    assert forall|k: int| 0 <= k < a0.len() implies {
        &&& (#[trigger] a0[k]).resource < upto - 1
        &&& resources[a0[k].resource as int].transient
        &&& is_lifetime(lists, order, a0[k].resource, a0[k].lifetime)
    } by {
        assert(a0[k] == a[k]);
        assert(a[k].resource < a[a.len() - 1].resource);
    }
    assert forall|r: int|
        0 <= r < upto - 1 && resources[r].transient && is_used(
            lists,
            order,
            r as usize,
        ) implies exists|k: int| 0 <= k < a0.len() && (#[trigger] a0[k]).resource == r by {
        let k = choose|k: int| 0 <= k < a.len() && (#[trigger] a[k]).resource == r;
        assert(a0[k].resource == r);
    }
    assert forall|k: int, m: int| 0 <= k < m < a0.len() implies a0[k].resource
        < a0[m].resource by {
        assert(a0[k] == a[k] && a0[m] == a[m]);
    }
}

proof fn lemma_unused_not_listed(
    resources: Seq<ResourceDesc>,
    lists: Seq<Seq<Access>>,
    order: Seq<usize>,
    a: Seq<LiveRange>,
    upto: int,
)
    requires
        0 < upto <= resources.len(),
        is_live_ranges_upto(resources, lists, order, a, upto),
        !(resources[upto - 1].transient && is_used(lists, order, (upto - 1) as usize)),
    ensures
        is_live_ranges_upto(resources, lists, order, a, upto - 1),
{
    assert forall|k: int| 0 <= k < a.len() implies (#[trigger] a[k]).resource < upto - 1 by {
        let lt = a[k].lifetime;
        assert(is_lifetime(lists, order, a[k].resource, lt));
        assert(used_at(lists, order, a[k].resource, lt.first as int));
        assert(is_used(lists, order, a[k].resource));
    }
}

/// Determinism of the lifetimes: a graph under an order has one list of
/// live ranges.
pub proof fn lemma_live_ranges_unique(
    resources: Seq<ResourceDesc>,
    lists: Seq<Seq<Access>>,
    order: Seq<usize>,
    a: Seq<LiveRange>,
    b: Seq<LiveRange>,
)
    requires
        is_live_ranges(resources, lists, order, a),
        is_live_ranges(resources, lists, order, b),
    ensures
        a == b,
{
    lemma_live_ranges_agree(resources, lists, order, a, b, resources.len() as int);
}

} // verus!
