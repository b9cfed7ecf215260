//! Aliasing of transient resources: resources whose lifetimes do not
//! overlap may share one slot of backing storage.

use vstd::prelude::*;
use crate::schedule::{
    all_false, lemma_covering_length, lemma_distinct_below, lemma_distinct_covers, lemma_push,
    zeros,
};

verus! {

/// The span of schedule positions, both ends included, over which a
/// transient resource is in use.
#[derive(Debug, Clone, Copy, PartialEq, Eq, Structural)]
pub struct Lifetime {
    pub first: usize,
    pub last: usize,
}

/// Two lifetimes share at least one position.
pub open spec fn overlaps(a: Lifetime, b: Lifetime) -> bool {
    a.first <= b.last && b.first <= a.last
}

/// Resource `i` is given its slot before resource `j`: it starts earlier,
/// or at the same position and was declared earlier.
pub open spec fn precedes(lts: Seq<Lifetime>, i: int, j: int) -> bool {
    lts[i].first < lts[j].first || (lts[i].first == lts[j].first && i < j)
}

/// Resource `j` keeps slot `s` from resource `i`: it got that slot before
/// `i` and its lifetime overlaps that of `i`.
pub open spec fn blocks(lts: Seq<Lifetime>, slots: Seq<usize>, j: int, i: int, s: usize) -> bool {
    &&& 0 <= j < lts.len()
    &&& precedes(lts, j, i)
    &&& overlaps(lts[j], lts[i])
    &&& slots[j] == s
}

/// Slot `s` is not available to resource `i`.
pub open spec fn slot_taken(lts: Seq<Lifetime>, slots: Seq<usize>, i: int, s: usize) -> bool {
    exists|j: int| #[trigger] blocks(lts, slots, j, i, s)
}

/// Resource `i` has the lowest slot that is available to it.
pub open spec fn fits(lts: Seq<Lifetime>, slots: Seq<usize>, i: int) -> bool {
    &&& !slot_taken(lts, slots, i, slots[i])
    &&& forall|s: usize| s < slots[i] ==> slot_taken(lts, slots, i, s)
}

/// `slots` is the first-fit assignment by start order: every resource has
/// the lowest slot that no resource before it with an overlapping lifetime
/// holds.
pub open spec fn is_first_fit(lts: Seq<Lifetime>, slots: Seq<usize>) -> bool {
    &&& slots.len() == lts.len()
    &&& forall|i: int| 0 <= i < lts.len() ==> #[trigger] fits(lts, slots, i)
}

impl Lifetime {
    /// Whether the two lifetimes share a position.
    pub fn overlaps(&self, other: &Lifetime) -> (r: bool)
        ensures
            r == overlaps(*self, *other),
    {
        self.first <= other.last && other.first <= self.last
    }
}

/// The resource that is next to get its slot: among those that have none,
/// the one that precedes all others.
fn next_to_assign(lts: &Vec<Lifetime>, assigned: &Vec<bool>) -> (i: usize)
    requires
        assigned.len() == lts.len(),
        exists|k: int| 0 <= k < lts.len() && !assigned[k],
    ensures
        i < lts.len(),
        !assigned[i as int],
        forall|k: int| 0 <= k < lts.len() && !assigned[k] && k != i ==> precedes(lts@, i as int, k),
{
    let mut best: Option<usize> = None;
    let mut k: usize = 0;
    while k < lts.len()
        invariant
            k <= lts.len(),
            assigned.len() == lts.len(),
            match best {
                None => forall|m: int| 0 <= m < k ==> assigned[m],
                Some(b) => b < k && !assigned[b as int] && forall|m: int|
                    0 <= m < k && !assigned[m] && m != b ==> precedes(lts@, b as int, m),
            },
        decreases lts.len() - k,
    {
        if !assigned[k] {
            match best {
                None => {
                    best = Some(k);
                },
                Some(b) => {
                    if lts[k].first < lts[b].first {
                        best = Some(k);
                    }
                },
            }
        }
        k += 1;
    }
    match best {
        Some(b) => b,
        None => {
            proof {
                let w = choose|w: int| 0 <= w < lts.len() && !assigned[w];
                assert(assigned[w]);
            }
            0
        },
    }
}

/// One of the first `j` resources keeps slot `s` from resource `i`.
pub open spec fn taken_among(lts: Seq<Lifetime>, slots: Seq<usize>, i: int, s: usize, j: int) -> bool {
    exists|m: int| 0 <= m < j && #[trigger] blocks(lts, slots, m, i, s)
}

proof fn lemma_taken_among_step(lts: Seq<Lifetime>, slots: Seq<usize>, i: int, s: usize, j: int)
    requires
        0 <= j,
    ensures
        taken_among(lts, slots, i, s, j + 1) <==> taken_among(lts, slots, i, s, j) || blocks(
            lts,
            slots,
            j,
            i,
            s,
        ),
{
    if taken_among(lts, slots, i, s, j) {
        let m = choose|m: int| 0 <= m < j && #[trigger] blocks(lts, slots, m, i, s);
        assert(0 <= m < j + 1 && blocks(lts, slots, m, i, s));
    }
    if blocks(lts, slots, j, i, s) {
        assert(0 <= j < j + 1 && blocks(lts, slots, j, i, s));
    }
}

/// The lowest slot that no resource with a slot and a lifetime that
/// overlaps that of `i` holds.
fn least_free_slot(
    lts: &Vec<Lifetime>,
    slots: &Vec<usize>,
    assigned: &Vec<bool>,
    i: usize,
    slot_count: usize,
) -> (s: usize)
    requires
        slots.len() == lts.len(),
        assigned.len() == lts.len(),
        i < lts.len(),
        forall|j: int| 0 <= j < lts.len() && assigned[j] ==> slots[j] < slot_count,
        forall|j: int| 0 <= j < lts.len() ==> (assigned[j] <==> precedes(lts@, j, i as int)),
    ensures
        s <= slot_count,
        !slot_taken(lts@, slots@, i as int, s),
        forall|t: usize| t < s ==> slot_taken(lts@, slots@, i as int, t),
{
    let mut used = all_false(slot_count);
    let mut j: usize = 0;
    while j < lts.len()
        invariant
            j <= lts.len(),
            slots.len() == lts.len(),
            assigned.len() == lts.len(),
            i < lts.len(),
            used.len() == slot_count,
            forall|m: int| 0 <= m < lts.len() && assigned[m] ==> slots[m] < slot_count,
            forall|m: int| 0 <= m < lts.len() ==> (assigned[m] <==> precedes(lts@, m, i as int)),
            forall|t: int|
                0 <= t < slot_count ==> (used[t] <==> taken_among(
                    lts@,
                    slots@,
                    i as int,
                    t as usize,
                    j as int,
                )),
        decreases lts.len() - j,
    {
        if assigned[j] && lts[j].overlaps(&lts[i]) {
            used.set(slots[j], true);
        }
        proof {
            assert forall|t: int| 0 <= t < slot_count implies (used[t] <==> taken_among(
                lts@,
                slots@,
                i as int,
                t as usize,
                j + 1,
            )) by {
                lemma_taken_among_step(lts@, slots@, i as int, t as usize, j as int);
            }
        }
        j += 1;
    }
    let mut s: usize = 0;
    while s < slot_count && used[s]
        invariant
            s <= slot_count,
            used.len() == slot_count,
            forall|t: int| 0 <= t < s ==> used[t],
        decreases slot_count - s,
    {
        s += 1;
    }
    proof {
        assert forall|t: usize| t < s implies slot_taken(lts@, slots@, i as int, t) by {
            assert(used[t as int]);
            let m = choose|m: int|
                0 <= m < lts.len() && #[trigger] blocks(lts@, slots@, m, i as int, t);
            assert(blocks(lts@, slots@, m, i as int, t));
        }
        if slot_taken(lts@, slots@, i as int, s) {
            let m = choose|m: int| #[trigger] blocks(lts@, slots@, m, i as int, s);
            assert(assigned[m]);
            assert(slots[m] < slot_count);
            assert(taken_among(lts@, slots@, i as int, s as int as usize, lts.len() as int));
            assert(used[s as int]);
        }
    }
    s
}

/// Assigns every transient resource its aliasing slot, first fit by start
/// order: the resources are taken by the start of their lifetimes, those
/// that start together by their declaration, and each gets the lowest slot
/// that no resource with an overlapping lifetime already holds.
pub fn assign_slots(lts: &Vec<Lifetime>) -> (slots: Vec<usize>)
    ensures
        is_first_fit(lts@, slots@),
{
    let n = lts.len();
    let mut slots = zeros(n);
    let mut assigned = all_false(n);
    let mut taken: Vec<usize> = Vec::new();
    let mut slot_count: usize = 0;
    while taken.len() < n
        invariant
            n == lts.len(),
            slots.len() == n,
            assigned.len() == n,
            taken@.no_duplicates(),
            forall|k: int| 0 <= k < taken.len() ==> (#[trigger] taken[k]) < n,
            forall|j: int| 0 <= j < n ==> assigned[j] == taken@.contains(j as usize),
            forall|j: int, k: int|
                0 <= j < n && 0 <= k < n && assigned[j] && !assigned[k] ==> precedes(lts@, j, k),
            forall|j: int| 0 <= j < n && assigned[j] ==> #[trigger] fits(lts@, slots@, j),
            forall|j: int| 0 <= j < n && assigned[j] ==> slots[j] < slot_count,
            slot_count <= taken.len(),
            taken.len() <= n,
        decreases n - taken.len(),
    {
        proof {
            if forall|v: usize| v < n ==> taken@.contains(v) {
                lemma_covering_length(taken@, n as nat);
            }
            let v = choose|v: usize| v < n && !taken@.contains(v);
            assert(!assigned[v as int]);
        }
        let i = next_to_assign(lts, &assigned);
        proof {
            assert forall|j: int| 0 <= j < n implies (assigned[j] <==> precedes(
                lts@,
                j,
                i as int,
            )) by {}
        }
        let s = least_free_slot(lts, &slots, &assigned, i, slot_count);
        let ghost old_slots = slots@;
        let ghost old_assigned = assigned@;
        let ghost old_taken = taken@;
        slots.set(i, s);
        assigned.set(i, true);
        taken.push(i);
        if s == slot_count {
            slot_count += 1;
        }
        proof {
            assert forall|j: int| 0 <= j < n && assigned[j] implies #[trigger] fits(
                lts@,
                slots@,
                j,
            ) by {
                assert forall|m: int, t: usize|
                    blocks(lts@, slots@, m, j, t) == blocks(lts@, old_slots, m, j, t) by {
                    if m == i && 0 <= m < n && precedes(lts@, m, j) {
                        if j != i {
                            assert(old_assigned[j]);
                            assert(precedes(lts@, j, i as int));
                        }
                    }
                }
                if j == i {
                    assert(!slot_taken(lts@, old_slots, i as int, s));
                    assert forall|t: usize| t < s implies slot_taken(lts@, slots@, j, t) by {
                        assert(slot_taken(lts@, old_slots, j, t));
                        let m = choose|m: int| #[trigger] blocks(lts@, old_slots, m, j, t);
                        assert(blocks(lts@, slots@, m, j, t));
                    }
                    if slot_taken(lts@, slots@, j, s) {
                        let m = choose|m: int| #[trigger] blocks(lts@, slots@, m, j, s);
                        assert(blocks(lts@, old_slots, m, j, s));
                    }
                } else {
                    assert(fits(lts@, old_slots, j));
                    assert(slots@[j] == old_slots[j]);
                    assert forall|t: usize| t < slots@[j] implies slot_taken(lts@, slots@, j, t) by {
                        assert(slot_taken(lts@, old_slots, j, t));
                        let m = choose|m: int| #[trigger] blocks(lts@, old_slots, m, j, t);
                        assert(blocks(lts@, slots@, m, j, t));
                    }
                    if slot_taken(lts@, slots@, j, slots@[j]) {
                        let m = choose|m: int| #[trigger] blocks(lts@, slots@, m, j, slots@[j]);
                        assert(blocks(lts@, old_slots, m, j, slots@[j]));
                    }
                }
            }
            lemma_push(old_taken, i);
            lemma_distinct_below(taken@, n as nat);
        }
    }
    proof {
        assert forall|j: int| 0 <= j < n implies assigned[j] by {
            lemma_distinct_covers(taken@, n as nat, j as usize);
        }
    }
    slots
}

} // verus!
