//! What holds of every first-fit assignment of aliasing slots.

use vstd::prelude::*;
use crate::alias::{blocks, fits, is_first_fit, overlaps, precedes, slot_taken, Lifetime};

verus! {

/// Two resources whose lifetimes overlap, even by one position, never share
/// a slot.
pub proof fn lemma_overlapping_never_share(
    lts: Seq<Lifetime>,
    slots: Seq<usize>,
    i: int,
    j: int,
)
    requires
        is_first_fit(lts, slots),
        0 <= i < lts.len(),
        0 <= j < lts.len(),
        i != j,
        overlaps(lts[i], lts[j]),
    ensures
        slots[i] != slots[j],
{
    if slots[i] == slots[j] {
        if precedes(lts, i, j) {
            assert(fits(lts, slots, j));
            assert(blocks(lts, slots, i, j, slots[j]));
        } else {
            assert(precedes(lts, j, i));
            assert(fits(lts, slots, i));
            assert(blocks(lts, slots, j, i, slots[i]));
        }
    }
}

proof fn lemma_first_fit_agree(lts: Seq<Lifetime>, a: Seq<usize>, b: Seq<usize>, i: int)
    requires
        is_first_fit(lts, a),
        is_first_fit(lts, b),
        0 <= i < lts.len(),
    ensures
        a[i] == b[i],
    decreases lts[i].first, i,
{
    assert forall|j: int, s: usize| blocks(lts, a, j, i, s) == blocks(lts, b, j, i, s) by {
        if 0 <= j < lts.len() && precedes(lts, j, i) {
            lemma_first_fit_agree(lts, a, b, j);
        }
    }
    assert(fits(lts, a, i));
    assert(fits(lts, b, i));
    if a[i] < b[i] {
        assert(slot_taken(lts, b, i, a[i]));
        let j = choose|j: int| #[trigger] blocks(lts, b, j, i, a[i]);
        assert(blocks(lts, a, j, i, a[i]));
    } else if b[i] < a[i] {
        assert(slot_taken(lts, a, i, b[i]));
        let j = choose|j: int| #[trigger] blocks(lts, a, j, i, b[i]);
        assert(blocks(lts, b, j, i, b[i]));
    }
}

/// Determinism of the aliasing: a list of lifetimes has one first-fit
/// assignment.
pub proof fn lemma_first_fit_unique(lts: Seq<Lifetime>, a: Seq<usize>, b: Seq<usize>)
    requires
        is_first_fit(lts, a),
        is_first_fit(lts, b),
    ensures
        a == b,
{
    assert forall|i: int| 0 <= i < a.len() implies a[i] == b[i] by {
        lemma_first_fit_agree(lts, a, b, i);
    }
    assert(a =~= b);
}

/// A resource whose lifetime overlaps that of no resource before it gets
/// slot 0.
pub proof fn lemma_unblocked_gets_first_slot(lts: Seq<Lifetime>, slots: Seq<usize>, i: int)
    requires
        is_first_fit(lts, slots),
        0 <= i < lts.len(),
        forall|j: int| 0 <= j < lts.len() && precedes(lts, j, i) ==> !overlaps(lts[j], lts[i]),
    ensures
        slots[i] == 0,
{
    assert(fits(lts, slots, i));
    if slots[i] > 0 {
        assert(slot_taken(lts, slots, i, 0));
        let j = choose|j: int| #[trigger] blocks(lts, slots, j, i, 0);
        assert(blocks(lts, slots, j, i, 0));
    }
}

} // verus!
