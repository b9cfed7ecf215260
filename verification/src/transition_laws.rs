//! What holds of the transitions that an access needs.

use vstd::prelude::*;
use crate::access::{basic_bits, ALL_DECORATORS};
use crate::analyze::order_in_range;
use crate::barrier::{
    access_transitions, accesses_fit, final_transitions, initial_states, is_exit_state,
    lemma_apply_keeps_fit, list_fits, needs_transition, release_access, states_after_accesses,
    states_after_entries, states_after_exits, states_after_nodes, states_fit, Transition,
};
use crate::model::{Access, ResourceDesc};

verus! {

/// Transition `t` is one that access `a` needs where `row` holds the
/// current states: it lies within the sub-resources of the access below
/// `k`, its sub-resources are all in the state that it starts from, and
/// that state needs a transition; it leads to the state of the access.
pub open spec fn transition_fits(
    row: Seq<i32>,
    a: Access,
    position: usize,
    node: usize,
    k: int,
    t: Transition,
) -> bool {
    &&& t.position == position
    &&& t.node == node
    &&& t.resource == a.resource
    &&& a.range.start <= t.range.start < t.range.end <= k
    &&& t.new_state@ == basic_bits(a.flags@)
    &&& t.decorators@ == a.flags@ & ALL_DECORATORS
    &&& needs_transition(t.old_state@, a.flags@)
    &&& forall|j: int| t.range.start <= j < t.range.end ==> row[j] == t.old_state@
}

/// The transitions of an access are sound, complete and minimal: each of
/// them fits; they come in ascending order, and two that touch start from
/// different states; and every sub-resource of the access that needs a
/// transition lies in one of them.
pub proof fn lemma_access_transitions(row: Seq<i32>, a: Access, position: usize, node: usize, k: int)
    requires
        a.range.start <= k <= a.range.end,
        k <= row.len(),
    ensures
        forall|i: int|
            0 <= i < access_transitions(row, a, position, node, k).len() ==> transition_fits(
                row,
                a,
                position,
                node,
                k,
                #[trigger] access_transitions(row, a, position, node, k)[i],
            ),
        forall|i: int|
            0 <= i < access_transitions(row, a, position, node, k).len() - 1 ==> {
                let t = #[trigger] access_transitions(row, a, position, node, k)[i];
                let u = access_transitions(row, a, position, node, k)[i + 1];
                t.range.end < u.range.start || (t.range.end == u.range.start && t.old_state
                    != u.old_state)
            },
        forall|j: int|
            a.range.start <= j < k && needs_transition(row[j], a.flags@) ==> exists|i: int|
                0 <= i < access_transitions(row, a, position, node, k).len() && (
                #[trigger] access_transitions(row, a, position, node, k)[i]).range.start <= j
                    < access_transitions(row, a, position, node, k)[i].range.end,
        needs_transition(row[k - 1], a.flags@) && k > a.range.start ==> access_transitions(
            row,
            a,
            position,
            node,
            k,
        ).len() > 0 && access_transitions(row, a, position, node, k).last().range.end == k
            && access_transitions(row, a, position, node, k).last().old_state@ == row[k - 1],
        !needs_transition(row[k - 1], a.flags@) && k > a.range.start ==> forall|i: int|
            0 <= i < access_transitions(row, a, position, node, k).len() ==> (
            #[trigger] access_transitions(row, a, position, node, k)[i]).range.end < k,
    decreases k - a.range.start,
{
    if k > a.range.start {
        lemma_access_transitions(row, a, position, node, k - 1);
        let prev = access_transitions(row, a, position, node, k - 1);
        let cur = access_transitions(row, a, position, node, k);
        let c = row[k - 1];
        if !needs_transition(c, a.flags@) {
            assert(cur == prev);
            assert forall|i: int| 0 <= i < cur.len() implies transition_fits(
                row,
                a,
                position,
                node,
                k,
                #[trigger] cur[i],
            ) by {
                assert(transition_fits(row, a, position, node, k - 1, prev[i]));
            }
            assert forall|j: int|
                a.range.start <= j < k && needs_transition(row[j], a.flags@) implies exists|i: int|
                0 <= i < cur.len() && (#[trigger] cur[i]).range.start <= j < cur[i].range.end by {
                let i = choose|i: int|
                    0 <= i < prev.len() && (#[trigger] prev[i]).range.start <= j
                        < prev[i].range.end;
                assert(cur[i].range.start <= j < cur[i].range.end);
            }
            assert forall|i: int| 0 <= i < cur.len() implies (#[trigger] cur[i]).range.end < k by {
                assert(transition_fits(row, a, position, node, k - 1, prev[i]));
            }
        } else if prev.len() > 0 && prev.last().range.end == k - 1 && prev.last().old_state@ == c {
            let n = prev.len() - 1;
            assert(cur.len() == prev.len());
            assert forall|i: int| 0 <= i < cur.len() implies transition_fits(
                row,
                a,
                position,
                node,
                k,
                #[trigger] cur[i],
            ) by {
                assert(transition_fits(row, a, position, node, k - 1, prev[i]));
                if i == n {
                    assert(cur[i].range.start == prev[i].range.start);
                    assert(cur[i].range.end == k);
                } else {
                    assert(cur[i] == prev[i]);
                }
            }
            assert forall|i: int| 0 <= i < cur.len() - 1 implies {
                let t = #[trigger] cur[i];
                let u = cur[i + 1];
                t.range.end < u.range.start || (t.range.end == u.range.start && t.old_state
                    != u.old_state)
            } by {
                assert(cur[i] == prev[i]);
                assert(cur[i + 1].range.start == prev[i + 1].range.start);
                assert(cur[i + 1].old_state == prev[i + 1].old_state);
            }
            assert forall|j: int|
                a.range.start <= j < k && needs_transition(row[j], a.flags@) implies exists|i: int|
                0 <= i < cur.len() && (#[trigger] cur[i]).range.start <= j < cur[i].range.end by {
                if j < k - 1 {
                    let i = choose|i: int|
                        0 <= i < prev.len() && (#[trigger] prev[i]).range.start <= j
                            < prev[i].range.end;
                    assert(cur[i].range.start <= j < cur[i].range.end);
                } else {
                    assert(transition_fits(row, a, position, node, k - 1, prev[n]));
                    assert(cur[n].range.start <= j < cur[n].range.end);
                }
            }
        } else {
            let n = prev.len() as int;
            assert(cur.len() == n + 1);
            assert forall|i: int| 0 <= i < cur.len() implies transition_fits(
                row,
                a,
                position,
                node,
                k,
                #[trigger] cur[i],
            ) by {
                if i < n {
                    assert(cur[i] == prev[i]);
                    assert(transition_fits(row, a, position, node, k - 1, prev[i]));
                }
            }
            assert forall|i: int| 0 <= i < cur.len() - 1 implies {
                let t = #[trigger] cur[i];
                let u = cur[i + 1];
                t.range.end < u.range.start || (t.range.end == u.range.start && t.old_state
                    != u.old_state)
            } by {
                assert(cur[i] == prev[i]);
                if i + 1 < n {
                    assert(cur[i + 1] == prev[i + 1]);
                } else {
                    assert(transition_fits(row, a, position, node, k - 1, prev[i]));
                    assert(cur[i + 1].range.start == k - 1);
                    if prev[i].range.end == k - 1 {
                        assert(i == n - 1);
                        assert(prev.last().old_state@ != c);
                    }
                }
            }
            assert forall|j: int|
                a.range.start <= j < k && needs_transition(row[j], a.flags@) implies exists|i: int|
                0 <= i < cur.len() && (#[trigger] cur[i]).range.start <= j < cur[i].range.end by {
                if j < k - 1 {
                    let i = choose|i: int|
                        0 <= i < prev.len() && (#[trigger] prev[i]).range.start <= j
                            < prev[i].range.end;
                    assert(cur[i] == prev[i]);
                } else {
                    assert(cur[n].range.start <= j < cur[n].range.end);
                }
            }
        }
    }
}

/// An access that finds all its sub-resources in its own state, and neither
/// clears nor discards, needs no transition.
pub proof fn lemma_settled_access_needs_none(row: Seq<i32>, a: Access, position: usize, node: usize)
    requires
        a.range.start <= a.range.end <= row.len(),
        forall|j: int| a.range.start <= j < a.range.end ==> !needs_transition(row[j], a.flags@),
    ensures
        access_transitions(row, a, position, node, a.range.end as int).len() == 0,
{
    lemma_access_transitions(row, a, position, node, a.range.end as int);
    let ts = access_transitions(row, a, position, node, a.range.end as int);
    if ts.len() > 0 {
        let t = ts[0];
        assert(transition_fits(row, a, position, node, a.range.end as int, t));
        assert(row[t.range.start as int] == t.old_state@);
    }
}

/// Access `i` of the node names an exit state for sub-resource `k`, and no
/// access after it names another one for that sub-resource.
pub open spec fn is_exit_state_of(xs: Seq<Access>, i: int, k: int) -> bool {
    &&& 0 <= i < xs.len()
    &&& is_exit_state(xs[i].flags@)
    &&& xs[i].range.start <= k < xs[i].range.end
    &&& forall|j: int|
        i < j < xs.len() && is_exit_state((#[trigger] xs[j]).flags@) && xs[j].resource
            == xs[i].resource ==> !(xs[j].range.start <= k < xs[j].range.end)
}

/// The accesses of a node that name no exit state leave every row as long
/// as it was.
pub proof fn lemma_entries_keep_fit(
    resources: Seq<ResourceDesc>,
    states: Seq<Seq<i32>>,
    xs: Seq<Access>,
    upto: nat,
)
    requires
        list_fits(resources, xs),
        states_fit(resources, states),
        upto <= xs.len(),
    ensures
        states_fit(resources, states_after_entries(states, xs, upto)),
    decreases upto,
{
    if upto > 0 {
        lemma_entries_keep_fit(resources, states, xs, (upto - 1) as nat);
        let prev = states_after_entries(states, xs, (upto - 1) as nat);
        if !is_exit_state(xs[upto - 1].flags@) {
            lemma_apply_keeps_fit(resources, prev, xs[upto - 1]);
        }
    }
}

/// The exit states of a node leave every row as long as it was.
pub proof fn lemma_exits_keep_fit(
    resources: Seq<ResourceDesc>,
    states: Seq<Seq<i32>>,
    xs: Seq<Access>,
    upto: nat,
)
    requires
        list_fits(resources, xs),
        states_fit(resources, states),
        upto <= xs.len(),
    ensures
        states_fit(resources, states_after_exits(states, xs, upto)),
    decreases upto,
{
    if upto > 0 {
        lemma_exits_keep_fit(resources, states, xs, (upto - 1) as nat);
        let prev = states_after_exits(states, xs, (upto - 1) as nat);
        if is_exit_state(xs[upto - 1].flags@) {
            lemma_apply_keeps_fit(resources, prev, xs[upto - 1]);
        }
    }
}

proof fn lemma_exit_painted(
    resources: Seq<ResourceDesc>,
    states: Seq<Seq<i32>>,
    xs: Seq<Access>,
    upto: nat,
    i: int,
    k: int,
)
    requires
        list_fits(resources, xs),
        states_fit(resources, states),
        is_exit_state_of(xs, i, k),
        i < upto <= xs.len(),
    ensures
        states_after_exits(states, xs, upto)[xs[i].resource as int][k] == basic_bits(xs[i].flags@),
    decreases upto,
{
    let prev = states_after_exits(states, xs, (upto - 1) as nat);
    let a = xs[upto - 1];
    lemma_exits_keep_fit(resources, states, xs, (upto - 1) as nat);
    assert(a.resource < resources.len());
    assert(xs[i].resource < resources.len());
    if upto - 1 > i {
        lemma_exit_painted(resources, states, xs, (upto - 1) as nat, i, k);
    }
}

/// A node leaves every sub-resource for which it names an exit state in
/// that state, wherever among its accesses the exit state was declared:
/// that state is current for the nodes that follow.
pub proof fn lemma_exit_state_holds(
    resources: Seq<ResourceDesc>,
    states: Seq<Seq<i32>>,
    xs: Seq<Access>,
    i: int,
    k: int,
)
    requires
        list_fits(resources, xs),
        states_fit(resources, states),
        is_exit_state_of(xs, i, k),
    ensures
        states_after_accesses(states, xs)[xs[i].resource as int][k] == basic_bits(xs[i].flags@),
{
    lemma_entries_keep_fit(resources, states, xs, xs.len());
    lemma_exit_painted(resources, states_after_entries(states, xs, xs.len()), xs, xs.len(), i, k);
}

/// Every row stays as long as the extent of its resource while the nodes
/// run.
pub proof fn lemma_nodes_keep_fit(
    resources: Seq<ResourceDesc>,
    lists: Seq<Seq<Access>>,
    order: Seq<usize>,
    upto: nat,
)
    requires
        accesses_fit(resources, lists),
        order_in_range(lists.len(), order),
        upto <= order.len(),
    ensures
        states_fit(resources, states_after_nodes(initial_states(resources), lists, order, upto)),
    decreases upto,
{
    let init = initial_states(resources);
    if upto > 0 {
        lemma_nodes_keep_fit(resources, lists, order, (upto - 1) as nat);
        let before = states_after_nodes(init, lists, order, (upto - 1) as nat);
        let xs = lists[order[upto - 1] as int];
        assert(list_fits(resources, xs)) by {
            assert forall|i: int| 0 <= i < xs.len() implies (#[trigger] xs[i]).resource
                < resources.len() && xs[i].range.end <= resources[xs[i].resource as int].extent by {
                assert(xs[i] == lists[order[upto - 1] as int][i]);
            }
        }
        lemma_entries_keep_fit(resources, before, xs, xs.len());
        lemma_exits_keep_fit(resources, states_after_entries(before, xs, xs.len()), xs, xs.len());
    }
}

/// After the node at position `p` has run, every sub-resource for which it
/// names an exit state is in that state.
pub proof fn lemma_exit_state_after_node(
    resources: Seq<ResourceDesc>,
    lists: Seq<Seq<Access>>,
    order: Seq<usize>,
    p: int,
    i: int,
    k: int,
)
    requires
        accesses_fit(resources, lists),
        order_in_range(lists.len(), order),
        0 <= p < order.len(),
        is_exit_state_of(lists[order[p] as int], i, k),
    ensures
        states_after_nodes(initial_states(resources), lists, order, (p + 1) as nat)[lists[order[p] as int][i].resource as int][k]
            == basic_bits(lists[order[p] as int][i].flags@),
{
    let init = initial_states(resources);
    let xs = lists[order[p] as int];
    lemma_nodes_keep_fit(resources, lists, order, p as nat);
    assert(list_fits(resources, xs)) by {
        assert forall|j: int| 0 <= j < xs.len() implies (#[trigger] xs[j]).resource
            < resources.len() && xs[j].range.end <= resources[xs[j].resource as int].extent by {
            assert(xs[j] == lists[order[p] as int][j]);
        }
    }
    lemma_exit_state_holds(resources, states_after_nodes(init, lists, order, p as nat), xs, i, k);
}

/// An access that names the exit state of a node asks for no transition:
/// the transitions before a node are those of its other accesses alone.
pub proof fn lemma_exit_state_needs_no_transition(
    row: Seq<i32>,
    a: Access,
    position: usize,
    node: usize,
    k: int,
)
    requires
        is_exit_state(a.flags@),
    ensures
        access_transitions(row, a, position, node, k).len() == 0,
    decreases k - a.range.start,
{
    if k > a.range.start {
        lemma_exit_state_needs_no_transition(row, a, position, node, k - 1);
    }
}

/// An access is held against the states as they were before its node,
/// unless an access declared before it, which names no exit state, is on the
/// same resource: the exit states of the node never come before its other
/// accesses.
pub proof fn lemma_entry_sees_state_before_node(
    resources: Seq<ResourceDesc>,
    states: Seq<Seq<i32>>,
    xs: Seq<Access>,
    upto: nat,
    r: int,
)
    requires
        list_fits(resources, xs),
        states_fit(resources, states),
        upto <= xs.len(),
        0 <= r < states.len(),
        forall|j: int|
            0 <= j < upto && !is_exit_state((#[trigger] xs[j]).flags@) ==> xs[j].resource != r,
    ensures
        states_after_entries(states, xs, upto)[r] == states[r],
    decreases upto,
{
    if upto > 0 {
        lemma_entry_sees_state_before_node(resources, states, xs, (upto - 1) as nat, r);
        lemma_entries_keep_fit(resources, states, xs, (upto - 1) as nat);
        let a = xs[upto - 1];
        assert(a.resource < resources.len());
    }
}

/// Transition `t` brings sub-resource `k` of resource `r` from state `from`
/// into state `to`.
pub open spec fn brings(t: Transition, r: int, k: int, from: i32, to: i32) -> bool {
    &&& t.resource == r
    &&& t.range.start <= k < t.range.end
    &&& t.old_state@ == from
    &&& t.new_state@ == to
}

/// Every sub-resource of a resource that names a final state, and is not in
/// it when the last node has run, is brought into it by one of the final
/// transitions.
pub proof fn lemma_final_state_is_reached(
    resources: Seq<ResourceDesc>,
    states: Seq<Seq<i32>>,
    position: usize,
    node: usize,
    upto: nat,
    r: int,
    k: int,
)
    requires
        states_fit(resources, states),
        upto <= resources.len() <= usize::MAX,
        0 <= r < upto,
        0 <= k < resources[r].extent,
        basic_bits(resources[r].final_state@) != 0,
        states[r][k] != basic_bits(resources[r].final_state@),
    ensures
        exists|i: int|
            0 <= i < final_transitions(resources, states, position, node, upto).len() && brings(
                #[trigger] final_transitions(resources, states, position, node, upto)[i],
                r,
                k,
                states[r][k],
                basic_bits(resources[r].final_state@),
            ),
    decreases upto,
{
    let all = final_transitions(resources, states, position, node, upto);
    let prev = final_transitions(resources, states, position, node, (upto - 1) as nat);
    let from = states[r][k];
    let to = basic_bits(resources[r].final_state@);
    if r < upto - 1 {
        lemma_final_state_is_reached(resources, states, position, node, (upto - 1) as nat, r, k);
        let i = choose|i: int| 0 <= i < prev.len() && brings(#[trigger] prev[i], r, k, from, to);
        assert(all[i] == prev[i]);
    } else {
        let d = resources[r];
        let a = release_access(r, d);
        let step = access_transitions(states[r], a, position, node, d.extent as int);
        assert(basic_bits(a.flags@) == to) by {
            let f = d.final_state@;
            assert(basic_bits(basic_bits(f)) == basic_bits(f)) by (bit_vector);
        }
        assert(!is_exit_state(a.flags@) && needs_transition(from, a.flags@)) by {
            let f = d.final_state@;
            assert(basic_bits(f) & crate::access::AFTER == 0) by (bit_vector);
        }
        lemma_access_transitions(states[r], a, position, node, d.extent as int);
        let i = choose|i: int|
            0 <= i < step.len() && (#[trigger] step[i]).range.start <= k < step[i].range.end;
        assert(transition_fits(states[r], a, position, node, d.extent as int, step[i]));
        assert(all == prev + step);
        assert(all[prev.len() + i] == step[i]);
        assert(brings(all[prev.len() + i], r, k, from, to));
    }
}

} // verus!
