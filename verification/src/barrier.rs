//! The transition synthesizer: walks the schedule, keeps the current state
//! of every sub-resource, and emits a transition wherever an access asks for
//! another state.

use vstd::prelude::*;
use crate::access::{
    basic_bits, AccessFlags, ShaderStage, AFTER, ALL_ACCESS_MASK, ALL_DECORATORS, CLEAR,
    DISCARD_OLD_DATA,
};
use crate::model::{node_lists, Access, Node, ResourceDesc, SubresourceRange};
use crate::result::Error;

verus! {

/// A change of state of a range of sub-resources, to be made immediately
/// before a node runs, or, where it brings a resource into its final state,
/// after the last node: such a transition carries the position behind the
/// last one of the schedule, and in place of a node the number of nodes.
#[derive(Debug, Clone, Copy, PartialEq, Eq, Structural)]
pub struct Transition {
    /// The position in the schedule of the node before which the transition
    /// is made.
    pub position: usize,
    /// That node.
    pub node: usize,
    /// The resource whose state changes.
    pub resource: usize,
    /// The sub-resources whose state changes.
    pub range: SubresourceRange,
    /// Their state before the transition.
    pub old_state: AccessFlags,
    /// Their state after it.
    pub new_state: AccessFlags,
    /// The decorators of the access that asks for the transition.
    pub decorators: AccessFlags,
}

/// The access asks for a transition whatever the current state: it clears
/// the view or discards its data.
pub open spec fn forces_transition(flags: i32) -> bool {
    flags & (CLEAR | DISCARD_OLD_DATA) != 0
}

/// The access names the state in which the node leaves the sub-resources:
/// the node makes that change itself.
pub open spec fn is_exit_state(flags: i32) -> bool {
    flags & AFTER != 0
}

/// An access with the given flags, met in state `current`, needs a
/// transition before its node.
pub open spec fn needs_transition(current: i32, flags: i32) -> bool {
    !is_exit_state(flags) && (current != basic_bits(flags) || forces_transition(flags))
}

/// The transition that brings one sub-resource from state `current` to the
/// state of access `a`.
pub open spec fn single_transition(a: Access, position: usize, node: usize, k: int, current: i32)
    -> Transition {
    Transition {
        position,
        node,
        resource: a.resource,
        range: SubresourceRange { start: k as u32, end: (k + 1) as u32 },
        old_state: AccessFlags { bits: current },
        new_state: AccessFlags { bits: basic_bits(a.flags@) },
        decorators: AccessFlags { bits: a.flags@ & ALL_DECORATORS },
    }
}

/// The transition `t` with its range extended up to, not including, `end`.
pub open spec fn extended(t: Transition, end: int) -> Transition {
    Transition { range: SubresourceRange { start: t.range.start, end: end as u32 }, ..t }
}

/// The transitions that access `a` needs for its sub-resources below `k`,
/// where `row` holds the current state of every sub-resource: one for every
/// longest run of neighbouring sub-resources that are in one state and need
/// a transition, in ascending order.
pub open spec fn access_transitions(
    row: Seq<i32>,
    a: Access,
    position: usize,
    node: usize,
    k: int,
) -> Seq<Transition>
    decreases k - a.range.start,
{
    if k <= a.range.start {
        Seq::empty()
    } else {
        let prev = access_transitions(row, a, position, node, k - 1);
        let current = row[k - 1];
        if !needs_transition(current, a.flags@) {
            prev
        } else if prev.len() > 0 && prev.last().range.end == k - 1 && prev.last().old_state@
            == current {
            prev.update(prev.len() - 1, extended(prev.last(), k))
        } else {
            prev.push(single_transition(a, position, node, k - 1, current))
        }
    }
}

/// The row with the sub-resources from `lo` up to, not including, `hi` set
/// to state `v`.
pub open spec fn paint(row: Seq<i32>, lo: int, hi: int, v: i32) -> Seq<i32> {
    Seq::new(row.len(), |k: int| if lo <= k < hi { v } else { row[k] })
}

/// The states once access `a` is made.
pub open spec fn apply_access(states: Seq<Seq<i32>>, a: Access) -> Seq<Seq<i32>> {
    states.update(
        a.resource as int,
        paint(
            states[a.resource as int],
            a.range.start as int,
            a.range.end as int,
            basic_bits(a.flags@),
        ),
    )
}

/// The states once those of the first `upto` accesses of a node that name
/// no exit state are made, in the order of their declaration.
pub open spec fn states_after_entries(states: Seq<Seq<i32>>, xs: Seq<Access>, upto: nat) -> Seq<
    Seq<i32>,
>
    decreases upto,
{
    if upto == 0 {
        states
    } else {
        let prev = states_after_entries(states, xs, (upto - 1) as nat);
        if is_exit_state(xs[upto - 1].flags@) {
            prev
        } else {
            apply_access(prev, xs[upto - 1])
        }
    }
}

/// The states once those of the first `upto` accesses of a node that name
/// an exit state are made, in the order of their declaration.
pub open spec fn states_after_exits(states: Seq<Seq<i32>>, xs: Seq<Access>, upto: nat) -> Seq<
    Seq<i32>,
>
    decreases upto,
{
    if upto == 0 {
        states
    } else {
        let prev = states_after_exits(states, xs, (upto - 1) as nat);
        if is_exit_state(xs[upto - 1].flags@) {
            apply_access(prev, xs[upto - 1])
        } else {
            prev
        }
    }
}

/// The states in which a node leaves the resources: the node first makes
/// the accesses that name no exit state, then brings about its exit states,
/// wherever among its accesses these were declared.
pub open spec fn states_after_accesses(states: Seq<Seq<i32>>, xs: Seq<Access>) -> Seq<Seq<i32>> {
    states_after_exits(states_after_entries(states, xs, xs.len()), xs, xs.len())
}

/// The transitions before a node for its first `upto` accesses: those of
/// every access that names no exit state, held against the states as the
/// transitions for the accesses before it leave them.
pub open spec fn node_transitions(
    states: Seq<Seq<i32>>,
    xs: Seq<Access>,
    position: usize,
    node: usize,
    upto: nat,
) -> Seq<Transition>
    decreases upto,
{
    if upto == 0 {
        Seq::empty()
    } else {
        let a = xs[upto - 1];
        let prev = node_transitions(states, xs, position, node, (upto - 1) as nat);
        if is_exit_state(a.flags@) {
            prev
        } else {
            let before = states_after_entries(states, xs, (upto - 1) as nat);
            prev + access_transitions(
                before[a.resource as int],
                a,
                position,
                node,
                a.range.end as int,
            )
        }
    }
}

/// The states once the nodes at the first `upto` positions have run.
pub open spec fn states_after_nodes(
    init: Seq<Seq<i32>>,
    lists: Seq<Seq<Access>>,
    order: Seq<usize>,
    upto: nat,
) -> Seq<Seq<i32>>
    decreases upto,
{
    if upto == 0 {
        init
    } else {
        let xs = lists[order[upto - 1] as int];
        states_after_accesses(states_after_nodes(init, lists, order, (upto - 1) as nat), xs)
    }
}

/// The transitions for the lists at the first `upto` positions.
pub open spec fn transitions_upto(
    init: Seq<Seq<i32>>,
    lists: Seq<Seq<Access>>,
    order: Seq<usize>,
    upto: nat,
) -> Seq<Transition>
    decreases upto,
{
    if upto == 0 {
        Seq::empty()
    } else {
        let v = order[upto - 1];
        let xs = lists[v as int];
        transitions_upto(init, lists, order, (upto - 1) as nat) + node_transitions(
            states_after_nodes(init, lists, order, (upto - 1) as nat),
            xs,
            (upto - 1) as usize,
            v,
            xs.len(),
        )
    }
}

/// The states in which the resources enter the graph.
pub open spec fn initial_states(resources: Seq<ResourceDesc>) -> Seq<Seq<i32>> {
    Seq::new(
        resources.len(),
        |r: int| Seq::new(resources[r].extent as nat, |k: int| basic_bits(resources[r].initial_state@)),
    )
}

/// The access that stands for the release of a resource: it is on all its
/// sub-resources and asks for its final state.
pub open spec fn release_access(r: int, d: ResourceDesc) -> Access {
    Access {
        resource: r as usize,
        range: SubresourceRange { start: 0, end: d.extent },
        format: d.format,
        flags: AccessFlags { bits: basic_bits(d.final_state@) },
        stages: ShaderStage { bits: 0 },
    }
}

/// The transitions that bring the first `upto` resources from the given
/// states into their final states: for every resource that names one, one
/// transition for every longest run of sub-resources that are in one other
/// state.
pub open spec fn final_transitions(
    resources: Seq<ResourceDesc>,
    states: Seq<Seq<i32>>,
    position: usize,
    node: usize,
    upto: nat,
) -> Seq<Transition>
    decreases upto,
{
    if upto == 0 {
        Seq::empty()
    } else {
        let prev = final_transitions(resources, states, position, node, (upto - 1) as nat);
        let d = resources[upto - 1];
        if basic_bits(d.final_state@) == 0 {
            prev
        } else {
            prev + access_transitions(
                states[upto - 1],
                release_access(upto - 1, d),
                position,
                node,
                d.extent as int,
            )
        }
    }
}

/// The transitions of a schedule: those before its nodes, then those that
/// bring the resources into their final states.
pub open spec fn all_transitions(resources: Seq<ResourceDesc>, lists: Seq<Seq<Access>>, order: Seq<usize>)
    -> Seq<Transition> {
    let init = initial_states(resources);
    transitions_upto(init, lists, order, order.len()) + final_transitions(
        resources,
        states_after_nodes(init, lists, order, order.len()),
        order.len() as usize,
        lists.len() as usize,
        resources.len(),
    )
}

/// Every access is on a resource that exists and within its extent.
pub open spec fn accesses_fit(resources: Seq<ResourceDesc>, lists: Seq<Seq<Access>>) -> bool {
    forall|v: int, i: int|
        0 <= v < lists.len() && 0 <= i < lists[v].len() ==> {
            let a = #[trigger] lists[v][i];
            a.resource < resources.len() && a.range.end <= resources[a.resource as int].extent
        }
}

/// The rows as sequences.
pub open spec fn rows(states: Seq<Vec<i32>>) -> Seq<Seq<i32>> {
    Seq::new(states.len(), |r: int| states[r]@)
}

/// Whether an access with the given flags, met in state `current`, needs a
/// transition.
pub fn transition_needed(current: i32, flags: AccessFlags) -> (r: bool)
    ensures
        r == needs_transition(current, flags@),
{
    let bits = flags.bits();
    if bits & AFTER != 0 {
        return false;
    }
    current != (bits & ALL_ACCESS_MASK) || bits & (CLEAR | DISCARD_OLD_DATA) != 0
}

/// Appends to `out` the transitions that access `a` needs.
fn push_access_transitions(
    row: &Vec<i32>,
    a: &Access,
    position: usize,
    node: usize,
    out: &mut Vec<Transition>,
)
    requires
        a.range.end <= row.len(),
    ensures
        final(out)@ == old(out)@ + access_transitions(
            row@,
            *a,
            position,
            node,
            a.range.end as int,
        ),
{
    let ghost base = out@;
    let lo = a.range.start;
    let hi = a.range.end;
    if lo >= hi {
        proof {
            assert(out@ =~= base + Seq::<Transition>::empty());
        }
        return ;
    }
    let first = out.len();
    let mut k: u32 = lo;
    proof {
        assert(out@ =~= base + Seq::<Transition>::empty());
    }
    while k < hi
        invariant
            lo <= k <= hi,
            hi <= row.len(),
            lo == a.range.start,
            first == base.len(),
            out@ == base + access_transitions(row@, *a, position, node, k as int),
        decreases hi - k,
    {
        let ghost prev = access_transitions(row@, *a, position, node, k as int);
        let current = row[k as usize];
        if transition_needed(current, a.flags) {
            let n = out.len();
            if n > first && out[n - 1].range.end == k && out[n - 1].old_state.bits() == current {
                let last = out[n - 1];
                out.set(
                    n - 1,
                    Transition {
                        position: last.position,
                        node: last.node,
                        resource: last.resource,
                        range: SubresourceRange { start: last.range.start, end: k + 1 },
                        old_state: last.old_state,
                        new_state: last.new_state,
                        decorators: last.decorators,
                    },
                );
                proof {
                    assert(last == prev.last());
                    assert(out@ =~= base + prev.update(prev.len() - 1, extended(prev.last(), k + 1)));
                }
            } else {
                out.push(
                    Transition {
                        position,
                        node,
                        resource: a.resource,
                        range: SubresourceRange { start: k, end: k + 1 },
                        old_state: AccessFlags::from_bits(current),
                        new_state: a.flags.basic(),
                        decorators: a.flags.decorators(),
                    },
                );
                proof {
                    if n > first {
                        assert(out@[n - 1] == prev.last());
                    }
                    assert(out@ =~= base + prev.push(
                        single_transition(*a, position, node, k as int, current),
                    ));
                }
            }
        }
        k += 1;
    }
}

/// Sets the sub-resources from `lo` up to, not including, `hi` to state `v`.
fn paint_row(row: &mut Vec<i32>, lo: u32, hi: u32, v: i32)
    requires
        hi <= old(row).len(),
    ensures
        final(row)@ == paint(old(row)@, lo as int, hi as int, v),
{
    let ghost before = row@;
    let mut k: u32 = lo;
    if lo >= hi {
        proof {
            assert(row@ =~= paint(before, lo as int, hi as int, v));
        }
        return ;
    }
    while k < hi
        invariant
            lo <= k <= hi,
            hi <= before.len(),
            row@ == paint(before, lo as int, k as int, v),
        decreases hi - k,
    {
        row.set(k as usize, v);
        proof {
            assert(row@ =~= paint(before, lo as int, k + 1, v));
        }
        k += 1;
    }
}

/// The states in which the resources enter the graph.
fn build_initial_states(resources: &Vec<ResourceDesc>) -> (states: Vec<Vec<i32>>)
    ensures
        rows(states@) == initial_states(resources@),
{
    let mut states: Vec<Vec<i32>> = Vec::new();
    let mut r: usize = 0;
    while r < resources.len()
        invariant
            r <= resources.len(),
            states.len() == r,
            forall|x: int| 0 <= x < r ==> (#[trigger] states[x])@ == initial_states(resources@)[x],
        decreases resources.len() - r,
    {
        let v = resources[r].initial_state.basic().bits();
        let extent = resources[r].extent;
        let mut row: Vec<i32> = Vec::new();
        let mut k: u32 = 0;
        while k < extent
            invariant
                k <= extent,
                row.len() == k,
                forall|i: int| 0 <= i < k ==> row[i] == v,
            decreases extent - k,
        {
            row.push(v);
            k += 1;
        }
        proof {
            assert(row@ =~= initial_states(resources@)[r as int]);
        }
        states.push(row);
        r += 1;
    }
    proof {
        assert(rows(states@) =~= initial_states(resources@));
    }
    states
}

/// Every access of the list is on a resource that exists and within its
/// extent.
pub open spec fn list_fits(resources: Seq<ResourceDesc>, xs: Seq<Access>) -> bool {
    forall|i: int|
        0 <= i < xs.len() ==> (#[trigger] xs[i]).resource < resources.len() && xs[i].range.end
            <= resources[xs[i].resource as int].extent
}

/// Every row is as long as the extent of its resource.
pub open spec fn states_fit(resources: Seq<ResourceDesc>, states: Seq<Seq<i32>>) -> bool {
    &&& states.len() == resources.len()
    &&& forall|r: int| 0 <= r < states.len() ==> (#[trigger] states[r]).len() == resources[r].extent
}

pub proof fn lemma_apply_keeps_fit(resources: Seq<ResourceDesc>, states: Seq<Seq<i32>>, a: Access)
    requires
        states_fit(resources, states),
        a.resource < resources.len(),
    ensures
        states_fit(resources, apply_access(states, a)),
{
}

/// Whether every access of every node is on a resource that exists and
/// within its extent.
pub fn check_accesses_fit(resources: &Vec<ResourceDesc>, nodes: &Vec<Node>) -> (ok: bool)
    ensures
        ok == accesses_fit(resources@, node_lists(nodes@)),
{
    let mut v: usize = 0;
    while v < nodes.len()
        invariant
            v <= nodes.len(),
            forall|x: int, i: int|
                0 <= x < v && 0 <= i < node_lists(nodes@)[x].len() ==> {
                    let a = #[trigger] node_lists(nodes@)[x][i];
                    a.resource < resources.len() && a.range.end
                        <= resources[a.resource as int].extent
                },
        decreases nodes.len() - v,
    {
        let xs = &nodes[v].accesses;
        let mut i: usize = 0;
        while i < xs.len()
            invariant
                i <= xs.len(),
                v < nodes.len(),
                xs@ == node_lists(nodes@)[v as int],
                forall|k: int|
                    0 <= k < i ==> (#[trigger] xs[k]).resource < resources.len() && xs[k].range.end
                        <= resources[xs[k].resource as int].extent,
            decreases xs.len() - i,
        {
            let a = &xs[i];
            if a.resource >= resources.len() || a.range.end > resources[a.resource].extent {
                proof {
                    let bad = node_lists(nodes@)[v as int][i as int];
                    assert(!(bad.resource < resources.len() && bad.range.end
                        <= resources[bad.resource as int].extent));
                }
                return false;
            }
            i += 1;
        }
        v += 1;
    }
    true
}

/// Appends to `out` the transitions before the node that runs at the given
/// position, and brings the states up to date.
fn synthesize_node(
    resources: &Vec<ResourceDesc>,
    xs: &Vec<Access>,
    position: usize,
    node: usize,
    states: &mut Vec<Vec<i32>>,
    out: &mut Vec<Transition>,
)
    requires
        list_fits(resources@, xs@),
        states_fit(resources@, rows(old(states)@)),
    ensures
        states_fit(resources@, rows(final(states)@)),
        rows(final(states)@) == states_after_accesses(rows(old(states)@), xs@),
        final(out)@ == old(out)@ + node_transitions(
            rows(old(states)@),
            xs@,
            position,
            node,
            xs@.len(),
        ),
{
    let ghost init = rows(states@);
    let ghost base = out@;
    proof {
        assert(out@ =~= base + Seq::<Transition>::empty());
    }
    let mut i: usize = 0;
    while i < xs.len()
        invariant
            i <= xs.len(),
            list_fits(resources@, xs@),
            states_fit(resources@, rows(states@)),
            rows(states@) == states_after_entries(init, xs@, i as nat),
            out@ == base + node_transitions(init, xs@, position, node, i as nat),
        decreases xs.len() - i,
    {
        let a = xs[i];
        if a.flags.bits() & AFTER == 0 {
            let ghost before = rows(states@);
            let ghost done = node_transitions(init, xs@, position, node, i as nat);
            assert(a.resource < resources.len());
            assert(before[a.resource as int].len() == resources[a.resource as int].extent);
            push_access_transitions(&states[a.resource], &a, position, node, out);
            paint_row(&mut states[a.resource], a.range.start, a.range.end, a.flags.basic().bits());
            proof {
                assert(rows(states@) =~= apply_access(before, a));
                lemma_apply_keeps_fit(resources@, before, a);
                let step = access_transitions(
                    before[a.resource as int],
                    a,
                    position,
                    node,
                    a.range.end as int,
                );
                assert(out@ =~= base + (done + step));
            }
        }
        i += 1;
    }
    let ghost entered = rows(states@);
    let mut j: usize = 0;
    while j < xs.len()
        invariant
            j <= xs.len(),
            list_fits(resources@, xs@),
            states_fit(resources@, rows(states@)),
            rows(states@) == states_after_exits(entered, xs@, j as nat),
        decreases xs.len() - j,
    {
        let a = xs[j];
        if a.flags.bits() & AFTER != 0 {
            let ghost before = rows(states@);
            assert(a.resource < resources.len());
            assert(before[a.resource as int].len() == resources[a.resource as int].extent);
            paint_row(&mut states[a.resource], a.range.start, a.range.end, a.flags.basic().bits());
            proof {
                assert(rows(states@) =~= apply_access(before, a));
                lemma_apply_keeps_fit(resources@, before, a);
            }
        }
        j += 1;
    }
}

/// The transitions of a schedule: for every node in the order, and for
/// every access of it in the order of declaration, one transition for every
/// longest run of sub-resources that are in one state and must change it;
/// then those that bring the resources into their final states.
/// Fails with `InternalError` where the order names a node that does not
/// exist or an access does not fit its resource.
pub fn synthesize(resources: &Vec<ResourceDesc>, nodes: &Vec<Node>, order: &Vec<usize>) -> (r:
    Result<Vec<Transition>, Error>)
    ensures
        accesses_fit(resources@, node_lists(nodes@)) && crate::analyze::order_in_range(nodes@.len(), order@)
            ==> r.is_ok() && r.unwrap()@ == all_transitions(resources@, node_lists(nodes@), order@),
        !(accesses_fit(resources@, node_lists(nodes@)) && crate::analyze::order_in_range(
            nodes@.len(),
            order@,
        )) ==> r == Err::<Vec<Transition>, Error>(Error::InternalError),
{
    if !check_accesses_fit(resources, nodes) {
        return Err(Error::InternalError);
    }
    if !check_order_in_range(nodes.len(), order) {
        return Err(Error::InternalError);
    }
    let mut states = build_initial_states(resources);
    let ghost init = rows(states@);
    let mut out: Vec<Transition> = Vec::new();
    let mut p: usize = 0;
    proof {
        assert(forall|r: int|
            0 <= r < init.len() ==> (#[trigger] init[r]).len() == resources[r].extent);
    }
    while p < order.len()
        invariant
            p <= order.len(),
            init == initial_states(resources@),
            accesses_fit(resources@, node_lists(nodes@)),
            crate::analyze::order_in_range(nodes@.len(), order@),
            states_fit(resources@, rows(states@)),
            rows(states@) == states_after_nodes(init, node_lists(nodes@), order@, p as nat),
            out@ == transitions_upto(init, node_lists(nodes@), order@, p as nat),
        decreases order.len() - p,
    {
        let v = order[p];
        let xs = &nodes[v].accesses;
        proof {
            assert forall|i: int| 0 <= i < xs@.len() implies (#[trigger] xs@[i]).resource
                < resources.len() && xs@[i].range.end <= resources[xs@[i].resource as int].extent by {
                assert(xs@[i] == node_lists(nodes@)[v as int][i]);
            }
        }
        synthesize_node(resources, xs, p, v, &mut states, &mut out);
        p += 1;
    }
    let ghost before_release = out@;
    let ghost last = rows(states@);
    let position = order.len();
    let node = nodes.len();
    let mut r: usize = 0;
    proof {
        assert(out@ =~= before_release + Seq::<Transition>::empty());
    }
    while r < resources.len()
        invariant
            r <= resources.len(),
            last == rows(states@),
            states_fit(resources@, last),
            position == order.len(),
            node == nodes.len(),
            out@ == before_release + final_transitions(resources@, last, position, node, r as nat),
        decreases resources.len() - r,
    {
        let d = resources[r];
        let wanted = d.final_state.basic();
        if wanted.bits() != 0 {
            let ghost done = final_transitions(resources@, last, position, node, r as nat);
            let a = Access {
                resource: r,
                range: SubresourceRange { start: 0, end: d.extent },
                format: d.format,
                flags: wanted,
                stages: ShaderStage::empty(),
            };
            assert(a == release_access(r as int, d));
            assert(last[r as int].len() == d.extent);
            push_access_transitions(&states[r], &a, position, node, &mut out);
            proof {
                let step = access_transitions(last[r as int], a, position, node, d.extent as int);
                assert(out@ =~= before_release + (done + step));
            }
        }
        r += 1;
    }
    Ok(out)
}

/// Whether the order names only nodes that exist.
pub fn check_order_in_range(n: usize, order: &Vec<usize>) -> (ok: bool)
    ensures
        ok == crate::analyze::order_in_range(n as nat, order@),
{
    let mut p: usize = 0;
    while p < order.len()
        invariant
            p <= order.len(),
            forall|k: int| 0 <= k < p ==> (#[trigger] order[k]) < n,
        decreases order.len() - p,
    {
        if order[p] >= n {
            return false;
        }
        p += 1;
    }
    true
}

} // verus!
