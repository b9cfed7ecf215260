use rps::access::{
    AccessFlags, ShaderStage, AFTER, BEFORE, COPY_DEST, COPY_SRC, CPU_WRITE, RELAXED_ORDER,
    RENDER_TARGET, SHADER_RESOURCE, UNORDERED_ACCESS,
};
use rps::alias::Lifetime;
use rps::analyze::{
    access_lists_conflict, accesses_conflict, accesses_overlap_exclusively, find_hazard_edges,
    first_self_conflict, lifetime_of, live_ranges, uses_resource, LiveRange,
};
use rps::format::Format;
use rps::model::{Access, Node, ResourceDesc, SubresourceRange};
use rps::schedule::Edge;

fn acc(resource: usize, start: u32, end: u32, bits: i32) -> Access {
    Access {
        resource,
        range: SubresourceRange::new(start, end),
        format: Format::Unknown,
        flags: AccessFlags { bits },
        stages: ShaderStage { bits: 0 },
    }
}

fn node(accesses: Vec<Access>) -> Node {
    Node { tag: 0, queue: None, accesses, finalized: false }
}

fn res(transient: bool) -> ResourceDesc {
    ResourceDesc {
        format: Format::Unknown,
        extent: 8,
        transient,
        usage: AccessFlags { bits: COPY_SRC },
        initial_state: AccessFlags { bits: 0 },
        final_state: AccessFlags { bits: 0 },
    }
}

#[test]
fn hazards_need_an_overlap_and_a_write() {
    // write then read, write then write, read then write
    assert!(accesses_conflict(&acc(0, 0, 1, COPY_DEST), &acc(0, 0, 1, COPY_SRC)));
    assert!(accesses_conflict(&acc(0, 0, 4, RENDER_TARGET), &acc(0, 3, 5, RENDER_TARGET)));
    assert!(accesses_conflict(&acc(0, 0, 1, SHADER_RESOURCE), &acc(0, 0, 1, CPU_WRITE)));
    // both read only
    assert!(!accesses_conflict(&acc(0, 0, 1, COPY_SRC), &acc(0, 0, 1, SHADER_RESOURCE)));
    // disjoint ranges, both writes
    assert!(!accesses_conflict(&acc(0, 0, 2, RENDER_TARGET), &acc(0, 2, 4, RENDER_TARGET)));
    // another resource
    assert!(!accesses_conflict(&acc(0, 0, 2, RENDER_TARGET), &acc(1, 0, 2, RENDER_TARGET)));
    // an empty range touches nothing
    assert!(!accesses_conflict(&acc(0, 1, 1, RENDER_TARGET), &acc(0, 0, 2, RENDER_TARGET)));
}

#[test]
fn relaxed_order_is_honoured_between_relaxed_accesses() {
    let w = UNORDERED_ACCESS | RELAXED_ORDER;
    assert!(!accesses_conflict(&acc(0, 0, 1, w), &acc(0, 0, 1, w)));
    // only one of the two is relaxed
    assert!(accesses_conflict(&acc(0, 0, 1, w), &acc(0, 0, 1, UNORDERED_ACCESS)));
    // one writes what the other reads
    let r = SHADER_RESOURCE | RELAXED_ORDER;
    assert!(accesses_conflict(&acc(0, 0, 1, w), &acc(0, 0, 1, r)));
    assert!(accesses_conflict(&acc(0, 0, 1, r), &acc(0, 0, 1, w)));
}

#[test]
fn edges_lead_from_the_earlier_node() {
    let nodes = vec![
        node(vec![acc(0, 0, 2, COPY_DEST)]),
        node(vec![acc(1, 0, 1, COPY_DEST)]),
        node(vec![acc(0, 1, 2, COPY_SRC), acc(1, 0, 1, COPY_SRC)]),
        node(vec![acc(0, 0, 1, COPY_SRC)]),
        node(vec![acc(0, 0, 8, COPY_DEST)]),
    ];
    assert!(access_lists_conflict(&nodes[0].accesses, &nodes[2].accesses));
    assert!(!access_lists_conflict(&nodes[2].accesses, &nodes[3].accesses));
    assert!(!access_lists_conflict(&nodes[0].accesses, &nodes[1].accesses));
    assert_eq!(
        find_hazard_edges(&nodes),
        vec![
            Edge { from: 0, to: 2 },
            Edge { from: 1, to: 2 },
            Edge { from: 0, to: 3 },
            Edge { from: 0, to: 4 },
            Edge { from: 2, to: 4 },
            Edge { from: 3, to: 4 },
        ]
    );
    assert!(find_hazard_edges(&vec![]).is_empty());
}

#[test]
fn exclusive_overlap_within_a_node() {
    let w = acc(0, 0, 3, RENDER_TARGET);
    assert!(accesses_overlap_exclusively(&w, &acc(0, 2, 4, SHADER_RESOURCE)));
    assert!(!accesses_overlap_exclusively(&w, &acc(0, 3, 4, RENDER_TARGET)));
    assert!(!accesses_overlap_exclusively(
        &acc(0, 0, 3, COPY_SRC),
        &acc(0, 0, 3, SHADER_RESOURCE)
    ));
    assert!(!accesses_overlap_exclusively(
        &acc(0, 0, 3, RENDER_TARGET | BEFORE),
        &acc(0, 0, 3, SHADER_RESOURCE | AFTER)
    ));
    assert!(accesses_overlap_exclusively(
        &acc(0, 0, 3, RENDER_TARGET | BEFORE),
        &acc(0, 0, 3, SHADER_RESOURCE | BEFORE)
    ));
    // relaxed order is about other nodes, not about the claims of one node
    assert!(accesses_overlap_exclusively(
        &acc(0, 0, 3, UNORDERED_ACCESS | RELAXED_ORDER),
        &acc(0, 0, 3, UNORDERED_ACCESS | RELAXED_ORDER)
    ));
    let xs = vec![
        acc(0, 0, 1, COPY_SRC),
        acc(1, 0, 4, COPY_DEST),
        acc(0, 0, 1, SHADER_RESOURCE),
        acc(1, 3, 5, COPY_SRC),
        acc(0, 0, 1, COPY_DEST),
    ];
    assert_eq!(first_self_conflict(&xs), Some((1, 3)));
    assert_eq!(first_self_conflict(&xs[..3].to_vec()), None);
    assert_eq!(first_self_conflict(&vec![]), None);
}

#[test]
fn lifetimes_span_first_to_last_use() {
    let nodes = vec![
        node(vec![acc(0, 0, 1, COPY_SRC)]),
        node(vec![acc(1, 0, 1, COPY_SRC), acc(2, 0, 1, COPY_SRC)]),
        node(vec![acc(0, 0, 1, COPY_SRC)]),
        node(vec![acc(2, 0, 1, COPY_SRC)]),
    ];
    assert!(uses_resource(&nodes[1].accesses, 2));
    assert!(!uses_resource(&nodes[1].accesses, 0));
    let order = vec![3, 0, 1, 2];
    assert_eq!(lifetime_of(&nodes, &order, 0), Some(Lifetime { first: 1, last: 3 }));
    assert_eq!(lifetime_of(&nodes, &order, 1), Some(Lifetime { first: 2, last: 2 }));
    assert_eq!(lifetime_of(&nodes, &order, 2), Some(Lifetime { first: 0, last: 2 }));
    assert_eq!(lifetime_of(&nodes, &order, 3), None);
    // resource 1 is imported, resource 3 is never used
    let resources = vec![res(true), res(false), res(true), res(true)];
    assert_eq!(
        live_ranges(&resources, &nodes, &order),
        vec![
            LiveRange { resource: 0, lifetime: Lifetime { first: 1, last: 3 } },
            LiveRange { resource: 2, lifetime: Lifetime { first: 0, last: 2 } },
        ]
    );
}
