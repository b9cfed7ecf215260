use rps::access::{
    AccessFlags, ShaderStage, AFTER, BEFORE, CLEAR, COPY_DEST, COPY_SRC, DEPTH_WRITE, RELAXED_ORDER,
    RENDER_TARGET, SHADER_RESOURCE, STAGE_ALL, STAGE_PS, UNORDERED_ACCESS, ALL_ACCESS_MASK,
};
use rps::barrier::Transition;
use rps::compile::SyncMarker;
use rps::device::{Device, DeviceBuilder};
use rps::diag::ReportKind;
use rps::format::Format;
use rps::graph::{GraphBuilder, GraphState};
use rps::model::{NodeHandle, ResourceDesc, ResourceHandle, SubresourceRange, Target, ViewHandle};
use rps::result::Error;
use rps::schedule::Edge;

fn device() -> Device {
    DeviceBuilder::new().build().unwrap()
}

fn flags(bits: i32) -> AccessFlags {
    AccessFlags { bits }
}

fn stages() -> ShaderStage {
    ShaderStage { bits: STAGE_ALL }
}

fn buffer(transient: bool) -> ResourceDesc {
    ResourceDesc {
        format: Format::Unknown,
        extent: 1,
        transient,
        usage: flags(COPY_DEST | COPY_SRC | SHADER_RESOURCE | UNORDERED_ACCESS),
        initial_state: flags(0),
        final_state: AccessFlags { bits: 0 },
    }
}

fn image(extent: u32) -> ResourceDesc {
    ResourceDesc {
        format: Format::R8G8B8A8Unorm,
        extent,
        transient: true,
        usage: flags(ALL_ACCESS_MASK),
        initial_state: flags(0),
        final_state: AccessFlags { bits: 0 },
    }
}

fn range(start: u32, end: u32) -> SubresourceRange {
    SubresourceRange { start, end }
}

fn access(
    g: &mut GraphBuilder,
    d: &Device,
    n: NodeHandle,
    r: ResourceHandle,
    bits: i32,
    sub: Option<SubresourceRange>,
) -> Result<(), Error> {
    g.declare_access(d, n, Target::Resource(r), flags(bits), stages(), sub)
}

#[test]
fn default_device() {
    let device = DeviceBuilder::default().build().unwrap();
    drop(device);
}

#[test]
fn null_runtime() {
    let device = DeviceBuilder::new().build_null().unwrap();
    drop(device);
}

#[test]
fn device_refuses_bad_alignment_and_no_queue() {
    let mut b = DeviceBuilder::new();
    b.data_alloc_info(64, 3);
    assert_eq!(b.build().err(), Some(Error::InvalidArguments));
    b.data_alloc_info(64, 16);
    let d = b.build().unwrap();
    assert_eq!(d.alloc.size, 64);
    assert_eq!(d.alloc.alignment, 16);
    b.queues(0);
    assert_eq!(b.build().err(), Some(Error::InvalidArguments));
    assert_eq!(b.build_null().err(), Some(Error::InvalidArguments));
    // the calls chain
    let d = DeviceBuilder::new()
        .data_alloc_info(128, 0)
        .queues(2)
        .format_support(Format::R8Unorm, COPY_SRC)
        .build()
        .unwrap();
    assert_eq!((d.alloc.size, d.alloc.alignment, d.queue_count), (128, 0, 2));
    assert!(d.supports(Format::R8Unorm, COPY_SRC));
    assert!(!d.supports(Format::R8Unorm, COPY_DEST));
    assert!(d.supports(Format::R8Snorm, COPY_DEST));
}

#[test]
fn copy_then_read_gives_one_transition() {
    let d = device();
    let mut g = GraphBuilder::new();
    let mut desc = buffer(false);
    desc.initial_state = flags(COPY_DEST);
    let x = g.declare_resource(desc).unwrap();
    let a = g.begin_node(&d, 1, None).unwrap();
    access(&mut g, &d, a, x, COPY_DEST, Some(range(0, 1))).unwrap();
    g.finalize_node(a).unwrap();
    let b = g.begin_node(&d, 2, None).unwrap();
    access(&mut g, &d, b, x, COPY_SRC, Some(range(0, 1))).unwrap();
    g.finalize_node(b).unwrap();
    let s = g.finalize_graph().unwrap();
    assert_eq!(s.order, vec![0, 1]);
    assert_eq!(s.edges, vec![Edge { from: 0, to: 1 }]);
    assert_eq!(
        s.transitions,
        vec![Transition {
            position: 1,
            node: 1,
            resource: 0,
            range: range(0, 1),
            old_state: flags(COPY_DEST),
            new_state: flags(COPY_SRC),
            decorators: flags(0),
        }]
    );
    assert!(s.syncs.is_empty());
    assert_eq!(g.state, GraphState::Finalized);
}

#[test]
fn first_use_leaves_the_initial_state() {
    let d = device();
    let mut g = GraphBuilder::new();
    let x = g.declare_resource(buffer(false)).unwrap();
    let a = g.begin_node(&d, 1, None).unwrap();
    access(&mut g, &d, a, x, COPY_DEST, None).unwrap();
    let b = g.begin_node(&d, 2, None).unwrap();
    access(&mut g, &d, b, x, COPY_SRC, None).unwrap();
    let s = g.finalize_graph().unwrap();
    assert_eq!(s.transitions.len(), 2);
    assert_eq!(s.transitions[0].position, 0);
    assert_eq!(s.transitions[0].old_state, flags(0));
    assert_eq!(s.transitions[0].new_state, flags(COPY_DEST));
    assert_eq!(s.transitions[1].position, 1);
    assert_eq!(s.transitions[1].old_state, flags(COPY_DEST));
    assert_eq!(s.transitions[1].new_state, flags(COPY_SRC));
}

#[test]
fn disjoint_writes_are_independent() {
    let d = device();
    let mut g = GraphBuilder::new();
    let x = g.declare_resource(image(4)).unwrap();
    let a = g.begin_node(&d, 1, None).unwrap();
    access(&mut g, &d, a, x, RENDER_TARGET, Some(range(0, 2))).unwrap();
    let b = g.begin_node(&d, 2, None).unwrap();
    access(&mut g, &d, b, x, RENDER_TARGET, Some(range(2, 4))).unwrap();
    let s = g.finalize_graph().unwrap();
    assert!(s.edges.is_empty());
    assert_eq!(s.order, vec![0, 1]);
}

#[test]
fn overlapping_exclusive_ranges_are_refused() {
    let d = device();
    let mut g = GraphBuilder::new();
    let x = g.declare_resource(image(4)).unwrap();
    let a = g.begin_node(&d, 1, None).unwrap();
    access(&mut g, &d, a, x, RENDER_TARGET, Some(range(0, 3))).unwrap();
    access(&mut g, &d, a, x, UNORDERED_ACCESS, Some(range(2, 4))).unwrap();
    assert_eq!(g.finalize_node(a), Err(Error::RangeOverlapping));
    assert!(!g.nodes[0].finalized);
    assert_eq!(g.finalize_graph().err(), Some(Error::RangeOverlapping));
    assert_eq!(g.state, GraphState::Building);
    let report = g.diagnose().unwrap();
    assert_eq!(report.kind, ReportKind::RangeOverlap);
    assert_eq!(report.nodes, vec![0]);
    assert_eq!(report.resource, Some(0));
    assert_eq!(report.accesses, Some((0, 1)));
    // the graph stays usable: drop the offending access and try again
    g.remove_access(a, 1).unwrap();
    g.finalize_node(a).unwrap();
    let s = g.finalize_graph().unwrap();
    assert_eq!(s.order, vec![0]);
    assert!(g.diagnose().is_none());
}

#[test]
fn entry_and_exit_state_may_overlap() {
    let d = device();
    let mut g = GraphBuilder::new();
    let x = g.declare_resource(image(1)).unwrap();
    let a = g.begin_node(&d, 1, None).unwrap();
    access(&mut g, &d, a, x, RENDER_TARGET | BEFORE, None).unwrap();
    access(&mut g, &d, a, x, SHADER_RESOURCE | AFTER, None).unwrap();
    g.finalize_node(a).unwrap();
    let b = g.begin_node(&d, 2, None).unwrap();
    access(&mut g, &d, b, x, SHADER_RESOURCE, None).unwrap();
    let s = g.finalize_graph().unwrap();
    // one transition into the entry state; the node itself makes the change
    // to its exit state, in which the second node finds the resource
    assert_eq!(s.transitions.len(), 1);
    assert_eq!(s.transitions[0].position, 0);
    assert_eq!(s.transitions[0].new_state, flags(RENDER_TARGET));
    assert_eq!(s.transitions[0].decorators, flags(BEFORE));
}

#[test]
fn exit_state_may_be_declared_first() {
    // the resource enters in the entry state of node 0, and node 1 wants
    // the state in which node 0 leaves it: no transition is owed, in
    // whichever order node 0 declares its two states
    for exit_first in [true, false] {
        let d = device();
        let mut g = GraphBuilder::new();
        let mut desc = buffer(false);
        desc.initial_state = flags(COPY_DEST);
        let x = g.declare_resource(desc).unwrap();
        let a = g.begin_node(&d, 0, None).unwrap();
        if exit_first {
            access(&mut g, &d, a, x, COPY_SRC | AFTER, None).unwrap();
            access(&mut g, &d, a, x, COPY_DEST | BEFORE, None).unwrap();
        } else {
            access(&mut g, &d, a, x, COPY_DEST | BEFORE, None).unwrap();
            access(&mut g, &d, a, x, COPY_SRC | AFTER, None).unwrap();
        }
        g.finalize_node(a).unwrap();
        let b = g.begin_node(&d, 1, None).unwrap();
        access(&mut g, &d, b, x, COPY_SRC, None).unwrap();
        let s = g.finalize_graph().unwrap();
        assert_eq!(s.order, vec![0, 1]);
        assert!(s.transitions.is_empty());
    }
}

#[test]
fn exit_state_declared_first_does_not_hide_the_entry_transition() {
    let d = device();
    let mut g = GraphBuilder::new();
    let mut desc = image(2);
    desc.initial_state = flags(SHADER_RESOURCE);
    let x = g.declare_resource(desc).unwrap();
    let a = g.begin_node(&d, 0, None).unwrap();
    access(&mut g, &d, a, x, COPY_SRC | AFTER, Some(range(0, 1))).unwrap();
    access(&mut g, &d, a, x, RENDER_TARGET | BEFORE, None).unwrap();
    let b = g.begin_node(&d, 1, None).unwrap();
    access(&mut g, &d, b, x, COPY_SRC, None).unwrap();
    let s = g.finalize_graph().unwrap();
    let mut entry = Transition {
        position: 0,
        node: 0,
        resource: 0,
        range: range(0, 2),
        old_state: flags(SHADER_RESOURCE),
        new_state: flags(RENDER_TARGET),
        decorators: flags(BEFORE),
    };
    let mut next = entry;
    next.position = 1;
    next.node = 1;
    next.range = range(1, 2);
    next.old_state = flags(RENDER_TARGET);
    next.new_state = flags(COPY_SRC);
    next.decorators = flags(0);
    entry.decorators = flags(BEFORE);
    // sub-resource 0 is left in the exit state, which node 1 wants
    assert_eq!(s.transitions, vec![entry, next]);
}

#[test]
fn manual_edge_against_a_hazard_is_a_cycle() {
    let d = device();
    let mut g = GraphBuilder::new();
    let r = g.declare_resource(buffer(false)).unwrap();
    let n1 = g.begin_node(&d, 1, None).unwrap();
    access(&mut g, &d, n1, r, COPY_DEST, None).unwrap();
    let n2 = g.begin_node(&d, 2, None).unwrap();
    access(&mut g, &d, n2, r, COPY_SRC, None).unwrap();
    g.declare_dependency(n2, n1).unwrap();
    assert_eq!(g.finalize_graph().err(), Some(Error::ValidationFailed));
    assert_eq!(g.state, GraphState::Invalid);
    let report = g.diagnose().unwrap();
    assert_eq!(report.kind, ReportKind::Cycle);
    assert_eq!(report.nodes, vec![0, 1]);
    assert_eq!(report.resource, None);
    // the graph cannot be finalized until it is rebuilt
    assert_eq!(g.finalize_graph().err(), Some(Error::ValidationFailed));
    assert_eq!(g.begin_node(&d, 3, None), Err(Error::InvalidOperation));
    g.reset();
    assert_eq!(g.state, GraphState::Building);
    assert!(g.finalize_graph().is_ok());
}

#[test]
fn manual_edge_reorders_independent_nodes() {
    let d = device();
    let mut g = GraphBuilder::new();
    let a = g.begin_node(&d, 1, None).unwrap();
    let b = g.begin_node(&d, 2, None).unwrap();
    let c = g.begin_node(&d, 3, None).unwrap();
    g.declare_dependency(c, a).unwrap();
    let s = g.finalize_graph().unwrap();
    assert_eq!(s.order, vec![1, 2, 0]);
    assert_eq!(s.edges, vec![Edge { from: 2, to: 0 }]);
    let _ = b;
}

#[test]
fn no_hazards_keep_declaration_order() {
    let d = device();
    let mut g = GraphBuilder::new();
    let x = g.declare_resource(buffer(false)).unwrap();
    let y = g.declare_resource(buffer(false)).unwrap();
    for i in 0..5u64 {
        let n = g.begin_node(&d, i, None).unwrap();
        access(&mut g, &d, n, x, SHADER_RESOURCE, None).unwrap();
        access(&mut g, &d, n, y, COPY_SRC, None).unwrap();
    }
    let s = g.finalize_graph().unwrap();
    assert!(s.edges.is_empty());
    assert_eq!(s.order, vec![0, 1, 2, 3, 4]);
}

#[test]
fn compiling_twice_gives_the_same_schedule() {
    let build = || {
        let d = device();
        let mut g = GraphBuilder::new();
        let x = g.declare_resource(image(4)).unwrap();
        let y = g.declare_resource(image(2)).unwrap();
        let a = g.begin_node(&d, 1, None).unwrap();
        access(&mut g, &d, a, x, RENDER_TARGET, None).unwrap();
        let b = g.begin_node(&d, 2, None).unwrap();
        access(&mut g, &d, b, x, SHADER_RESOURCE, Some(range(1, 3))).unwrap();
        access(&mut g, &d, b, y, UNORDERED_ACCESS, None).unwrap();
        let c = g.begin_node(&d, 3, None).unwrap();
        access(&mut g, &d, c, y, SHADER_RESOURCE, None).unwrap();
        g.declare_dependency(a, c).unwrap();
        g
    };
    let mut g1 = build();
    let mut g2 = build();
    let s1 = g1.finalize_graph().unwrap();
    let s2 = g2.finalize_graph().unwrap();
    assert_eq!(s1.order, s2.order);
    assert_eq!(s1.queues, s2.queues);
    assert_eq!(s1.edges, s2.edges);
    assert_eq!(s1.transitions, s2.transitions);
    assert_eq!(s1.syncs, s2.syncs);
    assert_eq!(s1.ranges, s2.ranges);
    assert_eq!(s1.slots, s2.slots);
    assert_eq!(s1.order, vec![0, 1, 2]);
    assert_eq!(
        s1.edges,
        vec![Edge { from: 0, to: 1 }, Edge { from: 1, to: 2 }, Edge { from: 0, to: 2 }]
    );
    // compiling leaves the graph as it is, and gives the same schedule again
    let s3 = g1.compile().unwrap();
    assert_eq!(s3.order, s1.order);
    assert_eq!(s3.transitions, s1.transitions);
    assert_eq!(s3.slots, s1.slots);
}

#[test]
fn transient_resources_share_slots() {
    let d = device();
    let mut g = GraphBuilder::new();
    let a = g.declare_resource(image(1)).unwrap();
    let b = g.declare_resource(image(1)).unwrap();
    let c = g.declare_resource(image(1)).unwrap();
    let imported = g.declare_resource(buffer(false)).unwrap();
    // six nodes: a lives over [0,2], b over [3,5], c over [1,4]
    let plan: [&[ResourceHandle]; 6] = [&[a], &[c], &[a], &[b], &[c], &[b]];
    for (i, used) in plan.iter().enumerate() {
        let n = g.begin_node(&d, i as u64, None).unwrap();
        for r in used.iter() {
            access(&mut g, &d, n, *r, SHADER_RESOURCE, None).unwrap();
        }
        access(&mut g, &d, n, imported, SHADER_RESOURCE, None).unwrap();
    }
    let s = g.finalize_graph().unwrap();
    assert_eq!(s.order, vec![0, 1, 2, 3, 4, 5]);
    assert_eq!(s.ranges.len(), 3);
    assert_eq!(s.ranges[0].resource, 0);
    assert_eq!((s.ranges[0].lifetime.first, s.ranges[0].lifetime.last), (0, 2));
    assert_eq!((s.ranges[1].lifetime.first, s.ranges[1].lifetime.last), (3, 5));
    assert_eq!((s.ranges[2].lifetime.first, s.ranges[2].lifetime.last), (1, 4));
    assert_eq!(s.slots, vec![0, 0, 1]);
}

#[test]
fn cross_queue_edges_get_sync_markers() {
    let mut b = DeviceBuilder::new();
    b.queues(2);
    let d = b.build().unwrap();
    let mut g = GraphBuilder::new();
    let x = g.declare_resource(buffer(false)).unwrap();
    let n0 = g.begin_node(&d, 0, Some(1)).unwrap();
    access(&mut g, &d, n0, x, COPY_DEST, None).unwrap();
    let n1 = g.begin_node(&d, 1, None).unwrap();
    access(&mut g, &d, n1, x, COPY_SRC, None).unwrap();
    let n2 = g.begin_node(&d, 2, Some(0)).unwrap();
    access(&mut g, &d, n2, x, COPY_SRC, None).unwrap();
    assert_eq!(g.begin_node(&d, 3, Some(2)), Err(Error::InvalidArguments));
    let s = g.finalize_graph().unwrap();
    assert_eq!(s.queues, vec![1, 0, 0]);
    assert_eq!(s.edges, vec![Edge { from: 0, to: 1 }, Edge { from: 0, to: 2 }]);
    assert_eq!(
        s.syncs,
        vec![
            SyncMarker { signal_node: 0, signal_queue: 1, wait_node: 1, wait_queue: 0 },
            SyncMarker { signal_node: 0, signal_queue: 1, wait_node: 2, wait_queue: 0 },
        ]
    );
}

#[test]
fn relaxed_writes_are_independent() {
    let d = device();
    let mut g = GraphBuilder::new();
    let x = g.declare_resource(buffer(false)).unwrap();
    let a = g.begin_node(&d, 0, None).unwrap();
    access(&mut g, &d, a, x, UNORDERED_ACCESS | RELAXED_ORDER, None).unwrap();
    let b = g.begin_node(&d, 1, None).unwrap();
    access(&mut g, &d, b, x, UNORDERED_ACCESS | RELAXED_ORDER, None).unwrap();
    let c = g.begin_node(&d, 2, None).unwrap();
    access(&mut g, &d, c, x, SHADER_RESOURCE | RELAXED_ORDER, None).unwrap();
    let e = g.begin_node(&d, 3, None).unwrap();
    access(&mut g, &d, e, x, UNORDERED_ACCESS, None).unwrap();
    let edges = g.all_edges();
    // the relaxed writes are independent of each other; the relaxed read
    // depends on both, and the strict write on everything before it
    assert_eq!(
        edges,
        vec![
            Edge { from: 0, to: 2 },
            Edge { from: 1, to: 2 },
            Edge { from: 0, to: 3 },
            Edge { from: 1, to: 3 },
            Edge { from: 2, to: 3 },
        ]
    );
}

#[test]
fn declare_access_reports_each_error() {
    let d = device();
    let mut g = GraphBuilder::new();
    let img = g.declare_resource(image(4)).unwrap();
    let buf = g.declare_resource(buffer(false)).unwrap();
    let n = g.begin_node(&d, 0, None).unwrap();
    let stale = NodeHandle { index: 0, generation: 7 };
    assert_eq!(access(&mut g, &d, stale, img, RENDER_TARGET, None), Err(Error::KeyNotFound));
    let missing = ResourceHandle { index: 9, generation: 0 };
    assert_eq!(access(&mut g, &d, n, missing, RENDER_TARGET, None), Err(Error::KeyNotFound));
    let no_view = Target::View(ViewHandle { index: 0, generation: 0 });
    assert_eq!(
        g.declare_access(&d, n, no_view, flags(RENDER_TARGET), stages(), None),
        Err(Error::KeyNotFound)
    );
    // a decorator alone, no access at all, accesses that exclude each other
    assert_eq!(access(&mut g, &d, n, img, CLEAR, None), Err(Error::InvalidArguments));
    assert_eq!(access(&mut g, &d, n, img, 0, None), Err(Error::InvalidArguments));
    assert_eq!(
        access(&mut g, &d, n, img, RENDER_TARGET | DEPTH_WRITE, None),
        Err(Error::InvalidArguments)
    );
    assert_eq!(
        access(&mut g, &d, n, img, COPY_SRC | COPY_DEST, None),
        Err(Error::InvalidArguments)
    );
    assert_eq!(
        access(&mut g, &d, n, img, RENDER_TARGET | BEFORE | AFTER, None),
        Err(Error::InvalidArguments)
    );
    assert_eq!(
        access(&mut g, &d, n, img, RENDER_TARGET, Some(range(2, 2))),
        Err(Error::InvalidArguments)
    );
    assert_eq!(
        g.declare_access(
            &d,
            n,
            Target::Resource(img),
            flags(RENDER_TARGET),
            ShaderStage { bits: 0x8000 },
            None
        ),
        Err(Error::InvalidArguments)
    );
    assert_eq!(
        access(&mut g, &d, n, img, RENDER_TARGET, Some(range(3, 5))),
        Err(Error::IndexOutOfBounds)
    );
    // the buffer does not support render target access; the image has no depth
    assert_eq!(access(&mut g, &d, n, buf, RENDER_TARGET, None), Err(Error::TypeMismatch));
    assert_eq!(access(&mut g, &d, n, img, DEPTH_WRITE, None), Err(Error::TypeMismatch));
    assert!(g.nodes[0].accesses.is_empty());
    access(&mut g, &d, n, img, RENDER_TARGET | CLEAR, Some(range(3, 4))).unwrap();
    assert_eq!(g.nodes[0].accesses.len(), 1);
    assert_eq!(g.nodes[0].accesses[0].range, range(3, 4));
    assert_eq!(g.nodes[0].accesses[0].stages, ShaderStage { bits: STAGE_ALL });
    g.finalize_node(n).unwrap();
    assert_eq!(access(&mut g, &d, n, img, RENDER_TARGET, None), Err(Error::CommandAlreadyFinal));
    assert_eq!(g.finalize_node(n), Err(Error::CommandAlreadyFinal));
    assert_eq!(g.remove_access(n, 0), Err(Error::CommandAlreadyFinal));
    g.finalize_graph().unwrap();
    assert_eq!(access(&mut g, &d, n, img, RENDER_TARGET, None), Err(Error::InvalidOperation));
    assert_eq!(g.finalize_graph().err(), Some(Error::InvalidOperation));
    assert_eq!(g.declare_resource(image(1)), Err(Error::InvalidOperation));
}

#[test]
fn backend_support_decides_type_mismatch() {
    let mut b = DeviceBuilder::new();
    b.format_support(Format::R8G8B8A8Unorm, SHADER_RESOURCE | COPY_SRC | COPY_DEST);
    let d = b.build().unwrap();
    let null = b.build_null().unwrap();
    assert!(d.supports(Format::R8G8B8A8Unorm, SHADER_RESOURCE));
    assert!(!d.supports(Format::R8G8B8A8Unorm, RENDER_TARGET));
    assert!(d.supports(Format::R8G8B8A8Unorm, SHADER_RESOURCE | CLEAR));
    assert!(null.supports(Format::R8G8B8A8Unorm, RENDER_TARGET));
    let mut g = GraphBuilder::new();
    let img = g.declare_resource(image(1)).unwrap();
    let n = g.begin_node(&d, 0, None).unwrap();
    assert_eq!(access(&mut g, &d, n, img, RENDER_TARGET, None), Err(Error::TypeMismatch));
    assert_eq!(access(&mut g, &null, n, img, RENDER_TARGET, None), Ok(()));
}

#[test]
fn views_resolve_to_their_range_and_format() {
    let d = device();
    let mut g = GraphBuilder::new();
    let mut desc = image(6);
    desc.format = Format::R24G8Typeless;
    let img = g.declare_resource(desc).unwrap();
    assert_eq!(
        g.declare_view(img, range(2, 7), Format::Unknown),
        Err(Error::IndexOutOfBounds)
    );
    assert_eq!(g.declare_view(img, range(3, 3), Format::Unknown), Err(Error::InvalidArguments));
    let stale = ResourceHandle { index: 0, generation: 3 };
    assert_eq!(g.declare_view(stale, range(0, 1), Format::Unknown), Err(Error::KeyNotFound));
    let depth = g.declare_view(img, range(2, 5), Format::D24UnormS8Uint).unwrap();
    let plain = g.declare_view(img, range(0, 2), Format::Unknown).unwrap();
    let n = g.begin_node(&d, 0, None).unwrap();
    let st = ShaderStage { bits: STAGE_PS };
    // the typeless resource has no depth of its own; the view gives it one
    assert_eq!(
        g.declare_access(&d, n, Target::View(plain), flags(DEPTH_WRITE), st, None),
        Err(Error::TypeMismatch)
    );
    assert_eq!(
        g.declare_access(&d, n, Target::View(depth), flags(DEPTH_WRITE), st, Some(range(1, 4))),
        Err(Error::IndexOutOfBounds)
    );
    g.declare_access(&d, n, Target::View(depth), flags(DEPTH_WRITE), st, Some(range(1, 3)))
        .unwrap();
    let a = g.nodes[0].accesses[0];
    assert_eq!(a.resource, 0);
    assert_eq!(a.range, range(3, 5));
    assert_eq!(a.format, Format::D24UnormS8Uint);
    g.declare_access(&d, n, Target::View(plain), flags(SHADER_RESOURCE), st, None).unwrap();
    assert_eq!(g.nodes[0].accesses[1].range, range(0, 2));
    assert_eq!(g.nodes[0].accesses[1].format, Format::R24G8Typeless);
}

#[test]
fn stale_handles_fail_after_reset() {
    let d = device();
    let mut g = GraphBuilder::new();
    let r = g.declare_resource(buffer(true)).unwrap();
    let n = g.begin_node(&d, 0, None).unwrap();
    g.reset();
    assert_eq!(g.generation, 1);
    let r2 = g.declare_resource(buffer(true)).unwrap();
    let n2 = g.begin_node(&d, 0, None).unwrap();
    assert_eq!((r2.index, r2.generation), (0, 1));
    assert_eq!(access(&mut g, &d, n, r2, COPY_SRC, None), Err(Error::KeyNotFound));
    assert_eq!(access(&mut g, &d, n2, r, COPY_SRC, None), Err(Error::KeyNotFound));
    assert_eq!(g.finalize_node(n), Err(Error::KeyNotFound));
    assert_eq!(g.declare_dependency(n, n2), Err(Error::KeyNotFound));
    assert_eq!(g.declare_dependency(n2, n2), Err(Error::InvalidArguments));
    assert_eq!(g.remove_access(n2, 0), Err(Error::IndexOutOfBounds));
    assert_eq!(access(&mut g, &d, n2, r2, COPY_SRC, None), Ok(()));
}

#[test]
fn resources_are_validated() {
    let mut g = GraphBuilder::new();
    let mut desc = buffer(false);
    desc.extent = 0;
    assert_eq!(g.declare_resource(desc), Err(Error::InvalidArguments));
    let mut desc = buffer(false);
    desc.usage = flags(0);
    assert_eq!(g.declare_resource(desc), Err(Error::InvalidArguments));
    let mut desc = buffer(false);
    desc.usage = flags(COPY_SRC | CLEAR);
    assert_eq!(g.declare_resource(desc), Err(Error::InvalidArguments));
    let mut desc = buffer(false);
    desc.initial_state = flags(RELAXED_ORDER);
    assert_eq!(g.declare_resource(desc), Err(Error::InvalidArguments));
    let mut desc = buffer(false);
    desc.final_state = flags(COPY_SRC | CLEAR);
    assert_eq!(g.declare_resource(desc), Err(Error::InvalidArguments));
    assert_eq!(
        g.declare_resource(buffer(false)),
        Ok(ResourceHandle { index: 0, generation: 0 })
    );
    assert_eq!(
        g.declare_resource(buffer(true)),
        Ok(ResourceHandle { index: 1, generation: 0 })
    );
}
