use rps::access::{
    AccessFlags, ShaderStage, ALL_ACCESS_MASK, COPY_DEST, COPY_SRC, RENDER_TARGET, SHADER_RESOURCE,
    STAGE_CS,
};
use rps::compile::SCHEDULE_VERSION;
use rps::device::DeviceBuilder;
use rps::format::Format;
use rps::graph::GraphBuilder;
use rps::import::{AccessDesc, NodeDesc};
use rps::model::{NodeHandle, ResourceDesc, ResourceHandle, SubresourceRange, Target};
use rps::result::Error;

fn image(extent: u32) -> ResourceDesc {
    ResourceDesc {
        format: Format::R16G16B16A16Float,
        extent,
        transient: true,
        usage: AccessFlags { bits: ALL_ACCESS_MASK },
        initial_state: AccessFlags { bits: 0 },
        final_state: AccessFlags { bits: 0 },
    }
}

fn on(r: ResourceHandle, bits: i32, range: Option<(u32, u32)>) -> AccessDesc {
    AccessDesc {
        target: Target::Resource(r),
        flags: AccessFlags { bits },
        stages: ShaderStage { bits: STAGE_CS },
        range: range.map(|(start, end)| SubresourceRange { start, end }),
    }
}

#[test]
fn imported_nodes_are_declared_and_closed() {
    let d = DeviceBuilder::new().build().unwrap();
    let mut g = GraphBuilder::new();
    let x = g.declare_resource(image(2)).unwrap();
    let a = NodeDesc { tag: 7, queue: None, accesses: vec![on(x, COPY_DEST, None)] };
    let b = NodeDesc {
        tag: 8,
        queue: Some(0),
        accesses: vec![on(x, COPY_SRC, Some((0, 1))), on(x, SHADER_RESOURCE, Some((1, 2)))],
    };
    assert_eq!(g.import_node(&d, &a), Ok(NodeHandle { index: 0, generation: 0 }));
    assert_eq!(g.import_node(&d, &b), Ok(NodeHandle { index: 1, generation: 0 }));
    assert_eq!(g.nodes.len(), 2);
    assert!(g.nodes[0].finalized && g.nodes[1].finalized);
    assert_eq!(g.nodes[1].tag, 8);
    assert_eq!(g.nodes[1].queue, Some(0));
    assert_eq!(g.nodes[1].accesses.len(), 2);
    assert_eq!(g.nodes[1].accesses[1].range, SubresourceRange { start: 1, end: 2 });
    let s = g.finalize_graph().unwrap();
    assert_eq!(s.version, SCHEDULE_VERSION);
    assert_eq!(s.order, vec![0, 1]);
    assert_eq!(s.transitions.len(), 3);
}

#[test]
fn a_refused_import_leaves_the_graph_as_it_was() {
    let d = DeviceBuilder::new().build().unwrap();
    let mut g = GraphBuilder::new();
    let x = g.declare_resource(image(4)).unwrap();
    let good = NodeDesc { tag: 1, queue: None, accesses: vec![on(x, RENDER_TARGET, None)] };
    g.import_node(&d, &good).unwrap();
    // the second access is out of bounds
    let beyond = NodeDesc {
        tag: 2,
        queue: None,
        accesses: vec![on(x, COPY_SRC, Some((0, 1))), on(x, COPY_SRC, Some((3, 5)))],
    };
    assert_eq!(g.import_node(&d, &beyond), Err(Error::IndexOutOfBounds));
    assert_eq!(g.nodes.len(), 1);
    // the first failure is the one reported
    let twice = NodeDesc {
        tag: 2,
        queue: None,
        accesses: vec![on(x, 0, None), on(x, COPY_SRC, Some((3, 5)))],
    };
    assert_eq!(g.import_node(&d, &twice), Err(Error::InvalidArguments));
    // the accesses overlap exclusively: the node cannot be closed
    let clash = NodeDesc {
        tag: 3,
        queue: None,
        accesses: vec![on(x, RENDER_TARGET, Some((0, 2))), on(x, SHADER_RESOURCE, Some((1, 3)))],
    };
    assert_eq!(g.import_node(&d, &clash), Err(Error::RangeOverlapping));
    let queue = NodeDesc { tag: 4, queue: Some(1), accesses: vec![] };
    assert_eq!(g.import_node(&d, &queue), Err(Error::InvalidArguments));
    assert_eq!(g.nodes.len(), 1);
    assert_eq!(g.nodes[0].accesses.len(), 1);
    // the next node gets the handle that the refused ones would have had
    let empty = NodeDesc { tag: 5, queue: None, accesses: vec![] };
    assert_eq!(g.import_node(&d, &empty), Ok(NodeHandle { index: 1, generation: 0 }));
    g.finalize_graph().unwrap();
    assert_eq!(g.import_node(&d, &empty), Err(Error::InvalidOperation));
}

#[test]
fn queues_keep_the_order_of_the_schedule() {
    let mut b = DeviceBuilder::new();
    b.queues(3);
    let d = b.build().unwrap();
    let mut g = GraphBuilder::new();
    for (tag, queue) in [Some(2), None, Some(1), Some(2), Some(0), Some(1)].iter().enumerate() {
        g.begin_node(&d, tag as u64, *queue).unwrap();
    }
    let last = NodeHandle { index: 5, generation: 0 };
    let first = NodeHandle { index: 0, generation: 0 };
    g.declare_dependency(last, first).unwrap();
    let s = g.finalize_graph().unwrap();
    assert_eq!(s.order, vec![1, 2, 3, 4, 5, 0]);
    assert_eq!(s.queues, vec![0, 1, 2, 0, 1, 2]);
    assert_eq!(s.nodes_on_queue(0), vec![1, 4]);
    assert_eq!(s.nodes_on_queue(1), vec![2, 5]);
    assert_eq!(s.nodes_on_queue(2), vec![3, 0]);
    assert!(s.nodes_on_queue(3).is_empty());
    assert_eq!(s.syncs.len(), 1);
    assert_eq!(s.syncs[0].signal_node, 5);
    assert_eq!(s.syncs[0].wait_node, 0);
}
