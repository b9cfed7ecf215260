//! The import of nodes that were described elsewhere: each is declared as
//! the builder's own operations would declare it, and held to the same
//! rules.

use vstd::prelude::*;
use crate::access::{AccessFlags, ShaderStage};
use crate::device::Device;
use crate::graph::{
    begin_node_spec, declare_access_spec, finalize_node_spec, graph_wf, GraphBuilder, GraphView,
};
use crate::model::{node_views, NodeHandle, SubresourceRange, Target};
use crate::result::Error;

verus! {

/// The description of one access of a node.
#[derive(Debug, Clone, Copy, PartialEq, Eq, Structural)]
pub struct AccessDesc {
    pub target: Target,
    pub flags: AccessFlags,
    pub stages: ShaderStage,
    pub range: Option<SubresourceRange>,
}

/// The description of a node with its accesses.
#[derive(Debug)]
pub struct NodeDesc {
    pub tag: u64,
    pub queue: Option<u32>,
    pub accesses: Vec<AccessDesc>,
}

/// What declaring the first `upto` accesses on a node returns and what it
/// makes of the graph: the first failure, and the graph as the accesses
/// before it left it.
pub open spec fn declare_all_spec(
    g: GraphView,
    device: Device,
    node: NodeHandle,
    accesses: Seq<AccessDesc>,
    upto: nat,
) -> (Result<(), Error>, GraphView)
    decreases upto,
{
    if upto == 0 {
        (Ok(()), g)
    } else {
        let (r, h) = declare_all_spec(g, device, node, accesses, (upto - 1) as nat);
        if r.is_err() {
            (r, h)
        } else {
            let a = accesses[upto - 1];
            declare_access_spec(h, device, node, a.target, a.flags, a.stages, a.range)
        }
    }
}

/// What importing a node returns and what it makes of the graph: the node
/// is begun, its accesses are declared in their order, and it is closed; the
/// first of these steps that fails gives its error, and the graph is as
/// before.
pub open spec fn import_node_spec(g: GraphView, device: Device, tag: u64, queue: Option<u32>, accesses: Seq<AccessDesc>)
    -> (Result<NodeHandle, Error>, GraphView) {
    let (begun, g0) = begin_node_spec(g, device.queue_count, tag, queue);
    match begun {
        Err(e) => (Err(e), g),
        Ok(node) => {
            let (declared, g1) = declare_all_spec(g0, device, node, accesses, accesses.len());
            match declared {
                Err(e) => (Err(e), g),
                Ok(_) => {
                    let (closed, g2) = finalize_node_spec(g1, node);
                    match closed {
                        Err(e) => (Err(e), g),
                        Ok(_) => (Ok(node), g2),
                    }
                },
            }
        },
    }
}

/// The graph `h` is graph `g` with one more node.
pub open spec fn one_more_node(g: GraphView, h: GraphView) -> bool {
    &&& h.nodes.len() == g.nodes.len() + 1
    &&& h.nodes.take(g.nodes.len() as int) == g.nodes
    &&& h == (GraphView { nodes: h.nodes, ..g })
}

proof fn lemma_declare_keeps_others(
    g: GraphView,
    h: GraphView,
    device: Device,
    node: NodeHandle,
    a: AccessDesc,
)
    requires
        one_more_node(g, h),
        node.index == g.nodes.len(),
    ensures
        one_more_node(g, declare_access_spec(h, device, node, a.target, a.flags, a.stages, a.range).1),
{
    let k = declare_access_spec(h, device, node, a.target, a.flags, a.stages, a.range).1;
    assert(k.nodes.take(g.nodes.len() as int) =~= g.nodes) by {
        assert forall|i: int| 0 <= i < g.nodes.len() implies k.nodes[i] == g.nodes[i] by {
            assert(h.nodes.take(g.nodes.len() as int)[i] == h.nodes[i]);
        }
    }
}

impl GraphBuilder {
    /// Imports a node: begins it, declares its accesses in their order and
    /// closes it. Where one of these steps fails, its error is returned and
    /// the graph is left as it was.
    pub fn import_node(&mut self, device: &Device, desc: &NodeDesc) -> (r: Result<NodeHandle, Error>)
        requires
            old(self).wf(),
            device.wf(),
        ensures
            final(self).wf(),
            (r, final(self)@) == import_node_spec(
                old(self)@,
                *device,
                desc.tag,
                desc.queue,
                desc.accesses@,
            ),
    {
        let ghost g = self@;
        let node = match self.begin_node(device, desc.tag, desc.queue) {
            Ok(node) => node,
            Err(e) => {
                return Err(e);
            },
        };
        let ghost g0 = self@;
        proof {
            assert(g0.nodes.take(g.nodes.len() as int) =~= g.nodes);
        }
        let mut failed: Option<Error> = None;
        let mut i: usize = 0;
        while i < desc.accesses.len() && failed.is_none()
            invariant
                i <= desc.accesses.len(),
                self.wf(),
                device.wf(),
                graph_wf(g),
                node.index == g.nodes.len(),
                one_more_node(g, self@),
                failed.is_none() ==> declare_all_spec(g0, *device, node, desc.accesses@, i as nat)
                    == (Ok::<(), Error>(()), self@),
                failed.is_some() ==> declare_all_spec(
                    g0,
                    *device,
                    node,
                    desc.accesses@,
                    desc.accesses@.len(),
                ).0 == Err::<(), Error>(failed.unwrap()),
            decreases desc.accesses.len() - i + if failed.is_none() { 1nat } else { 0nat },
        {
            let a = desc.accesses[i];
            let ghost before = self@;
            match self.declare_access(device, node, a.target, a.flags, a.stages, a.range) {
                Ok(_) => {
                    i += 1;
                },
                Err(e) => {
                    proof {
                        lemma_failure_stays(g0, *device, node, desc.accesses@, (i + 1) as nat);
                    }
                    failed = Some(e);
                },
            }
            proof {
                lemma_declare_keeps_others(g, before, *device, node, a);
            }
        }
        let closed = match failed {
            Some(e) => Err(e),
            None => self.finalize_node(node),
        };
        match closed {
            Ok(_) => Ok(node),
            Err(e) => {
                let ghost last = self@;
                self.nodes.pop();
                proof {
                    assert(node_views(self.nodes@) =~= last.nodes.take(g.nodes.len() as int));
                    assert(self@.nodes == g.nodes);
                }
                Err(e)
            },
        }
    }
}

proof fn lemma_failure_stays(
    g: GraphView,
    device: Device,
    node: NodeHandle,
    accesses: Seq<AccessDesc>,
    upto: nat,
)
    requires
        0 < upto <= accesses.len(),
        declare_all_spec(g, device, node, accesses, upto).0.is_err(),
    ensures
        declare_all_spec(g, device, node, accesses, accesses.len()) == declare_all_spec(
            g,
            device,
            node,
            accesses,
            upto,
        ),
    decreases accesses.len() - upto,
{
    if upto < accesses.len() {
        lemma_failure_stays(g, device, node, accesses, upto + 1);
    }
}

} // verus!
