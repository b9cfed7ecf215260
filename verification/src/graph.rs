//! The graph builder: takes the declarations of resources, nodes and
//! accesses one by one, and refuses those that are not in order.

use vstd::prelude::*;
use crate::access::{bits_valid, AccessFlags, ShaderStage, ALL_ACCESS_MASK, DEPTH, STAGE_ALL, STENCIL};
use crate::device::Device;
use crate::format::{format_has_depth, format_has_stencil, Format};
use crate::model::{
    node_views, Access, Node, NodeHandle, NodeView, ResourceDesc, ResourceHandle, SubresourceRange,
    Target, ViewDesc, ViewHandle,
};
use crate::analyze::{first_self_conflict, self_conflict};
use crate::result::Error;
use crate::schedule::{edges_valid, Edge};

verus! {

/// Where a graph stands between its creation and its compilation.
#[derive(Debug, Clone, Copy, PartialEq, Eq, Structural)]
pub enum GraphState {
    /// The graph takes declarations.
    Building,
    /// The graph is compiled and takes no more declarations.
    Finalized,
    /// The compilation failed: the graph must be rebuilt.
    Invalid,
}

/// A graph in the making.
#[derive(Debug)]
pub struct GraphBuilder {
    pub generation: u32,
    pub state: GraphState,
    pub resources: Vec<ResourceDesc>,
    pub views: Vec<ViewDesc>,
    pub nodes: Vec<Node>,
    pub edges: Vec<Edge>,
}

/// A graph as a plain value.
pub struct GraphView {
    /// The generation for which the handles of the graph are valid.
    pub generation: u32,
    pub state: GraphState,
    pub resources: Seq<ResourceDesc>,
    pub views: Seq<ViewDesc>,
    pub nodes: Seq<NodeView>,
    /// The ordering edges that were declared by hand.
    pub edges: Seq<Edge>,
}

impl View for GraphBuilder {
    type V = GraphView;

    open spec fn view(&self) -> GraphView {
        GraphView {
            generation: self.generation,
            state: self.state,
            resources: self.resources@,
            views: self.views@,
            nodes: node_views(self.nodes@),
            edges: self.edges@,
        }
    }
}

/// The accesses of every node of the graph.
pub open spec fn lists_of(g: GraphView) -> Seq<Seq<Access>> {
    Seq::new(g.nodes.len(), |i: int| g.nodes[i].accesses)
}

/// The access is on a resource of the graph, on a range of it that is not
/// empty, and well formed.
pub open spec fn access_wf(g: GraphView, a: Access) -> bool {
    &&& a.resource < g.resources.len()
    &&& a.range.start < a.range.end <= g.resources[a.resource as int].extent
    &&& bits_valid(a.flags@)
}

/// The graph is well formed: its resources can be declared, its views and
/// accesses lie within their resources, and its edges join nodes that exist.
pub open spec fn graph_wf(g: GraphView) -> bool {
    &&& g.resources.len() <= u32::MAX
    &&& g.views.len() <= u32::MAX
    &&& g.nodes.len() <= u32::MAX
    &&& forall|r: int| 0 <= r < g.resources.len() ==> desc_valid(#[trigger] g.resources[r])
    &&& forall|v: int|
        0 <= v < g.views.len() ==> {
            let w = #[trigger] g.views[v];
            w.resource < g.resources.len() && w.range.start < w.range.end
                <= g.resources[w.resource as int].extent
        }
    &&& forall|n: int, i: int|
        0 <= n < g.nodes.len() && 0 <= i < g.nodes[n].accesses.len() ==> access_wf(
            g,
            #[trigger] g.nodes[n].accesses[i],
        )
    &&& edges_valid(g.nodes.len(), g.edges)
}

/// The description names a resource that can be declared: it has at least
/// one sub-resource, supports at least one basic access and no decorator,
/// and enters and leaves the graph in states made of basic accesses.
pub open spec fn desc_valid(desc: ResourceDesc) -> bool {
    &&& desc.extent > 0
    &&& desc.usage@ != 0
    &&& desc.usage@ & !ALL_ACCESS_MASK == 0
    &&& desc.initial_state@ & !ALL_ACCESS_MASK == 0
    &&& desc.final_state@ & !ALL_ACCESS_MASK == 0
}

/// The handle names a resource of the graph.
pub open spec fn resource_valid(g: GraphView, h: ResourceHandle) -> bool {
    h.generation == g.generation && h.index < g.resources.len()
}

/// The handle names a view of the graph.
pub open spec fn view_valid(g: GraphView, h: ViewHandle) -> bool {
    h.generation == g.generation && h.index < g.views.len()
}

/// The handle names a node of the graph.
pub open spec fn node_valid(g: GraphView, h: NodeHandle) -> bool {
    h.generation == g.generation && h.index < g.nodes.len()
}

/// What declaring a resource returns and what it makes of the graph.
pub open spec fn declare_resource_spec(g: GraphView, desc: ResourceDesc) -> (
    Result<ResourceHandle, Error>,
    GraphView,
) {
    if g.state != GraphState::Building {
        (Err(Error::InvalidOperation), g)
    } else if !desc_valid(desc) {
        (Err(Error::InvalidArguments), g)
    } else if g.resources.len() >= u32::MAX {
        (Err(Error::OutOfMemory), g)
    } else {
        (
            Ok(ResourceHandle { index: g.resources.len() as u32, generation: g.generation }),
            GraphView { resources: g.resources.push(desc), ..g },
        )
    }
}

/// What declaring a view returns and what it makes of the graph.
pub open spec fn declare_view_spec(
    g: GraphView,
    resource: ResourceHandle,
    range: SubresourceRange,
    format: Format,
) -> (Result<ViewHandle, Error>, GraphView) {
    if g.state != GraphState::Building {
        (Err(Error::InvalidOperation), g)
    } else if !resource_valid(g, resource) {
        (Err(Error::KeyNotFound), g)
    } else if range.start >= range.end {
        (Err(Error::InvalidArguments), g)
    } else if range.end > g.resources[resource.index as int].extent {
        (Err(Error::IndexOutOfBounds), g)
    } else if g.views.len() >= u32::MAX {
        (Err(Error::OutOfMemory), g)
    } else {
        (
            Ok(ViewHandle { index: g.views.len() as u32, generation: g.generation }),
            GraphView {
                views: g.views.push(ViewDesc { resource: resource.index as usize, range, format }),
                ..g
            },
        )
    }
}

/// What beginning a node returns and what it makes of the graph.
pub open spec fn begin_node_spec(g: GraphView, queue_count: u32, tag: u64, queue: Option<u32>) -> (
    Result<NodeHandle, Error>,
    GraphView,
) {
    if g.state != GraphState::Building {
        (Err(Error::InvalidOperation), g)
    } else if queue.is_some() && queue.unwrap() >= queue_count {
        (Err(Error::InvalidArguments), g)
    } else if g.nodes.len() >= u32::MAX {
        (Err(Error::OutOfMemory), g)
    } else {
        (
            Ok(NodeHandle { index: g.nodes.len() as u32, generation: g.generation }),
            GraphView {
                nodes: g.nodes.push(
                    NodeView { tag, queue, accesses: Seq::empty(), finalized: false },
                ),
                ..g
            },
        )
    }
}

/// A resource, a range of it and a format: what a target stands for.
pub struct Resolved {
    pub resource: usize,
    pub range: SubresourceRange,
    pub format: Format,
}

/// What the target stands for: a resource with all its sub-resources, or
/// the resource and range of a view, under the format of the view where it
/// has one. `None` where the handle is not valid.
pub open spec fn resolve_target(g: GraphView, target: Target) -> Option<Resolved> {
    match target {
        Target::Resource(h) => if resource_valid(g, h) {
            let d = g.resources[h.index as int];
            Some(
                Resolved {
                    resource: h.index as usize,
                    range: SubresourceRange { start: 0, end: d.extent },
                    format: d.format,
                },
            )
        } else {
            None
        },
        Target::View(h) => if view_valid(g, h) {
            let w = g.views[h.index as int];
            Some(
                Resolved {
                    resource: w.resource,
                    range: w.range,
                    format: if w.format == Format::Unknown {
                        g.resources[w.resource as int].format
                    } else {
                        w.format
                    },
                },
            )
        } else {
            None
        },
    }
}

/// The sub-resources that an access is on: all those of the target, or the
/// given range counted from the first of them.
pub open spec fn absolute_range(base: SubresourceRange, sub: Option<SubresourceRange>)
    -> SubresourceRange {
    match sub {
        None => base,
        Some(s) => SubresourceRange {
            start: (base.start + s.start) as u32,
            end: (base.start + s.end) as u32,
        },
    }
}

/// The resource, the format and the backend allow the access.
pub open spec fn access_supported(usage: i32, supported: i32, format: Format, flags: i32) -> bool {
    &&& flags & ALL_ACCESS_MASK & !usage == 0
    &&& flags & ALL_ACCESS_MASK & !supported == 0
    &&& (flags & DEPTH != 0 ==> format_has_depth(format))
    &&& (flags & STENCIL != 0 ==> format_has_stencil(format))
}

/// The graph with one more access on node `n`.
pub open spec fn with_access(g: GraphView, n: int, a: Access) -> GraphView {
    GraphView {
        nodes: g.nodes.update(n, NodeView { accesses: g.nodes[n].accesses.push(a), ..g.nodes[n] }),
        ..g
    }
}

/// What declaring an access returns and what it makes of the graph.
pub open spec fn declare_access_spec(
    g: GraphView,
    device: Device,
    node: NodeHandle,
    target: Target,
    flags: AccessFlags,
    stages: ShaderStage,
    sub: Option<SubresourceRange>,
) -> (Result<(), Error>, GraphView) {
    if g.state != GraphState::Building {
        (Err(Error::InvalidOperation), g)
    } else if !node_valid(g, node) {
        (Err(Error::KeyNotFound), g)
    } else if g.nodes[node.index as int].finalized {
        (Err(Error::CommandAlreadyFinal), g)
    } else if resolve_target(g, target).is_none() {
        (Err(Error::KeyNotFound), g)
    } else {
        let t = resolve_target(g, target).unwrap();
        if !bits_valid(flags@) || stages@ & !STAGE_ALL != 0 || (sub.is_some() && sub.unwrap().start
            >= sub.unwrap().end) {
            (Err(Error::InvalidArguments), g)
        } else if sub.is_some() && sub.unwrap().end > t.range.end - t.range.start {
            (Err(Error::IndexOutOfBounds), g)
        } else if !access_supported(
            g.resources[t.resource as int].usage@,
            device.supported(t.format),
            t.format,
            flags@,
        ) {
            (Err(Error::TypeMismatch), g)
        } else {
            (
                Ok(()),
                with_access(
                    g,
                    node.index as int,
                    Access {
                        resource: t.resource,
                        range: absolute_range(t.range, sub),
                        format: t.format,
                        flags,
                        stages,
                    },
                ),
            )
        }
    }
}

/// What removing an access returns and what it makes of the graph.
pub open spec fn remove_access_spec(g: GraphView, node: NodeHandle, index: usize) -> (
    Result<(), Error>,
    GraphView,
) {
    if g.state != GraphState::Building {
        (Err(Error::InvalidOperation), g)
    } else if !node_valid(g, node) {
        (Err(Error::KeyNotFound), g)
    } else if g.nodes[node.index as int].finalized {
        (Err(Error::CommandAlreadyFinal), g)
    } else if index >= g.nodes[node.index as int].accesses.len() {
        (Err(Error::IndexOutOfBounds), g)
    } else {
        let n = g.nodes[node.index as int];
        (
            Ok(()),
            GraphView {
                nodes: g.nodes.update(
                    node.index as int,
                    NodeView { accesses: n.accesses.remove(index as int), ..n },
                ),
                ..g
            },
        )
    }
}

/// What declaring an ordering edge returns and what it makes of the graph.
pub open spec fn declare_dependency_spec(g: GraphView, before: NodeHandle, after: NodeHandle) -> (
    Result<(), Error>,
    GraphView,
) {
    if g.state != GraphState::Building {
        (Err(Error::InvalidOperation), g)
    } else if !node_valid(g, before) || !node_valid(g, after) {
        (Err(Error::KeyNotFound), g)
    } else if before.index == after.index {
        (Err(Error::InvalidArguments), g)
    } else {
        (
            Ok(()),
            GraphView {
                edges: g.edges.push(
                    Edge { from: before.index as usize, to: after.index as usize },
                ),
                ..g
            },
        )
    }
}

/// What closing a node returns and what it makes of the graph.
pub open spec fn finalize_node_spec(g: GraphView, node: NodeHandle) -> (
    Result<(), Error>,
    GraphView,
) {
    if g.state != GraphState::Building {
        (Err(Error::InvalidOperation), g)
    } else if !node_valid(g, node) {
        (Err(Error::KeyNotFound), g)
    } else if g.nodes[node.index as int].finalized {
        (Err(Error::CommandAlreadyFinal), g)
    } else if self_conflict(g.nodes[node.index as int].accesses) {
        (Err(Error::RangeOverlapping), g)
    } else {
        (
            Ok(()),
            GraphView {
                nodes: g.nodes.update(
                    node.index as int,
                    NodeView { finalized: true, ..g.nodes[node.index as int] },
                ),
                ..g
            },
        )
    }
}

impl GraphBuilder {
    /// The graph is well formed.
    pub open spec fn wf(&self) -> bool {
        graph_wf(self@)
    }

    /// An empty graph.
    pub fn new() -> (g: GraphBuilder)
        ensures
            g.wf(),
            g@ == (GraphView {
                generation: 0,
                state: GraphState::Building,
                resources: Seq::empty(),
                views: Seq::empty(),
                nodes: Seq::empty(),
                edges: Seq::empty(),
            }),
    {
        let g = GraphBuilder {
            generation: 0,
            state: GraphState::Building,
            resources: Vec::new(),
            views: Vec::new(),
            nodes: Vec::new(),
            edges: Vec::new(),
        };
        proof {
            assert(g@.nodes =~= Seq::empty());
        }
        g
    }

    /// Tears the graph down and starts a new one: every declaration is
    /// dropped, and the handles given out so far are no longer valid.
    pub fn reset(&mut self)
        ensures
            final(self).wf(),
            final(self)@ == (GraphView {
                generation: if old(self).generation == u32::MAX {
                    0
                } else {
                    (old(self).generation + 1) as u32
                },
                state: GraphState::Building,
                resources: Seq::empty(),
                views: Seq::empty(),
                nodes: Seq::empty(),
                edges: Seq::empty(),
            }),
    {
        self.generation = if self.generation == u32::MAX {
            0
        } else {
            self.generation + 1
        };
        self.state = GraphState::Building;
        self.resources = Vec::new();
        self.views = Vec::new();
        self.nodes = Vec::new();
        self.edges = Vec::new();
        proof {
            assert(self@.nodes =~= Seq::empty());
        }
    }

    /// Declares a resource.
    pub fn declare_resource(&mut self, desc: ResourceDesc) -> (r: Result<ResourceHandle, Error>)
        requires
            old(self).wf(),
        ensures
            final(self).wf(),
            (r, final(self)@) == declare_resource_spec(old(self)@, desc),
    {
        if self.state != GraphState::Building {
            return Err(Error::InvalidOperation);
        }
        let usage = desc.usage.bits();
        if desc.extent == 0 || usage == 0 || usage & !ALL_ACCESS_MASK != 0
            || desc.initial_state.bits() & !ALL_ACCESS_MASK != 0 || desc.final_state.bits()
            & !ALL_ACCESS_MASK != 0 {
            return Err(Error::InvalidArguments);
        }
        if self.resources.len() >= u32::MAX as usize {
            return Err(Error::OutOfMemory);
        }
        let index = self.resources.len() as u32;
        self.resources.push(desc);
        proof {
            assert(self@.nodes =~= old(self)@.nodes);
        }
        Ok(ResourceHandle { index, generation: self.generation })
    }

    /// Declares a view of a resource.
    pub fn declare_view(&mut self, resource: ResourceHandle, range: SubresourceRange, format: Format)
        -> (r: Result<ViewHandle, Error>)
        requires
            old(self).wf(),
        ensures
            final(self).wf(),
            (r, final(self)@) == declare_view_spec(old(self)@, resource, range, format),
    {
        if self.state != GraphState::Building {
            return Err(Error::InvalidOperation);
        }
        if resource.generation != self.generation || resource.index as usize
            >= self.resources.len() {
            return Err(Error::KeyNotFound);
        }
        if range.start >= range.end {
            return Err(Error::InvalidArguments);
        }
        if range.end > self.resources[resource.index as usize].extent {
            return Err(Error::IndexOutOfBounds);
        }
        if self.views.len() >= u32::MAX as usize {
            return Err(Error::OutOfMemory);
        }
        let index = self.views.len() as u32;
        self.views.push(ViewDesc { resource: resource.index as usize, range, format });
        proof {
            assert(self@.nodes =~= old(self)@.nodes);
        }
        Ok(ViewHandle { index, generation: self.generation })
    }

    /// Begins a node with the given tag, on the given queue if one is named.
    pub fn begin_node(&mut self, device: &Device, tag: u64, queue: Option<u32>) -> (r: Result<
        NodeHandle,
        Error,
    >)
        requires
            old(self).wf(),
        ensures
            final(self).wf(),
            (r, final(self)@) == begin_node_spec(old(self)@, device.queue_count, tag, queue),
    {
        if self.state != GraphState::Building {
            return Err(Error::InvalidOperation);
        }
        match queue {
            Some(q) => {
                if q >= device.queue_count {
                    return Err(Error::InvalidArguments);
                }
            },
            None => {},
        }
        if self.nodes.len() >= u32::MAX as usize {
            return Err(Error::OutOfMemory);
        }
        let index = self.nodes.len() as u32;
        self.nodes.push(Node { tag, queue, accesses: Vec::new(), finalized: false });
        proof {
            let g = old(self)@;
            assert(self@.nodes =~= g.nodes.push(
                NodeView { tag, queue, accesses: Seq::empty(), finalized: false },
            ));
        }
        Ok(NodeHandle { index, generation: self.generation })
    }

    /// What the target stands for, if its handle is valid.
    fn resolve(&self, target: Target) -> (r: Option<(usize, SubresourceRange, Format)>)
        requires
            self.wf(),
        ensures
            r.is_some() == resolve_target(self@, target).is_some(),
            r.is_some() ==> {
                let t = resolve_target(self@, target).unwrap();
                r.unwrap() == (t.resource, t.range, t.format)
            },
    {
        match target {
            Target::Resource(h) => {
                if h.generation != self.generation || h.index as usize >= self.resources.len() {
                    return None;
                }
                let d = &self.resources[h.index as usize];
                Some((h.index as usize, SubresourceRange { start: 0, end: d.extent }, d.format))
            },
            Target::View(h) => {
                if h.generation != self.generation || h.index as usize >= self.views.len() {
                    return None;
                }
                let w = &self.views[h.index as usize];
                let format = match w.format {
                    Format::Unknown => self.resources[w.resource].format,
                    f => f,
                };
                Some((w.resource, w.range, format))
            },
        }
    }

    /// Declares an access of a node: on a whole resource or view, or on the
    /// given range of it, counted from its first sub-resource.
    pub fn declare_access(
        &mut self,
        device: &Device,
        node: NodeHandle,
        target: Target,
        flags: AccessFlags,
        stages: ShaderStage,
        sub: Option<SubresourceRange>,
    ) -> (r: Result<(), Error>)
        requires
            old(self).wf(),
            device.wf(),
        ensures
            final(self).wf(),
            (r, final(self)@) == declare_access_spec(
                old(self)@,
                *device,
                node,
                target,
                flags,
                stages,
                sub,
            ),
    {
        if self.state != GraphState::Building {
            return Err(Error::InvalidOperation);
        }
        if node.generation != self.generation || node.index as usize >= self.nodes.len() {
            return Err(Error::KeyNotFound);
        }
        let n = node.index as usize;
        if self.nodes[n].finalized {
            return Err(Error::CommandAlreadyFinal);
        }
        let (resource, base, format) = match self.resolve(target) {
            Some(t) => t,
            None => {
                return Err(Error::KeyNotFound);
            },
        };
        if !flags.is_valid() || stages.bits() & !STAGE_ALL != 0 {
            return Err(Error::InvalidArguments);
        }
        let range = match sub {
            None => base,
            Some(s) => {
                if s.start >= s.end {
                    return Err(Error::InvalidArguments);
                }
                if s.end > base.end - base.start {
                    return Err(Error::IndexOutOfBounds);
                }
                SubresourceRange { start: base.start + s.start, end: base.start + s.end }
            },
        };
        let bits = flags.bits();
        let usage = self.resources[resource].usage.bits();
        if bits & ALL_ACCESS_MASK & !usage != 0 || !device.supports(format, bits) || (bits & DEPTH
            != 0 && !format.has_depth()) || (bits & STENCIL != 0 && !format.has_stencil()) {
            return Err(Error::TypeMismatch);
        }
        let a = Access { resource, range, format, flags, stages };
        self.nodes[n].accesses.push(a);
        proof {
            let g = old(self)@;
            let h = with_access(g, n as int, a);
            assert(self@.nodes =~= h.nodes);
            assert(access_wf(g, a));
            assert forall|m: int, i: int|
                0 <= m < h.nodes.len() && 0 <= i < h.nodes[m].accesses.len() implies access_wf(
                h,
                #[trigger] h.nodes[m].accesses[i],
            ) by {
                if m == n && i == g.nodes[m].accesses.len() {
                } else {
                    assert(access_wf(g, g.nodes[m].accesses[i]));
                }
            }
        }
        Ok(())
    }

    /// Removes an access from a node that is not closed yet.
    pub fn remove_access(&mut self, node: NodeHandle, index: usize) -> (r: Result<(), Error>)
        requires
            old(self).wf(),
        ensures
            final(self).wf(),
            (r, final(self)@) == remove_access_spec(old(self)@, node, index),
    {
        if self.state != GraphState::Building {
            return Err(Error::InvalidOperation);
        }
        if node.generation != self.generation || node.index as usize >= self.nodes.len() {
            return Err(Error::KeyNotFound);
        }
        let n = node.index as usize;
        if self.nodes[n].finalized {
            return Err(Error::CommandAlreadyFinal);
        }
        if index >= self.nodes[n].accesses.len() {
            return Err(Error::IndexOutOfBounds);
        }
        self.nodes[n].accesses.remove(index);
        proof {
            let g = old(self)@;
            let m = g.nodes[n as int];
            assert(self@.nodes =~= g.nodes.update(
                n as int,
                NodeView { accesses: m.accesses.remove(index as int), ..m },
            ));
        }
        Ok(())
    }

    /// Declares by hand that node `before` must complete before node `after`
    /// executes.
    pub fn declare_dependency(&mut self, before: NodeHandle, after: NodeHandle) -> (r: Result<
        (),
        Error,
    >)
        requires
            old(self).wf(),
        ensures
            final(self).wf(),
            (r, final(self)@) == declare_dependency_spec(old(self)@, before, after),
    {
        if self.state != GraphState::Building {
            return Err(Error::InvalidOperation);
        }
        if before.generation != self.generation || before.index as usize >= self.nodes.len()
            || after.generation != self.generation || after.index as usize >= self.nodes.len() {
            return Err(Error::KeyNotFound);
        }
        if before.index == after.index {
            return Err(Error::InvalidArguments);
        }
        self.edges.push(Edge { from: before.index as usize, to: after.index as usize });
        proof {
            assert(self@.nodes =~= old(self)@.nodes);
        }
        Ok(())
    }

    /// Closes a node. Fails with `RangeOverlapping`, and leaves the node
    /// open, where two of its accesses claim a common sub-resource and one
    /// of the claims is exclusive.
    pub fn finalize_node(&mut self, node: NodeHandle) -> (r: Result<(), Error>)
        requires
            old(self).wf(),
        ensures
            final(self).wf(),
            (r, final(self)@) == finalize_node_spec(old(self)@, node),
    {
        if self.state != GraphState::Building {
            return Err(Error::InvalidOperation);
        }
        if node.generation != self.generation || node.index as usize >= self.nodes.len() {
            return Err(Error::KeyNotFound);
        }
        let n = node.index as usize;
        if self.nodes[n].finalized {
            return Err(Error::CommandAlreadyFinal);
        }
        if first_self_conflict(&self.nodes[n].accesses).is_some() {
            return Err(Error::RangeOverlapping);
        }
        self.nodes[n].finalized = true;
        proof {
            let g = old(self)@;
            assert(self@.nodes =~= g.nodes.update(
                n as int,
                NodeView { finalized: true, ..g.nodes[n as int] },
            ));
        }
        Ok(())
    }
}

} // verus!
