//! Resources, sub-resource ranges and accesses.

use vstd::prelude::*;
use crate::access::{AccessFlags, ShaderStage};
use crate::format::Format;

verus! {

/// A range of sub-resources: those from `start` up to, not including, `end`.
#[derive(Debug, Clone, Copy, PartialEq, Eq, Structural)]
pub struct SubresourceRange {
    pub start: u32,
    pub end: u32,
}

/// Two ranges share at least one sub-resource.
pub open spec fn ranges_overlap(a: SubresourceRange, b: SubresourceRange) -> bool {
    a.start < b.end && b.start < a.end && a.start < a.end && b.start < b.end
}

/// The range holds sub-resource `k`.
pub open spec fn range_holds(r: SubresourceRange, k: int) -> bool {
    r.start <= k < r.end
}

impl SubresourceRange {
    /// The range from `start` up to, not including, `end`.
    pub fn new(start: u32, end: u32) -> (r: SubresourceRange)
        ensures
            r.start == start,
            r.end == end,
    {
        SubresourceRange { start, end }
    }

    /// Whether the range holds no sub-resource.
    pub fn is_empty(&self) -> (r: bool)
        ensures
            r == (self.start >= self.end),
    {
        self.start >= self.end
    }

    /// The number of sub-resources in the range.
    pub fn len(&self) -> (r: u32)
        ensures
            r == if self.start < self.end {
                self.end - self.start
            } else {
                0
            },
    {
        if self.start < self.end {
            self.end - self.start
        } else {
            0
        }
    }

    /// Whether the two ranges share a sub-resource.
    pub fn overlaps(&self, other: &SubresourceRange) -> (r: bool)
        ensures
            r == ranges_overlap(*self, *other),
    {
        self.start < other.end && other.start < self.end && self.start < self.end && other.start
            < other.end
    }
}

/// Two ranges overlap exactly if some sub-resource is in both.
pub proof fn lemma_overlap_shares(a: SubresourceRange, b: SubresourceRange)
    ensures
        ranges_overlap(a, b) <==> exists|k: int| range_holds(a, k) && range_holds(b, k),
{
    if ranges_overlap(a, b) {
        let k = if a.start < b.start {
            b.start as int
        } else {
            a.start as int
        };
        assert(range_holds(a, k) && range_holds(b, k));
    }
}

/// A logical resource: a buffer or an image.
#[derive(Debug, Clone, Copy, PartialEq, Eq, Structural)]
pub struct ResourceDesc {
    /// The format of the resource.
    pub format: Format,
    /// The number of sub-resources.
    pub extent: u32,
    /// Whether the graph owns the resource, so that its storage may be
    /// shared with another outside its lifetime.
    pub transient: bool,
    /// The basic accesses that the resource supports.
    pub usage: AccessFlags,
    /// The state in which the resource enters the graph.
    pub initial_state: AccessFlags,
    /// The state in which the resource leaves the graph; the empty state
    /// leaves it in the state of its last access.
    pub final_state: AccessFlags,
}

/// A sub-range of a resource, seen under a format of its own.
#[derive(Debug, Clone, Copy, PartialEq, Eq, Structural)]
pub struct ViewDesc {
    /// The index of the resource.
    pub resource: usize,
    /// The sub-resources of the view.
    pub range: SubresourceRange,
    /// The format of the view; the unknown format stands for that of the
    /// resource.
    pub format: Format,
}

/// One declared access of a node: what it does to which sub-resources of
/// which resource.
#[derive(Debug, Clone, Copy, PartialEq, Eq, Structural)]
pub struct Access {
    /// The index of the resource.
    pub resource: usize,
    /// The sub-resources that are accessed.
    pub range: SubresourceRange,
    /// The format under which they are accessed.
    pub format: Format,
    /// How they are accessed.
    pub flags: AccessFlags,
    /// The shader stages that access them.
    pub stages: ShaderStage,
}

/// A node: one pass of GPU work with its declared accesses.
#[derive(Debug)]
pub struct Node {
    /// The tag that the user gave the node.
    pub tag: u64,
    /// The queue that the node asked for, if any.
    pub queue: Option<u32>,
    /// The accesses of the node, in the order of their declaration.
    pub accesses: Vec<Access>,
    /// Whether the node is closed: a closed node takes no more accesses.
    pub finalized: bool,
}

/// A node as a plain value.
pub struct NodeView {
    pub tag: u64,
    pub queue: Option<u32>,
    pub accesses: Seq<Access>,
    pub finalized: bool,
}

impl View for Node {
    type V = NodeView;

    open spec fn view(&self) -> NodeView {
        NodeView {
            tag: self.tag,
            queue: self.queue,
            accesses: self.accesses@,
            finalized: self.finalized,
        }
    }
}

/// The nodes as plain values.
pub open spec fn node_views(nodes: Seq<Node>) -> Seq<NodeView> {
    Seq::new(nodes.len(), |i: int| nodes[i]@)
}

/// The accesses of every node.
pub open spec fn node_lists(nodes: Seq<Node>) -> Seq<Seq<Access>> {
    Seq::new(nodes.len(), |i: int| nodes[i].accesses@)
}

/// A handle to a resource of a graph. It is valid for the generation of the
/// graph that gave it out.
#[derive(Debug, Clone, Copy, PartialEq, Eq, Structural)]
pub struct ResourceHandle {
    pub index: u32,
    pub generation: u32,
}

/// A handle to a view of a resource.
#[derive(Debug, Clone, Copy, PartialEq, Eq, Structural)]
pub struct ViewHandle {
    pub index: u32,
    pub generation: u32,
}

/// A handle to a node of a graph.
#[derive(Debug, Clone, Copy, PartialEq, Eq, Structural)]
pub struct NodeHandle {
    pub index: u32,
    pub generation: u32,
}

/// What an access is declared on: a whole resource or one of its views.
#[derive(Debug, Clone, Copy, PartialEq, Eq, Structural)]
pub enum Target {
    Resource(ResourceHandle),
    View(ViewHandle),
}

} // verus!
