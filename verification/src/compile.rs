//! The compilation of a graph into a schedule: the order of the nodes, their
//! queues, the aliasing of the transient resources, the transitions and the
//! synchronization across queues.

use vstd::prelude::*;
use crate::alias::{assign_slots, is_first_fit, Lifetime};
use crate::analyze::{
    find_hazard_edges, first_self_conflict, hazard_edges, is_live_ranges, live_ranges,
    self_conflict, LiveRange,
};
use crate::barrier::{all_transitions, synthesize, Transition};
use crate::graph::{lists_of, GraphBuilder, GraphState, GraphView};
use crate::model::{node_lists, node_views, Node, NodeView};
use crate::result::Error;
use crate::schedule::{
    edges_valid, is_greedy_order, is_topological, topological_order, Edge,
};

verus! {

/// A point of synchronization across queues: the queue of `wait_node` must
/// wait, before that node, for the signal that the queue of `signal_node`
/// gives after that node.
#[derive(Debug, Clone, Copy, PartialEq, Eq, Structural)]
pub struct SyncMarker {
    pub signal_node: usize,
    pub signal_queue: u32,
    pub wait_node: usize,
    pub wait_queue: u32,
}

/// The version of the layout of a schedule.
pub const SCHEDULE_VERSION: u32 = 1;

/// The compiled graph: a snapshot that holds no reference to the builder.
#[derive(Debug)]
pub struct Schedule {
    /// The version of the layout.
    pub version: u32,
    /// The nodes in the order of their execution.
    pub order: Vec<usize>,
    /// The queue of the node at every position of the order.
    pub queues: Vec<u32>,
    /// The dependency edges that the order respects.
    pub edges: Vec<Edge>,
    /// The transitions, in the order in which they are made.
    pub transitions: Vec<Transition>,
    /// The synchronization points across queues.
    pub syncs: Vec<SyncMarker>,
    /// The transient resources in use, with their lifetimes.
    pub ranges: Vec<LiveRange>,
    /// The aliasing slot of each of them.
    pub slots: Vec<usize>,
}

/// A schedule as a plain value.
pub struct ScheduleView {
    pub version: u32,
    pub order: Seq<usize>,
    pub queues: Seq<u32>,
    pub edges: Seq<Edge>,
    pub transitions: Seq<Transition>,
    pub syncs: Seq<SyncMarker>,
    pub ranges: Seq<LiveRange>,
    pub slots: Seq<usize>,
}

impl View for Schedule {
    type V = ScheduleView;

    open spec fn view(&self) -> ScheduleView {
        ScheduleView {
            version: self.version,
            order: self.order@,
            queues: self.queues@,
            edges: self.edges@,
            transitions: self.transitions@,
            syncs: self.syncs@,
            ranges: self.ranges@,
            slots: self.slots@,
        }
    }
}

/// The queue on which a node runs: the one it asked for, else queue 0.
pub open spec fn node_queue(n: NodeView) -> u32 {
    match n.queue {
        Some(q) => q,
        None => 0,
    }
}

/// The dependency edges of a graph: its hazard edges, then the edges that
/// were declared by hand.
pub open spec fn all_edges(g: GraphView) -> Seq<Edge> {
    hazard_edges(lists_of(g)) + g.edges
}

/// The queue of the node at every position of the order.
pub open spec fn order_queues(nodes: Seq<NodeView>, order: Seq<usize>) -> Seq<u32> {
    Seq::new(order.len(), |p: int| node_queue(nodes[order[p] as int]))
}

/// The synchronization points for the first `upto` edges: one for every
/// edge that joins nodes on different queues, in the order of the edges.
pub open spec fn sync_markers(edges: Seq<Edge>, nodes: Seq<NodeView>, upto: nat) -> Seq<SyncMarker>
    decreases upto,
{
    if upto == 0 {
        Seq::empty()
    } else {
        let prev = sync_markers(edges, nodes, (upto - 1) as nat);
        let e = edges[upto - 1];
        let a = node_queue(nodes[e.from as int]);
        let b = node_queue(nodes[e.to as int]);
        if a != b {
            prev.push(
                SyncMarker { signal_node: e.from, signal_queue: a, wait_node: e.to, wait_queue: b },
            )
        } else {
            prev
        }
    }
}

/// Those of the first `upto` nodes of the order that run on queue `q`, in
/// the order in which they run.
pub open spec fn queue_nodes(order: Seq<usize>, queues: Seq<u32>, q: u32, upto: nat) -> Seq<usize>
    decreases upto,
{
    if upto == 0 {
        Seq::empty()
    } else {
        let prev = queue_nodes(order, queues, q, (upto - 1) as nat);
        if queues[upto - 1] == q {
            prev.push(order[upto - 1])
        } else {
            prev
        }
    }
}

/// The lifetimes of the live ranges.
pub open spec fn lifetimes_of(ranges: Seq<LiveRange>) -> Seq<Lifetime> {
    Seq::new(ranges.len(), |i: int| ranges[i].lifetime)
}

/// Some node of the graph has two accesses that overlap exclusively.
pub open spec fn has_self_conflict(g: GraphView) -> bool {
    exists|n: int| 0 <= n < g.nodes.len() && self_conflict((#[trigger] g.nodes[n]).accesses)
}

/// The edges of the graph form no cycle: the nodes have an order in which
/// every edge points forward.
pub open spec fn is_acyclic(g: GraphView) -> bool {
    exists|o: Seq<usize>| is_topological(g.nodes.len(), all_edges(g), o)
}

/// `s` is the schedule of graph `g`.
pub open spec fn is_schedule_of(g: GraphView, s: ScheduleView) -> bool {
    &&& s.version == SCHEDULE_VERSION
    &&& s.edges == all_edges(g)
    &&& s.order.len() == g.nodes.len()
    &&& is_greedy_order(g.nodes.len(), s.edges, s.order)
    &&& s.queues == order_queues(g.nodes, s.order)
    &&& s.syncs == sync_markers(s.edges, g.nodes, s.edges.len())
    &&& is_live_ranges(g.resources, lists_of(g), s.order, s.ranges)
    &&& is_first_fit(lifetimes_of(s.ranges), s.slots)
    &&& s.transitions == all_transitions(g.resources, lists_of(g), s.order)
}

/// The accesses of the graph, read from its nodes or from its view, are
/// the same.
pub proof fn lemma_lists_of_builder(g: &GraphBuilder)
    ensures
        lists_of(g@) == node_lists(g.nodes@),
{
    assert(lists_of(g@) =~= node_lists(g.nodes@));
}

/// The lowest node with two accesses that overlap exclusively.
fn first_conflicting_node(nodes: &Vec<Node>) -> (r: Option<usize>)
    ensures
        match r {
            Some(n) => n < nodes.len() && self_conflict(nodes[n as int].accesses@) && forall|m: int|
                0 <= m < n ==> !self_conflict((#[trigger] nodes[m]).accesses@),
            None => forall|m: int|
                0 <= m < nodes.len() ==> !self_conflict((#[trigger] nodes[m]).accesses@),
        },
{
    let mut n: usize = 0;
    while n < nodes.len()
        invariant
            n <= nodes.len(),
            forall|m: int| 0 <= m < n ==> !self_conflict((#[trigger] nodes[m]).accesses@),
        decreases nodes.len() - n,
    {
        if first_self_conflict(&nodes[n].accesses).is_some() {
            return Some(n);
        }
        n += 1;
    }
    None
}

/// The queue of the node at every position of the order.
fn queues_in_order(nodes: &Vec<Node>, order: &Vec<usize>) -> (queues: Vec<u32>)
    requires
        forall|p: int| 0 <= p < order.len() ==> (#[trigger] order[p]) < nodes.len(),
    ensures
        queues@ == order_queues(node_views(nodes@), order@),
{
    let mut queues: Vec<u32> = Vec::new();
    let mut p: usize = 0;
    while p < order.len()
        invariant
            p <= order.len(),
            forall|k: int| 0 <= k < order.len() ==> (#[trigger] order[k]) < nodes.len(),
            queues.len() == p,
            forall|k: int|
                0 <= k < p ==> queues[k] == node_queue(node_views(nodes@)[order[k] as int]),
        decreases order.len() - p,
    {
        let q = match nodes[order[p]].queue {
            Some(q) => q,
            None => 0,
        };
        queues.push(q);
        p += 1;
    }
    proof {
        assert(queues@ =~= order_queues(node_views(nodes@), order@));
    }
    queues
}

/// The synchronization points of the edges.
fn find_sync_markers(nodes: &Vec<Node>, edges: &Vec<Edge>) -> (syncs: Vec<SyncMarker>)
    requires
        edges_valid(nodes@.len(), edges@),
    ensures
        syncs@ == sync_markers(edges@, node_views(nodes@), edges@.len()),
{
    let mut syncs: Vec<SyncMarker> = Vec::new();
    let mut i: usize = 0;
    while i < edges.len()
        invariant
            i <= edges.len(),
            edges_valid(nodes@.len(), edges@),
            syncs@ == sync_markers(edges@, node_views(nodes@), i as nat),
        decreases edges.len() - i,
    {
        let e = edges[i];
        let a = match nodes[e.from].queue {
            Some(q) => q,
            None => 0,
        };
        let b = match nodes[e.to].queue {
            Some(q) => q,
            None => 0,
        };
        if a != b {
            syncs.push(
                SyncMarker { signal_node: e.from, signal_queue: a, wait_node: e.to, wait_queue: b },
            );
        }
        i += 1;
    }
    syncs
}

/// The lifetimes of the live ranges.
fn collect_lifetimes(ranges: &Vec<LiveRange>) -> (lts: Vec<Lifetime>)
    ensures
        lts@ == lifetimes_of(ranges@),
{
    let mut lts: Vec<Lifetime> = Vec::new();
    let mut i: usize = 0;
    while i < ranges.len()
        invariant
            i <= ranges.len(),
            lts.len() == i,
            forall|k: int| 0 <= k < i ==> lts[k] == ranges[k].lifetime,
        decreases ranges.len() - i,
    {
        lts.push(ranges[i].lifetime);
        i += 1;
    }
    proof {
        assert(lts@ =~= lifetimes_of(ranges@));
    }
    lts
}

/// The hazard edges of the nodes, then the edges declared by hand.
fn collect_edges(nodes: &Vec<Node>, manual: &Vec<Edge>) -> (edges: Vec<Edge>)
    ensures
        edges@ == hazard_edges(node_lists(nodes@)) + manual@,
{
    let mut edges = find_hazard_edges(nodes);
    let ghost base = edges@;
    let mut i: usize = 0;
    proof {
        assert(edges@ =~= base + manual@.take(0));
    }
    while i < manual.len()
        invariant
            i <= manual.len(),
            edges@ == base + manual@.take(i as int),
        decreases manual.len() - i,
    {
        edges.push(manual[i]);
        proof {
            assert(edges@ =~= base + manual@.take(i + 1));
        }
        i += 1;
    }
    proof {
        assert(manual@.take(manual.len() as int) =~= manual@);
    }
    edges
}

impl Schedule {
    /// The schedule holds a queue for every position of its order.
    pub open spec fn wf(&self) -> bool {
        self.queues@.len() == self.order@.len()
    }

    /// The nodes that run on queue `q`, in the order in which they run:
    /// the batch of that queue.
    pub fn nodes_on_queue(&self, q: u32) -> (nodes: Vec<usize>)
        requires
            self.wf(),
        ensures
            nodes@ == queue_nodes(self.order@, self.queues@, q, self.order@.len()),
    {
        let mut nodes: Vec<usize> = Vec::new();
        let mut p: usize = 0;
        while p < self.order.len()
            invariant
                p <= self.order.len(),
                self.wf(),
                nodes@ == queue_nodes(self.order@, self.queues@, q, p as nat),
            decreases self.order.len() - p,
        {
            if self.queues[p] == q {
                nodes.push(self.order[p]);
            }
            p += 1;
        }
        nodes
    }
}

impl GraphBuilder {
    /// The dependency edges of the graph: its hazard edges, then the edges
    /// that were declared by hand.
    pub fn all_edges(&self) -> (edges: Vec<Edge>)
        requires
            self.wf(),
        ensures
            edges@ == all_edges(self@),
            edges_valid(self@.nodes.len(), edges@),
    {
        proof {
            lemma_lists_of_builder(self);
            crate::schedule_laws::lemma_all_edges_valid(self@);
        }
        collect_edges(&self.nodes, &self.edges)
    }

    /// Compiles the graph as it stands, whatever its state, and leaves it
    /// as it is. Fails with `RangeOverlapping` where a node has two accesses
    /// that overlap exclusively, and with `ValidationFailed` where the
    /// edges form a cycle.
    pub fn compile(&self) -> (r: Result<Schedule, Error>)
        requires
            self.wf(),
        ensures
            has_self_conflict(self@) ==> r == Err::<Schedule, Error>(Error::RangeOverlapping),
            !has_self_conflict(self@) && !is_acyclic(self@) ==> r == Err::<Schedule, Error>(
                Error::ValidationFailed,
            ),
            !has_self_conflict(self@) && is_acyclic(self@) ==> r.is_ok(),
            r.is_ok() ==> is_schedule_of(self@, r.unwrap()@) && r.unwrap().wf(),
    {
        proof {
            lemma_lists_of_builder(self);
        }
        let ghost g = self@;
        let n = self.nodes.len();
        match first_conflicting_node(&self.nodes) {
            Some(bad) => {
                proof {
                    assert(g.nodes[bad as int].accesses == self.nodes[bad as int].accesses@);
                }
                return Err(Error::RangeOverlapping);
            },
            None => {
                proof {
                    assert forall|m: int| 0 <= m < g.nodes.len() implies !self_conflict(
                        (#[trigger] g.nodes[m]).accesses,
                    ) by {
                        assert(g.nodes[m].accesses == self.nodes[m].accesses@);
                    }
                }
            },
        }
        let edges = self.all_edges();
        let order = match topological_order(n, &edges) {
            Ok(order) => order,
            Err(_) => {
                return Err(Error::ValidationFailed);
            },
        };
        proof {
            assert(edges@ == all_edges(g));
            assert(is_topological(g.nodes.len(), all_edges(g), order@));
        }
        let queues = queues_in_order(&self.nodes, &order);
        let syncs = find_sync_markers(&self.nodes, &edges);
        let ranges = live_ranges(&self.resources, &self.nodes, &order);
        let lts = collect_lifetimes(&ranges);
        let slots = assign_slots(&lts);
        proof {
            assert forall|v: int, i: int|
                0 <= v < node_lists(self.nodes@).len() && 0 <= i < node_lists(
                    self.nodes@,
                )[v].len() implies {
                let a = #[trigger] node_lists(self.nodes@)[v][i];
                a.resource < self.resources@.len() && a.range.end
                    <= self.resources@[a.resource as int].extent
            } by {
                assert(crate::graph::access_wf(g, g.nodes[v].accesses[i]));
            }
        }
        let transitions = match synthesize(&self.resources, &self.nodes, &order) {
            Ok(t) => t,
            Err(e) => {
                return Err(e);
            },
        };
        Ok(
            Schedule {
                version: SCHEDULE_VERSION,
                order,
                queues,
                edges,
                transitions,
                syncs,
                ranges,
                slots,
            },
        )
    }

    /// Compiles the graph into its schedule and closes it: a finalized
    /// graph takes no more declarations. Fails with `InvalidOperation` where
    /// the graph is finalized already; with `RangeOverlapping`, leaving the
    /// graph open, where a node has two accesses that overlap exclusively;
    /// and with `ValidationFailed` where the edges form a cycle, after which
    /// every further attempt fails in the same way until the graph is
    /// rebuilt.
    pub fn finalize_graph(&mut self) -> (r: Result<Schedule, Error>)
        requires
            old(self).wf(),
        ensures
            final(self).wf(),
            final(self)@ == (GraphView { state: final(self)@.state, ..old(self)@ }),
            old(self)@.state == GraphState::Finalized ==> r == Err::<Schedule, Error>(
                Error::InvalidOperation,
            ) && final(self)@.state == GraphState::Finalized,
            old(self)@.state == GraphState::Invalid ==> r == Err::<Schedule, Error>(
                Error::ValidationFailed,
            ) && final(self)@.state == GraphState::Invalid,
            old(self)@.state == GraphState::Building && has_self_conflict(old(self)@) ==> r
                == Err::<Schedule, Error>(Error::RangeOverlapping) && final(self)@.state
                == GraphState::Building,
            old(self)@.state == GraphState::Building && !has_self_conflict(old(self)@)
                && !is_acyclic(old(self)@) ==> r == Err::<Schedule, Error>(Error::ValidationFailed)
                && final(self)@.state == GraphState::Invalid,
            old(self)@.state == GraphState::Building && !has_self_conflict(old(self)@)
                && is_acyclic(old(self)@) ==> r.is_ok() && final(self)@.state
                == GraphState::Finalized,
            r.is_ok() ==> is_schedule_of(old(self)@, r.unwrap()@) && r.unwrap().wf(),
    {
        match self.state {
            GraphState::Finalized => {
                return Err(Error::InvalidOperation);
            },
            GraphState::Invalid => {
                return Err(Error::ValidationFailed);
            },
            GraphState::Building => {},
        }
        let r = self.compile();
        match &r {
            Ok(_) => {
                self.state = GraphState::Finalized;
            },
            Err(e) => {
                match e {
                    Error::ValidationFailed => {
                        self.state = GraphState::Invalid;
                    },
                    _ => {},
                }
            },
        }
        r
    }
}

} // verus!
