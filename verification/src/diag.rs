//! Diagnostics: what is wrong with a graph that does not compile, as a
//! report for a printer to render.

use vstd::prelude::*;
use crate::analyze::{exclusive_overlap, first_self_conflict, self_conflict};
use crate::compile::{all_edges, has_self_conflict, is_acyclic};
use crate::graph::{GraphBuilder, GraphView};
use crate::schedule::{greedy_order, is_greedy_order, is_stuck, unscheduled_nodes};

verus! {

/// What a report is about.
#[derive(Debug, Clone, Copy, PartialEq, Eq, Structural)]
pub enum ReportKind {
    /// Two accesses of one node claim a common sub-resource, and one of the
    /// claims is exclusive.
    RangeOverlap,
    /// The dependency edges form a cycle.
    Cycle,
}

/// A report on a graph that does not compile.
#[derive(Debug)]
pub struct Report {
    pub kind: ReportKind,
    /// The offending nodes, in ascending order.
    pub nodes: Vec<usize>,
    /// The offending resource, where there is one.
    pub resource: Option<usize>,
    /// The two offending accesses of the node, where the report is about
    /// one node.
    pub accesses: Option<(usize, usize)>,
}

/// The report names the first exclusive overlap of the graph: the lowest
/// node that has one, of its accesses the pair whose later access comes
/// first and for it the earliest partner, and the resource they are on.
pub open spec fn is_overlap_report(g: GraphView, r: Report) -> bool {
    &&& r.kind == ReportKind::RangeOverlap
    &&& r.nodes@.len() == 1
    &&& r.accesses.is_some()
    &&& {
        let n = r.nodes@[0] as int;
        let (p, q) = r.accesses.unwrap();
        &&& 0 <= n < g.nodes.len()
        &&& forall|m: int| 0 <= m < n ==> !self_conflict((#[trigger] g.nodes[m]).accesses)
        &&& p < q < g.nodes[n].accesses.len()
        &&& exclusive_overlap(g.nodes[n].accesses[p as int], g.nodes[n].accesses[q as int])
        &&& forall|a: int|
            0 <= a < p ==> !#[trigger] exclusive_overlap(
                g.nodes[n].accesses[a],
                g.nodes[n].accesses[q as int],
            )
        &&& forall|a: int, b: int|
            0 <= a < b < q ==> !#[trigger] exclusive_overlap(
                g.nodes[n].accesses[a],
                g.nodes[n].accesses[b],
            )
        &&& r.resource == Some(g.nodes[n].accesses[q as int].resource)
    }
}

/// The report names, in ascending order, the nodes that cannot be ordered:
/// those that are left when no node may come next, which lie on a cycle or
/// behind one.
pub open spec fn is_cycle_report(g: GraphView, r: Report) -> bool {
    &&& r.kind == ReportKind::Cycle
    &&& r.resource.is_none()
    &&& r.accesses.is_none()
    &&& r.nodes@.len() > 0
    &&& forall|i: int, j: int| 0 <= i < j < r.nodes@.len() ==> r.nodes@[i] < r.nodes@[j]
    &&& exists|order: Seq<usize>|
        {
            &&& is_greedy_order(g.nodes.len(), all_edges(g), order)
            &&& is_stuck(g.nodes.len(), all_edges(g), order)
            &&& forall|v: usize|
                r.nodes@.contains(v) <==> v < g.nodes.len() && !order.contains(v)
        }
}

impl GraphBuilder {
    /// Says what keeps the graph from compiling, if anything does: an
    /// exclusive overlap within a node, else a cycle. The graph is left as
    /// it is.
    pub fn diagnose(&self) -> (r: Option<Report>)
        requires
            self.wf(),
        ensures
            has_self_conflict(self@) ==> r.is_some() && is_overlap_report(self@, r.unwrap()),
            !has_self_conflict(self@) && !is_acyclic(self@) ==> r.is_some() && is_cycle_report(
                self@,
                r.unwrap(),
            ),
            !has_self_conflict(self@) && is_acyclic(self@) ==> r.is_none(),
    {
        let ghost g = self@;
        let mut n: usize = 0;
        while n < self.nodes.len()
            invariant
                n <= self.nodes.len(),
                g == self@,
                forall|m: int| 0 <= m < n ==> !self_conflict((#[trigger] g.nodes[m]).accesses),
            decreases self.nodes.len() - n,
        {
            proof {
                assert(g.nodes[n as int].accesses == self.nodes[n as int].accesses@);
            }
            match first_self_conflict(&self.nodes[n].accesses) {
                Some((p, q)) => {
                    let resource = self.nodes[n].accesses[q].resource;
                    let mut nodes: Vec<usize> = Vec::new();
                    nodes.push(n);
                    return Some(
                        Report {
                            kind: ReportKind::RangeOverlap,
                            nodes,
                            resource: Some(resource),
                            accesses: Some((p, q)),
                        },
                    );
                },
                None => {},
            }
            n += 1;
        }
        let edges = self.all_edges();
        let order = greedy_order(self.nodes.len(), &edges);
        if order.len() == self.nodes.len() {
            proof {
                crate::order_laws::lemma_complete_greedy_is_topological(
                    g.nodes.len(),
                    edges@,
                    order@,
                );
            }
            return None;
        }
        let nodes = unscheduled_nodes(self.nodes.len(), &order);
        proof {
            crate::order_laws::lemma_stuck_has_no_topological(g.nodes.len(), edges@, order@);
            if nodes@.len() == 0 {
                assert forall|v: usize| v < g.nodes.len() implies order@.contains(v) by {
                    if !order@.contains(v) {
                        assert(nodes@.contains(v));
                    }
                }
                crate::schedule::lemma_covering_length(order@, g.nodes.len());
            }
            assert forall|v: usize|
                nodes@.contains(v) <==> v < g.nodes.len() && !order@.contains(v) by {
                if nodes@.contains(v) {
                    let i = choose|i: int| 0 <= i < nodes@.len() && nodes@[i] == v;
                    assert(nodes@[i] < g.nodes.len() && !order@.contains(nodes@[i]));
                }
            }
        }
        Some(Report { kind: ReportKind::Cycle, nodes, resource: None, accesses: None })
    }
}

} // verus!
