use rps::result::Error;
use rps::schedule::{greedy_order, topological_order, unscheduled_nodes, Edge};

#[test]
fn no_edges_keep_declaration_order() {
    let order = topological_order(4, &vec![]).unwrap();
    assert_eq!(order, vec![0, 1, 2, 3]);
}

#[test]
fn backward_edge_reorders() {
    let edges = vec![Edge { from: 2, to: 0 }];
    let order = topological_order(3, &edges).unwrap();
    assert_eq!(order, vec![1, 2, 0]);
}

#[test]
fn lowest_ready_node_comes_first() {
    let edges = vec![Edge { from: 3, to: 1 }, Edge { from: 0, to: 2 }, Edge { from: 3, to: 2 }];
    let order = topological_order(4, &edges).unwrap();
    assert_eq!(order, vec![0, 3, 1, 2]);
}

#[test]
fn cycle_is_reported() {
    let edges = vec![Edge { from: 0, to: 1 }, Edge { from: 1, to: 0 }];
    assert_eq!(topological_order(2, &edges), Err(Error::ValidationFailed));
}

#[test]
fn self_loop_is_a_cycle() {
    let edges = vec![Edge { from: 1, to: 1 }];
    assert_eq!(topological_order(3, &edges), Err(Error::ValidationFailed));
    let order = greedy_order(3, &edges);
    assert_eq!(order, vec![0, 2]);
    assert_eq!(unscheduled_nodes(3, &order), vec![1]);
}

#[test]
fn edge_out_of_range_is_refused() {
    let edges = vec![Edge { from: 0, to: 5 }];
    assert_eq!(topological_order(2, &edges), Err(Error::IndexOutOfBounds));
}

#[test]
fn nodes_behind_a_cycle_stay_unscheduled() {
    let edges = vec![
        Edge { from: 1, to: 2 },
        Edge { from: 2, to: 1 },
        Edge { from: 2, to: 3 },
    ];
    let order = greedy_order(5, &edges);
    assert_eq!(order, vec![0, 4]);
    assert_eq!(unscheduled_nodes(5, &order), vec![1, 2, 3]);
}
