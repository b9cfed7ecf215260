use rps::access::{
    AccessFlags, ShaderStage, AFTER, CLEAR, COPY_DEST, COPY_SRC, DISCARD_OLD_DATA, RENDER_TARGET,
    SHADER_RESOURCE, UNORDERED_ACCESS,
};
use rps::barrier::{check_accesses_fit, check_order_in_range, synthesize, transition_needed, Transition};
use rps::format::Format;
use rps::model::{Access, Node, ResourceDesc, SubresourceRange};
use rps::result::Error;

fn f(bits: i32) -> AccessFlags {
    AccessFlags { bits }
}

fn acc(resource: usize, start: u32, end: u32, bits: i32) -> Access {
    Access {
        resource,
        range: SubresourceRange::new(start, end),
        format: Format::Unknown,
        flags: f(bits),
        stages: ShaderStage { bits: 0 },
    }
}

fn node(accesses: Vec<Access>) -> Node {
    Node { tag: 0, queue: None, accesses, finalized: false }
}

fn res(extent: u32, initial: i32) -> ResourceDesc {
    ResourceDesc {
        format: Format::Unknown,
        extent,
        transient: false,
        usage: f(COPY_SRC),
        initial_state: f(initial),
        final_state: AccessFlags { bits: 0 },
    }
}

fn tr(position: usize, node: usize, resource: usize, start: u32, end: u32, old: i32, new: i32) -> Transition {
    Transition {
        position,
        node,
        resource,
        range: SubresourceRange::new(start, end),
        old_state: f(old),
        new_state: f(new),
        decorators: f(0),
    }
}

#[test]
fn transition_is_needed_when_the_state_differs() {
    assert!(transition_needed(COPY_DEST, f(COPY_SRC)));
    assert!(!transition_needed(COPY_SRC, f(COPY_SRC)));
    assert!(transition_needed(0, f(COPY_SRC)));
    assert!(transition_needed(RENDER_TARGET, f(RENDER_TARGET | CLEAR)));
    assert!(transition_needed(COPY_DEST, f(COPY_DEST | DISCARD_OLD_DATA)));
    assert!(!transition_needed(COPY_DEST, f(COPY_SRC | AFTER)));
    assert!(!transition_needed(COPY_DEST, f(COPY_SRC | AFTER | CLEAR)));
}

#[test]
fn one_transition_per_run_of_equal_state() {
    let resources = vec![res(6, SHADER_RESOURCE)];
    let nodes = vec![
        node(vec![acc(0, 1, 3, RENDER_TARGET)]),
        node(vec![acc(0, 4, 5, UNORDERED_ACCESS)]),
        node(vec![acc(0, 0, 6, SHADER_RESOURCE)]),
        node(vec![acc(0, 0, 6, COPY_SRC)]),
    ];
    let t = synthesize(&resources, &nodes, &vec![0, 1, 2, 3]).unwrap();
    assert_eq!(
        t,
        vec![
            tr(0, 0, 0, 1, 3, SHADER_RESOURCE, RENDER_TARGET),
            tr(1, 1, 0, 4, 5, SHADER_RESOURCE, UNORDERED_ACCESS),
            // sub-resources 0, 3 and 5 are in the wanted state already
            tr(2, 2, 0, 1, 3, RENDER_TARGET, SHADER_RESOURCE),
            tr(2, 2, 0, 4, 5, UNORDERED_ACCESS, SHADER_RESOURCE),
            tr(3, 3, 0, 0, 6, SHADER_RESOURCE, COPY_SRC),
        ]
    );
}

#[test]
fn neighbouring_runs_in_different_states_stay_apart() {
    let resources = vec![res(4, COPY_SRC)];
    let nodes = vec![
        node(vec![acc(0, 0, 2, COPY_DEST), acc(0, 2, 3, RENDER_TARGET)]),
        node(vec![acc(0, 0, 4, SHADER_RESOURCE)]),
    ];
    let t = synthesize(&resources, &nodes, &vec![0, 1]).unwrap();
    assert_eq!(
        t,
        vec![
            tr(0, 0, 0, 0, 2, COPY_SRC, COPY_DEST),
            tr(0, 0, 0, 2, 3, COPY_SRC, RENDER_TARGET),
            tr(1, 1, 0, 0, 2, COPY_DEST, SHADER_RESOURCE),
            tr(1, 1, 0, 2, 3, RENDER_TARGET, SHADER_RESOURCE),
            tr(1, 1, 0, 3, 4, COPY_SRC, SHADER_RESOURCE),
        ]
    );
}

#[test]
fn transitions_follow_the_order_not_the_declaration() {
    let resources = vec![res(1, COPY_SRC), res(1, COPY_SRC)];
    let nodes = vec![
        node(vec![acc(0, 0, 1, COPY_DEST)]),
        node(vec![acc(0, 0, 1, COPY_SRC), acc(1, 0, 1, COPY_DEST)]),
    ];
    let t = synthesize(&resources, &nodes, &vec![1, 0]).unwrap();
    assert_eq!(
        t,
        vec![tr(0, 1, 1, 0, 1, COPY_SRC, COPY_DEST), tr(1, 0, 0, 0, 1, COPY_SRC, COPY_DEST)]
    );
}

#[test]
fn clear_and_discard_force_a_transition() {
    let resources = vec![res(2, RENDER_TARGET)];
    let nodes = vec![
        node(vec![acc(0, 0, 2, RENDER_TARGET)]),
        node(vec![acc(0, 0, 1, RENDER_TARGET | CLEAR)]),
        node(vec![acc(0, 1, 2, RENDER_TARGET | DISCARD_OLD_DATA)]),
    ];
    let t = synthesize(&resources, &nodes, &vec![0, 1, 2]).unwrap();
    let mut a = tr(1, 1, 0, 0, 1, RENDER_TARGET, RENDER_TARGET);
    a.decorators = f(CLEAR);
    let mut b = tr(2, 2, 0, 1, 2, RENDER_TARGET, RENDER_TARGET);
    b.decorators = f(DISCARD_OLD_DATA);
    assert_eq!(t, vec![a, b]);
}

#[test]
fn exit_state_becomes_current_without_a_transition() {
    let resources = vec![res(1, COPY_SRC)];
    let nodes = vec![
        node(vec![acc(0, 0, 1, COPY_DEST | AFTER)]),
        node(vec![acc(0, 0, 1, COPY_DEST)]),
        node(vec![acc(0, 0, 1, COPY_SRC)]),
    ];
    let t = synthesize(&resources, &nodes, &vec![0, 1, 2]).unwrap();
    assert_eq!(t, vec![tr(2, 2, 0, 0, 1, COPY_DEST, COPY_SRC)]);
}

#[test]
fn exit_states_are_painted_after_the_other_accesses() {
    let resources = vec![res(3, COPY_DEST)];
    // the exit state is declared first, on part of what the entry state covers
    let nodes = vec![
        node(vec![acc(0, 1, 3, COPY_SRC | AFTER), acc(0, 0, 2, COPY_DEST)]),
        node(vec![acc(0, 0, 3, COPY_SRC)]),
    ];
    let t = synthesize(&resources, &nodes, &vec![0, 1]).unwrap();
    assert_eq!(t, vec![tr(1, 1, 0, 0, 1, COPY_DEST, COPY_SRC)]);
    // of two exit states on one sub-resource, the one declared last holds
    let nodes = vec![
        node(vec![
            acc(0, 0, 3, COPY_SRC | AFTER),
            acc(0, 0, 3, COPY_DEST),
            acc(0, 2, 3, SHADER_RESOURCE | AFTER),
        ]),
        node(vec![acc(0, 0, 3, COPY_SRC)]),
    ];
    let t = synthesize(&resources, &nodes, &vec![0, 1]).unwrap();
    assert_eq!(t, vec![tr(1, 1, 0, 2, 3, SHADER_RESOURCE, COPY_SRC)]);
}

#[test]
fn resources_are_brought_into_their_final_state() {
    let mut kept = res(3, COPY_SRC);
    kept.final_state = f(COPY_SRC);
    let mut shown = res(2, COPY_DEST);
    shown.final_state = f(SHADER_RESOURCE);
    let free = res(1, COPY_SRC);
    let resources = vec![kept, shown, free];
    let nodes = vec![
        node(vec![acc(0, 1, 2, COPY_DEST), acc(2, 0, 1, COPY_DEST)]),
        node(vec![acc(1, 0, 1, SHADER_RESOURCE)]),
    ];
    let t = synthesize(&resources, &nodes, &vec![0, 1]).unwrap();
    assert_eq!(
        t,
        vec![
            tr(0, 0, 0, 1, 2, COPY_SRC, COPY_DEST),
            tr(0, 0, 2, 0, 1, COPY_SRC, COPY_DEST),
            tr(1, 1, 1, 0, 1, COPY_DEST, SHADER_RESOURCE),
            // behind the last node: position 2, and 2 in place of a node
            tr(2, 2, 0, 1, 2, COPY_DEST, COPY_SRC),
            tr(2, 2, 1, 1, 2, COPY_DEST, SHADER_RESOURCE),
        ]
    );
    // without nodes the resources go from their initial to their final state
    let t = synthesize(&resources, &vec![], &vec![]).unwrap();
    assert_eq!(t, vec![tr(0, 0, 1, 0, 2, COPY_DEST, SHADER_RESOURCE)]);
}

#[test]
fn inconsistent_input_is_an_internal_error() {
    let resources = vec![res(2, COPY_SRC)];
    let beyond = vec![node(vec![acc(0, 0, 3, COPY_DEST)])];
    assert!(!check_accesses_fit(&resources, &beyond));
    assert_eq!(synthesize(&resources, &beyond, &vec![0]), Err(Error::InternalError));
    let missing = vec![node(vec![acc(1, 0, 1, COPY_DEST)])];
    assert_eq!(synthesize(&resources, &missing, &vec![0]), Err(Error::InternalError));
    let fine = vec![node(vec![acc(0, 0, 2, COPY_DEST)])];
    assert!(check_accesses_fit(&resources, &fine));
    assert!(check_order_in_range(1, &vec![0, 0]));
    assert!(!check_order_in_range(1, &vec![0, 1]));
    assert_eq!(synthesize(&resources, &fine, &vec![0, 1]), Err(Error::InternalError));
    assert_eq!(synthesize(&resources, &fine, &vec![]), Ok(vec![]));
}
