use rps::alias::{assign_slots, Lifetime};

fn lt(first: usize, last: usize) -> Lifetime {
    Lifetime { first, last }
}

#[test]
fn disjoint_lifetimes_share_a_slot() {
    // A lives over [0,2], B over [3,5], C over [1,4]
    let slots = assign_slots(&vec![lt(0, 2), lt(3, 5), lt(1, 4)]);
    assert_eq!(slots, vec![0, 0, 1]);
}

#[test]
fn overlap_by_one_position_keeps_slots_apart() {
    let slots = assign_slots(&vec![lt(0, 2), lt(2, 4), lt(4, 6)]);
    assert_eq!(slots, vec![0, 1, 0]);
    assert!(lt(0, 2).overlaps(&lt(2, 4)));
    assert!(!lt(0, 2).overlaps(&lt(3, 4)));
    assert!(lt(1, 4).overlaps(&lt(0, 9)));
}

#[test]
fn slots_go_by_start_order_not_by_declaration() {
    // the resource declared last starts first and gets the first slot
    let slots = assign_slots(&vec![lt(5, 9), lt(4, 6), lt(0, 5)]);
    assert_eq!(slots, vec![2, 1, 0]);
}

#[test]
fn equal_starts_go_by_declaration() {
    let slots = assign_slots(&vec![lt(1, 3), lt(1, 1), lt(1, 2), lt(4, 4)]);
    assert_eq!(slots, vec![0, 1, 2, 0]);
}

#[test]
fn lowest_free_slot_is_reused() {
    let slots = assign_slots(&vec![lt(0, 1), lt(0, 5), lt(2, 3), lt(4, 5), lt(3, 4)]);
    assert_eq!(slots, vec![0, 1, 0, 0, 2]);
}

#[test]
fn no_resources_no_slots() {
    assert!(assign_slots(&vec![]).is_empty());
    assert_eq!(assign_slots(&vec![lt(7, 7)]), vec![0]);
}

#[test]
fn overlapping_lifetimes_never_share() {
    let lts = vec![
        lt(0, 3),
        lt(2, 5),
        lt(6, 8),
        lt(1, 1),
        lt(4, 7),
        lt(0, 9),
        lt(9, 9),
        lt(5, 5),
    ];
    let slots = assign_slots(&lts);
    for i in 0..lts.len() {
        for j in 0..lts.len() {
            if i != j && lts[i].overlaps(&lts[j]) {
                assert_ne!(slots[i], slots[j]);
            }
        }
    }
    assert_eq!(slots, vec![0, 2, 2, 2, 0, 1, 0, 3]);
}
