use raytracing::intersect::{pick_root, Root};

#[test]
fn negative_discriminant_is_no_hit() {
    for near in [false, true] {
        for far in [false, true] {
            assert_eq!(pick_root(true, near, far), None);
        }
    }
}

#[test]
fn nearer_root_wins_when_both_inside() {
    assert_eq!(pick_root(false, true, true), Some(Root::Near));
    assert_eq!(pick_root(false, true, false), Some(Root::Near));
}

#[test]
fn far_root_when_near_is_outside() {
    assert_eq!(pick_root(false, false, true), Some(Root::Far));
}

#[test]
fn both_roots_outside_is_no_hit() {
    assert_eq!(pick_root(false, false, false), None);
}
