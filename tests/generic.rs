use physdes::generic::{Contain, Displacement, MinDist, Overlap};

#[test]
fn generic_test_overlap() {
    assert!(1.overlaps(&1));
    assert!(!1.overlaps(&2));
}

#[test]
fn generic_test_contain() {
    assert!(1.contains(&1));
    assert!(!1.contains(&2));
}

#[test]
fn generic_test_min_dist() {
    assert_eq!(1.min_dist_with(&1), 0);
    assert_eq!(1.min_dist_with(&2), 1);
    assert_eq!(2.min_dist_with(&1), 1);
}

#[test]
fn test_displace() {
    assert_eq!(1.displace(&1), 0);
    assert_eq!(1.displace(&2), -1);
    assert_eq!(2.displace(&1), 1);
}

#[test]
fn scalar_min_dist_extremes_do_not_overflow() {
    assert_eq!(i32::MIN.min_dist_with(&i32::MAX), u32::MAX);
    assert_eq!(i32::MAX.min_dist_with(&i32::MIN), u32::MAX);
}
