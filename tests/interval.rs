use physdes::generic::{Contain, Displacement, MinDist, Overlap};
use physdes::interval::{contain, overlap, Enlarge, Hull, Intersect};
use physdes::Interval;

#[test]
fn interval_ai_test_interval() {
    let a = Interval::new(4, 8);
    let b = Interval::new(5, 6);
    assert!(!(a < b));
    assert!(!(b < a));
    assert!(!(a > b));
    assert!(!(b > a));
    assert!(a <= b);
    assert!(b <= a);
    assert!(a >= b);
    assert!(b >= a);
    assert!(!(b == a));
    assert!(b != a);
    assert!(a.contains(&4));
    assert!(a.contains(&8));
    assert_eq!(a.intersect_with(&8), Interval::new(8, 8));
    assert!(a.contains(&b));
    assert_eq!(a.intersect_with(&b), b);
    assert!(!b.contains(&a));
    assert!(a.overlaps(&b));
    assert!(b.overlaps(&a));
    assert_eq!(a.min_dist_with(&b), 0);
    assert_eq!(a.length(), 4);
}

#[test]
fn interval_test_interval() {
    let interval_a = Interval::new(4, 8);
    let interval_b = Interval::new(5, 6);

    assert!(interval_a <= interval_b);
    assert!(interval_b <= interval_a);
    assert!(interval_a >= interval_b);
    assert!(interval_b >= interval_a);

    assert!(interval_a.overlaps(&interval_b));
    assert!(interval_b.overlaps(&interval_a));
    assert!(interval_a.contains(&4));
    assert!(interval_a.contains(&8));
    assert!(interval_a.contains(&interval_b));
    assert_eq!(interval_a, interval_a);
    assert_eq!(interval_b, interval_b);
    assert_ne!(interval_a, interval_b);
    assert_ne!(interval_b, interval_a);
    assert!(interval_a.overlaps(&interval_a));
    assert!(interval_b.overlaps(&interval_b));
    assert!(interval_a.contains(&interval_a));
    assert!(interval_b.contains(&interval_b));
    assert!(interval_a.overlaps(&interval_b));
    assert!(interval_b.overlaps(&interval_a));
}

#[test]
fn interval_test_hull_more_cases() {
    let interval_a = Interval::new(3, 5);
    let interval_b = Interval::new(1, 7);
    assert_eq!(interval_a.hull_with(&interval_b), Interval::new(1, 7));

    let interval_c = Interval::new(-2, 2);
    assert_eq!(interval_a.hull_with(&interval_c), Interval::new(-2, 5));

    let val_d = 4;
    assert_eq!(interval_a.hull_with(&val_d), Interval::new(3, 5));

    let val_e = 8;
    assert_eq!(interval_a.hull_with(&val_e), Interval::new(3, 8));

    let val_f = 0;
    assert_eq!(interval_a.hull_with(&val_f), Interval::new(0, 5));
}

#[test]
fn test_interval1() {
    let interval_a = Interval::new(4, 5);
    let interval_b = Interval::new(6, 8);
    assert!(interval_a < interval_b);
    assert!(!(interval_b == interval_a));
    assert!(interval_b != interval_a);
}

#[test]
fn test_interval2() {
    let interval_a = Interval::new(4, 8);
    let interval_b = Interval::new(5, 6);

    assert!(interval_a.contains(&4));
    assert!(interval_a.contains(&8));
    assert!(interval_a.contains(&interval_b));
    assert!(!interval_b.contains(&interval_a));
    assert!(interval_a.overlaps(&interval_b));
    assert!(interval_b.overlaps(&interval_a));
}

#[test]
fn test_interval3() {
    let interval_a = Interval::new(3, 4);
    assert!(interval_a.lb == 3);
    assert!(interval_a.ub == 4);
    assert!(interval_a.contains(&3));
    assert!(interval_a.contains(&4));
    assert!(!interval_a.contains(&5));
    assert!(interval_a.contains(&Interval::new(3, 4)));
    assert!(!interval_a.contains(&Interval::new(3, 5)));
    assert!(!interval_a.contains(&Interval::new(2, 3)));
    assert!(!interval_a.contains(&2));
    assert!(interval_a.contains(&4));
    assert!(!interval_a.contains(&5));
}

#[test]
fn test_arithmetic() {
    let mut interval_a = Interval::new(3, 5);
    assert_eq!(interval_a + 1, Interval::new(4, 6));
    assert_eq!(interval_a - 1, Interval::new(2, 4));
    assert_eq!(interval_a * 2, Interval::new(6, 10));
    assert!(-interval_a == Interval::new(-5, -3));
    interval_a.add_assign(1);
    assert!(interval_a == Interval::new(4, 6));
    interval_a.sub_assign(1);
    assert!(interval_a == Interval::new(3, 5));
    interval_a.mul_assign(2);
    assert!(interval_a == Interval::new(6, 10));
}

#[test]
fn interval_test_overlap() {
    let interval_a = Interval::new(3, 5);
    let interval_b = Interval::new(5, 7);
    let interval_c = Interval::new(7, 8);
    assert!(interval_a.overlaps(&interval_b));
    assert!(interval_b.overlaps(&interval_c));
    assert!(!interval_a.overlaps(&interval_c));
    assert!(!interval_c.overlaps(&interval_a));

    let val_d = 4;
    assert!(interval_a.overlaps(&val_d));
    assert!(!interval_a.overlaps(&6));
    assert!(val_d.overlaps(&interval_a));
    assert!(val_d.overlaps(&val_d));
}

#[test]
fn test_contains() {
    let interval_a = Interval::new(3, 5);
    let interval_b = Interval::new(5, 7);
    let interval_c = Interval::new(7, 8);
    assert!(!interval_a.contains(&interval_b));
    assert!(!interval_b.contains(&interval_c));
    assert!(!interval_a.contains(&interval_c));
    assert!(!interval_c.contains(&interval_a));

    let val_d = 4;
    assert!(interval_a.contains(&val_d));
    assert!(!interval_a.contains(&6));
    assert!(!val_d.contains(&interval_a));
    assert!(val_d.contains(&val_d));
}

#[test]
fn test_intersect() {
    let interval_a = Interval::new(3, 5);
    let interval_b = Interval::new(5, 7);
    let interval_c = Interval::new(7, 8);
    assert_eq!(interval_a.intersect_with(&interval_b), Interval::new(5, 5));
    assert_eq!(interval_b.intersect_with(&interval_c), Interval::new(7, 7));
    assert!(interval_a.intersect_with(&interval_c).is_invalid());
    assert_eq!(interval_a.intersect_with(&interval_b), Interval::new(5, 5));
    assert_eq!(interval_b.intersect_with(&interval_c), Interval::new(7, 7));
    let val_d = 4;
    assert_eq!(interval_a.intersect_with(&val_d), Interval::new(4, 4));
    assert!(interval_a.intersect_with(&6).is_invalid());
    assert_eq!(interval_a.intersect_with(&val_d), Interval::new(4, 4));
    assert_eq!(val_d.intersect_with(&interval_a), Interval::new(4, 4));
    assert_eq!(val_d.intersect_with(&val_d), Interval::new(4, 4));
}

#[test]
fn interval_test_hull() {
    let interval_a = Interval::new(3, 5);
    let interval_b = Interval::new(5, 7);
    let interval_c = Interval::new(7, 8);
    assert_eq!(interval_a.hull_with(&interval_b), Interval::new(3, 7));
    assert_eq!(interval_b.hull_with(&interval_c), Interval::new(5, 8));
    assert_eq!(interval_a.hull_with(&interval_c), Interval::new(3, 8));
    let val_d = 4;
    assert_eq!(interval_a.hull_with(&val_d), Interval::new(3, 5));
    assert_eq!(interval_a.hull_with(&6), Interval::new(3, 6));
}

#[test]
fn interval_test_min_dist() {
    let interval_a = Interval::new(3, 5);
    let interval_b = Interval::new(5, 7);
    let interval_c = Interval::new(7, 8);
    assert_eq!(interval_a.min_dist_with(&interval_b), 0);
    assert_eq!(interval_a.min_dist_with(&interval_c), 2);
    assert_eq!(interval_b.min_dist_with(&interval_c), 0);
    let val_d = 4;
    assert_eq!(interval_a.min_dist_with(&val_d), 0);
    assert_eq!(val_d.min_dist_with(&interval_a), 0);
    assert_eq!(interval_a.min_dist_with(&6), 1);
    assert_eq!(6.min_dist_with(&interval_a), 1);
}

#[test]
fn interval_test_displacement() {
    let interval_a = Interval::new(3, 5);
    let interval_b = Interval::new(5, 7);
    let interval_c = Interval::new(7, 8);
    assert_eq!(interval_a.displace(&interval_b), Interval::new(-2, -2));
    assert_eq!(interval_a.displace(&interval_c), Interval::new(-4, -3));
    assert_eq!(interval_b.displace(&interval_c), Interval::new(-2, -1));
    let val_d = 4;
    assert_eq!(val_d.displace(&val_d), 0);
    assert_eq!(val_d.displace(&6), -2);
    assert_eq!(6.displace(&val_d), 2);
}

#[test]
fn interval_test_enlarge() {
    let interval_a = Interval::new(3, 5);
    assert!(interval_a.enlarge_with(2) == Interval::new(1, 7));
    let val_d = 4;
    assert_eq!(val_d.enlarge_with(6), Interval::new(-2, 10));
    assert_eq!(6.enlarge_with(val_d), Interval::new(2, 10));
}

#[test]
fn valid_interval_overlaps_and_contains_itself() {
    for (lb, ub) in [(0, 0), (-3, 7), (i32::MIN, i32::MAX)] {
        let a = Interval::new(lb, ub);
        assert!(a.overlaps(&a));
        assert!(a.contains(&a));
    }
}

#[test]
fn interval_min_dist_is_symmetric() {
    let a = Interval::new(3, 5);
    let b = Interval::new(7, 8);
    assert_eq!(a.min_dist_with(&b), 2);
    assert_eq!(b.min_dist_with(&a), 2);
    assert_eq!(a.min_dist_with(&10), 5);
    assert_eq!(10.min_dist_with(&a), 5);
}

#[test]
fn interval_min_dist_extremes_do_not_overflow() {
    let a = Interval::new(i32::MIN, i32::MIN);
    let b = Interval::new(i32::MAX, i32::MAX);
    assert_eq!(a.min_dist_with(&b), u32::MAX);
    assert_eq!(b.min_dist_with(&a), u32::MAX);
}

#[test]
fn enlarge_by_zero_is_identity() {
    let a = Interval::new(3, 5);
    assert_eq!(a.enlarge_with(0), a);
    assert_eq!(4.enlarge_with(0), Interval::new(4, 4));
}

#[test]
fn intersection_is_invalid_iff_disjoint() {
    let cases = [((3, 5), (7, 8)), ((3, 5), (5, 7)), ((0, 10), (2, 3)), ((4, 4), (5, 5))];
    for ((alb, aub), (blb, bub)) in cases {
        let a = Interval::new(alb, aub);
        let b = Interval::new(blb, bub);
        assert_eq!(a.intersect_with(&b).is_invalid(), !a.overlaps(&b));
    }
}

#[test]
fn hull_and_empty_intersection_example() {
    assert_eq!(Interval::new(3, 5).hull_with(&Interval::new(5, 7)), Interval::new(3, 7));
    assert!(Interval::new(3, 5).intersect_with(&Interval::new(7, 8)).is_invalid());
}

#[test]
fn interval_accessors_and_length() {
    let a = Interval::new(-2, 9);
    assert_eq!(a.lb(), -2);
    assert_eq!(a.ub(), 9);
    assert_eq!(a.length(), 11);
    assert!(!a.is_invalid());
    assert!(Interval::new(1, 0).is_invalid());
}

#[test]
fn interval_pairwise_sum_and_difference() {
    let a = Interval::new(3, 5);
    let b = Interval::new(1, 2);
    assert_eq!(a + b, Interval::new(4, 7));
    assert_eq!(a - b, Interval::new(2, 3));
}

#[test]
fn free_overlap_and_proper_containment() {
    let a = Interval::new(4, 8);
    let b = Interval::new(5, 6);
    let c = Interval::new(9, 10);
    assert!(overlap(&a, &b));
    assert!(!overlap(&a, &c));
    assert!(overlap(&Interval::new(5, 3), &Interval::new(5, 3)));
    assert!(contain(&a, &b));
    assert!(!contain(&b, &a));
    assert!(!contain(&a, &a));
}

#[test]
fn min_dist_is_symmetric_on_empty_intervals() {
    let a = Interval::new(10, 0);
    let b = Interval::new(5, 3);
    assert_eq!(a.min_dist_with(&b), 7);
    assert_eq!(b.min_dist_with(&a), 7);
    assert_eq!(a.min_dist_with(&5), 5);
    assert_eq!(5.min_dist_with(&a), 5);
}
