use physdes::merge_obj::MergeObj;
use physdes::{Interval, Point, Vector2};

#[test]
fn test_merge_obj() {
    let obj1 = MergeObj::<i32, i32>::construct(4, 5);
    let obj2 = MergeObj::<i32, i32>::construct(7, 9);
    assert_ne!(obj1, obj2);
    assert_eq!(obj1.min_dist_with(&obj2), 7);
}

#[test]
fn test_merge() {
    let obj1: MergeObj<Interval<i32>, Interval<i32>> =
        MergeObj::new(Interval::new(200, 600), Interval::new(200, 600));
    let obj2: MergeObj<Interval<i32>, Interval<i32>> =
        MergeObj::new(Interval::new(500, 900), Interval::new(500, 900));
    let merged = obj1.merge_with(&obj2);
    println!("{:?}", merged);
    assert_eq!(
        merged,
        MergeObj::new(Interval::new(500, 600), Interval::new(500, 600))
    );
}

#[test]
fn test_merge_2() {
    let mut obj1: MergeObj<Interval<i32>, Interval<i32>> =
        MergeObj::new(Interval::new(4, 5), Interval::new(4, 5));
    let obj2: MergeObj<Interval<i32>, Interval<i32>> =
        MergeObj::new(Interval::new(7, 9), Interval::new(7, 9));
    let vec = Vector2::new(Interval::new(2, 3), Interval::new(2, 3));
    obj1.impl_.xcoord.lb += vec.x_.lb;
    obj1.impl_.xcoord.ub += vec.x_.ub;
    obj1.impl_.ycoord.lb += vec.y_.lb;
    obj1.impl_.ycoord.ub += vec.y_.ub;
    obj1.impl_.xcoord.lb -= vec.x_.lb;
    obj1.impl_.xcoord.ub -= vec.x_.ub;
    obj1.impl_.ycoord.lb -= vec.y_.lb;
    obj1.impl_.ycoord.ub -= vec.y_.ub;
    assert_eq!(obj1, MergeObj::new(Interval::new(4, 5), Interval::new(4, 5)));
    let result1 = obj1.enlarge_with(3);
    assert_eq!(result1, MergeObj::new(Interval::new(1, 8), Interval::new(1, 8)));
    let result2 = obj2.enlarge_with(4);
    assert_eq!(
        result2,
        MergeObj::new(Interval::new(3, 13), Interval::new(3, 13))
    );
    let result3 = result1.intersect_with(&result2);
    assert_eq!(result3, MergeObj::new(Interval::new(3, 8), Interval::new(3, 8)));
}

#[test]
fn test_min_dist_with_more_cases() {
    let obj1 = MergeObj::<i32, i32>::construct(0, 0);
    let obj2 = MergeObj::<i32, i32>::construct(3, 4);
    assert_eq!(obj1.min_dist_with(&obj2), 7);
    let obj3 = MergeObj::<i32, i32>::construct(-3, -4);
    assert_eq!(obj1.min_dist_with(&obj3), 7);
}

#[test]
fn test_enlarge_with_more_cases() {
    let obj1: MergeObj<Interval<i32>, Interval<i32>> =
        MergeObj::new(Interval::new(200, 600), Interval::new(200, 600));
    let enlarged = obj1.enlarge_with(100);
    assert_eq!(
        enlarged,
        MergeObj::new(Interval::new(100, 700), Interval::new(100, 700))
    );
}

#[test]
fn merge_obj_test_intersect_with_more_cases() {
    let obj1: MergeObj<Interval<i32>, Interval<i32>> =
        MergeObj::new(Interval::new(200, 600), Interval::new(200, 600));
    let obj2: MergeObj<Interval<i32>, Interval<i32>> =
        MergeObj::new(Interval::new(500, 900), Interval::new(500, 900));
    let intersected = obj1.intersect_with(&obj2);
    assert_eq!(
        intersected,
        MergeObj::new(Interval::new(500, 600), Interval::new(500, 600))
    );
    let obj3 = MergeObj::new(Interval::new(700, 900), Interval::new(700, 900));
    let intersected2 = obj1.intersect_with(&obj3);
    assert!(intersected2.impl_.xcoord.is_invalid());
    assert!(intersected2.impl_.ycoord.is_invalid());
}

#[test]
fn test_merge_with_more_cases() {
    let obj1: MergeObj<Interval<i32>, Interval<i32>> =
        MergeObj::new(Interval::new(0, 100), Interval::new(0, 100));
    let obj2: MergeObj<Interval<i32>, Interval<i32>> =
        MergeObj::new(Interval::new(100, 200), Interval::new(100, 200));
    let merged = obj1.merge_with(&obj2);
    assert_eq!(
        merged,
        MergeObj::new(Interval::new(100, 100), Interval::new(100, 100))
    );
}

#[test]
fn merge_splits_odd_separation_toward_second_operand() {
    let a: MergeObj<Interval<i32>, Interval<i32>> =
        MergeObj::new(Interval::new(0, 0), Interval::new(0, 0));
    let b: MergeObj<Interval<i32>, Interval<i32>> =
        MergeObj::new(Interval::new(5, 5), Interval::new(0, 0));
    assert_eq!(a.min_dist_with(&b), 5);
    assert_eq!(
        a.merge_with(&b),
        MergeObj::new(Interval::new(2, 2), Interval::new(-2, 2))
    );
}

#[test]
fn merge_min_dist_is_symmetric() {
    let a = MergeObj::<i32, i32>::construct(4, 5);
    let b = MergeObj::<i32, i32>::construct(7, 9);
    assert_eq!(a.min_dist_with(&b), 7);
    assert_eq!(b.min_dist_with(&a), 7);
}

#[test]
fn construct_rotates_and_get_impl_reads() {
    let a = MergeObj::<i32, i32>::construct(4, 5);
    assert_eq!(a.get_impl(), &Point::new(9, -1));
}

#[test]
fn merge_min_dist_is_symmetric_with_empty_sides() {
    let a: MergeObj<Interval<i32>, Interval<i32>> =
        MergeObj::new(Interval::new(10, 0), Interval::new(0, 0));
    let b: MergeObj<Interval<i32>, Interval<i32>> =
        MergeObj::new(Interval::new(5, 3), Interval::new(0, 0));
    assert_eq!(a.min_dist_with(&b), 7);
    assert_eq!(b.min_dist_with(&a), 7);
}
