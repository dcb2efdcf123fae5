use physdes::polygon::{
    create_xmono_polygon, create_ymono_polygon, point_in_polygon, polygon_is_anticlockwise,
    polygon_is_xmonotone, polygon_is_ymonotone,
};
use physdes::rpolygon::{
    rpolygon_is_anticlockwise, rpolygon_is_convex, rpolygon_is_xmonotone, rpolygon_is_ymonotone,
};
use physdes::{Point, Polygon, RPolygon, Vector2};

const COORDS: [(i32, i32); 14] = [
    (-2, 2),
    (0, -1),
    (-5, 1),
    (-2, 4),
    (0, -4),
    (-4, 3),
    (-6, -2),
    (5, 1),
    (2, 2),
    (3, -3),
    (-3, -3),
    (3, 3),
    (-3, -4),
    (1, 4),
];

const R_COORDS: [(i32, i32); 12] = [
    (-2, 2),
    (0, -1),
    (-5, 1),
    (-2, 4),
    (0, -4),
    (-4, 3),
    (-6, -2),
    (5, 1),
    (2, 2),
    (3, -3),
    (-3, -4),
    (1, 4),
];

fn points(coords: &[(i32, i32)]) -> Vec<Point<i32, i32>> {
    coords.iter().map(|(x, y)| Point::new(*x, *y)).collect()
}

#[test]
fn test_is_rectilinear() {
    let rectilinear_polygon = Polygon::from_pointset(&points(&[(0, 0), (0, 1), (1, 1), (1, 0)]));
    assert!(rectilinear_polygon.is_rectilinear());

    let non_rectilinear_polygon = Polygon::from_pointset(&points(&[(0, 0), (1, 1), (2, 0)]));
    assert!(!non_rectilinear_polygon.is_rectilinear());
}

#[test]
fn test_is_convex() {
    let convex_polygon = Polygon::from_pointset(&points(&[(0, 0), (2, 0), (2, 2), (0, 2)]));
    assert!(convex_polygon.is_convex());

    let non_convex_polygon =
        Polygon::from_pointset(&points(&[(0, 0), (2, 0), (1, 1), (2, 2), (0, 2)]));
    assert!(!non_convex_polygon.is_convex());

    let triangle = Polygon::from_pointset(&points(&[(0, 0), (2, 0), (1, 2)]));
    assert!(triangle.is_convex());
}

#[test]
fn test_is_anticlockwise() {
    let clockwise_polygon = Polygon::from_pointset(&points(&[(0, 0), (0, 1), (1, 1), (1, 0)]));
    assert!(!clockwise_polygon.is_anticlockwise());

    let counter_clockwise_polygon =
        Polygon::from_pointset(&points(&[(0, 0), (1, 0), (1, 1), (0, 1)]));
    assert!(counter_clockwise_polygon.is_anticlockwise());
}

#[test]
fn test_is_convex_clockwise() {
    let convex_polygon = Polygon::from_pointset(&points(&[(0, 0), (0, 2), (2, 2), (2, 0)]));
    assert!(convex_polygon.is_convex());

    let non_convex_polygon =
        Polygon::from_pointset(&points(&[(0, 0), (0, 2), (1, 1), (2, 2), (2, 0)]));
    assert!(!non_convex_polygon.is_convex());
}

#[test]
fn test_is_convex_more() {
    let non_convex_polygon =
        Polygon::from_pointset(&points(&[(0, 0), (2, 0), (1, 1), (2, 2), (0, 2)]));
    assert!(!non_convex_polygon.is_convex());

    let convex_polygon = Polygon::from_pointset(&points(&[(0, 0), (2, 0), (2, 2), (0, 2)]));
    assert!(convex_polygon.is_convex());
}

#[test]
fn polygon_translation_round_trip() {
    let p = Polygon::new(&points(&[(0, 0), (2, 0), (1, 2)]));
    let mut q = p.clone();
    q.add_assign(Vector2::new(4, 5));
    assert_eq!(q.origin, Point::new(4, 5));
    q.sub_assign(Vector2::new(4, 5));
    assert_eq!(q, p);
}

#[test]
fn polygon_area_vertices_and_box() {
    let p = Polygon::new(&points(&[(1, 1), (3, 1), (3, 4), (1, 4)]));
    assert_eq!(p.signed_area_x2(), 12);
    assert_eq!(p.vecs, vec![Vector2::new(2, 0), Vector2::new(2, 3), Vector2::new(0, 3)]);
    assert_eq!(p.vertices(), points(&[(1, 1), (3, 1), (3, 4), (1, 4)]));
    assert_eq!(p.bounding_box(), (Point::new(1, 1), Point::new(3, 4)));
    let cw = Polygon::new(&points(&[(1, 1), (1, 4), (3, 4), (3, 1)]));
    assert_eq!(cw.signed_area_x2(), -12);
    let q = Polygon::from_origin_and_vectors(Point::new(0, 0), vec![Vector2::new(-1, 2)]);
    assert_eq!(q.signed_area_x2(), 0);
    assert_eq!(q.bounding_box(), (Point::new(-1, 0), Point::new(0, 2)));
}

#[test]
fn test_point_in_rpolygon() {
    let pointset = points(&[
        (-2, 2),
        (0, -1),
        (-5, 1),
        (-2, 4),
        (0, -4),
        (-4, 3),
        (-6, -2),
        (5, 1),
        (2, 2),
        (3, -3),
        (-3, -4),
        (1, 4),
    ]);
    let q = Point::<i32, i32>::new(0, -3);
    assert!(!RPolygon::<i32>::point_in_rpolygon(&pointset, &q));
}

#[test]
fn test_signed_area_more_cases() {
    let p1 = Point::new(0, 0);
    let p2 = Point::new(1, 0);
    let p3 = Point::new(1, 1);
    let p4 = Point::new(0, 1);
    let poly = RPolygon::new(&[p1, p2, p3, p4]);
    assert_eq!(poly.signed_area(), 1);

    let p5 = Point::new(0, 0);
    let p6 = Point::new(0, 1);
    let p7 = Point::new(1, 1);
    let p8 = Point::new(1, 0);
    let poly2 = RPolygon::new(&[p5, p6, p7, p8]);
    assert_eq!(poly2.signed_area(), -1);
}

#[test]
fn test_point_in_rpolygon_more_cases() {
    let p1 = Point::new(0, 0);
    let p2 = Point::new(1, 0);
    let p3 = Point::new(1, 1);
    let p4 = Point::new(0, 1);
    let pointset = &[p1, p2, p3, p4];

    let q1 = Point::new(0, 0);
    assert!(RPolygon::<i32>::point_in_rpolygon(pointset, &q1));

    let q2 = Point::new(1, 1);
    assert!(!RPolygon::<i32>::point_in_rpolygon(pointset, &q2));

    let q3 = Point::new(0, 1);
    assert!(!RPolygon::<i32>::point_in_rpolygon(pointset, &q3));

    let q4 = Point::new(1, 0);
    assert!(!RPolygon::<i32>::point_in_rpolygon(pointset, &q4));
}

#[test]
fn rpolygon_orientation_vertices_and_box() {
    let acw = RPolygon::from_pointset(&points(&[(0, 0), (2, 0), (2, 1), (0, 1)]));
    assert!(acw.is_anticlockwise());
    assert!(acw.is_rectilinear());
    let cw = RPolygon::from_pointset(&points(&[(0, 0), (0, 1), (2, 1), (2, 0)]));
    assert!(!cw.is_anticlockwise());
    assert_eq!(cw.vertices(), points(&[(0, 0), (0, 1), (2, 1), (2, 0)]));
    assert_eq!(cw.bounding_box(), (Point::new(0, 0), Point::new(2, 1)));
    let mut moved = RPolygon::from_origin_and_vectors(Point::new(0, 0), vec![Vector2::new(1, 1)]);
    moved.add_assign(Vector2::new(3, 4));
    assert_eq!(moved.origin, Point::new(3, 4));
    moved.sub_assign(Vector2::new(3, 4));
    assert_eq!(moved.origin, Point::new(0, 0));
}

#[test]
fn test_polygon() {
    let pointset = points(&COORDS);
    let s = create_xmono_polygon(&pointset);
    assert!(polygon_is_anticlockwise(&s));

    let p = Polygon::from_pointset(&s);
    let mut q = Polygon::from_pointset(&s);
    q.add_assign(Vector2::new(4, 5));
    q.sub_assign(Vector2::new(4, 5));
    assert_eq!(q, p);
}

#[test]
fn test_ymono_polygon() {
    let pointset = points(&COORDS);
    let s = create_ymono_polygon(&pointset);
    assert!(polygon_is_ymonotone(&s));
    assert!(!polygon_is_xmonotone(&s));
    assert!(polygon_is_anticlockwise(&s));

    let p = Polygon::from_pointset(&s);
    assert_eq!(p.signed_area_x2(), 102);
    assert!(p.is_anticlockwise());
}

#[test]
fn test_xmono_polygon() {
    let pointset = points(&COORDS);
    let s = create_xmono_polygon(&pointset);
    assert!(polygon_is_xmonotone(&s));
    assert!(!polygon_is_ymonotone(&s));
    assert!(polygon_is_anticlockwise(&s));

    let p = Polygon::from_pointset(&s);
    assert_eq!(p.signed_area_x2(), 111);
    assert!(p.is_anticlockwise());
}

#[test]
fn test_point_in_polygon_missed_branches() {
    let pointset = points(&[(0, 0), (10, 0), (10, 10), (0, 10)]);
    assert!(!point_in_polygon(&pointset, &Point::new(5, 10)));
    assert!(point_in_polygon(&pointset, &Point::new(5, 0)));
    assert!(point_in_polygon(&pointset, &Point::new(5, 0)));
}

#[test]
fn test_point_in_polygon_more() {
    let pointset = points(&[(0, 0), (10, 5), (0, 10)]);
    assert!(point_in_polygon(&pointset, &Point::new(1, 5)));

    let pointset_cw = points(&[(0, 0), (0, 10), (10, 5)]);
    assert!(point_in_polygon(&pointset_cw, &Point::new(1, 5)));
}

#[test]
fn test_ymono_rpolygon() {
    let pointset = points(&R_COORDS);
    let (pointset, is_cw) = RPolygon::<i32>::create_ymono_rpolygon(&pointset);
    assert!(rpolygon_is_anticlockwise(&pointset));
    assert!(rpolygon_is_ymonotone(&pointset));
    assert!(!rpolygon_is_xmonotone(&pointset));
    for p in pointset.iter() {
        println!("({}, {}) ", p.xcoord, p.ycoord);
    }
    let poly = RPolygon::<i32>::new(&pointset);
    assert!(!is_cw);
    assert_eq!(poly.signed_area(), 45);
}

#[test]
fn test_xmono_rpolygon() {
    let pointset = points(&R_COORDS);
    let (pointset, is_anticw) = RPolygon::<i32>::create_xmono_rpolygon(&pointset);
    assert!(!rpolygon_is_anticlockwise(&pointset));
    assert!(rpolygon_is_xmonotone(&pointset));
    assert!(!rpolygon_is_ymonotone(&pointset));
    for p in pointset.iter() {
        println!("({}, {}) ", p.xcoord, p.ycoord);
    }
    let poly = RPolygon::<i32>::new(&pointset);
    assert!(!is_anticw);
    assert_eq!(poly.signed_area(), -53);
    assert!(!poly.is_anticlockwise())
}

#[test]
fn mono_chain_is_a_permutation_in_axis_order() {
    let pointset = points(&[(3, 0), (0, 0), (1, 2), (2, -1)]);
    let s = create_xmono_polygon(&pointset);
    assert_eq!(s, points(&[(0, 0), (2, -1), (3, 0), (1, 2)]));
    let (r, acw) = RPolygon::<i32>::create_mono_rpolygon(&pointset, false);
    assert!(acw);
    assert_eq!(r, points(&[(0, 0), (2, -1), (3, 0), (1, 2)]));
}

#[test]
fn rpolygon_convexity_needs_both_monotone_axes() {
    let square = points(&[(0, 0), (1, 0), (1, 1), (0, 1)]);
    assert!(rpolygon_is_convex(&square));
    let pointset = points(&R_COORDS);
    let (ymono, _) = RPolygon::<i32>::create_ymono_rpolygon(&pointset);
    assert!(!rpolygon_is_convex(&ymono));
}
