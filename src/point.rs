//! Points with independently typed coordinates. With interval coordinates a
//! point stands for an axis-aligned rectangle.
use crate::generic::{Contain, Displacement, MinDist, Overlap};
use crate::interval::{fits_i32, Enlarge, Hull, Intersect, Interval};
use vstd::std_specs::ops::{AddSpec, SubSpec};
use crate::vector2::{vec2, Vector2};
use crate::text::{append_i32, signed_decimal};
use vstd::prelude::*;
use vstd::string::StringExecFns;

verus! {

/// A point `(xcoord, ycoord)`.
#[derive(PartialEq, Eq, Copy, PartialOrd, Ord, Clone, Hash, Debug, Default)]
pub struct Point<T1, T2> {
    pub xcoord: T1,
    pub ycoord: T2,
}

/// The point `(x, y)` of two integers known to fit in `i32`.
pub open spec fn pt(x: int, y: int) -> Point<i32, i32> {
    Point { xcoord: x as i32, ycoord: y as i32 }
}

impl<T1, T2> Point<T1, T2> {
    pub fn new(xcoord: T1, ycoord: T2) -> (r: Self)
        ensures
            r.xcoord == xcoord,
            r.ycoord == ycoord,
    {
        Point { xcoord, ycoord }
    }

    pub fn xcoord(&self) -> (r: &T1)
        ensures
            *r == self.xcoord,
    {
        &self.xcoord
    }

    pub fn ycoord(&self) -> (r: &T2)
        ensures
            *r == self.ycoord,
    {
        &self.ycoord
    }

    pub fn xcoord_mut(&mut self) -> (r: &mut T1)
        ensures
            *r == old(self).xcoord,
            final(self).xcoord == *final(r),
            final(self).ycoord == old(self).ycoord,
    {
        &mut self.xcoord
    }

    pub fn ycoord_mut(&mut self) -> (r: &mut T2)
        ensures
            *r == old(self).ycoord,
            final(self).ycoord == *final(r),
            final(self).xcoord == old(self).xcoord,
    {
        &mut self.ycoord
    }
}

impl<T1: Copy, T2: Copy> Point<T1, T2> {
    /// Transposes the axes: `(x, y)` becomes `(y, x)`.
    pub fn flip_xy(&self) -> (r: Point<T2, T1>)
        ensures
            r.xcoord == self.ycoord,
            r.ycoord == self.xcoord,
    {
        Point { xcoord: self.ycoord, ycoord: self.xcoord }
    }

    /// Transposes the axes; the same as `flip_xy`.
    pub fn flip(&self) -> (r: Point<T2, T1>)
        ensures
            r.xcoord == self.ycoord,
            r.ycoord == self.xcoord,
    {
        self.flip_xy()
    }
}

impl<T2: Copy> Point<i32, T2> {
    /// Mirrors about the y axis: `(x, y)` becomes `(-x, y)`.
    pub fn flip_y(&self) -> (r: Point<i32, T2>)
        requires
            self.xcoord != i32::MIN,
        ensures
            r.xcoord == -self.xcoord,
            r.ycoord == self.ycoord,
    {
        Point { xcoord: -self.xcoord, ycoord: self.ycoord }
    }
}

impl<T1, T2, U1, U2> Overlap<Point<U1, U2>> for Point<T1, T2> where
    T1: Overlap<U1>,
    T2: Overlap<U2>,
 {
    open spec fn spec_overlaps(&self, other: &Point<U1, U2>) -> bool {
        self.xcoord.spec_overlaps(&other.xcoord) && self.ycoord.spec_overlaps(&other.ycoord)
    }

    fn overlaps(&self, other: &Point<U1, U2>) -> (r: bool) {
        self.xcoord.overlaps(&other.xcoord) && self.ycoord.overlaps(&other.ycoord)
    }
}

impl<T1, T2, U1, U2> Contain<Point<U1, U2>> for Point<T1, T2> where
    T1: Contain<U1>,
    T2: Contain<U2>,
 {
    open spec fn spec_contains(&self, other: &Point<U1, U2>) -> bool {
        self.xcoord.spec_contains(&other.xcoord) && self.ycoord.spec_contains(&other.ycoord)
    }

    fn contains(&self, other: &Point<U1, U2>) -> (r: bool) {
        self.xcoord.contains(&other.xcoord) && self.ycoord.contains(&other.ycoord)
    }
}

/// The L1 distance: the per-axis gaps are added.
impl<T1, T2, U1, U2> MinDist<Point<U1, U2>> for Point<T1, T2> where
    T1: MinDist<U1>,
    T2: MinDist<U2>,
 {
    open spec fn spec_min_dist(&self, other: &Point<U1, U2>) -> nat {
        self.xcoord.spec_min_dist(&other.xcoord) + self.ycoord.spec_min_dist(&other.ycoord)
    }

    fn min_dist_with(&self, other: &Point<U1, U2>) -> (r: u32) {
        let dx = self.xcoord.min_dist_with(&other.xcoord);
        let dy = self.ycoord.min_dist_with(&other.ycoord);
        dx + dy
    }
}

impl<T1, T2> Displacement<Point<T1, T2>> for Point<T1, T2> where
    T1: Displacement<T1, Output = T1>,
    T2: Displacement<T2, Output = T2>,
 {
    type Output = Vector2<T1, T2>;

    open spec fn spec_displace_ok(&self, other: &Point<T1, T2>) -> bool {
        self.xcoord.spec_displace_ok(&other.xcoord) && self.ycoord.spec_displace_ok(
            &other.ycoord,
        )
    }

    open spec fn spec_displace(&self, other: &Point<T1, T2>) -> Vector2<T1, T2> {
        Vector2 {
            x_: self.xcoord.spec_displace(&other.xcoord),
            y_: self.ycoord.spec_displace(&other.ycoord),
        }
    }

    fn displace(&self, other: &Point<T1, T2>) -> (r: Vector2<T1, T2>) {
        Vector2::new(self.xcoord.displace(&other.xcoord), self.ycoord.displace(&other.ycoord))
    }
}

impl<T1, T2, U1, U2> Hull<Point<U1, U2>> for Point<T1, T2> where
    T1: Hull<U1>,
    T2: Hull<U2>,
 {
    type Output = Point<T1::Output, T2::Output>;

    open spec fn spec_hull(&self, other: &Point<U1, U2>) -> Point<T1::Output, T2::Output> {
        Point {
            xcoord: self.xcoord.spec_hull(&other.xcoord),
            ycoord: self.ycoord.spec_hull(&other.ycoord),
        }
    }

    fn hull_with(&self, other: &Point<U1, U2>) -> (r: Point<T1::Output, T2::Output>) {
        Point::new(self.xcoord.hull_with(&other.xcoord), self.ycoord.hull_with(&other.ycoord))
    }
}

impl<T1, T2, U1, U2> Intersect<Point<U1, U2>> for Point<T1, T2> where
    T1: Intersect<U1>,
    T2: Intersect<U2>,
 {
    type Output = Point<T1::Output, T2::Output>;

    open spec fn spec_intersect(&self, other: &Point<U1, U2>) -> Point<T1::Output, T2::Output> {
        Point {
            xcoord: self.xcoord.spec_intersect(&other.xcoord),
            ycoord: self.ycoord.spec_intersect(&other.ycoord),
        }
    }

    fn intersect_with(&self, other: &Point<U1, U2>) -> (r: Point<T1::Output, T2::Output>) {
        Point::new(
            self.xcoord.intersect_with(&other.xcoord),
            self.ycoord.intersect_with(&other.ycoord),
        )
    }
}

impl<T1, T2, Alpha: Copy> Enlarge<Alpha> for Point<T1, T2> where
    T1: Enlarge<Alpha>,
    T2: Enlarge<Alpha>,
 {
    type Output = Point<T1::Output, T2::Output>;

    open spec fn spec_enlarge_ok(&self, alpha: Alpha) -> bool {
        self.xcoord.spec_enlarge_ok(alpha) && self.ycoord.spec_enlarge_ok(alpha)
    }

    open spec fn spec_enlarge(&self, alpha: Alpha) -> Point<T1::Output, T2::Output> {
        Point { xcoord: self.xcoord.spec_enlarge(alpha), ycoord: self.ycoord.spec_enlarge(alpha) }
    }

    fn enlarge_with(&self, alpha: Alpha) -> (r: Point<T1::Output, T2::Output>) {
        Point::new(self.xcoord.enlarge_with(alpha), self.ycoord.enlarge_with(alpha))
    }
}

impl<T1, T2> Point<T1, T2> {
    /// The per-axis intersection; the same as `intersect_with`.
    pub fn intersection_with<U1, U2>(&self, other: &Point<U1, U2>) -> (r: Point<
        T1::Output,
        T2::Output,
    >) where T1: Intersect<U1>, T2: Intersect<U2>
        ensures
            r == self.spec_intersect(other),
    {
        self.intersect_with(other)
    }
}

/// Translation of a point by a vector.
impl core::ops::Add<Vector2<i32, i32>> for Point<i32, i32> {
    type Output = Point<i32, i32>;

    fn add(self, other: Vector2<i32, i32>) -> (r: Point<i32, i32>) {
        Point::new(self.xcoord + other.x_, self.ycoord + other.y_)
    }
}

impl vstd::std_specs::ops::AddSpecImpl<Vector2<i32, i32>> for Point<i32, i32> {
    open spec fn obeys_add_spec() -> bool {
        true
    }

    open spec fn add_req(self, other: Vector2<i32, i32>) -> bool {
        fits_i32(self.xcoord + other.x_) && fits_i32(self.ycoord + other.y_)
    }

    open spec fn add_spec(self, other: Vector2<i32, i32>) -> Point<i32, i32> {
        pt(self.xcoord + other.x_, self.ycoord + other.y_)
    }
}

/// Translation of a point by the opposite of a vector.
impl core::ops::Sub<Vector2<i32, i32>> for Point<i32, i32> {
    type Output = Point<i32, i32>;

    fn sub(self, other: Vector2<i32, i32>) -> (r: Point<i32, i32>) {
        Point::new(self.xcoord - other.x_, self.ycoord - other.y_)
    }
}

impl vstd::std_specs::ops::SubSpecImpl<Vector2<i32, i32>> for Point<i32, i32> {
    open spec fn obeys_sub_spec() -> bool {
        true
    }

    open spec fn sub_req(self, other: Vector2<i32, i32>) -> bool {
        fits_i32(self.xcoord - other.x_) && fits_i32(self.ycoord - other.y_)
    }

    open spec fn sub_spec(self, other: Vector2<i32, i32>) -> Point<i32, i32> {
        pt(self.xcoord - other.x_, self.ycoord - other.y_)
    }
}

/// The vector from `other` to `self`.
impl core::ops::Sub<Point<i32, i32>> for Point<i32, i32> {
    type Output = Vector2<i32, i32>;

    fn sub(self, other: Point<i32, i32>) -> (r: Vector2<i32, i32>) {
        Vector2::new(self.xcoord - other.xcoord, self.ycoord - other.ycoord)
    }
}

impl vstd::std_specs::ops::SubSpecImpl<Point<i32, i32>> for Point<i32, i32> {
    open spec fn obeys_sub_spec() -> bool {
        true
    }

    open spec fn sub_req(self, other: Point<i32, i32>) -> bool {
        fits_i32(self.xcoord - other.xcoord) && fits_i32(self.ycoord - other.ycoord)
    }

    open spec fn sub_spec(self, other: Point<i32, i32>) -> Vector2<i32, i32> {
        vec2(self.xcoord - other.xcoord, self.ycoord - other.ycoord)
    }
}

/// Reflection through the origin.
impl core::ops::Neg for Point<i32, i32> {
    type Output = Point<i32, i32>;

    fn neg(self) -> (r: Point<i32, i32>) {
        Point::new(-self.xcoord, -self.ycoord)
    }
}

impl vstd::std_specs::ops::NegSpecImpl for Point<i32, i32> {
    open spec fn obeys_neg_spec() -> bool {
        true
    }

    open spec fn neg_req(self) -> bool {
        self.xcoord != i32::MIN && self.ycoord != i32::MIN
    }

    open spec fn neg_spec(self) -> Point<i32, i32> {
        pt(-self.xcoord, -self.ycoord)
    }
}

impl Point<i32, i32> {
    /// The text `(x, y)`.
    pub fn to_string(&self) -> (r: String)
        ensures
            r@ == seq!['('] + signed_decimal(self.xcoord as int) + seq![',', ' '] + signed_decimal(
                self.ycoord as int,
            ) + seq![')'],
    {
        proof {
            reveal_strlit("(");
            reveal_strlit(", ");
            reveal_strlit(")");
        }
        let mut r = String::from_str("(");
        append_i32(&mut r, self.xcoord);
        r.append(", ");
        append_i32(&mut r, self.ycoord);
        r.append(")");
        r
    }

    /// In-place translation by `other`.
    pub fn add_assign(&mut self, other: Vector2<i32, i32>)
        requires
            fits_i32(old(self).xcoord + other.x_),
            fits_i32(old(self).ycoord + other.y_),
        ensures
            *final(self) == pt(old(self).xcoord + other.x_, old(self).ycoord + other.y_),
    {
        self.xcoord = self.xcoord + other.x_;
        self.ycoord = self.ycoord + other.y_;
    }

    /// In-place translation by the opposite of `other`.
    pub fn sub_assign(&mut self, other: Vector2<i32, i32>)
        requires
            fits_i32(old(self).xcoord - other.x_),
            fits_i32(old(self).ycoord - other.y_),
        ensures
            *final(self) == pt(old(self).xcoord - other.x_, old(self).ycoord - other.y_),
    {
        self.xcoord = self.xcoord - other.x_;
        self.ycoord = self.ycoord - other.y_;
    }
}

/// Translating a point by a vector and then by its opposite gives the point back.
pub proof fn lemma_translate_round_trip(p: Point<i32, i32>, v: Vector2<i32, i32>)
    requires
        p.add_req(v),
    ensures
        p.add_spec(v).sub_req(v),
        p.add_spec(v).sub_spec(v) == p,
{
}

/// The L1 distance between two points does not depend on their order.
pub proof fn lemma_point_min_dist_symmetric(a: Point<i32, i32>, b: Point<i32, i32>)
    ensures
        a.spec_min_dist(&b) == b.spec_min_dist(&a),
{
}

/// The L1 gap between two rectangles does not depend on their order, also
/// when a side is empty.
pub proof fn lemma_rect_min_dist_symmetric(
    a: Point<Interval<i32>, Interval<i32>>,
    b: Point<Interval<i32>, Interval<i32>>,
)
    ensures
        a.spec_min_dist(&b) == b.spec_min_dist(&a),
{
}

} // verus!
