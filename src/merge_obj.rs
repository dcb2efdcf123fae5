//! Regions of the Manhattan plane held in coordinates rotated by 45 degrees,
//! where a Manhattan ball becomes an axis-aligned square.
use crate::generic::MinDist;
use crate::interval::{fits_i32, lemma_enlarge_by_zero, Enlarge, Intersect, Interval};
use crate::point::Point;
use vstd::prelude::*;

verus! {

/// A region stored in rotated coordinates `(i + j, i - j)`.
#[derive(PartialEq, Eq, Copy, Clone, Hash, Debug, Default)]
pub struct MergeObj<T1, T2> {
    pub impl_: Point<T1, T2>,
}

pub open spec fn max_n(a: nat, b: nat) -> nat {
    if a >= b {
        a
    } else {
        b
    }
}

impl<T1, T2> MergeObj<T1, T2> {
    /// Wraps coordinates that are already rotated.
    pub fn new(xcoord: T1, ycoord: T2) -> (r: MergeObj<T1, T2>)
        ensures
            r.impl_.xcoord == xcoord,
            r.impl_.ycoord == ycoord,
    {
        MergeObj { impl_: Point::new(xcoord, ycoord) }
    }

    pub fn get_impl(&self) -> (r: &Point<T1, T2>)
        ensures
            *r == self.impl_,
    {
        &self.impl_
    }
}

impl MergeObj<i32, i32> {
    /// Rotates the point `(i, j)` of the plane into `(i + j, i - j)`.
    pub fn construct(xcoord: i32, ycoord: i32) -> (r: MergeObj<i32, i32>)
        requires
            fits_i32(xcoord + ycoord),
            fits_i32(xcoord - ycoord),
        ensures
            r.impl_.xcoord == xcoord + ycoord,
            r.impl_.ycoord == xcoord - ycoord,
    {
        MergeObj { impl_: Point::new(xcoord + ycoord, xcoord - ycoord) }
    }
}

impl<T1: MinDist<T1>, T2: MinDist<T2>> MergeObj<T1, T2> {
    /// The Manhattan separation: the larger of the two rotated-axis gaps.
    pub open spec fn spec_min_dist(&self, other: &MergeObj<T1, T2>) -> nat {
        max_n(
            self.impl_.xcoord.spec_min_dist(&other.impl_.xcoord),
            self.impl_.ycoord.spec_min_dist(&other.impl_.ycoord),
        )
    }

    /// Both rotated-axis gaps fit in a `u32`.
    pub open spec fn spec_min_dist_ok(&self, other: &MergeObj<T1, T2>) -> bool {
        &&& self.impl_.xcoord.spec_min_dist(&other.impl_.xcoord) <= u32::MAX
        &&& self.impl_.ycoord.spec_min_dist(&other.impl_.ycoord) <= u32::MAX
    }

    pub fn min_dist_with(&self, other: &MergeObj<T1, T2>) -> (r: u32)
        requires
            self.spec_min_dist_ok(other),
        ensures
            r as nat == self.spec_min_dist(other),
    {
        let dx = self.impl_.xcoord.min_dist_with(&other.impl_.xcoord);
        let dy = self.impl_.ycoord.min_dist_with(&other.impl_.ycoord);
        if dx >= dy {
            dx
        } else {
            dy
        }
    }
}

impl<T1, T2> MergeObj<T1, T2> where
    T1: MinDist<T1> + Enlarge<i32, Output = T1> + Intersect<T1, Output = T1>,
    T2: MinDist<T2> + Enlarge<i32, Output = T2> + Intersect<T2, Output = T2>,
 {
    pub open spec fn spec_enlarge_ok(&self, alpha: i32) -> bool {
        self.impl_.xcoord.spec_enlarge_ok(alpha) && self.impl_.ycoord.spec_enlarge_ok(alpha)
    }

    pub open spec fn spec_enlarge(&self, alpha: i32) -> MergeObj<T1, T2> {
        MergeObj {
            impl_: Point {
                xcoord: self.impl_.xcoord.spec_enlarge(alpha),
                ycoord: self.impl_.ycoord.spec_enlarge(alpha),
            },
        }
    }

    pub open spec fn spec_intersect(&self, other: &MergeObj<T1, T2>) -> MergeObj<T1, T2> {
        MergeObj {
            impl_: Point {
                xcoord: self.impl_.xcoord.spec_intersect(&other.impl_.xcoord),
                ycoord: self.impl_.ycoord.spec_intersect(&other.impl_.ycoord),
            },
        }
    }

    /// The radius by which `self` grows in a merge: half the separation, rounded down.
    pub open spec fn spec_half(&self, other: &MergeObj<T1, T2>) -> int {
        self.spec_min_dist(other) as int / 2
    }

    /// The radius by which `other` grows in a merge: the rest of the separation.
    pub open spec fn spec_rest(&self, other: &MergeObj<T1, T2>) -> int {
        self.spec_min_dist(other) - self.spec_half(other)
    }

    /// The inputs on which a merge computes without overflow.
    pub open spec fn spec_merge_ok(&self, other: &MergeObj<T1, T2>) -> bool {
        &&& self.spec_min_dist_ok(other)
        &&& self.spec_rest(other) <= i32::MAX
        &&& self.spec_enlarge_ok(self.spec_half(other) as i32)
        &&& other.spec_enlarge_ok(self.spec_rest(other) as i32)
    }

    /// The merged region: `self` grown by the half, `other` by the rest, intersected.
    pub open spec fn spec_merge(&self, other: &MergeObj<T1, T2>) -> MergeObj<T1, T2> {
        let trr1 = self.spec_enlarge(self.spec_half(other) as i32);
        let trr2 = other.spec_enlarge(self.spec_rest(other) as i32);
        trr1.spec_intersect(&trr2)
    }

    /// Grows the region by `alpha` on both rotated axes.
    pub fn enlarge_with(&self, alpha: i32) -> (r: MergeObj<T1, T2>)
        requires
            self.spec_enlarge_ok(alpha),
        ensures
            r == self.spec_enlarge(alpha),
    {
        let xcoord = self.impl_.xcoord.enlarge_with(alpha);
        let ycoord = self.impl_.ycoord.enlarge_with(alpha);
        MergeObj::new(xcoord, ycoord)
    }

    /// The per-axis intersection; the result may hold empty intervals.
    pub fn intersect_with(&self, other: &MergeObj<T1, T2>) -> (r: MergeObj<T1, T2>)
        ensures
            r == self.spec_intersect(other),
    {
        let xcoord = self.impl_.xcoord.intersect_with(&other.impl_.xcoord);
        let ycoord = self.impl_.ycoord.intersect_with(&other.impl_.ycoord);
        MergeObj::new(xcoord, ycoord)
    }

    /// The region within `alpha / 2` of `self` and within `alpha - alpha / 2` of
    /// `other`, where `alpha` is their Manhattan separation.
    pub fn merge_with(&self, other: &MergeObj<T1, T2>) -> (r: MergeObj<T1, T2>)
        requires
            self.spec_merge_ok(other),
        ensures
            r == self.spec_merge(other),
    {
        let alpha = self.min_dist_with(other);
        let half = alpha / 2;
        let trr1 = self.enlarge_with(half as i32);
        let trr2 = other.enlarge_with((alpha - half) as i32);
        trr1.intersect_with(&trr2)
    }
}

/// Merging two rectangles that already touch is their plain intersection.
pub proof fn lemma_merge_touching_is_intersection(
    a: MergeObj<Interval<i32>, Interval<i32>>,
    b: MergeObj<Interval<i32>, Interval<i32>>,
)
    requires
        a.spec_min_dist(&b) == 0,
    ensures
        a.spec_merge_ok(&b),
        a.spec_merge(&b) == a.spec_intersect(&b),
{
    lemma_enlarge_by_zero(a.impl_.xcoord, 0);
    lemma_enlarge_by_zero(a.impl_.ycoord, 0);
    lemma_enlarge_by_zero(b.impl_.xcoord, 0);
    lemma_enlarge_by_zero(b.impl_.ycoord, 0);
}

/// Manhattan separation is symmetric for rotated points.
pub proof fn lemma_merge_point_min_dist_symmetric(a: MergeObj<i32, i32>, b: MergeObj<i32, i32>)
    ensures
        a.spec_min_dist(&b) == b.spec_min_dist(&a),
{
}

/// Manhattan separation is symmetric for rotated rectangles, also when a
/// side is empty.
pub proof fn lemma_merge_rect_min_dist_symmetric(
    a: MergeObj<Interval<i32>, Interval<i32>>,
    b: MergeObj<Interval<i32>, Interval<i32>>,
)
    ensures
        a.spec_min_dist(&b) == b.spec_min_dist(&a),
{
}

} // verus!
