//! Capability traits shared by scalars, intervals and points.
use vstd::prelude::*;

verus! {

/// The distance between two integers, as a natural number.
pub open spec fn abs_diff(a: int, b: int) -> nat {
    if a >= b {
        (a - b) as nat
    } else {
        (b - a) as nat
    }
}

/// Whether two objects share at least one point.
pub trait Overlap<T> {
    spec fn spec_overlaps(&self, other: &T) -> bool;

    fn overlaps(&self, other: &T) -> (r: bool)
        ensures
            r == self.spec_overlaps(other),
    ;
}

/// Whether `self` contains the whole of `other`.
pub trait Contain<T> {
    spec fn spec_contains(&self, other: &T) -> bool;

    fn contains(&self, other: &T) -> (r: bool)
        ensures
            r == self.spec_contains(other),
    ;
}

/// The smallest gap between two objects, as an unsigned distance.
pub trait MinDist<T> {
    spec fn spec_min_dist(&self, other: &T) -> nat;

    fn min_dist_with(&self, other: &T) -> (r: u32)
        requires
            self.spec_min_dist(other) <= u32::MAX,
        ensures
            r as nat == self.spec_min_dist(other),
    ;
}

/// The offset from `other` to `self` (`self - other`).
pub trait Displacement<T> {
    type Output;

    spec fn spec_displace_ok(&self, other: &T) -> bool;

    spec fn spec_displace(&self, other: &T) -> Self::Output;

    fn displace(&self, other: &T) -> (r: Self::Output)
        requires
            self.spec_displace_ok(other),
        ensures
            r == self.spec_displace(other),
    ;
}

impl Overlap<i32> for i32 {
    open spec fn spec_overlaps(&self, other: &i32) -> bool {
        *self == *other
    }

    fn overlaps(&self, other: &i32) -> (r: bool) {
        *self == *other
    }
}

impl Contain<i32> for i32 {
    open spec fn spec_contains(&self, other: &i32) -> bool {
        *self == *other
    }

    fn contains(&self, other: &i32) -> (r: bool) {
        *self == *other
    }
}

impl MinDist<i32> for i32 {
    open spec fn spec_min_dist(&self, other: &i32) -> nat {
        abs_diff(*self as int, *other as int)
    }

    fn min_dist_with(&self, other: &i32) -> (r: u32) {
        let d: i64 = (*self as i64) - (*other as i64);
        if d >= 0 {
            d as u32
        } else {
            (-d) as u32
        }
    }
}

impl Displacement<i32> for i32 {
    type Output = i32;

    open spec fn spec_displace_ok(&self, other: &i32) -> bool {
        i32::MIN <= *self - *other <= i32::MAX
    }

    open spec fn spec_displace(&self, other: &i32) -> i32 {
        (*self - *other) as i32
    }

    fn displace(&self, other: &i32) -> (r: i32) {
        *self - *other
    }
}

} // verus!
