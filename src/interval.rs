//! Closed intervals `[lb, ub]`; an interval with `lb > ub` stands for the empty set.
use crate::generic::{abs_diff, Contain, Displacement, MinDist, Overlap};
use crate::text::{append_i32, signed_decimal};
use vstd::prelude::*;
use vstd::string::StringExecFns;

verus! {

/// A closed range of values from `lb` to `ub`.
#[derive(Debug, Clone, Copy, PartialEq, Eq)]
pub struct Interval<T> {
    pub lb: T,
    pub ub: T,
}

/// Whether an integer fits in an `i32`.
pub open spec fn fits_i32(v: int) -> bool {
    i32::MIN <= v <= i32::MAX
}

pub open spec fn min_i(a: int, b: int) -> int {
    if a <= b {
        a
    } else {
        b
    }
}

pub open spec fn max_i(a: int, b: int) -> int {
    if a >= b {
        a
    } else {
        b
    }
}

/// The interval `[lb, ub]` of two integers known to fit in `i32`.
pub open spec fn ival(lb: int, ub: int) -> Interval<i32> {
    Interval { lb: lb as i32, ub: ub as i32 }
}

impl<T> Interval<T> {
    /// Builds `[lb, ub]` as given, without reordering the bounds.
    pub fn new(lb: T, ub: T) -> (r: Self)
        ensures
            r.lb == lb,
            r.ub == ub,
    {
        Interval { lb, ub }
    }
}

impl Interval<i32> {
    /// A valid interval has `lb <= ub` and holds at least one value.
    pub open spec fn is_valid(self) -> bool {
        self.lb <= self.ub
    }

    pub fn lb(&self) -> (r: i32)
        ensures
            r == self.lb,
    {
        self.lb
    }

    pub fn ub(&self) -> (r: i32)
        ensures
            r == self.ub,
    {
        self.ub
    }

    /// True for the empty-set sentinel, `lb > ub`.
    pub fn is_invalid(&self) -> (r: bool)
        ensures
            r == !self.is_valid(),
    {
        self.lb > self.ub
    }

    /// The text `[lb, ub]`.
    pub fn to_string(&self) -> (r: String)
        ensures
            r@ == seq!['['] + signed_decimal(self.lb as int) + seq![',', ' '] + signed_decimal(
                self.ub as int,
            ) + seq![']'],
    {
        proof {
            reveal_strlit("[");
            reveal_strlit(", ");
            reveal_strlit("]");
        }
        let mut r = String::from_str("[");
        append_i32(&mut r, self.lb);
        r.append(", ");
        append_i32(&mut r, self.ub);
        r.append("]");
        r
    }

    /// `ub - lb`; negative on an invalid interval.
    pub fn length(&self) -> (r: i32)
        requires
            fits_i32(self.ub - self.lb),
        ensures
            r == self.ub - self.lb,
    {
        self.ub - self.lb
    }
}

/// Grows an object by `alpha` in every direction.
pub trait Enlarge<Alpha> {
    type Output;

    spec fn spec_enlarge_ok(&self, alpha: Alpha) -> bool;

    spec fn spec_enlarge(&self, alpha: Alpha) -> Self::Output;

    fn enlarge_with(&self, alpha: Alpha) -> (r: Self::Output)
        requires
            self.spec_enlarge_ok(alpha),
        ensures
            r == self.spec_enlarge(alpha),
    ;
}

/// The smallest object covering both operands.
pub trait Hull<T> {
    type Output;

    spec fn spec_hull(&self, other: &T) -> Self::Output;

    fn hull_with(&self, other: &T) -> (r: Self::Output)
        ensures
            r == self.spec_hull(other),
    ;
}

/// The common part of two objects; it may be the empty-set sentinel.
pub trait Intersect<T> {
    type Output;

    spec fn spec_intersect(&self, other: &T) -> Self::Output;

    fn intersect_with(&self, other: &T) -> (r: Self::Output)
        ensures
            r == self.spec_intersect(other),
    ;
}

impl Overlap<Interval<i32>> for Interval<i32> {
    open spec fn spec_overlaps(&self, other: &Interval<i32>) -> bool {
        self.ub >= other.lb && other.ub >= self.lb
    }

    fn overlaps(&self, other: &Interval<i32>) -> (r: bool) {
        self.ub >= other.lb && other.ub >= self.lb
    }
}

impl Overlap<i32> for Interval<i32> {
    open spec fn spec_overlaps(&self, other: &i32) -> bool {
        self.ub >= *other && *other >= self.lb
    }

    fn overlaps(&self, other: &i32) -> (r: bool) {
        self.ub >= *other && *other >= self.lb
    }
}

impl Overlap<Interval<i32>> for i32 {
    open spec fn spec_overlaps(&self, other: &Interval<i32>) -> bool {
        *self >= other.lb && other.ub >= *self
    }

    fn overlaps(&self, other: &Interval<i32>) -> (r: bool) {
        *self >= other.lb && other.ub >= *self
    }
}

impl Contain<Interval<i32>> for Interval<i32> {
    open spec fn spec_contains(&self, other: &Interval<i32>) -> bool {
        self.lb <= other.lb && other.ub <= self.ub
    }

    fn contains(&self, other: &Interval<i32>) -> (r: bool) {
        self.lb <= other.lb && other.ub <= self.ub
    }
}

impl Contain<i32> for Interval<i32> {
    open spec fn spec_contains(&self, other: &i32) -> bool {
        self.lb <= *other && *other <= self.ub
    }

    fn contains(&self, other: &i32) -> (r: bool) {
        self.lb <= *other && *other <= self.ub
    }
}

/// A single value never contains an interval, whatever its bounds.
impl Contain<Interval<i32>> for i32 {
    open spec fn spec_contains(&self, other: &Interval<i32>) -> bool {
        false
    }

    fn contains(&self, other: &Interval<i32>) -> (r: bool) {
        false
    }
}

impl Displacement<Interval<i32>> for Interval<i32> {
    type Output = Interval<i32>;

    open spec fn spec_displace_ok(&self, other: &Interval<i32>) -> bool {
        fits_i32(self.lb - other.lb) && fits_i32(self.ub - other.ub)
    }

    open spec fn spec_displace(&self, other: &Interval<i32>) -> Interval<i32> {
        ival(self.lb - other.lb, self.ub - other.ub)
    }

    fn displace(&self, other: &Interval<i32>) -> (r: Interval<i32>) {
        Interval::new(self.lb.displace(&other.lb), self.ub.displace(&other.ub))
    }
}

/// The gap between `[alb, aub]` and `[blb, bub]`: the larger of the two
/// endpoint differences, or zero when neither is positive. It does not depend
/// on the order of the operands, also when one of them is empty.
pub open spec fn gap(alb: int, aub: int, blb: int, bub: int) -> nat {
    max_i(0, max_i(blb - aub, alb - bub)) as nat
}

/// `max(0, blb - aub, alb - bub)`, computed in 64-bit arithmetic.
fn gap_exec(alb: i32, aub: i32, blb: i32, bub: i32) -> (r: u32)
    ensures
        r as nat == gap(alb as int, aub as int, blb as int, bub as int),
{
    let up: i64 = (blb as i64) - (aub as i64);
    let down: i64 = (alb as i64) - (bub as i64);
    let d: i64 = if up >= down { up } else { down };
    if d > 0 {
        d as u32
    } else {
        0
    }
}

impl MinDist<Interval<i32>> for Interval<i32> {
    open spec fn spec_min_dist(&self, other: &Interval<i32>) -> nat {
        gap(self.lb as int, self.ub as int, other.lb as int, other.ub as int)
    }

    fn min_dist_with(&self, other: &Interval<i32>) -> (r: u32) {
        gap_exec(self.lb, self.ub, other.lb, other.ub)
    }
}

impl MinDist<i32> for Interval<i32> {
    open spec fn spec_min_dist(&self, other: &i32) -> nat {
        gap(self.lb as int, self.ub as int, *other as int, *other as int)
    }

    fn min_dist_with(&self, other: &i32) -> (r: u32) {
        gap_exec(self.lb, self.ub, *other, *other)
    }
}

impl MinDist<Interval<i32>> for i32 {
    open spec fn spec_min_dist(&self, other: &Interval<i32>) -> nat {
        gap(*self as int, *self as int, other.lb as int, other.ub as int)
    }

    fn min_dist_with(&self, other: &Interval<i32>) -> (r: u32) {
        gap_exec(*self, *self, other.lb, other.ub)
    }
}

impl Enlarge<i32> for i32 {
    type Output = Interval<i32>;

    open spec fn spec_enlarge_ok(&self, alpha: i32) -> bool {
        fits_i32(*self - alpha) && fits_i32(*self + alpha)
    }

    open spec fn spec_enlarge(&self, alpha: i32) -> Interval<i32> {
        ival(*self - alpha, *self + alpha)
    }

    fn enlarge_with(&self, alpha: i32) -> (r: Interval<i32>) {
        Interval::new(*self - alpha, *self + alpha)
    }
}

impl Enlarge<i32> for Interval<i32> {
    type Output = Interval<i32>;

    open spec fn spec_enlarge_ok(&self, alpha: i32) -> bool {
        fits_i32(self.lb - alpha) && fits_i32(self.ub + alpha)
    }

    open spec fn spec_enlarge(&self, alpha: i32) -> Interval<i32> {
        ival(self.lb - alpha, self.ub + alpha)
    }

    fn enlarge_with(&self, alpha: i32) -> (r: Interval<i32>) {
        Interval::new(self.lb - alpha, self.ub + alpha)
    }
}

impl Hull<i32> for i32 {
    type Output = Interval<i32>;

    open spec fn spec_hull(&self, other: &i32) -> Interval<i32> {
        ival(min_i(*self as int, *other as int), max_i(*self as int, *other as int))
    }

    fn hull_with(&self, other: &i32) -> (r: Interval<i32>) {
        if *self < *other {
            Interval::new(*self, *other)
        } else {
            Interval::new(*other, *self)
        }
    }
}

impl Hull<Interval<i32>> for Interval<i32> {
    type Output = Interval<i32>;

    open spec fn spec_hull(&self, other: &Interval<i32>) -> Interval<i32> {
        ival(min_i(self.lb as int, other.lb as int), max_i(self.ub as int, other.ub as int))
    }

    fn hull_with(&self, other: &Interval<i32>) -> (r: Interval<i32>) {
        let lb = if self.lb <= other.lb { self.lb } else { other.lb };
        let ub = if self.ub >= other.ub { self.ub } else { other.ub };
        Interval::new(lb, ub)
    }
}

impl Hull<i32> for Interval<i32> {
    type Output = Interval<i32>;

    open spec fn spec_hull(&self, other: &i32) -> Interval<i32> {
        ival(min_i(self.lb as int, *other as int), max_i(self.ub as int, *other as int))
    }

    fn hull_with(&self, other: &i32) -> (r: Interval<i32>) {
        let lb = if self.lb <= *other { self.lb } else { *other };
        let ub = if self.ub >= *other { self.ub } else { *other };
        Interval::new(lb, ub)
    }
}

impl Hull<Interval<i32>> for i32 {
    type Output = Interval<i32>;

    open spec fn spec_hull(&self, other: &Interval<i32>) -> Interval<i32> {
        other.spec_hull(self)
    }

    fn hull_with(&self, other: &Interval<i32>) -> (r: Interval<i32>) {
        other.hull_with(self)
    }
}

impl Intersect<i32> for i32 {
    type Output = Interval<i32>;

    open spec fn spec_intersect(&self, other: &i32) -> Interval<i32> {
        ival(max_i(*self as int, *other as int), min_i(*self as int, *other as int))
    }

    fn intersect_with(&self, other: &i32) -> (r: Interval<i32>) {
        let lb = if *self >= *other { *self } else { *other };
        let ub = if *self <= *other { *self } else { *other };
        Interval::new(lb, ub)
    }
}

impl Intersect<Interval<i32>> for Interval<i32> {
    type Output = Interval<i32>;

    open spec fn spec_intersect(&self, other: &Interval<i32>) -> Interval<i32> {
        ival(max_i(self.lb as int, other.lb as int), min_i(self.ub as int, other.ub as int))
    }

    fn intersect_with(&self, other: &Interval<i32>) -> (r: Interval<i32>) {
        let lb = if self.lb >= other.lb { self.lb } else { other.lb };
        let ub = if self.ub <= other.ub { self.ub } else { other.ub };
        Interval::new(lb, ub)
    }
}

impl Intersect<i32> for Interval<i32> {
    type Output = Interval<i32>;

    open spec fn spec_intersect(&self, other: &i32) -> Interval<i32> {
        ival(max_i(self.lb as int, *other as int), min_i(self.ub as int, *other as int))
    }

    fn intersect_with(&self, other: &i32) -> (r: Interval<i32>) {
        let lb = if self.lb >= *other { self.lb } else { *other };
        let ub = if self.ub <= *other { self.ub } else { *other };
        Interval::new(lb, ub)
    }
}

impl Intersect<Interval<i32>> for i32 {
    type Output = Interval<i32>;

    open spec fn spec_intersect(&self, other: &Interval<i32>) -> Interval<i32> {
        other.spec_intersect(self)
    }

    fn intersect_with(&self, other: &Interval<i32>) -> (r: Interval<i32>) {
        other.intersect_with(self)
    }
}


/// Whether two intervals overlap in either order, or are equal.
pub fn overlap(lhs: &Interval<i32>, rhs: &Interval<i32>) -> (r: bool)
    ensures
        r == (lhs.spec_overlaps(rhs) || rhs.spec_overlaps(lhs) || *lhs == *rhs),
{
    lhs.overlaps(rhs) || rhs.overlaps(lhs) || (lhs.lb == rhs.lb && lhs.ub == rhs.ub)
}

/// Proper containment: `lhs` contains `rhs` but `rhs` does not contain `lhs`.
pub fn contain(lhs: &Interval<i32>, rhs: &Interval<i32>) -> (r: bool)
    ensures
        r == (lhs.spec_contains(rhs) && !rhs.spec_contains(lhs)),
{
    lhs.contains(rhs) && !rhs.contains(lhs)
}

/// A valid interval overlaps and contains itself.
pub proof fn lemma_valid_overlaps_contains_self(a: Interval<i32>)
    requires
        a.is_valid(),
    ensures
        a.spec_overlaps(&a),
        a.spec_contains(&a),
{
}

/// The gap between two intervals, an interval and a value, or two values does
/// not depend on the order of the operands, whether the intervals are valid or not.
pub proof fn lemma_min_dist_symmetric(a: Interval<i32>, b: Interval<i32>, x: i32, y: i32)
    ensures
        a.spec_min_dist(&b) == b.spec_min_dist(&a),
        a.spec_min_dist(&x) == x.spec_min_dist(&a),
        x.spec_min_dist(&y) == y.spec_min_dist(&x),
{
}

/// On valid intervals the gap is the distance between the nearer endpoints:
/// the lower one's upper bound to the upper one's lower bound, or zero when
/// they overlap.
pub proof fn lemma_min_dist_valid(a: Interval<i32>, b: Interval<i32>)
    requires
        a.is_valid(),
        b.is_valid(),
    ensures
        a.ub < b.lb ==> a.spec_min_dist(&b) == b.lb - a.ub,
        b.ub < a.lb ==> a.spec_min_dist(&b) == a.lb - b.ub,
        a.spec_overlaps(&b) ==> a.spec_min_dist(&b) == 0,
{
}

/// Enlarging by zero changes nothing: an interval stays as it is, and a value
/// becomes the one-point interval at it.
pub proof fn lemma_enlarge_by_zero(a: Interval<i32>, x: i32)
    ensures
        a.spec_enlarge_ok(0),
        a.spec_enlarge(0) == a,
        x.spec_enlarge_ok(0),
        x.spec_enlarge(0) == (Interval { lb: x, ub: x }),
{
}

/// Two valid intervals intersect in the empty-set sentinel exactly when they
/// do not overlap.
pub proof fn lemma_intersect_invalid_iff_disjoint(a: Interval<i32>, b: Interval<i32>)
    requires
        a.is_valid(),
        b.is_valid(),
    ensures
        !a.spec_intersect(&b).is_valid() <==> !a.spec_overlaps(&b),
{
}

/// Positional order: `Less` when `self` lies wholly below `other`, `Greater` when
/// wholly above, and `Equal` whenever the two overlap.
impl PartialOrd for Interval<i32> {
    fn partial_cmp(&self, other: &Interval<i32>) -> (r: Option<core::cmp::Ordering>) {
        if self.ub < other.lb {
            Some(core::cmp::Ordering::Less)
        } else if other.ub < self.lb {
            Some(core::cmp::Ordering::Greater)
        } else {
            Some(core::cmp::Ordering::Equal)
        }
    }
}

impl vstd::std_specs::cmp::PartialOrdSpecImpl for Interval<i32> {
    open spec fn obeys_partial_cmp_spec() -> bool {
        true
    }

    open spec fn partial_cmp_spec(&self, other: &Interval<i32>) -> Option<core::cmp::Ordering> {
        if self.ub < other.lb {
            Some(core::cmp::Ordering::Less)
        } else if other.ub < self.lb {
            Some(core::cmp::Ordering::Greater)
        } else {
            Some(core::cmp::Ordering::Equal)
        }
    }
}

/// Translates both bounds by `rhs`.
impl core::ops::Add<i32> for Interval<i32> {
    type Output = Interval<i32>;

    fn add(self, rhs: i32) -> (r: Interval<i32>) {
        Interval::new(self.lb + rhs, self.ub + rhs)
    }
}

impl vstd::std_specs::ops::AddSpecImpl<i32> for Interval<i32> {
    open spec fn obeys_add_spec() -> bool {
        true
    }

    open spec fn add_req(self, rhs: i32) -> bool {
        fits_i32(self.lb + rhs) && fits_i32(self.ub + rhs)
    }

    open spec fn add_spec(self, rhs: i32) -> Interval<i32> {
        ival(self.lb + rhs, self.ub + rhs)
    }
}

/// Translates both bounds by `-rhs`.
impl core::ops::Sub<i32> for Interval<i32> {
    type Output = Interval<i32>;

    fn sub(self, rhs: i32) -> (r: Interval<i32>) {
        Interval::new(self.lb - rhs, self.ub - rhs)
    }
}

impl vstd::std_specs::ops::SubSpecImpl<i32> for Interval<i32> {
    open spec fn obeys_sub_spec() -> bool {
        true
    }

    open spec fn sub_req(self, rhs: i32) -> bool {
        fits_i32(self.lb - rhs) && fits_i32(self.ub - rhs)
    }

    open spec fn sub_spec(self, rhs: i32) -> Interval<i32> {
        ival(self.lb - rhs, self.ub - rhs)
    }
}

/// Scales both bounds by `rhs`.
impl core::ops::Mul<i32> for Interval<i32> {
    type Output = Interval<i32>;

    fn mul(self, rhs: i32) -> (r: Interval<i32>) {
        Interval::new(self.lb * rhs, self.ub * rhs)
    }
}

impl vstd::std_specs::ops::MulSpecImpl<i32> for Interval<i32> {
    open spec fn obeys_mul_spec() -> bool {
        true
    }

    open spec fn mul_req(self, rhs: i32) -> bool {
        fits_i32(self.lb * rhs) && fits_i32(self.ub * rhs)
    }

    open spec fn mul_spec(self, rhs: i32) -> Interval<i32> {
        ival(self.lb * rhs, self.ub * rhs)
    }
}

/// Adds the bounds pairwise.
impl core::ops::Add<Interval<i32>> for Interval<i32> {
    type Output = Interval<i32>;

    fn add(self, rhs: Interval<i32>) -> (r: Interval<i32>) {
        Interval::new(self.lb + rhs.lb, self.ub + rhs.ub)
    }
}

impl vstd::std_specs::ops::AddSpecImpl<Interval<i32>> for Interval<i32> {
    open spec fn obeys_add_spec() -> bool {
        true
    }

    open spec fn add_req(self, rhs: Interval<i32>) -> bool {
        fits_i32(self.lb + rhs.lb) && fits_i32(self.ub + rhs.ub)
    }

    open spec fn add_spec(self, rhs: Interval<i32>) -> Interval<i32> {
        ival(self.lb + rhs.lb, self.ub + rhs.ub)
    }
}

/// Subtracts the bounds pairwise.
impl core::ops::Sub<Interval<i32>> for Interval<i32> {
    type Output = Interval<i32>;

    fn sub(self, rhs: Interval<i32>) -> (r: Interval<i32>) {
        Interval::new(self.lb - rhs.lb, self.ub - rhs.ub)
    }
}

impl vstd::std_specs::ops::SubSpecImpl<Interval<i32>> for Interval<i32> {
    open spec fn obeys_sub_spec() -> bool {
        true
    }

    open spec fn sub_req(self, rhs: Interval<i32>) -> bool {
        fits_i32(self.lb - rhs.lb) && fits_i32(self.ub - rhs.ub)
    }

    open spec fn sub_spec(self, rhs: Interval<i32>) -> Interval<i32> {
        ival(self.lb - rhs.lb, self.ub - rhs.ub)
    }
}

/// Mirrors the interval about zero: `[-ub, -lb]`.
impl core::ops::Neg for Interval<i32> {
    type Output = Interval<i32>;

    fn neg(self) -> (r: Interval<i32>) {
        Interval::new(-self.ub, -self.lb)
    }
}

impl vstd::std_specs::ops::NegSpecImpl for Interval<i32> {
    open spec fn obeys_neg_spec() -> bool {
        true
    }

    open spec fn neg_req(self) -> bool {
        self.lb != i32::MIN && self.ub != i32::MIN
    }

    open spec fn neg_spec(self) -> Interval<i32> {
        ival(-self.ub, -self.lb)
    }
}

impl Interval<i32> {
    /// In-place translation by `rhs`.
    pub fn add_assign(&mut self, rhs: i32)
        requires
            fits_i32(old(self).lb + rhs),
            fits_i32(old(self).ub + rhs),
        ensures
            *final(self) == ival(old(self).lb + rhs, old(self).ub + rhs),
    {
        self.lb = self.lb + rhs;
        self.ub = self.ub + rhs;
    }

    /// In-place translation by `-rhs`.
    pub fn sub_assign(&mut self, rhs: i32)
        requires
            fits_i32(old(self).lb - rhs),
            fits_i32(old(self).ub - rhs),
        ensures
            *final(self) == ival(old(self).lb - rhs, old(self).ub - rhs),
    {
        self.lb = self.lb - rhs;
        self.ub = self.ub - rhs;
    }

    /// In-place scaling by `rhs`.
    pub fn mul_assign(&mut self, rhs: i32)
        requires
            fits_i32(old(self).lb * rhs),
            fits_i32(old(self).ub * rhs),
        ensures
            *final(self) == ival(old(self).lb * rhs, old(self).ub * rhs),
    {
        self.lb = self.lb * rhs;
        self.ub = self.ub * rhs;
    }
}

} // verus!
