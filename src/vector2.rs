//! Two-component displacement vectors.
use crate::interval::fits_i32;
use vstd::prelude::*;

verus! {

/// A displacement `(x_, y_)`; the difference of two points.
#[derive(PartialEq, Eq, Copy, Clone, Hash, Debug, Default)]
pub struct Vector2<T1, T2> {
    pub x_: T1,
    pub y_: T2,
}

/// The vector `(x, y)` of two integers known to fit in `i32`.
pub open spec fn vec2(x: int, y: int) -> Vector2<i32, i32> {
    Vector2 { x_: x as i32, y_: y as i32 }
}

pub open spec fn abs_i(a: int) -> int {
    if a >= 0 {
        a
    } else {
        -a
    }
}

/// Integer division rounding toward zero, as `/` on machine integers does.
pub open spec fn div_trunc(a: int, b: int) -> int {
    let q = abs_i(a) / abs_i(b);
    if (a >= 0) == (b > 0) {
        q
    } else {
        -q
    }
}

/// A product of two `i32` values always fits in an `i64`.
pub proof fn lemma_mul_fits_i64(a: int, b: int)
    requires
        i32::MIN <= a <= i32::MAX,
        i32::MIN <= b <= i32::MAX,
    ensures
        i64::MIN <= a * b <= i64::MAX,
        -0x4000_0000_0000_0000 <= a * b <= 0x4000_0000_0000_0000,
{
    assert(-0x4000_0000_0000_0000 <= a * b <= 0x4000_0000_0000_0000) by (nonlinear_arith)
        requires
            -0x8000_0000 <= a <= 0x7fff_ffff,
            -0x8000_0000 <= b <= 0x7fff_ffff,
    ;
}

/// The remainder of `a / t` rounded toward zero; it takes the sign of `a`, as
/// `%` on machine integers does.
pub open spec fn rem_trunc(a: int, b: int) -> int {
    let r = abs_i(a) % abs_i(b);
    if a >= 0 {
        r
    } else {
        -r
    }
}

/// `a % t` with the sign of `a`, computed on magnitudes.
fn rem_toward_zero(a: i32, t: i32) -> (r: i32)
    requires
        t != 0,
        !(t == -1 && a == i32::MIN),
    ensures
        r == rem_trunc(a as int, t as int),
{
    let aa: i64 = if a >= 0 { a as i64 } else { -(a as i64) };
    let at: i64 = if t >= 0 { t as i64 } else { -(t as i64) };
    let m: i64 = aa % at;
    proof {
        assert(0 <= m < at) by (nonlinear_arith)
            requires
                m == aa % at,
                aa >= 0,
                at >= 1,
        ;
        assert(m <= aa) by (nonlinear_arith)
            requires
                m == aa % at,
                aa >= 0,
                at >= 1,
        ;
    }
    if a >= 0 {
        m as i32
    } else {
        (-m) as i32
    }
}

/// `a / t` rounded toward zero, computed on magnitudes.
fn div_toward_zero(a: i32, t: i32) -> (r: i32)
    requires
        t != 0,
        !(t == -1 && a == i32::MIN),
    ensures
        r == div_trunc(a as int, t as int),
{
    let aa: i64 = if a >= 0 { a as i64 } else { -(a as i64) };
    let at: i64 = if t >= 0 { t as i64 } else { -(t as i64) };
    let q: i64 = aa / at;
    proof {
        assert(0 <= q <= aa) by (nonlinear_arith)
            requires
                q == aa / at,
                aa >= 0,
                at >= 1,
        ;
        if q == 0x8000_0000 {
            assert(at == 1) by (nonlinear_arith)
                requires
                    q == aa / at,
                    aa <= 0x8000_0000,
                    q == 0x8000_0000,
                    at >= 1,
            ;
        }
    }
    if (a >= 0) == (t > 0) {
        q as i32
    } else {
        (-q) as i32
    }
}

impl<T1, T2> Vector2<T1, T2> {
    pub fn new(x_: T1, y_: T2) -> (r: Self)
        ensures
            r.x_ == x_,
            r.y_ == y_,
    {
        Vector2 { x_, y_ }
    }
}

impl Vector2<i32, i32> {
    pub open spec fn spec_dot(self, other: Self) -> int {
        self.x_ * other.x_ + self.y_ * other.y_
    }

    pub open spec fn spec_cross(self, other: Self) -> int {
        self.x_ * other.y_ - self.y_ * other.x_
    }

    /// Dot product `x * x' + y * y'`, computed without intermediate overflow.
    pub fn dot(&self, other: &Self) -> (r: i32)
        requires
            fits_i32(self.spec_dot(*other)),
        ensures
            r == self.spec_dot(*other),
    {
        proof {
            lemma_mul_fits_i64(self.x_ as int, other.x_ as int);
            lemma_mul_fits_i64(self.y_ as int, other.y_ as int);
        }
        let a: i64 = (self.x_ as i64) * (other.x_ as i64);
        let b: i64 = (self.y_ as i64) * (other.y_ as i64);
        (a + b) as i32
    }

    /// Cross product `x * y' - y * x'`, computed without intermediate overflow.
    pub fn cross(&self, other: &Self) -> (r: i32)
        requires
            fits_i32(self.spec_cross(*other)),
        ensures
            r == self.spec_cross(*other),
    {
        proof {
            lemma_mul_fits_i64(self.x_ as int, other.y_ as int);
            lemma_mul_fits_i64(self.y_ as int, other.x_ as int);
        }
        let a: i64 = (self.x_ as i64) * (other.y_ as i64);
        let b: i64 = (self.y_ as i64) * (other.x_ as i64);
        (a - b) as i32
    }

    /// Multiplies both components by `t`.
    pub fn scale(&self, t: i32) -> (r: Self)
        requires
            fits_i32(self.x_ * t),
            fits_i32(self.y_ * t),
        ensures
            r == vec2(self.x_ * t, self.y_ * t),
    {
        Vector2::new(self.x_ * t, self.y_ * t)
    }

    /// Divides both components by `t`, rounding toward zero as `i32` division does.
    pub fn unscale(&self, t: i32) -> (r: Self)
        requires
            t != 0,
            !(t == -1 && (self.x_ == i32::MIN || self.y_ == i32::MIN)),
        ensures
            r.x_ == div_trunc(self.x_ as int, t as int),
            r.y_ == div_trunc(self.y_ as int, t as int),
    {
        Vector2::new(div_toward_zero(self.x_, t), div_toward_zero(self.y_, t))
    }

    /// `|x| + |y|`.
    pub fn l1_norm(&self) -> (r: i32)
        requires
            fits_i32(abs_i(self.x_ as int) + abs_i(self.y_ as int)),
        ensures
            r == abs_i(self.x_ as int) + abs_i(self.y_ as int),
    {
        let ax: i64 = if self.x_ >= 0 { self.x_ as i64 } else { -(self.x_ as i64) };
        let ay: i64 = if self.y_ >= 0 { self.y_ as i64 } else { -(self.y_ as i64) };
        (ax + ay) as i32
    }

    /// The larger of the two components.
    pub fn norm_inf(&self) -> (r: i32)
        ensures
            r == if self.x_ > self.y_ { self.x_ } else { self.y_ },
    {
        if self.x_ > self.y_ {
            self.x_
        } else {
            self.y_
        }
    }
}

impl core::ops::Add<Vector2<i32, i32>> for Vector2<i32, i32> {
    type Output = Vector2<i32, i32>;

    fn add(self, other: Vector2<i32, i32>) -> (r: Vector2<i32, i32>) {
        Vector2::new(self.x_ + other.x_, self.y_ + other.y_)
    }
}

impl vstd::std_specs::ops::AddSpecImpl<Vector2<i32, i32>> for Vector2<i32, i32> {
    open spec fn obeys_add_spec() -> bool {
        true
    }

    open spec fn add_req(self, other: Vector2<i32, i32>) -> bool {
        fits_i32(self.x_ + other.x_) && fits_i32(self.y_ + other.y_)
    }

    open spec fn add_spec(self, other: Vector2<i32, i32>) -> Vector2<i32, i32> {
        vec2(self.x_ + other.x_, self.y_ + other.y_)
    }
}

impl core::ops::Sub<Vector2<i32, i32>> for Vector2<i32, i32> {
    type Output = Vector2<i32, i32>;

    fn sub(self, other: Vector2<i32, i32>) -> (r: Vector2<i32, i32>) {
        Vector2::new(self.x_ - other.x_, self.y_ - other.y_)
    }
}

impl vstd::std_specs::ops::SubSpecImpl<Vector2<i32, i32>> for Vector2<i32, i32> {
    open spec fn obeys_sub_spec() -> bool {
        true
    }

    open spec fn sub_req(self, other: Vector2<i32, i32>) -> bool {
        fits_i32(self.x_ - other.x_) && fits_i32(self.y_ - other.y_)
    }

    open spec fn sub_spec(self, other: Vector2<i32, i32>) -> Vector2<i32, i32> {
        vec2(self.x_ - other.x_, self.y_ - other.y_)
    }
}

impl core::ops::Neg for Vector2<i32, i32> {
    type Output = Vector2<i32, i32>;

    fn neg(self) -> (r: Vector2<i32, i32>) {
        Vector2::new(-self.x_, -self.y_)
    }
}

impl vstd::std_specs::ops::NegSpecImpl for Vector2<i32, i32> {
    open spec fn obeys_neg_spec() -> bool {
        true
    }

    open spec fn neg_req(self) -> bool {
        self.x_ != i32::MIN && self.y_ != i32::MIN
    }

    open spec fn neg_spec(self) -> Vector2<i32, i32> {
        vec2(-self.x_, -self.y_)
    }
}

impl core::ops::Mul<i32> for Vector2<i32, i32> {
    type Output = Vector2<i32, i32>;

    fn mul(self, t: i32) -> (r: Vector2<i32, i32>) {
        Vector2::new(self.x_ * t, self.y_ * t)
    }
}

impl vstd::std_specs::ops::MulSpecImpl<i32> for Vector2<i32, i32> {
    open spec fn obeys_mul_spec() -> bool {
        true
    }

    open spec fn mul_req(self, t: i32) -> bool {
        fits_i32(self.x_ * t) && fits_i32(self.y_ * t)
    }

    open spec fn mul_spec(self, t: i32) -> Vector2<i32, i32> {
        vec2(self.x_ * t, self.y_ * t)
    }
}

/// Divides both components by `t`, rounding toward zero.
impl core::ops::Div<i32> for Vector2<i32, i32> {
    type Output = Vector2<i32, i32>;

    fn div(self, t: i32) -> (r: Vector2<i32, i32>) {
        Vector2::new(div_toward_zero(self.x_, t), div_toward_zero(self.y_, t))
    }
}

impl vstd::std_specs::ops::DivSpecImpl<i32> for Vector2<i32, i32> {
    open spec fn obeys_div_spec() -> bool {
        true
    }

    open spec fn div_req(self, t: i32) -> bool {
        t != 0 && !(t == -1 && (self.x_ == i32::MIN || self.y_ == i32::MIN))
    }

    open spec fn div_spec(self, t: i32) -> Vector2<i32, i32> {
        vec2(div_trunc(self.x_ as int, t as int), div_trunc(self.y_ as int, t as int))
    }
}

/// The remainders of both components by `t`, with the sign of each component.
impl core::ops::Rem<i32> for Vector2<i32, i32> {
    type Output = Vector2<i32, i32>;

    fn rem(self, t: i32) -> (r: Vector2<i32, i32>) {
        Vector2::new(rem_toward_zero(self.x_, t), rem_toward_zero(self.y_, t))
    }
}

impl vstd::std_specs::ops::RemSpecImpl<i32> for Vector2<i32, i32> {
    open spec fn obeys_rem_spec() -> bool {
        true
    }

    open spec fn rem_req(self, t: i32) -> bool {
        t != 0 && !(t == -1 && (self.x_ == i32::MIN || self.y_ == i32::MIN))
    }

    open spec fn rem_spec(self, t: i32) -> Vector2<i32, i32> {
        vec2(rem_trunc(self.x_ as int, t as int), rem_trunc(self.y_ as int, t as int))
    }
}

/// A scalar times a vector scales both components.
impl core::ops::Mul<Vector2<i32, i32>> for i32 {
    type Output = Vector2<i32, i32>;

    fn mul(self, v: Vector2<i32, i32>) -> (r: Vector2<i32, i32>) {
        Vector2::new(self * v.x_, self * v.y_)
    }
}

impl vstd::std_specs::ops::MulSpecImpl<Vector2<i32, i32>> for i32 {
    open spec fn obeys_mul_spec() -> bool {
        true
    }

    open spec fn mul_req(self, v: Vector2<i32, i32>) -> bool {
        fits_i32(self * v.x_) && fits_i32(self * v.y_)
    }

    open spec fn mul_spec(self, v: Vector2<i32, i32>) -> Vector2<i32, i32> {
        vec2(self * v.x_, self * v.y_)
    }
}

impl Vector2<i32, i32> {
    /// The zero vector.
    pub fn zero() -> (r: Vector2<i32, i32>)
        ensures
            r == vec2(0, 0),
    {
        Vector2::new(0, 0)
    }

    /// Whether both components are zero.
    pub fn is_zero(&self) -> (r: bool)
        ensures
            r == (self.x_ == 0 && self.y_ == 0),
    {
        self.x_ == 0 && self.y_ == 0
    }

    /// Sets both components to zero.
    pub fn set_zero(&mut self)
        ensures
            *final(self) == vec2(0, 0),
    {
        self.x_ = 0;
        self.y_ = 0;
    }

    /// In-place scaling by `t`.
    pub fn mul_assign(&mut self, t: i32)
        requires
            fits_i32(old(self).x_ * t),
            fits_i32(old(self).y_ * t),
        ensures
            *final(self) == vec2(old(self).x_ * t, old(self).y_ * t),
    {
        self.x_ = self.x_ * t;
        self.y_ = self.y_ * t;
    }

    /// In-place division by `t`, rounding toward zero.
    pub fn div_assign(&mut self, t: i32)
        requires
            t != 0,
            !(t == -1 && (old(self).x_ == i32::MIN || old(self).y_ == i32::MIN)),
        ensures
            *final(self) == vec2(
                div_trunc(old(self).x_ as int, t as int),
                div_trunc(old(self).y_ as int, t as int),
            ),
    {
        self.x_ = div_toward_zero(self.x_, t);
        self.y_ = div_toward_zero(self.y_, t);
    }

    /// In-place componentwise addition.
    pub fn add_assign(&mut self, other: Vector2<i32, i32>)
        requires
            fits_i32(old(self).x_ + other.x_),
            fits_i32(old(self).y_ + other.y_),
        ensures
            *final(self) == vec2(old(self).x_ + other.x_, old(self).y_ + other.y_),
    {
        self.x_ = self.x_ + other.x_;
        self.y_ = self.y_ + other.y_;
    }

    /// In-place componentwise subtraction.
    pub fn sub_assign(&mut self, other: Vector2<i32, i32>)
        requires
            fits_i32(old(self).x_ - other.x_),
            fits_i32(old(self).y_ - other.y_),
        ensures
            *final(self) == vec2(old(self).x_ - other.x_, old(self).y_ - other.y_),
    {
        self.x_ = self.x_ - other.x_;
        self.y_ = self.y_ - other.y_;
    }
}

} // verus!
