//! Polygons stored as an origin point and the vectors from it to the other vertices.
use crate::interval::{fits_i32, max_i, min_i};
use crate::point::{pt, Point};
use crate::vector2::{lemma_mul_fits_i64, vec2, Vector2};
use vstd::prelude::*;
use vstd::relations::{sorted_by, total_ordering};
use vstd::seq_lib::{lemma_sorted_unique, to_multiset_build, to_multiset_insert};

verus! {

/// The vectors from `coords[0]` to each later point.
pub open spec fn rel_vecs(coords: Seq<Point<i32, i32>>) -> Seq<Vector2<i32, i32>> {
    coords.subrange(1, coords.len() as int).map_values(
        |p: Point<i32, i32>| vec2(p.xcoord - coords[0].xcoord, p.ycoord - coords[0].ycoord),
    )
}

/// Every point lies within `i32` range of `coords[0]`.
pub open spec fn rel_vecs_fit(coords: Seq<Point<i32, i32>>) -> bool {
    forall|i: int|
        0 <= i < coords.len() ==> fits_i32(#[trigger] coords[i].xcoord - coords[0].xcoord)
            && fits_i32(coords[i].ycoord - coords[0].ycoord)
}

/// Every vertex `origin + vecs[i]` fits in `i32`.
pub open spec fn vertices_fit(origin: Point<i32, i32>, vecs: Seq<Vector2<i32, i32>>) -> bool {
    forall|i: int|
        0 <= i < vecs.len() ==> fits_i32(origin.xcoord + #[trigger] vecs[i].x_) && fits_i32(
            origin.ycoord + vecs[i].y_,
        )
}

/// The vertices: the origin, then the origin moved by each vector.
pub open spec fn vertices_of(origin: Point<i32, i32>, vecs: Seq<Vector2<i32, i32>>) -> Seq<
    Point<i32, i32>,
> {
    seq![origin] + vecs.map_values(
        |v: Vector2<i32, i32>| pt(origin.xcoord + v.x_, origin.ycoord + v.y_),
    )
}

/// The least x component among the first `j` vectors and zero.
pub open spec fn min_x(vecs: Seq<Vector2<i32, i32>>, j: int) -> int
    decreases j,
{
    if j <= 0 {
        0
    } else {
        min_i(min_x(vecs, j - 1), vecs[j - 1].x_ as int)
    }
}

pub open spec fn min_y(vecs: Seq<Vector2<i32, i32>>, j: int) -> int
    decreases j,
{
    if j <= 0 {
        0
    } else {
        min_i(min_y(vecs, j - 1), vecs[j - 1].y_ as int)
    }
}

pub open spec fn max_x(vecs: Seq<Vector2<i32, i32>>, j: int) -> int
    decreases j,
{
    if j <= 0 {
        0
    } else {
        max_i(max_x(vecs, j - 1), vecs[j - 1].x_ as int)
    }
}

pub open spec fn max_y(vecs: Seq<Vector2<i32, i32>>, j: int) -> int
    decreases j,
{
    if j <= 0 {
        0
    } else {
        max_i(max_y(vecs, j - 1), vecs[j - 1].y_ as int)
    }
}

/// The lower-left and upper-right corners of the box around the origin and
/// all vertices.
pub open spec fn bounding_box_of(origin: Point<i32, i32>, vecs: Seq<Vector2<i32, i32>>) -> (
    Point<i32, i32>,
    Point<i32, i32>,
) {
    let n = vecs.len() as int;
    (
        pt(origin.xcoord + min_x(vecs, n), origin.ycoord + min_y(vecs, n)),
        pt(origin.xcoord + max_x(vecs, n), origin.ycoord + max_y(vecs, n)),
    )
}

/// Lexicographic order on vectors: by x, then by y.
pub open spec fn lex_lt(a: Vector2<i32, i32>, b: Vector2<i32, i32>) -> bool {
    a.x_ < b.x_ || (a.x_ == b.x_ && a.y_ < b.y_)
}

/// The index of the first lexicographically least item among the first `j`.
pub open spec fn first_min_index(ps: Seq<Vector2<i32, i32>>, j: int) -> int
    decreases j,
{
    if j <= 1 {
        0
    } else {
        let m = first_min_index(ps, j - 1);
        if lex_lt(ps[j - 1], ps[m]) {
            j - 1
        } else {
            m
        }
    }
}

/// The cross product of `b - a` and `c - b`, in exact arithmetic.
pub open spec fn turn(a: Vector2<i32, i32>, b: Vector2<i32, i32>, c: Vector2<i32, i32>) -> int {
    (b.x_ - a.x_) * (c.y_ - b.y_) - (b.y_ - a.y_) * (c.x_ - b.x_)
}

/// The vertices relative to the origin: the zero vector, then each vector.
pub open spec fn rel_points(vecs: Seq<Vector2<i32, i32>>) -> Seq<Vector2<i32, i32>> {
    seq![vec2(0, 0)] + vecs
}

/// Whether the turn at the lexicographically least vertex of a closed walk is
/// to the left.
pub open spec fn turns_left_at_min(ps: Seq<Vector2<i32, i32>>) -> bool {
    let n = ps.len() as int;
    let m = first_min_index(ps, n);
    turn(ps[prev_index(m, n)], ps[m], ps[next_index(m, n)]) > 0
}

/// Whether the turn at the lexicographically least vertex is to the left.
pub open spec fn anticlockwise_spec(vecs: Seq<Vector2<i32, i32>>) -> bool {
    turns_left_at_min(rel_points(vecs))
}

/// Points read as vectors from the coordinate origin.
pub open spec fn as_vecs(ps: Seq<Point<i32, i32>>) -> Seq<Vector2<i32, i32>> {
    ps.map_values(|p: Point<i32, i32>| Vector2 { x_: p.xcoord, y_: p.ycoord })
}

/// Whether the edge from `p0` to `p1` flips the inside test of `q`: it spans
/// `q`'s height (half-open) and `q` lies on its outer side.
pub open spec fn flips(p0: Point<i32, i32>, p1: Point<i32, i32>, q: Point<i32, i32>) -> bool {
    let spans = (p1.ycoord <= q.ycoord && q.ycoord < p0.ycoord) || (p0.ycoord <= q.ycoord
        && q.ycoord < p1.ycoord);
    let det = (q.xcoord - p0.xcoord) * (p1.ycoord - p0.ycoord) - (q.ycoord - p0.ycoord) * (
    p1.xcoord - p0.xcoord);
    spans && if p1.ycoord > p0.ycoord {
        det < 0
    } else {
        det > 0
    }
}

/// The parity of the flips of the edges that end at `ps[0..j]`; the edge
/// ending at `ps[0]` starts at the last point.
pub open spec fn flip_parity(ps: Seq<Point<i32, i32>>, q: Point<i32, i32>, j: int) -> bool
    decreases j,
{
    if j <= 0 {
        false
    } else {
        let p0 = if j == 1 {
            ps.last()
        } else {
            ps[j - 2]
        };
        flip_parity(ps, q, j - 1) != flips(p0, ps[j - 1], q)
    }
}

/// The index before `m` in a cycle of length `n`.
pub open spec fn prev_index(m: int, n: int) -> int {
    if m == 0 {
        n - 1
    } else {
        m - 1
    }
}

/// The index after `m` in a cycle of length `n`.
pub open spec fn next_index(m: int, n: int) -> int {
    if m + 1 == n {
        0
    } else {
        m + 1
    }
}

/// Both products in the turn of three `i32` points are below `2^68` in size,
/// so the turn fits in an `i128`.
proof fn lemma_turn_bounds(a: Vector2<i32, i32>, b: Vector2<i32, i32>, c: Vector2<i32, i32>)
    ensures
        -0x10_0000_0000_0000_0000 <= (b.x_ - a.x_) * (c.y_ - b.y_) <= 0x10_0000_0000_0000_0000,
        -0x10_0000_0000_0000_0000 <= (b.y_ - a.y_) * (c.x_ - b.x_) <= 0x10_0000_0000_0000_0000,
{
    lemma_prod_bound((b.x_ - a.x_), (c.y_ - b.y_));
    lemma_prod_bound((b.y_ - a.y_), (c.x_ - b.x_));
}

proof fn lemma_prod_bound(p: int, q: int)
    requires
        -0x1_0000_0000 <= p <= 0x1_0000_0000,
        -0x1_0000_0000 <= q <= 0x1_0000_0000,
    ensures
        -0x10_0000_0000_0000_0000 <= p * q <= 0x10_0000_0000_0000_0000,
{
    assert(-0x10_0000_0000_0000_0000 <= p * q <= 0x10_0000_0000_0000_0000) by (nonlinear_arith)
        requires
            -0x1_0000_0000 <= p <= 0x1_0000_0000,
            -0x1_0000_0000 <= q <= 0x1_0000_0000,
    ;
}

/// The turn at `b`, computed exactly in 128-bit arithmetic.
pub(crate) fn turn_exec(a: Vector2<i32, i32>, b: Vector2<i32, i32>, c: Vector2<i32, i32>) -> (r:
    i128)
    ensures
        r == turn(a, b, c),
{
    proof {
        lemma_turn_bounds(a, b, c);
    }
    let p: i128 = ((b.x_ as i128) - (a.x_ as i128)) * ((c.y_ as i128) - (b.y_ as i128));
    let q: i128 = ((b.y_ as i128) - (a.y_ as i128)) * ((c.x_ as i128) - (b.x_ as i128));
    p - q
}

/// The index of the first lexicographically least vector of a nonempty sequence.
pub(crate) fn first_min_exec(ps: &Vec<Vector2<i32, i32>>) -> (m: usize)
    requires
        ps@.len() >= 1,
    ensures
        m == first_min_index(ps@, ps@.len() as int),
        m < ps@.len(),
{
    let mut m: usize = 0;
    let mut i: usize = 1;
    while i < ps.len()
        invariant
            1 <= i <= ps@.len(),
            m < i,
            m == first_min_index(ps@, i as int),
        decreases ps@.len() - i,
    {
        let a = ps[i];
        let b = ps[m];
        if a.x_ < b.x_ || (a.x_ == b.x_ && a.y_ < b.y_) {
            m = i;
        }
        i = i + 1;
    }
    m
}

/// The points as vectors from the coordinate origin.
pub(crate) fn as_vecs_exec(ps: &[Point<i32, i32>]) -> (r: Vec<Vector2<i32, i32>>)
    ensures
        r@ == as_vecs(ps@),
{
    let mut r: Vec<Vector2<i32, i32>> = Vec::new();
    let mut i: usize = 0;
    while i < ps.len()
        invariant
            i <= ps@.len(),
            r@ == as_vecs(ps@.subrange(0, i as int)),
        decreases ps@.len() - i,
    {
        r.push(Vector2::new(ps[i].xcoord, ps[i].ycoord));
        i = i + 1;
        proof {
            assert(ps@.subrange(0, i as int) == ps@.subrange(0, i - 1).push(ps@[i - 1]));
        }
    }
    proof {
        assert(ps@.subrange(0, ps@.len() as int) == ps@);
    }
    r
}

/// Whether the turn at the lexicographically least vertex of the closed walk `ps` is to the left.
pub(crate) fn turns_left_at_min_exec(ps: &Vec<Vector2<i32, i32>>) -> (r: bool)
    requires
        ps@.len() >= 1,
    ensures
        r == turns_left_at_min(ps@),
{
    let n = ps.len();
    let m = first_min_exec(ps);
    let prev = if m == 0 { ps[n - 1] } else { ps[m - 1] };
    let next = if m + 1 == n { ps[0] } else { ps[m + 1] };
    turn_exec(prev, ps[m], next) > 0
}

/// `[0, vecs...]`: the vertices relative to the origin.
pub(crate) fn rel_points_exec(vecs: &Vec<Vector2<i32, i32>>) -> (r: Vec<Vector2<i32, i32>>)
    ensures
        r@ == rel_points(vecs@),
{
    let mut r: Vec<Vector2<i32, i32>> = Vec::new();
    r.push(Vector2::new(0, 0));
    let mut i: usize = 0;
    while i < vecs.len()
        invariant
            i <= vecs@.len(),
            r@ == rel_points(vecs@.subrange(0, i as int)),
        decreases vecs@.len() - i,
    {
        r.push(vecs[i]);
        i = i + 1;
        proof {
            assert(vecs@.subrange(0, i as int) == vecs@.subrange(0, i - 1).push(vecs@[i - 1]));
        }
    }
    proof {
        assert(vecs@.subrange(0, vecs@.len() as int) == vecs@);
    }
    r
}

/// The vectors from `coords[0]` to each later point.
pub(crate) fn rel_vecs_exec(coords: &[Point<i32, i32>]) -> (r: Vec<Vector2<i32, i32>>)
    requires
        coords@.len() >= 1,
        rel_vecs_fit(coords@),
    ensures
        r@ == rel_vecs(coords@),
{
    let origin = coords[0];
    let mut r: Vec<Vector2<i32, i32>> = Vec::new();
    let mut i: usize = 1;
    while i < coords.len()
        invariant
            1 <= i <= coords@.len(),
            origin == coords@[0],
            rel_vecs_fit(coords@),
            r@ == rel_vecs(coords@.subrange(0, i as int)),
        decreases coords@.len() - i,
    {
        let p = coords[i];
        r.push(Vector2::new(p.xcoord - origin.xcoord, p.ycoord - origin.ycoord));
        i = i + 1;
        proof {
            let s = coords@.subrange(0, i as int);
            let s0 = coords@.subrange(0, i - 1);
            assert(s.subrange(1, s.len() as int) == s0.subrange(1, s0.len() as int).push(
                coords@[i - 1],
            ));
        }
    }
    proof {
        assert(coords@.subrange(0, coords@.len() as int) == coords@);
    }
    r
}

/// The vertices of the shape whose origin and vectors are given.
pub(crate) fn vertices_exec(origin: Point<i32, i32>, vecs: &Vec<Vector2<i32, i32>>) -> (r: Vec<
    Point<i32, i32>,
>)
    requires
        vertices_fit(origin, vecs@),
    ensures
        r@ == vertices_of(origin, vecs@),
{
    let mut r: Vec<Point<i32, i32>> = Vec::new();
    r.push(origin);
    let mut i: usize = 0;
    while i < vecs.len()
        invariant
            i <= vecs@.len(),
            vertices_fit(origin, vecs@),
            r@ == vertices_of(origin, vecs@.subrange(0, i as int)),
        decreases vecs@.len() - i,
    {
        let v = vecs[i];
        r.push(Point::new(origin.xcoord + v.x_, origin.ycoord + v.y_));
        i = i + 1;
        proof {
            assert(vecs@.subrange(0, i as int) == vecs@.subrange(0, i - 1).push(vecs@[i - 1]));
        }
    }
    proof {
        assert(vecs@.subrange(0, vecs@.len() as int) == vecs@);
    }
    r
}

/// The corners of the box around the shape whose origin and vectors are given.
pub(crate) fn bounding_box_exec(origin: Point<i32, i32>, vecs: &Vec<Vector2<i32, i32>>) -> (r: (
    Point<i32, i32>,
    Point<i32, i32>,
))
    requires
        vertices_fit(origin, vecs@),
    ensures
        r == bounding_box_of(origin, vecs@),
{
    let mut lo_x: i32 = 0;
    let mut lo_y: i32 = 0;
    let mut hi_x: i32 = 0;
    let mut hi_y: i32 = 0;
    let mut i: usize = 0;
    while i < vecs.len()
        invariant
            i <= vecs@.len(),
            lo_x == min_x(vecs@, i as int),
            lo_y == min_y(vecs@, i as int),
            hi_x == max_x(vecs@, i as int),
            hi_y == max_y(vecs@, i as int),
        decreases vecs@.len() - i,
    {
        let v = vecs[i];
        if v.x_ < lo_x {
            lo_x = v.x_;
        }
        if v.y_ < lo_y {
            lo_y = v.y_;
        }
        if v.x_ > hi_x {
            hi_x = v.x_;
        }
        if v.y_ > hi_y {
            hi_y = v.y_;
        }
        i = i + 1;
    }
    proof {
        lemma_extremes_fit(origin, vecs@, vecs@.len() as int);
    }
    (
        Point::new(origin.xcoord + lo_x, origin.ycoord + lo_y),
        Point::new(origin.xcoord + hi_x, origin.ycoord + hi_y),
    )
}

/// Each running extreme is zero or a component of some vector, so the corners fit.
proof fn lemma_extremes_fit(origin: Point<i32, i32>, vecs: Seq<Vector2<i32, i32>>, j: int)
    requires
        vertices_fit(origin, vecs),
        j <= vecs.len(),
    ensures
        fits_i32(origin.xcoord + min_x(vecs, j)),
        fits_i32(origin.ycoord + min_y(vecs, j)),
        fits_i32(origin.xcoord + max_x(vecs, j)),
        fits_i32(origin.ycoord + max_y(vecs, j)),
    decreases j,
{
    if j > 0 {
        lemma_extremes_fit(origin, vecs, j - 1);
    }
}

/// A polygon: `origin`, then `origin + vecs[i]` for each vector, in order.
#[derive(PartialEq, Eq, Clone, Debug, Default)]
pub struct Polygon<T> {
    pub origin: Point<T, T>,
    pub vecs: Vec<Vector2<T, T>>,
}


/// The first two terms of twice the signed area.
pub open spec fn area_head(v: Seq<Vector2<i32, i32>>) -> int {
    let n = v.len() as int;
    v[0].x_ * v[1].y_ - v[n - 1].x_ * v[n - 2].y_
}

/// The remaining terms `v[i-1].x * (v[i].y - v[i-2].y)` for `2 <= i < j`.
pub open spec fn area_tail(v: Seq<Vector2<i32, i32>>, j: int) -> int
    decreases j,
{
    if j <= 2 {
        0
    } else {
        area_tail(v, j - 1) + v[j - 2].x_ * (v[j - 1].y_ - v[j - 3].y_)
    }
}

/// Twice the signed area of the polygon with vertices `0, v[0], v[1], ...`;
/// positive when they run anticlockwise.
pub open spec fn signed_area_x2_spec(v: Seq<Vector2<i32, i32>>) -> int {
    if v.len() < 2 {
        0
    } else {
        area_head(v) + area_tail(v, v.len() as int)
    }
}

/// Whether consecutive vectors share an axis and the first and last lie on an axis.
pub open spec fn rectilinear_spec(v: Seq<Vector2<i32, i32>>) -> bool {
    v.len() == 0 || {
        &&& (v[0].x_ == 0 || v[0].y_ == 0)
        &&& forall|i: int|
            0 <= i < v.len() - 1 ==> (#[trigger] v[i]).x_ == v[i + 1].x_ || v[i].y_ == v[i
                + 1].y_
        &&& (v.last().x_ == 0 || v.last().y_ == 0)
    }
}

/// The closed walk `[last, 0, v..., 0]` whose inner turns decide convexity.
pub open spec fn convex_walk(v: Seq<Vector2<i32, i32>>) -> Seq<Vector2<i32, i32>> {
    seq![v.last(), vec2(0, 0)] + v + seq![vec2(0, 0)]
}

/// Every turn of the walk is to the left (`left`) or every turn to the right.
pub open spec fn turns_one_way(ps: Seq<Vector2<i32, i32>>, left: bool) -> bool {
    forall|i: int|
        1 <= i < ps.len() - 1 ==> if left {
            #[trigger] turn(ps[i - 1], ps[i], ps[i + 1]) >= 0
        } else {
            turn(ps[i - 1], ps[i], ps[i + 1]) <= 0
        }
}

pub open spec fn convex_spec(v: Seq<Vector2<i32, i32>>) -> bool {
    let n = v.len() + 1;
    if n < 3 {
        false
    } else if n == 3 {
        true
    } else {
        turns_one_way(convex_walk(v), anticlockwise_spec(v))
    }
}

/// Each area term is at most `2^63` in size.
proof fn lemma_area_term_bound(x: i32, y1: i32, y0: i32)
    ensures
        -0x8000_0000_0000_0000 <= x * (y1 - y0) <= 0x8000_0000_0000_0000,
{
    let d = y1 - y0;
    assert(-0x8000_0000_0000_0000 <= x * d <= 0x8000_0000_0000_0000) by (nonlinear_arith)
        requires
            -0x8000_0000 <= x <= 0x7fff_ffff,
            -0x1_0000_0000 <= d <= 0x1_0000_0000,
    ;
}

/// `area_head(v) + area_tail(v, n)`, summed exactly in 128-bit arithmetic.
fn signed_area_x2_exec(v: &Vec<Vector2<i32, i32>>) -> (r: i128)
    requires
        v@.len() >= 2,
        v@.len() <= 0x1000_0000_0000_0000,
    ensures
        r == area_head(v@) + area_tail(v@, v@.len() as int),
{
    let n = v.len();
    proof {
        lemma_mul_fits_i64(v@[0].x_ as int, v@[1].y_ as int);
        lemma_mul_fits_i64(v@[n - 1].x_ as int, v@[n - 2].y_ as int);
    }
    let mut res: i128 = (v[0].x_ as i128) * (v[1].y_ as i128) - (v[n - 1].x_ as i128) * (v[n
        - 2].y_ as i128);
    let mut i: usize = 2;
    while i < n
        invariant
            n == v@.len(),
            n <= 0x1000_0000_0000_0000,
            2 <= i <= n,
            res == area_head(v@) + area_tail(v@, i as int),
            -(i * 0x8000_0000_0000_0000) <= res <= i * 0x8000_0000_0000_0000,
        decreases n - i,
    {
        proof {
            lemma_area_term_bound(v@[i - 1].x_, v@[i as int].y_, v@[i - 2].y_);
        }
        res = res + (v[i - 1].x_ as i128) * ((v[i].y_ as i128) - (v[i - 2].y_ as i128));
        i = i + 1;
    }
    res
}

impl Polygon<i32> {
    /// The polygon through `coords`, taking the first point as origin.
    pub fn new(coords: &[Point<i32, i32>]) -> (r: Self)
        requires
            coords@.len() >= 1,
            rel_vecs_fit(coords@),
        ensures
            r.origin == coords@[0],
            r.vecs@ == rel_vecs(coords@),
    {
        let origin = coords[0];
        let vecs = rel_vecs_exec(coords);
        Polygon { origin, vecs }
    }

    pub fn from_origin_and_vectors(origin: Point<i32, i32>, vecs: Vec<Vector2<i32, i32>>) -> (r:
        Self)
        ensures
            r.origin == origin,
            r.vecs@ == vecs@,
    {
        Polygon { origin, vecs }
    }

    /// The same as `new`.
    pub fn from_pointset(pointset: &[Point<i32, i32>]) -> (r: Self)
        requires
            pointset@.len() >= 1,
            rel_vecs_fit(pointset@),
        ensures
            r.origin == pointset@[0],
            r.vecs@ == rel_vecs(pointset@),
    {
        Self::new(pointset)
    }

    /// Moves the polygon by `rhs`.
    pub fn add_assign(&mut self, rhs: Vector2<i32, i32>)
        requires
            fits_i32(old(self).origin.xcoord + rhs.x_),
            fits_i32(old(self).origin.ycoord + rhs.y_),
        ensures
            final(self).origin == pt(
                old(self).origin.xcoord + rhs.x_,
                old(self).origin.ycoord + rhs.y_,
            ),
            final(self).vecs@ == old(self).vecs@,
    {
        self.origin.add_assign(rhs);
    }

    /// Moves the polygon by the opposite of `rhs`.
    pub fn sub_assign(&mut self, rhs: Vector2<i32, i32>)
        requires
            fits_i32(old(self).origin.xcoord - rhs.x_),
            fits_i32(old(self).origin.ycoord - rhs.y_),
        ensures
            final(self).origin == pt(
                old(self).origin.xcoord - rhs.x_,
                old(self).origin.ycoord - rhs.y_,
            ),
            final(self).vecs@ == old(self).vecs@,
    {
        self.origin.sub_assign(rhs);
    }

    /// Twice the signed area; positive for an anticlockwise polygon.
    pub fn signed_area_x2(&self) -> (r: i32)
        requires
            self.vecs@.len() <= 0x1000_0000_0000_0000,
            fits_i32(signed_area_x2_spec(self.vecs@)),
        ensures
            r == signed_area_x2_spec(self.vecs@),
    {
        if self.vecs.len() < 2 {
            return 0;
        }
        let r = signed_area_x2_exec(&self.vecs);
        r as i32
    }

    pub fn vertices(&self) -> (r: Vec<Point<i32, i32>>)
        requires
            vertices_fit(self.origin, self.vecs@),
        ensures
            r@ == vertices_of(self.origin, self.vecs@),
    {
        vertices_exec(self.origin, &self.vecs)
    }

    /// Whether every edge is horizontal or vertical.
    pub fn is_rectilinear(&self) -> (r: bool)
        ensures
            r == rectilinear_spec(self.vecs@),
    {
        let n = self.vecs.len();
        if n == 0 {
            return true;
        }
        if self.vecs[0].x_ != 0 && self.vecs[0].y_ != 0 {
            return false;
        }
        let mut i: usize = 0;
        while i < n - 1
            invariant
                n == self.vecs@.len(),
                n >= 1,
                i <= n - 1,
                forall|j: int|
                    0 <= j < i ==> (#[trigger] self.vecs@[j]).x_ == self.vecs@[j + 1].x_
                        || self.vecs@[j].y_ == self.vecs@[j + 1].y_,
            decreases n - 1 - i,
        {
            let v1 = self.vecs[i];
            let v2 = self.vecs[i + 1];
            if v1.x_ != v2.x_ && v1.y_ != v2.y_ {
                return false;
            }
            i = i + 1;
        }
        let last = self.vecs[n - 1];
        last.x_ == 0 || last.y_ == 0
    }

    /// Whether the vertices run anticlockwise, judged by the turn at the
    /// lexicographically least vertex.
    pub fn is_anticlockwise(&self) -> (r: bool)
        requires
            self.vecs@.len() >= 2,
        ensures
            r == anticlockwise_spec(self.vecs@),
    {
        let ps = rel_points_exec(&self.vecs);
        turns_left_at_min_exec(&ps)
    }

    /// Whether the polygon is convex: every turn goes the polygon's way.
    pub fn is_convex(&self) -> (r: bool)
        ensures
            r == convex_spec(self.vecs@),
    {
        if self.vecs.len() < 2 {
            return false;
        }
        if self.vecs.len() == 2 {
            return true;
        }
        let left = self.is_anticlockwise();
        let mut ps: Vec<Vector2<i32, i32>> = Vec::new();
        ps.push(self.vecs[self.vecs.len() - 1]);
        let tail = rel_points_exec(&self.vecs);
        let mut k: usize = 0;
        while k < tail.len()
            invariant
                k <= tail@.len(),
                self.vecs@.len() >= 3,
                tail@ == rel_points(self.vecs@),
                ps@ == seq![self.vecs@.last()] + tail@.subrange(0, k as int),
            decreases tail@.len() - k,
        {
            ps.push(tail[k]);
            k = k + 1;
            proof {
                assert(tail@.subrange(0, k as int) == tail@.subrange(0, k - 1).push(tail@[k - 1]));
            }
        }
        ps.push(Vector2::new(0, 0));
        proof {
            assert(tail@.subrange(0, tail@.len() as int) == tail@);
            assert(ps@ =~= convex_walk(self.vecs@));
        }
        let mut i: usize = 1;
        while i < ps.len() - 1
            invariant
                ps@ == convex_walk(self.vecs@),
                self.vecs@.len() >= 3,
                left == anticlockwise_spec(self.vecs@),
                1 <= i <= ps@.len() - 1,
                forall|j: int|
                    1 <= j < i ==> if left {
                        #[trigger] turn(ps@[j - 1], ps@[j], ps@[j + 1]) >= 0
                    } else {
                        turn(ps@[j - 1], ps@[j], ps@[j + 1]) <= 0
                    },
            decreases ps@.len() - 1 - i,
        {
            let t = turn_exec(ps[i - 1], ps[i], ps[i + 1]);
            if left && t < 0 {
                proof {
                    assert(turn(ps@[i - 1], ps@[i as int], ps@[i + 1]) < 0);

                }
                return false;
            }
            if !left && t > 0 {
                proof {
                    assert(turn(ps@[i - 1], ps@[i as int], ps@[i + 1]) > 0);
                }
                return false;
            }
            i = i + 1;
        }
        true
    }

    /// The lower-left and upper-right corners of the bounding box.
    pub fn bounding_box(&self) -> (r: (Point<i32, i32>, Point<i32, i32>))
        requires
            vertices_fit(self.origin, self.vecs@),
        ensures
            r == bounding_box_of(self.origin, self.vecs@),
    {
        bounding_box_exec(self.origin, &self.vecs)
    }
}

/// Whether the vertices `pointset` run anticlockwise, judged by the turn at the
/// lexicographically least vertex.
pub fn polygon_is_anticlockwise(pointset: &[Point<i32, i32>]) -> (r: bool)
    requires
        pointset@.len() >= 3,
    ensures
        r == turns_left_at_min(as_vecs(pointset@)),
{
    let ps = as_vecs_exec(pointset);
    turns_left_at_min_exec(&ps)
}

/// Whether `ptq` lies inside the polygon with vertices `pointset`, by the
/// parity of the edges that flip it.
pub fn point_in_polygon(pointset: &[Point<i32, i32>], ptq: &Point<i32, i32>) -> (r: bool)
    ensures
        r == (pointset@.len() > 0 && flip_parity(pointset@, *ptq, pointset@.len() as int)),
{
    let n = pointset.len();
    if n == 0 {
        return false;
    }
    let q = *ptq;
    let mut pt0 = pointset[n - 1];
    let mut res = false;
    let mut i: usize = 0;
    while i < n
        invariant
            n == pointset@.len(),
            q == *ptq,
            i <= n,
            res == flip_parity(pointset@, q, i as int),
            pt0 == if i == 0 {
                pointset@.last()
            } else {
                pointset@[i - 1]
            },
        decreases n - i,
    {
        let pt1 = pointset[i];
        if (pt1.ycoord <= q.ycoord && q.ycoord < pt0.ycoord) || (pt0.ycoord <= q.ycoord
            && q.ycoord < pt1.ycoord) {
            let det = turn_exec(
                Vector2::new(q.xcoord, q.ycoord),
                Vector2::new(pt0.xcoord, pt0.ycoord),
                Vector2::new(pt1.xcoord, pt1.ycoord),
            );
            proof {
                assert(-det == (q.xcoord - pt0.xcoord) * (pt1.ycoord - pt0.ycoord) - (q.ycoord
                    - pt0.ycoord) * (pt1.xcoord - pt0.xcoord)) by (nonlinear_arith)
                    requires
                        det == (pt0.xcoord - q.xcoord) * (pt1.ycoord - pt0.ycoord) - (pt0.ycoord
                            - q.ycoord) * (pt1.xcoord - pt0.xcoord),
                ;
            }
            if pt1.ycoord > pt0.ycoord {
                if det > 0 {
                    res = !res;
                }
            } else if det < 0 {
                res = !res;
            }
        }
        pt0 = pt1;
        i = i + 1;
    }
    res
}

/// The sort key of a point along an axis: the coordinate on that axis, then the other.
pub open spec fn axis_key(p: Point<i32, i32>, by_y: bool) -> (i32, i32) {
    if by_y {
        (p.ycoord, p.xcoord)
    } else {
        (p.xcoord, p.ycoord)
    }
}

pub open spec fn key_lt(a: (i32, i32), b: (i32, i32)) -> bool {
    a.0 < b.0 || (a.0 == b.0 && a.1 < b.1)
}

/// The index of the first point with the least key among the first `j`.
pub open spec fn first_min_key(ps: Seq<Point<i32, i32>>, by_y: bool, j: int) -> int
    decreases j,
{
    if j <= 1 {
        0
    } else {
        let m = first_min_key(ps, by_y, j - 1);
        if key_lt(axis_key(ps[j - 1], by_y), axis_key(ps[m], by_y)) {
            j - 1
        } else {
            m
        }
    }
}

/// The index of the last point with the greatest key among the first `j`.
pub open spec fn last_max_key(ps: Seq<Point<i32, i32>>, by_y: bool, j: int) -> int
    decreases j,
{
    if j <= 1 {
        0
    } else {
        let m = last_max_key(ps, by_y, j - 1);
        if key_lt(axis_key(ps[j - 1], by_y), axis_key(ps[m], by_y)) {
            m
        } else {
            j - 1
        }
    }
}

/// The number of forward steps from `i` to `t` around a cycle of length `n`.
pub open spec fn cyc_dist(i: int, t: int, n: int) -> nat {
    if t >= i {
        (t - i) as nat
    } else {
        (t + n - i) as nat
    }
}

/// Whether the axis coordinate never falls (`up`) or never rises over the
/// next `steps` edges of the cycle from index `i`.
pub open spec fn steady(ps: Seq<Point<i32, i32>>, by_y: bool, up: bool, i: int, steps: nat) -> bool
    decreases steps,
{
    if steps == 0 {
        true
    } else {
        let a = axis_key(ps[i], by_y).0;
        let b = axis_key(ps[next_index(i, ps.len() as int)], by_y).0;
        (if up {
            a <= b
        } else {
            a >= b
        }) && steady(ps, by_y, up, next_index(i, ps.len() as int), (steps - 1) as nat)
    }
}

/// Monotone along an axis: from the least to the greatest point the axis
/// coordinate never falls, and from there back it never rises.
pub open spec fn monotone_spec(ps: Seq<Point<i32, i32>>, by_y: bool) -> bool {
    let n = ps.len() as int;
    let lo = first_min_key(ps, by_y, n);
    let hi = last_max_key(ps, by_y, n);
    n <= 3 || (steady(ps, by_y, true, lo, cyc_dist(lo, hi, n)) && steady(
        ps,
        by_y,
        false,
        hi,
        cyc_dist(hi, lo, n),
    ))
}

pub(crate) fn key_of(p: Point<i32, i32>, by_y: bool) -> (r: (i32, i32))
    ensures
        r == axis_key(p, by_y),
{
    if by_y {
        (p.ycoord, p.xcoord)
    } else {
        (p.xcoord, p.ycoord)
    }
}

/// The indices of the first least and the last greatest point by key.
pub(crate) fn extreme_indices(ps: &[Point<i32, i32>], by_y: bool) -> (r: (usize, usize))
    requires
        ps@.len() >= 1,
    ensures
        r.0 == first_min_key(ps@, by_y, ps@.len() as int),
        r.1 == last_max_key(ps@, by_y, ps@.len() as int),
        r.0 < ps@.len(),
        r.1 < ps@.len(),
{
    let mut lo: usize = 0;
    let mut hi: usize = 0;
    let mut i: usize = 1;
    while i < ps.len()
        invariant
            1 <= i <= ps@.len(),
            lo < i,
            hi < i,
            lo == first_min_key(ps@, by_y, i as int),
            hi == last_max_key(ps@, by_y, i as int),
        decreases ps@.len() - i,
    {
        let k = key_of(ps[i], by_y);
        let kl = key_of(ps[lo], by_y);
        let kh = key_of(ps[hi], by_y);
        if k.0 < kl.0 || (k.0 == kl.0 && k.1 < kl.1) {
            lo = i;
        }
        if !(k.0 < kh.0 || (k.0 == kh.0 && k.1 < kh.1)) {
            hi = i;
        }
        i = i + 1;
    }
    (lo, hi)
}

/// Walks the cycle from `from` to `to`, checking that the axis coordinate
/// never falls (`up`) or never rises.
fn walk_is_steady(ps: &[Point<i32, i32>], by_y: bool, up: bool, from: usize, to: usize) -> (r:
    bool)
    requires
        from < ps@.len(),
        to < ps@.len(),
    ensures
        r == steady(ps@, by_y, up, from as int, cyc_dist(from as int, to as int, ps@.len() as int)),
{
    let n = ps.len();
    let mut i: usize = from;
    while i != to
        invariant
            n == ps@.len(),
            i < n,
            to < n,
            steady(ps@, by_y, up, from as int, cyc_dist(from as int, to as int, n as int))
                == steady(ps@, by_y, up, i as int, cyc_dist(i as int, to as int, n as int)),
        decreases cyc_dist(i as int, to as int, n as int),
    {
        let next: usize = if i + 1 == n { 0 } else { i + 1 };
        let a = key_of(ps[i], by_y).0;
        let b = key_of(ps[next], by_y).0;
        assert(cyc_dist(next as int, to as int, n as int) == cyc_dist(i as int, to as int, n as int) - 1);
        if up && a > b {
            return false;
        }
        if !up && a < b {
            return false;
        }
        i = next;
    }
    true
}

/// Whether the polygon with vertices `lst` is monotone along the y axis when
/// `by_y` holds and the x axis otherwise.
pub fn polygon_is_monotone(lst: &[Point<i32, i32>], by_y: bool) -> (r: bool)
    ensures
        r == monotone_spec(lst@, by_y),
{
    if lst.len() <= 3 {
        return true;
    }
    let (lo, hi) = extreme_indices(lst, by_y);
    walk_is_steady(lst, by_y, true, lo, hi) && walk_is_steady(lst, by_y, false, hi, lo)
}

/// Whether the polygon with vertices `lst` is monotone in x.
pub fn polygon_is_xmonotone(lst: &[Point<i32, i32>]) -> (r: bool)
    ensures
        r == monotone_spec(lst@, false),
{
    polygon_is_monotone(lst, false)
}

/// Whether the polygon with vertices `lst` is monotone in y.
pub fn polygon_is_ymonotone(lst: &[Point<i32, i32>]) -> (r: bool)
    ensures
        r == monotone_spec(lst@, true),
{
    polygon_is_monotone(lst, true)
}

/// Order of points along an axis: by the axis coordinate, then by the other.
pub open spec fn axis_leq(by_y: bool) -> spec_fn(Point<i32, i32>, Point<i32, i32>) -> bool {
    |a: Point<i32, i32>, b: Point<i32, i32>| !key_lt(axis_key(b, by_y), axis_key(a, by_y))
}

/// The axis order is a total order on points.
pub proof fn lemma_axis_leq_total(by_y: bool)
    ensures
        total_ordering(axis_leq(by_y)),
{
    let leq = axis_leq(by_y);
    assert forall|a: Point<i32, i32>, b: Point<i32, i32>| #[trigger]
        leq(a, b) && #[trigger] leq(b, a) implies a == b by {
        assert(axis_key(a, by_y) == axis_key(b, by_y));
    }
}

fn key_before(a: Point<i32, i32>, b: Point<i32, i32>, by_y: bool) -> (r: bool)
    ensures
        r == key_lt(axis_key(a, by_y), axis_key(b, by_y)),
{
    let ka = key_of(a, by_y);
    let kb = key_of(b, by_y);
    ka.0 < kb.0 || (ka.0 == kb.0 && ka.1 < kb.1)
}

/// The points of `v` in axis order.
pub(crate) fn sort_by_axis(v: &Vec<Point<i32, i32>>, by_y: bool) -> (r: Vec<Point<i32, i32>>)
    ensures
        r@ == v@.sort_by(axis_leq(by_y)),
{
    let ghost leq = axis_leq(by_y);
    proof {
        lemma_axis_leq_total(by_y);
    }
    let mut r: Vec<Point<i32, i32>> = Vec::new();
    let mut i: usize = 0;
    proof {
        assert(r@ =~= v@.subrange(0, 0));
    }
    while i < v.len()
        invariant
            i <= v@.len(),
            leq == axis_leq(by_y),
            total_ordering(leq),
            sorted_by(r@, leq),
            r@.to_multiset() == v@.subrange(0, i as int).to_multiset(),
        decreases v@.len() - i,
    {
        let x = v[i];
        let mut j: usize = 0;
        while j < r.len() && !key_before(x, r[j], by_y)
            invariant
                j <= r@.len(),
                leq == axis_leq(by_y),
                forall|k: int| 0 <= k < j ==> #[trigger] leq(r@[k], x),
            decreases r@.len() - j,
        {
            j = j + 1;
        }
        proof {
            assert forall|k: int| j <= k < r@.len() implies #[trigger] leq(x, r@[k]) by {
                assert(leq(x, r@[j as int]));
                if k > j {
                    assert(leq(r@[j as int], r@[k]));
                }
            }
        }
        let ghost old_r = r@;
        r.insert(j, x);
        proof {
            assert(r@ == old_r.insert(j as int, x));
            assert forall|p: int, q: int| 0 <= p < q < r@.len() implies #[trigger] leq(
                r@[p],
                r@[q],
            ) by {
                if p < j && q < j {
                    assert(leq(old_r[p], old_r[q]));
                } else if p < j && q == j {
                } else if p < j && q > j {
                    assert(leq(old_r[p], old_r[q - 1]));
                } else if p == j {
                } else {
                    assert(leq(old_r[p - 1], old_r[q - 1]));
                }
            }
            to_multiset_insert(old_r, j as int, x);
            assert(v@.subrange(0, i + 1) == v@.subrange(0, i as int).push(x));
            to_multiset_build(v@.subrange(0, i as int), x);
        }
        i = i + 1;
    }
    proof {
        assert(v@.subrange(0, v@.len() as int) == v@);
        v@.lemma_sort_by_ensures(leq);
        lemma_sorted_unique(r@, v@.sort_by(leq), leq);
    }
    r
}

/// The items of `s` in reverse order.
pub(crate) fn reversed(s: &Vec<Point<i32, i32>>) -> (r: Vec<Point<i32, i32>>)
    ensures
        r@ == s@.reverse(),
{
    let n = s.len();
    let mut r: Vec<Point<i32, i32>> = Vec::new();
    let mut i: usize = 0;
    while i < n
        invariant
            n == s@.len(),
            i <= n,
            r@.len() == i,
            forall|j: int| 0 <= j < i ==> r@[j] == s@[n - 1 - j],
        decreases n - i,
    {
        r.push(s[n - 1 - i]);
        i = i + 1;
    }
    proof {
        assert(r@ =~= s@.reverse());
    }
    r
}

/// `first` in axis order, followed by `second` in reverse axis order.
pub(crate) fn sorted_chain(first: &Vec<Point<i32, i32>>, second: &Vec<Point<i32, i32>>, by_y: bool) -> (r:
    Vec<Point<i32, i32>>)
    ensures
        r@ == first@.sort_by(axis_leq(by_y)) + second@.sort_by(axis_leq(by_y)).reverse(),
{
    let mut lst1 = sort_by_axis(first, by_y);
    let lst2 = sort_by_axis(second, by_y);
    let mut back = reversed(&lst2);
    lst1.append(&mut back);
    lst1
}

/// The cross product of `hi - lo` and `a - lo`: which side of the line from
/// `lo` to `hi` the point `a` lies on.
pub open spec fn side(lo: Point<i32, i32>, hi: Point<i32, i32>, a: Point<i32, i32>) -> int {
    (hi.xcoord - lo.xcoord) * (a.ycoord - lo.ycoord) - (hi.ycoord - lo.ycoord) * (a.xcoord
        - lo.xcoord)
}

fn side_exec(lo: Point<i32, i32>, hi: Point<i32, i32>, a: Point<i32, i32>) -> (r: i128)
    ensures
        r == side(lo, hi, a),
{
    proof {
        lemma_prod_bound(hi.xcoord - lo.xcoord, a.ycoord - lo.ycoord);
        lemma_prod_bound(hi.ycoord - lo.ycoord, a.xcoord - lo.xcoord);
    }
    let p: i128 = ((hi.xcoord as i128) - (lo.xcoord as i128)) * ((a.ycoord as i128) - (
    lo.ycoord as i128));
    let q: i128 = ((hi.ycoord as i128) - (lo.ycoord as i128)) * ((a.xcoord as i128) - (
    lo.xcoord as i128));
    p - q
}

/// The points on or right of the line from `lo` to `hi`.
pub open spec fn on_right(lo: Point<i32, i32>, hi: Point<i32, i32>) -> spec_fn(
    Point<i32, i32>,
) -> bool {
    |a: Point<i32, i32>| side(lo, hi, a) <= 0
}

/// The points strictly left of the line from `lo` to `hi`.
pub open spec fn on_left(lo: Point<i32, i32>, hi: Point<i32, i32>) -> spec_fn(
    Point<i32, i32>,
) -> bool {
    |a: Point<i32, i32>| side(lo, hi, a) > 0
}

/// A monotone polygon through all of `ps`: the points on or right of the line
/// from the least to the greatest point in axis order, then the others in
/// reverse axis order.
pub open spec fn mono_chain(ps: Seq<Point<i32, i32>>, by_y: bool) -> Seq<Point<i32, i32>> {
    let n = ps.len() as int;
    let lo = ps[first_min_key(ps, by_y, n)];
    let hi = ps[last_max_key(ps, by_y, n)];
    ps.filter(on_right(lo, hi)).sort_by(axis_leq(by_y)) + ps.filter(on_left(lo, hi)).sort_by(
        axis_leq(by_y),
    ).reverse()
}

/// A monotone polygon through all of `pointset`, along the y axis when `by_y`
/// holds and the x axis otherwise.
pub fn create_mono_polygon(pointset: &[Point<i32, i32>], by_y: bool) -> (r: Vec<
    Point<i32, i32>,
>)
    requires
        pointset@.len() >= 1,
    ensures
        r@ == mono_chain(pointset@, by_y),
{
    let (lo_i, hi_i) = extreme_indices(pointset, by_y);
    let lo = pointset[lo_i];
    let hi = pointset[hi_i];
    let ghost right = on_right(lo, hi);
    let ghost left = on_left(lo, hi);
    let mut lst1: Vec<Point<i32, i32>> = Vec::new();
    let mut lst2: Vec<Point<i32, i32>> = Vec::new();
    let mut i: usize = 0;
    proof {
        assert(pointset@.subrange(0, 0) =~= Seq::<Point<i32, i32>>::empty());
        assert(Seq::<Point<i32, i32>>::empty().filter(right) =~= Seq::<Point<i32, i32>>::empty()) by {
            reveal(Seq::filter);
        }
        assert(Seq::<Point<i32, i32>>::empty().filter(left) =~= Seq::<Point<i32, i32>>::empty()) by {
            reveal(Seq::filter);
        }
    }
    while i < pointset.len()
        invariant
            i <= pointset@.len(),
            right == on_right(lo, hi),
            left == on_left(lo, hi),
            lst1@ == pointset@.subrange(0, i as int).filter(right),
            lst2@ == pointset@.subrange(0, i as int).filter(left),
        decreases pointset@.len() - i,
    {
        let a = pointset[i];
        proof {
            assert(pointset@.subrange(0, i + 1) == pointset@.subrange(0, i as int).push(a));
            pointset@.subrange(0, i as int).lemma_filter_push(a, right);
            pointset@.subrange(0, i as int).lemma_filter_push(a, left);
        }
        if side_exec(lo, hi, a) <= 0 {
            lst1.push(a);
        } else {
            lst2.push(a);
        }
        i = i + 1;
    }
    proof {
        assert(pointset@.subrange(0, pointset@.len() as int) == pointset@);
    }
    sorted_chain(&lst1, &lst2, by_y)
}

/// An x-monotone polygon through all of `pointset`.
pub fn create_xmono_polygon(pointset: &[Point<i32, i32>]) -> (r: Vec<Point<i32, i32>>)
    requires
        pointset@.len() >= 1,
    ensures
        r@ == mono_chain(pointset@, false),
{
    create_mono_polygon(pointset, false)
}

/// A y-monotone polygon through all of `pointset`.
pub fn create_ymono_polygon(pointset: &[Point<i32, i32>]) -> (r: Vec<Point<i32, i32>>)
    requires
        pointset@.len() >= 1,
    ensures
        r@ == mono_chain(pointset@, true),
{
    create_mono_polygon(pointset, true)
}

} // verus!
