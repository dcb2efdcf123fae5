//! Rectilinear polygons, stored like `Polygon` as an origin and vectors.
use crate::interval::fits_i32;
use crate::point::{pt, Point};
use crate::polygon::{
    axis_key, axis_leq, extreme_indices, key_of, sorted_chain, first_min_key, last_max_key,
    as_vecs, as_vecs_exec, polygon_is_monotone, monotone_spec, bounding_box_exec, bounding_box_of, first_min_exec, first_min_index, prev_index,
    rel_points, rel_points_exec, rel_vecs, rel_vecs_exec, rel_vecs_fit, vertices_exec,
    vertices_fit, vertices_of,
};
use crate::vector2::{lemma_mul_fits_i64, Vector2};
use vstd::prelude::*;

verus! {

/// The signed area of the staircase through `v[0..j]`: `v[0].x * v[0].y`,
/// plus `v[i].x * (v[i].y - v[i-1].y)` for `1 <= i < j`.
pub open spec fn rarea(v: Seq<Vector2<i32, i32>>, j: int) -> int
    decreases j,
{
    if j <= 1 {
        v[0].x_ * v[0].y_
    } else {
        rarea(v, j - 1) + v[j - 1].x_ * (v[j - 1].y_ - v[j - 2].y_)
    }
}

/// Whether the edge from `p0` to `p1` crosses the horizontal ray from `q`
/// toward larger x.
pub open spec fn crosses(p0: Point<i32, i32>, p1: Point<i32, i32>, q: Point<i32, i32>) -> bool {
    ((p1.ycoord <= q.ycoord && q.ycoord < p0.ycoord) || (p0.ycoord <= q.ycoord && q.ycoord
        < p1.ycoord)) && p1.xcoord > q.xcoord
}

/// The parity of the crossings of the edges that end at `ps[0..j]`; the edge
/// ending at `ps[0]` starts at the last point.
pub open spec fn crossing_parity(ps: Seq<Point<i32, i32>>, q: Point<i32, i32>, j: int) -> bool
    decreases j,
{
    if j <= 0 {
        false
    } else {
        let p0 = if j == 1 {
            ps.last()
        } else {
            ps[j - 2]
        };
        crossing_parity(ps, q, j - 1) != crosses(p0, ps[j - 1], q)
    }
}

/// Whether, in the closed walk `ps`, the vertex before the lexicographically
/// least one lies above it.
pub open spec fn arrives_from_above(ps: Seq<Vector2<i32, i32>>) -> bool {
    let n = ps.len() as int;
    let m = first_min_index(ps, n);
    ps[prev_index(m, n)].y_ > ps[m].y_
}

/// Whether the vertex before the lexicographically least one lies above it.
pub open spec fn r_anticlockwise_spec(vecs: Seq<Vector2<i32, i32>>) -> bool {
    arrives_from_above(rel_points(vecs))
}

fn arrives_from_above_exec(ps: &Vec<Vector2<i32, i32>>) -> (r: bool)
    requires
        ps@.len() >= 1,
    ensures
        r == arrives_from_above(ps@),
{
    let n = ps.len();
    let m = first_min_exec(ps);
    let prev = if m == 0 { ps[n - 1] } else { ps[m - 1] };
    prev.y_ > ps[m].y_
}

/// The points whose secondary key is at most `bound` when `low` holds, and
/// at least `bound` otherwise.
pub open spec fn secondary_side(by_y: bool, bound: i32, low: bool) -> spec_fn(
    Point<i32, i32>,
) -> bool {
    |a: Point<i32, i32>| if low {
        axis_key(a, by_y).1 <= bound
    } else {
        axis_key(a, by_y).1 >= bound
    }
}

/// The points that `secondary_side` leaves out.
pub open spec fn secondary_other(by_y: bool, bound: i32, low: bool) -> spec_fn(
    Point<i32, i32>,
) -> bool {
    |a: Point<i32, i32>| !secondary_side(by_y, bound, low)(a)
}

/// Whether the monotone staircase built from `ps` runs anticlockwise: the
/// greatest point's secondary key is at most the least point's.
pub open spec fn mono_r_anticlockwise(ps: Seq<Point<i32, i32>>, by_y: bool) -> bool {
    let n = ps.len() as int;
    let lo = ps[first_min_key(ps, by_y, n)];
    let hi = ps[last_max_key(ps, by_y, n)];
    axis_key(hi, by_y).1 <= axis_key(lo, by_y).1
}

/// A monotone rectilinear polygon through all of `ps`: the points on the
/// least point's side in axis order, then the others in reverse axis order.
pub open spec fn mono_r_chain(ps: Seq<Point<i32, i32>>, by_y: bool) -> Seq<Point<i32, i32>> {
    let n = ps.len() as int;
    let lo = ps[first_min_key(ps, by_y, n)];
    let acw = mono_r_anticlockwise(ps, by_y);
    let bound = axis_key(lo, by_y).1;
    ps.filter(secondary_side(by_y, bound, acw)).sort_by(axis_leq(by_y)) + ps.filter(
        secondary_other(by_y, bound, acw),
    ).sort_by(axis_leq(by_y)).reverse()
}

/// Each staircase term is at most `2^63` in size.
proof fn lemma_rarea_term_bound(x: i32, y1: i32, y0: i32)
    ensures
        -0x8000_0000_0000_0000 <= x * (y1 - y0) <= 0x8000_0000_0000_0000,
{
    let d = y1 - y0;
    assert(-0x8000_0000_0000_0000 <= x * d <= 0x8000_0000_0000_0000) by (nonlinear_arith)
        requires
            -0x8000_0000 <= x <= 0x7fff_ffff,
            -0x1_0000_0000 <= d <= 0x1_0000_0000,
    ;
}

/// A rectilinear polygon: `origin`, then `origin + vecs[i]` for each vector.
#[derive(PartialEq, Eq, Clone, Debug, Default)]
pub struct RPolygon<T> {
    pub origin: Point<T, T>,
    vecs: Vec<Vector2<T, T>>,
}

impl RPolygon<i32> {
    pub closed spec fn spec_origin(&self) -> Point<i32, i32> {
        self.origin
    }

    /// The vectors from the origin to the other vertices.
    pub closed spec fn spec_vecs(&self) -> Seq<Vector2<i32, i32>> {
        self.vecs@
    }

    /// The polygon through `coords`, taking the first point as origin.
    pub fn new(coords: &[Point<i32, i32>]) -> (r: Self)
        requires
            coords@.len() >= 1,
            rel_vecs_fit(coords@),
        ensures
            r.spec_origin() == coords@[0],
            r.spec_vecs() == rel_vecs(coords@),
    {
        let origin = coords[0];
        let vecs = rel_vecs_exec(coords);
        RPolygon { origin, vecs }
    }

    pub fn from_origin_and_vectors(origin: Point<i32, i32>, vecs: Vec<Vector2<i32, i32>>) -> (r:
        Self)
        ensures
            r.spec_origin() == origin,
            r.spec_vecs() == vecs@,
    {
        RPolygon { origin, vecs }
    }

    /// The same as `new`.
    pub fn from_pointset(pointset: &[Point<i32, i32>]) -> (r: Self)
        requires
            pointset@.len() >= 1,
            rel_vecs_fit(pointset@),
        ensures
            r.spec_origin() == pointset@[0],
            r.spec_vecs() == rel_vecs(pointset@),
    {
        let origin = pointset[0];
        let vecs = rel_vecs_exec(pointset);
        RPolygon { origin, vecs }
    }

    /// Moves the polygon by `rhs`.
    pub fn add_assign(&mut self, rhs: Vector2<i32, i32>)
        requires
            fits_i32(old(self).spec_origin().xcoord + rhs.x_),
            fits_i32(old(self).spec_origin().ycoord + rhs.y_),
        ensures
            final(self).spec_origin() == pt(
                old(self).spec_origin().xcoord + rhs.x_,
                old(self).spec_origin().ycoord + rhs.y_,
            ),
            final(self).spec_vecs() == old(self).spec_vecs(),
    {
        self.origin.add_assign(rhs);
    }

    /// Moves the polygon by the opposite of `rhs`.
    pub fn sub_assign(&mut self, rhs: Vector2<i32, i32>)
        requires
            fits_i32(old(self).spec_origin().xcoord - rhs.x_),
            fits_i32(old(self).spec_origin().ycoord - rhs.y_),
        ensures
            final(self).spec_origin() == pt(
                old(self).spec_origin().xcoord - rhs.x_,
                old(self).spec_origin().ycoord - rhs.y_,
            ),
            final(self).spec_vecs() == old(self).spec_vecs(),
    {
        self.origin.sub_assign(rhs);
    }

    /// The signed area; positive for an anticlockwise polygon.
    pub fn signed_area(&self) -> (r: i32)
        requires
            self.spec_vecs().len() >= 1,
            self.spec_vecs().len() <= 0x1000_0000_0000_0000,
            fits_i32(rarea(self.spec_vecs(), self.spec_vecs().len() as int)),
        ensures
            r == rarea(self.spec_vecs(), self.spec_vecs().len() as int),
    {
        let v = &self.vecs;
        let n = v.len();
        proof {
            lemma_mul_fits_i64(v@[0].x_ as int, v@[0].y_ as int);
        }
        let mut res: i128 = (v[0].x_ as i128) * (v[0].y_ as i128);
        let mut i: usize = 1;
        while i < n
            invariant
                n == v@.len(),
                n <= 0x1000_0000_0000_0000,
                1 <= i <= n,
                res == rarea(v@, i as int),
                -(i * 0x8000_0000_0000_0000) <= res <= i * 0x8000_0000_0000_0000,
            decreases n - i,
        {
            proof {
                lemma_rarea_term_bound(v@[i as int].x_, v@[i as int].y_, v@[i - 1].y_);
            }
            res = res + (v[i].x_ as i128) * ((v[i].y_ as i128) - (v[i - 1].y_ as i128));
            i = i + 1;
        }
        res as i32
    }

    pub fn vertices(&self) -> (r: Vec<Point<i32, i32>>)
        requires
            vertices_fit(self.spec_origin(), self.spec_vecs()),
        ensures
            r@ == vertices_of(self.spec_origin(), self.spec_vecs()),
    {
        vertices_exec(self.origin, &self.vecs)
    }

    /// The lower-left and upper-right corners of the bounding box.
    pub fn bounding_box(&self) -> (r: (Point<i32, i32>, Point<i32, i32>))
        requires
            vertices_fit(self.spec_origin(), self.spec_vecs()),
        ensures
            r == bounding_box_of(self.spec_origin(), self.spec_vecs()),
    {
        bounding_box_exec(self.origin, &self.vecs)
    }

    /// A rectilinear polygon is rectilinear by construction.
    pub fn is_rectilinear(&self) -> (r: bool)
        ensures
            r,
    {
        true
    }

    /// Whether the vertices run anticlockwise: at the lexicographically least
    /// vertex, the edge arrives from above.
    pub fn is_anticlockwise(&self) -> (r: bool)
        requires
            self.spec_vecs().len() >= 1,
        ensures
            r == r_anticlockwise_spec(self.spec_vecs()),
    {
        let ps = rel_points_exec(&self.vecs);
        arrives_from_above_exec(&ps)
    }

    /// A monotone rectilinear polygon through all of `pointset`, along the
    /// y axis when `by_y` holds and the x axis otherwise, and whether it runs
    /// anticlockwise.
    pub fn create_mono_rpolygon(pointset: &[Point<i32, i32>], by_y: bool) -> (r: (
        Vec<Point<i32, i32>>,
        bool,
    ))
        requires
            pointset@.len() >= 1,
        ensures
            r.0@ == mono_r_chain(pointset@, by_y),
            r.1 == mono_r_anticlockwise(pointset@, by_y),
    {
        let (lo_i, hi_i) = extreme_indices(pointset, by_y);
        let lo = key_of(pointset[lo_i], by_y);
        let hi = key_of(pointset[hi_i], by_y);
        let acw = hi.1 <= lo.1;
        let ghost first = secondary_side(by_y, lo.1, acw);
        let ghost second = secondary_other(by_y, lo.1, acw);
        let mut lst1: Vec<Point<i32, i32>> = Vec::new();
        let mut lst2: Vec<Point<i32, i32>> = Vec::new();
        let mut i: usize = 0;
        proof {
            assert(pointset@.subrange(0, 0) =~= Seq::<Point<i32, i32>>::empty());
            assert(Seq::<Point<i32, i32>>::empty().filter(first) =~= Seq::<
                Point<i32, i32>,
            >::empty()) by {
                reveal(Seq::filter);
            }
            assert(Seq::<Point<i32, i32>>::empty().filter(second) =~= Seq::<
                Point<i32, i32>,
            >::empty()) by {
                reveal(Seq::filter);
            }
        }
        while i < pointset.len()
            invariant
                i <= pointset@.len(),
                first == secondary_side(by_y, lo.1, acw),
                second == secondary_other(by_y, lo.1, acw),
                lst1@ == pointset@.subrange(0, i as int).filter(first),
                lst2@ == pointset@.subrange(0, i as int).filter(second),
            decreases pointset@.len() - i,
        {
            let a = pointset[i];
            proof {
                assert(pointset@.subrange(0, i + 1) == pointset@.subrange(0, i as int).push(a));
                pointset@.subrange(0, i as int).lemma_filter_push(a, first);
                pointset@.subrange(0, i as int).lemma_filter_push(a, second);
            }
            let k = key_of(a, by_y);
            let keep = if acw { k.1 <= lo.1 } else { k.1 >= lo.1 };
            if keep {
                lst1.push(a);
            } else {
                lst2.push(a);
            }
            i = i + 1;
        }
        proof {
            assert(pointset@.subrange(0, pointset@.len() as int) == pointset@);
        }
        (sorted_chain(&lst1, &lst2, by_y), acw)
    }

    /// An x-monotone rectilinear polygon through all of `pointset`, and
    /// whether it runs anticlockwise.
    pub fn create_xmono_rpolygon(pointset: &[Point<i32, i32>]) -> (r: (Vec<Point<i32, i32>>, bool))
        requires
            pointset@.len() >= 1,
        ensures
            r.0@ == mono_r_chain(pointset@, false),
            r.1 == mono_r_anticlockwise(pointset@, false),
    {
        Self::create_mono_rpolygon(pointset, false)
    }

    /// A y-monotone rectilinear polygon through all of `pointset`, and
    /// whether it runs anticlockwise.
    pub fn create_ymono_rpolygon(pointset: &[Point<i32, i32>]) -> (r: (Vec<Point<i32, i32>>, bool))
        requires
            pointset@.len() >= 1,
        ensures
            r.0@ == mono_r_chain(pointset@, true),
            r.1 == mono_r_anticlockwise(pointset@, true),
    {
        Self::create_mono_rpolygon(pointset, true)
    }

    /// Whether `q` lies inside the rectilinear polygon with vertices
    /// `pointset`, by the parity of the edges crossed by a ray from `q`.
    pub fn point_in_rpolygon(pointset: &[Point<i32, i32>], q: &Point<i32, i32>) -> (r: bool)
        requires
            pointset@.len() >= 1,
        ensures
            r == crossing_parity(pointset@, *q, pointset@.len() as int),
    {
        let n = pointset.len();
        let mut res = false;
        let mut p0 = pointset[n - 1];
        let mut i: usize = 0;
        while i < n
            invariant
                n == pointset@.len(),
                i <= n,
                res == crossing_parity(pointset@, *q, i as int),
                p0 == if i == 0 {
                    pointset@.last()
                } else {
                    pointset@[i - 1]
                },
            decreases n - i,
        {
            let p1 = pointset[i];
            if ((p1.ycoord <= q.ycoord && q.ycoord < p0.ycoord) || (p0.ycoord <= q.ycoord
                && q.ycoord < p1.ycoord)) && p1.xcoord > q.xcoord {
                res = !res;
            }
            p0 = p1;
            i = i + 1;
        }
        res
    }
}

/// Whether the rectilinear polygon with vertices `lst` is monotone along the
/// y axis when `by_y` holds and the x axis otherwise.
pub fn rpolygon_is_monotone(lst: &[Point<i32, i32>], by_y: bool) -> (r: bool)
    ensures
        r == monotone_spec(lst@, by_y),
{
    polygon_is_monotone(lst, by_y)
}

/// Whether the rectilinear polygon with vertices `lst` is monotone in x.
pub fn rpolygon_is_xmonotone(lst: &[Point<i32, i32>]) -> (r: bool)
    ensures
        r == monotone_spec(lst@, false),
{
    rpolygon_is_monotone(lst, false)
}

/// Whether the rectilinear polygon with vertices `lst` is monotone in y.
pub fn rpolygon_is_ymonotone(lst: &[Point<i32, i32>]) -> (r: bool)
    ensures
        r == monotone_spec(lst@, true),
{
    rpolygon_is_monotone(lst, true)
}

/// A rectilinear polygon is convex when it is monotone in both axes.
pub fn rpolygon_is_convex(lst: &[Point<i32, i32>]) -> (r: bool)
    ensures
        r == (monotone_spec(lst@, false) && monotone_spec(lst@, true)),
{
    rpolygon_is_xmonotone(lst) && rpolygon_is_ymonotone(lst)
}

/// Whether the vertices `pointset` run anticlockwise: at the lexicographically
/// least vertex, the edge arrives from above.
pub fn rpolygon_is_anticlockwise(pointset: &[Point<i32, i32>]) -> (r: bool)
    requires
        pointset@.len() >= 2,
    ensures
        r == arrives_from_above(as_vecs(pointset@)),
{
    let ps = as_vecs_exec(pointset);
    arrives_from_above_exec(&ps)
}

} // verus!
