//! Points with fixed-point integer coordinates, their unbounded mathematical
//! model, and centroids of point sets.

use vstd::prelude::*;
use crate::COORD_MAX;
use crate::math::{div_fix, div_trunc, lemma_div_trunc_bound};

verus! {

/// Unbounded mathematical model of a 3D point or vector.
pub struct PointView {
    pub x: int,
    pub y: int,
    pub z: int,
}

/// A 3D point, each coordinate an `i64` in fixed-point units (see
/// [`crate::SCALE`]).
#[derive(Clone, Copy, PartialEq, Eq, Structural, Debug)]
pub struct Point3 {
    pub x: i64,
    pub y: i64,
    pub z: i64,
}

impl View for Point3 {
    type V = PointView;

    open spec fn view(&self) -> PointView {
        PointView { x: self.x as int, y: self.y as int, z: self.z as int }
    }
}

impl Point3 {
    pub fn new(x: i64, y: i64, z: i64) -> (p: Point3)
        ensures
            p@ == (PointView { x: x as int, y: y as int, z: z as int }),
    {
        Point3 { x, y, z }
    }
}

/// Every coordinate within the bound `b`.
pub open spec fn pt_abs_le(p: PointView, b: int) -> bool {
    &&& -b <= p.x <= b
    &&& -b <= p.y <= b
    &&& -b <= p.z <= b
}

/// Every coordinate within the input bound `COORD_MAX`.
pub open spec fn in_range(p: PointView) -> bool {
    &&& -COORD_MAX <= p.x <= COORD_MAX
    &&& -COORD_MAX <= p.y <= COORD_MAX
    &&& -COORD_MAX <= p.z <= COORD_MAX
}

/// Every coordinate within twice the input bound; differences of two
/// in-range points land here.
pub open spec fn in_range2(p: PointView) -> bool {
    &&& -2 * COORD_MAX <= p.x <= 2 * COORD_MAX
    &&& -2 * COORD_MAX <= p.y <= 2 * COORD_MAX
    &&& -2 * COORD_MAX <= p.z <= 2 * COORD_MAX
}

pub open spec fn all_in_range(s: Seq<PointView>) -> bool {
    forall|i: int| 0 <= i < s.len() ==> in_range(#[trigger] s[i])
}

/// The sequence of models of a sequence of points.
pub open spec fn pts_view(s: Seq<Point3>) -> Seq<PointView> {
    Seq::new(s.len(), |i: int| s[i]@)
}

/// Componentwise sum of a sequence of points.
pub open spec fn sum_points(s: Seq<PointView>) -> PointView
    decreases s.len(),
{
    if s.len() == 0 {
        PointView { x: 0, y: 0, z: 0 }
    } else {
        let r = sum_points(s.drop_last());
        let l = s.last();
        PointView { x: r.x + l.x, y: r.y + l.y, z: r.z + l.z }
    }
}

/// The centroid of a non-empty point set: the componentwise sum divided
/// (truncating) by the number of points.
pub open spec fn centroid(s: Seq<PointView>) -> PointView
    recommends
        s.len() > 0,
{
    let t = sum_points(s);
    let n = s.len() as int;
    PointView { x: div_trunc(t.x, n), y: div_trunc(t.y, n), z: div_trunc(t.z, n) }
}

/// The componentwise sum of `n` in-range points is bounded by `n * COORD_MAX`.
pub proof fn lemma_sum_points_bound(s: Seq<PointView>)
    requires
        all_in_range(s),
    ensures
        -(s.len() * COORD_MAX) <= sum_points(s).x <= s.len() * COORD_MAX,
        -(s.len() * COORD_MAX) <= sum_points(s).y <= s.len() * COORD_MAX,
        -(s.len() * COORD_MAX) <= sum_points(s).z <= s.len() * COORD_MAX,
    decreases s.len(),
{
    if s.len() > 0 {
        assert(all_in_range(s.drop_last()));
        lemma_sum_points_bound(s.drop_last());
        assert(in_range(s.last()));
        assert((s.len() - 1) * COORD_MAX + COORD_MAX == s.len() * COORD_MAX) by (nonlinear_arith);
    }
}

/// The centroid of the full set, as the original computes it: the mean of all
/// points, not of a corresponded subset.
pub fn center_of_mass(points: &Vec<Point3>) -> (c: Point3)
    requires
        points@.len() > 0,
        all_in_range(pts_view(points@)),
    ensures
        c@ == centroid(pts_view(points@)),
        in_range(c@),
{
    let ghost pv = pts_view(points@);
    let mut sx: i128 = 0;
    let mut sy: i128 = 0;
    let mut sz: i128 = 0;
    let mut i: usize = 0;
    while i < points.len()
        invariant
            i <= points@.len(),
            pv == pts_view(points@),
            pv.len() == points@.len(),
            all_in_range(pv),
            sx == sum_points(pv.take(i as int)).x,
            sy == sum_points(pv.take(i as int)).y,
            sz == sum_points(pv.take(i as int)).z,
            -((i as int) * COORD_MAX) <= sx <= (i as int) * COORD_MAX,
            -((i as int) * COORD_MAX) <= sy <= (i as int) * COORD_MAX,
            -((i as int) * COORD_MAX) <= sz <= (i as int) * COORD_MAX,
        decreases points@.len() - i,
    {
        let p = points[i];
        proof {
            assert(pv[i as int] == p@);
            assert(in_range(pv[i as int]));
            assert(pv.take(i + 1).drop_last() =~= pv.take(i as int));
            assert(pv.take(i + 1).last() == pv[i as int]);
            assert(((i + 1) as int) * COORD_MAX == (i as int) * COORD_MAX + COORD_MAX)
                by (nonlinear_arith);
            assert((i as int) * COORD_MAX <= 0xffff_ffff_ffff_ffffu64 * COORD_MAX)
                by (nonlinear_arith)
                requires
                    0 <= (i as int) <= 0xffff_ffff_ffff_ffffu64,
                    COORD_MAX >= 0,
            ;
        }
        sx = sx + p.x as i128;
        sy = sy + p.y as i128;
        sz = sz + p.z as i128;
        i = i + 1;
    }
    proof {
        assert(pv.take(points@.len() as int) =~= pv);
        let n = pv.len() as int;
        assert((i as int) * COORD_MAX == n * COORD_MAX);
        assert(n * COORD_MAX <= 0xffff_ffff_ffff_ffffu64 * COORD_MAX) by (nonlinear_arith)
            requires
                0 <= n <= 0xffff_ffff_ffff_ffffu64,
                COORD_MAX >= 0,
        ;
        lemma_div_trunc_bound(sx as int, n, COORD_MAX as int);
        lemma_div_trunc_bound(sy as int, n, COORD_MAX as int);
        lemma_div_trunc_bound(sz as int, n, COORD_MAX as int);
    }
    let n = points.len() as i128;
    let cx = div_fix(sx, n);
    let cy = div_fix(sy, n);
    let cz = div_fix(sz, n);
    Point3 { x: cx as i64, y: cy as i64, z: cz as i64 }
}

} // verus!
