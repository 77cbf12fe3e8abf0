//! Nearest-neighbor search over the fixed map point set. Correctness needs
//! only that the true nearest point under Euclidean distance is returned, so
//! the index is a linear scan with an exact contract; squared distances are
//! compared, which orders points identically.

use vstd::prelude::*;
use crate::math::lemma_mul_bound;
use crate::point::{all_in_range, in_range, pt_abs_le, pts_view, Point3, PointView};
use crate::WIDE_MAX;

verus! {

/// Squared Euclidean distance.
pub open spec fn dist_sq(a: PointView, b: PointView) -> int {
    (a.x - b.x) * (a.x - b.x) + (a.y - b.y) * (a.y - b.y) + (a.z - b.z) * (a.z - b.z)
}

/// `i` indexes a point of `s` nearest to `q`, the first one among ties.
pub open spec fn is_nearest(s: Seq<PointView>, q: PointView, i: int) -> bool {
    &&& 0 <= i < s.len()
    &&& forall|k: int| 0 <= k < s.len() ==> dist_sq(s[i], q) <= dist_sq(#[trigger] s[k], q)
    &&& forall|k: int| 0 <= k < i ==> dist_sq(#[trigger] s[k], q) > dist_sq(s[i], q)
}

/// Squared distance between two points whose coordinates are within
/// `WIDE_MAX`.
pub fn dist_sq_exec(a: &Point3, b: &Point3) -> (d: u128)
    requires
        pt_abs_le(a@, WIDE_MAX as int),
        pt_abs_le(b@, WIDE_MAX as int),
    ensures
        d == dist_sq(a@, b@),
        d < 0x2_0000_0000_0000_0000_0000_0000u128,
{
    let dx = a.x as i128 - b.x as i128;
    let dy = a.y as i128 - b.y as i128;
    let dz = a.z as i128 - b.z as i128;
    proof {
        let w = 2 * WIDE_MAX as int;
        assert(w == 167_125_767_421_952);
        lemma_mul_bound(dx as int, dx as int, w, w);
        lemma_mul_bound(dy as int, dy as int, w, w);
        lemma_mul_bound(dz as int, dz as int, w, w);
        assert(w * w < 0x4000_0000_0000_0000_0000_0000_0000i128) by (nonlinear_arith)
            requires
                w == 167_125_767_421_952,
        ;
        assert(dx * dx >= 0 && dy * dy >= 0 && dz * dz >= 0) by (nonlinear_arith);
    }
    let s = dx * dx + dy * dy + dz * dz;
    s as u128
}

/// Static nearest-neighbor index over the map point set, built once per
/// registration run and read-only thereafter.
pub struct SpatialIndex {
    points: Vec<Point3>,
}

impl View for SpatialIndex {
    type V = Seq<PointView>;

    closed spec fn view(&self) -> Seq<PointView> {
        pts_view(self.points@)
    }
}

impl SpatialIndex {
    /// A usable index: non-empty and all points within the input bound.
    pub open spec fn wf(&self) -> bool {
        &&& self@.len() > 0
        &&& all_in_range(self@)
    }

    /// Builds the index from a non-empty map point set.
    pub fn new(points: Vec<Point3>) -> (s: SpatialIndex)
        requires
            points@.len() > 0,
            all_in_range(pts_view(points@)),
        ensures
            s@ == pts_view(points@),
            s.wf(),
    {
        SpatialIndex { points }
    }

    pub fn len(&self) -> (n: usize)
        ensures
            n == self@.len(),
    {
        self.points.len()
    }

    /// The indexed points, in build order.
    pub fn points(&self) -> (v: &Vec<Point3>)
        ensures
            pts_view(v@) == self@,
    {
        &self.points
    }

    /// The index of the map point nearest to `q` (first index among ties).
    pub fn nearest(&self, q: &Point3) -> (i: usize)
        requires
            self.wf(),
            pt_abs_le(q@, WIDE_MAX as int),
        ensures
            is_nearest(self@, q@, i as int),
    {
        let mut best: usize = 0;
        proof {
            assert(self@[0] == self.points@[0]@);
            assert(in_range(self@[0]));
        }
        let mut best_d: u128 = dist_sq_exec(&self.points[0], q);
        let mut k: usize = 1;
        while k < self.points.len()
            invariant
                self.wf(),
                pt_abs_le(q@, WIDE_MAX as int),
                self@.len() == self.points@.len(),
                1 <= k <= self.points@.len(),
                best < k,
                best_d == dist_sq(self@[best as int], q@),
                forall|j: int| 0 <= j < k ==> best_d <= dist_sq(#[trigger] self@[j], q@),
                forall|j: int| 0 <= j < best ==> dist_sq(#[trigger] self@[j], q@) > best_d,
            decreases self.points@.len() - k,
        {
            proof {
                assert(self@[k as int] == self.points@[k as int]@);
                assert(in_range(self@[k as int]));
            }
            let d = dist_sq_exec(&self.points[k], q);
            if d < best_d {
                best = k;
                best_d = d;
            }
            k = k + 1;
        }
        best
    }
}

} // verus!
