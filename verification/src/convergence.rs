//! Convergence evaluation: the registration error is the mean Euclidean
//! residual distance over all correspondences under the current transform.

use vstd::prelude::*;
use crate::correspondence::{corrs_ok, Correspondence};
use crate::index::{dist_sq, dist_sq_exec};
use crate::math::{isqrt, lemma_div_trunc_bound, spec_isqrt};
use crate::point::{all_in_range, in_range, pts_view, Point3, PointView};
use crate::transform::{spec_apply, transform_wf, RigidTransform, TransformView};

verus! {

/// The residual of one correspondence: the Euclidean distance (integer
/// square root of the exact squared distance) between the map point and the
/// transformed scan point.
pub open spec fn residual(
    map: Seq<PointView>,
    scan: Seq<PointView>,
    t: TransformView,
    c: Correspondence,
) -> int {
    spec_isqrt(dist_sq(map[c.map_index as int], spec_apply(t, scan[c.scan_index as int])))
}

/// Sum of the residuals of a correspondence sequence.
pub open spec fn err_sum(
    map: Seq<PointView>,
    scan: Seq<PointView>,
    t: TransformView,
    cs: Seq<Correspondence>,
) -> int
    decreases cs.len(),
{
    if cs.len() == 0 {
        0
    } else {
        err_sum(map, scan, t, cs.drop_last()) + residual(map, scan, t, cs.last())
    }
}

/// The registration error: mean residual over all correspondences.
pub open spec fn spec_registration_error(
    map: Seq<PointView>,
    scan: Seq<PointView>,
    t: TransformView,
    cs: Seq<Correspondence>,
) -> int
    recommends
        cs.len() > 0,
{
    err_sum(map, scan, t, cs) / (cs.len() as int)
}

/// Mean Euclidean distance between each map point and its corresponding
/// transformed scan point.
pub fn registration_error(
    points_map: &Vec<Point3>,
    points_scan: &Vec<Point3>,
    scan_transformation: &RigidTransform,
    correspondences: &Vec<Correspondence>,
) -> (e: u64)
    requires
        all_in_range(pts_view(points_map@)),
        all_in_range(pts_view(points_scan@)),
        transform_wf(scan_transformation@),
        corrs_ok(
            pts_view(points_map@),
            pts_view(points_scan@),
            scan_transformation@,
            correspondences@,
        ),
        correspondences@.len() > 0,
    ensures
        e == spec_registration_error(
            pts_view(points_map@),
            pts_view(points_scan@),
            scan_transformation@,
            correspondences@,
        ),
{
    let ghost mapv = pts_view(points_map@);
    let ghost scanv = pts_view(points_scan@);
    let ghost t = scan_transformation@;
    let ghost cs = correspondences@;
    let ghost rmax: int = 0x2_0000_0000_0000i128 as int;
    let mut sum: u128 = 0;
    let mut i: usize = 0;
    while i < correspondences.len()
        invariant
            all_in_range(mapv),
            all_in_range(scanv),
            mapv == pts_view(points_map@),
            scanv == pts_view(points_scan@),
            mapv.len() == points_map@.len(),
            scanv.len() == points_scan@.len(),
            transform_wf(t),
            t == scan_transformation@,
            cs == correspondences@,
            corrs_ok(mapv, scanv, t, cs),
            rmax == 0x2_0000_0000_0000i128 as int,
            i <= cs.len(),
            sum == err_sum(mapv, scanv, t, cs.take(i as int)),
            sum <= (i as int) * rmax,
        decreases cs.len() - i,
    {
        let c = correspondences[i];
        proof {
            assert(cs[i as int] == c);
            assert(c.scan_index == i as int);
            assert(c.map_index < mapv.len());
            assert(scanv[c.scan_index as int] == points_scan@[c.scan_index as int]@);
            assert(in_range(scanv[c.scan_index as int]));
            assert(mapv[c.map_index as int] == points_map@[c.map_index as int]@);
            assert(in_range(mapv[c.map_index as int]));
        }
        let p = points_scan[c.scan_index];
        let moved = scan_transformation.apply(&p);
        let m = points_map[c.map_index];
        let d = dist_sq_exec(&m, &moved);
        let r = isqrt(d);
        proof {
            assert(r < 0x2_0000_0000_0000u64) by (nonlinear_arith)
                requires
                    (r as int) * (r as int) <= d,
                    d < 0x2_0000_0000_0000_0000_0000_0000u128,
                    r >= 0,
            ;
            assert((i as int) * rmax < 0x2_0000_0000_0000_0000_0000_0000_0000u128)
                by (nonlinear_arith)
                requires
                    0 <= (i as int) <= 0xffff_ffff_ffff_ffffu64,
                    rmax == 0x2_0000_0000_0000i128 as int,
            ;
            assert(cs.take(i + 1).drop_last() =~= cs.take(i as int));
            assert(cs.take(i + 1).last() == cs[i as int]);
            assert(residual(mapv, scanv, t, c) == r);
            assert(((i + 1) as int) * rmax == (i as int) * rmax + rmax) by (nonlinear_arith);
        }
        sum = sum + r as u128;
        i = i + 1;
    }
    proof {
        assert(cs.take(cs.len() as int) =~= cs);
        let n = cs.len() as int;
        lemma_div_trunc_bound(sum as int, n, rmax);
    }
    let e = sum / (correspondences.len() as u128);
    e as u64
}

} // verus!
