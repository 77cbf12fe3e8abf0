//! Cross-covariance accumulation: the 3x3 matrix whose singular value
//! decomposition yields the alignment rotation. Each correspondence
//! contributes the outer product of the map point's deviation from the map
//! centroid with the transform applied to the scan point's deviation from
//! the scan centroid; contributions are summed, not averaged.

use vstd::prelude::*;
use crate::correspondence::{corrs_ok, Correspondence};
use crate::math::lemma_mul_bound;
use crate::matrix::MatView;
use crate::point::{all_in_range, in_range, pts_view, Point3, PointView};
use crate::transform::{spec_apply, transform_wf, RigidTransform, TransformView};
use crate::{COORD_MAX, WIDE_MAX};

verus! {

/// Cross-covariance accumulator; entries are raw sums in `i128`.
#[derive(Clone, Copy, PartialEq, Eq, Structural, Debug)]
pub struct CovMatrix {
    pub c00: i128,
    pub c01: i128,
    pub c02: i128,
    pub c10: i128,
    pub c11: i128,
    pub c12: i128,
    pub c20: i128,
    pub c21: i128,
    pub c22: i128,
}

impl View for CovMatrix {
    type V = MatView;

    open spec fn view(&self) -> MatView {
        MatView {
            m00: self.c00 as int,
            m01: self.c01 as int,
            m02: self.c02 as int,
            m10: self.c10 as int,
            m11: self.c11 as int,
            m12: self.c12 as int,
            m20: self.c20 as int,
            m21: self.c21 as int,
            m22: self.c22 as int,
        }
    }
}

pub open spec fn zero_mat() -> MatView {
    MatView { m00: 0, m01: 0, m02: 0, m10: 0, m11: 0, m12: 0, m20: 0, m21: 0, m22: 0 }
}

pub open spec fn mat_add(a: MatView, b: MatView) -> MatView {
    MatView {
        m00: a.m00 + b.m00,
        m01: a.m01 + b.m01,
        m02: a.m02 + b.m02,
        m10: a.m10 + b.m10,
        m11: a.m11 + b.m11,
        m12: a.m12 + b.m12,
        m20: a.m20 + b.m20,
        m21: a.m21 + b.m21,
        m22: a.m22 + b.m22,
    }
}

pub open spec fn pt_sub(a: PointView, b: PointView) -> PointView {
    PointView { x: a.x - b.x, y: a.y - b.y, z: a.z - b.z }
}

/// Outer product `a * b^T`.
pub open spec fn outer(a: PointView, b: PointView) -> MatView {
    MatView {
        m00: a.x * b.x,
        m01: a.x * b.y,
        m02: a.x * b.z,
        m10: a.y * b.x,
        m11: a.y * b.y,
        m12: a.y * b.z,
        m20: a.z * b.x,
        m21: a.z * b.y,
        m22: a.z * b.z,
    }
}

/// One correspondence's contribution to the cross-covariance.
pub open spec fn cov_term(
    map: Seq<PointView>,
    scan: Seq<PointView>,
    t: TransformView,
    map_centroid: PointView,
    scan_centroid: PointView,
    c: Correspondence,
) -> MatView {
    outer(
        pt_sub(map[c.map_index as int], map_centroid),
        spec_apply(t, pt_sub(scan[c.scan_index as int], scan_centroid)),
    )
}

/// The cross-covariance matrix: the sum of all contributions.
pub open spec fn cov_sum(
    map: Seq<PointView>,
    scan: Seq<PointView>,
    t: TransformView,
    map_centroid: PointView,
    scan_centroid: PointView,
    cs: Seq<Correspondence>,
) -> MatView
    decreases cs.len(),
{
    if cs.len() == 0 {
        zero_mat()
    } else {
        mat_add(
            cov_sum(map, scan, t, map_centroid, scan_centroid, cs.drop_last()),
            cov_term(map, scan, t, map_centroid, scan_centroid, cs.last()),
        )
    }
}

/// Entrywise bound on a matrix model.
pub open spec fn mat_abs_le(m: MatView, b: int) -> bool {
    &&& -b <= m.m00 <= b
    &&& -b <= m.m01 <= b
    &&& -b <= m.m02 <= b
    &&& -b <= m.m10 <= b
    &&& -b <= m.m11 <= b
    &&& -b <= m.m12 <= b
    &&& -b <= m.m20 <= b
    &&& -b <= m.m21 <= b
    &&& -b <= m.m22 <= b
}

/// Computes the cross-covariance matrix over the given correspondences.
pub fn cross_covariance(
    points_map: &Vec<Point3>,
    points_scan: &Vec<Point3>,
    scan_transformation: &RigidTransform,
    map_centroid: &Point3,
    scan_centroid: &Point3,
    correspondences: &Vec<Correspondence>,
) -> (m: CovMatrix)
    requires
        all_in_range(pts_view(points_map@)),
        all_in_range(pts_view(points_scan@)),
        transform_wf(scan_transformation@),
        in_range(map_centroid@),
        in_range(scan_centroid@),
        corrs_ok(
            pts_view(points_map@),
            pts_view(points_scan@),
            scan_transformation@,
            correspondences@,
        ),
        correspondences@.len() <= 0x1_0000_0000,
    ensures
        m@ == cov_sum(
            pts_view(points_map@),
            pts_view(points_scan@),
            scan_transformation@,
            map_centroid@,
            scan_centroid@,
            correspondences@,
        ),
{
    let ghost mapv = pts_view(points_map@);
    let ghost scanv = pts_view(points_scan@);
    let ghost t = scan_transformation@;
    let ghost cm = map_centroid@;
    let ghost sc = scan_centroid@;
    let ghost cs = correspondences@;
    // bound on one outer-product entry: (2 * COORD_MAX) * WIDE_MAX
    let ghost tm: int = 183_756_724_581_423_634_555_338_752;
    proof {
        assert((2 * COORD_MAX as int) * (WIDE_MAX as int) == tm) by (nonlinear_arith)
            requires
                COORD_MAX == 1_099_511_627_776i64,
                WIDE_MAX == 83_562_883_710_976i64,
                tm == 183_756_724_581_423_634_555_338_752,
        ;
    }
    let mut acc = CovMatrix {
        c00: 0,
        c01: 0,
        c02: 0,
        c10: 0,
        c11: 0,
        c12: 0,
        c20: 0,
        c21: 0,
        c22: 0,
    };
    let mut i: usize = 0;
    while i < correspondences.len()
        invariant
            all_in_range(mapv),
            all_in_range(scanv),
            mapv == pts_view(points_map@),
            scanv == pts_view(points_scan@),
            mapv.len() == points_map@.len(),
            scanv.len() == points_scan@.len(),
            transform_wf(t),
            t == scan_transformation@,
            in_range(cm),
            cm == map_centroid@,
            in_range(sc),
            sc == scan_centroid@,
            cs == correspondences@,
            corrs_ok(mapv, scanv, t, cs),
            cs.len() <= 0x1_0000_0000,
            tm == 183_756_724_581_423_634_555_338_752,
            i <= cs.len(),
            acc@ == cov_sum(mapv, scanv, t, cm, sc, cs.take(i as int)),
            mat_abs_le(acc@, (i as int) * tm),
        decreases cs.len() - i,
    {
        let c = correspondences[i];
        proof {
            assert(cs[i as int] == c);
            assert(c.scan_index == i as int);
            assert(c.map_index < mapv.len());
            assert(scanv[c.scan_index as int] == points_scan@[c.scan_index as int]@);
            assert(in_range(scanv[c.scan_index as int]));
            assert(mapv[c.map_index as int] == points_map@[c.map_index as int]@);
            assert(in_range(mapv[c.map_index as int]));
        }
        let mp = points_map[c.map_index];
        let sp = points_scan[c.scan_index];
        let dmx = mp.x - map_centroid.x;
        let dmy = mp.y - map_centroid.y;
        let dmz = mp.z - map_centroid.z;
        let cp = Point3 {
            x: sp.x - scan_centroid.x,
            y: sp.y - scan_centroid.y,
            z: sp.z - scan_centroid.z,
        };
        let moved = scan_transformation.apply(&cp);
        proof {
            let db = 2 * COORD_MAX as int;
            let wb = WIDE_MAX as int;
            assert forall|a: int, b: int|
                -db <= a <= db && -wb <= b <= wb implies -tm <= #[trigger] (a * b) <= tm by {
                lemma_mul_bound(a, b, db, wb);
            }
            assert((i as int) * tm + tm == ((i + 1) as int) * tm) by (nonlinear_arith);
            assert(((i + 1) as int) * tm <= 0x1_0000_0000 * tm) by (nonlinear_arith)
                requires
                    0 <= (i as int) + 1 <= 0x1_0000_0000,
                    tm >= 0,
            ;
            assert(0x1_0000_0000 * tm
                == 0x1_0000_0000int * 183_756_724_581_423_634_555_338_752int) by (nonlinear_arith)
                requires
                    tm == 183_756_724_581_423_634_555_338_752,
            ;
            assert(cs.take(i + 1).drop_last() =~= cs.take(i as int));
            assert(cs.take(i + 1).last() == cs[i as int]);
        }
        acc = CovMatrix {
            c00: acc.c00 + (dmx as i128) * (moved.x as i128),
            c01: acc.c01 + (dmx as i128) * (moved.y as i128),
            c02: acc.c02 + (dmx as i128) * (moved.z as i128),
            c10: acc.c10 + (dmy as i128) * (moved.x as i128),
            c11: acc.c11 + (dmy as i128) * (moved.y as i128),
            c12: acc.c12 + (dmy as i128) * (moved.z as i128),
            c20: acc.c20 + (dmz as i128) * (moved.x as i128),
            c21: acc.c21 + (dmz as i128) * (moved.y as i128),
            c22: acc.c22 + (dmz as i128) * (moved.z as i128),
        };
        i = i + 1;
    }
    proof {
        assert(cs.take(cs.len() as int) =~= cs);
    }
    acc
}

} // verus!
