//! Correspondence search: every scan point, under the candidate transform,
//! is paired with its nearest map point.

use vstd::prelude::*;
use crate::index::{is_nearest, SpatialIndex};
use crate::point::{all_in_range, in_range, pts_view, Point3, PointView};
use crate::transform::{spec_apply, transform_wf, RigidTransform, TransformView};

verus! {

/// A pair `(map_index, scan_index)`: under the current transform, scan point
/// `scan_index` is closest to map point `map_index`.
#[derive(Clone, Copy, PartialEq, Eq, Structural, Debug)]
pub struct Correspondence {
    pub map_index: usize,
    pub scan_index: usize,
}

/// `cs` is the correspondence set of `scan` against `map` under `t`: one
/// entry per scan point, in scan order, each naming the nearest map point to
/// the transformed scan point.
pub open spec fn corrs_ok(
    map: Seq<PointView>,
    scan: Seq<PointView>,
    t: TransformView,
    cs: Seq<Correspondence>,
) -> bool {
    &&& cs.len() == scan.len()
    &&& forall|j: int| 0 <= j < cs.len() ==> (#[trigger] cs[j]).scan_index == j
    &&& forall|j: int|
        0 <= j < cs.len() ==> is_nearest(map, spec_apply(t, scan[j]), (#[trigger] cs[j]).map_index
            as int)
}

/// Valid correspondences index into the map set, one per scan point.
pub proof fn lemma_corrs_indices(
    map: Seq<PointView>,
    scan: Seq<PointView>,
    t: TransformView,
    cs: Seq<Correspondence>,
)
    requires
        corrs_ok(map, scan, t, cs),
    ensures
        cs.len() == scan.len(),
        forall|j: int| 0 <= j < cs.len() ==> (#[trigger] cs[j]).map_index < map.len(),
        forall|j: int| 0 <= j < cs.len() ==> (#[trigger] cs[j]).scan_index < scan.len(),
{
}

/// For every scan point, transformed by `scan_transformation`, the nearest
/// map point; output length equals the scan length, in scan order.
pub fn calculate_correspondences(
    points_map: &SpatialIndex,
    points_scan: &Vec<Point3>,
    scan_transformation: &RigidTransform,
) -> (cs: Vec<Correspondence>)
    requires
        points_map.wf(),
        all_in_range(pts_view(points_scan@)),
        transform_wf(scan_transformation@),
    ensures
        corrs_ok(points_map@, pts_view(points_scan@), scan_transformation@, cs@),
{
    let ghost scanv = pts_view(points_scan@);
    let mut cs: Vec<Correspondence> = Vec::new();
    let mut j: usize = 0;
    while j < points_scan.len()
        invariant
            points_map.wf(),
            all_in_range(scanv),
            scanv == pts_view(points_scan@),
            scanv.len() == points_scan@.len(),
            transform_wf(scan_transformation@),
            j <= points_scan@.len(),
            cs@.len() == j,
            forall|jj: int| 0 <= jj < j ==> (#[trigger] cs@[jj]).scan_index == jj,
            forall|jj: int|
                0 <= jj < j ==> is_nearest(
                    points_map@,
                    spec_apply(scan_transformation@, scanv[jj]),
                    (#[trigger] cs@[jj]).map_index as int,
                ),
        decreases points_scan@.len() - j,
    {
        let p = points_scan[j];
        proof {
            assert(scanv[j as int] == p@);
            assert(in_range(scanv[j as int]));
        }
        let moved = scan_transformation.apply(&p);
        let i = points_map.nearest(&moved);
        cs.push(Correspondence { map_index: i, scan_index: j });
        j = j + 1;
    }
    cs
}

} // verus!
