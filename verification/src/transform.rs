//! Rigid transforms in fixed point: a rotation matrix composed with a
//! translation, applied to points and composed with corrections, with every
//! truncation stated exactly.

use vstd::prelude::*;
use crate::math::{div_fix, div_trunc, lemma_div_trunc_bound, lemma_mul_bound};
use crate::matrix::{ident_mat, is_proper_rotation, mat_in_range, Mat3, MatView};
use crate::point::{in_range, in_range2, pt_abs_le, Point3, PointView};
use crate::{COORD_MAX, CORR_T_MAX, ROT_MAX, SCALE, TRANS_MAX, WIDE_MAX};

verus! {

/// Unbounded model of a rigid transform.
pub struct TransformView {
    pub rot: MatView,
    pub t: PointView,
}

/// A rigid-body transform: rotation (scaled by `SCALE`) plus translation.
#[derive(Clone, Copy, PartialEq, Eq, Structural, Debug)]
pub struct RigidTransform {
    pub rotation: Mat3,
    pub translation: Point3,
}

impl View for RigidTransform {
    type V = TransformView;

    open spec fn view(&self) -> TransformView {
        TransformView { rot: self.rotation@, t: self.translation@ }
    }
}

/// The identity transform.
pub open spec fn ident_transform() -> TransformView {
    TransformView { rot: ident_mat(), t: PointView { x: 0, y: 0, z: 0 } }
}

/// A transform whose rotation entries and translation components are within
/// the bounds the engine maintains.
pub open spec fn transform_wf(t: TransformView) -> bool {
    &&& mat_in_range(t.rot)
    &&& pt_abs_le(t.t, TRANS_MAX as int)
}

/// Rotating a point: each component is the scaled dot product of a matrix row
/// with the point, divided (truncating) by `SCALE`.
pub open spec fn rot_apply(m: MatView, p: PointView) -> PointView {
    PointView {
        x: div_trunc(m.m00 * p.x + m.m01 * p.y + m.m02 * p.z, SCALE as int),
        y: div_trunc(m.m10 * p.x + m.m11 * p.y + m.m12 * p.z, SCALE as int),
        z: div_trunc(m.m20 * p.x + m.m21 * p.y + m.m22 * p.z, SCALE as int),
    }
}

/// Applying a transform: rotate, then translate.
pub open spec fn spec_apply(t: TransformView, p: PointView) -> PointView {
    let r = rot_apply(t.rot, p);
    PointView { x: r.x + t.t.x, y: r.y + t.t.y, z: r.z + t.t.z }
}

/// The product of two scaled rotation matrices, each entry divided
/// (truncating) by `SCALE`.
pub open spec fn mat_mul_div(a: MatView, b: MatView) -> MatView {
    MatView {
        m00: div_trunc(a.m00 * b.m00 + a.m01 * b.m10 + a.m02 * b.m20, SCALE as int),
        m01: div_trunc(a.m00 * b.m01 + a.m01 * b.m11 + a.m02 * b.m21, SCALE as int),
        m02: div_trunc(a.m00 * b.m02 + a.m01 * b.m12 + a.m02 * b.m22, SCALE as int),
        m10: div_trunc(a.m10 * b.m00 + a.m11 * b.m10 + a.m12 * b.m20, SCALE as int),
        m11: div_trunc(a.m10 * b.m01 + a.m11 * b.m11 + a.m12 * b.m21, SCALE as int),
        m12: div_trunc(a.m10 * b.m02 + a.m11 * b.m12 + a.m12 * b.m22, SCALE as int),
        m20: div_trunc(a.m20 * b.m00 + a.m21 * b.m10 + a.m22 * b.m20, SCALE as int),
        m21: div_trunc(a.m20 * b.m01 + a.m21 * b.m11 + a.m22 * b.m21, SCALE as int),
        m22: div_trunc(a.m20 * b.m02 + a.m21 * b.m12 + a.m22 * b.m22, SCALE as int),
    }
}

/// Composition `a * b`: first apply `b`, then `a`. The rotation is the scaled
/// matrix product; the translation is `a`'s rotation applied to `b`'s
/// translation, plus `a`'s translation.
pub open spec fn spec_compose(a: TransformView, b: TransformView) -> TransformView {
    let w = rot_apply(a.rot, b.t);
    TransformView {
        rot: mat_mul_div(a.rot, b.rot),
        t: PointView { x: w.x + a.t.x, y: w.y + a.t.y, z: w.z + a.t.z },
    }
}

/// The translation of the alignment correction: the rotation is applied
/// about the transformed scan centroid and recentered at the map centroid,
/// so `t = map_centroid - R * (current applied to scan_centroid)`.
pub open spec fn correction_translation(
    r: MatView,
    current: TransformView,
    scan_centroid: PointView,
    map_centroid: PointView,
) -> PointView {
    let w = spec_apply(current, scan_centroid);
    let rw = rot_apply(r, w);
    PointView { x: map_centroid.x - rw.x, y: map_centroid.y - rw.y, z: map_centroid.z - rw.z }
}

/// Scaled dot product of a bounded row with a bounded vector, divided by
/// `SCALE`, with a caller-chosen result bound.
pub(crate) fn dot3_div(
    a0: i64,
    a1: i64,
    a2: i64,
    b0: i64,
    b1: i64,
    b2: i64,
    Ghost(ab): Ghost<int>,
    Ghost(bb): Ghost<int>,
    Ghost(c): Ghost<int>,
) -> (r: i64)
    requires
        0 <= ab,
        0 <= bb,
        0 <= c,
        -ab <= a0 <= ab,
        -ab <= a1 <= ab,
        -ab <= a2 <= ab,
        -bb <= b0 <= bb,
        -bb <= b1 <= bb,
        -bb <= b2 <= bb,
        3 * (ab * bb) <= SCALE * c,
        c <= 0x7fff_ffff_ffff_ffff,
    ensures
        r == div_trunc(a0 * b0 + a1 * b1 + a2 * b2, SCALE as int),
        -c <= r <= c,
{
    proof {
        lemma_mul_bound(a0 as int, b0 as int, ab, bb);
        lemma_mul_bound(a1 as int, b1 as int, ab, bb);
        lemma_mul_bound(a2 as int, b2 as int, ab, bb);
        lemma_div_trunc_bound(a0 * b0 + a1 * b1 + a2 * b2, SCALE as int, c);
    }
    let n = (a0 as i128) * (b0 as i128) + (a1 as i128) * (b1 as i128) + (a2 as i128) * (b2
        as i128);
    let q = div_fix(n, SCALE as i128);
    q as i64
}

impl RigidTransform {
    pub fn new(rotation: Mat3, translation: Point3) -> (t: RigidTransform)
        ensures
            t@ == (TransformView { rot: rotation@, t: translation@ }),
    {
        RigidTransform { rotation, translation }
    }

    pub fn identity() -> (t: RigidTransform)
        ensures
            t@ == ident_transform(),
            transform_wf(t@),
            is_proper_rotation(t@.rot),
    {
        let t = RigidTransform {
            rotation: Mat3::identity(),
            translation: Point3 { x: 0, y: 0, z: 0 },
        };
        proof {
            assert(is_proper_rotation(ident_mat()));
        }
        t
    }

    /// Applies this transform to a point whose coordinates are within
    /// `2 * COORD_MAX` (raw inputs and centered points both qualify).
    pub fn apply(&self, p: &Point3) -> (r: Point3)
        requires
            transform_wf(self@),
            in_range2(p@),
        ensures
            r@ == spec_apply(self@, p@),
            pt_abs_le(r@, WIDE_MAX as int),
    {
        let m = &self.rotation;
        let rx = dot3_div(
            m.m00,
            m.m01,
            m.m02,
            p.x,
            p.y,
            p.z,
            Ghost(ROT_MAX as int),
            Ghost(2 * COORD_MAX as int),
            Ghost(12 * COORD_MAX as int),
        );
        let ry = dot3_div(
            m.m10,
            m.m11,
            m.m12,
            p.x,
            p.y,
            p.z,
            Ghost(ROT_MAX as int),
            Ghost(2 * COORD_MAX as int),
            Ghost(12 * COORD_MAX as int),
        );
        let rz = dot3_div(
            m.m20,
            m.m21,
            m.m22,
            p.x,
            p.y,
            p.z,
            Ghost(ROT_MAX as int),
            Ghost(2 * COORD_MAX as int),
            Ghost(12 * COORD_MAX as int),
        );
        Point3 {
            x: rx + self.translation.x,
            y: ry + self.translation.y,
            z: rz + self.translation.z,
        }
    }

    /// Composes a correction onto this transform, accepting the result only
    /// if its rotation is still a proper rotation within tolerance and its
    /// translation is still in range.
    pub fn compose_checked(&self, corr: &RigidTransform) -> (r: Option<RigidTransform>)
        requires
            transform_wf(self@),
            mat_in_range(corr@.rot),
            pt_abs_le(corr@.t, CORR_T_MAX as int),
        ensures
            r is Some <==> (is_proper_rotation(spec_compose(self@, corr@).rot) && pt_abs_le(
                spec_compose(self@, corr@).t,
                TRANS_MAX as int,
            )),
            r matches Some(t) ==> t@ == spec_compose(self@, corr@) && transform_wf(t@)
                && is_proper_rotation(t@.rot),
    {
        let a = &self.rotation;
        let b = &corr.rotation;
        let ghost rb = ROT_MAX as int;
        let ghost cb = 12 * SCALE as int;
        let rot = Mat3 {
            m00: dot3_div(a.m00, a.m01, a.m02, b.m00, b.m10, b.m20, Ghost(rb), Ghost(rb), Ghost(cb)),
            m01: dot3_div(a.m00, a.m01, a.m02, b.m01, b.m11, b.m21, Ghost(rb), Ghost(rb), Ghost(cb)),
            m02: dot3_div(a.m00, a.m01, a.m02, b.m02, b.m12, b.m22, Ghost(rb), Ghost(rb), Ghost(cb)),
            m10: dot3_div(a.m10, a.m11, a.m12, b.m00, b.m10, b.m20, Ghost(rb), Ghost(rb), Ghost(cb)),
            m11: dot3_div(a.m10, a.m11, a.m12, b.m01, b.m11, b.m21, Ghost(rb), Ghost(rb), Ghost(cb)),
            m12: dot3_div(a.m10, a.m11, a.m12, b.m02, b.m12, b.m22, Ghost(rb), Ghost(rb), Ghost(cb)),
            m20: dot3_div(a.m20, a.m21, a.m22, b.m00, b.m10, b.m20, Ghost(rb), Ghost(rb), Ghost(cb)),
            m21: dot3_div(a.m20, a.m21, a.m22, b.m01, b.m11, b.m21, Ghost(rb), Ghost(rb), Ghost(cb)),
            m22: dot3_div(a.m20, a.m21, a.m22, b.m02, b.m12, b.m22, Ghost(rb), Ghost(rb), Ghost(cb)),
        };
        if !rot.check_proper_rotation() {
            return None;
        }
        let tx = dot3_div(
            a.m00,
            a.m01,
            a.m02,
            corr.translation.x,
            corr.translation.y,
            corr.translation.z,
            Ghost(rb),
            Ghost(CORR_T_MAX as int),
            Ghost(6 * CORR_T_MAX as int),
        );
        let ty = dot3_div(
            a.m10,
            a.m11,
            a.m12,
            corr.translation.x,
            corr.translation.y,
            corr.translation.z,
            Ghost(rb),
            Ghost(CORR_T_MAX as int),
            Ghost(6 * CORR_T_MAX as int),
        );
        let tz = dot3_div(
            a.m20,
            a.m21,
            a.m22,
            corr.translation.x,
            corr.translation.y,
            corr.translation.z,
            Ghost(rb),
            Ghost(CORR_T_MAX as int),
            Ghost(6 * CORR_T_MAX as int),
        );
        let ntx = tx + self.translation.x;
        let nty = ty + self.translation.y;
        let ntz = tz + self.translation.z;
        if !(-TRANS_MAX <= ntx && ntx <= TRANS_MAX && -TRANS_MAX <= nty && nty <= TRANS_MAX
            && -TRANS_MAX <= ntz && ntz <= TRANS_MAX) {
            return None;
        }
        Some(
            RigidTransform {
                rotation: rot,
                translation: Point3 { x: ntx, y: nty, z: ntz },
            },
        )
    }
}

/// The alignment correction built from a rotation recovered from the
/// cross-covariance matrix: that rotation together with the translation that
/// recenters the transformed scan centroid at the map centroid.
pub fn alignment_correction(
    rotation: &Mat3,
    current: &RigidTransform,
    scan_centroid: &Point3,
    map_centroid: &Point3,
) -> (c: RigidTransform)
    requires
        mat_in_range(rotation@),
        transform_wf(current@),
        in_range(scan_centroid@),
        in_range(map_centroid@),
    ensures
        c@.rot == rotation@,
        c@.t == correction_translation(rotation@, current@, scan_centroid@, map_centroid@),
        pt_abs_le(c@.t, CORR_T_MAX as int),
{
    let w = current.apply(scan_centroid);
    let rwx = dot3_div(
        rotation.m00,
        rotation.m01,
        rotation.m02,
        w.x,
        w.y,
        w.z,
        Ghost(ROT_MAX as int),
        Ghost(WIDE_MAX as int),
        Ghost(6 * WIDE_MAX as int),
    );
    let rwy = dot3_div(
        rotation.m10,
        rotation.m11,
        rotation.m12,
        w.x,
        w.y,
        w.z,
        Ghost(ROT_MAX as int),
        Ghost(WIDE_MAX as int),
        Ghost(6 * WIDE_MAX as int),
    );
    let rwz = dot3_div(
        rotation.m20,
        rotation.m21,
        rotation.m22,
        w.x,
        w.y,
        w.z,
        Ghost(ROT_MAX as int),
        Ghost(WIDE_MAX as int),
        Ghost(6 * WIDE_MAX as int),
    );
    RigidTransform {
        rotation: *rotation,
        translation: Point3 {
            x: map_centroid.x - rwx,
            y: map_centroid.y - rwy,
            z: map_centroid.z - rwz,
        },
    }
}

} // verus!
