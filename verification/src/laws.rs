//! Properties of the registration algorithm that hold of all inputs, stated
//! and proved over the same spec functions the executable contracts use.

use vstd::prelude::*;
use crate::convergence::{err_sum, residual, spec_registration_error};
use crate::correspondence::{corrs_ok, Correspondence};
use crate::engine::IcpEngine;
use crate::index::{dist_sq, is_nearest};
use crate::math::{div_trunc, is_sqrt, lemma_isqrt_is, lemma_sqrt_unique};
use crate::matrix::{ident_mat, is_proper_rotation};
use crate::point::PointView;
use crate::transform::{
    correction_translation, ident_transform, spec_apply, spec_compose, TransformView,
};
use crate::SCALE;

verus! {

/// The nearest-point index is unique: its characterization (nearest, and
/// first among ties) determines it.
pub proof fn lemma_nearest_unique(s: Seq<PointView>, q: PointView, i1: int, i2: int)
    requires
        is_nearest(s, q, i1),
        is_nearest(s, q, i2),
    ensures
        i1 == i2,
{
    if i1 < i2 {
        assert(dist_sq(s[i1], q) > dist_sq(s[i2], q));
        assert(dist_sq(s[i1], q) <= dist_sq(s[i2], q));
    }
    if i2 < i1 {
        assert(dist_sq(s[i2], q) > dist_sq(s[i1], q));
        assert(dist_sq(s[i2], q) <= dist_sq(s[i1], q));
    }
}

/// Correspondence search is a pure function of its inputs: any two
/// correspondence sequences valid for the same map, scan and transform are
/// equal.
pub proof fn lemma_correspondences_unique(
    map: Seq<PointView>,
    scan: Seq<PointView>,
    t: TransformView,
    cs1: Seq<Correspondence>,
    cs2: Seq<Correspondence>,
)
    requires
        corrs_ok(map, scan, t, cs1),
        corrs_ok(map, scan, t, cs2),
    ensures
        cs1 == cs2,
{
    assert forall|j: int| 0 <= j < cs1.len() implies #[trigger] cs1[j] == cs2[j] by {
        lemma_nearest_unique(
            map,
            spec_apply(t, scan[j]),
            cs1[j].map_index as int,
            cs2[j].map_index as int,
        );
        assert(cs1[j].scan_index == j && cs2[j].scan_index == j);
    }
    assert(cs1 =~= cs2);
}

/// The registration error is a non-negative scalar.
pub proof fn lemma_error_nonneg(
    map: Seq<PointView>,
    scan: Seq<PointView>,
    t: TransformView,
    cs: Seq<Correspondence>,
)
    requires
        cs.len() > 0,
    ensures
        spec_registration_error(map, scan, t, cs) >= 0,
{
    lemma_err_sum_nonneg(map, scan, t, cs);
    vstd::arithmetic::div_mod::lemma_div_pos_is_pos(
        err_sum(map, scan, t, cs),
        cs.len() as int,
    );
}

/// Every residual is non-negative, so their sum is.
proof fn lemma_err_sum_nonneg(
    map: Seq<PointView>,
    scan: Seq<PointView>,
    t: TransformView,
    cs: Seq<Correspondence>,
)
    ensures
        err_sum(map, scan, t, cs) >= 0,
    decreases cs.len(),
{
    if cs.len() > 0 {
        lemma_err_sum_nonneg(map, scan, t, cs.drop_last());
        let c = cs.last();
        let d = dist_sq(map[c.map_index as int], spec_apply(t, scan[c.scan_index as int]));
        lemma_dist_sq_nonneg(map[c.map_index as int], spec_apply(t, scan[c.scan_index as int]));
        lemma_isqrt_is(d);
    }
}

/// Rotation properness: in every well-formed engine state — after
/// construction and after every accepted step — the rotation component of
/// the running transform is a proper rotation within tolerance.
pub proof fn lemma_rotation_properness(e: &IcpEngine)
    requires
        e.wf(),
    ensures
        is_proper_rotation(e.transform@.rot),
{
}

/// Dividing a multiple of `SCALE` by `SCALE` is exact, whatever the sign.
proof fn lemma_scale_div(x: int)
    ensures
        div_trunc(SCALE * x, SCALE as int) == x,
{
    if SCALE * x >= 0 {
        vstd::arithmetic::div_mod::lemma_div_multiples_vanish(x, SCALE as int);
    } else {
        assert(-(SCALE * x) == SCALE * (-x)) by (nonlinear_arith);
        vstd::arithmetic::div_mod::lemma_div_multiples_vanish(-x, SCALE as int);
    }
}

/// Applying the identity transform leaves every point unchanged, exactly:
/// no truncation loss occurs.
pub proof fn lemma_ident_apply(p: PointView)
    ensures
        spec_apply(ident_transform(), p) == p,
{
    assert(SCALE as int * p.x + 0 * p.y + 0 * p.z == SCALE * p.x);
    assert(0 * p.x + SCALE as int * p.y + 0 * p.z == SCALE * p.y);
    assert(0 * p.x + 0 * p.y + SCALE as int * p.z == SCALE * p.z);
    lemma_scale_div(p.x);
    lemma_scale_div(p.y);
    lemma_scale_div(p.z);
}

/// A squared distance is never negative.
proof fn lemma_dist_sq_nonneg(a: PointView, b: PointView)
    ensures
        dist_sq(a, b) >= 0,
{
    let dx = a.x - b.x;
    let dy = a.y - b.y;
    let dz = a.z - b.z;
    assert(dx * dx >= 0 && dy * dy >= 0 && dz * dz >= 0) by (nonlinear_arith);
}

/// A correspondence sequence whose residuals all vanish sums to zero.
proof fn lemma_err_sum_zero(
    map: Seq<PointView>,
    scan: Seq<PointView>,
    t: TransformView,
    cs: Seq<Correspondence>,
)
    requires
        forall|j: int| 0 <= j < cs.len() ==> residual(map, scan, t, #[trigger] cs[j]) == 0,
    ensures
        err_sum(map, scan, t, cs) == 0,
    decreases cs.len(),
{
    if cs.len() > 0 {
        assert(forall|j: int|
            0 <= j < cs.drop_last().len() ==> residual(map, scan, t, #[trigger] cs.drop_last()[j])
                == 0);
        lemma_err_sum_zero(map, scan, t, cs.drop_last());
        assert(residual(map, scan, t, cs.last()) == 0);
    }
}

/// Identity alignment: registering a point set against itself under the
/// identity transform gives registration error exactly zero, whatever valid
/// correspondence set the search produced.
pub proof fn lemma_identity_alignment(map: Seq<PointView>, cs: Seq<Correspondence>)
    requires
        map.len() > 0,
        corrs_ok(map, map, ident_transform(), cs),
    ensures
        spec_registration_error(map, map, ident_transform(), cs) == 0,
{
    assert forall|j: int| 0 <= j < cs.len() implies residual(
        map,
        map,
        ident_transform(),
        #[trigger] cs[j],
    ) == 0 by {
        let c = cs[j];
        let q = spec_apply(ident_transform(), map[j]);
        lemma_ident_apply(map[j]);
        assert(q == map[j]);
        assert(dist_sq(map[j], q) == 0) by {
            assert((map[j].x - q.x) * (map[j].x - q.x) == 0) by (nonlinear_arith)
                requires
                    map[j].x == q.x,
            ;
            assert((map[j].y - q.y) * (map[j].y - q.y) == 0) by (nonlinear_arith)
                requires
                    map[j].y == q.y,
            ;
            assert((map[j].z - q.z) * (map[j].z - q.z) == 0) by (nonlinear_arith)
                requires
                    map[j].z == q.z,
            ;
        }
        assert(dist_sq(map[c.map_index as int], q) <= 0);
        lemma_dist_sq_nonneg(map[c.map_index as int], q);
        assert(dist_sq(map[c.map_index as int], q) == 0);
        assert(is_sqrt(0, 0));
        lemma_isqrt_is(0);
        lemma_sqrt_unique(0, crate::math::spec_isqrt(0), 0);
    }
    lemma_err_sum_zero(map, map, ident_transform(), cs);
    vstd::arithmetic::div_mod::lemma_div_of0(cs.len() as int);
}

/// With equal map and scan centroids, the identity rotation yields the
/// identity correction, and composing it onto the identity transform leaves
/// the identity transform: a self-registration that starts at the identity
/// stays there.
pub proof fn lemma_identity_step(c: PointView)
    ensures
        correction_translation(ident_mat(), ident_transform(), c, c) == (PointView {
            x: 0,
            y: 0,
            z: 0,
        }),
        spec_compose(
            ident_transform(),
            (TransformView { rot: ident_mat(), t: PointView { x: 0, y: 0, z: 0 } }),
        ) == ident_transform(),
{
    lemma_ident_apply(c);
    let w = spec_apply(ident_transform(), c);
    lemma_ident_apply(w);
    // correction translation: c - rot_apply(ident, w) == c - w == 0
    lemma_scale_div(c.x);
    lemma_scale_div(c.y);
    lemma_scale_div(c.z);
    // composed rotation entries: diagonal SCALE * SCALE / SCALE, off-diagonal 0 / SCALE
    lemma_scale_div(SCALE as int);
    lemma_scale_div(0);
    let z = PointView { x: 0, y: 0, z: 0 };
    lemma_ident_apply(z);
}

} // verus!
