//! End-to-end tests of the ICP core: the engine is driven the way an
//! application drives it, with the per-iteration rotation recovered from the
//! cross-covariance matrix by nalgebra's singular value decomposition.

use icp_rust::convergence::registration_error;
use icp_rust::correspondence::calculate_correspondences;
use icp_rust::covariance::CovMatrix;
use icp_rust::engine::{ICPParameters, IcpEngine, IcpError, StepOutcome};
use icp_rust::index::SpatialIndex;
use icp_rust::math::{div_fix, isqrt};
use icp_rust::matrix::Mat3;
use icp_rust::point::{center_of_mass, Point3};
use icp_rust::transform::RigidTransform;
use icp_rust::SCALE;

fn fx(v: f64) -> i64 {
    (v * SCALE as f64).round() as i64
}

fn pt(x: f64, y: f64, z: f64) -> Point3 {
    Point3 { x: fx(x), y: fx(y), z: fx(z) }
}

/// An asymmetric, non-coplanar point cloud with unambiguous correspondences.
fn asymmetric_cloud() -> Vec<Point3> {
    vec![
        pt(0.0, 0.0, 0.0),
        pt(1.0, 0.0, 0.0),
        pt(0.0, 2.0, 0.0),
        pt(0.0, 0.0, 3.0),
        pt(1.0, 2.0, 3.0),
        pt(2.0, 1.0, 1.0),
        pt(0.5, 1.5, 2.5),
        pt(3.0, 0.5, 1.0),
    ]
}

/// The eight corners of the unit cube.
fn cube_corners() -> Vec<Point3> {
    let mut v = Vec::new();
    for &x in &[-1.0f64, 1.0] {
        for &y in &[-1.0f64, 1.0] {
            for &z in &[-1.0f64, 1.0] {
                v.push(pt(x, y, z));
            }
        }
    }
    v
}

/// Applies a float rotation matrix and translation to fixed-point points.
fn apply_float(points: &[Point3], rot: &nalgebra::Matrix3<f64>, t: &nalgebra::Vector3<f64>) -> Vec<Point3> {
    points
        .iter()
        .map(|p| {
            let v = nalgebra::Vector3::new(
                p.x as f64 / SCALE as f64,
                p.y as f64 / SCALE as f64,
                p.z as f64 / SCALE as f64,
            );
            let w = rot * v + t;
            pt(w.x, w.y, w.z)
        })
        .collect()
}

/// Recovers the alignment rotation from the cross-covariance matrix by
/// singular value decomposition, with the standard reflection correction.
fn svd_rotation(cov: &CovMatrix) -> Mat3 {
    let m = nalgebra::Matrix3::<f64>::new(
        cov.c00 as f64,
        cov.c01 as f64,
        cov.c02 as f64,
        cov.c10 as f64,
        cov.c11 as f64,
        cov.c12 as f64,
        cov.c20 as f64,
        cov.c21 as f64,
        cov.c22 as f64,
    );
    let svd = m.svd(true, true);
    let mut u = svd.u.unwrap();
    let v_t = svd.v_t.unwrap();
    if (u * v_t).determinant() < 0.0 {
        for r in 0..3 {
            u[(r, 2)] = -u[(r, 2)];
        }
    }
    let rot = u * v_t;
    let s = SCALE as f64;
    Mat3 {
        m00: (rot[(0, 0)] * s).round() as i64,
        m01: (rot[(0, 1)] * s).round() as i64,
        m02: (rot[(0, 2)] * s).round() as i64,
        m10: (rot[(1, 0)] * s).round() as i64,
        m11: (rot[(1, 1)] * s).round() as i64,
        m12: (rot[(1, 2)] * s).round() as i64,
        m20: (rot[(2, 0)] * s).round() as i64,
        m21: (rot[(2, 1)] * s).round() as i64,
        m22: (rot[(2, 2)] * s).round() as i64,
    }
}

/// Drives the engine to termination; checks rotation properness after every
/// step and returns the engine, the final outcome and the error history.
fn run_icp(
    map: Vec<Point3>,
    scan: Vec<Point3>,
    guess: RigidTransform,
    params: ICPParameters,
) -> (IcpEngine, StepOutcome, Vec<u64>) {
    let mut engine = IcpEngine::new(map, scan, guess, &params).unwrap();
    let mut errors: Vec<u64> = Vec::new();
    loop {
        let cov = engine.cross_covariance();
        let rot = svd_rotation(&cov);
        let outcome = engine.step(&rot);
        errors.push(engine.error);
        assert!(engine.transform.rotation.check_proper_rotation());
        match outcome {
            StepOutcome::Continue => continue,
            other => return (engine, other, errors),
        }
    }
}

fn angle_tolerance_raw() -> i64 {
    // 1e-3 radians of rotation changes matrix entries by at most about 1e-3,
    // i.e. 1000 raw units at the default scale.
    1000
}

#[test]
fn identity_alignment_converges_immediately() {
    let map = asymmetric_cloud();
    let scan = asymmetric_cloud();
    let params = ICPParameters::default();
    let (engine, outcome, errors) = run_icp(map, scan, RigidTransform::identity(), params);
    assert_eq!(outcome, StepOutcome::Converged);
    assert_eq!(engine.iterations, 1);
    assert_eq!(errors.len(), 1);
    assert!(engine.error < 100, "error {} not near zero", engine.error);
    let r = engine.transform.rotation;
    assert!((r.m00 - SCALE).abs() <= angle_tolerance_raw());
    assert!((r.m11 - SCALE).abs() <= angle_tolerance_raw());
    assert!((r.m22 - SCALE).abs() <= angle_tolerance_raw());
    assert!(r.m01.abs() <= angle_tolerance_raw());
    assert!(r.m02.abs() <= angle_tolerance_raw());
    assert!(r.m10.abs() <= angle_tolerance_raw());
    assert!(r.m12.abs() <= angle_tolerance_raw());
    assert!(r.m20.abs() <= angle_tolerance_raw());
    assert!(r.m21.abs() <= angle_tolerance_raw());
    let t = engine.transform.translation;
    assert!(t.x.abs() <= 1000 && t.y.abs() <= 1000 && t.z.abs() <= 1000);
}

#[test]
fn known_offset_recovery() {
    let map = asymmetric_cloud();
    let angle = 10.0f64.to_radians();
    let rot = nalgebra::Rotation3::from_axis_angle(&nalgebra::Vector3::z_axis(), angle)
        .into_inner();
    let t = nalgebra::Vector3::new(0.1, 0.2, 0.3);
    let scan = apply_float(&map, &rot, &t);
    let params = ICPParameters { termination_threshold: 100, max_iterations: 50 };
    let (engine, outcome, _) = run_icp(map.clone(), scan, RigidTransform::identity(), params);
    assert_eq!(outcome, StepOutcome::Converged);
    // expected recovery: the inverse of the applied motion
    let exp_rot = rot.transpose();
    let exp_t = -(rot.transpose() * t);
    let r = engine.transform.rotation;
    let s = SCALE as f64;
    let entries = [
        (r.m00, exp_rot[(0, 0)]),
        (r.m01, exp_rot[(0, 1)]),
        (r.m02, exp_rot[(0, 2)]),
        (r.m10, exp_rot[(1, 0)]),
        (r.m11, exp_rot[(1, 1)]),
        (r.m12, exp_rot[(1, 2)]),
        (r.m20, exp_rot[(2, 0)]),
        (r.m21, exp_rot[(2, 1)]),
        (r.m22, exp_rot[(2, 2)]),
    ];
    for (got, want) in entries.iter() {
        assert!(
            (*got as f64 / s - want).abs() < 1e-3,
            "rotation entry {} vs {}",
            got,
            want
        );
    }
    let tr = engine.transform.translation;
    assert!((tr.x as f64 / s - exp_t.x).abs() < 1e-3);
    assert!((tr.y as f64 / s - exp_t.y).abs() < 1e-3);
    assert!((tr.z as f64 / s - exp_t.z).abs() < 1e-3);
}

#[test]
fn error_is_monotonically_non_increasing_on_fixture() {
    let map = asymmetric_cloud();
    let angle = 8.0f64.to_radians();
    let rot = nalgebra::Rotation3::from_axis_angle(&nalgebra::Vector3::z_axis(), angle)
        .into_inner();
    let t = nalgebra::Vector3::new(0.05, 0.1, -0.08);
    let scan = apply_float(&map, &rot, &t);
    let params = ICPParameters { termination_threshold: 100, max_iterations: 50 };
    let (_, outcome, errors) = run_icp(map, scan, RigidTransform::identity(), params);
    assert_eq!(outcome, StepOutcome::Converged);
    for w in errors.windows(2) {
        assert!(w[1] <= w[0], "error increased: {} -> {}", w[0], w[1]);
    }
}

#[test]
fn correspondences_are_complete() {
    let map = asymmetric_cloud();
    let angle = 5.0f64.to_radians();
    let rot = nalgebra::Rotation3::from_axis_angle(&nalgebra::Vector3::y_axis(), angle)
        .into_inner();
    let t = nalgebra::Vector3::new(0.02, -0.03, 0.04);
    let scan = apply_float(&map, &rot, &t);
    let scan_len = scan.len();
    let map_len = map.len();
    let params = ICPParameters::default();
    let mut engine =
        IcpEngine::new(map, scan, RigidTransform::identity(), &params).unwrap();
    for round in 0..2 {
        assert_eq!(engine.correspondences.len(), scan_len);
        for (j, c) in engine.correspondences.iter().enumerate() {
            assert!(c.map_index < map_len);
            assert_eq!(c.scan_index, j);
        }
        if round == 0 {
            let cov = engine.cross_covariance();
            let r = svd_rotation(&cov);
            engine.step(&r);
        }
    }
}

#[test]
fn empty_inputs_are_rejected() {
    let params = ICPParameters::default();
    let r = IcpEngine::new(Vec::new(), asymmetric_cloud(), RigidTransform::identity(), &params);
    assert_eq!(r.err(), Some(IcpError::EmptyMap));
    let r = IcpEngine::new(asymmetric_cloud(), Vec::new(), RigidTransform::identity(), &params);
    assert_eq!(r.err(), Some(IcpError::EmptyScan));
}

#[test]
fn cube_scenario_converges_within_ten_iterations() {
    let map = cube_corners();
    let angle = 90.0f64.to_radians();
    let rot = nalgebra::Rotation3::from_axis_angle(&nalgebra::Vector3::z_axis(), angle)
        .into_inner();
    let t = nalgebra::Vector3::new(1.0, 0.0, 0.0);
    let scan = apply_float(&map, &rot, &t);
    let params = ICPParameters { termination_threshold: 100, max_iterations: 10 };
    let (engine, outcome, _) =
        run_icp(map.clone(), scan.clone(), RigidTransform::identity(), params);
    assert_eq!(outcome, StepOutcome::Converged);
    assert!(engine.iterations <= 10);
    assert!(engine.error < 100);
    // the aligned scan lies on the map point set
    let s = SCALE as f64;
    for p in scan.iter() {
        let moved = engine.transform.apply(p);
        let best = map
            .iter()
            .map(|m| {
                let dx = (m.x - moved.x) as f64 / s;
                let dy = (m.y - moved.y) as f64 / s;
                let dz = (m.z - moved.z) as f64 / s;
                (dx * dx + dy * dy + dz * dz).sqrt()
            })
            .fold(f64::INFINITY, f64::min);
        assert!(best < 1e-3, "scan point left {} from the map", best);
    }
    assert!(engine.transform.rotation.check_proper_rotation());
}

#[test]
fn degenerate_rotation_is_rejected_and_state_kept() {
    let map = asymmetric_cloud();
    let scan = asymmetric_cloud();
    let params = ICPParameters::default();
    let mut engine =
        IcpEngine::new(map, scan, RigidTransform::identity(), &params).unwrap();
    let before_transform = engine.transform;
    let before_error = engine.error;
    let zero = Mat3 { m00: 0, m01: 0, m02: 0, m10: 0, m11: 0, m12: 0, m20: 0, m21: 0, m22: 0 };
    let outcome = engine.step(&zero);
    assert_eq!(outcome, StepOutcome::DegenerateRotation);
    assert_eq!(engine.transform, before_transform);
    assert_eq!(engine.error, before_error);
    assert_eq!(engine.iterations, 0);
    assert!(engine.finished);
}

#[test]
fn iteration_limit_is_reported() {
    let map = asymmetric_cloud();
    let angle = 10.0f64.to_radians();
    let rot = nalgebra::Rotation3::from_axis_angle(&nalgebra::Vector3::z_axis(), angle)
        .into_inner();
    let t = nalgebra::Vector3::new(0.1, 0.2, 0.3);
    let scan = apply_float(&map, &rot, &t);
    // an unreachable threshold: the error is a non-negative integer
    let params = ICPParameters { termination_threshold: 0, max_iterations: 3 };
    let (engine, outcome, errors) = run_icp(map, scan, RigidTransform::identity(), params);
    assert_eq!(outcome, StepOutcome::IterationLimitReached);
    assert_eq!(engine.iterations, 3);
    assert_eq!(errors.len(), 3);
}

#[test]
fn registration_error_exact_value() {
    // one correspondence at distance 5 length units: error is exactly
    // 5 * SCALE raw units
    let map = vec![pt(0.0, 0.0, 0.0)];
    let scan = vec![pt(3.0, 4.0, 0.0)];
    let index = SpatialIndex::new(map.clone());
    let ident = RigidTransform::identity();
    let cs = calculate_correspondences(&index, &scan, &ident);
    let e = registration_error(&map, &scan, &ident, &cs);
    assert_eq!(e, 5 * SCALE as u64);
}

#[test]
fn centroid_exact_values() {
    let points = vec![
        Point3 { x: 1, y: 2, z: 3 },
        Point3 { x: 3, y: 4, z: 5 },
    ];
    let c = center_of_mass(&points);
    assert_eq!((c.x, c.y, c.z), (2, 3, 4));
    // truncating division toward zero
    let points = vec![
        Point3 { x: 0, y: 0, z: -1 },
        Point3 { x: 1, y: -3, z: 0 },
    ];
    let c = center_of_mass(&points);
    assert_eq!((c.x, c.y, c.z), (0, -1, 0));
}

#[test]
fn integer_sqrt_exact_values() {
    assert_eq!(isqrt(0), 0);
    assert_eq!(isqrt(1), 1);
    assert_eq!(isqrt(24), 4);
    assert_eq!(isqrt(25), 5);
    assert_eq!(isqrt(26), 5);
    assert_eq!(isqrt(1_000_000_000_000), 1_000_000);
}

#[test]
fn fixed_division_truncates_toward_zero() {
    assert_eq!(div_fix(7, 2), 3);
    assert_eq!(div_fix(-7, 2), -3);
    assert_eq!(div_fix(0, 5), 0);
    assert_eq!(div_fix(-1, 1_000_000), 0);
}

#[test]
fn nearest_neighbor_picks_true_and_first() {
    let pts = vec![
        Point3 { x: 0, y: 0, z: 0 },
        Point3 { x: 10, y: 0, z: 0 },
    ];
    let index = SpatialIndex::new(pts);
    assert_eq!(index.nearest(&Point3 { x: 6, y: 0, z: 0 }), 1);
    assert_eq!(index.nearest(&Point3 { x: 2, y: 0, z: 0 }), 0);
    // equidistant: the first index wins
    assert_eq!(index.nearest(&Point3 { x: 5, y: 0, z: 0 }), 0);
}

#[test]
fn correspondence_search_is_deterministic() {
    let map = asymmetric_cloud();
    let scan = cube_corners();
    let index = SpatialIndex::new(map);
    let ident = RigidTransform::identity();
    let a = calculate_correspondences(&index, &scan, &ident);
    let b = calculate_correspondences(&index, &scan, &ident);
    assert_eq!(a, b);
}

#[test]
fn identity_composition_is_identity() {
    let ident = RigidTransform::identity();
    let composed = ident.compose_checked(&ident).unwrap();
    assert_eq!(composed, ident);
}
