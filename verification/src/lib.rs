//! Rigid point-to-point ICP (iterative closest point) registration over a
//! fixed-point integer model of 3D space.
//!
//! Coordinates are `i64` values in units of `1 / SCALE` of a length unit, so
//! every geometric step of the algorithm (nearest-neighbor search, centroids,
//! cross-covariance accumulation, transform application and composition,
//! residual error) is exact integer arithmetic with stated truncation, and is
//! verified. The one step that needs real-valued numerics, recovering a
//! rotation from the cross-covariance matrix by singular value decomposition,
//! is performed by the caller between engine steps; the engine validates every
//! rotation handed back before accepting it.

use vstd::prelude::*;

pub mod convergence;
pub mod correspondence;
pub mod engine;
pub mod covariance;
pub mod index;
pub mod laws;
pub mod math;
pub mod matrix;
pub mod point;
pub mod transform;

verus! {

/// Number of fixed-point units per length unit: coordinates, translations and
/// rotation-matrix entries are stored multiplied by this factor.
pub const SCALE: i64 = 1_000_000;

/// Bound on the magnitude of each coordinate of an input point (2^40 raw
/// units, about a million length units at the default scale).
pub const COORD_MAX: i64 = 1_099_511_627_776;

/// Bound on the magnitude of each rotation-matrix entry of a well-formed
/// transform (a proper rotation scaled by `SCALE` stays well below this).
pub const ROT_MAX: i64 = 2_000_000;

/// Bound on the magnitude of each translation component of a well-formed
/// transform (2^46 raw units).
pub const TRANS_MAX: i64 = 70_368_744_177_664;

/// Bound on the coordinates of a point produced by applying a well-formed
/// transform to a point with coordinates within `2 * COORD_MAX`.
pub const WIDE_MAX: i64 = 12 * COORD_MAX + TRANS_MAX;

/// Bound on the translation components of an alignment correction before it
/// is composed onto the running transform.
pub const CORR_T_MAX: i64 = 6 * WIDE_MAX + COORD_MAX;

} // verus!
