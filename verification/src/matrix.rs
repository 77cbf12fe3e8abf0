//! Fixed-point 3x3 matrices: the rotation component of a rigid transform and
//! the check that a matrix handed in from the singular-value decomposition
//! really is a proper rotation.

use vstd::prelude::*;
use crate::{ROT_MAX, SCALE};

verus! {

/// Tolerance on each entry of `R^T R - SCALE^2 * I` for a matrix to count as
/// orthonormal: `SCALE^2 / 10_000`, i.e. one part in ten thousand.
pub const ORTHO_TOL: i64 = 100_000_000;

/// Tolerance on `det(R) - SCALE^3` for a rotation to count as proper:
/// `SCALE^3 / 10_000`.
pub const DET_TOL: i128 = 100_000_000_000_000;

/// Unbounded mathematical model of a 3x3 matrix.
pub struct MatView {
    pub m00: int,
    pub m01: int,
    pub m02: int,
    pub m10: int,
    pub m11: int,
    pub m12: int,
    pub m20: int,
    pub m21: int,
    pub m22: int,
}

/// A 3x3 matrix with `i64` entries scaled by `SCALE`; a rotation matrix has
/// entries near `[-SCALE, SCALE]`.
#[derive(Clone, Copy, PartialEq, Eq, Structural, Debug)]
pub struct Mat3 {
    pub m00: i64,
    pub m01: i64,
    pub m02: i64,
    pub m10: i64,
    pub m11: i64,
    pub m12: i64,
    pub m20: i64,
    pub m21: i64,
    pub m22: i64,
}

impl View for Mat3 {
    type V = MatView;

    open spec fn view(&self) -> MatView {
        MatView {
            m00: self.m00 as int,
            m01: self.m01 as int,
            m02: self.m02 as int,
            m10: self.m10 as int,
            m11: self.m11 as int,
            m12: self.m12 as int,
            m20: self.m20 as int,
            m21: self.m21 as int,
            m22: self.m22 as int,
        }
    }
}

/// The identity rotation: `SCALE` on the diagonal.
pub open spec fn ident_mat() -> MatView {
    MatView {
        m00: SCALE as int,
        m01: 0,
        m02: 0,
        m10: 0,
        m11: SCALE as int,
        m12: 0,
        m20: 0,
        m21: 0,
        m22: SCALE as int,
    }
}

/// Every entry within the rotation bound `ROT_MAX`.
pub open spec fn mat_in_range(m: MatView) -> bool {
    &&& -ROT_MAX <= m.m00 <= ROT_MAX
    &&& -ROT_MAX <= m.m01 <= ROT_MAX
    &&& -ROT_MAX <= m.m02 <= ROT_MAX
    &&& -ROT_MAX <= m.m10 <= ROT_MAX
    &&& -ROT_MAX <= m.m11 <= ROT_MAX
    &&& -ROT_MAX <= m.m12 <= ROT_MAX
    &&& -ROT_MAX <= m.m20 <= ROT_MAX
    &&& -ROT_MAX <= m.m21 <= ROT_MAX
    &&& -ROT_MAX <= m.m22 <= ROT_MAX
}

/// Dot product of columns `i` and `j`, written out for the six distinct
/// entries of the Gram matrix `M^T M`.
pub open spec fn gram00(m: MatView) -> int {
    m.m00 * m.m00 + m.m10 * m.m10 + m.m20 * m.m20
}

pub open spec fn gram11(m: MatView) -> int {
    m.m01 * m.m01 + m.m11 * m.m11 + m.m21 * m.m21
}

pub open spec fn gram22(m: MatView) -> int {
    m.m02 * m.m02 + m.m12 * m.m12 + m.m22 * m.m22
}

pub open spec fn gram01(m: MatView) -> int {
    m.m00 * m.m01 + m.m10 * m.m11 + m.m20 * m.m21
}

pub open spec fn gram02(m: MatView) -> int {
    m.m00 * m.m02 + m.m10 * m.m12 + m.m20 * m.m22
}

pub open spec fn gram12(m: MatView) -> int {
    m.m01 * m.m02 + m.m11 * m.m12 + m.m21 * m.m22
}

/// The determinant, in units of `SCALE^3`.
pub open spec fn det(m: MatView) -> int {
    m.m00 * (m.m11 * m.m22 - m.m12 * m.m21) - m.m01 * (m.m10 * m.m22 - m.m12 * m.m20) + m.m02
        * (m.m10 * m.m21 - m.m11 * m.m20)
}

/// A proper rotation up to fixed-point tolerance: entries bounded, `M^T M`
/// within `ORTHO_TOL` of `SCALE^2 * I`, and determinant within `DET_TOL` of
/// `+SCALE^3` (so reflections are refused).
pub open spec fn is_proper_rotation(m: MatView) -> bool {
    &&& mat_in_range(m)
    &&& -ORTHO_TOL <= gram00(m) - SCALE * SCALE <= ORTHO_TOL
    &&& -ORTHO_TOL <= gram11(m) - SCALE * SCALE <= ORTHO_TOL
    &&& -ORTHO_TOL <= gram22(m) - SCALE * SCALE <= ORTHO_TOL
    &&& -ORTHO_TOL <= gram01(m) <= ORTHO_TOL
    &&& -ORTHO_TOL <= gram02(m) <= ORTHO_TOL
    &&& -ORTHO_TOL <= gram12(m) <= ORTHO_TOL
    &&& -DET_TOL <= det(m) - SCALE * SCALE * SCALE <= DET_TOL
}

impl Mat3 {
    pub fn identity() -> (m: Mat3)
        ensures
            m@ == ident_mat(),
    {
        Mat3 { m00: SCALE, m01: 0, m02: 0, m10: 0, m11: SCALE, m12: 0, m20: 0, m21: 0, m22: SCALE }
    }

    /// Decides whether this matrix is a proper rotation within tolerance;
    /// every rotation the engine accepts passes this check.
    pub fn check_proper_rotation(&self) -> (b: bool)
        ensures
            b == is_proper_rotation(self@),
    {
        if !(-ROT_MAX <= self.m00 && self.m00 <= ROT_MAX && -ROT_MAX <= self.m01 && self.m01
            <= ROT_MAX && -ROT_MAX <= self.m02 && self.m02 <= ROT_MAX && -ROT_MAX <= self.m10
            && self.m10 <= ROT_MAX && -ROT_MAX <= self.m11 && self.m11 <= ROT_MAX && -ROT_MAX
            <= self.m12 && self.m12 <= ROT_MAX && -ROT_MAX <= self.m20 && self.m20 <= ROT_MAX
            && -ROT_MAX <= self.m21 && self.m21 <= ROT_MAX && -ROT_MAX <= self.m22 && self.m22
            <= ROT_MAX) {
            return false;
        }
        proof {
            let r = ROT_MAX as int;
            assert forall|a: int, b: int|
                -r <= a <= r && -r <= b <= r implies -(r * r) <= #[trigger] (a * b) <= r
                * r by {
                crate::math::lemma_mul_bound(a, b, r, r);
            }
            assert forall|a: int, b: int|
                -r <= a <= r && -(2 * r * r) <= b <= 2 * r * r implies -(2 * r * r * r)
                <= #[trigger] (a * b) <= 2 * r * r * r by {
                crate::math::lemma_mul_bound(a, b, r, 2 * r * r);
                assert(r * (2 * r * r) == 2 * r * r * r) by (nonlinear_arith);
            }
        }
        let a00 = self.m00 as i128;
        let a01 = self.m01 as i128;
        let a02 = self.m02 as i128;
        let a10 = self.m10 as i128;
        let a11 = self.m11 as i128;
        let a12 = self.m12 as i128;
        let a20 = self.m20 as i128;
        let a21 = self.m21 as i128;
        let a22 = self.m22 as i128;
        let g00 = a00 * a00 + a10 * a10 + a20 * a20;
        let g11 = a01 * a01 + a11 * a11 + a21 * a21;
        let g22 = a02 * a02 + a12 * a12 + a22 * a22;
        let g01 = a00 * a01 + a10 * a11 + a20 * a21;
        let g02 = a00 * a02 + a10 * a12 + a20 * a22;
        let g12 = a01 * a02 + a11 * a12 + a21 * a22;
        let d = a00 * (a11 * a22 - a12 * a21) - a01 * (a10 * a22 - a12 * a20) + a02 * (a10 * a21
            - a11 * a20);
        let ss = (SCALE as i128) * (SCALE as i128);
        let sss = ss * (SCALE as i128);
        let ot = ORTHO_TOL as i128;
        -ot <= g00 - ss && g00 - ss <= ot && -ot <= g11 - ss && g11 - ss <= ot && -ot <= g22 - ss
            && g22 - ss <= ot && -ot <= g01 && g01 <= ot && -ot <= g02 && g02 <= ot && -ot <= g12
            && g12 <= ot && -DET_TOL <= d - sss && d - sss <= DET_TOL
    }
}

} // verus!
