//! 4x4 fixed-point matrices: identity, transpose, and inversion.
//!
//! A matrix entry is an `i64` fixed-point scalar as in [`crate::math`].  The
//! inverse is computed exactly over the integers by the adjugate formula:
//! entry `(r, c)` of the inverse is `SCALE * SCALE * cofactor(c, r)` divided
//! (truncating) by the determinant.  A matrix with determinant zero, or whose
//! inverse does not fit the fixed-point range, has no inverse here.

use vstd::prelude::*;
use crate::math::{tdiv, SCALE};
use vstd::math::abs;

verus! {

/// Largest magnitude accepted for a matrix entry handed to [`invert`].  A
/// machine limit only: it keeps the cofactor and determinant arithmetic
/// inside `i128`.
pub const MAT_LIMIT: i64 = 0x4000_0000;

/// Magnitude bound on a 3x3 determinant of entries bounded by [`MAT_LIMIT`].
const DET3_BOUND: i128 = 0x1800_0000_0000_0000_0000_0000;

/// Magnitude bound on a 4x4 determinant of entries bounded by [`MAT_LIMIT`].
const DET4_BOUND: i128 = 0x1800_0000_0000_0000_0000_0000_0000_0000;

/// A 4x4 matrix of fixed-point scalars, row-major: `mRC` is row `R`,
/// column `C`.
#[derive(Clone, Copy, Debug, PartialEq, Eq, Structural)]
pub struct Mat4 {
    /// Row 0, column 0.
    pub m00: i64,
    /// Row 0, column 1.
    pub m01: i64,
    /// Row 0, column 2.
    pub m02: i64,
    /// Row 0, column 3.
    pub m03: i64,
    /// Row 1, column 0.
    pub m10: i64,
    /// Row 1, column 1.
    pub m11: i64,
    /// Row 1, column 2.
    pub m12: i64,
    /// Row 1, column 3.
    pub m13: i64,
    /// Row 2, column 0.
    pub m20: i64,
    /// Row 2, column 1.
    pub m21: i64,
    /// Row 2, column 2.
    pub m22: i64,
    /// Row 2, column 3.
    pub m23: i64,
    /// Row 3, column 0.
    pub m30: i64,
    /// Row 3, column 1.
    pub m31: i64,
    /// Row 3, column 2.
    pub m32: i64,
    /// Row 3, column 3.
    pub m33: i64,
}

impl Mat4 {
    /// All sixteen entries lie within [`MAT_LIMIT`].
    pub open spec fn in_range(self) -> bool {
        &&& -MAT_LIMIT <= self.m00 <= MAT_LIMIT
        &&& -MAT_LIMIT <= self.m01 <= MAT_LIMIT
        &&& -MAT_LIMIT <= self.m02 <= MAT_LIMIT
        &&& -MAT_LIMIT <= self.m03 <= MAT_LIMIT
        &&& -MAT_LIMIT <= self.m10 <= MAT_LIMIT
        &&& -MAT_LIMIT <= self.m11 <= MAT_LIMIT
        &&& -MAT_LIMIT <= self.m12 <= MAT_LIMIT
        &&& -MAT_LIMIT <= self.m13 <= MAT_LIMIT
        &&& -MAT_LIMIT <= self.m20 <= MAT_LIMIT
        &&& -MAT_LIMIT <= self.m21 <= MAT_LIMIT
        &&& -MAT_LIMIT <= self.m22 <= MAT_LIMIT
        &&& -MAT_LIMIT <= self.m23 <= MAT_LIMIT
        &&& -MAT_LIMIT <= self.m30 <= MAT_LIMIT
        &&& -MAT_LIMIT <= self.m31 <= MAT_LIMIT
        &&& -MAT_LIMIT <= self.m32 <= MAT_LIMIT
        &&& -MAT_LIMIT <= self.m33 <= MAT_LIMIT
    }
}

/// The identity transformation: `SCALE` (one world unit) on the diagonal.
pub open spec fn spec_identity() -> Mat4 {
    Mat4 {
        m00: SCALE,
        m01: 0,
        m02: 0,
        m03: 0,
        m10: 0,
        m11: SCALE,
        m12: 0,
        m13: 0,
        m20: 0,
        m21: 0,
        m22: SCALE,
        m23: 0,
        m30: 0,
        m31: 0,
        m32: 0,
        m33: SCALE,
    }
}

/// Builds the identity matrix.
pub fn identity() -> (r: Mat4)
    ensures
        r == spec_identity(),
{
    Mat4 {
        m00: SCALE,
        m01: 0,
        m02: 0,
        m03: 0,
        m10: 0,
        m11: SCALE,
        m12: 0,
        m13: 0,
        m20: 0,
        m21: 0,
        m22: SCALE,
        m23: 0,
        m30: 0,
        m31: 0,
        m32: 0,
        m33: SCALE,
    }
}

/// The transpose of a matrix.
pub open spec fn spec_transpose(m: Mat4) -> Mat4 {
    Mat4 {
        m00: m.m00,
        m01: m.m10,
        m02: m.m20,
        m03: m.m30,
        m10: m.m01,
        m11: m.m11,
        m12: m.m21,
        m13: m.m31,
        m20: m.m02,
        m21: m.m12,
        m22: m.m22,
        m23: m.m32,
        m30: m.m03,
        m31: m.m13,
        m32: m.m23,
        m33: m.m33,
    }
}

/// Transposes a matrix.
pub fn transpose(m: &Mat4) -> (r: Mat4)
    ensures
        r == spec_transpose(*m),
{
    Mat4 {
        m00: m.m00,
        m01: m.m10,
        m02: m.m20,
        m03: m.m30,
        m10: m.m01,
        m11: m.m11,
        m12: m.m21,
        m13: m.m31,
        m20: m.m02,
        m21: m.m12,
        m22: m.m22,
        m23: m.m32,
        m30: m.m03,
        m31: m.m13,
        m32: m.m23,
        m33: m.m33,
    }
}

/// Determinant of a 3x3 matrix given row-major.
pub open spec fn spec_det3(
    a: int,
    b: int,
    c: int,
    d: int,
    e: int,
    f: int,
    g: int,
    h: int,
    i: int,
) -> int {
    a * (e * i - f * h) - b * (d * i - f * g) + c * (d * h - e * g)
}

/// Cofactor of row 0, column 0 (and so on below): the signed 3x3 minor
/// determinant obtained by deleting that row and column.
pub open spec fn spec_cof00(m: Mat4) -> int {
    spec_det3(
        m.m11 as int,
        m.m12 as int,
        m.m13 as int,
        m.m21 as int,
        m.m22 as int,
        m.m23 as int,
        m.m31 as int,
        m.m32 as int,
        m.m33 as int,
    )
}

/// Cofactor of row 0, column 1.
pub open spec fn spec_cof01(m: Mat4) -> int {
    -spec_det3(
        m.m10 as int,
        m.m12 as int,
        m.m13 as int,
        m.m20 as int,
        m.m22 as int,
        m.m23 as int,
        m.m30 as int,
        m.m32 as int,
        m.m33 as int,
    )
}

/// Cofactor of row 0, column 2.
pub open spec fn spec_cof02(m: Mat4) -> int {
    spec_det3(
        m.m10 as int,
        m.m11 as int,
        m.m13 as int,
        m.m20 as int,
        m.m21 as int,
        m.m23 as int,
        m.m30 as int,
        m.m31 as int,
        m.m33 as int,
    )
}

/// Cofactor of row 0, column 3.
pub open spec fn spec_cof03(m: Mat4) -> int {
    -spec_det3(
        m.m10 as int,
        m.m11 as int,
        m.m12 as int,
        m.m20 as int,
        m.m21 as int,
        m.m22 as int,
        m.m30 as int,
        m.m31 as int,
        m.m32 as int,
    )
}

/// Cofactor of row 1, column 0.
pub open spec fn spec_cof10(m: Mat4) -> int {
    -spec_det3(
        m.m01 as int,
        m.m02 as int,
        m.m03 as int,
        m.m21 as int,
        m.m22 as int,
        m.m23 as int,
        m.m31 as int,
        m.m32 as int,
        m.m33 as int,
    )
}

/// Cofactor of row 1, column 1.
pub open spec fn spec_cof11(m: Mat4) -> int {
    spec_det3(
        m.m00 as int,
        m.m02 as int,
        m.m03 as int,
        m.m20 as int,
        m.m22 as int,
        m.m23 as int,
        m.m30 as int,
        m.m32 as int,
        m.m33 as int,
    )
}

/// Cofactor of row 1, column 2.
pub open spec fn spec_cof12(m: Mat4) -> int {
    -spec_det3(
        m.m00 as int,
        m.m01 as int,
        m.m03 as int,
        m.m20 as int,
        m.m21 as int,
        m.m23 as int,
        m.m30 as int,
        m.m31 as int,
        m.m33 as int,
    )
}

/// Cofactor of row 1, column 3.
pub open spec fn spec_cof13(m: Mat4) -> int {
    spec_det3(
        m.m00 as int,
        m.m01 as int,
        m.m02 as int,
        m.m20 as int,
        m.m21 as int,
        m.m22 as int,
        m.m30 as int,
        m.m31 as int,
        m.m32 as int,
    )
}

/// Cofactor of row 2, column 0.
pub open spec fn spec_cof20(m: Mat4) -> int {
    spec_det3(
        m.m01 as int,
        m.m02 as int,
        m.m03 as int,
        m.m11 as int,
        m.m12 as int,
        m.m13 as int,
        m.m31 as int,
        m.m32 as int,
        m.m33 as int,
    )
}

/// Cofactor of row 2, column 1.
pub open spec fn spec_cof21(m: Mat4) -> int {
    -spec_det3(
        m.m00 as int,
        m.m02 as int,
        m.m03 as int,
        m.m10 as int,
        m.m12 as int,
        m.m13 as int,
        m.m30 as int,
        m.m32 as int,
        m.m33 as int,
    )
}

/// Cofactor of row 2, column 2.
pub open spec fn spec_cof22(m: Mat4) -> int {
    spec_det3(
        m.m00 as int,
        m.m01 as int,
        m.m03 as int,
        m.m10 as int,
        m.m11 as int,
        m.m13 as int,
        m.m30 as int,
        m.m31 as int,
        m.m33 as int,
    )
}

/// Cofactor of row 2, column 3.
pub open spec fn spec_cof23(m: Mat4) -> int {
    -spec_det3(
        m.m00 as int,
        m.m01 as int,
        m.m02 as int,
        m.m10 as int,
        m.m11 as int,
        m.m12 as int,
        m.m30 as int,
        m.m31 as int,
        m.m32 as int,
    )
}

/// Cofactor of row 3, column 0.
pub open spec fn spec_cof30(m: Mat4) -> int {
    -spec_det3(
        m.m01 as int,
        m.m02 as int,
        m.m03 as int,
        m.m11 as int,
        m.m12 as int,
        m.m13 as int,
        m.m21 as int,
        m.m22 as int,
        m.m23 as int,
    )
}

/// Cofactor of row 3, column 1.
pub open spec fn spec_cof31(m: Mat4) -> int {
    spec_det3(
        m.m00 as int,
        m.m02 as int,
        m.m03 as int,
        m.m10 as int,
        m.m12 as int,
        m.m13 as int,
        m.m20 as int,
        m.m22 as int,
        m.m23 as int,
    )
}

/// Cofactor of row 3, column 2.
pub open spec fn spec_cof32(m: Mat4) -> int {
    -spec_det3(
        m.m00 as int,
        m.m01 as int,
        m.m03 as int,
        m.m10 as int,
        m.m11 as int,
        m.m13 as int,
        m.m20 as int,
        m.m21 as int,
        m.m23 as int,
    )
}

/// Cofactor of row 3, column 3.
pub open spec fn spec_cof33(m: Mat4) -> int {
    spec_det3(
        m.m00 as int,
        m.m01 as int,
        m.m02 as int,
        m.m10 as int,
        m.m11 as int,
        m.m12 as int,
        m.m20 as int,
        m.m21 as int,
        m.m22 as int,
    )
}

/// Determinant of a 4x4 matrix, expanded along the first row.
pub open spec fn spec_det4(m: Mat4) -> int {
    (m.m00 as int) * spec_cof00(m) + (m.m01 as int) * spec_cof01(m) + (m.m02 as int) * spec_cof02(m)
        + (m.m03 as int) * spec_cof03(m)
}

/// One entry of the inverse: the transposed cofactor scaled back into fixed
/// point and divided by the determinant.
pub open spec fn spec_inv_entry(cof: int, det: int) -> int
    recommends
        det != 0,
{
    tdiv((SCALE as int) * (SCALE as int) * cof, det)
}

/// Whether a value fits an `i64`.
pub open spec fn fits_i64(v: int) -> bool {
    i64::MIN <= v <= i64::MAX
}

/// The fixed-point inverse of a matrix: `None` when the determinant is zero
/// or some entry of the exact inverse falls outside the fixed-point range.
pub open spec fn spec_invert(m: Mat4) -> Option<Mat4> {
    let det = spec_det4(m);
    if det == 0 {
        None
    } else {
        let e00 = spec_inv_entry(spec_cof00(m), det);
        let e01 = spec_inv_entry(spec_cof10(m), det);
        let e02 = spec_inv_entry(spec_cof20(m), det);
        let e03 = spec_inv_entry(spec_cof30(m), det);
        let e10 = spec_inv_entry(spec_cof01(m), det);
        let e11 = spec_inv_entry(spec_cof11(m), det);
        let e12 = spec_inv_entry(spec_cof21(m), det);
        let e13 = spec_inv_entry(spec_cof31(m), det);
        let e20 = spec_inv_entry(spec_cof02(m), det);
        let e21 = spec_inv_entry(spec_cof12(m), det);
        let e22 = spec_inv_entry(spec_cof22(m), det);
        let e23 = spec_inv_entry(spec_cof32(m), det);
        let e30 = spec_inv_entry(spec_cof03(m), det);
        let e31 = spec_inv_entry(spec_cof13(m), det);
        let e32 = spec_inv_entry(spec_cof23(m), det);
        let e33 = spec_inv_entry(spec_cof33(m), det);
        if fits_i64(e00) && fits_i64(e01) && fits_i64(e02) && fits_i64(e03) && fits_i64(e10)
            && fits_i64(e11) && fits_i64(e12) && fits_i64(e13) && fits_i64(e20) && fits_i64(e21)
            && fits_i64(e22) && fits_i64(e23) && fits_i64(e30) && fits_i64(e31) && fits_i64(e32)
            && fits_i64(e33) {
            Some(
                Mat4 {
                    m00: e00 as i64,
                    m01: e01 as i64,
                    m02: e02 as i64,
                    m03: e03 as i64,
                    m10: e10 as i64,
                    m11: e11 as i64,
                    m12: e12 as i64,
                    m13: e13 as i64,
                    m20: e20 as i64,
                    m21: e21 as i64,
                    m22: e22 as i64,
                    m23: e23 as i64,
                    m30: e30 as i64,
                    m31: e31 as i64,
                    m32: e32 as i64,
                    m33: e33 as i64,
                },
            )
        } else {
            None
        }
    }
}

/// The normal-matrix law: the transposed inverse of a transformation, or
/// the identity fallback when the transformation has no fixed-point inverse.
pub open spec fn spec_normal_of(m: Mat4) -> Mat4 {
    match spec_invert(m) {
        Some(inv) => spec_transpose(inv),
        None => spec_identity(),
    }
}

/// Bounds on a product follow from bounds on its factors.
proof fn lemma_mul_bound(x: int, y: int, bx: int, by: int)
    requires
        -bx <= x <= bx,
        -by <= y <= by,
        0 <= bx,
        0 <= by,
    ensures
        -(bx * by) <= x * y <= bx * by,
{
    assert(-(bx * by) <= x * y <= bx * by) by (nonlinear_arith)
        requires
            -bx <= x <= bx,
            -by <= y <= by,
            0 <= bx,
            0 <= by,
    ;
}

/// Computes a 3x3 determinant exactly in `i128`.
fn det3(a: i64, b: i64, c: i64, d: i64, e: i64, f: i64, g: i64, h: i64, i: i64) -> (r: i128)
    requires
        -MAT_LIMIT <= a <= MAT_LIMIT,
        -MAT_LIMIT <= b <= MAT_LIMIT,
        -MAT_LIMIT <= c <= MAT_LIMIT,
        -MAT_LIMIT <= d <= MAT_LIMIT,
        -MAT_LIMIT <= e <= MAT_LIMIT,
        -MAT_LIMIT <= f <= MAT_LIMIT,
        -MAT_LIMIT <= g <= MAT_LIMIT,
        -MAT_LIMIT <= h <= MAT_LIMIT,
        -MAT_LIMIT <= i <= MAT_LIMIT,
    ensures
        r == spec_det3(
            a as int,
            b as int,
            c as int,
            d as int,
            e as int,
            f as int,
            g as int,
            h as int,
            i as int,
        ),
        -DET3_BOUND <= r <= DET3_BOUND,
{
    proof {
        lemma_mul_bound(e as int, i as int, MAT_LIMIT as int, MAT_LIMIT as int);
        lemma_mul_bound(f as int, h as int, MAT_LIMIT as int, MAT_LIMIT as int);
        lemma_mul_bound(d as int, i as int, MAT_LIMIT as int, MAT_LIMIT as int);
        lemma_mul_bound(f as int, g as int, MAT_LIMIT as int, MAT_LIMIT as int);
        lemma_mul_bound(d as int, h as int, MAT_LIMIT as int, MAT_LIMIT as int);
        lemma_mul_bound(e as int, g as int, MAT_LIMIT as int, MAT_LIMIT as int);
    }
    let minor_a: i128 = (e as i128) * (i as i128) - (f as i128) * (h as i128);
    let minor_b: i128 = (d as i128) * (i as i128) - (f as i128) * (g as i128);
    let minor_c: i128 = (d as i128) * (h as i128) - (e as i128) * (g as i128);
    proof {
        lemma_mul_bound(
            a as int,
            minor_a as int,
            MAT_LIMIT as int,
            2 * (MAT_LIMIT as int) * (MAT_LIMIT as int),
        );
        lemma_mul_bound(
            b as int,
            minor_b as int,
            MAT_LIMIT as int,
            2 * (MAT_LIMIT as int) * (MAT_LIMIT as int),
        );
        lemma_mul_bound(
            c as int,
            minor_c as int,
            MAT_LIMIT as int,
            2 * (MAT_LIMIT as int) * (MAT_LIMIT as int),
        );
    }
    (a as i128) * minor_a - (b as i128) * minor_b + (c as i128) * minor_c
}

/// Computes one entry of the inverse: `SCALE * SCALE * cof / det`, or
/// `None` when the exact quotient does not fit an `i64`.
fn inv_entry(cof: i128, det: i128) -> (r: Option<i64>)
    requires
        det != 0,
        -DET4_BOUND <= det <= DET4_BOUND,
        -DET3_BOUND <= cof <= DET3_BOUND,
    ensures
        ({
            let q = spec_inv_entry(cof as int, det as int);
            match r {
                Some(v) => v == q && fits_i64(q),
                None => !fits_i64(q),
            }
        }),
{
    proof {
        lemma_mul_bound(1_000_000, cof as int, 1_000_000, DET3_BOUND as int);
    }
    let num: i128 = 1_000_000 * cof;
    let (n2, d2): (i128, i128) = if det < 0 {
        (-num, -det)
    } else {
        (num, det)
    };
    proof {
        assert(abs(n2 as int) == abs(num as int));
        assert(tdiv(n2 as int, d2 as int) == tdiv(num as int, det as int));
        assert((SCALE as int) * (SCALE as int) * (cof as int) == 1_000_000 * (cof as int))
            by (nonlinear_arith)
            requires
                SCALE == 1000,
        ;
    }
    let q = crate::math::tdiv_i128(n2, d2);
    if i64::MIN as i128 <= q && q <= i64::MAX as i128 {
        Some(q as i64)
    } else {
        None
    }
}

/// Computes the fixed-point inverse of a matrix by the adjugate formula.
/// Returns `None` exactly when [`spec_invert`] has no inverse: determinant
/// zero, or an entry of the exact inverse outside the fixed-point range.
pub fn invert(m: &Mat4) -> (r: Option<Mat4>)
    requires
        m.in_range(),
    ensures
        r == spec_invert(*m),
{
    let c00 = det3(m.m11, m.m12, m.m13, m.m21, m.m22, m.m23, m.m31, m.m32, m.m33);
    let c01 = -det3(m.m10, m.m12, m.m13, m.m20, m.m22, m.m23, m.m30, m.m32, m.m33);
    let c02 = det3(m.m10, m.m11, m.m13, m.m20, m.m21, m.m23, m.m30, m.m31, m.m33);
    let c03 = -det3(m.m10, m.m11, m.m12, m.m20, m.m21, m.m22, m.m30, m.m31, m.m32);
    let c10 = -det3(m.m01, m.m02, m.m03, m.m21, m.m22, m.m23, m.m31, m.m32, m.m33);
    let c11 = det3(m.m00, m.m02, m.m03, m.m20, m.m22, m.m23, m.m30, m.m32, m.m33);
    let c12 = -det3(m.m00, m.m01, m.m03, m.m20, m.m21, m.m23, m.m30, m.m31, m.m33);
    let c13 = det3(m.m00, m.m01, m.m02, m.m20, m.m21, m.m22, m.m30, m.m31, m.m32);
    let c20 = det3(m.m01, m.m02, m.m03, m.m11, m.m12, m.m13, m.m31, m.m32, m.m33);
    let c21 = -det3(m.m00, m.m02, m.m03, m.m10, m.m12, m.m13, m.m30, m.m32, m.m33);
    let c22 = det3(m.m00, m.m01, m.m03, m.m10, m.m11, m.m13, m.m30, m.m31, m.m33);
    let c23 = -det3(m.m00, m.m01, m.m02, m.m10, m.m11, m.m12, m.m30, m.m31, m.m32);
    let c30 = -det3(m.m01, m.m02, m.m03, m.m11, m.m12, m.m13, m.m21, m.m22, m.m23);
    let c31 = det3(m.m00, m.m02, m.m03, m.m10, m.m12, m.m13, m.m20, m.m22, m.m23);
    let c32 = -det3(m.m00, m.m01, m.m03, m.m10, m.m11, m.m13, m.m20, m.m21, m.m23);
    let c33 = det3(m.m00, m.m01, m.m02, m.m10, m.m11, m.m12, m.m20, m.m21, m.m22);
    proof {
        lemma_mul_bound(m.m00 as int, c00 as int, MAT_LIMIT as int, DET3_BOUND as int);
        lemma_mul_bound(m.m01 as int, c01 as int, MAT_LIMIT as int, DET3_BOUND as int);
        lemma_mul_bound(m.m02 as int, c02 as int, MAT_LIMIT as int, DET3_BOUND as int);
        lemma_mul_bound(m.m03 as int, c03 as int, MAT_LIMIT as int, DET3_BOUND as int);
    }
    let det: i128 = (m.m00 as i128) * c00 + (m.m01 as i128) * c01 + (m.m02 as i128) * c02 + (
    m.m03 as i128) * c03;
    if det == 0 {
        return None;
    }
    let e00 = match inv_entry(c00, det) {
        Some(v) => v,
        None => {
            return None;
        },
    };
    let e01 = match inv_entry(c10, det) {
        Some(v) => v,
        None => {
            return None;
        },
    };
    let e02 = match inv_entry(c20, det) {
        Some(v) => v,
        None => {
            return None;
        },
    };
    let e03 = match inv_entry(c30, det) {
        Some(v) => v,
        None => {
            return None;
        },
    };
    let e10 = match inv_entry(c01, det) {
        Some(v) => v,
        None => {
            return None;
        },
    };
    let e11 = match inv_entry(c11, det) {
        Some(v) => v,
        None => {
            return None;
        },
    };
    let e12 = match inv_entry(c21, det) {
        Some(v) => v,
        None => {
            return None;
        },
    };
    let e13 = match inv_entry(c31, det) {
        Some(v) => v,
        None => {
            return None;
        },
    };
    let e20 = match inv_entry(c02, det) {
        Some(v) => v,
        None => {
            return None;
        },
    };
    let e21 = match inv_entry(c12, det) {
        Some(v) => v,
        None => {
            return None;
        },
    };
    let e22 = match inv_entry(c22, det) {
        Some(v) => v,
        None => {
            return None;
        },
    };
    let e23 = match inv_entry(c32, det) {
        Some(v) => v,
        None => {
            return None;
        },
    };
    let e30 = match inv_entry(c03, det) {
        Some(v) => v,
        None => {
            return None;
        },
    };
    let e31 = match inv_entry(c13, det) {
        Some(v) => v,
        None => {
            return None;
        },
    };
    let e32 = match inv_entry(c23, det) {
        Some(v) => v,
        None => {
            return None;
        },
    };
    let e33 = match inv_entry(c33, det) {
        Some(v) => v,
        None => {
            return None;
        },
    };
    Some(
        Mat4 {
            m00: e00,
            m01: e01,
            m02: e02,
            m03: e03,
            m10: e10,
            m11: e11,
            m12: e12,
            m13: e13,
            m20: e20,
            m21: e21,
            m22: e22,
            m23: e23,
            m30: e30,
            m31: e31,
            m32: e32,
            m33: e33,
        },
    )
}

/// Computes the normal matrix of a transformation: the transposed inverse,
/// with the identity as the documented fallback for a transformation that
/// has no fixed-point inverse.
pub fn normal_matrix_of(m: &Mat4) -> (r: Mat4)
    requires
        m.in_range(),
    ensures
        r == spec_normal_of(*m),
{
    match invert(m) {
        Some(inv) => transpose(&inv),
        None => identity(),
    }
}


/// The normal-transformation law: for a transformation with a fixed-point
/// inverse, the normal matrix is exactly the transposed inverse.
pub proof fn lemma_normal_of_invertible(m: Mat4, inv: Mat4)
    requires
        spec_invert(m) == Some(inv),
    ensures
        spec_normal_of(m) == spec_transpose(inv),
{
}

/// The identity matrix is its own fixed-point inverse.
pub proof fn lemma_invert_identity()
    ensures
        spec_invert(spec_identity()) == Some(spec_identity()),
        spec_normal_of(spec_identity()) == spec_identity(),
{
    let id = spec_identity();
    assert(spec_cof00(id) == 1_000_000_000);
    assert(spec_cof11(id) == 1_000_000_000);
    assert(spec_cof22(id) == 1_000_000_000);
    assert(spec_cof33(id) == 1_000_000_000);
    assert(spec_cof01(id) == 0 && spec_cof02(id) == 0 && spec_cof03(id) == 0);
    assert(spec_cof10(id) == 0 && spec_cof12(id) == 0 && spec_cof13(id) == 0);
    assert(spec_cof20(id) == 0 && spec_cof21(id) == 0 && spec_cof23(id) == 0);
    assert(spec_cof30(id) == 0 && spec_cof31(id) == 0 && spec_cof32(id) == 0);
    assert(spec_det4(id) == 1_000_000_000_000);
    assert((SCALE as int) * (SCALE as int) * 1_000_000_000 == 1_000_000_000_000_000)
        by (nonlinear_arith)
        requires
            SCALE == 1000,
    ;
    assert((SCALE as int) * (SCALE as int) * 0 == 0) by (nonlinear_arith);
    assert(abs(1_000_000_000_000_000) == 1_000_000_000_000_000);
    assert(1_000_000_000_000_000int / 1_000_000_000_000int == 1000);
    assert(tdiv(1_000_000_000_000_000, 1_000_000_000_000) == 1000);
    assert(spec_inv_entry(1_000_000_000, 1_000_000_000_000) == 1000);
    assert(spec_inv_entry(0, 1_000_000_000_000) == 0);
    assert(spec_invert(id) == Some(id));
}

} // verus!
