//! Tests for fixed-point matrix transpose and inversion.

use three_d::matrix::{identity, invert, normal_matrix_of, transpose, Mat4};

fn diagonal(x: i64, y: i64, z: i64, w: i64) -> Mat4 {
    Mat4 {
        m00: x,
        m01: 0,
        m02: 0,
        m03: 0,
        m10: 0,
        m11: y,
        m12: 0,
        m13: 0,
        m20: 0,
        m21: 0,
        m22: z,
        m23: 0,
        m30: 0,
        m31: 0,
        m32: 0,
        m33: w,
    }
}

fn translation(tx: i64, ty: i64, tz: i64) -> Mat4 {
    let mut m = identity();
    m.m03 = tx;
    m.m13 = ty;
    m.m23 = tz;
    m
}

#[test]
fn identity_diagonal_is_one_unit() {
    let id = identity();
    assert_eq!(id, diagonal(1000, 1000, 1000, 1000));
}

#[test]
fn transpose_swaps_rows_and_columns() {
    let t = translation(2000, 3000, -1000);
    let tt = transpose(&t);
    assert_eq!(tt.m30, 2000);
    assert_eq!(tt.m31, 3000);
    assert_eq!(tt.m32, -1000);
    assert_eq!(tt.m03, 0);
    assert_eq!(transpose(&tt), t);
}

#[test]
fn invert_identity_is_identity() {
    assert_eq!(invert(&identity()), Some(identity()));
}

#[test]
fn invert_uniform_scale_halves_it() {
    // The inverse of scaling by two is scaling by one half, exactly.
    let two = diagonal(2000, 2000, 2000, 1000);
    assert_eq!(invert(&two), Some(diagonal(500, 500, 500, 1000)));
}

#[test]
fn invert_translation_negates_it() {
    let t = translation(2000, 3000, -1000);
    assert_eq!(invert(&t), Some(translation(-2000, -3000, 1000)));
}

#[test]
fn invert_singular_matrix_is_none() {
    assert_eq!(invert(&diagonal(0, 0, 0, 0)), None);
    let mut rank_deficient = identity();
    rank_deficient.m11 = 0;
    assert_eq!(invert(&rank_deficient), None);
}

#[test]
fn normal_matrix_is_transposed_inverse() {
    let t = translation(2000, 3000, -1000);
    let n = normal_matrix_of(&t);
    assert_eq!(n, transpose(&invert(&t).unwrap()));
    // The translation column moves to the bottom row, negated.
    assert_eq!(n.m30, -2000);
    assert_eq!(n.m31, -3000);
    assert_eq!(n.m32, 1000);
}

#[test]
fn normal_matrix_of_singular_falls_back_to_identity() {
    assert_eq!(normal_matrix_of(&diagonal(0, 0, 0, 0)), identity());
}
