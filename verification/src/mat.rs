//! Fixed-point vectors and 4x4 matrices.
//!
//! Entries are `i128` values in the [`crate::fixed`] representation, held in
//! named row-major fields (`mRC` is row `R`, column `C`). Multiplication and
//! inversion mirror the textbook formulas; every executable routine carries
//! an exact contract over the truncating fixed-point operations it performs.

use vstd::prelude::*;
use crate::fixed::{fxm, fxd, mag, fx_mul, fx_div, lemma_tdiv_mag, SCALE};

verus! {

/// Largest entry magnitude accepted by [`mat_mul`].
pub const MAT_INPUT_LIMIT: i128 = 1_000_000_000_000_000;

/// Entry magnitude bound of a [`mat_mul`] result.
pub const MAT_OUTPUT_LIMIT: i128 = 4_000_000_000_000_000_000_000_000;

/// Largest entry magnitude accepted by [`invert4`] and [`det4`].
pub const INVERT_INPUT_LIMIT: i128 = 2_000_000_000_000;

/// Magnitude bound of a 3x3 cofactor of an [`invert4`] input.
pub const COFACTOR_LIMIT: i128 = 48_000_000_000_000_000_000_000_000;

/// A 3-component fixed-point vector.
#[derive(Clone, Copy, Debug, PartialEq, Eq, Structural)]
pub struct Vec3 {
    pub x: i128,
    pub y: i128,
    pub z: i128,
}

/// A 4x4 fixed-point matrix; `mRC` is the entry at row `R`, column `C`.
#[derive(Clone, Copy, Debug, PartialEq, Eq, Structural)]
pub struct Mat4 {
    pub m00: i128,
    pub m01: i128,
    pub m02: i128,
    pub m03: i128,
    pub m10: i128,
    pub m11: i128,
    pub m12: i128,
    pub m13: i128,
    pub m20: i128,
    pub m21: i128,
    pub m22: i128,
    pub m23: i128,
    pub m30: i128,
    pub m31: i128,
    pub m32: i128,
    pub m33: i128,
}

/// Every entry of `m` has magnitude at most `c`.
pub open spec fn mat_mag_le(m: Mat4, c: int) -> bool {
    &&& mag(m.m00 as int) <= c
    &&& mag(m.m01 as int) <= c
    &&& mag(m.m02 as int) <= c
    &&& mag(m.m03 as int) <= c
    &&& mag(m.m10 as int) <= c
    &&& mag(m.m11 as int) <= c
    &&& mag(m.m12 as int) <= c
    &&& mag(m.m13 as int) <= c
    &&& mag(m.m20 as int) <= c
    &&& mag(m.m21 as int) <= c
    &&& mag(m.m22 as int) <= c
    &&& mag(m.m23 as int) <= c
    &&& mag(m.m30 as int) <= c
    &&& mag(m.m31 as int) <= c
    &&& mag(m.m32 as int) <= c
    &&& mag(m.m33 as int) <= c
}

/// Both coordinates of `v` have magnitude at most `c`.
pub open spec fn vec3_mag_le(v: Vec3, c: int) -> bool {
    &&& mag(v.x as int) <= c
    &&& mag(v.y as int) <= c
    &&& mag(v.z as int) <= c
}

/// The fixed-point identity matrix.
pub open spec fn identity_spec() -> Mat4 {
    Mat4 {
        m00: SCALE, m01: 0, m02: 0, m03: 0,
        m10: 0, m11: SCALE, m12: 0, m13: 0,
        m20: 0, m21: 0, m22: SCALE, m23: 0,
        m30: 0, m31: 0, m32: 0, m33: SCALE,
    }
}

/// The fixed-point identity matrix.
pub fn identity() -> (r: Mat4)
    ensures
        r == identity_spec(),
{
    Mat4 {
        m00: SCALE, m01: 0, m02: 0, m03: 0,
        m10: 0, m11: SCALE, m12: 0, m13: 0,
        m20: 0, m21: 0, m22: SCALE, m23: 0,
        m30: 0, m31: 0, m32: 0, m33: SCALE,
    }
}

/// Translation by `v`.
pub open spec fn translate_spec(v: Vec3) -> Mat4 {
    Mat4 {
        m00: SCALE, m01: 0, m02: 0, m03: v.x,
        m10: 0, m11: SCALE, m12: 0, m13: v.y,
        m20: 0, m21: 0, m22: SCALE, m23: v.z,
        m30: 0, m31: 0, m32: 0, m33: SCALE,
    }
}

/// Translation by `v`.
pub fn translate(v: Vec3) -> (r: Mat4)
    ensures
        r == translate_spec(v),
{
    Mat4 {
        m00: SCALE, m01: 0, m02: 0, m03: v.x,
        m10: 0, m11: SCALE, m12: 0, m13: v.y,
        m20: 0, m21: 0, m22: SCALE, m23: v.z,
        m30: 0, m31: 0, m32: 0, m33: SCALE,
    }
}

/// Component-wise negation.
pub open spec fn vec3_neg_spec(v: Vec3) -> Vec3 {
    Vec3 { x: (-v.x) as i128, y: (-v.y) as i128, z: (-v.z) as i128 }
}

/// Component-wise negation.
pub fn vec3_neg(v: Vec3) -> (r: Vec3)
    requires
        v.x > i128::MIN,
        v.y > i128::MIN,
        v.z > i128::MIN,
    ensures
        r == vec3_neg_spec(v),
{
    Vec3 { x: -v.x, y: -v.y, z: -v.z }
}

/// One row-by-column term of a fixed-point matrix product.
pub open spec fn dot4_spec(
    a0: int, b0: int, a1: int, b1: int, a2: int, b2: int, a3: int, b3: int,
) -> int {
    fxm(a0, b0) + fxm(a1, b1) + fxm(a2, b2) + fxm(a3, b3)
}

/// The magnitude of a fixed-point product is bounded by the product of the
/// operand bounds, scaled down.
pub proof fn lemma_fxm_mag(a: int, b: int, ca: int, cb: int)
    requires
        -ca <= a <= ca,
        -cb <= b <= cb,
        0 <= ca,
        0 <= cb,
    ensures
        -(ca * cb) <= a * b <= ca * cb,
        -((ca * cb) / (SCALE as int)) <= fxm(a, b) <= (ca * cb) / (SCALE as int),
{
    assert(-(ca * cb) <= a * b <= ca * cb) by (nonlinear_arith)
        requires
            -ca <= a <= ca,
            -cb <= b <= cb,
            0 <= ca,
            0 <= cb,
    ;
    lemma_tdiv_mag(a * b, SCALE as int, ca * cb);
}

/// One row-by-column term of a fixed-point matrix product.
fn dot4(a0: i128, b0: i128, a1: i128, b1: i128, a2: i128, b2: i128, a3: i128, b3: i128) -> (r:
    i128)
    requires
        mag(a0 as int) <= MAT_INPUT_LIMIT,
        mag(b0 as int) <= MAT_INPUT_LIMIT,
        mag(a1 as int) <= MAT_INPUT_LIMIT,
        mag(b1 as int) <= MAT_INPUT_LIMIT,
        mag(a2 as int) <= MAT_INPUT_LIMIT,
        mag(b2 as int) <= MAT_INPUT_LIMIT,
        mag(a3 as int) <= MAT_INPUT_LIMIT,
        mag(b3 as int) <= MAT_INPUT_LIMIT,
    ensures
        r == dot4_spec(a0 as int, b0 as int, a1 as int, b1 as int, a2 as int, b2 as int, a3 as int,
            b3 as int),
        mag(r as int) <= MAT_OUTPUT_LIMIT,
{
    proof {
        let l = MAT_INPUT_LIMIT as int;
        lemma_fxm_mag(a0 as int, b0 as int, l, l);
        lemma_fxm_mag(a1 as int, b1 as int, l, l);
        lemma_fxm_mag(a2 as int, b2 as int, l, l);
        lemma_fxm_mag(a3 as int, b3 as int, l, l);
    }
    let t0: i128 = fx_mul(a0, b0);
    let t1: i128 = fx_mul(a1, b1);
    let t2: i128 = fx_mul(a2, b2);
    let t3: i128 = fx_mul(a3, b3);
    t0 + t1 + t2 + t3
}

/// Fixed-point matrix product.
pub open spec fn mat_mul_spec(a: Mat4, b: Mat4) -> Mat4 {
    Mat4 {
        m00: dot4_spec(a.m00 as int, b.m00 as int, a.m01 as int, b.m10 as int, a.m02 as int,
            b.m20 as int, a.m03 as int, b.m30 as int) as i128,
        m01: dot4_spec(a.m00 as int, b.m01 as int, a.m01 as int, b.m11 as int, a.m02 as int,
            b.m21 as int, a.m03 as int, b.m31 as int) as i128,
        m02: dot4_spec(a.m00 as int, b.m02 as int, a.m01 as int, b.m12 as int, a.m02 as int,
            b.m22 as int, a.m03 as int, b.m32 as int) as i128,
        m03: dot4_spec(a.m00 as int, b.m03 as int, a.m01 as int, b.m13 as int, a.m02 as int,
            b.m23 as int, a.m03 as int, b.m33 as int) as i128,
        m10: dot4_spec(a.m10 as int, b.m00 as int, a.m11 as int, b.m10 as int, a.m12 as int,
            b.m20 as int, a.m13 as int, b.m30 as int) as i128,
        m11: dot4_spec(a.m10 as int, b.m01 as int, a.m11 as int, b.m11 as int, a.m12 as int,
            b.m21 as int, a.m13 as int, b.m31 as int) as i128,
        m12: dot4_spec(a.m10 as int, b.m02 as int, a.m11 as int, b.m12 as int, a.m12 as int,
            b.m22 as int, a.m13 as int, b.m32 as int) as i128,
        m13: dot4_spec(a.m10 as int, b.m03 as int, a.m11 as int, b.m13 as int, a.m12 as int,
            b.m23 as int, a.m13 as int, b.m33 as int) as i128,
        m20: dot4_spec(a.m20 as int, b.m00 as int, a.m21 as int, b.m10 as int, a.m22 as int,
            b.m20 as int, a.m23 as int, b.m30 as int) as i128,
        m21: dot4_spec(a.m20 as int, b.m01 as int, a.m21 as int, b.m11 as int, a.m22 as int,
            b.m21 as int, a.m23 as int, b.m31 as int) as i128,
        m22: dot4_spec(a.m20 as int, b.m02 as int, a.m21 as int, b.m12 as int, a.m22 as int,
            b.m22 as int, a.m23 as int, b.m32 as int) as i128,
        m23: dot4_spec(a.m20 as int, b.m03 as int, a.m21 as int, b.m13 as int, a.m22 as int,
            b.m23 as int, a.m23 as int, b.m33 as int) as i128,
        m30: dot4_spec(a.m30 as int, b.m00 as int, a.m31 as int, b.m10 as int, a.m32 as int,
            b.m20 as int, a.m33 as int, b.m30 as int) as i128,
        m31: dot4_spec(a.m30 as int, b.m01 as int, a.m31 as int, b.m11 as int, a.m32 as int,
            b.m21 as int, a.m33 as int, b.m31 as int) as i128,
        m32: dot4_spec(a.m30 as int, b.m02 as int, a.m31 as int, b.m12 as int, a.m32 as int,
            b.m22 as int, a.m33 as int, b.m32 as int) as i128,
        m33: dot4_spec(a.m30 as int, b.m03 as int, a.m31 as int, b.m13 as int, a.m32 as int,
            b.m23 as int, a.m33 as int, b.m33 as int) as i128,
    }
}

/// Fixed-point matrix product; rotate-then-translate compositions and the
/// projection-view product both go through here.
pub fn mat_mul(a: &Mat4, b: &Mat4) -> (r: Mat4)
    requires
        mat_mag_le(*a, MAT_INPUT_LIMIT as int),
        mat_mag_le(*b, MAT_INPUT_LIMIT as int),
    ensures
        r == mat_mul_spec(*a, *b),
        mat_mag_le(r, MAT_OUTPUT_LIMIT as int),
{
    Mat4 {
        m00: dot4(a.m00, b.m00, a.m01, b.m10, a.m02, b.m20, a.m03, b.m30),
        m01: dot4(a.m00, b.m01, a.m01, b.m11, a.m02, b.m21, a.m03, b.m31),
        m02: dot4(a.m00, b.m02, a.m01, b.m12, a.m02, b.m22, a.m03, b.m32),
        m03: dot4(a.m00, b.m03, a.m01, b.m13, a.m02, b.m23, a.m03, b.m33),
        m10: dot4(a.m10, b.m00, a.m11, b.m10, a.m12, b.m20, a.m13, b.m30),
        m11: dot4(a.m10, b.m01, a.m11, b.m11, a.m12, b.m21, a.m13, b.m31),
        m12: dot4(a.m10, b.m02, a.m11, b.m12, a.m12, b.m22, a.m13, b.m32),
        m13: dot4(a.m10, b.m03, a.m11, b.m13, a.m12, b.m23, a.m13, b.m33),
        m20: dot4(a.m20, b.m00, a.m21, b.m10, a.m22, b.m20, a.m23, b.m30),
        m21: dot4(a.m20, b.m01, a.m21, b.m11, a.m22, b.m21, a.m23, b.m31),
        m22: dot4(a.m20, b.m02, a.m21, b.m12, a.m22, b.m22, a.m23, b.m32),
        m23: dot4(a.m20, b.m03, a.m21, b.m13, a.m22, b.m23, a.m23, b.m33),
        m30: dot4(a.m30, b.m00, a.m31, b.m10, a.m32, b.m20, a.m33, b.m30),
        m31: dot4(a.m30, b.m01, a.m31, b.m11, a.m32, b.m21, a.m33, b.m31),
        m32: dot4(a.m30, b.m02, a.m31, b.m12, a.m32, b.m22, a.m33, b.m32),
        m33: dot4(a.m30, b.m03, a.m31, b.m13, a.m32, b.m23, a.m33, b.m33),
    }
}

/// A matrix product term stays within four scaled-down operand products.
pub proof fn lemma_dot4_mag(
    a0: int, b0: int, a1: int, b1: int, a2: int, b2: int, a3: int, b3: int, ca: int, cb: int,
)
    requires
        -ca <= a0 <= ca && -ca <= a1 <= ca && -ca <= a2 <= ca && -ca <= a3 <= ca,
        -cb <= b0 <= cb && -cb <= b1 <= cb && -cb <= b2 <= cb && -cb <= b3 <= cb,
        0 <= ca,
        0 <= cb,
    ensures
        -(4 * ((ca * cb) / (SCALE as int))) <= dot4_spec(a0, b0, a1, b1, a2, b2, a3, b3) <= 4 * ((
        ca * cb) / (SCALE as int)),
{
    lemma_fxm_mag(a0, b0, ca, cb);
    lemma_fxm_mag(a1, b1, ca, cb);
    lemma_fxm_mag(a2, b2, ca, cb);
    lemma_fxm_mag(a3, b3, ca, cb);
}

/// Entry bounds of a matrix product, from entry bounds of its factors.
pub proof fn lemma_mat_mul_mag(a: Mat4, b: Mat4, ca: int, cb: int)
    requires
        mat_mag_le(a, ca),
        mat_mag_le(b, cb),
        0 <= ca <= MAT_INPUT_LIMIT as int,
        0 <= cb <= MAT_INPUT_LIMIT as int,
    ensures
        mat_mag_le(mat_mul_spec(a, b), 4 * ((ca * cb) / (SCALE as int))),
{
    lemma_dot4_mag(a.m00 as int, b.m00 as int, a.m01 as int, b.m10 as int, a.m02 as int,
        b.m20 as int, a.m03 as int, b.m30 as int, ca, cb);
    lemma_dot4_mag(a.m00 as int, b.m01 as int, a.m01 as int, b.m11 as int, a.m02 as int,
        b.m21 as int, a.m03 as int, b.m31 as int, ca, cb);
    lemma_dot4_mag(a.m00 as int, b.m02 as int, a.m01 as int, b.m12 as int, a.m02 as int,
        b.m22 as int, a.m03 as int, b.m32 as int, ca, cb);
    lemma_dot4_mag(a.m00 as int, b.m03 as int, a.m01 as int, b.m13 as int, a.m02 as int,
        b.m23 as int, a.m03 as int, b.m33 as int, ca, cb);
    lemma_dot4_mag(a.m10 as int, b.m00 as int, a.m11 as int, b.m10 as int, a.m12 as int,
        b.m20 as int, a.m13 as int, b.m30 as int, ca, cb);
    lemma_dot4_mag(a.m10 as int, b.m01 as int, a.m11 as int, b.m11 as int, a.m12 as int,
        b.m21 as int, a.m13 as int, b.m31 as int, ca, cb);
    lemma_dot4_mag(a.m10 as int, b.m02 as int, a.m11 as int, b.m12 as int, a.m12 as int,
        b.m22 as int, a.m13 as int, b.m32 as int, ca, cb);
    lemma_dot4_mag(a.m10 as int, b.m03 as int, a.m11 as int, b.m13 as int, a.m12 as int,
        b.m23 as int, a.m13 as int, b.m33 as int, ca, cb);
    lemma_dot4_mag(a.m20 as int, b.m00 as int, a.m21 as int, b.m10 as int, a.m22 as int,
        b.m20 as int, a.m23 as int, b.m30 as int, ca, cb);
    lemma_dot4_mag(a.m20 as int, b.m01 as int, a.m21 as int, b.m11 as int, a.m22 as int,
        b.m21 as int, a.m23 as int, b.m31 as int, ca, cb);
    lemma_dot4_mag(a.m20 as int, b.m02 as int, a.m21 as int, b.m12 as int, a.m22 as int,
        b.m22 as int, a.m23 as int, b.m32 as int, ca, cb);
    lemma_dot4_mag(a.m20 as int, b.m03 as int, a.m21 as int, b.m13 as int, a.m22 as int,
        b.m23 as int, a.m23 as int, b.m33 as int, ca, cb);
    lemma_dot4_mag(a.m30 as int, b.m00 as int, a.m31 as int, b.m10 as int, a.m32 as int,
        b.m20 as int, a.m33 as int, b.m30 as int, ca, cb);
    lemma_dot4_mag(a.m30 as int, b.m01 as int, a.m31 as int, b.m11 as int, a.m32 as int,
        b.m21 as int, a.m33 as int, b.m31 as int, ca, cb);
    lemma_dot4_mag(a.m30 as int, b.m02 as int, a.m31 as int, b.m12 as int, a.m32 as int,
        b.m22 as int, a.m33 as int, b.m32 as int, ca, cb);
    lemma_dot4_mag(a.m30 as int, b.m03 as int, a.m31 as int, b.m13 as int, a.m32 as int,
        b.m23 as int, a.m33 as int, b.m33 as int, ca, cb);
}

/// Runtime range guard: every entry of `m` has magnitude at most `limit`.
pub fn mat_within(m: &Mat4, limit: i128) -> (b: bool)
    requires
        limit >= 0,
    ensures
        b == mat_mag_le(*m, limit as int),
{
    m.m00 <= limit && m.m00 >= -limit && m.m01 <= limit && m.m01 >= -limit && m.m02 <= limit
        && m.m02 >= -limit && m.m03 <= limit && m.m03 >= -limit && m.m10 <= limit && m.m10
        >= -limit && m.m11 <= limit && m.m11 >= -limit && m.m12 <= limit && m.m12 >= -limit
        && m.m13 <= limit && m.m13 >= -limit && m.m20 <= limit && m.m20 >= -limit && m.m21
        <= limit && m.m21 >= -limit && m.m22 <= limit && m.m22 >= -limit && m.m23 <= limit
        && m.m23 >= -limit && m.m30 <= limit && m.m30 >= -limit && m.m31 <= limit && m.m31
        >= -limit && m.m32 <= limit && m.m32 >= -limit && m.m33 <= limit && m.m33 >= -limit
}

/// 3x3 fixed-point determinant, expanded along the first row.
pub open spec fn det3_spec(
    a: int, b: int, c: int, d: int, e: int, f: int, g: int, h: int, i: int,
) -> int {
    fxm(a, fxm(e, i) - fxm(f, h)) - fxm(b, fxm(d, i) - fxm(f, g)) + fxm(c, fxm(d, h) - fxm(e, g))
}

/// 3x3 fixed-point determinant.
fn cof3(a: i128, b: i128, c: i128, d: i128, e: i128, f: i128, g: i128, h: i128, i: i128) -> (r:
    i128)
    requires
        mag(a as int) <= INVERT_INPUT_LIMIT,
        mag(b as int) <= INVERT_INPUT_LIMIT,
        mag(c as int) <= INVERT_INPUT_LIMIT,
        mag(d as int) <= INVERT_INPUT_LIMIT,
        mag(e as int) <= INVERT_INPUT_LIMIT,
        mag(f as int) <= INVERT_INPUT_LIMIT,
        mag(g as int) <= INVERT_INPUT_LIMIT,
        mag(h as int) <= INVERT_INPUT_LIMIT,
        mag(i as int) <= INVERT_INPUT_LIMIT,
    ensures
        r == det3_spec(a as int, b as int, c as int, d as int, e as int, f as int, g as int,
            h as int, i as int),
        mag(r as int) <= COFACTOR_LIMIT,
{
    proof {
        let l = INVERT_INPUT_LIMIT as int;
        lemma_fxm_mag(e as int, i as int, l, l);
        lemma_fxm_mag(f as int, h as int, l, l);
        lemma_fxm_mag(d as int, i as int, l, l);
        lemma_fxm_mag(f as int, g as int, l, l);
        lemma_fxm_mag(d as int, h as int, l, l);
        lemma_fxm_mag(e as int, g as int, l, l);
    }
    let s0: i128 = fx_mul(e, i) - fx_mul(f, h);
    let s1: i128 = fx_mul(d, i) - fx_mul(f, g);
    let s2: i128 = fx_mul(d, h) - fx_mul(e, g);
    proof {
        let l = INVERT_INPUT_LIMIT as int;
        let pair = 8_000_000_000_000_000_000int;
        lemma_fxm_mag(a as int, s0 as int, l, pair);
        lemma_fxm_mag(b as int, s1 as int, l, pair);
        lemma_fxm_mag(c as int, s2 as int, l, pair);
    }
    fx_mul(a, s0) - fx_mul(b, s1) + fx_mul(c, s2)
}

/// The 3x3 minor of `m` with row 0 and column 0 removed; and so on below.
pub open spec fn minor00(m: Mat4) -> int {
    det3_spec(m.m11 as int, m.m12 as int, m.m13 as int, m.m21 as int, m.m22 as int, m.m23 as int,
        m.m31 as int, m.m32 as int, m.m33 as int)
}

pub open spec fn minor01(m: Mat4) -> int {
    det3_spec(m.m10 as int, m.m12 as int, m.m13 as int, m.m20 as int, m.m22 as int, m.m23 as int,
        m.m30 as int, m.m32 as int, m.m33 as int)
}

pub open spec fn minor02(m: Mat4) -> int {
    det3_spec(m.m10 as int, m.m11 as int, m.m13 as int, m.m20 as int, m.m21 as int, m.m23 as int,
        m.m30 as int, m.m31 as int, m.m33 as int)
}

pub open spec fn minor03(m: Mat4) -> int {
    det3_spec(m.m10 as int, m.m11 as int, m.m12 as int, m.m20 as int, m.m21 as int, m.m22 as int,
        m.m30 as int, m.m31 as int, m.m32 as int)
}

pub open spec fn minor10(m: Mat4) -> int {
    det3_spec(m.m01 as int, m.m02 as int, m.m03 as int, m.m21 as int, m.m22 as int, m.m23 as int,
        m.m31 as int, m.m32 as int, m.m33 as int)
}

pub open spec fn minor11(m: Mat4) -> int {
    det3_spec(m.m00 as int, m.m02 as int, m.m03 as int, m.m20 as int, m.m22 as int, m.m23 as int,
        m.m30 as int, m.m32 as int, m.m33 as int)
}

pub open spec fn minor12(m: Mat4) -> int {
    det3_spec(m.m00 as int, m.m01 as int, m.m03 as int, m.m20 as int, m.m21 as int, m.m23 as int,
        m.m30 as int, m.m31 as int, m.m33 as int)
}

pub open spec fn minor13(m: Mat4) -> int {
    det3_spec(m.m00 as int, m.m01 as int, m.m02 as int, m.m20 as int, m.m21 as int, m.m22 as int,
        m.m30 as int, m.m31 as int, m.m32 as int)
}

pub open spec fn minor20(m: Mat4) -> int {
    det3_spec(m.m01 as int, m.m02 as int, m.m03 as int, m.m11 as int, m.m12 as int, m.m13 as int,
        m.m31 as int, m.m32 as int, m.m33 as int)
}

pub open spec fn minor21(m: Mat4) -> int {
    det3_spec(m.m00 as int, m.m02 as int, m.m03 as int, m.m10 as int, m.m12 as int, m.m13 as int,
        m.m30 as int, m.m32 as int, m.m33 as int)
}

pub open spec fn minor22(m: Mat4) -> int {
    det3_spec(m.m00 as int, m.m01 as int, m.m03 as int, m.m10 as int, m.m11 as int, m.m13 as int,
        m.m30 as int, m.m31 as int, m.m33 as int)
}

pub open spec fn minor23(m: Mat4) -> int {
    det3_spec(m.m00 as int, m.m01 as int, m.m02 as int, m.m10 as int, m.m11 as int, m.m12 as int,
        m.m30 as int, m.m31 as int, m.m32 as int)
}

pub open spec fn minor30(m: Mat4) -> int {
    det3_spec(m.m01 as int, m.m02 as int, m.m03 as int, m.m11 as int, m.m12 as int, m.m13 as int,
        m.m21 as int, m.m22 as int, m.m23 as int)
}

pub open spec fn minor31(m: Mat4) -> int {
    det3_spec(m.m00 as int, m.m02 as int, m.m03 as int, m.m10 as int, m.m12 as int, m.m13 as int,
        m.m20 as int, m.m22 as int, m.m23 as int)
}

pub open spec fn minor32(m: Mat4) -> int {
    det3_spec(m.m00 as int, m.m01 as int, m.m03 as int, m.m10 as int, m.m11 as int, m.m13 as int,
        m.m20 as int, m.m21 as int, m.m23 as int)
}

pub open spec fn minor33(m: Mat4) -> int {
    det3_spec(m.m00 as int, m.m01 as int, m.m02 as int, m.m10 as int, m.m11 as int, m.m12 as int,
        m.m20 as int, m.m21 as int, m.m22 as int)
}

/// 4x4 fixed-point determinant, expanded along the first row.
pub open spec fn det4_spec(m: Mat4) -> int {
    fxm(m.m00 as int, minor00(m)) - fxm(m.m01 as int, minor01(m)) + fxm(m.m02 as int, minor02(m))
        - fxm(m.m03 as int, minor03(m))
}

/// `v` is the adjugate-over-determinant inverse of `m`: each entry is the
/// matching signed transposed cofactor divided by the determinant.
pub open spec fn is_inverse4(v: Mat4, m: Mat4) -> bool {
    let d = det4_spec(m);
    &&& d != 0
    &&& v.m00 == fxd(minor00(m), d)
    &&& v.m01 == fxd(-minor10(m), d)
    &&& v.m02 == fxd(minor20(m), d)
    &&& v.m03 == fxd(-minor30(m), d)
    &&& v.m10 == fxd(-minor01(m), d)
    &&& v.m11 == fxd(minor11(m), d)
    &&& v.m12 == fxd(-minor21(m), d)
    &&& v.m13 == fxd(minor31(m), d)
    &&& v.m20 == fxd(minor02(m), d)
    &&& v.m21 == fxd(-minor12(m), d)
    &&& v.m22 == fxd(minor22(m), d)
    &&& v.m23 == fxd(-minor32(m), d)
    &&& v.m30 == fxd(-minor03(m), d)
    &&& v.m31 == fxd(minor13(m), d)
    &&& v.m32 == fxd(-minor23(m), d)
    &&& v.m33 == fxd(minor33(m), d)
}

/// Invert a fixed-point matrix by the adjugate: returns `None` exactly when
/// the fixed-point determinant is zero, the singular-matrix case the frame
/// loop treats as fatal.
pub fn invert4(m: &Mat4) -> (r: Option<Mat4>)
    requires
        mat_mag_le(*m, INVERT_INPUT_LIMIT as int),
    ensures
        r is None <==> det4_spec(*m) == 0,
        r matches Some(v) ==> is_inverse4(v, *m),
{
    let c00: i128 = cof3(m.m11, m.m12, m.m13, m.m21, m.m22, m.m23, m.m31, m.m32, m.m33);
    let c01: i128 = cof3(m.m10, m.m12, m.m13, m.m20, m.m22, m.m23, m.m30, m.m32, m.m33);
    let c02: i128 = cof3(m.m10, m.m11, m.m13, m.m20, m.m21, m.m23, m.m30, m.m31, m.m33);
    let c03: i128 = cof3(m.m10, m.m11, m.m12, m.m20, m.m21, m.m22, m.m30, m.m31, m.m32);
    let c10: i128 = cof3(m.m01, m.m02, m.m03, m.m21, m.m22, m.m23, m.m31, m.m32, m.m33);
    let c11: i128 = cof3(m.m00, m.m02, m.m03, m.m20, m.m22, m.m23, m.m30, m.m32, m.m33);
    let c12: i128 = cof3(m.m00, m.m01, m.m03, m.m20, m.m21, m.m23, m.m30, m.m31, m.m33);
    let c13: i128 = cof3(m.m00, m.m01, m.m02, m.m20, m.m21, m.m22, m.m30, m.m31, m.m32);
    let c20: i128 = cof3(m.m01, m.m02, m.m03, m.m11, m.m12, m.m13, m.m31, m.m32, m.m33);
    let c21: i128 = cof3(m.m00, m.m02, m.m03, m.m10, m.m12, m.m13, m.m30, m.m32, m.m33);
    let c22: i128 = cof3(m.m00, m.m01, m.m03, m.m10, m.m11, m.m13, m.m30, m.m31, m.m33);
    let c23: i128 = cof3(m.m00, m.m01, m.m02, m.m10, m.m11, m.m12, m.m30, m.m31, m.m32);
    let c30: i128 = cof3(m.m01, m.m02, m.m03, m.m11, m.m12, m.m13, m.m21, m.m22, m.m23);
    let c31: i128 = cof3(m.m00, m.m02, m.m03, m.m10, m.m12, m.m13, m.m20, m.m22, m.m23);
    let c32: i128 = cof3(m.m00, m.m01, m.m03, m.m10, m.m11, m.m13, m.m20, m.m21, m.m23);
    let c33: i128 = cof3(m.m00, m.m01, m.m02, m.m10, m.m11, m.m12, m.m20, m.m21, m.m22);
    proof {
        let l = INVERT_INPUT_LIMIT as int;
        let cl = COFACTOR_LIMIT as int;
        lemma_fxm_mag(m.m00 as int, c00 as int, l, cl);
        lemma_fxm_mag(m.m01 as int, c01 as int, l, cl);
        lemma_fxm_mag(m.m02 as int, c02 as int, l, cl);
        lemma_fxm_mag(m.m03 as int, c03 as int, l, cl);
    }
    let det: i128 = fx_mul(m.m00, c00) - fx_mul(m.m01, c01) + fx_mul(m.m02, c02) - fx_mul(
        m.m03,
        c03,
    );
    if det == 0 {
        None
    } else {
        Some(
            Mat4 {
                m00: fx_div(c00, det),
                m01: fx_div(-c10, det),
                m02: fx_div(c20, det),
                m03: fx_div(-c30, det),
                m10: fx_div(-c01, det),
                m11: fx_div(c11, det),
                m12: fx_div(-c21, det),
                m13: fx_div(c31, det),
                m20: fx_div(c02, det),
                m21: fx_div(-c12, det),
                m22: fx_div(c22, det),
                m23: fx_div(-c32, det),
                m30: fx_div(-c03, det),
                m31: fx_div(c13, det),
                m32: fx_div(-c23, det),
                m33: fx_div(c33, det),
            },
        )
    }
}

} // verus!
