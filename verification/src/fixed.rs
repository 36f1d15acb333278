//! Fixed-point scalars.
//!
//! All camera and matrix arithmetic in this crate runs on `i128` values
//! scaled by [`SCALE`]: a raw value `v` stands for the real number
//! `v / SCALE`. Angles are measured in degrees, in the same representation.
//!
//! The sine is the classical rational approximation
//! `sin x ~= 4x(180 - x) / (40500 - x(180 - x))` on `0..=180` degrees,
//! extended to a full turn by symmetry. It is exact at every multiple of
//! 90 degrees, which the frame-loop laws rely on.

use vstd::prelude::*;
use vstd::arithmetic::div_mod::{
    lemma_div_basics, lemma_div_is_ordered, lemma_div_is_ordered_by_denominator,
    lemma_div_pos_is_pos, lemma_div_multiples_vanish, lemma_fundamental_div_mod,
    lemma_fundamental_div_mod_converse,
};

verus! {

/// Raw values are scaled by this factor: one unit is `SCALE` raw steps.
pub const SCALE: i128 = 1_000_000;

/// A quarter turn, in fixed-point degrees.
pub const DEG90: i128 = 90_000_000;

/// Half a turn, in fixed-point degrees.
pub const DEG180: i128 = 180_000_000;

/// Three quarter turns, in fixed-point degrees.
pub const DEG270: i128 = 270_000_000;

/// A full turn, in fixed-point degrees.
pub const DEG360: i128 = 360_000_000;

/// Largest angle magnitude the trigonometry accepts before reduction.
pub const ANGLE_LIMIT: i128 = 1_000_000_000_000_000;

/// Division rounded toward zero, the rounding the executable code performs.
pub open spec fn tdiv(a: int, b: int) -> int {
    if a >= 0 {
        a / b
    } else {
        -((-a) / b)
    }
}

/// Fixed-point product: `(a * b) / SCALE`, rounded toward zero.
pub open spec fn fxm(a: int, b: int) -> int {
    tdiv(a * b, SCALE as int)
}

/// Fixed-point quotient: `(a * SCALE) / b`, rounded toward zero.
pub open spec fn fxd(a: int, b: int) -> int {
    if b >= 0 {
        tdiv(a * SCALE as int, b)
    } else {
        -tdiv(a * SCALE as int, -b)
    }
}

/// Magnitude of an integer.
pub open spec fn mag(a: int) -> int {
    if a >= 0 {
        a
    } else {
        -a
    }
}

/// Truncating division shrinks magnitudes: if `|a| <= c` then
/// `|tdiv(a, b)| <= c / b`.
pub proof fn lemma_tdiv_mag(a: int, b: int, c: int)
    requires
        b > 0,
        -c <= a <= c,
    ensures
        -(c / b) <= tdiv(a, b) <= c / b,
{
    if a >= 0 {
        lemma_div_pos_is_pos(a, b);
        lemma_div_is_ordered(a, c, b);
    } else {
        lemma_div_pos_is_pos(-a, b);
        lemma_div_is_ordered(-a, c, b);
    }
}

/// Division by a positive integer never grows a magnitude.
pub proof fn lemma_tdiv_shrink(a: int, b: int, c: int)
    requires
        b >= 1,
        -c <= a <= c,
    ensures
        -c <= tdiv(a, b) <= c,
{
    if a >= 0 {
        lemma_div_pos_is_pos(a, b);
        lemma_div_is_ordered_by_denominator(a, 1, b);
        lemma_div_basics(a);
    } else {
        lemma_div_pos_is_pos(-a, b);
        lemma_div_is_ordered_by_denominator(-a, 1, b);
        lemma_div_basics(-a);
    }
}

/// Multiplying by the scale itself is exact.
pub proof fn lemma_fxm_scale(x: int)
    ensures
        fxm(SCALE as int, x) == x,
        fxm(x, SCALE as int) == x,
{
    if x >= 0 {
        lemma_div_multiples_vanish(x, SCALE as int);
    } else {
        lemma_div_multiples_vanish(-x, SCALE as int);
        assert(-(SCALE as int * x) == SCALE as int * (-x)) by (nonlinear_arith);
    }
    assert(SCALE as int * x == x * SCALE as int) by (nonlinear_arith);
}

/// A fixed-point product with zero is zero.
pub proof fn lemma_fxm_zero(x: int)
    ensures
        fxm(0, x) == 0,
        fxm(x, 0) == 0,
{
    assert(0 * x == 0) by (nonlinear_arith);
    assert(x * 0 == 0) by (nonlinear_arith);
    lemma_div_basics(SCALE as int);
}

/// Multiplying by the negated scale negates exactly.
pub proof fn lemma_fxm_neg_scale(x: int)
    ensures
        fxm(x, -(SCALE as int)) == -x,
        fxm(-(SCALE as int), x) == -x,
{
    lemma_fxm_scale(-x);
    assert(x * (-(SCALE as int)) == (-x) * (SCALE as int)) by (nonlinear_arith);
    assert((-(SCALE as int)) * x == (SCALE as int) * (-x)) by (nonlinear_arith);
}

/// A fixed-point square is non-negative, and at least one whole step as
/// soon as its root reaches the square root of the scale.
pub proof fn lemma_fxm_square(a: int)
    ensures
        fxm(a, a) >= 0,
        mag(a) >= 1000 ==> fxm(a, a) >= 1,
{
    assert(a * a >= 0) by (nonlinear_arith);
    lemma_div_pos_is_pos(a * a, SCALE as int);
    if mag(a) >= 1000 {
        assert(a * a >= 1_000_000) by (nonlinear_arith)
            requires
                a >= 1000 || a <= -1000,
        ;
        lemma_div_is_ordered(1_000_000int, a * a, SCALE as int);
        lemma_div_multiples_vanish(1, SCALE as int);
        assert(SCALE as int * 1 == 1_000_000int);
    }
}

/// A fixed-point quotient by a non-zero divisor is bounded by the scaled
/// magnitude of the dividend.
pub proof fn lemma_fxd_mag(a: int, b: int, c: int)
    requires
        b != 0,
        -c <= a <= c,
        0 <= c,
    ensures
        -(c * SCALE as int) <= fxd(a, b) <= c * SCALE as int,
{
    let s = SCALE as int;
    assert(-(c * s) <= a * s <= c * s);
    if b >= 0 {
        lemma_tdiv_shrink(a * s, b, c * s);
    } else {
        lemma_tdiv_shrink(a * s, -b, c * s);
    }
}

/// Fixed-point multiplication.
pub fn fx_mul(a: i128, b: i128) -> (r: i128)
    requires
        i128::MIN <= a * b <= i128::MAX,
    ensures
        r == fxm(a as int, b as int),
{
    let p: i128 = a * b;
    p / SCALE
}

/// Fixed-point division.
pub fn fx_div(a: i128, b: i128) -> (r: i128)
    requires
        b != 0,
        b > i128::MIN,
        i128::MIN < a * SCALE <= i128::MAX,
    ensures
        r == fxd(a as int, b as int),
{
    let p: i128 = a * SCALE;
    if b > 0 {
        p / b
    } else {
        -(p / (-b))
    }
}

/// The raw sine value on the first half turn.
pub open spec fn sin_half(x: int) -> int {
    let q = x * (DEG180 as int - x);
    let den = 40500 * (SCALE as int) * (SCALE as int) - q;
    tdiv(4 * q * (SCALE as int), den)
}

/// Sine over a non-negative full turn, by point symmetry at the half turn.
pub open spec fn sin_turn(x: int) -> int {
    if x <= DEG180 as int {
        sin_half(x)
    } else {
        -sin_half(x - DEG180 as int)
    }
}

/// Sine of an angle in fixed-point degrees, for angles within one turn.
pub open spec fn sin_deg_spec(x: int) -> int {
    if x >= 0 {
        sin_turn(x)
    } else {
        -sin_turn(-x)
    }
}

/// Cosine of an angle in fixed-point degrees, for angles within one turn.
pub open spec fn cos_deg_spec(x: int) -> int {
    let y = mag(x);
    if y <= DEG270 as int {
        sin_turn(y + DEG90 as int)
    } else {
        sin_turn(y - DEG270 as int)
    }
}

/// On the first half turn the quadratic `x * (180 - x)` stays within
/// `0 ..= 8100 * SCALE * SCALE`, which keeps the sine denominator positive.
proof fn lemma_sin_quadratic_bounds(x: int)
    requires
        0 <= x <= DEG180 as int,
    ensures
        0 <= x * (DEG180 as int - x),
        x * (DEG180 as int - x) <= 8100 * (SCALE as int) * (SCALE as int),
{
    assert(0 <= x * (DEG180 as int - x) && x * (DEG180 as int - x) <= 8100 * (SCALE as int) * (
    SCALE as int)) by (nonlinear_arith)
        requires
            0 <= x <= 180_000_000,
    ;
}

/// Sine on the first half turn.
fn sin_half_exec(x: i128) -> (r: i128)
    requires
        0 <= x <= DEG180,
    ensures
        r == sin_half(x as int),
        0 <= r <= SCALE,
{
    proof {
        lemma_sin_quadratic_bounds(x as int);
    }
    let q: i128 = x * (DEG180 - x);
    let den: i128 = 40500 * SCALE * SCALE - q;
    let num: i128 = 4 * q * SCALE;
    proof {
        lemma_div_pos_is_pos(num as int, den as int);
        lemma_div_is_ordered(num as int, den as int * SCALE as int, den as int);
        lemma_div_multiples_vanish(SCALE as int, den as int);
        assert(den as int * SCALE as int == SCALE as int * den as int);
    }
    num / den
}

/// Sine over a non-negative full turn.
fn sin_turn_exec(x: i128) -> (r: i128)
    requires
        0 <= x <= DEG360,
    ensures
        r == sin_turn(x as int),
        -SCALE <= r <= SCALE,
{
    if x <= DEG180 {
        sin_half_exec(x)
    } else {
        -sin_half_exec(x - DEG180)
    }
}

/// Sine of an angle in fixed-point degrees.
pub fn sin_deg(x: i128) -> (r: i128)
    requires
        -DEG360 <= x <= DEG360,
    ensures
        r == sin_deg_spec(x as int),
        -SCALE <= r <= SCALE,
{
    if x >= 0 {
        sin_turn_exec(x)
    } else {
        -sin_turn_exec(-x)
    }
}

/// Cosine of an angle in fixed-point degrees.
pub fn cos_deg(x: i128) -> (r: i128)
    requires
        -DEG360 <= x <= DEG360,
    ensures
        r == cos_deg_spec(x as int),
        -SCALE <= r <= SCALE,
{
    let y: i128 = if x >= 0 {
        x
    } else {
        -x
    };
    if y <= DEG270 {
        sin_turn_exec(y + DEG90)
    } else {
        sin_turn_exec(y - DEG270)
    }
}

/// The approximation is exact on every quadrant boundary.
pub proof fn lemma_trig_quadrants()
    ensures
        sin_deg_spec(0) == 0,
        sin_deg_spec(DEG90 as int) == SCALE,
        sin_deg_spec(DEG180 as int) == 0,
        sin_deg_spec(DEG270 as int) == -SCALE,
        sin_deg_spec(DEG360 as int) == 0,
        cos_deg_spec(0) == SCALE,
        cos_deg_spec(DEG90 as int) == 0,
        cos_deg_spec(DEG180 as int) == -SCALE,
        cos_deg_spec(DEG270 as int) == 0,
        cos_deg_spec(DEG360 as int) == SCALE,
{
    assert((DEG90 as int) * (DEG180 as int - DEG90 as int) == 8_100_000_000_000_000int);
    assert(40500 * (SCALE as int) * (SCALE as int) == 40_500_000_000_000_000int);
    assert(4 * 8_100_000_000_000_000int * (SCALE as int) == 32_400_000_000_000_000_000_000int);
    assert(32_400_000_000_000_000_000_000int / 32_400_000_000_000_000int == 1_000_000int);
    assert(sin_half(0) == 0);
    assert(sin_half(DEG90 as int) == SCALE);
    assert(sin_half(DEG180 as int) == 0);
}

/// Sine is an odd function of the angle.
pub proof fn lemma_sin_odd(x: int)
    requires
        -(DEG360 as int) <= x <= DEG360 as int,
    ensures
        sin_deg_spec(-x) == -sin_deg_spec(x),
{
    if x > 0 {
        assert(sin_deg_spec(-x) == -sin_turn(x));
        assert(sin_deg_spec(x) == sin_turn(x));
    } else if x < 0 {
        assert(sin_deg_spec(-x) == sin_turn(-x));
        assert(sin_deg_spec(x) == -sin_turn(-x));
    } else {
        assert(sin_deg_spec(0) == sin_turn(0));
    }
}

/// Angle wrapped into `[0, DEG360)`; the spec is the Euclidean remainder.
pub open spec fn wrap_deg_spec(x: int) -> int {
    x % (DEG360 as int)
}

/// Wrap an accumulated angle into a single turn.
pub fn wrap_deg(x: i128) -> (r: i128)
    requires
        -ANGLE_LIMIT <= x <= ANGLE_LIMIT,
    ensures
        r == wrap_deg_spec(x as int),
        0 <= r < DEG360,
{
    let t: i128 = x % DEG360;
    if t < 0 {
        proof {
            let n = -(x as int);
            let d = DEG360 as int;
            lemma_fundamental_div_mod(n, d);
            assert(x as int == (-(n / d) - 1) * d + (d - n % d)) by (nonlinear_arith)
                requires
                    n == -(x as int),
                    d == DEG360 as int,
                    n == d * (n / d) + (n % d),
            ;
            lemma_fundamental_div_mod_converse(x as int, d, -(n / d) - 1, d - n % d);
        }
        t + DEG360
    } else {
        if x >= 0 {
            t
        } else {
            proof {
                let n = -(x as int);
                let d = DEG360 as int;
                lemma_fundamental_div_mod(n, d);
                assert(x as int == (-(n / d)) * d + 0) by (nonlinear_arith)
                    requires
                        n == -(x as int),
                        d == DEG360 as int,
                        n == d * (n / d) + (n % d),
                        n % d == 0,
                ;
                lemma_fundamental_div_mod_converse(x as int, d, -(n / d), 0);
            }
            t
        }
    }
}

} // verus!
