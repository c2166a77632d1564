//! Angles in millionths of a radian, and the circular functions on them.
//!
//! The sine is a truncated power series on the quarter turn around zero; the
//! arctangent is a fitted odd polynomial on `[0, 1]`.  Both are evaluated in
//! the saturating fixed-point arithmetic of `fixed`, and their contracts
//! name the same evaluation, so each result is determined to the last digit.

use vstd::prelude::*;
use crate::fixed::{
    clamp, clamp_spec, fx_mul, fx_mul_spec, magnitude, mul_div, mul_div_spec, sat_abs,
    sat_abs_spec, sat_add, sat_add_spec, sat_sub, sat_sub_spec, trunc_div, ONE,
};

verus! {

/// A half turn.
pub const PI: i64 = 3_141_593;

/// A quarter turn.
pub const HALF_PI: i64 = 1_570_796;

/// A full turn: exactly two half turns.
pub const TWO_PI: i64 = 6_283_186;

/// The angle in `(-PI, PI]` that differs from `a` by whole turns.
pub open spec fn wrap_spec(a: int) -> int {
    PI - (PI - a) % (TWO_PI as int)
}

/// Brings an angle into `(-PI, PI]` by whole turns.
pub fn wrap(a: i64) -> (r: i64)
    ensures
        r == wrap_spec(a as int),
        -PI < r <= PI,
{
    let d: i128 = PI as i128 - a as i128;
    let m: i128 = d % (TWO_PI as i128);
    let m: i128 = if m < 0 {
        m + TWO_PI as i128
    } else {
        m
    };
    (PI as i128 - m) as i64
}

/// A wrapped angle reflected into the quarter turn around zero, keeping its
/// sine.
pub open spec fn fold_spec(a: i64) -> i64 {
    if a > HALF_PI {
        (PI - a) as i64
    } else if a < -HALF_PI {
        (-PI - a) as i64
    } else {
        a
    }
}

/// The sine series through the eleventh power, in nested form.
pub open spec fn sine_series(x: i64) -> i64 {
    let x2 = fx_mul_spec(x, x);
    let t5 = sat_sub_spec(ONE, mul_div_spec(x2, ONE, 110_000_000));
    let t4 = sat_sub_spec(ONE, mul_div_spec(x2, t5, 72_000_000));
    let t3 = sat_sub_spec(ONE, mul_div_spec(x2, t4, 42_000_000));
    let t2 = sat_sub_spec(ONE, mul_div_spec(x2, t3, 20_000_000));
    let t1 = sat_sub_spec(ONE, mul_div_spec(x2, t2, 6_000_000));
    fx_mul_spec(x, t1)
}

/// The sine of an angle, as a scalar in `[-1, 1]`.
pub open spec fn sine_spec(a: i64) -> i64 {
    clamp_spec(sine_series(fold_spec(wrap_spec(a as int) as i64)), (-ONE) as i64, ONE)
}

/// The cosine of an angle: the sine a quarter turn on.
pub open spec fn cosine_spec(a: i64) -> i64 {
    sine_spec(sat_add_spec(wrap_spec(a as int) as i64, HALF_PI))
}

/// The sine of an angle.
#[verifier::when_used_as_spec(sine_spec)]
pub fn sine(a: i64) -> (r: i64)
    ensures
        r == sine_spec(a),
        -ONE <= r <= ONE,
{
    let w = wrap(a);
    let x = if w > HALF_PI {
        PI - w
    } else if w < -HALF_PI {
        -PI - w
    } else {
        w
    };
    let x2 = fx_mul(x, x);
    let t5 = sat_sub(ONE, mul_div(x2, ONE, 110_000_000));
    let t4 = sat_sub(ONE, mul_div(x2, t5, 72_000_000));
    let t3 = sat_sub(ONE, mul_div(x2, t4, 42_000_000));
    let t2 = sat_sub(ONE, mul_div(x2, t3, 20_000_000));
    let t1 = sat_sub(ONE, mul_div(x2, t2, 6_000_000));
    clamp(fx_mul(x, t1), -ONE, ONE)
}

/// The cosine of an angle.
#[verifier::when_used_as_spec(cosine_spec)]
pub fn cosine(a: i64) -> (r: i64)
    ensures
        r == cosine_spec(a),
        -ONE <= r <= ONE,
{
    sine(sat_add(wrap(a), HALF_PI))
}

/// The coefficients of the arctangent polynomial, by degree.
pub const ARCTAN_1: i64 = 999_866;

pub const ARCTAN_3: i64 = -330_299;

pub const ARCTAN_5: i64 = 180_141;

pub const ARCTAN_7: i64 = -85_133;

pub const ARCTAN_9: i64 = 20_835;

/// The arctangent polynomial on `[0, 1]`: odd, of the ninth degree.
pub open spec fn arctan_series(z: i64) -> i64 {
    let z2 = fx_mul_spec(z, z);
    let t4 = sat_add_spec(ARCTAN_7, fx_mul_spec(z2, ARCTAN_9));
    let t3 = sat_add_spec(ARCTAN_5, fx_mul_spec(z2, t4));
    let t2 = sat_add_spec(ARCTAN_3, fx_mul_spec(z2, t3));
    let t1 = sat_add_spec(ARCTAN_1, fx_mul_spec(z2, t2));
    clamp_spec(fx_mul_spec(z, t1), 0, HALF_PI)
}

/// The angle of the vector `(x, y)` before the quadrant is applied: a value
/// in `[0, HALF_PI]` measured from the nearer half of the x axis.
pub open spec fn arctan_first_quadrant(ay: i64, ax: i64) -> i64 {
    if ay <= ax {
        arctan_series(mul_div_spec(ay, ONE, ax))
    } else {
        (HALF_PI - arctan_series(mul_div_spec(ax, ONE, ay))) as i64
    }
}

/// The angle of the vector `(x, y)`, in `(-PI, PI]`; zero for the zero
/// vector.
pub open spec fn arctan2_spec(y: i64, x: i64) -> i64 {
    if x == 0 && y == 0 {
        0
    } else {
        let base = arctan_first_quadrant(sat_abs_spec(y), sat_abs_spec(x));
        let half = if x < 0 {
            (PI - base) as i64
        } else {
            base
        };
        if y < 0 && half < PI {
            (-half) as i64
        } else {
            half
        }
    }
}

fn arctan_poly(z: i64) -> (r: i64)
    ensures
        r == arctan_series(z),
        0 <= r <= HALF_PI,
{
    let z2 = fx_mul(z, z);
    let t4 = sat_add(ARCTAN_7, fx_mul(z2, ARCTAN_9));
    let t3 = sat_add(ARCTAN_5, fx_mul(z2, t4));
    let t2 = sat_add(ARCTAN_3, fx_mul(z2, t3));
    let t1 = sat_add(ARCTAN_1, fx_mul(z2, t2));
    clamp(fx_mul(z, t1), 0, HALF_PI)
}

/// The angle of the vector `(x, y)`.
#[verifier::when_used_as_spec(arctan2_spec)]
pub fn arctan2(y: i64, x: i64) -> (r: i64)
    ensures
        r == arctan2_spec(y, x),
        -PI < r <= PI,
{
    if x == 0 && y == 0 {
        return 0;
    }
    let ax = sat_abs(x);
    let ay = sat_abs(y);
    let base = if ay <= ax {
        arctan_poly(mul_div(ay, ONE, ax))
    } else {
        HALF_PI - arctan_poly(mul_div(ax, ONE, ay))
    };
    let half = if x < 0 {
        PI - base
    } else {
        base
    };
    if y < 0 && half < PI {
        -half
    } else {
        half
    }
}

/// Wrapping an angle twice is wrapping it once, and a wrapped angle lies in
/// `(-PI, PI]`.
pub proof fn lemma_wrap_idempotent(a: int)
    ensures
        -PI < wrap_spec(a) <= PI,
        wrap_spec(wrap_spec(a)) == wrap_spec(a),
{
    lemma_wrap_fixed(wrap_spec(a));
}

/// An angle already in `(-PI, PI]` is its own wrapping.
pub proof fn lemma_wrap_fixed(a: int)
    requires
        -PI < a <= PI,
    ensures
        wrap_spec(a) == a,
{
    vstd::arithmetic::div_mod::lemma_small_mod((PI - a) as nat, TWO_PI as nat);
}

/// Whole turns do not change the wrapped angle.
pub proof fn lemma_wrap_turns(a: int, turns: int)
    ensures
        wrap_spec(a + turns * TWO_PI) == wrap_spec(a),
{
    vstd::arithmetic::div_mod::lemma_mod_multiples_vanish(-turns, PI - a, TWO_PI as int);
    assert(TWO_PI * (-turns) + (PI - a) == PI - (a + turns * TWO_PI)) by (nonlinear_arith);
}

/// An angle and its wrapping differ by whole turns.
pub proof fn lemma_wrap_congruent(a: int) -> (turns: int)
    ensures
        a == wrap_spec(a) + turns * TWO_PI,
{
    let d = PI - a;
    vstd::arithmetic::div_mod::lemma_fundamental_div_mod(d, TWO_PI as int);
    let turns = -(d / (TWO_PI as int));
    assert(a == wrap_spec(a) + turns * TWO_PI) by (nonlinear_arith)
        requires
            d == TWO_PI * (d / (TWO_PI as int)) + d % (TWO_PI as int),
            d == PI - a,
            turns == -(d / (TWO_PI as int)),
            wrap_spec(a) == PI - d % (TWO_PI as int),
    ;
    turns
}

/// One step of the nested sine series keeps its factor between 0.588766
/// and 1, for a square of the angle up to that of a quarter turn and a
/// divisor of six or more.
proof fn lemma_series_step(x2: i64, factor: i64, divisor: i64)
    requires
        0 <= x2 <= 2_467_404,
        0 <= factor <= ONE,
        divisor >= 6_000_000,
    ensures
        588_766 <= sat_sub_spec(ONE, mul_div_spec(x2, factor, divisor)) <= ONE,
{
    let p = x2 * factor;
    assert(0 <= p <= 2_467_404_000_000) by (nonlinear_arith)
        requires
            p == x2 * factor,
            0 <= x2 <= 2_467_404,
            0 <= factor <= 1_000_000,
    ;
    let q = p / (divisor as int);
    assert(0 <= q <= 411_234) by (nonlinear_arith)
        requires
            q == p / (divisor as int),
            0 <= p <= 2_467_404_000_000,
            divisor >= 6_000_000,
    ;
    assert(magnitude(p) == p && magnitude(divisor as int) == divisor);
    assert(trunc_div(p, divisor as int) == q);
}

/// The sine series of an angle within a quarter turn of zero is, in
/// magnitude, between 0.588766 times the angle and the angle.
pub proof fn lemma_sine_series_bounds(x: i64)
    requires
        -1_570_797 <= x <= 1_570_797,
    ensures
        magnitude(sine_series(x) as int) <= magnitude(x as int),
        magnitude(sine_series(x) as int) * 1_000_000 > magnitude(x as int) * 588_766 - 1_000_000,
{
    let m = magnitude(x as int);
    let square = x * x;
    assert(square == m * m && 0 <= m * m <= 2_467_403_215_209) by (nonlinear_arith)
        requires
            square == x * x,
            m == magnitude(x as int),
            0 <= m <= 1_570_797,
    ;
    let x2 = fx_mul_spec(x, x);
    assert(magnitude(ONE as int) == 1_000_000);
    assert(trunc_div(square, ONE as int) == square / 1_000_000);
    assert(0 <= x2 <= 2_467_404);
    let t5 = sat_sub_spec(ONE, mul_div_spec(x2, ONE, 110_000_000));
    lemma_series_step(x2, ONE, 110_000_000);
    let t4 = sat_sub_spec(ONE, mul_div_spec(x2, t5, 72_000_000));
    lemma_series_step(x2, t5, 72_000_000);
    let t3 = sat_sub_spec(ONE, mul_div_spec(x2, t4, 42_000_000));
    lemma_series_step(x2, t4, 42_000_000);
    let t2 = sat_sub_spec(ONE, mul_div_spec(x2, t3, 20_000_000));
    lemma_series_step(x2, t3, 20_000_000);
    let t1 = sat_sub_spec(ONE, mul_div_spec(x2, t2, 6_000_000));
    lemma_series_step(x2, t2, 6_000_000);
    let p = x * t1;
    let q = (m * t1) / 1_000_000;
    assert(magnitude(p) == m * t1 && (x >= 0 ==> p >= 0) && (x <= 0 ==> p <= 0))
        by (nonlinear_arith)
        requires
            p == x * t1,
            m == magnitude(x as int),
            t1 >= 0,
    ;
    assert(0 <= q <= m && q * 1_000_000 > m * 588_766 - 1_000_000) by (nonlinear_arith)
        requires
            q == (m * t1) / 1_000_000,
            588_766 <= t1 <= 1_000_000,
            0 <= m,
    ;
    assert(trunc_div(p, ONE as int) == q || trunc_div(p, ONE as int) == -q);
    assert(sine_series(x) == fx_mul_spec(x, t1));
}

/// Of the sine and the cosine of an angle, one is at least 0.4 in
/// magnitude, and neither is more than one.
pub proof fn lemma_sine_or_cosine_large(a: i64)
    ensures
        -ONE <= sine_spec(a) <= ONE,
        -ONE <= cosine_spec(a) <= ONE,
        magnitude(sine_spec(a) as int) >= 400_000 || magnitude(cosine_spec(a) as int)
            >= 400_000,
{
    let w = wrap_spec(a as int) as i64;
    lemma_wrap_idempotent(a as int);
    let x = fold_spec(w);
    let shifted = sat_add_spec(w, HALF_PI);
    let w2 = wrap_spec(shifted as int) as i64;
    lemma_wrap_idempotent(shifted as int);
    let y = fold_spec(w2);
    assert(-1_570_797 <= x <= 1_570_797);
    assert(-1_570_797 <= y <= 1_570_797);
    assert(magnitude(x as int) + magnitude(y as int) >= 1_570_796);
    lemma_sine_series_bounds(x);
    lemma_sine_series_bounds(y);
    assert(sine_spec(a) == clamp_spec(sine_series(x), (-ONE) as i64, ONE));
    assert(cosine_spec(a) == clamp_spec(sine_series(y), (-ONE) as i64, ONE));
    if magnitude(x as int) >= 785_398 {
        assert(magnitude(sine_series(x) as int) >= 400_000);
    } else {
        assert(magnitude(sine_series(y) as int) >= 400_000);
    }
}

} // verus!
