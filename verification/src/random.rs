//! Chance.
//!
//! Every random draw of the simulation comes from one generator, which
//! whoever drives the simulation may seed.  What is done with a draw is
//! decided by functions that take the draw as an argument.

use vstd::prelude::*;
use crate::fixed::{
    clamp, clamp_spec, isqrt, lemma_sqrt_floor_monotone, lemma_sqrt_floor_square, mul_div,
    mul_div_spec, sqrt_floor, trunc_div,
};
use crate::trig::PI;

verus! {

/// The largest magnitude of a bound that `gen_range` takes: up to here
/// every integer is a double-precision number, and so is the difference of
/// any two.
pub const RANDOM_LIMIT: i64 = 0x10_0000_0000_0000;

/// The largest number of steps of a ring's grid: its square is
/// `RANDOM_LIMIT`.
pub const ROOT_LIMIT: i64 = 0x400_0000;

/// A random integer between `low` and `high`.
///
/// Calls `macroquad::rand::gen_range`, which scales the next number of its
/// generator into the range in double precision and truncates the result.
/// Claimed of it: for bounds within `RANDOM_LIMIT`, where that arithmetic
/// is exact to the integer, the result is not below `low` and not above
/// `high`.  Nothing is claimed of which number it is.
#[verifier::external_body]
pub(crate) fn gen_range(low: i64, high: i64) -> (r: i64)
    requires
        low <= high,
        -RANDOM_LIMIT <= low,
        high <= RANDOM_LIMIT,
    ensures
        low <= r <= high,
{
    macroquad::rand::gen_range(low, high)
}

/// A random angle in `[-PI, PI]`.
pub fn random_angle() -> (r: i64)
    ensures
        -PI <= r <= PI,
{
    gen_range(-PI, PI)
}

/// The step of the grid of distances on which a ring that reaches out to
/// `max_distance` is drawn: one millionth for a ring within `ROOT_LIMIT`
/// millionths, and for a wider ring the least step of which `ROOT_LIMIT`
/// reach `max_distance`.
pub open spec fn ring_step_spec(max_distance: i64) -> i64 {
    if max_distance <= ROOT_LIMIT {
        1
    } else {
        ((max_distance + ROOT_LIMIT - 1) / (ROOT_LIMIT as int)) as i64
    }
}

/// The least number of steps that is not below `min_distance`; zero for a
/// negative distance, `ROOT_LIMIT` at most.
pub open spec fn ring_low_spec(min_distance: i64, max_distance: i64) -> i64 {
    let step = ring_step_spec(max_distance);
    if min_distance <= 0 {
        0
    } else if (min_distance + step - 1) / (step as int) >= ROOT_LIMIT {
        ROOT_LIMIT
    } else {
        ((min_distance + step - 1) / (step as int)) as i64
    }
}

/// The greatest number of steps that is not above `max_distance`, but not
/// below the least number of the ring; `ROOT_LIMIT` at most.
pub open spec fn ring_high_spec(min_distance: i64, max_distance: i64) -> i64 {
    let step = ring_step_spec(max_distance);
    let low = ring_low_spec(min_distance, max_distance);
    if max_distance / step <= low {
        low
    } else if max_distance / step >= ROOT_LIMIT {
        ROOT_LIMIT
    } else {
        (max_distance / step) as i64
    }
}

/// Whether `square` is a squared distance, in steps of the ring's grid,
/// that a draw for a distance between `min_distance` and `max_distance` can
/// give.
pub open spec fn is_square_draw(square: i64, min_distance: i64, max_distance: i64) -> bool {
    let low = ring_low_spec(min_distance, max_distance);
    let high = ring_high_spec(min_distance, max_distance);
    low * low <= square <= high * high
}

/// The distance on the ring's grid whose square is nearest below `square`,
/// kept between the bounds of the ring.
pub open spec fn distance_of_square_spec(square: i64, min_distance: i64, max_distance: i64)
    -> i64 {
    let root = if square <= 0 {
        0
    } else {
        sqrt_floor(square as nat) as i64
    };
    clamp_spec(mul_div_spec(root, ring_step_spec(max_distance), 1), min_distance, max_distance)
}

/// The step of the grid of distances of a ring.
#[verifier::when_used_as_spec(ring_step_spec)]
pub fn ring_step(max_distance: i64) -> (r: i64)
    ensures
        r == ring_step_spec(max_distance),
        r >= 1,
{
    if max_distance <= ROOT_LIMIT {
        1
    } else {
        let step: i128 = (max_distance as i128 + ROOT_LIMIT as i128 - 1) / (ROOT_LIMIT as i128);
        step as i64
    }
}

fn ring_low(min_distance: i64, max_distance: i64) -> (r: i64)
    ensures
        r == ring_low_spec(min_distance, max_distance),
        0 <= r <= ROOT_LIMIT,
{
    let step = ring_step(max_distance);
    if min_distance <= 0 {
        0
    } else {
        let up: i128 = (min_distance as i128 + step as i128 - 1) / (step as i128);
        if up >= ROOT_LIMIT as i128 {
            ROOT_LIMIT
        } else {
            up as i64
        }
    }
}

fn ring_high(min_distance: i64, max_distance: i64) -> (r: i64)
    ensures
        r == ring_high_spec(min_distance, max_distance),
        ring_low_spec(min_distance, max_distance) <= r <= ROOT_LIMIT,
{
    let step = ring_step(max_distance);
    let low = ring_low(min_distance, max_distance);
    if max_distance < 0 {
        proof {
            assert(max_distance / step <= 0) by (nonlinear_arith)
                requires
                    max_distance < 0,
                    step >= 1,
            ;
        }
        return low;
    }
    let down = max_distance / step;
    if down <= low {
        low
    } else if down >= ROOT_LIMIT {
        ROOT_LIMIT
    } else {
        down
    }
}

/// The distance that a drawn square stands for in a ring.
#[verifier::when_used_as_spec(distance_of_square_spec)]
pub fn distance_of_square(square: i64, min_distance: i64, max_distance: i64) -> (r: i64)
    ensures
        r == distance_of_square_spec(square, min_distance, max_distance),
{
    let root: i64 = if square <= 0 {
        0
    } else {
        let found = isqrt(square as u128);
        proof {
            // The root of a number below 2^64 is below 2^32.
            lemma_sqrt_floor_monotone(square as nat, (0x1_0000_0000 * 0x1_0000_0000) as nat);
            lemma_sqrt_floor_square(0x1_0000_0000);
        }
        found as i64
    };
    clamp(mul_div(root, ring_step(max_distance), 1), min_distance, max_distance)
}

/// A random square of a distance between `min_distance` and
/// `max_distance`, uniform over the squares, so that points placed at the
/// distances drawn cover a ring evenly.
pub fn random_square(min_distance: i64, max_distance: i64) -> (r: i64)
    ensures
        is_square_draw(r, min_distance, max_distance),
        0 <= r <= RANDOM_LIMIT,
{
    let low = ring_low(min_distance, max_distance);
    let high = ring_high(min_distance, max_distance);
    proof {
        assert(0 <= low * low <= high * high <= ROOT_LIMIT * ROOT_LIMIT) by (nonlinear_arith)
            requires
                0 <= low <= high <= ROOT_LIMIT,
        ;
    }
    gen_range(low * low, high * high)
}

/// The distance that a square stands for lies between the bounds of its
/// ring, whatever the ring and whatever the square.
pub proof fn lemma_drawn_distance_in_ring(square: i64, min_distance: i64, max_distance: i64)
    requires
        min_distance <= max_distance,
    ensures
        min_distance <= distance_of_square_spec(square, min_distance, max_distance)
            <= max_distance,
{
}

/// For a ring that holds a point of its grid, the distance that a drawn
/// square stands for is the root of the square, in steps, untouched by the
/// bounds: the squares drawn evenly give the distances as they are.
pub proof fn lemma_drawn_distance_on_grid(square: i64, min_distance: i64, max_distance: i64)
    requires
        is_square_draw(square, min_distance, max_distance),
        0 <= min_distance <= max_distance,
        ring_low_spec(min_distance, max_distance) * ring_step_spec(max_distance) <= max_distance,
    ensures
        distance_of_square_spec(square, min_distance, max_distance) == sqrt_floor(square as nat)
            * ring_step_spec(max_distance),
        ring_low_spec(min_distance, max_distance) <= sqrt_floor(square as nat) <= ring_high_spec(
            min_distance,
            max_distance,
        ),
{
    let step = ring_step_spec(max_distance) as int;
    let low = ring_low_spec(min_distance, max_distance) as int;
    let high = ring_high_spec(min_distance, max_distance) as int;
    let inner = min_distance as int;
    let outer = max_distance as int;
    lemma_ring_step_reaches(max_distance);
    // The least number of steps is not clamped, and reaches the inner bound.
    let up = (inner + step - 1) / step;
    assert(up * step >= inner && (up - 1) * step < inner) by (nonlinear_arith)
        requires
            up == (inner + step - 1) / step,
            step >= 1,
            inner >= 0,
    ;
    assert(up <= ROOT_LIMIT) by (nonlinear_arith)
        requires
            (up - 1) * step < inner,
            inner <= outer,
            outer <= step * ROOT_LIMIT,
            step >= 1,
    ;
    assert(low * step >= inner);
    // The greatest number of steps stays within the outer bound.
    let down = outer / step;
    assert(down * step <= outer && (down + 1) * step > outer) by (nonlinear_arith)
        requires
            down == outer / step,
            step >= 1,
            outer >= 0,
    ;
    assert(low <= down) by (nonlinear_arith)
        requires
            low * step <= outer,
            (down + 1) * step > outer,
            step >= 1,
    ;
    assert(high * step <= outer) by (nonlinear_arith)
        requires
            high <= down,
            down * step <= outer,
            step >= 1,
    ;
    assert(0 <= low * low) by (nonlinear_arith);
    assert(0 <= high * high) by (nonlinear_arith);
    lemma_sqrt_floor_square(low as nat);
    lemma_sqrt_floor_square(high as nat);
    let root = sqrt_floor(square as nat) as int;
    if square > 0 {
        lemma_sqrt_floor_monotone((low * low) as nat, square as nat);
        lemma_sqrt_floor_monotone(square as nat, (high * high) as nat);
    } else {
        assert(low == 0) by (nonlinear_arith)
            requires
                low * low <= 0,
                low >= 0,
        ;
    }
    assert(inner <= root * step <= outer) by (nonlinear_arith)
        requires
            low <= root <= high,
            low * step >= inner,
            high * step <= outer,
            step >= 1,
    ;
    let product = root * step;
    assert(product >= 0 && product / 1 == product);
    assert(trunc_div(product, 1) == product);
}

/// `ROOT_LIMIT` steps of a ring's grid reach its outer bound.
pub proof fn lemma_ring_step_reaches(max_distance: i64)
    ensures
        ring_step_spec(max_distance) >= 1,
        max_distance <= ring_step_spec(max_distance) * ROOT_LIMIT,
{
}

} // verus!
