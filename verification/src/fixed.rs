//! Fixed-point scalars.
//!
//! Every quantity of the simulation (lengths, speeds, seconds, radians) is an
//! `i64` that counts millionths of its unit.  Arithmetic saturates at
//! `±LIMIT`, truncates toward zero, and treats a division by zero as zero, so
//! every operation is total and no operation panics.  The one `i64` below
//! `-LIMIT` is taken as an argument like any other and never given as a
//! result.

use vstd::prelude::*;

verus! {

/// The representation of 1.0.
pub const ONE: i64 = 1_000_000;

/// The largest magnitude a scalar can take.
pub const LIMIT: i64 = 0x7fff_ffff_ffff_ffff;

/// `v` brought into `[-LIMIT, LIMIT]`.
pub open spec fn sat(v: int) -> i64 {
    if v >= LIMIT {
        LIMIT
    } else if v <= -LIMIT {
        (-LIMIT) as i64
    } else {
        v as i64
    }
}

/// The absolute value of an integer.
pub open spec fn magnitude(v: int) -> int {
    if v < 0 {
        -v
    } else {
        v
    }
}

/// The quotient `n / d` rounded toward zero; zero where `d` is zero.
pub open spec fn trunc_div(n: int, d: int) -> int {
    if d == 0 {
        0
    } else if (n >= 0) == (d > 0) {
        magnitude(n) / magnitude(d)
    } else {
        -(magnitude(n) / magnitude(d))
    }
}

/// `a * b / c`, computed without intermediate overflow, then saturated.
pub open spec fn mul_div_spec(a: i64, b: i64, c: i64) -> i64 {
    sat(trunc_div(a * b, c as int))
}

/// The fixed-point product of two scalars.
pub open spec fn fx_mul_spec(a: i64, b: i64) -> i64 {
    mul_div_spec(a, b, ONE)
}

/// The fixed-point quotient of two scalars; zero where `b` is zero.
pub open spec fn fx_div_spec(a: i64, b: i64) -> i64 {
    mul_div_spec(a, ONE, b)
}

/// The sum, saturated.
pub open spec fn sat_add_spec(a: i64, b: i64) -> i64 {
    sat(a + b)
}

/// The difference, saturated.
pub open spec fn sat_sub_spec(a: i64, b: i64) -> i64 {
    sat(a - b)
}

/// The negation, saturated.
pub open spec fn sat_neg_spec(a: i64) -> i64 {
    sat(-a)
}

/// The absolute value, saturated.
pub open spec fn sat_abs_spec(a: i64) -> i64 {
    sat(magnitude(a as int))
}

/// `v` brought into `[lo, hi]`; `lo` where the interval is empty.
pub open spec fn clamp_spec(v: i64, lo: i64, hi: i64) -> i64 {
    if v < lo || hi < lo {
        lo
    } else if v > hi {
        hi
    } else {
        v
    }
}

/// Saturating sum.
#[verifier::when_used_as_spec(sat_add_spec)]
pub fn sat_add(a: i64, b: i64) -> (r: i64)
    ensures
        r == sat_add_spec(a, b),
{
    let wide: i128 = a as i128 + b as i128;
    saturate(wide)
}

/// Saturating difference.
#[verifier::when_used_as_spec(sat_sub_spec)]
pub fn sat_sub(a: i64, b: i64) -> (r: i64)
    ensures
        r == sat_sub_spec(a, b),
{
    let wide: i128 = a as i128 - b as i128;
    saturate(wide)
}

/// Saturating negation.
#[verifier::when_used_as_spec(sat_neg_spec)]
pub fn sat_neg(a: i64) -> (r: i64)
    ensures
        r == sat_neg_spec(a),
{
    let wide: i128 = -(a as i128);
    saturate(wide)
}

/// Saturating absolute value.
#[verifier::when_used_as_spec(sat_abs_spec)]
pub fn sat_abs(a: i64) -> (r: i64)
    ensures
        r == sat_abs_spec(a),
        r >= 0,
{
    if a < 0 {
        sat_neg(a)
    } else {
        a
    }
}

/// Brings a wide intermediate back into the scalar range.
pub fn saturate(wide: i128) -> (r: i64)
    ensures
        r == sat(wide as int),
{
    if wide >= LIMIT as i128 {
        LIMIT
    } else if wide <= -(LIMIT as i128) {
        -LIMIT
    } else {
        wide as i64
    }
}

/// `v` brought into `[lo, hi]`.
#[verifier::when_used_as_spec(clamp_spec)]
pub fn clamp(v: i64, lo: i64, hi: i64) -> (r: i64)
    ensures
        r == clamp_spec(v, lo, hi),
{
    if v < lo || hi < lo {
        lo
    } else if v > hi {
        hi
    } else {
        v
    }
}

/// The magnitude of a scalar as an unsigned wide integer.
fn wide_magnitude(a: i64) -> (r: u128)
    ensures
        r == magnitude(a as int),
        r <= 0x8000_0000_0000_0000,
{
    if a < 0 {
        (-(a as i128)) as u128
    } else {
        a as u128
    }
}

proof fn lemma_product_magnitude(a: int, b: int)
    ensures
        magnitude(a * b) == magnitude(a) * magnitude(b),
        (a * b >= 0) == (a == 0 || b == 0 || ((a > 0) == (b > 0))),
{
    assert(magnitude(a * b) == magnitude(a) * magnitude(b)) by (nonlinear_arith);
    assert((a * b >= 0) == (a == 0 || b == 0 || ((a > 0) == (b > 0)))) by (nonlinear_arith);
}

proof fn lemma_product_bound(a: int, b: int, ma: int, mb: int)
    requires
        0 <= a <= ma,
        0 <= b <= mb,
    ensures
        0 <= a * b <= ma * mb,
{
    assert(0 <= a * b <= ma * mb) by (nonlinear_arith)
        requires
            0 <= a <= ma,
            0 <= b <= mb,
    ;
}

/// `a * b / c` rounded toward zero and saturated; zero where `c` is zero.
#[verifier::when_used_as_spec(mul_div_spec)]
pub fn mul_div(a: i64, b: i64, c: i64) -> (r: i64)
    ensures
        r == mul_div_spec(a, b, c),
{
    if c == 0 {
        return 0;
    }
    let ua = wide_magnitude(a);
    let ub = wide_magnitude(b);
    let uc = wide_magnitude(c);
    proof {
        lemma_product_bound(ua as int, ub as int, 0x8000_0000_0000_0000, 0x8000_0000_0000_0000);
        lemma_product_magnitude(a as int, b as int);
    }
    let product: u128 = ua * ub;
    let quotient: u128 = product / uc;
    let non_negative = (a == 0 || b == 0 || ((a > 0) == (b > 0))) == (c > 0);
    if quotient >= LIMIT as u128 {
        if non_negative {
            LIMIT
        } else {
            -LIMIT
        }
    } else if non_negative {
        quotient as i64
    } else {
        -(quotient as i64)
    }
}

/// Fixed-point product.
#[verifier::when_used_as_spec(fx_mul_spec)]
pub fn fx_mul(a: i64, b: i64) -> (r: i64)
    ensures
        r == fx_mul_spec(a, b),
{
    mul_div(a, b, ONE)
}

/// Fixed-point quotient; zero where the divisor is zero.
#[verifier::when_used_as_spec(fx_div_spec)]
pub fn fx_div(a: i64, b: i64) -> (r: i64)
    ensures
        r == fx_div_spec(a, b),
{
    mul_div(a, ONE, b)
}

/// The integer square root: the largest `r` with `r * r <= n`.
pub open spec fn sqrt_floor(n: nat) -> nat
    decreases n,
{
    if n == 0 {
        0
    } else {
        let below = sqrt_floor((n - 1) as nat);
        if (below + 1) * (below + 1) <= n {
            below + 1
        } else {
            below
        }
    }
}

/// `sqrt_floor(n)` is the root rounded down.
pub proof fn lemma_sqrt_floor_bounds(n: nat)
    ensures
        sqrt_floor(n) * sqrt_floor(n) <= n < (sqrt_floor(n) + 1) * (sqrt_floor(n) + 1),
    decreases n,
{
    if n > 0 {
        lemma_sqrt_floor_bounds((n - 1) as nat);
        let below = sqrt_floor((n - 1) as nat);
        let next = below + 1;
        if next * next <= n {
            assert(sqrt_floor(n) == next);
            assert(next * next < (next + 1) * (next + 1)) by (nonlinear_arith);
        } else {
            assert(sqrt_floor(n) == below);
        }
    } else {
        assert(sqrt_floor(n) == 0);
        assert(0nat * 0nat == 0 && (0nat + 1) * (0nat + 1) == 1) by (nonlinear_arith);
    }
}

/// Only one number lies within one of the root from below.
pub proof fn lemma_sqrt_floor_unique(n: nat, r: nat)
    requires
        r * r <= n < (r + 1) * (r + 1),
    ensures
        r == sqrt_floor(n),
{
    lemma_sqrt_floor_bounds(n);
    let s = sqrt_floor(n);
    if r < s {
        assert((r + 1) * (r + 1) <= s * s) by (nonlinear_arith)
            requires
                r + 1 <= s,
        ;
    }
    if s < r {
        assert((s + 1) * (s + 1) <= r * r) by (nonlinear_arith)
            requires
                s + 1 <= r,
        ;
    }
}

/// The root is monotone.
pub proof fn lemma_sqrt_floor_monotone(a: nat, b: nat)
    requires
        a <= b,
    ensures
        sqrt_floor(a) <= sqrt_floor(b),
{
    lemma_sqrt_floor_bounds(a);
    lemma_sqrt_floor_bounds(b);
    let r = sqrt_floor(a);
    let s = sqrt_floor(b);
    if s < r {
        assert((s + 1) * (s + 1) <= r * r) by (nonlinear_arith)
            requires
                s + 1 <= r,
        ;
    }
}

/// The root of a perfect square.
pub proof fn lemma_sqrt_floor_square(r: nat)
    ensures
        sqrt_floor(r * r) == r,
{
    assert(r * r < (r + 1) * (r + 1)) by (nonlinear_arith);
    lemma_sqrt_floor_unique(r * r, r);
}

/// Integer square root, rounded down.
pub fn isqrt(n: u128) -> (r: u64)
    ensures
        r == sqrt_floor(n as nat),
        r * r <= n < (r + 1) * (r + 1),
{
    let mut lo: u128 = 0;
    let mut hi: u128 = 0x1_0000_0000_0000_0000;
    assert(0x1_0000_0000_0000_0000int * 0x1_0000_0000_0000_0000int
        == 0x1_0000_0000_0000_0000_0000_0000_0000_0000int) by (nonlinear_arith);
    while hi - lo > 1
        invariant
            lo < hi <= 0x1_0000_0000_0000_0000,
            lo * lo <= n < hi * hi,
        decreases hi - lo,
    {
        let mid: u128 = lo + (hi - lo) / 2;
        assert(mid * mid <= 0xffff_ffff_ffff_ffffint * 0xffff_ffff_ffff_ffffint) by (nonlinear_arith)
            requires
                0 <= mid <= 0xffff_ffff_ffff_ffff,
        ;
        assert(0xffff_ffff_ffff_ffffint * 0xffff_ffff_ffff_ffffint
            < 0x1_0000_0000_0000_0000_0000_0000_0000_0000int) by (nonlinear_arith);
        if mid * mid <= n {
            lo = mid;
        } else {
            hi = mid;
        }
    }
    proof {
        lemma_sqrt_floor_unique(n as nat, lo as nat);
    }
    lo as u64
}

/// The representation of 1.0 in the finer scale in which `fx_pow` works.
pub const FINE: i64 = 1_000_000_000_000;

/// Half of what `ONE` is in the finer scale, for rounding.
pub const HALF_FINE_STEP: i64 = 500_000;

/// How many binary digits of the exponent's fraction `fx_pow` follows.
pub const FRACTION_STEPS: u32 = 40;

/// The product of two scalars of the finer scale.
pub open spec fn fine_mul_spec(a: i64, b: i64) -> i64 {
    mul_div_spec(a, b, FINE)
}

/// The square root of a scalar of the finer scale, rounded down; zero for
/// a negative scalar.
pub open spec fn fine_sqrt_spec(a: i64) -> i64 {
    if a <= 0 {
        0
    } else {
        sqrt_floor((a * FINE) as nat) as i64
    }
}

/// Square-and-multiply over the whole part `n` of an exponent, in the finer
/// scale.
pub open spec fn power_whole(acc: i64, base: i64, n: nat) -> i64
    decreases n,
{
    if n == 0 {
        acc
    } else {
        power_whole(
            if n % 2 == 1 {
                fine_mul_spec(acc, base)
            } else {
                acc
            },
            fine_mul_spec(base, base),
            n / 2,
        )
    }
}

/// Root-and-multiply over the binary digits of an exponent's fraction
/// `frac / ONE`, most significant first, in the finer scale.
pub open spec fn power_fraction(acc: i64, root: i64, frac: int, steps: nat) -> i64
    decreases steps,
{
    if steps == 0 {
        acc
    } else {
        let next = fine_sqrt_spec(root);
        if 2 * frac >= ONE {
            power_fraction(fine_mul_spec(acc, next), next, 2 * frac - ONE, (steps - 1) as nat)
        } else {
            power_fraction(acc, next, 2 * frac, (steps - 1) as nat)
        }
    }
}

/// `base` raised to `exponent`, for a base in `[0, 1]`, rounded to the
/// nearest millionth.  A base outside `[0, 1]` is clamped into it; an
/// exponent that is not positive gives 1.
pub open spec fn fx_pow_spec(base: i64, exponent: i64) -> i64 {
    let b = clamp_spec(base, 0, ONE);
    if exponent <= 0 || b == ONE {
        ONE
    } else {
        let whole = power_whole(FINE, (b * ONE) as i64, (exponent / ONE) as nat);
        let fine = power_fraction(
            whole,
            (b * ONE) as i64,
            (exponent % ONE) as int,
            FRACTION_STEPS as nat,
        );
        clamp_spec(mul_div_spec(sat_add_spec(fine, HALF_FINE_STEP), 1, ONE), 0, ONE)
    }
}

/// The product of two scalars of the finer scale.
#[verifier::when_used_as_spec(fine_mul_spec)]
pub fn fine_mul(a: i64, b: i64) -> (r: i64)
    ensures
        r == fine_mul_spec(a, b),
{
    mul_div(a, b, FINE)
}

/// The square root of a scalar of the finer scale, rounded down.
#[verifier::when_used_as_spec(fine_sqrt_spec)]
pub fn fine_sqrt(a: i64) -> (r: i64)
    ensures
        r == fine_sqrt_spec(a),
        0 <= r,
{
    if a <= 0 {
        return 0;
    }
    let wide: u128 = a as u128 * 1_000_000_000_000;
    let root = isqrt(wide);
    proof {
        // The root of a number below 2^104 is below 2^52.
        if root >= 0x10_0000_0000_0000 {
            assert(root * root >= 0x10_0000_0000_0000int * 0x10_0000_0000_0000int)
                by (nonlinear_arith)
                requires
                    root >= 0x10_0000_0000_0000,
            ;
        }
    }
    root as i64
}

/// `base` raised to `exponent`, for a base in `[0, 1]`.
#[verifier::when_used_as_spec(fx_pow_spec)]
pub fn fx_pow(base: i64, exponent: i64) -> (r: i64)
    ensures
        r == fx_pow_spec(base, exponent),
        0 <= r <= ONE,
{
    let b = clamp(base, 0, ONE);
    if exponent <= 0 || b == ONE {
        return ONE;
    }
    let fine_base: i64 = b * 1_000_000;
    let mut n: i64 = exponent / ONE;
    let mut acc: i64 = FINE;
    let mut square: i64 = fine_base;
    while n > 0
        invariant
            0 <= n,
            power_whole(acc, square, n as nat) == power_whole(
                FINE,
                fine_base,
                (exponent / ONE) as nat,
            ),
        decreases n,
    {
        if n % 2 == 1 {
            acc = fine_mul(acc, square);
        }
        square = fine_mul(square, square);
        n = n / 2;
    }
    let ghost whole = acc;
    let mut frac: i64 = exponent % ONE;
    let mut root: i64 = fine_base;
    let mut step: u32 = 0;
    while step < FRACTION_STEPS
        invariant
            step <= FRACTION_STEPS,
            0 <= frac < ONE,
            power_fraction(acc, root, frac as int, (FRACTION_STEPS - step) as nat)
                == power_fraction(
                whole,
                fine_base,
                (exponent % ONE) as int,
                FRACTION_STEPS as nat,
            ),
        decreases FRACTION_STEPS - step,
    {
        root = fine_sqrt(root);
        frac = 2 * frac;
        if frac >= ONE {
            frac = frac - ONE;
            acc = fine_mul(acc, root);
        }
        step = step + 1;
    }
    clamp(mul_div(sat_add(acc, HALF_FINE_STEP), 1, ONE), 0, ONE)
}

/// A product, in the finer scale, with a factor of at most one does not
/// exceed the other factor; a product with one is the other factor.
pub proof fn lemma_fine_mul_shrinks(a: i64, b: i64)
    requires
        0 <= a,
        0 <= b <= FINE,
    ensures
        0 <= fine_mul_spec(a, b) <= a,
        b == FINE ==> fine_mul_spec(a, b) == a,
        a == FINE ==> fine_mul_spec(a, b) == b,
{
    let p = a * b;
    assert(0 <= p <= a * 1_000_000_000_000) by (nonlinear_arith)
        requires
            p == a * b,
            0 <= a,
            0 <= b <= 1_000_000_000_000,
    ;
    let q = p / 1_000_000_000_000;
    assert(0 <= q <= a) by (nonlinear_arith)
        requires
            q == p / 1_000_000_000_000,
            0 <= p <= a * 1_000_000_000_000,
    ;
    assert(magnitude(FINE as int) == 1_000_000_000_000);
    assert(trunc_div(p, FINE as int) == q);
    if b == FINE {
        assert((a * 1_000_000_000_000) / 1_000_000_000_000 == a) by (nonlinear_arith);
    }
    if a == FINE {
        assert((1_000_000_000_000 * b) / 1_000_000_000_000 == b) by (nonlinear_arith);
    }
}

/// The square root, in the finer scale, of a scalar of at most one is at
/// most one.
pub proof fn lemma_fine_sqrt_bound(a: i64)
    requires
        0 <= a <= FINE,
    ensures
        0 <= fine_sqrt_spec(a) <= FINE,
{
    if a > 0 {
        assert(0 <= a * FINE <= 1_000_000_000_000 * 1_000_000_000_000) by (nonlinear_arith)
            requires
                0 <= a <= 1_000_000_000_000,
        ;
        lemma_sqrt_floor_monotone((a * FINE) as nat, 1_000_000_000_000 * 1_000_000_000_000);
        lemma_sqrt_floor_square(1_000_000_000_000);
    }
}

/// Squaring and multiplying by a base of at most one never raises what
/// has been gathered.
pub proof fn lemma_power_whole_shrinks(acc: i64, base: i64, n: nat)
    requires
        0 <= acc,
        0 <= base <= FINE,
    ensures
        0 <= power_whole(acc, base, n) <= acc,
    decreases n,
{
    if n > 0 {
        lemma_fine_mul_shrinks(acc, base);
        lemma_fine_mul_shrinks(base, base);
        let next = if n % 2 == 1 {
            fine_mul_spec(acc, base)
        } else {
            acc
        };
        lemma_power_whole_shrinks(next, fine_mul_spec(base, base), n / 2);
    }
}

/// A whole power, of one or more, of a base of at most one is at most the
/// base.
pub proof fn lemma_power_whole_below_base(base: i64, n: nat)
    requires
        0 <= base <= FINE,
        n >= 1,
    ensures
        0 <= power_whole(FINE, base, n) <= base,
    decreases n,
{
    lemma_fine_mul_shrinks(FINE, base);
    lemma_fine_mul_shrinks(base, base);
    let square = fine_mul_spec(base, base);
    if n % 2 == 1 {
        lemma_power_whole_shrinks(fine_mul_spec(FINE, base), square, n / 2);
    } else {
        lemma_power_whole_below_base(square, n / 2);
    }
}

/// Taking roots and multiplying by them never raises what has been
/// gathered.
pub proof fn lemma_power_fraction_shrinks(acc: i64, root: i64, frac: int, steps: nat)
    requires
        0 <= acc,
        0 <= root <= FINE,
    ensures
        0 <= power_fraction(acc, root, frac, steps) <= acc,
    decreases steps,
{
    if steps > 0 {
        let next = fine_sqrt_spec(root);
        lemma_fine_sqrt_bound(root);
        lemma_fine_mul_shrinks(acc, next);
        if 2 * frac >= ONE {
            lemma_power_fraction_shrinks(
                fine_mul_spec(acc, next),
                next,
                2 * frac - ONE,
                (steps - 1) as nat,
            );
        } else {
            lemma_power_fraction_shrinks(acc, next, 2 * frac, (steps - 1) as nat);
        }
    }
}

/// Over a whole second or more, the power of a base in `[0, 1]` is at most
/// the base.
pub proof fn lemma_pow_at_most_base(base: i64, exponent: i64)
    requires
        0 <= base <= ONE,
        exponent >= ONE,
    ensures
        0 <= fx_pow_spec(base, exponent) <= base,
{
    if base < ONE {
        let fine_base = (base * ONE) as i64;
        assert(0 <= base * ONE <= 1_000_000_000_000 && base * ONE + 500_000 < (base + 1) * ONE);
        let n = (exponent / ONE) as nat;
        assert(n >= 1);
        lemma_power_whole_below_base(fine_base, n);
        let whole = power_whole(FINE, fine_base, n);
        lemma_power_fraction_shrinks(
            whole,
            fine_base,
            (exponent % ONE) as int,
            FRACTION_STEPS as nat,
        );
        let fine = power_fraction(
            whole,
            fine_base,
            (exponent % ONE) as int,
            FRACTION_STEPS as nat,
        );
        let rounded = sat_add_spec(fine, HALF_FINE_STEP);
        assert(rounded == fine + 500_000);
        assert(0 <= (fine + 500_000) / 1_000_000 <= base);
        assert(magnitude(ONE as int) == 1_000_000);
        assert((fine + 500_000) * 1 == fine + 500_000);
        assert(trunc_div((rounded * 1) as int, ONE as int) == (fine + 500_000) / 1_000_000);
    }
}

} // verus!
