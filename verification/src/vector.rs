//! Plane vectors with fixed-point components.

use vstd::prelude::*;
use crate::fixed::{
    isqrt, lemma_sqrt_floor_bounds, lemma_sqrt_floor_monotone, lemma_sqrt_floor_square, magnitude,
    mul_div, mul_div_spec, sat, sat_add, sat_add_spec,
    sat_sub, sat_sub_spec, sqrt_floor, trunc_div, LIMIT, ONE,
};
use crate::trig::{cosine, cosine_spec, lemma_sine_or_cosine_large, sine, sine_spec};

verus! {

/// A point or a displacement of the plane.
#[derive(Debug, Clone, Copy, PartialEq, Eq, Structural)]
pub struct Vec2 {
    pub x: i64,
    pub y: i64,
}

/// The exact square of the distance between two points.
pub open spec fn distance_squared(a: Vec2, b: Vec2) -> int {
    (a.x - b.x) * (a.x - b.x) + (a.y - b.y) * (a.y - b.y)
}

/// Whether two points lie no further apart than `reach`, exactly.
pub open spec fn within_reach_spec(a: Vec2, b: Vec2, reach: int) -> bool {
    reach >= 0 && distance_squared(a, b) <= reach * reach
}

proof fn lemma_square_bound(v: int, bound: int)
    requires
        0 <= v <= bound,
    ensures
        0 <= v * v <= bound * bound,
{
    assert(0 <= v * v <= bound * bound) by (nonlinear_arith)
        requires
            0 <= v <= bound,
    ;
}

/// The distance between two coordinates, without saturation.
fn gap(a: i64, b: i64) -> (r: u128)
    ensures
        r == magnitude(a - b),
        r <= 0xffff_ffff_ffff_ffff,
{
    let d: i128 = a as i128 - b as i128;
    if d < 0 {
        (-d) as u128
    } else {
        d as u128
    }
}

/// Whether two points lie no further apart than `reach`.  The comparison is
/// made on exact squares, so no rounding enters it.
pub fn within_reach(a: Vec2, b: Vec2, reach: i128) -> (r: bool)
    requires
        reach <= 0xffff_ffff_ffff_ffff,
    ensures
        r == within_reach_spec(a, b, reach as int),
{
    if reach < 0 {
        return false;
    }
    let dx = gap(a.x, b.x);
    let dy = gap(a.y, b.y);
    let limit = reach as u128;
    proof {
        lemma_square_bound(dx as int, 0xffff_ffff_ffff_ffff);
        lemma_square_bound(dy as int, 0xffff_ffff_ffff_ffff);
        lemma_square_bound(limit as int, 0xffff_ffff_ffff_ffff);
        assert(0xffff_ffff_ffff_ffffint * 0xffff_ffff_ffff_ffffint
            < 0x1_0000_0000_0000_0000_0000_0000_0000_0000int) by (nonlinear_arith);
        assert(dx * dx == (a.x - b.x) * (a.x - b.x)) by (nonlinear_arith)
            requires
                dx == magnitude(a.x - b.x),
        ;
        assert(dy * dy == (a.y - b.y) * (a.y - b.y)) by (nonlinear_arith)
            requires
                dy == magnitude(a.y - b.y),
        ;
    }
    let dx2: u128 = dx * dx;
    let dy2: u128 = dy * dy;
    let limit2: u128 = limit * limit;
    limit2 >= dx2 && limit2 - dx2 >= dy2
}

impl Vec2 {
    /// The origin.
    pub open spec fn zero_spec() -> Vec2 {
        Vec2 { x: 0, y: 0 }
    }

    /// The componentwise sum, saturated.
    pub open spec fn plus_spec(self, other: Vec2) -> Vec2 {
        Vec2 { x: sat_add_spec(self.x, other.x), y: sat_add_spec(self.y, other.y) }
    }

    /// The componentwise difference, saturated.
    pub open spec fn minus_spec(self, other: Vec2) -> Vec2 {
        Vec2 { x: sat_sub_spec(self.x, other.x), y: sat_sub_spec(self.y, other.y) }
    }

    /// Each component times `factor / divisor`.
    pub open spec fn scale_ratio_spec(self, factor: i64, divisor: i64) -> Vec2 {
        Vec2 { x: mul_div_spec(self.x, factor, divisor), y: mul_div_spec(self.y, factor, divisor) }
    }

    /// Each component times the scalar `factor`.
    pub open spec fn scale_spec(self, factor: i64) -> Vec2 {
        self.scale_ratio_spec(factor, ONE)
    }

    /// The fixed-point inner product.
    pub open spec fn dot_spec(self, other: Vec2) -> i64 {
        sat(trunc_div(self.x * other.x + self.y * other.y, ONE as int))
    }

    /// The sum of the squares of the components, exactly.
    pub open spec fn length_squared(self) -> int {
        self.x * self.x + self.y * self.y
    }

    /// The Euclidean length, rounded down.
    pub open spec fn length_spec(self) -> i64 {
        sat(sqrt_floor(self.length_squared() as nat) as int)
    }

    /// The length of the saturated difference.
    pub open spec fn distance_spec(self, other: Vec2) -> i64 {
        self.minus_spec(other).length_spec()
    }

    /// The vector of length one in the same direction; zero for a vector
    /// whose length rounds to zero.
    pub open spec fn normalize_spec(self) -> Vec2 {
        self.scale_ratio_spec(ONE, self.length_spec())
    }

    /// The unit vector at `angle`: the cosine and the sine, brought to
    /// length one.
    pub open spec fn from_angle_spec(angle: i64) -> Vec2 {
        (Vec2 { x: cosine_spec(angle), y: sine_spec(angle) }).normalize_spec()
    }

    /// The point at whole coordinates.
    pub open spec fn from_units_spec(x: int, y: int) -> Vec2 {
        Vec2 { x: (x * ONE) as i64, y: (y * ONE) as i64 }
    }

    /// The point at whole coordinates.
    pub fn from_units(x: i32, y: i32) -> (r: Vec2)
        ensures
            r == Vec2::from_units_spec(x as int, y as int),
    {
        Vec2 { x: (x as i64) * 1_000_000, y: (y as i64) * 1_000_000 }
    }

    /// The point at the given coordinates, in millionths.
    pub fn new(x: i64, y: i64) -> (r: Vec2)
        ensures
            r == (Vec2 { x, y }),
    {
        Vec2 { x, y }
    }

    /// The origin.
    #[verifier::when_used_as_spec(zero_spec)]
    pub fn zero() -> (r: Vec2)
        ensures
            r == Vec2::zero_spec(),
    {
        Vec2 { x: 0, y: 0 }
    }

    /// Componentwise saturating sum.
    #[verifier::when_used_as_spec(plus_spec)]
    pub fn plus(self, other: Vec2) -> (r: Vec2)
        ensures
            r == self.plus_spec(other),
    {
        Vec2 { x: sat_add(self.x, other.x), y: sat_add(self.y, other.y) }
    }

    /// Componentwise saturating difference.
    #[verifier::when_used_as_spec(minus_spec)]
    pub fn minus(self, other: Vec2) -> (r: Vec2)
        ensures
            r == self.minus_spec(other),
    {
        Vec2 { x: sat_sub(self.x, other.x), y: sat_sub(self.y, other.y) }
    }

    /// Scales by the ratio `factor / divisor`; by zero where `divisor` is
    /// zero.
    #[verifier::when_used_as_spec(scale_ratio_spec)]
    pub fn scale_ratio(self, factor: i64, divisor: i64) -> (r: Vec2)
        ensures
            r == self.scale_ratio_spec(factor, divisor),
    {
        Vec2 { x: mul_div(self.x, factor, divisor), y: mul_div(self.y, factor, divisor) }
    }

    /// Scales by a fixed-point factor.
    #[verifier::when_used_as_spec(scale_spec)]
    pub fn scale(self, factor: i64) -> (r: Vec2)
        ensures
            r == self.scale_spec(factor),
    {
        self.scale_ratio(factor, ONE)
    }

    /// The fixed-point inner product.
    #[verifier::when_used_as_spec(dot_spec)]
    pub fn dot(self, other: Vec2) -> (r: i64)
        ensures
            r == self.dot_spec(other),
    {
        let (first, first_negative) = signed_product(self.x, other.x);
        let (second, second_negative) = signed_product(self.y, other.y);
        let (sum, negative) = if first_negative == second_negative {
            (first + second, first_negative)
        } else if first >= second {
            (first - second, first_negative)
        } else {
            (second - first, second_negative)
        };
        let quotient: u128 = sum / 1_000_000;
        if quotient >= LIMIT as u128 {
            if negative {
                -LIMIT
            } else {
                LIMIT
            }
        } else if negative {
            -(quotient as i64)
        } else {
            quotient as i64
        }
    }

    /// The Euclidean length, rounded down.
    #[verifier::when_used_as_spec(length_spec)]
    pub fn length(self) -> (r: i64)
        ensures
            r == self.length_spec(),
            r >= 0,
    {
        let (x2, _) = signed_product(self.x, self.x);
        let (y2, _) = signed_product(self.y, self.y);
        assert(x2 == self.x * self.x && y2 == self.y * self.y) by (nonlinear_arith)
            requires
                x2 == magnitude(self.x * self.x),
                y2 == magnitude(self.y * self.y),
        ;
        let root = isqrt(x2 + y2);
        if root >= LIMIT as u64 {
            LIMIT
        } else {
            root as i64
        }
    }

    /// The distance to another point.
    #[verifier::when_used_as_spec(distance_spec)]
    pub fn distance(self, other: Vec2) -> (r: i64)
        ensures
            r == self.distance_spec(other),
            r >= 0,
    {
        self.minus(other).length()
    }

    /// The unit vector in the same direction.
    #[verifier::when_used_as_spec(normalize_spec)]
    pub fn normalize(self) -> (r: Vec2)
        ensures
            r == self.normalize_spec(),
    {
        let length = self.length();
        self.scale_ratio(ONE, length)
    }

    /// The unit vector at `angle`.
    #[verifier::when_used_as_spec(from_angle_spec)]
    pub fn from_angle(angle: i64) -> (r: Vec2)
        ensures
            r == Vec2::from_angle_spec(angle),
    {
        let raw = Vec2 { x: cosine(angle), y: sine(angle) };
        raw.normalize()
    }
}

/// The magnitude of a product, and whether the product is negative.
fn signed_product(a: i64, b: i64) -> (r: (u128, bool))
    ensures
        r.0 == magnitude(a * b),
        r.1 == (a * b < 0),
        r.0 <= 0x4000_0000_0000_0000_0000_0000_0000_0000,
{
    let ua: u128 = if a < 0 {
        (-(a as i128)) as u128
    } else {
        a as u128
    };
    let ub: u128 = if b < 0 {
        (-(b as i128)) as u128
    } else {
        b as u128
    };
    proof {
        assert(0 <= ua * ub <= 0x8000_0000_0000_0000int * 0x8000_0000_0000_0000int)
            by (nonlinear_arith)
            requires
                0 <= ua <= 0x8000_0000_0000_0000,
                0 <= ub <= 0x8000_0000_0000_0000,
        ;
        assert(0x8000_0000_0000_0000int * 0x8000_0000_0000_0000int
            == 0x4000_0000_0000_0000_0000_0000_0000_0000int) by (nonlinear_arith);
        assert(magnitude(a * b) == ua * ub && (a * b < 0) == (a != 0 && b != 0 && ((a < 0) != (b
            < 0)))) by (nonlinear_arith)
            requires
                ua == magnitude(a as int),
                ub == magnitude(b as int),
        ;
    }
    (ua * ub, a != 0 && b != 0 && ((a < 0) != (b < 0)))
}

/// A vector whose components are at most one, and one of them at least
/// 0.4, is brought by `normalize` to a length within a few millionths of
/// one: the square of its length is within six millionths of one, and its
/// components have the signs they had.
pub proof fn lemma_normalized_length(v: Vec2)
    requires
        -ONE <= v.x <= ONE,
        -ONE <= v.y <= ONE,
        magnitude(v.x as int) >= 400_000 || magnitude(v.y as int) >= 400_000,
    ensures
        ONE * ONE - 5 * ONE <= v.normalize_spec().length_squared() <= ONE * ONE + 6 * ONE,
        magnitude(v.normalize_spec().x as int) <= ONE + 3,
        magnitude(v.normalize_spec().y as int) <= ONE + 3,
        v.x >= 0 ==> v.normalize_spec().x >= 0,
        v.x <= 0 ==> v.normalize_spec().x <= 0,
        v.y >= 0 ==> v.normalize_spec().y >= 0,
        v.y <= 0 ==> v.normalize_spec().y <= 0,
{
    let a = magnitude(v.x as int);
    let b = magnitude(v.y as int);
    let n = v.length_squared();
    assert(n == a * a + b * b && a * a >= 0 && b * b >= 0 && a * a <= 1_000_000_000_000 && b * b
        <= 1_000_000_000_000) by (nonlinear_arith)
        requires
            n == v.x * v.x + v.y * v.y,
            a == magnitude(v.x as int),
            b == magnitude(v.y as int),
            a <= 1_000_000,
            b <= 1_000_000,
    ;
    assert(n >= 160_000_000_000) by (nonlinear_arith)
        requires
            n == a * a + b * b,
            a >= 0,
            b >= 0,
            a >= 400_000 || b >= 400_000,
    ;
    let l = sqrt_floor(n as nat) as int;
    lemma_sqrt_floor_bounds(n as nat);
    lemma_sqrt_floor_square(400_000);
    lemma_sqrt_floor_monotone(160_000_000_000, n as nat);
    lemma_sqrt_floor_square(1_414_214);
    lemma_sqrt_floor_monotone(n as nat, 1_414_214 * 1_414_214);
    assert(400_000 <= l <= 1_414_214);
    assert(v.length_spec() == l);
    let pa = (a * 1_000_000) / l;
    let pb = (b * 1_000_000) / l;
    lemma_ratio(a, l, pa);
    lemma_ratio(b, l, pb);
    let s = pa * pa + pb * pb;
    // Above: s * l^2 <= n * 10^12 < (l + 1)^2 * 10^12.
    assert(s * (l * l) <= n * 1_000_000_000_000) by (nonlinear_arith)
        requires
            s == pa * pa + pb * pb,
            n == a * a + b * b,
            0 <= pa * l <= a * 1_000_000,
            0 <= pb * l <= b * 1_000_000,
    ;
    assert(6_000_000 * (l * l) > 2_000_000_000_000 * l + 1_000_000_000_000) by (nonlinear_arith)
        requires
            l >= 400_000,
    ;
    assert(n * 1_000_000_000_000 < (l * l) * 1_000_000_000_000 + 2_000_000_000_000 * l
        + 1_000_000_000_000) by (nonlinear_arith)
        requires
            n < (l + 1) * (l + 1),
    ;
    assert(s <= 1_000_006_000_000) by (nonlinear_arith)
        requires
            s * (l * l) < 1_000_006_000_000 * (l * l),
            l * l > 0,
    ;
    assert(pa <= 1_000_003 && pb <= 1_000_003) by (nonlinear_arith)
        requires
            s == pa * pa + pb * pb,
            s <= 1_000_006_000_000,
            pa >= 0,
            pb >= 0,
    ;
    // Below: n * 10^12 < ((pa + 1)^2 + (pb + 1)^2) * l^2, and l^2 <= n.
    let t = (pa + 1) * (pa + 1) + (pb + 1) * (pb + 1);
    assert(n * 1_000_000_000_000 < t * (l * l)) by (nonlinear_arith)
        requires
            t == (pa + 1) * (pa + 1) + (pb + 1) * (pb + 1),
            n == a * a + b * b,
            0 <= a * 1_000_000 < (pa + 1) * l,
            0 <= b * 1_000_000 < (pb + 1) * l,
    ;
    assert(t > 1_000_000_000_000) by (nonlinear_arith)
        requires
            (l * l) * 1_000_000_000_000 <= n * 1_000_000_000_000,
            n * 1_000_000_000_000 < t * (l * l),
            l * l > 0,
    ;
    assert(t == s + 2 * (pa + pb) + 2) by (nonlinear_arith)
        requires
            t == (pa + 1) * (pa + 1) + (pb + 1) * (pb + 1),
            s == pa * pa + pb * pb,
    ;
    assert(s >= 999_995_000_000);
    // The components of the normalized vector are pa and pb with the signs of v.
    let ux = v.normalize_spec().x;
    let uy = v.normalize_spec().y;
    lemma_signed_ratio(v.x, l, pa);
    lemma_signed_ratio(v.y, l, pb);
    assert(ux * ux == pa * pa) by (nonlinear_arith)
        requires
            ux == pa || ux == -pa,
    ;
    assert(uy * uy == pb * pb) by (nonlinear_arith)
        requires
            uy == pb || uy == -pb,
    ;
}

/// The quotient of `a * ONE` by `l`, rounded down, times `l`, is within `l`
/// below `a * ONE`.
proof fn lemma_ratio(a: int, l: int, p: int)
    requires
        a >= 0,
        l > 0,
        p == (a * 1_000_000) / l,
    ensures
        0 <= p * l <= a * 1_000_000 < (p + 1) * l,
        p >= 0,
{
    assert(0 <= p * l <= a * 1_000_000 < (p + 1) * l && p >= 0) by (nonlinear_arith)
        requires
            a >= 0,
            l > 0,
            p == (a * 1_000_000) / l,
    ;
}

/// A component of at most one divided by a length of 0.4 or more: the
/// fixed-point quotient is the quotient of the magnitudes with the sign of
/// the component.
proof fn lemma_signed_ratio(c: i64, l: int, p: int)
    requires
        -ONE <= c <= ONE,
        400_000 <= l <= 1_414_214,
        p == (magnitude(c as int) * 1_000_000) / l,
        0 <= p <= 1_000_003,
    ensures
        mul_div_spec(c, ONE, l as i64) == (if c >= 0 {
            p
        } else {
            -p
        }),
{
    let product = c * ONE;
    assert(magnitude(product) == magnitude(c as int) * 1_000_000);
    assert(magnitude(l) == l);
    if product == 0 {
        assert(magnitude(c as int) == 0);
        assert(p == 0) by (nonlinear_arith)
            requires
                p == (0int * 1_000_000) / l,
                l > 0,
        ;
    }
}

/// The unit vector at any angle has a length within a few millionths of
/// one: the square of its length is within six millionths of one.
pub proof fn lemma_from_angle_length(angle: i64)
    ensures
        ONE * ONE - 5 * ONE <= Vec2::from_angle_spec(angle).length_squared() <= ONE * ONE + 6
            * ONE,
        magnitude(Vec2::from_angle_spec(angle).x as int) <= ONE + 3,
        magnitude(Vec2::from_angle_spec(angle).y as int) <= ONE + 3,
{
    lemma_sine_or_cosine_large(angle);
    lemma_normalized_length(Vec2 { x: cosine_spec(angle), y: sine_spec(angle) });
}

/// The farthest from the origin, and the longest, for which the length of
/// a scaled unit vector is bounded below: a billion units.
pub const SCALE_LIMIT: i64 = 1_000_000_000_000_000;

/// How far the length of a unit vector scaled to `distance` may lie from
/// `distance`: a hundred-thousandth of it, and four millionths.
pub open spec fn length_tolerance(distance: i64) -> int {
    distance / 100_000 + 4
}

/// A component of a unit vector scaled by a distance: the fixed-point
/// product is the product of the magnitudes with the sign of the
/// component.
proof fn lemma_signed_scale(c: i64, d: i64, p: int)
    requires
        -ONE - 3 <= c <= ONE + 3,
        0 <= d <= SCALE_LIMIT,
        p == (magnitude(c as int) * d) / 1_000_000,
    ensures
        0 <= p <= d + d / 100_000 + 1,
        p * 1_000_000 <= magnitude(c as int) * d < (p + 1) * 1_000_000,
        mul_div_spec(c, d, ONE) == p || mul_div_spec(c, d, ONE) == -p,
{
    let m = magnitude(c as int);
    let product = c * d;
    assert(magnitude(product) == m * d && (c >= 0 ==> product >= 0) && (c <= 0 ==> product <= 0))
        by (nonlinear_arith)
        requires
            product == c * d,
            m == magnitude(c as int),
            d >= 0,
    ;
    assert(0 <= p && p * 1_000_000 <= m * d < (p + 1) * 1_000_000) by (nonlinear_arith)
        requires
            p == (m * d) / 1_000_000,
            m >= 0,
            d >= 0,
    ;
    let e = d / 100_000;
    assert(p <= d + e + 1) by (nonlinear_arith)
        requires
            p * 1_000_000 <= m * d,
            m <= 1_000_003,
            d >= 0,
            e == d / 100_000,
    ;
    assert(magnitude(ONE as int) == 1_000_000);
    if product == 0 {
        assert(p == 0);
    }
}

/// A vector whose length is within a few millionths of one, scaled by a
/// distance, has that distance for its length, to within the tolerance.
pub proof fn lemma_scaled_unit_length(u: Vec2, d: i64)
    requires
        ONE * ONE - 5 * ONE <= u.length_squared() <= ONE * ONE + 6 * ONE,
        magnitude(u.x as int) <= ONE + 3,
        magnitude(u.y as int) <= ONE + 3,
        0 <= d <= SCALE_LIMIT,
    ensures
        d - length_tolerance(d) <= u.scale_spec(d).length_spec() <= d + length_tolerance(d),
        magnitude(u.scale_spec(d).x as int) <= d + length_tolerance(d),
        magnitude(u.scale_spec(d).y as int) <= d + length_tolerance(d),
{
    let pa = magnitude(u.x as int);
    let pb = magnitude(u.y as int);
    let s = u.length_squared();
    assert(s == pa * pa + pb * pb) by (nonlinear_arith)
        requires
            s == u.x * u.x + u.y * u.y,
            pa == magnitude(u.x as int),
            pb == magnitude(u.y as int),
    ;
    let p = (pa * d) / 1_000_000;
    let q = (pb * d) / 1_000_000;
    lemma_signed_scale(u.x, d, p);
    lemma_signed_scale(u.y, d, q);
    let o = u.scale_spec(d);
    let m = o.length_squared();
    assert(m == p * p + q * q && p * p >= 0 && q * q >= 0) by (nonlinear_arith)
        requires
            m == o.x * o.x + o.y * o.y,
            o.x == p || o.x == -p,
            o.y == q || o.y == -q,
    ;
    let l = sqrt_floor(m as nat) as int;
    lemma_sqrt_floor_bounds(m as nat);
    let t = length_tolerance(d);
    let dd = d as int;
    assert(100_000 * t >= dd + 300_001 && t >= 4);
    // No component exceeds the length.
    assert(p <= l && q <= l) by (nonlinear_arith)
        requires
            m == p * p + q * q,
            p >= 0,
            q >= 0,
            l >= 0,
            m < (l + 1) * (l + 1),
    ;
    // Above.
    assert(m * 1_000_000_000_000 <= s * (dd * dd)) by (nonlinear_arith)
        requires
            m == p * p + q * q,
            s == pa * pa + pb * pb,
            0 <= p * 1_000_000 <= pa * dd,
            0 <= q * 1_000_000 <= pb * dd,
    ;
    assert(s * (dd * dd) <= 1_000_006_000_000 * (dd * dd)) by (nonlinear_arith)
        requires
            s <= 1_000_006_000_000,
    ;
    assert(m * 1_000_000 <= 1_000_006 * (dd * dd));
    if l >= dd + t + 1 {
        assert(l * l >= (dd + t + 1) * (dd + t + 1)) by (nonlinear_arith)
            requires
                l >= dd + t + 1,
                dd + t + 1 >= 0,
        ;
        assert((dd + t + 1) * (dd + t + 1) * 1_000_000 > 1_000_006 * (dd * dd))
            by (nonlinear_arith)
            requires
                100_000 * t >= dd,
                dd >= 0,
                t >= 0,
        ;
        assert(false);
    }
    // Below.
    let big = (p + 1) * (p + 1) + (q + 1) * (q + 1);
    assert(s * (dd * dd) < big * 1_000_000_000_000) by (nonlinear_arith)
        requires
            big == (p + 1) * (p + 1) + (q + 1) * (q + 1),
            s == pa * pa + pb * pb,
            0 <= pa * dd < (p + 1) * 1_000_000,
            0 <= pb * dd < (q + 1) * 1_000_000,
    ;
    assert(999_995_000_000 * (dd * dd) <= s * (dd * dd)) by (nonlinear_arith)
        requires
            s >= 999_995_000_000,
    ;
    assert(999_995 * (dd * dd) < big * 1_000_000);
    assert(big <= (l + 3) * (l + 3)) by (nonlinear_arith)
        requires
            big == (p + 1) * (p + 1) + (q + 1) * (q + 1),
            m == p * p + q * q,
            m < (l + 1) * (l + 1),
            0 <= p <= l,
            0 <= q <= l,
    ;
    if l <= dd - t - 1 {
        let r = t - 2;
        assert((l + 3) * (l + 3) <= (dd - r) * (dd - r)) by (nonlinear_arith)
            requires
                0 <= l + 3 <= dd - r,
        ;
        assert((dd - r) * (dd - r) * 1_000_000 <= 999_990 * (dd * dd)) by (nonlinear_arith)
            requires
                100_000 * r >= dd,
                0 <= r <= dd,
        ;
        assert(999_990 * (dd * dd) <= 999_995 * (dd * dd)) by (nonlinear_arith);
        assert(false);
    }
    assert(l <= dd + t);
    assert(o.length_spec() == l);
}

} // verus!
