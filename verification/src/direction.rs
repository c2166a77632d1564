//! Headings, and the sense in which to turn from one to another.

use vstd::prelude::*;
use crate::fixed::{magnitude, mul_div, mul_div_spec, sat_add, sat_add_spec, ONE};
use crate::trig::{
    arctan2, arctan2_spec, lemma_wrap_congruent, lemma_wrap_fixed, lemma_wrap_idempotent,
    lemma_wrap_turns, wrap, wrap_spec, PI, TWO_PI,
};
use crate::vector::Vec2;

verus! {

/// A heading: an angle kept in `(-PI, PI]`.
#[derive(Debug, Clone, Copy, PartialEq, Eq, Structural)]
pub struct Direction {
    pub(crate) direction: i64,
}

/// The sense of a turn.  `Left` lowers the angle, `Right` raises it.
#[derive(Debug, Clone, Copy, PartialEq, Eq, Structural)]
pub enum RotationDirection {
    Left,
    Right,
    Straight,
}

/// The wrapped difference `target - current`: the turn that takes the
/// heading `current` to `target` by the shorter way.
pub open spec fn turn_between(current: int, target: int) -> int {
    wrap_spec(target - current)
}

/// The sense of the shorter turn from `current` to `target`, or `Straight`
/// where the two are closer than `epsilon`.
pub open spec fn shorter_rotation(current: int, target: int, epsilon: int) -> RotationDirection {
    let difference = turn_between(current, target);
    if magnitude(difference) < epsilon {
        RotationDirection::Straight
    } else if difference > 0 {
        RotationDirection::Right
    } else {
        RotationDirection::Left
    }
}

impl Direction {
    #[verifier::type_invariant]
    spec fn wrapped(self) -> bool {
        -PI < self.direction <= PI
    }

    /// The angle of the heading.
    pub open(crate) spec fn angle(self) -> i64 {
        self.direction
    }

    /// The heading at `angle`, wrapped.
    pub open(crate) spec fn wrapped_spec(angle: int) -> Direction {
        Direction { direction: wrap_spec(angle) as i64 }
    }

    /// The heading along `vec`; the zero heading for the zero vector.
    pub open spec fn along_spec(vec: Vec2) -> Direction {
        Direction::wrapped_spec(arctan2_spec(vec.y, vec.x) as int)
    }

    /// The heading turned by the scalar `increment`.
    pub open spec fn turned_spec(self, increment: i64) -> Direction {
        Direction::wrapped_spec(sat_add_spec(self.angle(), increment) as int)
    }

    /// The heading turned by another.
    pub open spec fn plus_spec(self, other: Direction) -> Direction {
        Direction::wrapped_spec(self.angle() + other.angle())
    }

    /// The heading turned back by another.
    pub open spec fn minus_spec(self, other: Direction) -> Direction {
        Direction::wrapped_spec(self.angle() - other.angle())
    }

    /// Whether the angle lies in `(-PI, PI]`.  Every heading that a program
    /// holds is well formed.
    pub open spec fn wf(self) -> bool {
        -PI < self.angle() <= PI
    }

    /// The heading at `direction`, wrapped.
    pub fn new(direction: i64) -> (r: Direction)
        ensures
            r == Direction::wrapped_spec(direction as int),
            r.angle() == wrap_spec(direction as int),
            r.wf(),
    {
        Direction { direction: wrap(direction) }
    }

    /// The heading along `vec`; the zero heading for the zero vector.
    pub fn new_from_vec(vec: Vec2) -> (r: Direction)
        ensures
            r == Direction::along_spec(vec),
            r.angle() == arctan2_spec(vec.y, vec.x),
            r.wf(),
    {
        let angle = arctan2(vec.y, vec.x);
        proof {
            lemma_wrap_fixed(angle as int);
        }
        Direction { direction: angle }
    }

    /// The angle, in millionths of a radian.
    pub fn get(self) -> (r: i64)
        ensures
            r == self.angle(),
            self.wf(),
    {
        proof {
            use_type_invariant(&self);
        }
        self.direction
    }

    /// The angle in millionths of a degree.
    pub fn get_as_degrees(self) -> (r: i64)
        ensures
            r == mul_div_spec(self.angle(), 180_000_000, PI),
    {
        mul_div(self.direction, 180_000_000, PI)
    }

    /// The unit vector along the heading.
    pub fn get_as_vec(self) -> (r: Vec2)
        ensures
            r == Vec2::from_angle_spec(self.angle()),
    {
        Vec2::from_angle(self.direction)
    }

    /// Replaces the heading by `direction`, wrapped.
    pub fn set(&mut self, direction: i64)
        ensures
            *final(self) == Direction::wrapped_spec(direction as int),
            final(self).angle() == wrap_spec(direction as int),
            final(self).wf(),
    {
        self.direction = wrap(direction);
    }

    /// Turns the heading by `increment`.
    pub fn add_f32(&mut self, increment: i64)
        ensures
            *final(self) == old(self).turned_spec(increment),
            final(self).angle() == wrap_spec(sat_add_spec(old(self).angle(), increment) as int),
            final(self).wf(),
    {
        let sum = sat_add(self.direction, increment);
        self.set(sum);
    }

    /// The heading turned by another.
    pub fn plus(self, other: Direction) -> (r: Direction)
        ensures
            r == self.plus_spec(other),
            r.angle() == wrap_spec(self.angle() + other.angle()),
            r.wf(),
    {
        proof {
            use_type_invariant(&self);
            use_type_invariant(&other);
        }
        Direction::new(self.direction + other.direction)
    }

    /// The heading turned back by another: the shorter turn from `other` to
    /// `self`.
    pub fn minus(self, other: Direction) -> (r: Direction)
        ensures
            r == self.minus_spec(other),
            r.angle() == turn_between(other.angle() as int, self.angle() as int),
            r.wf(),
    {
        proof {
            use_type_invariant(&self);
            use_type_invariant(&other);
        }
        Direction::new(self.direction - other.direction)
    }

    /// Which way to turn from `current_direction` to reach
    /// `target_direction` by the shorter way; `Straight` where the two are
    /// closer than `epsilon`.
    pub fn get_shorter_rotation_direction(
        current_direction: Self,
        target_direction: Self,
        epsilon: i64,
    ) -> (r: RotationDirection)
        ensures
            r == shorter_rotation(
                current_direction.angle() as int,
                target_direction.angle() as int,
                epsilon as int,
            ),
    {
        let difference = target_direction.minus(current_direction).get();
        let size = if difference < 0 {
            -difference
        } else {
            difference
        };
        if size < epsilon {
            return RotationDirection::Straight;
        }
        RotationDirection::from_bool(false, difference > 0)
    }
}

impl core::ops::Add for Direction {
    type Output = Direction;

    /// The heading turned by another.
    fn add(self, other: Direction) -> (r: Direction)
        ensures
            r == self.plus_spec(other),
    {
        self.plus(other)
    }
}

impl vstd::std_specs::ops::AddSpecImpl for Direction {
    open spec fn obeys_add_spec() -> bool {
        true
    }

    open spec fn add_req(self, other: Direction) -> bool {
        true
    }

    open spec fn add_spec(self, other: Direction) -> Direction {
        self.plus_spec(other)
    }
}

impl core::ops::Sub for Direction {
    type Output = Direction;

    /// The heading turned back by another.
    fn sub(self, other: Direction) -> (r: Direction)
        ensures
            r == self.minus_spec(other),
    {
        self.minus(other)
    }
}

impl vstd::std_specs::ops::SubSpecImpl for Direction {
    open spec fn obeys_sub_spec() -> bool {
        true
    }

    open spec fn sub_req(self, other: Direction) -> bool {
        true
    }

    open spec fn sub_spec(self, other: Direction) -> Direction {
        self.minus_spec(other)
    }
}

impl core::ops::AddAssign for Direction {
    /// Turns the heading by another.
    fn add_assign(&mut self, other: Direction)
        ensures
            *final(self) == old(self).plus_spec(other),
    {
        *self = self.plus(other);
    }
}

impl core::ops::SubAssign for Direction {
    /// Turns the heading back by another.
    fn sub_assign(&mut self, other: Direction)
        ensures
            *final(self) == old(self).minus_spec(other),
    {
        *self = self.minus(other);
    }
}

impl Default for Direction {
    /// The heading along the x axis.
    fn default() -> (r: Direction)
        ensures
            r == Direction::wrapped_spec(0),
            r.angle() == 0,
    {
        proof {
            lemma_wrap_fixed(0);
        }
        Direction { direction: 0 }
    }
}


impl RotationDirection {
    /// The sign of the turn: -1, 1 or 0.
    pub open spec fn sign(self) -> int {
        match self {
            RotationDirection::Left => -1,
            RotationDirection::Right => 1,
            RotationDirection::Straight => 0,
        }
    }

    /// The turn as a scalar: -1, 1 or 0.
    pub fn to_f32(&self) -> (r: i64)
        ensures
            r == self.sign() * ONE,
    {
        match self {
            RotationDirection::Left => -ONE,
            RotationDirection::Right => ONE,
            RotationDirection::Straight => 0,
        }
    }

    /// The turn of a scalar that is exactly -1, 1 or 0.
    pub fn from_f32(x: i64) -> (r: Self)
        requires
            x == -ONE || x == ONE || x == 0,
        ensures
            r.sign() * ONE == x,
    {
        if x == -ONE {
            RotationDirection::Left
        } else if x == ONE {
            RotationDirection::Right
        } else {
            RotationDirection::Straight
        }
    }

    /// The turn of a sign that is exactly -1, 1 or 0.
    pub fn from_i32(x: i32) -> (r: Self)
        requires
            x == -1 || x == 1 || x == 0,
        ensures
            r.sign() == x,
    {
        if x == -1 {
            RotationDirection::Left
        } else if x == 1 {
            RotationDirection::Right
        } else {
            RotationDirection::Straight
        }
    }

    /// `Straight` where `is_none`; otherwise `Right` or `Left` by `is_right`.
    pub fn from_bool(is_none: bool, is_right: bool) -> (r: Self)
        ensures
            r == (if is_none {
                RotationDirection::Straight
            } else if is_right {
                RotationDirection::Right
            } else {
                RotationDirection::Left
            }),
    {
        if is_none {
            RotationDirection::Straight
        } else if is_right {
            RotationDirection::Right
        } else {
            RotationDirection::Left
        }
    }
}

/// Every heading set lies in `(-PI, PI]`, and setting a heading to the
/// angle it holds changes nothing: wrapping twice is wrapping once.
pub proof fn lemma_set_idempotent(angle: int)
    ensures
        Direction::wrapped_spec(angle).wf(),
        Direction::wrapped_spec(angle).angle() == wrap_spec(angle),
        -PI < wrap_spec(angle) <= PI,
        wrap_spec(wrap_spec(angle)) == wrap_spec(angle),
        Direction::wrapped_spec(Direction::wrapped_spec(angle).angle() as int)
            == Direction::wrapped_spec(angle),
{
    lemma_wrap_idempotent(angle);
}

/// The shorter turn between two headings is at most a half turn.  Where a
/// turn is called for, with a positive `epsilon`, any step in the sense
/// given that does not overshoot brings the heading closer to the target by
/// exactly that step.
pub proof fn lemma_shorter_rotation_approaches(
    current: Direction,
    target: Direction,
    epsilon: int,
    step: int,
)
    requires
        current.wf(),
        target.wf(),
        epsilon > 0,
        0 < step <= magnitude(turn_between(current.angle() as int, target.angle() as int)),
    ensures
        magnitude(turn_between(current.angle() as int, target.angle() as int)) <= PI,
        ({
            let sense = shorter_rotation(current.angle() as int, target.angle() as int, epsilon);
            let before = turn_between(current.angle() as int, target.angle() as int);
            let moved = wrap_spec(current.angle() + sense.sign() * step);
            let after = turn_between(moved, target.angle() as int);
            &&& (sense == RotationDirection::Straight <==> magnitude(before) < epsilon)
            &&& sense != RotationDirection::Straight ==> magnitude(after) == magnitude(before) - step
        }),
{
    let c = current.angle() as int;
    let t = target.angle() as int;
    let before = turn_between(c, t);
    lemma_wrap_idempotent(t - c);
    let sense = shorter_rotation(c, t, epsilon);
    if sense != RotationDirection::Straight {
        let s = sense.sign() * step;
        let moved = wrap_spec(c + s);
        // t - moved and before - s differ by whole turns.
        let k1 = lemma_wrap_congruent(c + s);
        let k2 = lemma_wrap_congruent(t - c);
        assert(t - moved == (before - s) + (k1 + k2) * TWO_PI) by (nonlinear_arith)
            requires
                c + s == moved + k1 * TWO_PI,
                t - c == before + k2 * TWO_PI,
        ;
        lemma_wrap_turns(before - s, k1 + k2);
        assert(-PI < before - s <= PI);
        lemma_wrap_fixed(before - s);
    }
}

} // verus!
