//! Physical objects: motion under friction, and collisions between circles.

pub mod draw_shape;
pub mod health_status;

use vstd::prelude::*;
use crate::direction::Direction;
use crate::fixed::{
    fx_mul, fx_mul_spec, fx_pow, fx_pow_spec, lemma_pow_at_most_base, lemma_sqrt_floor_bounds,
    lemma_sqrt_floor_monotone,
    lemma_sqrt_floor_square, magnitude, mul_div_spec, sat_sub_spec, sqrt_floor, trunc_div, LIMIT,
    ONE,
};
use crate::random::{
    distance_of_square, distance_of_square_spec, is_square_draw, random_angle, random_square,
};
use crate::trig::PI;
use crate::vector::{
    distance_squared, lemma_from_angle_length, lemma_scaled_unit_length, length_tolerance,
    within_reach, within_reach_spec, Vec2, SCALE_LIMIT,
};
use draw_shape::DrawShape;
use health_status::HealthStatus;

verus! {

/// A circle that moves: the physical part of every ship, bullet and base.
#[derive(Debug, Clone)]
pub struct GameObject {
    pub position: Vec2,
    pub velocity: Vec2,
    pub radius: i64,
    /// Linear drag: the speed lost per second.  Zero is no friction.
    pub friction_constant: i64,
    /// Exponential drag: the share of the velocity kept after one second.
    /// One is no friction.
    pub friction_multiplier: i64,
    pub direction: Direction,
    pub draw_shapes: Vec<DrawShape>,
    pub health_status: HealthStatus,
}

/// The mathematical value of a `GameObject`.
pub ghost struct GameObjectView {
    pub position: Vec2,
    pub velocity: Vec2,
    pub radius: i64,
    pub friction_constant: i64,
    pub friction_multiplier: i64,
    pub direction: Direction,
    pub draw_shapes: Seq<DrawShape>,
    pub health_status: HealthStatus,
}

impl View for GameObject {
    type V = GameObjectView;

    open spec fn view(&self) -> GameObjectView {
        GameObjectView {
            position: self.position,
            velocity: self.velocity,
            radius: self.radius,
            friction_constant: self.friction_constant,
            friction_multiplier: self.friction_multiplier,
            direction: self.direction,
            draw_shapes: self.draw_shapes@,
            health_status: self.health_status,
        }
    }
}

/// The velocity after `delta_t` seconds of drag.  The exponential drag
/// scales the velocity; the linear drag then takes `friction_constant *
/// delta_t` off the speed, along the direction the velocity had before,
/// and stops the object where that is all the speed left.
pub open spec fn velocity_after_drag(
    velocity: Vec2,
    friction_constant: i64,
    friction_multiplier: i64,
    delta_t: i64,
) -> Vec2 {
    let decayed = velocity.scale_spec(fx_pow_spec(friction_multiplier, delta_t));
    let friction = fx_mul_spec(friction_constant, delta_t);
    if friction >= decayed.length_spec() {
        Vec2::zero_spec()
    } else {
        decayed.minus_spec(velocity.normalize_spec().scale_spec(friction))
    }
}

/// The displacement over `delta_t` seconds at the mean of two velocities.
pub open spec fn midpoint_displacement(before: Vec2, after: Vec2, delta_t: i64) -> Vec2 {
    before.plus_spec(after).scale_ratio_spec(1, 2).scale_spec(delta_t)
}

impl GameObjectView {
    /// The object after `delta_t` seconds: the velocity after drag, and the
    /// position moved at the mean of the old and the new velocity.
    pub open spec fn updated(self, delta_t: i64) -> GameObjectView {
        let velocity = velocity_after_drag(
            self.velocity,
            self.friction_constant,
            self.friction_multiplier,
            delta_t,
        );
        GameObjectView {
            position: self.position.plus_spec(
                midpoint_displacement(self.velocity, velocity, delta_t),
            ),
            velocity,
            ..self
        }
    }

    /// Whether two circles touch: the distance of the centres is at most
    /// the sum of the radii.
    pub open spec fn overlaps(self, other: GameObjectView) -> bool {
        within_reach_spec(self.position, other.position, self.radius + other.radius)
    }

    /// The object set down `distance` from `center` in the direction
    /// `angle`, and pointing that way.
    pub open spec fn placed(self, center: Vec2, distance: i64, angle: i64) -> GameObjectView {
        GameObjectView {
            position: center.plus_spec(Vec2::from_angle_spec(angle).scale_spec(distance)),
            direction: Direction::wrapped_spec(angle as int),
            ..self
        }
    }

    /// The object after a lethal hit.
    pub open spec fn killed(self) -> GameObjectView {
        GameObjectView { health_status: self.health_status.killed(), ..self }
    }

    /// The object after meeting `other`: killed where the two touch.
    pub open spec fn collided(self, other: GameObjectView) -> GameObjectView {
        if self.overlaps(other) {
            self.killed()
        } else {
            self
        }
    }
}

impl Default for GameObject {
    /// A live object of radius one, at rest at the origin, without friction
    /// and without shapes.
    fn default() -> (r: GameObject)
        ensures
            r@ == GameObject::default_view(),
    {
        GameObject {
            position: Vec2::zero(),
            velocity: Vec2::zero(),
            radius: ONE,
            friction_constant: 0,
            friction_multiplier: ONE,
            direction: Direction::new(0),
            draw_shapes: Vec::new(),
            health_status: HealthStatus::Alive,
        }
    }
}

impl GameObject {
    /// The value of the default object.
    pub open spec fn default_view() -> GameObjectView {
        GameObjectView {
            position: Vec2::zero_spec(),
            velocity: Vec2::zero_spec(),
            radius: ONE,
            friction_constant: 0,
            friction_multiplier: ONE,
            direction: Direction::wrapped_spec(0),
            draw_shapes: Seq::empty(),
            health_status: HealthStatus::Alive,
        }
    }

    /// Sets the object down `distance` from `center` in the direction
    /// `angle`, and points it that way.
    pub fn place(&mut self, center: Vec2, distance: i64, angle: i64)
        ensures
            final(self)@ == old(self)@.placed(center, distance, angle),
    {
        self.position = center.plus(Vec2::from_angle(angle).scale(distance));
        self.direction = Direction::new(angle);
    }

    /// Sets the object down at a random place between `min_distance` and
    /// `max_distance` from the origin, in a random direction.  The square
    /// of the distance is drawn evenly, so that objects placed so cover
    /// the ring evenly.
    pub fn randomize_position(&mut self, min_distance: i64, max_distance: i64)
        ensures
            exists|angle: i64, square: i64|
                -PI <= angle <= PI && is_square_draw(square, min_distance, max_distance)
                    && final(self)@ == old(self)@.placed(
                    Vec2::zero_spec(),
                    distance_of_square_spec(square, min_distance, max_distance),
                    angle,
                ),
    {
        let direction = random_angle();
        let square_distance = random_square(min_distance, max_distance);
        let distance = distance_of_square(square_distance, min_distance, max_distance);
        self.place(Vec2::zero(), distance, direction);
    }

    /// Advances the object by `delta_t` seconds.
    pub fn update(&mut self, delta_t: i64)
        ensures
            final(self)@ == old(self)@.updated(delta_t),
    {
        let decayed = self.velocity.scale(fx_pow(self.friction_multiplier, delta_t));
        let friction_this_frame = fx_mul(self.friction_constant, delta_t);
        let new_velocity = if friction_this_frame >= decayed.length() {
            Vec2::zero()
        } else {
            decayed.minus(self.velocity.normalize().scale(friction_this_frame))
        };
        let average_velocity = self.velocity.plus(new_velocity).scale_ratio(1, 2);
        self.position = self.position.plus(average_velocity.scale(delta_t));
        self.velocity = new_velocity;
    }

    /// Whether two objects touch.
    pub fn is_overlapping(x: &Self, y: &Self) -> (r: bool)
        ensures
            r == x@.overlaps(y@),
    {
        within_reach(x.position, y.position, x.radius as i128 + y.radius as i128)
    }

    /// Kills both objects where they touch.
    pub fn kill_if_overlapping(x: &mut Self, y: &mut Self)
        ensures
            final(x)@ == old(x)@.collided(old(y)@),
            final(y)@ == old(y)@.collided(old(x)@),
    {
        proof {
            lemma_overlap_symmetric(x@, y@);
        }
        if GameObject::is_overlapping(x, y) {
            x.health_status = HealthStatus::kill_if_alive(x.health_status);
            y.health_status = HealthStatus::kill_if_alive(y.health_status);
        }
    }
}

/// Touching is mutual.
pub proof fn lemma_overlap_symmetric(a: GameObjectView, b: GameObjectView)
    ensures
        a.overlaps(b) == b.overlaps(a),
{
    assert(distance_squared(a.position, b.position) == distance_squared(b.position, a.position))
        by (nonlinear_arith);
}

/// A collision kills two live objects that touch, and changes nothing about
/// two objects that are both dead.  Colliding a second time changes nothing
/// more.
pub proof fn lemma_collision(a: GameObjectView, b: GameObjectView)
    ensures
        a.overlaps(b) && a.health_status == HealthStatus::Alive && b.health_status
            == HealthStatus::Alive ==> a.collided(b).health_status == HealthStatus::Dead
            && b.collided(a).health_status == HealthStatus::Dead,
        a.health_status == HealthStatus::Dead && b.health_status == HealthStatus::Dead
            ==> a.collided(b) == a && b.collided(a) == b,
        a.collided(b).collided(b.collided(a)) == a.collided(b),
        b.collided(a).collided(a.collided(b)) == b.collided(a),
{
    lemma_overlap_symmetric(a, b);
}

/// An object set down at a distance from a centre lies at that distance
/// from it, to within the tolerance, whatever the direction: for a centre
/// within `SCALE_LIMIT` of the origin and a distance from zero to
/// `SCALE_LIMIT`.
pub proof fn lemma_placed_distance(
    object: GameObjectView,
    center: Vec2,
    distance: i64,
    angle: i64,
)
    requires
        -SCALE_LIMIT <= center.x <= SCALE_LIMIT,
        -SCALE_LIMIT <= center.y <= SCALE_LIMIT,
        0 <= distance <= SCALE_LIMIT,
    ensures
        distance - length_tolerance(distance) <= object.placed(
            center,
            distance,
            angle,
        ).position.distance_spec(center) <= distance + length_tolerance(distance),
{
    let unit = Vec2::from_angle_spec(angle);
    lemma_from_angle_length(angle);
    lemma_scaled_unit_length(unit, distance);
    let offset = unit.scale_spec(distance);
    let position = center.plus_spec(offset);
    assert(position.x == center.x + offset.x && position.y == center.y + offset.y);
    assert(position.minus_spec(center) == offset);
}

/// Death is final: neither motion, nor a second hit, nor being set down
/// elsewhere brings a dead object back.  An invulnerable object is not
/// killed.
pub proof fn lemma_death_is_final(object: GameObjectView, other: GameObjectView, delta_t: i64)
    ensures
        object.killed().health_status != HealthStatus::Alive,
        object.health_status == HealthStatus::Invulnerable ==> object.killed() == object,
        object.health_status == HealthStatus::Dead ==> {
            &&& object.killed() == object
            &&& object.collided(other) == object
            &&& object.updated(delta_t).health_status == HealthStatus::Dead
        },
{
}

/// A component scaled by a factor in `[0, 1]` keeps its sign and does not
/// grow.
pub proof fn lemma_scale_shrinks(component: i64, factor: i64)
    requires
        0 <= factor <= ONE,
    ensures
        component >= 0 ==> 0 <= mul_div_spec(component, factor, ONE) <= component,
        component <= 0 ==> component <= mul_div_spec(component, factor, ONE) <= 0,
        factor == ONE && component >= -LIMIT ==> mul_div_spec(component, factor, ONE)
            == component,
{
    let m = magnitude(component as int);
    let p = component * factor;
    assert(magnitude(p) == m * factor && (component >= 0 ==> p >= 0) && (component <= 0 ==> p
        <= 0)) by (nonlinear_arith)
        requires
            p == component * factor,
            m == magnitude(component as int),
            0 <= factor,
    ;
    let q = (m * factor) / 1_000_000;
    assert(0 <= q <= m) by (nonlinear_arith)
        requires
            q == (m * factor) / 1_000_000,
            0 <= factor <= 1_000_000,
            0 <= m,
    ;
    if factor == ONE {
        assert((m * 1_000_000) / 1_000_000 == m) by (nonlinear_arith);
    }
    assert(magnitude(ONE as int) == 1_000_000);
    assert(trunc_div(p, ONE as int) == q || trunc_div(p, ONE as int) == -q);
    if p == 0 {
        assert(q == 0);
    }
}

/// A component of a unit or more, scaled by a factor below one, keeps its
/// sign and strictly shrinks.
pub proof fn lemma_scale_strictly_shrinks(component: i64, factor: i64)
    requires
        0 <= factor < ONE,
        magnitude(component as int) >= ONE,
    ensures
        magnitude(mul_div_spec(component, factor, ONE) as int) < magnitude(component as int),
{
    let m = magnitude(component as int);
    let p = component * factor;
    assert(magnitude(p) == m * factor) by (nonlinear_arith)
        requires
            p == component * factor,
            m == magnitude(component as int),
            0 <= factor,
    ;
    let q = (m * factor) / 1_000_000;
    assert(0 <= q < m) by (nonlinear_arith)
        requires
            q == (m * factor) / 1_000_000,
            0 <= factor <= 999_999,
            m >= 1_000_000,
    ;
    assert(magnitude(ONE as int) == 1_000_000);
    assert(trunc_div(p, ONE as int) == q || trunc_div(p, ONE as int) == -q);
}

/// Under exponential drag alone, over a whole second or more and with a
/// multiplier below one, the velocity is scaled by a factor that is at
/// most the multiplier, and every component of a unit or more strictly
/// shrinks.
pub proof fn lemma_exponential_drag_over_a_second(
    velocity: Vec2,
    friction_multiplier: i64,
    delta_t: i64,
)
    requires
        0 <= friction_multiplier < ONE,
        delta_t >= ONE,
    ensures
        ({
            let factor = fx_pow_spec(friction_multiplier, delta_t);
            let after = velocity_after_drag(velocity, 0, friction_multiplier, delta_t);
            &&& 0 <= factor <= friction_multiplier
            &&& after == velocity.scale_spec(factor)
            &&& magnitude(velocity.x as int) >= ONE ==> magnitude(after.x as int) < magnitude(
                velocity.x as int,
            )
            &&& magnitude(velocity.y as int) >= ONE ==> magnitude(after.y as int) < magnitude(
                velocity.y as int,
            )
        }),
{
    let factor = fx_pow_spec(friction_multiplier, delta_t);
    lemma_pow_at_most_base(friction_multiplier, delta_t);
    lemma_exponential_drag(velocity, friction_multiplier, delta_t);
    if magnitude(velocity.x as int) >= ONE {
        lemma_scale_strictly_shrinks(velocity.x, factor);
    }
    if magnitude(velocity.y as int) >= ONE {
        lemma_scale_strictly_shrinks(velocity.y, factor);
    }
}

/// Under exponential drag alone the velocity is scaled by a factor in
/// `[0, 1]`: each component keeps its sign and does not grow, so the
/// direction of motion is kept and the speed does not rise.
pub proof fn lemma_exponential_drag(velocity: Vec2, friction_multiplier: i64, delta_t: i64)
    ensures
        ({
            let factor = fx_pow_spec(friction_multiplier, delta_t);
            let after = velocity_after_drag(velocity, 0, friction_multiplier, delta_t);
            &&& 0 <= factor <= ONE
            &&& after == velocity.scale_spec(factor)
            &&& velocity.x >= 0 ==> 0 <= after.x <= velocity.x
            &&& velocity.x <= 0 ==> velocity.x <= after.x <= 0
            &&& velocity.y >= 0 ==> 0 <= after.y <= velocity.y
            &&& velocity.y <= 0 ==> velocity.y <= after.y <= 0
            &&& after.length_squared() <= velocity.length_squared()
        }),
{
    let factor = fx_pow_spec(friction_multiplier, delta_t);
    let decayed = velocity.scale_spec(factor);
    lemma_scale_shrinks(velocity.x, factor);
    lemma_scale_shrinks(velocity.y, factor);
    assert(fx_mul_spec(0, delta_t) == 0) by {
        assert(0 * delta_t == 0);
    }
    lemma_sqrt_floor_bounds(decayed.length_squared() as nat);
    assert(decayed.length_squared() >= 0) by (nonlinear_arith);
    if 0 >= decayed.length_spec() {
        let root = sqrt_floor(decayed.length_squared() as nat);
        assert(root == 0);
        assert((root + 1) * (root + 1) == 1) by (nonlinear_arith)
            requires
                root == 0,
        ;
        assert(decayed.x * decayed.x + decayed.y * decayed.y < 1);
        assert(decayed.x == 0 && decayed.y == 0) by (nonlinear_arith)
            requires
                decayed.x * decayed.x + decayed.y * decayed.y < 1,
        ;
    } else {
        let unit = velocity.normalize_spec();
        assert(unit.x * 0 == 0 && unit.y * 0 == 0);
        assert(unit.scale_spec(0) == Vec2::zero_spec());
    }
    assert(velocity_after_drag(velocity, 0, friction_multiplier, delta_t) == decayed);
    assert(decayed.x * decayed.x <= velocity.x * velocity.x) by (nonlinear_arith)
        requires
            (velocity.x >= 0 && 0 <= decayed.x <= velocity.x) || (velocity.x <= 0 && velocity.x
                <= decayed.x <= 0),
    ;
    assert(decayed.y * decayed.y <= velocity.y * velocity.y) by (nonlinear_arith)
        requires
            (velocity.y >= 0 && 0 <= decayed.y <= velocity.y) || (velocity.y <= 0 && velocity.y
                <= decayed.y <= 0),
    ;
}

/// No component of a vector is longer than the vector, as far as lengths
/// go: a vector with a component beyond `LIMIT` has the length `LIMIT`.
pub proof fn lemma_component_below_length(v: Vec2)
    ensures
        magnitude(v.x as int) <= v.length_spec() || v.length_spec() == LIMIT,
        magnitude(v.y as int) <= v.length_spec() || v.length_spec() == LIMIT,
{
    let mx = magnitude(v.x as int) as nat;
    let my = magnitude(v.y as int) as nat;
    assert(mx * mx == v.x * v.x && my * my == v.y * v.y && mx * mx >= 0 && my * my >= 0)
        by (nonlinear_arith)
        requires
            mx == magnitude(v.x as int),
            my == magnitude(v.y as int),
    ;
    lemma_sqrt_floor_square(mx);
    lemma_sqrt_floor_square(my);
    lemma_sqrt_floor_monotone(mx * mx, v.length_squared() as nat);
    lemma_sqrt_floor_monotone(my * my, v.length_squared() as nat);
}

/// The least integer under linear drag: it counts as `-LIMIT`, and the
/// step taken off it is the whole friction.
proof fn lemma_linear_component_least(friction: i64)
    requires
        0 <= friction < LIMIT,
    ensures
        ({
            let decayed = mul_div_spec(i64::MIN, ONE, ONE);
            let unit = mul_div_spec(i64::MIN, ONE, LIMIT);
            let step = mul_div_spec(unit, friction, ONE);
            let after = sat_sub_spec(decayed, step);
            &&& decayed == -LIMIT
            &&& i64::MIN <= after <= 0
        }),
{
    let product = i64::MIN * ONE;
    assert(product == -9_223_372_036_854_775_808_000_000);
    assert(magnitude(product) == 9_223_372_036_854_775_808_000_000);
    assert(magnitude(ONE as int) == 1_000_000 && magnitude(LIMIT as int) == LIMIT);
    assert(9_223_372_036_854_775_808_000_000int / 1_000_000 == 9_223_372_036_854_775_808);
    assert(9_223_372_036_854_775_808_000_000int / 9_223_372_036_854_775_807 == 1_000_000);
    let unit = mul_div_spec(i64::MIN, ONE, LIMIT);
    assert(unit == -1_000_000);
    let scaled = unit * friction;
    assert(scaled == -(1_000_000 * friction));
    assert(magnitude(scaled) == 1_000_000 * friction);
    assert((1_000_000 * friction) / 1_000_000 == friction);
}

/// One component under linear drag: the step taken off it has its sign and
/// is no longer than it.
proof fn lemma_linear_component(component: i64, length: i64, friction: i64)
    requires
        -LIMIT <= component,
        magnitude(component as int) <= length,
        0 <= friction < length,
    ensures
        ({
            let unit = mul_div_spec(component, ONE, length);
            let step = mul_div_spec(unit, friction, ONE);
            let after = sat_sub_spec(component, step);
            &&& component >= 0 ==> 0 <= after <= component
            &&& component <= 0 ==> component <= after <= 0
        }),
{
    let m = magnitude(component as int);
    let p = component * ONE;
    let u = (m * 1_000_000) / (length as int);
    assert(0 <= u <= 1_000_000 && u * length <= m * 1_000_000) by (nonlinear_arith)
        requires
            u == (m * 1_000_000) / (length as int),
            0 <= m <= length,
            length > 0,
    ;
    assert(magnitude(p) == m * 1_000_000);
    let unit = mul_div_spec(component, ONE, length);
    assert(magnitude(length as int) == length);
    assert(trunc_div(p, length as int) == (if component >= 0 {
        u
    } else {
        -u
    }));
    assert(unit == (if component >= 0 {
        u
    } else {
        -u
    }));
    let w = (u * friction) / 1_000_000;
    assert(0 <= w <= m) by (nonlinear_arith)
        requires
            w == (u * friction) / 1_000_000,
            0 <= u,
            u * length <= m * 1_000_000,
            0 <= friction < length,
            0 <= m,
    ;
    let pu = unit * friction;
    assert(u * friction >= 0) by (nonlinear_arith)
        requires
            0 <= u,
            0 <= friction,
    ;
    if component >= 0 {
        assert(pu == u * friction);
    } else {
        assert(pu == -(u * friction)) by (nonlinear_arith)
            requires
                pu == unit * friction,
                unit == -u,
        ;
    }
    assert(magnitude(ONE as int) == 1_000_000);
    assert(trunc_div(pu, ONE as int) == w || trunc_div(pu, ONE as int) == -w);
    if pu == 0 {
        assert(w == 0);
    }
}

/// Under linear drag alone the speed falls by `friction_constant * delta_t`
/// along the direction of motion.  Where that is all the speed there is, the
/// object stops exactly; otherwise each component keeps its sign and does
/// not grow, so the motion is never reversed and never quickened, and an
/// object at rest stays at rest.
pub proof fn lemma_linear_drag(velocity: Vec2, friction_constant: i64, delta_t: i64)
    requires
        friction_constant >= 0,
        delta_t >= 0,
    ensures
        ({
            let friction = fx_mul_spec(friction_constant, delta_t);
            let after = velocity_after_drag(velocity, friction_constant, ONE, delta_t);
            &&& friction >= 0
            &&& velocity.x >= -LIMIT && velocity.y >= -LIMIT ==> velocity.scale_spec(ONE)
                == velocity
            &&& friction >= velocity.length_spec() ==> after == Vec2::zero_spec()
            &&& friction < velocity.length_spec() ==> after == velocity.scale_spec(
                ONE,
            ).minus_spec(velocity.normalize_spec().scale_spec(friction))
            &&& velocity.x >= 0 ==> 0 <= after.x <= velocity.x
            &&& velocity.x <= 0 ==> velocity.x <= after.x <= 0
            &&& velocity.y >= 0 ==> 0 <= after.y <= velocity.y
            &&& velocity.y <= 0 ==> velocity.y <= after.y <= 0
            &&& after.length_squared() <= velocity.length_squared()
            &&& after.x * velocity.x + after.y * velocity.y >= 0
            &&& after.dot_spec(velocity) >= 0
            &&& velocity == Vec2::zero_spec() ==> after == Vec2::zero_spec()
        }),
{
    let friction = fx_mul_spec(friction_constant, delta_t);
    let after = velocity_after_drag(velocity, friction_constant, ONE, delta_t);
    assert(fx_pow_spec(ONE, delta_t) == ONE);
    let decayed = velocity.scale_spec(ONE);
    lemma_scale_shrinks(velocity.x, ONE);
    lemma_scale_shrinks(velocity.y, ONE);
    lemma_linear_component_least(0);
    assert(decayed.x == (if velocity.x == i64::MIN {
        (-LIMIT) as i64
    } else {
        velocity.x
    }));
    assert(decayed.y == (if velocity.y == i64::MIN {
        (-LIMIT) as i64
    } else {
        velocity.y
    }));
    assert(friction_constant * delta_t >= 0) by (nonlinear_arith)
        requires
            friction_constant >= 0,
            delta_t >= 0,
    ;
    assert(magnitude(friction_constant * delta_t) / 1_000_000 >= 0);
    assert(friction >= 0);
    let length = velocity.length_spec();
    lemma_component_below_length(velocity);
    lemma_component_below_length(decayed);
    assert(decayed.length_spec() == length);
    if friction < length {
        if velocity.x == i64::MIN {
            lemma_linear_component_least(friction);
        } else {
            lemma_linear_component(velocity.x, length, friction);
        }
        if velocity.y == i64::MIN {
            lemma_linear_component_least(friction);
        } else {
            lemma_linear_component(velocity.y, length, friction);
        }
    }
    assert(after.x * after.x <= velocity.x * velocity.x && after.x * velocity.x >= 0)
        by (nonlinear_arith)
        requires
            (velocity.x >= 0 && 0 <= after.x <= velocity.x) || (velocity.x <= 0 && velocity.x
                <= after.x <= 0),
    ;
    assert(after.y * after.y <= velocity.y * velocity.y && after.y * velocity.y >= 0)
        by (nonlinear_arith)
        requires
            (velocity.y >= 0 && 0 <= after.y <= velocity.y) || (velocity.y <= 0 && velocity.y
                <= after.y <= 0),
    ;
    let inner = after.x * velocity.x + after.y * velocity.y;
    assert(trunc_div(inner, ONE as int) >= 0);
}

} // verus!
