//! Bullets: physical objects that expire.

use vstd::prelude::*;
use crate::direction::Direction;
use crate::fixed::{sat_sub, sat_sub_spec};
use crate::game_object::draw_shape::{DrawShape, BLACK};
use crate::game_object::health_status::HealthStatus;
use crate::game_object::{GameObject, GameObjectView};
use crate::team::Team;
use crate::vector::Vec2;
use crate::weapon::Firer;

verus! {

/// The radius of every bullet.
pub const BULLET_RADIUS: i64 = 2_000_000;

/// A bullet in flight.  It is removed once its lifetime has run out.
#[derive(Debug, Clone)]
pub struct Bullet {
    pub game_object: GameObject,
    /// Seconds left to fly.
    pub lifetime_remaining: i64,
    /// The side that fired it.
    pub team: Team,
}

/// The mathematical value of a `Bullet`.
pub ghost struct BulletView {
    pub game_object: GameObjectView,
    pub lifetime_remaining: i64,
    pub team: Team,
}

impl View for Bullet {
    type V = BulletView;

    open spec fn view(&self) -> BulletView {
        BulletView {
            game_object: self.game_object@,
            lifetime_remaining: self.lifetime_remaining,
            team: self.team,
        }
    }
}

impl BulletView {
    /// The bullet that `ship` fires: it starts on the ship's rim ahead of
    /// it, adds `bullet_speed` along the ship's heading to the ship's own
    /// velocity, points the way it flies, and is on the ship's side.
    pub open spec fn fired(ship: Firer, bullet_lifetime: i64, bullet_speed: i64) -> BulletView {
        let direction_vec = Vec2::from_angle_spec(ship.direction.angle());
        let velocity = ship.velocity.plus_spec(direction_vec.scale_spec(bullet_speed));
        BulletView {
            game_object: GameObjectView {
                position: ship.position.plus_spec(direction_vec.scale_spec(ship.radius)),
                velocity,
                radius: BULLET_RADIUS,
                draw_shapes: seq![DrawShape::circle(BLACK)],
                direction: Direction::along_spec(velocity),
                ..GameObject::default_view()
            },
            lifetime_remaining: bullet_lifetime,
            team: ship.team,
        }
    }

    /// The bullet after `delta_t` seconds of flight.
    pub open spec fn updated(self, delta_t: i64) -> BulletView {
        BulletView {
            game_object: self.game_object.updated(delta_t),
            lifetime_remaining: sat_sub_spec(self.lifetime_remaining, delta_t),
            ..self
        }
    }

    /// Whether the bullet stays in the world: it is not dead and has time
    /// left.
    pub open spec fn survives(self) -> bool {
        self.game_object.health_status != HealthStatus::Dead && self.lifetime_remaining > 0
    }
}

impl Bullet {
    /// The bullet that `ship` fires.
    pub fn new_bullet(ship: &Firer, bullet_lifetime: i64, bullet_speed: i64) -> (r: Bullet)
        ensures
            r@ == BulletView::fired(*ship, bullet_lifetime, bullet_speed),
    {
        let direction_vec = ship.direction.get_as_vec();
        let position = ship.position.plus(direction_vec.scale(ship.radius));
        let velocity = ship.velocity.plus(direction_vec.scale(bullet_speed));
        let circle = DrawShape::new_circle_color(BLACK);
        let mut draw_shapes: Vec<DrawShape> = Vec::new();
        draw_shapes.push(circle);
        let mut game_object = GameObject::default();
        game_object.position = position;
        game_object.velocity = velocity;
        game_object.radius = BULLET_RADIUS;
        game_object.draw_shapes = draw_shapes;
        game_object.direction = Direction::new_from_vec(velocity);
        let r = Bullet { game_object, lifetime_remaining: bullet_lifetime, team: ship.team };
        assert(r@.game_object.draw_shapes =~= seq![DrawShape::circle(BLACK)]);
        r
    }

    /// Advances the bullet by `delta_t` seconds.
    pub fn update(&mut self, delta_t: i64)
        ensures
            final(self)@ == old(self)@.updated(delta_t),
    {
        self.game_object.update(delta_t);
        self.lifetime_remaining = sat_sub(self.lifetime_remaining, delta_t);
    }
}

} // verus!
