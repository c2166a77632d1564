//! When a weapon is to fire.

use vstd::prelude::*;
use crate::direction::{shorter_rotation, Direction, RotationDirection};
use crate::fixed::{fx_div, fx_div_spec};
use crate::snapshot::{Snapshot, SnapshotView};
use crate::vector::Vec2;
use crate::weapon::Firer;

verus! {

/// A thirty-sixth of a half turn: how far off its mark an enemy may aim and
/// still fire.
pub const TEN_DEGREES: i64 = 174_533;

/// The point at which to aim from `from` to hit a target that moves on
/// with `target_velocity`, for a shot of speed `speed`: where the target
/// will be after the time the shot needs to reach where the target is now.
/// For a speed of zero no time is allowed for, and the point is the target.
pub open spec fn lead_point_spec(from: Vec2, target: Vec2, target_velocity: Vec2, speed: i64)
    -> Vec2 {
    let time = fx_div_spec(from.distance_spec(target), speed);
    target.plus_spec(target_velocity.scale_spec(time))
}

/// The point at which to aim to hit a moving target.
#[verifier::when_used_as_spec(lead_point_spec)]
pub fn lead_point(from: Vec2, target: Vec2, target_velocity: Vec2, speed: i64) -> (r: Vec2)
    ensures
        r == lead_point_spec(from, target, target_velocity, speed),
{
    let time = fx_div(from.distance(target), speed);
    target.plus(target_velocity.scale(time))
}

/// A decision, made anew at each step, whether a weapon is to fire.
pub trait WeaponController {
    /// Whether the weapon of `ship` is to fire, in the world `game`.
    spec fn tries_to_fire(&self, ship: Firer, game: SnapshotView) -> bool;

    fn is_trying_to_fire(&self, ship: &Firer, game: &Snapshot) -> (r: bool)
        ensures
            r == self.tries_to_fire(*ship, game@),
    ;
}

/// Fires while the fire key is held.
#[derive(Debug, Clone, Copy, PartialEq, Eq, Structural)]
pub struct KeyboardWeaponController;

/// Fires while the pointer's fire button is held.
#[derive(Debug, Clone, Copy, PartialEq, Eq, Structural)]
pub struct MouseWeaponController;

/// Fires while the ship points within ten degrees of where the player will
/// be when a bullet gets there.
#[derive(Debug, Clone, Copy, PartialEq, Eq, Structural)]
pub struct EnemyWeaponController;

/// Fires always.
#[derive(Debug, Clone, Copy, PartialEq, Eq, Structural)]
pub struct EnemyCloneWeaponController;

/// Any one of the firing decisions.
#[derive(Debug, Clone, Copy, PartialEq, Eq, Structural)]
pub enum FiringPolicy {
    Keyboard(KeyboardWeaponController),
    Mouse(MouseWeaponController),
    Enemy(EnemyWeaponController),
    EnemyClone(EnemyCloneWeaponController),
}

impl WeaponController for KeyboardWeaponController {
    open spec fn tries_to_fire(&self, ship: Firer, game: SnapshotView) -> bool {
        game.input.fire_held
    }

    fn is_trying_to_fire(&self, ship: &Firer, game: &Snapshot) -> (r: bool)
        ensures
            r == self.tries_to_fire(*ship, game@),
    {
        game.input.fire_held
    }
}

impl WeaponController for MouseWeaponController {
    open spec fn tries_to_fire(&self, ship: Firer, game: SnapshotView) -> bool {
        game.input.pointer_fire_held
    }

    fn is_trying_to_fire(&self, ship: &Firer, game: &Snapshot) -> (r: bool)
        ensures
            r == self.tries_to_fire(*ship, game@),
    {
        game.input.pointer_fire_held
    }
}

impl WeaponController for EnemyWeaponController {
    open spec fn tries_to_fire(&self, ship: Firer, game: SnapshotView) -> bool {
        match ship.bullet_speed {
            Some(speed) => {
                let future_pos = lead_point_spec(
                    ship.position,
                    game.player.position,
                    game.player.velocity,
                    speed,
                );
                let future_direction = Direction::along_spec(
                    future_pos.minus_spec(ship.position),
                );
                shorter_rotation(
                    ship.direction.angle() as int,
                    future_direction.angle() as int,
                    TEN_DEGREES as int,
                ) == RotationDirection::Straight
            },
            None => false,
        }
    }

    fn is_trying_to_fire(&self, ship: &Firer, game: &Snapshot) -> (r: bool)
        ensures
            r == self.tries_to_fire(*ship, game@),
    {
        if let Some(speed) = ship.bullet_speed {
            let future_pos = lead_point(
                ship.position,
                game.player.position,
                game.player.velocity,
                speed,
            );
            let future_offset = future_pos.minus(ship.position);
            let future_direction = Direction::new_from_vec(future_offset);
            let rotation_direction = Direction::get_shorter_rotation_direction(
                ship.direction,
                future_direction,
                TEN_DEGREES,
            );
            return rotation_direction == RotationDirection::Straight;
        }
        false
    }
}

impl WeaponController for EnemyCloneWeaponController {
    open spec fn tries_to_fire(&self, ship: Firer, game: SnapshotView) -> bool {
        true
    }

    fn is_trying_to_fire(&self, ship: &Firer, game: &Snapshot) -> (r: bool)
        ensures
            r == self.tries_to_fire(*ship, game@),
    {
        true
    }
}

impl WeaponController for FiringPolicy {
    open spec fn tries_to_fire(&self, ship: Firer, game: SnapshotView) -> bool {
        match self {
            FiringPolicy::Keyboard(c) => c.tries_to_fire(ship, game),
            FiringPolicy::Mouse(c) => c.tries_to_fire(ship, game),
            FiringPolicy::Enemy(c) => c.tries_to_fire(ship, game),
            FiringPolicy::EnemyClone(c) => c.tries_to_fire(ship, game),
        }
    }

    fn is_trying_to_fire(&self, ship: &Firer, game: &Snapshot) -> (r: bool)
        ensures
            r == self.tries_to_fire(*ship, game@),
    {
        match self {
            FiringPolicy::Keyboard(c) => c.is_trying_to_fire(ship, game),
            FiringPolicy::Mouse(c) => c.is_trying_to_fire(ship, game),
            FiringPolicy::Enemy(c) => c.is_trying_to_fire(ship, game),
            FiringPolicy::EnemyClone(c) => c.is_trying_to_fire(ship, game),
        }
    }
}

} // verus!
