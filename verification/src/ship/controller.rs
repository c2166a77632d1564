//! Pilots: who decides, at each step, whether a ship thrusts and which way
//! it turns.

use vstd::prelude::*;
use crate::base::BaseView;
use crate::direction::{shorter_rotation, Direction, RotationDirection};
use crate::fixed::{
    fx_div, fx_div_spec, magnitude, mul_div, mul_div_spec, sat_add, sat_add_spec, sat_sub,
    sat_sub_spec, ONE,
};
use crate::ship::{Ship, ShipView};
use crate::snapshot::{Snapshot, SnapshotView};
use crate::trig::HALF_PI;
use crate::vector::Vec2;
use crate::weapon::bullet::BulletView;
use crate::weapon::controller::{lead_point, lead_point_spec, TEN_DEGREES};

verus! {

/// A hundred-and-eightieth of a half turn: how close to its mark a pilot
/// turns before it holds its heading.
pub const ONE_DEGREE: i64 = 17_453;

/// A quarter of a half turn.
pub const QUARTER_PI: i64 = 785_398;

/// Three quarters of a half turn.
pub const THREE_QUARTER_PI: i64 = 2_356_195;

/// The shot speed a pilot reckons with where its ship has no weapon.
pub const DEFAULT_PREDICTION_SPEED: i64 = 200_000_000;

/// A decision, made anew at each step, on thrust and turn.
pub trait ShipController {
    /// Whether `ship` is to thrust, in the world `game`.
    spec fn thrusts(&self, ship: ShipView, game: SnapshotView) -> bool;

    /// Which way `ship` is to turn, in the world `game`.
    spec fn rotation(&self, ship: ShipView, game: SnapshotView) -> RotationDirection;

    fn is_thrusting(&self, ship: &Ship, game: &Snapshot) -> (r: bool)
        ensures
            r == self.thrusts(ship@, game@),
    ;

    fn get_rotation(&self, ship: &Ship, game: &Snapshot) -> (r: RotationDirection)
        ensures
            r == self.rotation(ship@, game@),
    ;
}

/// Never thrusts, never turns.
#[derive(Debug, Clone, Copy, PartialEq, Eq, Structural)]
pub struct EmptyShipController;

/// Thrusts and turns by the keys.
#[derive(Debug, Clone, Copy, PartialEq, Eq, Structural)]
pub struct KeyboardShipController;

/// Thrusts by the pointer's button and turns toward the pointer.
#[derive(Debug, Clone, Copy, PartialEq, Eq, Structural)]
pub struct MouseShipController;

/// Guards a base, if it has one, and hunts the player where the player
/// comes near.
#[derive(Debug, Clone, Copy, PartialEq, Eq, Structural)]
pub struct EnemyShipController {
    /// The place, in the world's list of bases, of the base the ship
    /// guards.
    pub base: Option<usize>,
    /// How near the player must be to be hunted.
    pub player_persue_distance: i64,
    /// The angle by which the ship aims beside its mark.
    pub player_direction_offset: i64,
    /// The width of the band around a base's optimal distance within
    /// which the ship is content.
    pub epsilon: i64,
}

/// Dodges bullets, jukes out of the player's aim, and otherwise flies to
/// where its bullets will meet the player.
#[derive(Debug, Clone, Copy, PartialEq, Eq, Structural)]
pub struct EnemyCloneShipController;

/// Any one of the pilots.
#[derive(Debug, Clone, Copy, PartialEq, Eq, Structural)]
pub enum PilotPolicy {
    Empty(EmptyShipController),
    Keyboard(KeyboardShipController),
    Mouse(MouseShipController),
    Enemy(EnemyShipController),
    EnemyClone(EnemyCloneShipController),
}

/// The speed with which a pilot reckons its shots to fly: that of the
/// ship's first weapon, or the default for a ship without one.
pub open spec fn prediction_speed_spec(ship: ShipView) -> i64 {
    if ship.weapons.len() > 0 {
        ship.weapons[0].bullet_speed
    } else {
        DEFAULT_PREDICTION_SPEED
    }
}

fn prediction_speed(ship: &Ship) -> (r: i64)
    ensures
        r == prediction_speed_spec(ship@),
{
    if ship.weapons.len() > 0 {
        ship.weapons[0].bullet_speed()
    } else {
        DEFAULT_PREDICTION_SPEED
    }
}

/// How far, in absolute angle, the line from `from` to `to` lies off the
/// heading `heading`.
pub open spec fn bearing_off_spec(from: Vec2, to: Vec2, heading: Direction) -> int {
    magnitude(Direction::along_spec(to.minus_spec(from)).minus_spec(heading).angle() as int)
}

fn bearing_off(from: Vec2, to: Vec2, heading: Direction) -> (r: i64)
    ensures
        r == bearing_off_spec(from, to, heading),
{
    let difference = Direction::new_from_vec(to.minus(from)).minus(heading).get();
    if difference < 0 {
        -difference
    } else {
        difference
    }
}

impl ShipController for EmptyShipController {
    open spec fn thrusts(&self, ship: ShipView, game: SnapshotView) -> bool {
        false
    }

    open spec fn rotation(&self, ship: ShipView, game: SnapshotView) -> RotationDirection {
        RotationDirection::Straight
    }

    fn is_thrusting(&self, ship: &Ship, game: &Snapshot) -> (r: bool)
        ensures
            r == self.thrusts(ship@, game@),
    {
        false
    }

    fn get_rotation(&self, ship: &Ship, game: &Snapshot) -> (r: RotationDirection)
        ensures
            r == self.rotation(ship@, game@),
    {
        RotationDirection::Straight
    }
}

impl ShipController for KeyboardShipController {
    open spec fn thrusts(&self, ship: ShipView, game: SnapshotView) -> bool {
        game.input.thrust_held
    }

    /// Left or right by the key held; neither where both or none are.
    open spec fn rotation(&self, ship: ShipView, game: SnapshotView) -> RotationDirection {
        if game.input.turn_left_held == game.input.turn_right_held {
            RotationDirection::Straight
        } else if game.input.turn_right_held {
            RotationDirection::Right
        } else {
            RotationDirection::Left
        }
    }

    fn is_thrusting(&self, ship: &Ship, game: &Snapshot) -> (r: bool)
        ensures
            r == self.thrusts(ship@, game@),
    {
        game.input.thrust_held
    }

    fn get_rotation(&self, ship: &Ship, game: &Snapshot) -> (r: RotationDirection)
        ensures
            r == self.rotation(ship@, game@),
    {
        let mut rotate: i32 = 0;
        if game.input.turn_left_held {
            rotate -= 1;
        }
        if game.input.turn_right_held {
            rotate += 1;
        }
        RotationDirection::from_i32(rotate)
    }
}

impl ShipController for MouseShipController {
    open spec fn thrusts(&self, ship: ShipView, game: SnapshotView) -> bool {
        game.input.pointer_thrust_held
    }

    /// Toward the pointer, as seen from the middle of the screen.
    open spec fn rotation(&self, ship: ShipView, game: SnapshotView) -> RotationDirection {
        shorter_rotation(
            ship.game_object.direction.angle() as int,
            Direction::along_spec(game.input.pointer_from_middle_spec()).angle() as int,
            ONE_DEGREE as int,
        )
    }

    fn is_thrusting(&self, ship: &Ship, game: &Snapshot) -> (r: bool)
        ensures
            r == self.thrusts(ship@, game@),
    {
        game.input.pointer_thrust_held
    }

    fn get_rotation(&self, ship: &Ship, game: &Snapshot) -> (r: RotationDirection)
        ensures
            r == self.rotation(ship@, game@),
    {
        let mouse_from_mid = game.input.pointer_from_middle();
        let target_direction = Direction::new_from_vec(mouse_from_mid);
        Direction::get_shorter_rotation_direction(
            ship.game_object.direction,
            target_direction,
            ONE_DEGREE,
        )
    }
}

/// Where a pilot wants to go, and how what is there moves.
#[derive(Debug, Clone, Copy)]
pub struct Target {
    pub position: Vec2,
    pub velocity: Vec2,
}

impl EnemyShipController {
    /// A pilot with the usual band of one unit around the optimal distance.
    pub open spec fn new_spec(
        base: Option<usize>,
        player_persue_distance: i64,
        player_direction_offset: i64,
    ) -> EnemyShipController {
        EnemyShipController { base, player_persue_distance, player_direction_offset, epsilon: ONE }
    }

    /// A pilot without a base that hunts within 600 units.
    pub open spec fn default_spec() -> EnemyShipController {
        EnemyShipController::new_spec(None, 600_000_000, 0)
    }

    /// The base the ship guards, where the world has it.
    pub open spec fn base_of(self, game: SnapshotView) -> Option<BaseView> {
        match self.base {
            Some(index) => if index < game.bases.len() {
                Some(game.bases[index as int])
            } else {
                None
            },
            None => None,
        }
    }

    /// Where the ship wants to go.
    ///
    /// With a base: the player, where the player is within the hunting
    /// distance of the ship and within the base's maximal distance of the
    /// base; else the base, where the ship is outside the band around the
    /// base's optimal distance; else the nearest point at the optimal
    /// distance, where the ship is inside the band; else nowhere.
    /// Without a base: the player, where within the hunting distance; else
    /// nowhere.
    pub open spec fn target_spec(self, ship: ShipView, game: SnapshotView) -> Option<Target> {
        let ship_pos = ship.game_object.position;
        let player = Target { position: game.player.position, velocity: game.player.velocity };
        let player_near = ship_pos.distance_spec(player.position) < self.player_persue_distance;
        match self.base_of(game) {
            Some(base) => {
                let base_pos = base.game_object.position;
                let base_dist = ship_pos.distance_spec(base_pos);
                if player_near && player.position.distance_spec(base_pos) < base.max_distance {
                    Some(player)
                } else if base_dist > sat_add_spec(base.optimal_distance, self.epsilon) {
                    Some(Target { position: base_pos, velocity: Vec2::zero_spec() })
                } else if base_dist < sat_sub_spec(base.optimal_distance, self.epsilon) {
                    Some(
                        Target {
                            position: base_pos.plus_spec(
                                ship_pos.minus_spec(base_pos).normalize_spec().scale_spec(
                                    base.optimal_distance,
                                ),
                            ),
                            velocity: Vec2::zero_spec(),
                        },
                    )
                } else {
                    None
                }
            },
            None => if player_near {
                Some(player)
            } else {
                None
            },
        }
    }

    /// The point the ship aims at: where its target will be when a shot
    /// gets there.
    pub open spec fn aim_point_spec(self, ship: ShipView, game: SnapshotView) -> Option<Vec2> {
        match self.target_spec(ship, game) {
            Some(target) => Some(
                lead_point_spec(
                    ship.game_object.position,
                    target.position,
                    target.velocity,
                    prediction_speed_spec(ship),
                ),
            ),
            None => None,
        }
    }

    /// A pilot with the usual band of one unit around the optimal distance.
    pub fn new(base: Option<usize>, player_persue_distance: i64, player_direction_offset: i64)
        -> (r: Self)
        ensures
            r == EnemyShipController::new_spec(
                base,
                player_persue_distance,
                player_direction_offset,
            ),
    {
        EnemyShipController { base, player_persue_distance, player_direction_offset, epsilon: ONE }
    }

    /// Where the ship wants to go.
    pub fn get_target(&self, ship: &Ship, game: &Snapshot) -> (r: Option<Target>)
        ensures
            r == self.target_spec(ship@, game@),
    {
        let ship_pos = ship.game_object.position;
        let player_pos = game.player.position;
        let player_dist = ship_pos.distance(player_pos);
        let player_near = player_dist < self.player_persue_distance;
        let mut bound: Option<usize> = None;
        if let Some(index) = self.base {
            if index < game.bases.len() {
                bound = Some(index);
            }
        }
        if let Some(index) = bound {
            let base = &game.bases[index];
            let base_pos = base.game_object.position;
            let base_dist = ship_pos.distance(base_pos);
            let player_base_dist = player_pos.distance(base_pos);
            if player_near && player_base_dist < base.max_distance {
                return Some(Target { position: player_pos, velocity: game.player.velocity });
            }
            if base_dist > sat_add(base.optimal_distance, self.epsilon) {
                return Some(Target { position: base_pos, velocity: Vec2::zero() });
            }
            if base_dist < sat_sub(base.optimal_distance, self.epsilon) {
                let direction_vec_from_base = ship_pos.minus(base_pos).normalize();
                return Some(
                    Target {
                        position: base_pos.plus(
                            direction_vec_from_base.scale(base.optimal_distance),
                        ),
                        velocity: Vec2::zero(),
                    },
                );
            }
            return None;
        }
        if player_near {
            return Some(Target { position: player_pos, velocity: game.player.velocity });
        }
        None
    }

    /// The point the ship aims at.
    pub fn get_aim_point(&self, ship: &Ship, game: &Snapshot) -> (r: Option<Vec2>)
        ensures
            r == self.aim_point_spec(ship@, game@),
    {
        match self.get_target(ship, game) {
            Some(target) => Some(
                lead_point(
                    ship.game_object.position,
                    target.position,
                    target.velocity,
                    prediction_speed(ship),
                ),
            ),
            None => None,
        }
    }
}

impl Default for EnemyShipController {
    fn default() -> (r: Self)
        ensures
            r == EnemyShipController::default_spec(),
    {
        EnemyShipController {
            base: None,
            player_persue_distance: 600 * ONE,
            player_direction_offset: 0,
            epsilon: ONE,
        }
    }
}

impl ShipController for EnemyShipController {
    /// Thrusts where the aim point lies ahead of the ship.
    open spec fn thrusts(&self, ship: ShipView, game: SnapshotView) -> bool {
        match self.aim_point_spec(ship, game) {
            Some(aim) => Vec2::from_angle_spec(ship.game_object.direction.angle()).dot_spec(
                aim.minus_spec(ship.game_object.position),
            ) > 0,
            None => false,
        }
    }

    /// Turns toward the aim point, beside it by the pilot's offset.
    open spec fn rotation(&self, ship: ShipView, game: SnapshotView) -> RotationDirection {
        match self.aim_point_spec(ship, game) {
            Some(aim) => shorter_rotation(
                ship.game_object.direction.angle() as int,
                Direction::along_spec(aim.minus_spec(ship.game_object.position)).turned_spec(
                    self.player_direction_offset,
                ).angle() as int,
                ONE_DEGREE as int,
            ),
            None => RotationDirection::Straight,
        }
    }

    fn is_thrusting(&self, ship: &Ship, game: &Snapshot) -> (r: bool)
        ensures
            r == self.thrusts(ship@, game@),
    {
        if let Some(aim) = self.get_aim_point(ship, game) {
            let dot = ship.game_object.direction.get_as_vec().dot(
                aim.minus(ship.game_object.position),
            );
            return dot > 0;
        }
        false
    }

    fn get_rotation(&self, ship: &Ship, game: &Snapshot) -> (r: RotationDirection)
        ensures
            r == self.rotation(ship@, game@),
    {
        if let Some(aim) = self.get_aim_point(ship, game) {
            let offset = aim.minus(ship.game_object.position);
            let mut target_direction = Direction::new_from_vec(offset);
            target_direction.add_f32(self.player_direction_offset);
            return Direction::get_shorter_rotation_direction(
                ship.game_object.direction,
                target_direction,
                ONE_DEGREE,
            );
        }
        RotationDirection::Straight
    }
}

/// How often the clone pilot refines its reckoning of where to meet the
/// player.
pub const INTERCEPT_ROUNDS: usize = 3;

impl EnemyCloneShipController {
    /// Whether `bullet` is of the other side and flies within ten degrees
    /// of straight at `ship`.
    pub open spec fn is_bullet_threat(ship: ShipView, bullet: BulletView) -> bool {
        bullet.team != ship.team && bearing_off_spec(
            bullet.game_object.position,
            ship.game_object.position,
            bullet.game_object.direction,
        ) < TEN_DEGREES
    }

    /// The place, among the first `n` bullets, of the nearest one that
    /// threatens `ship`; of the earliest such, where several are equally
    /// near.
    pub open spec fn closest_bullet_threat_spec(ship: ShipView, bullets: Seq<BulletView>, n: nat)
        -> Option<int>
        decreases n,
    {
        if n == 0 {
            None
        } else {
            let earlier = Self::closest_bullet_threat_spec(ship, bullets, (n - 1) as nat);
            let bullet = bullets[n - 1];
            let nearer = match earlier {
                Some(best) => ship.game_object.position.distance_spec(bullet.game_object.position)
                    < ship.game_object.position.distance_spec(bullets[best].game_object.position),
                None => true,
            };
            if Self::is_bullet_threat(ship, bullet) && nearer {
                Some(n - 1)
            } else {
                earlier
            }
        }
    }

    /// Whether the player points within forty-five degrees of `ship`.
    pub open spec fn is_player_threat_spec(ship: ShipView, game: SnapshotView) -> bool {
        bearing_off_spec(game.player.position, ship.game_object.position, game.player.direction)
            < QUARTER_PI
    }

    /// The heading that takes `ship` out of the way of `bullet`: square to
    /// the bullet's flight, to the side on which the bullet will pass the
    /// ship.  The ship is reckoned to be where half its velocity takes it
    /// in the time the bullet needs to close the distance.
    pub open spec fn dodge_direction_spec(ship: ShipView, bullet: BulletView) -> Direction {
        let ship_pos = ship.game_object.position;
        let bullet_pos = bullet.game_object.position;
        let time = fx_div_spec(
            ship_pos.distance_spec(bullet_pos),
            bullet.game_object.velocity.length_spec(),
        );
        let future_ship_pos = ship_pos.plus_spec(
            ship.game_object.velocity.scale_ratio_spec(1, 2).scale_spec(time),
        );
        let miss = Direction::along_spec(future_ship_pos.minus_spec(bullet_pos)).minus_spec(
            bullet.game_object.direction,
        );
        if miss.angle() > 0 {
            bullet.game_object.direction.turned_spec(HALF_PI)
        } else {
            bullet.game_object.direction.turned_spec((-HALF_PI) as i64)
        }
    }

    /// The heading that takes `ship` out of the player's aim: three
    /// quarters of a half turn off the player's heading, to the side on
    /// which the player's aim passes the ship.
    pub open spec fn juke_direction_spec(ship: ShipView, game: SnapshotView) -> Direction {
        let miss = Direction::along_spec(
            ship.game_object.position.minus_spec(game.player.position),
        ).minus_spec(game.player.direction);
        if miss.angle() > 0 {
            game.player.direction.turned_spec(THREE_QUARTER_PI)
        } else {
            game.player.direction.turned_spec((-THREE_QUARTER_PI) as i64)
        }
    }

    /// Whether the ship's first weapon has more than half its reload time
    /// still to wait.
    pub open spec fn is_reloading_spec(ship: ShipView) -> bool {
        ship.weapons.len() > 0 && ship.weapons[0].time_until_reloaded > mul_div_spec(
            ship.weapons[0].reload_time,
            1,
            2,
        )
    }

    /// The time a shot needs to reach `aim`: the distance over the speed
    /// at which the gap closes, which is the shot's speed and the ship's
    /// own speed toward the point.
    pub open spec fn closing_time_spec(ship: ShipView, speed: i64, aim: Vec2) -> i64 {
        let ship_pos = ship.game_object.position;
        let speed_towards = ship.game_object.velocity.dot_spec(
            aim.minus_spec(ship_pos).normalize_spec(),
        );
        fx_div_spec(ship_pos.distance_spec(aim), sat_add_spec(speed, speed_towards))
    }

    /// The reckoning of where to meet the player after `rounds`
    /// refinements: the time ahead, and where the player will be by then.
    /// It starts from the player's place now.
    pub open spec fn intercept_spec(ship: ShipView, game: SnapshotView, rounds: nat) -> (
        i64,
        Vec2,
    )
        decreases rounds,
    {
        if rounds == 0 {
            (0, game.player.position)
        } else {
            let earlier = Self::intercept_spec(ship, game, (rounds - 1) as nat);
            let lookahead = Self::closing_time_spec(ship, prediction_speed_spec(ship), earlier.1);
            (lookahead, game.player.position.plus_spec(game.player.velocity.scale_spec(lookahead)))
        }
    }

    /// The heading from where the ship will be to where the player will
    /// be, after the last refinement.
    pub open spec fn intercept_direction_spec(ship: ShipView, game: SnapshotView) -> Direction {
        let (lookahead, player_pos) = Self::intercept_spec(ship, game, INTERCEPT_ROUNDS as nat);
        let future_self_pos = ship.game_object.position.plus_spec(
            ship.game_object.velocity.scale_spec(lookahead),
        );
        Direction::along_spec(player_pos.minus_spec(future_self_pos))
    }

    /// The heading the ship wants: away from the nearest threatening
    /// bullet; else, while the player aims at the ship and the ship's own
    /// weapon is reloading, out of the player's aim; else to where its
    /// shots will meet the player.
    pub open spec fn target_direction_spec(ship: ShipView, game: SnapshotView) -> Direction {
        match Self::closest_bullet_threat_spec(ship, game.bullets, game.bullets.len()) {
            Some(index) => Self::dodge_direction_spec(ship, game.bullets[index]),
            None => if Self::is_player_threat_spec(ship, game) && Self::is_reloading_spec(ship) {
                Self::juke_direction_spec(ship, game)
            } else {
                Self::intercept_direction_spec(ship, game)
            },
        }
    }

    /// The place in `game.bullets` of the nearest bullet that threatens
    /// `ship`.
    pub fn get_closest_bullet_threat(ship: &Ship, game: &Snapshot) -> (r: Option<usize>)
        ensures
            r matches Some(index) ==> index < game@.bullets.len(),
            (match r {
                Some(index) => Some(index as int),
                None => None,
            }) == Self::closest_bullet_threat_spec(ship@, game@.bullets, game@.bullets.len()),
    {
        let mut closest_distance: i64 = 0;
        let mut closest_bullet: Option<usize> = None;
        let count = game.bullets.len();
        let mut i: usize = 0;
        while i < count
            invariant
                i <= count,
                count == game.bullets.len(),
                closest_bullet matches Some(index) ==> index < i && closest_distance
                    == ship@.game_object.position.distance_spec(
                    game@.bullets[index as int].game_object.position,
                ),
                (match closest_bullet {
                    Some(index) => Some(index as int),
                    None => None,
                }) == Self::closest_bullet_threat_spec(ship@, game@.bullets, i as nat),
            decreases count - i,
        {
            let bullet = &game.bullets[i];
            assert(game@.bullets[i as int] == bullet@);
            if bullet.team != ship.team {
                let off = bearing_off(
                    bullet.game_object.position,
                    ship.game_object.position,
                    bullet.game_object.direction,
                );
                if off < TEN_DEGREES {
                    let distance = ship.game_object.position.distance(bullet.game_object.position);
                    if closest_bullet.is_none() || distance < closest_distance {
                        closest_distance = distance;
                        closest_bullet = Some(i);
                    }
                }
            }
            i += 1;
        }
        closest_bullet
    }

    /// Whether the player points within forty-five degrees of `ship`.
    pub fn is_player_threat(ship: &Ship, game: &Snapshot) -> (r: bool)
        ensures
            r == Self::is_player_threat_spec(ship@, game@),
    {
        bearing_off(game.player.position, ship.game_object.position, game.player.direction)
            < QUARTER_PI
    }

    fn is_reloading(ship: &Ship) -> (r: bool)
        ensures
            r == Self::is_reloading_spec(ship@),
    {
        if ship.weapons.len() > 0 {
            let weapon = &ship.weapons[0];
            weapon.time_until_reloaded() > mul_div(weapon.reload_time(), 1, 2)
        } else {
            false
        }
    }

    fn intercept_direction(ship: &Ship, game: &Snapshot) -> (r: Direction)
        ensures
            r == Self::intercept_direction_spec(ship@, game@),
    {
        let speed = prediction_speed(ship);
        let ship_pos = ship.game_object.position;
        let mut player_pos = game.player.position;
        let mut lookahead_seconds: i64 = 0;
        let mut round: usize = 0;
        while round < INTERCEPT_ROUNDS
            invariant
                round <= INTERCEPT_ROUNDS,
                speed == prediction_speed_spec(ship@),
                ship_pos == ship@.game_object.position,
                (lookahead_seconds, player_pos) == Self::intercept_spec(ship@, game@, round as nat),
            decreases INTERCEPT_ROUNDS - round,
        {
            let player_dist = ship_pos.distance(player_pos);
            let speed_towards_player = ship.game_object.velocity.dot(
                player_pos.minus(ship_pos).normalize(),
            );
            lookahead_seconds = fx_div(player_dist, sat_add(speed, speed_towards_player));
            player_pos = game.player.position.plus(game.player.velocity.scale(lookahead_seconds));
            round += 1;
        }
        let future_self_pos = ship_pos.plus(ship.game_object.velocity.scale(lookahead_seconds));
        Direction::new_from_vec(player_pos.minus(future_self_pos))
    }

    /// The heading the ship wants.
    pub fn get_target_direction(ship: &Ship, game: &Snapshot) -> (r: Direction)
        ensures
            r == Self::target_direction_spec(ship@, game@),
    {
        if let Some(index) = Self::get_closest_bullet_threat(ship, game) {
            let closest_bullet = &game.bullets[index];
            assert(game@.bullets[index as int] == closest_bullet@);
            let ship_pos = ship.game_object.position;
            let bullet_pos = closest_bullet.game_object.position;
            let speed = closest_bullet.game_object.velocity.length();
            let time = fx_div(ship_pos.distance(bullet_pos), speed);
            let future_ship_pos = ship_pos.plus(
                ship.game_object.velocity.scale_ratio(1, 2).scale(time),
            );
            let direction_from_bullet = Direction::new_from_vec(future_ship_pos.minus(bullet_pos));
            let bullet_miss_angle = direction_from_bullet.minus(
                closest_bullet.game_object.direction,
            );
            let mut target_direction = closest_bullet.game_object.direction;
            if bullet_miss_angle.get() > 0 {
                target_direction.add_f32(HALF_PI);
            } else {
                target_direction.add_f32(-HALF_PI);
            }
            target_direction
        } else if Self::is_player_threat(ship, game) && Self::is_reloading(ship) {
            let direction_from_player = Direction::new_from_vec(
                ship.game_object.position.minus(game.player.position),
            );
            let player_miss_angle = direction_from_player.minus(game.player.direction);
            let mut target_direction = game.player.direction;
            if player_miss_angle.get() > 0 {
                target_direction.add_f32(THREE_QUARTER_PI);
            } else {
                target_direction.add_f32(-THREE_QUARTER_PI);
            }
            target_direction
        } else {
            Self::intercept_direction(ship, game)
        }
    }
}

impl ShipController for EnemyCloneShipController {
    /// Thrusts where a bullet threatens the ship, where the player lies
    /// ahead of it, or where the player aims at it.
    open spec fn thrusts(&self, ship: ShipView, game: SnapshotView) -> bool {
        ||| Self::closest_bullet_threat_spec(ship, game.bullets, game.bullets.len()).is_some()
        ||| Vec2::from_angle_spec(ship.game_object.direction.angle()).dot_spec(
            game.player.position.minus_spec(ship.game_object.position),
        ) > 0
        ||| Self::is_player_threat_spec(ship, game)
    }

    /// Turns toward the heading the ship wants.
    open spec fn rotation(&self, ship: ShipView, game: SnapshotView) -> RotationDirection {
        shorter_rotation(
            ship.game_object.direction.angle() as int,
            Self::target_direction_spec(ship, game).angle() as int,
            ONE_DEGREE as int,
        )
    }

    fn is_thrusting(&self, ship: &Ship, game: &Snapshot) -> (r: bool)
        ensures
            r == self.thrusts(ship@, game@),
    {
        let closest_bullet = EnemyCloneShipController::get_closest_bullet_threat(ship, game);
        let dot = ship.game_object.direction.get_as_vec().dot(
            game.player.position.minus(ship.game_object.position),
        );
        closest_bullet.is_some() || dot > 0 || EnemyCloneShipController::is_player_threat(
            ship,
            game,
        )
    }

    fn get_rotation(&self, ship: &Ship, game: &Snapshot) -> (r: RotationDirection)
        ensures
            r == self.rotation(ship@, game@),
    {
        let target_direction = EnemyCloneShipController::get_target_direction(ship, game);
        Direction::get_shorter_rotation_direction(
            ship.game_object.direction,
            target_direction,
            ONE_DEGREE,
        )
    }
}

impl ShipController for PilotPolicy {
    open spec fn thrusts(&self, ship: ShipView, game: SnapshotView) -> bool {
        match self {
            PilotPolicy::Empty(c) => c.thrusts(ship, game),
            PilotPolicy::Keyboard(c) => c.thrusts(ship, game),
            PilotPolicy::Mouse(c) => c.thrusts(ship, game),
            PilotPolicy::Enemy(c) => c.thrusts(ship, game),
            PilotPolicy::EnemyClone(c) => c.thrusts(ship, game),
        }
    }

    open spec fn rotation(&self, ship: ShipView, game: SnapshotView) -> RotationDirection {
        match self {
            PilotPolicy::Empty(c) => c.rotation(ship, game),
            PilotPolicy::Keyboard(c) => c.rotation(ship, game),
            PilotPolicy::Mouse(c) => c.rotation(ship, game),
            PilotPolicy::Enemy(c) => c.rotation(ship, game),
            PilotPolicy::EnemyClone(c) => c.rotation(ship, game),
        }
    }

    fn is_thrusting(&self, ship: &Ship, game: &Snapshot) -> (r: bool)
        ensures
            r == self.thrusts(ship@, game@),
    {
        match self {
            PilotPolicy::Empty(c) => c.is_thrusting(ship, game),
            PilotPolicy::Keyboard(c) => c.is_thrusting(ship, game),
            PilotPolicy::Mouse(c) => c.is_thrusting(ship, game),
            PilotPolicy::Enemy(c) => c.is_thrusting(ship, game),
            PilotPolicy::EnemyClone(c) => c.is_thrusting(ship, game),
        }
    }

    fn get_rotation(&self, ship: &Ship, game: &Snapshot) -> (r: RotationDirection)
        ensures
            r == self.rotation(ship@, game@),
    {
        match self {
            PilotPolicy::Empty(c) => c.get_rotation(ship, game),
            PilotPolicy::Keyboard(c) => c.get_rotation(ship, game),
            PilotPolicy::Mouse(c) => c.get_rotation(ship, game),
            PilotPolicy::Enemy(c) => c.get_rotation(ship, game),
            PilotPolicy::EnemyClone(c) => c.get_rotation(ship, game),
        }
    }
}

/// The threat that the clone pilot picks is a threat, no threat is nearer,
/// and no earlier threat is as near; it picks none only where there is
/// none.
pub proof fn lemma_closest_threat_is_nearest(ship: ShipView, bullets: Seq<BulletView>, n: nat)
    requires
        n <= bullets.len(),
    ensures
        match EnemyCloneShipController::closest_bullet_threat_spec(ship, bullets, n) {
            Some(best) => {
                &&& 0 <= best < n
                &&& EnemyCloneShipController::is_bullet_threat(ship, bullets[best])
                &&& forall|j: int|
                    0 <= j < n && EnemyCloneShipController::is_bullet_threat(
                        ship,
                        #[trigger] bullets[j],
                    ) ==> {
                        let nearest = ship.game_object.position.distance_spec(
                            bullets[best].game_object.position,
                        );
                        let other = ship.game_object.position.distance_spec(
                            bullets[j].game_object.position,
                        );
                        nearest <= other && (j < best ==> nearest < other)
                    }
            },
            None => forall|j: int|
                0 <= j < n ==> !EnemyCloneShipController::is_bullet_threat(
                    ship,
                    #[trigger] bullets[j],
                ),
        },
    decreases n,
{
    if n > 0 {
        lemma_closest_threat_is_nearest(ship, bullets, (n - 1) as nat);
    }
}

} // verus!
