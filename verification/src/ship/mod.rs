//! Ships: a physical object with an engine, weapons, a pilot and a side.

pub mod controller;
pub mod enemy_ship_type;

use vstd::prelude::*;
use crate::fixed::{fx_mul, fx_mul_spec, mul_div, mul_div_spec, ONE};
use crate::game_object::draw_shape::{
    DrawShape, BEIGE, BLUE, BROWN, DARKBLUE, DARKBROWN, DARKGREEN, GOLD, GREEN, MAROON, ORANGE, RED,
    SKYBLUE,
};
use crate::game_object::{GameObject, GameObjectView};
use crate::snapshot::{Snapshot, SnapshotView};
use crate::team::Team;
use crate::trig::{HALF_PI, PI};
use crate::vector::Vec2;
use crate::weapon::bullet::{Bullet, BulletView};
use crate::weapon::controller::{EnemyCloneWeaponController, FiringPolicy, WeaponController};
use crate::weapon::{bullet_views, Firer, Weapon, WeaponView};
use controller::{
    EmptyShipController, EnemyShipController, MouseShipController, PilotPolicy, ShipController,
};
use enemy_ship_type::EnemyShipType;

verus! {

/// A sixth of a half turn.
pub const SIXTH_PI: i64 = 523_599;

/// A ship.
#[derive(Debug, Clone)]
pub struct Ship {
    pub game_object: GameObject,
    pub ship_controller: PilotPolicy,
    /// The acceleration of the engine.
    pub thrust: i64,
    /// The turn rate.
    pub rotate_speed: i64,
    pub weapons: Vec<Weapon>,
    pub team: Team,
}

/// The mathematical value of a `Ship`.
pub ghost struct ShipView {
    pub game_object: GameObjectView,
    pub ship_controller: PilotPolicy,
    pub thrust: i64,
    pub rotate_speed: i64,
    pub weapons: Seq<WeaponView>,
    pub team: Team,
}

/// The values of a sequence of weapons.
pub open spec fn weapon_views(weapons: Seq<Weapon>) -> Seq<WeaponView> {
    Seq::new(weapons.len(), |i: int| weapons[i]@)
}

impl View for Ship {
    type V = ShipView;

    open spec fn view(&self) -> ShipView {
        ShipView {
            game_object: self.game_object@,
            ship_controller: self.ship_controller,
            thrust: self.thrust,
            rotate_speed: self.rotate_speed,
            weapons: weapon_views(self.weapons@),
            team: self.team,
        }
    }
}

/// The values of a sequence of ships.
pub open spec fn ship_views(ships: Seq<Ship>) -> Seq<ShipView> {
    Seq::new(ships.len(), |i: int| ships[i]@)
}

/// The bullets that the first `n` of `weapons` let go in a step, in the
/// order of the weapons.
pub open spec fn fired_by(
    weapons: Seq<WeaponView>,
    n: nat,
    delta_t: i64,
    ship: Firer,
    game: SnapshotView,
) -> Seq<BulletView>
    decreases n,
{
    if n == 0 {
        Seq::empty()
    } else {
        let weapon = weapons[n - 1];
        fired_by(weapons, (n - 1) as nat, delta_t, ship, game) + weapon.fired(
            delta_t,
            weapon.weapon_controller.tries_to_fire(ship, game),
            ship,
        )
    }
}

impl ShipView {
    /// A live ship at rest at the origin, put together from its parts.
    pub open spec fn assembled(
        radius: i64,
        friction_multiplier: i64,
        friction_constant: i64,
        draw_shapes: Seq<DrawShape>,
        ship_controller: PilotPolicy,
        thrust: i64,
        rotate_speed: i64,
        weapons: Seq<WeaponView>,
        team: Team,
    ) -> ShipView {
        ShipView {
            game_object: GameObjectView {
                radius,
                friction_multiplier,
                friction_constant,
                draw_shapes,
                ..GameObject::default_view()
            },
            ship_controller,
            thrust,
            rotate_speed,
            weapons,
            team,
        }
    }

    /// A ship without engine, weapon or pilot, on the player's side.
    pub open spec fn default_spec() -> ShipView {
        ShipView {
            game_object: GameObject::default_view(),
            ship_controller: PilotPolicy::Empty(EmptyShipController),
            thrust: 0,
            rotate_speed: 0,
            weapons: Seq::empty(),
            team: Team::Player,
        }
    }

    /// The outlines of the player's ship, and of its clone.
    pub open spec fn player_shapes() -> Seq<DrawShape> {
        seq![
            DrawShape::circle(BLUE),
            DrawShape::polygon(3, DARKBLUE),
            DrawShape { radius_scale: 5_000_000_000, ..DrawShape::line(SKYBLUE) },
        ]
    }

    /// The player's ship at a level: each level adds thrust and turn rate.
    pub open spec fn player(level: u32) -> ShipView {
        ShipView::assembled(
            10_000_000,
            220_000,
            15_000_000,
            ShipView::player_shapes(),
            PilotPolicy::Mouse(MouseShipController),
            (200_000_000 + 20_000_000 * level) as i64,
            (1_884_956 + 100_000 * level) as i64,
            seq![WeaponView::player_weapon(level)],
            Team::Player,
        )
    }

    /// A weapon that fires whenever it can, with its own timing.
    pub open spec fn steady_weapon(bullet_lifetime: i64, reload_time: i64, bullet_speed: i64)
        -> WeaponView {
        WeaponView {
            bullet_lifetime,
            reload_time,
            bullet_speed,
            ..WeaponView::enemy_clone_weapon()
        }
    }

    /// The pilot of an enemy ship.
    pub open spec fn enemy_pilot(
        base: Option<usize>,
        player_persue_distance: i64,
        player_direction_offset: i64,
    ) -> PilotPolicy {
        PilotPolicy::Enemy(
            EnemyShipController::new_spec(base, player_persue_distance, player_direction_offset),
        )
    }

    /// The enemy ship of a kind, bound to `base`, that aims beside its
    /// mark by its kind's share of `player_direction_offset`.
    pub open spec fn enemy(
        enemy_type: EnemyShipType,
        base: Option<usize>,
        player_direction_offset: i64,
    ) -> ShipView {
        let half_offset = mul_div_spec(player_direction_offset, 1, 2);
        match enemy_type {
            EnemyShipType::UltraLowFriction => ShipView::assembled(
                10_000_000,
                950_000,
                10_000_000,
                seq![DrawShape::circle(BEIGE), DrawShape::polygon(7, BEIGE)],
                ShipView::enemy_pilot(base, 1_500_000_000, player_direction_offset),
                50_000_000,
                400_000,
                Seq::empty(),
                Team::Hostile,
            ),
            EnemyShipType::LowFriction => ShipView::assembled(
                15_000_000,
                800_000,
                10_000_000,
                seq![DrawShape::circle(RED), DrawShape::polygon(4, RED)],
                ShipView::enemy_pilot(base, 1_200_000_000, half_offset),
                100_000_000,
                800_000,
                Seq::empty(),
                Team::Hostile,
            ),
            EnemyShipType::HighFriction => ShipView::assembled(
                25_000_000,
                150_000,
                10_000_000,
                seq![DrawShape::circle(GREEN), DrawShape::polygon(6, DARKGREEN)],
                ShipView::enemy_pilot(base, 1_000_000_000, half_offset),
                300_000_000,
                1_500_000,
                Seq::empty(),
                Team::Hostile,
            ),
            EnemyShipType::Slow => ShipView::assembled(
                35_000_000,
                50_000,
                10_000_000,
                seq![DrawShape::circle(BROWN), DrawShape::polygon(5, DARKBROWN)],
                ShipView::enemy_pilot(base, 800_000_000, player_direction_offset),
                300_000_000,
                PI,
                Seq::empty(),
                Team::Hostile,
            ),
            EnemyShipType::Shoot => ShipView::assembled(
                10_000_000,
                220_000,
                15_000_000,
                seq![DrawShape::circle(BLUE), DrawShape::polygon(3, DARKBLUE)],
                ShipView::enemy_pilot(base, 1_200_000_000, 0),
                300_000_000,
                SIXTH_PI,
                seq![WeaponView::enemy_clone_weapon()],
                Team::Hostile,
            ),
            EnemyShipType::Turret => ShipView::assembled(
                25_000_000,
                220_000,
                15_000_000,
                seq![DrawShape::circle(GOLD), DrawShape::polygon(3, GOLD)],
                ShipView::enemy_pilot(base, 1_200_000_000, 0),
                30_000_000,
                PI,
                seq![ShipView::steady_weapon(8_000_000, 1_200_000, 250_000_000)],
                Team::Hostile,
            ),
            EnemyShipType::Sniper => ShipView::assembled(
                20_000_000,
                220_000,
                15_000_000,
                seq![
                    DrawShape::circle(ORANGE),
                    DrawShape::polygon(3, ORANGE),
                    DrawShape { radius_scale: 2_000_000_000, ..DrawShape::line(ORANGE) },
                ],
                ShipView::enemy_pilot(base, 1_500_000_000, 0),
                90_000_000,
                SIXTH_PI,
                seq![ShipView::steady_weapon(8_000_000, 10_000_000, 350_000_000)],
                Team::Hostile,
            ),
            EnemyShipType::Glider => ShipView::assembled(
                20_000_000,
                920_000,
                10_000_000,
                seq![DrawShape::circle(MAROON), DrawShape::polygon(3, MAROON)],
                ShipView::enemy_pilot(base, 1_500_000_000, player_direction_offset),
                50_000_000,
                HALF_PI,
                seq![ShipView::steady_weapon(10_000_000, 1_200_000, 100_000_000)],
                Team::Hostile,
            ),
            EnemyShipType::Clone => ShipView::assembled(
                10_000_000,
                220_000,
                15_000_000,
                ShipView::player_shapes(),
                ShipView::enemy_pilot(base, 1_500_000_000, 0),
                270_000_000,
                PI,
                seq![WeaponView::enemy_clone_weapon()],
                Team::Hostile,
            ),
        }
    }

    /// The ship set down `distance` from `center` in the direction
    /// `angle`, and pointing that way.
    pub open spec fn placed(self, center: Vec2, distance: i64, angle: i64) -> ShipView {
        ShipView { game_object: self.game_object.placed(center, distance, angle), ..self }
    }

    /// The ship after its pilot's wish to thrust has been granted: the
    /// thrust, over `delta_t` seconds, along the heading.
    pub open spec fn thrusted(self, delta_t: i64, game: SnapshotView) -> ShipView {
        if self.ship_controller.thrusts(self, game) {
            let heading = Vec2::from_angle_spec(self.game_object.direction.angle());
            ShipView {
                game_object: GameObjectView {
                    velocity: self.game_object.velocity.plus_spec(
                        heading.scale_spec(self.thrust).scale_spec(delta_t),
                    ),
                    ..self.game_object
                },
                ..self
            }
        } else {
            self
        }
    }

    /// The ship's body after a step.  The pilot is asked for thrust and for
    /// turn of the ship as the step found it; then the thrust is added, the
    /// heading turned, and the body moved for `delta_t` seconds.
    pub open spec fn steered(self, delta_t: i64, game: SnapshotView) -> GameObjectView {
        let thrusted = self.thrusted(delta_t, game);
        let turn = self.ship_controller.rotation(self, game);
        let increment = fx_mul_spec(
            fx_mul_spec((turn.sign() * ONE) as i64, self.rotate_speed),
            delta_t,
        );
        (GameObjectView {
            direction: thrusted.game_object.direction.turned_spec(increment),
            ..thrusted.game_object
        }).updated(delta_t)
    }

    /// What the ship's weapons read of it.
    pub open spec fn firer(self) -> Firer {
        Firer {
            position: self.game_object.position,
            velocity: self.game_object.velocity,
            radius: self.game_object.radius,
            direction: self.game_object.direction,
            team: self.team,
            bullet_speed: if self.weapons.len() > 0 {
                Some(self.weapons[0].bullet_speed)
            } else {
                None
            },
        }
    }

    /// What the ship's weapons read of it once it has moved.
    pub open spec fn firer_after(self, delta_t: i64, game: SnapshotView) -> Firer {
        (ShipView { game_object: self.steered(delta_t, game), ..self }).firer()
    }

    /// The ship after a step of `delta_t` seconds in the world `game`: the
    /// body steered and moved, and each weapon advanced against the ship
    /// as it then is.
    #[verifier::opaque]
    pub open spec fn updated(self, delta_t: i64, game: SnapshotView) -> ShipView {
        let firer = self.firer_after(delta_t, game);
        ShipView {
            game_object: self.steered(delta_t, game),
            weapons: Seq::new(
                self.weapons.len(),
                |i: int|
                    self.weapons[i].ticked(
                        delta_t,
                        self.weapons[i].weapon_controller.tries_to_fire(firer, game),
                    ),
            ),
            ..self
        }
    }

    /// The bullets the ship lets go in that step, weapon by weapon.
    #[verifier::opaque]
    pub open spec fn fired(self, delta_t: i64, game: SnapshotView) -> Seq<BulletView> {
        fired_by(
            self.weapons,
            self.weapons.len(),
            delta_t,
            self.firer_after(delta_t, game),
            game,
        )
    }
}

impl Default for Ship {
    fn default() -> (r: Ship)
        ensures
            r@ == ShipView::default_spec(),
    {
        let r = Ship {
            game_object: GameObject::default(),
            ship_controller: PilotPolicy::Empty(EmptyShipController),
            thrust: 0,
            rotate_speed: 0,
            weapons: Vec::new(),
            team: Team::Player,
        };
        assert(r@.weapons =~= Seq::empty());
        r
    }
}

fn shapes_of_two(first: DrawShape, second: DrawShape) -> (r: Vec<DrawShape>)
    ensures
        r@ == seq![first, second],
{
    let mut r: Vec<DrawShape> = Vec::new();
    r.push(first);
    r.push(second);
    assert(r@ =~= seq![first, second]);
    r
}

fn shapes_of_three(first: DrawShape, second: DrawShape, third: DrawShape) -> (r: Vec<DrawShape>)
    ensures
        r@ == seq![first, second, third],
{
    let mut r: Vec<DrawShape> = Vec::new();
    r.push(first);
    r.push(second);
    r.push(third);
    assert(r@ =~= seq![first, second, third]);
    r
}

fn no_weapons() -> (r: Vec<Weapon>)
    ensures
        weapon_views(r@) == Seq::<WeaponView>::empty(),
{
    let r: Vec<Weapon> = Vec::new();
    assert(weapon_views(r@) =~= Seq::<WeaponView>::empty());
    r
}

fn one_weapon(weapon: Weapon) -> (r: Vec<Weapon>)
    ensures
        weapon_views(r@) == seq![weapon@],
{
    let mut r: Vec<Weapon> = Vec::new();
    r.push(weapon);
    assert(weapon_views(r@) =~= seq![weapon@]);
    r
}

fn steady_weapon(bullet_lifetime: i64, reload_time: i64, bullet_speed: i64) -> (r: Weapon)
    requires
        reload_time > 0,
    ensures
        r@ == ShipView::steady_weapon(bullet_lifetime, reload_time, bullet_speed),
{
    let made = Weapon::new(
        FiringPolicy::EnemyClone(EnemyCloneWeaponController),
        reload_time,
        bullet_lifetime,
        bullet_speed,
    );
    match made {
        Some(weapon) => weapon,
        None => Weapon::new_enemy_clone_weapon(),
    }
}

fn player_shapes() -> (r: Vec<DrawShape>)
    ensures
        r@ == ShipView::player_shapes(),
{
    let circle = DrawShape::new_circle_color(BLUE);
    let triangle = DrawShape::new_polygon_color(3, DARKBLUE);
    let mut line = DrawShape::new_line_color(SKYBLUE);
    line.radius_scale = 5000 * ONE;
    shapes_of_three(circle, triangle, line)
}

fn enemy_pilot(base: Option<usize>, player_persue_distance: i64, player_direction_offset: i64)
    -> (r: PilotPolicy)
    ensures
        r == ShipView::enemy_pilot(base, player_persue_distance, player_direction_offset),
{
    PilotPolicy::Enemy(
        EnemyShipController::new(base, player_persue_distance, player_direction_offset),
    )
}

impl Ship {
    /// A live ship at rest at the origin, put together from its parts.
    pub fn assemble(
        radius: i64,
        friction_multiplier: i64,
        friction_constant: i64,
        draw_shapes: Vec<DrawShape>,
        ship_controller: PilotPolicy,
        thrust: i64,
        rotate_speed: i64,
        weapons: Vec<Weapon>,
        team: Team,
    ) -> (r: Ship)
        ensures
            r@ == ShipView::assembled(
                radius,
                friction_multiplier,
                friction_constant,
                draw_shapes@,
                ship_controller,
                thrust,
                rotate_speed,
                weapon_views(weapons@),
                team,
            ),
    {
        let mut game_object = GameObject::default();
        game_object.radius = radius;
        game_object.friction_multiplier = friction_multiplier;
        game_object.friction_constant = friction_constant;
        game_object.draw_shapes = draw_shapes;
        Ship { game_object, ship_controller, thrust, rotate_speed, weapons, team }
    }

    /// The player's ship at a level.
    pub fn new_player(level: u32) -> (r: Self)
        ensures
            r@ == ShipView::player(level),
    {
        Ship::assemble(
            10 * ONE,
            220_000,
            15 * ONE,
            player_shapes(),
            PilotPolicy::Mouse(MouseShipController),
            200_000_000 + 20_000_000 * (level as i64),
            1_884_956 + 100_000 * (level as i64),
            one_weapon(Weapon::new_player_weapon(level)),
            Team::Player,
        )
    }

    /// The enemy ship of a kind.
    pub fn new_enemy(
        enemy_type: EnemyShipType,
        base: Option<usize>,
        player_direction_offset: i64,
    ) -> (r: Self)
        ensures
            r@ == ShipView::enemy(enemy_type, base, player_direction_offset),
    {
        match enemy_type {
            EnemyShipType::UltraLowFriction => Ship::new_enemy_ultra_low_friction(
                base,
                player_direction_offset,
            ),
            EnemyShipType::LowFriction => Ship::new_enemy_low_friction(
                base,
                player_direction_offset,
            ),
            EnemyShipType::HighFriction => Ship::new_enemy_hi_friction(
                base,
                player_direction_offset,
            ),
            EnemyShipType::Slow => Ship::new_enemy_slow(base, player_direction_offset),
            EnemyShipType::Shoot => Ship::new_enemy_shoot(base, player_direction_offset),
            EnemyShipType::Turret => Ship::new_enemy_turret(base, player_direction_offset),
            EnemyShipType::Sniper => Ship::new_enemy_sniper(base, player_direction_offset),
            EnemyShipType::Glider => Ship::new_enemy_glider(base, player_direction_offset),
            EnemyShipType::Clone => Ship::new_player_clone(base, player_direction_offset),
        }
    }

    fn new_player_clone(base: Option<usize>, _player_direction_offset: i64) -> (r: Self)
        ensures
            r@ == ShipView::enemy(EnemyShipType::Clone, base, _player_direction_offset),
    {
        Ship::assemble(
            10 * ONE,
            220_000,
            15 * ONE,
            player_shapes(),
            enemy_pilot(base, 1500 * ONE, 0),
            270 * ONE,
            PI,
            one_weapon(Weapon::new_enemy_clone_weapon()),
            Team::Hostile,
        )
    }

    fn new_enemy_ultra_low_friction(base: Option<usize>, player_direction_offset: i64) -> (r:
        Self)
        ensures
            r@ == ShipView::enemy(EnemyShipType::UltraLowFriction, base, player_direction_offset),
    {
        Ship::assemble(
            10 * ONE,
            950_000,
            10 * ONE,
            shapes_of_two(DrawShape::new_circle_color(BEIGE), DrawShape::new_polygon_color(7, BEIGE)),
            enemy_pilot(base, 1500 * ONE, player_direction_offset),
            50 * ONE,
            400_000,
            no_weapons(),
            Team::Hostile,
        )
    }

    fn new_enemy_low_friction(base: Option<usize>, player_direction_offset: i64) -> (r: Self)
        ensures
            r@ == ShipView::enemy(EnemyShipType::LowFriction, base, player_direction_offset),
    {
        Ship::assemble(
            15 * ONE,
            800_000,
            10 * ONE,
            shapes_of_two(DrawShape::new_circle_color(RED), DrawShape::new_polygon_color(4, RED)),
            enemy_pilot(base, 1200 * ONE, mul_div(player_direction_offset, 1, 2)),
            100 * ONE,
            800_000,
            no_weapons(),
            Team::Hostile,
        )
    }

    fn new_enemy_hi_friction(base: Option<usize>, player_direction_offset: i64) -> (r: Self)
        ensures
            r@ == ShipView::enemy(EnemyShipType::HighFriction, base, player_direction_offset),
    {
        Ship::assemble(
            25 * ONE,
            150_000,
            10 * ONE,
            shapes_of_two(
                DrawShape::new_circle_color(GREEN),
                DrawShape::new_polygon_color(6, DARKGREEN),
            ),
            enemy_pilot(base, 1000 * ONE, mul_div(player_direction_offset, 1, 2)),
            300 * ONE,
            1_500_000,
            no_weapons(),
            Team::Hostile,
        )
    }

    fn new_enemy_slow(base: Option<usize>, player_direction_offset: i64) -> (r: Self)
        ensures
            r@ == ShipView::enemy(EnemyShipType::Slow, base, player_direction_offset),
    {
        Ship::assemble(
            35 * ONE,
            50_000,
            10 * ONE,
            shapes_of_two(
                DrawShape::new_circle_color(BROWN),
                DrawShape::new_polygon_color(5, DARKBROWN),
            ),
            enemy_pilot(base, 800 * ONE, player_direction_offset),
            300 * ONE,
            PI,
            no_weapons(),
            Team::Hostile,
        )
    }

    fn new_enemy_shoot(base: Option<usize>, _player_direction_offset: i64) -> (r: Self)
        ensures
            r@ == ShipView::enemy(EnemyShipType::Shoot, base, _player_direction_offset),
    {
        Ship::assemble(
            10 * ONE,
            220_000,
            15 * ONE,
            shapes_of_two(
                DrawShape::new_circle_color(BLUE),
                DrawShape::new_polygon_color(3, DARKBLUE),
            ),
            enemy_pilot(base, 1200 * ONE, 0),
            300 * ONE,
            SIXTH_PI,
            one_weapon(Weapon::new_enemy_clone_weapon()),
            Team::Hostile,
        )
    }

    fn new_enemy_turret(base: Option<usize>, _player_direction_offset: i64) -> (r: Self)
        ensures
            r@ == ShipView::enemy(EnemyShipType::Turret, base, _player_direction_offset),
    {
        Ship::assemble(
            25 * ONE,
            220_000,
            15 * ONE,
            shapes_of_two(DrawShape::new_circle_color(GOLD), DrawShape::new_polygon_color(3, GOLD)),
            enemy_pilot(base, 1200 * ONE, 0),
            30 * ONE,
            PI,
            one_weapon(steady_weapon(8 * ONE, 1_200_000, 250 * ONE)),
            Team::Hostile,
        )
    }

    fn new_enemy_sniper(base: Option<usize>, _player_direction_offset: i64) -> (r: Self)
        ensures
            r@ == ShipView::enemy(EnemyShipType::Sniper, base, _player_direction_offset),
    {
        let circle = DrawShape::new_circle_color(ORANGE);
        let tri = DrawShape::new_polygon_color(3, ORANGE);
        let mut line = DrawShape::new_line_color(ORANGE);
        line.radius_scale = 2000 * ONE;
        let shapes = shapes_of_three(circle, tri, line);
        assert(shapes@ =~= seq![
            DrawShape::circle(ORANGE),
            DrawShape::polygon(3, ORANGE),
            DrawShape { radius_scale: 2_000_000_000, ..DrawShape::line(ORANGE) },
        ]);
        Ship::assemble(
            20 * ONE,
            220_000,
            15 * ONE,
            shapes,
            enemy_pilot(base, 1500 * ONE, 0),
            90 * ONE,
            SIXTH_PI,
            one_weapon(steady_weapon(8 * ONE, 10 * ONE, 350 * ONE)),
            Team::Hostile,
        )
    }

    fn new_enemy_glider(base: Option<usize>, player_direction_offset: i64) -> (r: Self)
        ensures
            r@ == ShipView::enemy(EnemyShipType::Glider, base, player_direction_offset),
    {
        Ship::assemble(
            20 * ONE,
            920_000,
            10 * ONE,
            shapes_of_two(
                DrawShape::new_circle_color(MAROON),
                DrawShape::new_polygon_color(3, MAROON),
            ),
            enemy_pilot(base, 1500 * ONE, player_direction_offset),
            50 * ONE,
            HALF_PI,
            one_weapon(steady_weapon(10 * ONE, 1_200_000, 100 * ONE)),
            Team::Hostile,
        )
    }

    /// What the ship's weapons read of it.
    pub fn firer(&self) -> (r: Firer)
        ensures
            r == self@.firer(),
    {
        Firer {
            position: self.game_object.position,
            velocity: self.game_object.velocity,
            radius: self.game_object.radius,
            direction: self.game_object.direction,
            team: self.team,
            bullet_speed: if self.weapons.len() > 0 {
                Some(self.weapons[0].bullet_speed())
            } else {
                None
            },
        }
    }

    /// Advances the ship by `delta_t` seconds in the world `game`, and
    /// appends to `bullets_to_add` the bullets it lets go.
    pub fn update(&mut self, delta_t: i64, game: &Snapshot, bullets_to_add: &mut Vec<Bullet>)
        ensures
            final(self)@ == old(self)@.updated(delta_t, game@),
            bullet_views(final(bullets_to_add)@) == bullet_views(old(bullets_to_add)@) + old(
                self,
            )@.fired(delta_t, game@),
    {
        reveal(ShipView::updated);
        reveal(ShipView::fired);
        let ghost before = self@;
        let ghost start = bullet_views(bullets_to_add@);
        let pilot = self.ship_controller;
        let is_thrusting = pilot.is_thrusting(self, game);
        let rotation = pilot.get_rotation(self, game);
        if is_thrusting {
            let heading = self.game_object.direction.get_as_vec();
            self.game_object.velocity = self.game_object.velocity.plus(
                heading.scale(self.thrust).scale(delta_t),
            );
        }
        assert(self@ == before.thrusted(delta_t, game@));
        let rotation = rotation.to_f32();
        self.game_object.direction.add_f32(fx_mul(fx_mul(rotation, self.rotate_speed), delta_t));
        self.game_object.update(delta_t);
        assert(self.game_object@ == before.steered(delta_t, game@));
        let firer = self.firer();
        assert(firer == before.firer_after(delta_t, game@));
        let count = self.weapons.len();
        let mut i: usize = 0;
        while i < count
            invariant
                i <= count,
                count == self.weapons.len(),
                count == before.weapons.len(),
                self.game_object@ == before.steered(delta_t, game@),
                self.ship_controller == before.ship_controller,
                self.thrust == before.thrust,
                self.rotate_speed == before.rotate_speed,
                self.team == before.team,
                firer == before.firer_after(delta_t, game@),
                forall|j: int|
                    0 <= j < i ==> (#[trigger] self.weapons@[j])@ == before.weapons[j].ticked(
                        delta_t,
                        before.weapons[j].weapon_controller.tries_to_fire(firer, game@),
                    ),
                forall|j: int| i <= j < count ==> (#[trigger] self.weapons@[j])@ == before.weapons[j],
                bullet_views(bullets_to_add@) == start + fired_by(
                    before.weapons,
                    i as nat,
                    delta_t,
                    firer,
                    game@,
                ),
            decreases count - i,
        {
            let ghost fired_earlier = fired_by(before.weapons, i as nat, delta_t, firer, game@);
            let mut weapon = self.weapons[i];
            weapon.update(delta_t, &firer, game, bullets_to_add);
            self.weapons[i] = weapon;
            proof {
                let fired_now = before.weapons[i as int].fired(
                    delta_t,
                    before.weapons[i as int].weapon_controller.tries_to_fire(firer, game@),
                    firer,
                );
                assert(start + fired_earlier + fired_now =~= start + (fired_earlier + fired_now));
            }
            i += 1;
        }
        assert(self@.weapons =~= before.updated(delta_t, game@).weapons);
    }
}

} // verus!
