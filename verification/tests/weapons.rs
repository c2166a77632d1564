use space_game::base::Base;
use space_game::direction::Direction;
use space_game::fixed::ONE;
use space_game::game_object::draw_shape::{ShapeType, BLACK};
use space_game::game_object::health_status::HealthStatus;
use space_game::input::Input;
use space_game::snapshot::{Pose, Snapshot};
use space_game::team::Team;
use space_game::trig::{HALF_PI, PI};
use space_game::vector::Vec2;
use space_game::weapon::bullet::Bullet;
use space_game::weapon::controller::{
    lead_point, EnemyCloneWeaponController, EnemyWeaponController, FiringPolicy,
    KeyboardWeaponController, MouseWeaponController, WeaponController,
};
use space_game::weapon::{Firer, Weapon};

fn firer_at(x: i64, y: i64, angle: i64) -> Firer {
    Firer {
        position: Vec2::new(x, y),
        velocity: Vec2::new(0, 0),
        radius: 10 * ONE,
        direction: Direction::new(angle),
        team: Team::Hostile,
        bullet_speed: Some(200 * ONE),
    }
}

fn player_at(x: i64, y: i64, vx: i64, vy: i64) -> Pose {
    Pose {
        position: Vec2::new(x, y),
        velocity: Vec2::new(vx, vy),
        direction: Direction::new(0),
    }
}

fn always_firing(reload_time: i64) -> Weapon {
    Weapon::new(
        FiringPolicy::EnemyClone(EnemyCloneWeaponController),
        reload_time,
        5 * ONE,
        200 * ONE,
    )
    .unwrap()
}

#[test]
fn a_weapon_needs_a_positive_reload_time() {
    let policy = FiringPolicy::Keyboard(KeyboardWeaponController);
    assert!(Weapon::new(policy, 0, ONE, ONE).is_none());
    assert!(Weapon::new(policy, -ONE, ONE, ONE).is_none());
    let weapon = Weapon::new(policy, 1, 2, 3).unwrap();
    assert_eq!(weapon.reload_time(), 1);
    assert_eq!(weapon.bullet_lifetime(), 2);
    assert_eq!(weapon.bullet_speed(), 3);
    assert_eq!(weapon.time_until_reloaded(), 0);
    assert_eq!(weapon.weapon_controller(), policy);
}

#[test]
fn the_player_weapon_grows_with_the_level() {
    let weapon = Weapon::new_player_weapon(0);
    assert_eq!(weapon.bullet_speed(), 300 * ONE);
    assert_eq!(weapon.reload_time(), 800_000);
    assert_eq!(weapon.bullet_lifetime(), 2 * ONE);
    assert_eq!(weapon.time_until_reloaded(), 0);
    assert_eq!(weapon.weapon_controller(), FiringPolicy::Mouse(MouseWeaponController));
    let weapon = Weapon::new_player_weapon(3);
    assert_eq!(weapon.bullet_speed(), 450 * ONE);
    assert_eq!(weapon.reload_time(), 500_000);
    assert_eq!(weapon.bullet_lifetime(), 1_333_333);
}

#[test]
fn the_player_weapon_always_reloads() {
    let weapon = Weapon::new_player_weapon(u32::MAX);
    assert_eq!(weapon.reload_time(), 1);
    assert_eq!(weapon.bullet_speed(), 214_748_365_050 * ONE);
}

#[test]
fn the_enemy_weapons() {
    let weapon = Weapon::new_enemy_weapon();
    assert_eq!(weapon.reload_time(), 2_500_000);
    assert_eq!(weapon.bullet_lifetime(), 5 * ONE);
    assert_eq!(weapon.bullet_speed(), 200 * ONE);
    assert_eq!(weapon.weapon_controller(), FiringPolicy::Enemy(EnemyWeaponController));
    let weapon = Weapon::new_enemy_clone_weapon();
    assert_eq!(weapon.reload_time(), ONE);
    assert_eq!(weapon.bullet_lifetime(), 5 * ONE);
    assert_eq!(weapon.bullet_speed(), 200 * ONE);
    assert_eq!(weapon.weapon_controller(), FiringPolicy::EnemyClone(EnemyCloneWeaponController));
}

#[test]
fn a_bullet_leaves_from_the_rim_with_the_ships_velocity_added() {
    let mut ship = firer_at(100 * ONE, 50 * ONE, 0);
    ship.velocity = Vec2::new(10 * ONE, -5 * ONE);
    ship.team = Team::Player;
    let bullet = Bullet::new_bullet(&ship, 3 * ONE, 200 * ONE);
    assert_eq!(bullet.game_object.position, Vec2::new(110 * ONE, 50 * ONE));
    assert_eq!(bullet.game_object.velocity, Vec2::new(210 * ONE, -5 * ONE));
    assert_eq!(bullet.game_object.radius, 2 * ONE);
    assert_eq!(bullet.game_object.direction.get(), -23_801);
    assert_eq!(bullet.game_object.friction_constant, 0);
    assert_eq!(bullet.game_object.friction_multiplier, ONE);
    assert_eq!(bullet.game_object.health_status, HealthStatus::Alive);
    assert_eq!(bullet.game_object.draw_shapes.len(), 1);
    assert_eq!(bullet.game_object.draw_shapes[0].shape_type, ShapeType::Circle);
    assert_eq!(bullet.game_object.draw_shapes[0].color, BLACK);
    assert_eq!(bullet.lifetime_remaining, 3 * ONE);
    assert_eq!(bullet.team, Team::Player);
}

#[test]
fn a_bullet_flies_along_the_heading() {
    let ship = firer_at(0, 0, PI);
    let bullet = Bullet::new_bullet(&ship, ONE, 100 * ONE);
    assert_eq!(bullet.game_object.position, Vec2::new(-10 * ONE, 0));
    assert_eq!(bullet.game_object.velocity, Vec2::new(-100 * ONE, 0));
    assert_eq!(bullet.game_object.direction.get(), PI);
    assert_eq!(bullet.team, Team::Hostile);
}

#[test]
fn a_bullet_ages_as_it_flies() {
    let ship = firer_at(0, 0, 0);
    let mut bullet = Bullet::new_bullet(&ship, ONE, 100 * ONE);
    bullet.update(250_000);
    assert_eq!(bullet.lifetime_remaining, 750_000);
    assert_eq!(bullet.game_object.position, Vec2::new(35 * ONE, 0));
    assert_eq!(bullet.game_object.velocity, Vec2::new(100 * ONE, 0));
    bullet.update(ONE);
    assert_eq!(bullet.lifetime_remaining, -250_000);
}

#[test]
fn catch_up_fire_lets_go_every_overdue_shot() {
    let bullets: Vec<Bullet> = Vec::new();
    let bases: Vec<Base> = Vec::new();
    let world = Snapshot {
        player: player_at(0, 0, 0, 0),
        bullets: &bullets,
        bases: &bases,
        input: Input::idle(),
    };
    let ship = firer_at(0, 0, 0);
    let mut weapon = always_firing(ONE);
    weapon.set_time_until_reloaded(-3_500_000);
    let mut fired: Vec<Bullet> = Vec::new();
    weapon.update(16_000, &ship, &world, &mut fired);
    assert_eq!(fired.len(), 4);
    assert_eq!(weapon.time_until_reloaded(), 484_000);
    assert!(weapon.time_until_reloaded() > 0 && weapon.time_until_reloaded() <= ONE);
    for bullet in &fired {
        assert_eq!(bullet.game_object.position, Vec2::new(10 * ONE, 0));
        assert_eq!(bullet.game_object.velocity, Vec2::new(200 * ONE, 0));
        assert_eq!(bullet.lifetime_remaining, 5 * ONE);
        assert_eq!(bullet.team, Team::Hostile);
    }
}

#[test]
fn a_ready_weapon_fires_once() {
    let bullets: Vec<Bullet> = Vec::new();
    let bases: Vec<Base> = Vec::new();
    let world = Snapshot {
        player: player_at(0, 0, 0, 0),
        bullets: &bullets,
        bases: &bases,
        input: Input::idle(),
    };
    let ship = firer_at(0, 0, 0);
    let mut weapon = always_firing(ONE);
    let mut fired: Vec<Bullet> = Vec::new();
    weapon.update(16_000, &ship, &world, &mut fired);
    assert_eq!(fired.len(), 1);
    assert_eq!(weapon.time_until_reloaded(), 984_000);
    weapon.update(16_000, &ship, &world, &mut fired);
    assert_eq!(fired.len(), 1);
    assert_eq!(weapon.time_until_reloaded(), 968_000);
}

#[test]
fn a_timer_at_zero_fires_and_a_timer_at_a_whole_reload_fires_twice() {
    let bullets: Vec<Bullet> = Vec::new();
    let bases: Vec<Base> = Vec::new();
    let world = Snapshot {
        player: player_at(0, 0, 0, 0),
        bullets: &bullets,
        bases: &bases,
        input: Input::idle(),
    };
    let ship = firer_at(0, 0, 0);
    let mut weapon = always_firing(ONE);
    weapon.set_time_until_reloaded(16_000);
    let mut fired: Vec<Bullet> = Vec::new();
    weapon.update(16_000, &ship, &world, &mut fired);
    assert_eq!(fired.len(), 1);
    assert_eq!(weapon.time_until_reloaded(), ONE);
    weapon.set_time_until_reloaded(-ONE);
    weapon.update(0, &ship, &world, &mut fired);
    assert_eq!(fired.len(), 3);
    assert_eq!(weapon.time_until_reloaded(), ONE);
}

#[test]
fn a_silent_weapon_banks_no_credit() {
    let bullets: Vec<Bullet> = Vec::new();
    let bases: Vec<Base> = Vec::new();
    let world = Snapshot {
        player: player_at(0, 0, 0, 0),
        bullets: &bullets,
        bases: &bases,
        input: Input::idle(),
    };
    let ship = firer_at(0, 0, 0);
    let mut weapon =
        Weapon::new(FiringPolicy::Keyboard(KeyboardWeaponController), ONE, ONE, ONE).unwrap();
    weapon.set_time_until_reloaded(100_000);
    let mut fired: Vec<Bullet> = Vec::new();
    weapon.update(16_000, &ship, &world, &mut fired);
    assert_eq!(weapon.time_until_reloaded(), 84_000);
    weapon.update(ONE, &ship, &world, &mut fired);
    assert_eq!(weapon.time_until_reloaded(), 0);
    weapon.update(ONE, &ship, &world, &mut fired);
    assert_eq!(weapon.time_until_reloaded(), 0);
    assert!(fired.is_empty());
}

#[test]
fn the_keys_and_the_pointer_fire_their_weapons() {
    let bullets: Vec<Bullet> = Vec::new();
    let bases: Vec<Base> = Vec::new();
    let mut input = Input::idle();
    let ship = firer_at(0, 0, 0);
    {
        let world =
            Snapshot { player: player_at(0, 0, 0, 0), bullets: &bullets, bases: &bases, input };
        assert!(!KeyboardWeaponController.is_trying_to_fire(&ship, &world));
        assert!(!MouseWeaponController.is_trying_to_fire(&ship, &world));
        assert!(EnemyCloneWeaponController.is_trying_to_fire(&ship, &world));
    }
    input.fire_held = true;
    {
        let world =
            Snapshot { player: player_at(0, 0, 0, 0), bullets: &bullets, bases: &bases, input };
        assert!(KeyboardWeaponController.is_trying_to_fire(&ship, &world));
        assert!(!MouseWeaponController.is_trying_to_fire(&ship, &world));
        assert!(FiringPolicy::Keyboard(KeyboardWeaponController).is_trying_to_fire(&ship, &world));
        assert!(!FiringPolicy::Mouse(MouseWeaponController).is_trying_to_fire(&ship, &world));
    }
    input.fire_held = false;
    input.pointer_fire_held = true;
    {
        let world =
            Snapshot { player: player_at(0, 0, 0, 0), bullets: &bullets, bases: &bases, input };
        assert!(!KeyboardWeaponController.is_trying_to_fire(&ship, &world));
        assert!(MouseWeaponController.is_trying_to_fire(&ship, &world));
    }
}

#[test]
fn the_lead_point_is_where_the_target_will_be() {
    let from = Vec2::new(0, 0);
    let target = Vec2::new(300 * ONE, 400 * ONE);
    let velocity = Vec2::new(10 * ONE, -20 * ONE);
    assert_eq!(
        lead_point(from, target, velocity, 250 * ONE),
        Vec2::new(320 * ONE, 360 * ONE)
    );
    assert_eq!(lead_point(from, target, velocity, 0), target);
    assert_eq!(lead_point(from, target, Vec2::new(0, 0), 250 * ONE), target);
}

#[test]
fn an_enemy_fires_when_it_points_at_where_the_player_will_be() {
    let bullets: Vec<Bullet> = Vec::new();
    let bases: Vec<Base> = Vec::new();
    let world = Snapshot {
        player: player_at(200 * ONE, 0, 0, 100 * ONE),
        bullets: &bullets,
        bases: &bases,
        input: Input::idle(),
    };
    // The player is one second away and will then be at (200, 100).
    let on_the_mark = firer_at(0, 0, 463_651);
    let within_ten_degrees = firer_at(0, 0, 463_651 + 174_000);
    let outside_ten_degrees = firer_at(0, 0, 463_651 + 175_000);
    let at_the_player_now = firer_at(0, 0, 0);
    assert!(EnemyWeaponController.is_trying_to_fire(&on_the_mark, &world));
    assert!(EnemyWeaponController.is_trying_to_fire(&within_ten_degrees, &world));
    assert!(!EnemyWeaponController.is_trying_to_fire(&outside_ten_degrees, &world));
    assert!(!EnemyWeaponController.is_trying_to_fire(&at_the_player_now, &world));
    assert!(FiringPolicy::Enemy(EnemyWeaponController).is_trying_to_fire(&on_the_mark, &world));
}

#[test]
fn an_enemy_without_a_weapon_never_fires() {
    let bullets: Vec<Bullet> = Vec::new();
    let bases: Vec<Base> = Vec::new();
    let world = Snapshot {
        player: player_at(200 * ONE, 0, 0, 0),
        bullets: &bullets,
        bases: &bases,
        input: Input::idle(),
    };
    let mut ship = firer_at(0, 0, 0);
    assert!(EnemyWeaponController.is_trying_to_fire(&ship, &world));
    ship.bullet_speed = None;
    assert!(!EnemyWeaponController.is_trying_to_fire(&ship, &world));
}

#[test]
fn an_enemy_with_a_still_weapon_aims_at_the_player_now() {
    let bullets: Vec<Bullet> = Vec::new();
    let bases: Vec<Base> = Vec::new();
    let world = Snapshot {
        player: player_at(0, 200 * ONE, 500 * ONE, 0),
        bullets: &bullets,
        bases: &bases,
        input: Input::idle(),
    };
    let mut ship = firer_at(0, 0, HALF_PI);
    ship.bullet_speed = Some(0);
    assert!(EnemyWeaponController.is_trying_to_fire(&ship, &world));
}
