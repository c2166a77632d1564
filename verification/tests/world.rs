use macroquad::rand::srand;
use space_game::base::Base;
use space_game::camera::Camera;
use space_game::direction::Direction;
use space_game::fixed::ONE;
use space_game::game::step::{
    check_active, collect_bases, cull_bullets, cull_enemies, scan_enemies, sweep_bullets,
    UPDATE_ENEMY_RADIUS,
};
use space_game::game::{Game, HOME_BASE_RADIUS};
use space_game::game_object::draw_shape::{ShapeType, BLUE};
use space_game::game_object::health_status::HealthStatus;
use space_game::game_object::GameObject;
use space_game::input::Input;
use space_game::level::level_1::Level1;
use space_game::level::Level;
use space_game::ship::controller::{EmptyShipController, PilotPolicy};
use space_game::ship::enemy_ship_type::{EnemyCounts, EnemyShipType};
use space_game::ship::Ship;
use space_game::spawn_regions::SpawnRegion;
use space_game::team::Team;
use space_game::trig::PI;
use space_game::vector::Vec2;
use space_game::weapon::bullet::Bullet;
use space_game::weapon::controller::{EnemyCloneWeaponController, FiringPolicy};
use space_game::weapon::{Firer, Weapon};

fn empty_world() -> Game {
    Game::from_parts(Vec::new(), Vec::new(), 0)
}

fn bullet(team: Team, x: i64, y: i64, angle: i64, speed: i64, lifetime: i64) -> Bullet {
    let firer = Firer {
        position: Vec2::new(x, y),
        velocity: Vec2::new(0, 0),
        radius: 0,
        direction: Direction::new(angle),
        team,
        bullet_speed: None,
    };
    Bullet::new_bullet(&firer, lifetime, speed)
}

fn idle_enemy(x: i64, y: i64, radius: i64) -> Ship {
    let mut ship = Ship::assemble(
        radius,
        ONE,
        0,
        Vec::new(),
        PilotPolicy::Empty(EmptyShipController),
        0,
        0,
        Vec::new(),
        Team::Hostile,
    );
    ship.game_object.position = Vec2::new(x, y);
    ship
}

#[test]
fn a_world_at_its_beginning() {
    let game = empty_world();
    assert_eq!(game.player.thrust, 200 * ONE);
    assert_eq!(game.player.team, Team::Player);
    assert_eq!(game.player.game_object.position, Vec2::new(0, 0));
    assert_eq!(game.camera, Camera::default());
    assert_eq!(game.camera.zoom, ONE);
    assert_eq!(game.home_base.radius, 100 * ONE);
    assert_eq!(HOME_BASE_RADIUS, 100 * ONE);
    assert_eq!(game.home_base.position, Vec2::new(0, 0));
    assert_eq!(game.home_base.draw_shapes.len(), 1);
    assert_eq!(game.home_base.draw_shapes[0].shape_type, ShapeType::Circle);
    assert_eq!(game.home_base.draw_shapes[0].color, BLUE);
    assert!(game.bases.is_empty());
    assert!(game.enemies.is_empty());
    assert!(game.bullets.is_empty());
    assert!(!game.gameover);
    assert_eq!(game.total_enemy_count, 0);
    assert_eq!(game.player_speed_multiplier, ONE);
    assert_eq!(game.enemy_speed_multiplier, ONE);
    assert_eq!(game.collected_base_count, 0);
    assert_eq!(game.input, Input::idle());
}

#[test]
fn a_world_is_peopled_by_its_bases_and_then_its_regions() {
    srand(19);
    let bases = vec![
        Base::new(
            Vec2::new(-1000 * ONE, 0),
            EnemyCounts::new().with(EnemyShipType::Slow, 3),
            50 * ONE,
            500 * ONE,
        ),
        Base::new(
            Vec2::new(1000 * ONE, 0),
            EnemyCounts::new().with(EnemyShipType::Turret, 2),
            80 * ONE,
            500 * ONE,
        ),
    ];
    let regions = vec![SpawnRegion::new(
        EnemyCounts::new().with(EnemyShipType::Sniper, 4),
        3000 * ONE,
        6000 * ONE,
    )];
    let game = Game::from_parts(bases, regions, 2);
    assert_eq!(game.player.thrust, 240 * ONE);
    assert_eq!(game.bases.len(), 2);
    assert_eq!(game.enemies.len(), 9);
    assert_eq!(game.total_enemy_count, 9);
    for (index, enemy) in game.enemies.iter().enumerate() {
        let pilot = match enemy.ship_controller {
            PilotPolicy::Enemy(pilot) => pilot,
            _ => panic!("not an enemy pilot"),
        };
        let position = enemy.game_object.position;
        if index < 3 {
            assert_eq!(enemy.game_object.radius, 35 * ONE);
            assert_eq!(pilot.base, Some(0));
            let from_base = position.minus(Vec2::new(-1000 * ONE, 0));
            let distance = (from_base.x as f64).hypot(from_base.y as f64);
            assert!((distance - 50e6).abs() <= 200.0);
        } else if index < 5 {
            assert_eq!(enemy.game_object.radius, 25 * ONE);
            assert_eq!(pilot.base, Some(1));
            let from_base = position.minus(Vec2::new(1000 * ONE, 0));
            let distance = (from_base.x as f64).hypot(from_base.y as f64);
            assert!((distance - 80e6).abs() <= 300.0);
        } else {
            assert_eq!(enemy.game_object.radius, 20 * ONE);
            assert_eq!(pilot.base, None);
            let distance = (position.x as f64).hypot(position.y as f64);
            assert!(distance >= 3000e6 - 20_000.0 && distance <= 6000e6 + 20_000.0);
        }
    }
}

#[test]
fn the_first_level_makes_a_world() {
    srand(23);
    let game = Game::new(Level1, 1).unwrap();
    assert_eq!(game.bases.len(), 13);
    assert_eq!(game.enemies.len(), 200 + 870);
    assert_eq!(game.total_enemy_count, 1070);
    assert_eq!(game.player.thrust, 220 * ONE);
    assert!(game.bullets.is_empty());
    assert!(!game.gameover);
    assert_eq!(game.collected_base_count, 0);
}

#[test]
fn the_first_level() {
    let bases = Level1.get_bases();
    assert_eq!(bases.len(), 13);
    assert_eq!(bases[0].game_object.position, Vec2::new(-1000 * ONE, 0));
    assert_eq!(bases[0].enemy_counts, EnemyCounts::new().with(EnemyShipType::Slow, 10));
    assert_eq!(bases[0].optimal_distance, 50 * ONE);
    assert_eq!(bases[0].max_distance, 500 * ONE);
    assert_eq!(bases[2].game_object.position, Vec2::new(1000 * ONE, -500 * ONE));
    assert_eq!(bases[6].game_object.position, Vec2::new(500 * ONE, -2500 * ONE));
    assert_eq!(
        bases[6].enemy_counts,
        EnemyCounts::new().with(EnemyShipType::Slow, 10).with(EnemyShipType::Turret, 10)
    );
    assert_eq!(bases[9].max_distance, 1200 * ONE);
    assert_eq!(
        bases[10].enemy_counts,
        EnemyCounts::new().with(EnemyShipType::Shoot, 10).with(EnemyShipType::HighFriction, 10)
    );
    assert_eq!(bases[10].max_distance, 1500 * ONE);
    assert_eq!(bases[12].game_object.position, Vec2::new(300 * ONE, 4800 * ONE));
    assert_eq!(bases[12].optimal_distance, 100 * ONE);
    assert_eq!(
        bases[12].enemy_counts,
        EnemyCounts::new().with(EnemyShipType::Slow, 10).with(EnemyShipType::UltraLowFriction, 10)
    );
    for base in &bases {
        assert!(!base.collected);
        assert_eq!(base.game_object.radius, 25 * ONE);
    }
    let regions = Level1.get_spawn_regions();
    assert_eq!(regions.len(), 3);
    assert_eq!(
        regions[0].enemy_counts,
        EnemyCounts::new()
            .with(EnemyShipType::Slow, 27)
            .with(EnemyShipType::LowFriction, 15)
            .with(EnemyShipType::Turret, 6)
    );
    assert_eq!((regions[0].min_distance, regions[0].max_distance), (1000 * ONE, 3000 * ONE));
    assert_eq!(
        regions[1].enemy_counts,
        EnemyCounts::new()
            .with(EnemyShipType::Slow, 108)
            .with(EnemyShipType::HighFriction, 108)
            .with(EnemyShipType::LowFriction, 15)
            .with(EnemyShipType::Sniper, 36)
    );
    assert_eq!((regions[1].min_distance, regions[1].max_distance), (3000 * ONE, 6000 * ONE));
    assert_eq!(
        regions[2].enemy_counts,
        EnemyCounts::new()
            .with(EnemyShipType::HighFriction, 108)
            .with(EnemyShipType::UltraLowFriction, 15)
            .with(EnemyShipType::Shoot, 432)
    );
    assert_eq!((regions[2].min_distance, regions[2].max_distance), (6000 * ONE, 12000 * ONE));
}

#[test]
fn a_camera() {
    let camera = Camera::new(Vec2::new(ONE, 2 * ONE), 3 * ONE);
    assert_eq!(camera.position, Vec2::new(ONE, 2 * ONE));
    assert_eq!(camera.zoom, 3 * ONE);
    assert_eq!(Camera::default().position, Vec2::new(0, 0));
}

#[test]
fn the_activity_radius_is_exact() {
    assert_eq!(UPDATE_ENEMY_RADIUS, 3000 * ONE);
    let player = Vec2::new(0, 0);
    assert!(check_active(player, Vec2::new(3000 * ONE, 0)));
    assert!(!check_active(player, Vec2::new(3000 * ONE, 1)));
    assert!(check_active(player, Vec2::new(1800 * ONE, -2400 * ONE)));
    assert!(!check_active(player, Vec2::new(1800 * ONE + 1, -2400 * ONE)));
}

#[test]
fn a_hostile_bullet_on_course_kills_the_player() {
    let mut game = empty_world();
    game.bullets.push(bullet(Team::Hostile, 100 * ONE, 0, PI, 200 * ONE, 5 * ONE));
    assert_eq!(game.bullets[0].game_object.velocity, Vec2::new(-200 * ONE, 0));
    let mut hit_at = None;
    for tick in 1..=10 {
        game.update(50_000);
        if game.gameover && hit_at.is_none() {
            hit_at = Some(tick);
        }
        if hit_at.is_none() {
            assert_eq!(game.player.game_object.health_status, HealthStatus::Alive);
            assert_eq!(game.bullets.len(), 1);
            assert_eq!(game.bullets[0].game_object.position, Vec2::new((100 - 10 * tick) * ONE, 0));
        }
    }
    // The rims touch once the centres are twelve units apart.
    assert_eq!(hit_at, Some(9));
    assert_eq!(game.player.game_object.health_status, HealthStatus::Dead);
    assert!(game.gameover);
    assert!(game.bullets.is_empty());
    assert_eq!(game.player.game_object.position, Vec2::new(0, 0));
}

#[test]
fn the_bullet_that_kills_the_player_dies_in_the_same_sweep() {
    let mut player = Ship::new_player(0).game_object;
    let mut enemies: Vec<Ship> = Vec::new();
    let mut bullets =
        vec![bullet(Team::Hostile, 22 * ONE, 0, PI, 200 * ONE, 5 * ONE)];
    sweep_bullets(&mut player, &mut enemies, &mut bullets, 50_000, 50_000);
    assert_eq!(bullets[0].game_object.position, Vec2::new(12 * ONE, 0));
    assert_eq!(player.health_status, HealthStatus::Dead);
    assert_eq!(bullets[0].game_object.health_status, HealthStatus::Dead);
    assert_eq!(bullets[0].lifetime_remaining, 4_950_000);
}

#[test]
fn a_player_bullet_spares_the_player_and_kills_enemies() {
    let mut player = Ship::new_player(0).game_object;
    let mut enemies = vec![
        idle_enemy(50 * ONE, 0, 10 * ONE),
        idle_enemy(500 * ONE, 0, 10 * ONE),
        idle_enemy(45 * ONE, 5 * ONE, 10 * ONE),
    ];
    enemies[2].game_object.health_status = HealthStatus::Invulnerable;
    let mut bullets = vec![
        bullet(Team::Player, 0, 0, 0, 400 * ONE, 5 * ONE),
        bullet(Team::Player, 0, 100 * ONE, 0, 400 * ONE, 5 * ONE),
    ];
    sweep_bullets(&mut player, &mut enemies, &mut bullets, 100_000, 7);
    assert_eq!(bullets[0].game_object.position, Vec2::new(40 * ONE, 0));
    assert_eq!(bullets[0].game_object.health_status, HealthStatus::Dead);
    assert_eq!(bullets[1].game_object.position, Vec2::new(40 * ONE, 100 * ONE));
    assert_eq!(bullets[1].game_object.health_status, HealthStatus::Alive);
    assert_eq!(player.health_status, HealthStatus::Alive);
    assert_eq!(enemies[0].game_object.health_status, HealthStatus::Dead);
    assert_eq!(enemies[1].game_object.health_status, HealthStatus::Alive);
    assert_eq!(enemies[2].game_object.health_status, HealthStatus::Invulnerable);
    assert_eq!(enemies[0].game_object.position, Vec2::new(50 * ONE, 0));
}

#[test]
fn hostile_bullets_fly_at_the_hostile_pace() {
    let mut player = Ship::new_player(0).game_object;
    let mut enemies = vec![idle_enemy(100 * ONE, 0, 10 * ONE)];
    let mut bullets = vec![bullet(Team::Hostile, 100 * ONE, 200 * ONE, 0, 100 * ONE, ONE)];
    sweep_bullets(&mut player, &mut enemies, &mut bullets, 7, 500_000);
    assert_eq!(bullets[0].game_object.position, Vec2::new(150 * ONE, 200 * ONE));
    assert_eq!(bullets[0].lifetime_remaining, 500_000);
    assert_eq!(bullets[0].game_object.health_status, HealthStatus::Alive);
    // A hostile bullet does not harm an enemy it passes through.
    let mut bullets = vec![bullet(Team::Hostile, 95 * ONE, 0, 0, 100 * ONE, ONE)];
    sweep_bullets(&mut player, &mut enemies, &mut bullets, 7, 10_000);
    assert_eq!(enemies[0].game_object.health_status, HealthStatus::Alive);
    assert_eq!(bullets[0].game_object.health_status, HealthStatus::Alive);
}

#[test]
fn bullets_far_from_the_player_rest() {
    let mut player = Ship::new_player(0).game_object;
    let mut enemies = vec![idle_enemy(3001 * ONE, 0, 10 * ONE)];
    let mut bullets = vec![
        bullet(Team::Player, 3001 * ONE, 0, 0, 100 * ONE, ONE),
        bullet(Team::Hostile, 0, -3001 * ONE, 0, 100 * ONE, ONE),
    ];
    sweep_bullets(&mut player, &mut enemies, &mut bullets, 500_000, 500_000);
    assert_eq!(bullets[0].game_object.position, Vec2::new(3001 * ONE, 0));
    assert_eq!(bullets[0].lifetime_remaining, ONE);
    assert_eq!(bullets[0].game_object.health_status, HealthStatus::Alive);
    assert_eq!(bullets[1].game_object.position, Vec2::new(0, -3001 * ONE));
    assert_eq!(enemies[0].game_object.health_status, HealthStatus::Alive);
}

#[test]
fn enemies_far_from_the_player_rest() {
    let bullets: Vec<Bullet> = Vec::new();
    let bases: Vec<Base> = Vec::new();
    let game = empty_world();
    let world = space_game::snapshot::Snapshot {
        player: space_game::snapshot::Pose {
            position: Vec2::new(0, 0),
            velocity: Vec2::new(0, 0),
            direction: Direction::new(0),
        },
        bullets: &bullets,
        bases: &bases,
        input: game.input,
    };
    let always = FiringPolicy::EnemyClone(EnemyCloneWeaponController);
    let mut near = idle_enemy(3000 * ONE, 0, 10 * ONE);
    near.weapons.push(Weapon::new(always, ONE, ONE, ONE).unwrap());
    near.game_object.velocity = Vec2::new(0, 10 * ONE);
    let mut far = idle_enemy(0, 3000 * ONE + 1, 10 * ONE);
    far.weapons.push(Weapon::new(always, ONE, ONE, ONE).unwrap());
    far.game_object.velocity = Vec2::new(0, 10 * ONE);
    let mut player = Ship::new_player(0).game_object;
    let mut enemies = vec![near, far];
    let mut fired: Vec<Bullet> = Vec::new();
    scan_enemies(&mut player, &mut enemies, 100_000, &world, &mut fired);
    assert_eq!(enemies[0].game_object.position, Vec2::new(3000 * ONE, ONE));
    assert_eq!(enemies[1].game_object.position, Vec2::new(0, 3000 * ONE + 1));
    assert_eq!(fired.len(), 1);
    assert_eq!(fired[0].game_object.position, Vec2::new(3010 * ONE, ONE));
    assert_eq!(enemies[0].weapons[0].time_until_reloaded(), 900_000);
    assert_eq!(enemies[1].weapons[0].time_until_reloaded(), 0);
    assert_eq!(player.health_status, HealthStatus::Alive);
}

#[test]
fn an_enemy_that_rams_the_player_dies_with_it() {
    let mut game = empty_world();
    game.enemies.push(idle_enemy(30 * ONE, 0, 10 * ONE));
    game.enemies.push(idle_enemy(0, 21 * ONE, 10 * ONE));
    game.enemies.push(idle_enemy(0, -21 * ONE, 10 * ONE));
    game.enemies[0].game_object.velocity = Vec2::new(-100 * ONE, 0);
    game.update(50_000);
    assert!(!game.gameover);
    assert_eq!(game.enemies.len(), 3);
    assert_eq!(game.enemies[0].game_object.position, Vec2::new(25 * ONE, 0));
    game.enemies.remove(1);
    game.update(50_000);
    assert!(game.gameover);
    assert_eq!(game.player.game_object.health_status, HealthStatus::Dead);
    assert_eq!(game.enemies.len(), 1);
    assert_eq!(game.enemies[0].game_object.position, Vec2::new(0, -21 * ONE));
    assert_eq!(game.enemies[0].game_object.health_status, HealthStatus::Alive);
    assert_eq!(game.total_enemy_count, 0);
}

#[test]
fn an_invulnerable_player_outlives_every_hit() {
    let mut game = empty_world();
    game.player.game_object.health_status = HealthStatus::Invulnerable;
    game.enemies.push(idle_enemy(5 * ONE, 0, 10 * ONE));
    game.bullets.push(bullet(Team::Hostile, 0, 5 * ONE, 0, 0, ONE));
    game.update(16_000);
    assert!(!game.gameover);
    assert_eq!(game.player.game_object.health_status, HealthStatus::Invulnerable);
    assert!(game.enemies.is_empty());
    assert!(game.bullets.is_empty());
}

#[test]
fn a_base_is_collected_once() {
    let mut game = Game::from_parts(
        vec![
            Base::new(Vec2::new(100 * ONE, 0), EnemyCounts::new(), 50 * ONE, 500 * ONE),
            Base::new(Vec2::new(1000 * ONE, 0), EnemyCounts::new(), 50 * ONE, 500 * ONE),
        ],
        Vec::new(),
        0,
    );
    game.update(16_000);
    assert!(!game.bases[0].collected);
    assert_eq!(game.collected_base_count, 0);
    game.player.game_object.position = Vec2::new(100 * ONE, 0);
    for _ in 0..5 {
        game.update(16_000);
        assert!(game.bases[0].collected);
        assert!(!game.bases[1].collected);
        assert_eq!(game.collected_base_count, 1);
        assert_eq!(game.bases[0].game_object.position, game.player.game_object.position);
        assert_eq!(game.bases[1].game_object.position, Vec2::new(1000 * ONE, 0));
    }
    game.player.game_object.position = Vec2::new(-700 * ONE, 300 * ONE);
    game.update(16_000);
    assert!(game.bases[0].collected);
    assert_eq!(game.bases[0].game_object.position, Vec2::new(-700 * ONE, 300 * ONE));
    assert_eq!(game.collected_base_count, 1);
    assert!(!game.gameover);
}

#[test]
fn a_base_is_collected_when_the_rims_touch() {
    let mut bases =
        vec![Base::new(Vec2::new(35 * ONE, 0), EnemyCounts::new(), 50 * ONE, 500 * ONE)];
    let player = Ship::new_player(0).game_object;
    let mut count = 0u32;
    bases[0].game_object.position = Vec2::new(35 * ONE + 1, 0);
    collect_bases(&player, &mut bases, &mut count);
    assert!(!bases[0].collected);
    assert_eq!(count, 0);
    assert_eq!(bases[0].game_object.position, Vec2::new(35 * ONE + 1, 0));
    bases[0].game_object.position = Vec2::new(35 * ONE, 0);
    collect_bases(&player, &mut bases, &mut count);
    assert!(bases[0].collected);
    assert_eq!(count, 1);
    assert_eq!(bases[0].game_object.position, Vec2::new(0, 0));
}

#[test]
fn the_count_of_collected_bases_stops_at_its_limit() {
    let mut bases =
        vec![Base::new(Vec2::new(0, 0), EnemyCounts::new(), 50 * ONE, 500 * ONE)];
    let player = Ship::new_player(0).game_object;
    let mut count = u32::MAX;
    collect_bases(&player, &mut bases, &mut count);
    assert!(bases[0].collected);
    assert_eq!(count, u32::MAX);
}

#[test]
fn culling_keeps_the_living_in_their_order() {
    let mut enemies = vec![
        idle_enemy(ONE, 0, ONE),
        idle_enemy(2 * ONE, 0, ONE),
        idle_enemy(3 * ONE, 0, ONE),
        idle_enemy(4 * ONE, 0, ONE),
        idle_enemy(5 * ONE, 0, ONE),
    ];
    enemies[0].game_object.health_status = HealthStatus::Dead;
    enemies[2].game_object.health_status = HealthStatus::Invulnerable;
    enemies[3].game_object.health_status = HealthStatus::Dead;
    enemies[4].game_object.health_status = HealthStatus::Dead;
    cull_enemies(&mut enemies);
    let left: Vec<i64> = enemies.iter().map(|e: &Ship| e.game_object.position.x).collect();
    assert_eq!(left, vec![2 * ONE, 3 * ONE]);
    cull_enemies(&mut enemies);
    assert_eq!(enemies.len(), 2);
    let mut none: Vec<Ship> = Vec::new();
    cull_enemies(&mut none);
    assert!(none.is_empty());
}

#[test]
fn culling_takes_out_dead_and_spent_bullets() {
    let mut bullets = vec![
        bullet(Team::Player, ONE, 0, 0, 0, ONE),
        bullet(Team::Player, 2 * ONE, 0, 0, 0, 0),
        bullet(Team::Hostile, 3 * ONE, 0, 0, 0, 1),
        bullet(Team::Hostile, 4 * ONE, 0, 0, 0, -1),
        bullet(Team::Hostile, 5 * ONE, 0, 0, 0, ONE),
        bullet(Team::Hostile, 6 * ONE, 0, 0, 0, ONE),
    ];
    bullets[4].game_object.health_status = HealthStatus::Dead;
    bullets[5].game_object.health_status = HealthStatus::Invulnerable;
    cull_bullets(&mut bullets);
    let left: Vec<i64> = bullets.iter().map(|b: &Bullet| b.game_object.position.x).collect();
    assert_eq!(left, vec![ONE, 3 * ONE, 6 * ONE]);
}

#[test]
fn a_bullet_leaves_the_world_when_its_time_is_up() {
    let mut game = empty_world();
    game.bullets.push(bullet(Team::Player, 0, 500 * ONE, 0, 100 * ONE, 100_000));
    game.update(50_000);
    assert_eq!(game.bullets.len(), 1);
    assert_eq!(game.bullets[0].lifetime_remaining, 50_000);
    game.update(50_000);
    assert!(game.bullets.is_empty());
}

#[test]
fn the_player_flies_by_the_input() {
    let mut game = empty_world();
    game.input.pointer_thrust_held = true;
    game.input.screen_size = Vec2::new(800 * ONE, 600 * ONE);
    game.input.pointer_position = Vec2::new(400 * ONE, 600 * ONE);
    game.update(16_000);
    // Thrust along the old heading, then a turn toward the pointer, then drag.
    assert_eq!(game.player.game_object.direction.get(), 30_159);
    assert_eq!(game.player.game_object.velocity, Vec2::new(2_883_408, 0));
    assert_eq!(game.player.game_object.position, Vec2::new(48_667, 0));
    assert!(game.bullets.is_empty());
    game.input.pointer_fire_held = true;
    game.update(16_000);
    assert_eq!(game.bullets.len(), 1);
    assert_eq!(game.bullets[0].team, Team::Player);
    assert_eq!(game.player.weapons[0].time_until_reloaded(), 784_000);
}

#[test]
fn the_pace_of_each_side_scales_its_time() {
    let mut game = empty_world();
    game.player_speed_multiplier = 2 * ONE;
    game.enemy_speed_multiplier = 500_000;
    game.player.game_object.friction_constant = 0;
    game.player.game_object.friction_multiplier = ONE;
    game.player.game_object.velocity = Vec2::new(0, 10 * ONE);
    game.enemies.push(idle_enemy(500 * ONE, 0, 10 * ONE));
    game.enemies[0].game_object.velocity = Vec2::new(0, 10 * ONE);
    game.bullets.push(bullet(Team::Player, 0, 500 * ONE, 0, 10 * ONE, ONE));
    game.bullets.push(bullet(Team::Hostile, 0, -500 * ONE, 0, 10 * ONE, ONE));
    game.update(100_000);
    assert_eq!(game.player.game_object.position, Vec2::new(0, 2 * ONE));
    assert_eq!(game.enemies[0].game_object.position, Vec2::new(500 * ONE, 500_000));
    assert_eq!(game.bullets[0].game_object.position, Vec2::new(2 * ONE, 500 * ONE));
    assert_eq!(game.bullets[0].lifetime_remaining, 800_000);
    assert_eq!(game.bullets[1].game_object.position, Vec2::new(500_000, -500 * ONE));
    assert_eq!(game.bullets[1].lifetime_remaining, 950_000);
}

#[test]
fn new_bullets_fly_in_the_step_that_fires_them() {
    let mut game = empty_world();
    let always = FiringPolicy::EnemyClone(EnemyCloneWeaponController);
    let mut gunner = idle_enemy(0, 1000 * ONE, 10 * ONE);
    gunner.weapons.push(Weapon::new(always, ONE, 2 * ONE, 100 * ONE).unwrap());
    game.enemies.push(gunner);
    game.update(100_000);
    assert_eq!(game.bullets.len(), 1);
    assert_eq!(game.bullets[0].game_object.position, Vec2::new(20 * ONE, 1000 * ONE));
    assert_eq!(game.bullets[0].lifetime_remaining, 1_900_000);
    assert_eq!(game.bullets[0].team, Team::Hostile);
    assert_eq!(game.enemies.len(), 1);
}

#[test]
fn decisions_see_the_world_as_the_step_found_it() {
    let mut game = empty_world();
    game.player.game_object.friction_constant = 0;
    game.player.game_object.friction_multiplier = ONE;
    game.player.game_object.position = Vec2::new(599 * ONE, 0);
    game.player.game_object.velocity = Vec2::new(100 * ONE, 0);
    let mut hunter = Ship::new_enemy(EnemyShipType::Slow, None, 0);
    hunter.ship_controller = PilotPolicy::Enemy(
        space_game::ship::controller::EnemyShipController::new(None, 600 * ONE, 0),
    );
    hunter.game_object.position = Vec2::new(0, 0);
    hunter.game_object.friction_constant = 0;
    hunter.game_object.friction_multiplier = ONE;
    game.enemies.push(hunter);
    // The player ends the step 609 units away, but was 599 away when the
    // step began: the hunter still thrusts at it.
    game.update(100_000);
    assert_eq!(game.player.game_object.position, Vec2::new(609 * ONE, 0));
    assert_eq!(game.enemies[0].game_object.velocity, Vec2::new(30 * ONE, 0));
    game.update(100_000);
    assert_eq!(game.enemies[0].game_object.velocity, Vec2::new(30 * ONE, 0));
}

#[test]
fn a_snapshot_holds_the_player_and_the_lists() {
    let mut game = empty_world();
    game.player.game_object.position = Vec2::new(ONE, 2 * ONE);
    game.player.game_object.velocity = Vec2::new(3 * ONE, 4 * ONE);
    game.player.game_object.direction = Direction::new(5);
    game.input.fire_held = true;
    game.bullets.push(bullet(Team::Player, 0, 0, 0, 0, ONE));
    game.bases.push(Base::default());
    let snapshot = game.snapshot();
    assert_eq!(snapshot.player.position, Vec2::new(ONE, 2 * ONE));
    assert_eq!(snapshot.player.velocity, Vec2::new(3 * ONE, 4 * ONE));
    assert_eq!(snapshot.player.direction.get(), 5);
    assert_eq!(snapshot.bullets.len(), 1);
    assert_eq!(snapshot.bases.len(), 1);
    assert!(snapshot.input.fire_held);
}

#[test]
fn objects_of_the_default_kind_collide_in_a_scan() {
    let bullets: Vec<Bullet> = Vec::new();
    let bases: Vec<Base> = Vec::new();
    let world = space_game::snapshot::Snapshot {
        player: space_game::snapshot::Pose {
            position: Vec2::new(0, 0),
            velocity: Vec2::new(0, 0),
            direction: Direction::new(0),
        },
        bullets: &bullets,
        bases: &bases,
        input: Input::idle(),
    };
    let mut player = GameObject::default();
    let mut enemies = vec![idle_enemy(2 * ONE, 0, ONE), idle_enemy(2 * ONE + 1, 0, ONE)];
    let mut fired: Vec<Bullet> = Vec::new();
    scan_enemies(&mut player, &mut enemies, 16_000, &world, &mut fired);
    assert_eq!(player.health_status, HealthStatus::Dead);
    assert_eq!(enemies[0].game_object.health_status, HealthStatus::Dead);
    assert_eq!(enemies[1].game_object.health_status, HealthStatus::Alive);
}
