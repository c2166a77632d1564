//! The world, and the step that advances it.

pub mod spawn;
pub mod step;

use vstd::prelude::*;
use crate::base::{Base, BaseView};
use crate::camera::Camera;
use crate::fixed::{fx_mul, fx_mul_spec, ONE};
use crate::game_object::draw_shape::{DrawShape, BLUE};
use crate::game_object::health_status::HealthStatus;
use crate::game_object::{GameObject, GameObjectView};
use crate::input::Input;
use crate::level::Level;
use crate::ship::{ship_views, Ship, ShipView};
use crate::snapshot::{base_views, Pose, Snapshot, SnapshotView};
use crate::spawn_regions::SpawnRegion;
use crate::weapon::bullet::{Bullet, BulletView};
use crate::weapon::bullet_views;
use spawn::{
    base_spawns, bases_spawns, follows_plan, lemma_follows_plan_append, region_spawns,
    regions_spawns,
};
use step::{
    base_swept, bullet_hits_player, bullet_moved, bullet_swept, collect_bases, collected_count, cull_bullets, cull_enemies,
    enemy_hit_by_bullets, enemy_stepped, fired_by_enemies, lemma_count_never_falls,
    lemma_one_hit_is_a_hit,
    lemma_player_hit_by_body,
    player_hit_by_bullets, player_hit_by_enemies, scan_enemies, ship_struck, struck,
    surviving_bullets, surviving_enemies, sweep_bullets,
};

verus! {

/// The radius of the home base.
pub const HOME_BASE_RADIUS: i64 = 100_000_000;

/// The world.
pub struct Game {
    pub player: Ship,
    pub camera: Camera,
    /// The landmark at the origin, where the player sets out.
    pub home_base: GameObject,
    pub bases: Vec<Base>,
    pub enemies: Vec<Ship>,
    pub bullets: Vec<Bullet>,
    /// Whether the player has died.
    pub gameover: bool,
    /// How many enemies the world began with.
    pub total_enemy_count: usize,
    /// The pace of the player's side, as a factor on the time of a step.
    pub player_speed_multiplier: i64,
    /// The pace of the hostile side.
    pub enemy_speed_multiplier: i64,
    /// How many bases the player has collected.
    pub collected_base_count: u32,
    /// The state of the controls, for the pilots and weapons that heed
    /// them.
    pub input: Input,
}

/// The mathematical value of a `Game`.
pub ghost struct GameView {
    pub player: ShipView,
    pub camera: Camera,
    pub home_base: GameObjectView,
    pub bases: Seq<BaseView>,
    pub enemies: Seq<ShipView>,
    pub bullets: Seq<BulletView>,
    pub gameover: bool,
    pub total_enemy_count: usize,
    pub player_speed_multiplier: i64,
    pub enemy_speed_multiplier: i64,
    pub collected_base_count: u32,
    pub input: Input,
}

impl View for Game {
    type V = GameView;

    open spec fn view(&self) -> GameView {
        GameView {
            player: self.player@,
            camera: self.camera,
            home_base: self.home_base@,
            bases: base_views(self.bases@),
            enemies: ship_views(self.enemies@),
            bullets: bullet_views(self.bullets@),
            gameover: self.gameover,
            total_enemy_count: self.total_enemy_count,
            player_speed_multiplier: self.player_speed_multiplier,
            enemy_speed_multiplier: self.enemy_speed_multiplier,
            collected_base_count: self.collected_base_count,
            input: self.input,
        }
    }
}

impl GameView {
    /// The world as the decisions of a step see it.
    pub open spec fn snapshot(self) -> SnapshotView {
        SnapshotView {
            player: Pose {
                position: self.player.game_object.position,
                velocity: self.player.game_object.velocity,
                direction: self.player.game_object.direction,
            },
            bullets: self.bullets,
            bases: self.bases,
            input: self.input,
        }
    }

    /// The time that a step of `delta_t` seconds is for the player's side.
    pub open spec fn player_delta_t(self, delta_t: i64) -> i64 {
        fx_mul_spec(delta_t, self.player_speed_multiplier)
    }

    /// The time that a step of `delta_t` seconds is for the hostile side.
    pub open spec fn enemy_delta_t(self, delta_t: i64) -> i64 {
        fx_mul_spec(delta_t, self.enemy_speed_multiplier)
    }

    /// The player after its own step, before anything has hit it.
    pub open spec fn player_moved(self, delta_t: i64) -> ShipView {
        self.player.updated(self.player_delta_t(delta_t), self.snapshot())
    }

    /// The enemies after the ships have moved, before any bullet has hit
    /// them.
    pub open spec fn enemies_moved(self, delta_t: i64) -> Seq<ShipView> {
        Seq::new(
            self.enemies.len(),
            |i: int|
                enemy_stepped(
                    self.enemies[i],
                    self.player_moved(delta_t).game_object,
                    self.enemy_delta_t(delta_t),
                    self.snapshot(),
                ),
        )
    }

    /// The bullets in flight in a step: those there were, then those the
    /// player let go, then those the enemies let go.
    pub open spec fn bullets_in_flight(self, delta_t: i64) -> Seq<BulletView> {
        self.bullets + self.player.fired(self.player_delta_t(delta_t), self.snapshot())
            + fired_by_enemies(
            self.player_moved(delta_t).game_object.position,
            self.enemies,
            self.enemies.len(),
            self.enemy_delta_t(delta_t),
            self.snapshot(),
        )
    }

    /// The player's body at the end of a step: moved, and killed where an
    /// enemy or a hostile bullet touched it.
    pub open spec fn player_swept(self, delta_t: i64) -> GameObjectView {
        let moved = self.player_moved(delta_t).game_object;
        struck(
            moved,
            player_hit_by_enemies(
                moved,
                self.enemies,
                self.enemies.len(),
                self.enemy_delta_t(delta_t),
                self.snapshot(),
            ) || player_hit_by_bullets(
                moved,
                self.bullets_in_flight(delta_t),
                self.bullets_in_flight(delta_t).len(),
                self.player_delta_t(delta_t),
                self.enemy_delta_t(delta_t),
            ),
        )
    }

    /// The enemies at the end of a step, the dead among them too.
    pub open spec fn enemies_swept(self, delta_t: i64) -> Seq<ShipView> {
        let moved = self.enemies_moved(delta_t);
        Seq::new(
            moved.len(),
            |i: int|
                ship_struck(
                    moved[i],
                    enemy_hit_by_bullets(
                        moved[i].game_object,
                        self.bullets_in_flight(delta_t),
                        self.bullets_in_flight(delta_t).len(),
                        self.player_moved(delta_t).game_object.position,
                        self.player_delta_t(delta_t),
                        self.enemy_delta_t(delta_t),
                    ),
                ),
        )
    }

    /// The bullets at the end of a step, the dead and the spent among
    /// them too.
    pub open spec fn bullets_swept(self, delta_t: i64) -> Seq<BulletView> {
        let flying = self.bullets_in_flight(delta_t);
        Seq::new(
            flying.len(),
            |j: int|
                bullet_swept(
                    flying[j],
                    self.player_moved(delta_t).game_object,
                    self.enemies_moved(delta_t),
                    self.player_delta_t(delta_t),
                    self.enemy_delta_t(delta_t),
                ),
        )
    }

    /// The world after a step of `delta_t` seconds.
    ///
    /// The player moves, then each enemy near the player moves and
    /// collides with the player, all deciding on the world as the step
    /// found it.  The bullets let go join the others; each bullet near
    /// the player flies and hits what it can hit.  The player collects the
    /// bases it touches.  The game is over once the player is dead.  Dead
    /// enemies, and bullets dead or spent, leave the world.
    pub open spec fn tick(self, delta_t: i64) -> GameView {
        let player = self.player_swept(delta_t);
        GameView {
            player: ShipView { game_object: player, ..self.player_moved(delta_t) },
            bases: Seq::new(self.bases.len(), |i: int| base_swept(self.bases[i], player)),
            enemies: surviving_enemies(self.enemies_swept(delta_t)),
            bullets: surviving_bullets(self.bullets_swept(delta_t)),
            gameover: self.gameover || player.health_status == HealthStatus::Dead,
            collected_base_count: collected_count(
                self.collected_base_count,
                self.bases,
                self.bases.len(),
                player,
            ),
            ..self
        }
    }
}

impl GameView {
    /// The world at its beginning, but for its enemies: the player at its
    /// level on the home base, the bases as given, no bullet in flight,
    /// both sides at their usual pace.
    pub open spec fn begun(self, bases: Seq<BaseView>, player_level: u32) -> bool {
        &&& self.player == ShipView::player(player_level)
        &&& self.camera == Camera::default_spec()
        &&& self.home_base == (GameObjectView {
            radius: HOME_BASE_RADIUS,
            draw_shapes: seq![DrawShape::circle(BLUE)],
            ..GameObject::default_view()
        })
        &&& self.bases == bases
        &&& self.bullets == Seq::<BulletView>::empty()
        &&& !self.gameover
        &&& self.total_enemy_count == self.enemies.len()
        &&& self.player_speed_multiplier == ONE
        &&& self.enemy_speed_multiplier == ONE
        &&& self.collected_base_count == 0
        &&& self.input == Input::idle_spec()
    }
}

/// A step keeps the bases: as many as before, each collected base still
/// collected, and the count of collected bases no lower.
pub proof fn lemma_tick_keeps_bases(game: GameView, delta_t: i64)
    ensures
        game.tick(delta_t).bases.len() == game.bases.len(),
        forall|i: int|
            0 <= i < game.bases.len() && (#[trigger] game.bases[i]).collected ==> game.tick(
                delta_t,
            ).bases[i].collected,
        game.tick(delta_t).collected_base_count >= game.collected_base_count,
        game.tick(delta_t).total_enemy_count == game.total_enemy_count,
{
    lemma_count_never_falls(
        game.collected_base_count,
        game.bases,
        game.bases.len(),
        game.player_swept(delta_t),
    );
}

/// A hostile bullet near the player that touches it after its flight
/// kills the player and dies in the same step.  A live player is dead
/// after the step and the game is over; the bullet, unless invulnerable,
/// is dead once swept and not among the bullets the step leaves.
pub proof fn lemma_hostile_hit_kills_both(game: GameView, delta_t: i64, j: int)
    requires
        0 <= j < game.bullets_in_flight(delta_t).len(),
        bullet_hits_player(
            game.bullets_in_flight(delta_t)[j],
            game.player_moved(delta_t).game_object,
            game.player_delta_t(delta_t),
            game.enemy_delta_t(delta_t),
        ),
    ensures
        game.player_swept(delta_t) == game.player_moved(delta_t).game_object.killed(),
        game.tick(delta_t).player.game_object == game.player_moved(delta_t).game_object.killed(),
        game.player.game_object.health_status == HealthStatus::Alive ==> game.tick(
            delta_t,
        ).player.game_object.health_status == HealthStatus::Dead && game.tick(delta_t).gameover,
        game.bullets_swept(delta_t)[j].game_object == bullet_moved(
            game.bullets_in_flight(delta_t)[j],
            game.player_moved(delta_t).game_object.position,
            game.player_delta_t(delta_t),
            game.enemy_delta_t(delta_t),
        ).game_object.killed(),
        game.bullets_in_flight(delta_t)[j].game_object.health_status
            != HealthStatus::Invulnerable ==> {
            &&& game.bullets_swept(delta_t)[j].game_object.health_status == HealthStatus::Dead
            &&& !game.tick(delta_t).bullets.contains(game.bullets_swept(delta_t)[j])
        },
        forall|k: int|
            0 <= k < game.tick(delta_t).bullets.len() ==> (#[trigger] game.tick(
                delta_t,
            ).bullets[k]).survives(),
{
    reveal(ShipView::updated);
    let flying = game.bullets_in_flight(delta_t);
    let player = game.player_moved(delta_t).game_object;
    lemma_one_hit_is_a_hit(
        player,
        flying,
        flying.len(),
        j,
        game.player_delta_t(delta_t),
        game.enemy_delta_t(delta_t),
    );
    let swept = game.bullets_swept(delta_t);
    let keep = |bullet: BulletView| bullet.survives();
    assert forall|k: int| 0 <= k < swept.filter(keep).len() implies keep(
        #[trigger] swept.filter(keep)[k],
    ) by {
        swept.lemma_filter_pred(keep, k);
    }
    assert(game.tick(delta_t).bullets == swept.filter(keep));
}

/// A dead player stays dead, and the game stays over.
pub proof fn lemma_player_stays_dead(game: GameView, delta_t: i64)
    requires
        game.player.game_object.health_status == HealthStatus::Dead,
    ensures
        game.tick(delta_t).player.game_object.health_status == HealthStatus::Dead,
        game.tick(delta_t).gameover,
{
    reveal(ShipView::updated);
}

impl Game {
    /// The world of a level, with the player at `player_level`: the world
    /// at its beginning with the level's bases, peopled with what those
    /// bases spawn, base by base, and then what the level's spawn regions
    /// spawn, region by region.
    pub fn new<L: Level>(level: L, player_level: u32) -> (r: Option<Self>)
        ensures
            r.is_some(),
            r.unwrap()@.begun(level.bases_spec(), player_level),
            follows_plan(
                r.unwrap()@.enemies,
                bases_spawns(level.bases_spec(), level.bases_spec().len())
                    + regions_spawns(level.spawn_regions_spec(), level.spawn_regions_spec().len()),
            ),
    {
        let bases = level.get_bases();
        let spawn_regions = level.get_spawn_regions();
        Some(Game::from_parts(bases, spawn_regions, player_level))
    }

    /// The world made of `bases` and `spawn_regions`, with the player at
    /// `player_level`: the world at its beginning, peopled with what the
    /// bases spawn, base by base, and then what the spawn regions spawn,
    /// region by region.
    pub fn from_parts(bases: Vec<Base>, spawn_regions: Vec<SpawnRegion>, player_level: u32) -> (r:
        Self)
        ensures
            r@.begun(base_views(bases@), player_level),
            follows_plan(
                r@.enemies,
                bases_spawns(base_views(bases@), bases@.len()) + regions_spawns(
                    spawn_regions@,
                    spawn_regions@.len(),
                ),
            ),
    {
        let mut home_base = GameObject::default();
        home_base.radius = HOME_BASE_RADIUS;
        home_base.draw_shapes.push(DrawShape::new_circle_color(BLUE));
        assert(home_base@.draw_shapes =~= seq![DrawShape::circle(BLUE)]);
        let mut enemies: Vec<Ship> = Vec::new();
        let ghost base_values = base_views(bases@);
        let base_count = bases.len();
        let mut i: usize = 0;
        while i < base_count
            invariant
                i <= base_count,
                base_count == bases.len(),
                base_values == base_views(bases@),
                follows_plan(ship_views(enemies@), bases_spawns(base_values, i as nat)),
            decreases base_count - i,
        {
            let ghost earlier = ship_views(enemies@);
            let mut spawned = bases[i].get_enemies(i);
            proof {
                assert(base_values[i as int] == bases@[i as int]@);
                assert(follows_plan(ship_views(spawned@), base_spawns(base_values[i as int], i)));
                lemma_follows_plan_append(
                    earlier,
                    bases_spawns(base_values, i as nat),
                    ship_views(spawned@),
                    base_spawns(base_values[i as int], i),
                );
            }
            let ghost fresh = ship_views(spawned@);
            enemies.append(&mut spawned);
            assert(ship_views(enemies@) =~= earlier + fresh);
            i += 1;
        }
        let ghost from_bases = bases_spawns(base_values, base_count as nat);
        let region_count = spawn_regions.len();
        let mut i: usize = 0;
        assert(from_bases + regions_spawns(spawn_regions@, 0) =~= from_bases);
        while i < region_count
            invariant
                i <= region_count,
                region_count == spawn_regions.len(),
                follows_plan(
                    ship_views(enemies@),
                    from_bases + regions_spawns(spawn_regions@, i as nat),
                ),
            decreases region_count - i,
        {
            let ghost earlier = ship_views(enemies@);
            let mut spawned = spawn_regions[i].get_enemies();
            proof {
                assert(follows_plan(
                    ship_views(spawned@),
                    region_spawns(spawn_regions@[i as int]),
                ));
                lemma_follows_plan_append(
                    earlier,
                    from_bases + regions_spawns(spawn_regions@, i as nat),
                    ship_views(spawned@),
                    region_spawns(spawn_regions@[i as int]),
                );
                assert(from_bases + regions_spawns(spawn_regions@, i as nat) + region_spawns(
                    spawn_regions@[i as int],
                ) =~= from_bases + regions_spawns(spawn_regions@, (i + 1) as nat));
            }
            let ghost fresh = ship_views(spawned@);
            enemies.append(&mut spawned);
            assert(ship_views(enemies@) =~= earlier + fresh);
            i += 1;
        }
        let total_enemy_count = enemies.len();
        let bullets: Vec<Bullet> = Vec::new();
        assert(bullet_views(bullets@) =~= Seq::<BulletView>::empty());
        Game {
            player: Ship::new_player(player_level),
            camera: Camera::default(),
            home_base,
            bases,
            enemies,
            bullets,
            gameover: false,
            total_enemy_count,
            player_speed_multiplier: ONE,
            enemy_speed_multiplier: ONE,
            collected_base_count: 0,
            input: Input::idle(),
        }
    }

    /// The world as the decisions of a step see it.
    pub fn snapshot(&self) -> (r: Snapshot<'_>)
        ensures
            r@ == self@.snapshot(),
    {
        Snapshot {
            player: Pose {
                position: self.player.game_object.position,
                velocity: self.player.game_object.velocity,
                direction: self.player.game_object.direction,
            },
            bullets: &self.bullets,
            bases: &self.bases,
            input: self.input,
        }
    }

    /// Advances the world by `delta_t` seconds.
    pub fn update(&mut self, delta_t: i64)
        ensures
            final(self)@ == old(self)@.tick(delta_t),
    {
        let ghost before = self@;
        let ghost world = before.snapshot();
        let player_delta_t = fx_mul(delta_t, self.player_speed_multiplier);
        let enemy_delta_t = fx_mul(delta_t, self.enemy_speed_multiplier);
        let mut bullets_to_add: Vec<Bullet> = Vec::new();
        let snapshot = Snapshot {
            player: Pose {
                position: self.player.game_object.position,
                velocity: self.player.game_object.velocity,
                direction: self.player.game_object.direction,
            },
            bullets: &self.bullets,
            bases: &self.bases,
            input: self.input,
        };
        assert(snapshot@ == world);
        self.player.update(player_delta_t, &snapshot, &mut bullets_to_add);
        let ghost moved = self.player@;
        assert(moved == before.player_moved(delta_t));
        scan_enemies(
            &mut self.player.game_object,
            &mut self.enemies,
            enemy_delta_t,
            &snapshot,
            &mut bullets_to_add,
        );
        let ghost hit_by_enemies = player_hit_by_enemies(
            moved.game_object,
            before.enemies,
            before.enemies.len(),
            enemy_delta_t,
            world,
        );
        let ghost earlier_bullets = self.bullets@;
        let ghost new_bullets = bullets_to_add@;
        proof {
            assert(ship_views(self.enemies@) =~= before.enemies_moved(delta_t));
            assert(bullet_views(new_bullets) =~= before.player.fired(player_delta_t, world)
                + fired_by_enemies(
                moved.game_object.position,
                before.enemies,
                before.enemies.len(),
                enemy_delta_t,
                world,
            ));
        }
        self.bullets.append(&mut bullets_to_add);
        let ghost flying = bullet_views(self.bullets@);
        proof {
            assert(flying =~= bullet_views(earlier_bullets) + bullet_views(new_bullets));
            assert(flying =~= before.bullets_in_flight(delta_t));
        }
        sweep_bullets(
            &mut self.player.game_object,
            &mut self.enemies,
            &mut self.bullets,
            player_delta_t,
            enemy_delta_t,
        );
        proof {
            lemma_player_hit_by_body(
                moved.game_object,
                hit_by_enemies,
                flying,
                flying.len(),
                player_delta_t,
                enemy_delta_t,
            );
            assert(self.player@.game_object == before.player_swept(delta_t));
            assert(ship_views(self.enemies@) =~= before.enemies_swept(delta_t));
            assert(bullet_views(self.bullets@) =~= before.bullets_swept(delta_t));
        }
        collect_bases(&self.player.game_object, &mut self.bases, &mut self.collected_base_count);
        if self.player.game_object.health_status == HealthStatus::Dead {
            self.gameover = true;
        }
        cull_enemies(&mut self.enemies);
        cull_bullets(&mut self.bullets);
        proof {
            let after = before.tick(delta_t);
            assert(self@.bases =~= after.bases);
            assert(self@.player == after.player);
        }
    }
}

} // verus!
