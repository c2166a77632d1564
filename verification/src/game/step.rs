//! The parts of a step: the enemies move, the bullets fly, the bases are
//! collected, the dead leave.

use vstd::prelude::*;
use crate::base::{Base, BaseView};
use crate::game_object::health_status::HealthStatus;
use crate::game_object::{lemma_overlap_symmetric, GameObject, GameObjectView};
use crate::ship::{ship_views, Ship, ShipView};
use crate::snapshot::{base_views, Snapshot, SnapshotView};
use crate::team::Team;
use crate::vector::{within_reach, within_reach_spec, Vec2};
use crate::weapon::bullet::{Bullet, BulletView};
use crate::weapon::bullet_views;

verus! {

/// How far from the player a ship or a bullet still moves.
pub const UPDATE_ENEMY_RADIUS: i64 = 3_000_000_000;

/// Whether something at `position` is near enough to the player to move.
pub open spec fn is_active(player_position: Vec2, position: Vec2) -> bool {
    within_reach_spec(player_position, position, UPDATE_ENEMY_RADIUS as int)
}

/// `object`, killed where `hit`.
pub open spec fn struck(object: GameObjectView, hit: bool) -> GameObjectView {
    if hit {
        object.killed()
    } else {
        object
    }
}

/// `ship` with its body killed where `hit`.
pub open spec fn ship_struck(ship: ShipView, hit: bool) -> ShipView {
    ShipView { game_object: struck(ship.game_object, hit), ..ship }
}

/// An enemy after the part of a step in which the ships move.  An enemy
/// near the player takes its step and then collides with the player; one
/// far from the player stays as it is.
pub open spec fn enemy_stepped(
    enemy: ShipView,
    player: GameObjectView,
    delta_t: i64,
    game: SnapshotView,
) -> ShipView {
    if is_active(player.position, enemy.game_object.position) {
        let moved = enemy.updated(delta_t, game);
        ship_struck(moved, player.overlaps(moved.game_object))
    } else {
        enemy
    }
}

/// Whether one of the first `n` enemies, having taken its step, touches
/// the player.
pub open spec fn player_hit_by_enemies(
    player: GameObjectView,
    enemies: Seq<ShipView>,
    n: nat,
    delta_t: i64,
    game: SnapshotView,
) -> bool
    decreases n,
{
    if n == 0 {
        false
    } else {
        player_hit_by_enemies(player, enemies, (n - 1) as nat, delta_t, game)
            || enemy_hits_player(player, enemies[n - 1], delta_t, game)
    }
}

/// The bullets that the first `n` enemies let go in their steps, enemy by
/// enemy.
pub open spec fn fired_by_enemies(
    player_position: Vec2,
    enemies: Seq<ShipView>,
    n: nat,
    delta_t: i64,
    game: SnapshotView,
) -> Seq<BulletView>
    decreases n,
{
    if n == 0 {
        Seq::empty()
    } else {
        fired_by_enemies(player_position, enemies, (n - 1) as nat, delta_t, game)
            + fired_by_enemy(player_position, enemies[n - 1], delta_t, game)
    }
}

/// A bullet after its flight in a step, before any hit: a bullet near the
/// player flies at the pace of its side; one far from the player stays as
/// it is.
pub open spec fn bullet_moved(
    bullet: BulletView,
    player_position: Vec2,
    player_delta_t: i64,
    enemy_delta_t: i64,
) -> BulletView {
    if is_active(player_position, bullet.game_object.position) {
        match bullet.team {
            Team::Player => bullet.updated(player_delta_t),
            Team::Hostile => bullet.updated(enemy_delta_t),
        }
    } else {
        bullet
    }
}

/// Whether a bullet can hit enemies in this step: it is the player's and
/// near the player.
pub open spec fn threatens_enemies(bullet: BulletView, player_position: Vec2) -> bool {
    bullet.team == Team::Player && is_active(player_position, bullet.game_object.position)
}

/// Whether a bullet can hit the player in this step: it is hostile and
/// near the player.
pub open spec fn threatens_player(bullet: BulletView, player_position: Vec2) -> bool {
    bullet.team == Team::Hostile && is_active(player_position, bullet.game_object.position)
}

/// Whether `object` touches one of the first `n` of `ships`.
pub open spec fn touches_ship(object: GameObjectView, ships: Seq<ShipView>, n: nat) -> bool
    decreases n,
{
    if n == 0 {
        false
    } else {
        touches_ship(object, ships, (n - 1) as nat) || object.overlaps(ships[n - 1].game_object)
    }
}

/// Whether `bullet` can hit enemies and touches `enemy` after its flight.
pub open spec fn bullet_hits_enemy(
    bullet: BulletView,
    enemy: GameObjectView,
    player_position: Vec2,
    player_delta_t: i64,
    enemy_delta_t: i64,
) -> bool {
    threatens_enemies(bullet, player_position) && bullet_moved(
        bullet,
        player_position,
        player_delta_t,
        enemy_delta_t,
    ).game_object.overlaps(enemy)
}

/// Whether `bullet` can hit the player and touches it after its flight.
pub open spec fn bullet_hits_player(
    bullet: BulletView,
    player: GameObjectView,
    player_delta_t: i64,
    enemy_delta_t: i64,
) -> bool {
    threatens_player(bullet, player.position) && bullet_moved(
        bullet,
        player.position,
        player_delta_t,
        enemy_delta_t,
    ).game_object.overlaps(player)
}

/// Whether one of the first `n` bullets that can hit enemies touches
/// `enemy` after its flight.
pub open spec fn enemy_hit_by_bullets(
    enemy: GameObjectView,
    bullets: Seq<BulletView>,
    n: nat,
    player_position: Vec2,
    player_delta_t: i64,
    enemy_delta_t: i64,
) -> bool
    decreases n,
{
    if n == 0 {
        false
    } else {
        enemy_hit_by_bullets(
            enemy,
            bullets,
            (n - 1) as nat,
            player_position,
            player_delta_t,
            enemy_delta_t,
        ) || bullet_hits_enemy(
            bullets[n - 1],
            enemy,
            player_position,
            player_delta_t,
            enemy_delta_t,
        )
    }
}

/// Whether one of the first `n` bullets that can hit the player touches
/// the player after its flight.
pub open spec fn player_hit_by_bullets(
    player: GameObjectView,
    bullets: Seq<BulletView>,
    n: nat,
    player_delta_t: i64,
    enemy_delta_t: i64,
) -> bool
    decreases n,
{
    if n == 0 {
        false
    } else {
        player_hit_by_bullets(player, bullets, (n - 1) as nat, player_delta_t, enemy_delta_t)
            || bullet_hits_player(bullets[n - 1], player, player_delta_t, enemy_delta_t)
    }
}

/// A bullet after a step: flown, and killed where it hit what it can hit.
/// The player's bullets hit enemies, dead ones too; hostile bullets hit
/// the player.
pub open spec fn bullet_swept(
    bullet: BulletView,
    player: GameObjectView,
    enemies: Seq<ShipView>,
    player_delta_t: i64,
    enemy_delta_t: i64,
) -> BulletView {
    let moved = bullet_moved(bullet, player.position, player_delta_t, enemy_delta_t);
    let hit = if threatens_enemies(bullet, player.position) {
        touches_ship(moved.game_object, enemies, enemies.len())
    } else if threatens_player(bullet, player.position) {
        moved.game_object.overlaps(player)
    } else {
        false
    };
    BulletView { game_object: struck(moved.game_object, hit), ..moved }
}

/// Whether the player collects a base in this step: the base is not yet
/// collected and the player touches it.
pub open spec fn is_collected_now(base: BaseView, player: GameObjectView) -> bool {
    !base.collected && player.overlaps(base.game_object)
}

/// A base after a step.  A base that the player touches is collected; a
/// collected base goes where the player goes.
pub open spec fn base_swept(base: BaseView, player: GameObjectView) -> BaseView {
    if base.collected || is_collected_now(base, player) {
        BaseView {
            collected: true,
            game_object: GameObjectView { position: player.position, ..base.game_object },
            ..base
        }
    } else {
        base
    }
}

/// The count of collected bases after the first `n` bases have been
/// looked at: one more for each base collected in this step, as far as
/// the count goes.
pub open spec fn collected_count(count: u32, bases: Seq<BaseView>, n: nat, player: GameObjectView)
    -> u32
    decreases n,
{
    if n == 0 {
        count
    } else {
        let earlier = collected_count(count, bases, (n - 1) as nat, player);
        if is_collected_now(bases[n - 1], player) && earlier < u32::MAX {
            (earlier + 1) as u32
        } else {
            earlier
        }
    }
}

/// Whether something at `position` is near enough to the player to move.
pub fn check_active(player_position: Vec2, position: Vec2) -> (r: bool)
    ensures
        r == is_active(player_position, position),
{
    within_reach(player_position, position, UPDATE_ENEMY_RADIUS as i128)
}

/// Whether `enemy`, having taken its step, touches the player.
pub open spec fn enemy_hits_player(
    player: GameObjectView,
    enemy: ShipView,
    delta_t: i64,
    game: SnapshotView,
) -> bool {
    is_active(player.position, enemy.game_object.position) && player.overlaps(
        enemy.updated(delta_t, game).game_object,
    )
}

/// The bullets that `enemy` lets go in its step.
pub open spec fn fired_by_enemy(
    player_position: Vec2,
    enemy: ShipView,
    delta_t: i64,
    game: SnapshotView,
) -> Seq<BulletView> {
    if is_active(player_position, enemy.game_object.position) {
        enemy.fired(delta_t, game)
    } else {
        Seq::empty()
    }
}

/// The step of one enemy: an enemy near the player moves, lets go its
/// bullets into `bullets_to_add`, and collides with the player.
pub fn step_enemy(
    player: &mut GameObject,
    enemy: &mut Ship,
    delta_t: i64,
    game: &Snapshot,
    bullets_to_add: &mut Vec<Bullet>,
)
    ensures
        final(enemy)@ == enemy_stepped(old(enemy)@, old(player)@, delta_t, game@),
        final(player)@ == struck(
            old(player)@,
            enemy_hits_player(old(player)@, old(enemy)@, delta_t, game@),
        ),
        bullet_views(final(bullets_to_add)@) == bullet_views(old(bullets_to_add)@)
            + fired_by_enemy(old(player)@.position, old(enemy)@, delta_t, game@),
{
    if check_active(player.position, enemy.game_object.position) {
        enemy.update(delta_t, game, bullets_to_add);
        proof {
            lemma_overlap_symmetric(player@, enemy@.game_object);
        }
        GameObject::kill_if_overlapping(player, &mut enemy.game_object);
    } else {
        assert(bullet_views(bullets_to_add@) + Seq::<BulletView>::empty() =~= bullet_views(
            bullets_to_add@,
        ));
    }
}

/// The part of a step in which the enemies move: each enemy near the
/// player takes its step, lets go its bullets into `bullets_to_add`, and
/// collides with the player.
pub fn scan_enemies(
    player: &mut GameObject,
    enemies: &mut Vec<Ship>,
    delta_t: i64,
    game: &Snapshot,
    bullets_to_add: &mut Vec<Bullet>,
)
    ensures
        ship_views(final(enemies)@) == Seq::new(
            old(enemies)@.len(),
            |i: int| enemy_stepped(ship_views(old(enemies)@)[i], old(player)@, delta_t, game@),
        ),
        final(player)@ == struck(
            old(player)@,
            player_hit_by_enemies(
                old(player)@,
                ship_views(old(enemies)@),
                old(enemies)@.len(),
                delta_t,
                game@,
            ),
        ),
        bullet_views(final(bullets_to_add)@) == bullet_views(old(bullets_to_add)@)
            + fired_by_enemies(
            old(player)@.position,
            ship_views(old(enemies)@),
            old(enemies)@.len(),
            delta_t,
            game@,
        ),
{
    let ghost before = ship_views(enemies@);
    let ghost start = bullet_views(bullets_to_add@);
    let ghost player_before = player@;
    let count = enemies.len();
    let mut i: usize = 0;
    assert(bullet_views(bullets_to_add@) =~= start + fired_by_enemies(
        player_before.position,
        before,
        0,
        delta_t,
        game@,
    ));
    while i < count
        invariant
            i <= count,
            count == enemies.len(),
            count == before.len(),
            forall|j: int|
                0 <= j < i ==> (#[trigger] enemies@[j])@ == enemy_stepped(
                    before[j],
                    player_before,
                    delta_t,
                    game@,
                ),
            forall|j: int| i <= j < count ==> (#[trigger] enemies@[j])@ == before[j],
            player@ == struck(
                player_before,
                player_hit_by_enemies(player_before, before, i as nat, delta_t, game@),
            ),
            bullet_views(bullets_to_add@) == start + fired_by_enemies(
                player_before.position,
                before,
                i as nat,
                delta_t,
                game@,
            ),
        decreases count - i,
    {
        let ghost fired_earlier = fired_by_enemies(
            player_before.position,
            before,
            i as nat,
            delta_t,
            game@,
        );
        step_enemy(player, &mut enemies[i], delta_t, game, bullets_to_add);
        proof {
            let fired_now = fired_by_enemy(player_before.position, before[i as int], delta_t, game@);
            assert(start + fired_earlier + fired_now =~= start + (fired_earlier + fired_now));
        }
        i += 1;
    }
    assert(ship_views(enemies@) =~= Seq::new(
        count as nat,
        |i: int| enemy_stepped(before[i], player_before, delta_t, game@),
    ));
}

/// The sweep of one bullet: a bullet near the player flies, and where it
/// touches what it can hit, both die.
pub fn sweep_bullet(
    player: &mut GameObject,
    enemies: &mut Vec<Ship>,
    bullet: &mut Bullet,
    player_delta_t: i64,
    enemy_delta_t: i64,
)
    ensures
        final(bullet)@ == bullet_swept(
            old(bullet)@,
            old(player)@,
            ship_views(old(enemies)@),
            player_delta_t,
            enemy_delta_t,
        ),
        final(player)@ == struck(
            old(player)@,
            bullet_hits_player(old(bullet)@, old(player)@, player_delta_t, enemy_delta_t),
        ),
        ship_views(final(enemies)@) == Seq::new(
            old(enemies)@.len(),
            |i: int|
                ship_struck(
                    ship_views(old(enemies)@)[i],
                    bullet_hits_enemy(
                        old(bullet)@,
                        ship_views(old(enemies)@)[i].game_object,
                        old(player)@.position,
                        player_delta_t,
                        enemy_delta_t,
                    ),
                ),
        ),
{
    let ghost before = ship_views(enemies@);
    let ghost fresh = bullet@;
    let ghost player_before = player@;
    if !check_active(player.position, bullet.game_object.position) {
        assert(ship_views(enemies@) =~= Seq::new(
            enemies@.len(),
            |i: int|
                ship_struck(
                    before[i],
                    bullet_hits_enemy(
                        fresh,
                        before[i].game_object,
                        player_before.position,
                        player_delta_t,
                        enemy_delta_t,
                    ),
                ),
        ));
        return ;
    }
    match bullet.team {
        Team::Player => {
            bullet.update(player_delta_t);
            let ghost moved = bullet@;
            let count = enemies.len();
            let mut k: usize = 0;
            while k < count
                invariant
                    k <= count,
                    count == enemies.len(),
                    count == before.len(),
                    bullet@ == (BulletView {
                        game_object: struck(
                            moved.game_object,
                            touches_ship(moved.game_object, before, k as nat),
                        ),
                        ..moved
                    }),
                    forall|j: int|
                        0 <= j < k ==> (#[trigger] enemies@[j])@ == ship_struck(
                            before[j],
                            moved.game_object.overlaps(before[j].game_object),
                        ),
                    forall|j: int| k <= j < count ==> (#[trigger] enemies@[j])@ == before[j],
                decreases count - k,
            {
                proof {
                    lemma_overlap_symmetric(bullet@.game_object, enemies@[k as int]@.game_object);
                }
                GameObject::kill_if_overlapping(
                    &mut bullet.game_object,
                    &mut enemies[k].game_object,
                );
                k += 1;
            }
            assert(ship_views(enemies@) =~= Seq::new(
                enemies@.len(),
                |i: int|
                    ship_struck(
                        before[i],
                        bullet_hits_enemy(
                            fresh,
                            before[i].game_object,
                            player_before.position,
                            player_delta_t,
                            enemy_delta_t,
                        ),
                    ),
            ));
        },
        Team::Hostile => {
            bullet.update(enemy_delta_t);
            proof {
                lemma_overlap_symmetric(bullet@.game_object, player@);
            }
            GameObject::kill_if_overlapping(&mut bullet.game_object, player);
            assert(ship_views(enemies@) =~= Seq::new(
                enemies@.len(),
                |i: int|
                    ship_struck(
                        before[i],
                        bullet_hits_enemy(
                            fresh,
                            before[i].game_object,
                            player_before.position,
                            player_delta_t,
                            enemy_delta_t,
                        ),
                    ),
            ));
        },
    }
}

/// Whether an object touches a ship turns on where the ships are and how
/// large, not on whether they live.
pub proof fn lemma_touches_ship_by_body(
    object: GameObjectView,
    ships: Seq<ShipView>,
    others: Seq<ShipView>,
    n: nat,
)
    requires
        n <= ships.len(),
        n <= others.len(),
        forall|i: int|
            0 <= i < n ==> (#[trigger] ships[i]).game_object.position
                == others[i].game_object.position && ships[i].game_object.radius
                == others[i].game_object.radius,
    ensures
        touches_ship(object, ships, n) == touches_ship(object, others, n),
    decreases n,
{
    if n > 0 {
        lemma_touches_ship_by_body(object, ships, others, (n - 1) as nat);
        assert(ships[n - 1].game_object.position == others[n - 1].game_object.position);
    }
}

/// Whether a bullet hits the player turns on where the player is and how
/// large, not on whether it lives.
pub proof fn lemma_player_hit_by_body(
    player: GameObjectView,
    hit: bool,
    bullets: Seq<BulletView>,
    n: nat,
    player_delta_t: i64,
    enemy_delta_t: i64,
)
    requires
        n <= bullets.len(),
    ensures
        player_hit_by_bullets(struck(player, hit), bullets, n, player_delta_t, enemy_delta_t)
            == player_hit_by_bullets(player, bullets, n, player_delta_t, enemy_delta_t),
    decreases n,
{
    if n > 0 {
        lemma_player_hit_by_body(
            player,
            hit,
            bullets,
            (n - 1) as nat,
            player_delta_t,
            enemy_delta_t,
        );
    }
}

/// The part of a step in which the bullets fly: each bullet near the
/// player flies, and where it touches what it can hit, both die.
pub fn sweep_bullets(
    player: &mut GameObject,
    enemies: &mut Vec<Ship>,
    bullets: &mut Vec<Bullet>,
    player_delta_t: i64,
    enemy_delta_t: i64,
)
    ensures
        bullet_views(final(bullets)@) == Seq::new(
            old(bullets)@.len(),
            |j: int|
                bullet_swept(
                    bullet_views(old(bullets)@)[j],
                    old(player)@,
                    ship_views(old(enemies)@),
                    player_delta_t,
                    enemy_delta_t,
                ),
        ),
        ship_views(final(enemies)@) == Seq::new(
            old(enemies)@.len(),
            |i: int|
                ship_struck(
                    ship_views(old(enemies)@)[i],
                    enemy_hit_by_bullets(
                        ship_views(old(enemies)@)[i].game_object,
                        bullet_views(old(bullets)@),
                        old(bullets)@.len(),
                        old(player)@.position,
                        player_delta_t,
                        enemy_delta_t,
                    ),
                ),
        ),
        final(player)@ == struck(
            old(player)@,
            player_hit_by_bullets(
                old(player)@,
                bullet_views(old(bullets)@),
                old(bullets)@.len(),
                player_delta_t,
                enemy_delta_t,
            ),
        ),
{
    let ghost ships = ship_views(enemies@);
    let ghost flying = bullet_views(bullets@);
    let ghost player_before = player@;
    let count = bullets.len();
    let mut j: usize = 0;
    while j < count
        invariant
            j <= count,
            count == bullets.len(),
            count == flying.len(),
            enemies.len() == ships.len(),
            forall|i: int|
                0 <= i < j ==> (#[trigger] bullets@[i])@ == bullet_swept(
                    flying[i],
                    player_before,
                    ships,
                    player_delta_t,
                    enemy_delta_t,
                ),
            forall|i: int| j <= i < count ==> (#[trigger] bullets@[i])@ == flying[i],
            forall|i: int|
                0 <= i < ships.len() ==> (#[trigger] enemies@[i])@ == ship_struck(
                    ships[i],
                    enemy_hit_by_bullets(
                        ships[i].game_object,
                        flying,
                        j as nat,
                        player_before.position,
                        player_delta_t,
                        enemy_delta_t,
                    ),
                ),
            player@ == struck(
                player_before,
                player_hit_by_bullets(
                    player_before,
                    flying,
                    j as nat,
                    player_delta_t,
                    enemy_delta_t,
                ),
            ),
        decreases count - j,
    {
        let ghost ships_now = ship_views(enemies@);
        proof {
            lemma_touches_ship_by_body(
                bullet_moved(
                    flying[j as int],
                    player_before.position,
                    player_delta_t,
                    enemy_delta_t,
                ).game_object,
                ships_now,
                ships,
                ships.len(),
            );
        }
        sweep_bullet(player, enemies, &mut bullets[j], player_delta_t, enemy_delta_t);
        proof {
            assert(ship_views(enemies@).len() == enemies@.len());
            assert(bullets@[j as int]@ == bullet_swept(
                flying[j as int],
                player_before,
                ships,
                player_delta_t,
                enemy_delta_t,
            ));
            assert forall|i: int| 0 <= i < ships.len() implies (#[trigger] enemies@[i])@
                == ship_struck(
                ships[i],
                enemy_hit_by_bullets(
                    ships[i].game_object,
                    flying,
                    (j + 1) as nat,
                    player_before.position,
                    player_delta_t,
                    enemy_delta_t,
                ),
            ) by {
                assert(enemies@[i]@ == ship_views(enemies@)[i]);
                assert(ships_now[i] == ship_struck(
                    ships[i],
                    enemy_hit_by_bullets(
                        ships[i].game_object,
                        flying,
                        j as nat,
                        player_before.position,
                        player_delta_t,
                        enemy_delta_t,
                    ),
                ));
            }
        }
        j += 1;
    }
    assert(bullet_views(bullets@) =~= Seq::new(
        count as nat,
        |j: int| bullet_swept(flying[j], player_before, ships, player_delta_t, enemy_delta_t),
    ));
    assert(ship_views(enemies@) =~= Seq::new(
        ships.len(),
        |i: int|
            ship_struck(
                ships[i],
                enemy_hit_by_bullets(
                    ships[i].game_object,
                    flying,
                    count as nat,
                    player_before.position,
                    player_delta_t,
                    enemy_delta_t,
                ),
            ),
    ));
}

/// The part of a step in which the player collects bases: a base not yet
/// collected that the player touches is collected and counted, and every
/// collected base goes where the player is.
pub fn collect_bases(player: &GameObject, bases: &mut Vec<Base>, collected_base_count: &mut u32)
    ensures
        base_views(final(bases)@) == Seq::new(
            old(bases)@.len(),
            |i: int| base_swept(base_views(old(bases)@)[i], player@),
        ),
        *final(collected_base_count) == collected_count(
            *old(collected_base_count),
            base_views(old(bases)@),
            old(bases)@.len(),
            player@,
        ),
{
    let ghost before = base_views(bases@);
    let ghost count_before = *collected_base_count;
    let count = bases.len();
    let mut i: usize = 0;
    while i < count
        invariant
            i <= count,
            count == bases.len(),
            count == before.len(),
            forall|j: int| 0 <= j < i ==> (#[trigger] bases@[j])@ == base_swept(before[j], player@),
            forall|j: int| i <= j < count ==> (#[trigger] bases@[j])@ == before[j],
            *collected_base_count == collected_count(count_before, before, i as nat, player@),
        decreases count - i,
    {
        let base = &mut bases[i];
        if !base.collected && GameObject::is_overlapping(player, &base.game_object) {
            base.collected = true;
            if *collected_base_count < u32::MAX {
                *collected_base_count = *collected_base_count + 1;
            }
        }
        if base.collected {
            base.game_object.position = player.position;
        }
        i += 1;
    }
    assert(base_views(bases@) =~= Seq::new(
        count as nat,
        |i: int| base_swept(before[i], player@),
    ));
}

/// Whether an enemy stays in the world: it is not dead.
pub open spec fn enemy_survives(enemy: ShipView) -> bool {
    enemy.game_object.health_status != HealthStatus::Dead
}

/// The enemies that stay in the world, in their order.
pub open spec fn surviving_enemies(enemies: Seq<ShipView>) -> Seq<ShipView> {
    enemies.filter(|enemy: ShipView| enemy_survives(enemy))
}

/// The bullets that stay in the world, in their order.
pub open spec fn surviving_bullets(bullets: Seq<BulletView>) -> Seq<BulletView> {
    bullets.filter(|bullet: BulletView| bullet.survives())
}

/// Takes the dead enemies out of the world.  Those that stay keep their
/// order.
pub fn cull_enemies(enemies: &mut Vec<Ship>)
    ensures
        ship_views(final(enemies)@) == surviving_enemies(ship_views(old(enemies)@)),
{
    let ghost before = ship_views(enemies@);
    let ghost keep = |enemy: ShipView| enemy_survives(enemy);
    let ghost mut seen: int = 0;
    let mut i: usize = 0;
    assert(before.take(0) =~= Seq::empty());
    assert(before.skip(0) =~= before);
    assert(ship_views(enemies@) =~= before.take(0).filter(keep) + before.skip(0));
    while i < enemies.len()
        invariant
            0 <= seen <= before.len(),
            i == before.take(seen).filter(keep).len(),
            enemies.len() == i + before.len() - seen,
            ship_views(enemies@) == before.take(seen).filter(keep) + before.skip(seen),
            keep == |enemy: ShipView| enemy_survives(enemy),
        decreases enemies.len() - i,
    {
        let ghost now = enemies@;
        let ghost kept = before.take(seen).filter(keep);
        proof {
            assert(ship_views(now)[i as int] == before.skip(seen)[0]);
            assert(now[i as int]@ == before[seen]);
            assert(before.take(seen + 1) =~= before.take(seen).push(before[seen]));
            before.take(seen).lemma_filter_push(before[seen], keep);
            assert(keep(before[seen]) == enemy_survives(before[seen]));
            assert(before.skip(seen) =~= seq![before[seen]] + before.skip(seen + 1));
        }
        if enemies[i].game_object.health_status == HealthStatus::Dead {
            let _gone = enemies.remove(i);
            proof {
                assert(before.take(seen + 1).filter(keep) == kept);
                assert(ship_views(enemies@) =~= ship_views(now).remove(i as int));
                assert((kept + before.skip(seen)).remove(i as int) =~= kept + before.skip(
                    seen + 1,
                ));
                seen = seen + 1;
            }
        } else {
            proof {
                assert(before.take(seen + 1).filter(keep) == kept.push(before[seen]));
                assert(kept.push(before[seen]) + before.skip(seen + 1) =~= kept + before.skip(
                    seen,
                ));
                seen = seen + 1;
            }
            i += 1;
        }
    }
    assert(before.take(seen) =~= before);
    assert(before.skip(seen) =~= Seq::empty());
    assert(ship_views(enemies@) =~= before.filter(keep));
}

/// Takes the bullets that are dead or spent out of the world.  Those that
/// stay keep their order.
pub fn cull_bullets(bullets: &mut Vec<Bullet>)
    ensures
        bullet_views(final(bullets)@) == surviving_bullets(bullet_views(old(bullets)@)),
{
    let ghost before = bullet_views(bullets@);
    let ghost keep = |bullet: BulletView| bullet.survives();
    let ghost mut seen: int = 0;
    let mut i: usize = 0;
    assert(before.take(0) =~= Seq::empty());
    assert(before.skip(0) =~= before);
    assert(bullet_views(bullets@) =~= before.take(0).filter(keep) + before.skip(0));
    while i < bullets.len()
        invariant
            0 <= seen <= before.len(),
            i == before.take(seen).filter(keep).len(),
            bullets.len() == i + before.len() - seen,
            bullet_views(bullets@) == before.take(seen).filter(keep) + before.skip(seen),
            keep == |bullet: BulletView| bullet.survives(),
        decreases bullets.len() - i,
    {
        let ghost now = bullets@;
        let ghost kept = before.take(seen).filter(keep);
        proof {
            assert(bullet_views(now)[i as int] == before.skip(seen)[0]);
            assert(now[i as int]@ == before[seen]);
            assert(before.take(seen + 1) =~= before.take(seen).push(before[seen]));
            before.take(seen).lemma_filter_push(before[seen], keep);
            assert(keep(before[seen]) == before[seen].survives());
            assert(before.skip(seen) =~= seq![before[seen]] + before.skip(seen + 1));
        }
        if bullets[i].game_object.health_status == HealthStatus::Dead
            || bullets[i].lifetime_remaining <= 0 {
            let _gone = bullets.remove(i);
            proof {
                assert(before.take(seen + 1).filter(keep) == kept);
                assert(bullet_views(bullets@) =~= bullet_views(now).remove(i as int));
                assert((kept + before.skip(seen)).remove(i as int) =~= kept + before.skip(
                    seen + 1,
                ));
                seen = seen + 1;
            }
        } else {
            proof {
                assert(before.take(seen + 1).filter(keep) == kept.push(before[seen]));
                assert(kept.push(before[seen]) + before.skip(seen + 1) =~= kept + before.skip(
                    seen,
                ));
                seen = seen + 1;
            }
            i += 1;
        }
    }
    assert(before.take(seen) =~= before);
    assert(before.skip(seen) =~= Seq::empty());
    assert(bullet_views(bullets@) =~= before.filter(keep));
}

/// A base is collected once: a base that a step has collected is collected
/// in no later step, stays collected, and is counted no more.
pub proof fn lemma_collected_once(base: BaseView, player: GameObjectView, later: GameObjectView)
    ensures
        is_collected_now(base, player) ==> base_swept(base, player).collected,
        base_swept(base, player).collected ==> {
            &&& !is_collected_now(base_swept(base, player), later)
            &&& base_swept(base_swept(base, player), later).collected
        },
{
}

/// The count of collected bases rises by one for a base collected now, as
/// far as the count goes, and not at all over bases collected before.
pub proof fn lemma_collected_count(
    count: u32,
    bases: Seq<BaseView>,
    n: nat,
    player: GameObjectView,
)
    requires
        0 < n <= bases.len(),
        forall|i: int| 0 <= i < n - 1 ==> (#[trigger] bases[i]).collected,
    ensures
        collected_count(count, bases, n, player) == (if is_collected_now(bases[n - 1], player)
            && count < u32::MAX {
            (count + 1) as u32
        } else {
            count
        }),
    decreases n,
{
    lemma_collected_before(count, bases, (n - 1) as nat, player);
}

/// A bullet that hits the player is among the bullets that hit it.
pub proof fn lemma_one_hit_is_a_hit(
    player: GameObjectView,
    bullets: Seq<BulletView>,
    n: nat,
    j: int,
    player_delta_t: i64,
    enemy_delta_t: i64,
)
    requires
        0 <= j < n <= bullets.len(),
        bullet_hits_player(bullets[j], player, player_delta_t, enemy_delta_t),
    ensures
        player_hit_by_bullets(player, bullets, n, player_delta_t, enemy_delta_t),
    decreases n,
{
    if j < n - 1 {
        lemma_one_hit_is_a_hit(player, bullets, (n - 1) as nat, j, player_delta_t, enemy_delta_t);
    }
}

/// The count of collected bases never falls.
pub proof fn lemma_count_never_falls(
    count: u32,
    bases: Seq<BaseView>,
    n: nat,
    player: GameObjectView,
)
    ensures
        collected_count(count, bases, n, player) >= count,
    decreases n,
{
    if n > 0 {
        lemma_count_never_falls(count, bases, (n - 1) as nat, player);
    }
}

proof fn lemma_collected_before(count: u32, bases: Seq<BaseView>, n: nat, player: GameObjectView)
    requires
        n <= bases.len(),
        forall|i: int| 0 <= i < n ==> (#[trigger] bases[i]).collected,
    ensures
        collected_count(count, bases, n, player) == count,
    decreases n,
{
    if n > 0 {
        lemma_collected_before(count, bases, (n - 1) as nat, player);
    }
}

} // verus!
