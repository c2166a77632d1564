//! Bases: landmarks that the player collects, each guarded by the enemies
//! it spawned.

use vstd::prelude::*;
use crate::fixed::{magnitude, mul_div, mul_div_spec, ONE};
use crate::game_object::draw_shape::{DrawShape, RED};
use crate::game_object::{lemma_placed_distance, GameObject, GameObjectView};
use crate::random::random_angle;
use crate::ship::controller::QUARTER_PI;
use crate::ship::enemy_ship_type::{EnemyCounts, EnemyShipType, ENEMY_SHIP_TYPES};
use crate::ship::{ship_views, Ship, ShipView};
use crate::trig::PI;
use crate::vector::{length_tolerance, Vec2, SCALE_LIMIT};

verus! {

/// The radius of every base.
pub const BASE_RADIUS: i64 = 25_000_000;

/// A base.
#[derive(Debug, Clone)]
pub struct Base {
    pub game_object: GameObject,
    /// The enemies it spawns, by kind.
    pub enemy_counts: EnemyCounts,
    /// How far from the base its enemies like to stay.
    pub optimal_distance: i64,
    /// How far from the base the player must be for its enemies to let
    /// the player go.
    pub max_distance: i64,
    /// Whether the player has collected the base.
    pub collected: bool,
}

/// The mathematical value of a `Base`.
pub ghost struct BaseView {
    pub game_object: GameObjectView,
    pub enemy_counts: EnemyCounts,
    pub optimal_distance: i64,
    pub max_distance: i64,
    pub collected: bool,
}

impl View for Base {
    type V = BaseView;

    open spec fn view(&self) -> BaseView {
        BaseView {
            game_object: self.game_object@,
            enemy_counts: self.enemy_counts,
            optimal_distance: self.optimal_distance,
            max_distance: self.max_distance,
            collected: self.collected,
        }
    }
}

/// The angle by which the ship at place `index` among `count` of a kind
/// aims beside its mark: the places spread evenly over the quarter turn
/// around zero, from an eighth of a turn below.
pub open spec fn spawn_offset_spec(index: u32, count: u32) -> i64 {
    mul_div_spec((2 * (index - count / 2)) as i64, QUARTER_PI, count as i64)
}

/// The ship at place `index` among `count` of a kind, before it is set
/// down.  A ship bound to a base aims beside its mark by its place among
/// its kind; a ship without a base aims at it.
pub open spec fn roster_entry(kind: EnemyShipType, base: Option<usize>, count: u32, index: int)
    -> ShipView {
    ShipView::enemy(
        kind,
        base,
        if base.is_some() {
            spawn_offset_spec(index as u32, count)
        } else {
            0
        },
    )
}

/// The ships of the first `kinds` kinds that `counts` asks for, kind by
/// kind, before they are set down.
pub open spec fn roster(counts: EnemyCounts, base: Option<usize>, kinds: nat) -> Seq<ShipView>
    decreases kinds,
{
    if kinds == 0 {
        Seq::empty()
    } else {
        let kind = EnemyShipType::at_spec(kinds - 1);
        let count = counts.count_spec(kind);
        roster(counts, base, (kinds - 1) as nat) + Seq::new(
            count as nat,
            |i: int| roster_entry(kind, base, count, i),
        )
    }
}

/// Whether `ship` is `unplaced` set down `distance` from `center`, in
/// some direction.
pub open spec fn is_placed_around(ship: ShipView, unplaced: ShipView, center: Vec2, distance: i64)
    -> bool {
    exists|angle: i64| -PI <= angle <= PI && ship == #[trigger] unplaced.placed(center, distance, angle)
}

/// The angle by which the ship at place `index` among `count` of a kind
/// aims beside its mark.
#[verifier::when_used_as_spec(spawn_offset_spec)]
pub fn spawn_offset(index: u32, count: u32) -> (r: i64)
    ensures
        r == spawn_offset_spec(index, count),
{
    mul_div(2 * (index as i64 - (count / 2) as i64), QUARTER_PI, count as i64)
}

/// The ships that `counts` asks for, kind by kind, before they are set
/// down.
pub fn build_roster(counts: &EnemyCounts, base: Option<usize>) -> (r: Vec<Ship>)
    ensures
        ship_views(r@) == roster(*counts, base, ENEMY_SHIP_TYPES as nat),
{
    let mut enemies: Vec<Ship> = Vec::new();
    let mut kinds: usize = 0;
    assert(ship_views(enemies@) =~= roster(*counts, base, 0));
    while kinds < ENEMY_SHIP_TYPES
        invariant
            kinds <= ENEMY_SHIP_TYPES,
            ship_views(enemies@) == roster(*counts, base, kinds as nat),
        decreases ENEMY_SHIP_TYPES - kinds,
    {
        let kind = EnemyShipType::at(kinds);
        let count = counts.count(kind);
        let ghost earlier = ship_views(enemies@);
        let mut i: u32 = 0;
        assert(ship_views(enemies@) =~= earlier + Seq::new(
            0,
            |j: int| roster_entry(kind, base, count, j),
        ));
        while i < count
            invariant
                i <= count,
                ship_views(enemies@) == earlier + Seq::new(
                    i as nat,
                    |j: int| roster_entry(kind, base, count, j),
                ),
            decreases count - i,
        {
            let offset = if base.is_some() {
                spawn_offset(i, count)
            } else {
                0
            };
            let ghost before = enemies@;
            let ship = Ship::new_enemy(kind, base, offset);
            enemies.push(ship);
            assert(ship_views(enemies@) =~= ship_views(before).push(
                roster_entry(kind, base, count, i as int),
            ));
            assert(ship_views(before).push(roster_entry(kind, base, count, i as int)) =~= earlier
                + Seq::new((i + 1) as nat, |j: int| roster_entry(kind, base, count, j)));
            i += 1;
        }
        kinds += 1;
    }
    enemies
}

/// A ship set down around a centre lies at the distance asked from it, to
/// within the tolerance.
pub proof fn lemma_placed_around_distance(
    ship: ShipView,
    unplaced: ShipView,
    center: Vec2,
    distance: i64,
)
    requires
        is_placed_around(ship, unplaced, center, distance),
        -SCALE_LIMIT <= center.x <= SCALE_LIMIT,
        -SCALE_LIMIT <= center.y <= SCALE_LIMIT,
        0 <= distance <= SCALE_LIMIT,
    ensures
        distance - length_tolerance(distance) <= ship.game_object.position.distance_spec(center)
            <= distance + length_tolerance(distance),
{
    let angle = choose|angle: i64|
        -PI <= angle <= PI && ship == #[trigger] unplaced.placed(center, distance, angle);
    lemma_placed_distance(unplaced.game_object, center, distance, angle);
}

/// The offsets of a kind spread within the quarter turn around zero.
pub proof fn lemma_spawn_offset_bound(index: u32, count: u32)
    requires
        index < count,
    ensures
        -QUARTER_PI <= spawn_offset_spec(index, count) <= QUARTER_PI,
{
    let n = 2 * (index - count / 2);
    assert(-count <= n <= count);
    let p = n * QUARTER_PI;
    let m = magnitude(n);
    assert(magnitude(p) == m * QUARTER_PI && (n >= 0 ==> p >= 0) && (n <= 0 ==> p <= 0))
        by (nonlinear_arith)
        requires
            p == n * QUARTER_PI,
            m == magnitude(n),
    ;
    assert(0 <= (m * QUARTER_PI) / (count as int) <= QUARTER_PI) by (nonlinear_arith)
        requires
            0 <= m <= count,
            count > 0,
    ;
}

/// A roster holds as many ships as its counts ask for.
pub proof fn lemma_roster_len(counts: EnemyCounts, base: Option<usize>, kinds: nat)
    ensures
        roster(counts, base, kinds).len() == counts.total_spec(kinds),
    decreases kinds,
{
    if kinds > 0 {
        lemma_roster_len(counts, base, (kinds - 1) as nat);
    }
}

impl BaseView {
    /// The ships the base spawns, before they are set down: bound to the
    /// base at place `base_index` among the bases.
    pub open spec fn unplaced_enemies(self, base_index: usize) -> Seq<ShipView> {
        roster(self.enemy_counts, Some(base_index), ENEMY_SHIP_TYPES as nat)
    }

    /// A base not yet collected, at rest at `position`.
    pub open spec fn new_spec(
        position: Vec2,
        enemy_counts: EnemyCounts,
        optimal_distance: i64,
        max_distance: i64,
    ) -> BaseView {
        BaseView {
            game_object: GameObjectView {
                position,
                radius: BASE_RADIUS,
                draw_shapes: seq![DrawShape::circle(RED)],
                ..GameObject::default_view()
            },
            enemy_counts,
            optimal_distance,
            max_distance,
            collected: false,
        }
    }

    /// A base with no enemies at the origin.
    pub open spec fn default_spec() -> BaseView {
        BaseView {
            game_object: GameObject::default_view(),
            enemy_counts: EnemyCounts::empty_spec(),
            optimal_distance: 100_000_000,
            max_distance: 1_000_000_000,
            collected: false,
        }
    }
}

impl Default for Base {
    fn default() -> (r: Base)
        ensures
            r@ == BaseView::default_spec(),
    {
        Base {
            game_object: GameObject::default(),
            enemy_counts: EnemyCounts::new(),
            optimal_distance: 100 * ONE,
            max_distance: 1000 * ONE,
            collected: false,
        }
    }
}

impl Base {
    /// A base not yet collected, at rest at `position`.
    pub fn new(
        position: Vec2,
        enemy_counts: EnemyCounts,
        optimal_distance: i64,
        max_distance: i64,
    ) -> (r: Base)
        ensures
            r@ == BaseView::new_spec(position, enemy_counts, optimal_distance, max_distance),
    {
        let mut game_object = GameObject::default();
        game_object.position = position;
        game_object.radius = BASE_RADIUS;
        game_object.draw_shapes.push(DrawShape::new_circle_color(RED));
        let r = Base { game_object, enemy_counts, optimal_distance, max_distance, collected: false };
        assert(r@.game_object.draw_shapes =~= seq![DrawShape::circle(RED)]);
        r
    }

    /// The enemies of the base, which is at place `base_index` among the
    /// bases: as many of each kind as the base counts, each bound to the
    /// base, each set down at the base's optimal distance from it in a
    /// random direction of its own.
    pub fn get_enemies(&self, base_index: usize) -> (r: Vec<Ship>)
        ensures
            r@.len() == self@.unplaced_enemies(base_index).len(),
            forall|k: int|
                0 <= k < r@.len() ==> is_placed_around(
                    (#[trigger] r@[k])@,
                    self@.unplaced_enemies(base_index)[k],
                    self@.game_object.position,
                    self@.optimal_distance,
                ),
    {
        let mut enemies = build_roster(&self.enemy_counts, Some(base_index));
        let ghost unplaced = self@.unplaced_enemies(base_index);
        let count = enemies.len();
        assert(forall|k: int| 0 <= k < count ==> (#[trigger] enemies@[k])@ == ship_views(enemies@)[k]);
        let mut k: usize = 0;
        while k < count
            invariant
                k <= count,
                count == enemies.len(),
                count == unplaced.len(),
                unplaced == self@.unplaced_enemies(base_index),
                forall|j: int|
                    0 <= j < k ==> is_placed_around(
                        (#[trigger] enemies@[j])@,
                        unplaced[j],
                        self@.game_object.position,
                        self@.optimal_distance,
                    ),
                forall|j: int| k <= j < count ==> (#[trigger] enemies@[j])@ == unplaced[j],
            decreases count - k,
        {
            let direction = random_angle();
            enemies[k].game_object.place(
                self.game_object.position,
                self.optimal_distance,
                direction,
            );
            assert(enemies@[k as int]@ == unplaced[k as int].placed(
                self@.game_object.position,
                self@.optimal_distance,
                direction,
            ));
            k += 1;
        }
        enemies
    }
}

} // verus!
