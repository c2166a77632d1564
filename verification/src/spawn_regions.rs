//! Spawn regions: rings around the origin, strewn with enemies that guard
//! nothing.

use vstd::prelude::*;
use crate::base::{build_roster, roster};
use crate::game_object::lemma_placed_distance;
use crate::random::{distance_of_square_spec, is_square_draw, lemma_drawn_distance_in_ring};
use crate::ship::enemy_ship_type::{EnemyCounts, ENEMY_SHIP_TYPES};
use crate::ship::{ship_views, Ship, ShipView};
use crate::trig::PI;
use crate::vector::{length_tolerance, Vec2, SCALE_LIMIT};

verus! {

/// A ring around the origin and the enemies to strew over it.
#[derive(Debug, Clone, Copy)]
pub struct SpawnRegion {
    pub enemy_counts: EnemyCounts,
    pub min_distance: i64,
    pub max_distance: i64,
}

/// Whether `ship` is `unplaced` set down in the ring between
/// `min_distance` and `max_distance`: in some direction, at a distance
/// that a draw for the ring can give.
pub open spec fn is_placed_in_ring(
    ship: ShipView,
    unplaced: ShipView,
    min_distance: i64,
    max_distance: i64,
) -> bool {
    exists|angle: i64, square: i64|
        -PI <= angle <= PI && is_square_draw(square, min_distance, max_distance) && ship
            == #[trigger] unplaced.placed(
            Vec2::zero_spec(),
            distance_of_square_spec(square, min_distance, max_distance),
            angle,
        )
}

/// A ship set down in a ring lies in the ring, to within the tolerance:
/// no nearer to the origin than the inner bound and no farther than the
/// outer bound, for bounds in order from zero to `SCALE_LIMIT`.
pub proof fn lemma_placed_in_ring_distance(
    ship: ShipView,
    unplaced: ShipView,
    min_distance: i64,
    max_distance: i64,
)
    requires
        is_placed_in_ring(ship, unplaced, min_distance, max_distance),
        0 <= min_distance <= max_distance <= SCALE_LIMIT,
    ensures
        min_distance - length_tolerance(min_distance) <= ship.game_object.position.distance_spec(
            Vec2::zero_spec(),
        ) <= max_distance + length_tolerance(max_distance),
{
    let (angle, square) = choose|angle: i64, square: i64|
        -PI <= angle <= PI && is_square_draw(square, min_distance, max_distance) && ship
            == #[trigger] unplaced.placed(
            Vec2::zero_spec(),
            distance_of_square_spec(square, min_distance, max_distance),
            angle,
        );
    let distance = distance_of_square_spec(square, min_distance, max_distance);
    lemma_drawn_distance_in_ring(square, min_distance, max_distance);
    lemma_placed_distance(unplaced.game_object, Vec2::zero_spec(), distance, angle);
}

impl SpawnRegion {
    /// The ships the region spawns, before they are set down.
    pub open spec fn unplaced_enemies(self) -> Seq<ShipView> {
        roster(self.enemy_counts, None, ENEMY_SHIP_TYPES as nat)
    }

    /// The ring between two distances from the origin, with its enemies.
    pub fn new(enemy_counts: EnemyCounts, min_distance: i64, max_distance: i64) -> (r: Self)
        ensures
            r == (SpawnRegion { enemy_counts, min_distance, max_distance }),
    {
        SpawnRegion { enemy_counts, min_distance, max_distance }
    }

    /// The enemies of the region: as many of each kind as the region
    /// counts, bound to no base, each set down at a random place of its own
    /// in the ring.
    pub fn get_enemies(&self) -> (r: Vec<Ship>)
        ensures
            r@.len() == self.unplaced_enemies().len(),
            forall|k: int|
                0 <= k < r@.len() ==> is_placed_in_ring(
                    (#[trigger] r@[k])@,
                    self.unplaced_enemies()[k],
                    self.min_distance,
                    self.max_distance,
                ),
    {
        let mut enemies = build_roster(&self.enemy_counts, None);
        let ghost unplaced = self.unplaced_enemies();
        let count = enemies.len();
        assert(forall|k: int| 0 <= k < count ==> (#[trigger] enemies@[k])@ == ship_views(enemies@)[k]);
        let mut k: usize = 0;
        while k < count
            invariant
                k <= count,
                count == enemies.len(),
                count == unplaced.len(),
                unplaced == self.unplaced_enemies(),
                forall|j: int|
                    0 <= j < k ==> is_placed_in_ring(
                        (#[trigger] enemies@[j])@,
                        unplaced[j],
                        self.min_distance,
                        self.max_distance,
                    ),
                forall|j: int| k <= j < count ==> (#[trigger] enemies@[j])@ == unplaced[j],
            decreases count - k,
        {
            enemies[k].game_object.randomize_position(self.min_distance, self.max_distance);
            proof {
                let body = unplaced[k as int].game_object;
                let (angle, square) = choose|angle: i64, square: i64|
                    -PI <= angle <= PI && is_square_draw(
                        square,
                        self.min_distance,
                        self.max_distance,
                    ) && enemies@[k as int].game_object@ == body.placed(
                        Vec2::zero_spec(),
                        distance_of_square_spec(square, self.min_distance, self.max_distance),
                        angle,
                    );
                assert(enemies@[k as int]@ == unplaced[k as int].placed(
                    Vec2::zero_spec(),
                    distance_of_square_spec(square, self.min_distance, self.max_distance),
                    angle,
                ));
            }
            k += 1;
        }
        enemies
    }
}

} // verus!
