//! The plan by which a new world is peopled.

use vstd::prelude::*;
use crate::base::{is_placed_around, lemma_roster_len, BaseView};
use crate::ship::enemy_ship_type::ENEMY_SHIP_TYPES;
use crate::ship::ShipView;
use crate::spawn_regions::{is_placed_in_ring, SpawnRegion};
use crate::vector::Vec2;

verus! {

/// Where a new ship is to be set down.
pub ghost enum Spot {
    /// At a distance from a point, in any direction.
    Around { center: Vec2, distance: i64 },
    /// Anywhere in a ring around the origin.
    Ring { min_distance: i64, max_distance: i64 },
}

/// A ship to be set down, and where.
pub ghost struct Spawn {
    pub unplaced: ShipView,
    pub spot: Spot,
}

/// Whether `ship` is what `spawn` asks for.
pub open spec fn is_spawned(ship: ShipView, spawn: Spawn) -> bool {
    match spawn.spot {
        Spot::Around { center, distance } => is_placed_around(
            ship,
            spawn.unplaced,
            center,
            distance,
        ),
        Spot::Ring { min_distance, max_distance } => is_placed_in_ring(
            ship,
            spawn.unplaced,
            min_distance,
            max_distance,
        ),
    }
}

/// What the base at place `index` spawns: its enemies, around it at its
/// optimal distance.
pub open spec fn base_spawns(base: BaseView, index: usize) -> Seq<Spawn> {
    Seq::new(
        base.unplaced_enemies(index).len(),
        |k: int|
            Spawn {
                unplaced: base.unplaced_enemies(index)[k],
                spot: Spot::Around {
                    center: base.game_object.position,
                    distance: base.optimal_distance,
                },
            },
    )
}

/// What a spawn region spawns: its enemies, in its ring.
pub open spec fn region_spawns(region: SpawnRegion) -> Seq<Spawn> {
    Seq::new(
        region.unplaced_enemies().len(),
        |k: int|
            Spawn {
                unplaced: region.unplaced_enemies()[k],
                spot: Spot::Ring {
                    min_distance: region.min_distance,
                    max_distance: region.max_distance,
                },
            },
    )
}

/// What the first `n` bases spawn, base by base.
pub open spec fn bases_spawns(bases: Seq<BaseView>, n: nat) -> Seq<Spawn>
    decreases n,
{
    if n == 0 {
        Seq::empty()
    } else {
        bases_spawns(bases, (n - 1) as nat) + base_spawns(bases[n - 1], (n - 1) as usize)
    }
}

/// What the first `n` spawn regions spawn, region by region.
pub open spec fn regions_spawns(regions: Seq<SpawnRegion>, n: nat) -> Seq<Spawn>
    decreases n,
{
    if n == 0 {
        Seq::empty()
    } else {
        regions_spawns(regions, (n - 1) as nat) + region_spawns(regions[n - 1])
    }
}

/// How many ships the first `n` bases ask for.
pub open spec fn bases_population(bases: Seq<BaseView>, n: nat) -> nat
    decreases n,
{
    if n == 0 {
        0
    } else {
        bases_population(bases, (n - 1) as nat) + bases[n - 1].enemy_counts.total_spec(
            ENEMY_SHIP_TYPES as nat,
        )
    }
}

/// How many ships the first `n` spawn regions ask for.
pub open spec fn regions_population(regions: Seq<SpawnRegion>, n: nat) -> nat
    decreases n,
{
    if n == 0 {
        0
    } else {
        regions_population(regions, (n - 1) as nat) + regions[n - 1].enemy_counts.total_spec(
            ENEMY_SHIP_TYPES as nat,
        )
    }
}

/// A plan asks for as many ships as the counts of its bases and regions
/// add up to.
pub proof fn lemma_plan_len(bases: Seq<BaseView>, n: nat, regions: Seq<SpawnRegion>, m: nat)
    ensures
        bases_spawns(bases, n).len() == bases_population(bases, n),
        regions_spawns(regions, m).len() == regions_population(regions, m),
    decreases n + m,
{
    if n > 0 {
        lemma_plan_len(bases, (n - 1) as nat, regions, 0);
        lemma_roster_len(
            bases[n - 1].enemy_counts,
            Some((n - 1) as usize),
            ENEMY_SHIP_TYPES as nat,
        );
    }
    if m > 0 {
        lemma_plan_len(bases, 0, regions, (m - 1) as nat);
        lemma_roster_len(regions[m - 1].enemy_counts, None, ENEMY_SHIP_TYPES as nat);
    }
}

/// Whether `ships` are, one by one, what `plan` asks for.
pub open spec fn follows_plan(ships: Seq<ShipView>, plan: Seq<Spawn>) -> bool {
    &&& ships.len() == plan.len()
    &&& forall|k: int| 0 <= k < ships.len() ==> is_spawned(#[trigger] ships[k], plan[k])
}

/// Ships that follow one plan, then ships that follow another, follow the
/// two plans joined.
pub proof fn lemma_follows_plan_append(
    ships: Seq<ShipView>,
    plan: Seq<Spawn>,
    more_ships: Seq<ShipView>,
    more_plan: Seq<Spawn>,
)
    requires
        follows_plan(ships, plan),
        follows_plan(more_ships, more_plan),
    ensures
        follows_plan(ships + more_ships, plan + more_plan),
{
    assert forall|k: int| 0 <= k < (ships + more_ships).len() implies is_spawned(
        #[trigger] (ships + more_ships)[k],
        (plan + more_plan)[k],
    ) by {
        if k < ships.len() {
            assert((ships + more_ships)[k] == ships[k]);
        } else {
            assert((ships + more_ships)[k] == more_ships[k - ships.len()]);
        }
    }
}

} // verus!
