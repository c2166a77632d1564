//! The first level.

use vstd::prelude::*;
use crate::base::{Base, BaseView};
use crate::game::spawn::{
    bases_population, bases_spawns, lemma_plan_len, regions_population, regions_spawns,
};
use crate::level::Level;
use crate::ship::enemy_ship_type::{EnemyCounts, EnemyShipType};
use crate::snapshot::base_views;
use crate::spawn_regions::SpawnRegion;
use crate::vector::Vec2;

verus! {

/// The first level: thirteen bases, the nearer the easier, and three rings
/// of enemies around the home base.
#[derive(Debug, Clone, Copy)]
pub struct Level1;

impl Level1 {
    /// How many bases the level has.
    pub open spec fn base_count() -> nat {
        13
    }

    /// How many rings of enemies the level has.
    pub open spec fn spawn_region_count() -> nat {
        3
    }

    /// The base at a place in the level's list.
    pub open spec fn base_spec(index: int) -> BaseView {
        if index == 0 {
            BaseView::new_spec(
                Vec2::from_units_spec(-1000, 0),
                EnemyCounts { slow: 10, ..EnemyCounts::empty_spec() },
                50_000_000,
                500_000_000,
            )
        } else if index == 1 {
            BaseView::new_spec(
                Vec2::from_units_spec(-1000, 500),
                EnemyCounts { slow: 10, ..EnemyCounts::empty_spec() },
                50_000_000,
                500_000_000,
            )
        } else if index == 2 {
            BaseView::new_spec(
                Vec2::from_units_spec(1000, -500),
                EnemyCounts { slow: 10, ..EnemyCounts::empty_spec() },
                50_000_000,
                500_000_000,
            )
        } else if index == 3 {
            BaseView::new_spec(
                Vec2::from_units_spec(2500, 500),
                EnemyCounts { high_friction: 10, ..EnemyCounts::empty_spec() },
                50_000_000,
                1_000_000_000,
            )
        } else if index == 4 {
            BaseView::new_spec(
                Vec2::from_units_spec(-2500, 0),
                EnemyCounts { high_friction: 10, ..EnemyCounts::empty_spec() },
                50_000_000,
                1_000_000_000,
            )
        } else if index == 5 {
            BaseView::new_spec(
                Vec2::from_units_spec(500, 2500),
                EnemyCounts { high_friction: 10, ..EnemyCounts::empty_spec() },
                50_000_000,
                1_000_000_000,
            )
        } else if index == 6 {
            BaseView::new_spec(
                Vec2::from_units_spec(500, -2500),
                EnemyCounts { slow: 10, turret: 10, ..EnemyCounts::empty_spec() },
                50_000_000,
                1_000_000_000,
            )
        } else if index == 7 {
            BaseView::new_spec(
                Vec2::from_units_spec(-1000, 4500),
                EnemyCounts { low_friction: 10, sniper: 10, ..EnemyCounts::empty_spec() },
                50_000_000,
                1_200_000_000,
            )
        } else if index == 8 {
            BaseView::new_spec(
                Vec2::from_units_spec(0, 4500),
                EnemyCounts { low_friction: 10, sniper: 10, ..EnemyCounts::empty_spec() },
                50_000_000,
                1_200_000_000,
            )
        } else if index == 9 {
            BaseView::new_spec(
                Vec2::from_units_spec(1000, 4500),
                EnemyCounts { low_friction: 10, sniper: 10, ..EnemyCounts::empty_spec() },
                50_000_000,
                1_200_000_000,
            )
        } else if index == 10 {
            BaseView::new_spec(
                Vec2::from_units_spec(0, 4800),
                EnemyCounts { high_friction: 10, shoot: 10, ..EnemyCounts::empty_spec() },
                50_000_000,
                1_500_000_000,
            )
        } else if index == 11 {
            BaseView::new_spec(
                Vec2::from_units_spec(-300, 4800),
                EnemyCounts { ultra_low_friction: 10, slow: 10, ..EnemyCounts::empty_spec() },
                100_000_000,
                1_000_000_000,
            )
        } else {
            BaseView::new_spec(
                Vec2::from_units_spec(300, 4800),
                EnemyCounts { ultra_low_friction: 10, slow: 10, ..EnemyCounts::empty_spec() },
                100_000_000,
                1_000_000_000,
            )
        }
    }

    /// The ring of enemies at a place in the level's list.
    pub open spec fn spawn_region_spec(index: int) -> SpawnRegion {
        if index == 0 {
            SpawnRegion {
                enemy_counts: EnemyCounts { low_friction: 15, slow: 27, turret: 6, ..EnemyCounts::empty_spec() },
                min_distance: 1_000_000_000,
                max_distance: 3_000_000_000,
            }
        } else if index == 1 {
            SpawnRegion {
                enemy_counts: EnemyCounts { low_friction: 15, high_friction: 108, slow: 108, sniper: 36, ..EnemyCounts::empty_spec() },
                min_distance: 3_000_000_000,
                max_distance: 6_000_000_000,
            }
        } else {
            SpawnRegion {
                enemy_counts: EnemyCounts { ultra_low_friction: 15, high_friction: 108, shoot: 432, ..EnemyCounts::empty_spec() },
                min_distance: 6_000_000_000,
                max_distance: 12_000_000_000,
            }
        }
    }
}

impl Level for Level1 {
    open spec fn bases_spec(&self) -> Seq<BaseView> {
        Seq::new(Level1::base_count(), |i: int| Level1::base_spec(i))
    }

    open spec fn spawn_regions_spec(&self) -> Seq<SpawnRegion> {
        Seq::new(Level1::spawn_region_count(), |i: int| Level1::spawn_region_spec(i))
    }

    fn get_bases(&self) -> (r: Vec<Base>)
        ensures
            base_views(r@) == self.bases_spec(),
    {
        let mut bases: Vec<Base> = Vec::new();
        bases.push(
            Base::new(
                Vec2::from_units(-1000, 0),
                EnemyCounts::new().with(EnemyShipType::Slow, 10),
                50_000_000,
                500_000_000,
            ),
        );
        assert(bases@[0]@ == Level1::base_spec(0));
        bases.push(
            Base::new(
                Vec2::from_units(-1000, 500),
                EnemyCounts::new().with(EnemyShipType::Slow, 10),
                50_000_000,
                500_000_000,
            ),
        );
        assert(bases@[1]@ == Level1::base_spec(1));
        bases.push(
            Base::new(
                Vec2::from_units(1000, -500),
                EnemyCounts::new().with(EnemyShipType::Slow, 10),
                50_000_000,
                500_000_000,
            ),
        );
        assert(bases@[2]@ == Level1::base_spec(2));
        bases.push(
            Base::new(
                Vec2::from_units(2500, 500),
                EnemyCounts::new().with(EnemyShipType::HighFriction, 10),
                50_000_000,
                1_000_000_000,
            ),
        );
        assert(bases@[3]@ == Level1::base_spec(3));
        bases.push(
            Base::new(
                Vec2::from_units(-2500, 0),
                EnemyCounts::new().with(EnemyShipType::HighFriction, 10),
                50_000_000,
                1_000_000_000,
            ),
        );
        assert(bases@[4]@ == Level1::base_spec(4));
        bases.push(
            Base::new(
                Vec2::from_units(500, 2500),
                EnemyCounts::new().with(EnemyShipType::HighFriction, 10),
                50_000_000,
                1_000_000_000,
            ),
        );
        assert(bases@[5]@ == Level1::base_spec(5));
        bases.push(
            Base::new(
                Vec2::from_units(500, -2500),
                EnemyCounts::new().with(EnemyShipType::Slow, 10).with(EnemyShipType::Turret, 10),
                50_000_000,
                1_000_000_000,
            ),
        );
        assert(bases@[6]@ == Level1::base_spec(6));
        bases.push(
            Base::new(
                Vec2::from_units(-1000, 4500),
                EnemyCounts::new().with(EnemyShipType::LowFriction, 10).with(EnemyShipType::Sniper, 10),
                50_000_000,
                1_200_000_000,
            ),
        );
        assert(bases@[7]@ == Level1::base_spec(7));
        bases.push(
            Base::new(
                Vec2::from_units(0, 4500),
                EnemyCounts::new().with(EnemyShipType::LowFriction, 10).with(EnemyShipType::Sniper, 10),
                50_000_000,
                1_200_000_000,
            ),
        );
        assert(bases@[8]@ == Level1::base_spec(8));
        bases.push(
            Base::new(
                Vec2::from_units(1000, 4500),
                EnemyCounts::new().with(EnemyShipType::LowFriction, 10).with(EnemyShipType::Sniper, 10),
                50_000_000,
                1_200_000_000,
            ),
        );
        assert(bases@[9]@ == Level1::base_spec(9));
        bases.push(
            Base::new(
                Vec2::from_units(0, 4800),
                EnemyCounts::new().with(EnemyShipType::HighFriction, 10).with(EnemyShipType::Shoot, 10),
                50_000_000,
                1_500_000_000,
            ),
        );
        assert(bases@[10]@ == Level1::base_spec(10));
        bases.push(
            Base::new(
                Vec2::from_units(-300, 4800),
                EnemyCounts::new().with(EnemyShipType::UltraLowFriction, 10).with(EnemyShipType::Slow, 10),
                100_000_000,
                1_000_000_000,
            ),
        );
        assert(bases@[11]@ == Level1::base_spec(11));
        bases.push(
            Base::new(
                Vec2::from_units(300, 4800),
                EnemyCounts::new().with(EnemyShipType::UltraLowFriction, 10).with(EnemyShipType::Slow, 10),
                100_000_000,
                1_000_000_000,
            ),
        );
        assert(bases@[12]@ == Level1::base_spec(12));
        assert(base_views(bases@) =~= Seq::new(Level1::base_count(), |i: int| Level1::base_spec(i)));
        bases
    }

    fn get_spawn_regions(&self) -> (r: Vec<SpawnRegion>)
        ensures
            r@ == self.spawn_regions_spec(),
    {
        let mut regions: Vec<SpawnRegion> = Vec::new();
        regions.push(
            SpawnRegion::new(
                EnemyCounts::new().with(EnemyShipType::LowFriction, 15).with(EnemyShipType::Slow, 27).with(EnemyShipType::Turret, 6),
                1_000_000_000,
                3_000_000_000,
            ),
        );
        regions.push(
            SpawnRegion::new(
                EnemyCounts::new().with(EnemyShipType::LowFriction, 15).with(EnemyShipType::HighFriction, 108).with(EnemyShipType::Slow, 108).with(EnemyShipType::Sniper, 36),
                3_000_000_000,
                6_000_000_000,
            ),
        );
        regions.push(
            SpawnRegion::new(
                EnemyCounts::new().with(EnemyShipType::UltraLowFriction, 15).with(EnemyShipType::HighFriction, 108).with(EnemyShipType::Shoot, 432),
                6_000_000_000,
                12_000_000_000,
            ),
        );
        assert(regions@ =~= Seq::new(3, |i: int| Level1::spawn_region_spec(i)));
        regions
    }
}

/// The first level has thirteen bases, none collected, that ask for 200
/// ships, and three spawn regions that ask for 870.
pub proof fn lemma_level_1_population()
    ensures
        Level1.bases_spec().len() == 13,
        forall|i: int| 0 <= i < 13 ==> !(#[trigger] Level1.bases_spec()[i]).collected,
        Level1.spawn_regions_spec().len() == 3,
        bases_spawns(Level1.bases_spec(), 13).len() == 200,
        regions_spawns(Level1.spawn_regions_spec(), 3).len() == 870,
{
    let bases = Level1.bases_spec();
    let regions = Level1.spawn_regions_spec();
    lemma_plan_len(bases, 13, regions, 3);
    reveal_with_fuel(EnemyCounts::total_spec, 10);
    assert forall|i: int| 0 <= i < 13 implies (#[trigger] bases[i]).enemy_counts.total_spec(9) == (
    if i < 6 {
        10nat
    } else {
        20nat
    }) by {
        assert(bases[i] == Level1::base_spec(i));
    }
    reveal_with_fuel(bases_population, 14);
    assert(bases_population(bases, 13) == 200);
    assert(regions[0].enemy_counts.total_spec(9) == 48);
    assert(regions[1].enemy_counts.total_spec(9) == 267);
    assert(regions[2].enemy_counts.total_spec(9) == 555);
    reveal_with_fuel(regions_population, 4);
    assert(regions_population(regions, 3) == 870);
}

} // verus!
