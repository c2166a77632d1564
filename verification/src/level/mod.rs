//! Levels: where the bases lie and what enemies there are.

pub mod level_1;

use vstd::prelude::*;
use crate::base::{Base, BaseView};
use crate::snapshot::base_views;
use crate::spawn_regions::SpawnRegion;

verus! {

/// What a world is made from.
pub trait Level {
    /// The bases of the level, in the order by which enemies name theirs.
    spec fn bases_spec(&self) -> Seq<BaseView>;

    /// The rings of enemies that guard nothing.
    spec fn spawn_regions_spec(&self) -> Seq<SpawnRegion>;

    /// The bases of the level, each not yet collected.
    fn get_bases(&self) -> (r: Vec<Base>)
        ensures
            base_views(r@) == self.bases_spec(),
    ;

    /// The rings of enemies that guard nothing.
    fn get_spawn_regions(&self) -> (r: Vec<SpawnRegion>)
        ensures
            r@ == self.spawn_regions_spec(),
    ;
}

} // verus!
