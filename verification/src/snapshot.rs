//! The world as decisions see it.
//!
//! Within one step every pilot and every weapon decides on the same
//! picture of the world: the player as the step found it, and the bullets
//! and bases, which no decision changes.

use vstd::prelude::*;
use crate::base::{Base, BaseView};
use crate::direction::Direction;
use crate::input::Input;
use crate::vector::Vec2;
use crate::weapon::bullet::{Bullet, BulletView};
use crate::weapon::bullet_views;

verus! {

/// Where something is, how it moves and where it points.
#[derive(Debug, Clone, Copy)]
pub struct Pose {
    pub position: Vec2,
    pub velocity: Vec2,
    pub direction: Direction,
}

/// What a decision may read of the world.
pub struct Snapshot<'a> {
    /// The player at the start of the step.
    pub player: Pose,
    pub bullets: &'a Vec<Bullet>,
    pub bases: &'a Vec<Base>,
    pub input: Input,
}

/// The mathematical value of a `Snapshot`.
pub ghost struct SnapshotView {
    pub player: Pose,
    pub bullets: Seq<BulletView>,
    pub bases: Seq<BaseView>,
    pub input: Input,
}

/// The values of a sequence of bases.
pub open spec fn base_views(bases: Seq<Base>) -> Seq<BaseView> {
    Seq::new(bases.len(), |i: int| bases[i]@)
}

impl<'a> View for Snapshot<'a> {
    type V = SnapshotView;

    open spec fn view(&self) -> SnapshotView {
        SnapshotView {
            player: self.player,
            bullets: bullet_views(self.bullets@),
            bases: base_views(self.bases@),
            input: self.input,
        }
    }
}

} // verus!
