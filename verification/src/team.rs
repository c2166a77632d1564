//! The two sides of the fight.

use vstd::prelude::*;

verus! {

/// The side a ship or a bullet is on.  A bullet harms only the other side.
#[derive(Debug, Clone, Copy, PartialEq, Eq, Structural)]
pub enum Team {
    Player,
    Hostile,
}

} // verus!
