//! Whether an object can still be destroyed.

use vstd::prelude::*;

verus! {

/// The health of a physical object.  An object that is `Dead` never comes
/// back; one that is `Invulnerable` is never killed.
#[derive(Debug, Clone, Copy, PartialEq, Eq, Structural)]
pub enum HealthStatus {
    Alive,
    Dead,
    Invulnerable,
}

impl HealthStatus {
    /// The status after a lethal hit.
    pub open spec fn killed(self) -> HealthStatus {
        if self == HealthStatus::Alive {
            HealthStatus::Dead
        } else {
            self
        }
    }

    /// A live object dies; a dead or invulnerable one stays as it is.
    pub fn kill_if_alive(status: Self) -> (result: Self)
        ensures
            result == status.killed(),
    {
        if status == HealthStatus::Alive {
            HealthStatus::Dead
        } else {
            status
        }
    }
}

} // verus!
