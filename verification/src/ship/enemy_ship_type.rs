//! The kinds of enemy ship.

use vstd::prelude::*;

verus! {

/// A kind of enemy ship.  Each kind has its own build and its own habits.
#[derive(Debug, Clone, Copy, PartialEq, Eq, Hash, Structural)]
pub enum EnemyShipType {
    UltraLowFriction,
    LowFriction,
    HighFriction,
    Slow,
    Shoot,
    Turret,
    Sniper,
    Glider,
    Clone,
}

/// How many kinds there are.
pub const ENEMY_SHIP_TYPES: usize = 9;

impl EnemyShipType {
    /// The kind at a place in the order of the kinds; the last kind at
    /// every place past the last.
    pub open spec fn at_spec(index: int) -> EnemyShipType {
        if index == 0 {
            EnemyShipType::UltraLowFriction
        } else if index == 1 {
            EnemyShipType::LowFriction
        } else if index == 2 {
            EnemyShipType::HighFriction
        } else if index == 3 {
            EnemyShipType::Slow
        } else if index == 4 {
            EnemyShipType::Shoot
        } else if index == 5 {
            EnemyShipType::Turret
        } else if index == 6 {
            EnemyShipType::Sniper
        } else if index == 7 {
            EnemyShipType::Glider
        } else {
            EnemyShipType::Clone
        }
    }

    /// The kind at a place in the order of the kinds; the last kind at
    /// every place past the last.
    pub fn at(index: usize) -> (r: EnemyShipType)
        ensures
            r == EnemyShipType::at_spec(index as int),
    {
        if index == 0 {
            EnemyShipType::UltraLowFriction
        } else if index == 1 {
            EnemyShipType::LowFriction
        } else if index == 2 {
            EnemyShipType::HighFriction
        } else if index == 3 {
            EnemyShipType::Slow
        } else if index == 4 {
            EnemyShipType::Shoot
        } else if index == 5 {
            EnemyShipType::Turret
        } else if index == 6 {
            EnemyShipType::Sniper
        } else if index == 7 {
            EnemyShipType::Glider
        } else {
            EnemyShipType::Clone
        }
    }
}

/// How many ships of each kind to spawn.
#[derive(Debug, Clone, Copy, PartialEq, Eq, Structural)]
pub struct EnemyCounts {
    pub ultra_low_friction: u32,
    pub low_friction: u32,
    pub high_friction: u32,
    pub slow: u32,
    pub shoot: u32,
    pub turret: u32,
    pub sniper: u32,
    pub glider: u32,
    pub clone: u32,
}

impl EnemyCounts {
    /// No ship of any kind.
    pub open spec fn empty_spec() -> EnemyCounts {
        EnemyCounts {
            ultra_low_friction: 0,
            low_friction: 0,
            high_friction: 0,
            slow: 0,
            shoot: 0,
            turret: 0,
            sniper: 0,
            glider: 0,
            clone: 0,
        }
    }

    /// The number of ships of one kind.
    pub open spec fn count_spec(self, kind: EnemyShipType) -> u32 {
        match kind {
            EnemyShipType::UltraLowFriction => self.ultra_low_friction,
            EnemyShipType::LowFriction => self.low_friction,
            EnemyShipType::HighFriction => self.high_friction,
            EnemyShipType::Slow => self.slow,
            EnemyShipType::Shoot => self.shoot,
            EnemyShipType::Turret => self.turret,
            EnemyShipType::Sniper => self.sniper,
            EnemyShipType::Glider => self.glider,
            EnemyShipType::Clone => self.clone,
        }
    }

    /// The counts with the number for one kind replaced.
    pub open spec fn with_spec(self, kind: EnemyShipType, count: u32) -> EnemyCounts {
        match kind {
            EnemyShipType::UltraLowFriction => EnemyCounts { ultra_low_friction: count, ..self },
            EnemyShipType::LowFriction => EnemyCounts { low_friction: count, ..self },
            EnemyShipType::HighFriction => EnemyCounts { high_friction: count, ..self },
            EnemyShipType::Slow => EnemyCounts { slow: count, ..self },
            EnemyShipType::Shoot => EnemyCounts { shoot: count, ..self },
            EnemyShipType::Turret => EnemyCounts { turret: count, ..self },
            EnemyShipType::Sniper => EnemyCounts { sniper: count, ..self },
            EnemyShipType::Glider => EnemyCounts { glider: count, ..self },
            EnemyShipType::Clone => EnemyCounts { clone: count, ..self },
        }
    }

    /// The number of ships of the first `kinds` kinds together.
    pub open spec fn total_spec(self, kinds: nat) -> nat
        decreases kinds,
    {
        if kinds == 0 {
            0
        } else {
            self.total_spec((kinds - 1) as nat) + self.count_spec(
                EnemyShipType::at_spec(kinds - 1),
            ) as nat
        }
    }

    /// No ship of any kind.
    pub fn new() -> (r: EnemyCounts)
        ensures
            r == EnemyCounts::empty_spec(),
    {
        EnemyCounts {
            ultra_low_friction: 0,
            low_friction: 0,
            high_friction: 0,
            slow: 0,
            shoot: 0,
            turret: 0,
            sniper: 0,
            glider: 0,
            clone: 0,
        }
    }

    /// The number of ships of one kind.
    pub fn count(&self, kind: EnemyShipType) -> (r: u32)
        ensures
            r == self.count_spec(kind),
    {
        match kind {
            EnemyShipType::UltraLowFriction => self.ultra_low_friction,
            EnemyShipType::LowFriction => self.low_friction,
            EnemyShipType::HighFriction => self.high_friction,
            EnemyShipType::Slow => self.slow,
            EnemyShipType::Shoot => self.shoot,
            EnemyShipType::Turret => self.turret,
            EnemyShipType::Sniper => self.sniper,
            EnemyShipType::Glider => self.glider,
            EnemyShipType::Clone => self.clone,
        }
    }

    /// The counts with the number for one kind replaced.
    pub fn with(self, kind: EnemyShipType, count: u32) -> (r: EnemyCounts)
        ensures
            r == self.with_spec(kind, count),
    {
        let mut r = self;
        match kind {
            EnemyShipType::UltraLowFriction => r.ultra_low_friction = count,
            EnemyShipType::LowFriction => r.low_friction = count,
            EnemyShipType::HighFriction => r.high_friction = count,
            EnemyShipType::Slow => r.slow = count,
            EnemyShipType::Shoot => r.shoot = count,
            EnemyShipType::Turret => r.turret = count,
            EnemyShipType::Sniper => r.sniper = count,
            EnemyShipType::Glider => r.glider = count,
            EnemyShipType::Clone => r.clone = count,
        }
        r
    }
}

} // verus!
