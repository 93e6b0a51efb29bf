//! Creature statistics and their generation for an encounter.
use vstd::prelude::*;
use crate::geometry::MAX_LEVEL;

verus! {

#[derive(Clone, Copy, Debug, PartialEq, Eq, Structural)]
pub struct Level {
    pub level: u32,
    pub max_level: u32,
}

/// Health of a creature. The current value is signed so that damage may
/// drive it below zero for a moment.
#[derive(Clone, Copy, Debug, PartialEq, Eq, Structural)]
pub struct Health {
    pub health: i64,
    pub max_health: u32,
}

#[derive(Clone, Copy, Debug, PartialEq, Eq, Structural)]
pub struct Strength {
    pub atk: u32,
    pub crt: u32,
    pub crt_dmg: u32,
}

#[derive(Clone, Copy, Debug, PartialEq, Eq, Structural)]
pub struct Defense {
    pub def: u32,
    pub crt_res: u32,
}

#[derive(Clone, Copy, Debug, PartialEq, Eq, Structural)]
pub struct MonsterStats {
    pub lvl: Level,
    pub hp: Health,
    pub stg: Strength,
    pub def: Defense,
}

/// Statistics of an ordinary enemy met at difficulty `current_level`.
pub open spec fn normal_stats(current_level: u16) -> MonsterStats {
    MonsterStats {
        lvl: Level { level: (current_level + 1) as u32, max_level: MAX_LEVEL },
        hp: Health {
            health: ((current_level + 1) * 10) as i64,
            max_health: ((current_level + 1) * 10) as u32,
        },
        stg: Strength {
            atk: ((current_level + 1) * 2) as u32,
            crt: (25 + current_level * 5) as u32,
            crt_dmg: 2,
        },
        def: Defense { def: (1 + current_level) as u32, crt_res: 10 },
    }
}

/// Statistics of the level boss at difficulty `current_level`. Its current
/// health starts five hundred above its maximum.
pub open spec fn boss_stats(current_level: u16) -> MonsterStats {
    MonsterStats {
        lvl: Level { level: current_level as u32, max_level: MAX_LEVEL },
        hp: Health {
            health: ((current_level + 5) * 100) as i64,
            max_health: (current_level * 100) as u32,
        },
        stg: Strength {
            atk: (current_level * 10) as u32,
            crt: (25 + current_level * 5) as u32,
            crt_dmg: 2,
        },
        def: Defense { def: (5 + current_level * 2) as u32, crt_res: 10 },
    }
}

/// Statistics of the enemy that an encounter spawns.
pub open spec fn encounter_stats(current_level: u16, boss: bool) -> MonsterStats {
    if boss {
        boss_stats(current_level)
    } else {
        normal_stats(current_level)
    }
}

/// Generates the statistics of the enemy for one encounter.
pub fn generate_stats(current_level: u16, boss: bool) -> (stats: MonsterStats)
    ensures
        stats == encounter_stats(current_level, boss),
{
    let level: u32 = current_level as u32;
    if boss {
        MonsterStats {
            lvl: Level { level, max_level: MAX_LEVEL },
            hp: Health { health: ((level + 5) * 100) as i64, max_health: level * 100 },
            stg: Strength { atk: level * 10, crt: 25 + level * 5, crt_dmg: 2 },
            def: Defense { def: 5 + level * 2, crt_res: 10 },
        }
    } else {
        MonsterStats {
            lvl: Level { level: level + 1, max_level: MAX_LEVEL },
            hp: Health { health: ((level + 1) * 10) as i64, max_health: (level + 1) * 10 },
            stg: Strength { atk: (level + 1) * 2, crt: 25 + level * 5, crt_dmg: 2 },
            def: Defense { def: 1 + level, crt_res: 10 },
        }
    }
}

impl Health {
    /// The health after a full restoration.
    pub open spec fn restored(self) -> Health {
        Health { health: self.max_health as i64, max_health: self.max_health }
    }

    /// Restores the current value to the maximum.
    pub fn restore(&mut self)
        ensures
            *final(self) == old(self).restored(),
    {
        self.health = self.max_health as i64;
    }
}

/// An ordinary enemy starts at full health; the boss starts above it.
pub proof fn lemma_generated_health(current_level: u16)
    ensures
        normal_stats(current_level).hp.health == normal_stats(current_level).hp.max_health,
        boss_stats(current_level).hp.health == boss_stats(current_level).hp.max_health + 500,
{
}

} // verus!
