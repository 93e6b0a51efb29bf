//! The world that the systems act on, and its mathematical model.
use std::collections::HashMap;
use vstd::prelude::*;
use crate::geometry::Point;
use crate::stats::{encounter_stats, Health, MonsterStats};

verus! {

/// What a tile does when the player walks into it.
#[derive(Clone, Copy, Debug, PartialEq, Eq, Structural)]
pub enum TileKind {
    Monster,
    Healing,
    Plain,
}

/// A world-placed tile. A trigger tile turns plain once it has fired.
#[derive(Clone, Copy, Debug, PartialEq, Eq, Structural)]
pub struct Tile {
    pub kind: TileKind,
    pub position: Point,
}

/// Anything that carries statistics: a member of the player's party or an
/// enemy. The boss is an enemy that carries the boss tag as well.
#[derive(Clone, Copy, Debug, PartialEq, Eq, Structural)]
pub struct Creature {
    pub stats: MonsterStats,
    pub enemy: bool,
    pub boss: bool,
}

#[derive(Clone, Copy, Debug, PartialEq, Eq, Structural)]
pub struct Player {
    pub position: Point,
    pub current_chunk: Point,
}

#[derive(Clone, Copy, Debug, PartialEq, Eq, Structural)]
pub struct Camera {
    pub position: Point,
    pub depth: i64,
}

/// Global state of the game, owned by the embedding game.
#[derive(Clone, Copy, Debug, PartialEq, Eq, Structural)]
pub enum GameState {
    Playing,
    Battle,
    Menu,
}

/// Session-wide progress. `enemy_stats` maps the identity of each spawned
/// enemy, its index among the world's creatures, to its generated statistics.
#[derive(Debug)]
pub struct GameProgress {
    pub current_level: u16,
    pub level_boss_awaken: bool,
    pub enemy_stats: HashMap<u64, MonsterStats>,
}

/// Everything the movement system and the camera tracker read and change.
#[derive(Debug)]
pub struct World {
    pub player: Option<Player>,
    pub camera: Option<Camera>,
    pub tiles: Vec<Tile>,
    pub creatures: Vec<Creature>,
    pub progress: GameProgress,
    pub requested_state: Option<GameState>,
}

/// Mathematical model of a [`World`].
pub struct WorldView {
    pub player: Option<Player>,
    pub camera: Option<Camera>,
    pub tiles: Seq<Tile>,
    pub creatures: Seq<Creature>,
    pub current_level: u16,
    pub level_boss_awaken: bool,
    pub enemy_stats: Map<u64, MonsterStats>,
    pub requested_state: Option<GameState>,
}

impl View for World {
    type V = WorldView;

    open spec fn view(&self) -> WorldView {
        WorldView {
            player: self.player,
            camera: self.camera,
            tiles: self.tiles@,
            creatures: self.creatures@,
            current_level: self.progress.current_level,
            level_boss_awaken: self.progress.level_boss_awaken,
            enemy_stats: self.progress.enemy_stats@,
            requested_state: self.requested_state,
        }
    }
}

/// The creature after the party has been healed: an enemy is left as it is,
/// anyone else is restored to full health.
pub open spec fn healed(c: Creature) -> Creature {
    if c.enemy {
        c
    } else {
        Creature { stats: MonsterStats { hp: c.stats.hp.restored(), ..c.stats }, ..c }
    }
}

impl WorldView {
    /// The enemy that an encounter spawns at the current progress.
    pub open spec fn spawned(self) -> Creature {
        Creature {
            stats: encounter_stats(self.current_level, self.level_boss_awaken),
            enemy: true,
            boss: self.level_boss_awaken,
        }
    }

    /// Whether `k` identifies one of the next `n` creatures to be spawned.
    pub open spec fn is_fresh(self, k: u64, n: nat) -> bool {
        self.creatures.len() <= k < self.creatures.len() + n
    }

    /// The world after `n` encounters: `n` enemies join the creatures, each is
    /// entered in the progress under its index, and a battle is requested if
    /// there was any.
    pub open spec fn with_encounters(self, n: nat) -> WorldView {
        WorldView {
            creatures: self.creatures + Seq::new(n, |j: int| self.spawned()),
            enemy_stats: Map::new(
                |k: u64| self.enemy_stats.contains_key(k) || self.is_fresh(k, n),
                |k: u64|
                    if self.is_fresh(k, n) {
                        self.spawned().stats
                    } else {
                        self.enemy_stats[k]
                    },
            ),
            requested_state: if n > 0 {
                Some(GameState::Battle)
            } else {
                self.requested_state
            },
            ..self
        }
    }

    /// The world after every creature that is no enemy was healed.
    pub open spec fn with_healing(self) -> WorldView {
        WorldView { creatures: self.creatures.map_values(|c: Creature| healed(c)), ..self }
    }

    /// The enemies are exactly the creatures that the progress has statistics
    /// for.
    pub open spec fn registry_consistent(self) -> bool {
        forall|k: u64|
            #[trigger] self.enemy_stats.contains_key(k) <==> (k < self.creatures.len()
                && self.creatures[k as int].enemy)
    }
}

impl GameProgress {
    /// Progress at the start of a session.
    pub fn new() -> (p: GameProgress)
        ensures
            p.current_level == 0,
            !p.level_boss_awaken,
            p.enemy_stats@ == Map::<u64, MonsterStats>::empty(),
    {
        GameProgress { current_level: 0, level_boss_awaken: false, enemy_stats: HashMap::new() }
    }
}

impl World {
    /// A world with no entities and fresh progress.
    pub fn new() -> (w: World)
        ensures
            w@ == (WorldView {
                player: None,
                camera: None,
                tiles: Seq::empty(),
                creatures: Seq::empty(),
                current_level: 0,
                level_boss_awaken: false,
                enemy_stats: Map::empty(),
                requested_state: None,
            }),
            w@.registry_consistent(),
    {
        World {
            player: None,
            camera: None,
            tiles: Vec::new(),
            creatures: Vec::new(),
            progress: GameProgress::new(),
            requested_state: None,
        }
    }

    /// Spawns the enemy of one encounter, records its statistics under its
    /// identity and requests the battle. Returns the identity.
    pub fn spawn_encounter(&mut self) -> (id: u64)
        ensures
            final(self)@ == old(self)@.with_encounters(1),
            id == old(self).creatures.len(),
    {
        broadcast use vstd::std_specs::hash::group_hash_axioms;

        let boss = self.progress.level_boss_awaken;
        let stats = crate::stats::generate_stats(self.progress.current_level, boss);
        let id: u64 = self.creatures.len() as u64;
        self.creatures.push(Creature { stats, enemy: true, boss });
        self.progress.enemy_stats.insert(id, stats);
        self.requested_state = Some(GameState::Battle);
        proof {
            let pre = old(self)@;
            assert(self@.creatures =~= pre.with_encounters(1).creatures);
            assert(self@.enemy_stats =~= pre.with_encounters(1).enemy_stats);
        }
        id
    }

    /// Restores every creature that is no enemy to full health.
    pub fn heal_party(&mut self)
        ensures
            final(self)@ == old(self)@.with_healing(),
    {
        let n = self.creatures.len();
        let ghost pre = self@;
        let mut i: usize = 0;
        while i < n
            invariant
                i <= n,
                n == pre.creatures.len(),
                self@ == (WorldView { creatures: self@.creatures, ..pre }),
                self@.creatures =~= Seq::new(
                    n as nat,
                    |j: int|
                        if j < i {
                            healed(pre.creatures[j])
                        } else {
                            pre.creatures[j]
                        },
                ),
            decreases n - i,
        {
            let c = self.creatures[i];
            if !c.enemy {
                let hp = Health { health: c.stats.hp.max_health as i64, max_health: c.stats.hp.max_health };
                self.creatures.set(i, Creature { stats: MonsterStats { hp, ..c.stats }, ..c });
            }
            i += 1;
        }
        proof {
            assert(self@.creatures =~= pre.with_healing().creatures);
        }
    }
}

} // verus!
