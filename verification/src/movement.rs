//! The movement system: one tick of player movement, trigger collisions and
//! what they set off.
use vstd::prelude::*;
use crate::collision::{collide, trigger_boxes_overlap};
use crate::geometry::{is_coord, Extent, Point};
use crate::input::{displacement, displacement_of, velocity, velocity_of, InputSnapshot};
use crate::world::{Player, Tile, TileKind, World, WorldView};

verus! {

/// A live trigger tile of the given kind is hit by the player's box at `at`.
pub open spec fn fires(tile: Tile, kind: TileKind, at: Point) -> bool {
    tile.kind == kind && kind != TileKind::Plain && trigger_boxes_overlap(at, tile.position)
}

/// The tile after the player stood at `at`: plain if it fired as `kind`.
pub open spec fn spent(tile: Tile, kind: TileKind, at: Point) -> Tile {
    if fires(tile, kind, at) {
        Tile { kind: TileKind::Plain, position: tile.position }
    } else {
        tile
    }
}

/// Number of tiles that fire as `kind` with the player at `at`.
pub open spec fn hits(tiles: Seq<Tile>, kind: TileKind, at: Point) -> nat
    decreases tiles.len(),
{
    if tiles.len() == 0 {
        0
    } else {
        hits(tiles.drop_last(), kind, at) + if fires(tiles.last(), kind, at) {
            1nat
        } else {
            0nat
        }
    }
}

/// Where the player ends up after a tick of `elapsed_ms` milliseconds.
pub open spec fn destination(from: Point, input: InputSnapshot, elapsed_ms: u32) -> (int, int) {
    let v = velocity_of(input, displacement_of(elapsed_ms as int));
    (from.x + v.0, from.y + v.1)
}

impl WorldView {
    /// The tiles with every tile that fires as `kind` turned plain.
    pub open spec fn spent_tiles(self, kind: TileKind, at: Point) -> Seq<Tile> {
        self.tiles.map_values(|t: Tile| spent(t, kind, at))
    }

    /// Monster tiles under the player fire: one encounter each, and each
    /// such tile is spent.
    pub open spec fn after_encounters(self, at: Point) -> WorldView {
        WorldView {
            tiles: self.spent_tiles(TileKind::Monster, at),
            ..self.with_encounters(hits(self.tiles, TileKind::Monster, at))
        }
    }

    /// Healing tiles under the player fire: the party is healed if there is
    /// any, and each such tile is spent.
    pub open spec fn after_healing(self, at: Point) -> WorldView {
        let rested = if hits(self.tiles, TileKind::Healing, at) > 0 {
            self.with_healing()
        } else {
            self
        };
        WorldView { tiles: self.spent_tiles(TileKind::Healing, at), ..rested }
    }

    /// The world after its triggers have reacted to the player at `at`.
    pub open spec fn after_arrival(self, at: Point) -> WorldView {
        self.after_encounters(at).after_healing(at)
    }

    /// The world after the player has stood at each of `places` in turn.
    pub open spec fn after_arrivals(self, places: Seq<Point>) -> WorldView
        decreases places.len(),
    {
        if places.len() == 0 {
            self
        } else {
            self.after_arrivals(places.drop_last()).after_arrival(places.last())
        }
    }

    /// The player's destination is representable, or there is no player.
    pub open spec fn can_move(self, input: InputSnapshot, elapsed_ms: u32) -> bool {
        match self.player {
            None => true,
            Some(p) => {
                let to = destination(p.position, input, elapsed_ms);
                is_coord(to.0) && is_coord(to.1)
            },
        }
    }

    /// The world after one tick of the movement system. Without a player
    /// the tick changes nothing.
    pub open spec fn after_move(self, input: InputSnapshot, elapsed_ms: u32) -> WorldView {
        match self.player {
            None => self,
            Some(p) => {
                let to = destination(p.position, input, elapsed_ms);
                let at = Point { x: to.0 as i64, y: to.1 as i64 };
                (WorldView { player: Some(Player { position: at, ..p }), ..self }).after_arrival(
                    at,
                )
            },
        }
    }
}

/// Counting one tile further adds one exactly if that tile fires.
pub proof fn lemma_hits_step(tiles: Seq<Tile>, kind: TileKind, at: Point, i: int)
    requires
        0 <= i < tiles.len(),
    ensures
        hits(tiles.take(i + 1), kind, at) == hits(tiles.take(i), kind, at) + if fires(
            tiles[i],
            kind,
            at,
        ) {
            1nat
        } else {
            0nat
        },
{
    assert(tiles.take(i + 1).drop_last() =~= tiles.take(i));
}

impl World {
    /// Lets every monster tile under the player at `at` start an encounter.
    pub fn resolve_monster_tiles(&mut self, at: Point)
        ensures
            final(self)@ == old(self)@.after_encounters(at),
    {
        let ghost pre = self@;
        let n = self.tiles.len();
        let mut i: usize = 0;
        proof {
            assert(pre.with_encounters(0).creatures =~= pre.creatures);
            assert(pre.with_encounters(0).enemy_stats =~= pre.enemy_stats);
        }
        while i < n
            invariant
                i <= n,
                n == pre.tiles.len(),
                self@ == (WorldView {
                    tiles: self@.tiles,
                    ..pre.with_encounters(hits(pre.tiles.take(i as int), TileKind::Monster, at))
                }),
                self@.tiles =~= Seq::new(
                    n as nat,
                    |j: int|
                        if j < i {
                            spent(pre.tiles[j], TileKind::Monster, at)
                        } else {
                            pre.tiles[j]
                        },
                ),
            decreases n - i,
        {
            let tile = self.tiles[i];
            let ghost before = self@;
            let ghost count = hits(pre.tiles.take(i as int), TileKind::Monster, at);
            proof {
                lemma_hits_step(pre.tiles, TileKind::Monster, at, i as int);
            }
            if tile.kind == TileKind::Monster && collide(
                at,
                Extent::trigger_box(),
                tile.position,
                Extent::trigger_box(),
            ) {
                self.spawn_encounter();
                self.tiles.set(i, Tile { kind: TileKind::Plain, position: tile.position });
                proof {
                    let twice = before.with_encounters(1);
                    let once = pre.with_encounters(count + 1);
                    assert(twice.creatures =~= once.creatures);
                    assert(twice.enemy_stats =~= once.enemy_stats);
                    assert(fires(pre.tiles[i as int], TileKind::Monster, at));
                }
            }
            i += 1;
        }
        proof {
            assert(pre.tiles.take(n as int) =~= pre.tiles);
            assert(self@.tiles =~= pre.spent_tiles(TileKind::Monster, at));
        }
    }

    /// Lets every healing tile under the player at `at` heal the party.
    pub fn resolve_healing_tiles(&mut self, at: Point)
        ensures
            final(self)@ == old(self)@.after_healing(at),
    {
        let ghost pre = self@;
        let n = self.tiles.len();
        let mut i: usize = 0;
        while i < n
            invariant
                i <= n,
                n == pre.tiles.len(),
                self@ == (WorldView {
                    tiles: self@.tiles,
                    ..if hits(pre.tiles.take(i as int), TileKind::Healing, at) > 0 {
                        pre.with_healing()
                    } else {
                        pre
                    }
                }),
                self@.tiles =~= Seq::new(
                    n as nat,
                    |j: int|
                        if j < i {
                            spent(pre.tiles[j], TileKind::Healing, at)
                        } else {
                            pre.tiles[j]
                        },
                ),
            decreases n - i,
        {
            let tile = self.tiles[i];
            proof {
                lemma_hits_step(pre.tiles, TileKind::Healing, at, i as int);
            }
            if tile.kind == TileKind::Healing && collide(
                at,
                Extent::trigger_box(),
                tile.position,
                Extent::trigger_box(),
            ) {
                self.heal_party();
                self.tiles.set(i, Tile { kind: TileKind::Plain, position: tile.position });
                proof {
                    lemma_healing_idempotent(pre);
                }
            }
            i += 1;
        }
        proof {
            assert(pre.tiles.take(n as int) =~= pre.tiles);
            assert(self@.tiles =~= pre.spent_tiles(TileKind::Healing, at));
        }
    }

    /// Exec form of [`WorldView::can_move`].
    pub fn check_move(&self, input: InputSnapshot, elapsed_ms: u32) -> (ok: bool)
        ensures
            ok == self@.can_move(input, elapsed_ms),
    {
        match self.player {
            None => true,
            Some(p) => {
                let v = velocity(input, displacement(elapsed_ms));
                let x: i128 = p.position.x as i128 + v.x as i128;
                let y: i128 = p.position.y as i128 + v.y as i128;
                i64::MIN as i128 <= x && x <= i64::MAX as i128 && i64::MIN as i128 <= y && y
                    <= i64::MAX as i128
            },
        }
    }

    /// One tick of the movement system: moves the player as the input says,
    /// then lets the monster tiles and the healing tiles under the player
    /// fire. Without a player nothing happens.
    pub fn move_player(&mut self, input: InputSnapshot, elapsed_ms: u32)
        requires
            old(self)@.can_move(input, elapsed_ms),
        ensures
            final(self)@ == old(self)@.after_move(input, elapsed_ms),
    {
        match self.player {
            None => {},
            Some(p) => {
                let v = velocity(input, displacement(elapsed_ms));
                let at = Point { x: p.position.x + v.x, y: p.position.y + v.y };
                self.player = Some(Player { position: at, current_chunk: p.current_chunk });
                self.resolve_monster_tiles(at);
                self.resolve_healing_tiles(at);
            },
        }
    }

    /// Moves the player if the destination is representable. Returns whether
    /// the tick was run; if not, the world is unchanged.
    pub fn try_move_player(&mut self, input: InputSnapshot, elapsed_ms: u32) -> (ran: bool)
        ensures
            ran == old(self)@.can_move(input, elapsed_ms),
            ran ==> final(self)@ == old(self)@.after_move(input, elapsed_ms),
            !ran ==> final(self)@ == old(self)@,
    {
        if self.check_move(input, elapsed_ms) {
            self.move_player(input, elapsed_ms);
            true
        } else {
            false
        }
    }
}

/// Healing a healed party changes nothing.
pub proof fn lemma_healing_idempotent(w: WorldView)
    ensures
        w.with_healing().with_healing() == w.with_healing(),
{
    assert(w.with_healing().with_healing().creatures =~= w.with_healing().creatures);
}

} // verus!
