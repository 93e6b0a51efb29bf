//! Properties of the systems that hold for every world.
use vstd::prelude::*;
use crate::geometry::{Geometry, Point, CAMERA_Z_VALUE};
use crate::input::InputSnapshot;
use crate::movement::{fires, hits, spent};
use crate::world::{healed, GameState, Tile, TileKind, WorldView};

verus! {

/// Tiles of which none fires are hit zero times.
pub proof fn lemma_quiet_tiles(tiles: Seq<Tile>, kind: TileKind, at: Point)
    requires
        forall|i: int| 0 <= i < tiles.len() ==> !fires(#[trigger] tiles[i], kind, at),
    ensures
        hits(tiles, kind, at) == 0,
    decreases tiles.len(),
{
    if tiles.len() > 0 {
        lemma_quiet_tiles(tiles.drop_last(), kind, at);
    }
}

/// A tick leaves every tile in its place, and turns plain exactly the live
/// trigger tiles under the player.
pub proof fn lemma_tiles_after_arrival(w: WorldView, at: Point, i: int)
    requires
        0 <= i < w.tiles.len(),
    ensures
        w.after_arrival(at).tiles.len() == w.tiles.len(),
        w.after_arrival(at).tiles[i].position == w.tiles[i].position,
        w.after_arrival(at).tiles[i].kind == if fires(w.tiles[i], w.tiles[i].kind, at) {
            TileKind::Plain
        } else {
            w.tiles[i].kind
        },
{
}

/// Triggers are one-shot. A trigger tile that fired is plain from then on,
/// so it fires for no later position of the player; a plain tile stays plain;
/// and a second arrival at the same place starts no encounter, heals nobody
/// and requests nothing.
pub proof fn lemma_one_shot(w: WorldView, at: Point, later: Point, kind: TileKind, i: int)
    requires
        0 <= i < w.tiles.len(),
    ensures
        fires(w.tiles[i], w.tiles[i].kind, at) ==> !fires(w.after_arrival(at).tiles[i], kind, later),
        w.tiles[i].kind == TileKind::Plain ==> w.after_arrival(at).tiles[i].kind
            == TileKind::Plain,
        hits(w.after_arrival(at).tiles, kind, at) == 0,
        w.after_arrival(at).after_arrival(at) == w.after_arrival(at),
{
    let w1 = w.after_arrival(at);
    assert forall|j: int| 0 <= j < w1.tiles.len() implies !fires(
        #[trigger] w1.tiles[j],
        TileKind::Monster,
        at,
    ) by {}
    assert forall|j: int| 0 <= j < w1.tiles.len() implies !fires(
        #[trigger] w1.tiles[j],
        TileKind::Healing,
        at,
    ) by {}
    lemma_quiet_tiles(w1.tiles, TileKind::Monster, at);
    lemma_quiet_tiles(w1.tiles, TileKind::Healing, at);
    assert forall|j: int| 0 <= j < w1.tiles.len() implies !fires(
        #[trigger] w1.tiles[j],
        TileKind::Plain,
        at,
    ) by {}
    lemma_quiet_tiles(w1.tiles, TileKind::Plain, at);
    let w2 = w1.after_encounters(at);
    assert(w2.tiles =~= w1.tiles);
    assert(w2.creatures =~= w1.creatures);
    assert(w2.enemy_stats =~= w1.enemy_stats);
    assert(w2 == w1);
    assert(w2.after_healing(at).tiles =~= w1.tiles);
}

/// A tick starts one encounter for each monster tile under the player: that
/// many enemies are appended, all with the statistics of the current
/// progress, and a battle is requested if there is at least one.
pub proof fn lemma_encounters_after_arrival(w: WorldView, at: Point)
    ensures
        w.after_arrival(at).creatures.len() == w.creatures.len() + hits(
            w.tiles,
            TileKind::Monster,
            at,
        ),
        forall|j: int|
            w.creatures.len() <= j < w.after_arrival(at).creatures.len() ==> #[trigger] w.after_arrival(
                at,
            ).creatures[j] == w.spawned(),
        forall|k: u64|
            w.is_fresh(k, hits(w.tiles, TileKind::Monster, at)) ==> w.after_arrival(
                at,
            ).enemy_stats.contains_key(k) && #[trigger] w.after_arrival(at).enemy_stats[k]
                == w.spawned().stats,
        w.after_arrival(at).requested_state == if hits(w.tiles, TileKind::Monster, at) > 0 {
            Some(GameState::Battle)
        } else {
            w.requested_state
        },
        w.after_arrival(at).current_level == w.current_level,
        w.after_arrival(at).level_boss_awaken == w.level_boss_awaken,
{
}

/// After a tick in which a healing tile fired, every creature that is no
/// enemy is at full health, and every enemy is as it was.
pub proof fn lemma_healing_after_arrival(w: WorldView, at: Point, j: int)
    requires
        hits(w.tiles, TileKind::Healing, at) > 0,
        0 <= j < w.after_arrival(at).creatures.len(),
    ensures
        !w.after_arrival(at).creatures[j].enemy ==> w.after_arrival(at).creatures[j].stats.hp.health
            == w.after_arrival(at).creatures[j].stats.hp.max_health,
        j < w.creatures.len() ==> w.after_arrival(at).creatures[j] == healed(w.creatures[j]),
        j < w.creatures.len() && w.creatures[j].enemy ==> w.after_arrival(at).creatures[j]
            == w.creatures[j],
{
    let fought = w.after_encounters(at);
    assert(hits(fought.tiles, TileKind::Healing, at) == hits(w.tiles, TileKind::Healing, at)) by {
        lemma_hits_of_other_kind(w.tiles, at);
    }
}

/// Spending the monster tiles does not change which healing tiles fire.
pub proof fn lemma_hits_of_other_kind(tiles: Seq<Tile>, at: Point)
    ensures
        hits(tiles.map_values(|t: Tile| spent(t, TileKind::Monster, at)), TileKind::Healing, at)
            == hits(tiles, TileKind::Healing, at),
    decreases tiles.len(),
{
    let after = tiles.map_values(|t: Tile| spent(t, TileKind::Monster, at));
    if tiles.len() > 0 {
        lemma_hits_of_other_kind(tiles.drop_last(), at);
        assert(after.drop_last() =~= tiles.drop_last().map_values(
            |t: Tile| spent(t, TileKind::Monster, at),
        ));
    }
}

/// Without a healing tile under the player, a tick changes no creature that
/// was there before.
pub proof fn lemma_no_healing_without_hit(w: WorldView, at: Point, j: int)
    requires
        hits(w.tiles, TileKind::Healing, at) == 0,
        0 <= j < w.creatures.len(),
    ensures
        w.after_arrival(at).creatures[j] == w.creatures[j],
{
    lemma_hits_of_other_kind(w.tiles, at);
}

/// A tick keeps the registry of enemies consistent: the progress holds
/// statistics for exactly the creatures that are enemies.
pub proof fn lemma_move_keeps_registry(w: WorldView, input: InputSnapshot, elapsed_ms: u32)
    requires
        w.registry_consistent(),
    ensures
        w.after_move(input, elapsed_ms).registry_consistent(),
{
    match w.player {
        None => {},
        Some(p) => {
            let after = w.after_move(input, elapsed_ms);
            assert forall|k: u64| #[trigger]
                after.enemy_stats.contains_key(k) <==> (k < after.creatures.len()
                    && after.creatures[k as int].enemy) by {
                if w.enemy_stats.contains_key(k) {
                    assert(k < w.creatures.len() && w.creatures[k as int].enemy);
                }
            }
        },
    }
}

/// Neither system does anything in a world without a player, and the camera
/// tracker does nothing in a world without a camera; both may always run
/// there.
pub proof fn lemma_missing_entities(
    w: WorldView,
    geometry: Geometry,
    input: InputSnapshot,
    elapsed_ms: u32,
)
    ensures
        w.player.is_none() ==> w.can_move(input, elapsed_ms) && w.after_move(input, elapsed_ms)
            == w,
        w.player.is_none() || w.camera.is_none() ==> w.can_track(geometry) && w.after_camera(
            geometry,
        ) == w,
{
}

/// The camera tracker changes nothing but the camera, and the movement
/// system never changes the camera.
pub proof fn lemma_systems_independent(
    w: WorldView,
    geometry: Geometry,
    input: InputSnapshot,
    elapsed_ms: u32,
)
    ensures
        w.after_camera(geometry) == (WorldView { camera: w.after_camera(geometry).camera, ..w }),
        w.after_move(input, elapsed_ms).camera == w.camera,
{
}

/// In a world with a camera, a player left of the origin puts the camera's
/// x at zero, wherever the camera was.
pub proof fn lemma_world_clamp_left(w: WorldView, geometry: Geometry)
    requires
        w.camera.is_some(),
        w.player.is_some(),
        w.player.unwrap().position.x < 0,
    ensures
        w.after_camera(geometry).camera.unwrap().position.x == 0,
        w.after_camera(geometry).camera.unwrap().depth == CAMERA_Z_VALUE,
{
}

/// In a world with a camera, a player at or right of the origin and more than
/// half a screen right of the camera moves the camera right by exactly one
/// screen width.
pub proof fn lemma_world_scroll_step(w: WorldView, geometry: Geometry)
    requires
        w.camera.is_some(),
        w.player.is_some(),
        w.can_track(geometry),
        w.player.unwrap().position.x >= 0,
        2 * w.player.unwrap().position.x > 2 * w.camera.unwrap().position.x
            + geometry.screen_width,
    ensures
        w.after_camera(geometry).camera.unwrap().position.x == w.camera.unwrap().position.x
            + geometry.screen_width,
{
}

/// Encounters and healing keep the registry of enemies consistent, and so
/// does the camera tracker.
pub proof fn lemma_steps_keep_registry(w: WorldView, n: nat, geometry: Geometry)
    requires
        w.registry_consistent(),
    ensures
        w.with_encounters(n).registry_consistent(),
        w.with_healing().registry_consistent(),
        w.after_camera(geometry).registry_consistent(),
{
    let fought = w.with_encounters(n);
    assert forall|k: u64| #[trigger]
        fought.enemy_stats.contains_key(k) <==> (k < fought.creatures.len()
            && fought.creatures[k as int].enemy) by {
        if w.enemy_stats.contains_key(k) {
            assert(k < w.creatures.len() && w.creatures[k as int].enemy);
        }
    }
    let rested = w.with_healing();
    assert forall|k: u64| #[trigger]
        rested.enemy_stats.contains_key(k) <==> (k < rested.creatures.len()
            && rested.creatures[k as int].enemy) by {
        if w.enemy_stats.contains_key(k) {
            assert(k < w.creatures.len() && w.creatures[k as int].enemy);
        }
    }
}

/// A plain tile stays plain whatever places the player visits afterwards, so
/// a trigger that has fired is spent for good.
pub proof fn lemma_spent_for_good(w: WorldView, places: Seq<Point>, i: int)
    requires
        0 <= i < w.tiles.len(),
        w.tiles[i].kind == TileKind::Plain,
    ensures
        w.after_arrivals(places).tiles.len() == w.tiles.len(),
        w.after_arrivals(places).tiles[i].kind == TileKind::Plain,
    decreases places.len(),
{
    if places.len() > 0 {
        lemma_spent_for_good(w, places.drop_last(), i);
        lemma_tiles_after_arrival(w.after_arrivals(places.drop_last()), places.last(), i);
    }
}

} // verus!
