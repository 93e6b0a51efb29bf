use overworld::geometry::Point;
use overworld::input::InputSnapshot;
use overworld::stats::{generate_stats, Defense, Health, Level, MonsterStats, Strength};
use overworld::world::{Camera, Creature, GameState, Player, Tile, TileKind, World};

const STILL: InputSnapshot = InputSnapshot { up: false, down: false, left: false, right: false };
const RIGHT: InputSnapshot = InputSnapshot { up: false, down: false, left: false, right: true };
const UP: InputSnapshot = InputSnapshot { up: true, down: false, left: false, right: false };

fn pt(x: i64, y: i64) -> Point {
    Point { x, y }
}

fn tile(kind: TileKind, x: i64, y: i64) -> Tile {
    Tile { kind, position: pt(x, y) }
}

fn member(health: i64, max_health: u32) -> Creature {
    Creature {
        stats: MonsterStats {
            lvl: Level { level: 1, max_level: 10 },
            hp: Health { health, max_health },
            stg: Strength { atk: 2, crt: 25, crt_dmg: 2 },
            def: Defense { def: 1, crt_res: 10 },
        },
        enemy: false,
        boss: false,
    }
}

fn world_at(x: i64, y: i64) -> World {
    let mut w = World::new();
    w.player = Some(Player { position: pt(x, y), current_chunk: pt(2, -1) });
    w
}

#[test]
fn new_world_is_empty() {
    let w = World::new();
    assert!(w.player.is_none());
    assert!(w.camera.is_none());
    assert!(w.tiles.is_empty());
    assert!(w.creatures.is_empty());
    assert_eq!(w.progress.current_level, 0);
    assert!(!w.progress.level_boss_awaken);
    assert!(w.progress.enemy_stats.is_empty());
    assert_eq!(w.requested_state, None);
}

#[test]
fn player_moves_by_speed_times_time() {
    let mut w = world_at(100, 100);
    w.move_player(RIGHT, 1000);
    assert_eq!(w.player, Some(Player { position: pt(580, 100), current_chunk: pt(2, -1) }));
    w.move_player(UP, 500);
    assert_eq!(w.player.unwrap().position, pt(580, 340));
    w.move_player(STILL, 500);
    assert_eq!(w.player.unwrap().position, pt(580, 340));
}

#[test]
fn player_is_not_clamped_to_the_world() {
    let mut w = world_at(0, 0);
    let left = InputSnapshot { up: false, down: false, left: true, right: false };
    w.move_player(left, 1000);
    assert_eq!(w.player.unwrap().position, pt(-480, 0));
}

#[test]
fn up_and_down_together_move_down() {
    let mut w = world_at(0, 0);
    let both = InputSnapshot { up: true, down: true, left: false, right: false };
    w.move_player(both, 1000);
    assert_eq!(w.player.unwrap().position, pt(0, -480));
}

#[test]
fn monster_tile_starts_an_encounter() {
    let mut w = world_at(0, 0);
    w.progress.current_level = 2;
    w.tiles.push(tile(TileKind::Monster, 500, 10));
    w.tiles.push(tile(TileKind::Monster, 900, 10));
    w.move_player(RIGHT, 1000);
    assert_eq!(w.creatures.len(), 1);
    let expected = generate_stats(2, false);
    assert_eq!(w.creatures[0], Creature { stats: expected, enemy: true, boss: false });
    assert_eq!(w.creatures[0].stats.hp.max_health, 30);
    assert_eq!(w.progress.enemy_stats.len(), 1);
    assert_eq!(w.progress.enemy_stats.get(&0), Some(&expected));
    assert_eq!(w.tiles[0], tile(TileKind::Plain, 500, 10));
    assert_eq!(w.tiles[1], tile(TileKind::Monster, 900, 10));
    assert_eq!(w.requested_state, Some(GameState::Battle));
    assert_eq!(w.progress.current_level, 2);
}

#[test]
fn monster_tile_out_of_reach_does_nothing() {
    let mut w = world_at(0, 0);
    w.tiles.push(tile(TileKind::Monster, 512, 0));
    w.tiles.push(tile(TileKind::Monster, 480, 32));
    w.requested_state = Some(GameState::Menu);
    w.move_player(RIGHT, 1000);
    assert!(w.creatures.is_empty());
    assert!(w.progress.enemy_stats.is_empty());
    assert_eq!(w.tiles[0].kind, TileKind::Monster);
    assert_eq!(w.tiles[1].kind, TileKind::Monster);
    assert_eq!(w.requested_state, Some(GameState::Menu));
}

#[test]
fn monster_trigger_fires_only_once() {
    let mut w = world_at(0, 0);
    w.tiles.push(tile(TileKind::Monster, 5, 5));
    w.move_player(STILL, 16);
    assert_eq!(w.creatures.len(), 1);
    w.requested_state = None;
    for _ in 0..5 {
        w.move_player(STILL, 16);
    }
    w.move_player(RIGHT, 2);
    assert_eq!(w.creatures.len(), 1);
    assert_eq!(w.progress.enemy_stats.len(), 1);
    assert_eq!(w.requested_state, None);
    assert_eq!(w.tiles[0].kind, TileKind::Plain);
}

#[test]
fn each_monster_tile_under_the_player_spawns_an_enemy() {
    let mut w = world_at(0, 0);
    w.creatures.push(member(3, 10));
    w.tiles.push(tile(TileKind::Monster, 10, 0));
    w.tiles.push(tile(TileKind::Plain, 0, 0));
    w.tiles.push(tile(TileKind::Monster, -10, 20));
    w.move_player(STILL, 0);
    assert_eq!(w.creatures.len(), 3);
    assert_eq!(w.creatures[0], member(3, 10));
    assert!(w.creatures[1].enemy && w.creatures[2].enemy);
    assert_eq!(w.progress.enemy_stats.len(), 2);
    assert!(w.progress.enemy_stats.contains_key(&1));
    assert!(w.progress.enemy_stats.contains_key(&2));
    assert!(!w.progress.enemy_stats.contains_key(&0));
    assert_eq!(w.tiles[0].kind, TileKind::Plain);
    assert_eq!(w.tiles[1].kind, TileKind::Plain);
    assert_eq!(w.tiles[2].kind, TileKind::Plain);
}

#[test]
fn awakened_boss_is_spawned_with_boss_statistics() {
    let mut w = world_at(0, 0);
    w.progress.current_level = 3;
    w.progress.level_boss_awaken = true;
    w.tiles.push(tile(TileKind::Monster, 0, 0));
    w.move_player(STILL, 16);
    assert_eq!(w.creatures.len(), 1);
    let boss = w.creatures[0];
    assert!(boss.enemy);
    assert!(boss.boss);
    assert_eq!(boss.stats.hp.max_health, 300);
    assert_eq!(boss.stats.hp.health, 800);
    assert_eq!(boss.stats.stg.atk, 30);
    assert_eq!(boss.stats.def.def, 11);
    assert_eq!(w.progress.enemy_stats.get(&0), Some(&boss.stats));
    assert!(w.progress.level_boss_awaken);
}

#[test]
fn spawn_encounter_returns_the_new_identity() {
    let mut w = World::new();
    w.creatures.push(member(1, 1));
    w.progress.current_level = 1;
    let id = w.spawn_encounter();
    assert_eq!(id, 1);
    let again = w.spawn_encounter();
    assert_eq!(again, 2);
    assert_eq!(w.creatures.len(), 3);
    assert_eq!(w.progress.enemy_stats.get(&1), Some(&generate_stats(1, false)));
    assert_eq!(w.progress.enemy_stats.get(&2), Some(&generate_stats(1, false)));
    assert_eq!(w.requested_state, Some(GameState::Battle));
}

#[test]
fn healing_tile_restores_the_party_and_spares_enemies() {
    let mut w = world_at(0, 0);
    w.creatures.push(member(3, 10));
    w.creatures.push(Creature { enemy: true, ..member(4, 50) });
    w.creatures.push(member(-2, 25));
    w.creatures.push(member(40, 25));
    w.tiles.push(tile(TileKind::Healing, 20, -20));
    w.move_player(STILL, 16);
    assert_eq!(w.creatures[0].stats.hp, Health { health: 10, max_health: 10 });
    assert_eq!(w.creatures[1], Creature { enemy: true, ..member(4, 50) });
    assert_eq!(w.creatures[2].stats.hp, Health { health: 25, max_health: 25 });
    assert_eq!(w.creatures[3].stats.hp, Health { health: 25, max_health: 25 });
    assert_eq!(w.creatures[0].stats.stg, member(3, 10).stats.stg);
    assert_eq!(w.tiles[0].kind, TileKind::Plain);
    assert_eq!(w.requested_state, None);
    assert_eq!(w.creatures.len(), 4);
}

#[test]
fn healing_trigger_fires_only_once() {
    let mut w = world_at(0, 0);
    w.creatures.push(member(3, 10));
    w.tiles.push(tile(TileKind::Healing, 0, 0));
    w.move_player(STILL, 16);
    assert_eq!(w.creatures[0].stats.hp.health, 10);
    w.creatures[0].stats.hp.health = 1;
    w.move_player(STILL, 16);
    assert_eq!(w.creatures[0].stats.hp.health, 1);
}

#[test]
fn healing_tile_out_of_reach_heals_nobody() {
    let mut w = world_at(0, 0);
    w.creatures.push(member(3, 10));
    w.tiles.push(tile(TileKind::Healing, 32, 0));
    w.move_player(STILL, 16);
    assert_eq!(w.creatures[0].stats.hp.health, 3);
    assert_eq!(w.tiles[0].kind, TileKind::Healing);
}

#[test]
fn encounter_and_healing_in_one_tick() {
    let mut w = world_at(0, 0);
    w.progress.level_boss_awaken = true;
    w.progress.current_level = 3;
    w.creatures.push(member(3, 10));
    w.tiles.push(tile(TileKind::Healing, 1, 1));
    w.tiles.push(tile(TileKind::Monster, 2, 2));
    w.move_player(STILL, 16);
    assert_eq!(w.creatures.len(), 2);
    assert_eq!(w.creatures[0].stats.hp.health, 10);
    assert_eq!(w.creatures[1].stats.hp.health, 800);
    assert_eq!(w.tiles[0].kind, TileKind::Plain);
    assert_eq!(w.tiles[1].kind, TileKind::Plain);
    assert_eq!(w.requested_state, Some(GameState::Battle));
}

#[test]
fn heal_party_alone() {
    let mut w = World::new();
    w.creatures.push(member(0, 7));
    w.creatures.push(Creature { enemy: true, boss: true, ..member(800, 300) });
    w.heal_party();
    assert_eq!(w.creatures[0].stats.hp.health, 7);
    assert_eq!(w.creatures[1].stats.hp.health, 800);
}

#[test]
fn plain_tiles_never_fire() {
    let mut w = world_at(0, 0);
    w.creatures.push(member(3, 10));
    w.tiles.push(tile(TileKind::Plain, 0, 0));
    w.move_player(STILL, 16);
    assert_eq!(w.creatures.len(), 1);
    assert_eq!(w.creatures[0].stats.hp.health, 3);
    assert_eq!(w.requested_state, None);
}

#[test]
fn no_player_means_no_movement() {
    let mut w = World::new();
    w.camera = Some(Camera { position: pt(1, 2), depth: 100 });
    w.creatures.push(member(3, 10));
    w.tiles.push(tile(TileKind::Monster, 0, 0));
    w.tiles.push(tile(TileKind::Healing, 0, 0));
    assert!(w.check_move(RIGHT, 1000));
    w.move_player(RIGHT, 1000);
    assert!(w.player.is_none());
    assert_eq!(w.creatures.len(), 1);
    assert_eq!(w.creatures[0], member(3, 10));
    assert_eq!(w.tiles[0].kind, TileKind::Monster);
    assert_eq!(w.tiles[1].kind, TileKind::Healing);
    assert!(w.progress.enemy_stats.is_empty());
    assert_eq!(w.requested_state, None);
    assert_eq!(w.camera, Some(Camera { position: pt(1, 2), depth: 100 }));
}

#[test]
fn try_move_player_refuses_an_unrepresentable_destination() {
    let mut w = world_at(i64::MAX - 100, 0);
    w.tiles.push(tile(TileKind::Monster, i64::MAX - 60, 0));
    assert!(!w.check_move(RIGHT, 1000));
    assert!(!w.try_move_player(RIGHT, 1000));
    assert_eq!(w.player.unwrap().position, pt(i64::MAX - 100, 0));
    assert!(w.creatures.is_empty());
    assert_eq!(w.tiles[0].kind, TileKind::Monster);
    assert!(w.try_move_player(RIGHT, 100));
    assert_eq!(w.player.unwrap().position, pt(i64::MAX - 52, 0));
    assert_eq!(w.creatures.len(), 1);
}

#[test]
fn resolving_tiles_at_a_given_place() {
    let mut w = World::new();
    w.tiles.push(tile(TileKind::Monster, 100, 100));
    w.tiles.push(tile(TileKind::Healing, 100, 100));
    w.creatures.push(member(1, 9));
    w.resolve_healing_tiles(pt(90, 110));
    assert_eq!(w.creatures[0].stats.hp.health, 9);
    assert_eq!(w.tiles[0].kind, TileKind::Monster);
    assert_eq!(w.tiles[1].kind, TileKind::Plain);
    w.resolve_monster_tiles(pt(90, 110));
    assert_eq!(w.creatures.len(), 2);
    assert_eq!(w.tiles[0].kind, TileKind::Plain);
}

#[test]
fn progress_holds_statistics_for_exactly_the_enemies() {
    let mut w = world_at(0, 0);
    w.creatures.push(member(3, 10));
    w.tiles.push(tile(TileKind::Monster, 0, 0));
    w.tiles.push(tile(TileKind::Monster, 480, 0));
    w.tiles.push(tile(TileKind::Healing, 480, 10));
    w.move_player(STILL, 16);
    w.progress.current_level = 4;
    w.move_player(RIGHT, 1000);
    assert_eq!(w.creatures.len(), 3);
    for (i, c) in w.creatures.iter().enumerate() {
        assert_eq!(c.enemy, w.progress.enemy_stats.contains_key(&(i as u64)));
    }
    assert_eq!(w.progress.enemy_stats.len(), 2);
    assert_eq!(w.progress.enemy_stats[&1], generate_stats(0, false));
    assert_eq!(w.progress.enemy_stats[&2], generate_stats(4, false));
    assert_eq!(w.creatures[0].stats.hp.health, 10);
}
