//! End-to-end scenarios over the game state: joining, moving, vision
//! filtering, the delta sequence, and normalization parity.

use game_server::components::{CharacterClass, Position, Species};
use game_server::delta::{filter_changes_by_vision, EntityChanges};
use game_server::map_types::{MapData, MapSpawnPoint};
use game_server::spawning::SpawnPointManager;
use game_server::state::{GameState, PlayerInput};
use game_server::sync::{build_delta_message, generate_snapshot};
use game_server::units::normalize_input;

const SCALE: i64 = 60_000;

fn test_map() -> MapData {
    MapData {
        id: "overworld_01".to_string(),
        name: "Overworld - Starting Area".to_string(),
        width: 128,
        height: 128,
        background_music: "overworld_theme".to_string(),
        ambient_sound: "forest_birds".to_string(),
        tile_data: vec![0; 128 * 128],
        spawn_points: vec![MapSpawnPoint { x: 1600, y: 1600 }],
        objects: vec![],
    }
}

fn input(x: i32, y: i32) -> PlayerInput {
    PlayerInput { sequence: 1, timestamp: 0, movement_x: x, movement_y: y, action: 0 }
}

#[test]
fn test_join_and_snapshot() {
    let mut state = GameState::new(test_map());
    let (sx, sy) = state.get_next_spawn_point();
    assert_eq!((sx, sy), (1600 * SCALE, 1600 * SCALE));
    let e = state.add_player(7, "A".to_string(), Species::Human, CharacterClass::Fighter, sx, sy);

    let world = state.world_ref();
    assert_eq!(world.position(e), Some(Position { x: sx, y: sy }));
    let hp = world.health(e).unwrap();
    assert_eq!((hp.current, hp.max), (12, 12));
    assert_eq!(world.stats(e).unwrap().str, 13);
    assert_eq!(state.get_player_entity(7), Some(e));

    let snapshot = generate_snapshot(&state, e);
    assert_eq!(snapshot.player_entity_id, e);
    assert_eq!(snapshot.map_id, "overworld_01");
    assert!(snapshot.entities.iter().any(|info| info.id == e
        && info.health_max == 12 && info.name == "A"));

    // An entity outside the 640-pixel radius stays out of the snapshot.
    let far = state.add_player(8, "B".to_string(), Species::Human, CharacterClass::Fighter,
        sx + 700 * SCALE, sy);
    let snapshot2 = generate_snapshot(&state, e);
    assert!(!snapshot2.entities.iter().any(|info| info.id == far));
    assert!(snapshot2.entities.iter().any(|info| info.id == e));
}

#[test]
fn test_straight_line_movement() {
    // Input (1, 0) at speed 200: after 60 ticks at 60 Hz the player has
    // advanced exactly 200 pixels on x.
    let mut state = GameState::new(test_map());
    let mut manager = SpawnPointManager::new();
    let (sx, sy) = state.get_next_spawn_point();
    let e = state.add_player(1, "A".to_string(), Species::Human, CharacterClass::Fighter, sx, sy);
    state.update_player_input(1, input(1000, 0));
    for tick in 0..60u64 {
        state.advance_tick(&mut manager, tick * 17);
    }
    let pos = state.world_ref().position(e).unwrap();
    assert_eq!(pos.x - sx, 200 * SCALE);
    assert_eq!(pos.y, sy);
}

#[test]
fn test_diagonal_parity() {
    // Input (1, 1): after 60 ticks the speed magnitude is 200 within a
    // hundredth, and each component near 141.42 pixels.
    let mut state = GameState::new(test_map());
    let mut manager = SpawnPointManager::new();
    let (sx, sy) = state.get_next_spawn_point();
    let e = state.add_player(1, "A".to_string(), Species::Human, CharacterClass::Fighter, sx, sy);
    state.update_player_input(1, input(1000, 1000));
    for tick in 0..60u64 {
        state.advance_tick(&mut manager, tick * 17);
    }
    let pos = state.world_ref().position(e).unwrap();
    let dx_px = (pos.x - sx) as f64 / SCALE as f64;
    let dy_px = (pos.y - sy) as f64 / SCALE as f64;
    assert!((dx_px - 141.42).abs() < 0.1, "dx {}", dx_px);
    assert!((dy_px - 141.42).abs() < 0.1, "dy {}", dy_px);
    let vel = state.world_ref().velocity(e).unwrap();
    let speed_px = ((vel.dx as f64).powi(2) + (vel.dy as f64).powi(2)).sqrt() / 1000.0;
    assert!((speed_px - 200.0).abs() < 0.01, "speed {}", speed_px);
}

#[test]
fn test_normalization_parity() {
    // Diagonal input is no faster than axis-aligned input.
    let (ax, ay) = normalize_input(1000, 0, 200_000);
    assert_eq!((ax, ay), (200_000, 0));
    let (dx, dy) = normalize_input(1000, 1000, 200_000);
    let diag_sq = dx * dx + dy * dy;
    let axis_sq = ax * ax + ay * ay;
    assert!(diag_sq <= axis_sq);
    // And short of it only by rounding: within a tenth of a percent.
    assert!(diag_sq * 1000 >= axis_sq * 998);
    // Zero input stands still.
    assert_eq!(normalize_input(0, 0, 200_000), (0, 0));
}

#[test]
fn test_movement_clamps_to_bounds() {
    // Pressing into the map edge leaves the position clamped at zero.
    let mut state = GameState::new(test_map());
    let mut manager = SpawnPointManager::new();
    let e = state.add_player(1, "A".to_string(), Species::Human, CharacterClass::Fighter, 0, 0);
    state.update_player_input(1, input(-1000, -1000));
    for tick in 0..10u64 {
        state.advance_tick(&mut manager, tick * 17);
    }
    let pos = state.world_ref().position(e).unwrap();
    assert_eq!((pos.x, pos.y), (0, 0));
}

#[test]
fn test_delta_sequence_steps_by_one() {
    let mut state = GameState::new(test_map());
    let mut manager = SpawnPointManager::new();
    assert_eq!(state.delta_sequence(), 0);
    state.advance_tick(&mut manager, 0);
    assert_eq!(state.delta_sequence(), 1);
    state.advance_tick(&mut manager, 17);
    assert_eq!(state.delta_sequence(), 2);
    assert_eq!(state.tick_count(), 2);
}

#[test]
fn test_updated_and_spawned_disjoint() {
    let mut state = GameState::new(test_map());
    let mut manager = SpawnPointManager::new();
    let (sx, sy) = state.get_next_spawn_point();
    state.add_player(1, "A".to_string(), Species::Human, CharacterClass::Fighter, sx, sy);
    state.update_player_input(1, input(1000, 0));
    for tick in 0..3u64 {
        let changes = state.advance_tick(&mut manager, tick * 17);
        for u in &changes.updated {
            assert!(!changes.spawned.contains(u));
        }
    }
}

#[test]
fn test_vision_filter() {
    // Two players 700 pixels apart: the mover's update is filtered out
    // of the distant player's delta, despawns are not.
    let mut state = GameState::new(test_map());
    let (sx, sy) = state.get_next_spawn_point();
    let a = state.add_player(1, "A".to_string(), Species::Human, CharacterClass::Fighter, sx, sy);
    let b_x = sx + 700 * SCALE;
    let b = state.add_player(2, "B".to_string(), Species::Human, CharacterClass::Fighter, b_x, sy);

    let changes = EntityChanges {
        spawned: vec![],
        updated: vec![a],
        despawned: vec![a],
    };
    let filtered = filter_changes_by_vision(state.world_ref(), &changes, b_x, sy);
    assert!(filtered.updated.is_empty());
    assert_eq!(filtered.despawned, vec![a]);

    // From A's own position the update passes.
    let near = filter_changes_by_vision(state.world_ref(), &changes, sx, sy);
    assert_eq!(near.updated, vec![a]);

    let message = build_delta_message(state.world_ref(), &filtered, 9);
    assert_eq!(message.sequence, 9);
    assert!(message.entities_updated.is_empty());
    assert_eq!(message.entities_despawned, vec![a]);
    let _ = b;
}

#[test]
fn test_remove_player_forgets_connection() {
    let mut state = GameState::new(test_map());
    let (sx, sy) = state.get_next_spawn_point();
    let e = state.add_player(1, "A".to_string(), Species::Human, CharacterClass::Fighter, sx, sy);
    assert!(state.has_player(1));
    state.remove_player(1);
    assert!(!state.has_player(1));
    assert_eq!(state.get_player_entity(1), None);
    assert!(!state.world_ref().is_alive(e));
    // Removing again is a no-op.
    state.remove_player(1);
}

#[test]
fn test_player_chunk_updates() {
    let mut state = GameState::new(test_map());
    let e_pos = 1100 * SCALE;
    state.add_player(1, "A".to_string(), Species::Human, CharacterClass::Fighter, e_pos, e_pos);
    // First computation loads the full 3-by-3 window around chunk (1,1).
    let update = state.update_player_chunks(1);
    assert_eq!(update.to_load.len(), 9);
    assert!(update.to_unload.is_empty());
    // Standing still, nothing changes.
    let update2 = state.update_player_chunks(1);
    assert!(update2.to_load.is_empty());
    assert!(update2.to_unload.is_empty());
    // An unknown connection yields an empty diff.
    let update3 = state.update_player_chunks(99);
    assert!(update3.to_load.is_empty() && update3.to_unload.is_empty());
}

#[test]
fn test_status_effects_expire() {
    let effects = vec![
        game_server::components::ActiveStatusEffect {
            effect: game_server::components::StatusEffect::Slowed,
            started_at: 0,
            duration_ms: 1000,
        },
        game_server::components::ActiveStatusEffect {
            effect: game_server::components::StatusEffect::Burning,
            started_at: 500,
            duration_ms: 5000,
        },
    ];
    let pruned = game_server::state::prune_status_effects(&effects, 2000);
    assert_eq!(pruned.len(), 1);
    assert_eq!(pruned[0].effect, game_server::components::StatusEffect::Burning);
}
