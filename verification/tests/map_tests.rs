//! Chunk coordinates, the chunk store and its diff, biomes and the
//! procedural generator.

use game_server::biome::{BiomeRules, BiomeType};
use game_server::chunks::{
    build_feature_index, build_terrain_index, calculate_chunk_update, chunk_to_world,
    world_to_chunk, ChunkSystem,
};
use game_server::config::Config;
use game_server::map_types::{MapData, MapObject, MapSpawnPoint};
use game_server::mapgen::{FeatureGenerator, GenerationConfig, MapGenerator, TileSample};

fn units(px: i64) -> i64 {
    px * 60_000
}

fn flat_map(width: u32, height: u32) -> MapData {
    MapData {
        id: "flatlands".to_string(),
        name: "Flatlands".to_string(),
        width,
        height,
        background_music: "overworld_theme".to_string(),
        ambient_sound: "wind_ambient".to_string(),
        tile_data: (0..width * height).map(|i| i % 3).collect(),
        spawn_points: vec![MapSpawnPoint { x: 64, y: 64 }],
        objects: vec![MapObject {
            id: "tree_1".to_string(),
            x: 40,
            y: 40,
            object_type: "tree_oak".to_string(),
        }],
    }
}

#[test]
fn test_world_to_chunk() {
    assert_eq!(world_to_chunk(units(0), units(0), 32), (0, 0));
    assert_eq!(world_to_chunk(units(1024), units(1024), 32), (1, 1));
    assert_eq!(world_to_chunk(units(2048), units(2048), 32), (2, 2));
    assert_eq!(world_to_chunk(units(500), units(500), 32), (0, 0));
    assert_eq!(world_to_chunk(units(1100), units(1100), 32), (1, 1));
}

#[test]
fn test_chunk_to_world() {
    assert_eq!(chunk_to_world(0, 0, 32), (0, 0));
    assert_eq!(chunk_to_world(1, 1, 32), (units(1024), units(1024)));
    assert_eq!(chunk_to_world(2, 2, 32), (units(2048), units(2048)));
}

#[test]
fn test_terrain_and_feature_tables() {
    let terrain = build_terrain_index();
    assert_eq!(terrain.len(), 17);
    assert!(terrain.iter().any(|t| t.id == 100 && !t.walkable));
    assert!(terrain.iter().any(|t| t.id == 0 && t.walkable));
    let features = build_feature_index();
    assert_eq!(features.len(), 9);
    assert_eq!(features[0].id, 1);
    assert_eq!(features[0].feature_type, "tree_oak");
}

#[test]
fn test_chunk_contents_follow_map() {
    let map = flat_map(96, 96);
    let sys = ChunkSystem::from_map_data(&map);
    assert_eq!(sys.map_width_chunks, 3);
    assert_eq!(sys.map_height_chunks, 3);
    let chunk = sys.get_chunk(0, 0).unwrap();
    assert_eq!(chunk.tiles.len(), 1024);
    // Tile (5, 2) of chunk (0,0) is map tile (5, 2).
    assert_eq!(chunk.tiles[2 * 32 + 5], map.tile_data[(2 * 96 + 5) as usize]);
    // The one object sits on tile (1,1) of chunk (0,0) as feature id 1.
    assert!(chunk.features.iter().any(|f| f.tile_x == 1 && f.tile_y == 1 && f.feature_id == 1));
    assert!(sys.get_chunk(3, 0).is_none());
    assert!(sys.get_chunk(-1, 0).is_none());
}

#[test]
fn test_chunk_diff() {
    // A player walks from chunk (0,0) to (1,1): the needed window moves
    // from the clipped 3-by-3 around (0,0) to the one around (1,1).
    let map = flat_map(96, 96);
    let sys = ChunkSystem::from_map_data(&map);
    let prior = sys.get_chunks_for_position(units(500), units(500));
    assert_eq!(prior.len(), 4);
    let needed = sys.get_chunks_for_position(units(1100), units(1100));
    assert_eq!(needed.len(), 9);
    let update = calculate_chunk_update(&prior, &needed);
    // to_load is exactly needed minus prior: the five new chunks.
    assert_eq!(update.to_load.len(), 5);
    for p in &update.to_load {
        assert!(needed.contains(p) && !prior.contains(p));
    }
    // Nothing left the needed set.
    assert_eq!(update.to_unload.len(), 0);

    // Walking back unloads exactly those five.
    let back = calculate_chunk_update(&needed, &prior);
    assert_eq!(back.to_unload.len(), 5);
    assert_eq!(back.to_load.len(), 0);
}

#[test]
fn test_chunk_diff_idempotent() {
    // With an identical needed set the diff finds nothing to do.
    let map = flat_map(96, 96);
    let sys = ChunkSystem::from_map_data(&map);
    let needed = sys.get_chunks_for_position(units(1100), units(1100));
    let update = calculate_chunk_update(&needed, &needed);
    assert!(update.to_load.is_empty());
    assert!(update.to_unload.is_empty());
}

#[test]
fn test_biome_thresholds() {
    let water = BiomeRules { elevation_milli: -500, moisture_milli: 500, temperature_milli: 0 };
    assert_eq!(water.determine_biome(), BiomeType::DeepWater);
    let grass = BiomeRules { elevation_milli: 150, moisture_milli: 450, temperature_milli: 0 };
    assert_eq!(grass.determine_biome(), BiomeType::Grassland);
    let forest = BiomeRules { elevation_milli: 150, moisture_milli: 700, temperature_milli: 0 };
    assert_eq!(forest.determine_biome(), BiomeType::Forest);
    let peaks = BiomeRules { elevation_milli: 900, moisture_milli: 0, temperature_milli: 0 };
    assert_eq!(peaks.determine_biome(), BiomeType::SnowPeaks);
    assert!(!BiomeType::DeepWater.is_walkable());
    assert!(BiomeType::Grassland.is_walkable());
    assert_eq!(BiomeType::SnowPeaks.name(), "Snow Peaks");
}

#[test]
fn test_feature_generation() {
    let mut generator = FeatureGenerator::new(12345);
    let mut feature_count = 0;
    for _ in 0..100 {
        if generator.should_place_feature(BiomeType::Forest, 900).is_some() {
            feature_count += 1;
        }
    }
    assert!(feature_count > 0, "a forest should grow some features");

    let mut generator2 = FeatureGenerator::new(12345);
    for _ in 0..100 {
        assert!(generator2.should_place_feature(BiomeType::DeepWater, 900).is_none());
    }
}

#[test]
fn features_test_deterministic() {
    let mut gen1 = FeatureGenerator::new(42);
    let mut gen2 = FeatureGenerator::new(42);
    for _ in 0..50 {
        let feature1 = gen1.should_place_feature(BiomeType::Forest, 950);
        let feature2 = gen2.should_place_feature(BiomeType::Forest, 950);
        assert_eq!(feature1, feature2);
    }
}

fn synthetic_samples(width: u32, height: u32) -> Vec<TileSample> {
    // A varied but fixed sample grid: bands of water, grass, forest and
    // mountains.
    (0..width * height)
        .map(|i| {
            let x = i % width;
            TileSample {
                elevation_milli: match x % 4 {
                    0 => -500,
                    1 => 150,
                    2 => 200,
                    _ => 700,
                },
                moisture_milli: if x % 8 < 4 { 400 } else { 700 },
                detail_milli: ((i * 37) % 1000) as i32,
            }
        })
        .collect()
}

#[test]
fn test_map_generation() {
    let config = GenerationConfig {
        seed: 12345,
        width: 64,
        height: 64,
        map_id: "test_map".to_string(),
        map_name: "Test Map".to_string(),
    };
    let samples = synthetic_samples(64, 64);
    let mut generator = MapGenerator::new(12345);
    let map = generator.generate(&config, &samples);

    assert_eq!(map.id, "test_map");
    assert_eq!(map.name, "Test Map");
    assert_eq!(map.width, 64);
    assert_eq!(map.height, 64);
    assert_eq!(map.tile_data.len(), 64 * 64);
    assert!(!map.spawn_points.is_empty());
    // The water band shows water tiles.
    assert_eq!(map.tile_data[0], 100);
}

#[test]
fn test_deterministic_generation() {
    let config = GenerationConfig {
        seed: 42,
        width: 32,
        height: 32,
        map_id: "t".to_string(),
        map_name: "T".to_string(),
    };
    let samples = synthetic_samples(32, 32);
    let mut gen1 = MapGenerator::new(42);
    let mut gen2 = MapGenerator::new(42);
    let map1 = gen1.generate(&config, &samples);
    let map2 = gen2.generate(&config, &samples);

    assert_eq!(map1.tile_data, map2.tile_data);
    assert_eq!(map1.objects.len(), map2.objects.len());
    for (a, b) in map1.objects.iter().zip(map2.objects.iter()) {
        assert_eq!(a.object_type, b.object_type);
        assert_eq!(a.x, b.x);
        assert_eq!(a.y, b.y);
    }
    assert_eq!(map1.spawn_points, map2.spawn_points);
}

#[test]
fn test_bind_address() {
    let config = Config {
        host: "0.0.0.0".to_string(),
        port: 8080,
        max_players: 100,
        tick_rate: 60,
        log_level: "info".to_string(),
        map: game_server::config::MapConfig {
            use_procedural: false,
            procedural_seed: None,
            procedural_width: 128,
            procedural_height: 128,
        },
    };
    assert_eq!(config.bind_address(), "0.0.0.0:8080");
    let mut low = config.clone();
    low.port = 7;
    assert_eq!(low.bind_address(), "0.0.0.0:7");
}
