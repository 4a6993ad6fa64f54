//! Procedural map generation: fixed-point noise samples select a biome
//! and tile per grid cell, a seeded stream of draws places features,
//! and flat grassland supplies spawn points.
//!
//! The noise samples are taken outside the library (the sampler works
//! in floating point) and handed in as one value triple per tile; given
//! the same samples and seed, generation always yields the same tile
//! grid, object list and spawn points, because the draw stream is a
//! pure function of the seed.

use vstd::prelude::*;
use crate::biome::{biome_spec, feature_density_spec, BiomeRules, BiomeType};
use crate::map_types::{MapData, MapObject, MapSpawnPoint};
use crate::text::{push_char, str_append};

verus! {

/// The fixed-point noise of one tile: elevation in `[-1000, 1000]`,
/// moisture and detail in `[0, 1000]`, all in thousandths.
#[derive(Debug, Clone, Copy, PartialEq, Eq, Structural)]
pub struct TileSample {
    pub elevation_milli: i32,
    pub moisture_milli: i32,
    pub detail_milli: i32,
}

impl TileSample {
    /// The sample stays in its nominal ranges.
    pub open spec fn wf(self) -> bool {
        &&& -1000 <= self.elevation_milli <= 1000
        &&& 0 <= self.moisture_milli <= 1000
        &&& 0 <= self.detail_milli <= 1000
    }
}

/// The seeded draw stream used for feature placement; the stream is a
/// function of the seed alone, so placement repeats run for run.
#[verifier::external_body]
pub struct FeatureGenerator {
    rng: rand_chacha::ChaCha8Rng,
}

/// The seed the stream was started from.
pub uninterp spec fn gen_seed(g: FeatureGenerator) -> u64;

/// How many draws the stream has handed out.
pub uninterp spec fn gen_pos(g: FeatureGenerator) -> int;

/// The draw at position `pos` of the seeded stream: ChaCha8 is a pure
/// function of its seed, so the value depends on the seed and position
/// alone; always below 1000.
pub uninterp spec fn chacha_roll(seed: u64, pos: int) -> u32;

impl FeatureGenerator {
    /// Relies on rand_chacha's ChaCha8Rng::seed_from_u64: the stream it
    /// starts is determined by `seed`.
    #[verifier::external_body]
    pub fn new(seed: u64) -> (r: Self)
        ensures
            gen_seed(r) == seed,
            gen_pos(r) == 0,
    {
        FeatureGenerator { rng: rand::SeedableRng::seed_from_u64(seed) }
    }

    /// Relies on rand's Rng::gen_range over ChaCha8: the next draw of
    /// the stream, a value below 1000 determined by the seed and the
    /// stream position.
    #[verifier::external_body]
    fn next_roll(&mut self) -> (r: u32)
        ensures
            gen_seed(*final(self)) == gen_seed(*old(self)),
            gen_pos(*final(self)) == gen_pos(*old(self)) + 1,
            r == chacha_roll(gen_seed(*old(self)), gen_pos(*old(self))),
            r < 1000,
    {
        rand::Rng::gen_range(&mut self.rng, 0..1000u32)
    }
}

impl FeatureGenerator {
    /// Decide whether a feature sprouts here, drawing from the stream:
    /// nothing in a featureless biome or below the density threshold;
    /// otherwise one draw gates placement and, if it passes, a second
    /// picks the kind.  This path draws lazily (zero, one or two
    /// values), so it walks the stream differently from the map scan of
    /// `MapGenerator::generate`, which draws a fixed two per tile.
    pub fn should_place_feature(&mut self, biome: BiomeType, detail_noise_milli: i32)
        -> (r: Option<&'static str>)
        ensures
            gen_seed(*final(self)) == gen_seed(*old(self)),
            ({
                let seed = gen_seed(*old(self));
                let pos = gen_pos(*old(self));
                let density = feature_density_spec(biome);
                if density == 0 || detail_noise_milli <= 1000 - density {
                    r is None && gen_pos(*final(self)) == pos
                } else if chacha_roll(seed, pos) < 500 {
                    r is None && gen_pos(*final(self)) == pos + 1
                } else {
                    (r matches Some(s)
                        && s@ == select_feature_spec(biome, chacha_roll(seed, pos + 1) as int))
                        && gen_pos(*final(self)) == pos + 2
                }
            }),
    {
        let density: u32 = biome.feature_density();
        if density == 0 {
            return None;
        }
        if detail_noise_milli <= 1000 - density as i32 {
            return None;
        }
        let gate: u32 = self.next_roll();
        if gate < 500 {
            return None;
        }
        let pick: u32 = self.next_roll();
        Some(select_feature_for_biome(biome, pick))
    }
}

/// The feature kind a biome grows for a draw: mostly trees in green
/// biomes, rocks and dry growth elsewhere.
pub open spec fn select_feature_spec(b: BiomeType, roll: int) -> Seq<char> {
    match b {
        BiomeType::Forest => if roll < 700 { "tree_oak"@ } else if roll < 900 { "bush_green"@ }
            else { "rock_small"@ },
        BiomeType::Grassland => if roll < 600 { "tree_oak"@ } else if roll < 900 {
            "bush_green"@ } else { "rock_small"@ },
        BiomeType::Desert => if roll < 500 { "cactus"@ } else if roll < 800 { "rock_desert"@ }
            else { "dead_tree"@ },
        BiomeType::Hills => if roll < 700 { "rock_large"@ } else { "bush_dry"@ },
        BiomeType::Mountains => "rock_boulder"@,
        _ => ""@,
    }
}

/// Whether a tile grows a feature, and which: the biome must grow
/// features at all, the detail noise must exceed the density threshold,
/// the first draw must land in the upper half, and the second draw then
/// picks the kind.
pub open spec fn feature_choice_spec(b: BiomeType, detail: int, r1: int, r2: int)
    -> Option<Seq<char>> {
    if feature_density_spec(b) > 0 && detail > 1000 - feature_density_spec(b) && r1 >= 500 {
        Some(select_feature_spec(b, r2))
    } else {
        None
    }
}

/// The feature kind a biome grows for a draw.
pub fn select_feature_for_biome(biome: BiomeType, roll: u32) -> (r: &'static str)
    ensures
        r@ == select_feature_spec(biome, roll as int),
{
    match biome {
        BiomeType::Forest => if roll < 700 { "tree_oak" } else if roll < 900 { "bush_green" }
            else { "rock_small" },
        BiomeType::Grassland => if roll < 600 { "tree_oak" } else if roll < 900 { "bush_green" }
            else { "rock_small" },
        BiomeType::Desert => if roll < 500 { "cactus" } else if roll < 800 { "rock_desert" }
            else { "dead_tree" },
        BiomeType::Hills => if roll < 700 { "rock_large" } else { "bush_dry" },
        BiomeType::Mountains => "rock_boulder",
        _ => "",
    }
}

/// The biome a sample selects.
pub open spec fn sample_biome_spec(smp: TileSample) -> BiomeType {
    biome_spec(smp.elevation_milli as int, smp.moisture_milli as int)
}

/// The tile id a biome shows, with the detail noise varying the ground.
pub open spec fn tile_for_biome_spec(b: BiomeType, detail: int) -> int {
    match b {
        BiomeType::DeepWater => 100,
        BiomeType::ShallowWater => 101,
        BiomeType::Beach => 102,
        BiomeType::Grassland => if detail < 800 { 0 } else if detail < 900 { 1 } else { 2 },
        BiomeType::Forest => if detail < 700 { 10 } else { 11 },
        BiomeType::Desert => if detail < 600 { 20 } else if detail < 850 { 21 } else { 22 },
        BiomeType::Hills => if detail < 500 { 30 } else { 31 },
        BiomeType::Mountains => if detail < 600 { 40 } else { 41 },
        BiomeType::SnowPeaks => if detail < 700 { 50 } else { 51 },
    }
}

/// The tile id a biome shows for a detail sample.
pub fn get_tile_for_biome(biome: BiomeType, detail: i32) -> (r: u32)
    ensures
        r == tile_for_biome_spec(biome, detail as int),
{
    match biome {
        BiomeType::DeepWater => 100,
        BiomeType::ShallowWater => 101,
        BiomeType::Beach => 102,
        BiomeType::Grassland => if detail < 800 { 0 } else if detail < 900 { 1 } else { 2 },
        BiomeType::Forest => if detail < 700 { 10 } else { 11 },
        BiomeType::Desert => if detail < 600 { 20 } else if detail < 850 { 21 } else { 22 },
        BiomeType::Hills => if detail < 500 { 30 } else { 31 },
        BiomeType::Mountains => if detail < 600 { 40 } else { 41 },
        BiomeType::SnowPeaks => if detail < 700 { 50 } else { 51 },
    }
}

/// The tile id a sample shows.
pub open spec fn tile_spec(smp: TileSample) -> int {
    tile_for_biome_spec(sample_biome_spec(smp), smp.detail_milli as int)
}

/// The feature grown at the `t`-th tile: its sample's biome and detail
/// judged against the two stream draws belonging to the tile.
pub open spec fn feature_at_spec(seed: u64, smp: TileSample, t: int) -> Option<Seq<char>> {
    feature_choice_spec(
        sample_biome_spec(smp),
        smp.detail_milli as int,
        chacha_roll(seed, 2 * t) as int,
        chacha_roll(seed, 2 * t + 1) as int)
}

/// The object list after the first `i` tiles of the row-major scan:
/// each tile with a feature appends (kind, tile x, tile y).
pub open spec fn gen_objects_spec(seed: u64, samples: Seq<TileSample>, w: int, i: int)
    -> Seq<(Seq<char>, int, int)>
    decreases i,
{
    if i <= 0 {
        Seq::empty()
    } else {
        let t = i - 1;
        let x = t % w;
        let y = t / w;
        match feature_at_spec(seed, samples[t], t) {
            Some(name) => gen_objects_spec(seed, samples, w, t).push((name, x, y)),
            None => gen_objects_spec(seed, samples, w, t),
        }
    }
}

/// A tile suits a player spawn: flat, safe grassland on the spacing
/// grid.
pub open spec fn spawn_ok_spec(smp: TileSample, x: int, y: int) -> bool {
    &&& sample_biome_spec(smp) is Grassland
    &&& smp.elevation_milli > 100
    &&& smp.elevation_milli < 250
    &&& x % 20 == 0
    &&& y % 20 == 0
}

/// The spawn points after the first `i` tiles, capped at ten.
pub open spec fn gen_spawns_spec(samples: Seq<TileSample>, w: int, i: int) -> Seq<(int, int)>
    decreases i,
{
    if i <= 0 {
        Seq::empty()
    } else {
        let t = i - 1;
        let x = t % w;
        let y = t / w;
        let s = gen_spawns_spec(samples, w, t);
        if s.len() < 10 && spawn_ok_spec(samples[t], x, y) {
            s.push((x, y))
        } else {
            s
        }
    }
}

/// What a procedural map is generated from.
#[derive(Debug, Clone)]
pub struct GenerationConfig {
    pub seed: u32,
    pub width: u32,
    pub height: u32,
    pub map_id: String,
    pub map_name: String,
}

/// The procedural map generator: the feature draw stream for one seed.
pub struct MapGenerator {
    seed: u32,
    features: FeatureGenerator,
}

impl MapGenerator {
    /// The generator's seed.
    pub closed spec fn spec_seed(self) -> u32 {
        self.seed
    }

    /// The draw stream belongs to the seed and stands at `pos`.
    pub closed spec fn stream_at(self, pos: int) -> bool {
        gen_seed(self.features) == self.seed as u64 && gen_pos(self.features) == pos
    }

    /// A fresh generator for `seed`, its draw stream unused.
    pub fn new(seed: u32) -> (r: Self)
        ensures
            r.spec_seed() == seed,
            r.stream_at(0),
    {
        MapGenerator {
            seed,
            features: FeatureGenerator::new(seed as u64),
        }
    }

    /// Generate the map for `config` from one noise sample per tile in
    /// row-major order: every tile's id is its sample's tile function,
    /// the object list is exactly the feature scan of the samples and
    /// the seed's draw stream (a fixed two draws per tile, so positions
    /// in the stream depend only on the tile index), and the spawn
    /// points are the first ten flat grassland samples on the spacing
    /// grid — or the map center when there are none.  Same seed,
    /// dimensions and samples, same map.
    pub fn generate(&mut self, config: &GenerationConfig, samples: &Vec<TileSample>)
        -> (r: MapData)
        requires
            old(self).stream_at(0),
            1 <= config.width <= 512,
            1 <= config.height <= 512,
            samples@.len() == config.width * config.height,
            forall|t: int| 0 <= t < samples@.len() ==> (#[trigger] samples@[t]).wf(),
        ensures
            r.wf(),
            r.width == config.width,
            r.height == config.height,
            r.id@ == config.map_id@,
            r.name@ == config.map_name@,
            r.ambient_sound@ == "wind_ambient"@,
            r.tile_data@.len() == config.width * config.height,
            forall|t: int| 0 <= t < config.width * config.height
                ==> #[trigger] r.tile_data@[t] as int == tile_spec(samples@[t]),
            ({
                let objs = gen_objects_spec(old(self).spec_seed() as u64, samples@,
                    config.width as int, (config.width * config.height) as int);
                &&& r.objects@.len() == objs.len()
                &&& forall|k: int| 0 <= k < objs.len()
                    ==> (#[trigger] r.objects@[k]).object_type@ == objs[k].0
                        && r.objects@[k].x == objs[k].1 * 32
                        && r.objects@[k].y == objs[k].2 * 32
            }),
            ({
                let sps = gen_spawns_spec(samples@, config.width as int,
                    (config.width * config.height) as int);
                if sps.len() > 0 {
                    r.spawn_points@.len() == sps.len()
                        && forall|k: int| 0 <= k < sps.len()
                            ==> (#[trigger] r.spawn_points@[k]).x == sps[k].0 * 32
                                && r.spawn_points@[k].y == sps[k].1 * 32
                } else {
                    r.spawn_points@.len() == 1
                        && r.spawn_points@[0].x == config.width * 16
                        && r.spawn_points@[0].y == config.height * 16
                }
            }),
    {
        let w: u32 = config.width;
        let h: u32 = config.height;
        proof {
            assert(w * h <= 512 * 512) by (nonlinear_arith)
                requires 1 <= w <= 512, 1 <= h <= 512;
        }
        let total: u32 = w * h;
        let ghost seed64 = self.spec_seed() as u64;
        let mut tile_data: Vec<u32> = Vec::new();
        let mut objects: Vec<MapObject> = Vec::new();
        let mut spawn_points: Vec<MapSpawnPoint> = Vec::new();
        let mut water_tiles: u64 = 0;
        let mut desert_tiles: u64 = 0;
        let mut mountain_tiles: u64 = 0;
        let mut forest_tiles: u64 = 0;
        let mut t: u32 = 0;
        while t < total
            invariant
                1 <= w <= 512,
                1 <= h <= 512,
                total == w * h,
                total <= 512 * 512,
                0 <= t <= total,
                samples@.len() == total,
                forall|k: int| 0 <= k < samples@.len() ==> (#[trigger] samples@[k]).wf(),
                seed64 == self.spec_seed() as u64,
                self.spec_seed() == old(self).spec_seed(),
                self.stream_at(2 * t),
                tile_data@.len() == t,
                forall|k: int| 0 <= k < t
                    ==> #[trigger] tile_data@[k] as int == tile_spec(samples@[k]),
                ({
                    let objs = gen_objects_spec(seed64, samples@, w as int, t as int);
                    &&& objects@.len() == objs.len()
                    &&& forall|k: int| 0 <= k < objs.len()
                        ==> (#[trigger] objects@[k]).object_type@ == objs[k].0
                            && objects@[k].x == objs[k].1 * 32
                            && objects@[k].y == objs[k].2 * 32
                }),
                ({
                    let sps = gen_spawns_spec(samples@, w as int, t as int);
                    &&& spawn_points@.len() == sps.len()
                    &&& forall|k: int| 0 <= k < sps.len()
                        ==> (#[trigger] spawn_points@[k]).x == sps[k].0 * 32
                            && spawn_points@[k].y == sps[k].1 * 32
                }),
                water_tiles <= t,
                desert_tiles <= t,
                mountain_tiles <= t,
                forest_tiles <= t,
            decreases total - t,
        {
            let x: u32 = t % w;
            let y: u32 = t / w;
            proof {
                vstd::arithmetic::div_mod::lemma_mod_bound(t as int, w as int);
                vstd::arithmetic::div_mod::lemma_div_pos_is_pos(t as int, w as int);
                vstd::arithmetic::div_mod::lemma_fundamental_div_mod(t as int, w as int);
                assert((t as int) / (w as int) < h) by (nonlinear_arith)
                    requires
                        t < w * h,
                        w >= 1,
                        h >= 1,
                        ((t as int) / (w as int)) * (w as int) + (t as int) % (w as int)
                            == t as int,
                        0 <= (t as int) % (w as int) < w;
            }
            let smp: TileSample = samples[t as usize];
            let rules = BiomeRules {
                elevation_milli: smp.elevation_milli,
                moisture_milli: smp.moisture_milli,
                temperature_milli: 0,
            };
            let biome: BiomeType = rules.determine_biome();
            match biome {
                BiomeType::DeepWater | BiomeType::ShallowWater => {
                    water_tiles = water_tiles + 1;
                }
                BiomeType::Desert => { desert_tiles = desert_tiles + 1; }
                BiomeType::Mountains | BiomeType::SnowPeaks => {
                    mountain_tiles = mountain_tiles + 1;
                }
                BiomeType::Forest => { forest_tiles = forest_tiles + 1; }
                _ => {}
            }
            let tile_id: u32 = get_tile_for_biome(biome, smp.detail_milli);
            tile_data.push(tile_id);
            let roll1: u32 = self.features.next_roll();
            let roll2: u32 = self.features.next_roll();
            let density: u32 = biome.feature_density();
            let ghost pre_objs = objects@;
            if density > 0 && smp.detail_milli > 1000 - density as i32 && roll1 >= 500 {
                let feature_name: &'static str = select_feature_for_biome(biome, roll2);
                let mut id: String = feature_name.to_string();
                push_char(&mut id, '_');
                str_append(&mut id, crate::config::decimal_of_u32(x).as_str());
                push_char(&mut id, '_');
                str_append(&mut id, crate::config::decimal_of_u32(y).as_str());
                push_char(&mut id, '_');
                str_append(&mut id, crate::config::decimal_of_u32(config.seed).as_str());
                objects.push(MapObject {
                    id,
                    x: (x as i64) * 32,
                    y: (y as i64) * 32,
                    object_type: feature_name.to_string(),
                });
            }
            proof {
                let objs1 = gen_objects_spec(seed64, samples@, w as int, t + 1);
                assert(objects@.len() == objs1.len());
                assert forall|k: int| 0 <= k < objs1.len()
                    implies (#[trigger] objects@[k]).object_type@ == objs1[k].0
                        && objects@[k].x == objs1[k].1 * 32
                        && objects@[k].y == objs1[k].2 * 32 by {
                    if k < pre_objs.len() {
                        assert(objects@[k] == pre_objs[k]);
                    }
                }
            }
            let ghost pre_sps = spawn_points@;
            let is_grass: bool = matches!(biome, BiomeType::Grassland);
            if spawn_points.len() < 10 && is_grass && smp.elevation_milli > 100
                && smp.elevation_milli < 250 && x % 20 == 0 && y % 20 == 0 {
                spawn_points.push(MapSpawnPoint { x: (x as i64) * 32, y: (y as i64) * 32 });
            }
            proof {
                let sps1 = gen_spawns_spec(samples@, w as int, t + 1);
                assert(spawn_points@.len() == sps1.len());
                assert forall|k: int| 0 <= k < sps1.len()
                    implies (#[trigger] spawn_points@[k]).x == sps1[k].0 * 32
                        && spawn_points@[k].y == sps1[k].1 * 32 by {
                    if k < pre_sps.len() {
                        assert(spawn_points@[k] == pre_sps[k]);
                    }
                }
            }
            t = t + 1;
        }
        if spawn_points.len() == 0 {
            spawn_points.push(MapSpawnPoint {
                x: (w as i64) * 16,
                y: (h as i64) * 16,
            });
        }
        let background_music: String = if water_tiles * 10 > (total as u64) * 3 {
            "ocean_theme".to_string()
        } else if desert_tiles * 10 > (total as u64) * 4 {
            "desert_theme".to_string()
        } else if mountain_tiles * 10 > (total as u64) * 3 {
            "mountain_theme".to_string()
        } else if forest_tiles * 10 > (total as u64) * 4 {
            "forest_theme".to_string()
        } else {
            "overworld_theme".to_string()
        };
        let r = MapData {
            id: config.map_id.clone(),
            name: config.map_name.clone(),
            width: w,
            height: h,
            background_music,
            ambient_sound: "wind_ambient".to_string(),
            tile_data,
            spawn_points,
            objects,
        };
        proof {
            assert forall|k: int| 0 <= k < r.spawn_points@.len()
                implies 0 <= (#[trigger] r.spawn_points@[k]).x <= r.width * 32
                    && 0 <= r.spawn_points@[k].y <= r.height * 32 by {
                let sps = gen_spawns_spec(samples@, w as int, (w * h) as int);
                if sps.len() > 0 {
                    lemma_gen_spawns_bounds(samples@, w as int, h as int, (w * h) as int, k);
                }
            }
            assert forall|k: int| 0 <= k < r.objects@.len()
                implies 0 <= (#[trigger] r.objects@[k]).x <= r.width * 32
                    && 0 <= r.objects@[k].y <= r.height * 32 by {
                lemma_gen_objects_bounds(seed64, samples@, w as int, h as int,
                    (w * h) as int, k);
            }
        }
        r
    }
}

/// Every generated spawn lies on the map grid.
proof fn lemma_gen_spawns_bounds(samples: Seq<TileSample>, w: int, h: int, i: int, k: int)
    requires
        1 <= w,
        1 <= h,
        0 <= i <= w * h,
        0 <= k < gen_spawns_spec(samples, w, i).len(),
    ensures
        0 <= gen_spawns_spec(samples, w, i)[k].0 < w,
        0 <= gen_spawns_spec(samples, w, i)[k].1 < h,
    decreases i,
{
    if i > 0 {
        let t = i - 1;
        let s = gen_spawns_spec(samples, w, t);
        vstd::arithmetic::div_mod::lemma_mod_bound(t, w);
        vstd::arithmetic::div_mod::lemma_div_pos_is_pos(t, w);
        vstd::arithmetic::div_mod::lemma_fundamental_div_mod(t, w);
        assert(t / w < h) by (nonlinear_arith)
            requires
                t < w * h,
                w >= 1,
                h >= 1,
                (t / w) * w + t % w == t,
                0 <= t % w < w;
        if k < s.len() {
            lemma_gen_spawns_bounds(samples, w, h, t, k);
        }
    }
}

/// Every generated object lies on the map grid.
proof fn lemma_gen_objects_bounds(
    seed: u64, samples: Seq<TileSample>, w: int, h: int, i: int, k: int)
    requires
        1 <= w,
        1 <= h,
        0 <= i <= w * h,
        0 <= k < gen_objects_spec(seed, samples, w, i).len(),
    ensures
        0 <= gen_objects_spec(seed, samples, w, i)[k].1 < w,
        0 <= gen_objects_spec(seed, samples, w, i)[k].2 < h,
    decreases i,
{
    if i > 0 {
        let t = i - 1;
        let s = gen_objects_spec(seed, samples, w, t);
        vstd::arithmetic::div_mod::lemma_mod_bound(t, w);
        vstd::arithmetic::div_mod::lemma_div_pos_is_pos(t, w);
        vstd::arithmetic::div_mod::lemma_fundamental_div_mod(t, w);
        assert(t / w < h) by (nonlinear_arith)
            requires
                t < w * h,
                w >= 1,
                h >= 1,
                (t / w) * w + t % w == t,
                0 <= t % w < w;
        if k < s.len() {
            lemma_gen_objects_bounds(seed, samples, w, h, t, k);
        }
    }
}

/// Procedural generation repeats: two maps generated from the same
/// seed, dimensions and noise samples carry the same tile grid, the
/// same object kinds at the same places, and the same spawn points,
/// because every part is pinned to the seed's draw stream and the
/// samples.
pub proof fn lemma_generation_deterministic(
    seed: u64, samples: Seq<TileSample>, w: int, h: int, a: MapData, b: MapData)
    requires
        1 <= w <= 512,
        1 <= h <= 512,
        a.tile_data@.len() == w * h,
        b.tile_data@.len() == w * h,
        forall|t: int| 0 <= t < w * h
            ==> #[trigger] a.tile_data@[t] as int == tile_spec(samples[t]),
        forall|t: int| 0 <= t < w * h
            ==> #[trigger] b.tile_data@[t] as int == tile_spec(samples[t]),
        a.objects@.len() == gen_objects_spec(seed, samples, w, w * h).len(),
        b.objects@.len() == gen_objects_spec(seed, samples, w, w * h).len(),
        forall|k: int| 0 <= k < a.objects@.len()
            ==> (#[trigger] a.objects@[k]).object_type@
                == gen_objects_spec(seed, samples, w, w * h)[k].0
                && a.objects@[k].x == gen_objects_spec(seed, samples, w, w * h)[k].1 * 32
                && a.objects@[k].y == gen_objects_spec(seed, samples, w, w * h)[k].2 * 32,
        forall|k: int| 0 <= k < b.objects@.len()
            ==> (#[trigger] b.objects@[k]).object_type@
                == gen_objects_spec(seed, samples, w, w * h)[k].0
                && b.objects@[k].x == gen_objects_spec(seed, samples, w, w * h)[k].1 * 32
                && b.objects@[k].y == gen_objects_spec(seed, samples, w, w * h)[k].2 * 32,
    ensures
        a.tile_data@ == b.tile_data@,
        a.objects@.len() == b.objects@.len(),
        forall|k: int| 0 <= k < a.objects@.len()
            ==> (#[trigger] a.objects@[k]).object_type@ == b.objects@[k].object_type@
                && a.objects@[k].x == b.objects@[k].x
                && a.objects@[k].y == b.objects@[k].y,
{
    assert forall|t: int| 0 <= t < a.tile_data@.len()
        implies a.tile_data@[t] == b.tile_data@[t] by {
        assert(a.tile_data@[t] as int == tile_spec(samples[t]));
        assert(b.tile_data@[t] as int == tile_spec(samples[t]));
    }
    assert(a.tile_data@ =~= b.tile_data@);
}

/// Generate a procedural map from a seed and its per-tile noise
/// samples: a convenience wrapper that names the map after its seed.
pub fn generate_procedural_map(seed: u32, width: u32, height: u32, samples: &Vec<TileSample>)
    -> (r: MapData)
    requires
        1 <= width <= 512,
        1 <= height <= 512,
        samples@.len() == width * height,
        forall|t: int| 0 <= t < samples@.len() ==> (#[trigger] samples@[t]).wf(),
    ensures
        r.wf(),
        r.width == width,
        r.height == height,
        forall|t: int| 0 <= t < width * height
            ==> #[trigger] r.tile_data@[t] as int == tile_spec(samples@[t]),
        ({
            let objs = gen_objects_spec(seed as u64, samples@, width as int,
                (width * height) as int);
            &&& r.objects@.len() == objs.len()
            &&& forall|k: int| 0 <= k < objs.len()
                ==> (#[trigger] r.objects@[k]).object_type@ == objs[k].0
                    && r.objects@[k].x == objs[k].1 * 32
                    && r.objects@[k].y == objs[k].2 * 32
        }),
        ({
            let sps = gen_spawns_spec(samples@, width as int, (width * height) as int);
            if sps.len() > 0 {
                r.spawn_points@.len() == sps.len()
                    && forall|k: int| 0 <= k < sps.len()
                        ==> (#[trigger] r.spawn_points@[k]).x == sps[k].0 * 32
                            && r.spawn_points@[k].y == sps[k].1 * 32
            } else {
                r.spawn_points@.len() == 1
                    && r.spawn_points@[0].x == width * 16
                    && r.spawn_points@[0].y == height * 16
            }
        }),
{
    let mut map_id: String = "procedural_".to_string();
    str_append(&mut map_id, crate::config::decimal_of_u32(seed).as_str());
    let mut map_name: String = "Procedural World ".to_string();
    str_append(&mut map_name, crate::config::decimal_of_u32(seed).as_str());
    let config = GenerationConfig { seed, width, height, map_id, map_name };
    let mut generator = MapGenerator::new(seed);
    generator.generate(&config, samples)
}

} // verus!
