//! The chunked terrain store: the map cut into 32-by-32-tile chunks, the
//! shared terrain and feature tables, the needed-chunk computation for a
//! player position, and the load/unload diff against a client's loaded
//! set.

use vstd::prelude::*;
use crate::map_types::MapData;
use crate::text::str_eq;
use crate::units::POS_SCALE;

verus! {

/// Tiles along one edge of a chunk.
pub const CHUNK_SIZE: u32 = 32;

/// A player needs the chunks this many steps around its own.
pub const CHUNK_LOAD_RADIUS: i32 = 1;

/// One terrain tile kind.
#[derive(Debug, Clone)]
pub struct TerrainType {
    pub id: u32,
    pub terrain_type: String,
    pub walkable: bool,
    pub sprite_id: String,
}

/// One feature kind placeable on a tile.
#[derive(Debug, Clone)]
pub struct FeatureType {
    pub id: u32,
    pub feature_type: String,
    pub blocks_movement: bool,
    pub sprite_id: String,
}

/// A feature inside a chunk, at chunk-local tile coordinates.
#[derive(Debug, Clone, Copy, PartialEq, Eq, Structural)]
pub struct ChunkFeature {
    pub tile_x: u8,
    pub tile_y: u8,
    pub feature_id: u32,
}

/// One 32-by-32-tile patch of the map.
#[derive(Debug, Clone)]
pub struct Chunk {
    pub chunk_x: i32,
    pub chunk_y: i32,
    pub tiles: Vec<u32>,
    pub features: Vec<ChunkFeature>,
}

/// Ids of the terrain table, in order.
pub open spec fn terrain_id_spec(i: int) -> int {
    if i == 0 { 0 }
    else if i == 1 { 1 }
    else if i == 2 { 2 }
    else if i == 3 { 10 }
    else if i == 4 { 11 }
    else if i == 5 { 20 }
    else if i == 6 { 21 }
    else if i == 7 { 22 }
    else if i == 8 { 30 }
    else if i == 9 { 31 }
    else if i == 10 { 40 }
    else if i == 11 { 41 }
    else if i == 12 { 50 }
    else if i == 13 { 51 }
    else if i == 14 { 100 }
    else if i == 15 { 101 }
    else if i == 16 { 102 }
    else { 0 }
}

/// Walkability of the terrain table, in order.
pub open spec fn terrain_walkable_spec(i: int) -> bool {
    i != 14 && i != 15
}

/// Kind names of the terrain table, in order.
pub open spec fn terrain_name_spec(i: int) -> Seq<char> {
    if i == 0 { "grass_01"@ }
    else if i == 1 { "grass_02"@ }
    else if i == 2 { "grass_03"@ }
    else if i == 3 { "forest_floor_01"@ }
    else if i == 4 { "forest_floor_02"@ }
    else if i == 5 { "desert_sand_01"@ }
    else if i == 6 { "desert_sand_02"@ }
    else if i == 7 { "desert_sand_03"@ }
    else if i == 8 { "hills_grass"@ }
    else if i == 9 { "hills_dirt"@ }
    else if i == 10 { "mountain_rock_01"@ }
    else if i == 11 { "mountain_rock_02"@ }
    else if i == 12 { "snow_01"@ }
    else if i == 13 { "snow_02"@ }
    else if i == 14 { "deep_water"@ }
    else if i == 15 { "shallow_water"@ }
    else if i == 16 { "beach_sand"@ }
    else { ""@ }
}

/// Sprite ids of the terrain table, in order.
pub open spec fn terrain_sprite_spec(i: int) -> Seq<char> {
    if i == 0 { "grass_01"@ }
    else if i == 1 { "grass_02"@ }
    else if i == 2 { "grass_03"@ }
    else if i == 3 { "forest_floor_01"@ }
    else if i == 4 { "forest_floor_02"@ }
    else if i == 5 { "desert_sand_01"@ }
    else if i == 6 { "desert_sand_02"@ }
    else if i == 7 { "desert_sand_03"@ }
    else if i == 8 { "hills_grass"@ }
    else if i == 9 { "hills_dirt"@ }
    else if i == 10 { "mountain_rock_01"@ }
    else if i == 11 { "mountain_rock_02"@ }
    else if i == 12 { "snow_01"@ }
    else if i == 13 { "snow_02"@ }
    else if i == 14 { "water_deep"@ }
    else if i == 15 { "water_shallow"@ }
    else if i == 16 { "beach_sand"@ }
    else { ""@ }
}

/// The shared terrain table: the tile kinds every client knows.
pub fn build_terrain_index() -> (r: Vec<TerrainType>)
    ensures
        r@.len() == 17,
        forall|i: int| 0 <= i < 17
            ==> (#[trigger] r@[i]).id == terrain_id_spec(i)
                && r@[i].walkable == terrain_walkable_spec(i)
                && r@[i].terrain_type@ == terrain_name_spec(i)
                && r@[i].sprite_id@ == terrain_sprite_spec(i),
{
    let mut r: Vec<TerrainType> = Vec::new();
    r.push(TerrainType { id: 0, terrain_type: "grass_01".to_string(), walkable: true, sprite_id: "grass_01".to_string() });
    r.push(TerrainType { id: 1, terrain_type: "grass_02".to_string(), walkable: true, sprite_id: "grass_02".to_string() });
    r.push(TerrainType { id: 2, terrain_type: "grass_03".to_string(), walkable: true, sprite_id: "grass_03".to_string() });
    r.push(TerrainType { id: 10, terrain_type: "forest_floor_01".to_string(), walkable: true, sprite_id: "forest_floor_01".to_string() });
    r.push(TerrainType { id: 11, terrain_type: "forest_floor_02".to_string(), walkable: true, sprite_id: "forest_floor_02".to_string() });
    r.push(TerrainType { id: 20, terrain_type: "desert_sand_01".to_string(), walkable: true, sprite_id: "desert_sand_01".to_string() });
    r.push(TerrainType { id: 21, terrain_type: "desert_sand_02".to_string(), walkable: true, sprite_id: "desert_sand_02".to_string() });
    r.push(TerrainType { id: 22, terrain_type: "desert_sand_03".to_string(), walkable: true, sprite_id: "desert_sand_03".to_string() });
    r.push(TerrainType { id: 30, terrain_type: "hills_grass".to_string(), walkable: true, sprite_id: "hills_grass".to_string() });
    r.push(TerrainType { id: 31, terrain_type: "hills_dirt".to_string(), walkable: true, sprite_id: "hills_dirt".to_string() });
    r.push(TerrainType { id: 40, terrain_type: "mountain_rock_01".to_string(), walkable: true, sprite_id: "mountain_rock_01".to_string() });
    r.push(TerrainType { id: 41, terrain_type: "mountain_rock_02".to_string(), walkable: true, sprite_id: "mountain_rock_02".to_string() });
    r.push(TerrainType { id: 50, terrain_type: "snow_01".to_string(), walkable: true, sprite_id: "snow_01".to_string() });
    r.push(TerrainType { id: 51, terrain_type: "snow_02".to_string(), walkable: true, sprite_id: "snow_02".to_string() });
    r.push(TerrainType { id: 100, terrain_type: "deep_water".to_string(), walkable: false, sprite_id: "water_deep".to_string() });
    r.push(TerrainType { id: 101, terrain_type: "shallow_water".to_string(), walkable: false, sprite_id: "water_shallow".to_string() });
    r.push(TerrainType { id: 102, terrain_type: "beach_sand".to_string(), walkable: true, sprite_id: "beach_sand".to_string() });
    r
}

/// Ids of the feature table, in order: index `i` holds id `i + 1`.
pub open spec fn feature_id_spec(i: int) -> int {
    i + 1
}

/// The feature kinds of the feature table, in order.
pub open spec fn feature_name_spec(i: int) -> Seq<char> {
    if i == 0 { "tree_oak"@ }
    else if i == 1 { "bush_green"@ }
    else if i == 2 { "rock_small"@ }
    else if i == 3 { "rock_large"@ }
    else if i == 4 { "rock_boulder"@ }
    else if i == 5 { "cactus"@ }
    else if i == 6 { "dead_tree"@ }
    else if i == 7 { "rock_desert"@ }
    else if i == 8 { "bush_dry"@ }
    else { ""@ }
}

/// Whether each feature kind blocks movement; only the bushes do
/// not.
pub open spec fn feature_blocks_spec(i: int) -> bool {
    i != 1 && i != 8
}

/// The shared feature table: the object kinds every client knows.
pub fn build_feature_index() -> (r: Vec<FeatureType>)
    ensures
        r@.len() == 9,
        forall|i: int| 0 <= i < 9
            ==> (#[trigger] r@[i]).id == feature_id_spec(i)
                && r@[i].feature_type@ == feature_name_spec(i)
                && r@[i].sprite_id@ == feature_name_spec(i)
                && r@[i].blocks_movement == feature_blocks_spec(i),
{
    let mut r: Vec<FeatureType> = Vec::new();
    r.push(FeatureType { id: 1, feature_type: "tree_oak".to_string(), blocks_movement: true, sprite_id: "tree_oak".to_string() });
    r.push(FeatureType { id: 2, feature_type: "bush_green".to_string(), blocks_movement: false, sprite_id: "bush_green".to_string() });
    r.push(FeatureType { id: 3, feature_type: "rock_small".to_string(), blocks_movement: true, sprite_id: "rock_small".to_string() });
    r.push(FeatureType { id: 4, feature_type: "rock_large".to_string(), blocks_movement: true, sprite_id: "rock_large".to_string() });
    r.push(FeatureType { id: 5, feature_type: "rock_boulder".to_string(), blocks_movement: true, sprite_id: "rock_boulder".to_string() });
    r.push(FeatureType { id: 6, feature_type: "cactus".to_string(), blocks_movement: true, sprite_id: "cactus".to_string() });
    r.push(FeatureType { id: 7, feature_type: "dead_tree".to_string(), blocks_movement: true, sprite_id: "dead_tree".to_string() });
    r.push(FeatureType { id: 8, feature_type: "rock_desert".to_string(), blocks_movement: true, sprite_id: "rock_desert".to_string() });
    r.push(FeatureType { id: 9, feature_type: "bush_dry".to_string(), blocks_movement: false, sprite_id: "bush_dry".to_string() });
    r
}

/// The chunk grid coordinate of a world coordinate: its tile index,
/// then 32 tiles to a chunk.
pub open spec fn chunk_coord_spec(v: int, tile_size: int) -> int {
    (v / (tile_size * POS_SCALE)) / 32
}

/// The chunk holding the world position `(world_x, world_y)` (in
/// position units), for square tiles of `tile_size` pixels.
pub fn world_to_chunk(world_x: i64, world_y: i64, tile_size: u32) -> (r: (i32, i32))
    requires
        0 <= world_x <= 0x3fff_ffff_ffff,
        0 <= world_y <= 0x3fff_ffff_ffff,
        1 <= tile_size <= 256,
    ensures
        r.0 == chunk_coord_spec(world_x as int, tile_size as int),
        r.1 == chunk_coord_spec(world_y as int, tile_size as int),
        r.0 >= 0 && r.1 >= 0,
{
    let tile_units: i64 = (tile_size as i64) * POS_SCALE;
    proof {
        lemma_coord_div_bound(world_x as int, tile_units as int);
        lemma_coord_div_bound(world_y as int, tile_units as int);
    }
    let tx: i64 = world_x / tile_units;
    let ty: i64 = world_y / tile_units;
    proof {
        vstd::arithmetic::div_mod::lemma_div_pos_is_pos(tx as int, 32);
        vstd::arithmetic::div_mod::lemma_div_pos_is_pos(ty as int, 32);
        vstd::arithmetic::div_mod::lemma_div_is_ordered(tx as int, 0x7fff_ffff, 32);
        vstd::arithmetic::div_mod::lemma_div_is_ordered(ty as int, 0x7fff_ffff, 32);
    }
    ((tx / 32) as i32, (ty / 32) as i32)
}

/// Dividing a bounded coordinate by at least one pixel of units keeps it
/// small and nonnegative.
proof fn lemma_coord_div_bound(x: int, d: int)
    requires
        0 <= x <= 0x3fff_ffff_ffff,
        60000 <= d,
    ensures
        0 <= x / d <= 0x7fff_ffff,
{
    vstd::arithmetic::div_mod::lemma_div_pos_is_pos(x, d);
    vstd::arithmetic::div_mod::lemma_fundamental_div_mod(x, d);
    vstd::arithmetic::div_mod::lemma_mod_bound(x, d);
    let q = x / d;
    assert(q * d <= x) by (nonlinear_arith)
        requires x == d * q + x % d, x % d >= 0;
    assert(q <= 0x7fff_ffff) by (nonlinear_arith)
        requires q * d <= x, x <= 0x3fff_ffff_ffff, d >= 60000, q >= 0;
}

/// The world position (in position units) of the top-left corner of a
/// chunk.
pub fn chunk_to_world(chunk_x: i32, chunk_y: i32, tile_size: u32) -> (r: (i64, i64))
    requires
        0 <= chunk_x <= 0xffff,
        0 <= chunk_y <= 0xffff,
        1 <= tile_size <= 256,
    ensures
        r.0 == chunk_x * 32 * tile_size * POS_SCALE,
        r.1 == chunk_y * 32 * tile_size * POS_SCALE,
{
    proof {
        assert((chunk_x as int) * 32 * (tile_size as int) * POS_SCALE
            <= 0xffff * 32 * 256 * 60000
            && (chunk_x as int) * 32 * (tile_size as int) * POS_SCALE >= 0)
            by (nonlinear_arith)
            requires 0 <= chunk_x <= 0xffff, 1 <= tile_size <= 256;
        assert((chunk_y as int) * 32 * (tile_size as int) * POS_SCALE
            <= 0xffff * 32 * 256 * 60000
            && (chunk_y as int) * 32 * (tile_size as int) * POS_SCALE >= 0)
            by (nonlinear_arith)
            requires 0 <= chunk_y <= 0xffff, 1 <= tile_size <= 256;
    }
    ((chunk_x as i64) * 32 * (tile_size as i64) * POS_SCALE,
     (chunk_y as i64) * 32 * (tile_size as i64) * POS_SCALE)
}

/// The tile the map shows at local tile `(lx, ly)` of chunk `(cx, cy)`:
/// the map's tile there, or zero beyond the map edge.
pub open spec fn chunk_tile_spec(map: MapData, cx: int, cy: int, lx: int, ly: int) -> int {
    let wx = cx * 32 + lx;
    let wy = cy * 32 + ly;
    if wx < map.width && wy < map.height {
        map.tile_data@[wy * map.width + wx] as int
    } else {
        0
    }
}

/// The whole map, cut into chunks, with the shared terrain and feature
/// tables.
pub struct ChunkSystem {
    pub map_width_chunks: u32,
    pub map_height_chunks: u32,
    pub terrain_index: Vec<TerrainType>,
    pub feature_index: Vec<FeatureType>,
    pub chunks: Vec<Chunk>,
}

impl ChunkSystem {
    /// The chunk stored for grid coordinate `(cx, cy)`.
    pub open spec fn chunk_at(self, cx: int, cy: int) -> Chunk {
        self.chunks@[cy * self.map_width_chunks + cx]
    }

    /// Shape invariant: the chunk list is the dense row-major grid, each
    /// chunk carries its own coordinates and exactly 1024 tiles, and
    /// every feature sits at a local tile.
    pub open spec fn wf(self) -> bool {
        &&& 1 <= self.map_width_chunks <= 16
        &&& 1 <= self.map_height_chunks <= 16
        &&& self.chunks@.len() == self.map_width_chunks * self.map_height_chunks
        &&& forall|cx: int, cy: int|
            0 <= cx < self.map_width_chunks && 0 <= cy < self.map_height_chunks
            ==> (#[trigger] self.chunk_at(cx, cy)).chunk_x == cx
                && self.chunk_at(cx, cy).chunk_y == cy
                && self.chunk_at(cx, cy).tiles@.len() == 1024
                && (forall|f: int| 0 <= f < self.chunk_at(cx, cy).features@.len()
                    ==> (#[trigger] self.chunk_at(cx, cy).features@[f]).tile_x < 32
                        && self.chunk_at(cx, cy).features@[f].tile_y < 32)
    }

    /// The chunks hold exactly the tiles of `map`.
    pub open spec fn tiles_match(self, map: MapData) -> bool {
        forall|cx: int, cy: int, lx: int, ly: int|
            0 <= cx < self.map_width_chunks && 0 <= cy < self.map_height_chunks
                && 0 <= lx < 32 && 0 <= ly < 32
            ==> #[trigger] self.chunk_at(cx, cy).tiles@[ly * 32 + lx] as int
                == chunk_tile_spec(map, cx, cy, lx, ly)
    }

    /// Cut `map` into its chunk grid.
    pub fn from_map_data(map: &MapData) -> (r: ChunkSystem)
        requires
            map.wf(),
        ensures
            r.wf(),
            r.tiles_match(*map),
            r.map_width_chunks == (map.width + 31) / 32,
            r.map_height_chunks == (map.height + 31) / 32,
    {
        let map_width_chunks: u32 = (map.width + CHUNK_SIZE - 1) / CHUNK_SIZE;
        let map_height_chunks: u32 = (map.height + CHUNK_SIZE - 1) / CHUNK_SIZE;
        proof {
            vstd::arithmetic::div_mod::lemma_div_is_ordered(32, map.width + 31, 32);
            vstd::arithmetic::div_mod::lemma_div_is_ordered(map.width + 31, 543, 32);
            vstd::arithmetic::div_mod::lemma_div_is_ordered(32, map.height + 31, 32);
            vstd::arithmetic::div_mod::lemma_div_is_ordered(map.height + 31, 543, 32);
            assert(1 <= map_width_chunks <= 16);
            assert(1 <= map_height_chunks <= 16);
        }
        let terrain_index = build_terrain_index();
        let feature_index = build_feature_index();
        let mut chunks: Vec<Chunk> = Vec::new();
        let mut cy: u32 = 0;
        while cy < map_height_chunks
            invariant
                map.wf(),
                1 <= map_width_chunks <= 16,
                1 <= map_height_chunks <= 16,
                map_width_chunks == ((map.width + 31) as int) / 32,
                map_height_chunks == ((map.height + 31) as int) / 32,
                0 <= cy <= map_height_chunks,
                chunks@.len() == cy * map_width_chunks,
                forall|ax: int, ay: int| 0 <= ax < map_width_chunks && 0 <= ay < cy
                    ==> chunk_grid_ok(chunks@, *map, map_width_chunks as int, ax, ay),
            decreases map_height_chunks - cy,
        {
            let mut cx: u32 = 0;
            while cx < map_width_chunks
                invariant
                    map.wf(),
                    1 <= map_width_chunks <= 16,
                    1 <= map_height_chunks <= 16,
                    0 <= cy < map_height_chunks,
                    0 <= cx <= map_width_chunks,
                    chunks@.len() == cy * map_width_chunks + cx,
                    forall|ax: int, ay: int| 0 <= ax < map_width_chunks && 0 <= ay < cy
                        ==> chunk_grid_ok(chunks@, *map, map_width_chunks as int, ax, ay),
                    forall|ax: int| 0 <= ax < cx
                        ==> chunk_grid_ok(chunks@, *map, map_width_chunks as int, ax, cy as int),
                decreases map_width_chunks - cx,
            {
                let chunk = create_chunk(map, cx as i32, cy as i32, &feature_index);
                let ghost pre = chunks@;
                chunks.push(chunk);
                proof {
                    assert forall|ax: int, ay: int|
                        0 <= ax < map_width_chunks && 0 <= ay < cy
                        implies chunk_grid_ok(chunks@, *map, map_width_chunks as int, ax, ay) by {
                        assert(ay * map_width_chunks + ax < cy * map_width_chunks)
                            by (nonlinear_arith)
                            requires
                                0 <= ax < map_width_chunks,
                                0 <= ay < cy,
                                map_width_chunks >= 1;
                        assert(chunks@[ay * map_width_chunks as int + ax]
                            == pre[ay * map_width_chunks as int + ax]);
                        assert(chunk_grid_ok(pre, *map, map_width_chunks as int, ax, ay));
                    }
                    assert forall|ax: int| 0 <= ax < cx + 1
                        implies chunk_grid_ok(chunks@, *map, map_width_chunks as int, ax, cy as int)
                        by {
                        if ax < cx {
                            assert(chunk_grid_ok(pre, *map, map_width_chunks as int, ax, cy as int));
                            assert(chunks@[cy as int * map_width_chunks as int + ax]
                                == pre[cy as int * map_width_chunks as int + ax]);
                        } else {
                            assert(chunks@[cy as int * map_width_chunks as int + ax] == chunk);
                        }
                    }
                }
                cx = cx + 1;
            }
            proof {
                assert((cy + 1) * map_width_chunks == cy * map_width_chunks + map_width_chunks)
                    by (nonlinear_arith);
            }
            cy = cy + 1;
        }
        let r = ChunkSystem {
            map_width_chunks,
            map_height_chunks,
            terrain_index,
            feature_index,
            chunks,
        };
        proof {
            assert(r.chunks@.len() == map_width_chunks * map_height_chunks) by (nonlinear_arith)
                requires r.chunks@.len() == map_height_chunks * map_width_chunks;
            assert forall|cx: int, cy2: int|
                0 <= cx < map_width_chunks && 0 <= cy2 < map_height_chunks
                implies (#[trigger] r.chunk_at(cx, cy2)).chunk_x == cx
                    && r.chunk_at(cx, cy2).chunk_y == cy2
                    && r.chunk_at(cx, cy2).tiles@.len() == 1024
                    && (forall|f: int| 0 <= f < r.chunk_at(cx, cy2).features@.len()
                        ==> (#[trigger] r.chunk_at(cx, cy2).features@[f]).tile_x < 32
                            && r.chunk_at(cx, cy2).features@[f].tile_y < 32)
                    && (forall|lx: int, ly: int| 0 <= lx < 32 && 0 <= ly < 32
                        ==> #[trigger] r.chunk_at(cx, cy2).tiles@[ly * 32 + lx] as int
                            == chunk_tile_spec(*map, cx, cy2, lx, ly)) by {
                assert(chunk_grid_ok(chunks@, *map, map_width_chunks as int, cx, cy2));
            }
            assert forall|cx: int, cy2: int, lx: int, ly: int|
                0 <= cx < r.map_width_chunks && 0 <= cy2 < r.map_height_chunks
                    && 0 <= lx < 32 && 0 <= ly < 32
                implies #[trigger] r.chunk_at(cx, cy2).tiles@[ly * 32 + lx] as int
                    == chunk_tile_spec(*map, cx, cy2, lx, ly) by {
                assert(chunk_grid_ok(chunks@, *map, map_width_chunks as int, cx, cy2));
            }
        }
        r
    }

    /// The chunk coordinates a player at `(world_x, world_y)` (position
    /// units) needs: the three-by-three window around its chunk, clipped
    /// to the grid, with no coordinate listed twice.
    pub fn get_chunks_for_position(&self, world_x: i64, world_y: i64) -> (r: Vec<(i32, i32)>)
        requires
            self.wf(),
            0 <= world_x <= 0x3fff_ffff_ffff,
            0 <= world_y <= 0x3fff_ffff_ffff,
        ensures
            forall|p: (i32, i32)| #[trigger] r@.contains(p)
                <==> needed_chunk(*self, world_x as int, world_y as int, p),
            forall|i: int, j: int| 0 <= i < j < r@.len() ==> r@[i] != r@[j],
    {
        let (center_cx, center_cy) = world_to_chunk(world_x, world_y, 32);
        let mut r: Vec<(i32, i32)> = Vec::new();
        let mut dy: i32 = 0;
        while dy < 3
            invariant
                self.wf(),
                center_cx == chunk_coord_spec(world_x as int, 32),
                center_cy == chunk_coord_spec(world_y as int, 32),
                0 <= center_cx,
                0 <= center_cy,
                0 <= dy <= 3,
                forall|p: (i32, i32)| #[trigger] r@.contains(p)
                    <==> needed_chunk(*self, world_x as int, world_y as int, p)
                        && p.1 - (center_cy - 1) < dy,
                forall|i: int, j: int| 0 <= i < j < r@.len() ==> r@[i] != r@[j],
            decreases 3 - dy,
        {
            let mut dx: i32 = 0;
            while dx < 3
                invariant
                    self.wf(),
                    center_cx == chunk_coord_spec(world_x as int, 32),
                    center_cy == chunk_coord_spec(world_y as int, 32),
                    0 <= center_cx,
                    0 <= center_cy,
                    0 <= dy < 3,
                    0 <= dx <= 3,
                    forall|p: (i32, i32)| #[trigger] r@.contains(p)
                        <==> needed_chunk(*self, world_x as int, world_y as int, p)
                            && (p.1 - (center_cy - 1) < dy
                                || (p.1 - (center_cy - 1) == dy && p.0 - (center_cx - 1) < dx)),
                    forall|i: int, j: int| 0 <= i < j < r@.len() ==> r@[i] != r@[j],
                decreases 3 - dx,
            {
                let cx_i64: i64 = (center_cx as i64) + (dx as i64) - 1;
                let cy_i64: i64 = (center_cy as i64) + (dy as i64) - 1;
                if cx_i64 >= 0 && cy_i64 >= 0
                    && cx_i64 < self.map_width_chunks as i64
                    && cy_i64 < self.map_height_chunks as i64 {
                    let p: (i32, i32) = (cx_i64 as i32, cy_i64 as i32);
                    let ghost pre = r@;
                    proof {
                        assert(!pre.contains(p));
                    }
                    r.push(p);
                    proof {
                        assert forall|q: (i32, i32)| true
                            implies (#[trigger] r@.contains(q) <==> (pre.contains(q) || q == p))
                            by {
                            lemma_push_contains_pub(pre, p, q);
                        }
                    }
                }
                dx = dx + 1;
            }
            dy = dy + 1;
        }
        r
    }

    /// Borrow the chunk at `(chunk_x, chunk_y)`, if it lies on the grid.
    pub fn get_chunk(&self, chunk_x: i32, chunk_y: i32) -> (r: Option<&Chunk>)
        requires
            self.wf(),
        ensures
            (0 <= chunk_x < self.map_width_chunks && 0 <= chunk_y < self.map_height_chunks)
                ==> r == Some(&self.chunk_at(chunk_x as int, chunk_y as int)),
            !(0 <= chunk_x < self.map_width_chunks && 0 <= chunk_y < self.map_height_chunks)
                ==> r is None,
    {
        if chunk_x >= 0 && chunk_y >= 0
            && (chunk_x as u32) < self.map_width_chunks
            && (chunk_y as u32) < self.map_height_chunks {
            proof {
                assert((chunk_y as int) * (self.map_width_chunks as int) + chunk_x
                    < self.chunks@.len()
                    && 0 <= (chunk_y as int) * (self.map_width_chunks as int) <= 256)
                    by (nonlinear_arith)
                    requires
                        0 <= chunk_x < self.map_width_chunks,
                        0 <= chunk_y < self.map_height_chunks,
                        self.map_width_chunks <= 16,
                        self.map_height_chunks <= 16,
                        self.chunks@.len()
                            == self.map_width_chunks * self.map_height_chunks;
            }
            let idx: usize = (chunk_y as usize) * (self.map_width_chunks as usize)
                + (chunk_x as usize);
            Some(&self.chunks[idx])
        } else {
            None
        }
    }
}

/// Membership in a pushed sequence: the new element, or an old member.
pub proof fn lemma_push_contains_pub<A>(s: Seq<A>, x: A, q: A)
    ensures
        s.push(x).contains(q) <==> (s.contains(q) || q == x),
{
    if s.push(x).contains(q) {
        let i = choose|i: int| 0 <= i < s.push(x).len() && s.push(x)[i] == q;
        if i < s.len() {
            assert(s[i] == q);
        } else {
            assert(q == x);
        }
    }
    if s.contains(q) {
        let i = choose|i: int| 0 <= i < s.len() && s[i] == q;
        assert(s.push(x)[i] == q);
    }
    if q == x {
        assert(s.push(x)[s.len() as int] == q);
    }
}

/// Chunk `(ax, ay)` of the grid is stored correctly in `chunks`.
pub open spec fn chunk_grid_ok(
    chunks: Seq<Chunk>, map: MapData, width_chunks: int, ax: int, ay: int) -> bool {
    let c = chunks[ay * width_chunks + ax];
    &&& 0 <= ay * width_chunks + ax < chunks.len()
    &&& c.chunk_x == ax
    &&& c.chunk_y == ay
    &&& c.tiles@.len() == 1024
    &&& forall|f: int| 0 <= f < c.features@.len()
        ==> (#[trigger] c.features@[f]).tile_x < 32 && c.features@[f].tile_y < 32
    &&& forall|lx: int, ly: int| 0 <= lx < 32 && 0 <= ly < 32
        ==> #[trigger] c.tiles@[ly * 32 + lx] as int == chunk_tile_spec(map, ax, ay, lx, ly)
}

/// Chunk coordinate `p` is needed by a player at `(x, y)`: within one
/// step of the player's chunk and on the grid.
pub open spec fn needed_chunk(sys: ChunkSystem, x: int, y: int, p: (i32, i32)) -> bool {
    let cx = chunk_coord_spec(x, 32);
    let cy = chunk_coord_spec(y, 32);
    &&& cx - 1 <= p.0 <= cx + 1
    &&& cy - 1 <= p.1 <= cy + 1
    &&& 0 <= p.0 < sys.map_width_chunks
    &&& 0 <= p.1 < sys.map_height_chunks
}

/// Build one chunk of the grid: its 1024 tiles from the map, and the
/// features of the map objects standing inside it.
fn create_chunk(map: &MapData, chunk_x: i32, chunk_y: i32, feature_index: &Vec<FeatureType>)
    -> (r: Chunk)
    requires
        map.wf(),
        0 <= chunk_x <= 16,
        0 <= chunk_y <= 16,
    ensures
        r.chunk_x == chunk_x,
        r.chunk_y == chunk_y,
        r.tiles@.len() == 1024,
        forall|lx: int, ly: int| 0 <= lx < 32 && 0 <= ly < 32
            ==> #[trigger] r.tiles@[ly * 32 + lx] as int
                == chunk_tile_spec(*map, chunk_x as int, chunk_y as int, lx, ly),
        forall|f: int| 0 <= f < r.features@.len()
            ==> (#[trigger] r.features@[f]).tile_x < 32 && r.features@[f].tile_y < 32,
{
    let mut tiles: Vec<u32> = Vec::new();
    let mut ly: u32 = 0;
    while ly < 32
        invariant
            map.wf(),
            0 <= chunk_x <= 16,
            0 <= chunk_y <= 16,
            0 <= ly <= 32,
            tiles@.len() == ly * 32,
            forall|ax: int, ay: int| 0 <= ax < 32 && 0 <= ay < ly
                ==> #[trigger] tiles@[ay * 32 + ax] as int
                    == chunk_tile_spec(*map, chunk_x as int, chunk_y as int, ax, ay),
        decreases 32 - ly,
    {
        let mut lx: u32 = 0;
        while lx < 32
            invariant
                map.wf(),
                0 <= chunk_x <= 16,
                0 <= chunk_y <= 16,
                0 <= ly < 32,
                0 <= lx <= 32,
                tiles@.len() == ly * 32 + lx,
                forall|ax: int, ay: int| 0 <= ax < 32 && 0 <= ay < ly
                    ==> #[trigger] tiles@[ay * 32 + ax] as int
                        == chunk_tile_spec(*map, chunk_x as int, chunk_y as int, ax, ay),
                forall|ax: int| 0 <= ax < lx
                    ==> #[trigger] tiles@[ly * 32 + ax] as int
                        == chunk_tile_spec(*map, chunk_x as int, chunk_y as int, ax, ly as int),
            decreases 32 - lx,
        {
            let world_x: u64 = (chunk_x as u64) * 32 + (lx as u64);
            let world_y: u64 = (chunk_y as u64) * 32 + (ly as u64);
            if world_x < map.width as u64 && world_y < map.height as u64 {
                proof {
                    assert(world_y * map.width + world_x < 0x8_0000) by (nonlinear_arith)
                        requires 0 <= world_y < 512, 0 <= world_x < 512, map.width <= 512;
                }
                let tile_index: usize = (world_y as usize) * (map.width as usize)
                    + (world_x as usize);
                proof {
                    assert(tile_index < map.tile_data@.len()) by (nonlinear_arith)
                        requires
                            tile_index == world_y * map.width + world_x,
                            0 <= world_x < map.width,
                            0 <= world_y < map.height,
                            map.tile_data@.len() == map.width * map.height;
                }
                tiles.push(map.tile_data[tile_index]);
            } else {
                tiles.push(0);
            }
            lx = lx + 1;
        }
        proof {
            assert((ly + 1) * 32 == ly * 32 + 32) by (nonlinear_arith);
        }
        ly = ly + 1;
    }
    let mut features: Vec<ChunkFeature> = Vec::new();
    let mut oi: usize = 0;
    while oi < map.objects.len()
        invariant
            map.wf(),
            0 <= chunk_x <= 16,
            0 <= chunk_y <= 16,
            0 <= oi <= map.objects@.len(),
            forall|f: int| 0 <= f < features@.len()
                ==> (#[trigger] features@[f]).tile_x < 32 && features@[f].tile_y < 32,
        decreases map.objects@.len() - oi,
    {
        let obj = &map.objects[oi];
        let obj_tile_x: i64 = obj.x / 32;
        let obj_tile_y: i64 = obj.y / 32;
        proof {
            vstd::arithmetic::div_mod::lemma_div_pos_is_pos(obj.x as int, 32);
            vstd::arithmetic::div_mod::lemma_div_pos_is_pos(obj.y as int, 32);
            vstd::arithmetic::div_mod::lemma_div_is_ordered(obj.x as int, 512int * 32, 32);
            vstd::arithmetic::div_mod::lemma_div_is_ordered(obj.y as int, 512int * 32, 32);
        }
        let obj_chunk_x: i64 = obj_tile_x / 32;
        let obj_chunk_y: i64 = obj_tile_y / 32;
        proof {
            vstd::arithmetic::div_mod::lemma_div_pos_is_pos(obj_tile_x as int, 32);
            vstd::arithmetic::div_mod::lemma_div_pos_is_pos(obj_tile_y as int, 32);
        }
        if obj_chunk_x == chunk_x as i64 && obj_chunk_y == chunk_y as i64 {
            let local_x: i64 = obj_tile_x % 32;
            let local_y: i64 = obj_tile_y % 32;
            proof {
                vstd::arithmetic::div_mod::lemma_mod_bound(obj_tile_x as int, 32);
                vstd::arithmetic::div_mod::lemma_mod_bound(obj_tile_y as int, 32);
            }
            let mut fi: usize = 0;
            let mut found: Option<u32> = None;
            while fi < feature_index.len()
                invariant
                    0 <= fi <= feature_index@.len(),
                decreases feature_index@.len() - fi,
            {
                if found.is_none()
                    && str_eq(feature_index[fi].feature_type.as_str(), obj.object_type.as_str()) {
                    found = Some(feature_index[fi].id);
                }
                fi = fi + 1;
            }
            match found {
                Some(fid) => {
                    features.push(ChunkFeature {
                        tile_x: local_x as u8,
                        tile_y: local_y as u8,
                        feature_id: fid,
                    });
                }
                None => {}
            }
        }
        oi = oi + 1;
    }
    Chunk { chunk_x, chunk_y, tiles, features }
}

/// The chunk diff for one player: what to send and what to retract.
#[derive(Debug, Clone)]
pub struct ChunkUpdate {
    pub to_load: Vec<(i32, i32)>,
    pub to_unload: Vec<(i32, i32)>,
}

impl Default for ChunkUpdate {
    /// An empty diff.
    fn default() -> (r: Self)
        ensures
            r.to_load@.len() == 0,
            r.to_unload@.len() == 0,
    {
        ChunkUpdate { to_load: Vec::new(), to_unload: Vec::new() }
    }
}

/// Whether `v` holds the pair `p`.
fn pair_in(v: &Vec<(i32, i32)>, p: (i32, i32)) -> (r: bool)
    ensures
        r == v@.contains(p),
{
    let mut i: usize = 0;
    while i < v.len()
        invariant
            0 <= i <= v@.len(),
            forall|k: int| 0 <= k < i ==> v@[k] != p,
        decreases v@.len() - i,
    {
        let q: (i32, i32) = v[i];
        if q.0 == p.0 && q.1 == p.1 {
            return true;
        }
        i = i + 1;
    }
    assert(!v@.contains(p));
    false
}

/// The chunk diff: what the player must newly load — the needed chunks
/// not yet loaded — and what it must unload — the loaded chunks no
/// longer needed.
pub fn calculate_chunk_update(current_chunks: &Vec<(i32, i32)>, needed_chunks: &Vec<(i32, i32)>)
    -> (r: ChunkUpdate)
    ensures
        forall|p: (i32, i32)| #[trigger] r.to_load@.contains(p)
            <==> needed_chunks@.contains(p) && !current_chunks@.contains(p),
        forall|p: (i32, i32)| #[trigger] r.to_unload@.contains(p)
            <==> current_chunks@.contains(p) && !needed_chunks@.contains(p),
        forall|i: int| 0 <= i < r.to_load@.len()
            ==> needed_chunks@.contains(#[trigger] r.to_load@[i]),
        forall|i: int| 0 <= i < r.to_unload@.len()
            ==> current_chunks@.contains(#[trigger] r.to_unload@[i]),
        forall|i: int, j: int| 0 <= i < j < r.to_load@.len()
            ==> r.to_load@[i] != r.to_load@[j],
        forall|i: int, j: int| 0 <= i < j < r.to_unload@.len()
            ==> r.to_unload@[i] != r.to_unload@[j],
{
    let mut to_load: Vec<(i32, i32)> = Vec::new();
    let mut i: usize = 0;
    while i < needed_chunks.len()
        invariant
            0 <= i <= needed_chunks@.len(),
            forall|p: (i32, i32)| #[trigger] to_load@.contains(p)
                <==> exists|k: int| 0 <= k < i && needed_chunks@[k] == p
                    && !current_chunks@.contains(p),
            forall|a: int, b: int| 0 <= a < b < to_load@.len()
                ==> to_load@[a] != to_load@[b],
        decreases needed_chunks@.len() - i,
    {
        let p: (i32, i32) = needed_chunks[i];
        if !pair_in(current_chunks, p) && !pair_in(&to_load, p) {
            let ghost pre = to_load@;
            to_load.push(p);
            proof {
                assert forall|q: (i32, i32)| true
                    implies (#[trigger] to_load@.contains(q) <==> (pre.contains(q) || q == p))
                    by {
                    lemma_push_contains_pub(pre, p, q);
                }
                assert(needed_chunks@[i as int] == p);
                assert forall|a: int, b: int| 0 <= a < b < to_load@.len()
                    implies to_load@[a] != to_load@[b] by {
                    if b == to_load@.len() - 1 {
                        assert(to_load@[a] == pre[a]);
                        assert(pre.contains(pre[a]));
                    } else {
                        assert(to_load@[a] == pre[a] && to_load@[b] == pre[b]);
                    }
                }
            }
        }
        i = i + 1;
    }
    let mut to_unload: Vec<(i32, i32)> = Vec::new();
    let mut j: usize = 0;
    while j < current_chunks.len()
        invariant
            0 <= j <= current_chunks@.len(),
            forall|p: (i32, i32)| #[trigger] to_load@.contains(p)
                <==> needed_chunks@.contains(p) && !current_chunks@.contains(p),
            forall|p: (i32, i32)| #[trigger] to_unload@.contains(p)
                <==> exists|k: int| 0 <= k < j && current_chunks@[k] == p
                    && !needed_chunks@.contains(p),
            forall|a: int, b: int| 0 <= a < b < to_unload@.len()
                ==> to_unload@[a] != to_unload@[b],
        decreases current_chunks@.len() - j,
    {
        let p: (i32, i32) = current_chunks[j];
        if !pair_in(needed_chunks, p) && !pair_in(&to_unload, p) {
            let ghost pre = to_unload@;
            to_unload.push(p);
            proof {
                assert forall|q: (i32, i32)| true
                    implies (#[trigger] to_unload@.contains(q) <==> (pre.contains(q) || q == p))
                    by {
                    lemma_push_contains_pub(pre, p, q);
                }
                assert(current_chunks@[j as int] == p);
                assert forall|a: int, b: int| 0 <= a < b < to_unload@.len()
                    implies to_unload@[a] != to_unload@[b] by {
                    if b == to_unload@.len() - 1 {
                        assert(to_unload@[a] == pre[a]);
                        assert(pre.contains(pre[a]));
                    } else {
                        assert(to_unload@[a] == pre[a] && to_unload@[b] == pre[b]);
                    }
                }
            }
        }
        j = j + 1;
    }
    proof {
        assert forall|p: (i32, i32)|
            needed_chunks@.contains(p) && !current_chunks@.contains(p)
            implies #[trigger] to_load@.contains(p) by {
            let k = choose|k: int| 0 <= k < needed_chunks@.len() && needed_chunks@[k] == p;
            assert(0 <= k < needed_chunks@.len() && needed_chunks@[k] == p
                && !current_chunks@.contains(p));
        }
        assert forall|p: (i32, i32)| #[trigger] to_load@.contains(p)
            implies needed_chunks@.contains(p) && !current_chunks@.contains(p) by {
            let k = choose|k: int| 0 <= k < needed_chunks@.len() && needed_chunks@[k] == p
                && !current_chunks@.contains(p);
            assert(needed_chunks@[k] == p);
        }
        assert forall|p: (i32, i32)|
            current_chunks@.contains(p) && !needed_chunks@.contains(p)
            implies #[trigger] to_unload@.contains(p) by {
            let k = choose|k: int| 0 <= k < current_chunks@.len() && current_chunks@[k] == p;
            assert(0 <= k < current_chunks@.len() && current_chunks@[k] == p
                && !needed_chunks@.contains(p));
        }
        assert forall|p: (i32, i32)| #[trigger] to_unload@.contains(p)
            implies current_chunks@.contains(p) && !needed_chunks@.contains(p) by {
            let k = choose|k: int| 0 <= k < current_chunks@.len() && current_chunks@[k] == p
                && !needed_chunks@.contains(p);
            assert(current_chunks@[k] == p);
        }
    }
    proof {
        assert forall|i: int| 0 <= i < to_load@.len()
            implies needed_chunks@.contains(#[trigger] to_load@[i]) by {
            assert(to_load@.contains(to_load@[i]));
        }
        assert forall|i: int| 0 <= i < to_unload@.len()
            implies current_chunks@.contains(#[trigger] to_unload@[i]) by {
            assert(to_unload@.contains(to_unload@[i]));
        }
    }
    ChunkUpdate { to_load, to_unload }
}

/// Applying a chunk diff restores the needed set: loading `to_load` and
/// then unloading `to_unload` turns the loaded set into exactly the
/// needed set — so running the diff again against the same needed set
/// finds nothing left to do.
pub proof fn lemma_chunk_diff_restores(loaded: Set<(i32, i32)>, needed: Set<(i32, i32)>)
    ensures
        loaded.union(needed.difference(loaded)).difference(loaded.difference(needed)) == needed,
        needed.difference(needed).is_empty(),
{
    broadcast use vstd::set_lib::group_set_properties;
    assert(loaded.union(needed.difference(loaded)).difference(loaded.difference(needed))
        =~= needed);
    assert(needed.difference(needed) =~= Set::<(i32, i32)>::empty());
}

} // verus!
