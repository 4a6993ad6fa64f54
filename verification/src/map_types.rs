//! The static map: dimensions, the row-major tile grid, player spawn
//! points and placed objects.  Object and spawn coordinates are in
//! pixels, as the map file states them.

use vstd::prelude::*;

verus! {

/// Largest map edge, in tiles.
pub const MAX_MAP_TILES: u32 = 512;

/// A point players can spawn at, in pixels.
#[derive(Debug, Clone, Copy, PartialEq, Eq, Structural)]
pub struct MapSpawnPoint {
    pub x: i64,
    pub y: i64,
}

/// An object placed in the map, at a pixel position.
#[derive(Debug, Clone)]
pub struct MapObject {
    pub id: String,
    pub x: i64,
    pub y: i64,
    pub object_type: String,
}

/// A loaded map: metadata, the tile grid, spawn points and objects.
#[derive(Debug, Clone)]
pub struct MapData {
    pub id: String,
    pub name: String,
    pub width: u32,
    pub height: u32,
    pub background_music: String,
    pub ambient_sound: String,
    pub tile_data: Vec<u32>,
    pub spawn_points: Vec<MapSpawnPoint>,
    pub objects: Vec<MapObject>,
}

impl MapData {
    /// A usable map: positive dimensions within the supported size, a
    /// full tile grid, and spawn points and objects within the pixel
    /// bounds.
    pub open spec fn wf(self) -> bool {
        &&& 0 < self.width <= MAX_MAP_TILES
        &&& 0 < self.height <= MAX_MAP_TILES
        &&& self.tile_data@.len() == self.width * self.height
        &&& forall|i: int| 0 <= i < self.spawn_points@.len()
            ==> 0 <= (#[trigger] self.spawn_points@[i]).x <= self.width * 32
                && 0 <= self.spawn_points@[i].y <= self.height * 32
        &&& forall|i: int| 0 <= i < self.objects@.len()
            ==> 0 <= (#[trigger] self.objects@[i]).x <= self.width * 32
                && 0 <= self.objects@[i].y <= self.height * 32
    }
}

} // verus!
