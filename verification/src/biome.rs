//! Biome selection for procedural maps, over fixed-point noise samples
//! in thousandths.

use vstd::prelude::*;

verus! {

#[derive(Debug, Clone, Copy, PartialEq, Eq, Structural, Hash)]
pub enum BiomeType {
    DeepWater,
    ShallowWater,
    Beach,
    Grassland,
    Forest,
    Desert,
    Hills,
    Mountains,
    SnowPeaks,
}

/// The noise samples a tile is judged by: elevation in
/// `[-1000, 1000]`, moisture and temperature in `[0, 1000]`, all in
/// thousandths.
#[derive(Debug, Clone, Copy, PartialEq, Eq, Structural)]
pub struct BiomeRules {
    pub elevation_milli: i32,
    pub moisture_milli: i32,
    pub temperature_milli: i32,
}

/// The biome of a tile: elevation bands first — water below, peaks
/// above — then moisture decides between beach, desert, forest and
/// grassland.
pub open spec fn biome_spec(elevation: int, moisture: int) -> BiomeType {
    if elevation < -300 {
        BiomeType::DeepWater
    } else if elevation < -100 {
        BiomeType::ShallowWater
    } else if elevation > 800 {
        BiomeType::SnowPeaks
    } else if elevation > 600 {
        BiomeType::Mountains
    } else if elevation > 300 {
        BiomeType::Hills
    } else if elevation < 50 && moisture > 300 {
        BiomeType::Beach
    } else if moisture < 300 {
        BiomeType::Desert
    } else if moisture > 600 {
        BiomeType::Forest
    } else {
        BiomeType::Grassland
    }
}

impl BiomeRules {
    /// The biome these samples select.
    pub fn determine_biome(&self) -> (r: BiomeType)
        ensures
            r == biome_spec(self.elevation_milli as int, self.moisture_milli as int),
    {
        if self.elevation_milli < -300 {
            return BiomeType::DeepWater;
        }
        if self.elevation_milli < -100 {
            return BiomeType::ShallowWater;
        }
        if self.elevation_milli > 800 {
            return BiomeType::SnowPeaks;
        }
        if self.elevation_milli > 600 {
            return BiomeType::Mountains;
        }
        if self.elevation_milli > 300 {
            return BiomeType::Hills;
        }
        if self.elevation_milli < 50 && self.moisture_milli > 300 {
            return BiomeType::Beach;
        }
        if self.moisture_milli < 300 {
            return BiomeType::Desert;
        }
        if self.moisture_milli > 600 {
            return BiomeType::Forest;
        }
        BiomeType::Grassland
    }
}

impl BiomeType {
    /// The biome's display name.
    pub fn name(&self) -> (r: &'static str)
        ensures
            *self is DeepWater ==> r@ == "Deep Water"@,
            *self is ShallowWater ==> r@ == "Shallow Water"@,
            *self is Beach ==> r@ == "Beach"@,
            *self is Grassland ==> r@ == "Grassland"@,
            *self is Forest ==> r@ == "Forest"@,
            *self is Desert ==> r@ == "Desert"@,
            *self is Hills ==> r@ == "Hills"@,
            *self is Mountains ==> r@ == "Mountains"@,
            *self is SnowPeaks ==> r@ == "Snow Peaks"@,
    {
        match self {
            BiomeType::DeepWater => "Deep Water",
            BiomeType::ShallowWater => "Shallow Water",
            BiomeType::Beach => "Beach",
            BiomeType::Grassland => "Grassland",
            BiomeType::Forest => "Forest",
            BiomeType::Desert => "Desert",
            BiomeType::Hills => "Hills",
            BiomeType::Mountains => "Mountains",
            BiomeType::SnowPeaks => "Snow Peaks",
        }
    }

    /// Whether entities can walk this biome; only water cannot be
    /// walked.
    pub fn is_walkable(&self) -> (r: bool)
        ensures
            r == !(*self is DeepWater || *self is ShallowWater),
    {
        match self {
            BiomeType::DeepWater | BiomeType::ShallowWater => false,
            _ => true,
        }
    }

    /// How densely features sprout in this biome, in thousandths.
    pub fn feature_density(&self) -> (r: u32)
        ensures
            r == feature_density_spec(*self),
    {
        match self {
            BiomeType::Forest => 150,
            BiomeType::Grassland => 50,
            BiomeType::Desert => 30,
            BiomeType::Hills => 80,
            BiomeType::Mountains => 120,
            _ => 0,
        }
    }
}

/// Feature density of each biome, in thousandths.
pub open spec fn feature_density_spec(b: BiomeType) -> int {
    match b {
        BiomeType::Forest => 150,
        BiomeType::Grassland => 50,
        BiomeType::Desert => 30,
        BiomeType::Hills => 80,
        BiomeType::Mountains => 120,
        _ => 0,
    }
}

} // verus!
