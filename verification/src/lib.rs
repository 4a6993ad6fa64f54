//! Authoritative server core for a real-time multiplayer role-playing game.
//!
//! The library holds the verified heart of the server: the fixed-point
//! coordinate arithmetic, the entity-component world store, character
//! creation and progression, combat and ability resolution, monster
//! templates and loot tables, the spawn manager, the chunked map store
//! with its streaming diff, the per-tick delta tracker with vision
//! filtering, and the procedural terrain generator.
//!
//! All world coordinates are fixed-point integers: one pixel is
//! `units::POS_SCALE` position units, and speeds are in thousandths of a
//! pixel per second, so that integrating one tick at the fixed 60 Hz rate
//! is an exact integer addition.

pub mod abilities;
pub mod accessories;
pub mod ai;
pub mod armor;
pub mod biome;
pub mod character;
pub mod chunks;
pub mod components;
pub mod config;
pub mod delta;
pub mod equipment;
pub mod loot;
pub mod map_types;
pub mod mapgen;
pub mod monsters;
pub mod progression;
pub mod rng;
pub mod spawning;
pub mod state;
pub mod sync;
pub mod text;
pub mod units;
pub mod weapons;
pub mod world;
