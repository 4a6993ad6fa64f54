//! The process-level game state: the world store, the player directory,
//! the tick and delta counters, the map and its chunk system.
//!
//! The directory invariant keeps connection ids unique and ties every
//! player-carrying entity to exactly one directory entry — so at most
//! one entity ever references a connection id.

use vstd::prelude::*;
use crate::character::CharacterBuilder;
use crate::chunks::{calculate_chunk_update, ChunkSystem, ChunkUpdate};
use crate::components::{
    ActiveStatusEffect, ArmorClass, AttackSpeed, CharacterClass, Character, Collider, Cooldowns,
    EntityId, Health, MovementSpeed, Player, Position, Species, Sprite, Stats, StatusEffects,
    Velocity, VisionRange,
};
use crate::delta::EntityChanges;
use crate::spawning::SpawnPointManager;
use crate::ai::velocity_only_change;
use crate::delta::DeltaTracker;
use crate::units::normalize_input;
use crate::map_types::MapData;
use crate::units::POS_SCALE;
use crate::world::{rec_wf, EntityRec, World};

verus! {

/// The newest input a client sent: a monotonic sequence number, the
/// client timestamp, a movement vector in thousandths of a unit vector,
/// and the action flag.
#[derive(Debug, Clone, Copy, PartialEq, Eq, Structural)]
pub struct PlayerInput {
    pub sequence: u32,
    pub timestamp: u64,
    pub movement_x: i32,
    pub movement_y: i32,
    pub action: u8,
}

impl PlayerInput {
    /// Movement components stay within the unit square.
    pub open spec fn wf(self) -> bool {
        -1000 <= self.movement_x <= 1000 && -1000 <= self.movement_y <= 1000
    }
}

impl Default for PlayerInput {
    /// No movement, no action.
    fn default() -> (r: Self)
        ensures
            r.sequence == 0,
            r.timestamp == 0,
            r.movement_x == 0,
            r.movement_y == 0,
            r.action == 0,
            r.wf(),
    {
        PlayerInput { sequence: 0, timestamp: 0, movement_x: 0, movement_y: 0, action: 0 }
    }
}

/// What the server tracks per connected player.
#[derive(Debug, Clone)]
pub struct PlayerState {
    pub entity: EntityId,
    pub latest_input: PlayerInput,
    pub loaded_chunks: Vec<(i32, i32)>,
}

/// The whole mutable server state.
pub struct GameState {
    pub(crate) world: World,
    pub(crate) players: Vec<(u64, PlayerState)>,
    pub(crate) tick_count: u64,
    pub(crate) delta_tracker: DeltaTracker,
    pub(crate) delta_sequence: u32,
    pub(crate) map: MapData,
    pub(crate) chunk_system: ChunkSystem,
    pub(crate) next_spawn_index: usize,
}

impl GameState {
    /// The world store.
    pub closed spec fn spec_world(self) -> World {
        self.world
    }

    /// The player directory as a sequence of (connection id, state)
    /// pairs.
    pub closed spec fn directory(self) -> Seq<(u64, PlayerState)> {
        self.players@
    }

    /// The number of completed ticks.
    pub closed spec fn spec_tick_count(self) -> u64 {
        self.tick_count
    }

    /// The delta sequence number of the last emitted delta.
    pub closed spec fn spec_delta_sequence(self) -> u32 {
        self.delta_sequence
    }

    /// The loaded map.
    pub closed spec fn spec_map(self) -> MapData {
        self.map
    }

    /// The chunk store.
    pub closed spec fn spec_chunks(self) -> ChunkSystem {
        self.chunk_system
    }

    /// The delta tracker.
    pub closed spec fn spec_tracker(self) -> DeltaTracker {
        self.delta_tracker
    }

    /// The round-robin spawn point cursor.
    pub closed spec fn spec_next_spawn_index(self) -> int {
        self.next_spawn_index as int
    }

    /// Directory entry `i` points at a live row carrying a `Player`
    /// component with the entry's connection id.
    pub open spec fn entry_ok(self, i: int) -> bool {
        let (c, ps) = self.directory()[i];
        &&& ps.entity < self.spec_world().rows().len()
        &&& self.spec_world().rows()[ps.entity as int].alive
        &&& self.spec_world().rows()[ps.entity as int].player matches Some(p)
            && p.connection_id == c
        &&& self.spec_world().rows()[ps.entity as int].monster is None
        &&& ps.latest_input.wf()
        &&& forall|a: int, b: int| 0 <= a < b < ps.loaded_chunks@.len()
            ==> ps.loaded_chunks@[a] != ps.loaded_chunks@[b]
    }

    /// The whole-state invariant.
    pub open spec fn wf(self) -> bool {
        &&& self.spec_world().wf()
        &&& self.spec_map().wf()
        &&& self.spec_chunks().wf()
        &&& self.spec_chunks().tiles_match(self.spec_map())
        &&& self.spec_world().spec_bound_x() == self.spec_map().width * 32 * POS_SCALE
        &&& self.spec_world().spec_bound_y() == self.spec_map().height * 32 * POS_SCALE
        &&& self.spec_tracker().wf()
        &&& self.spec_tracker().snapshot().len() <= self.spec_world().rows().len()
        &&& forall|i: int| 0 <= i < self.directory().len() ==> self.entry_ok(i)
        &&& forall|i: int, j: int| 0 <= i < j < self.directory().len()
            ==> (#[trigger] self.directory()[i]).0 != (#[trigger] self.directory()[j]).0
        &&& forall|r: int| 0 <= r < self.spec_world().rows().len()
            && (#[trigger] self.spec_world().rows()[r]).player is Some
            ==> exists|i: int| 0 <= i < self.directory().len()
                && (#[trigger] self.directory()[i]).1.entity == r
        &&& self.spec_next_spawn_index() < self.spec_map().spawn_points@.len()
            || self.spec_map().spawn_points@.len() == 0
    }

    /// At most one entity references a connection id: two player rows
    /// with the same connection id are the same row.
    pub proof fn lemma_connection_unique(self, e1: EntityId, e2: EntityId)
        requires
            self.wf(),
            e1 < self.spec_world().rows().len(),
            e2 < self.spec_world().rows().len(),
            self.spec_world().rows()[e1 as int].player is Some,
            self.spec_world().rows()[e2 as int].player is Some,
            self.spec_world().rows()[e1 as int].player->Some_0.connection_id
                == self.spec_world().rows()[e2 as int].player->Some_0.connection_id,
        ensures
            e1 == e2,
    {
        let i1 = choose|i: int| 0 <= i < self.directory().len()
            && (#[trigger] self.directory()[i]).1.entity == e1;
        let i2 = choose|i: int| 0 <= i < self.directory().len()
            && (#[trigger] self.directory()[i]).1.entity == e2;
        assert(self.entry_ok(i1));
        assert(self.entry_ok(i2));
        if i1 != i2 {
            assert(self.directory()[i1].0 != self.directory()[i2].0);
        }
    }

    /// A fresh state over `map`: an empty world with the map's pixel
    /// bounds, no players, counters at zero, and the map cut into
    /// chunks.
    pub fn new(map: MapData) -> (r: GameState)
        requires
            map.wf(),
        ensures
            r.wf(),
            r.spec_world().rows().len() == 0,
            r.directory().len() == 0,
            r.spec_tick_count() == 0,
            r.spec_delta_sequence() == 0,
            r.spec_map() == map,
    {
        proof {
            assert(map.width as int * 32 * POS_SCALE <= 512int * 32 * 60000) by (nonlinear_arith)
                requires 0 < map.width <= 512;
            assert(map.height as int * 32 * POS_SCALE <= 512int * 32 * 60000) by (nonlinear_arith)
                requires 0 < map.height <= 512;
            assert(map.width as int * 32 * POS_SCALE >= 0) by (nonlinear_arith)
                requires map.width > 0;
            assert(map.height as int * 32 * POS_SCALE >= 0) by (nonlinear_arith)
                requires map.height > 0;
        }
        let bound_x: i64 = (map.width as i64) * 32 * POS_SCALE;
        let bound_y: i64 = (map.height as i64) * 32 * POS_SCALE;
        let chunk_system = ChunkSystem::from_map_data(&map);
        GameState {
            world: World::new(bound_x, bound_y),
            players: Vec::new(),
            tick_count: 0,
            delta_tracker: DeltaTracker::new(),
            delta_sequence: 0,
            map,
            chunk_system,
            next_spawn_index: 0,
        }
    }

    /// The next spawn position, in position units, walking the map's
    /// spawn points round-robin; a map without spawn points yields its
    /// center.
    pub fn get_next_spawn_point(&mut self) -> (r: (i64, i64))
        requires
            old(self).wf(),
        ensures
            final(self).wf(),
            0 <= r.0 <= final(self).spec_world().spec_bound_x(),
            0 <= r.1 <= final(self).spec_world().spec_bound_y(),
            final(self).spec_world() == old(self).spec_world(),
            final(self).directory() == old(self).directory(),
            final(self).spec_map() == old(self).spec_map(),
            final(self).spec_tracker() == old(self).spec_tracker(),
            final(self).spec_delta_sequence() == old(self).spec_delta_sequence(),
            final(self).spec_tick_count() == old(self).spec_tick_count(),
            old(self).spec_map().spawn_points@.len() > 0 ==> ({
                let sp = old(self).spec_map().spawn_points@[old(self).spec_next_spawn_index()];
                r.0 == sp.x * POS_SCALE && r.1 == sp.y * POS_SCALE
            }),
            old(self).spec_map().spawn_points@.len() == 0
                ==> r.0 == old(self).spec_map().width * 16 * POS_SCALE
                    && r.1 == old(self).spec_map().height * 16 * POS_SCALE,
    {
        proof {
            assert(self.map.width as int * 16 * POS_SCALE >= 0) by (nonlinear_arith)
                requires self.map.width > 0;
            assert(self.map.height as int * 16 * POS_SCALE >= 0) by (nonlinear_arith)
                requires self.map.height > 0;
            assert(self.map.width as int * 16 * POS_SCALE
                <= self.map.width as int * 32 * POS_SCALE) by (nonlinear_arith)
                requires self.map.width > 0;
            assert(self.map.height as int * 16 * POS_SCALE
                <= self.map.height as int * 32 * POS_SCALE) by (nonlinear_arith)
                requires self.map.height > 0;
        }
        if self.map.spawn_points.len() == 0 {
            return ((self.map.width as i64) * 16 * POS_SCALE,
                (self.map.height as i64) * 16 * POS_SCALE);
        }
        let sp = self.map.spawn_points[self.next_spawn_index];
        let position: (i64, i64) = (sp.x * POS_SCALE, sp.y * POS_SCALE);
        proof {
            let w = self.map.width as int;
            let h = self.map.height as int;
            assert(sp.x * POS_SCALE <= w * 32 * POS_SCALE && sp.x * POS_SCALE >= 0)
                by (nonlinear_arith)
                requires 0 <= sp.x <= w * 32;
            assert(sp.y * POS_SCALE <= h * 32 * POS_SCALE && sp.y * POS_SCALE >= 0)
                by (nonlinear_arith)
                requires 0 <= sp.y <= h * 32;
        }
        let len: usize = self.map.spawn_points.len();
        let ni: usize = self.next_spawn_index + 1;
        self.next_spawn_index = if ni >= len { 0 } else { ni };
        proof {
            assert(self.spec_world() == old(self).spec_world());
            assert(self.spec_map() == old(self).spec_map());
            assert(self.directory() == old(self).directory());
            assert(self.spec_world().wf());
            assert(self.spec_map().wf());
            assert(self.spec_chunks().wf());
            assert(self.spec_chunks().tiles_match(self.spec_map()));
            assert(self.spec_tracker().wf());
            assert forall|i: int| 0 <= i < self.directory().len()
                implies self.entry_ok(i) by {
                assert(old(self).entry_ok(i));
            }
            assert(self.spec_next_spawn_index() < self.spec_map().spawn_points@.len());
            assert(forall|r2: int| 0 <= r2 < self.spec_world().rows().len()
                && (#[trigger] self.spec_world().rows()[r2]).player is Some
                ==> exists|i: int| 0 <= i < self.directory().len()
                    && (#[trigger] self.directory()[i]).1.entity == r2);
        }
        position
    }

    /// A borrow of the world store.
    pub fn world_ref(&self) -> (r: &World)
        ensures
            *r == self.spec_world(),
    {
        &self.world
    }

    /// A borrow of the chunk store.
    pub fn chunks_ref(&self) -> (r: &ChunkSystem)
        ensures
            *r == self.spec_chunks(),
    {
        &self.chunk_system
    }

    /// The number of completed ticks.
    pub fn tick_count(&self) -> (r: u64)
        ensures
            r == self.spec_tick_count(),
    {
        self.tick_count
    }

    /// The sequence number of the last emitted delta.
    pub fn delta_sequence(&self) -> (r: u32)
        ensures
            r == self.spec_delta_sequence(),
    {
        self.delta_sequence
    }

    /// A copy of the map's id.
    pub fn map_id_clone(&self) -> (r: String)
        ensures
            r@ == self.spec_map().id@,
    {
        self.map.id.clone()
    }

    /// A copy of the map's display name.
    pub fn map_name_clone(&self) -> (r: String)
        ensures
            r@ == self.spec_map().name@,
    {
        self.map.name.clone()
    }

    /// A copy of the map's background music id.
    pub fn map_music_clone(&self) -> (r: String)
        ensures
            r@ == self.spec_map().background_music@,
    {
        self.map.background_music.clone()
    }

    /// A copy of the map's ambient sound id.
    pub fn map_ambient_clone(&self) -> (r: String)
        ensures
            r@ == self.spec_map().ambient_sound@,
    {
        self.map.ambient_sound.clone()
    }

    /// Whether a player for `connection_id` is already in the directory.
    pub fn has_player(&self, connection_id: u64) -> (r: bool)
        ensures
            r == exists|i: int| 0 <= i < self.directory().len()
                && (#[trigger] self.directory()[i]).0 == connection_id,
    {
        let mut i: usize = 0;
        while i < self.players.len()
            invariant
                0 <= i <= self.directory().len(),
                forall|k: int| 0 <= k < i ==> (#[trigger] self.directory()[k]).0 != connection_id,
                self.players@ == self.directory(),
            decreases self.directory().len() - i,
        {
            if self.players[i].0 == connection_id {
                return true;
            }
            i = i + 1;
        }
        false
    }

    /// The entity steered by `connection_id`, if that client has joined.
    pub fn get_player_entity(&self, connection_id: u64) -> (r: Option<EntityId>)
        ensures
            r matches Some(e) ==> exists|i: int| 0 <= i < self.directory().len()
                && (#[trigger] self.directory()[i]).0 == connection_id
                && self.directory()[i].1.entity == e,
            r is None ==> forall|i: int| 0 <= i < self.directory().len()
                ==> (#[trigger] self.directory()[i]).0 != connection_id,
    {
        let mut i: usize = 0;
        while i < self.players.len()
            invariant
                0 <= i <= self.directory().len(),
                forall|k: int| 0 <= k < i ==> (#[trigger] self.directory()[k]).0 != connection_id,
                self.players@ == self.directory(),
            decreases self.directory().len() - i,
        {
            if self.players[i].0 == connection_id {
                return Some(self.players[i].1.entity);
            }
            i = i + 1;
        }
        None
    }

    /// Create the entity of a joining player at the given spawn
    /// position: a full starting character for the species and class,
    /// registered in the directory and marked spawned for the delta
    /// tracker.
    pub fn add_player(
        &mut self,
        connection_id: u64,
        name: String,
        species: Species,
        class: CharacterClass,
        spawn_x: i64,
        spawn_y: i64,
    ) -> (e: EntityId)
        requires
            old(self).wf(),
            !exists|i: int| 0 <= i < old(self).directory().len()
                && (#[trigger] old(self).directory()[i]).0 == connection_id,
            0 <= spawn_x <= old(self).spec_world().spec_bound_x(),
            0 <= spawn_y <= old(self).spec_world().spec_bound_y(),
            old(self).spec_world().rows().len() < u32::MAX,
            old(self).directory().len() < usize::MAX,
        ensures
            final(self).wf(),
            e == old(self).spec_world().rows().len(),
            final(self).spec_world().rows().len() == old(self).spec_world().rows().len() + 1,
            forall|k: int| 0 <= k < old(self).spec_world().rows().len()
                ==> final(self).spec_world().rows()[k] == old(self).spec_world().rows()[k],
            ({
                let rec = final(self).spec_world().rows()[e as int];
                let sheet_hp = crate::character::species_base_hp(species)
                    + crate::character::class_hp_bonus_spec(class);
                &&& rec.alive
                &&& rec.position == Some(Position { x: spawn_x, y: spawn_y })
                &&& rec.velocity == Some(Velocity { dx: 0i64, dy: 0i64 })
                &&& rec.health matches Some(h) && h.current == sheet_hp && h.max == sheet_hp
                &&& rec.stats == Some(crate::character::creation_stats(species, class))
                &&& rec.character == Some(Character { species, class, level: 1u32, experience: 0u64 })
                &&& rec.player matches Some(p) && p.connection_id == connection_id
                    && p.name@ == name@
                &&& rec.armor_class matches Some(a)
                    && a.value == crate::character::class_ac_spec(class)
                &&& rec.movement_speed matches Some(m)
                    && m.speed_units == crate::character::species_speed_spec(species)
                &&& rec.vision_range matches Some(v)
                    && v.tiles == crate::character::species_vision_spec(species)
                &&& rec.attack_speed matches Some(s)
                    && s.cooldown_ms == crate::character::class_attack_cooldown_spec(class)
                &&& rec.cooldowns == Some(Cooldowns { attack: None, ability: None })
                &&& rec.sprite matches Some(sp)
                    && sp.sprite_id@ == player_sprite_spec(species, class)
                &&& rec.collider == Some(Collider { radius: 16u32 })
                &&& rec.monster is None
                &&& rec.spawn_origin is None
            }),
            final(self).directory().len() == old(self).directory().len() + 1,
            final(self).directory()[final(self).directory().len() - 1].0 == connection_id,
            final(self).directory()[final(self).directory().len() - 1].1.entity == e,
            forall|k: int| 0 <= k < old(self).directory().len()
                ==> final(self).directory()[k] == old(self).directory()[k],
            final(self).spec_map() == old(self).spec_map(),
            final(self).spec_delta_sequence() == old(self).spec_delta_sequence(),
            final(self).spec_tick_count() == old(self).spec_tick_count(),
            final(self).spec_tracker().pending_spawned()
                == old(self).spec_tracker().pending_spawned().push(e),
    {
        let builder = CharacterBuilder::new(species, class);
        let sheet = builder.build();
        let mut rec = EntityRec::empty();
        rec.position = Some(Position { x: spawn_x, y: spawn_y });
        rec.velocity = Some(Velocity { dx: 0, dy: 0 });
        rec.health = Some(Health { current: sheet.max_hp, max: sheet.max_hp });
        rec.stats = Some(sheet.stats);
        rec.character = Some(Character {
            species: sheet.species,
            class: sheet.class,
            level: sheet.level,
            experience: sheet.experience,
        });
        rec.player = Some(Player { name, connection_id });
        rec.sprite = Some(Sprite { sprite_id: player_sprite_id(species, class) });
        rec.collider = Some(Collider { radius: 16 });
        rec.armor_class = Some(ArmorClass { value: sheet.ac });
        rec.movement_speed = Some(MovementSpeed { speed_units: sheet.movement_speed });
        rec.vision_range = Some(VisionRange { tiles: sheet.vision_range });
        rec.attack_speed = Some(AttackSpeed { cooldown_ms: sheet.attack_cooldown_ms });
        rec.cooldowns = Some(Cooldowns::default());
        proof {
            assert(crate::character::species_base_hp(species)
                + crate::character::class_hp_bonus_spec(class) >= 6);
            assert(rec_wf(rec, old(self).spec_world().spec_bound_x(),
                old(self).spec_world().spec_bound_y()));
        }
        let e: EntityId = self.world.spawn(rec);
        self.players.push((connection_id, PlayerState {
            entity: e,
            latest_input: PlayerInput::default(),
            loaded_chunks: Vec::new(),
        }));
        self.delta_tracker.mark_spawned(e);
        proof {
            assert forall|i: int| 0 <= i < self.directory().len()
                implies self.entry_ok(i) by {
                if i < self.directory().len() - 1 {
                    assert(old(self).entry_ok(i));
                }
            }
            assert forall|r: int| 0 <= r < self.spec_world().rows().len()
                && (#[trigger] self.spec_world().rows()[r]).player is Some
                implies exists|i: int| 0 <= i < self.directory().len()
                    && (#[trigger] self.directory()[i]).1.entity == r by {
                if r < old(self).spec_world().rows().len() {
                    let i = choose|i: int| 0 <= i < old(self).directory().len()
                        && (#[trigger] old(self).directory()[i]).1.entity == r;
                    assert(self.directory()[i].1.entity == r);
                } else {
                    assert(self.directory()[self.directory().len() - 1].1.entity == r);
                }
            }
        }
        e
    }

    /// Remove the player of `connection_id`: its entity is despawned and
    /// recorded for the delta tracker, and the directory entry dropped.
    /// An unknown connection id is a no-op.
    pub fn remove_player(&mut self, connection_id: u64)
        requires
            old(self).wf(),
        ensures
            final(self).wf(),
            forall|i: int| 0 <= i < final(self).directory().len()
                ==> (#[trigger] final(self).directory()[i]).0 != connection_id,
            final(self).spec_world().rows().len() == old(self).spec_world().rows().len(),
            final(self).spec_map() == old(self).spec_map(),
            final(self).spec_delta_sequence() == old(self).spec_delta_sequence(),
            final(self).spec_tick_count() == old(self).spec_tick_count(),
            (forall|i: int| 0 <= i < old(self).directory().len()
                ==> (#[trigger] old(self).directory()[i]).0 != connection_id)
                ==> final(self).directory() == old(self).directory()
                    && final(self).spec_world() == old(self).spec_world()
                    && final(self).spec_tracker() == old(self).spec_tracker(),
            forall|i: int| 0 <= i < old(self).directory().len()
                && (#[trigger] old(self).directory()[i]).0 == connection_id
                ==> ({
                    let e = old(self).directory()[i].1.entity;
                    &&& !final(self).spec_world().spec_alive(e)
                    &&& final(self).spec_world().rows()[e as int].is_bare()
                    &&& final(self).spec_tracker().pending_despawned()
                        == old(self).spec_tracker().pending_despawned().push(e as u32)
                    &&& final(self).directory() == old(self).directory().remove(i)
                    &&& forall|o: EntityId| o != e
                        ==> final(self).spec_world().spec_alive(o)
                            == old(self).spec_world().spec_alive(o)
                }),
    {
        let mut found: Option<usize> = None;
        let mut i: usize = 0;
        while i < self.players.len()
            invariant
                0 <= i <= self.directory().len(),
                self.players@ == self.directory(),
                found matches Some(k) ==> k < i <= self.directory().len()
                    && self.directory()[k as int].0 == connection_id,
                found is None ==> forall|k: int| 0 <= k < i
                    ==> (#[trigger] self.directory()[k]).0 != connection_id,
            decreases self.directory().len() - i,
        {
            if found.is_none() && self.players[i].0 == connection_id {
                found = Some(i);
            }
            i = i + 1;
        }
        match found {
            Some(k) => {
                let entity = self.players[k].1.entity;
                let _removed = self.players.remove(k);
                self.delta_tracker.mark_despawned(entity);
                let _ = self.world.despawn(entity);
                proof {
                    let od = old(self).directory();
                    od.remove_ensures(k as int);
                    assert(old(self).entry_ok(k as int));
                    assert(!self.spec_world().spec_alive(entity));
                    assert(self.spec_world().rows()[entity as int].is_bare());
                    assert(self.spec_tracker().pending_despawned()
                        == old(self).spec_tracker().pending_despawned().push(entity as u32));
                    assert(self.directory() == od.remove(k as int));
                    assert forall|i2: int| 0 <= i2 < self.directory().len()
                        implies self.entry_ok(i2) && self.directory()[i2].0 != connection_id by {
                        let oi = if i2 < k { i2 } else { i2 + 1 };
                        assert(self.directory()[i2] == od[oi]);
                        assert(old(self).entry_ok(oi));
                        assert(self.directory()[i2].1.entity != entity) by {
                            if self.directory()[i2].1.entity == entity {
                                assert(od[oi].1.entity == od[k as int].1.entity);
                                assert(old(self).entry_ok(k as int));
                                assert(od[oi].0 == od[k as int].0);
                                if oi < k {
                                    assert(od[oi].0 != od[k as int].0);
                                } else {
                                    assert(od[k as int].0 != od[oi].0);
                                }
                            }
                        }
                    }
                    assert forall|i2: int, j2: int| 0 <= i2 < j2 < self.directory().len()
                        implies (#[trigger] self.directory()[i2]).0
                            != (#[trigger] self.directory()[j2]).0 by {
                        let oi = if i2 < k { i2 } else { i2 + 1 };
                        let oj = if j2 < k { j2 } else { j2 + 1 };
                        assert(self.directory()[i2] == od[oi]);
                        assert(self.directory()[j2] == od[oj]);
                    }
                    assert forall|r: int| 0 <= r < self.spec_world().rows().len()
                        && (#[trigger] self.spec_world().rows()[r]).player is Some
                        implies exists|i2: int| 0 <= i2 < self.directory().len()
                            && (#[trigger] self.directory()[i2]).1.entity == r by {
                        assert(r != entity);
                        assert(old(self).spec_world().rows()[r].player is Some);
                        let oi = choose|oi: int| 0 <= oi < od.len()
                            && (#[trigger] od[oi]).1.entity == r;
                        assert(oi != k);
                        let ni = if oi < k { oi } else { oi - 1 };
                        assert(self.directory()[ni] == od[oi]);
                    }
                    assert forall|i2: int| 0 <= i2 < od.len()
                        && (#[trigger] od[i2]).0 == connection_id
                        implies i2 == k as int by {
                        if i2 < k as int {
                            assert(od[i2].0 != od[k as int].0);
                        } else if i2 > k as int {
                            assert(od[k as int].0 != od[i2].0);
                        }
                    }
                }
            }
            None => {}
        }
    }

    /// Overwrite the pending input of `connection_id`; an unknown id is
    /// a no-op.
    pub fn update_player_input(&mut self, connection_id: u64, input: PlayerInput)
        requires
            old(self).wf(),
            input.wf(),
        ensures
            final(self).wf(),
            final(self).spec_world() == old(self).spec_world(),
            final(self).directory().len() == old(self).directory().len(),
            forall|i: int| 0 <= i < old(self).directory().len()
                && (#[trigger] old(self).directory()[i]).0 != connection_id
                ==> final(self).directory()[i] == old(self).directory()[i],
            forall|i: int| 0 <= i < old(self).directory().len()
                && (#[trigger] old(self).directory()[i]).0 == connection_id
                ==> final(self).directory()[i].0 == connection_id
                    && final(self).directory()[i].1.entity
                        == old(self).directory()[i].1.entity
                    && final(self).directory()[i].1.latest_input == input,
            final(self).spec_map() == old(self).spec_map(),
            final(self).spec_delta_sequence() == old(self).spec_delta_sequence(),
            final(self).spec_tick_count() == old(self).spec_tick_count(),
            final(self).spec_tracker() == old(self).spec_tracker(),
    {
        let mut found: Option<usize> = None;
        let mut i: usize = 0;
        let n: usize = self.players.len();
        while i < n
            invariant
                0 <= i <= n,
                n == self.directory().len(),
                self.players@ == self.directory(),
                found matches Some(k) ==> k < i
                    && self.directory()[k as int].0 == connection_id,
                found is None ==> forall|k: int| 0 <= k < i
                    ==> (#[trigger] self.directory()[k]).0 != connection_id,
            decreases n - i,
        {
            if found.is_none() && self.players[i].0 == connection_id {
                found = Some(i);
            }
            i = i + 1;
        }
        match found {
            Some(k) => {
                let slot = &mut self.players[k];
                slot.1.latest_input = input;
                proof {
                    assert forall|i2: int| 0 <= i2 < self.directory().len()
                        implies self.entry_ok(i2) by {
                        assert(old(self).entry_ok(i2));
                    }
                    assert forall|r2: int| 0 <= r2 < self.spec_world().rows().len()
                        && (#[trigger] self.spec_world().rows()[r2]).player is Some
                        implies exists|i2: int| 0 <= i2 < self.directory().len()
                            && (#[trigger] self.directory()[i2]).1.entity == r2 by {
                        let i2 = choose|i2: int| 0 <= i2 < old(self).directory().len()
                            && (#[trigger] old(self).directory()[i2]).1.entity == r2;
                        assert(self.directory()[i2].1.entity == r2);
                    }
                    assert forall|i2: int| 0 <= i2 < old(self).directory().len()
                        && (#[trigger] old(self).directory()[i2]).0 == connection_id
                        implies final(self).directory()[i2].0 == connection_id
                            && final(self).directory()[i2].1.entity
                                == old(self).directory()[i2].1.entity
                            && final(self).directory()[i2].1.latest_input == input by {
                        if i2 != k {
                            if i2 < k {
                                assert(old(self).directory()[i2].0
                                    != old(self).directory()[k as int].0);
                            } else {
                                assert(old(self).directory()[k as int].0
                                    != old(self).directory()[i2].0);
                            }
                        }
                    }
                }
            }
            None => {}
        }
    }

    /// Recompute the chunk set the player of `connection_id` needs,
    /// diff it against the loaded set, store the needed set as the new
    /// loaded set, and return the diff.  An unknown id or a player
    /// without a position yields an empty diff.
    pub fn update_player_chunks(&mut self, connection_id: u64) -> (r: ChunkUpdate)
        requires
            old(self).wf(),
        ensures
            final(self).wf(),
            final(self).spec_world() == old(self).spec_world(),
            final(self).spec_map() == old(self).spec_map(),
            final(self).spec_delta_sequence() == old(self).spec_delta_sequence(),
            final(self).spec_tick_count() == old(self).spec_tick_count(),
            final(self).spec_tracker() == old(self).spec_tracker(),
            final(self).directory().len() == old(self).directory().len(),
            forall|i: int| 0 <= i < old(self).directory().len()
                && (#[trigger] old(self).directory()[i]).0 != connection_id
                ==> final(self).directory()[i] == old(self).directory()[i],
            ({
                let rows = old(self).spec_world().rows();
                forall|i: int| 0 <= i < old(self).directory().len()
                    && (#[trigger] old(self).directory()[i]).0 == connection_id
                    && rows[old(self).directory()[i].1.entity as int].position is Some
                    ==> ({
                        let e = old(self).directory()[i].1.entity;
                        let pos = rows[e as int].position->Some_0;
                        let loaded = old(self).directory()[i].1.loaded_chunks@;
                        let now_loaded = final(self).directory()[i].1.loaded_chunks@;
                        &&& (forall|p: (i32, i32)| #[trigger] now_loaded.contains(p)
                            <==> crate::chunks::needed_chunk(
                                old(self).spec_chunks(), pos.x as int, pos.y as int, p))
                        &&& (forall|p: (i32, i32)| #[trigger] r.to_load@.contains(p)
                            <==> now_loaded.contains(p) && !loaded.contains(p))
                        &&& (forall|p: (i32, i32)| #[trigger] r.to_unload@.contains(p)
                            <==> loaded.contains(p) && !now_loaded.contains(p))
                    })
            }),
    {
        let mut found: Option<usize> = None;
        let mut i: usize = 0;
        let n: usize = self.players.len();
        while i < n
            invariant
                0 <= i <= n,
                n == self.directory().len(),
                self.players@ == self.directory(),
                found matches Some(k) ==> k < i
                    && self.directory()[k as int].0 == connection_id,
                found is None ==> forall|k: int| 0 <= k < i
                    ==> (#[trigger] self.directory()[k]).0 != connection_id,
            decreases n - i,
        {
            if found.is_none() && self.players[i].0 == connection_id {
                found = Some(i);
            }
            i = i + 1;
        }
        let k: usize = match found {
            Some(k) => k,
            None => { return ChunkUpdate::default(); },
        };
        proof {
            assert forall|i2: int| 0 <= i2 < old(self).directory().len()
                && (#[trigger] old(self).directory()[i2]).0 == connection_id
                implies i2 == k as int by {
                let od = old(self).directory();
                if i2 < k as int {
                    assert(od[i2].0 != od[k as int].0);
                } else if i2 > k as int {
                    assert(od[k as int].0 != od[i2].0);
                }
            }
        }
        let entity: EntityId = self.players[k].1.entity;
        proof {
            assert(self.entry_ok(k as int));
        }
        let pos = match self.world.position(entity) {
            Some(p) => p,
            None => { return ChunkUpdate::default(); },
        };
        proof {
            assert(rec_wf(self.world.rows()[entity as int],
                self.world.spec_bound_x(), self.world.spec_bound_y()));
            assert(self.world.spec_bound_x() <= crate::world::MAX_BOUND_UNITS);
            assert(0 <= pos.x <= 0x3fff_ffff_ffff);
            assert(0 <= pos.y <= 0x3fff_ffff_ffff);
        }
        let needed: Vec<(i32, i32)> = self.chunk_system.get_chunks_for_position(pos.x, pos.y);
        let update = calculate_chunk_update(&self.players[k].1.loaded_chunks, &needed);
        let slot = &mut self.players[k];
        slot.1.loaded_chunks = needed;
        proof {
            assert forall|i2: int| 0 <= i2 < self.directory().len()
                implies self.entry_ok(i2) by {
                assert(old(self).entry_ok(i2));
            }
            assert forall|r2: int| 0 <= r2 < self.spec_world().rows().len()
                && (#[trigger] self.spec_world().rows()[r2]).player is Some
                implies exists|i2: int| 0 <= i2 < self.directory().len()
                    && (#[trigger] self.directory()[i2]).1.entity == r2 by {
                let i2 = choose|i2: int| 0 <= i2 < old(self).directory().len()
                    && (#[trigger] old(self).directory()[i2]).1.entity == r2;
                assert(self.directory()[i2].1.entity == r2);
            }
        }
        update
    }
}

/// Sprite name of a species.
pub open spec fn species_sprite_spec(species: Species) -> Seq<char> {
    match species {
        Species::Human => "human"@,
        Species::Elf => "elf"@,
        Species::Dwarf => "dwarf"@,
        Species::Halfling => "halfling"@,
        Species::HalfOrc => "halforc"@,
        Species::Gnome => "gnome"@,
    }
}

/// Sprite suffix of a class, underscore included.
pub open spec fn class_sprite_suffix_spec(class: CharacterClass) -> Seq<char> {
    match class {
        CharacterClass::Fighter => "_fighter"@,
        CharacterClass::Rogue => "_rogue"@,
        CharacterClass::Cleric => "_cleric"@,
        CharacterClass::Wizard => "_wizard"@,
        CharacterClass::Ranger => "_ranger"@,
        CharacterClass::Barbarian => "_barbarian"@,
    }
}

/// The sprite id of a player character: its species and class joined by
/// an underscore.
pub open spec fn player_sprite_spec(species: Species, class: CharacterClass) -> Seq<char> {
    species_sprite_spec(species) + class_sprite_suffix_spec(class)
}

/// The sprite id of a player character: its species and class joined by
/// an underscore.
fn player_sprite_id(species: Species, class: CharacterClass) -> (r: String)
    ensures
        r@ == player_sprite_spec(species, class),
{
    let sp: &str = match species {
        Species::Human => "human",
        Species::Elf => "elf",
        Species::Dwarf => "dwarf",
        Species::Halfling => "halfling",
        Species::HalfOrc => "halforc",
        Species::Gnome => "gnome",
    };
    let cl: &str = match class {
        CharacterClass::Fighter => "_fighter",
        CharacterClass::Rogue => "_rogue",
        CharacterClass::Cleric => "_cleric",
        CharacterClass::Wizard => "_wizard",
        CharacterClass::Ranger => "_ranger",
        CharacterClass::Barbarian => "_barbarian",
    };
    let mut s = sp.to_string();
    crate::text::str_append(&mut s, cl);
    s
}

/// The sprite name of a species.
pub fn species_sprite_id(species: Species) -> (r: &'static str)
    ensures
        species is Human ==> r@ == "human"@,
        species is Elf ==> r@ == "elf"@,
        species is Dwarf ==> r@ == "dwarf"@,
        species is Halfling ==> r@ == "halfling"@,
        species is HalfOrc ==> r@ == "halforc"@,
        species is Gnome ==> r@ == "gnome"@,
{
    match species {
        Species::Human => "human",
        Species::Elf => "elf",
        Species::Dwarf => "dwarf",
        Species::Halfling => "halfling",
        Species::HalfOrc => "halforc",
        Species::Gnome => "gnome",
    }
}

/// The sprite name of a class.
pub fn class_sprite_id(class: CharacterClass) -> (r: &'static str)
    ensures
        class is Fighter ==> r@ == "fighter"@,
        class is Rogue ==> r@ == "rogue"@,
        class is Cleric ==> r@ == "cleric"@,
        class is Wizard ==> r@ == "wizard"@,
        class is Ranger ==> r@ == "ranger"@,
        class is Barbarian ==> r@ == "barbarian"@,
{
    match class {
        CharacterClass::Fighter => "fighter",
        CharacterClass::Rogue => "rogue",
        CharacterClass::Cleric => "cleric",
        CharacterClass::Wizard => "wizard",
        CharacterClass::Ranger => "ranger",
        CharacterClass::Barbarian => "barbarian",
    }
}



/// `v` is a velocity that `normalize_input` may produce for `input` at
/// `speed`: within the speed on both axes, never faster than the speed
/// in magnitude and at most a sliver slower, pointing with the input,
/// and exact on the axes.
pub open spec fn good_velocity(mx: int, my: int, speed: int, v: Velocity) -> bool {
    &&& -speed <= v.dx <= speed
    &&& -speed <= v.dy <= speed
    &&& v.dx * v.dx + v.dy * v.dy <= speed * speed
    &&& (mx != 0 || my != 0) ==> v.dx * v.dx + v.dy * v.dy
        > speed * speed - speed * speed / 500 - 4 * speed - 2
    &&& mx == 0 && my == 0 ==> v.dx == 0 && v.dy == 0
    &&& my == 0 && mx > 0 ==> v.dx == speed && v.dy == 0
    &&& my == 0 && mx < 0 ==> v.dx == -speed && v.dy == 0
    &&& mx == 0 && my > 0 ==> v.dx == 0 && v.dy == speed
    &&& mx == 0 && my < 0 ==> v.dx == 0 && v.dy == -speed
    &&& (mx != 0 || my != 0) ==> ({
        let s = crate::units::sqrt_ceil(((mx * mx + my * my) * 1_000_000) as nat) as int;
        v.dx == crate::units::signed_scale(mx, speed, s)
            && v.dy == crate::units::signed_scale(my, speed, s)
    })
}

/// Drain inputs: each player's velocity becomes its movement input
/// normalized to its movement speed, so diagonal input moves no faster
/// than axis-aligned input.  Only velocity slots change.
pub fn process_player_inputs(state: &mut GameState)
    requires
        old(state).wf(),
    ensures
        final(state).wf(),
        final(state).spec_world().rows().len() == old(state).spec_world().rows().len(),
        final(state).directory() == old(state).directory(),
        final(state).spec_map() == old(state).spec_map(),
        final(state).spec_tick_count() == old(state).spec_tick_count(),
        final(state).spec_delta_sequence() == old(state).spec_delta_sequence(),
        final(state).spec_tracker() == old(state).spec_tracker(),
        forall|k: int| 0 <= k < old(state).spec_world().rows().len()
            ==> velocity_only_change(
                old(state).spec_world().rows()[k], final(state).spec_world().rows()[k]),
        forall|i: int| 0 <= i < old(state).directory().len() ==> ({
            let entity = (#[trigger] old(state).directory()[i]).1.entity;
            let input = old(state).directory()[i].1.latest_input;
            let rec = old(state).spec_world().rows()[entity as int];
            (rec.velocity is Some && rec.movement_speed is Some)
                ==> (final(state).spec_world().rows()[entity as int].velocity matches Some(v)
                    && good_velocity(input.movement_x as int, input.movement_y as int,
                        rec.movement_speed->Some_0.speed_units as int, v))
        }),
{
    let n: usize = state.players.len();
    let mut i: usize = 0;
    while i < n
        invariant
            old(state).wf(),
            state.wf(),
            n == state.directory().len(),
            state.directory() == old(state).directory(),
            0 <= i <= n,
            state.spec_world().rows().len() == old(state).spec_world().rows().len(),
            state.spec_map() == old(state).spec_map(),
            state.spec_chunks() == old(state).spec_chunks(),
            state.spec_tick_count() == old(state).spec_tick_count(),
            state.spec_delta_sequence() == old(state).spec_delta_sequence(),
            state.spec_tracker() == old(state).spec_tracker(),
            state.spec_next_spawn_index() == old(state).spec_next_spawn_index(),
            state.spec_world().spec_bound_x() == old(state).spec_world().spec_bound_x(),
            state.spec_world().spec_bound_y() == old(state).spec_world().spec_bound_y(),
            forall|k: int| 0 <= k < old(state).spec_world().rows().len()
                ==> velocity_only_change(
                    old(state).spec_world().rows()[k], state.spec_world().rows()[k]),
            forall|k: int| 0 <= k < old(state).spec_world().rows().len()
                && (#[trigger] old(state).spec_world().rows()[k]).velocity is Some
                ==> state.spec_world().rows()[k].velocity is Some,
            forall|j: int| 0 <= j < i ==> ({
                let entity = (#[trigger] old(state).directory()[j]).1.entity;
                let input = old(state).directory()[j].1.latest_input;
                let rec = old(state).spec_world().rows()[entity as int];
                (rec.velocity is Some && rec.movement_speed is Some)
                    ==> (state.spec_world().rows()[entity as int].velocity matches Some(v)
                        && good_velocity(input.movement_x as int, input.movement_y as int,
                            rec.movement_speed->Some_0.speed_units as int, v))
            }),
        decreases n - i,
    {
        let entity: EntityId = state.players[i].1.entity;
        let input: PlayerInput = state.players[i].1.latest_input;
        proof {
            assert(state.entry_ok(i as int));
            assert(old(state).entry_ok(i as int));
        }
        let speed_opt = state.world.movement_speed(entity);
        match speed_opt {
            Some(speed) => {
                let (vx, vy) = normalize_input(
                    input.movement_x as i64, input.movement_y as i64, speed.speed_units);
                let ghost pre = state.spec_world().rows();
                let set_ok: bool = state.world.set_velocity(entity, Velocity { dx: vx, dy: vy });
                proof {
                    assert forall|k: int| 0 <= k < old(state).spec_world().rows().len()
                        implies velocity_only_change(
                            old(state).spec_world().rows()[k], state.spec_world().rows()[k]) by {
                        if k != entity as int {
                            assert(state.spec_world().rows()[k] == pre[k]);
                        } else {
                            let orec = old(state).spec_world().rows()[k];
                            let prec = pre[k];
                            let nrec = state.spec_world().rows()[k];
                            assert(velocity_only_change(orec, prec));
                            assert(prec == (EntityRec { velocity: prec.velocity, ..orec }));
                            if set_ok {
                                assert(nrec == (EntityRec {
                                    velocity: Some(Velocity { dx: vx, dy: vy }),
                                    ..prec
                                }));
                            } else {
                                assert(nrec == prec);
                            }
                            assert(nrec == (EntityRec { velocity: nrec.velocity, ..orec }));
                        }
                    }
                    assert forall|i2: int| 0 <= i2 < state.directory().len()
                        implies state.entry_ok(i2) by {
                        assert(old(state).entry_ok(i2));
                    }
                    assert forall|r2: int| 0 <= r2 < state.spec_world().rows().len()
                        && (#[trigger] state.spec_world().rows()[r2]).player is Some
                        implies exists|i2: int| 0 <= i2 < state.directory().len()
                            && (#[trigger] state.directory()[i2]).1.entity == r2 by {
                        assert(old(state).spec_world().rows()[r2].player is Some);
                        let i2 = choose|i2: int| 0 <= i2 < old(state).directory().len()
                            && (#[trigger] old(state).directory()[i2]).1.entity == r2;
                        assert(state.directory()[i2].1.entity == r2);
                    }
                    assert forall|j: int| 0 <= j < i + 1 implies ({
                        let ej = (#[trigger] old(state).directory()[j]).1.entity;
                        let inj = old(state).directory()[j].1.latest_input;
                        let recj = old(state).spec_world().rows()[ej as int];
                        (recj.velocity is Some && recj.movement_speed is Some)
                            ==> (state.spec_world().rows()[ej as int].velocity matches Some(v)
                                && good_velocity(inj.movement_x as int, inj.movement_y as int,
                                    recj.movement_speed->Some_0.speed_units as int, v))
                    }) by {
                        let ej = old(state).directory()[j].1.entity;
                        if j < i {
                            if ej == entity {
                                assert(entity == old(state).directory()[i as int].1.entity);
                                assert(old(state).entry_ok(j));
                                assert(old(state).entry_ok(i as int));
                                assert(old(state).spec_world().rows()[ej as int]
                                    .player->Some_0.connection_id
                                    == old(state).directory()[j].0);
                                assert(old(state).spec_world().rows()[entity as int]
                                    .player->Some_0.connection_id
                                    == old(state).directory()[i as int].0);
                                assert(old(state).directory()[j].0
                                    != old(state).directory()[i as int].0);
                                assert(false);
                            } else {
                                assert(old(state).entry_ok(j));
                                assert(state.spec_world().rows()[ej as int] == pre[ej as int]);
                            }
                        } else {
                            assert(ej == entity);
                            let recj = old(state).spec_world().rows()[ej as int];
                            if recj.velocity is Some && recj.movement_speed is Some {
                                assert(pre[ej as int].velocity is Some);
                                assert(set_ok);
                            }
                        }
                    }
                }
            }
            None => {}
        }
        i = i + 1;
    }
}

/// The position an entity reaches after one tick: the old position plus
/// the velocity (one tick of motion is exactly one velocity's worth of
/// position units), clamped to the map bounds.
pub open spec fn moved_position(p: Position, v: Velocity, bx: int, by: int) -> Position {
    Position {
        x: crate::units::clamped(p.x + v.dx, bx) as i64,
        y: crate::units::clamped(p.y + v.dy, by) as i64,
    }
}

/// Integrate motion: every entity with a position and a velocity moves
/// by one tick of its velocity and is clamped to the map bounds; nothing
/// else changes.
pub fn update_movement(state: &mut GameState)
    requires
        old(state).wf(),
    ensures
        final(state).wf(),
        final(state).spec_world().rows().len() == old(state).spec_world().rows().len(),
        final(state).directory() == old(state).directory(),
        final(state).spec_map() == old(state).spec_map(),
        final(state).spec_tick_count() == old(state).spec_tick_count(),
        final(state).spec_delta_sequence() == old(state).spec_delta_sequence(),
        final(state).spec_tracker() == old(state).spec_tracker(),
        forall|k: int| 0 <= k < old(state).spec_world().rows().len() ==> ({
            let rec = #[trigger] old(state).spec_world().rows()[k];
            if rec.position is Some && rec.velocity is Some {
                final(state).spec_world().rows()[k] == (EntityRec {
                    position: Some(moved_position(
                        rec.position->Some_0, rec.velocity->Some_0,
                        old(state).spec_world().spec_bound_x(),
                        old(state).spec_world().spec_bound_y())),
                    ..rec
                })
            } else {
                final(state).spec_world().rows()[k] == rec
            }
        }),
{
    let n: u32 = state.world.row_count();
    let mut e: u32 = 0;
    while e < n
        invariant
            old(state).wf(),
            state.wf(),
            n == state.spec_world().rows().len(),
            n == old(state).spec_world().rows().len(),
            0 <= e <= n,
            state.directory() == old(state).directory(),
            state.spec_map() == old(state).spec_map(),
            state.spec_chunks() == old(state).spec_chunks(),
            state.spec_tick_count() == old(state).spec_tick_count(),
            state.spec_delta_sequence() == old(state).spec_delta_sequence(),
            state.spec_tracker() == old(state).spec_tracker(),
            state.spec_next_spawn_index() == old(state).spec_next_spawn_index(),
            state.spec_world().spec_bound_x() == old(state).spec_world().spec_bound_x(),
            state.spec_world().spec_bound_y() == old(state).spec_world().spec_bound_y(),
            forall|k: int| e <= k < n
                ==> state.spec_world().rows()[k] == old(state).spec_world().rows()[k],
            forall|k: int| 0 <= k < e ==> ({
                let rec = #[trigger] old(state).spec_world().rows()[k];
                if rec.position is Some && rec.velocity is Some {
                    state.spec_world().rows()[k] == (EntityRec {
                        position: Some(moved_position(
                            rec.position->Some_0, rec.velocity->Some_0,
                            old(state).spec_world().spec_bound_x(),
                            old(state).spec_world().spec_bound_y())),
                        ..rec
                    })
                } else {
                    state.spec_world().rows()[k] == rec
                }
            }),
        decreases n - e,
    {
        let pos = state.world.position(e);
        let vel = state.world.velocity(e);
        match (pos, vel) {
            (Some(p), Some(v)) => {
                proof {
                    assert(rec_wf(state.spec_world().rows()[e as int],
                        state.spec_world().spec_bound_x(), state.spec_world().spec_bound_y()));
                }
                let (bx, by): (i64, i64) = state.world.bounds();
                let nx: i64 = p.x + v.dx;
                let ny: i64 = p.y + v.dy;
                let cx: i64 = crate::units::clamp_coord(nx, bx);
                let cy: i64 = crate::units::clamp_coord(ny, by);
                let ghost pre = state.spec_world().rows();
                let _set = state.world.set_position(e, Position { x: cx, y: cy });
                proof {
                    assert forall|i2: int| 0 <= i2 < state.directory().len()
                        implies state.entry_ok(i2) by {
                        assert(old(state).entry_ok(i2));
                    }
                    assert forall|r2: int| 0 <= r2 < state.spec_world().rows().len()
                        && (#[trigger] state.spec_world().rows()[r2]).player is Some
                        implies exists|i2: int| 0 <= i2 < state.directory().len()
                            && (#[trigger] state.directory()[i2]).1.entity == r2 by {
                        assert(old(state).spec_world().rows()[r2].player is Some);
                        let i2 = choose|i2: int| 0 <= i2 < old(state).directory().len()
                            && (#[trigger] old(state).directory()[i2]).1.entity == r2;
                        assert(state.directory()[i2].1.entity == r2);
                    }
                }
            }
            _ => {}
        }
        e = e + 1;
    }
}

/// Bookkeeping at the end of a tick: the tick counter steps by one and
/// the delta sequence steps by exactly one modulo 2^32 — so the
/// sequence of emitted deltas is strictly increasing modulo 2^32.
pub fn advance_counters(state: &mut GameState)
    requires
        old(state).wf(),
    ensures
        final(state).wf(),
        final(state).spec_tick_count() == old(state).spec_tick_count() as int + 1
            || (old(state).spec_tick_count() == u64::MAX && final(state).spec_tick_count() == 0),
        final(state).spec_delta_sequence()
            == (old(state).spec_delta_sequence() as int + 1) % 0x1_0000_0000,
        final(state).spec_world() == old(state).spec_world(),
        final(state).directory() == old(state).directory(),
        final(state).spec_map() == old(state).spec_map(),
        final(state).spec_tracker() == old(state).spec_tracker(),
{
    state.tick_count = if state.tick_count == u64::MAX { 0 } else { state.tick_count + 1 };
    state.delta_sequence = if state.delta_sequence == u32::MAX {
        0
    } else {
        state.delta_sequence + 1
    };
    proof {
        if old(state).spec_delta_sequence() == u32::MAX {
            assert((0x1_0000_0000int - 1 + 1) % 0x1_0000_0000 == 0);
        } else {
            assert((old(state).spec_delta_sequence() as int + 1) % 0x1_0000_0000
                == old(state).spec_delta_sequence() as int + 1) by {
                vstd::arithmetic::div_mod::lemma_small_mod(
                    (old(state).spec_delta_sequence() + 1) as nat, 0x1_0000_0000);
            }
        }
        assert forall|i2: int| 0 <= i2 < state.directory().len()
            implies state.entry_ok(i2) by {
            assert(old(state).entry_ok(i2));
        }
        assert forall|r2: int| 0 <= r2 < state.spec_world().rows().len()
            && (#[trigger] state.spec_world().rows()[r2]).player is Some
            implies exists|i2: int| 0 <= i2 < state.directory().len()
                && (#[trigger] state.directory()[i2]).1.entity == r2 by {
            let i2 = choose|i2: int| 0 <= i2 < old(state).directory().len()
                && (#[trigger] old(state).directory()[i2]).1.entity == r2;
            assert(state.directory()[i2].1.entity == r2);
        }
    }
}

/// A status effect has run out at `now_ms`.
pub open spec fn effect_expired(e: ActiveStatusEffect, now_ms: u64) -> bool {
    e.started_at <= now_ms && now_ms - e.started_at >= e.duration_ms
}

/// The status effects of `v` still running at `now_ms`, without
/// duplicates: an effect is kept exactly when it has not expired.
pub fn prune_status_effects(v: &Vec<ActiveStatusEffect>, now_ms: u64)
    -> (r: Vec<ActiveStatusEffect>)
    ensures
        forall|e: ActiveStatusEffect| #[trigger] r@.contains(e)
            <==> v@.contains(e) && !effect_expired(e, now_ms),
{
    let mut r: Vec<ActiveStatusEffect> = Vec::new();
    let mut i: usize = 0;
    while i < v.len()
        invariant
            0 <= i <= v@.len(),
            forall|e: ActiveStatusEffect| #[trigger] r@.contains(e)
                <==> (exists|k: int| 0 <= k < i && v@[k] == e) && !effect_expired(e, now_ms),
        decreases v@.len() - i,
    {
        let e: ActiveStatusEffect = v[i];
        let expired: bool = e.started_at <= now_ms && now_ms - e.started_at >= e.duration_ms;
        let mut already: bool = false;
        let mut j: usize = 0;
        while j < r.len()
            invariant
                0 <= j <= r@.len(),
                already == exists|k: int| 0 <= k < j && r@[k] == e,
            decreases r@.len() - j,
        {
            if r[j] == e {
                already = true;
            }
            j = j + 1;
        }
        proof {
            assert(already == r@.contains(e));
        }
        if !expired && !already {
            let ghost pre = r@;
            r.push(e);
            proof {
                assert forall|q: ActiveStatusEffect| true
                    implies (#[trigger] r@.contains(q) <==> (pre.contains(q) || q == e)) by {
                    crate::chunks::lemma_push_contains_pub(pre, e, q);
                }
                assert(v@[i as int] == e);
            }
        }
        i = i + 1;
    }
    proof {
        assert forall|e: ActiveStatusEffect|
            v@.contains(e) && !effect_expired(e, now_ms)
            implies #[trigger] r@.contains(e) by {
            let k = choose|k: int| 0 <= k < v@.len() && v@[k] == e;
            assert(0 <= k < v@.len() && v@[k] == e);
        }
        assert forall|e: ActiveStatusEffect| #[trigger] r@.contains(e)
            implies v@.contains(e) && !effect_expired(e, now_ms) by {
            let k = choose|k: int| 0 <= k < v@.len() && v@[k] == e
                && !effect_expired(e, now_ms);
            assert(v@[k] == e);
        }
    }
    r
}

/// A row holds a dead monster: a monster whose hit points have run out.
pub open spec fn dead_monster(rec: EntityRec) -> bool {
    &&& rec.alive
    &&& rec.monster is Some
    &&& rec.health matches Some(h) && h.current <= 0
}

impl GameState {
    /// Expire status effects: every entity keeps exactly its unexpired
    /// effects; nothing else changes.
    pub fn expire_statuses(&mut self, now_ms: u64)
        requires
            old(self).wf(),
        ensures
            final(self).wf(),
            final(self).spec_world().rows().len() == old(self).spec_world().rows().len(),
            final(self).directory() == old(self).directory(),
            final(self).spec_map() == old(self).spec_map(),
            final(self).spec_tick_count() == old(self).spec_tick_count(),
            final(self).spec_delta_sequence() == old(self).spec_delta_sequence(),
            final(self).spec_tracker() == old(self).spec_tracker(),
            forall|k: int| 0 <= k < old(self).spec_world().rows().len() ==> ({
                let rec = #[trigger] old(self).spec_world().rows()[k];
                let nrec = final(self).spec_world().rows()[k];
                &&& nrec == (EntityRec { status_effects: nrec.status_effects, ..rec })
                &&& rec.status_effects is None ==> nrec == rec
                &&& (rec.status_effects is Some ==> (nrec.status_effects matches Some(se)
                    && forall|e: ActiveStatusEffect| #[trigger] se.effects@.contains(e)
                        <==> rec.status_effects->Some_0.effects@.contains(e)
                            && !effect_expired(e, now_ms)))
            }),
    {
        let n: u32 = self.world.row_count();
        let mut k: u32 = 0;
        while k < n
            invariant
                old(self).wf(),
                self.wf(),
                n == self.spec_world().rows().len(),
                n == old(self).spec_world().rows().len(),
                0 <= k <= n,
                self.directory() == old(self).directory(),
                self.spec_map() == old(self).spec_map(),
                self.spec_chunks() == old(self).spec_chunks(),
                self.spec_tick_count() == old(self).spec_tick_count(),
                self.spec_delta_sequence() == old(self).spec_delta_sequence(),
                self.spec_tracker() == old(self).spec_tracker(),
                self.spec_next_spawn_index() == old(self).spec_next_spawn_index(),
                self.spec_world().spec_bound_x() == old(self).spec_world().spec_bound_x(),
                self.spec_world().spec_bound_y() == old(self).spec_world().spec_bound_y(),
                forall|j: int| k <= j < n
                    ==> self.spec_world().rows()[j] == old(self).spec_world().rows()[j],
                forall|j: int| 0 <= j < k ==> ({
                    let rec = #[trigger] old(self).spec_world().rows()[j];
                    let nrec = self.spec_world().rows()[j];
                    &&& nrec == (EntityRec { status_effects: nrec.status_effects, ..rec })
                    &&& rec.status_effects is None ==> nrec == rec
                    &&& (rec.status_effects is Some ==> (nrec.status_effects matches Some(se)
                        && forall|e: ActiveStatusEffect| #[trigger] se.effects@.contains(e)
                            <==> rec.status_effects->Some_0.effects@.contains(e)
                                && !effect_expired(e, now_ms)))
                }),
            decreases n - k,
        {
            let current_effects = self.world.status_effects_clone(k);
            match current_effects {
                Some(old_effects) => {
                let effects: Vec<ActiveStatusEffect> =
                    prune_status_effects(&old_effects, now_ms);
                let _ = self.world.set_status_effects(k, StatusEffects { effects });
                proof {
                    assert forall|i2: int| 0 <= i2 < self.directory().len()
                        implies self.entry_ok(i2) by {
                        assert(old(self).entry_ok(i2));
                    }
                    assert forall|r2: int| 0 <= r2 < self.spec_world().rows().len()
                        && (#[trigger] self.spec_world().rows()[r2]).player is Some
                        implies exists|i2: int| 0 <= i2 < self.directory().len()
                            && (#[trigger] self.directory()[i2]).1.entity == r2 by {
                        let i2 = choose|i2: int| 0 <= i2 < old(self).directory().len()
                            && (#[trigger] old(self).directory()[i2]).1.entity == r2;
                        assert(self.directory()[i2].1.entity == r2);
                    }
                }
                }
                None => {}
            }
            k = k + 1;
        }
    }

    /// The death phase: every dead monster rolls its loot (spawning item
    /// entities at its position), is recorded in the delta tracker's
    /// despawned set, and leaves the world.  Live rows other than dead
    /// monsters are untouched; appended rows are loot items.
    pub fn resolve_deaths(&mut self)
        requires
            old(self).wf(),
            6 * old(self).spec_world().rows().len() + 64 < u32::MAX,
        ensures
            final(self).wf(),
            final(self).directory() == old(self).directory(),
            final(self).spec_map() == old(self).spec_map(),
            final(self).spec_tick_count() == old(self).spec_tick_count(),
            final(self).spec_delta_sequence() == old(self).spec_delta_sequence(),
            old(self).spec_world().rows().len() <= final(self).spec_world().rows().len(),
            final(self).spec_world().rows().len() <= 6 * old(self).spec_world().rows().len(),
            forall|k: int| 0 <= k < old(self).spec_world().rows().len() ==> ({
                let rec = #[trigger] old(self).spec_world().rows()[k];
                if dead_monster(rec) {
                    !final(self).spec_world().rows()[k].alive
                } else {
                    final(self).spec_world().rows()[k] == rec
                }
            }),
            forall|k: int| 0 <= k < old(self).spec_world().rows().len() && dead_monster(
                #[trigger] old(self).spec_world().rows()[k])
                ==> final(self).spec_tracker().pending_despawned().contains(k as u32),
            final(self).spec_tracker().pending_spawned()
                == old(self).spec_tracker().pending_spawned(),
            final(self).spec_tracker().pending_despawned().len()
                >= old(self).spec_tracker().pending_despawned().len(),
            final(self).spec_tracker().pending_despawned().subrange(0,
                old(self).spec_tracker().pending_despawned().len() as int)
                == old(self).spec_tracker().pending_despawned(),
            forall|k: int|
                old(self).spec_world().rows().len() <= k < final(self).spec_world().rows().len()
                ==> ({
                    let rec = #[trigger] final(self).spec_world().rows()[k];
                    &&& rec.item is Some
                    &&& rec.player is None
                    &&& rec.monster is None
                    &&& exists|m: int| 0 <= m < old(self).spec_world().rows().len()
                        && dead_monster(#[trigger] old(self).spec_world().rows()[m])
                        && rec.position == old(self).spec_world().rows()[m].position
                }),
    {
        let n: u32 = self.world.row_count();
        let mut k: u32 = 0;
        while k < n
            invariant
                old(self).wf(),
                self.wf(),
                n == old(self).spec_world().rows().len(),
                n <= self.spec_world().rows().len(),
                self.spec_world().rows().len() <= n + 5 * k,
                6 * n + 64 < u32::MAX,
                forall|j: int| n <= j < self.spec_world().rows().len()
                    ==> ({
                        let rec = #[trigger] self.spec_world().rows()[j];
                        &&& rec.item is Some
                        &&& rec.player is None
                        &&& rec.monster is None
                        &&& exists|m: int| 0 <= m < n
                            && dead_monster(#[trigger] old(self).spec_world().rows()[m])
                            && rec.position == old(self).spec_world().rows()[m].position
                    }),
                0 <= k <= n,
                self.directory() == old(self).directory(),
                self.spec_map() == old(self).spec_map(),
                self.spec_chunks() == old(self).spec_chunks(),
                self.spec_tick_count() == old(self).spec_tick_count(),
                self.spec_delta_sequence() == old(self).spec_delta_sequence(),
                self.spec_next_spawn_index() == old(self).spec_next_spawn_index(),
                self.spec_world().spec_bound_x() == old(self).spec_world().spec_bound_x(),
                self.spec_world().spec_bound_y() == old(self).spec_world().spec_bound_y(),
                self.spec_tracker().pending_spawned()
                    == old(self).spec_tracker().pending_spawned(),
                self.spec_tracker().pending_despawned().len()
                    >= old(self).spec_tracker().pending_despawned().len(),
                self.spec_tracker().pending_despawned().subrange(0,
                    old(self).spec_tracker().pending_despawned().len() as int)
                    == old(self).spec_tracker().pending_despawned(),
                self.spec_tracker().snapshot().len() == old(self).spec_tracker().snapshot().len(),
                forall|j: int| k <= j < n
                    ==> self.spec_world().rows()[j] == old(self).spec_world().rows()[j],
                forall|j: int| 0 <= j < k ==> ({
                    let rec = #[trigger] old(self).spec_world().rows()[j];
                    if dead_monster(rec) {
                        !self.spec_world().rows()[j].alive
                    } else {
                        self.spec_world().rows()[j] == rec
                    }
                }),
                forall|j: int| 0 <= j < k && dead_monster(
                    #[trigger] old(self).spec_world().rows()[j])
                    ==> self.spec_tracker().pending_despawned().contains(j as u32),
            decreases n - k,
        {
            let is_dead_monster: bool = match (self.world.monster(k), self.world.health(k)) {
                (Some(_), Some(h)) => self.world.is_alive(k) && h.current <= 0,
                _ => false,
            };
            if is_dead_monster {
                let monster = self.world.monster(k).unwrap();
                let pos = self.world.position(k);
                match pos {
                    Some(p) => {
                        proof {
                            assert(rec_wf(self.spec_world().rows()[k as int],
                                self.spec_world().spec_bound_x(),
                                self.spec_world().spec_bound_y()));
                            assert(crate::monsters::loot_drops_spec(
                                monster.monster_type).len() <= 4);
                        }
                        let ghost base2 = self.spec_world().rows().len() as int;
                        let items = crate::loot::spawn_loot(
                            &mut self.world, monster.monster_type, p.x, p.y);
                        proof {
                            assert(dead_monster(old(self).spec_world().rows()[k as int]));
                            assert(old(self).spec_world().rows()[k as int].position
                                == Some(p));
                            assert forall|j: int|
                                base2 <= j < self.spec_world().rows().len()
                                implies ({
                                    let rec = #[trigger] self.spec_world().rows()[j];
                                    &&& rec.item is Some
                                    &&& rec.player is None
                                    &&& rec.monster is None
                                    &&& exists|m: int| 0 <= m < n
                                        && dead_monster(
                                            #[trigger] old(self).spec_world().rows()[m])
                                        && rec.position
                                            == old(self).spec_world().rows()[m].position
                                }) by {
                                let di = j - base2;
                                assert(0 <= di < items@.len());
                                assert(crate::loot::item_row_matches(
                                    self.spec_world().rows()[base2 + di],
                                    (#[trigger] items@[di]).item_id@,
                                    items@[di].quantity as int, p.x as int, p.y as int));
                                assert(dead_monster(old(self).spec_world().rows()[k as int])
                                    && self.spec_world().rows()[j].position
                                        == old(self).spec_world().rows()[k as int].position);
                            }
                        }
                    }
                    None => {}
                }
                let ghost pre_desp = self.spec_tracker().pending_despawned();
                self.delta_tracker.mark_despawned(k);
                let _ = self.world.despawn(k);
                proof {
                    assert forall|q: u32| true
                        implies (#[trigger] self.spec_tracker().pending_despawned().contains(q)
                            <==> (pre_desp.contains(q) || q == k)) by {
                        crate::chunks::lemma_push_contains_pub(pre_desp, k, q);
                    }
                    assert(self.spec_tracker().pending_despawned().subrange(0,
                        old(self).spec_tracker().pending_despawned().len() as int)
                        =~= old(self).spec_tracker().pending_despawned());
                    assert forall|i2: int| 0 <= i2 < self.directory().len()
                        implies self.entry_ok(i2) by {
                        assert(old(self).entry_ok(i2));
                        assert(old(self).spec_world().rows()[
                            self.directory()[i2].1.entity as int].monster is None);
                        assert(self.directory()[i2].1.entity != k);
                    }
                    assert forall|r2: int| 0 <= r2 < self.spec_world().rows().len()
                        && (#[trigger] self.spec_world().rows()[r2]).player is Some
                        implies exists|i2: int| 0 <= i2 < self.directory().len()
                            && (#[trigger] self.directory()[i2]).1.entity == r2 by {
                        if r2 >= n {
                            assert(!(self.spec_world().rows()[r2].player is Some));
                        }
                        assert(r2 < n);
                        assert(old(self).spec_world().rows()[r2].player is Some);
                        let i2 = choose|i2: int| 0 <= i2 < old(self).directory().len()
                            && (#[trigger] old(self).directory()[i2]).1.entity == r2;
                        assert(self.directory()[i2].1.entity == r2);
                    }
                }
            }
            k = k + 1;
        }
    }

    /// One whole simulation tick at `now_ms`: drain inputs, integrate
    /// motion, run the monster state machine, resolve the queued
    /// attacks, expire statuses, resolve deaths, respawn monsters from
    /// the spawn records, detect the tick's changes, and step the tick
    /// counter and the delta sequence — the sequence grows by exactly
    /// one modulo 2^32, and no entity is both updated and spawned in
    /// the returned changes.
    pub fn advance_tick(&mut self, manager: &mut SpawnPointManager, now_ms: u64)
        -> (changes: EntityChanges)
        requires
            old(self).wf(),
            old(manager).wf(),
            old(manager).entities_within(old(self).spec_world().rows().len() as int),
            6 * old(self).spec_world().rows().len() + old(manager).view_records().len() + 64
                < u32::MAX,
        ensures
            final(self).wf(),
            final(manager).wf(),
            final(manager).entities_within(final(self).spec_world().rows().len() as int),
            final(self).spec_delta_sequence()
                == (old(self).spec_delta_sequence() as int + 1) % 0x1_0000_0000,
            final(self).spec_tick_count() == old(self).spec_tick_count() as int + 1
                || (old(self).spec_tick_count() == u64::MAX
                    && final(self).spec_tick_count() == 0),
            forall|i: int, j: int|
                0 <= i < changes.updated@.len() && 0 <= j < changes.spawned@.len()
                ==> changes.updated@[i] != changes.spawned@[j],
            final(self).spec_map() == old(self).spec_map(),
            final(self).directory() == old(self).directory(),
            changes.spawned@ == old(self).spec_tracker().pending_spawned(),
            changes.despawned@.len() >= old(self).spec_tracker().pending_despawned().len(),
            changes.despawned@.subrange(0,
                old(self).spec_tracker().pending_despawned().len() as int)
                == old(self).spec_tracker().pending_despawned(),
            final(self).spec_tracker().pending_spawned().len() == 0,
            final(self).spec_tracker().pending_despawned().len() == 0,
            forall|i: int| 0 <= i < old(self).directory().len() ==> ({
                let entity = (#[trigger] old(self).directory()[i]).1.entity;
                let input = old(self).directory()[i].1.latest_input;
                let rec = old(self).spec_world().rows()[entity as int];
                (rec.velocity is Some && rec.movement_speed is Some
                    && rec.position is Some && rec.spawn_origin is None)
                    ==> ({
                        let speed = rec.movement_speed->Some_0.speed_units as int;
                        &&& (final(self).spec_world().rows()[entity as int].velocity
                            matches Some(v)
                            && good_velocity(input.movement_x as int,
                                input.movement_y as int, speed, v)
                            && final(self).spec_world().rows()[entity as int].position
                                == Some(moved_position(rec.position->Some_0, v,
                                    old(self).spec_world().spec_bound_x(),
                                    old(self).spec_world().spec_bound_y())))
                    })
            }),
    {
        let ghost s0 = *self;
        process_player_inputs(self);
        let ghost s1 = *self;
        update_movement(self);
        let ghost s2 = *self;
        let ghost before_ai = *self;
        proof {
            assert(before_ai.wf());
        }
        crate::ai::update_monster_ai(&mut self.world, now_ms);
        proof {
            assert forall|i2: int| 0 <= i2 < self.directory().len()
                implies self.entry_ok(i2) by {
                assert(before_ai.entry_ok(i2));
            }
            assert forall|r2: int| 0 <= r2 < self.spec_world().rows().len()
                && (#[trigger] self.spec_world().rows()[r2]).player is Some
                implies exists|i2: int| 0 <= i2 < self.directory().len()
                    && (#[trigger] self.directory()[i2]).1.entity == r2 by {
                assert(before_ai.spec_world().rows()[r2].player is Some);
                let i2 = choose|i2: int| 0 <= i2 < before_ai.directory().len()
                    && (#[trigger] before_ai.directory()[i2]).1.entity == r2;
                assert(self.directory()[i2].1.entity == r2);
            }
            assert(self.wf());
        }
        let ghost before_attacks = *self;
        crate::ai::resolve_monster_attacks(&mut self.world, now_ms);
        proof {
            assert forall|i2: int| 0 <= i2 < self.directory().len()
                implies self.entry_ok(i2) by {
                assert(before_attacks.entry_ok(i2));
                assert(crate::ai::combat_phase_change(
                    before_attacks.spec_world().rows()[self.directory()[i2].1.entity as int],
                    self.spec_world().rows()[self.directory()[i2].1.entity as int]));
            }
            assert forall|r2: int| 0 <= r2 < self.spec_world().rows().len()
                && (#[trigger] self.spec_world().rows()[r2]).player is Some
                implies exists|i2: int| 0 <= i2 < self.directory().len()
                    && (#[trigger] self.directory()[i2]).1.entity == r2 by {
                assert(crate::ai::combat_phase_change(
                    before_attacks.spec_world().rows()[r2], self.spec_world().rows()[r2]));
                assert(before_attacks.spec_world().rows()[r2].player is Some);
                let i2 = choose|i2: int| 0 <= i2 < before_attacks.directory().len()
                    && (#[trigger] before_attacks.directory()[i2]).1.entity == r2;
                assert(self.directory()[i2].1.entity == r2);
            }
            assert(self.wf());
        }
        let ghost pre_statuses = *self;
        self.expire_statuses(now_ms);
        let ghost pre_deaths = *self;
        self.resolve_deaths();
        let ghost pre_self = *self;
        proof {
            assert(pre_self.wf());
            assert(old(self).spec_world().rows().len()
                <= self.spec_world().rows().len());
            assert(manager.entities_within(self.spec_world().rows().len() as int)) by {
                assert forall|i: int| 0 <= i < manager.view_records().len()
                    implies match (#[trigger] manager.view_records()[i]).spawned_entity {
                        Some(e) => e < self.spec_world().rows().len(),
                        None => true,
                    } by {
                    assert(old(manager).entities_within(
                        old(self).spec_world().rows().len() as int));
                }
            }
        }
        manager.update(&mut self.world, now_ms);
        proof {
            assert forall|i2: int| 0 <= i2 < self.directory().len()
                implies self.entry_ok(i2) by {
                assert(pre_self.entry_ok(i2));
                assert(self.spec_world().rows()[self.directory()[i2].1.entity as int]
                    == pre_self.spec_world().rows()[self.directory()[i2].1.entity as int]);
            }
            assert forall|r2: int| 0 <= r2 < self.spec_world().rows().len()
                && (#[trigger] self.spec_world().rows()[r2]).player is Some
                implies exists|i2: int| 0 <= i2 < self.directory().len()
                    && (#[trigger] self.directory()[i2]).1.entity == r2 by {
                assert(r2 < pre_self.spec_world().rows().len());
                assert(pre_self.spec_world().rows()[r2].player is Some);
                let i2 = choose|i2: int| 0 <= i2 < pre_self.directory().len()
                    && (#[trigger] pre_self.directory()[i2]).1.entity == r2;
                assert(self.directory()[i2].1.entity == r2);
            }
            assert(self.wf());
        }
        let ghost s7 = *self;
        let changes = self.emit_changes();
        proof {
            assert(changes.despawned@.subrange(0,
                old(self).spec_tracker().pending_despawned().len() as int)
                =~= old(self).spec_tracker().pending_despawned());
        }
        let ghost s8 = *self;
        advance_counters(self);
        proof {
            assert forall|i: int| 0 <= i < old(self).directory().len() implies ({
                let entity = (#[trigger] old(self).directory()[i]).1.entity;
                let input = old(self).directory()[i].1.latest_input;
                let rec = old(self).spec_world().rows()[entity as int];
                (rec.velocity is Some && rec.movement_speed is Some
                    && rec.position is Some && rec.spawn_origin is None)
                    ==> ({
                        let speed = rec.movement_speed->Some_0.speed_units as int;
                        &&& (final(self).spec_world().rows()[entity as int].velocity
                            matches Some(v)
                            && good_velocity(input.movement_x as int,
                                input.movement_y as int, speed, v)
                            && final(self).spec_world().rows()[entity as int].position
                                == Some(moved_position(rec.position->Some_0, v,
                                    old(self).spec_world().spec_bound_x(),
                                    old(self).spec_world().spec_bound_y())))
                    })
            }) by {
                let entity = old(self).directory()[i].1.entity;
                let rec = old(self).spec_world().rows()[entity as int];
                assert(s0.entry_ok(i));
                if rec.velocity is Some && rec.movement_speed is Some
                    && rec.position is Some && rec.spawn_origin is None {
                    let e = entity as int;
                    // Inputs: the velocity is the normalized input.
                    assert(crate::ai::velocity_only_change(
                        s0.spec_world().rows()[e], s1.spec_world().rows()[e]));
                    assert(s1.spec_world().rows()[e].velocity matches Some(v1)
                        && good_velocity(
                            old(self).directory()[i].1.latest_input.movement_x as int,
                            old(self).directory()[i].1.latest_input.movement_y as int,
                            rec.movement_speed->Some_0.speed_units as int, v1));
                    let v1 = s1.spec_world().rows()[e].velocity->Some_0;
                    // Movement: the position advances by one tick of it.
                    assert(s2.spec_world().rows()[e] == (EntityRec {
                        position: Some(moved_position(rec.position->Some_0, v1,
                            s0.spec_world().spec_bound_x(), s0.spec_world().spec_bound_y())),
                        ..s1.spec_world().rows()[e]
                    }));
                    // The remaining phases leave the row alone.
                    assert(!crate::ai::ai_driven(s2.spec_world().rows()[e]));
                    assert(before_ai.spec_world().rows()[e] == s2.spec_world().rows()[e]);
                    assert(crate::ai::combat_phase_change(
                        s2.spec_world().rows()[e], pre_statuses.spec_world().rows()[e]));
                    assert(pre_deaths.spec_world().rows()[e] == (EntityRec {
                        status_effects: pre_deaths.spec_world().rows()[e].status_effects,
                        ..pre_statuses.spec_world().rows()[e]
                    }));
                    assert(!dead_monster(pre_deaths.spec_world().rows()[e]));
                    assert(pre_self.spec_world().rows()[e]
                        == pre_deaths.spec_world().rows()[e]);
                    assert(s7.spec_world().rows()[e] == pre_self.spec_world().rows()[e]);
                    assert(s8.spec_world().rows()[e] == s7.spec_world().rows()[e]);
                    assert(final(self).spec_world().rows()[e]
                        == s8.spec_world().rows()[e]);
                }
            }
        }
        changes
    }

    /// Detect this tick's changes: the tracker compares positions to its
    /// snapshot and hands out the accumulated spawn and despawn sets.
    pub fn emit_changes(&mut self) -> (changes: EntityChanges)
        requires
            old(self).wf(),
        ensures
            final(self).wf(),
            final(self).spec_world() == old(self).spec_world(),
            final(self).directory() == old(self).directory(),
            final(self).spec_map() == old(self).spec_map(),
            final(self).spec_tick_count() == old(self).spec_tick_count(),
            final(self).spec_delta_sequence() == old(self).spec_delta_sequence(),
            changes.spawned@ == old(self).spec_tracker().pending_spawned(),
            changes.despawned@ == old(self).spec_tracker().pending_despawned(),
            forall|e: crate::components::EntityId| #[trigger] changes.updated@.contains(e)
                <==> crate::delta::moved_since(old(self).spec_world().rows(),
                    old(self).spec_tracker().snapshot(), e as int),
            forall|i: int, j: int|
                0 <= i < changes.updated@.len() && 0 <= j < changes.spawned@.len()
                ==> changes.updated@[i] != changes.spawned@[j],
            final(self).spec_tracker().pending_spawned().len() == 0,
            final(self).spec_tracker().pending_despawned().len() == 0,
            final(self).spec_tracker().snapshot().len()
                == final(self).spec_world().rows().len(),
            forall|e: int| 0 <= e < final(self).spec_world().rows().len()
                ==> final(self).spec_tracker().snapshot()[e]
                    == final(self).spec_world().rows()[e].position,
    {
        let changes = self.delta_tracker.update(&self.world);
        proof {
            assert forall|i2: int| 0 <= i2 < self.directory().len()
                implies self.entry_ok(i2) by {
                assert(old(self).entry_ok(i2));
            }
            assert forall|r2: int| 0 <= r2 < self.spec_world().rows().len()
                && (#[trigger] self.spec_world().rows()[r2]).player is Some
                implies exists|i2: int| 0 <= i2 < self.directory().len()
                    && (#[trigger] self.directory()[i2]).1.entity == r2 by {
                let i2 = choose|i2: int| 0 <= i2 < old(self).directory().len()
                    && (#[trigger] old(self).directory()[i2]).1.entity == r2;
                assert(self.directory()[i2].1.entity == r2);
            }
        }
        changes
    }
}

} // verus!
