//! Per-tick change detection: the tracker that compares current
//! positions to the last tick's snapshot, the spawned/despawned
//! accumulators, and the per-client vision filter.

use vstd::prelude::*;
use crate::components::{CharacterClass, EntityId, Position, Species, Stats};
use crate::units::{dist_sq, dist_sq_spec, COORD_LIMIT};
use crate::world::{EntityRec, World};

verus! {

/// A position change below this many units (one hundredth of a pixel)
/// on both axes does not count as movement.
pub const MOVE_EPSILON_UNITS: i64 = 600;

/// Vision radius around a player, in position units: 640 pixels.
pub const VISION_RANGE_UNITS: i64 = 38_400_000;

/// What one tick changed: entities that moved, entities born this tick,
/// and the ids of entities that left the world.
pub struct EntityChanges {
    pub spawned: Vec<EntityId>,
    pub updated: Vec<EntityId>,
    pub despawned: Vec<u32>,
}

/// Row `e` moved since the snapshot: it has a position now, the snapshot
/// has one for it, and they differ by more than the epsilon on some
/// axis.
pub open spec fn moved_since(rows: Seq<EntityRec>, snap: Seq<Option<Position>>, e: int) -> bool {
    &&& 0 <= e < rows.len()
    &&& rows[e].position is Some
    &&& 0 <= e < snap.len()
    &&& snap[e] is Some
    &&& ({
        let c = rows[e].position->Some_0;
        let l = snap[e]->Some_0;
        c.x - l.x > MOVE_EPSILON_UNITS || l.x - c.x > MOVE_EPSILON_UNITS
            || c.y - l.y > MOVE_EPSILON_UNITS || l.y - c.y > MOVE_EPSILON_UNITS
    })
}

/// Tracks the last tick's positions and accumulates spawns and despawns
/// between updates.
pub struct DeltaTracker {
    last_positions: Vec<Option<Position>>,
    newly_spawned: Vec<EntityId>,
    despawned: Vec<u32>,
}

impl DeltaTracker {
    /// The position snapshot of the last update.
    pub closed spec fn snapshot(self) -> Seq<Option<Position>> {
        self.last_positions@
    }

    /// Entities marked spawned since the last update.
    pub closed spec fn pending_spawned(self) -> Seq<EntityId> {
        self.newly_spawned@
    }

    /// Ids marked despawned since the last update.
    pub closed spec fn pending_despawned(self) -> Seq<u32> {
        self.despawned@
    }

    /// Every pending spawn is newer than the snapshot — its id points
    /// past the snapshot's end — and the snapshot holds only map
    /// coordinates.
    pub open spec fn wf(self) -> bool {
        &&& forall|i: int| 0 <= i < self.pending_spawned().len()
            ==> self.pending_spawned()[i] >= self.snapshot().len()
        &&& forall|e: int| 0 <= e < self.snapshot().len()
            ==> match #[trigger] self.snapshot()[e] {
                Some(p) => 0 <= p.x <= crate::world::MAX_BOUND_UNITS
                    && 0 <= p.y <= crate::world::MAX_BOUND_UNITS,
                None => true,
            }
    }

    /// A tracker with an empty snapshot and no pending changes.
    pub fn new() -> (r: Self)
        ensures
            r.wf(),
            r.snapshot().len() == 0,
            r.pending_spawned().len() == 0,
            r.pending_despawned().len() == 0,
    {
        DeltaTracker { last_positions: Vec::new(), newly_spawned: Vec::new(), despawned: Vec::new() }
    }

    /// Record a freshly spawned entity; its id must be newer than the
    /// snapshot, which holds of every id the world hands out after the
    /// last update.
    pub fn mark_spawned(&mut self, entity: EntityId)
        requires
            old(self).wf(),
            entity >= old(self).snapshot().len(),
        ensures
            final(self).wf(),
            final(self).snapshot() == old(self).snapshot(),
            final(self).pending_spawned() == old(self).pending_spawned().push(entity),
            final(self).pending_despawned() == old(self).pending_despawned(),
    {
        self.newly_spawned.push(entity);
        proof {
            assert forall|i: int| 0 <= i < self.newly_spawned@.len()
                implies self.newly_spawned@[i] >= self.last_positions@.len() by {
                if i < old(self).pending_spawned().len() {
                    assert(self.newly_spawned@[i] == old(self).pending_spawned()[i]);
                }
            }
        }
    }

    /// Record a despawned entity id and drop it from the snapshot, so it
    /// can no longer count as updated.
    pub fn mark_despawned(&mut self, entity: EntityId)
        requires
            old(self).wf(),
        ensures
            final(self).wf(),
            final(self).snapshot().len() == old(self).snapshot().len(),
            final(self).pending_spawned() == old(self).pending_spawned(),
            final(self).pending_despawned() == old(self).pending_despawned().push(entity as u32),
            entity < old(self).snapshot().len()
                ==> final(self).snapshot()
                    == old(self).snapshot().update(entity as int, None::<Position>),
            entity >= old(self).snapshot().len()
                ==> final(self).snapshot() == old(self).snapshot(),
    {
        self.despawned.push(entity);
        if (entity as usize) < self.last_positions.len() {
            let slot = &mut self.last_positions[entity as usize];
            *slot = None;
            proof {
                assert(self.last_positions@
                    =~= old(self).snapshot().update(entity as int, None::<Position>));
            }
        }
        proof {
            assert(self.last_positions@.len() == old(self).snapshot().len());
            assert forall|e2: int| 0 <= e2 < self.last_positions@.len()
                implies match #[trigger] self.last_positions@[e2] {
                    Some(p) => 0 <= p.x <= crate::world::MAX_BOUND_UNITS
                        && 0 <= p.y <= crate::world::MAX_BOUND_UNITS,
                    None => true,
                } by {
                if e2 != entity {
                    assert(self.last_positions@[e2] == old(self).snapshot()[e2]);
                }
            }
            assert(self.pending_spawned() == old(self).pending_spawned());
            assert(self.wf());
        }
    }

    /// Compare the world against the snapshot: entities whose position
    /// moved beyond the epsilon are *updated*; the pending spawn and
    /// despawn accumulators are handed out and reset; and the snapshot
    /// is replaced by the current positions.
    ///
    /// No entity is both updated and spawned: a spawn of this tick has
    /// no snapshot entry yet, so it cannot count as moved.
    pub fn update(&mut self, world: &World) -> (changes: EntityChanges)
        requires
            old(self).wf(),
            world.wf(),
        ensures
            final(self).wf(),
            changes.spawned@ == old(self).pending_spawned(),
            changes.despawned@ == old(self).pending_despawned(),
            forall|e: EntityId| #[trigger] changes.updated@.contains(e)
                <==> moved_since(world.rows(), old(self).snapshot(), e as int),
            forall|i: int, j: int| 0 <= i < j < changes.updated@.len()
                ==> changes.updated@[i] != changes.updated@[j],
            forall|i: int, j: int|
                0 <= i < changes.updated@.len() && 0 <= j < changes.spawned@.len()
                ==> changes.updated@[i] != changes.spawned@[j],
            final(self).snapshot().len() == world.rows().len(),
            forall|e: int| 0 <= e < world.rows().len()
                ==> final(self).snapshot()[e] == world.rows()[e].position,
            final(self).pending_spawned().len() == 0,
            final(self).pending_despawned().len() == 0,
    {
        let n: u32 = world.row_count();
        let mut updated: Vec<EntityId> = Vec::new();
        let mut current: Vec<Option<Position>> = Vec::new();
        let mut e: u32 = 0;
        while e < n
            invariant
                world.wf(),
                n == world.rows().len(),
                0 <= e <= n,
                current@.len() == e,
                forall|k: int| 0 <= k < e
                    ==> current@[k] == world.rows()[k].position,
                forall|q: EntityId| #[trigger] updated@.contains(q)
                    <==> moved_since(world.rows(), old(self).snapshot(), q as int) && q < e,
                forall|i: int, j: int| 0 <= i < j < updated@.len()
                    ==> updated@[i] != updated@[j],
                self.last_positions@ == old(self).snapshot(),
                self.newly_spawned@ == old(self).pending_spawned(),
                self.despawned@ == old(self).pending_despawned(),
                old(self).wf(),
            decreases n - e,
        {
            let cur = world.position(e);
            match cur {
                Some(c) => {
                    let mut moved: bool = false;
                    if (e as usize) < self.last_positions.len() {
                        match self.last_positions[e as usize] {
                            Some(l) => {
                                if c.x - l.x > MOVE_EPSILON_UNITS
                                    || l.x - c.x > MOVE_EPSILON_UNITS
                                    || c.y - l.y > MOVE_EPSILON_UNITS
                                    || l.y - c.y > MOVE_EPSILON_UNITS {
                                    moved = true;
                                }
                            }
                            None => {}
                        }
                    }
                    if moved {
                        let ghost pre = updated@;
                        proof {
                            assert(!pre.contains(e));
                        }
                        updated.push(e);
                        proof {
                            assert forall|q: EntityId| true
                                implies (#[trigger] updated@.contains(q)
                                    <==> (pre.contains(q) || q == e)) by {
                                crate::chunks::lemma_push_contains_pub(pre, e, q);
                            }
                            assert forall|i: int, j: int| 0 <= i < j < updated@.len()
                                implies updated@[i] != updated@[j] by {
                                if j == updated@.len() - 1 {
                                    assert(updated@[i] == pre[i]);
                                    assert(pre.contains(pre[i]));
                                } else {
                                    assert(updated@[i] == pre[i] && updated@[j] == pre[j]);
                                }
                            }
                        }
                    }
                }
                None => {}
            }
            current.push(cur);
            e = e + 1;
        }
        let mut spawned: Vec<EntityId> = Vec::new();
        core::mem::swap(&mut spawned, &mut self.newly_spawned);
        let mut despawned: Vec<u32> = Vec::new();
        core::mem::swap(&mut despawned, &mut self.despawned);
        self.last_positions = current;
        proof {
            assert forall|i: int, j: int|
                0 <= i < updated@.len() && 0 <= j < spawned@.len()
                implies updated@[i] != spawned@[j] by {
                assert(updated@.contains(updated@[i]));
                assert(moved_since(world.rows(), old(self).snapshot(), updated@[i] as int));
                assert(spawned@[j] >= old(self).snapshot().len());
            }
        }
        EntityChanges { spawned, updated, despawned }
    }
}

/// The spawned and despawned parts of `filtered` are those of `changes`,
/// and an updated entity passes the filter exactly when it stands within
/// the vision radius of `(px, py)`.
pub open spec fn vision_filtered(
    rows: Seq<EntityRec>, changes_updated: Seq<EntityId>, filtered_updated: Seq<EntityId>,
    px: int, py: int) -> bool {
    forall|e: EntityId| #[trigger] filtered_updated.contains(e)
        <==> changes_updated.contains(e) && in_vision(rows, e, px, py)
}

/// Row `e` stands within the vision radius of `(px, py)`.
pub open spec fn in_vision(rows: Seq<EntityRec>, e: EntityId, px: int, py: int) -> bool {
    &&& e < rows.len()
    &&& rows[e as int].position is Some
    &&& dist_sq_spec(rows[e as int].position->Some_0.x as int,
            rows[e as int].position->Some_0.y as int, px, py)
        <= VISION_RANGE_UNITS * VISION_RANGE_UNITS
}

/// Filter a tick's changes for one client: updated and spawned entities
/// are kept only within the 640-pixel vision radius of the player at
/// `(px, py)`; despawned ids pass unfiltered, since the client must
/// forget them regardless of where they died.
pub fn filter_changes_by_vision(world: &World, changes: &EntityChanges, px: i64, py: i64)
    -> (r: EntityChanges)
    requires
        world.wf(),
        0 <= px <= COORD_LIMIT,
        0 <= py <= COORD_LIMIT,
    ensures
        vision_filtered(world.rows(), changes.updated@, r.updated@, px as int, py as int),
        vision_filtered(world.rows(), changes.spawned@, r.spawned@, px as int, py as int),
        r.despawned@ == changes.despawned@,
        forall|i: int, j: int| 0 <= i < j < r.updated@.len() ==> r.updated@[i] != r.updated@[j]
            || !(forall|a: int, b: int| 0 <= a < b < changes.updated@.len()
                ==> changes.updated@[a] != changes.updated@[b]),
{
    let updated = filter_in_vision(world, &changes.updated, px, py);
    let spawned = filter_in_vision(world, &changes.spawned, px, py);
    let mut despawned: Vec<u32> = Vec::new();
    let mut i: usize = 0;
    while i < changes.despawned.len()
        invariant
            0 <= i <= changes.despawned@.len(),
            despawned@ == changes.despawned@.subrange(0, i as int),
        decreases changes.despawned@.len() - i,
    {
        despawned.push(changes.despawned[i]);
        proof {
            assert(despawned@ =~= changes.despawned@.subrange(0, i + 1));
        }
        i = i + 1;
    }
    proof {
        assert(despawned@ =~= changes.despawned@);
    }
    EntityChanges { spawned, updated, despawned }
}

/// The entities of `list` standing within the vision radius of
/// `(px, py)`.
fn filter_in_vision(world: &World, list: &Vec<EntityId>, px: i64, py: i64)
    -> (r: Vec<EntityId>)
    requires
        world.wf(),
        0 <= px <= COORD_LIMIT,
        0 <= py <= COORD_LIMIT,
    ensures
        forall|e: EntityId| #[trigger] r@.contains(e)
            <==> list@.contains(e) && in_vision(world.rows(), e, px as int, py as int),
        (forall|a: int, b: int| 0 <= a < b < list@.len() ==> list@[a] != list@[b])
            ==> forall|i: int, j: int| 0 <= i < j < r@.len() ==> r@[i] != r@[j],
{
    let mut r: Vec<EntityId> = Vec::new();
    let mut i: usize = 0;
    while i < list.len()
        invariant
            world.wf(),
            0 <= px <= COORD_LIMIT,
            0 <= py <= COORD_LIMIT,
            0 <= i <= list@.len(),
            forall|e: EntityId| #[trigger] r@.contains(e)
                <==> (exists|k: int| 0 <= k < i && list@[k] == e)
                    && in_vision(world.rows(), e, px as int, py as int),
            (forall|a: int, b: int| 0 <= a < b < list@.len() ==> list@[a] != list@[b])
                ==> forall|a: int, b: int| 0 <= a < b < r@.len() ==> r@[a] != r@[b],
            (forall|a: int, b: int| 0 <= a < b < list@.len() ==> list@[a] != list@[b])
                ==> forall|a: int| 0 <= a < r@.len()
                    ==> exists|k: int| 0 <= k < i && list@[k] == #[trigger] r@[a],
        decreases list@.len() - i,
    {
        let e: EntityId = list[i];
        let mut keep: bool = false;
        match world.position(e) {
            Some(p) => {
                let d2: i64 = dist_sq(p.x, p.y, px, py);
                if d2 <= VISION_RANGE_UNITS * VISION_RANGE_UNITS {
                    keep = true;
                }
            }
            None => {}
        }
        if keep && !id_in(&r, e) {
            let ghost pre = r@;
            r.push(e);
            proof {
                assert forall|q: EntityId| true
                    implies (#[trigger] r@.contains(q) <==> (pre.contains(q) || q == e)) by {
                    crate::chunks::lemma_push_contains_pub(pre, e, q);
                }
                assert(list@[i as int] == e);
            }
        }
        i = i + 1;
    }
    proof {
        assert forall|e: EntityId| list@.contains(e)
                && in_vision(world.rows(), e, px as int, py as int)
            implies #[trigger] r@.contains(e) by {
            let k = choose|k: int| 0 <= k < list@.len() && list@[k] == e;
            assert(0 <= k < list@.len() && list@[k] == e);
        }
        assert forall|e: EntityId| #[trigger] r@.contains(e)
            implies list@.contains(e) && in_vision(world.rows(), e, px as int, py as int) by {
            let k = choose|k: int| 0 <= k < list@.len() && list@[k] == e
                && in_vision(world.rows(), e, px as int, py as int);
            assert(list@[k] == e);
        }
    }
    r
}

/// Whether `v` holds the id `p`.
fn id_in(v: &Vec<EntityId>, p: EntityId) -> (r: bool)
    ensures
        r == v@.contains(p),
{
    let mut i: usize = 0;
    while i < v.len()
        invariant
            0 <= i <= v@.len(),
            forall|k: int| 0 <= k < i ==> v@[k] != p,
        decreases v@.len() - i,
    {
        if v[i] == p {
            return true;
        }
        i = i + 1;
    }
    assert(!v@.contains(p));
    false
}

/// Everything a client learns about one entity.
#[derive(Debug, Clone)]
pub struct EntityInfo {
    pub id: u32,
    pub x: i64,
    pub y: i64,
    pub vx: i64,
    pub vy: i64,
    pub sprite_id: String,
    pub health_current: i32,
    pub health_max: i32,
    pub stats: Stats,
    pub name: String,
    pub species: Species,
    pub class: CharacterClass,
    pub level: u32,
    pub experience: u64,
}

/// Row `e` carries the four components every encoded entity needs.
pub open spec fn encodable(rows: Seq<EntityRec>, e: EntityId) -> bool {
    &&& e < rows.len()
    &&& rows[e as int].position is Some
    &&& rows[e as int].velocity is Some
    &&& rows[e as int].health is Some
    &&& rows[e as int].stats is Some
}

/// Collect what a client learns about entity `e`: its position,
/// velocity, health and stats, with the sprite, name and character
/// falling back to fixed defaults when absent.  An entity missing a
/// required component yields nothing.
pub fn collect_entity_info(world: &World, entity: EntityId) -> (r: Option<EntityInfo>)
    requires
        world.wf(),
    ensures
        r is Some <==> encodable(world.rows(), entity),
        r matches Some(info) ==> ({
            let rec = world.rows()[entity as int];
            &&& info.id == entity
            &&& info.x == rec.position->Some_0.x
            &&& info.y == rec.position->Some_0.y
            &&& info.vx == rec.velocity->Some_0.dx
            &&& info.vy == rec.velocity->Some_0.dy
            &&& info.health_current == rec.health->Some_0.current
            &&& info.health_max == rec.health->Some_0.max
            &&& info.stats == rec.stats->Some_0
            &&& (rec.character matches Some(c) ==> info.species == c.species
                && info.class == c.class && info.level == c.level
                && info.experience == c.experience)
            &&& (rec.character is None ==> info.species is Human
                && info.class is Fighter && info.level == 1 && info.experience == 0)
            &&& (rec.player matches Some(pl) ==> info.name@ == pl.name@)
            &&& (rec.player is None ==> info.name@ == "NPC"@)
            &&& (rec.sprite matches Some(sp) ==> info.sprite_id@ == sp.sprite_id@)
            &&& (rec.sprite is None ==> info.sprite_id@ == "default"@)
        }),
{
    let position = world.position(entity);
    let velocity = world.velocity(entity);
    let health = world.health(entity);
    let stats = world.stats(entity);
    if position.is_none() || velocity.is_none() || health.is_none() || stats.is_none() {
        return None;
    }
    let p = position.unwrap();
    let v = velocity.unwrap();
    let h = health.unwrap();
    let s = stats.unwrap();
    let sprite_id: String = match world.sprite_id_clone(entity) {
        Some(sp) => sp,
        None => "default".to_string(),
    };
    let name: String = match world.player_name_clone(entity) {
        Some(nm) => nm,
        None => "NPC".to_string(),
    };
    let (species, class, level, experience) = match world.character(entity) {
        Some(c) => (c.species, c.class, c.level, c.experience),
        None => (Species::Human, CharacterClass::Fighter, 1u32, 0u64),
    };
    Some(EntityInfo {
        id: entity,
        x: p.x,
        y: p.y,
        vx: v.dx,
        vy: v.dy,
        sprite_id,
        health_current: h.current,
        health_max: h.max,
        stats: s,
        name,
        species,
        class,
        level,
        experience,
    })
}

} // verus!
