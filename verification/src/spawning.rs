//! Monster spawning: the spawn-point manager with its respawn timers,
//! and the creation of a monster entity from its template.
//!
//! The manager's invariant keeps every entity id the `spawned_entity` of
//! at most one record, and its `update` creates a monster at a record
//! only once the record's cooldown has passed since the last spawn.

use vstd::prelude::*;
use crate::components::{
    AIController, ArmorClass, AttackSpeed, Boss, Collider, Cooldowns, DetectionRange, EntityId,
    Health, Monster, MonsterTrait, MonsterTraits, MonsterType, MovementSpeed, Position,
    Regeneration, SpawnPoint, Sprite, StatusEffects, Velocity,
};
use crate::monsters::{
    monster_ac_spec, monster_cooldown_spec, monster_detection_spec, monster_hp_spec,
    monster_speed_spec, monster_sprite_spec, monster_stats_spec, monster_traits_spec,
    MonsterTemplate,
};
use crate::units::clamped;
use crate::world::{EntityRec, World};

verus! {

/// Respawn cooldown of a regular monster, in seconds.
pub const REGULAR_RESPAWN_SECONDS: u64 = 300;

/// Respawn cooldown of a boss, in hours.
pub const BOSS_RESPAWN_HOURS: u32 = 24;

/// How far a monster may roam from its spawn, in position units
/// (ten tiles).
pub const ROAM_DISTANCE_UNITS: i64 = 19_200_000;

/// One spawn record: where and what to spawn, and the bookkeeping of the
/// last spawn.
#[derive(Debug, Clone, Copy, PartialEq, Eq, Structural)]
pub struct SpawnPointData {
    pub id: u64,
    pub monster_type: MonsterType,
    pub x: i64,
    pub y: i64,
    pub is_boss: bool,
    pub respawn_cooldown_seconds: u64,
    pub last_spawn_time: Option<u64>,
    pub spawned_entity: Option<EntityId>,
}

/// Whether `ts` holds `needle`.
fn traits_contain(ts: &Vec<MonsterTrait>, needle: MonsterTrait) -> (r: bool)
    ensures
        r == ts@.contains(needle),
{
    let mut i: usize = 0;
    while i < ts.len()
        invariant
            0 <= i <= ts@.len(),
            forall|k: int| 0 <= k < i ==> ts@[k] != needle,
        decreases ts@.len() - i,
    {
        if ts[i] == needle {
            return true;
        }
        i = i + 1;
    }
    assert(!ts@.contains(needle));
    false
}

/// Spawn a monster of `monster_type` at `(x, y)` (clamped to the map
/// bounds), giving it every component of its template; the fresh entity's
/// handle is returned.
pub fn spawn_monster(world: &mut World, monster_type: MonsterType, x: i64, y: i64, is_boss: bool)
    -> (e: EntityId)
    requires
        old(world).wf(),
        old(world).rows().len() < u32::MAX,
    ensures
        final(world).wf(),
        final(world).spec_bound_x() == old(world).spec_bound_x(),
        final(world).spec_bound_y() == old(world).spec_bound_y(),
        e == old(world).rows().len(),
        final(world).rows().len() == old(world).rows().len() + 1,
        forall|k: int| 0 <= k < old(world).rows().len()
            ==> final(world).rows()[k] == old(world).rows()[k],
        final(world).spec_alive(e),
        ({
            let rec = final(world).rows()[e as int];
            &&& rec.monster == Some(Monster {
                monster_type,
                level: crate::monsters::monster_level_spec(monster_type) as u32,
                xp_reward: crate::monsters::monster_xp_spec(monster_type) as u64,
            })
            &&& rec.health == Some(Health {
                current: monster_hp_spec(monster_type) as i32,
                max: monster_hp_spec(monster_type) as i32,
            })
            &&& rec.position matches Some(p)
                && p.x == clamped(x as int, old(world).spec_bound_x())
                && p.y == clamped(y as int, old(world).spec_bound_y())
            &&& rec.velocity == Some(Velocity { dx: 0i64, dy: 0i64 })
            &&& rec.ai matches Some(ai) && ai.state is Idle && ai.target is None
                && ai.last_seen_position is None && ai.chase_timer_ms == 0
            &&& rec.movement_speed == Some(MovementSpeed {
                speed_units: monster_speed_spec(monster_type) as i64,
            })
            &&& rec.stats == Some(monster_stats_spec(monster_type))
            &&& rec.armor_class == Some(ArmorClass {
                value: monster_ac_spec(monster_type) as i32,
            })
            &&& rec.attack_speed == Some(AttackSpeed {
                cooldown_ms: monster_cooldown_spec(monster_type) as u64,
            })
            &&& rec.detection_range == Some(DetectionRange {
                tiles: monster_detection_spec(monster_type) as u32,
            })
            &&& rec.spawn_origin matches Some(o)
                && o.x == clamped(x as int, old(world).spec_bound_x())
                && o.y == clamped(y as int, old(world).spec_bound_y())
                && o.max_distance == ROAM_DISTANCE_UNITS
            &&& rec.sprite matches Some(sp) && sp.sprite_id@ == monster_sprite_spec(monster_type)
            &&& rec.collider == Some(Collider { radius: 16u32 })
            &&& rec.cooldowns == Some(Cooldowns { attack: None, ability: None })
            &&& rec.status_effects matches Some(se) && se.effects@.len() == 0
            &&& rec.monster_traits matches Some(mt)
                && mt.traits@ == monster_traits_spec(monster_type)
            &&& rec.boss == if is_boss {
                Some(Boss { respawn_cooldown_hours: 24u32 })
            } else {
                None::<Boss>
            }
            &&& rec.player is None
            &&& rec.item is None
            &&& rec.regeneration is Some
                <==> monster_traits_spec(monster_type).contains(MonsterTrait::Regeneration)
        }),
{
    let template = MonsterTemplate::get(monster_type);
    let (bx, by): (i64, i64) = world.bounds();
    let px = crate::units::clamp_coord(x, bx);
    let py = crate::units::clamp_coord(y, by);
    let mut rec = EntityRec::empty();
    rec.position = Some(Position { x: px, y: py });
    rec.velocity = Some(Velocity { dx: 0, dy: 0 });
    rec.health = Some(Health { current: template.hp, max: template.hp });
    rec.stats = Some(template.stats);
    rec.monster = Some(Monster {
        monster_type: template.monster_type,
        level: template.level,
        xp_reward: template.xp_reward,
    });
    rec.armor_class = Some(ArmorClass { value: template.ac });
    rec.movement_speed = Some(MovementSpeed { speed_units: template.speed_units });
    rec.attack_speed = Some(AttackSpeed { cooldown_ms: template.attack_cooldown_ms });
    rec.detection_range = Some(DetectionRange { tiles: template.detection_range_tiles });
    rec.spawn_origin = Some(SpawnPoint { x: px, y: py, max_distance: ROAM_DISTANCE_UNITS });
    rec.ai = Some(AIController::default());
    rec.sprite = Some(Sprite { sprite_id: template.sprite_id.to_string() });
    rec.collider = Some(Collider { radius: 16 });
    rec.cooldowns = Some(Cooldowns::default());
    rec.status_effects = Some(StatusEffects::default());
    if traits_contain(&template.traits, MonsterTrait::Regeneration) {
        rec.regeneration = Some(Regeneration {
            hp_per_second: template.hp / 20,
            disabled_until: None,
        });
    }
    rec.monster_traits = Some(MonsterTraits { traits: template.traits });
    if is_boss {
        rec.boss = Some(Boss { respawn_cooldown_hours: BOSS_RESPAWN_HOURS });
    }
    world.spawn(rec)
}

/// Despawn a monster entity when it dies; a stale handle is a no-op.
pub fn despawn_monster(world: &mut World, entity: EntityId)
    requires
        old(world).wf(),
    ensures
        final(world).wf(),
        !final(world).spec_alive(entity),
        final(world).rows().len() == old(world).rows().len(),
        final(world).spec_bound_x() == old(world).spec_bound_x(),
        final(world).spec_bound_y() == old(world).spec_bound_y(),
        forall|o: EntityId| o != entity ==> final(world).spec_alive(o) == old(world).spec_alive(o),
{
    let _ = world.despawn(entity);
}

/// The record's monster is gone: never spawned, despawned, or standing
/// dead in the world.
pub open spec fn monster_down(rows: Seq<EntityRec>, entry: SpawnPointData) -> bool {
    match entry.spawned_entity {
        None => true,
        Some(e) => e >= rows.len()
            || !(rows[e as int].ai matches Some(ai) && !(ai.state is Dead)),
    }
}

/// The record's cooldown has run out (or it never spawned at all).
pub open spec fn cooldown_ready(entry: SpawnPointData, now_ms: u64) -> bool {
    match entry.last_spawn_time {
        None => true,
        Some(t) => now_ms >= t + entry.respawn_cooldown_seconds * 1000,
    }
}

/// A record spawns this tick exactly when its monster is gone and its
/// cooldown has run out.
pub open spec fn spawn_due(rows: Seq<EntityRec>, entry: SpawnPointData, now_ms: u64) -> bool {
    monster_down(rows, entry) && cooldown_ready(entry, now_ms)
}

/// All spawn records, in creation order; a record's `id` is its index.
pub struct SpawnPointManager {
    pub spawn_points: Vec<SpawnPointData>,
}

impl SpawnPointManager {
    /// The records.
    pub open spec fn view_records(self) -> Seq<SpawnPointData> {
        self.spawn_points@
    }

    /// The manager invariant: ids equal indices, cooldowns are the two
    /// legal values, and an entity id is the `spawned_entity` of at most
    /// one record.
    pub open spec fn wf(self) -> bool {
        &&& forall|i: int| 0 <= i < self.view_records().len()
            ==> (#[trigger] self.view_records()[i]).id == i
        &&& forall|i: int| 0 <= i < self.view_records().len()
            ==> (#[trigger] self.view_records()[i]).respawn_cooldown_seconds
                == if self.view_records()[i].is_boss { BOSS_RESPAWN_HOURS as int * 3600 }
                   else { REGULAR_RESPAWN_SECONDS as int }
        &&& forall|i: int, j: int|
            0 <= i < self.view_records().len() && 0 <= j < self.view_records().len() && i != j
                && (#[trigger] self.view_records()[i]).spawned_entity is Some
                && (#[trigger] self.view_records()[j]).spawned_entity is Some
            ==> self.view_records()[i].spawned_entity != self.view_records()[j].spawned_entity
    }

    /// Every tracked entity handle points into the first `world_len` rows.
    pub open spec fn entities_within(self, world_len: int) -> bool {
        forall|i: int| 0 <= i < self.view_records().len()
            ==> match (#[trigger] self.view_records()[i]).spawned_entity {
                Some(e) => e < world_len,
                None => true,
            }
    }

    /// A manager with no records.
    pub fn new() -> (r: Self)
        ensures
            r.wf(),
            r.view_records().len() == 0,
            r.entities_within(0),
    {
        SpawnPointManager { spawn_points: Vec::new() }
    }

    /// Adds a record for `monster_type` at `(x, y)` and returns its id,
    /// which is its index.  Bosses get the long cooldown.
    pub fn add_spawn_point(&mut self, monster_type: MonsterType, x: i64, y: i64, is_boss: bool)
        -> (id: u64)
        requires
            old(self).wf(),
            old(self).view_records().len() < usize::MAX,
        ensures
            final(self).wf(),
            id == old(self).view_records().len(),
            final(self).view_records() == old(self).view_records().push(SpawnPointData {
                id,
                monster_type,
                x,
                y,
                is_boss,
                respawn_cooldown_seconds: if is_boss { (BOSS_RESPAWN_HOURS * 3600) as u64 }
                    else { REGULAR_RESPAWN_SECONDS },
                last_spawn_time: None,
                spawned_entity: None,
            }),
            forall|wl: int| old(self).entities_within(wl) ==> final(self).entities_within(wl),
    {
        let id: u64 = self.spawn_points.len() as u64;
        let respawn_cooldown: u64 = if is_boss {
            (BOSS_RESPAWN_HOURS as u64) * 3600
        } else {
            REGULAR_RESPAWN_SECONDS
        };
        self.spawn_points.push(SpawnPointData {
            id,
            monster_type,
            x,
            y,
            is_boss,
            respawn_cooldown_seconds: respawn_cooldown,
            last_spawn_time: None,
            spawned_entity: None,
        });
        id
    }

    /// One respawn pass at time `now_ms`: every record whose monster is
    /// gone and whose cooldown has run out spawns a fresh monster at the
    /// record's origin; every other record — in particular every record
    /// whose cooldown is still running — is left untouched, and no
    /// existing entity is altered.
    pub fn update(&mut self, world: &mut World, now_ms: u64)
        requires
            old(self).wf(),
            old(world).wf(),
            old(self).entities_within(old(world).rows().len() as int),
            old(world).rows().len() + old(self).view_records().len() < u32::MAX,
        ensures
            final(self).wf(),
            final(world).wf(),
            final(world).spec_bound_x() == old(world).spec_bound_x(),
            final(world).spec_bound_y() == old(world).spec_bound_y(),
            final(self).entities_within(final(world).rows().len() as int),
            final(self).view_records().len() == old(self).view_records().len(),
            old(world).rows().len() <= final(world).rows().len(),
            forall|k: int| 0 <= k < old(world).rows().len()
                ==> final(world).rows()[k] == old(world).rows()[k],
            forall|k: int| old(world).rows().len() <= k < final(world).rows().len()
                ==> !((#[trigger] final(world).rows()[k]).player is Some),
            forall|i: int| 0 <= i < old(self).view_records().len()
                && !spawn_due(old(world).rows(), #[trigger] old(self).view_records()[i], now_ms)
                ==> final(self).view_records()[i] == old(self).view_records()[i],
            forall|i: int| 0 <= i < old(self).view_records().len()
                && spawn_due(old(world).rows(), #[trigger] old(self).view_records()[i], now_ms)
                ==> ({
                    let e0 = old(self).view_records()[i];
                    let e1 = final(self).view_records()[i];
                    &&& e1.last_spawn_time == Some(now_ms)
                    &&& e1.spawned_entity matches Some(e) && e >= old(world).rows().len()
                        && final(world).spec_alive(e)
                        && (final(world).rows()[e as int].monster matches Some(m)
                            && m.monster_type == e0.monster_type)
                        && (final(world).rows()[e as int].position matches Some(p)
                            && p.x == clamped(e0.x as int, final(world).spec_bound_x())
                            && p.y == clamped(e0.y as int, final(world).spec_bound_y()))
                    &&& e1.id == e0.id
                    &&& e1.monster_type == e0.monster_type
                    &&& e1.x == e0.x && e1.y == e0.y
                    &&& e1.is_boss == e0.is_boss
                    &&& e1.respawn_cooldown_seconds == e0.respawn_cooldown_seconds
                }),
    {
        let ghost old_rows = old(world).rows();
        let ghost old_records = old(self).view_records();
        let n: usize = self.spawn_points.len();
        let mut i: usize = 0;
        while i < n
            invariant
                n == old_records.len(),
                old_records == old(self).view_records(),
                old_rows == old(world).rows(),
                old(self).wf(),
                old(self).entities_within(old_rows.len() as int),
                old_rows.len() + n < u32::MAX,
                0 <= i <= n,
                self.view_records().len() == n,
                world.wf(),
                self.wf(),
                world.spec_bound_x() == old(world).spec_bound_x(),
                world.spec_bound_y() == old(world).spec_bound_y(),
                old_rows.len() <= world.rows().len(),
                world.rows().len() <= old_rows.len() + i,
                forall|k: int| 0 <= k < old_rows.len() ==> world.rows()[k] == old_rows[k],
                forall|k: int| old_rows.len() <= k < world.rows().len()
                    ==> !((#[trigger] world.rows()[k]).player is Some),
                self.entities_within(world.rows().len() as int),
                forall|j: int| i <= j < n ==> self.view_records()[j] == old_records[j],
                forall|j: int| 0 <= j < i
                    && !spawn_due(old_rows, #[trigger] old_records[j], now_ms)
                    ==> self.view_records()[j] == old_records[j],
                forall|j: int| 0 <= j < i
                    && spawn_due(old_rows, #[trigger] old_records[j], now_ms)
                    ==> ({
                        let e0 = old_records[j];
                        let e1 = self.view_records()[j];
                        &&& e1.last_spawn_time == Some(now_ms)
                        &&& e1.spawned_entity matches Some(e) && e >= old_rows.len()
                            && world.spec_alive(e)
                            && (world.rows()[e as int].monster matches Some(m)
                                && m.monster_type == e0.monster_type)
                            && (world.rows()[e as int].position matches Some(p)
                                && p.x == clamped(e0.x as int, world.spec_bound_x())
                                && p.y == clamped(e0.y as int, world.spec_bound_y()))
                        &&& e1.id == e0.id
                        &&& e1.monster_type == e0.monster_type
                        &&& e1.x == e0.x && e1.y == e0.y
                        &&& e1.is_boss == e0.is_boss
                        &&& e1.respawn_cooldown_seconds == e0.respawn_cooldown_seconds
                    }),
            decreases n - i,
        {
            let entry: SpawnPointData = self.spawn_points[i];
            let mut down: bool = true;
            match entry.spawned_entity {
                Some(e) => {
                    match world.ai(e) {
                        Some(ai) => {
                            if !matches!(ai.state, crate::components::AIState::Dead) {
                                down = false;
                            }
                        }
                        None => {}
                    }
                }
                None => {}
            }
            let ready: bool = match entry.last_spawn_time {
                Some(t) => now_ms >= t && now_ms - t >= entry.respawn_cooldown_seconds * 1000,
                None => true,
            };
            proof {
                assert(entry == old_records[i as int]);
                match entry.spawned_entity {
                    Some(e) => {
                        assert(e < old_rows.len());
                        assert(world.rows()[e as int] == old_rows[e as int]);
                    }
                    None => {}
                }
                assert(down == monster_down(old_rows, entry));
                assert(ready == cooldown_ready(entry, now_ms));
            }
            if down && ready {
                let e = spawn_monster(world, entry.monster_type, entry.x, entry.y, entry.is_boss);
                let slot = &mut self.spawn_points[i];
                slot.spawned_entity = Some(e);
                slot.last_spawn_time = Some(now_ms);
            }
            i = i + 1;
        }
    }

    /// Drops every record, for a map reset.
    pub fn clear(&mut self)
        ensures
            final(self).wf(),
            final(self).view_records().len() == 0,
    {
        self.spawn_points.clear();
    }
}

/// An entity id is the `spawned_entity` of at most one record: two
/// records tracking the same entity are the same record.
pub proof fn lemma_spawn_records_distinct(m: SpawnPointManager, i: int, j: int)
    requires
        m.wf(),
        0 <= i < m.view_records().len(),
        0 <= j < m.view_records().len(),
        m.view_records()[i].spawned_entity is Some,
        m.view_records()[i].spawned_entity == m.view_records()[j].spawned_entity,
    ensures
        i == j,
{
    if i != j {
        assert(m.view_records()[i].spawned_entity != m.view_records()[j].spawned_entity);
    }
}

} // verus!
