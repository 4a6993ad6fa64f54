//! The entity-component world store.
//!
//! Entities are rows of a growing table; a handle is the row index, and
//! handles are never reused, so a despawned entity's id stays unique for
//! the rest of the run.  Each row carries one optional slot per component
//! kind.  The store's invariant gives every reachable state the core
//! guarantees: hit points stay within `[0, max]`, positions stay within
//! the map bounds, speeds stay bounded, and a despawned row is empty.

use vstd::prelude::*;
use crate::components::{
    ActiveStatusEffect, AIController, ArmorClass, AttackSpeed, Boss, Character, Collider,
    Cooldowns, DetectionRange, EntityId, Equipment, Health, Item, Monster, MonsterTraits,
    MovementSpeed, Player, Position, Regeneration, SpawnPoint, Sprite, Stats, StatusEffects,
    Velocity, VisionRange,
};
use crate::units::SPEED_LIMIT;

verus! {

/// Upper bound on a map edge in position units: 512 tiles of 32 pixels,
/// 60000 units each.
pub const MAX_BOUND_UNITS: i64 = 983_040_000;

/// One entity row: its liveness flag and one slot per component kind.
#[derive(Debug, Clone)]
pub struct EntityRec {
    pub alive: bool,
    pub position: Option<Position>,
    pub velocity: Option<Velocity>,
    pub health: Option<Health>,
    pub stats: Option<Stats>,
    pub character: Option<Character>,
    pub player: Option<Player>,
    pub sprite: Option<Sprite>,
    pub collider: Option<Collider>,
    pub armor_class: Option<ArmorClass>,
    pub movement_speed: Option<MovementSpeed>,
    pub vision_range: Option<VisionRange>,
    pub cooldowns: Option<Cooldowns>,
    pub attack_speed: Option<AttackSpeed>,
    pub monster: Option<Monster>,
    pub detection_range: Option<DetectionRange>,
    pub spawn_origin: Option<SpawnPoint>,
    pub ai: Option<AIController>,
    pub monster_traits: Option<MonsterTraits>,
    pub status_effects: Option<StatusEffects>,
    pub regeneration: Option<Regeneration>,
    pub boss: Option<Boss>,
    pub item: Option<Item>,
    pub equipment: Option<Equipment>,
}

impl EntityRec {
    /// Every component slot is empty.
    pub open spec fn is_bare(self) -> bool {
        &&& self.position is None
        &&& self.velocity is None
        &&& self.health is None
        &&& self.stats is None
        &&& self.character is None
        &&& self.player is None
        &&& self.sprite is None
        &&& self.collider is None
        &&& self.armor_class is None
        &&& self.movement_speed is None
        &&& self.vision_range is None
        &&& self.cooldowns is None
        &&& self.attack_speed is None
        &&& self.monster is None
        &&& self.detection_range is None
        &&& self.spawn_origin is None
        &&& self.ai is None
        &&& self.monster_traits is None
        &&& self.status_effects is None
        &&& self.regeneration is None
        &&& self.boss is None
        &&& self.item is None
        &&& self.equipment is None
    }

    /// A live row with nothing attached yet.
    pub fn empty() -> (r: Self)
        ensures
            r.alive,
            r.is_bare(),
    {
        EntityRec {
            alive: true,
            position: None,
            velocity: None,
            health: None,
            stats: None,
            character: None,
            player: None,
            sprite: None,
            collider: None,
            armor_class: None,
            movement_speed: None,
            vision_range: None,
            cooldowns: None,
            attack_speed: None,
            monster: None,
            detection_range: None,
            spawn_origin: None,
            ai: None,
            monster_traits: None,
            status_effects: None,
            regeneration: None,
            boss: None,
            item: None,
            equipment: None,
        }
    }

    /// A despawned row: dead and bare.
    pub fn cleared() -> (r: Self)
        ensures
            !r.alive,
            r.is_bare(),
    {
        let mut r = EntityRec::empty();
        r.alive = false;
        r
    }
}

/// The per-row invariant: components in bounds, dead rows bare.
pub open spec fn rec_wf(rec: EntityRec, bx: int, by: int) -> bool {
    &&& match rec.position {
        Some(p) => 0 <= p.x <= bx && 0 <= p.y <= by,
        None => true,
    }
    &&& match rec.velocity {
        Some(v) => -SPEED_LIMIT <= v.dx <= SPEED_LIMIT && -SPEED_LIMIT <= v.dy <= SPEED_LIMIT,
        None => true,
    }
    &&& match rec.health {
        Some(h) => h.wf(),
        None => true,
    }
    &&& match rec.movement_speed {
        Some(m) => 0 <= m.speed_units <= SPEED_LIMIT,
        None => true,
    }
    &&& match rec.spawn_origin {
        Some(s) => 0 <= s.x <= bx && 0 <= s.y <= by && s.max_distance >= 0,
        None => true,
    }
    &&& match rec.detection_range {
        Some(d) => d.tiles <= 1000,
        None => true,
    }
    &&& match rec.vision_range {
        Some(v) => v.tiles <= 1000,
        None => true,
    }
    &&& !rec.alive ==> rec.is_bare()
}

/// The world store: every entity row, and the map bounds that positions
/// are clamped to.
pub struct World {
    pub(crate) entities: Vec<EntityRec>,
    pub(crate) bound_x: i64,
    pub(crate) bound_y: i64,
}

impl World {
    /// The rows, dead ones included.
    pub closed spec fn rows(self) -> Seq<EntityRec> {
        self.entities@
    }

    /// Largest x coordinate a position may take, in position units.
    pub closed spec fn spec_bound_x(self) -> int {
        self.bound_x as int
    }

    /// Largest y coordinate a position may take, in position units.
    pub closed spec fn spec_bound_y(self) -> int {
        self.bound_y as int
    }

    /// The store invariant: bounds sane, every row well formed.
    pub open spec fn wf(self) -> bool {
        &&& 0 <= self.spec_bound_x() <= MAX_BOUND_UNITS
        &&& 0 <= self.spec_bound_y() <= MAX_BOUND_UNITS
        &&& self.rows().len() <= u32::MAX
        &&& forall|i: int| 0 <= i < self.rows().len()
            ==> rec_wf(#[trigger] self.rows()[i], self.spec_bound_x(), self.spec_bound_y())
    }

    /// `e` names a live entity.
    pub open spec fn spec_alive(self, e: EntityId) -> bool {
        e < self.rows().len() && self.rows()[e as int].alive
    }

    /// An empty store with the given coordinate bounds.
    pub fn new(bound_x: i64, bound_y: i64) -> (r: World)
        requires
            0 <= bound_x <= MAX_BOUND_UNITS,
            0 <= bound_y <= MAX_BOUND_UNITS,
        ensures
            r.wf(),
            r.rows().len() == 0,
            r.spec_bound_x() == bound_x,
            r.spec_bound_y() == bound_y,
    {
        World { entities: Vec::new(), bound_x, bound_y }
    }

    /// The coordinate bounds positions are clamped to, in position units.
    pub fn bounds(&self) -> (r: (i64, i64))
        ensures
            r.0 == self.spec_bound_x(),
            r.1 == self.spec_bound_y(),
    {
        (self.bound_x, self.bound_y)
    }

    /// Number of rows ever created, dead ones included.
    pub fn row_count(&self) -> (r: u32)
        requires
            self.wf(),
        ensures
            r == self.rows().len(),
    {
        self.entities.len() as u32
    }

    /// Whether `e` names a live entity.
    pub fn is_alive(&self, e: EntityId) -> (r: bool)
        ensures
            r == self.spec_alive(e),
    {
        (e as usize) < self.entities.len() && self.entities[e as usize].alive
    }

    /// The connection id of the player steering `e`, if `e` is a live
    /// player entity.
    pub fn player_connection(&self, e: EntityId) -> (r: Option<u64>)
        ensures
            r == if e < self.rows().len() {
                match self.rows()[e as int].player {
                    Some(p) => Some(p.connection_id),
                    None => None::<u64>,
                }
            } else {
                None::<u64>
            },
    {
        if (e as usize) < self.entities.len() {
            match &self.entities[e as usize].player {
                Some(p) => Some(p.connection_id),
                None => None,
            }
        } else {
            None
        }
    }

    /// A copy of the status effects running on `e`, if it tracks any.
    pub fn status_effects_clone(&self, e: EntityId) -> (r: Option<Vec<ActiveStatusEffect>>)
        ensures
            (r is Some) == (e < self.rows().len() && self.rows()[e as int].status_effects is Some),
            r matches Some(v)
                ==> v@ == self.rows()[e as int].status_effects->Some_0.effects@,
    {
        if (e as usize) < self.entities.len() {
            match &self.entities[e as usize].status_effects {
                Some(se) => {
                    let mut v: Vec<ActiveStatusEffect> = Vec::new();
                    let mut i: usize = 0;
                    while i < se.effects.len()
                        invariant
                            0 <= i <= se.effects@.len(),
                            v@ == se.effects@.subrange(0, i as int),
                        decreases se.effects@.len() - i,
                    {
                        v.push(se.effects[i]);
                        proof {
                            assert(v@ =~= se.effects@.subrange(0, i + 1));
                        }
                        i = i + 1;
                    }
                    proof {
                        assert(v@ =~= se.effects@);
                    }
                    Some(v)
                }
                None => None,
            }
        } else {
            None
        }
    }

    /// A copy of the sprite id shown for `e`, if it carries a sprite.
    pub fn sprite_id_clone(&self, e: EntityId) -> (r: Option<String>)
        ensures
            (r is Some) == (e < self.rows().len() && self.rows()[e as int].sprite is Some),
            r matches Some(s) ==> s@ == self.rows()[e as int].sprite->Some_0.sprite_id@,
    {
        if (e as usize) < self.entities.len() {
            match &self.entities[e as usize].sprite {
                Some(s) => Some(s.sprite_id.clone()),
                None => None,
            }
        } else {
            None
        }
    }

    /// A copy of the display name of the player steering `e`.
    pub fn player_name_clone(&self, e: EntityId) -> (r: Option<String>)
        ensures
            (r is Some) == (e < self.rows().len() && self.rows()[e as int].player is Some),
            r matches Some(s) ==> s@ == self.rows()[e as int].player->Some_0.name@,
    {
        if (e as usize) < self.entities.len() {
            match &self.entities[e as usize].player {
                Some(p) => Some(p.name.clone()),
                None => None,
            }
        } else {
            None
        }
    }

    /// Creates a fresh entity from a bundle of components and returns its
    /// handle, which equals the previous row count — so it differs from
    /// every handle handed out before.
    pub fn spawn(&mut self, rec: EntityRec) -> (e: EntityId)
        requires
            old(self).wf(),
            old(self).rows().len() < u32::MAX,
            rec.alive,
            rec_wf(rec, old(self).spec_bound_x(), old(self).spec_bound_y()),
        ensures
            final(self).wf(),
            e == old(self).rows().len(),
            final(self).rows() == old(self).rows().push(rec),
            final(self).spec_bound_x() == old(self).spec_bound_x(),
            final(self).spec_bound_y() == old(self).spec_bound_y(),
            final(self).spec_alive(e),
    {
        let e: u32 = self.entities.len() as u32;
        self.entities.push(rec);
        e
    }

    /// Despawns `e`: the row is emptied and marked dead.  Returns whether
    /// `e` named a live entity; a stale or foreign handle is a no-op.
    pub fn despawn(&mut self, e: EntityId) -> (r: bool)
        requires
            old(self).wf(),
        ensures
            final(self).wf(),
            r == old(self).spec_alive(e),
            r ==> final(self).rows() == old(self).rows().update(e as int, final(self).rows()[e as int])
                && final(self).rows()[e as int].is_bare()
                && !final(self).rows()[e as int].alive,
            !r ==> final(self).rows() == old(self).rows(),
            final(self).rows().len() == old(self).rows().len(),
            final(self).spec_bound_x() == old(self).spec_bound_x(),
            final(self).spec_bound_y() == old(self).spec_bound_y(),
            forall|o: EntityId| o != e ==> final(self).spec_alive(o) == old(self).spec_alive(o),
    {
        if (e as usize) < self.entities.len() && self.entities[e as usize].alive {
            let slot = &mut self.entities[e as usize];
            *slot = EntityRec::cleared();
            proof {
                assert(self.rows() =~= old(self).rows().update(e as int, self.rows()[e as int]));
            }
            true
        } else {
            false
        }
    }

    /// The `Position` of `e`, if `e` is a live row that carries one.
    pub fn position(&self, e: EntityId) -> (r: Option<Position>)
        ensures
            r == if e < self.rows().len() { self.rows()[e as int].position } else { None::<Position> },
    {
        if (e as usize) < self.entities.len() {
            self.entities[e as usize].position
        } else {
            None
        }
    }

    /// The `Velocity` of `e`, if `e` is a live row that carries one.
    pub fn velocity(&self, e: EntityId) -> (r: Option<Velocity>)
        ensures
            r == if e < self.rows().len() { self.rows()[e as int].velocity } else { None::<Velocity> },
    {
        if (e as usize) < self.entities.len() {
            self.entities[e as usize].velocity
        } else {
            None
        }
    }

    /// The `Health` of `e`, if `e` is a live row that carries one.
    pub fn health(&self, e: EntityId) -> (r: Option<Health>)
        ensures
            r == if e < self.rows().len() { self.rows()[e as int].health } else { None::<Health> },
    {
        if (e as usize) < self.entities.len() {
            self.entities[e as usize].health
        } else {
            None
        }
    }

    /// The `Stats` of `e`, if `e` is a live row that carries one.
    pub fn stats(&self, e: EntityId) -> (r: Option<Stats>)
        ensures
            r == if e < self.rows().len() { self.rows()[e as int].stats } else { None::<Stats> },
    {
        if (e as usize) < self.entities.len() {
            self.entities[e as usize].stats
        } else {
            None
        }
    }

    /// The `Character` of `e`, if `e` is a live row that carries one.
    pub fn character(&self, e: EntityId) -> (r: Option<Character>)
        ensures
            r == if e < self.rows().len() { self.rows()[e as int].character } else { None::<Character> },
    {
        if (e as usize) < self.entities.len() {
            self.entities[e as usize].character
        } else {
            None
        }
    }

    /// The `Collider` of `e`, if `e` is a live row that carries one.
    pub fn collider(&self, e: EntityId) -> (r: Option<Collider>)
        ensures
            r == if e < self.rows().len() { self.rows()[e as int].collider } else { None::<Collider> },
    {
        if (e as usize) < self.entities.len() {
            self.entities[e as usize].collider
        } else {
            None
        }
    }

    /// The `ArmorClass` of `e`, if `e` is a live row that carries one.
    pub fn armor_class(&self, e: EntityId) -> (r: Option<ArmorClass>)
        ensures
            r == if e < self.rows().len() { self.rows()[e as int].armor_class } else { None::<ArmorClass> },
    {
        if (e as usize) < self.entities.len() {
            self.entities[e as usize].armor_class
        } else {
            None
        }
    }

    /// The `MovementSpeed` of `e`, if `e` is a live row that carries one.
    pub fn movement_speed(&self, e: EntityId) -> (r: Option<MovementSpeed>)
        ensures
            r == if e < self.rows().len() { self.rows()[e as int].movement_speed } else { None::<MovementSpeed> },
    {
        if (e as usize) < self.entities.len() {
            self.entities[e as usize].movement_speed
        } else {
            None
        }
    }

    /// The `VisionRange` of `e`, if `e` is a live row that carries one.
    pub fn vision_range(&self, e: EntityId) -> (r: Option<VisionRange>)
        ensures
            r == if e < self.rows().len() { self.rows()[e as int].vision_range } else { None::<VisionRange> },
    {
        if (e as usize) < self.entities.len() {
            self.entities[e as usize].vision_range
        } else {
            None
        }
    }

    /// The `Cooldowns` of `e`, if `e` is a live row that carries one.
    pub fn cooldowns(&self, e: EntityId) -> (r: Option<Cooldowns>)
        ensures
            r == if e < self.rows().len() { self.rows()[e as int].cooldowns } else { None::<Cooldowns> },
    {
        if (e as usize) < self.entities.len() {
            self.entities[e as usize].cooldowns
        } else {
            None
        }
    }

    /// The `AttackSpeed` of `e`, if `e` is a live row that carries one.
    pub fn attack_speed(&self, e: EntityId) -> (r: Option<AttackSpeed>)
        ensures
            r == if e < self.rows().len() { self.rows()[e as int].attack_speed } else { None::<AttackSpeed> },
    {
        if (e as usize) < self.entities.len() {
            self.entities[e as usize].attack_speed
        } else {
            None
        }
    }

    /// The `Monster` of `e`, if `e` is a live row that carries one.
    pub fn monster(&self, e: EntityId) -> (r: Option<Monster>)
        ensures
            r == if e < self.rows().len() { self.rows()[e as int].monster } else { None::<Monster> },
    {
        if (e as usize) < self.entities.len() {
            self.entities[e as usize].monster
        } else {
            None
        }
    }

    /// The `DetectionRange` of `e`, if `e` is a live row that carries one.
    pub fn detection_range(&self, e: EntityId) -> (r: Option<DetectionRange>)
        ensures
            r == if e < self.rows().len() { self.rows()[e as int].detection_range } else { None::<DetectionRange> },
    {
        if (e as usize) < self.entities.len() {
            self.entities[e as usize].detection_range
        } else {
            None
        }
    }

    /// The `SpawnPoint` of `e`, if `e` is a live row that carries one.
    pub fn spawn_origin(&self, e: EntityId) -> (r: Option<SpawnPoint>)
        ensures
            r == if e < self.rows().len() { self.rows()[e as int].spawn_origin } else { None::<SpawnPoint> },
    {
        if (e as usize) < self.entities.len() {
            self.entities[e as usize].spawn_origin
        } else {
            None
        }
    }

    /// The `AIController` of `e`, if `e` is a live row that carries one.
    pub fn ai(&self, e: EntityId) -> (r: Option<AIController>)
        ensures
            r == if e < self.rows().len() { self.rows()[e as int].ai } else { None::<AIController> },
    {
        if (e as usize) < self.entities.len() {
            self.entities[e as usize].ai
        } else {
            None
        }
    }

    /// The `Regeneration` of `e`, if `e` is a live row that carries one.
    pub fn regeneration(&self, e: EntityId) -> (r: Option<Regeneration>)
        ensures
            r == if e < self.rows().len() { self.rows()[e as int].regeneration } else { None::<Regeneration> },
    {
        if (e as usize) < self.entities.len() {
            self.entities[e as usize].regeneration
        } else {
            None
        }
    }

    /// The `Boss` of `e`, if `e` is a live row that carries one.
    pub fn boss(&self, e: EntityId) -> (r: Option<Boss>)
        ensures
            r == if e < self.rows().len() { self.rows()[e as int].boss } else { None::<Boss> },
    {
        if (e as usize) < self.entities.len() {
            self.entities[e as usize].boss
        } else {
            None
        }
    }

    /// Replaces the `Position` of `e`, if `e` is live and carries one; a
    /// stale handle or a missing component is a no-op.
    pub fn set_position(&mut self, e: EntityId, p: Position) -> (r: bool)
        requires
            old(self).wf(),
            0 <= p.x <= old(self).spec_bound_x(),
            0 <= p.y <= old(self).spec_bound_y(),
        ensures
            final(self).wf(),
            final(self).spec_bound_x() == old(self).spec_bound_x(),
            final(self).spec_bound_y() == old(self).spec_bound_y(),
            r == (old(self).spec_alive(e) && old(self).rows()[e as int].position is Some),
            r ==> final(self).rows() == old(self).rows().update(e as int,
                (EntityRec { position: Some(p), ..old(self).rows()[e as int] })),
            !r ==> final(self).rows() == old(self).rows(),
    {
        if (e as usize) < self.entities.len() {
            let slot = &mut self.entities[e as usize];
            if slot.alive && slot.position.is_some() {
                slot.position = Some(p);
                proof {
                    assert(self.entities@ =~= old(self).rows().update(e as int,
                        (EntityRec { position: Some(p), ..old(self).rows()[e as int] })));
                }
                return true;
            }
        }
        false
    }

    /// Replaces the `Velocity` of `e`, if `e` is live and carries one; a
    /// stale handle or a missing component is a no-op.
    pub fn set_velocity(&mut self, e: EntityId, p: Velocity) -> (r: bool)
        requires
            old(self).wf(),
            -SPEED_LIMIT <= p.dx <= SPEED_LIMIT,
            -SPEED_LIMIT <= p.dy <= SPEED_LIMIT,
        ensures
            final(self).wf(),
            final(self).spec_bound_x() == old(self).spec_bound_x(),
            final(self).spec_bound_y() == old(self).spec_bound_y(),
            r == (old(self).spec_alive(e) && old(self).rows()[e as int].velocity is Some),
            r ==> final(self).rows() == old(self).rows().update(e as int,
                (EntityRec { velocity: Some(p), ..old(self).rows()[e as int] })),
            !r ==> final(self).rows() == old(self).rows(),
    {
        if (e as usize) < self.entities.len() {
            let slot = &mut self.entities[e as usize];
            if slot.alive && slot.velocity.is_some() {
                slot.velocity = Some(p);
                proof {
                    assert(self.entities@ =~= old(self).rows().update(e as int,
                        (EntityRec { velocity: Some(p), ..old(self).rows()[e as int] })));
                }
                return true;
            }
        }
        false
    }

    /// Replaces the `Health` of `e`, if `e` is live and carries one; a
    /// stale handle or a missing component is a no-op.
    pub fn set_health(&mut self, e: EntityId, p: Health) -> (r: bool)
        requires
            old(self).wf(),
            p.wf(),
        ensures
            final(self).wf(),
            final(self).spec_bound_x() == old(self).spec_bound_x(),
            final(self).spec_bound_y() == old(self).spec_bound_y(),
            r == (old(self).spec_alive(e) && old(self).rows()[e as int].health is Some),
            r ==> final(self).rows() == old(self).rows().update(e as int,
                (EntityRec { health: Some(p), ..old(self).rows()[e as int] })),
            !r ==> final(self).rows() == old(self).rows(),
    {
        if (e as usize) < self.entities.len() {
            let slot = &mut self.entities[e as usize];
            if slot.alive && slot.health.is_some() {
                slot.health = Some(p);
                proof {
                    assert(self.entities@ =~= old(self).rows().update(e as int,
                        (EntityRec { health: Some(p), ..old(self).rows()[e as int] })));
                }
                return true;
            }
        }
        false
    }

    /// Replaces the `Cooldowns` of `e`, if `e` is live and carries one; a
    /// stale handle or a missing component is a no-op.
    pub fn set_cooldowns(&mut self, e: EntityId, p: Cooldowns) -> (r: bool)
        requires
            old(self).wf(),
        ensures
            final(self).wf(),
            final(self).spec_bound_x() == old(self).spec_bound_x(),
            final(self).spec_bound_y() == old(self).spec_bound_y(),
            r == (old(self).spec_alive(e) && old(self).rows()[e as int].cooldowns is Some),
            r ==> final(self).rows() == old(self).rows().update(e as int,
                (EntityRec { cooldowns: Some(p), ..old(self).rows()[e as int] })),
            !r ==> final(self).rows() == old(self).rows(),
    {
        if (e as usize) < self.entities.len() {
            let slot = &mut self.entities[e as usize];
            if slot.alive && slot.cooldowns.is_some() {
                slot.cooldowns = Some(p);
                proof {
                    assert(self.entities@ =~= old(self).rows().update(e as int,
                        (EntityRec { cooldowns: Some(p), ..old(self).rows()[e as int] })));
                }
                return true;
            }
        }
        false
    }

    /// Replaces the `AIController` of `e`, if `e` is live and carries one; a
    /// stale handle or a missing component is a no-op.
    pub fn set_ai(&mut self, e: EntityId, p: AIController) -> (r: bool)
        requires
            old(self).wf(),
        ensures
            final(self).wf(),
            final(self).spec_bound_x() == old(self).spec_bound_x(),
            final(self).spec_bound_y() == old(self).spec_bound_y(),
            r == (old(self).spec_alive(e) && old(self).rows()[e as int].ai is Some),
            r ==> final(self).rows() == old(self).rows().update(e as int,
                (EntityRec { ai: Some(p), ..old(self).rows()[e as int] })),
            !r ==> final(self).rows() == old(self).rows(),
    {
        if (e as usize) < self.entities.len() {
            let slot = &mut self.entities[e as usize];
            if slot.alive && slot.ai.is_some() {
                slot.ai = Some(p);
                proof {
                    assert(self.entities@ =~= old(self).rows().update(e as int,
                        (EntityRec { ai: Some(p), ..old(self).rows()[e as int] })));
                }
                return true;
            }
        }
        false
    }

    /// Replaces the `Character` of `e`, if `e` is live and carries one; a
    /// stale handle or a missing component is a no-op.
    pub fn set_character(&mut self, e: EntityId, p: Character) -> (r: bool)
        requires
            old(self).wf(),
        ensures
            final(self).wf(),
            final(self).spec_bound_x() == old(self).spec_bound_x(),
            final(self).spec_bound_y() == old(self).spec_bound_y(),
            r == (old(self).spec_alive(e) && old(self).rows()[e as int].character is Some),
            r ==> final(self).rows() == old(self).rows().update(e as int,
                (EntityRec { character: Some(p), ..old(self).rows()[e as int] })),
            !r ==> final(self).rows() == old(self).rows(),
    {
        if (e as usize) < self.entities.len() {
            let slot = &mut self.entities[e as usize];
            if slot.alive && slot.character.is_some() {
                slot.character = Some(p);
                proof {
                    assert(self.entities@ =~= old(self).rows().update(e as int,
                        (EntityRec { character: Some(p), ..old(self).rows()[e as int] })));
                }
                return true;
            }
        }
        false
    }

    /// Replaces the `Stats` of `e`, if `e` is live and carries one; a
    /// stale handle or a missing component is a no-op.
    pub fn set_stats(&mut self, e: EntityId, p: Stats) -> (r: bool)
        requires
            old(self).wf(),
        ensures
            final(self).wf(),
            final(self).spec_bound_x() == old(self).spec_bound_x(),
            final(self).spec_bound_y() == old(self).spec_bound_y(),
            r == (old(self).spec_alive(e) && old(self).rows()[e as int].stats is Some),
            r ==> final(self).rows() == old(self).rows().update(e as int,
                (EntityRec { stats: Some(p), ..old(self).rows()[e as int] })),
            !r ==> final(self).rows() == old(self).rows(),
    {
        if (e as usize) < self.entities.len() {
            let slot = &mut self.entities[e as usize];
            if slot.alive && slot.stats.is_some() {
                slot.stats = Some(p);
                proof {
                    assert(self.entities@ =~= old(self).rows().update(e as int,
                        (EntityRec { stats: Some(p), ..old(self).rows()[e as int] })));
                }
                return true;
            }
        }
        false
    }

    /// Replaces the `StatusEffects` of `e`, if `e` is live and carries one; a
    /// stale handle or a missing component is a no-op.
    pub fn set_status_effects(&mut self, e: EntityId, p: StatusEffects) -> (r: bool)
        requires
            old(self).wf(),
        ensures
            final(self).wf(),
            final(self).spec_bound_x() == old(self).spec_bound_x(),
            final(self).spec_bound_y() == old(self).spec_bound_y(),
            r == (old(self).spec_alive(e) && old(self).rows()[e as int].status_effects is Some),
            r ==> final(self).rows() == old(self).rows().update(e as int,
                (EntityRec { status_effects: Some(p), ..old(self).rows()[e as int] })),
            !r ==> final(self).rows() == old(self).rows(),
    {
        if (e as usize) < self.entities.len() {
            let slot = &mut self.entities[e as usize];
            if slot.alive && slot.status_effects.is_some() {
                slot.status_effects = Some(p);
                proof {
                    assert(self.entities@ =~= old(self).rows().update(e as int,
                        (EntityRec { status_effects: Some(p), ..old(self).rows()[e as int] })));
                }
                return true;
            }
        }
        false
    }

    /// Replaces the `Regeneration` of `e`, if `e` is live and carries one; a
    /// stale handle or a missing component is a no-op.
    pub fn set_regeneration(&mut self, e: EntityId, p: Regeneration) -> (r: bool)
        requires
            old(self).wf(),
        ensures
            final(self).wf(),
            final(self).spec_bound_x() == old(self).spec_bound_x(),
            final(self).spec_bound_y() == old(self).spec_bound_y(),
            r == (old(self).spec_alive(e) && old(self).rows()[e as int].regeneration is Some),
            r ==> final(self).rows() == old(self).rows().update(e as int,
                (EntityRec { regeneration: Some(p), ..old(self).rows()[e as int] })),
            !r ==> final(self).rows() == old(self).rows(),
    {
        if (e as usize) < self.entities.len() {
            let slot = &mut self.entities[e as usize];
            if slot.alive && slot.regeneration.is_some() {
                slot.regeneration = Some(p);
                proof {
                    assert(self.entities@ =~= old(self).rows().update(e as int,
                        (EntityRec { regeneration: Some(p), ..old(self).rows()[e as int] })));
                }
                return true;
            }
        }
        false
    }
}

/// In every reachable world, an entity's hit points lie between zero
/// and its maximum.
pub proof fn lemma_health_in_bounds(w: World, e: EntityId)
    requires
        w.wf(),
        e < w.rows().len(),
        w.rows()[e as int].health is Some,
    ensures
        0 <= w.rows()[e as int].health->Some_0.current
            <= w.rows()[e as int].health->Some_0.max,
{
    assert(rec_wf(w.rows()[e as int], w.spec_bound_x(), w.spec_bound_y()));
}

/// In every reachable world, an entity's position lies within the map
/// bounds on both axes.
pub proof fn lemma_position_in_bounds(w: World, e: EntityId)
    requires
        w.wf(),
        e < w.rows().len(),
        w.rows()[e as int].position is Some,
    ensures
        0 <= w.rows()[e as int].position->Some_0.x <= w.spec_bound_x(),
        0 <= w.rows()[e as int].position->Some_0.y <= w.spec_bound_y(),
{
    assert(rec_wf(w.rows()[e as int], w.spec_bound_x(), w.spec_bound_y()));
}

} // verus!
