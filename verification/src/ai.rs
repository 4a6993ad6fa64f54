//! Monster behaviour: the state machine over Idle, Patrol, Chase,
//! Attack, Flee and Dead, target search, pack calls, and the steering
//! that feeds the movement phase.
//!
//! The AI phase writes only controllers and velocities; attacks queued
//! by controllers in the Attack state are resolved by the combat phase.

use vstd::prelude::*;
use crate::abilities::perform_attack;
use crate::components::{AIController, AIState, EntityId, Health, MonsterType, Position, Velocity};
use crate::rng::roll_permille;
use crate::units::{dist_sq, dist_sq_spec, steer_towards, COORD_LIMIT};
use crate::world::{EntityRec, World};

verus! {

/// Position units per tile.
pub const TILE_UNITS: i64 = 1_920_000;

/// Melee reach: a tile and a half.
pub const MELEE_RANGE_UNITS: i64 = 2_880_000;

/// How far a pack call carries: fifteen tiles.
pub const CALL_RANGE_UNITS: i64 = 28_800_000;

/// A monster flees below a quarter of its maximum hit points.
pub open spec fn should_flee_spec(h: Health) -> bool {
    4 * (h.current as int) < h.max
}

/// Whether a monster at `health` should flee: its hit points are below a
/// quarter of the maximum.
pub fn should_flee(health: &Health) -> (r: bool)
    ensures
        r == should_flee_spec(*health),
{
    4 * (health.current as i64) < (health.max as i64)
}

/// Pack creatures call their kin for help when attacked.
pub open spec fn pack_creature_spec(t: MonsterType) -> bool {
    t is GiantRat || t is Goblin || t is Wolf || t is OrcWarrior
}

/// Whether monsters of `monster_type` hunt in packs.
pub fn is_pack_creature(monster_type: MonsterType) -> (r: bool)
    ensures
        r == pack_creature_spec(monster_type),
{
    matches!(
        monster_type,
        MonsterType::GiantRat | MonsterType::Goblin | MonsterType::Wolf | MonsterType::OrcWarrior
    )
}

/// Row `j` is a live player standing somewhere.
pub open spec fn live_player_at(rows: Seq<EntityRec>, j: int) -> bool {
    &&& 0 <= j < rows.len()
    &&& rows[j].alive
    &&& rows[j].player is Some
    &&& rows[j].position is Some
}

/// Squared distance between the positions of rows `i` and `j`.
pub open spec fn row_dist_sq(rows: Seq<EntityRec>, i: int, j: int) -> int {
    let a = rows[i].position->Some_0;
    let b = rows[j].position->Some_0;
    dist_sq_spec(a.x as int, a.y as int, b.x as int, b.y as int)
}

/// `entity` can observe: it is live with a position and a detection
/// range.
pub open spec fn observer_ready(rows: Seq<EntityRec>, e: EntityId) -> bool {
    &&& e < rows.len()
    &&& rows[e as int].alive
    &&& rows[e as int].position is Some
    &&& rows[e as int].detection_range is Some
}

/// The detection radius of row `e`, in position units.
pub open spec fn detection_units(rows: Seq<EntityRec>, e: EntityId) -> int {
    rows[e as int].detection_range->Some_0.tiles * TILE_UNITS
}

/// Find the player nearest to `entity` within its detection range.
///
/// Returns a nearest such player — no player in range is strictly
/// closer — or nothing when the entity cannot observe or no player is in
/// range.
pub fn find_nearest_enemy(world: &World, entity: EntityId) -> (r: Option<EntityId>)
    requires
        world.wf(),
    ensures
        ({
            let rows = world.rows();
            &&& r matches Some(p) ==> observer_ready(rows, entity)
                && live_player_at(rows, p as int) && p != entity
                && row_dist_sq(rows, entity as int, p as int)
                    <= detection_units(rows, entity) * detection_units(rows, entity)
                && forall|j: int| live_player_at(rows, j) && j != entity
                    ==> #[trigger] row_dist_sq(rows, entity as int, j)
                        >= row_dist_sq(rows, entity as int, p as int)
            &&& r is None ==> !observer_ready(rows, entity)
                || forall|j: int| live_player_at(rows, j) && j != entity
                    ==> #[trigger] row_dist_sq(rows, entity as int, j)
                        > detection_units(rows, entity) * detection_units(rows, entity)
        }),
{
    if !world.is_alive(entity) {
        return None;
    }
    let my_pos = match world.position(entity) {
        Some(p) => p,
        None => { return None; },
    };
    let detection = match world.detection_range(entity) {
        Some(d) => d,
        None => { return None; },
    };
    let range: i64 = (detection.tiles as i64) * TILE_UNITS;
    proof {
        assert(range * range == detection_units(world.rows(), entity)
            * detection_units(world.rows(), entity));
        assert(range <= 1000 * TILE_UNITS);
        assert(range * range <= (1000 * TILE_UNITS) * (1000 * TILE_UNITS) && range * range >= 0)
            by (nonlinear_arith)
            requires 0 <= range <= 1000 * TILE_UNITS;
    }
    let range2: i64 = range * range;
    let n: u32 = world.row_count();
    let mut best: Option<EntityId> = None;
    let mut best_d2: i64 = 0;
    let mut j: u32 = 0;
    while j < n
        invariant
            world.wf(),
            n == world.rows().len(),
            entity < n,
            0 <= j <= n,
            world.rows()[entity as int].position == Some(my_pos),
            world.rows()[entity as int].alive,
            0 <= my_pos.x <= COORD_LIMIT,
            0 <= my_pos.y <= COORD_LIMIT,
            range == detection_units(world.rows(), entity),
            range >= 0,
            range2 == range * range,
            best matches Some(p) ==> live_player_at(world.rows(), p as int) && p != entity
                && p < j
                && best_d2 == row_dist_sq(world.rows(), entity as int, p as int)
                && best_d2 <= range2
                && forall|k: int| live_player_at(world.rows(), k) && k != entity && k < j
                    ==> #[trigger] row_dist_sq(world.rows(), entity as int, k) >= best_d2,
            best is None ==> forall|k: int|
                live_player_at(world.rows(), k) && k != entity && k < j
                    ==> #[trigger] row_dist_sq(world.rows(), entity as int, k)
                        > range * range,
        decreases n - j,
    {
        if j != entity {
            let is_player = world.player_connection(j).is_some();
            let pos = world.position(j);
            let alive = world.is_alive(j);
            if alive && is_player && pos.is_some() {
                let p = pos.unwrap();
                let d2: i64 = dist_sq(my_pos.x, my_pos.y, p.x, p.y);
                if d2 <= range2 {
                    match best {
                        Some(_) => {
                            if d2 < best_d2 {
                                best = Some(j);
                                best_d2 = d2;
                            }
                        }
                        None => {
                            best = Some(j);
                            best_d2 = d2;
                        }
                    }
                }
            }
        }
        j = j + 1;
    }
    best
}

/// `target` stands within melee reach (a tile and a half) of `entity`.
pub open spec fn in_melee_spec(rows: Seq<EntityRec>, entity: EntityId, target: EntityId)
    -> bool {
    &&& entity < rows.len() && rows[entity as int].position is Some
    &&& target < rows.len() && rows[target as int].position is Some
    &&& row_dist_sq(rows, entity as int, target as int)
        <= MELEE_RANGE_UNITS * MELEE_RANGE_UNITS
}

/// Whether `target` stands within melee reach of `entity`.
pub fn is_in_attack_range(world: &World, entity: EntityId, target: EntityId) -> (r: bool)
    requires
        world.wf(),
    ensures
        r == in_melee_spec(world.rows(), entity, target),
{
    let my_pos = match world.position(entity) {
        Some(p) => p,
        None => { return false; },
    };
    let t_pos = match world.position(target) {
        Some(p) => p,
        None => { return false; },
    };
    let d2 = dist_sq(my_pos.x, my_pos.y, t_pos.x, t_pos.y);
    d2 <= MELEE_RANGE_UNITS * MELEE_RANGE_UNITS
}

/// `entity` can see `target`: both stand somewhere and the distance is
/// within the entity's detection range.
pub open spec fn sees_spec(rows: Seq<EntityRec>, entity: EntityId, target: EntityId) -> bool {
    &&& entity < rows.len() && rows[entity as int].position is Some
        && rows[entity as int].detection_range is Some
    &&& target < rows.len() && rows[target as int].position is Some
    &&& row_dist_sq(rows, entity as int, target as int)
        <= detection_units(rows, entity) * detection_units(rows, entity)
}

/// Whether `entity` can see `target`: both stand somewhere and the
/// distance is within the entity's detection range.
pub fn can_see_target(world: &World, entity: EntityId, target: EntityId) -> (r: bool)
    requires
        world.wf(),
    ensures
        r == sees_spec(world.rows(), entity, target),
{
    let detection = match world.detection_range(entity) {
        Some(d) => d,
        None => { return false; },
    };
    let my_pos = match world.position(entity) {
        Some(p) => p,
        None => { return false; },
    };
    let t_pos = match world.position(target) {
        Some(p) => p,
        None => { return false; },
    };
    proof {
        assert(crate::world::rec_wf(world.rows()[entity as int],
            world.spec_bound_x(), world.spec_bound_y()));
        assert(detection.tiles <= 1000);
    }
    let range: i64 = (detection.tiles as i64) * TILE_UNITS;
    proof {
        assert(range <= 1_920_000_000);
        assert(range * range <= 0x4000_0000_0000_0000 && range * range >= 0)
            by (nonlinear_arith)
            requires 0 <= range <= 1_920_000_000;
    }
    let range2: i64 = range * range;
    let d2: i64 = dist_sq(my_pos.x, my_pos.y, t_pos.x, t_pos.y);
    d2 <= range2
}

/// `b` is `a` with at most its velocity slot changed.
pub open spec fn velocity_only_change(a: EntityRec, b: EntityRec) -> bool {
    b == (EntityRec { velocity: b.velocity, ..a })
}

/// `e` can steer: it is a live row with a position, a movement speed
/// and a velocity slot.
pub open spec fn steerable(rows: Seq<EntityRec>, e: EntityId) -> bool {
    &&& e < rows.len()
    &&& rows[e as int].position is Some
    &&& rows[e as int].movement_speed is Some
    &&& rows[e as int].velocity is Some
    &&& rows[e as int].alive
}

/// The velocity steering writes for row `e` toward `(tx, ty)`.
pub open spec fn steered_velocity(rows: Seq<EntityRec>, e: EntityId, tx: int, ty: int)
    -> Velocity {
    let p = rows[e as int].position->Some_0;
    let speed = rows[e as int].movement_speed->Some_0.speed_units as int;
    let v = crate::units::steer_spec(p.x as int, p.y as int, tx, ty, speed);
    Velocity { dx: v.0 as i64, dy: v.1 as i64 }
}

/// Point the entity's velocity toward `(target_x, target_y)` at its own
/// movement speed, rounded toward zero; within a pixel of the target the
/// velocity is zeroed.  An entity without position, speed or velocity
/// slot is left alone, and nothing but the velocity changes.
pub fn move_towards_target(world: &mut World, entity: EntityId, target_x: i64, target_y: i64)
    requires
        old(world).wf(),
        0 <= target_x <= old(world).spec_bound_x(),
        0 <= target_y <= old(world).spec_bound_y(),
    ensures
        final(world).wf(),
        final(world).spec_bound_x() == old(world).spec_bound_x(),
        final(world).spec_bound_y() == old(world).spec_bound_y(),
        final(world).rows().len() == old(world).rows().len(),
        forall|k: int| 0 <= k < old(world).rows().len() && k != entity
            ==> final(world).rows()[k] == old(world).rows()[k],
        entity < old(world).rows().len() ==> velocity_only_change(
            old(world).rows()[entity as int], final(world).rows()[entity as int]),
        steerable(old(world).rows(), entity)
            ==> final(world).rows()[entity as int].velocity
                == Some(steered_velocity(old(world).rows(), entity,
                    target_x as int, target_y as int)),
        !steerable(old(world).rows(), entity) ==> final(world).rows() == old(world).rows(),
{
    let my_pos = match world.position(entity) {
        Some(p) => p,
        None => {
            proof { assert(final(world).rows() =~= old(world).rows()); }
            return;
        },
    };
    let speed = match world.movement_speed(entity) {
        Some(s) => s,
        None => {
            proof { assert(final(world).rows() =~= old(world).rows()); }
            return;
        },
    };
    proof {
        assert(crate::world::rec_wf(world.rows()[entity as int],
            world.spec_bound_x(), world.spec_bound_y()));
    }
    let (vx, vy) = steer_towards(my_pos.x, my_pos.y, target_x, target_y, speed.speed_units);
    let _ = world.set_velocity(entity, Velocity { dx: vx, dy: vy });
    proof {
        if !steerable(old(world).rows(), entity) {
            assert(final(world).rows() =~= old(world).rows());
        }
    }
}

/// Steer toward the current position of `target`; without a target
/// position, or chasing oneself, nothing changes.
pub fn chase_behavior(world: &mut World, entity: EntityId, target: EntityId)
    requires
        old(world).wf(),
    ensures
        final(world).wf(),
        final(world).spec_bound_x() == old(world).spec_bound_x(),
        final(world).spec_bound_y() == old(world).spec_bound_y(),
        final(world).rows().len() == old(world).rows().len(),
        forall|k: int| 0 <= k < old(world).rows().len() && k != entity
            ==> final(world).rows()[k] == old(world).rows()[k],
        entity < old(world).rows().len() ==> velocity_only_change(
            old(world).rows()[entity as int], final(world).rows()[entity as int]),
        (entity != target && target < old(world).rows().len()
            && old(world).rows()[target as int].position is Some
            && steerable(old(world).rows(), entity))
            ==> final(world).rows()[entity as int].velocity
                == Some(steered_velocity(old(world).rows(), entity,
                    old(world).rows()[target as int].position->Some_0.x as int,
                    old(world).rows()[target as int].position->Some_0.y as int)),
        !(entity != target && target < old(world).rows().len()
            && old(world).rows()[target as int].position is Some
            && steerable(old(world).rows(), entity))
            ==> final(world).rows() == old(world).rows(),
{
    match world.position(target) {
        Some(p) => {
            proof {
                assert(crate::world::rec_wf(world.rows()[target as int],
                    world.spec_bound_x(), world.spec_bound_y()));
            }
            if entity != target {
                move_towards_target(world, entity, p.x, p.y);
            } else {
                proof { assert(final(world).rows() =~= old(world).rows()); }
            }
        }
        None => {
            proof { assert(final(world).rows() =~= old(world).rows()); }
        }
    }
}

/// Steer back toward the spawn origin (clamped to the map); an entity
/// without one stays put.
pub fn flee_behavior(world: &mut World, entity: EntityId)
    requires
        old(world).wf(),
    ensures
        final(world).wf(),
        final(world).spec_bound_x() == old(world).spec_bound_x(),
        final(world).spec_bound_y() == old(world).spec_bound_y(),
        final(world).rows().len() == old(world).rows().len(),
        forall|k: int| 0 <= k < old(world).rows().len() && k != entity
            ==> final(world).rows()[k] == old(world).rows()[k],
        entity < old(world).rows().len() ==> velocity_only_change(
            old(world).rows()[entity as int], final(world).rows()[entity as int]),
        (entity < old(world).rows().len()
            && old(world).rows()[entity as int].spawn_origin is Some
            && steerable(old(world).rows(), entity))
            ==> final(world).rows()[entity as int].velocity
                == Some(steered_velocity(old(world).rows(), entity,
                    crate::units::clamped(
                        old(world).rows()[entity as int].spawn_origin->Some_0.x as int,
                        old(world).spec_bound_x()),
                    crate::units::clamped(
                        old(world).rows()[entity as int].spawn_origin->Some_0.y as int,
                        old(world).spec_bound_y()))),
{
    match world.spawn_origin(entity) {
        Some(origin) => {
            let (bx, by): (i64, i64) = world.bounds();
            let tx: i64 = crate::units::clamp_coord(origin.x, bx);
            let ty: i64 = crate::units::clamp_coord(origin.y, by);
            move_towards_target(world, entity, tx, ty);
        }
        None => {
            proof { assert(final(world).rows() =~= old(world).rows()); }
        }
    }
}

/// Pick a patrol point five to ten tiles from the spawn origin, from two
/// random draws, and steer toward it (clamped to the map).  The draws
/// come from the process random number generator; whatever they are, the
/// steered-toward point lies within ten tiles of the origin on each axis
/// before clamping.
pub fn patrol_behavior(world: &mut World, entity: EntityId)
    requires
        old(world).wf(),
    ensures
        final(world).wf(),
        final(world).spec_bound_x() == old(world).spec_bound_x(),
        final(world).spec_bound_y() == old(world).spec_bound_y(),
        final(world).rows().len() == old(world).rows().len(),
        forall|k: int| 0 <= k < old(world).rows().len() && k != entity
            ==> final(world).rows()[k] == old(world).rows()[k],
        entity < old(world).rows().len() ==> velocity_only_change(
            old(world).rows()[entity as int], final(world).rows()[entity as int]),
        (entity < old(world).rows().len()
            && old(world).rows()[entity as int].spawn_origin is Some
            && steerable(old(world).rows(), entity))
            ==> exists|wx: int, wy: int| ({
                let org = old(world).rows()[entity as int].spawn_origin->Some_0;
                &&& org.x - 10 * TILE_UNITS <= wx <= org.x + 10 * TILE_UNITS
                &&& org.y - 10 * TILE_UNITS <= wy <= org.y + 10 * TILE_UNITS
                &&& final(world).rows()[entity as int].velocity
                    == Some(#[trigger] steered_velocity(old(world).rows(), entity,
                        crate::units::clamped(wx, old(world).spec_bound_x()),
                        crate::units::clamped(wy, old(world).spec_bound_y())))
            }),
{
    let origin = match world.spawn_origin(entity) {
        Some(o) => o,
        None => {
            proof { assert(final(world).rows() =~= old(world).rows()); }
            return;
        },
    };
    let roll_dir: u32 = roll_permille();
    let roll_dist: u32 = roll_permille();
    // Distance five to ten tiles; direction one of eight compass points.
    let dist_units: i64 = 5 * TILE_UNITS + (roll_dist as i64) * (5 * TILE_UNITS) / 1000;
    let dir: u32 = roll_dir % 8;
    let (ux, uy): (i64, i64) = if dir == 0 { (1, 0) }
        else if dir == 1 { (1, 1) }
        else if dir == 2 { (0, 1) }
        else if dir == 3 { (-1, 1) }
        else if dir == 4 { (-1, 0) }
        else if dir == 5 { (-1, -1) }
        else if dir == 6 { (0, -1) }
        else { (1, -1) };
    proof {
        assert((roll_dist as i64) * (5 * TILE_UNITS) <= 1000 * (5 * TILE_UNITS))
            by (nonlinear_arith)
            requires 0 <= roll_dist < 1000;
        assert((roll_dist as i64) * (5 * TILE_UNITS) >= 0) by (nonlinear_arith)
            requires roll_dist >= 0;
        vstd::arithmetic::div_mod::lemma_div_pos_is_pos((roll_dist as int) * (5 * TILE_UNITS), 1000);
        vstd::arithmetic::div_mod::lemma_div_is_ordered(
            (roll_dist as int) * (5 * TILE_UNITS), 1000 * (5 * TILE_UNITS), 1000);
        vstd::arithmetic::div_mod::lemma_div_multiples_vanish(5 * TILE_UNITS, 1000);
    }
    proof {
        assert(world.wf());
        assert(crate::world::rec_wf(world.rows()[entity as int],
            world.spec_bound_x(), world.spec_bound_y()));
        assert(-dist_units <= ux * dist_units <= dist_units) by (nonlinear_arith)
            requires -1 <= ux <= 1, 0 <= dist_units;
        assert(-dist_units <= uy * dist_units <= dist_units) by (nonlinear_arith)
            requires -1 <= uy <= 1, 0 <= dist_units;
    }
    let (bx, by): (i64, i64) = world.bounds();
    let px: i64 = origin.x + ux * dist_units;
    let py: i64 = origin.y + uy * dist_units;
    let tx: i64 = crate::units::clamp_coord(px, bx);
    let ty: i64 = crate::units::clamp_coord(py, by);
    move_towards_target(world, entity, tx, ty);
    proof {
        if entity < old(world).rows().len()
            && old(world).rows()[entity as int].spawn_origin is Some
            && steerable(old(world).rows(), entity) {
            assert(final(world).rows()[entity as int].velocity
                == Some(steered_velocity(old(world).rows(), entity,
                    crate::units::clamped(px as int, old(world).spec_bound_x()),
                    crate::units::clamped(py as int, old(world).spec_bound_y()))));
        }
    }
}

/// What a pack call does to one row: a live monster of the caller's type
/// within call range, other than the caller, turns to chase the
/// attacker.
pub open spec fn alerted_rec(rec: EntityRec, attacker: EntityId) -> EntityRec {
    EntityRec {
        ai: Some(AIController {
            state: AIState::Chase,
            target: Some(attacker),
            last_seen_position: rec.ai->Some_0.last_seen_position,
            chase_timer_ms: 0,
        }),
        ..rec
    }
}

/// Row `j` answers a pack call from `caller` of type `mt` standing at
/// `(cx, cy)`.
pub open spec fn answers_call(
    rows: Seq<EntityRec>, j: int, caller: EntityId, mt: MonsterType, cx: int, cy: int)
    -> bool {
    &&& 0 <= j < rows.len()
    &&& j != caller
    &&& rows[j].alive
    &&& rows[j].monster matches Some(m) && m.monster_type == mt
    &&& rows[j].position is Some
    &&& rows[j].ai is Some
    &&& dist_sq_spec(
        rows[j].position->Some_0.x as int, rows[j].position->Some_0.y as int, cx, cy)
        <= CALL_RANGE_UNITS * CALL_RANGE_UNITS
}

/// When a pack creature is attacked, every live monster of its type
/// within fifteen tiles turns to chase the attacker; nothing else
/// changes.  A caller that is not a pack creature, or lacks its position
/// or monster component, changes nothing.
pub fn call_for_help(world: &mut World, entity: EntityId, attacker: EntityId)
    requires
        old(world).wf(),
    ensures
        final(world).wf(),
        final(world).spec_bound_x() == old(world).spec_bound_x(),
        final(world).spec_bound_y() == old(world).spec_bound_y(),
        final(world).rows().len() == old(world).rows().len(),
        ({
            let rows = old(world).rows();
            if entity < rows.len() && rows[entity as int].alive
                && rows[entity as int].position is Some
                && (rows[entity as int].monster matches Some(m)
                    && pack_creature_spec(m.monster_type)) {
                let mt = rows[entity as int].monster->Some_0.monster_type;
                let cx = rows[entity as int].position->Some_0.x as int;
                let cy = rows[entity as int].position->Some_0.y as int;
                forall|j: int| 0 <= j < rows.len()
                    ==> final(world).rows()[j] == (
                        if answers_call(rows, j, entity, mt, cx, cy) {
                            alerted_rec(#[trigger] rows[j], attacker)
                        } else {
                            rows[j]
                        })
            } else {
                final(world).rows() == rows
            }
        }),
{
    let my_pos = match world.position(entity) {
        Some(p) => p,
        None => {
            proof { assert(final(world).rows() =~= old(world).rows()); }
            return;
        },
    };
    let my_monster = match world.monster(entity) {
        Some(m) => m,
        None => {
            proof { assert(final(world).rows() =~= old(world).rows()); }
            return;
        },
    };
    if !world.is_alive(entity) {
        proof { assert(final(world).rows() =~= old(world).rows()); }
        return;
    }
    if !is_pack_creature(my_monster.monster_type) {
        proof { assert(final(world).rows() =~= old(world).rows()); }
        return;
    }
    let ghost rows0 = old(world).rows();
    let ghost mt = my_monster.monster_type;
    let n: u32 = world.row_count();
    let mut j: u32 = 0;
    while j < n
        invariant
            world.wf(),
            n == world.rows().len(),
            rows0.len() == n,
            0 <= j <= n,
            world.spec_bound_x() == old(world).spec_bound_x(),
            world.spec_bound_y() == old(world).spec_bound_y(),
            entity < n,
            rows0[entity as int].position == Some(my_pos),
            mt == rows0[entity as int].monster->Some_0.monster_type,
            my_monster.monster_type == mt,
            0 <= my_pos.x,
            0 <= my_pos.y,
            my_pos.x <= COORD_LIMIT,
            my_pos.y <= COORD_LIMIT,
            forall|k: int| j <= k < n ==> world.rows()[k] == rows0[k],
            forall|k: int| 0 <= k < j
                ==> world.rows()[k] == (
                    if answers_call(rows0, k, entity, mt, my_pos.x as int, my_pos.y as int) {
                        alerted_rec(#[trigger] rows0[k], attacker)
                    } else {
                        rows0[k]
                    }),
        decreases n - j,
    {
        let mut answers: bool = false;
        if j != entity && world.is_alive(j) {
            match world.monster(j) {
                Some(m) => {
                    if m.monster_type == my_monster.monster_type {
                        match world.position(j) {
                            Some(p) => {
                                let d2: i64 = dist_sq(p.x, p.y, my_pos.x, my_pos.y);
                                if d2 <= CALL_RANGE_UNITS * CALL_RANGE_UNITS
                                    && world.ai(j).is_some() {
                                    answers = true;
                                }
                            }
                            None => {}
                        }
                    }
                }
                None => {}
            }
        }
        if answers {
            let old_ai = world.ai(j).unwrap();
            let _ = world.set_ai(j, AIController {
                state: AIState::Chase,
                target: Some(attacker),
                last_seen_position: old_ai.last_seen_position,
                chase_timer_ms: 0,
            });
        }
        j = j + 1;
    }
}

/// `b` is `a` with at most its controller and velocity slots changed.
pub open spec fn ai_phase_change(a: EntityRec, b: EntityRec) -> bool {
    b == (EntityRec { ai: b.ai, velocity: b.velocity, ..a })
}

/// `b` is `a` with at most its cooldown and health slots changed.
pub open spec fn combat_phase_change(a: EntityRec, b: EntityRec) -> bool {
    b == (EntityRec { cooldowns: b.cooldowns, health: b.health, ..a })
}

/// Row `k` is driven by the state machine: a live row with a
/// controller, health, position and spawn origin.
pub open spec fn ai_driven(rec: EntityRec) -> bool {
    &&& rec.alive
    &&& rec.ai is Some
    &&& rec.health is Some
    &&& rec.position is Some
    &&& rec.spawn_origin is Some
}

/// A target the state machine may lock onto: a nearest live player
/// within detection range.
pub open spec fn chase_candidate(rows: Seq<EntityRec>, e: EntityId, t: EntityId) -> bool {
    &&& observer_ready(rows, e)
    &&& live_player_at(rows, t as int)
    &&& t != e
    &&& row_dist_sq(rows, e as int, t as int)
        <= detection_units(rows, e) * detection_units(rows, e)
    &&& forall|j: int| live_player_at(rows, j) && j != e
        ==> #[trigger] row_dist_sq(rows, e as int, j) >= row_dist_sq(rows, e as int, t as int)
}

/// No player stands within the entity's detection range (or it cannot
/// observe at all).
pub open spec fn no_enemy_in_range(rows: Seq<EntityRec>, e: EntityId) -> bool {
    ||| !observer_ready(rows, e)
    ||| forall|j: int| live_player_at(rows, j) && j != e
        ==> #[trigger] row_dist_sq(rows, e as int, j)
            > detection_units(rows, e) * detection_units(rows, e)
}

/// The state machine's legal step for a driven row that is not Dead:
/// exhausted rows die; a wounded row flees toward its clamped origin
/// and idles on arriving; Idle and Patrol lock onto a nearest player in
/// range or keep wandering; Chase and Attack track their target by
/// melee reach and sight and give it up when it is gone.
pub open spec fn ai_transition_ok(
    rows: Seq<EntityRec>, e: EntityId, ai1: AIController, bx: int, by: int) -> bool {
    let rec = rows[e as int];
    let ai0 = rec.ai->Some_0;
    let h = rec.health->Some_0;
    let pos = rec.position->Some_0;
    let org = rec.spawn_origin->Some_0;
    if h.current <= 0 {
        ai1.state is Dead && ai1.target is None
    } else if should_flee_spec(h) {
        if dist_sq_spec(pos.x as int, pos.y as int,
            crate::units::clamped(org.x as int, bx), crate::units::clamped(org.y as int, by))
            <= TILE_UNITS * TILE_UNITS {
            ai1 == (AIController { state: AIState::Idle, ..ai0 })
        } else {
            ai1 == (AIController { state: AIState::Flee, ..ai0 })
        }
    } else {
        match ai0.state {
            AIState::Idle | AIState::Patrol => {
                ||| ((ai1.state is Chase)
                    && (ai1.target matches Some(t) && chase_candidate(rows, e, t))
                    && ai1.chase_timer_ms == 0
                    && ai1.last_seen_position == ai0.last_seen_position)
                ||| (no_enemy_in_range(rows, e)
                    && (ai1 == ai0
                        || ai1 == (AIController { state: AIState::Patrol, ..ai0 })
                        || ai1 == (AIController { state: AIState::Idle, ..ai0 })))
            }
            AIState::Chase | AIState::Attack => {
                match ai0.target {
                    Some(t) => {
                        if !(t < rows.len() && rows[t as int].alive) {
                            ai1 == (AIController {
                                state: AIState::Idle,
                                target: None,
                                ..ai0
                            })
                        } else if in_melee_spec(rows, e, t) {
                            ai1 == (AIController { state: AIState::Attack, ..ai0 })
                        } else if sees_spec(rows, e, t) {
                            ai1 == (AIController { state: AIState::Chase, ..ai0 })
                        } else {
                            ai1 == (AIController {
                                state: AIState::Idle,
                                target: None,
                                ..ai0
                            })
                        }
                    }
                    None => ai1 == (AIController { state: AIState::Idle, ..ai0 }),
                }
            }
            AIState::Flee => ai1 == (AIController { state: AIState::Idle, ..ai0 }),
            AIState::Dead => ai1 == ai0,
        }
    }
}

/// One pass of the monster state machine over every driven row — a live
/// row with a controller, health, position and spawn origin.  Every
/// such row that is not Dead steps by `ai_transition_ok`; every other
/// row is untouched; and the pass writes only controllers and
/// velocities.
pub fn update_monster_ai(world: &mut World, now_ms: u64)
    requires
        old(world).wf(),
    ensures
        final(world).wf(),
        final(world).rows().len() == old(world).rows().len(),
        final(world).spec_bound_x() == old(world).spec_bound_x(),
        final(world).spec_bound_y() == old(world).spec_bound_y(),
        forall|k: int| 0 <= k < old(world).rows().len()
            ==> ai_phase_change(old(world).rows()[k], #[trigger] final(world).rows()[k]),
        forall|k: int| 0 <= k < old(world).rows().len()
            && !(ai_driven(#[trigger] old(world).rows()[k])
                && !(old(world).rows()[k].ai->Some_0.state is Dead))
            ==> final(world).rows()[k] == old(world).rows()[k],
        forall|k: int| 0 <= k < old(world).rows().len()
            && ai_driven(#[trigger] old(world).rows()[k])
            && !(old(world).rows()[k].ai->Some_0.state is Dead)
            ==> (final(world).rows()[k].ai matches Some(a1)
                && ai_transition_ok(old(world).rows(), k as u32, a1,
                    old(world).spec_bound_x(), old(world).spec_bound_y())),
        forall|k: int| 0 <= k < old(world).rows().len()
            && ai_driven(#[trigger] old(world).rows()[k])
            && old(world).rows()[k].health->Some_0.current <= 0
            ==> (final(world).rows()[k].ai matches Some(c) && c.state is Dead),
{
    let n: u32 = world.row_count();
    let mut e: u32 = 0;
    while e < n
        invariant
            world.wf(),
            n == world.rows().len(),
            n == old(world).rows().len(),
            0 <= e <= n,
            world.spec_bound_x() == old(world).spec_bound_x(),
            world.spec_bound_y() == old(world).spec_bound_y(),
            forall|k: int| 0 <= k < n
                ==> ai_phase_change(old(world).rows()[k], #[trigger] world.rows()[k]),
            forall|k: int| e <= k < n ==> world.rows()[k] == old(world).rows()[k],
            forall|k: int| 0 <= k < e
                && !(ai_driven(#[trigger] old(world).rows()[k])
                    && !(old(world).rows()[k].ai->Some_0.state is Dead))
                ==> world.rows()[k] == old(world).rows()[k],
            forall|k: int| 0 <= k < e
                && ai_driven(#[trigger] old(world).rows()[k])
                && !(old(world).rows()[k].ai->Some_0.state is Dead)
                ==> (world.rows()[k].ai matches Some(a1)
                    && ai_transition_ok(old(world).rows(), k as u32, a1,
                        old(world).spec_bound_x(), old(world).spec_bound_y())),
            forall|k: int| 0 <= k < e
                && ai_driven(#[trigger] old(world).rows()[k])
                && old(world).rows()[k].health->Some_0.current <= 0
                ==> (world.rows()[k].ai matches Some(c) && c.state is Dead),
        decreases n - e,
    {
        let ghost rows0 = old(world).rows();
        proof {
            assert forall|j: int| 0 <= j < n implies ({
                let a = rows0[j];
                let b = #[trigger] world.rows()[j];
                b.position == a.position && b.player == a.player && b.alive == a.alive
                    && b.detection_range == a.detection_range && b.health == a.health
                    && b.spawn_origin == a.spawn_origin
                    && b.movement_speed == a.movement_speed
            }) by {
                assert(ai_phase_change(rows0[j], world.rows()[j]));
            }
        }
        let controller = world.ai(e);
        let health = world.health(e);
        let position = world.position(e);
        let origin = world.spawn_origin(e);
        let driven: bool = world.is_alive(e) && controller.is_some() && health.is_some()
            && position.is_some() && origin.is_some();
        if driven {
            let mut ai = controller.unwrap();
            let h = health.unwrap();
            let pos = position.unwrap();
            let org = origin.unwrap();
            if !matches!(ai.state, AIState::Dead) {
                let ghost pre = world.rows();
                let ghost ai0 = ai;
                if h.current <= 0 {
                    ai.state = AIState::Dead;
                    ai.target = None;
                    let _ = world.set_ai(e, ai);
                    let _ = world.set_velocity(e, Velocity { dx: 0, dy: 0 });
                } else if should_flee(&h) {
                    let (bx, by): (i64, i64) = world.bounds();
                    let ox: i64 = crate::units::clamp_coord(org.x, bx);
                    let oy: i64 = crate::units::clamp_coord(org.y, by);
                    proof {
                        assert(crate::world::rec_wf(world.rows()[e as int],
                            world.spec_bound_x(), world.spec_bound_y()));
                    }
                    let d2: i64 = dist_sq(pos.x, pos.y, ox, oy);
                    if d2 <= TILE_UNITS * TILE_UNITS {
                        ai.state = AIState::Idle;
                        let _ = world.set_ai(e, ai);
                        let _ = world.set_velocity(e, Velocity { dx: 0, dy: 0 });
                    } else {
                        ai.state = AIState::Flee;
                        let _ = world.set_ai(e, ai);
                        flee_behavior(world, e);
                    }
                } else {
                    match ai.state {
                        AIState::Idle | AIState::Patrol => {
                            match find_nearest_enemy(world, e) {
                                Some(target) => {
                                    proof {
                                        assert(observer_ready(world.rows(), e));
                                        assert(live_player_at(world.rows(), target as int));
                                        assert(target != e);
                                        assert(row_dist_sq(world.rows(), e as int, target as int)
                                            <= detection_units(world.rows(), e)
                                                * detection_units(world.rows(), e));
                                        assert forall|j: int|
                                            live_player_at(world.rows(), j) && j != e
                                            implies #[trigger] row_dist_sq(
                                                world.rows(), e as int, j)
                                                >= row_dist_sq(world.rows(), e as int,
                                                    target as int) by {}
                                        assert(chase_candidate(world.rows(), e, target));
                                        assert(world.rows()[e as int].position
                                            == rows0[e as int].position);
                                        assert(world.rows()[target as int].position
                                            == rows0[target as int].position);
                                        assert forall|j: int|
                                            live_player_at(rows0, j) && j != e
                                            implies #[trigger] row_dist_sq(rows0, e as int, j)
                                                >= row_dist_sq(rows0, e as int, target as int)
                                            by {
                                            assert(world.rows()[j].position
                                                == rows0[j].position);
                                            assert(live_player_at(world.rows(), j));
                                            assert(row_dist_sq(world.rows(), e as int, j)
                                                >= row_dist_sq(world.rows(), e as int,
                                                    target as int));
                                            assert(row_dist_sq(rows0, e as int, j)
                                                == row_dist_sq(world.rows(), e as int, j));
                                            assert(row_dist_sq(rows0, e as int, target as int)
                                                == row_dist_sq(world.rows(), e as int,
                                                    target as int));
                                        }
                                        assert(chase_candidate(rows0, e, target));
                                    }
                                    ai.state = AIState::Chase;
                                    ai.target = Some(target);
                                    ai.chase_timer_ms = 0;
                                    let _ = world.set_ai(e, ai);
                                    chase_behavior(world, e, target);
                                }
                                None => {
                                    proof {
                                        assert(no_enemy_in_range(world.rows(), e)) by {
                                            if observer_ready(world.rows(), e) {
                                                assert forall|j: int|
                                                    live_player_at(world.rows(), j) && j != e
                                                    implies #[trigger] row_dist_sq(
                                                        world.rows(), e as int, j)
                                                        > detection_units(world.rows(), e)
                                                            * detection_units(world.rows(), e)
                                                    by {}
                                            }
                                        }
                                        assert(no_enemy_in_range(rows0, e)) by {
                                            if observer_ready(rows0, e) {
                                                assert(observer_ready(world.rows(), e));
                                                assert forall|j: int|
                                                    live_player_at(rows0, j) && j != e
                                                    implies #[trigger] row_dist_sq(
                                                        rows0, e as int, j)
                                                        > detection_units(rows0, e)
                                                            * detection_units(rows0, e)
                                                    by {
                                                    assert(world.rows()[j].position
                                                        == rows0[j].position);
                                                    assert(live_player_at(world.rows(), j));
                                                    assert(row_dist_sq(
                                                        world.rows(), e as int, j)
                                                        > detection_units(world.rows(), e)
                                                            * detection_units(
                                                                world.rows(), e));
                                                    assert(row_dist_sq(rows0, e as int, j)
                                                        == row_dist_sq(
                                                            world.rows(), e as int, j));
                                                    assert(detection_units(rows0, e)
                                                        == detection_units(world.rows(), e));
                                                }
                                            }
                                        }
                                    }
                                    let keep_idle: bool = matches!(ai.state, AIState::Idle);
                                    if keep_idle {
                                        if crate::rng::roll_permille() < 10 {
                                            ai.state = AIState::Patrol;
                                            let _ = world.set_ai(e, ai);
                                            patrol_behavior(world, e);
                                        }
                                    } else {
                                        if crate::rng::roll_permille() < 20 {
                                            ai.state = AIState::Idle;
                                            let _ = world.set_ai(e, ai);
                                            let _ = world.set_velocity(e,
                                                Velocity { dx: 0, dy: 0 });
                                        } else {
                                            patrol_behavior(world, e);
                                        }
                                    }
                                }
                            }
                        }
                        AIState::Chase | AIState::Attack => {
                            let target_opt = ai.target;
                            match target_opt {
                                Some(target) => {
                                    if !world.is_alive(target) {
                                        ai.state = AIState::Idle;
                                        ai.target = None;
                                        let _ = world.set_ai(e, ai);
                                        let _ = world.set_velocity(e, Velocity { dx: 0, dy: 0 });
                                    } else if is_in_attack_range(world, e, target) {
                                        ai.state = AIState::Attack;
                                        let _ = world.set_ai(e, ai);
                                        let _ = world.set_velocity(e, Velocity { dx: 0, dy: 0 });
                                    } else if can_see_target(world, e, target) {
                                        ai.state = AIState::Chase;
                                        let _ = world.set_ai(e, ai);
                                        chase_behavior(world, e, target);
                                    } else {
                                        ai.state = AIState::Idle;
                                        ai.target = None;
                                        let _ = world.set_ai(e, ai);
                                        let _ = world.set_velocity(e, Velocity { dx: 0, dy: 0 });
                                    }
                                }
                                None => {
                                    ai.state = AIState::Idle;
                                    let _ = world.set_ai(e, ai);
                                }
                            }
                        }
                        AIState::Flee => {
                            ai.state = AIState::Idle;
                            let _ = world.set_ai(e, ai);
                        }
                        AIState::Dead => {}
                    }
                }
                proof {
                    lemma_ai_steps(old(world).rows(), pre, world.rows(), e, n as int);
                    assert(world.rows()[e as int].ai matches Some(a1)
                        && ai_transition_ok(rows0, e, a1,
                            old(world).spec_bound_x(), old(world).spec_bound_y()));
                }
            }
        }
        let _ = now_ms;
        e = e + 1;
    }
}

/// Chains the per-row frame across the writes of one driver iteration.
proof fn lemma_ai_steps(
    rows0: Seq<EntityRec>, pre: Seq<EntityRec>, cur: Seq<EntityRec>, e: u32, n: int)
    requires
        rows0.len() == n,
        pre.len() == n,
        cur.len() == n,
        0 <= e < n,
        forall|k: int| 0 <= k < n
            ==> ai_phase_change(rows0[k], #[trigger] pre[k]),
        forall|k: int| 0 <= k < n && k != e ==> cur[k] == pre[k],
        ai_phase_change(pre[e as int], cur[e as int]),
    ensures
        forall|k: int| 0 <= k < n
            ==> ai_phase_change(rows0[k], #[trigger] cur[k]),
{
    assert forall|k: int| 0 <= k < n
        implies ai_phase_change(rows0[k], #[trigger] cur[k]) by {
        if k != e {
            assert(cur[k] == pre[k]);
        } else {
            assert(ai_phase_change(rows0[k], pre[k]));
            assert(cur[k] == (EntityRec { ai: cur[k].ai, velocity: cur[k].velocity, ..pre[k] }));
            assert(pre[k] == (EntityRec { ai: pre[k].ai, velocity: pre[k].velocity, ..rows0[k] }));
        }
    }
}

/// Row `k` is swinging: its controller stands in the Attack state with
/// a target locked.
pub open spec fn attacking(rows: Seq<EntityRec>, k: EntityId) -> bool {
    &&& k < rows.len()
    &&& rows[k as int].ai matches Some(c) && c.state is Attack && c.target is Some
}

/// Row `k`'s swing at `now_ms` will land a resolved attack: attacker
/// and target carry their components and the attack cooldown has run
/// out.
pub open spec fn swing_resolves(rows: Seq<EntityRec>, k: EntityId, now_ms: u64) -> bool {
    &&& attacking(rows, k)
    &&& crate::abilities::attacker_components_present(rows, k)
    &&& crate::abilities::attack_ready_spec(
        rows[k as int].cooldowns->Some_0, rows[k as int].attack_speed->Some_0, now_ms)
    &&& crate::abilities::target_components_present(rows, rows[k as int].ai->Some_0.target->Some_0)
}

/// Resolve the attacks of every controller standing in the Attack
/// state: each swings at its target under the combat rules, touching
/// only cooldowns and health.  A swing that resolves restamps the
/// attacker's cooldown at `now_ms`; no swing ever raises anyone's hit
/// points, and maxima are untouched.
pub fn resolve_monster_attacks(world: &mut World, now_ms: u64)
    requires
        old(world).wf(),
    ensures
        final(world).wf(),
        final(world).rows().len() == old(world).rows().len(),
        final(world).spec_bound_x() == old(world).spec_bound_x(),
        final(world).spec_bound_y() == old(world).spec_bound_y(),
        forall|k: int| 0 <= k < old(world).rows().len()
            ==> combat_phase_change(old(world).rows()[k], #[trigger] final(world).rows()[k]),
        forall|k: int| 0 <= k < old(world).rows().len()
            && #[trigger] swing_resolves(old(world).rows(), k as u32, now_ms)
            ==> (final(world).rows()[k].cooldowns matches Some(cd)
                && cd.attack == Some(now_ms)),
        forall|k: int| 0 <= k < old(world).rows().len()
            && (#[trigger] old(world).rows()[k]).health is Some
            ==> (final(world).rows()[k].health matches Some(h1)
                && h1.current <= old(world).rows()[k].health->Some_0.current
                && h1.max == old(world).rows()[k].health->Some_0.max),
{
    let n: u32 = world.row_count();
    let mut e: u32 = 0;
    while e < n
        invariant
            world.wf(),
            n == world.rows().len(),
            n == old(world).rows().len(),
            0 <= e <= n,
            world.spec_bound_x() == old(world).spec_bound_x(),
            world.spec_bound_y() == old(world).spec_bound_y(),
            forall|k: int| 0 <= k < n
                ==> combat_phase_change(old(world).rows()[k], #[trigger] world.rows()[k]),
            forall|k: int| e <= k < n
                ==> (#[trigger] world.rows()[k]).cooldowns == old(world).rows()[k].cooldowns,
            forall|k: int| 0 <= k < e
                && #[trigger] swing_resolves(old(world).rows(), k as u32, now_ms)
                ==> (world.rows()[k].cooldowns matches Some(cd)
                    && cd.attack == Some(now_ms)),
            forall|k: int| 0 <= k < n
                && (#[trigger] old(world).rows()[k]).health is Some
                ==> (world.rows()[k].health matches Some(h1)
                    && h1.current <= old(world).rows()[k].health->Some_0.current
                    && h1.max == old(world).rows()[k].health->Some_0.max),
        decreases n - e,
    {
        let attack_now: Option<EntityId> = match world.ai(e) {
            Some(c) => {
                if matches!(c.state, AIState::Attack) { c.target } else { None }
            }
            None => None,
        };
        match attack_now {
            Some(target) => {
                let ghost pre = world.rows();
                let r = perform_attack(world, e, target, now_ms);
                proof {
                    assert forall|k: int| 0 <= k < n
                        implies combat_phase_change(old(world).rows()[k],
                            #[trigger] world.rows()[k]) by {
                        assert(combat_phase_change(pre[k], world.rows()[k]));
                        assert(combat_phase_change(old(world).rows()[k], pre[k]));
                        assert(pre[k] == (EntityRec {
                            cooldowns: pre[k].cooldowns,
                            health: pre[k].health,
                            ..old(world).rows()[k]
                        }));
                        assert(world.rows()[k] == (EntityRec {
                            cooldowns: world.rows()[k].cooldowns,
                            health: world.rows()[k].health,
                            ..pre[k]
                        }));
                    }
                    if swing_resolves(old(world).rows(), e, now_ms) {
                        assert(crate::abilities::attacker_components_present(pre, e));
                        assert(crate::abilities::target_components_present(pre, target));
                        assert(crate::abilities::attack_ready_spec(
                            pre[e as int].cooldowns->Some_0,
                            pre[e as int].attack_speed->Some_0, now_ms));
                        assert(r is Ok);
                        assert(world.rows()[e as int].cooldowns matches Some(cd)
                            && cd.attack == Some(now_ms));
                    }
                }
            }
            None => {}
        }
        e = e + 1;
    }
}

} // verus!
