//! Outbound state synchronisation: the full snapshot a joining client
//! receives, and the per-tick delta message built from a tick's
//! (possibly vision-filtered) changes.

use vstd::prelude::*;
use crate::components::EntityId;
use crate::delta::{collect_entity_info, encodable, EntityChanges, EntityInfo};
use crate::state::GameState;
use crate::units::COORD_LIMIT;
use crate::world::{EntityRec, World};

verus! {

/// `info` reports row `info.id` faithfully: the position, velocity,
/// health and stats of the row, and its character sheet when it has
/// one.
pub open spec fn info_matches(rows: Seq<EntityRec>, info: EntityInfo) -> bool {
    let rec = rows[info.id as int];
    &&& encodable(rows, info.id)
    &&& info.x == rec.position->Some_0.x
    &&& info.y == rec.position->Some_0.y
    &&& info.vx == rec.velocity->Some_0.dx
    &&& info.vy == rec.velocity->Some_0.dy
    &&& info.health_current == rec.health->Some_0.current
    &&& info.health_max == rec.health->Some_0.max
    &&& info.stats == rec.stats->Some_0
    &&& (rec.character matches Some(c) ==> info.species == c.species
        && info.class == c.class && info.level == c.level && info.experience == c.experience)
    &&& (rec.player matches Some(pl) ==> info.name@ == pl.name@)
    &&& (rec.player is None ==> info.name@ == "NPC"@)
    &&& (rec.sprite matches Some(sp) ==> info.sprite_id@ == sp.sprite_id@)
    &&& (rec.sprite is None ==> info.sprite_id@ == "default"@)
}

/// The full picture a joining client receives: the map's identity and
/// sound, its own entity id, and every encodable entity within vision.
pub struct SnapshotMessage {
    pub map_id: String,
    pub map_name: String,
    pub background_music: String,
    pub ambient_sound: String,
    pub player_entity_id: u32,
    pub entities: Vec<EntityInfo>,
}

/// One tick's changes, ready to encode: the sequence number, full data
/// for updated and spawned entities, and the bare ids of despawned
/// ones.
pub struct DeltaMessage {
    pub sequence: u32,
    pub entities_updated: Vec<EntityInfo>,
    pub entities_spawned: Vec<EntityInfo>,
    pub entities_despawned: Vec<u32>,
}

/// The entity data of every id in `list` that can be encoded; ids that
/// cannot be encoded are dropped.
fn collect_infos(world: &World, list: &Vec<EntityId>) -> (r: Vec<EntityInfo>)
    requires
        world.wf(),
    ensures
        forall|i: int| 0 <= i < r@.len()
            ==> info_matches(world.rows(), #[trigger] r@[i])
                && list@.contains(r@[i].id),
        forall|j: int| 0 <= j < list@.len() && encodable(world.rows(), #[trigger] list@[j])
            ==> exists|i: int| 0 <= i < r@.len() && (#[trigger] r@[i]).id == list@[j],
{
    let mut r: Vec<EntityInfo> = Vec::new();
    let mut j: usize = 0;
    while j < list.len()
        invariant
            world.wf(),
            0 <= j <= list@.len(),
            forall|i: int| 0 <= i < r@.len()
                ==> info_matches(world.rows(), #[trigger] r@[i])
                    && list@.contains(r@[i].id),
            forall|j2: int| 0 <= j2 < j && encodable(world.rows(), #[trigger] list@[j2])
                ==> exists|i: int| 0 <= i < r@.len() && (#[trigger] r@[i]).id == list@[j2],
        decreases list@.len() - j,
    {
        let e: EntityId = list[j];
        match collect_entity_info(world, e) {
            Some(info) => {
                let ghost pre = r@;
                proof {
                    assert(list@[j as int] == e);
                }
                r.push(info);
                proof {
                    assert(r@[pre.len() as int].id == e);
                    assert forall|i: int| 0 <= i < r@.len()
                        implies info_matches(world.rows(), #[trigger] r@[i])
                            && list@.contains(r@[i].id) by {
                        if i < pre.len() {
                            assert(r@[i] == pre[i]);
                        }
                    }
                    assert forall|j2: int| 0 <= j2 < j + 1
                        && encodable(world.rows(), #[trigger] list@[j2])
                        implies exists|i: int| 0 <= i < r@.len()
                            && (#[trigger] r@[i]).id == list@[j2] by {
                        if j2 < j {
                            let i = choose|i: int| 0 <= i < pre.len()
                                && (#[trigger] pre[i]).id == list@[j2];
                            assert(r@[i].id == list@[j2]);
                        } else {
                            assert(r@[pre.len() as int].id == list@[j2]);
                        }
                    }
                }
            }
            None => {}
        }
        j = j + 1;
    }
    r
}

/// Build the delta message for one tick: full entity data for the
/// changes' updated and spawned lists (entities that can no longer be
/// encoded are dropped), and the despawned ids verbatim, under the
/// tick's sequence number.
pub fn build_delta_message(world: &World, changes: &EntityChanges, sequence: u32)
    -> (r: DeltaMessage)
    requires
        world.wf(),
    ensures
        r.sequence == sequence,
        r.entities_despawned@ == changes.despawned@,
        forall|i: int| 0 <= i < r.entities_updated@.len()
            ==> info_matches(world.rows(), #[trigger] r.entities_updated@[i])
                && changes.updated@.contains(r.entities_updated@[i].id),
        forall|j: int| 0 <= j < changes.updated@.len()
            && encodable(world.rows(), #[trigger] changes.updated@[j])
            ==> exists|i: int| 0 <= i < r.entities_updated@.len()
                && (#[trigger] r.entities_updated@[i]).id == changes.updated@[j],
        forall|i: int| 0 <= i < r.entities_spawned@.len()
            ==> info_matches(world.rows(), #[trigger] r.entities_spawned@[i])
                && changes.spawned@.contains(r.entities_spawned@[i].id),
        forall|j: int| 0 <= j < changes.spawned@.len()
            && encodable(world.rows(), #[trigger] changes.spawned@[j])
            ==> exists|i: int| 0 <= i < r.entities_spawned@.len()
                && (#[trigger] r.entities_spawned@[i]).id == changes.spawned@[j],
{
    let entities_updated = collect_infos(world, &changes.updated);
    let entities_spawned = collect_infos(world, &changes.spawned);
    let mut entities_despawned: Vec<u32> = Vec::new();
    let mut i: usize = 0;
    while i < changes.despawned.len()
        invariant
            0 <= i <= changes.despawned@.len(),
            entities_despawned@ == changes.despawned@.subrange(0, i as int),
        decreases changes.despawned@.len() - i,
    {
        entities_despawned.push(changes.despawned[i]);
        proof {
            assert(entities_despawned@ =~= changes.despawned@.subrange(0, i + 1));
        }
        i = i + 1;
    }
    proof {
        assert(entities_despawned@ =~= changes.despawned@);
    }
    DeltaMessage { sequence, entities_updated, entities_spawned, entities_despawned }
}

/// The point a snapshot is centered on: the player's position, or the
/// map's center when the player has none.
pub open spec fn snapshot_center(state: GameState, player_entity: EntityId) -> (int, int) {
    let rows = state.spec_world().rows();
    if player_entity < rows.len() && rows[player_entity as int].position is Some {
        (rows[player_entity as int].position->Some_0.x as int,
            rows[player_entity as int].position->Some_0.y as int)
    } else {
        (state.spec_world().spec_bound_x() / 2, state.spec_world().spec_bound_y() / 2)
    }
}

/// Build the snapshot for a freshly joined player: the map's metadata,
/// the player's entity id, and exactly the encodable entities within
/// the 640-pixel vision radius of the player's position (or of the
/// map's center if the player has no position).
pub fn generate_snapshot(state: &GameState, player_entity: EntityId) -> (r: SnapshotMessage)
    requires
        state.wf(),
    ensures
        r.map_id@ == state.spec_map().id@,
        r.map_name@ == state.spec_map().name@,
        r.background_music@ == state.spec_map().background_music@,
        r.ambient_sound@ == state.spec_map().ambient_sound@,
        r.player_entity_id == player_entity,
        forall|i: int| 0 <= i < r.entities@.len()
            ==> info_matches(state.spec_world().rows(), #[trigger] r.entities@[i]),
        forall|e: crate::components::EntityId|
            (exists|i: int| 0 <= i < r.entities@.len() && (#[trigger] r.entities@[i]).id == e)
            <==> crate::delta::encodable(state.spec_world().rows(), e)
                && crate::delta::in_vision(state.spec_world().rows(), e,
                    snapshot_center(*state, player_entity).0,
                    snapshot_center(*state, player_entity).1),
{
    let map_id = state.map_id_clone();
    let map_name = state.map_name_clone();
    let background_music = state.map_music_clone();
    let ambient_sound = state.map_ambient_clone();
    let (px, py): (i64, i64) = match state.world_ref().position(player_entity) {
        Some(p) => (p.x, p.y),
        None => {
            let (bx, by): (i64, i64) = state.world_ref().bounds();
            (bx / 2, by / 2)
        },
    };
    proof {
        if state.spec_world().rows()[player_entity as int].position is Some
            && player_entity < state.spec_world().rows().len() {
            assert(rec_wf_holds(*state, player_entity));
        }
        vstd::arithmetic::div_mod::lemma_div_pos_is_pos(
            state.spec_world().spec_bound_x(), 2);
        vstd::arithmetic::div_mod::lemma_div_pos_is_pos(
            state.spec_world().spec_bound_y(), 2);
        vstd::arithmetic::div_mod::lemma_div_is_ordered(
            state.spec_world().spec_bound_x(), crate::world::MAX_BOUND_UNITS as int, 2);
        vstd::arithmetic::div_mod::lemma_div_is_ordered(
            state.spec_world().spec_bound_y(), crate::world::MAX_BOUND_UNITS as int, 2);
    }
    let world = state.world_ref();
    let n: u32 = world.row_count();
    let mut entities: Vec<EntityInfo> = Vec::new();
    let mut e: u32 = 0;
    proof {
        assert((px as int, py as int) == snapshot_center(*state, player_entity));
    }
    while e < n
        invariant
            world.wf(),
            world == state.spec_world(),
            state.wf(),
            n == world.rows().len(),
            0 <= e <= n,
            0 <= px <= COORD_LIMIT,
            0 <= py <= COORD_LIMIT,
            (px as int, py as int) == snapshot_center(*state, player_entity),
            forall|i: int| 0 <= i < entities@.len()
                ==> info_matches(world.rows(), #[trigger] entities@[i]),
            forall|q: crate::components::EntityId|
                (exists|i: int| 0 <= i < entities@.len()
                    && (#[trigger] entities@[i]).id == q)
                <==> q < e && crate::delta::encodable(world.rows(), q)
                    && crate::delta::in_vision(world.rows(), q, px as int, py as int),
        decreases n - e,
    {
        let in_view: bool = match world.position(e) {
            Some(p) => {
                let d2: i64 = crate::units::dist_sq(p.x, p.y, px, py);
                d2 <= crate::delta::VISION_RANGE_UNITS * crate::delta::VISION_RANGE_UNITS
            }
            None => false,
        };
        proof {
            assert(in_view == crate::delta::in_vision(world.rows(), e, px as int, py as int));
        }
        if in_view {
            match collect_entity_info(world, e) {
                Some(info) => {
                    let ghost pre = entities@;
                    entities.push(info);
                    proof {
                        assert(entities@[pre.len() as int].id == e);
                        assert forall|i: int| 0 <= i < entities@.len()
                            implies info_matches(world.rows(), #[trigger] entities@[i]) by {
                            if i < pre.len() {
                                assert(entities@[i] == pre[i]);
                            }
                        }
                        assert forall|q: crate::components::EntityId|
                            (exists|i: int| 0 <= i < entities@.len()
                                && (#[trigger] entities@[i]).id == q)
                            implies (q < e + 1
                                && crate::delta::encodable(world.rows(), q)
                                && crate::delta::in_vision(world.rows(), q,
                                    px as int, py as int)) by {
                            let i = choose|i: int| 0 <= i < entities@.len()
                                && (#[trigger] entities@[i]).id == q;
                            if i < pre.len() {
                                assert(pre[i].id == q);
                            }
                        }
                        assert forall|q: crate::components::EntityId|
                            q < e + 1 && crate::delta::encodable(world.rows(), q)
                                && crate::delta::in_vision(world.rows(), q,
                                    px as int, py as int)
                            implies (exists|i: int| 0 <= i < entities@.len()
                                && (#[trigger] entities@[i]).id == q) by {
                            if q < e {
                                let i = choose|i: int| 0 <= i < pre.len()
                                    && (#[trigger] pre[i]).id == q;
                                assert(entities@[i].id == q);
                            } else {
                                assert(entities@[pre.len() as int].id == q);
                            }
                        }
                    }
                }
                None => {}
            }
        }
        e = e + 1;
    }
    SnapshotMessage {
        map_id,
        map_name,
        background_music,
        ambient_sound,
        player_entity_id: player_entity,
        entities,
    }
}

/// The row of `e` satisfies the per-row invariant.
pub open spec fn rec_wf_holds(state: GameState, e: EntityId) -> bool {
    crate::world::rec_wf(
        state.spec_world().rows()[e as int],
        state.spec_world().spec_bound_x(),
        state.spec_world().spec_bound_y())
}

} // verus!
