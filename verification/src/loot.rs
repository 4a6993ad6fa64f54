//! Loot rolls on a monster's death, and the item entities they spawn.

use vstd::prelude::*;
use crate::components::{Collider, Item, MonsterType, Position, Sprite};
use crate::monsters::{get_loot_table, loot_copper_spec, loot_drops_spec};
use crate::rng::{roll_inclusive, roll_permille};
use crate::text::str_eq;
use crate::world::{EntityRec, World};

verus! {

/// An item a monster dropped, and where it fell.
#[derive(Debug, Clone)]
pub struct DroppedItem {
    pub item_id: String,
    pub quantity: u32,
    pub x: i64,
    pub y: i64,
}

/// The sprite shown for an item id; unknown ids get the fallback sprite.
pub open spec fn item_sprite_spec(id: Seq<char>) -> Seq<char> {
    if id == "copper"@ { "coin_copper"@ }
    else if id == "silver"@ { "coin_silver"@ }
    else if id == "gold"@ { "coin_gold"@ }
    else if id == "rat_meat"@ { "item_rat_meat"@ }
    else if id == "rat_pelt"@ { "item_rat_pelt"@ }
    else if id == "goblin_ear"@ { "item_goblin_ear"@ }
    else if id == "bone_fragment"@ { "item_bone"@ }
    else if id == "wolf_pelt"@ { "item_wolf_pelt"@ }
    else if id == "orc_tusk"@ { "item_orc_tusk"@ }
    else if id == "spider_silk"@ { "item_spider_silk"@ }
    else if id == "hobgoblin_armor"@ { "item_armor_scrap"@ }
    else if id == "ogre_club"@ { "item_club"@ }
    else if id == "wight_essence"@ { "item_essence"@ }
    else if id == "troll_blood"@ { "item_blood_vial"@ }
    else if id == "dragon_scale"@ { "item_dragon_scale"@ }
    else if id == "lich_phylactery"@ { "item_phylactery"@ }
    else if id == "demon_horn"@ { "item_demon_horn"@ }
    else { "item_unknown"@ }
}

/// The sprite id shown for a dropped item.
pub fn get_item_sprite(item_id: &str) -> (r: String)
    ensures
        r@ == item_sprite_spec(item_id@),
{
    if str_eq(item_id, "copper") { "coin_copper".to_string() }
    else if str_eq(item_id, "silver") { "coin_silver".to_string() }
    else if str_eq(item_id, "gold") { "coin_gold".to_string() }
    else if str_eq(item_id, "rat_meat") { "item_rat_meat".to_string() }
    else if str_eq(item_id, "rat_pelt") { "item_rat_pelt".to_string() }
    else if str_eq(item_id, "goblin_ear") { "item_goblin_ear".to_string() }
    else if str_eq(item_id, "bone_fragment") { "item_bone".to_string() }
    else if str_eq(item_id, "wolf_pelt") { "item_wolf_pelt".to_string() }
    else if str_eq(item_id, "orc_tusk") { "item_orc_tusk".to_string() }
    else if str_eq(item_id, "spider_silk") { "item_spider_silk".to_string() }
    else if str_eq(item_id, "hobgoblin_armor") { "item_armor_scrap".to_string() }
    else if str_eq(item_id, "ogre_club") { "item_club".to_string() }
    else if str_eq(item_id, "wight_essence") { "item_essence".to_string() }
    else if str_eq(item_id, "troll_blood") { "item_blood_vial".to_string() }
    else if str_eq(item_id, "dragon_scale") { "item_dragon_scale".to_string() }
    else if str_eq(item_id, "lich_phylactery") { "item_phylactery".to_string() }
    else if str_eq(item_id, "demon_horn") { "item_demon_horn".to_string() }
    else { "item_unknown".to_string() }
}

/// The row a dropped item becomes: a position, the item, its sprite, and
/// a small collider.
pub open spec fn item_row_matches(rec: EntityRec, id: Seq<char>, quantity: int, x: int, y: int)
    -> bool {
    &&& rec.alive
    &&& rec.position matches Some(p) && p.x == x && p.y == y
    &&& rec.item matches Some(it) && it.item_id@ == id && it.quantity == quantity
    &&& rec.sprite matches Some(s) && s.sprite_id@ == item_sprite_spec(id)
    &&& rec.collider == Some(Collider { radius: 16u32 })
    &&& rec.player is None
    &&& rec.monster is None
    &&& rec.health is None
}

/// Spawn one pick-up item entity at `(x, y)`.
fn spawn_item_entity(world: &mut World, item_id: &str, quantity: u32, x: i64, y: i64)
    requires
        old(world).wf(),
        old(world).rows().len() < u32::MAX,
        0 <= x <= old(world).spec_bound_x(),
        0 <= y <= old(world).spec_bound_y(),
    ensures
        final(world).wf(),
        final(world).spec_bound_x() == old(world).spec_bound_x(),
        final(world).spec_bound_y() == old(world).spec_bound_y(),
        final(world).rows().len() == old(world).rows().len() + 1,
        forall|k: int| 0 <= k < old(world).rows().len()
            ==> final(world).rows()[k] == old(world).rows()[k],
        item_row_matches(
            final(world).rows()[old(world).rows().len() as int],
            item_id@, quantity as int, x as int, y as int),
{
    let mut rec = EntityRec::empty();
    rec.position = Some(Position { x, y });
    rec.item = Some(Item { item_id: item_id.to_string(), quantity });
    rec.sprite = Some(Sprite { sprite_id: get_item_sprite(item_id) });
    rec.collider = Some(Collider { radius: 16 });
    let _ = world.spawn(rec);
}

/// Roll the loot table of `monster_type` at `(x, y)`: each table entry
/// drops with its stated chance, guaranteed copper is drawn from the
/// table's range, and one item entity is spawned per drop.
///
/// The rolls come from the process random number generator, so which
/// entries drop is not determined; but every dropped item is either an
/// entry of the table (with its table quantity) or copper within the
/// table's range, at the death position, and the world grows by exactly
/// one item entity per returned drop.
pub fn spawn_loot(world: &mut World, monster_type: MonsterType, x: i64, y: i64)
    -> (dropped: Vec<DroppedItem>)
    requires
        old(world).wf(),
        0 <= x <= old(world).spec_bound_x(),
        0 <= y <= old(world).spec_bound_y(),
        old(world).rows().len() + loot_drops_spec(monster_type).len() + 1 < u32::MAX,
    ensures
        final(world).wf(),
        final(world).spec_bound_x() == old(world).spec_bound_x(),
        final(world).spec_bound_y() == old(world).spec_bound_y(),
        dropped@.len() <= loot_drops_spec(monster_type).len() + 1,
        final(world).rows().len() == old(world).rows().len() + dropped@.len(),
        forall|k: int| 0 <= k < old(world).rows().len()
            ==> final(world).rows()[k] == old(world).rows()[k],
        forall|i: int| 0 <= i < dropped@.len() ==> ({
            let d = #[trigger] dropped@[i];
            &&& d.x == x && d.y == y
            &&& item_row_matches(
                final(world).rows()[old(world).rows().len() + i],
                d.item_id@, d.quantity as int, x as int, y as int)
            &&& ({
                ||| exists|j: int| 0 <= j < loot_drops_spec(monster_type).len()
                    && d.item_id@ == (#[trigger] loot_drops_spec(monster_type)[j]).0
                    && d.quantity == loot_drops_spec(monster_type)[j].1
                ||| (d.item_id@ == "copper"@ && d.quantity > 0
                    && loot_copper_spec(monster_type).0 <= d.quantity
                    && d.quantity <= loot_copper_spec(monster_type).1)
            })
        }),
        loot_copper_spec(monster_type).0 > 0 ==> exists|i: int|
            0 <= i < dropped@.len() && (#[trigger] dropped@[i]).item_id@ == "copper"@
                && loot_copper_spec(monster_type).0 <= dropped@[i].quantity
                && dropped@[i].quantity <= loot_copper_spec(monster_type).1,
{
    let loot_table = get_loot_table(monster_type);
    let mut dropped: Vec<DroppedItem> = Vec::new();
    let ghost base = old(world).rows().len() as int;
    let n: usize = loot_table.drops.len();
    let mut i: usize = 0;
    while i < n
        invariant
            world.wf(),
            world.spec_bound_x() == old(world).spec_bound_x(),
            world.spec_bound_y() == old(world).spec_bound_y(),
            0 <= x <= world.spec_bound_x(),
            0 <= y <= world.spec_bound_y(),
            base == old(world).rows().len(),
            base + n + 1 < u32::MAX,
            n == loot_drops_spec(monster_type).len(),
            0 <= i <= n,
            loot_table.drops@.len() == n,
            forall|j: int| 0 <= j < n
                ==> (#[trigger] loot_table.drops@[j]).item_id@ == loot_drops_spec(monster_type)[j].0
                    && loot_table.drops@[j].quantity == loot_drops_spec(monster_type)[j].1,
            dropped@.len() <= i,
            world.rows().len() == base + dropped@.len(),
            forall|k: int| 0 <= k < base ==> world.rows()[k] == old(world).rows()[k],
            forall|j: int| 0 <= j < dropped@.len() ==> ({
                let d = #[trigger] dropped@[j];
                &&& d.x == x && d.y == y
                &&& item_row_matches(world.rows()[base + j],
                    d.item_id@, d.quantity as int, x as int, y as int)
                &&& exists|k: int| 0 <= k < loot_drops_spec(monster_type).len()
                    && d.item_id@ == (#[trigger] loot_drops_spec(monster_type)[k]).0
                    && d.quantity == loot_drops_spec(monster_type)[k].1
            }),
        decreases n - i,
    {
        let roll: u32 = roll_permille();
        if roll < loot_table.drops[i].chance_permille {
            let drop = &loot_table.drops[i];
            spawn_item_entity(world, drop.item_id.as_str(), drop.quantity, x, y);
            dropped.push(DroppedItem {
                item_id: drop.item_id.clone(),
                quantity: drop.quantity,
                x,
                y,
            });
        }
        i = i + 1;
    }
    if loot_table.guaranteed_copper_max > 0 {
        let copper_amount: u32 = if loot_table.guaranteed_copper_min
            == loot_table.guaranteed_copper_max {
            loot_table.guaranteed_copper_min
        } else {
            roll_inclusive(loot_table.guaranteed_copper_min, loot_table.guaranteed_copper_max)
        };
        if copper_amount > 0 {
            spawn_item_entity(world, "copper", copper_amount, x, y);
            dropped.push(DroppedItem {
                item_id: "copper".to_string(),
                quantity: copper_amount,
                x,
                y,
            });
            proof {
                let last = dropped@.len() - 1;
                assert(dropped@[last].item_id@ == "copper"@);
                assert(loot_copper_spec(monster_type).0 > 0 ==> exists|i: int|
                    0 <= i < dropped@.len()
                        && (#[trigger] dropped@[i]).item_id@ == "copper"@
                        && loot_copper_spec(monster_type).0 <= dropped@[i].quantity
                        && dropped@[i].quantity <= loot_copper_spec(monster_type).1);
            }
        }
    }
    dropped
}

} // verus!
