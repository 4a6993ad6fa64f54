//! The monster bestiary: one immutable stat template per monster type,
//! and the loot table its death is rolled on.

use vstd::prelude::*;
use crate::components::{
    DamageDice, LootDrop, LootTable, MonsterTrait, MonsterType, Stats,
};

verus! {

/// Challenge level of each monster type.
pub open spec fn monster_level_spec(t: MonsterType) -> int {
    match t {
        MonsterType::GiantRat => 1,
        MonsterType::Goblin => 1,
        MonsterType::Skeleton => 1,
        MonsterType::Wolf => 1,
        MonsterType::OrcWarrior => 2,
        MonsterType::Zombie => 2,
        MonsterType::GiantSpider => 2,
        MonsterType::Hobgoblin => 3,
        MonsterType::Ogre => 4,
        MonsterType::Wight => 5,
        MonsterType::Troll => 5,
        MonsterType::YoungDragon => 8,
        MonsterType::Lich => 10,
        MonsterType::DemonLord => 12,
    }
}

/// Experience awarded for slaying each monster type.
pub open spec fn monster_xp_spec(t: MonsterType) -> int {
    match t {
        MonsterType::GiantRat => 50,
        MonsterType::Goblin => 50,
        MonsterType::Skeleton => 50,
        MonsterType::Wolf => 50,
        MonsterType::OrcWarrior => 100,
        MonsterType::Zombie => 100,
        MonsterType::GiantSpider => 100,
        MonsterType::Hobgoblin => 200,
        MonsterType::Ogre => 400,
        MonsterType::Wight => 800,
        MonsterType::Troll => 800,
        MonsterType::YoungDragon => 2000,
        MonsterType::Lich => 3000,
        MonsterType::DemonLord => 5000,
    }
}

/// Hit points of each monster type.
pub open spec fn monster_hp_spec(t: MonsterType) -> int {
    match t {
        MonsterType::GiantRat => 7,
        MonsterType::Goblin => 7,
        MonsterType::Skeleton => 13,
        MonsterType::Wolf => 11,
        MonsterType::OrcWarrior => 15,
        MonsterType::Zombie => 22,
        MonsterType::GiantSpider => 26,
        MonsterType::Hobgoblin => 11,
        MonsterType::Ogre => 59,
        MonsterType::Wight => 45,
        MonsterType::Troll => 84,
        MonsterType::YoungDragon => 178,
        MonsterType::Lich => 135,
        MonsterType::DemonLord => 262,
    }
}

/// Armor class of each monster type.
pub open spec fn monster_ac_spec(t: MonsterType) -> int {
    match t {
        MonsterType::GiantRat => 12,
        MonsterType::Goblin => 13,
        MonsterType::Skeleton => 13,
        MonsterType::Wolf => 13,
        MonsterType::OrcWarrior => 13,
        MonsterType::Zombie => 8,
        MonsterType::GiantSpider => 14,
        MonsterType::Hobgoblin => 16,
        MonsterType::Ogre => 11,
        MonsterType::Wight => 14,
        MonsterType::Troll => 15,
        MonsterType::YoungDragon => 18,
        MonsterType::Lich => 17,
        MonsterType::DemonLord => 19,
    }
}

/// Movement speed of each monster type, in speed units.
pub open spec fn monster_speed_spec(t: MonsterType) -> int {
    match t {
        MonsterType::GiantRat => 200000,
        MonsterType::Goblin => 180000,
        MonsterType::Skeleton => 160000,
        MonsterType::Wolf => 240000,
        MonsterType::OrcWarrior => 200000,
        MonsterType::Zombie => 120000,
        MonsterType::GiantSpider => 200000,
        MonsterType::Hobgoblin => 200000,
        MonsterType::Ogre => 220000,
        MonsterType::Wight => 200000,
        MonsterType::Troll => 200000,
        MonsterType::YoungDragon => 220000,
        MonsterType::Lich => 180000,
        MonsterType::DemonLord => 240000,
    }
}

/// Milliseconds between attacks of each monster type.
pub open spec fn monster_cooldown_spec(t: MonsterType) -> int {
    match t {
        MonsterType::GiantRat => 1000,
        MonsterType::Goblin => 1000,
        MonsterType::Skeleton => 1200,
        MonsterType::Wolf => 900,
        MonsterType::OrcWarrior => 1300,
        MonsterType::Zombie => 1500,
        MonsterType::GiantSpider => 1000,
        MonsterType::Hobgoblin => 1000,
        MonsterType::Ogre => 1800,
        MonsterType::Wight => 1000,
        MonsterType::Troll => 800,
        MonsterType::YoungDragon => 1500,
        MonsterType::Lich => 1000,
        MonsterType::DemonLord => 1200,
    }
}

/// Detection range of each monster type, in tiles.
pub open spec fn monster_detection_spec(t: MonsterType) -> int {
    match t {
        MonsterType::GiantRat => 12,
        MonsterType::Goblin => 15,
        MonsterType::Skeleton => 18,
        MonsterType::Wolf => 20,
        MonsterType::OrcWarrior => 16,
        MonsterType::Zombie => 10,
        MonsterType::GiantSpider => 14,
        MonsterType::Hobgoblin => 18,
        MonsterType::Ogre => 14,
        MonsterType::Wight => 20,
        MonsterType::Troll => 25,
        MonsterType::YoungDragon => 30,
        MonsterType::Lich => 35,
        MonsterType::DemonLord => 40,
    }
}

/// Ability scores of each monster type.
pub open spec fn monster_stats_spec(t: MonsterType) -> Stats {
    match t {
        MonsterType::GiantRat => Stats { str: 8, dex: 15, con: 11, int: 2, wis: 10, cha: 4 },
        MonsterType::Goblin => Stats { str: 8, dex: 14, con: 10, int: 10, wis: 8, cha: 8 },
        MonsterType::Skeleton => Stats { str: 10, dex: 14, con: 15, int: 6, wis: 8, cha: 5 },
        MonsterType::Wolf => Stats { str: 12, dex: 15, con: 12, int: 3, wis: 12, cha: 6 },
        MonsterType::OrcWarrior => Stats { str: 16, dex: 12, con: 16, int: 7, wis: 11, cha: 10 },
        MonsterType::Zombie => Stats { str: 13, dex: 6, con: 16, int: 3, wis: 6, cha: 5 },
        MonsterType::GiantSpider => Stats { str: 14, dex: 16, con: 12, int: 2, wis: 11, cha: 4 },
        MonsterType::Hobgoblin => Stats { str: 13, dex: 12, con: 12, int: 10, wis: 10, cha: 9 },
        MonsterType::Ogre => Stats { str: 19, dex: 8, con: 16, int: 5, wis: 7, cha: 7 },
        MonsterType::Wight => Stats { str: 15, dex: 14, con: 16, int: 10, wis: 13, cha: 15 },
        MonsterType::Troll => Stats { str: 18, dex: 13, con: 20, int: 7, wis: 9, cha: 7 },
        MonsterType::YoungDragon => Stats { str: 19, dex: 10, con: 21, int: 12, wis: 11, cha: 15 },
        MonsterType::Lich => Stats { str: 11, dex: 16, con: 16, int: 20, wis: 14, cha: 16 },
        MonsterType::DemonLord => Stats { str: 22, dex: 15, con: 25, int: 16, wis: 13, cha: 18 },
    }
}

/// Damage dice of each monster type.
pub open spec fn monster_dice_spec(t: MonsterType) -> DamageDice {
    match t {
        MonsterType::GiantRat => DamageDice { count: 1, sides: 4 },
        MonsterType::Goblin => DamageDice { count: 1, sides: 4 },
        MonsterType::Skeleton => DamageDice { count: 1, sides: 6 },
        MonsterType::Wolf => DamageDice { count: 1, sides: 6 },
        MonsterType::OrcWarrior => DamageDice { count: 1, sides: 12 },
        MonsterType::Zombie => DamageDice { count: 1, sides: 6 },
        MonsterType::GiantSpider => DamageDice { count: 1, sides: 6 },
        MonsterType::Hobgoblin => DamageDice { count: 1, sides: 8 },
        MonsterType::Ogre => DamageDice { count: 2, sides: 8 },
        MonsterType::Wight => DamageDice { count: 1, sides: 8 },
        MonsterType::Troll => DamageDice { count: 1, sides: 6 },
        MonsterType::YoungDragon => DamageDice { count: 2, sides: 10 },
        MonsterType::Lich => DamageDice { count: 3, sides: 6 },
        MonsterType::DemonLord => DamageDice { count: 2, sides: 6 },
    }
}

/// Flat damage bonus of each monster type.
pub open spec fn monster_damage_bonus_spec(t: MonsterType) -> int {
    match t {
        MonsterType::GiantRat => 0,
        MonsterType::Goblin => 1,
        MonsterType::Skeleton => 0,
        MonsterType::Wolf => 1,
        MonsterType::OrcWarrior => 3,
        MonsterType::Zombie => 1,
        MonsterType::GiantSpider => 2,
        MonsterType::Hobgoblin => 1,
        MonsterType::Ogre => 4,
        MonsterType::Wight => 2,
        MonsterType::Troll => 4,
        MonsterType::YoungDragon => 4,
        MonsterType::Lich => 0,
        MonsterType::DemonLord => 6,
    }
}

/// Special traits of each monster type.
pub open spec fn monster_traits_spec(t: MonsterType) -> Seq<MonsterTrait> {
    match t {
        MonsterType::GiantRat => seq![MonsterTrait::PackCreature],
        MonsterType::Goblin => seq![MonsterTrait::PackCreature],
        MonsterType::Skeleton => seq![MonsterTrait::UndeadResilience],
        MonsterType::Wolf => seq![MonsterTrait::PackCreature, MonsterTrait::PackTactics],
        MonsterType::OrcWarrior => seq![MonsterTrait::PackCreature],
        MonsterType::Zombie => seq![MonsterTrait::UndeadResilience, MonsterTrait::UndeadFortitude],
        MonsterType::GiantSpider => seq![MonsterTrait::WebAttack],
        MonsterType::Hobgoblin => seq![MonsterTrait::MartialAdvantage],
        MonsterType::Ogre => seq![MonsterTrait::PowerfulBuild],
        MonsterType::Wight => seq![MonsterTrait::UndeadResilience, MonsterTrait::UndeadCommander],
        MonsterType::Troll => seq![MonsterTrait::Regeneration, MonsterTrait::KeenSmell],
        MonsterType::YoungDragon => seq![MonsterTrait::DragonScales, MonsterTrait::FrightfulPresence],
        MonsterType::Lich => seq![MonsterTrait::MagicResistance, MonsterTrait::Phylactery, MonsterTrait::UndeadCommander],
        MonsterType::DemonLord => seq![MonsterTrait::DemonResilience, MonsterTrait::AuraOfTerror],
    }
}

/// Sprite id of each monster type.
pub open spec fn monster_sprite_spec(t: MonsterType) -> Seq<char> {
    match t {
        MonsterType::GiantRat => "giant_rat"@,
        MonsterType::Goblin => "goblin"@,
        MonsterType::Skeleton => "skeleton"@,
        MonsterType::Wolf => "wolf"@,
        MonsterType::OrcWarrior => "orc_warrior"@,
        MonsterType::Zombie => "zombie"@,
        MonsterType::GiantSpider => "giant_spider"@,
        MonsterType::Hobgoblin => "hobgoblin"@,
        MonsterType::Ogre => "ogre"@,
        MonsterType::Wight => "wight"@,
        MonsterType::Troll => "troll"@,
        MonsterType::YoungDragon => "young_dragon"@,
        MonsterType::Lich => "lich"@,
        MonsterType::DemonLord => "demon_lord"@,
    }
}

/// Immutable stat block of a monster type: everything a spawn copies
/// into a fresh entity.
#[derive(Debug, Clone)]
pub struct MonsterTemplate {
    pub monster_type: MonsterType,
    pub name: &'static str,
    pub level: u32,
    pub xp_reward: u64,
    pub hp: i32,
    pub ac: i32,
    pub stats: Stats,
    pub speed_units: i64,
    pub attack_damage_dice: DamageDice,
    pub attack_damage_bonus: i32,
    pub attack_cooldown_ms: u64,
    pub detection_range_tiles: u32,
    pub traits: Vec<MonsterTrait>,
    pub sprite_id: &'static str,
}

impl MonsterTemplate {
    /// The template of `monster_type`, exactly as the bestiary tables
    /// above state it.
    pub fn get(monster_type: MonsterType) -> (r: Self)
        ensures
            r.monster_type == monster_type,
            r.level == monster_level_spec(monster_type),
            r.xp_reward == monster_xp_spec(monster_type),
            r.hp == monster_hp_spec(monster_type),
            r.ac == monster_ac_spec(monster_type),
            r.stats == monster_stats_spec(monster_type),
            r.speed_units == monster_speed_spec(monster_type),
            r.attack_damage_dice == monster_dice_spec(monster_type),
            r.attack_damage_bonus == monster_damage_bonus_spec(monster_type),
            r.attack_cooldown_ms == monster_cooldown_spec(monster_type),
            r.detection_range_tiles == monster_detection_spec(monster_type),
            r.traits@ == monster_traits_spec(monster_type),
            r.sprite_id@ == monster_sprite_spec(monster_type),
            1 <= r.hp,
            1 <= r.level <= 20,
            0 < r.speed_units <= crate::units::SPEED_LIMIT,
    {
        let r = match monster_type {
            MonsterType::GiantRat => MonsterTemplate {
                monster_type: MonsterType::GiantRat,
                name: "Giant Rat",
                level: 1,
                xp_reward: 50,
                hp: 7,
                ac: 12,
                stats: Stats { str: 8, dex: 15, con: 11, int: 2, wis: 10, cha: 4 },
                speed_units: 200000,
                attack_damage_dice: DamageDice { count: 1, sides: 4 },
                attack_damage_bonus: 0,
                attack_cooldown_ms: 1000,
                detection_range_tiles: 12,
                traits: vec![MonsterTrait::PackCreature],
                sprite_id: "giant_rat",
            },
            MonsterType::Goblin => MonsterTemplate {
                monster_type: MonsterType::Goblin,
                name: "Goblin",
                level: 1,
                xp_reward: 50,
                hp: 7,
                ac: 13,
                stats: Stats { str: 8, dex: 14, con: 10, int: 10, wis: 8, cha: 8 },
                speed_units: 180000,
                attack_damage_dice: DamageDice { count: 1, sides: 4 },
                attack_damage_bonus: 1,
                attack_cooldown_ms: 1000,
                detection_range_tiles: 15,
                traits: vec![MonsterTrait::PackCreature],
                sprite_id: "goblin",
            },
            MonsterType::Skeleton => MonsterTemplate {
                monster_type: MonsterType::Skeleton,
                name: "Skeleton",
                level: 1,
                xp_reward: 50,
                hp: 13,
                ac: 13,
                stats: Stats { str: 10, dex: 14, con: 15, int: 6, wis: 8, cha: 5 },
                speed_units: 160000,
                attack_damage_dice: DamageDice { count: 1, sides: 6 },
                attack_damage_bonus: 0,
                attack_cooldown_ms: 1200,
                detection_range_tiles: 18,
                traits: vec![MonsterTrait::UndeadResilience],
                sprite_id: "skeleton",
            },
            MonsterType::Wolf => MonsterTemplate {
                monster_type: MonsterType::Wolf,
                name: "Wolf",
                level: 1,
                xp_reward: 50,
                hp: 11,
                ac: 13,
                stats: Stats { str: 12, dex: 15, con: 12, int: 3, wis: 12, cha: 6 },
                speed_units: 240000,
                attack_damage_dice: DamageDice { count: 1, sides: 6 },
                attack_damage_bonus: 1,
                attack_cooldown_ms: 900,
                detection_range_tiles: 20,
                traits: vec![MonsterTrait::PackCreature, MonsterTrait::PackTactics],
                sprite_id: "wolf",
            },
            MonsterType::OrcWarrior => MonsterTemplate {
                monster_type: MonsterType::OrcWarrior,
                name: "Orc Warrior",
                level: 2,
                xp_reward: 100,
                hp: 15,
                ac: 13,
                stats: Stats { str: 16, dex: 12, con: 16, int: 7, wis: 11, cha: 10 },
                speed_units: 200000,
                attack_damage_dice: DamageDice { count: 1, sides: 12 },
                attack_damage_bonus: 3,
                attack_cooldown_ms: 1300,
                detection_range_tiles: 16,
                traits: vec![MonsterTrait::PackCreature],
                sprite_id: "orc_warrior",
            },
            MonsterType::Zombie => MonsterTemplate {
                monster_type: MonsterType::Zombie,
                name: "Zombie",
                level: 2,
                xp_reward: 100,
                hp: 22,
                ac: 8,
                stats: Stats { str: 13, dex: 6, con: 16, int: 3, wis: 6, cha: 5 },
                speed_units: 120000,
                attack_damage_dice: DamageDice { count: 1, sides: 6 },
                attack_damage_bonus: 1,
                attack_cooldown_ms: 1500,
                detection_range_tiles: 10,
                traits: vec![MonsterTrait::UndeadResilience, MonsterTrait::UndeadFortitude],
                sprite_id: "zombie",
            },
            MonsterType::GiantSpider => MonsterTemplate {
                monster_type: MonsterType::GiantSpider,
                name: "Giant Spider",
                level: 2,
                xp_reward: 100,
                hp: 26,
                ac: 14,
                stats: Stats { str: 14, dex: 16, con: 12, int: 2, wis: 11, cha: 4 },
                speed_units: 200000,
                attack_damage_dice: DamageDice { count: 1, sides: 6 },
                attack_damage_bonus: 2,
                attack_cooldown_ms: 1000,
                detection_range_tiles: 14,
                traits: vec![MonsterTrait::WebAttack],
                sprite_id: "giant_spider",
            },
            MonsterType::Hobgoblin => MonsterTemplate {
                monster_type: MonsterType::Hobgoblin,
                name: "Hobgoblin",
                level: 3,
                xp_reward: 200,
                hp: 11,
                ac: 16,
                stats: Stats { str: 13, dex: 12, con: 12, int: 10, wis: 10, cha: 9 },
                speed_units: 200000,
                attack_damage_dice: DamageDice { count: 1, sides: 8 },
                attack_damage_bonus: 1,
                attack_cooldown_ms: 1000,
                detection_range_tiles: 18,
                traits: vec![MonsterTrait::MartialAdvantage],
                sprite_id: "hobgoblin",
            },
            MonsterType::Ogre => MonsterTemplate {
                monster_type: MonsterType::Ogre,
                name: "Ogre",
                level: 4,
                xp_reward: 400,
                hp: 59,
                ac: 11,
                stats: Stats { str: 19, dex: 8, con: 16, int: 5, wis: 7, cha: 7 },
                speed_units: 220000,
                attack_damage_dice: DamageDice { count: 2, sides: 8 },
                attack_damage_bonus: 4,
                attack_cooldown_ms: 1800,
                detection_range_tiles: 14,
                traits: vec![MonsterTrait::PowerfulBuild],
                sprite_id: "ogre",
            },
            MonsterType::Wight => MonsterTemplate {
                monster_type: MonsterType::Wight,
                name: "Wight",
                level: 5,
                xp_reward: 800,
                hp: 45,
                ac: 14,
                stats: Stats { str: 15, dex: 14, con: 16, int: 10, wis: 13, cha: 15 },
                speed_units: 200000,
                attack_damage_dice: DamageDice { count: 1, sides: 8 },
                attack_damage_bonus: 2,
                attack_cooldown_ms: 1000,
                detection_range_tiles: 20,
                traits: vec![MonsterTrait::UndeadResilience, MonsterTrait::UndeadCommander],
                sprite_id: "wight",
            },
            MonsterType::Troll => MonsterTemplate {
                monster_type: MonsterType::Troll,
                name: "Troll",
                level: 5,
                xp_reward: 800,
                hp: 84,
                ac: 15,
                stats: Stats { str: 18, dex: 13, con: 20, int: 7, wis: 9, cha: 7 },
                speed_units: 200000,
                attack_damage_dice: DamageDice { count: 1, sides: 6 },
                attack_damage_bonus: 4,
                attack_cooldown_ms: 800,
                detection_range_tiles: 25,
                traits: vec![MonsterTrait::Regeneration, MonsterTrait::KeenSmell],
                sprite_id: "troll",
            },
            MonsterType::YoungDragon => MonsterTemplate {
                monster_type: MonsterType::YoungDragon,
                name: "Young Dragon",
                level: 8,
                xp_reward: 2000,
                hp: 178,
                ac: 18,
                stats: Stats { str: 19, dex: 10, con: 21, int: 12, wis: 11, cha: 15 },
                speed_units: 220000,
                attack_damage_dice: DamageDice { count: 2, sides: 10 },
                attack_damage_bonus: 4,
                attack_cooldown_ms: 1500,
                detection_range_tiles: 30,
                traits: vec![MonsterTrait::DragonScales, MonsterTrait::FrightfulPresence],
                sprite_id: "young_dragon",
            },
            MonsterType::Lich => MonsterTemplate {
                monster_type: MonsterType::Lich,
                name: "Lich",
                level: 10,
                xp_reward: 3000,
                hp: 135,
                ac: 17,
                stats: Stats { str: 11, dex: 16, con: 16, int: 20, wis: 14, cha: 16 },
                speed_units: 180000,
                attack_damage_dice: DamageDice { count: 3, sides: 6 },
                attack_damage_bonus: 0,
                attack_cooldown_ms: 1000,
                detection_range_tiles: 35,
                traits: vec![MonsterTrait::MagicResistance, MonsterTrait::Phylactery, MonsterTrait::UndeadCommander],
                sprite_id: "lich",
            },
            MonsterType::DemonLord => MonsterTemplate {
                monster_type: MonsterType::DemonLord,
                name: "Demon Lord",
                level: 12,
                xp_reward: 5000,
                hp: 262,
                ac: 19,
                stats: Stats { str: 22, dex: 15, con: 25, int: 16, wis: 13, cha: 18 },
                speed_units: 240000,
                attack_damage_dice: DamageDice { count: 2, sides: 6 },
                attack_damage_bonus: 6,
                attack_cooldown_ms: 1200,
                detection_range_tiles: 40,
                traits: vec![MonsterTrait::DemonResilience, MonsterTrait::AuraOfTerror],
                sprite_id: "demon_lord",
            },
        };
        proof {
            assert(r.traits@ =~= monster_traits_spec(monster_type));
        }
        r
    }
}

/// Guaranteed copper range of each monster type's loot.
pub open spec fn loot_copper_spec(t: MonsterType) -> (int, int) {
    match t {
        MonsterType::GiantRat => (0, 0),
        MonsterType::Goblin => (1, 5),
        MonsterType::Skeleton => (0, 0),
        MonsterType::Wolf => (0, 0),
        MonsterType::OrcWarrior => (5, 15),
        MonsterType::Zombie => (0, 3),
        MonsterType::GiantSpider => (0, 0),
        MonsterType::Hobgoblin => (10, 30),
        MonsterType::Ogre => (20, 50),
        MonsterType::Wight => (30, 80),
        MonsterType::Troll => (50, 100),
        MonsterType::YoungDragon => (100, 500),
        MonsterType::Lich => (200, 800),
        MonsterType::DemonLord => (500, 2000),
    }
}

/// The rollable drops of each monster type, as (item id, quantity,
/// chance in thousandths) triples, in table order.
pub open spec fn loot_drops_spec(t: MonsterType) -> Seq<(Seq<char>, int, int)> {
    match t {
        MonsterType::GiantRat => seq![("rat_meat"@, 1int, 300int), ("rat_pelt"@, 1int, 100int)],
        MonsterType::Goblin => seq![("rusty_dagger"@, 1int, 300int), ("healing_potion_minor"@, 1int, 200int), ("goblin_ear"@, 1int, 100int)],
        MonsterType::Skeleton => seq![("bone_shard"@, 1int, 500int), ("rusty_shortsword"@, 1int, 300int), ("ancient_coin"@, 1int, 150int), ("skeleton_key"@, 1int, 50int)],
        MonsterType::Wolf => seq![("wolf_pelt"@, 1int, 700int), ("wolf_meat"@, 1int, 200int), ("wolf_fang"@, 1int, 100int)],
        MonsterType::OrcWarrior => seq![("greataxe"@, 1int, 300int), ("hide_armor"@, 1int, 200int), ("orcish_trinket"@, 1int, 100int)],
        MonsterType::Zombie => seq![("rotten_flesh"@, 1int, 600int), ("tattered_cloth"@, 1int, 200int), ("brain"@, 1int, 50int)],
        MonsterType::GiantSpider => seq![("spider_silk"@, 2int, 800int), ("poison_gland"@, 1int, 400int), ("giant_fang"@, 1int, 200int), ("spider_egg"@, 1int, 100int)],
        MonsterType::Hobgoblin => seq![("longsword"@, 1int, 400int), ("chain_mail"@, 1int, 300int), ("military_badge"@, 1int, 200int), ("silver_coin"@, 1int, 100int)],
        MonsterType::Ogre => seq![("greatclub"@, 1int, 400int), ("giants_toe"@, 1int, 300int), ("ogre_hide"@, 1int, 200int), ("silver_coin"@, 1int, 100int)],
        MonsterType::Wight => seq![("enchanted_longsword"@, 1int, 500int), ("wight_crown"@, 1int, 300int), ("soul_gem"@, 1int, 200int), ("silver_coin"@, 4int, 100int)],
        MonsterType::Troll => seq![("troll_blood"@, 2int, 900int), ("troll_hide"@, 1int, 600int), ("troll_heart"@, 1int, 200int), ("silver_coin"@, 6int, 100int)],
        MonsterType::YoungDragon => seq![("dragon_scales"@, 4int, 1000int), ("gem"@, 8int, 1000int), ("magic_item"@, 1int, 500int), ("rare_weapon"@, 1int, 250int)],
        MonsterType::Lich => seq![("spellbook"@, 1int, 1000int), ("lich_crown"@, 1int, 1000int), ("staff_of_power"@, 1int, 1000int), ("magic_item"@, 8int, 750int)],
        MonsterType::DemonLord => seq![("demon_heart"@, 1int, 1000int), ("infernal_blade"@, 1int, 1000int), ("magic_item"@, 18int, 900int), ("unique_artifact"@, 1int, 1000int)],
    }
}

/// The loot table rolled when a monster of `monster_type` dies: its
/// possible drops with their chances, and the guaranteed copper range.
pub fn get_loot_table(monster_type: MonsterType) -> (r: LootTable)
    ensures
        r.guaranteed_copper_min == loot_copper_spec(monster_type).0,
        r.guaranteed_copper_max == loot_copper_spec(monster_type).1,
        r.guaranteed_copper_min <= r.guaranteed_copper_max,
        r.drops@.len() == loot_drops_spec(monster_type).len(),
        forall|i: int| 0 <= i < r.drops@.len()
            ==> (#[trigger] r.drops@[i]).item_id@ == loot_drops_spec(monster_type)[i].0
                && r.drops@[i].quantity == loot_drops_spec(monster_type)[i].1
                && r.drops@[i].chance_permille == loot_drops_spec(monster_type)[i].2
                && 0 < r.drops@[i].chance_permille <= 1000,
{
    let r = match monster_type {
        MonsterType::GiantRat => LootTable {
            drops: vec![
                LootDrop { item_id: "rat_meat".to_string(), quantity: 1, chance_permille: 300 },
                LootDrop { item_id: "rat_pelt".to_string(), quantity: 1, chance_permille: 100 },
            ],
            guaranteed_copper_min: 0,
            guaranteed_copper_max: 0,
        },
        MonsterType::Goblin => LootTable {
            drops: vec![
                LootDrop { item_id: "rusty_dagger".to_string(), quantity: 1, chance_permille: 300 },
                LootDrop { item_id: "healing_potion_minor".to_string(), quantity: 1, chance_permille: 200 },
                LootDrop { item_id: "goblin_ear".to_string(), quantity: 1, chance_permille: 100 },
            ],
            guaranteed_copper_min: 1,
            guaranteed_copper_max: 5,
        },
        MonsterType::Skeleton => LootTable {
            drops: vec![
                LootDrop { item_id: "bone_shard".to_string(), quantity: 1, chance_permille: 500 },
                LootDrop { item_id: "rusty_shortsword".to_string(), quantity: 1, chance_permille: 300 },
                LootDrop { item_id: "ancient_coin".to_string(), quantity: 1, chance_permille: 150 },
                LootDrop { item_id: "skeleton_key".to_string(), quantity: 1, chance_permille: 50 },
            ],
            guaranteed_copper_min: 0,
            guaranteed_copper_max: 0,
        },
        MonsterType::Wolf => LootTable {
            drops: vec![
                LootDrop { item_id: "wolf_pelt".to_string(), quantity: 1, chance_permille: 700 },
                LootDrop { item_id: "wolf_meat".to_string(), quantity: 1, chance_permille: 200 },
                LootDrop { item_id: "wolf_fang".to_string(), quantity: 1, chance_permille: 100 },
            ],
            guaranteed_copper_min: 0,
            guaranteed_copper_max: 0,
        },
        MonsterType::OrcWarrior => LootTable {
            drops: vec![
                LootDrop { item_id: "greataxe".to_string(), quantity: 1, chance_permille: 300 },
                LootDrop { item_id: "hide_armor".to_string(), quantity: 1, chance_permille: 200 },
                LootDrop { item_id: "orcish_trinket".to_string(), quantity: 1, chance_permille: 100 },
            ],
            guaranteed_copper_min: 5,
            guaranteed_copper_max: 15,
        },
        MonsterType::Zombie => LootTable {
            drops: vec![
                LootDrop { item_id: "rotten_flesh".to_string(), quantity: 1, chance_permille: 600 },
                LootDrop { item_id: "tattered_cloth".to_string(), quantity: 1, chance_permille: 200 },
                LootDrop { item_id: "brain".to_string(), quantity: 1, chance_permille: 50 },
            ],
            guaranteed_copper_min: 0,
            guaranteed_copper_max: 3,
        },
        MonsterType::GiantSpider => LootTable {
            drops: vec![
                LootDrop { item_id: "spider_silk".to_string(), quantity: 2, chance_permille: 800 },
                LootDrop { item_id: "poison_gland".to_string(), quantity: 1, chance_permille: 400 },
                LootDrop { item_id: "giant_fang".to_string(), quantity: 1, chance_permille: 200 },
                LootDrop { item_id: "spider_egg".to_string(), quantity: 1, chance_permille: 100 },
            ],
            guaranteed_copper_min: 0,
            guaranteed_copper_max: 0,
        },
        MonsterType::Hobgoblin => LootTable {
            drops: vec![
                LootDrop { item_id: "longsword".to_string(), quantity: 1, chance_permille: 400 },
                LootDrop { item_id: "chain_mail".to_string(), quantity: 1, chance_permille: 300 },
                LootDrop { item_id: "military_badge".to_string(), quantity: 1, chance_permille: 200 },
                LootDrop { item_id: "silver_coin".to_string(), quantity: 1, chance_permille: 100 },
            ],
            guaranteed_copper_min: 10,
            guaranteed_copper_max: 30,
        },
        MonsterType::Ogre => LootTable {
            drops: vec![
                LootDrop { item_id: "greatclub".to_string(), quantity: 1, chance_permille: 400 },
                LootDrop { item_id: "giants_toe".to_string(), quantity: 1, chance_permille: 300 },
                LootDrop { item_id: "ogre_hide".to_string(), quantity: 1, chance_permille: 200 },
                LootDrop { item_id: "silver_coin".to_string(), quantity: 1, chance_permille: 100 },
            ],
            guaranteed_copper_min: 20,
            guaranteed_copper_max: 50,
        },
        MonsterType::Wight => LootTable {
            drops: vec![
                LootDrop { item_id: "enchanted_longsword".to_string(), quantity: 1, chance_permille: 500 },
                LootDrop { item_id: "wight_crown".to_string(), quantity: 1, chance_permille: 300 },
                LootDrop { item_id: "soul_gem".to_string(), quantity: 1, chance_permille: 200 },
                LootDrop { item_id: "silver_coin".to_string(), quantity: 4, chance_permille: 100 },
            ],
            guaranteed_copper_min: 30,
            guaranteed_copper_max: 80,
        },
        MonsterType::Troll => LootTable {
            drops: vec![
                LootDrop { item_id: "troll_blood".to_string(), quantity: 2, chance_permille: 900 },
                LootDrop { item_id: "troll_hide".to_string(), quantity: 1, chance_permille: 600 },
                LootDrop { item_id: "troll_heart".to_string(), quantity: 1, chance_permille: 200 },
                LootDrop { item_id: "silver_coin".to_string(), quantity: 6, chance_permille: 100 },
            ],
            guaranteed_copper_min: 50,
            guaranteed_copper_max: 100,
        },
        MonsterType::YoungDragon => LootTable {
            drops: vec![
                LootDrop { item_id: "dragon_scales".to_string(), quantity: 4, chance_permille: 1000 },
                LootDrop { item_id: "gem".to_string(), quantity: 8, chance_permille: 1000 },
                LootDrop { item_id: "magic_item".to_string(), quantity: 1, chance_permille: 500 },
                LootDrop { item_id: "rare_weapon".to_string(), quantity: 1, chance_permille: 250 },
            ],
            guaranteed_copper_min: 100,
            guaranteed_copper_max: 500,
        },
        MonsterType::Lich => LootTable {
            drops: vec![
                LootDrop { item_id: "spellbook".to_string(), quantity: 1, chance_permille: 1000 },
                LootDrop { item_id: "lich_crown".to_string(), quantity: 1, chance_permille: 1000 },
                LootDrop { item_id: "staff_of_power".to_string(), quantity: 1, chance_permille: 1000 },
                LootDrop { item_id: "magic_item".to_string(), quantity: 8, chance_permille: 750 },
            ],
            guaranteed_copper_min: 200,
            guaranteed_copper_max: 800,
        },
        MonsterType::DemonLord => LootTable {
            drops: vec![
                LootDrop { item_id: "demon_heart".to_string(), quantity: 1, chance_permille: 1000 },
                LootDrop { item_id: "infernal_blade".to_string(), quantity: 1, chance_permille: 1000 },
                LootDrop { item_id: "magic_item".to_string(), quantity: 18, chance_permille: 900 },
                LootDrop { item_id: "unique_artifact".to_string(), quantity: 1, chance_permille: 1000 },
            ],
            guaranteed_copper_min: 500,
            guaranteed_copper_max: 2000,
        },
    };
    r
}

} // verus!
