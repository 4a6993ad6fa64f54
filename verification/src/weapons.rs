//! The weapon tables: base stats of every weapon type, their gold
//! values, and weapon enchantments.

use vstd::prelude::*;
use crate::components::{DamageDice, Enchantment, WeaponStats, WeaponType};

verus! {

/// Damage dice of each weapon type.
pub open spec fn weapon_dice_spec(t: WeaponType) -> DamageDice {
    match t {
        WeaponType::Dagger => DamageDice { count: 1u32, sides: 4u32 },
        WeaponType::Shortsword => DamageDice { count: 1u32, sides: 6u32 },
        WeaponType::Longsword => DamageDice { count: 1u32, sides: 8u32 },
        WeaponType::Mace => DamageDice { count: 1u32, sides: 6u32 },
        WeaponType::Battleaxe => DamageDice { count: 1u32, sides: 8u32 },
        WeaponType::Warhammer => DamageDice { count: 1u32, sides: 8u32 },
        WeaponType::Greatsword => DamageDice { count: 2u32, sides: 6u32 },
        WeaponType::Greataxe => DamageDice { count: 1u32, sides: 12u32 },
        WeaponType::Maul => DamageDice { count: 2u32, sides: 6u32 },
        WeaponType::Quarterstaff => DamageDice { count: 1u32, sides: 6u32 },
        WeaponType::Shortbow => DamageDice { count: 1u32, sides: 6u32 },
        WeaponType::Longbow => DamageDice { count: 1u32, sides: 8u32 },
        WeaponType::LightCrossbow => DamageDice { count: 1u32, sides: 8u32 },
        WeaponType::HeavyCrossbow => DamageDice { count: 1u32, sides: 10u32 },
        WeaponType::Wand => DamageDice { count: 1u32, sides: 4u32 },
        WeaponType::Staff => DamageDice { count: 1u32, sides: 6u32 },
    }
}

/// Attack cooldown of each weapon type, in milliseconds.
pub open spec fn weapon_speed_spec(t: WeaponType) -> int {
    match t {
        WeaponType::Dagger => 700,
        WeaponType::Shortsword => 900,
        WeaponType::Longsword => 1000,
        WeaponType::Mace => 1000,
        WeaponType::Battleaxe => 1100,
        WeaponType::Warhammer => 1200,
        WeaponType::Greatsword => 1300,
        WeaponType::Greataxe => 1400,
        WeaponType::Maul => 1500,
        WeaponType::Quarterstaff => 900,
        WeaponType::Shortbow => 1000,
        WeaponType::Longbow => 1200,
        WeaponType::LightCrossbow => 1500,
        WeaponType::HeavyCrossbow => 2000,
        WeaponType::Wand => 1000,
        WeaponType::Staff => 1200,
    }
}

/// Reach of each weapon type, in tenths of a tile.
pub open spec fn weapon_range_spec(t: WeaponType) -> int {
    match t {
        WeaponType::Dagger => 10,
        WeaponType::Shortsword => 12,
        WeaponType::Longsword => 15,
        WeaponType::Mace => 13,
        WeaponType::Battleaxe => 14,
        WeaponType::Warhammer => 13,
        WeaponType::Greatsword => 20,
        WeaponType::Greataxe => 18,
        WeaponType::Maul => 16,
        WeaponType::Quarterstaff => 18,
        WeaponType::Shortbow => 150,
        WeaponType::Longbow => 200,
        WeaponType::LightCrossbow => 160,
        WeaponType::HeavyCrossbow => 180,
        WeaponType::Wand => 120,
        WeaponType::Staff => 100,
    }
}

/// Whether a weapon type needs both hands.
pub open spec fn weapon_two_handed_spec(t: WeaponType) -> bool {
    match t {
        WeaponType::Dagger => false,
        WeaponType::Shortsword => false,
        WeaponType::Longsword => false,
        WeaponType::Mace => false,
        WeaponType::Battleaxe => false,
        WeaponType::Warhammer => false,
        WeaponType::Greatsword => true,
        WeaponType::Greataxe => true,
        WeaponType::Maul => true,
        WeaponType::Quarterstaff => false,
        WeaponType::Shortbow => true,
        WeaponType::Longbow => true,
        WeaponType::LightCrossbow => true,
        WeaponType::HeavyCrossbow => true,
        WeaponType::Wand => false,
        WeaponType::Staff => false,
    }
}

/// Whether a weapon type strikes by dexterity.
pub open spec fn weapon_finesse_spec(t: WeaponType) -> bool {
    match t {
        WeaponType::Dagger => true,
        WeaponType::Shortsword => true,
        WeaponType::Longsword => false,
        WeaponType::Mace => false,
        WeaponType::Battleaxe => false,
        WeaponType::Warhammer => false,
        WeaponType::Greatsword => false,
        WeaponType::Greataxe => false,
        WeaponType::Maul => false,
        WeaponType::Quarterstaff => false,
        WeaponType::Shortbow => true,
        WeaponType::Longbow => true,
        WeaponType::LightCrossbow => false,
        WeaponType::HeavyCrossbow => false,
        WeaponType::Wand => true,
        WeaponType::Staff => true,
    }
}

/// The two-handed damage of a versatile weapon type.
pub open spec fn weapon_versatile_spec(t: WeaponType) -> Option<DamageDice> {
    match t {
        WeaponType::Dagger => None,
        WeaponType::Shortsword => None,
        WeaponType::Longsword => Some(DamageDice { count: 1u32, sides: 10u32 }),
        WeaponType::Mace => None,
        WeaponType::Battleaxe => Some(DamageDice { count: 1u32, sides: 10u32 }),
        WeaponType::Warhammer => None,
        WeaponType::Greatsword => None,
        WeaponType::Greataxe => None,
        WeaponType::Maul => None,
        WeaponType::Quarterstaff => Some(DamageDice { count: 1u32, sides: 8u32 }),
        WeaponType::Shortbow => None,
        WeaponType::Longbow => None,
        WeaponType::LightCrossbow => None,
        WeaponType::HeavyCrossbow => None,
        WeaponType::Wand => None,
        WeaponType::Staff => Some(DamageDice { count: 1u32, sides: 8u32 }),
    }
}

/// The strength a weapon type demands.
pub open spec fn weapon_str_req_spec(t: WeaponType) -> Option<i32> {
    match t {
        WeaponType::Dagger => None,
        WeaponType::Shortsword => None,
        WeaponType::Longsword => None,
        WeaponType::Mace => None,
        WeaponType::Battleaxe => None,
        WeaponType::Warhammer => None,
        WeaponType::Greatsword => None,
        WeaponType::Greataxe => None,
        WeaponType::Maul => None,
        WeaponType::Quarterstaff => None,
        WeaponType::Shortbow => None,
        WeaponType::Longbow => Some(13i32),
        WeaponType::LightCrossbow => None,
        WeaponType::HeavyCrossbow => Some(15i32),
        WeaponType::Wand => None,
        WeaponType::Staff => None,
    }
}

/// The gold value of each weapon type.
pub open spec fn weapon_value_spec(t: WeaponType) -> int {
    match t {
        WeaponType::Dagger => 2,
        WeaponType::Shortsword => 10,
        WeaponType::Longsword => 15,
        WeaponType::Mace => 12,
        WeaponType::Battleaxe => 18,
        WeaponType::Warhammer => 20,
        WeaponType::Greatsword => 50,
        WeaponType::Greataxe => 45,
        WeaponType::Maul => 55,
        WeaponType::Quarterstaff => 5,
        WeaponType::Shortbow => 25,
        WeaponType::Longbow => 50,
        WeaponType::LightCrossbow => 35,
        WeaponType::HeavyCrossbow => 75,
        WeaponType::Wand => 30,
        WeaponType::Staff => 40,
    }
}

/// The stat block of a weapon type, without enchantments.
pub fn get_weapon_stats(weapon_type: WeaponType) -> (r: WeaponStats)
    ensures
        r.weapon_type == weapon_type,
        r.damage_dice == weapon_dice_spec(weapon_type),
        r.damage_bonus == 0,
        r.attack_speed_ms == weapon_speed_spec(weapon_type),
        r.range_decitiles == weapon_range_spec(weapon_type),
        r.is_two_handed == weapon_two_handed_spec(weapon_type),
        r.is_finesse == weapon_finesse_spec(weapon_type),
        r.is_versatile == (weapon_versatile_spec(weapon_type) is Some),
        r.versatile_damage == weapon_versatile_spec(weapon_type),
        r.str_requirement == weapon_str_req_spec(weapon_type),
        r.enchantments@.len() == 0,
{
    match weapon_type {
        WeaponType::Dagger => WeaponStats {
            weapon_type: WeaponType::Dagger,
            damage_dice: DamageDice { count: 1, sides: 4 },
            damage_bonus: 0,
            attack_speed_ms: 700,
            range_decitiles: 10,
            is_two_handed: false,
            is_finesse: true,
            is_versatile: false,
            versatile_damage: None,
            str_requirement: None,
            enchantments: Vec::new(),
        },
        WeaponType::Shortsword => WeaponStats {
            weapon_type: WeaponType::Shortsword,
            damage_dice: DamageDice { count: 1, sides: 6 },
            damage_bonus: 0,
            attack_speed_ms: 900,
            range_decitiles: 12,
            is_two_handed: false,
            is_finesse: true,
            is_versatile: false,
            versatile_damage: None,
            str_requirement: None,
            enchantments: Vec::new(),
        },
        WeaponType::Longsword => WeaponStats {
            weapon_type: WeaponType::Longsword,
            damage_dice: DamageDice { count: 1, sides: 8 },
            damage_bonus: 0,
            attack_speed_ms: 1000,
            range_decitiles: 15,
            is_two_handed: false,
            is_finesse: false,
            is_versatile: true,
            versatile_damage: Some(DamageDice { count: 1, sides: 10 }),
            str_requirement: None,
            enchantments: Vec::new(),
        },
        WeaponType::Mace => WeaponStats {
            weapon_type: WeaponType::Mace,
            damage_dice: DamageDice { count: 1, sides: 6 },
            damage_bonus: 0,
            attack_speed_ms: 1000,
            range_decitiles: 13,
            is_two_handed: false,
            is_finesse: false,
            is_versatile: false,
            versatile_damage: None,
            str_requirement: None,
            enchantments: Vec::new(),
        },
        WeaponType::Battleaxe => WeaponStats {
            weapon_type: WeaponType::Battleaxe,
            damage_dice: DamageDice { count: 1, sides: 8 },
            damage_bonus: 0,
            attack_speed_ms: 1100,
            range_decitiles: 14,
            is_two_handed: false,
            is_finesse: false,
            is_versatile: true,
            versatile_damage: Some(DamageDice { count: 1, sides: 10 }),
            str_requirement: None,
            enchantments: Vec::new(),
        },
        WeaponType::Warhammer => WeaponStats {
            weapon_type: WeaponType::Warhammer,
            damage_dice: DamageDice { count: 1, sides: 8 },
            damage_bonus: 0,
            attack_speed_ms: 1200,
            range_decitiles: 13,
            is_two_handed: false,
            is_finesse: false,
            is_versatile: false,
            versatile_damage: None,
            str_requirement: None,
            enchantments: Vec::new(),
        },
        WeaponType::Greatsword => WeaponStats {
            weapon_type: WeaponType::Greatsword,
            damage_dice: DamageDice { count: 2, sides: 6 },
            damage_bonus: 0,
            attack_speed_ms: 1300,
            range_decitiles: 20,
            is_two_handed: true,
            is_finesse: false,
            is_versatile: false,
            versatile_damage: None,
            str_requirement: None,
            enchantments: Vec::new(),
        },
        WeaponType::Greataxe => WeaponStats {
            weapon_type: WeaponType::Greataxe,
            damage_dice: DamageDice { count: 1, sides: 12 },
            damage_bonus: 0,
            attack_speed_ms: 1400,
            range_decitiles: 18,
            is_two_handed: true,
            is_finesse: false,
            is_versatile: false,
            versatile_damage: None,
            str_requirement: None,
            enchantments: Vec::new(),
        },
        WeaponType::Maul => WeaponStats {
            weapon_type: WeaponType::Maul,
            damage_dice: DamageDice { count: 2, sides: 6 },
            damage_bonus: 0,
            attack_speed_ms: 1500,
            range_decitiles: 16,
            is_two_handed: true,
            is_finesse: false,
            is_versatile: false,
            versatile_damage: None,
            str_requirement: None,
            enchantments: Vec::new(),
        },
        WeaponType::Quarterstaff => WeaponStats {
            weapon_type: WeaponType::Quarterstaff,
            damage_dice: DamageDice { count: 1, sides: 6 },
            damage_bonus: 0,
            attack_speed_ms: 900,
            range_decitiles: 18,
            is_two_handed: false,
            is_finesse: false,
            is_versatile: true,
            versatile_damage: Some(DamageDice { count: 1, sides: 8 }),
            str_requirement: None,
            enchantments: Vec::new(),
        },
        WeaponType::Shortbow => WeaponStats {
            weapon_type: WeaponType::Shortbow,
            damage_dice: DamageDice { count: 1, sides: 6 },
            damage_bonus: 0,
            attack_speed_ms: 1000,
            range_decitiles: 150,
            is_two_handed: true,
            is_finesse: true,
            is_versatile: false,
            versatile_damage: None,
            str_requirement: None,
            enchantments: Vec::new(),
        },
        WeaponType::Longbow => WeaponStats {
            weapon_type: WeaponType::Longbow,
            damage_dice: DamageDice { count: 1, sides: 8 },
            damage_bonus: 0,
            attack_speed_ms: 1200,
            range_decitiles: 200,
            is_two_handed: true,
            is_finesse: true,
            is_versatile: false,
            versatile_damage: None,
            str_requirement: Some(13),
            enchantments: Vec::new(),
        },
        WeaponType::LightCrossbow => WeaponStats {
            weapon_type: WeaponType::LightCrossbow,
            damage_dice: DamageDice { count: 1, sides: 8 },
            damage_bonus: 0,
            attack_speed_ms: 1500,
            range_decitiles: 160,
            is_two_handed: true,
            is_finesse: false,
            is_versatile: false,
            versatile_damage: None,
            str_requirement: None,
            enchantments: Vec::new(),
        },
        WeaponType::HeavyCrossbow => WeaponStats {
            weapon_type: WeaponType::HeavyCrossbow,
            damage_dice: DamageDice { count: 1, sides: 10 },
            damage_bonus: 0,
            attack_speed_ms: 2000,
            range_decitiles: 180,
            is_two_handed: true,
            is_finesse: false,
            is_versatile: false,
            versatile_damage: None,
            str_requirement: Some(15),
            enchantments: Vec::new(),
        },
        WeaponType::Wand => WeaponStats {
            weapon_type: WeaponType::Wand,
            damage_dice: DamageDice { count: 1, sides: 4 },
            damage_bonus: 0,
            attack_speed_ms: 1000,
            range_decitiles: 120,
            is_two_handed: false,
            is_finesse: true,
            is_versatile: false,
            versatile_damage: None,
            str_requirement: None,
            enchantments: Vec::new(),
        },
        WeaponType::Staff => WeaponStats {
            weapon_type: WeaponType::Staff,
            damage_dice: DamageDice { count: 1, sides: 6 },
            damage_bonus: 0,
            attack_speed_ms: 1200,
            range_decitiles: 100,
            is_two_handed: false,
            is_finesse: true,
            is_versatile: true,
            versatile_damage: Some(DamageDice { count: 1, sides: 8 }),
            str_requirement: None,
            enchantments: Vec::new(),
        },
    }
}

/// The gold value of a weapon type.
pub fn get_weapon_value(weapon_type: WeaponType) -> (r: u32)
    ensures
        r == weapon_value_spec(weapon_type),
{
    match weapon_type {
        WeaponType::Dagger => 2,
        WeaponType::Shortsword => 10,
        WeaponType::Longsword => 15,
        WeaponType::Mace => 12,
        WeaponType::Battleaxe => 18,
        WeaponType::Warhammer => 20,
        WeaponType::Greatsword => 50,
        WeaponType::Greataxe => 45,
        WeaponType::Maul => 55,
        WeaponType::Quarterstaff => 5,
        WeaponType::Shortbow => 25,
        WeaponType::Longbow => 50,
        WeaponType::LightCrossbow => 35,
        WeaponType::HeavyCrossbow => 75,
        WeaponType::Wand => 30,
        WeaponType::Staff => 40,
    }
}

/// A weapon with `enchantment` worked in: the enchantment is recorded,
/// a plus raises the damage bonus, Swift cuts a fifth off the attack
/// cooldown, and Reach adds half a tile.
pub fn apply_enchantment(stats: WeaponStats, enchantment: Enchantment) -> (r: WeaponStats)
    requires
        -1000 <= stats.damage_bonus <= 1000,
        stats.attack_speed_ms <= 1_000_000,
        stats.range_decitiles <= 1_000_000,
    ensures
        r.enchantments@ == stats.enchantments@.push(enchantment),
        r.weapon_type == stats.weapon_type,
        r.damage_dice == stats.damage_dice,
        r.versatile_damage == stats.versatile_damage,
        r.is_finesse == stats.is_finesse,
        r.is_two_handed == stats.is_two_handed,
        r.is_versatile == stats.is_versatile,
        r.str_requirement == stats.str_requirement,
        r.damage_bonus == stats.damage_bonus + match enchantment {
            Enchantment::Plus1 => 1int,
            Enchantment::Plus2 => 2int,
            Enchantment::Plus3 => 3int,
            _ => 0int,
        },
        r.attack_speed_ms == if enchantment is Swift { stats.attack_speed_ms * 4 / 5 }
            else { stats.attack_speed_ms as int },
        r.range_decitiles == if enchantment is Reach { stats.range_decitiles + 5 }
            else { stats.range_decitiles as int },
{
    let mut stats = stats;
    stats.enchantments.push(enchantment);
    match enchantment {
        Enchantment::Plus1 => {
            stats.damage_bonus = stats.damage_bonus + 1;
        }
        Enchantment::Plus2 => {
            stats.damage_bonus = stats.damage_bonus + 2;
        }
        Enchantment::Plus3 => {
            stats.damage_bonus = stats.damage_bonus + 3;
        }
        Enchantment::Swift => {
            stats.attack_speed_ms = stats.attack_speed_ms * 4 / 5;
        }
        Enchantment::Reach => {
            stats.range_decitiles = stats.range_decitiles + 5;
        }
        _ => {}
    }
    stats
}

} // verus!
