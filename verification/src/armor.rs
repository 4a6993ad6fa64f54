//! The armor tables: body armor, shields and helmets, their gold
//! values, and armor enchantments.

use vstd::prelude::*;
use crate::components::{ArmorStats, ArmorType, Enchantment, HelmetStats, HelmetType,
    ShieldStats, ShieldType};

verus! {

/// Base armor class of each armor type.
pub open spec fn armor_ac_spec(t: ArmorType) -> int {
    match t {
        ArmorType::ClothRobes => 11,
        ArmorType::PaddedArmor => 11,
        ArmorType::LeatherArmor => 12,
        ArmorType::StuddedLeather => 13,
        ArmorType::HideArmor => 13,
        ArmorType::ChainShirt => 14,
        ArmorType::ScaleMail => 15,
        ArmorType::Breastplate => 15,
        ArmorType::RingMail => 14,
        ArmorType::ChainMail => 16,
        ArmorType::SplintArmor => 17,
        ArmorType::PlateArmor => 18,
    }
}

/// The dexterity-bonus cap of each armor type; light armor has none.
pub open spec fn armor_dex_cap_spec(t: ArmorType) -> Option<i32> {
    match t {
        ArmorType::ClothRobes => None,
        ArmorType::PaddedArmor => None,
        ArmorType::LeatherArmor => None,
        ArmorType::StuddedLeather => None,
        ArmorType::HideArmor => Some(2i32),
        ArmorType::ChainShirt => Some(2i32),
        ArmorType::ScaleMail => Some(2i32),
        ArmorType::Breastplate => Some(2i32),
        ArmorType::RingMail => Some(0i32),
        ArmorType::ChainMail => Some(0i32),
        ArmorType::SplintArmor => Some(0i32),
        ArmorType::PlateArmor => Some(0i32),
    }
}

/// Movement penalty of each armor type, in percent.
pub open spec fn armor_penalty_spec(t: ArmorType) -> int {
    match t {
        ArmorType::ClothRobes => 0,
        ArmorType::PaddedArmor => 0,
        ArmorType::LeatherArmor => 0,
        ArmorType::StuddedLeather => 0,
        ArmorType::HideArmor => 5,
        ArmorType::ChainShirt => 5,
        ArmorType::ScaleMail => 10,
        ArmorType::Breastplate => 5,
        ArmorType::RingMail => 15,
        ArmorType::ChainMail => 15,
        ArmorType::SplintArmor => 20,
        ArmorType::PlateArmor => 20,
    }
}

/// Weight of each armor type.
pub open spec fn armor_weight_spec(t: ArmorType) -> int {
    match t {
        ArmorType::ClothRobes => 4,
        ArmorType::PaddedArmor => 8,
        ArmorType::LeatherArmor => 10,
        ArmorType::StuddedLeather => 13,
        ArmorType::HideArmor => 12,
        ArmorType::ChainShirt => 20,
        ArmorType::ScaleMail => 45,
        ArmorType::Breastplate => 20,
        ArmorType::RingMail => 40,
        ArmorType::ChainMail => 55,
        ArmorType::SplintArmor => 60,
        ArmorType::PlateArmor => 65,
    }
}

/// The strength each armor type demands.
pub open spec fn armor_str_req_spec(t: ArmorType) -> Option<i32> {
    match t {
        ArmorType::ClothRobes => None,
        ArmorType::PaddedArmor => None,
        ArmorType::LeatherArmor => None,
        ArmorType::StuddedLeather => None,
        ArmorType::HideArmor => None,
        ArmorType::ChainShirt => None,
        ArmorType::ScaleMail => Some(12i32),
        ArmorType::Breastplate => None,
        ArmorType::RingMail => Some(13i32),
        ArmorType::ChainMail => Some(13i32),
        ArmorType::SplintArmor => Some(15i32),
        ArmorType::PlateArmor => Some(15i32),
    }
}

/// Whether each armor type hinders stealth.
pub open spec fn armor_stealth_spec(t: ArmorType) -> bool {
    match t {
        ArmorType::ClothRobes => false,
        ArmorType::PaddedArmor => true,
        ArmorType::LeatherArmor => false,
        ArmorType::StuddedLeather => false,
        ArmorType::HideArmor => false,
        ArmorType::ChainShirt => false,
        ArmorType::ScaleMail => true,
        ArmorType::Breastplate => false,
        ArmorType::RingMail => true,
        ArmorType::ChainMail => true,
        ArmorType::SplintArmor => true,
        ArmorType::PlateArmor => true,
    }
}

/// The gold value of each armor type.
pub open spec fn armor_value_spec(t: ArmorType) -> int {
    match t {
        ArmorType::ClothRobes => 5,
        ArmorType::PaddedArmor => 10,
        ArmorType::LeatherArmor => 15,
        ArmorType::StuddedLeather => 45,
        ArmorType::HideArmor => 15,
        ArmorType::ChainShirt => 50,
        ArmorType::ScaleMail => 75,
        ArmorType::Breastplate => 400,
        ArmorType::RingMail => 30,
        ArmorType::ChainMail => 75,
        ArmorType::SplintArmor => 200,
        ArmorType::PlateArmor => 1500,
    }
}

/// The stat block of an armor type, without enchantments.
pub fn get_armor_stats(armor_type: ArmorType) -> (r: ArmorStats)
    ensures
        r.armor_type == armor_type,
        r.base_ac == armor_ac_spec(armor_type),
        r.dex_bonus_cap == armor_dex_cap_spec(armor_type),
        r.movement_penalty_percent == armor_penalty_spec(armor_type),
        r.weight == armor_weight_spec(armor_type),
        r.str_requirement == armor_str_req_spec(armor_type),
        r.stealth_disadvantage == armor_stealth_spec(armor_type),
        r.enchantments@.len() == 0,
{
    match armor_type {
        ArmorType::ClothRobes => ArmorStats {
            armor_type: ArmorType::ClothRobes,
            base_ac: 11,
            dex_bonus_cap: None,
            movement_penalty_percent: 0,
            weight: 4,
            str_requirement: None,
            stealth_disadvantage: false,
            enchantments: Vec::new(),
        },
        ArmorType::PaddedArmor => ArmorStats {
            armor_type: ArmorType::PaddedArmor,
            base_ac: 11,
            dex_bonus_cap: None,
            movement_penalty_percent: 0,
            weight: 8,
            str_requirement: None,
            stealth_disadvantage: true,
            enchantments: Vec::new(),
        },
        ArmorType::LeatherArmor => ArmorStats {
            armor_type: ArmorType::LeatherArmor,
            base_ac: 12,
            dex_bonus_cap: None,
            movement_penalty_percent: 0,
            weight: 10,
            str_requirement: None,
            stealth_disadvantage: false,
            enchantments: Vec::new(),
        },
        ArmorType::StuddedLeather => ArmorStats {
            armor_type: ArmorType::StuddedLeather,
            base_ac: 13,
            dex_bonus_cap: None,
            movement_penalty_percent: 0,
            weight: 13,
            str_requirement: None,
            stealth_disadvantage: false,
            enchantments: Vec::new(),
        },
        ArmorType::HideArmor => ArmorStats {
            armor_type: ArmorType::HideArmor,
            base_ac: 13,
            dex_bonus_cap: Some(2),
            movement_penalty_percent: 5,
            weight: 12,
            str_requirement: None,
            stealth_disadvantage: false,
            enchantments: Vec::new(),
        },
        ArmorType::ChainShirt => ArmorStats {
            armor_type: ArmorType::ChainShirt,
            base_ac: 14,
            dex_bonus_cap: Some(2),
            movement_penalty_percent: 5,
            weight: 20,
            str_requirement: None,
            stealth_disadvantage: false,
            enchantments: Vec::new(),
        },
        ArmorType::ScaleMail => ArmorStats {
            armor_type: ArmorType::ScaleMail,
            base_ac: 15,
            dex_bonus_cap: Some(2),
            movement_penalty_percent: 10,
            weight: 45,
            str_requirement: Some(12),
            stealth_disadvantage: true,
            enchantments: Vec::new(),
        },
        ArmorType::Breastplate => ArmorStats {
            armor_type: ArmorType::Breastplate,
            base_ac: 15,
            dex_bonus_cap: Some(2),
            movement_penalty_percent: 5,
            weight: 20,
            str_requirement: None,
            stealth_disadvantage: false,
            enchantments: Vec::new(),
        },
        ArmorType::RingMail => ArmorStats {
            armor_type: ArmorType::RingMail,
            base_ac: 14,
            dex_bonus_cap: Some(0),
            movement_penalty_percent: 15,
            weight: 40,
            str_requirement: Some(13),
            stealth_disadvantage: true,
            enchantments: Vec::new(),
        },
        ArmorType::ChainMail => ArmorStats {
            armor_type: ArmorType::ChainMail,
            base_ac: 16,
            dex_bonus_cap: Some(0),
            movement_penalty_percent: 15,
            weight: 55,
            str_requirement: Some(13),
            stealth_disadvantage: true,
            enchantments: Vec::new(),
        },
        ArmorType::SplintArmor => ArmorStats {
            armor_type: ArmorType::SplintArmor,
            base_ac: 17,
            dex_bonus_cap: Some(0),
            movement_penalty_percent: 20,
            weight: 60,
            str_requirement: Some(15),
            stealth_disadvantage: true,
            enchantments: Vec::new(),
        },
        ArmorType::PlateArmor => ArmorStats {
            armor_type: ArmorType::PlateArmor,
            base_ac: 18,
            dex_bonus_cap: Some(0),
            movement_penalty_percent: 20,
            weight: 65,
            str_requirement: Some(15),
            stealth_disadvantage: true,
            enchantments: Vec::new(),
        },
    }
}

/// The gold value of an armor type.
pub fn get_armor_value(armor_type: ArmorType) -> (r: u32)
    ensures
        r == armor_value_spec(armor_type),
{
    match armor_type {
        ArmorType::ClothRobes => 5,
        ArmorType::PaddedArmor => 10,
        ArmorType::LeatherArmor => 15,
        ArmorType::StuddedLeather => 45,
        ArmorType::HideArmor => 15,
        ArmorType::ChainShirt => 50,
        ArmorType::ScaleMail => 75,
        ArmorType::Breastplate => 400,
        ArmorType::RingMail => 30,
        ArmorType::ChainMail => 75,
        ArmorType::SplintArmor => 200,
        ArmorType::PlateArmor => 1500,
    }
}

/// Armor with `enchantment` worked in: the enchantment is recorded, a
/// plus raises the base armor class, Speed removes the movement
/// penalty, Shadow the stealth disadvantage, and Featherweight the
/// weight and strength demand.
pub fn apply_enchantment(stats: ArmorStats, enchantment: Enchantment) -> (r: ArmorStats)
    requires
        -1000 <= stats.base_ac <= 1000,
    ensures
        r.enchantments@ == stats.enchantments@.push(enchantment),
        r.armor_type == stats.armor_type,
        r.dex_bonus_cap == stats.dex_bonus_cap,
        r.base_ac == stats.base_ac + match enchantment {
            Enchantment::Plus1 => 1int,
            Enchantment::Plus2 => 2int,
            Enchantment::Plus3 => 3int,
            _ => 0int,
        },
        r.movement_penalty_percent == if enchantment is Speed { 0int }
            else { stats.movement_penalty_percent as int },
        r.stealth_disadvantage == if enchantment is Shadow { false }
            else { stats.stealth_disadvantage },
        r.weight == if enchantment is Featherweight { 0int } else { stats.weight as int },
        r.str_requirement == if enchantment is Featherweight { None }
            else { stats.str_requirement },
{
    let mut stats = stats;
    stats.enchantments.push(enchantment);
    match enchantment {
        Enchantment::Plus1 => {
            stats.base_ac = stats.base_ac + 1;
        }
        Enchantment::Plus2 => {
            stats.base_ac = stats.base_ac + 2;
        }
        Enchantment::Plus3 => {
            stats.base_ac = stats.base_ac + 3;
        }
        Enchantment::Speed => {
            stats.movement_penalty_percent = 0;
        }
        Enchantment::Shadow => {
            stats.stealth_disadvantage = false;
        }
        Enchantment::Featherweight => {
            stats.weight = 0;
            stats.str_requirement = None;
        }
        _ => {}
    }
    stats
}

/// Armor-class bonus of each shield type.
pub open spec fn shield_ac_spec(t: ShieldType) -> int {
    match t {
        ShieldType::Buckler => 1,
        ShieldType::Standard => 2,
        ShieldType::Tower => 3,
    }
}

/// Movement penalty of each shield type, in percent.
pub open spec fn shield_penalty_spec(t: ShieldType) -> int {
    match t {
        ShieldType::Buckler => 0,
        ShieldType::Standard => 0,
        ShieldType::Tower => 10,
    }
}

/// The gold value of each shield type.
pub open spec fn shield_value_spec(t: ShieldType) -> int {
    match t {
        ShieldType::Buckler => 5,
        ShieldType::Standard => 10,
        ShieldType::Tower => 50,
    }
}

/// The stat block of a shield type, without enchantments.
pub fn get_shield_stats(shield_type: ShieldType) -> (r: ShieldStats)
    ensures
        r.shield_type == shield_type,
        r.ac_bonus == shield_ac_spec(shield_type),
        r.movement_penalty_percent == shield_penalty_spec(shield_type),
        r.enchantments@.len() == 0,
{
    match shield_type {
        ShieldType::Buckler => ShieldStats {
            shield_type: ShieldType::Buckler,
            ac_bonus: 1,
            weight: 3,
            str_requirement: None,
            movement_penalty_percent: 0,
            enchantments: Vec::new(),
        },
        ShieldType::Standard => ShieldStats {
            shield_type: ShieldType::Standard,
            ac_bonus: 2,
            weight: 6,
            str_requirement: None,
            movement_penalty_percent: 0,
            enchantments: Vec::new(),
        },
        ShieldType::Tower => ShieldStats {
            shield_type: ShieldType::Tower,
            ac_bonus: 3,
            weight: 15,
            str_requirement: Some(15),
            movement_penalty_percent: 10,
            enchantments: Vec::new(),
        },
    }
}

/// The gold value of a shield type.
pub fn get_shield_value(shield_type: ShieldType) -> (r: u32)
    ensures
        r == shield_value_spec(shield_type),
{
    match shield_type {
        ShieldType::Buckler => 5,
        ShieldType::Standard => 10,
        ShieldType::Tower => 50,
    }
}

/// Armor-class bonus of each helmet type.
pub open spec fn helmet_ac_spec(t: HelmetType) -> int {
    match t {
        HelmetType::ClothCap => 0,
        HelmetType::LeatherCap => 1,
        HelmetType::ChainCoif => 1,
        HelmetType::SteelHelm => 2,
        HelmetType::GreatHelm => 3,
    }
}

/// Vision penalty of each helmet type, in percent.
pub open spec fn helmet_vision_spec(t: HelmetType) -> int {
    match t {
        HelmetType::ClothCap => 0,
        HelmetType::LeatherCap => 0,
        HelmetType::ChainCoif => 0,
        HelmetType::SteelHelm => 5,
        HelmetType::GreatHelm => 10,
    }
}

/// The gold value of each helmet type.
pub open spec fn helmet_value_spec(t: HelmetType) -> int {
    match t {
        HelmetType::ClothCap => 1,
        HelmetType::LeatherCap => 5,
        HelmetType::ChainCoif => 25,
        HelmetType::SteelHelm => 75,
        HelmetType::GreatHelm => 150,
    }
}

/// The stat block of a helmet type, without enchantments.
pub fn get_helmet_stats(helmet_type: HelmetType) -> (r: HelmetStats)
    ensures
        r.helmet_type == helmet_type,
        r.ac_bonus == helmet_ac_spec(helmet_type),
        r.vision_penalty_percent == helmet_vision_spec(helmet_type),
        r.enchantments@.len() == 0,
{
    match helmet_type {
        HelmetType::ClothCap => HelmetStats {
            helmet_type: HelmetType::ClothCap,
            ac_bonus: 0,
            str_requirement: None,
            vision_penalty_percent: 0,
            enchantments: Vec::new(),
        },
        HelmetType::LeatherCap => HelmetStats {
            helmet_type: HelmetType::LeatherCap,
            ac_bonus: 1,
            str_requirement: None,
            vision_penalty_percent: 0,
            enchantments: Vec::new(),
        },
        HelmetType::ChainCoif => HelmetStats {
            helmet_type: HelmetType::ChainCoif,
            ac_bonus: 1,
            str_requirement: None,
            vision_penalty_percent: 0,
            enchantments: Vec::new(),
        },
        HelmetType::SteelHelm => HelmetStats {
            helmet_type: HelmetType::SteelHelm,
            ac_bonus: 2,
            str_requirement: None,
            vision_penalty_percent: 5,
            enchantments: Vec::new(),
        },
        HelmetType::GreatHelm => HelmetStats {
            helmet_type: HelmetType::GreatHelm,
            ac_bonus: 3,
            str_requirement: Some(13),
            vision_penalty_percent: 10,
            enchantments: Vec::new(),
        },
    }
}

/// The gold value of a helmet type.
pub fn get_helmet_value(helmet_type: HelmetType) -> (r: u32)
    ensures
        r == helmet_value_spec(helmet_type),
{
    match helmet_type {
        HelmetType::ClothCap => 1,
        HelmetType::LeatherCap => 5,
        HelmetType::ChainCoif => 25,
        HelmetType::SteelHelm => 75,
        HelmetType::GreatHelm => 150,
    }
}

} // verus!
