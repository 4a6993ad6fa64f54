//! The accessory tables: the bonuses of every accessory type and their
//! gold values.

use vstd::prelude::*;
use crate::components::{AccessoryEffects, AccessoryStats, AccessoryType};

verus! {

/// The bonuses of each accessory type.
pub open spec fn accessory_effects_spec(t: AccessoryType) -> AccessoryEffects {
    match t {
        AccessoryType::RingOfProtection => AccessoryEffects { ac_bonus: 1i32, hp_bonus: 0i32, str_bonus: 0i32, dex_bonus: 0i32, con_bonus: 0i32, int_bonus: 0i32, wis_bonus: 0i32, cha_bonus: 0i32, movement_speed_bonus_percent: 0u32, hp_regen_per_5s: 0i32, lifesteal_percent: 0u32, fire_resistance_percent: 0u32, evasion_chance_percent: 0u32 },
        AccessoryType::AmuletOfHealth => AccessoryEffects { ac_bonus: 0i32, hp_bonus: 10i32, str_bonus: 0i32, dex_bonus: 0i32, con_bonus: 0i32, int_bonus: 0i32, wis_bonus: 0i32, cha_bonus: 0i32, movement_speed_bonus_percent: 0u32, hp_regen_per_5s: 0i32, lifesteal_percent: 0u32, fire_resistance_percent: 0u32, evasion_chance_percent: 0u32 },
        AccessoryType::RingOfStrength => AccessoryEffects { ac_bonus: 0i32, hp_bonus: 0i32, str_bonus: 1i32, dex_bonus: 0i32, con_bonus: 0i32, int_bonus: 0i32, wis_bonus: 0i32, cha_bonus: 0i32, movement_speed_bonus_percent: 0u32, hp_regen_per_5s: 0i32, lifesteal_percent: 0u32, fire_resistance_percent: 0u32, evasion_chance_percent: 0u32 },
        AccessoryType::RingOfDexterity => AccessoryEffects { ac_bonus: 0i32, hp_bonus: 0i32, str_bonus: 0i32, dex_bonus: 1i32, con_bonus: 0i32, int_bonus: 0i32, wis_bonus: 0i32, cha_bonus: 0i32, movement_speed_bonus_percent: 0u32, hp_regen_per_5s: 0i32, lifesteal_percent: 0u32, fire_resistance_percent: 0u32, evasion_chance_percent: 0u32 },
        AccessoryType::RingOfConstitution => AccessoryEffects { ac_bonus: 0i32, hp_bonus: 0i32, str_bonus: 0i32, dex_bonus: 0i32, con_bonus: 1i32, int_bonus: 0i32, wis_bonus: 0i32, cha_bonus: 0i32, movement_speed_bonus_percent: 0u32, hp_regen_per_5s: 0i32, lifesteal_percent: 0u32, fire_resistance_percent: 0u32, evasion_chance_percent: 0u32 },
        AccessoryType::CloakOfResistance => AccessoryEffects { ac_bonus: 0i32, hp_bonus: 0i32, str_bonus: 0i32, dex_bonus: 0i32, con_bonus: 0i32, int_bonus: 0i32, wis_bonus: 0i32, cha_bonus: 0i32, movement_speed_bonus_percent: 0u32, hp_regen_per_5s: 0i32, lifesteal_percent: 0u32, fire_resistance_percent: 0u32, evasion_chance_percent: 0u32 },
        AccessoryType::BootsOfSpeed => AccessoryEffects { ac_bonus: 0i32, hp_bonus: 0i32, str_bonus: 0i32, dex_bonus: 0i32, con_bonus: 0i32, int_bonus: 0i32, wis_bonus: 0i32, cha_bonus: 0i32, movement_speed_bonus_percent: 10u32, hp_regen_per_5s: 0i32, lifesteal_percent: 0u32, fire_resistance_percent: 0u32, evasion_chance_percent: 0u32 },
        AccessoryType::GlovesOfOgrePower => AccessoryEffects { ac_bonus: 0i32, hp_bonus: 0i32, str_bonus: 2i32, dex_bonus: 0i32, con_bonus: 0i32, int_bonus: 0i32, wis_bonus: 0i32, cha_bonus: 0i32, movement_speed_bonus_percent: 0u32, hp_regen_per_5s: 0i32, lifesteal_percent: 0u32, fire_resistance_percent: 0u32, evasion_chance_percent: 0u32 },
        AccessoryType::HeadbandOfIntellect => AccessoryEffects { ac_bonus: 0i32, hp_bonus: 0i32, str_bonus: 0i32, dex_bonus: 0i32, con_bonus: 0i32, int_bonus: 2i32, wis_bonus: 0i32, cha_bonus: 0i32, movement_speed_bonus_percent: 0u32, hp_regen_per_5s: 0i32, lifesteal_percent: 0u32, fire_resistance_percent: 0u32, evasion_chance_percent: 0u32 },
        AccessoryType::PeriaptOfWisdom => AccessoryEffects { ac_bonus: 0i32, hp_bonus: 0i32, str_bonus: 0i32, dex_bonus: 0i32, con_bonus: 0i32, int_bonus: 0i32, wis_bonus: 2i32, cha_bonus: 0i32, movement_speed_bonus_percent: 0u32, hp_regen_per_5s: 0i32, lifesteal_percent: 0u32, fire_resistance_percent: 0u32, evasion_chance_percent: 0u32 },
        AccessoryType::RingOfRegeneration => AccessoryEffects { ac_bonus: 0i32, hp_bonus: 0i32, str_bonus: 0i32, dex_bonus: 0i32, con_bonus: 0i32, int_bonus: 0i32, wis_bonus: 0i32, cha_bonus: 0i32, movement_speed_bonus_percent: 0u32, hp_regen_per_5s: 1i32, lifesteal_percent: 0u32, fire_resistance_percent: 0u32, evasion_chance_percent: 0u32 },
        AccessoryType::AmuletOfLifeDrain => AccessoryEffects { ac_bonus: 0i32, hp_bonus: 0i32, str_bonus: 0i32, dex_bonus: 0i32, con_bonus: 0i32, int_bonus: 0i32, wis_bonus: 0i32, cha_bonus: 0i32, movement_speed_bonus_percent: 0u32, hp_regen_per_5s: 0i32, lifesteal_percent: 20u32, fire_resistance_percent: 0u32, evasion_chance_percent: 0u32 },
        AccessoryType::RingOfFireResistance => AccessoryEffects { ac_bonus: 0i32, hp_bonus: 0i32, str_bonus: 0i32, dex_bonus: 0i32, con_bonus: 0i32, int_bonus: 0i32, wis_bonus: 0i32, cha_bonus: 0i32, movement_speed_bonus_percent: 0u32, hp_regen_per_5s: 0i32, lifesteal_percent: 0u32, fire_resistance_percent: 50u32, evasion_chance_percent: 0u32 },
        AccessoryType::RingOfSpellStoring => AccessoryEffects { ac_bonus: 0i32, hp_bonus: 0i32, str_bonus: 0i32, dex_bonus: 0i32, con_bonus: 0i32, int_bonus: 0i32, wis_bonus: 0i32, cha_bonus: 0i32, movement_speed_bonus_percent: 0u32, hp_regen_per_5s: 0i32, lifesteal_percent: 0u32, fire_resistance_percent: 0u32, evasion_chance_percent: 0u32 },
        AccessoryType::BootsOfElvenkind => AccessoryEffects { ac_bonus: 0i32, hp_bonus: 0i32, str_bonus: 0i32, dex_bonus: 0i32, con_bonus: 0i32, int_bonus: 0i32, wis_bonus: 0i32, cha_bonus: 0i32, movement_speed_bonus_percent: 0u32, hp_regen_per_5s: 0i32, lifesteal_percent: 0u32, fire_resistance_percent: 0u32, evasion_chance_percent: 0u32 },
        AccessoryType::CloakOfInvisibility => AccessoryEffects { ac_bonus: 0i32, hp_bonus: 0i32, str_bonus: 0i32, dex_bonus: 0i32, con_bonus: 0i32, int_bonus: 0i32, wis_bonus: 0i32, cha_bonus: 0i32, movement_speed_bonus_percent: 0u32, hp_regen_per_5s: 0i32, lifesteal_percent: 0u32, fire_resistance_percent: 0u32, evasion_chance_percent: 0u32 },
        AccessoryType::BeltOfGiantStrength => AccessoryEffects { ac_bonus: 0i32, hp_bonus: 0i32, str_bonus: 4i32, dex_bonus: 0i32, con_bonus: 0i32, int_bonus: 0i32, wis_bonus: 0i32, cha_bonus: 0i32, movement_speed_bonus_percent: 0u32, hp_regen_per_5s: 0i32, lifesteal_percent: 0u32, fire_resistance_percent: 0u32, evasion_chance_percent: 0u32 },
        AccessoryType::RingOfFeatherFalling => AccessoryEffects { ac_bonus: 0i32, hp_bonus: 0i32, str_bonus: 0i32, dex_bonus: 0i32, con_bonus: 0i32, int_bonus: 0i32, wis_bonus: 0i32, cha_bonus: 0i32, movement_speed_bonus_percent: 0u32, hp_regen_per_5s: 0i32, lifesteal_percent: 0u32, fire_resistance_percent: 0u32, evasion_chance_percent: 0u32 },
        AccessoryType::AmuletOfTheDevout => AccessoryEffects { ac_bonus: 0i32, hp_bonus: 0i32, str_bonus: 0i32, dex_bonus: 0i32, con_bonus: 0i32, int_bonus: 0i32, wis_bonus: 1i32, cha_bonus: 0i32, movement_speed_bonus_percent: 0u32, hp_regen_per_5s: 0i32, lifesteal_percent: 0u32, fire_resistance_percent: 0u32, evasion_chance_percent: 0u32 },
        AccessoryType::RingOfEvasion => AccessoryEffects { ac_bonus: 0i32, hp_bonus: 0i32, str_bonus: 0i32, dex_bonus: 0i32, con_bonus: 0i32, int_bonus: 0i32, wis_bonus: 0i32, cha_bonus: 0i32, movement_speed_bonus_percent: 0u32, hp_regen_per_5s: 0i32, lifesteal_percent: 0u32, fire_resistance_percent: 0u32, evasion_chance_percent: 25u32 },
    }
}

/// The gold value of each accessory type.
pub open spec fn accessory_value_spec(t: AccessoryType) -> int {
    match t {
        AccessoryType::RingOfProtection => 100,
        AccessoryType::AmuletOfHealth => 150,
        AccessoryType::RingOfStrength => 100,
        AccessoryType::RingOfDexterity => 100,
        AccessoryType::RingOfConstitution => 100,
        AccessoryType::CloakOfResistance => 150,
        AccessoryType::BootsOfSpeed => 100,
        AccessoryType::GlovesOfOgrePower => 150,
        AccessoryType::HeadbandOfIntellect => 150,
        AccessoryType::PeriaptOfWisdom => 150,
        AccessoryType::RingOfRegeneration => 500,
        AccessoryType::AmuletOfLifeDrain => 600,
        AccessoryType::RingOfFireResistance => 400,
        AccessoryType::RingOfSpellStoring => 800,
        AccessoryType::BootsOfElvenkind => 300,
        AccessoryType::CloakOfInvisibility => 1000,
        AccessoryType::BeltOfGiantStrength => 800,
        AccessoryType::RingOfFeatherFalling => 400,
        AccessoryType::AmuletOfTheDevout => 700,
        AccessoryType::RingOfEvasion => 900,
    }
}

/// The stat block of an accessory type.
pub fn get_accessory_stats(accessory_type: AccessoryType) -> (r: AccessoryStats)
    ensures
        r.accessory_type == accessory_type,
        r.effects == accessory_effects_spec(accessory_type),
{
    match accessory_type {
        AccessoryType::RingOfProtection => AccessoryStats { accessory_type: AccessoryType::RingOfProtection, effects: AccessoryEffects { ac_bonus: 1, hp_bonus: 0, str_bonus: 0, dex_bonus: 0, con_bonus: 0, int_bonus: 0, wis_bonus: 0, cha_bonus: 0, movement_speed_bonus_percent: 0, hp_regen_per_5s: 0, lifesteal_percent: 0, fire_resistance_percent: 0, evasion_chance_percent: 0 } },
        AccessoryType::AmuletOfHealth => AccessoryStats { accessory_type: AccessoryType::AmuletOfHealth, effects: AccessoryEffects { ac_bonus: 0, hp_bonus: 10, str_bonus: 0, dex_bonus: 0, con_bonus: 0, int_bonus: 0, wis_bonus: 0, cha_bonus: 0, movement_speed_bonus_percent: 0, hp_regen_per_5s: 0, lifesteal_percent: 0, fire_resistance_percent: 0, evasion_chance_percent: 0 } },
        AccessoryType::RingOfStrength => AccessoryStats { accessory_type: AccessoryType::RingOfStrength, effects: AccessoryEffects { ac_bonus: 0, hp_bonus: 0, str_bonus: 1, dex_bonus: 0, con_bonus: 0, int_bonus: 0, wis_bonus: 0, cha_bonus: 0, movement_speed_bonus_percent: 0, hp_regen_per_5s: 0, lifesteal_percent: 0, fire_resistance_percent: 0, evasion_chance_percent: 0 } },
        AccessoryType::RingOfDexterity => AccessoryStats { accessory_type: AccessoryType::RingOfDexterity, effects: AccessoryEffects { ac_bonus: 0, hp_bonus: 0, str_bonus: 0, dex_bonus: 1, con_bonus: 0, int_bonus: 0, wis_bonus: 0, cha_bonus: 0, movement_speed_bonus_percent: 0, hp_regen_per_5s: 0, lifesteal_percent: 0, fire_resistance_percent: 0, evasion_chance_percent: 0 } },
        AccessoryType::RingOfConstitution => AccessoryStats { accessory_type: AccessoryType::RingOfConstitution, effects: AccessoryEffects { ac_bonus: 0, hp_bonus: 0, str_bonus: 0, dex_bonus: 0, con_bonus: 1, int_bonus: 0, wis_bonus: 0, cha_bonus: 0, movement_speed_bonus_percent: 0, hp_regen_per_5s: 0, lifesteal_percent: 0, fire_resistance_percent: 0, evasion_chance_percent: 0 } },
        AccessoryType::CloakOfResistance => AccessoryStats { accessory_type: AccessoryType::CloakOfResistance, effects: AccessoryEffects { ac_bonus: 0, hp_bonus: 0, str_bonus: 0, dex_bonus: 0, con_bonus: 0, int_bonus: 0, wis_bonus: 0, cha_bonus: 0, movement_speed_bonus_percent: 0, hp_regen_per_5s: 0, lifesteal_percent: 0, fire_resistance_percent: 0, evasion_chance_percent: 0 } },
        AccessoryType::BootsOfSpeed => AccessoryStats { accessory_type: AccessoryType::BootsOfSpeed, effects: AccessoryEffects { ac_bonus: 0, hp_bonus: 0, str_bonus: 0, dex_bonus: 0, con_bonus: 0, int_bonus: 0, wis_bonus: 0, cha_bonus: 0, movement_speed_bonus_percent: 10, hp_regen_per_5s: 0, lifesteal_percent: 0, fire_resistance_percent: 0, evasion_chance_percent: 0 } },
        AccessoryType::GlovesOfOgrePower => AccessoryStats { accessory_type: AccessoryType::GlovesOfOgrePower, effects: AccessoryEffects { ac_bonus: 0, hp_bonus: 0, str_bonus: 2, dex_bonus: 0, con_bonus: 0, int_bonus: 0, wis_bonus: 0, cha_bonus: 0, movement_speed_bonus_percent: 0, hp_regen_per_5s: 0, lifesteal_percent: 0, fire_resistance_percent: 0, evasion_chance_percent: 0 } },
        AccessoryType::HeadbandOfIntellect => AccessoryStats { accessory_type: AccessoryType::HeadbandOfIntellect, effects: AccessoryEffects { ac_bonus: 0, hp_bonus: 0, str_bonus: 0, dex_bonus: 0, con_bonus: 0, int_bonus: 2, wis_bonus: 0, cha_bonus: 0, movement_speed_bonus_percent: 0, hp_regen_per_5s: 0, lifesteal_percent: 0, fire_resistance_percent: 0, evasion_chance_percent: 0 } },
        AccessoryType::PeriaptOfWisdom => AccessoryStats { accessory_type: AccessoryType::PeriaptOfWisdom, effects: AccessoryEffects { ac_bonus: 0, hp_bonus: 0, str_bonus: 0, dex_bonus: 0, con_bonus: 0, int_bonus: 0, wis_bonus: 2, cha_bonus: 0, movement_speed_bonus_percent: 0, hp_regen_per_5s: 0, lifesteal_percent: 0, fire_resistance_percent: 0, evasion_chance_percent: 0 } },
        AccessoryType::RingOfRegeneration => AccessoryStats { accessory_type: AccessoryType::RingOfRegeneration, effects: AccessoryEffects { ac_bonus: 0, hp_bonus: 0, str_bonus: 0, dex_bonus: 0, con_bonus: 0, int_bonus: 0, wis_bonus: 0, cha_bonus: 0, movement_speed_bonus_percent: 0, hp_regen_per_5s: 1, lifesteal_percent: 0, fire_resistance_percent: 0, evasion_chance_percent: 0 } },
        AccessoryType::AmuletOfLifeDrain => AccessoryStats { accessory_type: AccessoryType::AmuletOfLifeDrain, effects: AccessoryEffects { ac_bonus: 0, hp_bonus: 0, str_bonus: 0, dex_bonus: 0, con_bonus: 0, int_bonus: 0, wis_bonus: 0, cha_bonus: 0, movement_speed_bonus_percent: 0, hp_regen_per_5s: 0, lifesteal_percent: 20, fire_resistance_percent: 0, evasion_chance_percent: 0 } },
        AccessoryType::RingOfFireResistance => AccessoryStats { accessory_type: AccessoryType::RingOfFireResistance, effects: AccessoryEffects { ac_bonus: 0, hp_bonus: 0, str_bonus: 0, dex_bonus: 0, con_bonus: 0, int_bonus: 0, wis_bonus: 0, cha_bonus: 0, movement_speed_bonus_percent: 0, hp_regen_per_5s: 0, lifesteal_percent: 0, fire_resistance_percent: 50, evasion_chance_percent: 0 } },
        AccessoryType::RingOfSpellStoring => AccessoryStats { accessory_type: AccessoryType::RingOfSpellStoring, effects: AccessoryEffects { ac_bonus: 0, hp_bonus: 0, str_bonus: 0, dex_bonus: 0, con_bonus: 0, int_bonus: 0, wis_bonus: 0, cha_bonus: 0, movement_speed_bonus_percent: 0, hp_regen_per_5s: 0, lifesteal_percent: 0, fire_resistance_percent: 0, evasion_chance_percent: 0 } },
        AccessoryType::BootsOfElvenkind => AccessoryStats { accessory_type: AccessoryType::BootsOfElvenkind, effects: AccessoryEffects { ac_bonus: 0, hp_bonus: 0, str_bonus: 0, dex_bonus: 0, con_bonus: 0, int_bonus: 0, wis_bonus: 0, cha_bonus: 0, movement_speed_bonus_percent: 0, hp_regen_per_5s: 0, lifesteal_percent: 0, fire_resistance_percent: 0, evasion_chance_percent: 0 } },
        AccessoryType::CloakOfInvisibility => AccessoryStats { accessory_type: AccessoryType::CloakOfInvisibility, effects: AccessoryEffects { ac_bonus: 0, hp_bonus: 0, str_bonus: 0, dex_bonus: 0, con_bonus: 0, int_bonus: 0, wis_bonus: 0, cha_bonus: 0, movement_speed_bonus_percent: 0, hp_regen_per_5s: 0, lifesteal_percent: 0, fire_resistance_percent: 0, evasion_chance_percent: 0 } },
        AccessoryType::BeltOfGiantStrength => AccessoryStats { accessory_type: AccessoryType::BeltOfGiantStrength, effects: AccessoryEffects { ac_bonus: 0, hp_bonus: 0, str_bonus: 4, dex_bonus: 0, con_bonus: 0, int_bonus: 0, wis_bonus: 0, cha_bonus: 0, movement_speed_bonus_percent: 0, hp_regen_per_5s: 0, lifesteal_percent: 0, fire_resistance_percent: 0, evasion_chance_percent: 0 } },
        AccessoryType::RingOfFeatherFalling => AccessoryStats { accessory_type: AccessoryType::RingOfFeatherFalling, effects: AccessoryEffects { ac_bonus: 0, hp_bonus: 0, str_bonus: 0, dex_bonus: 0, con_bonus: 0, int_bonus: 0, wis_bonus: 0, cha_bonus: 0, movement_speed_bonus_percent: 0, hp_regen_per_5s: 0, lifesteal_percent: 0, fire_resistance_percent: 0, evasion_chance_percent: 0 } },
        AccessoryType::AmuletOfTheDevout => AccessoryStats { accessory_type: AccessoryType::AmuletOfTheDevout, effects: AccessoryEffects { ac_bonus: 0, hp_bonus: 0, str_bonus: 0, dex_bonus: 0, con_bonus: 0, int_bonus: 0, wis_bonus: 1, cha_bonus: 0, movement_speed_bonus_percent: 0, hp_regen_per_5s: 0, lifesteal_percent: 0, fire_resistance_percent: 0, evasion_chance_percent: 0 } },
        AccessoryType::RingOfEvasion => AccessoryStats { accessory_type: AccessoryType::RingOfEvasion, effects: AccessoryEffects { ac_bonus: 0, hp_bonus: 0, str_bonus: 0, dex_bonus: 0, con_bonus: 0, int_bonus: 0, wis_bonus: 0, cha_bonus: 0, movement_speed_bonus_percent: 0, hp_regen_per_5s: 0, lifesteal_percent: 0, fire_resistance_percent: 0, evasion_chance_percent: 25 } },
    }
}

/// The gold value of an accessory type.
pub fn get_accessory_value(accessory_type: AccessoryType) -> (r: u32)
    ensures
        r == accessory_value_spec(accessory_type),
{
    match accessory_type {
        AccessoryType::RingOfProtection => 100,
        AccessoryType::AmuletOfHealth => 150,
        AccessoryType::RingOfStrength => 100,
        AccessoryType::RingOfDexterity => 100,
        AccessoryType::RingOfConstitution => 100,
        AccessoryType::CloakOfResistance => 150,
        AccessoryType::BootsOfSpeed => 100,
        AccessoryType::GlovesOfOgrePower => 150,
        AccessoryType::HeadbandOfIntellect => 150,
        AccessoryType::PeriaptOfWisdom => 150,
        AccessoryType::RingOfRegeneration => 500,
        AccessoryType::AmuletOfLifeDrain => 600,
        AccessoryType::RingOfFireResistance => 400,
        AccessoryType::RingOfSpellStoring => 800,
        AccessoryType::BootsOfElvenkind => 300,
        AccessoryType::CloakOfInvisibility => 1000,
        AccessoryType::BeltOfGiantStrength => 800,
        AccessoryType::RingOfFeatherFalling => 400,
        AccessoryType::AmuletOfTheDevout => 700,
        AccessoryType::RingOfEvasion => 900,
    }
}

} // verus!
