//! Weapon, armor, shield, helmet and accessory tables, the equipment
//! calculator, and loot.

use game_server::accessories::{get_accessory_stats, get_accessory_value};
use game_server::armor::{
    get_armor_stats, get_armor_value, get_helmet_stats, get_helmet_value, get_shield_stats,
    get_shield_value,
};
use game_server::components::{
    AccessoryType, ArmorType, DamageDice, Enchantment, Equipment, EquippedItem, HelmetType,
    ItemRarity, ItemStats, MonsterType, ShieldType, Stats, WeaponType,
};
use game_server::equipment::EquipmentCalculator;
use game_server::loot::{get_item_sprite, spawn_loot};
use game_server::monsters::{get_loot_table, MonsterTemplate};
use game_server::weapons::{get_weapon_stats, get_weapon_value};
use game_server::world::World;

fn equipped(id: &str, stats: ItemStats) -> EquippedItem {
    EquippedItem { item_id: id.to_string(), rarity: ItemRarity::Common, stats }
}

#[test]
fn test_all_weapons_defined() {
    for weapon_type in [
        WeaponType::Dagger, WeaponType::Shortsword, WeaponType::Longsword, WeaponType::Mace,
        WeaponType::Battleaxe, WeaponType::Warhammer, WeaponType::Greatsword,
        WeaponType::Greataxe, WeaponType::Maul, WeaponType::Quarterstaff, WeaponType::Shortbow,
        WeaponType::Longbow, WeaponType::LightCrossbow, WeaponType::HeavyCrossbow,
        WeaponType::Wand, WeaponType::Staff,
    ] {
        let stats = get_weapon_stats(weapon_type);
        assert!(stats.damage_dice.count > 0);
        assert!(stats.damage_dice.sides > 0);
        assert!(stats.attack_speed_ms > 0);
        assert!(stats.range_decitiles > 0);
    }
}

#[test]
fn test_weapon_values() {
    assert_eq!(get_weapon_value(WeaponType::Dagger), 2);
    assert_eq!(get_weapon_value(WeaponType::Longsword), 15);
    assert_eq!(get_weapon_value(WeaponType::Greatsword), 50);
}

#[test]
fn test_versatile_weapons() {
    let longsword = get_weapon_stats(WeaponType::Longsword);
    assert!(longsword.is_versatile);
    assert_eq!(longsword.versatile_damage, Some(DamageDice { count: 1, sides: 10 }));

    let dagger = get_weapon_stats(WeaponType::Dagger);
    assert!(!dagger.is_versatile);
}

#[test]
fn test_two_handed_weapons() {
    assert!(get_weapon_stats(WeaponType::Greatsword).is_two_handed);
    assert!(!get_weapon_stats(WeaponType::Longsword).is_two_handed);
}

#[test]
fn test_finesse_weapons() {
    assert!(get_weapon_stats(WeaponType::Dagger).is_finesse);
    assert!(!get_weapon_stats(WeaponType::Warhammer).is_finesse);
}

#[test]
fn weapons_test_enchantment_application() {
    let longsword = get_weapon_stats(WeaponType::Longsword);
    let enhanced = game_server::weapons::apply_enchantment(longsword, Enchantment::Plus2);
    assert_eq!(enhanced.damage_bonus, 2);
    assert!(enhanced.enchantments.contains(&Enchantment::Plus2));
}

#[test]
fn test_swift_enchantment() {
    let dagger = get_weapon_stats(WeaponType::Dagger);
    let original_speed = dagger.attack_speed_ms;
    let swift_dagger = game_server::weapons::apply_enchantment(dagger, Enchantment::Swift);
    assert!(swift_dagger.attack_speed_ms < original_speed);
    assert_eq!(swift_dagger.attack_speed_ms, original_speed * 4 / 5);
}

#[test]
fn test_all_armor_defined() {
    for armor_type in [
        ArmorType::ClothRobes, ArmorType::PaddedArmor, ArmorType::LeatherArmor,
        ArmorType::StuddedLeather, ArmorType::HideArmor, ArmorType::ChainShirt,
        ArmorType::ScaleMail, ArmorType::Breastplate, ArmorType::RingMail, ArmorType::ChainMail,
        ArmorType::SplintArmor, ArmorType::PlateArmor,
    ] {
        assert!(get_armor_stats(armor_type).base_ac > 0);
        assert!(get_armor_value(armor_type) > 0);
    }
}

#[test]
fn test_light_armor_no_dex_cap() {
    let leather = get_armor_stats(ArmorType::LeatherArmor);
    assert!(leather.dex_bonus_cap.is_none());
    assert_eq!(leather.movement_penalty_percent, 0);
}

#[test]
fn test_medium_armor_dex_cap() {
    assert_eq!(get_armor_stats(ArmorType::ChainShirt).dex_bonus_cap, Some(2));
}

#[test]
fn test_heavy_armor_no_dex() {
    let plate = get_armor_stats(ArmorType::PlateArmor);
    assert_eq!(plate.dex_bonus_cap, Some(0));
    assert!(plate.movement_penalty_percent > 0);
}

#[test]
fn armor_test_enchantment_application() {
    let leather = get_armor_stats(ArmorType::LeatherArmor);
    let enhanced = game_server::armor::apply_enchantment(leather, Enchantment::Plus2);
    assert_eq!(enhanced.base_ac, 14);
}

#[test]
fn test_all_shields_defined() {
    for shield_type in [ShieldType::Buckler, ShieldType::Standard, ShieldType::Tower] {
        assert!(get_shield_stats(shield_type).ac_bonus > 0);
        assert!(get_shield_value(shield_type) > 0);
    }
}

#[test]
fn test_all_helmets_defined() {
    for helmet_type in [
        HelmetType::ClothCap, HelmetType::LeatherCap, HelmetType::ChainCoif,
        HelmetType::SteelHelm, HelmetType::GreatHelm,
    ] {
        assert!(get_helmet_stats(helmet_type).ac_bonus >= 0);
        assert!(get_helmet_value(helmet_type) > 0);
    }
}

#[test]
fn test_all_accessories_defined() {
    for accessory in [
        AccessoryType::RingOfProtection, AccessoryType::AmuletOfHealth,
        AccessoryType::RingOfStrength, AccessoryType::RingOfDexterity,
        AccessoryType::RingOfConstitution, AccessoryType::CloakOfResistance,
        AccessoryType::BootsOfSpeed, AccessoryType::GlovesOfOgrePower,
        AccessoryType::HeadbandOfIntellect, AccessoryType::PeriaptOfWisdom,
        AccessoryType::RingOfRegeneration, AccessoryType::AmuletOfLifeDrain,
        AccessoryType::RingOfFireResistance, AccessoryType::RingOfSpellStoring,
        AccessoryType::BootsOfElvenkind, AccessoryType::CloakOfInvisibility,
        AccessoryType::BeltOfGiantStrength, AccessoryType::RingOfFeatherFalling,
        AccessoryType::AmuletOfTheDevout, AccessoryType::RingOfEvasion,
    ] {
        let _stats = get_accessory_stats(accessory);
        assert!(get_accessory_value(accessory) > 0);
    }
}

#[test]
fn accessories_test_stat_bonuses() {
    assert_eq!(get_accessory_stats(AccessoryType::RingOfStrength).effects.str_bonus, 1);
    assert_eq!(get_accessory_stats(AccessoryType::BeltOfGiantStrength).effects.str_bonus, 4);
}

#[test]
fn test_movement_bonus() {
    let boots = get_accessory_stats(AccessoryType::BootsOfSpeed);
    assert_eq!(boots.effects.movement_speed_bonus_percent, 10);
}

#[test]
fn test_regeneration() {
    assert_eq!(get_accessory_stats(AccessoryType::RingOfRegeneration).effects.hp_regen_per_5s, 1);
}

#[test]
fn accessories_test_lifesteal() {
    assert_eq!(get_accessory_stats(AccessoryType::AmuletOfLifeDrain).effects.lifesteal_percent, 20);
}

#[test]
fn test_evasion() {
    assert_eq!(get_accessory_stats(AccessoryType::RingOfEvasion).effects.evasion_chance_percent, 25);
}

#[test]
fn test_ac_calculation_no_armor() {
    let equipment = Equipment::default();
    assert_eq!(EquipmentCalculator::calculate_ac(10, 2, &equipment), 12);
}

#[test]
fn test_ac_calculation_with_armor() {
    let mut equipment = Equipment::default();
    let leather = get_armor_stats(ArmorType::LeatherArmor);
    equipment.armor = Some(equipped("leather_armor", ItemStats::Armor(leather)));
    assert_eq!(EquipmentCalculator::calculate_ac(10, 3, &equipment), 15);
}

#[test]
fn test_ac_calculation_heavy_armor() {
    let mut equipment = Equipment::default();
    let plate = get_armor_stats(ArmorType::PlateArmor);
    equipment.armor = Some(equipped("plate_armor", ItemStats::Armor(plate)));
    assert_eq!(EquipmentCalculator::calculate_ac(10, 3, &equipment), 18);
}

#[test]
fn equipment_test_stat_bonuses() {
    let mut equipment = Equipment::default();
    let ring = get_accessory_stats(AccessoryType::RingOfStrength);
    equipment.accessory1 = Some(equipped("ring_of_strength", ItemStats::Accessory(ring)));
    let base_stats = Stats { str: 10, dex: 10, con: 10, int: 10, wis: 10, cha: 10 };
    let final_stats = EquipmentCalculator::calculate_stats(&base_stats, &equipment);
    assert_eq!(final_stats.str, 11);
}

#[test]
fn test_movement_speed_penalty() {
    let mut equipment = Equipment::default();
    let plate = get_armor_stats(ArmorType::PlateArmor);
    equipment.armor = Some(equipped("plate_armor", ItemStats::Armor(plate)));
    assert_eq!(EquipmentCalculator::calculate_movement_speed(200_000, &equipment), 160_000);
}

#[test]
fn test_movement_speed_bonus() {
    let mut equipment = Equipment::default();
    let boots = get_accessory_stats(AccessoryType::BootsOfSpeed);
    equipment.accessory1 = Some(equipped("boots_of_speed", ItemStats::Accessory(boots)));
    assert_eq!(EquipmentCalculator::calculate_movement_speed(200_000, &equipment), 220_000);
}

#[test]
fn test_weapon_damage() {
    let mut equipment = Equipment::default();
    let longsword = get_weapon_stats(WeaponType::Longsword);
    equipment.main_hand = Some(equipped("longsword", ItemStats::Weapon(longsword)));
    assert_eq!(
        EquipmentCalculator::get_weapon_damage(&equipment, false),
        Some((DamageDice { count: 1, sides: 8 }, 0))
    );
    assert_eq!(
        EquipmentCalculator::get_weapon_damage(&equipment, true),
        Some((DamageDice { count: 1, sides: 10 }, 0))
    );
}

#[test]
fn equipment_test_lifesteal() {
    let mut equipment = Equipment::default();
    let amulet = get_accessory_stats(AccessoryType::AmuletOfLifeDrain);
    equipment.accessory1 = Some(equipped("amulet_of_life_drain", ItemStats::Accessory(amulet)));
    assert_eq!(EquipmentCalculator::get_lifesteal_percent(&equipment), 20);
}

#[test]
fn test_monster_templates() {
    for monster_type in [
        MonsterType::GiantRat, MonsterType::Goblin, MonsterType::Skeleton, MonsterType::Wolf,
    ] {
        let template = MonsterTemplate::get(monster_type);
        assert!(template.hp > 0);
        assert!(template.ac > 0);
        assert!(template.speed_units > 0);
    }
}

#[test]
fn test_loot_tables() {
    for monster_type in [MonsterType::GiantRat, MonsterType::Goblin] {
        let loot = get_loot_table(monster_type);
        assert!(loot.guaranteed_copper_min <= loot.guaranteed_copper_max);
    }
    let dragon = get_loot_table(MonsterType::YoungDragon);
    assert!(dragon.guaranteed_copper_min > 0);
}

#[test]
fn test_item_sprite_mapping() {
    assert_eq!(get_item_sprite("copper"), "coin_copper");
    assert_eq!(get_item_sprite("rat_meat"), "item_rat_meat");
    assert_eq!(get_item_sprite("unknown_item"), "item_unknown");
}

#[test]
fn test_spawn_loot() {
    let mut world = World::new(1_000_000, 1_000_000);
    let items = spawn_loot(&mut world, MonsterType::GiantRat, 100, 100);
    let mut item_rows: usize = 0;
    for e in 0..world.row_count() {
        if world.is_alive(e) && world.position(e).is_some() {
            item_rows += 1;
        }
    }
    assert_eq!(item_rows, items.len());
    for item in &items {
        assert_eq!(item.x, 100);
        assert_eq!(item.y, 100);
    }
}

#[test]
fn test_guaranteed_loot() {
    let mut world = World::new(1_000_000, 1_000_000);
    // The lich always drops its three relics, plus guaranteed copper.
    let items = spawn_loot(&mut world, MonsterType::Lich, 100, 100);
    assert!(items.iter().any(|item| item.item_id == "copper"));
    assert!(items.iter().any(|item| item.item_id == "spellbook"));
    let copper = items.iter().find(|item| item.item_id == "copper").unwrap();
    assert!(copper.quantity >= 200 && copper.quantity <= 800);
}
