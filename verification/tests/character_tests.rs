//! Character creation and experience progression.

use game_server::character::{CharacterBuilder, ClassAbility};
use game_server::components::{CharacterClass, Species};
use game_server::progression::{
    add_xp, award_xp, calculate_xp_reward, get_xp_progress, level_from_xp,
    should_despawn_on_death, xp_for_level,
};
use game_server::world::World;

#[test]
fn test_human_fighter() {
    let builder = CharacterBuilder::new(Species::Human, CharacterClass::Fighter);
    let sheet = builder.build();

    assert_eq!(sheet.stats.str, 13);
    assert_eq!(sheet.stats.con, 12);
    assert_eq!(sheet.max_hp, 12);
    assert_eq!(sheet.ac, 16);
    assert_eq!(sheet.movement_speed, 200_000);
}

#[test]
fn test_elf_ranger() {
    let builder = CharacterBuilder::new(Species::Elf, CharacterClass::Ranger);
    let sheet = builder.build();

    assert_eq!(sheet.stats.dex, 14);
    assert_eq!(sheet.stats.con, 9);
    assert_eq!(sheet.max_hp, 9);
    assert_eq!(sheet.vision_range, 24);
    assert_eq!(sheet.movement_speed, 220_000);
}

#[test]
fn test_xp_progression() {
    assert_eq!(xp_for_level(2), 300);
    assert_eq!(xp_for_level(3), 900);
    assert_eq!(xp_for_level(4), 2700);

    assert_eq!(level_from_xp(0), 1);
    assert_eq!(level_from_xp(299), 1);
    assert_eq!(level_from_xp(300), 2);
    assert_eq!(level_from_xp(900), 3);
}

#[test]
fn test_xp_table_base() {
    assert_eq!(xp_for_level(0), 0);
    assert_eq!(xp_for_level(1), 0);
    assert_eq!(xp_for_level(5), 8100);
}

#[test]
fn test_xp_calculation() {
    assert_eq!(calculate_xp_reward(1, CharacterClass::Fighter), 50);
    assert_eq!(calculate_xp_reward(3, CharacterClass::Wizard), 200);
    assert!(calculate_xp_reward(10, CharacterClass::Fighter) > 800);
}

#[test]
fn test_xp_progress() {
    let (into, needed, progress) = get_xp_progress(150, 1);
    assert_eq!(into, 150);
    assert_eq!(needed, 300);
    assert_eq!(progress, 500);

    let (into, needed, _) = get_xp_progress(600, 2);
    assert_eq!(into, 300);
    assert_eq!(needed, 600);
}

#[test]
fn test_human_xp_bonus() {
    // Humans earn a tenth more; everyone else the plain amount.
    assert_eq!(add_xp(100, 50, Species::Human), 155);
    assert_eq!(add_xp(100, 50, Species::Elf), 150);
}

#[test]
fn test_award_xp_levels_up() {
    let mut world = World::new(1_000_000, 1_000_000);
    let mut rec = game_server::world::EntityRec::empty();
    rec.character = Some(game_server::components::Character {
        species: Species::Elf,
        class: CharacterClass::Rogue,
        level: 1,
        experience: 0,
    });
    rec.health = Some(game_server::components::Health { current: 8, max: 8 });
    let e = world.spawn(rec);
    assert!(award_xp(&mut world, e, 300).is_ok());
    let c = world.character(e).unwrap();
    assert_eq!(c.experience, 300);
    assert_eq!(c.level, 2);
    // Leveling grants five hit points to maximum and current alike.
    let h = world.health(e).unwrap();
    assert_eq!(h.max, 13);
    assert_eq!(h.current, 13);
    // Awarding to a missing entity fails.
    assert!(award_xp(&mut world, 999, 10).is_err());
}

#[test]
fn test_despawn_on_death_flag() {
    let mut world = World::new(1_000_000, 1_000_000);
    let mut rec = game_server::world::EntityRec::empty();
    rec.health = Some(game_server::components::Health { current: 0, max: 10 });
    let e = world.spawn(rec);
    assert!(should_despawn_on_death(&world, e));
    assert!(world.set_health(e, game_server::components::Health { current: 3, max: 10 }));
    assert!(!should_despawn_on_death(&world, e));
}

#[test]
fn test_class_abilities() {
    assert_eq!(ClassAbility::for_class(CharacterClass::Fighter), ClassAbility::SecondWind);
    assert_eq!(ClassAbility::for_class(CharacterClass::Barbarian), ClassAbility::Rage);
    assert_eq!(ClassAbility::SecondWind.cooldown_ms(), 60_000);
    assert_eq!(ClassAbility::SneakAttack.cooldown_ms(), 10_000);
    assert_eq!(ClassAbility::HealingWord.cooldown_ms(), 30_000);
    assert_eq!(ClassAbility::MagicMissile.cooldown_ms(), 15_000);
    assert_eq!(ClassAbility::HuntersMark.cooldown_ms(), 45_000);
    assert_eq!(ClassAbility::Rage.cooldown_ms(), 60_000);
    assert_eq!(ClassAbility::HuntersMark.name(), "Hunter's Mark");
}
