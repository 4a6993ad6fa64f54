//! Ability and attack cooldowns, combat resolution and racial
//! resistance.

use game_server::abilities::{
    activate_ability, get_ability_cooldown_remaining, is_ability_on_cooldown, is_attack_ready,
    perform_attack, CombatError,
};
use game_server::character::{
    apply_damage_resistance, can_reroll_ones, has_damage_resistance, has_lucky,
    has_relentless_endurance, CharacterBuilder, ClassAbility,
};
use game_server::components::{
    ArmorClass, AttackSpeed, Character, CharacterClass, Cooldowns, Health, Player, Position,
    Species, Velocity,
};
use game_server::world::{EntityRec, World};

fn player_rec(name: &str, connection_id: u64, species: Species, class: CharacterClass)
    -> EntityRec {
    let sheet = CharacterBuilder::new(species, class).build();
    let mut rec = EntityRec::empty();
    rec.position = Some(Position { x: 0, y: 0 });
    rec.velocity = Some(Velocity { dx: 0, dy: 0 });
    rec.health = Some(Health { current: sheet.max_hp, max: sheet.max_hp });
    rec.stats = Some(sheet.stats);
    rec.character = Some(Character {
        species,
        class,
        level: 1,
        experience: 0,
    });
    rec.player = Some(Player { name: name.to_string(), connection_id });
    rec.armor_class = Some(ArmorClass { value: sheet.ac });
    rec.attack_speed = Some(AttackSpeed { cooldown_ms: sheet.attack_cooldown_ms });
    rec.cooldowns = Some(Cooldowns::default());
    rec
}

#[test]
fn test_ability_cooldown() {
    let mut cooldowns = Cooldowns::default();
    let ability = ClassAbility::SecondWind;
    let now: u64 = 5_000;

    assert!(!is_ability_on_cooldown(&cooldowns, ability, now));
    assert_eq!(get_ability_cooldown_remaining(&cooldowns, ability, now), 0);

    cooldowns.ability = Some(now);
    assert!(is_ability_on_cooldown(&cooldowns, ability, now));
    assert!(get_ability_cooldown_remaining(&cooldowns, ability, now) > 0);
    assert_eq!(get_ability_cooldown_remaining(&cooldowns, ability, now), 60_000);
    assert!(!is_ability_on_cooldown(&cooldowns, ability, now + 60_000));
}

#[test]
fn test_attack_cooldown() {
    let mut cooldowns = Cooldowns::default();
    let attack_speed = AttackSpeed { cooldown_ms: 1000 };
    let now: u64 = 10_000;

    assert!(is_attack_ready(&cooldowns, &attack_speed, now));

    cooldowns.attack = Some(now);
    assert!(!is_attack_ready(&cooldowns, &attack_speed, now));
    assert!(!is_attack_ready(&cooldowns, &attack_speed, now + 999));
    assert!(is_attack_ready(&cooldowns, &attack_speed, now + 1000));
}

#[test]
fn test_second_wind_heals_quarter() {
    let mut world = World::new(1_000_000, 1_000_000);
    let e = world.spawn(player_rec("A", 1, Species::Human, CharacterClass::Fighter));
    // Wound the fighter, then heal: a quarter of 12 is 3.
    assert!(world.set_health(e, Health { current: 4, max: 12 }));
    assert_eq!(activate_ability(&mut world, e, ClassAbility::SecondWind, 1000), Ok(()));
    assert_eq!(world.health(e).unwrap().current, 7);
    // Used again at once: on cooldown, health untouched.
    assert_eq!(
        activate_ability(&mut world, e, ClassAbility::SecondWind, 2000),
        Err(CombatError::AbilityOnCooldown)
    );
    assert_eq!(world.health(e).unwrap().current, 7);
}

#[test]
fn test_attack_hits_and_respects_cooldown() {
    let mut world = World::new(1_000_000, 1_000_000);
    let a = world.spawn(player_rec("A", 1, Species::Human, CharacterClass::Fighter));
    let b = world.spawn(player_rec("B", 2, Species::Human, CharacterClass::Wizard));
    // Fighter str 13 -> roll 11, wizard AC 11: a hit for 3 + 1 damage.
    assert_eq!(perform_attack(&mut world, a, b, 1000), Ok(()));
    let hp = world.health(b).unwrap();
    assert_eq!(hp.max - hp.current, 4);
    // A second swing inside the 800 ms cooldown fails without effect.
    assert_eq!(perform_attack(&mut world, a, b, 1500), Err(CombatError::AttackOnCooldown));
    assert_eq!(world.health(b).unwrap().current, hp.current);
    // Out-of-world targets are refused.
    assert_eq!(perform_attack(&mut world, a, 999, 2000), Err(CombatError::MissingComponents));
}

#[test]
fn test_attack_misses_high_armor() {
    let mut world = World::new(1_000_000, 1_000_000);
    let a = world.spawn(player_rec("A", 1, Species::Human, CharacterClass::Wizard));
    let b = world.spawn(player_rec("B", 2, Species::Human, CharacterClass::Fighter));
    // Wizard str 11 -> roll 10 against fighter AC 16: a miss, yet the
    // attack cooldown still restarts.
    let hp_before = world.health(b).unwrap().current;
    assert_eq!(perform_attack(&mut world, a, b, 1000), Ok(()));
    assert_eq!(world.health(b).unwrap().current, hp_before);
    assert_eq!(world.cooldowns(a).unwrap().attack, Some(1000));
}

#[test]
fn test_dwarf_resistance() {
    // A dwarf takes one point less, never below one.
    assert_eq!(apply_damage_resistance(5, Species::Dwarf), 4);
    assert_eq!(apply_damage_resistance(2, Species::Dwarf), 1);
    assert_eq!(apply_damage_resistance(1, Species::Dwarf), 1);
    assert_eq!(apply_damage_resistance(5, Species::Human), 5);
    assert!(has_damage_resistance(Species::Dwarf));
    assert!(!has_damage_resistance(Species::Elf));
}

#[test]
fn test_racial_traits() {
    assert!(has_lucky(Species::Halfling));
    assert!(can_reroll_ones(1, Species::Halfling));
    assert!(!can_reroll_ones(2, Species::Halfling));
    assert!(!can_reroll_ones(1, Species::Human));
    assert!(has_relentless_endurance(Species::HalfOrc));
    assert!(!has_relentless_endurance(Species::Gnome));
}

#[test]
fn test_stats_capped_for_creation() {
    let sheet = CharacterBuilder::new(Species::HalfOrc, CharacterClass::Barbarian).build();
    // 10 + 2 species + 2 class.
    assert_eq!(sheet.stats.str, 14);
    assert_eq!(sheet.max_hp, 16);
}
