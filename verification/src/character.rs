//! Character creation: species and class bonuses, racial traits, and the
//! one cooldown-gated ability of each class.

use vstd::prelude::*;
use crate::components::{CharacterClass, Species, Stats};

verus! {

/// The ability scores of a freshly created character: 10 in every score,
/// adjusted by the species and class bonuses.
pub open spec fn creation_stats(species: Species, class: CharacterClass) -> Stats {
    let s = match species {
        Species::Human => Stats { str: 11, dex: 11, con: 11, int: 11, wis: 11, cha: 11 },
        Species::Elf => Stats { str: 10, dex: 12, con: 9, int: 11, wis: 10, cha: 10 },
        Species::Dwarf => Stats { str: 11, dex: 9, con: 12, int: 10, wis: 10, cha: 10 },
        Species::Halfling => Stats { str: 9, dex: 12, con: 10, int: 10, wis: 10, cha: 11 },
        Species::HalfOrc => Stats { str: 12, dex: 10, con: 11, int: 9, wis: 10, cha: 10 },
        Species::Gnome => Stats { str: 9, dex: 11, con: 10, int: 12, wis: 10, cha: 10 },
    };
    match class {
        CharacterClass::Fighter => Stats { str: (s.str + 2) as i32, con: (s.con + 1) as i32, ..s },
        CharacterClass::Rogue => Stats { dex: (s.dex + 2) as i32, cha: (s.cha + 1) as i32, ..s },
        CharacterClass::Cleric => Stats { wis: (s.wis + 2) as i32, con: (s.con + 1) as i32, ..s },
        CharacterClass::Wizard => Stats { int: (s.int + 2) as i32, wis: (s.wis + 1) as i32, ..s },
        CharacterClass::Ranger => Stats { dex: (s.dex + 2) as i32, wis: (s.wis + 1) as i32, ..s },
        CharacterClass::Barbarian => Stats { str: (s.str + 2) as i32, con: (s.con + 2) as i32, ..s },
    }
}

/// Hit points a species starts with, before the class bonus.
pub open spec fn species_base_hp(species: Species) -> int {
    match species {
        Species::Human => 10,
        Species::Elf => 8,
        Species::Dwarf => 12,
        Species::Halfling => 8,
        Species::HalfOrc => 12,
        Species::Gnome => 8,
    }
}

/// Hit points a class adds to the species base.
pub open spec fn class_hp_bonus_spec(class: CharacterClass) -> int {
    match class {
        CharacterClass::Fighter => 2,
        CharacterClass::Rogue => 0,
        CharacterClass::Cleric => 1,
        CharacterClass::Wizard => -2,
        CharacterClass::Ranger => 1,
        CharacterClass::Barbarian => 4,
    }
}

/// Armor class granted by a class's starting gear.
pub open spec fn class_ac_spec(class: CharacterClass) -> int {
    match class {
        CharacterClass::Fighter => 16,
        CharacterClass::Rogue => 14,
        CharacterClass::Cleric => 15,
        CharacterClass::Wizard => 11,
        CharacterClass::Ranger => 14,
        CharacterClass::Barbarian => 13,
    }
}

/// Movement speed of a species, in speed units (thousandths of a pixel
/// per second).
pub open spec fn species_speed_spec(species: Species) -> int {
    match species {
        Species::Human => 200_000,
        Species::Elf => 220_000,
        Species::Dwarf => 180_000,
        Species::Halfling => 190_000,
        Species::HalfOrc => 210_000,
        Species::Gnome => 180_000,
    }
}

/// Vision range of a species, in tiles; elves see four tiles further.
pub open spec fn species_vision_spec(species: Species) -> int {
    match species {
        Species::Elf => 24,
        _ => 20,
    }
}

/// Milliseconds between basic attacks for a class.
pub open spec fn class_attack_cooldown_spec(class: CharacterClass) -> int {
    match class {
        CharacterClass::Fighter => 800,
        CharacterClass::Rogue => 700,
        CharacterClass::Cleric => 1000,
        CharacterClass::Wizard => 1200,
        CharacterClass::Ranger => 1000,
        CharacterClass::Barbarian => 1100,
    }
}

/// Everything a freshly created level-one character starts with.
#[derive(Debug, Clone)]
pub struct CharacterSheet {
    pub species: Species,
    pub class: CharacterClass,
    pub level: u32,
    pub experience: u64,
    pub stats: Stats,
    pub max_hp: i32,
    pub ac: i32,
    pub movement_speed: i64,
    pub vision_range: u32,
    pub attack_cooldown_ms: u64,
}

/// Builds the starting sheet for a species and class pair.
pub struct CharacterBuilder {
    species: Species,
    class: CharacterClass,
}

impl CharacterBuilder {
    pub closed spec fn spec_species(self) -> Species {
        self.species
    }

    pub closed spec fn spec_class(self) -> CharacterClass {
        self.class
    }

    pub fn new(species: Species, class: CharacterClass) -> (r: Self)
        ensures
            r.spec_species() == species,
            r.spec_class() == class,
    {
        CharacterBuilder { species, class }
    }

    /// The starting sheet: level one, no experience, species and class
    /// bonuses applied throughout.
    pub fn build(&self) -> (r: CharacterSheet)
        ensures
            r.species == self.spec_species(),
            r.class == self.spec_class(),
            r.level == 1,
            r.experience == 0,
            r.stats == creation_stats(self.spec_species(), self.spec_class()),
            r.max_hp == species_base_hp(self.spec_species()) + class_hp_bonus_spec(self.spec_class()),
            r.ac == class_ac_spec(self.spec_class()),
            r.movement_speed == species_speed_spec(self.spec_species()),
            r.vision_range == species_vision_spec(self.spec_species()),
            r.attack_cooldown_ms == class_attack_cooldown_spec(self.spec_class()),
    {
        let base_stats = self.calculate_stats();
        let base_hp = self.calculate_base_hp();
        let hp_bonus = self.class_hp_bonus();
        CharacterSheet {
            species: self.species,
            class: self.class,
            level: 1,
            experience: 0,
            stats: base_stats,
            max_hp: base_hp + hp_bonus,
            ac: self.class_ac(),
            movement_speed: self.species_movement_speed(),
            vision_range: self.species_vision_range(),
            attack_cooldown_ms: self.class_attack_cooldown(),
        }
    }

    /// Base scores of 10, with the species and class bonuses applied.
    pub fn calculate_stats(&self) -> (r: Stats)
        ensures
            r == creation_stats(self.spec_species(), self.spec_class()),
    {
        let mut stats = Stats { str: 10, dex: 10, con: 10, int: 10, wis: 10, cha: 10 };
        match self.species {
            Species::Human => {
                stats.str = stats.str + 1;
                stats.dex = stats.dex + 1;
                stats.con = stats.con + 1;
                stats.int = stats.int + 1;
                stats.wis = stats.wis + 1;
                stats.cha = stats.cha + 1;
            }
            Species::Elf => {
                stats.dex = stats.dex + 2;
                stats.int = stats.int + 1;
                stats.con = stats.con - 1;
            }
            Species::Dwarf => {
                stats.con = stats.con + 2;
                stats.str = stats.str + 1;
                stats.dex = stats.dex - 1;
            }
            Species::Halfling => {
                stats.dex = stats.dex + 2;
                stats.cha = stats.cha + 1;
                stats.str = stats.str - 1;
            }
            Species::HalfOrc => {
                stats.str = stats.str + 2;
                stats.con = stats.con + 1;
                stats.int = stats.int - 1;
            }
            Species::Gnome => {
                stats.int = stats.int + 2;
                stats.dex = stats.dex + 1;
                stats.str = stats.str - 1;
            }
        }
        match self.class {
            CharacterClass::Fighter => {
                stats.str = stats.str + 2;
                stats.con = stats.con + 1;
            }
            CharacterClass::Rogue => {
                stats.dex = stats.dex + 2;
                stats.cha = stats.cha + 1;
            }
            CharacterClass::Cleric => {
                stats.wis = stats.wis + 2;
                stats.con = stats.con + 1;
            }
            CharacterClass::Wizard => {
                stats.int = stats.int + 2;
                stats.wis = stats.wis + 1;
            }
            CharacterClass::Ranger => {
                stats.dex = stats.dex + 2;
                stats.wis = stats.wis + 1;
            }
            CharacterClass::Barbarian => {
                stats.str = stats.str + 2;
                stats.con = stats.con + 2;
            }
        }
        stats
    }

    /// Hit points from the species alone.
    pub fn calculate_base_hp(&self) -> (r: i32)
        ensures
            r == species_base_hp(self.spec_species()),
    {
        match self.species {
            Species::Human => 10,
            Species::Elf => 8,
            Species::Dwarf => 12,
            Species::Halfling => 8,
            Species::HalfOrc => 12,
            Species::Gnome => 8,
        }
    }

    /// Hit points the class adds (a wizard loses two).
    pub fn class_hp_bonus(&self) -> (r: i32)
        ensures
            r == class_hp_bonus_spec(self.spec_class()),
    {
        match self.class {
            CharacterClass::Fighter => 2,
            CharacterClass::Rogue => 0,
            CharacterClass::Cleric => 1,
            CharacterClass::Wizard => -2,
            CharacterClass::Ranger => 1,
            CharacterClass::Barbarian => 4,
        }
    }

    /// Armor class of the class's starting gear.
    pub fn class_ac(&self) -> (r: i32)
        ensures
            r == class_ac_spec(self.spec_class()),
    {
        match self.class {
            CharacterClass::Fighter => 16,
            CharacterClass::Rogue => 14,
            CharacterClass::Cleric => 15,
            CharacterClass::Wizard => 11,
            CharacterClass::Ranger => 14,
            CharacterClass::Barbarian => 13,
        }
    }

    /// Movement speed of the species, in speed units.
    pub fn species_movement_speed(&self) -> (r: i64)
        ensures
            r == species_speed_spec(self.spec_species()),
    {
        match self.species {
            Species::Human => 200_000,
            Species::Elf => 220_000,
            Species::Dwarf => 180_000,
            Species::Halfling => 190_000,
            Species::HalfOrc => 210_000,
            Species::Gnome => 180_000,
        }
    }

    /// Vision range of the species, in tiles.
    pub fn species_vision_range(&self) -> (r: u32)
        ensures
            r == species_vision_spec(self.spec_species()),
    {
        match self.species {
            Species::Elf => 24,
            _ => 20,
        }
    }

    /// Milliseconds between basic attacks for the class.
    pub fn class_attack_cooldown(&self) -> (r: u64)
        ensures
            r == class_attack_cooldown_spec(self.spec_class()),
    {
        match self.class {
            CharacterClass::Fighter => 800,
            CharacterClass::Rogue => 700,
            CharacterClass::Cleric => 1000,
            CharacterClass::Wizard => 1200,
            CharacterClass::Ranger => 1000,
            CharacterClass::Barbarian => 1100,
        }
    }
}

/// Dwarves shrug off part of every blow.
pub fn has_damage_resistance(species: Species) -> (r: bool)
    ensures
        r == (species is Dwarf),
{
    matches!(species, Species::Dwarf)
}

/// Damage after racial resistance: a dwarf takes one point less, but
/// never less than one; everyone else takes the damage unchanged.
pub fn apply_damage_resistance(damage: i32, species: Species) -> (r: i32)
    requires
        damage > i32::MIN,
    ensures
        species is Dwarf ==> r == if damage - 1 > 1 { damage - 1 } else { 1int },
        !(species is Dwarf) ==> r == damage,
{
    if has_damage_resistance(species) {
        let reduced: i32 = damage - 1;
        if reduced > 1 { reduced } else { 1 }
    } else {
        damage
    }
}

/// Halflings are lucky.
pub fn has_lucky(species: Species) -> (r: bool)
    ensures
        r == (species is Halfling),
{
    matches!(species, Species::Halfling)
}

/// A lucky species rerolls natural ones.
pub fn can_reroll_ones(roll: i32, species: Species) -> (r: bool)
    ensures
        r == ((species is Halfling) && roll == 1),
{
    has_lucky(species) && roll == 1
}

/// Half-orcs cling to life.
pub fn has_relentless_endurance(species: Species) -> (r: bool)
    ensures
        r == (species is HalfOrc),
{
    matches!(species, Species::HalfOrc)
}

/// Experience multiplier of a species, in percent: humans earn a tenth
/// more, everyone else the plain amount.
pub fn xp_bonus_percent(species: Species) -> (r: u32)
    ensures
        species is Human ==> r == 110,
        !(species is Human) ==> r == 100,
{
    match species {
        Species::Human => 110,
        _ => 100,
    }
}

/// The one cooldown-gated ability of each class.
#[derive(Debug, Clone, Copy, PartialEq, Eq, Structural)]
pub enum ClassAbility {
    SecondWind,
    SneakAttack,
    HealingWord,
    MagicMissile,
    HuntersMark,
    Rage,
}

/// Cooldown of an ability, in milliseconds.
pub open spec fn ability_cooldown_spec(ability: ClassAbility) -> int {
    match ability {
        ClassAbility::SecondWind => 60000,
        ClassAbility::SneakAttack => 10000,
        ClassAbility::HealingWord => 30000,
        ClassAbility::MagicMissile => 15000,
        ClassAbility::HuntersMark => 45000,
        ClassAbility::Rage => 60000,
    }
}

/// The ability belonging to each class.
pub open spec fn class_ability_spec(class: CharacterClass) -> ClassAbility {
    match class {
        CharacterClass::Fighter => ClassAbility::SecondWind,
        CharacterClass::Rogue => ClassAbility::SneakAttack,
        CharacterClass::Cleric => ClassAbility::HealingWord,
        CharacterClass::Wizard => ClassAbility::MagicMissile,
        CharacterClass::Ranger => ClassAbility::HuntersMark,
        CharacterClass::Barbarian => ClassAbility::Rage,
    }
}

impl ClassAbility {
    /// The ability a class can use.
    pub fn for_class(class: CharacterClass) -> (r: Self)
        ensures
            r == class_ability_spec(class),
    {
        match class {
            CharacterClass::Fighter => ClassAbility::SecondWind,
            CharacterClass::Rogue => ClassAbility::SneakAttack,
            CharacterClass::Cleric => ClassAbility::HealingWord,
            CharacterClass::Wizard => ClassAbility::MagicMissile,
            CharacterClass::Ranger => ClassAbility::HuntersMark,
            CharacterClass::Barbarian => ClassAbility::Rage,
        }
    }

    /// Milliseconds before this ability can be used again.
    pub fn cooldown_ms(&self) -> (r: u64)
        ensures
            r == ability_cooldown_spec(*self),
    {
        match self {
            ClassAbility::SecondWind => 60000,
            ClassAbility::SneakAttack => 10000,
            ClassAbility::HealingWord => 30000,
            ClassAbility::MagicMissile => 15000,
            ClassAbility::HuntersMark => 45000,
            ClassAbility::Rage => 60000,
        }
    }

    /// The ability's display name.
    pub fn name(&self) -> (r: &'static str)
        ensures
            *self is SecondWind ==> r@ == "Second Wind"@,
            *self is SneakAttack ==> r@ == "Sneak Attack"@,
            *self is HealingWord ==> r@ == "Healing Word"@,
            *self is MagicMissile ==> r@ == "Magic Missile"@,
            *self is HuntersMark ==> r@ == "Hunter's Mark"@,
            *self is Rage ==> r@ == "Rage"@,
    {
        match self {
            ClassAbility::SecondWind => "Second Wind",
            ClassAbility::SneakAttack => "Sneak Attack",
            ClassAbility::HealingWord => "Healing Word",
            ClassAbility::MagicMissile => "Magic Missile",
            ClassAbility::HuntersMark => "Hunter's Mark",
            ClassAbility::Rage => "Rage",
        }
    }
}

/// Parse a species name from the wire; exactly the six species names
/// are accepted.
pub fn parse_species(name: &str) -> (r: Option<Species>)
    ensures
        r == if name@ == "Human"@ { Some(Species::Human) }
            else if name@ == "Elf"@ { Some(Species::Elf) }
            else if name@ == "Dwarf"@ { Some(Species::Dwarf) }
            else if name@ == "Halfling"@ { Some(Species::Halfling) }
            else if name@ == "HalfOrc"@ { Some(Species::HalfOrc) }
            else if name@ == "Gnome"@ { Some(Species::Gnome) }
            else { None::<Species> },
{
    if crate::text::str_eq(name, "Human") { Some(Species::Human) }
    else if crate::text::str_eq(name, "Elf") { Some(Species::Elf) }
    else if crate::text::str_eq(name, "Dwarf") { Some(Species::Dwarf) }
    else if crate::text::str_eq(name, "Halfling") { Some(Species::Halfling) }
    else if crate::text::str_eq(name, "HalfOrc") { Some(Species::HalfOrc) }
    else if crate::text::str_eq(name, "Gnome") { Some(Species::Gnome) }
    else { None }
}

/// Parse a class name from the wire; exactly the six class names are
/// accepted.
pub fn parse_class(name: &str) -> (r: Option<CharacterClass>)
    ensures
        r == if name@ == "Fighter"@ { Some(CharacterClass::Fighter) }
            else if name@ == "Rogue"@ { Some(CharacterClass::Rogue) }
            else if name@ == "Cleric"@ { Some(CharacterClass::Cleric) }
            else if name@ == "Wizard"@ { Some(CharacterClass::Wizard) }
            else if name@ == "Ranger"@ { Some(CharacterClass::Ranger) }
            else if name@ == "Barbarian"@ { Some(CharacterClass::Barbarian) }
            else { None::<CharacterClass> },
{
    if crate::text::str_eq(name, "Fighter") { Some(CharacterClass::Fighter) }
    else if crate::text::str_eq(name, "Rogue") { Some(CharacterClass::Rogue) }
    else if crate::text::str_eq(name, "Cleric") { Some(CharacterClass::Cleric) }
    else if crate::text::str_eq(name, "Wizard") { Some(CharacterClass::Wizard) }
    else if crate::text::str_eq(name, "Ranger") { Some(CharacterClass::Ranger) }
    else if crate::text::str_eq(name, "Barbarian") { Some(CharacterClass::Barbarian) }
    else { None }
}

} // verus!
