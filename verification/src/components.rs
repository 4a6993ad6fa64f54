//! Component types attached to world entities, and the item, equipment
//! and monster data they carry.
//!
//! Coordinates are in position units (`units::POS_SCALE` per pixel),
//! speeds in speed units (`units::SPEED_SCALE` per pixel per second),
//! durations and timestamps in milliseconds from server start.  Fractional
//! quantities of the game rules (drop chances, penalties, bonuses) are
//! stored in thousandths (permille) or hundredths (percent), as named.

use vstd::prelude::*;

verus! {

/// Stable handle of a world entity, valid until the entity despawns.
pub type EntityId = u32;

/// World position, in position units.
#[derive(Debug, Clone, Copy, PartialEq, Eq, Structural)]
pub struct Position {
    pub x: i64,
    pub y: i64,
}

/// Velocity, in speed units per second; one tick advances a position by
/// exactly this many position units.
#[derive(Debug, Clone, Copy, PartialEq, Eq, Structural)]
pub struct Velocity {
    pub dx: i64,
    pub dy: i64,
}

/// Hit points; an entity is dead when `current` reaches zero.
#[derive(Debug, Clone, Copy, PartialEq, Eq, Structural)]
pub struct Health {
    pub current: i32,
    pub max: i32,
}

impl Health {
    /// Hit points never drop below zero nor exceed the maximum.
    pub open spec fn wf(self) -> bool {
        0 <= self.current <= self.max
    }
}

/// The six ability scores.
#[derive(Debug, Clone, Copy, PartialEq, Eq, Structural)]
pub struct Stats {
    pub str: i32,
    pub dex: i32,
    pub con: i32,
    pub int: i32,
    pub wis: i32,
    pub cha: i32,
}

#[derive(Debug, Clone, Copy, PartialEq, Eq, Structural)]
pub enum Species {
    Human,
    Elf,
    Dwarf,
    Halfling,
    HalfOrc,
    Gnome,
}

#[derive(Debug, Clone, Copy, PartialEq, Eq, Structural)]
pub enum CharacterClass {
    Fighter,
    Rogue,
    Cleric,
    Wizard,
    Ranger,
    Barbarian,
}

/// Species, class, level and accumulated experience of a character.
#[derive(Debug, Clone, Copy, PartialEq, Eq, Structural)]
pub struct Character {
    pub species: Species,
    pub class: CharacterClass,
    pub level: u32,
    pub experience: u64,
}

/// Marks an entity as controlled by the client of `connection_id`.
#[derive(Debug, Clone)]
pub struct Player {
    pub name: String,
    pub connection_id: u64,
}

#[derive(Debug, Clone)]
pub struct Sprite {
    pub sprite_id: String,
}

/// Circular collider radius, in pixels.
#[derive(Debug, Clone, Copy, PartialEq, Eq, Structural)]
pub struct Collider {
    pub radius: u32,
}

#[derive(Debug, Clone, Copy, PartialEq, Eq, Structural)]
pub struct ArmorClass {
    pub value: i32,
}

/// Movement speed in speed units (thousandths of a pixel per second).
#[derive(Debug, Clone, Copy, PartialEq, Eq, Structural)]
pub struct MovementSpeed {
    pub speed_units: i64,
}

/// Vision range in tiles.
#[derive(Debug, Clone, Copy, PartialEq, Eq, Structural)]
pub struct VisionRange {
    pub tiles: u32,
}

/// Timestamps (milliseconds) of the last attack and last ability use.
#[derive(Debug, Clone, Copy, PartialEq, Eq, Structural)]
pub struct Cooldowns {
    pub attack: Option<u64>,
    pub ability: Option<u64>,
}

impl Default for Cooldowns {
    /// A fresh entity has used neither its attack nor its ability.
    fn default() -> (r: Self)
        ensures
            r.attack is None,
            r.ability is None,
    {
        Cooldowns { attack: None, ability: None }
    }
}

/// Milliseconds that must pass between two attacks.
#[derive(Debug, Clone, Copy, PartialEq, Eq, Structural)]
pub struct AttackSpeed {
    pub cooldown_ms: u64,
}

#[derive(Debug, Clone, Copy, PartialEq, Eq, Structural)]
pub enum AIBehavior {
    Idle,
    Hostile { target: Option<EntityId> },
}

#[derive(Debug, Clone, Copy, PartialEq, Eq, Structural)]
pub struct AI {
    pub behavior: AIBehavior,
}

#[derive(Debug, Clone, Copy, PartialEq, Eq, Structural)]
pub enum AbilityEffect {
    Heal { amount: i32 },
    Damage { amount: i32 },
    Buff { duration_ms: u64 },
}

#[derive(Debug, Clone, Copy, PartialEq, Eq, Structural)]
pub struct ActiveAbility {
    pub effect: AbilityEffect,
    pub expires_at: u64,
}

#[derive(Debug, Clone, Copy, PartialEq, Eq, Structural)]
pub enum MonsterType {
    GiantRat,
    Goblin,
    Skeleton,
    Wolf,
    OrcWarrior,
    Zombie,
    GiantSpider,
    Hobgoblin,
    Ogre,
    Wight,
    Troll,
    YoungDragon,
    Lich,
    DemonLord,
}

#[derive(Debug, Clone, Copy, PartialEq, Eq, Structural)]
pub struct Monster {
    pub monster_type: MonsterType,
    pub level: u32,
    pub xp_reward: u64,
}

/// Distance, in tiles, at which a monster notices enemies.
#[derive(Debug, Clone, Copy, PartialEq, Eq, Structural)]
pub struct DetectionRange {
    pub tiles: u32,
}

/// Origin a monster roams around and returns to, in position units.
#[derive(Debug, Clone, Copy, PartialEq, Eq, Structural)]
pub struct SpawnPoint {
    pub x: i64,
    pub y: i64,
    pub max_distance: i64,
}

#[derive(Debug, Clone, Copy, PartialEq, Eq, Structural)]
pub enum AIState {
    Idle,
    Patrol,
    Chase,
    Attack,
    Flee,
    Dead,
}

#[derive(Debug, Clone, Copy, PartialEq, Eq, Structural)]
pub struct AIController {
    pub state: AIState,
    pub target: Option<EntityId>,
    pub last_seen_position: Option<Position>,
    /// Milliseconds spent chasing the current target.
    pub chase_timer_ms: u64,
}

impl Default for AIController {
    /// A fresh controller idles with no target.
    fn default() -> (r: Self)
        ensures
            r.state is Idle,
            r.target is None,
            r.last_seen_position is None,
            r.chase_timer_ms == 0,
    {
        AIController { state: AIState::Idle, target: None, last_seen_position: None, chase_timer_ms: 0 }
    }
}

#[derive(Debug, Clone, Copy, PartialEq, Eq, Structural)]
pub enum MonsterTrait {
    PackCreature,
    UndeadResilience,
    PackTactics,
    UndeadFortitude,
    WebAttack,
    MartialAdvantage,
    PowerfulBuild,
    UndeadCommander,
    Regeneration,
    KeenSmell,
    DragonScales,
    FrightfulPresence,
    MagicResistance,
    Phylactery,
    DemonResilience,
    AuraOfTerror,
}

#[derive(Debug, Clone)]
pub struct MonsterTraits {
    pub traits: Vec<MonsterTrait>,
}

/// One possible drop: the chance is in thousandths.
#[derive(Debug, Clone)]
pub struct LootDrop {
    pub item_id: String,
    pub quantity: u32,
    pub chance_permille: u32,
}

#[derive(Debug, Clone)]
pub struct LootTable {
    pub drops: Vec<LootDrop>,
    pub guaranteed_copper_min: u32,
    pub guaranteed_copper_max: u32,
}

#[derive(Debug, Clone, Copy, PartialEq, Eq, Structural)]
pub enum StatusEffect {
    Slowed,
    Poisoned,
    Stunned,
    Knockback,
    Burning,
    Frozen,
}

/// One running status effect: its kind, when it started, how long it lasts.
#[derive(Debug, Clone, Copy, PartialEq, Eq, Structural)]
pub struct ActiveStatusEffect {
    pub effect: StatusEffect,
    pub started_at: u64,
    pub duration_ms: u64,
}

/// The status effects running on an entity.
#[derive(Debug, Clone)]
pub struct StatusEffects {
    pub effects: Vec<ActiveStatusEffect>,
}

impl Default for StatusEffects {
    /// A fresh entity carries no status effects.
    fn default() -> (r: Self)
        ensures
            r.effects@.len() == 0,
    {
        StatusEffects { effects: Vec::new() }
    }
}

#[derive(Debug, Clone, Copy, PartialEq, Eq, Structural)]
pub struct Regeneration {
    pub hp_per_second: i32,
    pub disabled_until: Option<u64>,
}

/// Marks a boss monster; bosses respawn on a much longer cooldown.
#[derive(Debug, Clone, Copy, PartialEq, Eq, Structural)]
pub struct Boss {
    pub respawn_cooldown_hours: u32,
}

/// A pick-up item lying in the world.
#[derive(Debug, Clone)]
pub struct Item {
    pub item_id: String,
    pub quantity: u32,
}

#[derive(Debug, Clone, Copy, PartialEq, Eq, Structural)]
pub enum ItemType {
    Weapon,
    Armor,
    Shield,
    Helmet,
    Accessory,
    Consumable,
    Material,
    Quest,
    Currency,
}

#[derive(Debug, Clone, Copy, PartialEq, Eq, Structural)]
pub enum ItemRarity {
    Common,
    Uncommon,
    Rare,
    Epic,
    Legendary,
}

#[derive(Debug, Clone, Copy, PartialEq, Eq, Structural)]
pub enum WeaponType {
    Dagger,
    Shortsword,
    Longsword,
    Mace,
    Battleaxe,
    Warhammer,
    Greatsword,
    Greataxe,
    Maul,
    Quarterstaff,
    Shortbow,
    Longbow,
    LightCrossbow,
    HeavyCrossbow,
    Wand,
    Staff,
}

#[derive(Debug, Clone, Copy, PartialEq, Eq, Structural)]
pub enum ArmorType {
    ClothRobes,
    PaddedArmor,
    LeatherArmor,
    StuddedLeather,
    HideArmor,
    ChainShirt,
    ScaleMail,
    Breastplate,
    RingMail,
    ChainMail,
    SplintArmor,
    PlateArmor,
}

#[derive(Debug, Clone, Copy, PartialEq, Eq, Structural)]
pub enum ShieldType {
    Buckler,
    Standard,
    Tower,
}

#[derive(Debug, Clone, Copy, PartialEq, Eq, Structural)]
pub enum HelmetType {
    ClothCap,
    LeatherCap,
    ChainCoif,
    SteelHelm,
    GreatHelm,
}

#[derive(Debug, Clone, Copy, PartialEq, Eq, Structural)]
pub enum AccessoryType {
    RingOfProtection,
    AmuletOfHealth,
    RingOfStrength,
    RingOfDexterity,
    RingOfConstitution,
    CloakOfResistance,
    BootsOfSpeed,
    GlovesOfOgrePower,
    HeadbandOfIntellect,
    PeriaptOfWisdom,
    RingOfRegeneration,
    AmuletOfLifeDrain,
    RingOfFireResistance,
    RingOfSpellStoring,
    BootsOfElvenkind,
    CloakOfInvisibility,
    BeltOfGiantStrength,
    RingOfFeatherFalling,
    AmuletOfTheDevout,
    RingOfEvasion,
}

#[derive(Debug, Clone, Copy, PartialEq, Eq, Structural)]
pub enum Enchantment {
    Plus1,
    Plus2,
    Plus3,
    Flaming,
    Frost,
    Shock,
    Vampiric,
    Keen,
    Holy,
    Venom,
    Mighty,
    Swift,
    Reach,
    FireResistance,
    ColdResistance,
    LightningResistance,
    Fortification,
    Shadow,
    Speed,
    Radiant,
    Thorns,
    Featherweight,
    Absorbing,
}

/// A damage roll: `count` dice of `sides` sides each.
#[derive(Debug, Clone, Copy, PartialEq, Eq, Structural)]
pub struct DamageDice {
    pub count: u32,
    pub sides: u32,
}

/// Weapon stat block.  The attack cooldown is in milliseconds and the
/// range in tenths of a tile.
#[derive(Debug, Clone)]
pub struct WeaponStats {
    pub weapon_type: WeaponType,
    pub damage_dice: DamageDice,
    pub damage_bonus: i32,
    pub attack_speed_ms: u64,
    pub range_decitiles: u32,
    pub is_two_handed: bool,
    pub is_finesse: bool,
    pub is_versatile: bool,
    pub versatile_damage: Option<DamageDice>,
    pub str_requirement: Option<i32>,
    pub enchantments: Vec<Enchantment>,
}

/// Armor stat block.  The movement penalty is in percent of speed.
#[derive(Debug, Clone)]
pub struct ArmorStats {
    pub armor_type: ArmorType,
    pub base_ac: i32,
    pub dex_bonus_cap: Option<i32>,
    pub movement_penalty_percent: u32,
    pub weight: u32,
    pub str_requirement: Option<i32>,
    pub stealth_disadvantage: bool,
    pub enchantments: Vec<Enchantment>,
}

#[derive(Debug, Clone)]
pub struct ShieldStats {
    pub shield_type: ShieldType,
    pub ac_bonus: i32,
    pub weight: u32,
    pub str_requirement: Option<i32>,
    pub movement_penalty_percent: u32,
    pub enchantments: Vec<Enchantment>,
}

/// Helmet stat block.  The vision penalty is in percent of vision range.
#[derive(Debug, Clone)]
pub struct HelmetStats {
    pub helmet_type: HelmetType,
    pub ac_bonus: i32,
    pub str_requirement: Option<i32>,
    pub vision_penalty_percent: u32,
    pub enchantments: Vec<Enchantment>,
}

/// Accessory bonuses.  Percentages are in whole percent.
#[derive(Debug, Clone, Copy, PartialEq, Eq, Structural)]
pub struct AccessoryEffects {
    pub ac_bonus: i32,
    pub hp_bonus: i32,
    pub str_bonus: i32,
    pub dex_bonus: i32,
    pub con_bonus: i32,
    pub int_bonus: i32,
    pub wis_bonus: i32,
    pub cha_bonus: i32,
    pub movement_speed_bonus_percent: u32,
    pub hp_regen_per_5s: i32,
    pub lifesteal_percent: u32,
    pub fire_resistance_percent: u32,
    pub evasion_chance_percent: u32,
}

impl Default for AccessoryEffects {
    /// All bonuses zero.
    fn default() -> (r: Self)
        ensures
            r == (AccessoryEffects {
                ac_bonus: 0, hp_bonus: 0, str_bonus: 0, dex_bonus: 0, con_bonus: 0,
                int_bonus: 0, wis_bonus: 0, cha_bonus: 0, movement_speed_bonus_percent: 0,
                hp_regen_per_5s: 0, lifesteal_percent: 0, fire_resistance_percent: 0,
                evasion_chance_percent: 0,
            }),
    {
        AccessoryEffects {
            ac_bonus: 0, hp_bonus: 0, str_bonus: 0, dex_bonus: 0, con_bonus: 0,
            int_bonus: 0, wis_bonus: 0, cha_bonus: 0, movement_speed_bonus_percent: 0,
            hp_regen_per_5s: 0, lifesteal_percent: 0, fire_resistance_percent: 0,
            evasion_chance_percent: 0,
        }
    }
}

#[derive(Debug, Clone, Copy, PartialEq, Eq, Structural)]
pub struct AccessoryStats {
    pub accessory_type: AccessoryType,
    pub effects: AccessoryEffects,
}

/// What a character has equipped, slot by slot.
#[derive(Debug, Clone)]
pub struct Equipment {
    pub main_hand: Option<EquippedItem>,
    pub off_hand: Option<EquippedItem>,
    pub armor: Option<EquippedItem>,
    pub helmet: Option<EquippedItem>,
    pub accessory1: Option<EquippedItem>,
    pub accessory2: Option<EquippedItem>,
}

impl Default for Equipment {
    /// Every slot empty.
    fn default() -> (r: Self)
        ensures
            r.main_hand is None,
            r.off_hand is None,
            r.armor is None,
            r.helmet is None,
            r.accessory1 is None,
            r.accessory2 is None,
    {
        Equipment {
            main_hand: None,
            off_hand: None,
            armor: None,
            helmet: None,
            accessory1: None,
            accessory2: None,
        }
    }
}

#[derive(Debug, Clone)]
pub struct EquippedItem {
    pub item_id: String,
    pub rarity: ItemRarity,
    pub stats: ItemStats,
}

#[derive(Debug, Clone)]
pub enum ItemStats {
    Weapon(WeaponStats),
    Armor(ArmorStats),
    Shield(ShieldStats),
    Helmet(HelmetStats),
    Accessory(AccessoryStats),
}

#[derive(Debug, Clone)]
pub struct Inventory {
    pub items: Vec<InventoryItem>,
    pub capacity: usize,
}

impl Inventory {
    /// An inventory never holds more items than its capacity.
    pub open spec fn wf(self) -> bool {
        self.items@.len() <= self.capacity
    }
}

impl Default for Inventory {
    /// Empty, with the default capacity of twenty slots.
    fn default() -> (r: Self)
        ensures
            r.items@.len() == 0,
            r.capacity == 20,
            r.wf(),
    {
        Inventory { items: Vec::new(), capacity: 20 }
    }
}

#[derive(Debug, Clone)]
pub struct InventoryItem {
    pub item_id: String,
    pub quantity: u32,
    pub rarity: ItemRarity,
    pub identified: bool,
    pub stats: Option<ItemStats>,
}

} // verus!
