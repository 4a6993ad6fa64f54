//! The equipment calculator: how worn gear turns base values into
//! effective armor class, ability scores, hit points, speed and combat
//! numbers.

use vstd::prelude::*;
use crate::components::{
    DamageDice, Enchantment, Equipment, EquippedItem, ItemStats, Stats,
};

verus! {

/// Every numeric bonus or penalty an equipped item carries stays within
/// plus or minus a thousand (penalties within zero and a hundred), so
/// the calculator's sums cannot overflow.
pub open spec fn item_bounded(it: EquippedItem) -> bool {
    match it.stats {
        ItemStats::Weapon(w) => -1000 <= w.damage_bonus <= 1000,
        ItemStats::Armor(a) => -1000 <= a.base_ac <= 1000
            && a.movement_penalty_percent <= 100
            && (a.dex_bonus_cap matches Some(c) ==> -1000 <= c <= 1000),
        ItemStats::Shield(s) => -1000 <= s.ac_bonus <= 1000
            && s.movement_penalty_percent <= 100,
        ItemStats::Helmet(h) => -1000 <= h.ac_bonus <= 1000,
        ItemStats::Accessory(a) => {
            let e = a.effects;
            &&& -1000 <= e.ac_bonus <= 1000
            &&& -1000 <= e.hp_bonus <= 1000
            &&& -1000 <= e.str_bonus <= 1000
            &&& -1000 <= e.dex_bonus <= 1000
            &&& -1000 <= e.con_bonus <= 1000
            &&& -1000 <= e.int_bonus <= 1000
            &&& -1000 <= e.wis_bonus <= 1000
            &&& -1000 <= e.cha_bonus <= 1000
            &&& e.movement_speed_bonus_percent <= 1000
            &&& -1000 <= e.hp_regen_per_5s <= 1000
            &&& e.lifesteal_percent <= 1000
            &&& e.evasion_chance_percent <= 1000
        },
    }
}

/// Every filled slot of `eq` is bounded.
pub open spec fn equipment_bounded(eq: Equipment) -> bool {
    &&& (eq.main_hand matches Some(i) ==> item_bounded(i))
    &&& (eq.off_hand matches Some(i) ==> item_bounded(i))
    &&& (eq.armor matches Some(i) ==> item_bounded(i))
    &&& (eq.helmet matches Some(i) ==> item_bounded(i))
    &&& (eq.accessory1 matches Some(i) ==> item_bounded(i))
    &&& (eq.accessory2 matches Some(i) ==> item_bounded(i))
}

/// The accessory effects of a slot, or all zeroes when the slot holds
/// no accessory.
pub open spec fn slot_accessory_ac(slot: Option<EquippedItem>) -> int {
    match slot {
        Some(it) => match it.stats {
            ItemStats::Accessory(a) => a.effects.ac_bonus as int,
            _ => 0,
        },
        None => 0,
    }
}

/// The armor class `eq` yields over a base value: worn armor replaces
/// the base and caps the dexterity contribution, a bare torso keeps base
/// plus full dexterity, and shield, helmet and accessories add on top.
pub open spec fn calculate_ac_spec(base_ac: int, dex_modifier: int, eq: Equipment) -> int {
    let armor_part = match eq.armor {
        Some(it) => match it.stats {
            ItemStats::Armor(a) => a.base_ac + (match a.dex_bonus_cap {
                None => dex_modifier,
                Some(cap) => if dex_modifier < cap { dex_modifier } else { cap as int },
            }),
            _ => base_ac + dex_modifier,
        },
        None => base_ac + dex_modifier,
    };
    let shield_part = match eq.off_hand {
        Some(it) => match it.stats {
            ItemStats::Shield(s) => s.ac_bonus as int,
            _ => 0,
        },
        None => 0,
    };
    let helmet_part = match eq.helmet {
        Some(it) => match it.stats {
            ItemStats::Helmet(h) => h.ac_bonus as int,
            _ => 0,
        },
        None => 0,
    };
    armor_part + shield_part + helmet_part
        + slot_accessory_ac(eq.accessory1) + slot_accessory_ac(eq.accessory2)
}

/// Calculates final stats from base values and equipment bonuses.
pub struct EquipmentCalculator;

impl EquipmentCalculator {
    /// Effective armor class from base, dexterity modifier and the worn
    /// gear.
    pub fn calculate_ac(base_ac: i32, dex_modifier: i32, equipment: &Equipment) -> (r: i32)
        requires
            -100_000 <= base_ac <= 100_000,
            -100_000 <= dex_modifier <= 100_000,
            equipment_bounded(*equipment),
        ensures
            r == calculate_ac_spec(base_ac as int, dex_modifier as int, *equipment),
    {
        let mut total_ac: i32;
        match &equipment.armor {
            Some(armor_item) => {
                match &armor_item.stats {
                    ItemStats::Armor(armor) => {
                        total_ac = armor.base_ac;
                        let dex_contribution: i32 = match armor.dex_bonus_cap {
                            None => dex_modifier,
                            Some(cap) => if dex_modifier < cap { dex_modifier } else { cap },
                        };
                        total_ac = total_ac + dex_contribution;
                    }
                    _ => {
                        total_ac = base_ac + dex_modifier;
                    }
                }
            }
            None => {
                total_ac = base_ac + dex_modifier;
            }
        }
        match &equipment.off_hand {
            Some(shield_item) => {
                match &shield_item.stats {
                    ItemStats::Shield(shield) => {
                        total_ac = total_ac + shield.ac_bonus;
                    }
                    _ => {}
                }
            }
            None => {}
        }
        match &equipment.helmet {
            Some(helmet_item) => {
                match &helmet_item.stats {
                    ItemStats::Helmet(helmet) => {
                        total_ac = total_ac + helmet.ac_bonus;
                    }
                    _ => {}
                }
            }
            None => {}
        }
        match &equipment.accessory1 {
            Some(accessory) => {
                match &accessory.stats {
                    ItemStats::Accessory(acc) => {
                        total_ac = total_ac + acc.effects.ac_bonus;
                    }
                    _ => {}
                }
            }
            None => {}
        }
        match &equipment.accessory2 {
            Some(accessory) => {
                match &accessory.stats {
                    ItemStats::Accessory(acc) => {
                        total_ac = total_ac + acc.effects.ac_bonus;
                    }
                    _ => {}
                }
            }
            None => {}
        }
        total_ac
    }

    /// A score raised by the two accessory slots' bonuses, then capped
    /// at twenty.
    pub fn calculate_stats(base_stats: &Stats, equipment: &Equipment) -> (r: Stats)
        requires
            -100_000 <= base_stats.str <= 100_000,
            -100_000 <= base_stats.dex <= 100_000,
            -100_000 <= base_stats.con <= 100_000,
            -100_000 <= base_stats.int <= 100_000,
            -100_000 <= base_stats.wis <= 100_000,
            -100_000 <= base_stats.cha <= 100_000,
            equipment_bounded(*equipment),
        ensures
            r.str == capped20(base_stats.str + acc_bonus_str(*equipment)),
            r.dex == capped20(base_stats.dex + acc_bonus_dex(*equipment)),
            r.con == capped20(base_stats.con + acc_bonus_con(*equipment)),
            r.int == capped20(base_stats.int + acc_bonus_int(*equipment)),
            r.wis == capped20(base_stats.wis + acc_bonus_wis(*equipment)),
            r.cha == capped20(base_stats.cha + acc_bonus_cha(*equipment)),
    {
        let mut final_stats: Stats = *base_stats;
        let (b1, b2) = (slot_effects(&equipment.accessory1), slot_effects(&equipment.accessory2));
        final_stats.str = final_stats.str + b1.0 + b2.0;
        final_stats.dex = final_stats.dex + b1.1 + b2.1;
        final_stats.con = final_stats.con + b1.2 + b2.2;
        final_stats.int = final_stats.int + b1.3 + b2.3;
        final_stats.wis = final_stats.wis + b1.4 + b2.4;
        final_stats.cha = final_stats.cha + b1.5 + b2.5;
        final_stats.str = if final_stats.str < 20 { final_stats.str } else { 20 };
        final_stats.dex = if final_stats.dex < 20 { final_stats.dex } else { 20 };
        final_stats.con = if final_stats.con < 20 { final_stats.con } else { 20 };
        final_stats.int = if final_stats.int < 20 { final_stats.int } else { 20 };
        final_stats.wis = if final_stats.wis < 20 { final_stats.wis } else { 20 };
        final_stats.cha = if final_stats.cha < 20 { final_stats.cha } else { 20 };
        final_stats
    }

    /// Maximum hit points raised by accessory bonuses, floored at one.
    pub fn calculate_max_hp(base_hp: i32, equipment: &Equipment) -> (r: i32)
        requires
            -100_000 <= base_hp <= 100_000,
            equipment_bounded(*equipment),
        ensures
            r == floor1(base_hp + acc_bonus_hp(*equipment)),
    {
        let b1 = slot_hp_bonus(&equipment.accessory1);
        let b2 = slot_hp_bonus(&equipment.accessory2);
        let total_hp: i32 = base_hp + b1 + b2;
        if total_hp > 1 { total_hp } else { 1 }
    }

    /// Movement speed (in speed units) after the armor and shield
    /// penalties and the accessory bonuses, floored at fifty pixels per
    /// second.  Armor enchanted for Speed loses its penalty.
    pub fn calculate_movement_speed(base_speed: i64, equipment: &Equipment) -> (r: i64)
        requires
            0 <= base_speed <= crate::units::SPEED_LIMIT,
            equipment_bounded(*equipment),
        ensures
            r == speed_spec(base_speed as int, *equipment),
            r >= 50_000,
    {
        let mut final_speed: i64 = base_speed;
        match &equipment.armor {
            Some(armor_item) => {
                match &armor_item.stats {
                    ItemStats::Armor(armor) => {
                        if !ench_contains(&armor.enchantments, Enchantment::Speed) {
                            final_speed = apply_pct(final_speed,
                                100 - armor.movement_penalty_percent as i64);
                        }
                    }
                    _ => {}
                }
            }
            None => {}
        }
        match &equipment.off_hand {
            Some(shield_item) => {
                match &shield_item.stats {
                    ItemStats::Shield(shield) => {
                        final_speed = apply_pct(final_speed,
                            100 - shield.movement_penalty_percent as i64);
                    }
                    _ => {}
                }
            }
            None => {}
        }
        match &equipment.accessory1 {
            Some(accessory) => {
                match &accessory.stats {
                    ItemStats::Accessory(acc) => {
                        final_speed = apply_pct(final_speed,
                            100 + acc.effects.movement_speed_bonus_percent as i64);
                    }
                    _ => {}
                }
            }
            None => {}
        }
        match &equipment.accessory2 {
            Some(accessory) => {
                match &accessory.stats {
                    ItemStats::Accessory(acc) => {
                        final_speed = apply_pct(final_speed,
                            100 + acc.effects.movement_speed_bonus_percent as i64);
                    }
                    _ => {}
                }
            }
            None => {}
        }
        if final_speed > 50_000 { final_speed } else { 50_000 }
    }

    /// The attack cooldown of the wielded weapon, in milliseconds.
    pub fn get_attack_speed(equipment: &Equipment) -> (r: Option<u64>)
        ensures
            r == match equipment.main_hand {
                Some(it) => match it.stats {
                    ItemStats::Weapon(w) => Some(w.attack_speed_ms),
                    _ => None::<u64>,
                },
                None => None::<u64>,
            },
    {
        match &equipment.main_hand {
            Some(weapon_item) => {
                match &weapon_item.stats {
                    ItemStats::Weapon(weapon) => Some(weapon.attack_speed_ms),
                    _ => None,
                }
            }
            None => None,
        }
    }

    /// The damage dice and flat bonus of the wielded weapon; a versatile
    /// weapon held in both hands uses its two-handed dice.
    pub fn get_weapon_damage(equipment: &Equipment, wielding_two_handed: bool)
        -> (r: Option<(DamageDice, i32)>)
        ensures
            r == match equipment.main_hand {
                Some(it) => match it.stats {
                    ItemStats::Weapon(w) => Some((
                        if wielding_two_handed && w.is_versatile {
                            match w.versatile_damage {
                                Some(d) => d,
                                None => w.damage_dice,
                            }
                        } else {
                            w.damage_dice
                        },
                        w.damage_bonus,
                    )),
                    _ => None::<(DamageDice, i32)>,
                },
                None => None::<(DamageDice, i32)>,
            },
    {
        match &equipment.main_hand {
            Some(weapon_item) => {
                match &weapon_item.stats {
                    ItemStats::Weapon(weapon) => {
                        let dice: DamageDice = if wielding_two_handed && weapon.is_versatile {
                            match weapon.versatile_damage {
                                Some(d) => d,
                                None => weapon.damage_dice,
                            }
                        } else {
                            weapon.damage_dice
                        };
                        Some((dice, weapon.damage_bonus))
                    }
                    _ => None,
                }
            }
            None => None,
        }
    }

    /// Whether the wielded weapon strikes by dexterity.
    pub fn is_weapon_finesse(equipment: &Equipment) -> (r: bool)
        ensures
            r == match equipment.main_hand {
                Some(it) => match it.stats {
                    ItemStats::Weapon(w) => w.is_finesse,
                    _ => false,
                },
                None => false,
            },
    {
        match &equipment.main_hand {
            Some(weapon_item) => {
                match &weapon_item.stats {
                    ItemStats::Weapon(weapon) => weapon.is_finesse,
                    _ => false,
                }
            }
            None => false,
        }
    }

    /// The reach of the wielded weapon in tenths of a tile; bare hands
    /// reach a tile and a half.
    pub fn get_weapon_range(equipment: &Equipment) -> (r: u32)
        ensures
            r == match equipment.main_hand {
                Some(it) => match it.stats {
                    ItemStats::Weapon(w) => w.range_decitiles as int,
                    _ => 15,
                },
                None => 15,
            },
    {
        match &equipment.main_hand {
            Some(weapon_item) => {
                match &weapon_item.stats {
                    ItemStats::Weapon(weapon) => weapon.range_decitiles,
                    _ => 15,
                }
            }
            None => 15,
        }
    }

    /// Life steal in percent: the accessories' bonuses, plus fifty for a
    /// vampiric weapon.
    pub fn get_lifesteal_percent(equipment: &Equipment) -> (r: u32)
        requires
            equipment_bounded(*equipment),
        ensures
            r == acc_lifesteal(equipment.accessory1) + acc_lifesteal(equipment.accessory2)
                + (if weapon_vampiric(*equipment) { 50int } else { 0int }),
    {
        let mut total: u32 = slot_lifesteal(&equipment.accessory1)
            + slot_lifesteal(&equipment.accessory2);
        match &equipment.main_hand {
            Some(weapon_item) => {
                match &weapon_item.stats {
                    ItemStats::Weapon(weapon) => {
                        if ench_contains(&weapon.enchantments, Enchantment::Vampiric) {
                            total = total + 50;
                        }
                    }
                    _ => {}
                }
            }
            None => {}
        }
        total
    }

    /// Evasion chance in percent from the accessories, capped at
    /// seventy-five.
    pub fn get_evasion_chance(equipment: &Equipment) -> (r: u32)
        requires
            equipment_bounded(*equipment),
        ensures
            r == ({
                let total = acc_evasion(equipment.accessory1) + acc_evasion(equipment.accessory2);
                if total < 75 { total } else { 75int }
            }),
    {
        let total: u32 = slot_evasion(&equipment.accessory1) + slot_evasion(&equipment.accessory2);
        if total < 75 { total } else { 75 }
    }

    /// Hit points regained each five seconds from the accessories.
    pub fn get_hp_regen_per_5s(equipment: &Equipment) -> (r: i32)
        requires
            equipment_bounded(*equipment),
        ensures
            r == acc_regen(equipment.accessory1) + acc_regen(equipment.accessory2),
    {
        slot_regen(&equipment.accessory1) + slot_regen(&equipment.accessory2)
    }

    /// Whether `stats` meets the strength demands of every equipped
    /// piece.
    pub fn meets_requirements(stats: &Stats, equipment: &Equipment) -> (r: bool)
        ensures
            r == (slot_str_ok(stats.str as int, equipment.main_hand)
                && slot_str_ok(stats.str as int, equipment.armor)
                && slot_str_ok(stats.str as int, equipment.off_hand)
                && slot_str_ok(stats.str as int, equipment.helmet)),
    {
        let ok_weapon = check_slot_str(stats.str, &equipment.main_hand);
        let ok_armor = check_slot_str(stats.str, &equipment.armor);
        let ok_shield = check_slot_str(stats.str, &equipment.off_hand);
        let ok_helmet = check_slot_str(stats.str, &equipment.helmet);
        ok_weapon && ok_armor && ok_shield && ok_helmet
    }
}

/// An integer capped at twenty.
pub open spec fn capped20(v: int) -> int {
    if v < 20 { v } else { 20 }
}

/// An integer floored at one.
pub open spec fn floor1(v: int) -> int {
    if v > 1 { v } else { 1 }
}

/// The strength bonus of an accessory slot.
pub open spec fn acc_bonus_str(eq: Equipment) -> int {
    acc_field(eq.accessory1, 0) + acc_field(eq.accessory2, 0)
}

/// The dexterity bonus of the accessory slots.
pub open spec fn acc_bonus_dex(eq: Equipment) -> int {
    acc_field(eq.accessory1, 1) + acc_field(eq.accessory2, 1)
}

/// The constitution bonus of the accessory slots.
pub open spec fn acc_bonus_con(eq: Equipment) -> int {
    acc_field(eq.accessory1, 2) + acc_field(eq.accessory2, 2)
}

/// The intelligence bonus of the accessory slots.
pub open spec fn acc_bonus_int(eq: Equipment) -> int {
    acc_field(eq.accessory1, 3) + acc_field(eq.accessory2, 3)
}

/// The wisdom bonus of the accessory slots.
pub open spec fn acc_bonus_wis(eq: Equipment) -> int {
    acc_field(eq.accessory1, 4) + acc_field(eq.accessory2, 4)
}

/// The charisma bonus of the accessory slots.
pub open spec fn acc_bonus_cha(eq: Equipment) -> int {
    acc_field(eq.accessory1, 5) + acc_field(eq.accessory2, 5)
}

/// The hit-point bonus of one accessory slot.
pub open spec fn slot_hp(slot: Option<EquippedItem>) -> int {
    match slot {
        Some(it) => match it.stats {
            ItemStats::Accessory(a) => a.effects.hp_bonus as int,
            _ => 0,
        },
        None => 0,
    }
}

/// The hit-point bonus of the accessory slots.
pub open spec fn acc_bonus_hp(eq: Equipment) -> int {
    slot_hp(eq.accessory1) + slot_hp(eq.accessory2)
}

/// One numbered ability-score bonus of an accessory slot.
pub open spec fn acc_field(slot: Option<EquippedItem>, which: int) -> int {
    match slot {
        Some(it) => match it.stats {
            ItemStats::Accessory(a) => {
                if which == 0 { a.effects.str_bonus as int }
                else if which == 1 { a.effects.dex_bonus as int }
                else if which == 2 { a.effects.con_bonus as int }
                else if which == 3 { a.effects.int_bonus as int }
                else if which == 4 { a.effects.wis_bonus as int }
                else { a.effects.cha_bonus as int }
            }
            _ => 0,
        },
        None => 0,
    }
}

/// The life-steal percentage of an accessory slot.
pub open spec fn acc_lifesteal(slot: Option<EquippedItem>) -> int {
    match slot {
        Some(it) => match it.stats {
            ItemStats::Accessory(a) => a.effects.lifesteal_percent as int,
            _ => 0,
        },
        None => 0,
    }
}

/// The evasion percentage of an accessory slot.
pub open spec fn acc_evasion(slot: Option<EquippedItem>) -> int {
    match slot {
        Some(it) => match it.stats {
            ItemStats::Accessory(a) => a.effects.evasion_chance_percent as int,
            _ => 0,
        },
        None => 0,
    }
}

/// The regeneration of an accessory slot.
pub open spec fn acc_regen(slot: Option<EquippedItem>) -> int {
    match slot {
        Some(it) => match it.stats {
            ItemStats::Accessory(a) => a.effects.hp_regen_per_5s as int,
            _ => 0,
        },
        None => 0,
    }
}

/// The wielded weapon carries the Vampiric enchantment.
pub open spec fn weapon_vampiric(eq: Equipment) -> bool {
    match eq.main_hand {
        Some(it) => match it.stats {
            ItemStats::Weapon(w) => w.enchantments@.contains(Enchantment::Vampiric),
            _ => false,
        },
        None => false,
    }
}

/// `str_score` meets the strength demand of the item in `slot`, if any.
pub open spec fn slot_str_ok(str_score: int, slot: Option<EquippedItem>) -> bool {
    match slot {
        Some(it) => match it.stats {
            ItemStats::Weapon(w) => match w.str_requirement {
                Some(req) => str_score >= req,
                None => true,
            },
            ItemStats::Armor(a) => match a.str_requirement {
                Some(req) => str_score >= req,
                None => true,
            },
            ItemStats::Shield(s) => match s.str_requirement {
                Some(req) => str_score >= req,
                None => true,
            },
            ItemStats::Helmet(h) => match h.str_requirement {
                Some(req) => str_score >= req,
                None => true,
            },
            ItemStats::Accessory(_) => true,
        },
        None => true,
    }
}

/// A speed put through one percentage step of the calculator.
pub open spec fn pct_step(v: int, pct: int) -> int {
    v * pct / 100
}

/// The speed after armor penalty (unless enchanted for Speed), shield
/// penalty and both accessory bonuses, floored at fifty pixels per
/// second.
pub open spec fn speed_spec(base: int, eq: Equipment) -> int {
    let s1 = match eq.armor {
        Some(it) => match it.stats {
            ItemStats::Armor(a) => if a.enchantments@.contains(Enchantment::Speed) { base }
                else { pct_step(base, 100 - a.movement_penalty_percent) },
            _ => base,
        },
        None => base,
    };
    let s2 = match eq.off_hand {
        Some(it) => match it.stats {
            ItemStats::Shield(s) => pct_step(s1, 100 - s.movement_penalty_percent),
            _ => s1,
        },
        None => s1,
    };
    let s3 = match eq.accessory1 {
        Some(it) => match it.stats {
            ItemStats::Accessory(a) => pct_step(s2, 100 + a.effects.movement_speed_bonus_percent),
            _ => s2,
        },
        None => s2,
    };
    let s4 = match eq.accessory2 {
        Some(it) => match it.stats {
            ItemStats::Accessory(a) => pct_step(s3, 100 + a.effects.movement_speed_bonus_percent),
            _ => s3,
        },
        None => s3,
    };
    if s4 > 50_000 { s4 } else { 50_000 }
}

/// One percentage step of the speed calculator.
fn apply_pct(v: i64, pct: i64) -> (r: i64)
    requires
        0 <= v <= 0x10_0000_0000,
        0 <= pct <= 1100,
    ensures
        r == pct_step(v as int, pct as int),
        0 <= r,
        r <= 11 * v,
{
    proof {
        assert(v * pct <= 0x10_0000_0000int * 1100 && v * pct >= 0 && v * pct <= v * 1100)
            by (nonlinear_arith)
            requires 0 <= v <= 0x10_0000_0000, 0 <= pct <= 1100;
        vstd::arithmetic::div_mod::lemma_div_pos_is_pos(v as int * pct as int, 100);
        vstd::arithmetic::div_mod::lemma_div_is_ordered(
            v as int * pct as int, v as int * 1100, 100);
        vstd::arithmetic::div_mod::lemma_div_multiples_vanish(11 * v as int, 100);
        assert(v as int * 1100 == 100 * (11 * v as int)) by (nonlinear_arith);
    }
    v * pct / 100
}

/// The six ability bonuses of an accessory slot, in order.
fn slot_effects(slot: &Option<EquippedItem>) -> (r: (i32, i32, i32, i32, i32, i32))
    requires
        match slot {
            Some(it) => item_bounded(*it),
            None => true,
        },
    ensures
        r.0 == acc_field(*slot, 0),
        r.1 == acc_field(*slot, 1),
        r.2 == acc_field(*slot, 2),
        r.3 == acc_field(*slot, 3),
        r.4 == acc_field(*slot, 4),
        r.5 == acc_field(*slot, 5),
        -1000 <= r.0 <= 1000 && -1000 <= r.1 <= 1000 && -1000 <= r.2 <= 1000,
        -1000 <= r.3 <= 1000 && -1000 <= r.4 <= 1000 && -1000 <= r.5 <= 1000,
{
    match slot {
        Some(it) => {
            match &it.stats {
                ItemStats::Accessory(a) => (
                    a.effects.str_bonus, a.effects.dex_bonus, a.effects.con_bonus,
                    a.effects.int_bonus, a.effects.wis_bonus, a.effects.cha_bonus,
                ),
                _ => (0, 0, 0, 0, 0, 0),
            }
        }
        None => (0, 0, 0, 0, 0, 0),
    }
}

/// The hit-point bonus of an accessory slot.
fn slot_hp_bonus(slot: &Option<EquippedItem>) -> (r: i32)
    requires
        match slot {
            Some(it) => item_bounded(*it),
            None => true,
        },
    ensures
        -1000 <= r <= 1000,
        r == match slot {
            Some(it) => match it.stats {
                ItemStats::Accessory(a) => a.effects.hp_bonus as int,
                _ => 0int,
            },
            None => 0int,
        },
{
    match slot {
        Some(it) => {
            match &it.stats {
                ItemStats::Accessory(a) => a.effects.hp_bonus,
                _ => 0,
            }
        }
        None => 0,
    }
}

/// The life-steal percentage of an accessory slot.
fn slot_lifesteal(slot: &Option<EquippedItem>) -> (r: u32)
    requires
        match slot {
            Some(it) => item_bounded(*it),
            None => true,
        },
    ensures
        r == acc_lifesteal(*slot),
        r <= 1000,
{
    match slot {
        Some(it) => {
            match &it.stats {
                ItemStats::Accessory(a) => a.effects.lifesteal_percent,
                _ => 0,
            }
        }
        None => 0,
    }
}

/// The evasion percentage of an accessory slot.
fn slot_evasion(slot: &Option<EquippedItem>) -> (r: u32)
    requires
        match slot {
            Some(it) => item_bounded(*it),
            None => true,
        },
    ensures
        r == acc_evasion(*slot),
        r <= 1000,
{
    match slot {
        Some(it) => {
            match &it.stats {
                ItemStats::Accessory(a) => a.effects.evasion_chance_percent,
                _ => 0,
            }
        }
        None => 0,
    }
}

/// The regeneration of an accessory slot.
fn slot_regen(slot: &Option<EquippedItem>) -> (r: i32)
    requires
        match slot {
            Some(it) => item_bounded(*it),
            None => true,
        },
    ensures
        r == acc_regen(*slot),
        -1000 <= r <= 1000,
{
    match slot {
        Some(it) => {
            match &it.stats {
                ItemStats::Accessory(a) => a.effects.hp_regen_per_5s,
                _ => 0,
            }
        }
        None => 0,
    }
}

/// `str_score` meets the strength demand of the slot's item.
fn check_slot_str(str_score: i32, slot: &Option<EquippedItem>) -> (r: bool)
    ensures
        r == slot_str_ok(str_score as int, *slot),
{
    match slot {
        Some(it) => {
            let req: Option<i32> = match &it.stats {
                ItemStats::Weapon(w) => w.str_requirement,
                ItemStats::Armor(a) => a.str_requirement,
                ItemStats::Shield(s) => s.str_requirement,
                ItemStats::Helmet(h) => h.str_requirement,
                ItemStats::Accessory(_) => None,
            };
            match req {
                Some(need) => str_score >= need,
                None => true,
            }
        }
        None => true,
    }
}

/// Whether `v` holds `needle`.
fn ench_contains(v: &Vec<Enchantment>, needle: Enchantment) -> (r: bool)
    ensures
        r == v@.contains(needle),
{
    let mut i: usize = 0;
    while i < v.len()
        invariant
            0 <= i <= v@.len(),
            forall|k: int| 0 <= k < i ==> v@[k] != needle,
        decreases v@.len() - i,
    {
        if v[i] == needle {
            return true;
        }
        i = i + 1;
    }
    assert(!v@.contains(needle));
    false
}

} // verus!
