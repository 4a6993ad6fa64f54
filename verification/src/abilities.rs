//! Cooldown-gated class abilities and the basic melee attack.
//!
//! Timestamps are milliseconds from server start and are passed in by
//! the caller, so every rule here is a pure function of world state and
//! the clock value.

use vstd::prelude::*;
use crate::character::{ability_cooldown_spec, ClassAbility};
use crate::components::{AttackSpeed, Cooldowns, EntityId, Health, Species, Stats};
use crate::world::{EntityRec, World};

verus! {

/// Why a combat action was refused.
#[derive(Debug, Clone, Copy, PartialEq, Eq, Structural)]
pub enum CombatError {
    /// The entity lacks a component the action needs.
    MissingComponents,
    /// The class ability was used too recently.
    AbilityOnCooldown,
    /// The basic attack was used too recently.
    AttackOnCooldown,
}

/// The ability was used and its cooldown has not yet run out at `now_ms`.
pub open spec fn ability_cooldown_active(cd: Cooldowns, ability: ClassAbility, now_ms: u64)
    -> bool {
    match cd.ability {
        Some(t) => !(t <= now_ms && now_ms - t >= ability_cooldown_spec(ability)),
        None => false,
    }
}

/// The basic attack is ready again at `now_ms`.
pub open spec fn attack_ready_spec(cd: Cooldowns, speed: AttackSpeed, now_ms: u64) -> bool {
    match cd.attack {
        Some(t) => t <= now_ms && now_ms - t >= speed.cooldown_ms,
        None => true,
    }
}

/// Whether the class ability is still cooling down at `now_ms`.
pub fn is_ability_on_cooldown(cooldowns: &Cooldowns, ability: ClassAbility, now_ms: u64)
    -> (r: bool)
    ensures
        r == ability_cooldown_active(*cooldowns, ability, now_ms),
{
    match cooldowns.ability {
        Some(last_used) => !(last_used <= now_ms
            && now_ms - last_used >= ability.cooldown_ms()),
        None => false,
    }
}

/// Milliseconds of ability cooldown left at `now_ms`; zero when ready.
pub fn get_ability_cooldown_remaining(cooldowns: &Cooldowns, ability: ClassAbility, now_ms: u64)
    -> (r: u64)
    requires
        match cooldowns.ability {
            Some(t) => t <= now_ms,
            None => true,
        },
    ensures
        r == match cooldowns.ability {
            Some(t) => if now_ms - t < ability_cooldown_spec(ability) {
                ability_cooldown_spec(ability) - (now_ms - t)
            } else {
                0
            },
            None => 0int,
        },
        (r == 0) == !ability_cooldown_active(*cooldowns, ability, now_ms),
{
    match cooldowns.ability {
        Some(last_used) => {
            let elapsed_ms: u64 = now_ms - last_used;
            let cooldown_ms: u64 = ability.cooldown_ms();
            if elapsed_ms < cooldown_ms {
                cooldown_ms - elapsed_ms
            } else {
                0
            }
        }
        None => 0,
    }
}

/// Whether the basic attack is ready again at `now_ms`.
pub fn is_attack_ready(cooldowns: &Cooldowns, attack_speed: &AttackSpeed, now_ms: u64)
    -> (r: bool)
    ensures
        r == attack_ready_spec(*cooldowns, *attack_speed, now_ms),
{
    match cooldowns.attack {
        Some(last_attack) => last_attack <= now_ms
            && now_ms - last_attack >= attack_speed.cooldown_ms,
        None => true,
    }
}

/// The ability modifier of a score: half the distance from ten, rounded
/// toward zero.
pub open spec fn ability_mod_spec(score: int) -> int {
    if score >= 10 {
        (score - 10) / 2
    } else {
        -((10 - score) / 2)
    }
}

/// The ability modifier of a score.
pub fn ability_modifier(score: i32) -> (r: i32)
    ensures
        r == ability_mod_spec(score as int),
{
    if score >= 10 {
        (score - 10) / 2
    } else {
        let below: i64 = (10i64 - score as i64) / 2;
        (-below) as i32
    }
}

/// `e` carries everything an ability activation reads.
pub open spec fn ability_components_present(rows: Seq<EntityRec>, e: EntityId) -> bool {
    &&& e < rows.len()
    &&& rows[e as int].alive
    &&& rows[e as int].character is Some
    &&& rows[e as int].cooldowns is Some
    &&& rows[e as int].health is Some
    &&& rows[e as int].stats is Some
}

/// `h` healed by `pct` percent of its maximum, capped at the maximum.
pub open spec fn healed_spec(h: Health, pct: int) -> Health {
    let amount = h.max * pct / 100;
    let raised = h.current + amount;
    Health { current: if raised > h.max { h.max } else { raised as i32 }, max: h.max }
}

/// The health of `e` after `ability` fires: the two healing abilities
/// restore a share of maximum hit points; every other ability leaves the
/// health alone.
pub open spec fn ability_health_effect(h: Health, ability: ClassAbility) -> Health {
    match ability {
        ClassAbility::SecondWind => healed_spec(h, 25),
        ClassAbility::HealingWord => healed_spec(h, 30),
        _ => h,
    }
}

/// Activate `ability` for `entity` at `now_ms`.
///
/// Fails — leaving the world untouched — when the entity is missing a
/// needed component or the ability is still cooling down.  On success the
/// ability's effect is applied to the entity's health and the ability
/// cooldown restarts at `now_ms`.
pub fn activate_ability(world: &mut World, entity: EntityId, ability: ClassAbility, now_ms: u64)
    -> (r: Result<(), CombatError>)
    requires
        old(world).wf(),
    ensures
        final(world).wf(),
        final(world).spec_bound_x() == old(world).spec_bound_x(),
        final(world).spec_bound_y() == old(world).spec_bound_y(),
        final(world).rows().len() == old(world).rows().len(),
        r is Err ==> final(world).rows() == old(world).rows(),
        r == if !ability_components_present(old(world).rows(), entity) {
            Err::<(), CombatError>(CombatError::MissingComponents)
        } else if ability_cooldown_active(
            old(world).rows()[entity as int].cooldowns->Some_0, ability, now_ms) {
            Err::<(), CombatError>(CombatError::AbilityOnCooldown)
        } else {
            Ok::<(), CombatError>(())
        },
        r is Ok ==> ({
            let rec0 = old(world).rows()[entity as int];
            final(world).rows() == old(world).rows().update(entity as int, EntityRec {
                health: Some(ability_health_effect(rec0.health->Some_0, ability)),
                cooldowns: Some(Cooldowns { ability: Some(now_ms), ..rec0.cooldowns->Some_0 }),
                ..rec0
            })
        }),
{
    if !world.is_alive(entity) {
        return Err(CombatError::MissingComponents);
    }
    let character = world.character(entity);
    let cooldowns = world.cooldowns(entity);
    let health = world.health(entity);
    let stats = world.stats(entity);
    if character.is_none() || cooldowns.is_none() || health.is_none() || stats.is_none() {
        return Err(CombatError::MissingComponents);
    }
    let cd = cooldowns.unwrap();
    if is_ability_on_cooldown(&cd, ability, now_ms) {
        return Err(CombatError::AbilityOnCooldown);
    }
    let h = health.unwrap();
    let new_health: Health = match ability {
        ClassAbility::SecondWind => heal_by_percent(h, 25),
        ClassAbility::HealingWord => heal_by_percent(h, 30),
        _ => h,
    };
    let _ = world.set_health(entity, new_health);
    let _ = world.set_cooldowns(entity, Cooldowns { ability: Some(now_ms), ..cd });
    proof {
        let rec0 = old(world).rows()[entity as int];
        assert(final(world).rows() =~= old(world).rows().update(entity as int, EntityRec {
            health: Some(ability_health_effect(rec0.health->Some_0, ability)),
            cooldowns: Some(Cooldowns { ability: Some(now_ms), ..rec0.cooldowns->Some_0 }),
            ..rec0
        }));
    }
    Ok(())
}

/// `h` healed by `pct` percent of its maximum, capped at the maximum.
fn heal_by_percent(h: Health, pct: i32) -> (r: Health)
    requires
        h.wf(),
        0 <= pct <= 100,
    ensures
        r == healed_spec(h, pct as int),
        r.wf(),
{
    proof {
        assert((h.max as int) * (pct as int) <= 0x7fff_ffff * 100) by (nonlinear_arith)
            requires 0 <= h.max <= 0x7fff_ffff, 0 <= pct <= 100;
    }
    let amount: i64 = (h.max as i64) * (pct as i64) / 100;
    let raised: i64 = (h.current as i64) + amount;
    proof {
        assert(amount >= 0) by (nonlinear_arith)
            requires h.max >= 0, pct >= 0, amount == (h.max as int) * (pct as int) / 100;
        assert((h.max as int) * (pct as int) <= (h.max as int) * 100) by (nonlinear_arith)
            requires h.max >= 0, pct <= 100;
        assert((h.max as int) * 100 / 100 == h.max as int) by {
            vstd::arithmetic::div_mod::lemma_div_multiples_vanish(h.max as int, 100);
        }
        vstd::arithmetic::div_mod::lemma_div_is_ordered(
            (h.max as int) * (pct as int), (h.max as int) * 100, 100);
        assert(amount <= h.max);
    }
    let new_current: i64 = if raised > h.max as i64 { h.max as i64 } else { raised };
    Health { current: new_current as i32, max: h.max }
}

/// `e` carries everything an attacker needs.
pub open spec fn attacker_components_present(rows: Seq<EntityRec>, e: EntityId) -> bool {
    &&& e < rows.len()
    &&& rows[e as int].alive
    &&& rows[e as int].character is Some
    &&& rows[e as int].stats is Some
    &&& rows[e as int].attack_speed is Some
    &&& rows[e as int].cooldowns is Some
}

/// `e` carries everything a target needs.
pub open spec fn target_components_present(rows: Seq<EntityRec>, e: EntityId) -> bool {
    &&& e < rows.len()
    &&& rows[e as int].alive
    &&& rows[e as int].armor_class is Some
    &&& rows[e as int].character is Some
    &&& rows[e as int].health is Some
}

/// The attack roll of a melee swing: ten plus the strength modifier.
pub open spec fn attack_roll_spec(str_score: int) -> int {
    10 + ability_mod_spec(str_score)
}

/// Damage of a basic hit before resistance: the average of one
/// six-sided die, plus the strength modifier if it helps.
pub open spec fn base_damage_spec(str_score: int) -> int {
    let m = ability_mod_spec(str_score);
    3 + if m > 0 { m } else { 0 }
}

/// Damage after the target's racial resistance: a dwarf takes one point
/// less, but never below one.
pub open spec fn resisted_damage_spec(damage: int, species: Species) -> int {
    if species is Dwarf {
        if damage - 1 > 1 { damage - 1 } else { 1 }
    } else {
        damage
    }
}

/// The target's health after a hit of `damage`, floored at zero.
pub open spec fn damaged_spec(h: Health, damage: int) -> Health {
    let lowered = h.current - damage;
    Health { current: if lowered > 0 { lowered as i32 } else { 0 }, max: h.max }
}

/// Resolve a basic melee attack of `attacker` on `target` at `now_ms`.
///
/// Fails — leaving the world untouched — when either side is missing a
/// component or the attack is still cooling down.  On success the attack
/// hits exactly when the attacker's roll meets the target's armor class;
/// a hit lowers the target's health by the resisted damage, and hit or
/// miss, the attacker's attack cooldown restarts at `now_ms`.
pub fn perform_attack(world: &mut World, attacker: EntityId, target: EntityId, now_ms: u64)
    -> (r: Result<(), CombatError>)
    requires
        old(world).wf(),
    ensures
        final(world).wf(),
        final(world).spec_bound_x() == old(world).spec_bound_x(),
        final(world).spec_bound_y() == old(world).spec_bound_y(),
        final(world).rows().len() == old(world).rows().len(),
        r is Err ==> final(world).rows() == old(world).rows(),
        r == if !attacker_components_present(old(world).rows(), attacker) {
            Err::<(), CombatError>(CombatError::MissingComponents)
        } else if !attack_ready_spec(
            old(world).rows()[attacker as int].cooldowns->Some_0,
            old(world).rows()[attacker as int].attack_speed->Some_0, now_ms) {
            Err::<(), CombatError>(CombatError::AttackOnCooldown)
        } else if !target_components_present(old(world).rows(), target) {
            Err::<(), CombatError>(CombatError::MissingComponents)
        } else {
            Ok::<(), CombatError>(())
        },
        r is Ok ==> ({
            let rows0 = old(world).rows();
            let str_score = rows0[attacker as int].stats->Some_0.str as int;
            let hit = attack_roll_spec(str_score)
                >= rows0[target as int].armor_class->Some_0.value;
            let damage = resisted_damage_spec(
                base_damage_spec(str_score),
                rows0[target as int].character->Some_0.species);
            let rows1 = if hit {
                rows0.update(target as int, EntityRec {
                    health: Some(damaged_spec(rows0[target as int].health->Some_0, damage)),
                    ..rows0[target as int]
                })
            } else {
                rows0
            };
            final(world).rows() == rows1.update(attacker as int, EntityRec {
                cooldowns: Some(Cooldowns {
                    attack: Some(now_ms),
                    ..rows1[attacker as int].cooldowns->Some_0
                }),
                ..rows1[attacker as int]
            })
        }),
{
    if !world.is_alive(attacker) {
        return Err(CombatError::MissingComponents);
    }
    let a_character = world.character(attacker);
    let a_stats = world.stats(attacker);
    let a_speed = world.attack_speed(attacker);
    let a_cd = world.cooldowns(attacker);
    if a_character.is_none() || a_stats.is_none() || a_speed.is_none() || a_cd.is_none() {
        return Err(CombatError::MissingComponents);
    }
    if !is_attack_ready(&a_cd.unwrap(), &a_speed.unwrap(), now_ms) {
        return Err(CombatError::AttackOnCooldown);
    }
    if !world.is_alive(target) {
        return Err(CombatError::MissingComponents);
    }
    let t_ac = world.armor_class(target);
    let t_character = world.character(target);
    let t_health = world.health(target);
    if t_ac.is_none() || t_character.is_none() || t_health.is_none() {
        return Err(CombatError::MissingComponents);
    }

    let str_score: i32 = a_stats.unwrap().str;
    let str_mod: i32 = ability_modifier(str_score);
    let attack_roll: i32 = 10 + str_mod;
    if attack_roll >= t_ac.unwrap().value {
        let base_damage: i32 = 3 + if str_mod > 0 { str_mod } else { 0 };
        let damage: i32 = crate::character::apply_damage_resistance(
            base_damage, t_character.unwrap().species);
        let h = t_health.unwrap();
        let lowered: i64 = (h.current as i64) - (damage as i64);
        let new_current: i64 = if lowered > 0 { lowered } else { 0 };
        let _ = world.set_health(target, Health { current: new_current as i32, max: h.max });
    }
    let cd_now = world.cooldowns(attacker).unwrap();
    let _ = world.set_cooldowns(attacker, Cooldowns { attack: Some(now_ms), ..cd_now });
    proof {
        let rows0 = old(world).rows();
        let str_score_s = rows0[attacker as int].stats->Some_0.str as int;
        let hit = attack_roll_spec(str_score_s)
            >= rows0[target as int].armor_class->Some_0.value;
        let damage_s = resisted_damage_spec(
            base_damage_spec(str_score_s),
            rows0[target as int].character->Some_0.species);
        let rows1 = if hit {
            rows0.update(target as int, EntityRec {
                health: Some(damaged_spec(rows0[target as int].health->Some_0, damage_s)),
                ..rows0[target as int]
            })
        } else {
            rows0
        };
        assert(final(world).rows() =~= rows1.update(attacker as int, EntityRec {
            cooldowns: Some(Cooldowns {
                attack: Some(now_ms),
                ..rows1[attacker as int].cooldowns->Some_0
            }),
            ..rows1[attacker as int]
        }));
    }
    Ok(())
}

} // verus!
