//! Experience and leveling: the exponential XP table, level lookup, the
//! species experience bonus, and the level-up reward.

use vstd::prelude::*;
use vstd::arithmetic::power::{pow, lemma_pow_strictly_increases, lemma_pow_positive};
use crate::abilities::CombatError;
use crate::components::{Character, CharacterClass, EntityId, Health, Species, Stats};
use crate::character::xp_bonus_percent;
use crate::world::{EntityRec, World};

verus! {

/// Total experience required to be of `level`: nothing for level one,
/// then an exponential curve of 300, 900, 2700, and so on.
pub open spec fn xp_level_spec(level: int) -> int {
    if level <= 1 {
        0
    } else {
        300 * pow(3, (level - 2) as nat)
    }
}

/// The XP curve grows strictly from one level to the next.
pub proof fn lemma_xp_curve_increases(level: int)
    requires
        1 <= level,
    ensures
        xp_level_spec(level) < xp_level_spec(level + 1),
{
    if level == 1 {
        vstd::arithmetic::power::lemma_pow0(3);
    } else {
        lemma_pow_strictly_increases(3, (level - 2) as nat, (level - 1) as nat);
    }
}

/// Bound used to keep the table inside a `u64`.
pub proof fn lemma_xp_level_bound(level: int)
    requires
        level <= 30,
    ensures
        xp_level_spec(level) <= 300 * pow(3, 28),
        xp_level_spec(level) >= 0,
{
    lemma_pow_positive(3, 28);
    if level > 1 {
        lemma_pow_positive(3, (level - 2) as nat);
        if level < 30 {
            lemma_pow_strictly_increases(3, (level - 2) as nat, 28);
        }
    }
}

proof fn lemma_pow3_28()
    ensures
        pow(3, 28) == 22876792454961,
{
    reveal_with_fuel(vstd::arithmetic::power::pow, 29);
}

/// Total experience required to be of `level`.
///
/// Level one needs nothing; level `n` needs `300 * 3^(n - 2)`.
pub fn xp_for_level(level: u32) -> (r: u64)
    requires
        level <= 30,
    ensures
        r == xp_level_spec(level as int),
{
    if level <= 1 {
        return 0;
    }
    let mut result: u64 = 300;
    let mut i: u32 = 2;
    proof {
        vstd::arithmetic::power::lemma_pow0(3);
        lemma_pow3_28();
    }
    while i < level
        invariant
            2 <= i <= level <= 30,
            result == 300 * pow(3, (i - 2) as nat),
            pow(3, 28) == 22876792454961,
        decreases level - i,
    {
        proof {
            lemma_xp_level_bound(i as int);
            assert(pow(3, (i - 1) as nat) == 3 * pow(3, (i - 2) as nat)) by {
                vstd::arithmetic::power::lemma_pow_adds(3, 1, (i - 2) as nat);
                vstd::arithmetic::power::lemma_pow1(3);
            }
        }
        result = result * 3;
        i = i + 1;
    }
    result
}

/// The largest level at most `l` whose requirement `xp` meets.
pub open spec fn level_for_xp_from(xp: int, l: int) -> int
    decreases l,
{
    if l <= 1 {
        1
    } else if xp >= xp_level_spec(l) {
        l
    } else {
        level_for_xp_from(xp, l - 1)
    }
}

/// The level `xp` total experience reaches, capped at twenty.
pub open spec fn level_for_xp(xp: int) -> int {
    level_for_xp_from(xp, 20)
}

/// The XP curve never falls between two levels.
pub proof fn lemma_xp_monotone_range(a: int, b: int)
    requires
        1 <= a <= b,
    ensures
        xp_level_spec(a) <= xp_level_spec(b),
    decreases b - a,
{
    if a < b {
        lemma_xp_curve_increases(b - 1);
        lemma_xp_monotone_range(a, b - 1);
    }
}

proof fn lemma_level_char_from(xp: int, r: int, l: int)
    requires
        1 <= r <= l <= 20,
        xp >= xp_level_spec(r),
        r < 20 ==> xp < xp_level_spec(r + 1),
    ensures
        level_for_xp_from(xp, l) == r,
    decreases l,
{
    if l <= 1 {
    } else if l == r {
    } else {
        lemma_xp_monotone_range(r + 1, l);
        assert(xp < xp_level_spec(l));
        lemma_level_char_from(xp, r, l - 1);
    }
}

/// The inequalities of the level search characterise `level_for_xp`.
pub proof fn lemma_level_char(xp: int, r: int)
    requires
        1 <= r <= 20,
        xp >= xp_level_spec(r),
        r < 20 ==> xp < xp_level_spec(r + 1),
    ensures
        level_for_xp(xp) == r,
{
    lemma_level_char_from(xp, r, 20);
}

/// The level a character of `xp` total experience has reached, capped at
/// twenty.
pub fn level_from_xp(xp: u64) -> (r: u32)
    ensures
        1 <= r <= 20,
        xp >= xp_level_spec(r as int),
        r < 20 ==> xp < xp_level_spec(r as int + 1),
        r == level_for_xp(xp as int),
{
    let mut level: u32 = 1;
    while level < 20 && xp >= xp_for_level(level + 1)
        invariant
            1 <= level <= 20,
            xp >= xp_level_spec(level as int),
        decreases 20 - level,
    {
        level = level + 1;
    }
    proof {
        lemma_level_char(xp as int, level as int);
    }
    level
}

/// Experience after a gain: the species bonus (a human earns a tenth
/// more) is applied to the gained amount, rounded down, and added.
pub fn add_xp(current_xp: u64, gained_xp: u64, species: Species) -> (r: u64)
    requires
        current_xp <= 0x0100_0000_0000_0000,
        gained_xp <= 0x0100_0000_0000_0000,
    ensures
        species is Human ==> r == current_xp + (gained_xp * 110) / 100,
        !(species is Human) ==> r == current_xp + gained_xp,
{
    let multiplier: u32 = xp_bonus_percent(species);
    let bonus_xp: u64 = gained_xp * (multiplier as u64) / 100;
    proof {
        if multiplier == 100 {
            vstd::arithmetic::div_mod::lemma_div_multiples_vanish(gained_xp as int, 100);
            assert(gained_xp * 100 == 100 * gained_xp);
            assert(bonus_xp == gained_xp);
        }
    }
    current_xp + bonus_xp
}

/// A level gained grants five more hit points; the ability scores stay
/// as they are.
pub fn apply_level_up(stats: &mut Stats, max_hp: &mut i32)
    requires
        *old(max_hp) <= i32::MAX - 5,
    ensures
        *final(max_hp) == *old(max_hp) + 5,
        *final(stats) == *old(stats),
{
    *max_hp = *max_hp + 5;
}

/// Experience awarded for defeating a character of `target_level`: a
/// doubling table up to level five, then 200 more per level.
pub open spec fn xp_reward_spec(target_level: int) -> int {
    if target_level <= 1 {
        50
    } else if target_level == 2 {
        100
    } else if target_level == 3 {
        200
    } else if target_level == 4 {
        400
    } else if target_level == 5 {
        800
    } else {
        800 + (target_level - 5) * 200
    }
}

/// Experience for defeating an entity of the given level; the class does
/// not change the reward.
pub fn calculate_xp_reward(target_level: u32, _target_class: CharacterClass) -> (r: u64)
    ensures
        r == xp_reward_spec(target_level as int),
{
    match target_level {
        0 => 50,
        1 => 50,
        2 => 100,
        3 => 200,
        4 => 400,
        5 => 800,
        _ => 800 + (target_level as u64 - 5) * 200,
    }
}

/// Progress toward the next level: experience into the current level,
/// experience the level spans, and the fraction covered in thousandths.
pub fn get_xp_progress(current_xp: u64, current_level: u32) -> (r: (u64, u64, u32))
    requires
        1 <= current_level < 20,
        current_xp >= xp_level_spec(current_level as int),
        current_xp < xp_level_spec(current_level as int + 1),
    ensures
        r.0 == current_xp - xp_level_spec(current_level as int),
        r.1 == xp_level_spec(current_level as int + 1) - xp_level_spec(current_level as int),
        r.2 == (r.0 * 1000) as int / (r.1 as int),
        r.2 < 1000,
{
    proof {
        lemma_xp_curve_increases(current_level as int);
        lemma_xp_level_bound(current_level as int + 1);
        lemma_pow3_28();
    }
    let current_level_xp: u64 = xp_for_level(current_level);
    let next_level_xp: u64 = xp_for_level(current_level + 1);
    let xp_into_level: u64 = current_xp - current_level_xp;
    let xp_needed: u64 = next_level_xp - current_level_xp;
    let progress_permille: u64 = xp_into_level * 1000 / xp_needed;
    proof {
        assert(xp_into_level * 1000 < xp_needed * 1000) by (nonlinear_arith)
            requires xp_into_level < xp_needed;
        vstd::arithmetic::div_mod::lemma_multiply_divide_lt(
            xp_into_level * 1000, xp_needed as int, 1000);
    }
    (xp_into_level, xp_needed, progress_permille as u32)
}

/// Accumulated experience is capped here, far above what level twenty
/// needs, so awards can never overflow.
pub const XP_LIMIT: u64 = 0x1000_0000_0000;

/// The smaller of two integers.
pub open spec fn min_int(a: int, b: int) -> int {
    if a < b { a } else { b }
}

/// The experience an award leaves a character with: the species bonus
/// applied to the gain, added and capped at the experience limit.
pub open spec fn awarded_xp(old_xp: int, gained: int, species: Species) -> int {
    let bonus = if species is Human { gained * 110 / 100 } else { gained };
    min_int(old_xp + bonus, XP_LIMIT as int)
}

/// What an award of `base_xp` does to one row: the experience grows by
/// the species-adjusted amount (capped at the limit), the level is
/// re-read from the table (never dropping), and each level gained
/// grants five hit points to maximum and current health alike, capped
/// to stay within bounds.
pub open spec fn xp_award_effect(rec0: EntityRec, rec1: EntityRec, base_xp: int) -> bool {
    let c0 = rec0.character->Some_0;
    let new_xp = awarded_xp(min_int(c0.experience as int, XP_LIMIT as int), base_xp, c0.species);
    let new_level = if level_for_xp(new_xp) > c0.level {
        level_for_xp(new_xp)
    } else {
        c0.level as int
    };
    &&& rec1.character matches Some(c1)
        && c1.experience == new_xp
        && c1.level == new_level
        && c1.species == c0.species && c1.class == c0.class
    &&& ({
        let gain = 5 * (new_level - c0.level);
        match rec0.health {
            Some(h0) => rec1.health matches Some(h1)
                && h1.max == min_int(h0.max + gain, i32::MAX as int)
                && h1.current == min_int(h0.current + gain, h1.max as int),
            None => rec1.health == rec0.health,
        }
    })
    &&& rec1 == (EntityRec { character: rec1.character, health: rec1.health, ..rec0 })
}

/// Award `base_xp` experience to `entity`, as `xp_award_effect` states.
///
/// Fails — leaving the world untouched — exactly when the entity is not
/// a live character.
pub fn award_xp(world: &mut World, entity: EntityId, base_xp: u64)
    -> (r: Result<(), CombatError>)
    requires
        old(world).wf(),
        base_xp <= 0x1_0000_0000_0000,
    ensures
        final(world).wf(),
        final(world).rows().len() == old(world).rows().len(),
        final(world).spec_bound_x() == old(world).spec_bound_x(),
        final(world).spec_bound_y() == old(world).spec_bound_y(),
        r is Ok <==> (entity < old(world).rows().len()
            && old(world).rows()[entity as int].alive
            && old(world).rows()[entity as int].character is Some),
        r is Err ==> final(world).rows() == old(world).rows(),
        forall|k: int| 0 <= k < old(world).rows().len() && k != entity
            ==> final(world).rows()[k] == old(world).rows()[k],
        r is Ok ==> xp_award_effect(old(world).rows()[entity as int],
            final(world).rows()[entity as int], base_xp as int),
{
    if !world.is_alive(entity) {
        return Err(CombatError::MissingComponents);
    }
    let character = match world.character(entity) {
        Some(c) => c,
        None => { return Err(CombatError::MissingComponents); },
    };
    let old_level: u32 = character.level;
    let old_xp: u64 = if character.experience < XP_LIMIT { character.experience } else { XP_LIMIT };
    let new_xp_raw: u64 = add_xp(old_xp, base_xp, character.species);
    let new_xp: u64 = if new_xp_raw < XP_LIMIT { new_xp_raw } else { XP_LIMIT };
    let new_level: u32 = level_from_xp(new_xp);
    let capped_level: u32 = if new_level > old_level { new_level } else { old_level };
    let _ = world.set_character(entity, Character {
        species: character.species,
        class: character.class,
        level: capped_level,
        experience: new_xp,
    });
    proof {
        assert(crate::world::rec_wf(old(world).rows()[entity as int],
            old(world).spec_bound_x(), old(world).spec_bound_y()));
    }
    if capped_level > old_level {
        let levels_gained: u32 = capped_level - old_level;
        match world.health(entity) {
            Some(h) => {
                let gain: i64 = (levels_gained as i64) * 5;
                proof {
                    assert(levels_gained <= 20);
                }
                let new_max64: i64 = (h.max as i64) + gain;
                let new_max: i32 = if new_max64 > i32::MAX as i64 { i32::MAX } else { new_max64 as i32 };
                let new_cur64: i64 = (h.current as i64) + gain;
                let new_cur: i32 = if new_cur64 > new_max as i64 { new_max } else { new_cur64 as i32 };
                let _ = world.set_health(entity, Health { current: new_cur, max: new_max });
            }
            None => {}
        }
    }
    proof {
        assert(xp_award_effect(old(world).rows()[entity as int],
            final(world).rows()[entity as int], base_xp as int));
    }
    Ok(())
}

/// Whether `entity`'s hit points have run out and it should leave the
/// world; an entity without health never despawns on this account.
pub fn should_despawn_on_death(world: &World, entity: EntityId) -> (r: bool)
    ensures
        r == (entity < world.rows().len()
            && (world.rows()[entity as int].health matches Some(h) && h.current <= 0)),
{
    match world.health(entity) {
        Some(health) => health.current <= 0,
        None => false,
    }
}

/// Settle a kill: the victim's level sets the experience reward, which
/// is awarded to the killer.  Fails when the victim carries no character
/// sheet or the killer cannot receive experience.
pub fn handle_entity_death(world: &mut World, killed_entity: EntityId, killer_entity: EntityId)
    -> (r: Result<(), CombatError>)
    requires
        old(world).wf(),
    ensures
        final(world).wf(),
        final(world).rows().len() == old(world).rows().len(),
        final(world).spec_bound_x() == old(world).spec_bound_x(),
        final(world).spec_bound_y() == old(world).spec_bound_y(),
        r is Ok <==> ({
            &&& killed_entity < old(world).rows().len()
            &&& old(world).rows()[killed_entity as int].alive
            &&& old(world).rows()[killed_entity as int].character is Some
            &&& killer_entity < old(world).rows().len()
            &&& old(world).rows()[killer_entity as int].alive
            &&& old(world).rows()[killer_entity as int].character is Some
        }),
        r is Err ==> final(world).rows() == old(world).rows(),
        r is Ok ==> xp_award_effect(
            old(world).rows()[killer_entity as int],
            final(world).rows()[killer_entity as int],
            xp_reward_spec(old(world).rows()[killed_entity as int]
                .character->Some_0.level as int)),
        forall|k: int| 0 <= k < old(world).rows().len() && k != killer_entity
            ==> final(world).rows()[k] == old(world).rows()[k],
{
    if !world.is_alive(killed_entity) {
        return Err(CombatError::MissingComponents);
    }
    let character = match world.character(killed_entity) {
        Some(c) => c,
        None => { return Err(CombatError::MissingComponents); },
    };
    let xp_reward: u64 = calculate_xp_reward(character.level, character.class);
    proof {
        assert(xp_reward_spec(character.level as int) <= 0x1_0000_0000_0000);
    }
    award_xp(world, killer_entity, xp_reward)
}

} // verus!
