use vstd::prelude::*;

verus! {

use crate::battle::traits::{damage_count, gameover_count, FightLog};

broadcast use
    crate::battle::traits::lemma_gameover_count_push,
    crate::battle::traits::lemma_damage_count_push;

use crate::contexts::{CardContext, CombatStats, EnemyContext, WarriorContext, WarriorDeckContext};
use crate::MAX_WEAK_COUNT;

/// An incoming amount after the stat bonus and the weaken debuff: the raw
/// value plus the acting stat, scaled by `(MAX_WEAK_COUNT - weak) /
/// MAX_WEAK_COUNT` in integer arithmetic.
pub open spec fn scaled_amount(raw: u16, add: u8, weak: u8) -> int {
    ((raw + add) * (MAX_WEAK_COUNT - weak)) / (MAX_WEAK_COUNT as int)
}

/// Shield left after damage `dmg` hits it.
pub open spec fn shield_after_damage(shield: u16, dmg: int) -> int {
    vstd::math::max(shield - dmg, 0)
}

/// Armor left after the part of `dmg` that passed the shield hits it.
pub open spec fn armor_after_damage(shield: u16, armor: u16, dmg: int) -> int {
    vstd::math::max(armor - vstd::math::max(dmg - shield, 0), 0)
}

/// Hit points left after the part of `dmg` that passed shield and armor hits
/// them: shield, then armor, then hp, each step floored at zero.
pub open spec fn hp_after_damage(stats: CombatStats, dmg: int) -> int {
    vstd::math::max(
        stats.hp - vstd::math::max(vstd::math::max(dmg - stats.shield, 0) - stats.armor, 0),
        0,
    )
}

/// Computes the scaled amount in machine arithmetic.
fn scale_amount(raw: u16, add: u8, weak: u8) -> (r: u32)
    requires
        weak <= MAX_WEAK_COUNT,
    ensures
        r == scaled_amount(raw, add, weak),
{
    proof {
        assert((raw as u32 + add as u32) * ((MAX_WEAK_COUNT - weak) as u32) <= 657900) by (nonlinear_arith)
            requires
                raw <= 65535 && add <= 255 && weak <= MAX_WEAK_COUNT && MAX_WEAK_COUNT == 10,
        ;
    }
    (raw as u32 + add as u32) * ((MAX_WEAK_COUNT - weak) as u32) / (MAX_WEAK_COUNT as u32)
}

/// Deals damage to one participant's statistics: the raw value plus the
/// attacker's attack stat, scaled by the attacker's weaken counter, consumes
/// shield, then armor, then hit points, each step floored at zero; nothing
/// underflows. Logs one damage event carrying the raw value.
pub fn attack_apply(
    logs: &mut Vec<FightLog>,
    value: u16,
    attack: u8,
    attack_weak: u8,
    offset: usize,
    stats: &mut CombatStats,
)
    requires
        attack_weak <= MAX_WEAK_COUNT,
    ensures
        ({
            let dmg = scaled_amount(value, attack, attack_weak);
            &&& final(stats).shield == shield_after_damage(old(stats).shield, dmg)
            &&& final(stats).armor == armor_after_damage(old(stats).shield, old(stats).armor, dmg)
            &&& final(stats).hp == hp_after_damage(*old(stats), dmg)
        }),
        final(stats).max_hp == old(stats).max_hp,
        final(stats).attack == old(stats).attack,
        final(stats).attack_weak == old(stats).attack_weak,
        final(stats).defense == old(stats).defense,
        final(stats).defense_weak == old(stats).defense_weak,
        final(logs)@ == old(logs)@.push(FightLog::SystemDamage(offset, value)),
{
    let mut dmg = scale_amount(value, attack, attack_weak);
    if dmg > stats.shield as u32 {
        dmg = dmg - stats.shield as u32;
        stats.shield = 0;
        if dmg > stats.armor as u32 {
            dmg = dmg - stats.armor as u32;
            stats.armor = 0;
            if dmg > stats.hp as u32 {
                stats.hp = 0;
            } else {
                stats.hp = stats.hp - dmg as u16;
            }
        } else {
            stats.armor = stats.armor - dmg as u16;
        }
    } else {
        stats.shield = stats.shield - dmg as u16;
    }
    logs.push(FightLog::SystemDamage(offset, value));
}

/// How much a heal of `value` actually restores: capped so hit points never
/// pass their maximum (a participant already at or above it gains nothing).
pub open spec fn heal_amount(stats: CombatStats, value: u16) -> int {
    if stats.hp >= stats.max_hp {
        0
    } else {
        vstd::math::min(value as int, stats.max_hp - stats.hp)
    }
}

/// Restores hit points up to the participant's maximum and logs the amount
/// actually restored.
pub fn healing_apply(logs: &mut Vec<FightLog>, value: u16, offset: usize, stats: &mut CombatStats)
    ensures
        final(stats).hp == old(stats).hp + heal_amount(*old(stats), value),
        *final(stats) == (CombatStats { hp: final(stats).hp, ..*old(stats) }),
        final(logs)@ == old(logs)@.push(
            FightLog::SystemRecoverHp(offset, heal_amount(*old(stats), value) as u16),
        ),
{
    let headroom = if stats.hp >= stats.max_hp {
        0
    } else {
        stats.max_hp - stats.hp
    };
    let healed = if value < headroom {
        value
    } else {
        headroom
    };
    stats.hp = stats.hp + healed;
    logs.push(FightLog::SystemRecoverHp(offset, healed));
}

/// Armor gained from a raw value: the target's own defense stat is added and
/// the target's defense weaken counter scales the sum; the result saturates
/// at the field maximum.
pub open spec fn buffed_gain(raw: u16, defense: u8, defense_weak: u8) -> int {
    scaled_amount(raw, defense, defense_weak)
}

/// Raises armor by the scaled amount, clamped at the field maximum, and logs
/// the scaled amount (itself clamped to the log's range).
pub fn armor_up_apply(logs: &mut Vec<FightLog>, value: u16, offset: usize, stats: &mut CombatStats)
    requires
        old(stats).defense_weak <= MAX_WEAK_COUNT,
    ensures
        ({
            let gain = buffed_gain(value, old(stats).defense, old(stats).defense_weak);
            &&& final(stats).armor == vstd::math::min(old(stats).armor + gain, u16::MAX as int)
            &&& *final(stats) == (CombatStats { armor: final(stats).armor, ..*old(stats) })
            &&& final(logs)@ == old(logs)@.push(
                FightLog::SystemArmorUp(offset, vstd::math::min(gain, u16::MAX as int) as u16),
            )
        }),
{
    let gain = scale_amount(value, stats.defense, stats.defense_weak);
    let gain16 = if gain > u16::MAX as u32 {
        u16::MAX
    } else {
        gain as u16
    };
    stats.armor = if gain > (u16::MAX - stats.armor) as u32 {
        u16::MAX
    } else {
        stats.armor + gain as u16
    };
    logs.push(FightLog::SystemArmorUp(offset, gain16));
}

/// Raises the shield by the scaled amount, clamped at the field maximum, and
/// logs the scaled amount (itself clamped to the log's range).
pub fn shield_up_apply(logs: &mut Vec<FightLog>, value: u16, offset: usize, stats: &mut CombatStats)
    requires
        old(stats).defense_weak <= MAX_WEAK_COUNT,
    ensures
        ({
            let gain = buffed_gain(value, old(stats).defense, old(stats).defense_weak);
            &&& final(stats).shield == vstd::math::min(old(stats).shield + gain, u16::MAX as int)
            &&& *final(stats) == (CombatStats { shield: final(stats).shield, ..*old(stats) })
            &&& final(logs)@ == old(logs)@.push(
                FightLog::SystemShieldUp(offset, vstd::math::min(gain, u16::MAX as int) as u16),
            )
        }),
{
    let gain = scale_amount(value, stats.defense, stats.defense_weak);
    let gain16 = if gain > u16::MAX as u32 {
        u16::MAX
    } else {
        gain as u16
    };
    stats.shield = if gain > (u16::MAX - stats.shield) as u32 {
        u16::MAX
    } else {
        stats.shield + gain as u16
    };
    logs.push(FightLog::SystemShieldUp(offset, gain16));
}

/// Raises the attack weaken counter, clamped to `[0, MAX_WEAK_COUNT]`, and
/// logs the amount actually added.
pub fn attack_power_weak_apply(
    logs: &mut Vec<FightLog>,
    value: u8,
    offset: usize,
    stats: &mut CombatStats,
)
    requires
        old(stats).attack_weak <= MAX_WEAK_COUNT,
    ensures
        final(stats).attack_weak == vstd::math::min(
            old(stats).attack_weak + value,
            MAX_WEAK_COUNT as int,
        ),
        *final(stats) == (CombatStats { attack_weak: final(stats).attack_weak, ..*old(stats) }),
        final(stats).attack_weak <= MAX_WEAK_COUNT,
        final(logs)@ == old(logs)@.push(
            FightLog::SystemAttackWeakUp(
                offset,
                (vstd::math::min(old(stats).attack_weak + value, MAX_WEAK_COUNT as int) - old(
                    stats,
                ).attack_weak) as u8,
            ),
        ),
{
    let headroom = MAX_WEAK_COUNT - stats.attack_weak;
    let added = if value < headroom {
        value
    } else {
        headroom
    };
    stats.attack_weak = stats.attack_weak + added;
    logs.push(FightLog::SystemAttackWeakUp(offset, added));
}

/// Raises the defense weaken counter, clamped to `[0, MAX_WEAK_COUNT]`, and
/// logs the amount actually added.
pub fn defense_power_weak_apply(
    logs: &mut Vec<FightLog>,
    value: u8,
    offset: usize,
    stats: &mut CombatStats,
)
    requires
        old(stats).defense_weak <= MAX_WEAK_COUNT,
    ensures
        final(stats).defense_weak == vstd::math::min(
            old(stats).defense_weak + value,
            MAX_WEAK_COUNT as int,
        ),
        *final(stats) == (CombatStats { defense_weak: final(stats).defense_weak, ..*old(stats) }),
        final(stats).defense_weak <= MAX_WEAK_COUNT,
        final(logs)@ == old(logs)@.push(
            FightLog::SystemDefenseWeakUp(
                offset,
                (vstd::math::min(old(stats).defense_weak + value, MAX_WEAK_COUNT as int) - old(
                    stats,
                ).defense_weak) as u8,
            ),
        ),
{
    let headroom = MAX_WEAK_COUNT - stats.defense_weak;
    let added = if value < headroom {
        value
    } else {
        headroom
    };
    stats.defense_weak = stats.defense_weak + added;
    logs.push(FightLog::SystemDefenseWeakUp(offset, added));
}

/// Raises the player's draw count, saturating at the field maximum.
pub fn draw_count_up_apply(logs: &mut Vec<FightLog>, value: u8, draw_count: &mut u8)
    ensures
        *final(draw_count) == vstd::math::min(*old(draw_count) + value, u8::MAX as int),
        final(logs)@ == old(logs)@.push(FightLog::SystemDrawCountUp(value)),
{
    *draw_count = draw_count.saturating_add(value);
    logs.push(FightLog::SystemDrawCountUp(value));
}

/// Lowers the player's draw count, floored at zero.
pub fn draw_count_down_apply(logs: &mut Vec<FightLog>, value: u8, draw_count: &mut u8)
    ensures
        *final(draw_count) == vstd::math::max(*old(draw_count) - value, 0),
        final(logs)@ == old(logs)@.push(FightLog::SystemDrawCountDown(value)),
{
    *draw_count = draw_count.saturating_sub(value);
    logs.push(FightLog::SystemDrawCountDown(value));
}

/// Raises the maximum hit points, saturating at the field maximum, and heals
/// by the amount actually gained.
pub fn max_hp_up_apply(logs: &mut Vec<FightLog>, value: u16, stats: &mut CombatStats)
    requires
        old(stats).hp <= old(stats).max_hp,
    ensures
        ({
            let gained = vstd::math::min(old(stats).max_hp + value, u16::MAX as int) - old(
                stats,
            ).max_hp;
            &&& final(stats).max_hp == old(stats).max_hp + gained
            &&& final(stats).hp == old(stats).hp + gained
            &&& *final(stats) == (CombatStats {
                hp: final(stats).hp,
                max_hp: final(stats).max_hp,
                ..*old(stats)
            })
            &&& final(logs)@ == old(logs)@.push(FightLog::SystemMaxHpUp(gained as u16))
        }),
{
    let new_max = stats.max_hp.saturating_add(value);
    let gained = new_max - stats.max_hp;
    stats.max_hp = new_max;
    stats.hp = stats.hp + gained;
    logs.push(FightLog::SystemMaxHpUp(gained));
}

/// Lowers the maximum hit points, floored at zero, and lowers the current
/// hit points by the amount actually lost (floored at zero).
pub fn max_hp_down_apply(logs: &mut Vec<FightLog>, value: u16, stats: &mut CombatStats)
    ensures
        ({
            let lost = old(stats).max_hp - vstd::math::max(old(stats).max_hp - value, 0);
            &&& final(stats).max_hp == old(stats).max_hp - lost
            &&& final(stats).hp == vstd::math::max(old(stats).hp - lost, 0)
            &&& *final(stats) == (CombatStats {
                hp: final(stats).hp,
                max_hp: final(stats).max_hp,
                ..*old(stats)
            })
            &&& final(logs)@ == old(logs)@.push(FightLog::SystemMaxHpDown(lost as u16))
        }),
{
    let new_max = stats.max_hp.saturating_sub(value);
    let lost = stats.max_hp - new_max;
    stats.max_hp = new_max;
    stats.hp = stats.hp.saturating_sub(lost);
    logs.push(FightLog::SystemMaxHpDown(lost));
}

/// Lowers the cost of the card with the given identity, floored at zero, and
/// logs the new cost. Reports whether a card answered to the identity.
pub fn power_cost_down_apply(
    logs: &mut Vec<FightLog>,
    value: u8,
    offset: usize,
    player_deck: &mut WarriorDeckContext,
) -> (r: bool)
    ensures
        r == old(player_deck).referable(offset),
        !r ==> *final(player_deck) == *old(player_deck) && final(logs)@ == old(logs)@,
        final(player_deck).card_multiset() == old(player_deck).card_multiset(),
        r ==> final(logs)@.len() == old(logs)@.len() + 1 && final(logs)@.subrange(
            0,
            old(logs)@.len() as int,
        ) == old(logs)@ && (final(logs)@.last() matches FightLog::SystemPowerCostChange(o, _c) && o
            == offset),
        offsets_unchanged(*old(player_deck), *final(player_deck)),
        gameover_count(final(logs)@) == gameover_count(old(logs)@),
        old(player_deck).special_card.card.offset == offset ==> *final(player_deck)
            == (WarriorDeckContext {
            special_card: (CardContext {
                power_cost: crate::contexts::sat_sub_u8(
                    old(player_deck).special_card.power_cost,
                    value,
                ),
                ..old(player_deck).special_card
            }),
            ..*old(player_deck)
        }) && final(logs)@ == old(logs)@.push(
            FightLog::SystemPowerCostChange(
                offset,
                crate::contexts::sat_sub_u8(old(player_deck).special_card.power_cost, value),
            ),
        ),
        forall|i: int|
            old(player_deck).special_card.card.offset != offset && 0 <= i < old(
                player_deck,
            ).hand_deck@.len() && (#[trigger] old(player_deck).hand_deck@[i]).card.offset == offset
                && (forall|j: int|
                0 <= j < i ==> old(player_deck).hand_deck@[j].card.offset != offset) ==> final(player_deck).hand_deck@
                == old(player_deck).hand_deck@.update(
                i,
                (CardContext {
                    power_cost: crate::contexts::sat_sub_u8(
                        old(player_deck).hand_deck@[i].power_cost,
                        value,
                    ),
                    ..old(player_deck).hand_deck@[i]
                }),
            ) && *final(player_deck) == (WarriorDeckContext {
                hand_deck: final(player_deck).hand_deck,
                ..*old(player_deck)
            }) && final(logs)@ == old(logs)@.push(
                FightLog::SystemPowerCostChange(
                    offset,
                    crate::contexts::sat_sub_u8(old(player_deck).hand_deck@[i].power_cost, value),
                ),
            ),
        forall|i: int|
            old(player_deck).special_card.card.offset != offset && !crate::contexts::offsets_of(
                old(player_deck).hand_deck@,
            ).contains(offset) && 0 <= i < old(player_deck).deck@.len() && (#[trigger] old(
                player_deck,
            ).deck@[i]).card.offset == offset && (forall|j: int|
                0 <= j < i ==> old(player_deck).deck@[j].card.offset != offset) ==> final(player_deck).deck@
                == old(player_deck).deck@.update(
                i,
                (CardContext {
                    power_cost: crate::contexts::sat_sub_u8(
                        old(player_deck).deck@[i].power_cost,
                        value,
                    ),
                    ..old(player_deck).deck@[i]
                }),
            ) && *final(player_deck) == (WarriorDeckContext {
                deck: final(player_deck).deck,
                ..*old(player_deck)
            }) && final(logs)@ == old(logs)@.push(
                FightLog::SystemPowerCostChange(
                    offset,
                    crate::contexts::sat_sub_u8(old(player_deck).deck@[i].power_cost, value),
                ),
            ),
        forall|i: int|
            old(player_deck).special_card.card.offset != offset && !crate::contexts::offsets_of(
                old(player_deck).hand_deck@,
            ).contains(offset) && !crate::contexts::offsets_of(old(player_deck).deck@).contains(
                offset,
            ) && 0 <= i < old(player_deck).grave_deck@.len() && (#[trigger] old(
                player_deck,
            ).grave_deck@[i]).card.offset == offset && (forall|j: int|
                0 <= j < i ==> old(player_deck).grave_deck@[j].card.offset != offset) ==> final(player_deck).grave_deck@
                == old(player_deck).grave_deck@.update(
                i,
                (CardContext {
                    power_cost: crate::contexts::sat_sub_u8(
                        old(player_deck).grave_deck@[i].power_cost,
                        value,
                    ),
                    ..old(player_deck).grave_deck@[i]
                }),
            ) && *final(player_deck) == (WarriorDeckContext {
                grave_deck: final(player_deck).grave_deck,
                ..*old(player_deck)
            }) && final(logs)@ == old(logs)@.push(
                FightLog::SystemPowerCostChange(
                    offset,
                    crate::contexts::sat_sub_u8(old(player_deck).grave_deck@[i].power_cost, value),
                ),
            ),
{
    match player_deck.card_cost_down(offset, value) {
        Some(cost) => {
            logs.push(FightLog::SystemPowerCostChange(offset, cost));
            proof {
                assert(logs@.subrange(0, old(logs)@.len() as int) =~= old(logs)@);
            }
            true
        },
        None => false,
    }
}

/// The identity layout of the deck state is untouched: every pile holds the
/// same card identities in the same order.
pub open spec fn offsets_unchanged(a: WarriorDeckContext, b: WarriorDeckContext) -> bool {
    &&& crate::contexts::offsets_of(b.hand_deck@) == crate::contexts::offsets_of(a.hand_deck@)
    &&& crate::contexts::offsets_of(b.deck@) == crate::contexts::offsets_of(a.deck@)
    &&& crate::contexts::offsets_of(b.grave_deck@) == crate::contexts::offsets_of(a.grave_deck@)
    &&& b.special_card.card.offset == a.special_card.card.offset
    &&& b.unavaliable_deck == a.unavaliable_deck
    &&& b.unbelonging_deck == a.unbelonging_deck
}

/// Where a battle-scoped identity points among the addressable participants.
#[derive(Clone, Copy, Debug, PartialEq, Eq, Structural)]
pub enum Located {
    IsPlayer,
    IsEnemy(usize),
    IsCard,
    NotFound,
}

/// Resolves an identity against the player, the enemies, and the addressable
/// card piles, in that order.
pub fn locate(
    offset: usize,
    player: &WarriorContext,
    opponents: &Vec<EnemyContext>,
    player_deck: &WarriorDeckContext,
) -> (r: Located)
    ensures
        r == Located::IsPlayer <==> offset == player.offset,
        r matches Located::IsEnemy(i) ==> i < opponents@.len() && opponents@[i as int].offset
            == offset && offset != player.offset && (forall|j: int|
            0 <= j < i ==> opponents@[j].offset != offset),
        r == Located::IsCard ==> player_deck.referable(offset) && offset != player.offset && (
        forall|i: int| 0 <= i < opponents@.len() ==> opponents@[i].offset != offset),
        r == Located::NotFound ==> offset != player.offset && !player_deck.referable(offset)
            && (forall|i: int| 0 <= i < opponents@.len() ==> opponents@[i].offset != offset),
{
    if offset == player.offset {
        return Located::IsPlayer;
    }
    let mut i: usize = 0;
    while i < opponents.len()
        invariant
            i <= opponents@.len(),
            offset != player.offset,
            forall|j: int| 0 <= j < i ==> opponents@[j].offset != offset,
        decreases opponents@.len() - i,
    {
        if opponents[i].offset == offset {
            return Located::IsEnemy(i);
        }
        i += 1;
    }
    if player_deck.refer_card(offset).is_some() {
        return Located::IsCard;
    }
    Located::NotFound
}

/// The attack stat and attack weaken counter of the caster: a card or an
/// unresolved caster contributes no bonus and no debuff.
pub fn caster_offense(
    caster: usize,
    player: &WarriorContext,
    opponents: &Vec<EnemyContext>,
) -> (r: (u8, u8))
    requires
        crate::systems::combat_wf(*player, opponents@),
    ensures
        caster == player.offset ==> r == (player.stats.attack, player.stats.attack_weak),
        forall|i: int|
            caster != player.offset && 0 <= i < opponents@.len() && (#[trigger] opponents@[i]).offset
                == caster && (forall|j: int| 0 <= j < i ==> opponents@[j].offset != caster) ==> r
                == (opponents@[i].stats.attack, opponents@[i].stats.attack_weak),
        caster != player.offset && (forall|i: int|
            0 <= i < opponents@.len() ==> (#[trigger] opponents@[i]).offset != caster) ==> r == (
        0u8, 0u8),
        distinct_offsets(*player, opponents@) ==> r == caster_offense_of(
            caster,
            *player,
            opponents@,
        ),
        r.1 <= MAX_WEAK_COUNT,
{
    if caster == player.offset {
        return (player.stats.attack, player.stats.attack_weak);
    }
    let mut i: usize = 0;
    while i < opponents.len()
        invariant
            i <= opponents@.len(),
            caster != player.offset,
            crate::systems::combat_wf(*player, opponents@),
            forall|j: int| 0 <= j < i ==> (#[trigger] opponents@[j]).offset != caster,
        decreases opponents@.len() - i,
    {
        if opponents[i].offset == caster {
            return (opponents[i].stats.attack, opponents[i].stats.attack_weak);
        }
        i += 1;
    }
    (0, 0)
}


/// The statistics after `n` identical hits, each computed like a single one.
pub open spec fn stats_after_hits(n: nat, raw: u16, add: u8, weak: u8, s: CombatStats) -> CombatStats
    decreases n,
{
    if n == 0 {
        s
    } else {
        fighter_stats_after(
            StatOp::Damage(raw, add, weak),
            stats_after_hits((n - 1) as nat, raw, add, weak, s),
        )
    }
}

/// Whether an effect only ever applies to the player.
pub open spec fn warrior_only_op(op: StatOp) -> bool {
    match op {
        StatOp::DrawCountUp(_) => true,
        StatOp::DrawCountDown(_) => true,
        StatOp::MaxHpUp(_) => true,
        StatOp::MaxHpDown(_) => true,
        _ => false,
    }
}

/// Whether an effect only ever applies to a card.
pub open spec fn card_only_op(op: StatOp) -> bool {
    op matches StatOp::PowerCostDown(_)
}

/// What one effect does to a participant's statistics. Every update clamps
/// to `[0, field maximum]`; the weaken counters clamp to the weaken cap.
pub open spec fn fighter_stats_after(op: StatOp, s: CombatStats) -> CombatStats {
    match op {
        StatOp::Damage(v, a, w) => {
            let dmg = scaled_amount(v, a, w);
            CombatStats {
                shield: shield_after_damage(s.shield, dmg) as u16,
                armor: armor_after_damage(s.shield, s.armor, dmg) as u16,
                hp: hp_after_damage(s, dmg) as u16,
                ..s
            }
        },
        StatOp::Heal(v) => CombatStats { hp: (s.hp + heal_amount(s, v)) as u16, ..s },
        StatOp::ArmorUp(v) => CombatStats {
            armor: vstd::math::min(s.armor + buffed_gain(v, s.defense, s.defense_weak), u16::MAX as int) as u16,
            ..s
        },
        StatOp::ArmorDown(v) => CombatStats { armor: vstd::math::max(s.armor - v, 0) as u16, ..s },
        StatOp::ShieldUp(v) => CombatStats {
            shield: vstd::math::min(s.shield + buffed_gain(v, s.defense, s.defense_weak), u16::MAX as int) as u16,
            ..s
        },
        StatOp::ShieldDown(v) => CombatStats { shield: vstd::math::max(s.shield - v, 0) as u16, ..s },
        StatOp::AttackUp(v) => CombatStats {
            attack: vstd::math::min(s.attack + v, u8::MAX as int) as u8,
            ..s
        },
        StatOp::AttackDown(v) => CombatStats { attack: vstd::math::max(s.attack - v, 0) as u8, ..s },
        StatOp::AttackWeakUp(v) => CombatStats {
            attack_weak: vstd::math::min(s.attack_weak + v, MAX_WEAK_COUNT as int) as u8,
            ..s
        },
        StatOp::AttackWeakDown(v) => CombatStats {
            attack_weak: vstd::math::max(s.attack_weak - v, 0) as u8,
            ..s
        },
        StatOp::DefenseUp(v) => CombatStats {
            defense: vstd::math::min(s.defense + v, u8::MAX as int) as u8,
            ..s
        },
        StatOp::DefenseDown(v) => CombatStats { defense: vstd::math::max(s.defense - v, 0) as u8, ..s },
        StatOp::DefenseWeakUp(v) => CombatStats {
            defense_weak: vstd::math::min(s.defense_weak + v, MAX_WEAK_COUNT as int) as u8,
            ..s
        },
        StatOp::DefenseWeakDown(v) => CombatStats {
            defense_weak: vstd::math::max(s.defense_weak - v, 0) as u8,
            ..s
        },
        StatOp::MaxHpUp(v) => {
            let gained = vstd::math::min(s.max_hp + v, u16::MAX as int) - s.max_hp;
            CombatStats { hp: (s.hp + gained) as u16, max_hp: (s.max_hp + gained) as u16, ..s }
        },
        StatOp::MaxHpDown(v) => {
            let lost = s.max_hp - vstd::math::max(s.max_hp - v, 0);
            CombatStats {
                hp: vstd::math::max(s.hp - lost, 0) as u16,
                max_hp: (s.max_hp - lost) as u16,
                ..s
            }
        },
        StatOp::DrawCountUp(_) => s,
        StatOp::DrawCountDown(_) => s,
        StatOp::PowerCostDown(_) => s,
    }
}

/// What one effect does to an enemy's statistics: player-only and card-only
/// effects are skipped.
pub open spec fn enemy_stats_after(op: StatOp, s: CombatStats) -> CombatStats {
    if warrior_only_op(op) || card_only_op(op) {
        s
    } else {
        fighter_stats_after(op, s)
    }
}

/// What one effect does to the player: the statistics change, and the draw
/// count for the draw-count effects.
pub open spec fn warrior_after(op: StatOp, w: WarriorContext) -> WarriorContext {
    WarriorContext {
        stats: fighter_stats_after(op, w.stats),
        draw_count: match op {
            StatOp::DrawCountUp(v) => vstd::math::min(w.draw_count + v, u8::MAX as int) as u8,
            StatOp::DrawCountDown(v) => vstd::math::max(w.draw_count - v, 0) as u8,
            _ => w.draw_count,
        },
        ..w
    }
}

/// The saturation law: whatever the magnitude of an effect's parameters, a
/// statistics update lands inside its documented ranges — every field stays
/// within `[0, field maximum]` by construction, the weaken counters never
/// pass their cap, and hit points never pass their maximum.
pub proof fn lemma_stat_update_bounds(op: StatOp, s: CombatStats)
    requires
        crate::systems::stats_wf(s),
        stat_op_wf(op),
    ensures
        crate::systems::stats_wf(fighter_stats_after(op, s)),
        fighter_stats_after(op, s).attack_weak <= MAX_WEAK_COUNT,
        fighter_stats_after(op, s).defense_weak <= MAX_WEAK_COUNT,
        fighter_stats_after(op, s).hp <= fighter_stats_after(op, s).max_hp,
{
}

/// The participants' identities are coherent: no enemy shares the player's
/// identity and no two enemies share one. The battle invariant guarantees
/// this; effect application is exact under it.
pub open spec fn distinct_offsets(p: WarriorContext, os: Seq<EnemyContext>) -> bool {
    &&& forall|i: int| 0 <= i < os.len() ==> (#[trigger] os[i]).offset != p.offset
    &&& forall|i: int, j: int| 0 <= i < j < os.len() ==> os[i].offset != os[j].offset
}

/// Whether an identity resolves to a damageable fighter: the player or some
/// enemy.
pub open spec fn is_fighter_offset(o: usize, p: WarriorContext, os: Seq<EnemyContext>) -> bool {
    o == p.offset || exists|i: int| 0 <= i < os.len() && (#[trigger] os[i]).offset == o
}

/// How many of the target identities resolve to a damageable fighter.
pub open spec fn fighter_target_count(
    targets: Seq<usize>,
    p: WarriorContext,
    os: Seq<EnemyContext>,
) -> nat
    decreases targets.len(),
{
    if targets.len() == 0 {
        0
    } else {
        fighter_target_count(targets.drop_last(), p, os) + (if is_fighter_offset(
            targets.last(),
            p,
            os,
        ) {
            1nat
        } else {
            0nat
        })
    }
}

/// The offense the caster contributes: the player's or the designated
/// enemy's attack stat and weaken counter; a card or unresolved caster
/// contributes nothing.
pub open spec fn caster_offense_of(caster: usize, p: WarriorContext, os: Seq<EnemyContext>) -> (
    u8,
    u8,
) {
    if caster == p.offset {
        (p.stats.attack, p.stats.attack_weak)
    } else if exists|i: int| 0 <= i < os.len() && (#[trigger] os[i]).offset == caster {
        let i = choose|i: int| 0 <= i < os.len() && (#[trigger] os[i]).offset == caster;
        (os[i].stats.attack, os[i].stats.attack_weak)
    } else {
        (0u8, 0u8)
    }
}

/// The fighter tally depends only on the participants' identities.
pub proof fn lemma_fighter_count_same_offsets(
    targets: Seq<usize>,
    p1: WarriorContext,
    os1: Seq<EnemyContext>,
    p2: WarriorContext,
    os2: Seq<EnemyContext>,
)
    requires
        p1.offset == p2.offset,
        os1.len() == os2.len(),
        forall|i: int| 0 <= i < os1.len() ==> (#[trigger] os1[i]).offset == os2[i].offset,
    ensures
        fighter_target_count(targets, p1, os1) == fighter_target_count(targets, p2, os2),
    decreases targets.len(),
{
    if targets.len() > 0 {
        lemma_fighter_count_same_offsets(targets.drop_last(), p1, os1, p2, os2);
        assert(is_fighter_offset(targets.last(), p1, os1) == is_fighter_offset(
            targets.last(),
            p2,
            os2,
        )) by {
            if exists|i: int| 0 <= i < os1.len() && (#[trigger] os1[i]).offset == targets.last() {
                let i = choose|i: int|
                    0 <= i < os1.len() && (#[trigger] os1[i]).offset == targets.last();
                assert(os2[i].offset == targets.last());
            }
            if exists|i: int| 0 <= i < os2.len() && (#[trigger] os2[i]).offset == targets.last() {
                let i = choose|i: int|
                    0 <= i < os2.len() && (#[trigger] os2[i]).offset == targets.last();
                assert(os1[i].offset == targets.last());
            }
        }
    }
}

/// One statistic-level effect, with every parameter it needs embedded.
#[derive(Clone, Copy, Debug)]
pub enum StatOp {
    Damage(u16, u8, u8),
    Heal(u16),
    ArmorUp(u16),
    ArmorDown(u16),
    ShieldUp(u16),
    ShieldDown(u16),
    AttackUp(u8),
    AttackDown(u8),
    AttackWeakUp(u8),
    AttackWeakDown(u8),
    DefenseUp(u8),
    DefenseDown(u8),
    DefenseWeakUp(u8),
    DefenseWeakDown(u8),
    DrawCountUp(u8),
    DrawCountDown(u8),
    MaxHpUp(u16),
    MaxHpDown(u16),
    PowerCostDown(u8),
}

/// The damage parameters carry a capped weaken counter.
pub open spec fn stat_op_wf(op: StatOp) -> bool {
    op matches StatOp::Damage(_, _, wk) ==> wk <= MAX_WEAK_COUNT
}

/// Applies one effect to the player. Card-only effects are skipped by
/// design. The identity, template, and resources no effect addresses stay
/// untouched, and the statistics stay inside their documented ranges.
pub fn apply_warrior_op(
    op: StatOp,
    offset: usize,
    player: &mut WarriorContext,
    logs: &mut Vec<FightLog>,
)
    requires
        crate::systems::stats_wf(old(player).stats),
        stat_op_wf(op),
    ensures
        crate::systems::stats_wf(final(player).stats),
        *final(player) == warrior_after(op, *old(player)),
        final(logs)@.len() >= old(logs)@.len(),
        gameover_count(final(logs)@) == gameover_count(old(logs)@),
        forall|v: u16, at: u8, wk: u8|
            op == StatOp::Damage(v, at, wk) ==> final(logs)@ == old(logs)@.push(
                FightLog::SystemDamage(offset, v),
            ),
        forall|v: u16|
            op == StatOp::Heal(v) ==> final(logs)@ == old(logs)@.push(
                FightLog::SystemRecoverHp(offset, heal_amount(old(player).stats, v) as u16),
            ),
        forall|v: u8|
            op == StatOp::AttackUp(v) ==> final(logs)@ == old(logs)@.push(
                FightLog::SystemAttackPowerUp(offset, v),
            ),
        forall|v: u8|
            op == StatOp::AttackDown(v) ==> final(logs)@ == old(logs)@.push(
                FightLog::SystemAttackPowerDown(offset, v),
            ),
{
    match op {
        StatOp::Damage(value, attack, attack_weak) => {
            attack_apply(logs, value, attack, attack_weak, offset, &mut player.stats);
        },
        StatOp::Heal(value) => {
            healing_apply(logs, value, offset, &mut player.stats);
        },
        StatOp::ArmorUp(value) => {
            armor_up_apply(logs, value, offset, &mut player.stats);
        },
        StatOp::ArmorDown(value) => {
            player.stats.armor = player.stats.armor.saturating_sub(value);
            logs.push(FightLog::SystemArmorDown(offset, value));
        },
        StatOp::ShieldUp(value) => {
            shield_up_apply(logs, value, offset, &mut player.stats);
        },
        StatOp::ShieldDown(value) => {
            player.stats.shield = player.stats.shield.saturating_sub(value);
            logs.push(FightLog::SystemShieldDown(offset, value));
        },
        StatOp::AttackUp(value) => {
            player.stats.attack = player.stats.attack.saturating_add(value);
            logs.push(FightLog::SystemAttackPowerUp(offset, value));
        },
        StatOp::AttackDown(value) => {
            player.stats.attack = player.stats.attack.saturating_sub(value);
            logs.push(FightLog::SystemAttackPowerDown(offset, value));
        },
        StatOp::AttackWeakUp(value) => {
            attack_power_weak_apply(logs, value, offset, &mut player.stats);
        },
        StatOp::AttackWeakDown(value) => {
            player.stats.attack_weak = player.stats.attack_weak.saturating_sub(value);
            logs.push(FightLog::SystemAttackWeakDown(offset, value));
        },
        StatOp::DefenseUp(value) => {
            player.stats.defense = player.stats.defense.saturating_add(value);
            logs.push(FightLog::SystemDefensePowerUp(offset, value));
        },
        StatOp::DefenseDown(value) => {
            player.stats.defense = player.stats.defense.saturating_sub(value);
            logs.push(FightLog::SystemDefensePowerDown(offset, value));
        },
        StatOp::DefenseWeakUp(value) => {
            defense_power_weak_apply(logs, value, offset, &mut player.stats);
        },
        StatOp::DefenseWeakDown(value) => {
            player.stats.defense_weak = player.stats.defense_weak.saturating_sub(value);
            logs.push(FightLog::SystemDefenseWeakDown(offset, value));
        },
        StatOp::DrawCountUp(value) => {
            draw_count_up_apply(logs, value, &mut player.draw_count);
        },
        StatOp::DrawCountDown(value) => {
            draw_count_down_apply(logs, value, &mut player.draw_count);
        },
        StatOp::MaxHpUp(value) => {
            max_hp_up_apply(logs, value, &mut player.stats);
        },
        StatOp::MaxHpDown(value) => {
            max_hp_down_apply(logs, value, &mut player.stats);
        },
        StatOp::PowerCostDown(_) => {},
    }
}

/// Applies one effect to an enemy's statistics. Player-only and card-only
/// effects are skipped by design.
pub fn apply_enemy_op(op: StatOp, offset: usize, stats: &mut CombatStats, logs: &mut Vec<FightLog>)
    requires
        crate::systems::stats_wf(*old(stats)),
        stat_op_wf(op),
    ensures
        crate::systems::stats_wf(*final(stats)),
        *final(stats) == enemy_stats_after(op, *old(stats)),
        final(logs)@.len() >= old(logs)@.len(),
        gameover_count(final(logs)@) == gameover_count(old(logs)@),
        forall|v: u16, at: u8, wk: u8|
            op == StatOp::Damage(v, at, wk) ==> final(logs)@ == old(logs)@.push(
                FightLog::SystemDamage(offset, v),
            ),
{
    match op {
        StatOp::Damage(value, attack, attack_weak) => {
            attack_apply(logs, value, attack, attack_weak, offset, stats);
        },
        StatOp::Heal(value) => {
            healing_apply(logs, value, offset, stats);
        },
        StatOp::ArmorUp(value) => {
            armor_up_apply(logs, value, offset, stats);
        },
        StatOp::ArmorDown(value) => {
            stats.armor = stats.armor.saturating_sub(value);
            logs.push(FightLog::SystemArmorDown(offset, value));
        },
        StatOp::ShieldUp(value) => {
            shield_up_apply(logs, value, offset, stats);
        },
        StatOp::ShieldDown(value) => {
            stats.shield = stats.shield.saturating_sub(value);
            logs.push(FightLog::SystemShieldDown(offset, value));
        },
        StatOp::AttackUp(value) => {
            stats.attack = stats.attack.saturating_add(value);
            logs.push(FightLog::SystemAttackPowerUp(offset, value));
        },
        StatOp::AttackDown(value) => {
            stats.attack = stats.attack.saturating_sub(value);
            logs.push(FightLog::SystemAttackPowerDown(offset, value));
        },
        StatOp::AttackWeakUp(value) => {
            attack_power_weak_apply(logs, value, offset, stats);
        },
        StatOp::AttackWeakDown(value) => {
            stats.attack_weak = stats.attack_weak.saturating_sub(value);
            logs.push(FightLog::SystemAttackWeakDown(offset, value));
        },
        StatOp::DefenseUp(value) => {
            stats.defense = stats.defense.saturating_add(value);
            logs.push(FightLog::SystemDefensePowerUp(offset, value));
        },
        StatOp::DefenseDown(value) => {
            stats.defense = stats.defense.saturating_sub(value);
            logs.push(FightLog::SystemDefensePowerDown(offset, value));
        },
        StatOp::DefenseWeakUp(value) => {
            defense_power_weak_apply(logs, value, offset, stats);
        },
        StatOp::DefenseWeakDown(value) => {
            stats.defense_weak = stats.defense_weak.saturating_sub(value);
            logs.push(FightLog::SystemDefenseWeakDown(offset, value));
        },
        StatOp::DrawCountUp(_) => {},
        StatOp::DrawCountDown(_) => {},
        StatOp::MaxHpUp(_) => {},
        StatOp::MaxHpDown(_) => {},
        StatOp::PowerCostDown(_) => {},
    }
}

/// Applies one effect to whatever the identity resolves to; an identity with
/// no participant behind it is skipped, as target resolution already vouched
/// for it.
pub fn apply_one(
    op: StatOp,
    offset: usize,
    player: &mut WarriorContext,
    opponents: &mut Vec<EnemyContext>,
    player_deck: &mut WarriorDeckContext,
    logs: &mut Vec<FightLog>,
)
    requires
        crate::systems::combat_wf(*old(player), old(opponents)@),
        stat_op_wf(op),
    ensures
        crate::systems::combat_wf(*final(player), final(opponents)@),
        crate::systems::handler_frame(
            *old(player),
            *final(player),
            old(opponents)@,
            final(opponents)@,
            *old(player_deck),
            *final(player_deck),
        ),
        final(player).mounting_systems == old(player).mounting_systems,
        gameover_count(final(logs)@) == gameover_count(old(logs)@),
        forall|i: int|
            0 <= i < old(opponents)@.len() ==> (#[trigger] final(opponents)@[i]).mounting_systems
                == old(opponents)@[i].mounting_systems,
        offset == old(player).offset ==> *final(player) == warrior_after(op, *old(player))
            && final(opponents)@ == old(opponents)@ && *final(player_deck) == *old(player_deck),
        forall|v: u16|
            offset == old(player).offset && op == StatOp::Heal(v) ==> final(logs)@ == old(
                logs,
            )@.push(FightLog::SystemRecoverHp(offset, heal_amount(old(player).stats, v) as u16)),
        forall|v: u8|
            offset == old(player).offset && op == StatOp::AttackUp(v) ==> final(logs)@ == old(
                logs,
            )@.push(FightLog::SystemAttackPowerUp(offset, v)),
        forall|v: u8|
            offset == old(player).offset && op == StatOp::AttackDown(v) ==> final(logs)@ == old(
                logs,
            )@.push(FightLog::SystemAttackPowerDown(offset, v)),
        forall|i: int|
            0 <= i < old(opponents)@.len() && (#[trigger] old(opponents)@[i]).offset == offset
                && offset != old(player).offset && (forall|j: int|
                0 <= j < i ==> old(opponents)@[j].offset != offset) ==> final(opponents)@ == old(
                opponents,
            )@.update(
                i,
                (EnemyContext {
                    stats: enemy_stats_after(op, old(opponents)@[i].stats),
                    ..old(opponents)@[i]
                }),
            ) && *final(player) == *old(player) && *final(player_deck) == *old(player_deck),
        offset != old(player).offset && (forall|i: int|
            0 <= i < old(opponents)@.len() ==> (#[trigger] old(opponents)@[i]).offset != offset)
            && !old(player_deck).referable(offset) ==> *final(player) == *old(player)
            && final(opponents)@ == old(opponents)@ && *final(player_deck) == *old(player_deck),
        offset != old(player).offset && (forall|i: int|
            0 <= i < old(opponents)@.len() ==> (#[trigger] old(opponents)@[i]).offset != offset)
            ==> *final(player) == *old(player) && final(opponents)@ == old(opponents)@ && (
        !card_only_op(op) ==> *final(player_deck) == *old(player_deck) && final(logs)@ == old(
            logs,
        )@),
        op matches StatOp::Damage(_v, _a, _w) ==> damage_count(final(logs)@) == damage_count(
            old(logs)@,
        ) + (if is_fighter_offset(offset, *old(player), old(opponents)@) {
            1nat
        } else {
            0nat
        }),
{
    match locate(offset, player, opponents, player_deck) {
        Located::IsPlayer => {
            apply_warrior_op(op, offset, player, logs);
        },
        Located::IsEnemy(i) => {
            let mut enemy = opponents.remove(i);
            apply_enemy_op(op, offset, &mut enemy.stats, logs);
            opponents.insert(i, enemy);
            proof {
                assert(opponents@ =~= old(opponents)@.update(i as int, opponents@[i as int]));
            }
        },
        Located::IsCard => {
            if let StatOp::PowerCostDown(value) = op {
                power_cost_down_apply(logs, value, offset, player_deck);
            }
        },
        Located::NotFound => {},
    }
}

/// Applies one effect to every target identity in order.
#[verifier::rlimit(60)]
pub fn apply_to_targets(
    op: StatOp,
    targets: &Vec<usize>,
    player: &mut WarriorContext,
    opponents: &mut Vec<EnemyContext>,
    player_deck: &mut WarriorDeckContext,
    logs: &mut Vec<FightLog>,
)
    requires
        crate::systems::combat_wf(*old(player), old(opponents)@),
        stat_op_wf(op),
    ensures
        crate::systems::combat_wf(*final(player), final(opponents)@),
        crate::systems::handler_frame(
            *old(player),
            *final(player),
            old(opponents)@,
            final(opponents)@,
            *old(player_deck),
            *final(player_deck),
        ),
        final(player).mounting_systems == old(player).mounting_systems,
        gameover_count(final(logs)@) == gameover_count(old(logs)@),
        forall|i: int|
            0 <= i < old(opponents)@.len() ==> (#[trigger] final(opponents)@[i]).mounting_systems
                == old(opponents)@[i].mounting_systems,
        targets@.len() == 1 && targets@[0] == old(player).offset ==> *final(player)
            == warrior_after(op, *old(player)) && final(opponents)@ == old(opponents)@ && *final(player_deck)
            == *old(player_deck),
        forall|v: u16|
            targets@.len() == 1 && targets@[0] == old(player).offset && op == StatOp::Heal(v)
                ==> final(logs)@ == old(logs)@.push(
                FightLog::SystemRecoverHp(targets@[0], heal_amount(old(player).stats, v) as u16),
            ),
        forall|v: u8|
            targets@.len() == 1 && targets@[0] == old(player).offset && op == StatOp::AttackUp(v)
                ==> final(logs)@ == old(logs)@.push(FightLog::SystemAttackPowerUp(targets@[0], v)),
        forall|v: u8|
            targets@.len() == 1 && targets@[0] == old(player).offset && op == StatOp::AttackDown(
                v,
            ) ==> final(logs)@ == old(logs)@.push(FightLog::SystemAttackPowerDown(targets@[0], v)),
        forall|i: int|
            targets@.len() == 1 && 0 <= i < old(opponents)@.len() && (#[trigger] old(
                opponents,
            )@[i]).offset == targets@[0] && targets@[0] != old(player).offset && (forall|j: int|
                0 <= j < i ==> old(opponents)@[j].offset != targets@[0]) ==> final(opponents)@
                == old(opponents)@.update(
                i,
                (EnemyContext {
                    stats: enemy_stats_after(op, old(opponents)@[i].stats),
                    ..old(opponents)@[i]
                }),
            ) && *final(player) == *old(player) && *final(player_deck) == *old(player_deck),
        distinct_offsets(*old(player), old(opponents)@) && targets@.no_duplicates() ==> {
            &&& (targets@.contains(old(player).offset) ==> *final(player) == warrior_after(
                op,
                *old(player),
            ))
            &&& (!targets@.contains(old(player).offset) ==> *final(player) == *old(player))
            &&& forall|i: int|
                0 <= i < old(opponents)@.len() ==> (#[trigger] final(opponents)@[i])
                    == (EnemyContext {
                    stats: if targets@.contains(old(opponents)@[i].offset) {
                        enemy_stats_after(op, old(opponents)@[i].stats)
                    } else {
                        old(opponents)@[i].stats
                    },
                    ..old(opponents)@[i]
                })
            &&& (!card_only_op(op) ==> *final(player_deck) == *old(player_deck))
            &&& (op matches StatOp::Damage(_v, _a, _w) ==> damage_count(final(logs)@)
                == damage_count(old(logs)@) + fighter_target_count(
                targets@,
                *old(player),
                old(opponents)@,
            ))
        },
{
    let mut k: usize = 0;
    while k < targets.len()
        invariant
            k <= targets@.len(),
            k == 0 ==> *player == *old(player) && opponents@ == old(opponents)@ && *player_deck
                == *old(player_deck) && logs@ == old(logs)@,
            forall|v: u16|
                targets@.len() == 1 && k == 1 && targets@[0] == old(player).offset && op
                    == StatOp::Heal(v) ==> logs@ == old(logs)@.push(
                    FightLog::SystemRecoverHp(
                        targets@[0],
                        heal_amount(old(player).stats, v) as u16,
                    ),
                ),
            forall|v: u8|
                targets@.len() == 1 && k == 1 && targets@[0] == old(player).offset && op
                    == StatOp::AttackUp(v) ==> logs@ == old(logs)@.push(
                    FightLog::SystemAttackPowerUp(targets@[0], v),
                ),
            forall|v: u8|
                targets@.len() == 1 && k == 1 && targets@[0] == old(player).offset && op
                    == StatOp::AttackDown(v) ==> logs@ == old(logs)@.push(
                    FightLog::SystemAttackPowerDown(targets@[0], v),
                ),
            crate::systems::combat_wf(*player, opponents@),
            stat_op_wf(op),
            crate::systems::handler_frame(
                *old(player),
                *player,
                old(opponents)@,
                opponents@,
                *old(player_deck),
                *player_deck,
            ),
            player.mounting_systems == old(player).mounting_systems,
            gameover_count(logs@) == gameover_count(old(logs)@),
            forall|i: int|
                0 <= i < old(opponents)@.len() ==> (#[trigger] opponents@[i]).mounting_systems
                    == old(opponents)@[i].mounting_systems,
            targets@.len() == 1 && k == 1 && targets@[0] == old(player).offset ==> *player
                == warrior_after(op, *old(player)) && opponents@ == old(opponents)@ && *player_deck
                == *old(player_deck),
            forall|i: int|
                targets@.len() == 1 && k == 1 && 0 <= i < old(opponents)@.len() && (#[trigger] old(
                    opponents,
                )@[i]).offset == targets@[0] && targets@[0] != old(player).offset && (forall|j: int|
                    0 <= j < i ==> old(opponents)@[j].offset != targets@[0]) ==> opponents@ == old(
                    opponents,
                )@.update(
                    i,
                    (EnemyContext {
                        stats: enemy_stats_after(op, old(opponents)@[i].stats),
                        ..old(opponents)@[i]
                    }),
                ) && *player == *old(player) && *player_deck == *old(player_deck),
            distinct_offsets(*old(player), old(opponents)@) && targets@.no_duplicates() ==> {
                &&& (targets@.take(k as int).contains(old(player).offset) ==> *player
                    == warrior_after(op, *old(player)))
                &&& (!targets@.take(k as int).contains(old(player).offset) ==> *player == *old(
                    player,
                ))
                &&& forall|i: int|
                    0 <= i < old(opponents)@.len() ==> (#[trigger] opponents@[i]) == (EnemyContext {
                        stats: if targets@.take(k as int).contains(old(opponents)@[i].offset) {
                            enemy_stats_after(op, old(opponents)@[i].stats)
                        } else {
                            old(opponents)@[i].stats
                        },
                        ..old(opponents)@[i]
                    })
                &&& (!card_only_op(op) ==> *player_deck == *old(player_deck))
                &&& (op matches StatOp::Damage(_v, _a, _w) ==> damage_count(logs@) == damage_count(
                    old(logs)@,
                ) + fighter_target_count(targets@.take(k as int), *old(player), old(opponents)@))
            },
        decreases targets.len() - k,
    {
        let ghost before_p = *player;
        let ghost before_o = opponents@;
        let ghost before_l = logs@;
        apply_one(op, targets[k], player, opponents, player_deck, logs);
        proof {
            if distinct_offsets(*old(player), old(opponents)@) && targets@.no_duplicates() {
                let tk = targets@[k as int];
                assert(targets@.take(k + 1).drop_last() =~= targets@.take(k as int));
                assert(targets@.take(k + 1).last() == tk);
                assert(targets@.take(k + 1)[k as int] == tk);
                assert forall|j: int|
                    0 <= j < before_o.len() implies (#[trigger] before_o[j]).offset == old(
                    opponents,
                )@[j].offset by {
                    assert(before_o[j] == (EnemyContext {
                        stats: if targets@.take(k as int).contains(old(opponents)@[j].offset) {
                            enemy_stats_after(op, old(opponents)@[j].stats)
                        } else {
                            old(opponents)@[j].stats
                        },
                        ..old(opponents)@[j]
                    }));
                }
                assert forall|x: usize|
                    targets@.take(k as int).contains(x) implies #[trigger] targets@.take(
                    k + 1,
                ).contains(x) by {
                    let j = choose|j: int|
                        0 <= j < k && #[trigger] targets@.take(k as int)[j] == x;
                    assert(targets@.take(k + 1)[j] == x);
                }
                assert forall|x: usize|
                    x != tk && targets@.take(k + 1).contains(x) implies #[trigger] targets@.take(
                    k as int,
                ).contains(x) by {
                    let j = choose|j: int|
                        0 <= j <= k && #[trigger] targets@.take(k + 1)[j] == x;
                    assert(j < k);
                    assert(targets@.take(k as int)[j] == x);
                }
                assert(!targets@.take(k as int).contains(tk)) by {
                    if targets@.take(k as int).contains(tk) {
                        let j = choose|j: int|
                            0 <= j < k && #[trigger] targets@.take(k as int)[j] == tk;
                        assert(targets@[j] == targets@[k as int]);
                    }
                }
                if tk == old(player).offset {
                    assert(before_p == *old(player));
                    assert(tk == before_p.offset);
                    assert(*player == warrior_after(op, before_p));
                    assert(opponents@ == before_o);
                } else if is_fighter_offset(tk, *old(player), old(opponents)@) {
                    let i0 = choose|i: int|
                        0 <= i < old(opponents)@.len() && (#[trigger] old(opponents)@[i]).offset
                            == tk;
                    assert(before_o[i0].offset == tk);
                    assert(forall|j: int| 0 <= j < i0 ==> (#[trigger] before_o[j]).offset != tk);
                    assert(before_o[i0].stats == old(opponents)@[i0].stats);
                    assert(opponents@ == before_o.update(
                        i0,
                        (EnemyContext {
                            stats: enemy_stats_after(op, before_o[i0].stats),
                            ..before_o[i0]
                        }),
                    ));
                    assert forall|i: int| 0 <= i < old(opponents)@.len() implies (
                    #[trigger] opponents@[i]) == (EnemyContext {
                        stats: if targets@.take(k + 1).contains(old(opponents)@[i].offset) {
                            enemy_stats_after(op, old(opponents)@[i].stats)
                        } else {
                            old(opponents)@[i].stats
                        },
                        ..old(opponents)@[i]
                    }) by {
                        if i == i0 {
                        } else {
                            assert(old(opponents)@[i].offset != tk);
                            assert(opponents@[i] == before_o[i]);
                        }
                    }
                } else {
                    assert(forall|i: int|
                        0 <= i < before_o.len() ==> (#[trigger] before_o[i]).offset != tk);
                    assert(*player == before_p);
                    assert(opponents@ == before_o);
                }
            }
        }
        k += 1;
    }
    proof {
        assert(targets@.take(targets@.len() as int) =~= targets@);
    }
}

} // verus!
