use vstd::prelude::*;

verus! {

use crate::battle::traits::{gameover_count, FightLog};

broadcast use crate::battle::traits::lemma_gameover_count_push;

use crate::contexts::{
    CardContext, EnemyContext, SystemContext, WarriorContext, WarriorDeckContext,
};

use crate::errors::Error;
use crate::rng::SporeRng;
use crate::systems::applications::{apply_to_targets, caster_offense, StatOp};
use crate::systems::{
    combat_wf, handler_frame, is_veto, veto_input, veto_post, Command, DeckSource, DeckType,
    SystemInput, SystemReturn,
};
use crate::wrappings::{Card, System, Value};




/// Whether some template in the session's system pool carries this id.
pub open spec fn pool_has_id(pool: Seq<System>, id: u16) -> bool {
    exists|i: int| 0 <= i < pool.len() && (#[trigger] pool[i]).id == id
}

/// The trailing arguments of a damage template name follow-up effects in
/// pairs: a chaining flag (always one) and the id of a template of the
/// session's system pool. An incomplete trailing pair is ignored.
pub open spec fn chain_pairs_ok(args: Seq<Value>, pool: Seq<System>) -> bool {
    forall|j: int|
        0 <= j && 2 * j + 2 < args.len() ==> (#[trigger] args[2 * j + 1]).0 == 1 && pool_has_id(
            pool,
            args[2 * j + 2].0,
        )
}

/// How many cards of the session's card pool carry the given class code.
pub open spec fn class_pool_count(pool: Seq<Card>, class: u16) -> nat
    decreases pool.len(),
{
    if pool.len() == 0 {
        0
    } else {
        class_pool_count(pool.drop_last(), class) + (if pool.last().class as u16 == class {
            1nat
        } else {
            0nat
        })
    }
}

/// The argument-decoding error of a draw-selection template, if any: too few
/// arguments, a broken deck code, or — for a materialized draw — a missing
/// or inconsistent pick request against the session's card pool.
pub open spec fn draw_select_error(args: Seq<Value>, pool: Seq<Card>) -> Option<Error> {
    if args.len() < 2 {
        Some(Error::BattleUnexpectedSystemArgs)
    } else if args[0].0 != 0 && args[0].0 != 1 && args[0].0 != 2 {
        Some(Error::ResourceBrokenDeckType)
    } else if args[0].0 == 2 {
        if args.len() < 4 {
            Some(Error::BattleUnexpectedSystemArgs)
        } else if args[3].0 < args[1].0 {
            Some(Error::BattleUnexpectedSystemArgs)
        } else if args[3].0 > class_pool_count(pool, args[2].0) {
            Some(Error::BattleUnexpectedSystemArgs)
        } else {
            None
        }
    } else {
        None
    }
}

/// Finds a template by id in the session's system pool.
fn pool_find(pool: &Vec<System>, id: u16) -> (r: Option<usize>)
    ensures
        r matches Some(i) ==> i < pool@.len() && pool@[i as int].id == id,
        r is None <==> !pool_has_id(pool@, id),
{
    let mut i: usize = 0;
    while i < pool.len()
        invariant
            i <= pool@.len(),
            forall|j: int| 0 <= j < i ==> (#[trigger] pool@[j]).id != id,
        decreases pool@.len() - i,
    {
        if pool[i].id == id {
            return Some(i);
        }
        i += 1;
    }
    None
}

/// Inflicts one hit of damage on every target: the raw value plus the
/// caster's attack, scaled by the caster's weaken counter. Trailing argument
/// pairs chain follow-up templates from the session's system pool ahead of
/// the queue.
pub fn attack(
    rng: &mut SporeRng,
    card_pool: &Vec<Card>,
    system_pool: &Vec<System>,
    ctx: SystemContext,
    caster: usize,
    targets: &Vec<usize>,
    player: &mut WarriorContext,
    opponents: &mut Vec<EnemyContext>,
    player_deck: &mut WarriorDeckContext,
    input: Option<SystemInput>,
) -> (r: Result<SystemReturn, Error>)
    requires
        combat_wf(*old(player), old(opponents)@),
    ensures
        combat_wf(*final(player), final(opponents)@),
        handler_frame(
            *old(player),
            *final(player),
            old(opponents)@,
            final(opponents)@,
            *old(player_deck),
            *final(player_deck),
        ),
        veto_input(input) ==> veto_post(
            *old(player),
            *final(player),
            old(opponents)@,
            final(opponents)@,
            *old(player_deck),
            *final(player_deck),
            r,
        ) && *final(rng) == *old(rng),
        r is Err <==> !veto_input(input) && (ctx.system.args@.len() < 1 || !chain_pairs_ok(
            ctx.system.args@,
            system_pool@,
        )),
        r is Err ==> r == Result::<SystemReturn, Error>::Err(Error::BattleUnexpectedSystemArgs)
            && *final(player) == *old(player) && final(opponents)@ == old(opponents)@ && *final(player_deck)
            == *old(player_deck) && *final(rng) == *old(rng),
        r is Err ==> crate::errors::resolution_error(r->Err_0),
        r is Ok ==> crate::systems::return_no_gameover(r->Ok_0),
        final(rng).seed() == old(rng).seed(),
        final(rng).rotation() == old(rng).rotation(),
        !veto_input(input) && ctx.system.args@.len() >= 1 && chain_pairs_ok(
            ctx.system.args@,
            system_pool@,
        ) && crate::systems::applications::distinct_offsets(*old(player), old(opponents)@)
            && targets@.no_duplicates() ==> {
            let volley = ctx.system.args@[0].0;
            let offense = crate::systems::applications::caster_offense_of(
                caster,
                *old(player),
                old(opponents)@,
            );
            let hit = StatOp::Damage(volley, offense.0, offense.1);
            &&& (targets@.contains(old(player).offset) ==> *final(player)
                == crate::systems::applications::warrior_after(hit, *old(player)))
            &&& (!targets@.contains(old(player).offset) ==> *final(player) == *old(player))
            &&& forall|i: int|
                0 <= i < old(opponents)@.len() ==> (#[trigger] final(opponents)@[i])
                    == (EnemyContext {
                    stats: if targets@.contains(old(opponents)@[i].offset) {
                        crate::systems::applications::enemy_stats_after(
                            hit,
                            old(opponents)@[i].stats,
                        )
                    } else {
                        old(opponents)@[i].stats
                    },
                    ..old(opponents)@[i]
                })
            &&& *final(player_deck) == *old(player_deck)
            &&& (r matches Result::Ok(sr) && crate::systems::return_commands(sr).len() == 1 && (
            crate::systems::return_commands(sr)[0] matches Command::AddLogs(l)
                && crate::battle::traits::damage_count(l@)
                == crate::systems::applications::fighter_target_count(
                targets@,
                *old(player),
                old(opponents)@,
            )))
        },
        forall|i: int|
            !veto_input(input) && ctx.system.args@.len() >= 1 && chain_pairs_ok(
                ctx.system.args@,
                system_pool@,
            ) && caster != old(player).offset && 0 <= i < old(opponents)@.len() && (#[trigger] old(
                opponents,
            )@[i]).offset == caster && (forall|j: int|
                0 <= j < i ==> old(opponents)@[j].offset != caster) && targets@.len() == 1
                && targets@[0] == old(player).offset ==> *final(player)
                == crate::systems::applications::warrior_after(
                StatOp::Damage(
                    ctx.system.args@[0].0,
                    old(opponents)@[i].stats.attack,
                    old(opponents)@[i].stats.attack_weak,
                ),
                *old(player),
            ) && final(opponents)@ == old(opponents)@ && *final(player_deck) == *old(player_deck),
        forall|i: int|
            !veto_input(input) && ctx.system.args@.len() >= 1 && chain_pairs_ok(
                ctx.system.args@,
                system_pool@,
            ) && caster == old(player).offset && targets@.len() == 1 && 0 <= i < old(
                opponents,
            )@.len() && (#[trigger] old(
                opponents,
            )@[i]).offset == targets@[0] && targets@[0] != old(player).offset && (forall|j: int|
                0 <= j < i ==> old(opponents)@[j].offset != targets@[0]) ==> final(opponents)@
                == old(opponents)@.update(
                i,
                (EnemyContext {
                    stats: crate::systems::applications::enemy_stats_after(
                        StatOp::Damage(
                            ctx.system.args@[0].0,
                            old(player).stats.attack,
                            old(player).stats.attack_weak,
                        ),
                        old(opponents)@[i].stats,
                    ),
                    ..old(opponents)@[i]
                }),
            ) && *final(player) == *old(player) && *final(player_deck) == *old(player_deck),
{
    if is_veto(&input) {
        return Ok(SystemReturn::Continue(Vec::new()));
    }
    if ctx.system.args.len() < 1 {
        return Err(Error::BattleUnexpectedSystemArgs);
    }
    let mut chained: Vec<SystemContext> = Vec::new();
    let mut idx: usize = 1;
    while idx < ctx.system.args.len() - 1
        invariant
            1 <= idx,
            idx % 2 == 1,
            ctx.system.args@.len() >= 1,
            !veto_input(input),
            combat_wf(*player, opponents@),
            *player == *old(player),
            opponents@ == old(opponents)@,
            *player_deck == *old(player_deck),
            *rng == *old(rng),
            forall|j: int|
                0 <= j && 2 * j + 2 < idx ==> (#[trigger] ctx.system.args@[2 * j + 1]).0 == 1
                    && pool_has_id(system_pool@, ctx.system.args@[2 * j + 2].0),
        decreases ctx.system.args@.len() - idx,
    {
        let flag = ctx.system.args[idx].0;
        let id = ctx.system.args[idx + 1].0;
        if flag != 1 {
            proof {
                let j = (idx - 1) / 2;
                assert(2 * (j as int) + 1 == idx as int);
                assert(2 * (j as int) + 2 < ctx.system.args@.len());
                assert(ctx.system.args@[2 * (j as int) + 1].0 != 1);
                assert(!chain_pairs_ok(ctx.system.args@, system_pool@));
            }
            return Err(Error::BattleUnexpectedSystemArgs);
        }
        let found = match pool_find(system_pool, id) {
            Some(i) => i,
            None => {
                proof {
                    let j = (idx - 1) / 2;
                    assert(2 * (j as int) + 1 == idx as int);
                    assert(2 * (j as int) + 2 < ctx.system.args@.len());
                    assert(ctx.system.args@[2 * (j as int) + 2].0 == id);
                    assert(!chain_pairs_ok(ctx.system.args@, system_pool@));
                }
                return Err(Error::BattleUnexpectedSystemArgs);
            },
        };
        proof {
            let j = (idx - 1) / 2;
            assert(2 * (j as int) + 1 == idx as int);
            assert(ctx.system.args@[2 * (j as int) + 1].0 == 1);
            assert(system_pool@[found as int].id == ctx.system.args@[2 * (j as int) + 2].0);
            assert(pool_has_id(system_pool@, ctx.system.args@[2 * (j as int) + 2].0));
        }
        chained.push(SystemContext::new(system_pool[found].clone()));
        idx = idx + 2;
    }
    proof {
        assert(chain_pairs_ok(ctx.system.args@, system_pool@)) by {
            assert forall|j: int| 0 <= j && 2 * j + 2 < ctx.system.args@.len() implies (
            #[trigger] ctx.system.args@[2 * j + 1]).0 == 1 && pool_has_id(
                system_pool@,
                ctx.system.args@[2 * j + 2].0,
            ) by {
                assert(2 * j + 2 < idx);
            }
        }
    }
    let value = ctx.system.args[0].0;
    let offense = caster_offense(caster, player, opponents);
    let mut logs: Vec<FightLog> = Vec::new();
    apply_to_targets(StatOp::Damage(value, offense.0, offense.1), targets, player, opponents, player_deck, &mut logs);
    let mut cmds: Vec<Command> = Vec::new();
    cmds.push(Command::AddLogs(logs));
    if chained.len() > 0 {
        Ok(SystemReturn::PendingSystems(chained, cmds))
    } else {
        Ok(SystemReturn::Continue(cmds))
    }
}


/// Inflicts several hits of damage on every target, each hit computed like a
/// single one.
pub fn multiple_attack(
    rng: &mut SporeRng,
    card_pool: &Vec<Card>,
    ctx: SystemContext,
    caster: usize,
    targets: &Vec<usize>,
    player: &mut WarriorContext,
    opponents: &mut Vec<EnemyContext>,
    player_deck: &mut WarriorDeckContext,
    input: Option<SystemInput>,
) -> (r: Result<SystemReturn, Error>)
    requires
        combat_wf(*old(player), old(opponents)@),
    ensures
        combat_wf(*final(player), final(opponents)@),
        handler_frame(
            *old(player),
            *final(player),
            old(opponents)@,
            final(opponents)@,
            *old(player_deck),
            *final(player_deck),
        ),
        veto_input(input) ==> veto_post(
            *old(player),
            *final(player),
            old(opponents)@,
            final(opponents)@,
            *old(player_deck),
            *final(player_deck),
            r,
        ) && *final(rng) == *old(rng),
        r is Err <==> !veto_input(input) && ctx.system.args@.len() < 2,
        r is Err ==> r == Result::<SystemReturn, Error>::Err(Error::BattleUnexpectedSystemArgs)
            && *final(player) == *old(player) && final(opponents)@ == old(opponents)@ && *final(player_deck)
            == *old(player_deck) && *final(rng) == *old(rng),
        r is Err ==> crate::errors::resolution_error(r->Err_0),
        r is Ok ==> crate::systems::return_no_gameover(r->Ok_0),
        final(rng).seed() == old(rng).seed(),
        final(rng).rotation() == old(rng).rotation(),
        !veto_input(input) && ctx.system.args@.len() >= 2
            && crate::systems::applications::distinct_offsets(*old(player), old(opponents)@)
            && targets@.no_duplicates() ==> {
            let volley = ctx.system.args@[0].0;
            let hits = ctx.system.args@[1].0 as nat;
            let offense = crate::systems::applications::caster_offense_of(
                caster,
                *old(player),
                old(opponents)@,
            );
            &&& *final(player) == (WarriorContext {
                stats: if targets@.contains(old(player).offset) {
                    crate::systems::applications::stats_after_hits(
                        hits,
                        volley,
                        offense.0,
                        offense.1,
                        old(player).stats,
                    )
                } else {
                    old(player).stats
                },
                ..*old(player)
            })
            &&& forall|i: int|
                0 <= i < old(opponents)@.len() ==> (#[trigger] final(opponents)@[i])
                    == (EnemyContext {
                    stats: if targets@.contains(old(opponents)@[i].offset) {
                        crate::systems::applications::stats_after_hits(
                            hits,
                            volley,
                            offense.0,
                            offense.1,
                            old(opponents)@[i].stats,
                        )
                    } else {
                        old(opponents)@[i].stats
                    },
                    ..old(opponents)@[i]
                })
            &&& *final(player_deck) == *old(player_deck)
            &&& (r matches Result::Ok(SystemReturn::Continue(cmds)) && cmds@.len() == 1 && (
            cmds@[0] matches Command::AddLogs(l) && crate::battle::traits::damage_count(l@) == hits
                * crate::systems::applications::fighter_target_count(
                targets@,
                *old(player),
                old(opponents)@,
            )))
        },
        forall|i: int|
            !veto_input(input) && ctx.system.args@.len() >= 2 && caster != old(player).offset && 0
                <= i < old(opponents)@.len() && (#[trigger] old(opponents)@[i]).offset == caster
                && (forall|j: int| 0 <= j < i ==> old(opponents)@[j].offset != caster)
                && targets@.len() == 1 && targets@[0] == old(player).offset ==> *final(player)
                == (WarriorContext {
                stats: crate::systems::applications::stats_after_hits(
                    ctx.system.args@[1].0 as nat,
                    ctx.system.args@[0].0,
                    old(opponents)@[i].stats.attack,
                    old(opponents)@[i].stats.attack_weak,
                    old(player).stats,
                ),
                ..*old(player)
            }) && final(opponents)@ == old(opponents)@ && *final(player_deck) == *old(player_deck),
        forall|i: int|
            !veto_input(input) && ctx.system.args@.len() >= 2 && caster == old(player).offset
                && targets@.len() == 1 && 0 <= i < old(opponents)@.len() && (#[trigger] old(
                opponents,
            )@[i]).offset == targets@[0] && targets@[0] != old(player).offset && (forall|j: int|
                0 <= j < i ==> old(opponents)@[j].offset != targets@[0]) ==> {
                &&& final(opponents)@[i].stats
                    == crate::systems::applications::stats_after_hits(
                    ctx.system.args@[1].0 as nat,
                    ctx.system.args@[0].0,
                    old(player).stats.attack,
                    old(player).stats.attack_weak,
                    old(opponents)@[i].stats,
                )
                &&& final(opponents)@[i].enemy == old(opponents)@[i].enemy
                &&& final(opponents)@[i].offset == old(opponents)@[i].offset
                &&& (forall|j: int|
                    0 <= j < old(opponents)@.len() && j != i ==> final(opponents)@[j] == old(
                        opponents,
                    )@[j])
                &&& *final(player) == *old(player)
                &&& *final(player_deck) == *old(player_deck)
            },
{
    if is_veto(&input) {
        return Ok(SystemReturn::Continue(Vec::new()));
    }
    if ctx.system.args.len() < 2 {
        return Err(Error::BattleUnexpectedSystemArgs);
    }
    let value = ctx.system.args[0].0;
    let count = ctx.system.args[1].0;
    let offense = caster_offense(caster, player, opponents);
    let ghost exact_case = caster == old(player).offset && targets@.len() == 1;
    let mut logs: Vec<FightLog> = Vec::new();
    let mut hit: u16 = 0;
    while hit < count
        invariant
            hit <= count,
            gameover_count(logs@) == 0,
            combat_wf(*player, opponents@),
            offense.1 <= crate::MAX_WEAK_COUNT,
            exact_case == (caster == old(player).offset && targets@.len() == 1),
            exact_case ==> offense == (old(player).stats.attack, old(player).stats.attack_weak),
            forall|i: int|
                caster != old(player).offset && 0 <= i < old(opponents)@.len() && (#[trigger] old(
                    opponents,
                )@[i]).offset == caster && (forall|j: int|
                    0 <= j < i ==> old(opponents)@[j].offset != caster) ==> offense == (
                old(opponents)@[i].stats.attack, old(opponents)@[i].stats.attack_weak),
            crate::systems::applications::distinct_offsets(*old(player), old(opponents)@)
                && targets@.no_duplicates() ==> {
                let offense_spec = crate::systems::applications::caster_offense_of(
                    caster,
                    *old(player),
                    old(opponents)@,
                );
                &&& offense == offense_spec
                &&& *player == (WarriorContext {
                    stats: if targets@.contains(old(player).offset) {
                        crate::systems::applications::stats_after_hits(
                            hit as nat,
                            value,
                            offense_spec.0,
                            offense_spec.1,
                            old(player).stats,
                        )
                    } else {
                        old(player).stats
                    },
                    ..*old(player)
                })
                &&& forall|i: int|
                    0 <= i < old(opponents)@.len() ==> (#[trigger] opponents@[i]) == (EnemyContext {
                        stats: if targets@.contains(old(opponents)@[i].offset) {
                            crate::systems::applications::stats_after_hits(
                                hit as nat,
                                value,
                                offense_spec.0,
                                offense_spec.1,
                                old(opponents)@[i].stats,
                            )
                        } else {
                            old(opponents)@[i].stats
                        },
                        ..old(opponents)@[i]
                    })
                &&& *player_deck == *old(player_deck)
                &&& crate::battle::traits::damage_count(logs@) == (hit as nat)
                    * crate::systems::applications::fighter_target_count(
                    targets@,
                    *old(player),
                    old(opponents)@,
                )
            },
            forall|i: int|
                caster != old(player).offset && 0 <= i < old(opponents)@.len() && (#[trigger] old(
                    opponents,
                )@[i]).offset == caster && (forall|j: int|
                    0 <= j < i ==> old(opponents)@[j].offset != caster) && targets@.len() == 1
                    && targets@[0] == old(player).offset ==> *player == (WarriorContext {
                    stats: crate::systems::applications::stats_after_hits(
                        hit as nat,
                        value,
                        offense.0,
                        offense.1,
                        old(player).stats,
                    ),
                    ..*old(player)
                }) && opponents@ == old(opponents)@ && *player_deck == *old(player_deck),
            handler_frame(
                *old(player),
                *player,
                old(opponents)@,
                opponents@,
                *old(player_deck),
                *player_deck,
            ),
            forall|i: int|
                exact_case && 0 <= i < old(opponents)@.len() && (#[trigger] old(
                    opponents,
                )@[i]).offset == targets@[0] && targets@[0] != old(player).offset && (forall|j: int|
                    0 <= j < i ==> old(opponents)@[j].offset != targets@[0]) ==> {
                    &&& opponents@[i].stats
                        == crate::systems::applications::stats_after_hits(
                        hit as nat,
                        value,
                        offense.0,
                        offense.1,
                        old(opponents)@[i].stats,
                    )
                    &&& opponents@[i].enemy == old(opponents)@[i].enemy
                    &&& opponents@[i].offset == old(opponents)@[i].offset
                    &&& opponents@[i].strategy == old(opponents)@[i].strategy
                    &&& opponents@[i].mounting_systems == old(opponents)@[i].mounting_systems
                    &&& (forall|j: int|
                        0 <= j < old(opponents)@.len() && j != i ==> opponents@[j] == old(
                            opponents,
                        )@[j])
                    &&& *player == *old(player)
                    &&& *player_deck == *old(player_deck)
                },
        decreases count - hit,
    {
        let ghost pre_p = *player;
        let ghost pre_o = opponents@;
        let ghost pre_l = logs@;
        proof {
            if crate::systems::applications::distinct_offsets(*old(player), old(opponents)@)
                && targets@.no_duplicates() {
                assert(crate::systems::applications::distinct_offsets(*player, opponents@)) by {
                    assert(forall|i: int|
                        0 <= i < opponents@.len() ==> (#[trigger] opponents@[i]).offset == old(
                            opponents,
                        )@[i].offset);
                }
            }
        }
        apply_to_targets(
            StatOp::Damage(value, offense.0, offense.1),
            targets,
            player,
            opponents,
            player_deck,
            &mut logs,
        );
        proof {
            if crate::systems::applications::distinct_offsets(*old(player), old(opponents)@)
                && targets@.no_duplicates() {
                let f = crate::systems::applications::fighter_target_count(
                    targets@,
                    *old(player),
                    old(opponents)@,
                );
                crate::systems::applications::lemma_fighter_count_same_offsets(
                    targets@,
                    pre_p,
                    pre_o,
                    *old(player),
                    old(opponents)@,
                );
                assert((hit as nat + 1) * f == (hit as nat) * f + f) by (nonlinear_arith);
                assert forall|i: int| 0 <= i < old(opponents)@.len() implies (
                #[trigger] opponents@[i]) == (EnemyContext {
                    stats: if targets@.contains(old(opponents)@[i].offset) {
                        crate::systems::applications::stats_after_hits(
                            hit as nat + 1,
                            value,
                            offense.0,
                            offense.1,
                            old(opponents)@[i].stats,
                        )
                    } else {
                        old(opponents)@[i].stats
                    },
                    ..old(opponents)@[i]
                }) by {
                    assert(pre_o[i].offset == old(opponents)@[i].offset);
                }
            }
        }
        hit += 1;
    }
    let mut cmds: Vec<Command> = Vec::new();
    cmds.push(Command::AddLogs(logs));
    Ok(SystemReturn::Continue(cmds))
}

/// Raises every target's armor, scaled by the target's own defense.
pub fn armor_up(
    rng: &mut SporeRng,
    card_pool: &Vec<Card>,
    ctx: SystemContext,
    caster: usize,
    targets: &Vec<usize>,
    player: &mut WarriorContext,
    opponents: &mut Vec<EnemyContext>,
    player_deck: &mut WarriorDeckContext,
    input: Option<SystemInput>,
) -> (r: Result<SystemReturn, Error>)
    requires
        combat_wf(*old(player), old(opponents)@),
    ensures
        combat_wf(*final(player), final(opponents)@),
        handler_frame(
            *old(player),
            *final(player),
            old(opponents)@,
            final(opponents)@,
            *old(player_deck),
            *final(player_deck),
        ),
        veto_input(input) ==> veto_post(
            *old(player),
            *final(player),
            old(opponents)@,
            final(opponents)@,
            *old(player_deck),
            *final(player_deck),
            r,
        ) && *final(rng) == *old(rng),
        r is Err <==> !veto_input(input) && ctx.system.args@.len() < 1,
        r is Err ==> r == Result::<SystemReturn, Error>::Err(Error::BattleUnexpectedSystemArgs)
            && *final(player) == *old(player) && final(opponents)@ == old(opponents)@ && *final(player_deck)
            == *old(player_deck) && *final(rng) == *old(rng),
        !veto_input(input) && ctx.system.args@.len() >= 1 && targets@.len() == 1
            && targets@[0] == old(player).offset ==> *final(player)
            == crate::systems::applications::warrior_after(StatOp::ArmorUp(ctx.system.args@[0].0), *old(player))
            && final(opponents)@ == old(opponents)@ && *final(player_deck) == *old(player_deck),
        forall|i: int|
            !veto_input(input) && ctx.system.args@.len() >= 1 && targets@.len() == 1 && 0 <= i
                < old(opponents)@.len() && (#[trigger] old(opponents)@[i]).offset == targets@[0]
                && targets@[0] != old(player).offset && (forall|j: int|
                0 <= j < i ==> old(opponents)@[j].offset != targets@[0]) ==> final(opponents)@
                == old(opponents)@.update(
                i,
                (EnemyContext {
                    stats: crate::systems::applications::enemy_stats_after(
                        StatOp::ArmorUp(ctx.system.args@[0].0),
                        old(opponents)@[i].stats,
                    ),
                    ..old(opponents)@[i]
                }),
            ) && *final(player) == *old(player) && *final(player_deck) == *old(player_deck),
        r is Err ==> crate::errors::resolution_error(r->Err_0),
        r is Ok ==> crate::systems::return_no_gameover(r->Ok_0),
        final(rng).seed() == old(rng).seed(),
        final(rng).rotation() == old(rng).rotation(),
{
    if is_veto(&input) {
        return Ok(SystemReturn::Continue(Vec::new()));
    }
    if ctx.system.args.len() < 1 {
        return Err(Error::BattleUnexpectedSystemArgs);
    }
    let value = ctx.system.args[0].0;
    let mut logs: Vec<FightLog> = Vec::new();
    apply_to_targets(StatOp::ArmorUp(value), targets, player, opponents, player_deck, &mut logs);
    let mut cmds: Vec<Command> = Vec::new();
    cmds.push(Command::AddLogs(logs));
    Ok(SystemReturn::Continue(cmds))
}

/// Lowers every target's armor, floored at zero.
pub fn armor_down(
    rng: &mut SporeRng,
    card_pool: &Vec<Card>,
    ctx: SystemContext,
    caster: usize,
    targets: &Vec<usize>,
    player: &mut WarriorContext,
    opponents: &mut Vec<EnemyContext>,
    player_deck: &mut WarriorDeckContext,
    input: Option<SystemInput>,
) -> (r: Result<SystemReturn, Error>)
    requires
        combat_wf(*old(player), old(opponents)@),
    ensures
        combat_wf(*final(player), final(opponents)@),
        handler_frame(
            *old(player),
            *final(player),
            old(opponents)@,
            final(opponents)@,
            *old(player_deck),
            *final(player_deck),
        ),
        veto_input(input) ==> veto_post(
            *old(player),
            *final(player),
            old(opponents)@,
            final(opponents)@,
            *old(player_deck),
            *final(player_deck),
            r,
        ) && *final(rng) == *old(rng),
        r is Err <==> !veto_input(input) && ctx.system.args@.len() < 1,
        r is Err ==> r == Result::<SystemReturn, Error>::Err(Error::BattleUnexpectedSystemArgs)
            && *final(player) == *old(player) && final(opponents)@ == old(opponents)@ && *final(player_deck)
            == *old(player_deck) && *final(rng) == *old(rng),
        !veto_input(input) && ctx.system.args@.len() >= 1 && targets@.len() == 1
            && targets@[0] == old(player).offset ==> *final(player)
            == crate::systems::applications::warrior_after(StatOp::ArmorDown(ctx.system.args@[0].0), *old(player))
            && final(opponents)@ == old(opponents)@ && *final(player_deck) == *old(player_deck),
        forall|i: int|
            !veto_input(input) && ctx.system.args@.len() >= 1 && targets@.len() == 1 && 0 <= i
                < old(opponents)@.len() && (#[trigger] old(opponents)@[i]).offset == targets@[0]
                && targets@[0] != old(player).offset && (forall|j: int|
                0 <= j < i ==> old(opponents)@[j].offset != targets@[0]) ==> final(opponents)@
                == old(opponents)@.update(
                i,
                (EnemyContext {
                    stats: crate::systems::applications::enemy_stats_after(
                        StatOp::ArmorDown(ctx.system.args@[0].0),
                        old(opponents)@[i].stats,
                    ),
                    ..old(opponents)@[i]
                }),
            ) && *final(player) == *old(player) && *final(player_deck) == *old(player_deck),
        r is Err ==> crate::errors::resolution_error(r->Err_0),
        r is Ok ==> crate::systems::return_no_gameover(r->Ok_0),
        final(rng).seed() == old(rng).seed(),
        final(rng).rotation() == old(rng).rotation(),
{
    if is_veto(&input) {
        return Ok(SystemReturn::Continue(Vec::new()));
    }
    if ctx.system.args.len() < 1 {
        return Err(Error::BattleUnexpectedSystemArgs);
    }
    let value = ctx.system.args[0].0;
    let mut logs: Vec<FightLog> = Vec::new();
    apply_to_targets(StatOp::ArmorDown(value), targets, player, opponents, player_deck, &mut logs);
    let mut cmds: Vec<Command> = Vec::new();
    cmds.push(Command::AddLogs(logs));
    Ok(SystemReturn::Continue(cmds))
}

/// Raises every target's shield, scaled by the target's own defense.
pub fn shield_up(
    rng: &mut SporeRng,
    card_pool: &Vec<Card>,
    ctx: SystemContext,
    caster: usize,
    targets: &Vec<usize>,
    player: &mut WarriorContext,
    opponents: &mut Vec<EnemyContext>,
    player_deck: &mut WarriorDeckContext,
    input: Option<SystemInput>,
) -> (r: Result<SystemReturn, Error>)
    requires
        combat_wf(*old(player), old(opponents)@),
    ensures
        combat_wf(*final(player), final(opponents)@),
        handler_frame(
            *old(player),
            *final(player),
            old(opponents)@,
            final(opponents)@,
            *old(player_deck),
            *final(player_deck),
        ),
        veto_input(input) ==> veto_post(
            *old(player),
            *final(player),
            old(opponents)@,
            final(opponents)@,
            *old(player_deck),
            *final(player_deck),
            r,
        ) && *final(rng) == *old(rng),
        r is Err <==> !veto_input(input) && ctx.system.args@.len() < 1,
        r is Err ==> r == Result::<SystemReturn, Error>::Err(Error::BattleUnexpectedSystemArgs)
            && *final(player) == *old(player) && final(opponents)@ == old(opponents)@ && *final(player_deck)
            == *old(player_deck) && *final(rng) == *old(rng),
        !veto_input(input) && ctx.system.args@.len() >= 1 && targets@.len() == 1
            && targets@[0] == old(player).offset ==> *final(player)
            == crate::systems::applications::warrior_after(StatOp::ShieldUp(ctx.system.args@[0].0), *old(player))
            && final(opponents)@ == old(opponents)@ && *final(player_deck) == *old(player_deck),
        forall|i: int|
            !veto_input(input) && ctx.system.args@.len() >= 1 && targets@.len() == 1 && 0 <= i
                < old(opponents)@.len() && (#[trigger] old(opponents)@[i]).offset == targets@[0]
                && targets@[0] != old(player).offset && (forall|j: int|
                0 <= j < i ==> old(opponents)@[j].offset != targets@[0]) ==> final(opponents)@
                == old(opponents)@.update(
                i,
                (EnemyContext {
                    stats: crate::systems::applications::enemy_stats_after(
                        StatOp::ShieldUp(ctx.system.args@[0].0),
                        old(opponents)@[i].stats,
                    ),
                    ..old(opponents)@[i]
                }),
            ) && *final(player) == *old(player) && *final(player_deck) == *old(player_deck),
        r is Err ==> crate::errors::resolution_error(r->Err_0),
        r is Ok ==> crate::systems::return_no_gameover(r->Ok_0),
        final(rng).seed() == old(rng).seed(),
        final(rng).rotation() == old(rng).rotation(),
{
    if is_veto(&input) {
        return Ok(SystemReturn::Continue(Vec::new()));
    }
    if ctx.system.args.len() < 1 {
        return Err(Error::BattleUnexpectedSystemArgs);
    }
    let value = ctx.system.args[0].0;
    let mut logs: Vec<FightLog> = Vec::new();
    apply_to_targets(StatOp::ShieldUp(value), targets, player, opponents, player_deck, &mut logs);
    let mut cmds: Vec<Command> = Vec::new();
    cmds.push(Command::AddLogs(logs));
    Ok(SystemReturn::Continue(cmds))
}

/// Lowers every target's shield, floored at zero.
pub fn shield_down(
    rng: &mut SporeRng,
    card_pool: &Vec<Card>,
    ctx: SystemContext,
    caster: usize,
    targets: &Vec<usize>,
    player: &mut WarriorContext,
    opponents: &mut Vec<EnemyContext>,
    player_deck: &mut WarriorDeckContext,
    input: Option<SystemInput>,
) -> (r: Result<SystemReturn, Error>)
    requires
        combat_wf(*old(player), old(opponents)@),
    ensures
        combat_wf(*final(player), final(opponents)@),
        handler_frame(
            *old(player),
            *final(player),
            old(opponents)@,
            final(opponents)@,
            *old(player_deck),
            *final(player_deck),
        ),
        veto_input(input) ==> veto_post(
            *old(player),
            *final(player),
            old(opponents)@,
            final(opponents)@,
            *old(player_deck),
            *final(player_deck),
            r,
        ) && *final(rng) == *old(rng),
        r is Err <==> !veto_input(input) && ctx.system.args@.len() < 1,
        r is Err ==> r == Result::<SystemReturn, Error>::Err(Error::BattleUnexpectedSystemArgs)
            && *final(player) == *old(player) && final(opponents)@ == old(opponents)@ && *final(player_deck)
            == *old(player_deck) && *final(rng) == *old(rng),
        !veto_input(input) && ctx.system.args@.len() >= 1 && targets@.len() == 1
            && targets@[0] == old(player).offset ==> *final(player)
            == crate::systems::applications::warrior_after(StatOp::ShieldDown(ctx.system.args@[0].0), *old(player))
            && final(opponents)@ == old(opponents)@ && *final(player_deck) == *old(player_deck),
        forall|i: int|
            !veto_input(input) && ctx.system.args@.len() >= 1 && targets@.len() == 1 && 0 <= i
                < old(opponents)@.len() && (#[trigger] old(opponents)@[i]).offset == targets@[0]
                && targets@[0] != old(player).offset && (forall|j: int|
                0 <= j < i ==> old(opponents)@[j].offset != targets@[0]) ==> final(opponents)@
                == old(opponents)@.update(
                i,
                (EnemyContext {
                    stats: crate::systems::applications::enemy_stats_after(
                        StatOp::ShieldDown(ctx.system.args@[0].0),
                        old(opponents)@[i].stats,
                    ),
                    ..old(opponents)@[i]
                }),
            ) && *final(player) == *old(player) && *final(player_deck) == *old(player_deck),
        r is Err ==> crate::errors::resolution_error(r->Err_0),
        r is Ok ==> crate::systems::return_no_gameover(r->Ok_0),
        final(rng).seed() == old(rng).seed(),
        final(rng).rotation() == old(rng).rotation(),
{
    if is_veto(&input) {
        return Ok(SystemReturn::Continue(Vec::new()));
    }
    if ctx.system.args.len() < 1 {
        return Err(Error::BattleUnexpectedSystemArgs);
    }
    let value = ctx.system.args[0].0;
    let mut logs: Vec<FightLog> = Vec::new();
    apply_to_targets(StatOp::ShieldDown(value), targets, player, opponents, player_deck, &mut logs);
    let mut cmds: Vec<Command> = Vec::new();
    cmds.push(Command::AddLogs(logs));
    Ok(SystemReturn::Continue(cmds))
}

/// Restores every target's hit points up to their maximum.
pub fn healing(
    rng: &mut SporeRng,
    card_pool: &Vec<Card>,
    ctx: SystemContext,
    caster: usize,
    targets: &Vec<usize>,
    player: &mut WarriorContext,
    opponents: &mut Vec<EnemyContext>,
    player_deck: &mut WarriorDeckContext,
    input: Option<SystemInput>,
) -> (r: Result<SystemReturn, Error>)
    requires
        combat_wf(*old(player), old(opponents)@),
    ensures
        combat_wf(*final(player), final(opponents)@),
        handler_frame(
            *old(player),
            *final(player),
            old(opponents)@,
            final(opponents)@,
            *old(player_deck),
            *final(player_deck),
        ),
        veto_input(input) ==> veto_post(
            *old(player),
            *final(player),
            old(opponents)@,
            final(opponents)@,
            *old(player_deck),
            *final(player_deck),
            r,
        ) && *final(rng) == *old(rng),
        r is Err <==> !veto_input(input) && ctx.system.args@.len() < 1,
        r is Err ==> r == Result::<SystemReturn, Error>::Err(Error::BattleUnexpectedSystemArgs)
            && *final(player) == *old(player) && final(opponents)@ == old(opponents)@ && *final(player_deck)
            == *old(player_deck) && *final(rng) == *old(rng),
        forall|i: int|
            !veto_input(input) && ctx.system.args@.len() >= 1 && targets@.len() == 1 && 0 <= i
                < old(opponents)@.len() && (#[trigger] old(opponents)@[i]).offset == targets@[0]
                && targets@[0] != old(player).offset && (forall|j: int|
                0 <= j < i ==> old(opponents)@[j].offset != targets@[0]) ==> final(opponents)@
                == old(opponents)@.update(
                i,
                (EnemyContext {
                    stats: crate::systems::applications::enemy_stats_after(
                        StatOp::Heal(ctx.system.args@[0].0),
                        old(opponents)@[i].stats,
                    ),
                    ..old(opponents)@[i]
                }),
            ) && *final(player) == *old(player) && *final(player_deck) == *old(player_deck),
        r is Err ==> crate::errors::resolution_error(r->Err_0),
        r is Ok ==> crate::systems::return_no_gameover(r->Ok_0),
        final(rng).seed() == old(rng).seed(),
        final(rng).rotation() == old(rng).rotation(),
        !veto_input(input) && ctx.system.args@.len() >= 1 && targets@.len() == 1 && targets@[0]
            == old(player).offset ==> *final(player) == crate::systems::applications::warrior_after(
            StatOp::Heal(ctx.system.args@[0].0),
            *old(player),
        ) && final(opponents)@ == old(opponents)@ && *final(player_deck) == *old(player_deck),
{
    if is_veto(&input) {
        return Ok(SystemReturn::Continue(Vec::new()));
    }
    if ctx.system.args.len() < 1 {
        return Err(Error::BattleUnexpectedSystemArgs);
    }
    let value = ctx.system.args[0].0;
    let mut logs: Vec<FightLog> = Vec::new();
    apply_to_targets(StatOp::Heal(value), targets, player, opponents, player_deck, &mut logs);
    let mut cmds: Vec<Command> = Vec::new();
    cmds.push(Command::AddLogs(logs));
    Ok(SystemReturn::Continue(cmds))
}

/// Raises the player's draw count; other targets are skipped.
pub fn draw_count_up(
    rng: &mut SporeRng,
    card_pool: &Vec<Card>,
    ctx: SystemContext,
    caster: usize,
    targets: &Vec<usize>,
    player: &mut WarriorContext,
    opponents: &mut Vec<EnemyContext>,
    player_deck: &mut WarriorDeckContext,
    input: Option<SystemInput>,
) -> (r: Result<SystemReturn, Error>)
    requires
        combat_wf(*old(player), old(opponents)@),
    ensures
        combat_wf(*final(player), final(opponents)@),
        handler_frame(
            *old(player),
            *final(player),
            old(opponents)@,
            final(opponents)@,
            *old(player_deck),
            *final(player_deck),
        ),
        veto_input(input) ==> veto_post(
            *old(player),
            *final(player),
            old(opponents)@,
            final(opponents)@,
            *old(player_deck),
            *final(player_deck),
            r,
        ) && *final(rng) == *old(rng),
        r is Err <==> !veto_input(input) && ctx.system.args@.len() < 1,
        r is Err ==> r == Result::<SystemReturn, Error>::Err(Error::BattleUnexpectedSystemArgs)
            && *final(player) == *old(player) && final(opponents)@ == old(opponents)@ && *final(player_deck)
            == *old(player_deck) && *final(rng) == *old(rng),
        !veto_input(input) && ctx.system.args@.len() >= 1 && ctx.system.args@[0].0 <= 255 && targets@.len() == 1
            && targets@[0] == old(player).offset ==> *final(player)
            == crate::systems::applications::warrior_after(StatOp::DrawCountUp(ctx.system.args@[0].0 as u8), *old(player))
            && final(opponents)@ == old(opponents)@ && *final(player_deck) == *old(player_deck),
        forall|i: int|
            !veto_input(input) && ctx.system.args@.len() >= 1 && ctx.system.args@[0].0 <= 255 && targets@.len() == 1 && 0 <= i
                < old(opponents)@.len() && (#[trigger] old(opponents)@[i]).offset == targets@[0]
                && targets@[0] != old(player).offset && (forall|j: int|
                0 <= j < i ==> old(opponents)@[j].offset != targets@[0]) ==> final(opponents)@
                == old(opponents)@.update(
                i,
                (EnemyContext {
                    stats: crate::systems::applications::enemy_stats_after(
                        StatOp::DrawCountUp(ctx.system.args@[0].0 as u8),
                        old(opponents)@[i].stats,
                    ),
                    ..old(opponents)@[i]
                }),
            ) && *final(player) == *old(player) && *final(player_deck) == *old(player_deck),
        r is Err ==> crate::errors::resolution_error(r->Err_0),
        r is Ok ==> crate::systems::return_no_gameover(r->Ok_0),
        final(rng).seed() == old(rng).seed(),
        final(rng).rotation() == old(rng).rotation(),
{
    if is_veto(&input) {
        return Ok(SystemReturn::Continue(Vec::new()));
    }
    if ctx.system.args.len() < 1 {
        return Err(Error::BattleUnexpectedSystemArgs);
    }
    let value = #[verifier::truncate] (ctx.system.args[0].0 as u8);
    let mut logs: Vec<FightLog> = Vec::new();
    apply_to_targets(StatOp::DrawCountUp(value), targets, player, opponents, player_deck, &mut logs);
    let mut cmds: Vec<Command> = Vec::new();
    cmds.push(Command::AddLogs(logs));
    Ok(SystemReturn::Continue(cmds))
}

/// Lowers the player's draw count; other targets are skipped.
pub fn draw_count_down(
    rng: &mut SporeRng,
    card_pool: &Vec<Card>,
    ctx: SystemContext,
    caster: usize,
    targets: &Vec<usize>,
    player: &mut WarriorContext,
    opponents: &mut Vec<EnemyContext>,
    player_deck: &mut WarriorDeckContext,
    input: Option<SystemInput>,
) -> (r: Result<SystemReturn, Error>)
    requires
        combat_wf(*old(player), old(opponents)@),
    ensures
        combat_wf(*final(player), final(opponents)@),
        handler_frame(
            *old(player),
            *final(player),
            old(opponents)@,
            final(opponents)@,
            *old(player_deck),
            *final(player_deck),
        ),
        veto_input(input) ==> veto_post(
            *old(player),
            *final(player),
            old(opponents)@,
            final(opponents)@,
            *old(player_deck),
            *final(player_deck),
            r,
        ) && *final(rng) == *old(rng),
        r is Err <==> !veto_input(input) && ctx.system.args@.len() < 1,
        r is Err ==> r == Result::<SystemReturn, Error>::Err(Error::BattleUnexpectedSystemArgs)
            && *final(player) == *old(player) && final(opponents)@ == old(opponents)@ && *final(player_deck)
            == *old(player_deck) && *final(rng) == *old(rng),
        !veto_input(input) && ctx.system.args@.len() >= 1 && ctx.system.args@[0].0 <= 255 && targets@.len() == 1
            && targets@[0] == old(player).offset ==> *final(player)
            == crate::systems::applications::warrior_after(StatOp::DrawCountDown(ctx.system.args@[0].0 as u8), *old(player))
            && final(opponents)@ == old(opponents)@ && *final(player_deck) == *old(player_deck),
        forall|i: int|
            !veto_input(input) && ctx.system.args@.len() >= 1 && ctx.system.args@[0].0 <= 255 && targets@.len() == 1 && 0 <= i
                < old(opponents)@.len() && (#[trigger] old(opponents)@[i]).offset == targets@[0]
                && targets@[0] != old(player).offset && (forall|j: int|
                0 <= j < i ==> old(opponents)@[j].offset != targets@[0]) ==> final(opponents)@
                == old(opponents)@.update(
                i,
                (EnemyContext {
                    stats: crate::systems::applications::enemy_stats_after(
                        StatOp::DrawCountDown(ctx.system.args@[0].0 as u8),
                        old(opponents)@[i].stats,
                    ),
                    ..old(opponents)@[i]
                }),
            ) && *final(player) == *old(player) && *final(player_deck) == *old(player_deck),
        r is Err ==> crate::errors::resolution_error(r->Err_0),
        r is Ok ==> crate::systems::return_no_gameover(r->Ok_0),
        final(rng).seed() == old(rng).seed(),
        final(rng).rotation() == old(rng).rotation(),
{
    if is_veto(&input) {
        return Ok(SystemReturn::Continue(Vec::new()));
    }
    if ctx.system.args.len() < 1 {
        return Err(Error::BattleUnexpectedSystemArgs);
    }
    let value = #[verifier::truncate] (ctx.system.args[0].0 as u8);
    let mut logs: Vec<FightLog> = Vec::new();
    apply_to_targets(StatOp::DrawCountDown(value), targets, player, opponents, player_deck, &mut logs);
    let mut cmds: Vec<Command> = Vec::new();
    cmds.push(Command::AddLogs(logs));
    Ok(SystemReturn::Continue(cmds))
}

/// Raises every target's attack stat, saturating at the field maximum.
pub fn attack_up(
    rng: &mut SporeRng,
    card_pool: &Vec<Card>,
    ctx: SystemContext,
    caster: usize,
    targets: &Vec<usize>,
    player: &mut WarriorContext,
    opponents: &mut Vec<EnemyContext>,
    player_deck: &mut WarriorDeckContext,
    input: Option<SystemInput>,
) -> (r: Result<SystemReturn, Error>)
    requires
        combat_wf(*old(player), old(opponents)@),
    ensures
        combat_wf(*final(player), final(opponents)@),
        handler_frame(
            *old(player),
            *final(player),
            old(opponents)@,
            final(opponents)@,
            *old(player_deck),
            *final(player_deck),
        ),
        veto_input(input) ==> veto_post(
            *old(player),
            *final(player),
            old(opponents)@,
            final(opponents)@,
            *old(player_deck),
            *final(player_deck),
            r,
        ) && *final(rng) == *old(rng),
        r is Err <==> !veto_input(input) && ctx.system.args@.len() < 1,
        r is Err ==> r == Result::<SystemReturn, Error>::Err(Error::BattleUnexpectedSystemArgs)
            && *final(player) == *old(player) && final(opponents)@ == old(opponents)@ && *final(player_deck)
            == *old(player_deck) && *final(rng) == *old(rng),
        !veto_input(input) && ctx.system.args@.len() >= 1 && ctx.system.args@[0].0 <= 255 && targets@.len() == 1
            && targets@[0] == old(player).offset ==> *final(player)
            == crate::systems::applications::warrior_after(StatOp::AttackUp(ctx.system.args@[0].0 as u8), *old(player))
            && final(opponents)@ == old(opponents)@ && *final(player_deck) == *old(player_deck),
        forall|i: int|
            !veto_input(input) && ctx.system.args@.len() >= 1 && ctx.system.args@[0].0 <= 255 && targets@.len() == 1 && 0 <= i
                < old(opponents)@.len() && (#[trigger] old(opponents)@[i]).offset == targets@[0]
                && targets@[0] != old(player).offset && (forall|j: int|
                0 <= j < i ==> old(opponents)@[j].offset != targets@[0]) ==> final(opponents)@
                == old(opponents)@.update(
                i,
                (EnemyContext {
                    stats: crate::systems::applications::enemy_stats_after(
                        StatOp::AttackUp(ctx.system.args@[0].0 as u8),
                        old(opponents)@[i].stats,
                    ),
                    ..old(opponents)@[i]
                }),
            ) && *final(player) == *old(player) && *final(player_deck) == *old(player_deck),
        r is Err ==> crate::errors::resolution_error(r->Err_0),
        r is Ok ==> crate::systems::return_no_gameover(r->Ok_0),
        final(rng).seed() == old(rng).seed(),
        final(rng).rotation() == old(rng).rotation(),
{
    if is_veto(&input) {
        return Ok(SystemReturn::Continue(Vec::new()));
    }
    if ctx.system.args.len() < 1 {
        return Err(Error::BattleUnexpectedSystemArgs);
    }
    let value = #[verifier::truncate] (ctx.system.args[0].0 as u8);
    let mut logs: Vec<FightLog> = Vec::new();
    apply_to_targets(StatOp::AttackUp(value), targets, player, opponents, player_deck, &mut logs);
    let mut cmds: Vec<Command> = Vec::new();
    cmds.push(Command::AddLogs(logs));
    Ok(SystemReturn::Continue(cmds))
}

/// Lowers every target's attack stat, floored at zero.
pub fn attack_down(
    rng: &mut SporeRng,
    card_pool: &Vec<Card>,
    ctx: SystemContext,
    caster: usize,
    targets: &Vec<usize>,
    player: &mut WarriorContext,
    opponents: &mut Vec<EnemyContext>,
    player_deck: &mut WarriorDeckContext,
    input: Option<SystemInput>,
) -> (r: Result<SystemReturn, Error>)
    requires
        combat_wf(*old(player), old(opponents)@),
    ensures
        combat_wf(*final(player), final(opponents)@),
        handler_frame(
            *old(player),
            *final(player),
            old(opponents)@,
            final(opponents)@,
            *old(player_deck),
            *final(player_deck),
        ),
        veto_input(input) ==> veto_post(
            *old(player),
            *final(player),
            old(opponents)@,
            final(opponents)@,
            *old(player_deck),
            *final(player_deck),
            r,
        ) && *final(rng) == *old(rng),
        r is Err <==> !veto_input(input) && ctx.system.args@.len() < 1,
        r is Err ==> r == Result::<SystemReturn, Error>::Err(Error::BattleUnexpectedSystemArgs)
            && *final(player) == *old(player) && final(opponents)@ == old(opponents)@ && *final(player_deck)
            == *old(player_deck) && *final(rng) == *old(rng),
        !veto_input(input) && ctx.system.args@.len() >= 1 && ctx.system.args@[0].0 <= 255 && targets@.len() == 1
            && targets@[0] == old(player).offset ==> *final(player)
            == crate::systems::applications::warrior_after(StatOp::AttackDown(ctx.system.args@[0].0 as u8), *old(player))
            && final(opponents)@ == old(opponents)@ && *final(player_deck) == *old(player_deck),
        forall|i: int|
            !veto_input(input) && ctx.system.args@.len() >= 1 && ctx.system.args@[0].0 <= 255 && targets@.len() == 1 && 0 <= i
                < old(opponents)@.len() && (#[trigger] old(opponents)@[i]).offset == targets@[0]
                && targets@[0] != old(player).offset && (forall|j: int|
                0 <= j < i ==> old(opponents)@[j].offset != targets@[0]) ==> final(opponents)@
                == old(opponents)@.update(
                i,
                (EnemyContext {
                    stats: crate::systems::applications::enemy_stats_after(
                        StatOp::AttackDown(ctx.system.args@[0].0 as u8),
                        old(opponents)@[i].stats,
                    ),
                    ..old(opponents)@[i]
                }),
            ) && *final(player) == *old(player) && *final(player_deck) == *old(player_deck),
        r is Err ==> crate::errors::resolution_error(r->Err_0),
        r is Ok ==> crate::systems::return_no_gameover(r->Ok_0),
        final(rng).seed() == old(rng).seed(),
        final(rng).rotation() == old(rng).rotation(),
{
    if is_veto(&input) {
        return Ok(SystemReturn::Continue(Vec::new()));
    }
    if ctx.system.args.len() < 1 {
        return Err(Error::BattleUnexpectedSystemArgs);
    }
    let value = #[verifier::truncate] (ctx.system.args[0].0 as u8);
    let mut logs: Vec<FightLog> = Vec::new();
    apply_to_targets(StatOp::AttackDown(value), targets, player, opponents, player_deck, &mut logs);
    let mut cmds: Vec<Command> = Vec::new();
    cmds.push(Command::AddLogs(logs));
    Ok(SystemReturn::Continue(cmds))
}

/// Raises every target's attack weaken counter, capped at the weaken
/// maximum.
pub fn attack_weak_up(
    rng: &mut SporeRng,
    card_pool: &Vec<Card>,
    ctx: SystemContext,
    caster: usize,
    targets: &Vec<usize>,
    player: &mut WarriorContext,
    opponents: &mut Vec<EnemyContext>,
    player_deck: &mut WarriorDeckContext,
    input: Option<SystemInput>,
) -> (r: Result<SystemReturn, Error>)
    requires
        combat_wf(*old(player), old(opponents)@),
    ensures
        combat_wf(*final(player), final(opponents)@),
        handler_frame(
            *old(player),
            *final(player),
            old(opponents)@,
            final(opponents)@,
            *old(player_deck),
            *final(player_deck),
        ),
        veto_input(input) ==> veto_post(
            *old(player),
            *final(player),
            old(opponents)@,
            final(opponents)@,
            *old(player_deck),
            *final(player_deck),
            r,
        ) && *final(rng) == *old(rng),
        r is Err <==> !veto_input(input) && ctx.system.args@.len() < 1,
        r is Err ==> r == Result::<SystemReturn, Error>::Err(Error::BattleUnexpectedSystemArgs)
            && *final(player) == *old(player) && final(opponents)@ == old(opponents)@ && *final(player_deck)
            == *old(player_deck) && *final(rng) == *old(rng),
        !veto_input(input) && ctx.system.args@.len() >= 1 && ctx.system.args@[0].0 <= 255 && targets@.len() == 1
            && targets@[0] == old(player).offset ==> *final(player)
            == crate::systems::applications::warrior_after(StatOp::AttackWeakUp(ctx.system.args@[0].0 as u8), *old(player))
            && final(opponents)@ == old(opponents)@ && *final(player_deck) == *old(player_deck),
        forall|i: int|
            !veto_input(input) && ctx.system.args@.len() >= 1 && ctx.system.args@[0].0 <= 255 && targets@.len() == 1 && 0 <= i
                < old(opponents)@.len() && (#[trigger] old(opponents)@[i]).offset == targets@[0]
                && targets@[0] != old(player).offset && (forall|j: int|
                0 <= j < i ==> old(opponents)@[j].offset != targets@[0]) ==> final(opponents)@
                == old(opponents)@.update(
                i,
                (EnemyContext {
                    stats: crate::systems::applications::enemy_stats_after(
                        StatOp::AttackWeakUp(ctx.system.args@[0].0 as u8),
                        old(opponents)@[i].stats,
                    ),
                    ..old(opponents)@[i]
                }),
            ) && *final(player) == *old(player) && *final(player_deck) == *old(player_deck),
        r is Err ==> crate::errors::resolution_error(r->Err_0),
        r is Ok ==> crate::systems::return_no_gameover(r->Ok_0),
        final(rng).seed() == old(rng).seed(),
        final(rng).rotation() == old(rng).rotation(),
{
    if is_veto(&input) {
        return Ok(SystemReturn::Continue(Vec::new()));
    }
    if ctx.system.args.len() < 1 {
        return Err(Error::BattleUnexpectedSystemArgs);
    }
    let value = #[verifier::truncate] (ctx.system.args[0].0 as u8);
    let mut logs: Vec<FightLog> = Vec::new();
    apply_to_targets(StatOp::AttackWeakUp(value), targets, player, opponents, player_deck, &mut logs);
    let mut cmds: Vec<Command> = Vec::new();
    cmds.push(Command::AddLogs(logs));
    Ok(SystemReturn::Continue(cmds))
}

/// Lowers every target's attack weaken counter, floored at zero.
pub fn attack_weak_down(
    rng: &mut SporeRng,
    card_pool: &Vec<Card>,
    ctx: SystemContext,
    caster: usize,
    targets: &Vec<usize>,
    player: &mut WarriorContext,
    opponents: &mut Vec<EnemyContext>,
    player_deck: &mut WarriorDeckContext,
    input: Option<SystemInput>,
) -> (r: Result<SystemReturn, Error>)
    requires
        combat_wf(*old(player), old(opponents)@),
    ensures
        combat_wf(*final(player), final(opponents)@),
        handler_frame(
            *old(player),
            *final(player),
            old(opponents)@,
            final(opponents)@,
            *old(player_deck),
            *final(player_deck),
        ),
        veto_input(input) ==> veto_post(
            *old(player),
            *final(player),
            old(opponents)@,
            final(opponents)@,
            *old(player_deck),
            *final(player_deck),
            r,
        ) && *final(rng) == *old(rng),
        r is Err <==> !veto_input(input) && ctx.system.args@.len() < 1,
        r is Err ==> r == Result::<SystemReturn, Error>::Err(Error::BattleUnexpectedSystemArgs)
            && *final(player) == *old(player) && final(opponents)@ == old(opponents)@ && *final(player_deck)
            == *old(player_deck) && *final(rng) == *old(rng),
        !veto_input(input) && ctx.system.args@.len() >= 1 && ctx.system.args@[0].0 <= 255 && targets@.len() == 1
            && targets@[0] == old(player).offset ==> *final(player)
            == crate::systems::applications::warrior_after(StatOp::AttackWeakDown(ctx.system.args@[0].0 as u8), *old(player))
            && final(opponents)@ == old(opponents)@ && *final(player_deck) == *old(player_deck),
        forall|i: int|
            !veto_input(input) && ctx.system.args@.len() >= 1 && ctx.system.args@[0].0 <= 255 && targets@.len() == 1 && 0 <= i
                < old(opponents)@.len() && (#[trigger] old(opponents)@[i]).offset == targets@[0]
                && targets@[0] != old(player).offset && (forall|j: int|
                0 <= j < i ==> old(opponents)@[j].offset != targets@[0]) ==> final(opponents)@
                == old(opponents)@.update(
                i,
                (EnemyContext {
                    stats: crate::systems::applications::enemy_stats_after(
                        StatOp::AttackWeakDown(ctx.system.args@[0].0 as u8),
                        old(opponents)@[i].stats,
                    ),
                    ..old(opponents)@[i]
                }),
            ) && *final(player) == *old(player) && *final(player_deck) == *old(player_deck),
        r is Err ==> crate::errors::resolution_error(r->Err_0),
        r is Ok ==> crate::systems::return_no_gameover(r->Ok_0),
        final(rng).seed() == old(rng).seed(),
        final(rng).rotation() == old(rng).rotation(),
{
    if is_veto(&input) {
        return Ok(SystemReturn::Continue(Vec::new()));
    }
    if ctx.system.args.len() < 1 {
        return Err(Error::BattleUnexpectedSystemArgs);
    }
    let value = #[verifier::truncate] (ctx.system.args[0].0 as u8);
    let mut logs: Vec<FightLog> = Vec::new();
    apply_to_targets(StatOp::AttackWeakDown(value), targets, player, opponents, player_deck, &mut logs);
    let mut cmds: Vec<Command> = Vec::new();
    cmds.push(Command::AddLogs(logs));
    Ok(SystemReturn::Continue(cmds))
}

/// Raises every target's defense stat, saturating at the field maximum.
pub fn defense_up(
    rng: &mut SporeRng,
    card_pool: &Vec<Card>,
    ctx: SystemContext,
    caster: usize,
    targets: &Vec<usize>,
    player: &mut WarriorContext,
    opponents: &mut Vec<EnemyContext>,
    player_deck: &mut WarriorDeckContext,
    input: Option<SystemInput>,
) -> (r: Result<SystemReturn, Error>)
    requires
        combat_wf(*old(player), old(opponents)@),
    ensures
        combat_wf(*final(player), final(opponents)@),
        handler_frame(
            *old(player),
            *final(player),
            old(opponents)@,
            final(opponents)@,
            *old(player_deck),
            *final(player_deck),
        ),
        veto_input(input) ==> veto_post(
            *old(player),
            *final(player),
            old(opponents)@,
            final(opponents)@,
            *old(player_deck),
            *final(player_deck),
            r,
        ) && *final(rng) == *old(rng),
        r is Err <==> !veto_input(input) && ctx.system.args@.len() < 1,
        r is Err ==> r == Result::<SystemReturn, Error>::Err(Error::BattleUnexpectedSystemArgs)
            && *final(player) == *old(player) && final(opponents)@ == old(opponents)@ && *final(player_deck)
            == *old(player_deck) && *final(rng) == *old(rng),
        !veto_input(input) && ctx.system.args@.len() >= 1 && ctx.system.args@[0].0 <= 255 && targets@.len() == 1
            && targets@[0] == old(player).offset ==> *final(player)
            == crate::systems::applications::warrior_after(StatOp::DefenseUp(ctx.system.args@[0].0 as u8), *old(player))
            && final(opponents)@ == old(opponents)@ && *final(player_deck) == *old(player_deck),
        forall|i: int|
            !veto_input(input) && ctx.system.args@.len() >= 1 && ctx.system.args@[0].0 <= 255 && targets@.len() == 1 && 0 <= i
                < old(opponents)@.len() && (#[trigger] old(opponents)@[i]).offset == targets@[0]
                && targets@[0] != old(player).offset && (forall|j: int|
                0 <= j < i ==> old(opponents)@[j].offset != targets@[0]) ==> final(opponents)@
                == old(opponents)@.update(
                i,
                (EnemyContext {
                    stats: crate::systems::applications::enemy_stats_after(
                        StatOp::DefenseUp(ctx.system.args@[0].0 as u8),
                        old(opponents)@[i].stats,
                    ),
                    ..old(opponents)@[i]
                }),
            ) && *final(player) == *old(player) && *final(player_deck) == *old(player_deck),
        r is Err ==> crate::errors::resolution_error(r->Err_0),
        r is Ok ==> crate::systems::return_no_gameover(r->Ok_0),
        final(rng).seed() == old(rng).seed(),
        final(rng).rotation() == old(rng).rotation(),
{
    if is_veto(&input) {
        return Ok(SystemReturn::Continue(Vec::new()));
    }
    if ctx.system.args.len() < 1 {
        return Err(Error::BattleUnexpectedSystemArgs);
    }
    let value = #[verifier::truncate] (ctx.system.args[0].0 as u8);
    let mut logs: Vec<FightLog> = Vec::new();
    apply_to_targets(StatOp::DefenseUp(value), targets, player, opponents, player_deck, &mut logs);
    let mut cmds: Vec<Command> = Vec::new();
    cmds.push(Command::AddLogs(logs));
    Ok(SystemReturn::Continue(cmds))
}

/// Lowers every target's defense stat, floored at zero.
pub fn defense_down(
    rng: &mut SporeRng,
    card_pool: &Vec<Card>,
    ctx: SystemContext,
    caster: usize,
    targets: &Vec<usize>,
    player: &mut WarriorContext,
    opponents: &mut Vec<EnemyContext>,
    player_deck: &mut WarriorDeckContext,
    input: Option<SystemInput>,
) -> (r: Result<SystemReturn, Error>)
    requires
        combat_wf(*old(player), old(opponents)@),
    ensures
        combat_wf(*final(player), final(opponents)@),
        handler_frame(
            *old(player),
            *final(player),
            old(opponents)@,
            final(opponents)@,
            *old(player_deck),
            *final(player_deck),
        ),
        veto_input(input) ==> veto_post(
            *old(player),
            *final(player),
            old(opponents)@,
            final(opponents)@,
            *old(player_deck),
            *final(player_deck),
            r,
        ) && *final(rng) == *old(rng),
        r is Err <==> !veto_input(input) && ctx.system.args@.len() < 1,
        r is Err ==> r == Result::<SystemReturn, Error>::Err(Error::BattleUnexpectedSystemArgs)
            && *final(player) == *old(player) && final(opponents)@ == old(opponents)@ && *final(player_deck)
            == *old(player_deck) && *final(rng) == *old(rng),
        !veto_input(input) && ctx.system.args@.len() >= 1 && ctx.system.args@[0].0 <= 255 && targets@.len() == 1
            && targets@[0] == old(player).offset ==> *final(player)
            == crate::systems::applications::warrior_after(StatOp::DefenseDown(ctx.system.args@[0].0 as u8), *old(player))
            && final(opponents)@ == old(opponents)@ && *final(player_deck) == *old(player_deck),
        forall|i: int|
            !veto_input(input) && ctx.system.args@.len() >= 1 && ctx.system.args@[0].0 <= 255 && targets@.len() == 1 && 0 <= i
                < old(opponents)@.len() && (#[trigger] old(opponents)@[i]).offset == targets@[0]
                && targets@[0] != old(player).offset && (forall|j: int|
                0 <= j < i ==> old(opponents)@[j].offset != targets@[0]) ==> final(opponents)@
                == old(opponents)@.update(
                i,
                (EnemyContext {
                    stats: crate::systems::applications::enemy_stats_after(
                        StatOp::DefenseDown(ctx.system.args@[0].0 as u8),
                        old(opponents)@[i].stats,
                    ),
                    ..old(opponents)@[i]
                }),
            ) && *final(player) == *old(player) && *final(player_deck) == *old(player_deck),
        r is Err ==> crate::errors::resolution_error(r->Err_0),
        r is Ok ==> crate::systems::return_no_gameover(r->Ok_0),
        final(rng).seed() == old(rng).seed(),
        final(rng).rotation() == old(rng).rotation(),
{
    if is_veto(&input) {
        return Ok(SystemReturn::Continue(Vec::new()));
    }
    if ctx.system.args.len() < 1 {
        return Err(Error::BattleUnexpectedSystemArgs);
    }
    let value = #[verifier::truncate] (ctx.system.args[0].0 as u8);
    let mut logs: Vec<FightLog> = Vec::new();
    apply_to_targets(StatOp::DefenseDown(value), targets, player, opponents, player_deck, &mut logs);
    let mut cmds: Vec<Command> = Vec::new();
    cmds.push(Command::AddLogs(logs));
    Ok(SystemReturn::Continue(cmds))
}

/// Raises every target's defense weaken counter, capped at the weaken
/// maximum.
pub fn defense_weak_up(
    rng: &mut SporeRng,
    card_pool: &Vec<Card>,
    ctx: SystemContext,
    caster: usize,
    targets: &Vec<usize>,
    player: &mut WarriorContext,
    opponents: &mut Vec<EnemyContext>,
    player_deck: &mut WarriorDeckContext,
    input: Option<SystemInput>,
) -> (r: Result<SystemReturn, Error>)
    requires
        combat_wf(*old(player), old(opponents)@),
    ensures
        combat_wf(*final(player), final(opponents)@),
        handler_frame(
            *old(player),
            *final(player),
            old(opponents)@,
            final(opponents)@,
            *old(player_deck),
            *final(player_deck),
        ),
        veto_input(input) ==> veto_post(
            *old(player),
            *final(player),
            old(opponents)@,
            final(opponents)@,
            *old(player_deck),
            *final(player_deck),
            r,
        ) && *final(rng) == *old(rng),
        r is Err <==> !veto_input(input) && ctx.system.args@.len() < 1,
        r is Err ==> r == Result::<SystemReturn, Error>::Err(Error::BattleUnexpectedSystemArgs)
            && *final(player) == *old(player) && final(opponents)@ == old(opponents)@ && *final(player_deck)
            == *old(player_deck) && *final(rng) == *old(rng),
        !veto_input(input) && ctx.system.args@.len() >= 1 && ctx.system.args@[0].0 <= 255 && targets@.len() == 1
            && targets@[0] == old(player).offset ==> *final(player)
            == crate::systems::applications::warrior_after(StatOp::DefenseWeakUp(ctx.system.args@[0].0 as u8), *old(player))
            && final(opponents)@ == old(opponents)@ && *final(player_deck) == *old(player_deck),
        forall|i: int|
            !veto_input(input) && ctx.system.args@.len() >= 1 && ctx.system.args@[0].0 <= 255 && targets@.len() == 1 && 0 <= i
                < old(opponents)@.len() && (#[trigger] old(opponents)@[i]).offset == targets@[0]
                && targets@[0] != old(player).offset && (forall|j: int|
                0 <= j < i ==> old(opponents)@[j].offset != targets@[0]) ==> final(opponents)@
                == old(opponents)@.update(
                i,
                (EnemyContext {
                    stats: crate::systems::applications::enemy_stats_after(
                        StatOp::DefenseWeakUp(ctx.system.args@[0].0 as u8),
                        old(opponents)@[i].stats,
                    ),
                    ..old(opponents)@[i]
                }),
            ) && *final(player) == *old(player) && *final(player_deck) == *old(player_deck),
        r is Err ==> crate::errors::resolution_error(r->Err_0),
        r is Ok ==> crate::systems::return_no_gameover(r->Ok_0),
        final(rng).seed() == old(rng).seed(),
        final(rng).rotation() == old(rng).rotation(),
{
    if is_veto(&input) {
        return Ok(SystemReturn::Continue(Vec::new()));
    }
    if ctx.system.args.len() < 1 {
        return Err(Error::BattleUnexpectedSystemArgs);
    }
    let value = #[verifier::truncate] (ctx.system.args[0].0 as u8);
    let mut logs: Vec<FightLog> = Vec::new();
    apply_to_targets(StatOp::DefenseWeakUp(value), targets, player, opponents, player_deck, &mut logs);
    let mut cmds: Vec<Command> = Vec::new();
    cmds.push(Command::AddLogs(logs));
    Ok(SystemReturn::Continue(cmds))
}

/// Lowers every target's defense weaken counter, floored at zero.
pub fn defense_weak_down(
    rng: &mut SporeRng,
    card_pool: &Vec<Card>,
    ctx: SystemContext,
    caster: usize,
    targets: &Vec<usize>,
    player: &mut WarriorContext,
    opponents: &mut Vec<EnemyContext>,
    player_deck: &mut WarriorDeckContext,
    input: Option<SystemInput>,
) -> (r: Result<SystemReturn, Error>)
    requires
        combat_wf(*old(player), old(opponents)@),
    ensures
        combat_wf(*final(player), final(opponents)@),
        handler_frame(
            *old(player),
            *final(player),
            old(opponents)@,
            final(opponents)@,
            *old(player_deck),
            *final(player_deck),
        ),
        veto_input(input) ==> veto_post(
            *old(player),
            *final(player),
            old(opponents)@,
            final(opponents)@,
            *old(player_deck),
            *final(player_deck),
            r,
        ) && *final(rng) == *old(rng),
        r is Err <==> !veto_input(input) && ctx.system.args@.len() < 1,
        r is Err ==> r == Result::<SystemReturn, Error>::Err(Error::BattleUnexpectedSystemArgs)
            && *final(player) == *old(player) && final(opponents)@ == old(opponents)@ && *final(player_deck)
            == *old(player_deck) && *final(rng) == *old(rng),
        !veto_input(input) && ctx.system.args@.len() >= 1 && ctx.system.args@[0].0 <= 255 && targets@.len() == 1
            && targets@[0] == old(player).offset ==> *final(player)
            == crate::systems::applications::warrior_after(StatOp::DefenseWeakDown(ctx.system.args@[0].0 as u8), *old(player))
            && final(opponents)@ == old(opponents)@ && *final(player_deck) == *old(player_deck),
        forall|i: int|
            !veto_input(input) && ctx.system.args@.len() >= 1 && ctx.system.args@[0].0 <= 255 && targets@.len() == 1 && 0 <= i
                < old(opponents)@.len() && (#[trigger] old(opponents)@[i]).offset == targets@[0]
                && targets@[0] != old(player).offset && (forall|j: int|
                0 <= j < i ==> old(opponents)@[j].offset != targets@[0]) ==> final(opponents)@
                == old(opponents)@.update(
                i,
                (EnemyContext {
                    stats: crate::systems::applications::enemy_stats_after(
                        StatOp::DefenseWeakDown(ctx.system.args@[0].0 as u8),
                        old(opponents)@[i].stats,
                    ),
                    ..old(opponents)@[i]
                }),
            ) && *final(player) == *old(player) && *final(player_deck) == *old(player_deck),
        r is Err ==> crate::errors::resolution_error(r->Err_0),
        r is Ok ==> crate::systems::return_no_gameover(r->Ok_0),
        final(rng).seed() == old(rng).seed(),
        final(rng).rotation() == old(rng).rotation(),
{
    if is_veto(&input) {
        return Ok(SystemReturn::Continue(Vec::new()));
    }
    if ctx.system.args.len() < 1 {
        return Err(Error::BattleUnexpectedSystemArgs);
    }
    let value = #[verifier::truncate] (ctx.system.args[0].0 as u8);
    let mut logs: Vec<FightLog> = Vec::new();
    apply_to_targets(StatOp::DefenseWeakDown(value), targets, player, opponents, player_deck, &mut logs);
    let mut cmds: Vec<Command> = Vec::new();
    cmds.push(Command::AddLogs(logs));
    Ok(SystemReturn::Continue(cmds))
}

/// Raises the player's maximum hit points and heals by the amount gained;
/// other targets are skipped.
pub fn max_hp_up(
    rng: &mut SporeRng,
    card_pool: &Vec<Card>,
    ctx: SystemContext,
    caster: usize,
    targets: &Vec<usize>,
    player: &mut WarriorContext,
    opponents: &mut Vec<EnemyContext>,
    player_deck: &mut WarriorDeckContext,
    input: Option<SystemInput>,
) -> (r: Result<SystemReturn, Error>)
    requires
        combat_wf(*old(player), old(opponents)@),
    ensures
        combat_wf(*final(player), final(opponents)@),
        handler_frame(
            *old(player),
            *final(player),
            old(opponents)@,
            final(opponents)@,
            *old(player_deck),
            *final(player_deck),
        ),
        veto_input(input) ==> veto_post(
            *old(player),
            *final(player),
            old(opponents)@,
            final(opponents)@,
            *old(player_deck),
            *final(player_deck),
            r,
        ) && *final(rng) == *old(rng),
        r is Err <==> !veto_input(input) && ctx.system.args@.len() < 1,
        r is Err ==> r == Result::<SystemReturn, Error>::Err(Error::BattleUnexpectedSystemArgs)
            && *final(player) == *old(player) && final(opponents)@ == old(opponents)@ && *final(player_deck)
            == *old(player_deck) && *final(rng) == *old(rng),
        !veto_input(input) && ctx.system.args@.len() >= 1 && targets@.len() == 1
            && targets@[0] == old(player).offset ==> *final(player)
            == crate::systems::applications::warrior_after(StatOp::MaxHpUp(ctx.system.args@[0].0), *old(player))
            && final(opponents)@ == old(opponents)@ && *final(player_deck) == *old(player_deck),
        forall|i: int|
            !veto_input(input) && ctx.system.args@.len() >= 1 && targets@.len() == 1 && 0 <= i
                < old(opponents)@.len() && (#[trigger] old(opponents)@[i]).offset == targets@[0]
                && targets@[0] != old(player).offset && (forall|j: int|
                0 <= j < i ==> old(opponents)@[j].offset != targets@[0]) ==> final(opponents)@
                == old(opponents)@.update(
                i,
                (EnemyContext {
                    stats: crate::systems::applications::enemy_stats_after(
                        StatOp::MaxHpUp(ctx.system.args@[0].0),
                        old(opponents)@[i].stats,
                    ),
                    ..old(opponents)@[i]
                }),
            ) && *final(player) == *old(player) && *final(player_deck) == *old(player_deck),
        r is Err ==> crate::errors::resolution_error(r->Err_0),
        r is Ok ==> crate::systems::return_no_gameover(r->Ok_0),
        final(rng).seed() == old(rng).seed(),
        final(rng).rotation() == old(rng).rotation(),
{
    if is_veto(&input) {
        return Ok(SystemReturn::Continue(Vec::new()));
    }
    if ctx.system.args.len() < 1 {
        return Err(Error::BattleUnexpectedSystemArgs);
    }
    let value = ctx.system.args[0].0;
    let mut logs: Vec<FightLog> = Vec::new();
    apply_to_targets(StatOp::MaxHpUp(value), targets, player, opponents, player_deck, &mut logs);
    let mut cmds: Vec<Command> = Vec::new();
    cmds.push(Command::AddLogs(logs));
    Ok(SystemReturn::Continue(cmds))
}

/// Lowers the player's maximum hit points and the current ones with them;
/// other targets are skipped.
pub fn max_hp_down(
    rng: &mut SporeRng,
    card_pool: &Vec<Card>,
    ctx: SystemContext,
    caster: usize,
    targets: &Vec<usize>,
    player: &mut WarriorContext,
    opponents: &mut Vec<EnemyContext>,
    player_deck: &mut WarriorDeckContext,
    input: Option<SystemInput>,
) -> (r: Result<SystemReturn, Error>)
    requires
        combat_wf(*old(player), old(opponents)@),
    ensures
        combat_wf(*final(player), final(opponents)@),
        handler_frame(
            *old(player),
            *final(player),
            old(opponents)@,
            final(opponents)@,
            *old(player_deck),
            *final(player_deck),
        ),
        veto_input(input) ==> veto_post(
            *old(player),
            *final(player),
            old(opponents)@,
            final(opponents)@,
            *old(player_deck),
            *final(player_deck),
            r,
        ) && *final(rng) == *old(rng),
        r is Err <==> !veto_input(input) && ctx.system.args@.len() < 1,
        r is Err ==> r == Result::<SystemReturn, Error>::Err(Error::BattleUnexpectedSystemArgs)
            && *final(player) == *old(player) && final(opponents)@ == old(opponents)@ && *final(player_deck)
            == *old(player_deck) && *final(rng) == *old(rng),
        !veto_input(input) && ctx.system.args@.len() >= 1 && targets@.len() == 1
            && targets@[0] == old(player).offset ==> *final(player)
            == crate::systems::applications::warrior_after(StatOp::MaxHpDown(ctx.system.args@[0].0), *old(player))
            && final(opponents)@ == old(opponents)@ && *final(player_deck) == *old(player_deck),
        forall|i: int|
            !veto_input(input) && ctx.system.args@.len() >= 1 && targets@.len() == 1 && 0 <= i
                < old(opponents)@.len() && (#[trigger] old(opponents)@[i]).offset == targets@[0]
                && targets@[0] != old(player).offset && (forall|j: int|
                0 <= j < i ==> old(opponents)@[j].offset != targets@[0]) ==> final(opponents)@
                == old(opponents)@.update(
                i,
                (EnemyContext {
                    stats: crate::systems::applications::enemy_stats_after(
                        StatOp::MaxHpDown(ctx.system.args@[0].0),
                        old(opponents)@[i].stats,
                    ),
                    ..old(opponents)@[i]
                }),
            ) && *final(player) == *old(player) && *final(player_deck) == *old(player_deck),
        r is Err ==> crate::errors::resolution_error(r->Err_0),
        r is Ok ==> crate::systems::return_no_gameover(r->Ok_0),
        final(rng).seed() == old(rng).seed(),
        final(rng).rotation() == old(rng).rotation(),
{
    if is_veto(&input) {
        return Ok(SystemReturn::Continue(Vec::new()));
    }
    if ctx.system.args.len() < 1 {
        return Err(Error::BattleUnexpectedSystemArgs);
    }
    let value = ctx.system.args[0].0;
    let mut logs: Vec<FightLog> = Vec::new();
    apply_to_targets(StatOp::MaxHpDown(value), targets, player, opponents, player_deck, &mut logs);
    let mut cmds: Vec<Command> = Vec::new();
    cmds.push(Command::AddLogs(logs));
    Ok(SystemReturn::Continue(cmds))
}

/// Lowers the cost of every targeted card, floored at zero; other targets
/// are skipped.
pub fn card_power_cost_down(
    rng: &mut SporeRng,
    card_pool: &Vec<Card>,
    ctx: SystemContext,
    caster: usize,
    targets: &Vec<usize>,
    player: &mut WarriorContext,
    opponents: &mut Vec<EnemyContext>,
    player_deck: &mut WarriorDeckContext,
    input: Option<SystemInput>,
) -> (r: Result<SystemReturn, Error>)
    requires
        combat_wf(*old(player), old(opponents)@),
    ensures
        combat_wf(*final(player), final(opponents)@),
        handler_frame(
            *old(player),
            *final(player),
            old(opponents)@,
            final(opponents)@,
            *old(player_deck),
            *final(player_deck),
        ),
        veto_input(input) ==> veto_post(
            *old(player),
            *final(player),
            old(opponents)@,
            final(opponents)@,
            *old(player_deck),
            *final(player_deck),
            r,
        ) && *final(rng) == *old(rng),
        r is Err <==> !veto_input(input) && ctx.system.args@.len() < 1,
        r is Err ==> r == Result::<SystemReturn, Error>::Err(Error::BattleUnexpectedSystemArgs)
            && *final(player) == *old(player) && final(opponents)@ == old(opponents)@ && *final(player_deck)
            == *old(player_deck) && *final(rng) == *old(rng),
        !veto_input(input) && ctx.system.args@.len() >= 1 && ctx.system.args@[0].0 <= 255 && targets@.len() == 1
            && targets@[0] == old(player).offset ==> *final(player)
            == crate::systems::applications::warrior_after(StatOp::PowerCostDown(ctx.system.args@[0].0 as u8), *old(player))
            && final(opponents)@ == old(opponents)@ && *final(player_deck) == *old(player_deck),
        forall|i: int|
            !veto_input(input) && ctx.system.args@.len() >= 1 && ctx.system.args@[0].0 <= 255 && targets@.len() == 1 && 0 <= i
                < old(opponents)@.len() && (#[trigger] old(opponents)@[i]).offset == targets@[0]
                && targets@[0] != old(player).offset && (forall|j: int|
                0 <= j < i ==> old(opponents)@[j].offset != targets@[0]) ==> final(opponents)@
                == old(opponents)@.update(
                i,
                (EnemyContext {
                    stats: crate::systems::applications::enemy_stats_after(
                        StatOp::PowerCostDown(ctx.system.args@[0].0 as u8),
                        old(opponents)@[i].stats,
                    ),
                    ..old(opponents)@[i]
                }),
            ) && *final(player) == *old(player) && *final(player_deck) == *old(player_deck),
        r is Err ==> crate::errors::resolution_error(r->Err_0),
        r is Ok ==> crate::systems::return_no_gameover(r->Ok_0),
        final(rng).seed() == old(rng).seed(),
        final(rng).rotation() == old(rng).rotation(),
{
    if is_veto(&input) {
        return Ok(SystemReturn::Continue(Vec::new()));
    }
    if ctx.system.args.len() < 1 {
        return Err(Error::BattleUnexpectedSystemArgs);
    }
    let value = #[verifier::truncate] (ctx.system.args[0].0 as u8);
    let mut logs: Vec<FightLog> = Vec::new();
    apply_to_targets(StatOp::PowerCostDown(value), targets, player, opponents, player_deck, &mut logs);
    let mut cmds: Vec<Command> = Vec::new();
    cmds.push(Command::AddLogs(logs));
    Ok(SystemReturn::Continue(cmds))
}


/// Asks the resolver to draw cards from the main deck.
pub fn draw_cards(
    rng: &mut SporeRng,
    card_pool: &Vec<Card>,
    ctx: SystemContext,
    caster: usize,
    targets: &Vec<usize>,
    player: &mut WarriorContext,
    opponents: &mut Vec<EnemyContext>,
    player_deck: &mut WarriorDeckContext,
    input: Option<SystemInput>,
) -> (r: Result<SystemReturn, Error>)
    requires
        combat_wf(*old(player), old(opponents)@),
    ensures
        combat_wf(*final(player), final(opponents)@),
        handler_frame(
            *old(player),
            *final(player),
            old(opponents)@,
            final(opponents)@,
            *old(player_deck),
            *final(player_deck),
        ),
        veto_input(input) ==> veto_post(
            *old(player),
            *final(player),
            old(opponents)@,
            final(opponents)@,
            *old(player_deck),
            *final(player_deck),
            r,
        ) && *final(rng) == *old(rng),
        r is Err <==> !veto_input(input) && ctx.system.args@.len() < 1,
        r is Err ==> r == Result::<SystemReturn, Error>::Err(Error::BattleUnexpectedSystemArgs)
            && *final(player) == *old(player) && final(opponents)@ == old(opponents)@ && *final(player_deck)
            == *old(player_deck) && *final(rng) == *old(rng),
        !veto_input(input) && ctx.system.args@.len() >= 1 && ctx.system.args@[0].0 <= 255 ==> (
        r matches Result::Ok(SystemReturn::Continue(cmds)) && cmds@.len() == 1 && cmds@[0]
            == Command::DrawCards(ctx.system.args@[0].0 as u8)),
        r is Err ==> crate::errors::resolution_error(r->Err_0),
        r is Ok ==> crate::systems::return_no_gameover(r->Ok_0),
        final(rng).seed() == old(rng).seed(),
        final(rng).rotation() == old(rng).rotation(),
{
    if is_veto(&input) {
        return Ok(SystemReturn::Continue(Vec::new()));
    }
    if ctx.system.args.len() < 1 {
        return Err(Error::BattleUnexpectedSystemArgs);
    }
    let count = #[verifier::truncate] (ctx.system.args[0].0 as u8);
    let mut cmds: Vec<Command> = Vec::new();
    cmds.push(Command::DrawCards(count));
    Ok(SystemReturn::Continue(cmds))
}


/// Asks the resolver to discard randomly chosen hand cards to the grave.
pub fn discard_cards(
    rng: &mut SporeRng,
    card_pool: &Vec<Card>,
    ctx: SystemContext,
    caster: usize,
    targets: &Vec<usize>,
    player: &mut WarriorContext,
    opponents: &mut Vec<EnemyContext>,
    player_deck: &mut WarriorDeckContext,
    input: Option<SystemInput>,
) -> (r: Result<SystemReturn, Error>)
    requires
        combat_wf(*old(player), old(opponents)@),
    ensures
        combat_wf(*final(player), final(opponents)@),
        handler_frame(
            *old(player),
            *final(player),
            old(opponents)@,
            final(opponents)@,
            *old(player_deck),
            *final(player_deck),
        ),
        veto_input(input) ==> veto_post(
            *old(player),
            *final(player),
            old(opponents)@,
            final(opponents)@,
            *old(player_deck),
            *final(player_deck),
            r,
        ) && *final(rng) == *old(rng),
        r is Err <==> !veto_input(input) && ctx.system.args@.len() < 1,
        r is Err ==> r == Result::<SystemReturn, Error>::Err(Error::BattleUnexpectedSystemArgs)
            && *final(player) == *old(player) && final(opponents)@ == old(opponents)@ && *final(player_deck)
            == *old(player_deck) && *final(rng) == *old(rng),
        !veto_input(input) && ctx.system.args@.len() >= 1 && ctx.system.args@[0].0 <= 255 ==> (
        r matches Result::Ok(SystemReturn::Continue(cmds)) && cmds@.len() == 1 && cmds@[0]
            == Command::DiscardHandCards(ctx.system.args@[0].0 as u8, true)),
        r is Err ==> crate::errors::resolution_error(r->Err_0),
        r is Ok ==> crate::systems::return_no_gameover(r->Ok_0),
        final(rng).seed() == old(rng).seed(),
        final(rng).rotation() == old(rng).rotation(),
{
    if is_veto(&input) {
        return Ok(SystemReturn::Continue(Vec::new()));
    }
    if ctx.system.args.len() < 1 {
        return Err(Error::BattleUnexpectedSystemArgs);
    }
    let count = #[verifier::truncate] (ctx.system.args[0].0 as u8);
    let mut cmds: Vec<Command> = Vec::new();
    cmds.push(Command::DiscardHandCards(count, true));
    Ok(SystemReturn::Continue(cmds))
}


/// Suspends for a prompt that discards chosen hand cards.
pub fn discard_select_cards(
    rng: &mut SporeRng,
    card_pool: &Vec<Card>,
    ctx: SystemContext,
    caster: usize,
    targets: &Vec<usize>,
    player: &mut WarriorContext,
    opponents: &mut Vec<EnemyContext>,
    player_deck: &mut WarriorDeckContext,
    input: Option<SystemInput>,
) -> (r: Result<SystemReturn, Error>)
    requires
        combat_wf(*old(player), old(opponents)@),
    ensures
        combat_wf(*final(player), final(opponents)@),
        handler_frame(
            *old(player),
            *final(player),
            old(opponents)@,
            final(opponents)@,
            *old(player_deck),
            *final(player_deck),
        ),
        veto_input(input) ==> veto_post(
            *old(player),
            *final(player),
            old(opponents)@,
            final(opponents)@,
            *old(player_deck),
            *final(player_deck),
            r,
        ) && *final(rng) == *old(rng),
        r is Err <==> !veto_input(input) && ctx.system.args@.len() < 1,
        r is Err ==> r == Result::<SystemReturn, Error>::Err(Error::BattleUnexpectedSystemArgs)
            && *final(player) == *old(player) && final(opponents)@ == old(opponents)@ && *final(player_deck)
            == *old(player_deck) && *final(rng) == *old(rng),
        !veto_input(input) && ctx.system.args@.len() >= 1 && ctx.system.args@[0].0 <= 255 ==> (
        r matches Result::Ok(SystemReturn::RequireCardSelect(count, is_draw, cmds)) && count
            == ctx.system.args@[0].0 as u8 && !is_draw && cmds@.len() == 0),
        r is Err ==> crate::errors::resolution_error(r->Err_0),
        r is Ok ==> crate::systems::return_no_gameover(r->Ok_0),
        final(rng).seed() == old(rng).seed(),
        final(rng).rotation() == old(rng).rotation(),
{
    if is_veto(&input) {
        return Ok(SystemReturn::Continue(Vec::new()));
    }
    if ctx.system.args.len() < 1 {
        return Err(Error::BattleUnexpectedSystemArgs);
    }
    let count = #[verifier::truncate] (ctx.system.args[0].0 as u8);
    Ok(SystemReturn::RequireCardSelect(count, false, Vec::new()))
}


/// Suspends for a prompt that draws chosen cards from the main deck, the
/// grave, or cards freshly materialized from the session's card pool
/// (uniformly picked among those of the requested class).
pub fn draw_select_cards(
    rng: &mut SporeRng,
    card_pool: &Vec<Card>,
    ctx: SystemContext,
    caster: usize,
    targets: &Vec<usize>,
    player: &mut WarriorContext,
    opponents: &mut Vec<EnemyContext>,
    player_deck: &mut WarriorDeckContext,
    input: Option<SystemInput>,
) -> (r: Result<SystemReturn, Error>)
    requires
        combat_wf(*old(player), old(opponents)@),
    ensures
        combat_wf(*final(player), final(opponents)@),
        handler_frame(
            *old(player),
            *final(player),
            old(opponents)@,
            final(opponents)@,
            *old(player_deck),
            *final(player_deck),
        ),
        veto_input(input) ==> veto_post(
            *old(player),
            *final(player),
            old(opponents)@,
            final(opponents)@,
            *old(player_deck),
            *final(player_deck),
            r,
        ) && *final(rng) == *old(rng),
        !veto_input(input) && ctx.system.args@.len() < 2 ==> r == Result::<
            SystemReturn,
            Error,
        >::Err(Error::BattleUnexpectedSystemArgs) && *final(player) == *old(player) && final(opponents)@
            == old(opponents)@ && *final(player_deck) == *old(player_deck) && *final(rng) == *old(rng),
        !veto_input(input) && (ctx.system.args@.len() < 2 || ctx.system.args@[1].0 <= 255) ==> {
            &&& (r is Err <==> draw_select_error(ctx.system.args@, card_pool@) is Some)
            &&& (r is Err ==> Some(r->Err_0) == draw_select_error(ctx.system.args@, card_pool@))
        },
        r is Err ==> *final(player) == *old(player) && final(opponents)@ == old(opponents)@
            && *final(player_deck) == *old(player_deck),
        !veto_input(input) && ctx.system.args@.len() >= 2 && ctx.system.args@[1].0 <= 255 && r
            is Ok ==> (r matches Result::Ok(SystemReturn::RequireCardSelect(count, is_draw, cmds))
            && count == ctx.system.args@[1].0 as u8 && is_draw && cmds@.len() == 1),
        !veto_input(input) && ctx.system.args@[0].0 == 0 && ctx.system.args@.len() >= 2 && r is Ok
            ==> (r matches Result::Ok(SystemReturn::RequireCardSelect(_c, _d, cmds)) && cmds@.len()
            == 1 && cmds@[0] == Command::SetSelectionPool(DeckSource::FromDeck)),
        !veto_input(input) && ctx.system.args@[0].0 == 1 && ctx.system.args@.len() >= 2 && r is Ok
            ==> (r matches Result::Ok(SystemReturn::RequireCardSelect(_c, _d, cmds)) && cmds@.len()
            == 1 && cmds@[0] == Command::SetSelectionPool(DeckSource::FromGrave)),
        r is Err ==> crate::errors::resolution_error(r->Err_0),
        r is Ok ==> crate::systems::return_no_gameover(r->Ok_0),
        final(rng).seed() == old(rng).seed(),
        final(rng).rotation() == old(rng).rotation(),
{
    if is_veto(&input) {
        return Ok(SystemReturn::Continue(Vec::new()));
    }
    if ctx.system.args.len() < 2 {
        return Err(Error::BattleUnexpectedSystemArgs);
    }
    let deck_type = DeckType::from_code(ctx.system.args[0].0)?;
    let select_count = #[verifier::truncate] (ctx.system.args[1].0 as u8);
    let mut cmds: Vec<Command> = Vec::new();
    match deck_type {
        DeckType::FromDeck => {
            cmds.push(Command::SetSelectionPool(DeckSource::FromDeck));
        },
        DeckType::FromGrave => {
            cmds.push(Command::SetSelectionPool(DeckSource::FromGrave));
        },
        DeckType::FromResource => {
            if ctx.system.args.len() < 4 {
                return Err(Error::BattleUnexpectedSystemArgs);
            }
            let card_class = ctx.system.args[2].0;
            let pick_count = ctx.system.args[3].0;
            if pick_count < select_count as u16 {
                return Err(Error::BattleUnexpectedSystemArgs);
            }
            let mut avaliable: Vec<Card> = Vec::new();
            let mut i: usize = 0;
            while i < card_pool.len()
                invariant
                    i <= card_pool@.len(),
                    avaliable@.len() == class_pool_count(card_pool@.take(i as int), card_class),
                decreases card_pool.len() - i,
            {
                proof {
                    assert(card_pool@.take(i + 1).drop_last() =~= card_pool@.take(i as int));
                    assert(card_pool@.take(i + 1).last() == card_pool@[i as int]);
                }
                if card_pool[i].class as u16 == card_class {
                    avaliable.push(card_pool[i].clone());
                }
                i += 1;
            }
            proof {
                assert(card_pool@.take(card_pool@.len() as int) =~= card_pool@);
            }
            if pick_count as usize > avaliable.len() {
                return Err(Error::BattleUnexpectedSystemArgs);
            }
            let mut picks: Vec<CardContext> = Vec::new();
            let mut made: u16 = 0;
            while made < pick_count && avaliable.len() > 0
                invariant
                    rng.seed() == old(rng).seed(),
                    rng.rotation() == old(rng).rotation(),
                decreases pick_count - made,
            {
                let i = rng.pick_index(avaliable.len());
                let card = avaliable.remove(i);
                picks.push(CardContext::new(card));
                made += 1;
            }
            cmds.push(Command::SetSelectionPool(DeckSource::Materialized(picks)));
        },
    }
    Ok(SystemReturn::RequireCardSelect(select_count, true, cmds))
}


/// Asks the resolver to set the cost of a uniformly chosen hand card; the
/// draw happens here so the choice is fixed before the deck is consulted.
pub fn change_random_card_cost(
    rng: &mut SporeRng,
    card_pool: &Vec<Card>,
    ctx: SystemContext,
    caster: usize,
    targets: &Vec<usize>,
    player: &mut WarriorContext,
    opponents: &mut Vec<EnemyContext>,
    player_deck: &mut WarriorDeckContext,
    input: Option<SystemInput>,
) -> (r: Result<SystemReturn, Error>)
    requires
        combat_wf(*old(player), old(opponents)@),
    ensures
        combat_wf(*final(player), final(opponents)@),
        handler_frame(
            *old(player),
            *final(player),
            old(opponents)@,
            final(opponents)@,
            *old(player_deck),
            *final(player_deck),
        ),
        veto_input(input) ==> veto_post(
            *old(player),
            *final(player),
            old(opponents)@,
            final(opponents)@,
            *old(player_deck),
            *final(player_deck),
            r,
        ) && *final(rng) == *old(rng),
        r is Err <==> !veto_input(input) && ctx.system.args@.len() < 1,
        r is Err ==> r == Result::<SystemReturn, Error>::Err(Error::BattleUnexpectedSystemArgs)
            && *final(player) == *old(player) && final(opponents)@ == old(opponents)@ && *final(player_deck)
            == *old(player_deck) && *final(rng) == *old(rng),
        !veto_input(input) && ctx.system.args@.len() >= 1 && ctx.system.args@[0].0 <= 255 ==> (
        r matches Result::Ok(SystemReturn::Continue(cmds)) && cmds@.len() == 1 && cmds@[0]
            == Command::SetRandomHandCost(
            crate::rng::rng_stream32(old(rng).seed(), old(rng).position()),
            ctx.system.args@[0].0 as u8,
        ) && final(rng).position() == old(rng).position() + 1),
        r is Err ==> crate::errors::resolution_error(r->Err_0),
        r is Ok ==> crate::systems::return_no_gameover(r->Ok_0),
        final(rng).seed() == old(rng).seed(),
        final(rng).rotation() == old(rng).rotation(),
{
    if is_veto(&input) {
        return Ok(SystemReturn::Continue(Vec::new()));
    }
    if ctx.system.args.len() < 1 {
        return Err(Error::BattleUnexpectedSystemArgs);
    }
    let cost = #[verifier::truncate] (ctx.system.args[0].0 as u8);
    let pick = rng.next_u32();
    let mut cmds: Vec<Command> = Vec::new();
    cmds.push(Command::SetRandomHandCost(pick, cost));
    Ok(SystemReturn::Continue(cmds))
}


} // verus!
