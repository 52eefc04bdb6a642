use vstd::prelude::*;

verus! {

use crate::battle::traits::{gameover_count, log_tag, FightLog};

broadcast use crate::battle::traits::lemma_gameover_count_push;

use crate::contexts::{
    CtxAdaptor, EnemyContext, MountOp, SystemContext, WarriorContext, WarriorDeckContext,
};
use crate::errors::Error;
use crate::rng::SporeRng;
use crate::systems::applications::{apply_to_targets, caster_offense, StatOp};
use crate::systems::{
    combat_wf, handler_frame, is_veto, return_no_gameover, veto_input, veto_post, Command,
    SystemInput, SystemReturn,
};
use crate::wrappings::Card;

/// The input that arms a dormant durable instance: a matching log-replay
/// event while the counter is at zero.
pub open spec fn arming_case(ctx: SystemContext, input: Option<SystemInput>) -> bool {
    ctx.duration_counter == 0 && (input matches Some(SystemInput::Trigger(t)) && !(t is GameOver)
        && (ctx.system.duration matches Some(d) && log_tag(t) == d.trigger && d.count > 0))
}

/// The input that fires an armed durable instance: a matching log-replay
/// event while the counter is positive.
pub open spec fn firing_case(ctx: SystemContext, input: Option<SystemInput>) -> bool {
    ctx.duration_counter > 0 && (input matches Some(SystemInput::Trigger(t)) && !(t is GameOver)
        && (ctx.system.duration matches Some(d) && log_tag(t) == d.trigger))
}

/// The instance after arming: the counter takes the duration count.
pub open spec fn armed_of(ctx: SystemContext) -> SystemContext {
    SystemContext { duration_counter: ctx.system.duration->Some_0.count, ..ctx }
}

/// The instance after one firing: the counter drops by one.
pub open spec fn fired_of(ctx: SystemContext) -> SystemContext {
    SystemContext { duration_counter: (ctx.duration_counter - 1) as u16, ..ctx }
}

/// Performs one mounted-system bookkeeping operation on the participant with
/// the given identity and logs it; an identity with nothing behind it is
/// skipped.
fn mount_on(
    op: MountOp,
    offset: usize,
    sys_ctx: &SystemContext,
    player: &mut WarriorContext,
    opponents: &mut Vec<EnemyContext>,
    player_deck: &mut WarriorDeckContext,
    logs: &mut Vec<FightLog>,
)
    requires
        combat_wf(*old(player), old(opponents)@),
    ensures
        combat_wf(*final(player), final(opponents)@),
        handler_frame(
            *old(player),
            *final(player),
            old(opponents)@,
            final(opponents)@,
            *old(player_deck),
            *final(player_deck),
        ),
        gameover_count(final(logs)@) == gameover_count(old(logs)@),
        offset == old(player).offset ==> {
            &&& final(player).same_but_mountings(*old(player))
            &&& final(opponents)@ == old(opponents)@
            &&& *final(player_deck) == *old(player_deck)
            &&& (op == MountOp::Add ==> exists|b: bool|
                crate::contexts::mounting_add_post(
                    old(player).mounting_systems@,
                    final(player).mounting_systems@,
                    *sys_ctx,
                    b,
                ) && final(logs)@ == old(logs)@.push(
                    FightLog::AddSystem(offset, sys_ctx.system.id),
                ))
            &&& (op == MountOp::Update ==> exists|b: bool|
                crate::contexts::mounting_update_post(
                    old(player).mounting_systems@,
                    final(player).mounting_systems@,
                    *sys_ctx,
                    b,
                ) && final(logs)@ == old(logs)@.push(
                    FightLog::UpdateSystem(offset, sys_ctx.system.id),
                ))
            &&& (op == MountOp::Remove ==> exists|b: bool|
                crate::contexts::mounting_remove_post(
                    old(player).mounting_systems@,
                    final(player).mounting_systems@,
                    *sys_ctx,
                    b,
                ) && final(logs)@ == old(logs)@.push(
                    FightLog::RemoveSystem(offset, sys_ctx.system.id),
                ))
        },
{
    let id = sys_ctx.system.id;
    let entry = match op {
        MountOp::Add => FightLog::AddSystem(offset, id),
        MountOp::Update => FightLog::UpdateSystem(offset, id),
        MountOp::Remove => FightLog::RemoveSystem(offset, id),
    };
    match crate::systems::applications::locate(offset, player, opponents, player_deck) {
        crate::systems::applications::Located::IsPlayer => {
            match op {
                MountOp::Add => {
                    player.add_mounting_system(sys_ctx);
                },
                MountOp::Update => {
                    player.update_mounting_system(sys_ctx);
                },
                MountOp::Remove => {
                    player.remove_mounting_system(sys_ctx);
                },
            }
            logs.push(entry);
        },
        crate::systems::applications::Located::IsEnemy(i) => {
            let mut enemy = opponents.remove(i);
            match op {
                MountOp::Add => {
                    enemy.add_mounting_system(sys_ctx);
                },
                MountOp::Update => {
                    enemy.update_mounting_system(sys_ctx);
                },
                MountOp::Remove => {
                    enemy.remove_mounting_system(sys_ctx);
                },
            }
            opponents.insert(i, enemy);
            proof {
                assert(opponents@ =~= old(opponents)@.update(i as int, opponents@[i as int]));
            }
            logs.push(entry);
        },
        crate::systems::applications::Located::IsCard => {
            player_deck.card_mounting(offset, sys_ctx, op);
            logs.push(entry);
        },
        crate::systems::applications::Located::NotFound => {},
    }
}

/// What driving a durable instance with the current input amounts to:
/// nothing (with a verbatim return), or the armed effect body with the
/// updated instance and the event that fired it.
pub enum TriggerOutcome {
    BreakOut(SystemReturn),
    Proceed(SystemContext, FightLog, Vec<FightLog>),
}

/// The shared gate of the durable handlers. Without a log-replay input, or
/// under the terminal veto, nothing happens. On a matching event with the
/// counter at zero the instance arms: the counter takes the duration count
/// and the instance mounts on every object, without effect. On a matching
/// event with a positive counter it fires: the counter drops, the mounted
/// copies refresh (or unmount at zero), and the caller applies the effect
/// body. Any other event leaves everything alone.
fn run_trigger(
    ctx: SystemContext,
    objects: &Vec<usize>,
    player: &mut WarriorContext,
    opponents: &mut Vec<EnemyContext>,
    player_deck: &mut WarriorDeckContext,
    input: &Option<SystemInput>,
) -> (r: Result<TriggerOutcome, Error>)
    requires
        combat_wf(*old(player), old(opponents)@),
    ensures
        combat_wf(*final(player), final(opponents)@),
        handler_frame(
            *old(player),
            *final(player),
            old(opponents)@,
            final(opponents)@,
            *old(player_deck),
            *final(player_deck),
        ),
        veto_input(*input) ==> *final(player) == *old(player) && final(opponents)@ == old(
            opponents,
        )@ && *final(player_deck) == *old(player_deck) && (r matches Result::Ok(
            TriggerOutcome::BreakOut(SystemReturn::Continue(cmds)),
        ) && cmds@.len() == 0),
        !(input matches Some(SystemInput::Trigger(_))) ==> *final(player) == *old(player)
            && final(opponents)@ == old(opponents)@ && *final(player_deck) == *old(player_deck)
            && (r matches Result::Ok(TriggerOutcome::BreakOut(SystemReturn::Continue(cmds)))
            && cmds@.len() == 0),
        input matches Some(SystemInput::Trigger(t)) && !(*t is GameOver) && (
        ctx.system.duration matches Some(d) && ctx.duration_counter > 0 && log_tag(*t)
            != d.trigger) ==> *final(player) == *old(player) && final(opponents)@ == old(
            opponents,
        )@ && *final(player_deck) == *old(player_deck) && (r matches Result::Ok(
            TriggerOutcome::BreakOut(SystemReturn::Continue(cmds)),
        ) && cmds@.len() == 0),
        r matches Result::Ok(TriggerOutcome::Proceed(c, t, _l)) ==> !(t is GameOver),
        r matches Result::Ok(TriggerOutcome::BreakOut(sr)) ==> return_no_gameover(sr),
        r is Err ==> crate::errors::resolution_error(r->Err_0),
        r matches Result::Ok(TriggerOutcome::Proceed(_c, _t, l)) ==> gameover_count(l@) == 0,
        (*input matches Some(SystemInput::Trigger(tt)) && !(tt is GameOver))
            && ctx.system.duration is None ==> r == Result::<TriggerOutcome, Error>::Err(
            Error::BattleUnexpectedSystemDuration,
        ) && *final(player) == *old(player) && final(opponents)@ == old(opponents)@ && *final(player_deck)
            == *old(player_deck),
        arming_case(ctx, *input) && objects@.len() == 1 && objects@[0] == old(player).offset ==> {
            &&& exists|b: bool|
                crate::contexts::mounting_add_post(
                    old(player).mounting_systems@,
                    final(player).mounting_systems@,
                    armed_of(ctx),
                    b,
                )
            &&& final(player).same_but_mountings(*old(player))
            &&& final(opponents)@ == old(opponents)@
            &&& *final(player_deck) == *old(player_deck)
            &&& (r matches Result::Ok(TriggerOutcome::BreakOut(SystemReturn::Continue(cmds)))
                && cmds@.len() == 1 && (cmds@[0] matches Command::AddLogs(l) && l@ == seq![
                FightLog::AddSystem(objects@[0], ctx.system.id),
            ]))
        },
        firing_case(ctx, *input) && objects@.len() == 1 && objects@[0] == old(player).offset ==> {
            &&& (ctx.duration_counter > 1 ==> exists|b: bool|
                crate::contexts::mounting_update_post(
                    old(player).mounting_systems@,
                    final(player).mounting_systems@,
                    fired_of(ctx),
                    b,
                ))
            &&& (ctx.duration_counter == 1 ==> exists|b: bool|
                crate::contexts::mounting_remove_post(
                    old(player).mounting_systems@,
                    final(player).mounting_systems@,
                    fired_of(ctx),
                    b,
                ))
            &&& final(player).same_but_mountings(*old(player))
            &&& final(opponents)@ == old(opponents)@
            &&& *final(player_deck) == *old(player_deck)
            &&& (r matches Result::Ok(TriggerOutcome::Proceed(c, t2, l)) && c == fired_of(ctx)
                && (forall|t0: FightLog|
                *input == Some(SystemInput::Trigger(t0)) ==> t2 == t0) && l@ == seq![
                if ctx.duration_counter == 1 {
                    FightLog::RemoveSystem(objects@[0], ctx.system.id)
                } else {
                    FightLog::UpdateSystem(objects@[0], ctx.system.id)
                },
            ])
        },
{
    let trigger = match input {
        Some(SystemInput::Trigger(t)) => *t,
        _ => {
            return Ok(TriggerOutcome::BreakOut(SystemReturn::Continue(Vec::new())));
        },
    };
    if is_veto(input) {
        return Ok(TriggerOutcome::BreakOut(SystemReturn::Continue(Vec::new())));
    }
    let duration = match ctx.system.duration {
        Some(d) => d,
        None => {
            return Err(Error::BattleUnexpectedSystemDuration);
        },
    };
    let mut logs: Vec<FightLog> = Vec::new();
    if ctx.duration_counter == 0 {
        if trigger.tag() == duration.trigger {
            if duration.count == 0 {
                return Err(Error::ResourceBrokenDurationCount);
            }
            let mut armed = ctx;
            armed.duration_counter = duration.count;
            proof {
                assert(armed == armed_of(ctx));
            }
            let mut k: usize = 0;
            while k < objects.len()
                invariant
                    k <= objects@.len(),
                    armed == armed_of(ctx),
                    combat_wf(*player, opponents@),
                    gameover_count(logs@) == 0,
                    handler_frame(
                        *old(player),
                        *player,
                        old(opponents)@,
                        opponents@,
                        *old(player_deck),
                        *player_deck,
                    ),
                    k == 0 ==> *player == *old(player) && opponents@ == old(opponents)@
                        && *player_deck == *old(player_deck) && logs@ == Seq::<FightLog>::empty(),
                    objects@.len() == 1 && k == 1 && objects@[0] == old(player).offset ==> (
                    exists|b: bool|
                        crate::contexts::mounting_add_post(
                            old(player).mounting_systems@,
                            player.mounting_systems@,
                            armed_of(ctx),
                            b,
                        )) && player.same_but_mountings(*old(player)) && opponents@ == old(
                        opponents,
                    )@ && *player_deck == *old(player_deck) && logs@ == seq![
                        FightLog::AddSystem(objects@[0], ctx.system.id),
                    ],
                decreases objects.len() - k,
            {
                mount_on(
                    MountOp::Add,
                    objects[k],
                    &armed,
                    player,
                    opponents,
                    player_deck,
                    &mut logs,
                );
                k += 1;
            }
            let mut cmds: Vec<Command> = Vec::new();
            cmds.push(Command::AddLogs(logs));
            return Ok(TriggerOutcome::BreakOut(SystemReturn::Continue(cmds)));
        }
        return Ok(TriggerOutcome::BreakOut(SystemReturn::Continue(Vec::new())));
    }
    if trigger.tag() == duration.trigger {
        let mut fired = ctx;
        fired.duration_counter = fired.duration_counter - 1;
        proof {
            assert(fired == fired_of(ctx));
        }
        let unmount = fired.duration_counter == 0;
        let mut k: usize = 0;
        while k < objects.len()
            invariant
                k <= objects@.len(),
                fired == fired_of(ctx),
                unmount == (ctx.duration_counter == 1),
                ctx.duration_counter >= 1,
                combat_wf(*player, opponents@),
                gameover_count(logs@) == 0,
                handler_frame(
                    *old(player),
                    *player,
                    old(opponents)@,
                    opponents@,
                    *old(player_deck),
                    *player_deck,
                ),
                k == 0 ==> *player == *old(player) && opponents@ == old(opponents)@ && *player_deck
                    == *old(player_deck) && logs@ == Seq::<FightLog>::empty(),
                objects@.len() == 1 && k == 1 && objects@[0] == old(player).offset ==> (
                ctx.duration_counter > 1 ==> exists|b: bool|
                    crate::contexts::mounting_update_post(
                        old(player).mounting_systems@,
                        player.mounting_systems@,
                        fired_of(ctx),
                        b,
                    )) && (ctx.duration_counter == 1 ==> exists|b: bool|
                    crate::contexts::mounting_remove_post(
                        old(player).mounting_systems@,
                        player.mounting_systems@,
                        fired_of(ctx),
                        b,
                    )) && player.same_but_mountings(*old(player)) && opponents@ == old(
                    opponents,
                )@ && *player_deck == *old(player_deck) && logs@ == seq![
                    if ctx.duration_counter == 1 {
                        FightLog::RemoveSystem(objects@[0], ctx.system.id)
                    } else {
                        FightLog::UpdateSystem(objects@[0], ctx.system.id)
                    },
                ],
            decreases objects.len() - k,
        {
            if unmount {
                mount_on(
                    MountOp::Remove,
                    objects[k],
                    &fired,
                    player,
                    opponents,
                    player_deck,
                    &mut logs,
                );
            } else {
                mount_on(
                    MountOp::Update,
                    objects[k],
                    &fired,
                    player,
                    opponents,
                    player_deck,
                    &mut logs,
                );
            }
            k += 1;
        }
        return Ok(TriggerOutcome::Proceed(fired, trigger, logs));
    }
    Ok(TriggerOutcome::BreakOut(SystemReturn::Continue(Vec::new())))
}

/// Restores hit points of every target whenever the armed trigger fires,
/// for as many firings as the duration count allows.
pub fn recover_hp(
    rng: &mut SporeRng,
    card_pool: &Vec<Card>,
    ctx: SystemContext,
    caster: usize,
    targets: &Vec<usize>,
    player: &mut WarriorContext,
    opponents: &mut Vec<EnemyContext>,
    player_deck: &mut WarriorDeckContext,
    input: Option<SystemInput>,
) -> (r: Result<SystemReturn, Error>)
    requires
        combat_wf(*old(player), old(opponents)@),
    ensures
        combat_wf(*final(player), final(opponents)@),
        handler_frame(
            *old(player),
            *final(player),
            old(opponents)@,
            final(opponents)@,
            *old(player_deck),
            *final(player_deck),
        ),
        veto_input(input) ==> veto_post(
            *old(player),
            *final(player),
            old(opponents)@,
            final(opponents)@,
            *old(player_deck),
            *final(player_deck),
            r,
        ) && *final(rng) == *old(rng),
        !(input matches Some(SystemInput::Trigger(_))) ==> *final(player) == *old(player)
            && final(opponents)@ == old(opponents)@ && *final(player_deck) == *old(player_deck)
            && *final(rng) == *old(rng) && (r matches Result::Ok(SystemReturn::Continue(cmds))
            && cmds@.len() == 0),
        input matches Some(SystemInput::Trigger(t)) && !(t is GameOver) && (
        ctx.system.duration matches Some(d) && ctx.duration_counter > 0 && log_tag(t)
            != d.trigger) ==> *final(player) == *old(player) && final(opponents)@ == old(
            opponents,
        )@ && *final(player_deck) == *old(player_deck) && *final(rng) == *old(rng) && (
        r matches Result::Ok(SystemReturn::Continue(cmds)) && cmds@.len() == 0),
        arming_case(ctx, input) && targets@.len() == 1 && targets@[0] == old(player).offset ==> {
            &&& exists|b: bool|
                crate::contexts::mounting_add_post(
                    old(player).mounting_systems@,
                    final(player).mounting_systems@,
                    armed_of(ctx),
                    b,
                )
            &&& final(player).same_but_mountings(*old(player))
            &&& final(opponents)@ == old(opponents)@
            &&& *final(player_deck) == *old(player_deck)
            &&& (r matches Result::Ok(SystemReturn::Continue(cmds)) && cmds@.len() == 1 && (
            cmds@[0] matches Command::AddLogs(l) && l@ == seq![
                FightLog::AddSystem(targets@[0], ctx.system.id),
            ]))
        },
        firing_case(ctx, input) && targets@.len() == 1 && targets@[0] == old(player).offset
            && ctx.system.args@.len() >= 1 ==> {
            &&& final(player).stats == crate::systems::applications::fighter_stats_after(
                StatOp::Heal(ctx.system.args@[0].0),
                old(player).stats,
            )
            &&& (ctx.duration_counter > 1 ==> exists|b: bool|
                crate::contexts::mounting_update_post(
                    old(player).mounting_systems@,
                    final(player).mounting_systems@,
                    fired_of(ctx),
                    b,
                ))
            &&& (ctx.duration_counter == 1 ==> exists|b: bool|
                crate::contexts::mounting_remove_post(
                    old(player).mounting_systems@,
                    final(player).mounting_systems@,
                    fired_of(ctx),
                    b,
                ))
            &&& final(opponents)@ == old(opponents)@
            &&& *final(player_deck) == *old(player_deck)
            &&& (r matches Result::Ok(SystemReturn::Continue(cmds)) && cmds@.len() == 1 && (
            cmds@[0] matches Command::AddLogs(l) && l@ == seq![
                if ctx.duration_counter == 1 {
                    FightLog::RemoveSystem(targets@[0], ctx.system.id)
                } else {
                    FightLog::UpdateSystem(targets@[0], ctx.system.id)
                },
                FightLog::SystemRecoverHp(
                    targets@[0],
                    crate::systems::applications::heal_amount(
                        old(player).stats,
                        ctx.system.args@[0].0,
                    ) as u16,
                ),
            ]))
        },
        (input matches Some(SystemInput::Trigger(tt)) && !(tt is GameOver))
            && ctx.system.duration is None ==> r == Result::<SystemReturn, Error>::Err(
            Error::BattleUnexpectedSystemDuration,
        ) && *final(player) == *old(player) && final(opponents)@ == old(opponents)@ && *final(player_deck)
            == *old(player_deck) && *final(rng) == *old(rng),
        r is Err ==> crate::errors::resolution_error(r->Err_0),
        r is Ok ==> return_no_gameover(r->Ok_0),
        final(rng).seed() == old(rng).seed(),
        final(rng).rotation() == old(rng).rotation(),
{
    match run_trigger(ctx, targets, player, opponents, player_deck, &input)? {
        TriggerOutcome::BreakOut(result) => Ok(result),
        TriggerOutcome::Proceed(armed, _trigger, mut logs) => {
            if armed.system.args.len() < 1 {
                return Err(Error::BattleUnexpectedSystemArgs);
            }
            let value = armed.system.args[0].0;
            apply_to_targets(
                StatOp::Heal(value),
                targets,
                player,
                opponents,
                player_deck,
                &mut logs,
            );
            let mut cmds: Vec<Command> = Vec::new();
            cmds.push(Command::AddLogs(logs));
            Ok(SystemReturn::Continue(cmds))
        },
    }
}

/// Locks onto the target set captured on its first firing and turns every
/// hit-point recovery of the caster into damage on those targets.
pub fn recover_hp_to_attack(
    rng: &mut SporeRng,
    card_pool: &Vec<Card>,
    ctx: SystemContext,
    caster: usize,
    targets: &Vec<usize>,
    player: &mut WarriorContext,
    opponents: &mut Vec<EnemyContext>,
    player_deck: &mut WarriorDeckContext,
    input: Option<SystemInput>,
) -> (r: Result<SystemReturn, Error>)
    requires
        combat_wf(*old(player), old(opponents)@),
    ensures
        combat_wf(*final(player), final(opponents)@),
        handler_frame(
            *old(player),
            *final(player),
            old(opponents)@,
            final(opponents)@,
            *old(player_deck),
            *final(player_deck),
        ),
        veto_input(input) ==> veto_post(
            *old(player),
            *final(player),
            old(opponents)@,
            final(opponents)@,
            *old(player_deck),
            *final(player_deck),
            r,
        ) && *final(rng) == *old(rng),
        !(input matches Some(SystemInput::Trigger(_))) ==> *final(player) == *old(player)
            && final(opponents)@ == old(opponents)@ && *final(player_deck) == *old(player_deck)
            && *final(rng) == *old(rng) && (r matches Result::Ok(SystemReturn::Continue(cmds))
            && cmds@.len() == 0),
        input matches Some(SystemInput::Trigger(t)) && !(t is GameOver) && (
        ctx.system.duration matches Some(d) && ctx.duration_counter > 0 && log_tag(t)
            != d.trigger) ==> *final(player) == *old(player) && final(opponents)@ == old(
            opponents,
        )@ && *final(player_deck) == *old(player_deck) && *final(rng) == *old(rng) && (
        r matches Result::Ok(SystemReturn::Continue(cmds)) && cmds@.len() == 0),
        (input matches Some(SystemInput::Trigger(tt)) && !(tt is GameOver))
            && ctx.system.duration is None ==> r == Result::<SystemReturn, Error>::Err(
            Error::BattleUnexpectedSystemDuration,
        ) && *final(player) == *old(player) && final(opponents)@ == old(opponents)@ && *final(player_deck)
            == *old(player_deck) && *final(rng) == *old(rng),
        r is Err ==> crate::errors::resolution_error(r->Err_0),
        r is Ok ==> return_no_gameover(r->Ok_0),
        final(rng).seed() == old(rng).seed(),
        final(rng).rotation() == old(rng).rotation(),
{
    let mut caster_only: Vec<usize> = Vec::new();
    caster_only.push(caster);
    match run_trigger(ctx, &caster_only, player, opponents, player_deck, &input)? {
        TriggerOutcome::BreakOut(result) => Ok(result),
        TriggerOutcome::Proceed(armed, trigger, mut logs) => {
            let recovered = match trigger {
                FightLog::SystemRecoverHp(_, hp) => hp,
                _ => {
                    let mut cmds: Vec<Command> = Vec::new();
                    cmds.push(Command::AddLogs(logs));
                    return Ok(SystemReturn::Continue(cmds));
                },
            };
            let mut locked = armed;
            if locked.register_3.len() == 0 {
                let mut captured: Vec<usize> = Vec::new();
                let mut k: usize = 0;
                while k < targets.len()
                    invariant
                        combat_wf(*player, opponents@),
                    decreases targets.len() - k,
                {
                    captured.push(targets[k]);
                    k += 1;
                }
                proof {
                    assert(gameover_count(logs@) == gameover_count(logs@));
                }
                locked.register_3 = captured;
                mount_on(
                    MountOp::Update,
                    caster,
                    &locked,
                    player,
                    opponents,
                    player_deck,
                    &mut logs,
                );
            }
            let offense = caster_offense(caster, player, opponents);
            apply_to_targets(
                StatOp::Damage(recovered, offense.0, offense.1),
                &locked.register_3,
                player,
                opponents,
                player_deck,
                &mut logs,
            );
            let mut cmds: Vec<Command> = Vec::new();
            cmds.push(Command::AddLogs(logs));
            Ok(SystemReturn::Continue(cmds))
        },
    }
}

/// Raises the caster's attack stat whenever the armed trigger fires.
pub fn trigger_attack_up(
    rng: &mut SporeRng,
    card_pool: &Vec<Card>,
    ctx: SystemContext,
    caster: usize,
    targets: &Vec<usize>,
    player: &mut WarriorContext,
    opponents: &mut Vec<EnemyContext>,
    player_deck: &mut WarriorDeckContext,
    input: Option<SystemInput>,
) -> (r: Result<SystemReturn, Error>)
    requires
        combat_wf(*old(player), old(opponents)@),
    ensures
        combat_wf(*final(player), final(opponents)@),
        handler_frame(
            *old(player),
            *final(player),
            old(opponents)@,
            final(opponents)@,
            *old(player_deck),
            *final(player_deck),
        ),
        veto_input(input) ==> veto_post(
            *old(player),
            *final(player),
            old(opponents)@,
            final(opponents)@,
            *old(player_deck),
            *final(player_deck),
            r,
        ) && *final(rng) == *old(rng),
        !(input matches Some(SystemInput::Trigger(_))) ==> *final(player) == *old(player)
            && final(opponents)@ == old(opponents)@ && *final(player_deck) == *old(player_deck)
            && *final(rng) == *old(rng) && (r matches Result::Ok(SystemReturn::Continue(cmds))
            && cmds@.len() == 0),
        input matches Some(SystemInput::Trigger(t)) && !(t is GameOver) && (
        ctx.system.duration matches Some(d) && ctx.duration_counter > 0 && log_tag(t)
            != d.trigger) ==> *final(player) == *old(player) && final(opponents)@ == old(
            opponents,
        )@ && *final(player_deck) == *old(player_deck) && *final(rng) == *old(rng) && (
        r matches Result::Ok(SystemReturn::Continue(cmds)) && cmds@.len() == 0),
        arming_case(ctx, input) && caster == old(player).offset ==> {
            &&& exists|b: bool|
                crate::contexts::mounting_add_post(
                    old(player).mounting_systems@,
                    final(player).mounting_systems@,
                    armed_of(ctx),
                    b,
                )
            &&& final(player).same_but_mountings(*old(player))
            &&& final(opponents)@ == old(opponents)@
            &&& *final(player_deck) == *old(player_deck)
            &&& (r matches Result::Ok(SystemReturn::Continue(cmds)) && cmds@.len() == 1 && (
            cmds@[0] matches Command::AddLogs(l) && l@ == seq![
                FightLog::AddSystem(caster, ctx.system.id),
            ]))
        },
        firing_case(ctx, input) && caster == old(player).offset
            && ctx.system.args@.len() >= 1 && ctx.system.args@[0].0 <= 255 ==> {
            &&& final(player).stats == crate::systems::applications::fighter_stats_after(
                StatOp::AttackUp(ctx.system.args@[0].0 as u8),
                old(player).stats,
            )
            &&& (ctx.duration_counter > 1 ==> exists|b: bool|
                crate::contexts::mounting_update_post(
                    old(player).mounting_systems@,
                    final(player).mounting_systems@,
                    fired_of(ctx),
                    b,
                ))
            &&& (ctx.duration_counter == 1 ==> exists|b: bool|
                crate::contexts::mounting_remove_post(
                    old(player).mounting_systems@,
                    final(player).mounting_systems@,
                    fired_of(ctx),
                    b,
                ))
            &&& final(opponents)@ == old(opponents)@
            &&& *final(player_deck) == *old(player_deck)
            &&& (r matches Result::Ok(SystemReturn::Continue(cmds)) && cmds@.len() == 1 && (
            cmds@[0] matches Command::AddLogs(l) && l@ == seq![
                if ctx.duration_counter == 1 {
                    FightLog::RemoveSystem(caster, ctx.system.id)
                } else {
                    FightLog::UpdateSystem(caster, ctx.system.id)
                },
                FightLog::SystemAttackPowerUp(caster, ctx.system.args@[0].0 as u8),
            ]))
        },
        (input matches Some(SystemInput::Trigger(tt)) && !(tt is GameOver))
            && ctx.system.duration is None ==> r == Result::<SystemReturn, Error>::Err(
            Error::BattleUnexpectedSystemDuration,
        ) && *final(player) == *old(player) && final(opponents)@ == old(opponents)@ && *final(player_deck)
            == *old(player_deck) && *final(rng) == *old(rng),
        r is Err ==> crate::errors::resolution_error(r->Err_0),
        r is Ok ==> return_no_gameover(r->Ok_0),
        final(rng).seed() == old(rng).seed(),
        final(rng).rotation() == old(rng).rotation(),
{
    let mut caster_only: Vec<usize> = Vec::new();
    caster_only.push(caster);
    match run_trigger(ctx, &caster_only, player, opponents, player_deck, &input)? {
        TriggerOutcome::BreakOut(result) => Ok(result),
        TriggerOutcome::Proceed(armed, _trigger, mut logs) => {
            if armed.system.args.len() < 1 {
                return Err(Error::BattleUnexpectedSystemArgs);
            }
            let value = #[verifier::truncate] (armed.system.args[0].0 as u8);
            apply_to_targets(
                StatOp::AttackUp(value),
                &caster_only,
                player,
                opponents,
                player_deck,
                &mut logs,
            );
            let mut cmds: Vec<Command> = Vec::new();
            cmds.push(Command::AddLogs(logs));
            Ok(SystemReturn::Continue(cmds))
        },
    }
}

/// Lowers the caster's attack stat whenever the armed trigger fires.
pub fn trigger_attack_down(
    rng: &mut SporeRng,
    card_pool: &Vec<Card>,
    ctx: SystemContext,
    caster: usize,
    targets: &Vec<usize>,
    player: &mut WarriorContext,
    opponents: &mut Vec<EnemyContext>,
    player_deck: &mut WarriorDeckContext,
    input: Option<SystemInput>,
) -> (r: Result<SystemReturn, Error>)
    requires
        combat_wf(*old(player), old(opponents)@),
    ensures
        combat_wf(*final(player), final(opponents)@),
        handler_frame(
            *old(player),
            *final(player),
            old(opponents)@,
            final(opponents)@,
            *old(player_deck),
            *final(player_deck),
        ),
        veto_input(input) ==> veto_post(
            *old(player),
            *final(player),
            old(opponents)@,
            final(opponents)@,
            *old(player_deck),
            *final(player_deck),
            r,
        ) && *final(rng) == *old(rng),
        !(input matches Some(SystemInput::Trigger(_))) ==> *final(player) == *old(player)
            && final(opponents)@ == old(opponents)@ && *final(player_deck) == *old(player_deck)
            && *final(rng) == *old(rng) && (r matches Result::Ok(SystemReturn::Continue(cmds))
            && cmds@.len() == 0),
        input matches Some(SystemInput::Trigger(t)) && !(t is GameOver) && (
        ctx.system.duration matches Some(d) && ctx.duration_counter > 0 && log_tag(t)
            != d.trigger) ==> *final(player) == *old(player) && final(opponents)@ == old(
            opponents,
        )@ && *final(player_deck) == *old(player_deck) && *final(rng) == *old(rng) && (
        r matches Result::Ok(SystemReturn::Continue(cmds)) && cmds@.len() == 0),
        arming_case(ctx, input) && caster == old(player).offset ==> {
            &&& exists|b: bool|
                crate::contexts::mounting_add_post(
                    old(player).mounting_systems@,
                    final(player).mounting_systems@,
                    armed_of(ctx),
                    b,
                )
            &&& final(player).same_but_mountings(*old(player))
            &&& final(opponents)@ == old(opponents)@
            &&& *final(player_deck) == *old(player_deck)
            &&& (r matches Result::Ok(SystemReturn::Continue(cmds)) && cmds@.len() == 1 && (
            cmds@[0] matches Command::AddLogs(l) && l@ == seq![
                FightLog::AddSystem(caster, ctx.system.id),
            ]))
        },
        firing_case(ctx, input) && caster == old(player).offset
            && ctx.system.args@.len() >= 1 && ctx.system.args@[0].0 <= 255 ==> {
            &&& final(player).stats == crate::systems::applications::fighter_stats_after(
                StatOp::AttackDown(ctx.system.args@[0].0 as u8),
                old(player).stats,
            )
            &&& (ctx.duration_counter > 1 ==> exists|b: bool|
                crate::contexts::mounting_update_post(
                    old(player).mounting_systems@,
                    final(player).mounting_systems@,
                    fired_of(ctx),
                    b,
                ))
            &&& (ctx.duration_counter == 1 ==> exists|b: bool|
                crate::contexts::mounting_remove_post(
                    old(player).mounting_systems@,
                    final(player).mounting_systems@,
                    fired_of(ctx),
                    b,
                ))
            &&& final(opponents)@ == old(opponents)@
            &&& *final(player_deck) == *old(player_deck)
            &&& (r matches Result::Ok(SystemReturn::Continue(cmds)) && cmds@.len() == 1 && (
            cmds@[0] matches Command::AddLogs(l) && l@ == seq![
                if ctx.duration_counter == 1 {
                    FightLog::RemoveSystem(caster, ctx.system.id)
                } else {
                    FightLog::UpdateSystem(caster, ctx.system.id)
                },
                FightLog::SystemAttackPowerDown(caster, ctx.system.args@[0].0 as u8),
            ]))
        },
        (input matches Some(SystemInput::Trigger(tt)) && !(tt is GameOver))
            && ctx.system.duration is None ==> r == Result::<SystemReturn, Error>::Err(
            Error::BattleUnexpectedSystemDuration,
        ) && *final(player) == *old(player) && final(opponents)@ == old(opponents)@ && *final(player_deck)
            == *old(player_deck) && *final(rng) == *old(rng),
        r is Err ==> crate::errors::resolution_error(r->Err_0),
        r is Ok ==> return_no_gameover(r->Ok_0),
        final(rng).seed() == old(rng).seed(),
        final(rng).rotation() == old(rng).rotation(),
{
    let mut caster_only: Vec<usize> = Vec::new();
    caster_only.push(caster);
    match run_trigger(ctx, &caster_only, player, opponents, player_deck, &input)? {
        TriggerOutcome::BreakOut(result) => Ok(result),
        TriggerOutcome::Proceed(armed, _trigger, mut logs) => {
            if armed.system.args.len() < 1 {
                return Err(Error::BattleUnexpectedSystemArgs);
            }
            let value = #[verifier::truncate] (armed.system.args[0].0 as u8);
            apply_to_targets(
                StatOp::AttackDown(value),
                &caster_only,
                player,
                opponents,
                player_deck,
                &mut logs,
            );
            let mut cmds: Vec<Command> = Vec::new();
            cmds.push(Command::AddLogs(logs));
            Ok(SystemReturn::Continue(cmds))
        },
    }
}

} // verus!
