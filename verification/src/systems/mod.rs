use vstd::prelude::*;

pub mod applications;
mod instant;
mod triggered;

pub use instant::{
    armor_down, armor_up, attack, attack_down, attack_up, attack_weak_down, attack_weak_up,
    chain_pairs_ok, pool_has_id,
    card_power_cost_down, change_random_card_cost, defense_down, defense_up, defense_weak_down,
    defense_weak_up, discard_cards, discard_select_cards, draw_cards, draw_count_down,
    draw_count_up, draw_select_cards, healing, max_hp_down, max_hp_up, multiple_attack,
    shield_down, shield_up,
};
pub use triggered::{recover_hp, recover_hp_to_attack, trigger_attack_down, trigger_attack_up};

verus! {

use crate::battle::traits::FightLog;
use crate::contexts::{
    CardContext, CombatStats, EnemyContext, SystemContext, WarriorContext, WarriorDeckContext,
};
use crate::errors::Error;
use crate::rng::SporeRng;
use crate::wrappings::{Card, SystemId};
use crate::MAX_WEAK_COUNT;

/// Which pile a card selection draws from: the main deck, the grave, or
/// cards freshly materialized from the content pool.
#[derive(Debug)]
pub enum DeckSource {
    FromDeck,
    FromGrave,
    Materialized(Vec<CardContext>),
}

/// A data-only side-effect request returned by a handler and applied by the
/// resolver: append log entries, draw cards, discard hand cards (to the
/// grave when the flag is set, out of play otherwise), open a selection
/// pool, or set the cost of a randomly chosen hand card.
#[derive(Debug)]
pub enum Command {
    AddLogs(Vec<FightLog>),
    DrawCards(u8),
    DiscardHandCards(u8, bool),
    SetSelectionPool(DeckSource),
    SetRandomHandCost(u32, u8),
}

/// What a handler resolved to: plain completion with commands, a suspension
/// for a card-selection prompt (how many cards, and whether the selection
/// draws into the hand or discards from it), or follow-up instances to chain
/// ahead of the queue.
#[derive(Debug)]
pub enum SystemReturn {
    Continue(Vec<Command>),
    RequireCardSelect(u8, bool, Vec<Command>),
    PendingSystems(Vec<SystemContext>, Vec<Command>),
}

/// The optional input a dispatch carries: a host-supplied card selection
/// resuming a prompt, or a rebroadcast log event driving durable systems.
#[derive(Debug)]
pub enum SystemInput {
    Selection(Vec<usize>),
    Trigger(FightLog),
}

/// The deck a card-selection effect draws from, as encoded in its argument.
#[derive(Clone, Copy, Debug, PartialEq, Eq, Structural)]
pub enum DeckType {
    FromDeck,
    FromGrave,
    FromResource,
}

impl DeckType {
    /// Decodes the wire code of a deck choice.
    pub fn from_code(value: u16) -> (r: Result<DeckType, Error>)
        ensures
            r == match value {
                0u16 => Result::<DeckType, Error>::Ok(DeckType::FromDeck),
                1u16 => Result::<DeckType, Error>::Ok(DeckType::FromGrave),
                2u16 => Result::<DeckType, Error>::Ok(DeckType::FromResource),
                _ => Result::<DeckType, Error>::Err(Error::ResourceBrokenDeckType),
            },
    {
        match value {
            0 => Ok(DeckType::FromDeck),
            1 => Ok(DeckType::FromGrave),
            2 => Ok(DeckType::FromResource),
            _ => Err(Error::ResourceBrokenDeckType),
        }
    }
}

/// No command of the list carries a game-over log entry: the terminal event
/// is the resolver's alone to write.
pub open spec fn cmds_no_gameover(cmds: Seq<Command>) -> bool {
    forall|j: int|
        0 <= j < cmds.len() ==> ((#[trigger] cmds[j]) matches Command::AddLogs(l)
            ==> crate::battle::traits::gameover_count(l@) == 0)
}

/// The commands a handler return carries, whatever its shape.
pub open spec fn return_commands(r: SystemReturn) -> Seq<Command> {
    match r {
        SystemReturn::Continue(cmds) => cmds@,
        SystemReturn::RequireCardSelect(_, _, cmds) => cmds@,
        SystemReturn::PendingSystems(_, cmds) => cmds@,
    }
}

/// No command behind the handler return carries a game-over log entry.
pub open spec fn return_no_gameover(r: SystemReturn) -> bool {
    match r {
        SystemReturn::Continue(cmds) => cmds_no_gameover(cmds@),
        SystemReturn::RequireCardSelect(_, _, cmds) => cmds_no_gameover(cmds@),
        SystemReturn::PendingSystems(_, cmds) => cmds_no_gameover(cmds@),
    }
}

/// Whether an id names an instant effect (every other id is durable).
pub open spec fn instant_id(s: SystemId) -> bool {
    match s {
        SystemId::TriggerRecoverHp => false,
        SystemId::TriggerRecoverHpAttack => false,
        SystemId::TriggerAttackUp => false,
        SystemId::TriggerAttackDown => false,
        _ => true,
    }
}

/// A game-over rebroadcast: the input that vetoes all further mutation.
pub open spec fn veto_input(input: Option<SystemInput>) -> bool {
    input matches Some(SystemInput::Trigger(FightLog::GameOver))
}

/// Tests an input for the terminal veto.
pub fn is_veto(input: &Option<SystemInput>) -> (r: bool)
    ensures
        r == veto_input(*input),
{
    match input {
        Some(SystemInput::Trigger(FightLog::GameOver)) => true,
        _ => false,
    }
}

/// The statistics are inside their documented ranges: weaken counters capped
/// and hit points not above their maximum.
pub open spec fn stats_wf(s: CombatStats) -> bool {
    &&& s.attack_weak <= MAX_WEAK_COUNT
    &&& s.defense_weak <= MAX_WEAK_COUNT
    &&& s.hp <= s.max_hp
}

/// Every combatant's statistics are inside their documented ranges.
pub open spec fn combat_wf(p: WarriorContext, o: Seq<EnemyContext>) -> bool {
    &&& stats_wf(p.stats)
    &&& forall|i: int| 0 <= i < o.len() ==> stats_wf((#[trigger] o[i]).stats)
}

/// What every handler leaves untouched: the participants' identities and
/// templates, the player's resources that no effect addresses, and the card
/// partition of the deck state.
pub open spec fn handler_frame(
    p0: WarriorContext,
    p1: WarriorContext,
    o0: Seq<EnemyContext>,
    o1: Seq<EnemyContext>,
    d0: WarriorDeckContext,
    d1: WarriorDeckContext,
) -> bool {
    &&& p1.offset == p0.offset
    &&& p1.warrior == p0.warrior
    &&& p1.gold == p0.gold
    &&& p1.power == p0.power
    &&& p1.max_power == p0.max_power
    &&& p1.physique == p0.physique
    &&& p1.equipment_list == p0.equipment_list
    &&& p1.props_list == p0.props_list
    &&& o1.len() == o0.len()
    &&& forall|i: int|
        0 <= i < o0.len() ==> (#[trigger] o1[i]).offset == o0[i].offset && o1[i].enemy
            == o0[i].enemy && o1[i].strategy == o0[i].strategy
    &&& d1.card_multiset() == d0.card_multiset()
}

/// A handler vetoed by a game-over rebroadcast changed nothing and returned
/// no command.
pub open spec fn veto_post(
    p0: WarriorContext,
    p1: WarriorContext,
    o0: Seq<EnemyContext>,
    o1: Seq<EnemyContext>,
    d0: WarriorDeckContext,
    d1: WarriorDeckContext,
    r: Result<SystemReturn, Error>,
) -> bool {
    &&& p1 == p0
    &&& o1 == o0
    &&& d1 == d0
    &&& r matches Result::Ok(SystemReturn::Continue(cmds)) && cmds@.len() == 0
}

/// The static effect table plus the session-wide resources it needs: the
/// concrete system pool for chained effects, the concrete card pool for
/// materialized draws, and the session generator.
pub struct SystemController {
    pub system_pool: Vec<crate::wrappings::System>,
    pub card_pool: Vec<Card>,
    pub rng: SporeRng,
}

impl SystemController {
    /// Builds the controller of one session.
    pub fn new(
        system_pool: Vec<crate::wrappings::System>,
        card_pool: Vec<Card>,
        rng: SporeRng,
    ) -> (r: Self)
        ensures
            r.system_pool@ == system_pool@,
            r.card_pool@ == card_pool@,
            r.rng == rng,
    {
        SystemController { system_pool, card_pool, rng }
    }

    /// Dispatches one instance to its handler. The effect set is closed, so
    /// dispatch itself never fails; errors come from the handlers alone.
    /// Whatever the handler, the participants' identities, the card
    /// partition and the statistics ranges are preserved, and a game-over
    /// rebroadcast mutates nothing (the terminal veto).
    pub fn system_call(
        &mut self,
        ctx: SystemContext,
        caster: usize,
        targets: &Vec<usize>,
        player: &mut WarriorContext,
        opponents: &mut Vec<EnemyContext>,
        player_deck: &mut WarriorDeckContext,
        input: Option<SystemInput>,
    ) -> (r: Result<SystemReturn, Error>)
        requires
            combat_wf(*old(player), old(opponents)@),
        ensures
            combat_wf(*final(player), final(opponents)@),
            handler_frame(
                *old(player),
                *final(player),
                old(opponents)@,
                final(opponents)@,
                *old(player_deck),
                *final(player_deck),
            ),
            veto_input(input) ==> veto_post(
                *old(player),
                *final(player),
                old(opponents)@,
                final(opponents)@,
                *old(player_deck),
                *final(player_deck),
                r,
            ) && *final(self) == *old(self),
            final(self).rng.seed() == old(self).rng.seed(),
            final(self).rng.rotation() == old(self).rng.rotation(),
            final(self).system_pool == old(self).system_pool,
            final(self).card_pool == old(self).card_pool,
            r is Ok ==> return_no_gameover(r->Ok_0),
            r is Err ==> crate::errors::resolution_error(r->Err_0),
            !veto_input(input) && instant_id(ctx.system.system_id) && ctx.system.args@.len() < 1
                ==> r == Result::<SystemReturn, Error>::Err(Error::BattleUnexpectedSystemArgs),
            !veto_input(input) && (ctx.system.system_id == SystemId::InstantMultipleDamage
                || ctx.system.system_id == SystemId::InstantDrawSelectCards)
                && ctx.system.args@.len() < 2 ==> r == Result::<SystemReturn, Error>::Err(
                Error::BattleUnexpectedSystemArgs,
            ),
            forall|i: int|
                ctx.system.system_id == SystemId::InstantDamage && !veto_input(input)
                    && ctx.system.args@.len() >= 1 && crate::systems::instant::chain_pairs_ok(
                    ctx.system.args@,
                    old(self).system_pool@,
                ) && caster == old(player).offset && targets@.len() == 1 && 0 <= i < old(
                    opponents,
                )@.len() && (#[trigger] old(opponents)@[i]).offset == targets@[0] && targets@[0]
                    != old(player).offset && (forall|j: int|
                    0 <= j < i ==> old(opponents)@[j].offset != targets@[0]) ==> final(opponents)@
                    == old(opponents)@.update(
                    i,
                    (crate::contexts::EnemyContext {
                        stats: crate::systems::applications::enemy_stats_after(
                            crate::systems::applications::StatOp::Damage(
                                ctx.system.args@[0].0,
                                old(player).stats.attack,
                                old(player).stats.attack_weak,
                            ),
                            old(opponents)@[i].stats,
                        ),
                        ..old(opponents)@[i]
                    }),
                ) && *final(player) == *old(player) && *final(player_deck) == *old(player_deck),
            forall|i: int|
                ctx.system.system_id == SystemId::InstantDamage && !veto_input(input)
                    && ctx.system.args@.len() >= 1 && crate::systems::instant::chain_pairs_ok(
                    ctx.system.args@,
                    old(self).system_pool@,
                ) && caster != old(player).offset && 0 <= i < old(opponents)@.len() && (
                #[trigger] old(opponents)@[i]).offset == caster && (forall|j: int|
                    0 <= j < i ==> old(opponents)@[j].offset != caster) && targets@.len() == 1
                    && targets@[0] == old(player).offset ==> *final(player)
                    == crate::systems::applications::warrior_after(
                    crate::systems::applications::StatOp::Damage(
                        ctx.system.args@[0].0,
                        old(opponents)@[i].stats.attack,
                        old(opponents)@[i].stats.attack_weak,
                    ),
                    *old(player),
                ) && final(opponents)@ == old(opponents)@ && *final(player_deck) == *old(player_deck),
            ctx.system.system_id == SystemId::InstantHealing && !veto_input(input)
                && ctx.system.args@.len() >= 1 && targets@.len() == 1 && targets@[0] == old(
                player,
            ).offset ==> *final(player) == crate::systems::applications::warrior_after(
                crate::systems::applications::StatOp::Heal(ctx.system.args@[0].0),
                *old(player),
            ) && final(opponents)@ == old(opponents)@ && *final(player_deck) == *old(player_deck),
            ctx.system.system_id == SystemId::InstantDrawCards && !veto_input(input)
                && ctx.system.args@.len() >= 1 && ctx.system.args@[0].0 <= 255 ==> (
            r matches Result::Ok(SystemReturn::Continue(cmds)) && cmds@.len() == 1 && cmds@[0]
                == Command::DrawCards(ctx.system.args@[0].0 as u8)),
    {
        match ctx.system.system_id {
            SystemId::InstantDamage => attack(
                &mut self.rng,
                &self.card_pool,
                &self.system_pool,
                ctx,
                caster,
                targets,
                player,
                opponents,
                player_deck,
                input,
            ),
            SystemId::InstantMultipleDamage => multiple_attack(
                &mut self.rng,
                &self.card_pool,
                ctx,
                caster,
                targets,
                player,
                opponents,
                player_deck,
                input,
            ),
            SystemId::InstantArmorUp => armor_up(
                &mut self.rng,
                &self.card_pool,
                ctx,
                caster,
                targets,
                player,
                opponents,
                player_deck,
                input,
            ),
            SystemId::InstantArmorDown => armor_down(
                &mut self.rng,
                &self.card_pool,
                ctx,
                caster,
                targets,
                player,
                opponents,
                player_deck,
                input,
            ),
            SystemId::InstantShieldUp => shield_up(
                &mut self.rng,
                &self.card_pool,
                ctx,
                caster,
                targets,
                player,
                opponents,
                player_deck,
                input,
            ),
            SystemId::InstantShieldDown => shield_down(
                &mut self.rng,
                &self.card_pool,
                ctx,
                caster,
                targets,
                player,
                opponents,
                player_deck,
                input,
            ),
            SystemId::InstantHealing => healing(
                &mut self.rng,
                &self.card_pool,
                ctx,
                caster,
                targets,
                player,
                opponents,
                player_deck,
                input,
            ),
            SystemId::InstantDrawCountUp => draw_count_up(
                &mut self.rng,
                &self.card_pool,
                ctx,
                caster,
                targets,
                player,
                opponents,
                player_deck,
                input,
            ),
            SystemId::InstantDrawCountDown => draw_count_down(
                &mut self.rng,
                &self.card_pool,
                ctx,
                caster,
                targets,
                player,
                opponents,
                player_deck,
                input,
            ),
            SystemId::InstantAttackUp => attack_up(
                &mut self.rng,
                &self.card_pool,
                ctx,
                caster,
                targets,
                player,
                opponents,
                player_deck,
                input,
            ),
            SystemId::InstantAttackDown => attack_down(
                &mut self.rng,
                &self.card_pool,
                ctx,
                caster,
                targets,
                player,
                opponents,
                player_deck,
                input,
            ),
            SystemId::InstantAttackWeakUp => attack_weak_up(
                &mut self.rng,
                &self.card_pool,
                ctx,
                caster,
                targets,
                player,
                opponents,
                player_deck,
                input,
            ),
            SystemId::InstantAttackWeakDown => attack_weak_down(
                &mut self.rng,
                &self.card_pool,
                ctx,
                caster,
                targets,
                player,
                opponents,
                player_deck,
                input,
            ),
            SystemId::InstantDefenseUp => defense_up(
                &mut self.rng,
                &self.card_pool,
                ctx,
                caster,
                targets,
                player,
                opponents,
                player_deck,
                input,
            ),
            SystemId::InstantDefenseDown => defense_down(
                &mut self.rng,
                &self.card_pool,
                ctx,
                caster,
                targets,
                player,
                opponents,
                player_deck,
                input,
            ),
            SystemId::InstantDefenseWeakUp => defense_weak_up(
                &mut self.rng,
                &self.card_pool,
                ctx,
                caster,
                targets,
                player,
                opponents,
                player_deck,
                input,
            ),
            SystemId::InstantDefenseWeakDown => defense_weak_down(
                &mut self.rng,
                &self.card_pool,
                ctx,
                caster,
                targets,
                player,
                opponents,
                player_deck,
                input,
            ),
            SystemId::InstantMaxHpUp => max_hp_up(
                &mut self.rng,
                &self.card_pool,
                ctx,
                caster,
                targets,
                player,
                opponents,
                player_deck,
                input,
            ),
            SystemId::InstantMaxHpDown => max_hp_down(
                &mut self.rng,
                &self.card_pool,
                ctx,
                caster,
                targets,
                player,
                opponents,
                player_deck,
                input,
            ),
            SystemId::InstantDrawCards => draw_cards(
                &mut self.rng,
                &self.card_pool,
                ctx,
                caster,
                targets,
                player,
                opponents,
                player_deck,
                input,
            ),
            SystemId::InstantDrawSelectCards => draw_select_cards(
                &mut self.rng,
                &self.card_pool,
                ctx,
                caster,
                targets,
                player,
                opponents,
                player_deck,
                input,
            ),
            SystemId::InstantDiscardCards => discard_cards(
                &mut self.rng,
                &self.card_pool,
                ctx,
                caster,
                targets,
                player,
                opponents,
                player_deck,
                input,
            ),
            SystemId::InstantDiscardSelectCards => discard_select_cards(
                &mut self.rng,
                &self.card_pool,
                ctx,
                caster,
                targets,
                player,
                opponents,
                player_deck,
                input,
            ),
            SystemId::InstantPowerCostDown => card_power_cost_down(
                &mut self.rng,
                &self.card_pool,
                ctx,
                caster,
                targets,
                player,
                opponents,
                player_deck,
                input,
            ),
            SystemId::InstantChangePowerCost => change_random_card_cost(
                &mut self.rng,
                &self.card_pool,
                ctx,
                caster,
                targets,
                player,
                opponents,
                player_deck,
                input,
            ),
            SystemId::TriggerRecoverHp => recover_hp(
                &mut self.rng,
                &self.card_pool,
                ctx,
                caster,
                targets,
                player,
                opponents,
                player_deck,
                input,
            ),
            SystemId::TriggerRecoverHpAttack => recover_hp_to_attack(
                &mut self.rng,
                &self.card_pool,
                ctx,
                caster,
                targets,
                player,
                opponents,
                player_deck,
                input,
            ),
            SystemId::TriggerAttackUp => trigger_attack_up(
                &mut self.rng,
                &self.card_pool,
                ctx,
                caster,
                targets,
                player,
                opponents,
                player_deck,
                input,
            ),
            SystemId::TriggerAttackDown => trigger_attack_down(
                &mut self.rng,
                &self.card_pool,
                ctx,
                caster,
                targets,
                player,
                opponents,
                player_deck,
                input,
            ),
        }
    }
}

} // verus!
