use vstd::prelude::*;

mod control;
mod iteration;
mod log;

verus! {

use std::collections::VecDeque;

use crate::battle::traits::{log_extends, FightLog, IterationInput, IterationOutput, Selection};

broadcast use
    crate::battle::traits::lemma_log_extends_push,
    crate::battle::traits::lemma_log_extends_trans,
    crate::battle::traits::lemma_log_extends_refl;

use crate::contexts::{CombatStats, EnemyContext, SystemContext, WarriorContext, WarriorDeckContext};
use crate::errors::Error;
use crate::systems::{combat_wf, SystemController, SystemInput};
use crate::wrappings::{clone_systems, Card, Enemy, ItemClass, RequireTarget, System};

/// How many systems of a pool aim at a designated opponent: the number of
/// target prompts using the pool would demand.
pub open spec fn opponent_target_count(pool: Seq<System>) -> nat
    decreases pool.len(),
{
    if pool.len() == 0 {
        0
    } else {
        (if pool.last().target_type == RequireTarget::Opponent {
            1nat
        } else {
            0nat
        }) + opponent_target_count(pool.drop_last())
    }
}

/// A longer prefix never has fewer opponent-aimed systems.
proof fn lemma_opponent_count_monotonic(pool: Seq<System>, a: int, b: int)
    requires
        0 <= a <= b <= pool.len(),
    ensures
        opponent_target_count(pool.take(a)) <= opponent_target_count(pool.take(b)),
    decreases b - a,
{
    if a < b {
        lemma_opponent_count_monotonic(pool, a, b - 1);
        assert(pool.take(b).drop_last() =~= pool.take(b - 1));
    }
}

/// The most instructions one resolution drains before the engine calls the
/// battle content broken: queue growth is bounded by finite duration
/// counters, so a well-formed battle stays far below this.
pub const INSTRUCTION_BUDGET: usize = 100000;

/// Whose perspective cast an instruction: the player, an enemy (the carried
/// target then names its index), or a specific card.
#[derive(Clone, Copy, Debug, PartialEq, Eq, Structural)]
pub enum FightView {
    Player,
    Enemy,
    Card(usize),
}

/// A queued request to resolve one system instance against a caster and
/// target context.
#[derive(Debug)]
pub struct Instruction {
    pub target: Option<usize>,
    pub ctx: SystemContext,
    pub view: FightView,
    pub system_input: Option<SystemInput>,
}

/// One battle between the player and a party of enemies. The battle owns
/// every participant, the deck state, the instruction queue and the log
/// buffer for its whole lifetime, and hands the participant state back on
/// teardown.
pub struct MapBattlePVE {
    pub player: WarriorContext,
    pub player_deck: WarriorDeckContext,
    pub opponents: Vec<EnemyContext>,
    pub round: u8,
    pub fight_logs: Vec<FightLog>,
    pub last_output: IterationOutput,
    pub pending_instructions: VecDeque<Instruction>,
    pub next_offset: usize,
}

impl MapBattlePVE {
    /// The battle-scoped identity arena is coherent: the player holds zero,
    /// the enemies hold their index plus one, every card identity lies below
    /// the arena cursor, and the cursor lies above the enemies.
    pub open spec fn arena_wf(&self) -> bool {
        &&& self.player.offset == 0
        &&& forall|i: int|
            0 <= i < self.opponents@.len() ==> (#[trigger] self.opponents@[i]).offset == i + 1
        &&& self.next_offset > self.opponents@.len()
        &&& forall|o: usize|
            #[trigger] self.player_deck.card_multiset().count(o) > 0 ==> self.opponents@.len() < o
                < self.next_offset
    }

    /// The battle invariant: a coherent identity arena, a well-partitioned
    /// deck, and combat statistics inside their documented ranges.
    pub open spec fn wf(&self) -> bool {
        &&& self.arena_wf()
        &&& self.player_deck.wf()
        &&& combat_wf(self.player, self.opponents@)
    }

    /// All state except the instruction queue and the log buffer agrees with
    /// `other`.
    pub open spec fn same_participants(&self, other: &MapBattlePVE) -> bool {
        &&& self.player == other.player
        &&& self.player_deck == other.player_deck
        &&& self.opponents == other.opponents
        &&& self.round == other.round
        &&& self.last_output == other.last_output
        &&& self.next_offset == other.next_offset
    }

    /// The player's battle-only modifiers are back at their template values:
    /// what a confirmed game over leaves behind (hit points excepted, which
    /// keep their final value).
    pub open spec fn battle_modifiers_reset(p: WarriorContext) -> bool {
        &&& p.power == p.warrior.power
        &&& p.stats.armor == p.warrior.armor as u16
        &&& p.stats.shield == p.warrior.shield as u16
        &&& p.stats.attack == p.warrior.attack
        &&& p.stats.attack_weak == crate::contexts::clamped_weak(p.warrior.attack_weak)
        &&& p.stats.defense == p.warrior.defense
        &&& p.stats.defense_weak == crate::contexts::clamped_weak(p.warrior.defense_weak)
        &&& p.draw_count == p.warrior.draw_count
        &&& p.mounting_systems@.len() == 0
    }

    /// The deck state only ever gains cards: every identity keeps at least
    /// its multiplicity. Together with the partition invariant this is the
    /// conservation half of the deck law: no owned card is ever lost, and
    /// the only additions are materialized cards.
    pub open spec fn deck_grows(d0: WarriorDeckContext, d1: WarriorDeckContext) -> bool {
        forall|o: usize|
            #[trigger] d1.card_multiset().count(o) >= d0.card_multiset().count(o)
    }

    /// Builds a battle from already-instantiated participants. The battle
    /// hands out fresh identities: zero for the player, the next numbers for
    /// the enemies in order, and consecutive numbers beyond them for every
    /// card — which establishes the deck partition invariant outright.
    pub fn create(
        player: WarriorContext,
        player_deck: WarriorDeckContext,
        enemies: Vec<Enemy>,
    ) -> (r: Result<MapBattlePVE, Error>)
        requires
            enemies@.len() + 1 + player_deck.full_offsets().len() <= usize::MAX,
        ensures
            r is Ok,
            r is Ok ==> {
                &&& r->Ok_0.wf()
                &&& r->Ok_0.round == 0
                &&& r->Ok_0.last_output == IterationOutput::Continue
                &&& r->Ok_0.fight_logs@.len() == 0
                &&& r->Ok_0.pending_instructions@.len() == 0
                &&& r->Ok_0.opponents@.len() == enemies@.len()
                &&& r->Ok_0.player == (WarriorContext {
                    offset: 0,
                    stats: (CombatStats {
                        max_hp: if player.stats.hp > player.stats.max_hp {
                            player.stats.hp
                        } else {
                            player.stats.max_hp
                        },
                        attack_weak: crate::contexts::clamped_weak(player.stats.attack_weak),
                        defense_weak: crate::contexts::clamped_weak(player.stats.defense_weak),
                        ..player.stats
                    }),
                    ..player
                })
                &&& forall|i: int|
                    0 <= i < enemies@.len() ==> {
                        let foe = #[trigger] r->Ok_0.opponents@[i];
                        &&& foe.enemy == enemies@[i]
                        &&& foe.offset == i + 1
                        &&& foe.stats == (CombatStats {
                            hp: enemies@[i].hp,
                            max_hp: enemies@[i].hp,
                            armor: enemies@[i].armor as u16,
                            shield: enemies@[i].shield as u16,
                            attack: enemies@[i].attack,
                            attack_weak: crate::contexts::clamped_weak(enemies@[i].attack_weak),
                            defense: enemies@[i].defense,
                            defense_weak: crate::contexts::clamped_weak(enemies@[i].defense_weak),
                        })
                        &&& foe.strategy@.len() == 0
                        &&& foe.mounting_systems@.len() == 0
                    }
                &&& r->Ok_0.player_deck.hand_deck@.len() == player_deck.hand_deck@.len()
                &&& r->Ok_0.player_deck.deck@.len() == player_deck.deck@.len()
                &&& r->Ok_0.player_deck.grave_deck@.len() == player_deck.grave_deck@.len()
                &&& r->Ok_0.player_deck.special_use_count == player_deck.special_use_count
                &&& (forall|j: int|
                    0 <= j < player_deck.deck@.len() ==> (#[trigger] r->Ok_0.player_deck.deck@[j]).card
                        == (Card {
                        offset: r->Ok_0.player_deck.deck@[j].card.offset,
                        ..player_deck.deck@[j].card
                    }) && r->Ok_0.player_deck.deck@[j].power_cost
                        == player_deck.deck@[j].power_cost)
                &&& r->Ok_0.player_deck.special_card.card == (Card {
                    offset: r->Ok_0.player_deck.special_card.card.offset,
                    ..player_deck.special_card.card
                })
            },
    {
        let mut player = player;
        player.offset = 0;
        player.stats.attack_weak = crate::contexts::clamp_weak(player.stats.attack_weak);
        player.stats.defense_weak = crate::contexts::clamp_weak(player.stats.defense_weak);
        if player.stats.hp > player.stats.max_hp {
            player.stats.max_hp = player.stats.hp;
        }
        let mut opponents: Vec<EnemyContext> = Vec::new();
        let ghost template = enemies@;
        let mut enemies = enemies;
        let total = enemies.len();
        let mut i: usize = 0;
        while i < total
            invariant
                i <= total,
                total == template.len(),
                total + 1 + player_deck.full_offsets().len() <= usize::MAX,
                enemies@ == template.skip(i as int),
                opponents@.len() == i,
                forall|j: int| 0 <= j < i ==> (#[trigger] opponents@[j]).offset == j + 1,
                forall|j: int|
                    0 <= j < i ==> crate::systems::stats_wf((#[trigger] opponents@[j]).stats),
                forall|j: int|
                    0 <= j < i ==> {
                        let foe = #[trigger] opponents@[j];
                        &&& foe.enemy == template[j]
                        &&& foe.stats == (CombatStats {
                            hp: template[j].hp,
                            max_hp: template[j].hp,
                            armor: template[j].armor as u16,
                            shield: template[j].shield as u16,
                            attack: template[j].attack,
                            attack_weak: crate::contexts::clamped_weak(template[j].attack_weak),
                            defense: template[j].defense,
                            defense_weak: crate::contexts::clamped_weak(template[j].defense_weak),
                        })
                        &&& foe.strategy@.len() == 0
                        &&& foe.mounting_systems@.len() == 0
                    },
            decreases total - i,
        {
            proof {
                assert(template.skip(i as int)[0] == template[i as int]);
                assert(template.skip(i as int).skip(1) =~= template.skip(i + 1));
            }
            let enemy = enemies.remove(0);
            opponents.push(EnemyContext::new(enemy, i + 1));
            i += 1;
        }
        let mut player_deck = player_deck;
        let next_offset = player_deck.renumber(total + 1);
        Ok(MapBattlePVE {
            player,
            player_deck,
            opponents,
            round: 0,
            fight_logs: Vec::new(),
            last_output: IterationOutput::Continue,
            pending_instructions: VecDeque::new(),
            next_offset,
        })
    }

    /// Drains the log buffer, handing the recorded events over in order.
    fn take_logs(&mut self) -> (r: Vec<FightLog>)
        ensures
            r@ == old(self).fight_logs@,
            final(self).fight_logs@.len() == 0,
            final(self).same_participants(old(self)),
            final(self).pending_instructions == old(self).pending_instructions,
    {
        let mut out: Vec<FightLog> = Vec::new();
        let mut i: usize = 0;
        while i < self.fight_logs.len()
            invariant
                i <= self.fight_logs@.len(),
                self.fight_logs == old(self).fight_logs,
                out@ == self.fight_logs@.subrange(0, i as int),
                self.same_participants(old(self)),
                self.pending_instructions == old(self).pending_instructions,
            decreases self.fight_logs@.len() - i,
        {
            out.push(self.fight_logs[i]);
            i += 1;
        }
        proof {
            assert(out@ =~= old(self).fight_logs@);
        }
        self.fight_logs = Vec::new();
        out
    }

    /// Starts the battle exactly once: fires the onset card and equipment
    /// effects, opens the first round, and draws the opening hand. A second
    /// start is refused with the battle unchanged.
    pub fn start(&mut self, controller: &mut SystemController) -> (r: Result<
        (IterationOutput, Vec<FightLog>),
        Error,
    >)
        requires
            old(self).wf(),
        ensures
            final(self).wf(),
            old(self).round != 0 ==> r == Result::<(IterationOutput, Vec<FightLog>), Error>::Err(
                Error::BattleRepeatStart,
            ) && *final(self) == *old(self) && *final(controller) == *old(controller),
            MapBattlePVE::deck_grows(old(self).player_deck, final(self).player_deck),
            final(controller).rng.seed() == old(controller).rng.seed(),
            r is Ok ==> r->Ok_0.0 == final(self).last_output && final(self).fight_logs@.len() == 0,
            old(self).round == 0 && r is Ok ==> final(self).round == 1,
            old(self).round == 0 && old(self).fight_logs@.len() == 0 && r is Ok ==> r->Ok_0.1@.len()
                >= 2 && r->Ok_0.1@[0] == FightLog::GameStart && (r->Ok_0.1@[1]
                matches FightLog::Snapshot(shot) && shot.hp == old(self).player.stats.hp
                && shot.offset == old(self).player.offset),
            r is Err ==> r->Err_0 == Error::BattleRepeatStart || crate::errors::battle_step_error(
                r->Err_0,
            ),
            r is Ok ==> {
                let out = r->Ok_0.0;
                &&& (out == IterationOutput::GameLose ==> final(self).player.stats.hp == 0)
                &&& (out == IterationOutput::GameWin ==> forall|i: int|
                    0 <= i < final(self).opponents@.len()
                        ==> (#[trigger] final(self).opponents@[i]).stats.hp == 0)
                &&& (out == IterationOutput::GameWin || out == IterationOutput::GameLose
                    ==> MapBattlePVE::battle_modifiers_reset(final(self).player))
            },
    {
        if self.round != 0 {
            return Err(Error::BattleRepeatStart);
        }
        let mut equipment_effects: Vec<System> = Vec::new();
        let mut i: usize = 0;
        while i < self.player.warrior.package_status.len()
            invariant
                self.wf(),
                *self == *old(self),
                old(self).round == 0,
            decreases self.player.warrior.package_status.len() - i,
        {
            let item = &self.player.warrior.package_status[i];
            if item.class == ItemClass::Equipment {
                let mut systems = clone_systems(&item.system_pool);
                equipment_effects.append(&mut systems);
            }
            i += 1;
        }
        self.trigger_log(FightLog::GameStart)?;
        let opening = self.player.snapshot();
        self.trigger_log(FightLog::Snapshot(opening))?;
        let ghost mid_logs = self.fight_logs@;
        let card_systems = self.player_deck.collect_systems();
        let mut k: usize = 0;
        while k < card_systems.len()
            invariant
                self.wf(),
                MapBattlePVE::deck_grows(old(self).player_deck, self.player_deck),
                controller.rng.seed() == old(controller).rng.seed(),
                old(self).round == 0,
                log_extends(mid_logs, self.fight_logs@),
                mid_logs == old(self).fight_logs@.push(FightLog::GameStart).push(
                    FightLog::Snapshot(opening),
                ),
                opening.hp == old(self).player.stats.hp,
                opening.offset == old(self).player.offset,
                self.round == old(self).round,
            decreases card_systems.len() - k,
        {
            let (offset, systems) = &card_systems[k];
            let pool = clone_systems(systems);
            self.trigger_iteration_systems(FightView::Card(*offset), pool, None, controller)?;
            k += 1;
        }
        self.round = 1;
        self.trigger_log(FightLog::PlayerTurn(1))?;
        let draw_count = self.player.draw_count;
        self.player_draw(draw_count, controller)?;
        let output = self.trigger_iteration_systems(
            FightView::Player,
            equipment_effects,
            None,
            controller,
        )?;
        proof {
            if old(self).fight_logs@.len() == 0 {
                assert(self.fight_logs@[0] == mid_logs[0]);
                assert(self.fight_logs@[1] == mid_logs[1]);
            }
        }
        let logs = self.take_logs();
        Ok((output, logs))
    }

    /// Processes the host's requests in order, stopping early on a terminal
    /// outcome, and reports the battle's status with the drained log.
    pub fn run(&mut self, operations: Vec<IterationInput>, controller: &mut SystemController) -> (r:
        Result<(IterationOutput, Vec<FightLog>), Error>)
        requires
            old(self).wf(),
        ensures
            final(self).wf(),
            old(self).round == 0 ==> r == Result::<(IterationOutput, Vec<FightLog>), Error>::Err(
                Error::BattleNotStarted,
            ) && *final(self) == *old(self) && *final(controller) == *old(controller),
            MapBattlePVE::deck_grows(old(self).player_deck, final(self).player_deck),
            final(controller).rng.seed() == old(controller).rng.seed(),
            r is Ok ==> final(self).fight_logs@.len() == 0,
            r is Err ==> r->Err_0 == Error::BattleNotStarted || crate::errors::battle_step_error(
                r->Err_0,
            ),
            r is Ok && operations@.len() == 0 ==> r->Ok_0.0 == final(self).last_output,
            r is Ok && operations@.len() > 0 ==> r->Ok_0.0 == final(self).last_output || (
            r->Ok_0.0 == IterationOutput::PlayerTurn && final(self).last_output
                == IterationOutput::Continue),
            r is Ok && operations@.len() > 0 ==> {
                let out = r->Ok_0.0;
                &&& (out == IterationOutput::GameLose ==> final(self).player.stats.hp == 0)
                &&& (out == IterationOutput::GameWin ==> forall|i: int|
                    0 <= i < final(self).opponents@.len()
                        ==> (#[trigger] final(self).opponents@[i]).stats.hp == 0)
                &&& (out == IterationOutput::GameWin || out == IterationOutput::GameLose
                    ==> MapBattlePVE::battle_modifiers_reset(final(self).player))
            },
    {
        if self.round == 0 {
            return Err(Error::BattleNotStarted);
        }
        let mut operations = operations;
        let total = operations.len();
        let mut reported = self.last_output;
        let mut i: usize = 0;
        while i < total
            invariant
                i <= total,
                operations@.len() + i == total,
                self.wf(),
                MapBattlePVE::deck_grows(old(self).player_deck, self.player_deck),
                controller.rng.seed() == old(controller).rng.seed(),
                old(self).round != 0,
                i > 0 ==> !(reported == IterationOutput::GameWin) && !(reported
                    == IterationOutput::GameLose),
                i > 0 ==> reported == self.last_output || (reported == IterationOutput::PlayerTurn
                    && self.last_output == IterationOutput::Continue),
                i == 0 ==> reported == self.last_output && self.last_output == old(
                    self,
                ).last_output,
            decreases total - i,
        {
            let operation = operations.remove(0);
            let output = self.iterate(operation, controller)?;
            reported = output;
            if output == IterationOutput::GameWin || output == IterationOutput::GameLose {
                let logs = self.take_logs();
                return Ok((output, logs));
            }
            i += 1;
        }
        let logs = self.take_logs();
        Ok((reported, logs))
    }

    /// Whether using the given hand card will need a target designation: it
    /// holds exactly one system aimed at a designated opponent. More than
    /// one such system in one card is broken content.
    pub fn peak_target(&self, hand_card_selection: Selection) -> (r: Result<bool, Error>)
        ensures
            hand_card_selection matches Selection::SingleCard(index) && index
                >= self.player_deck.hand_deck@.len() ==> r == Result::<bool, Error>::Err(
                Error::BattleSelectionError,
            ),
            !(hand_card_selection matches Selection::SingleCard(_)) ==> r == Result::<
                bool,
                Error,
            >::Err(Error::BattleInvalidPeakOperation),
            forall|index: usize|
                hand_card_selection == Selection::SingleCard(index) && index
                    < self.player_deck.hand_deck@.len() ==> {
                    let count = opponent_target_count(
                        (#[trigger] self.player_deck.hand_deck@[index as int]).card.system_pool@,
                    );
                    &&& (count == 0 ==> r == Result::<bool, Error>::Ok(false))
                    &&& (count == 1 ==> r == Result::<bool, Error>::Ok(true))
                    &&& (count >= 2 ==> r == Result::<bool, Error>::Err(
                        Error::ResourceSystemTargetInSystemPoolDuplicated,
                    ))
                },
    {
        let index = match hand_card_selection {
            Selection::SingleCard(index) => index,
            _ => {
                return Err(Error::BattleInvalidPeakOperation);
            },
        };
        if index >= self.player_deck.hand_deck.len() {
            return Err(Error::BattleSelectionError);
        }
        let card = &self.player_deck.hand_deck[index];
        let ghost pool = card.card.system_pool@;
        let mut select_required = false;
        let mut i: usize = 0;
        while i < card.card.system_pool.len()
            invariant
                hand_card_selection == Selection::SingleCard(index),
                index < self.player_deck.hand_deck@.len(),
                i <= pool.len(),
                pool == self.player_deck.hand_deck@[index as int].card.system_pool@,
                pool == card.card.system_pool@,
                opponent_target_count(pool.take(i as int)) <= 1,
                select_required == (opponent_target_count(pool.take(i as int)) == 1),
            decreases card.card.system_pool.len() - i,
        {
            proof {
                assert(pool.take(i + 1).drop_last() =~= pool.take(i as int));
                assert(pool.take(i + 1).last() == pool[i as int]);
            }
            if card.card.system_pool[i].target_type == RequireTarget::Opponent {
                if select_required {
                    proof {
                        assert(opponent_target_count(pool.take(i + 1)) == 2);
                        lemma_opponent_count_monotonic(pool, i + 1, pool.len() as int);
                        assert(pool.take(pool.len() as int) =~= pool);
                        assert(opponent_target_count(pool) >= 2);
                    }
                    return Err(Error::ResourceSystemTargetInSystemPoolDuplicated);
                }
                select_required = true;
            }
            i += 1;
        }
        proof {
            assert(pool.take(pool.len() as int) =~= pool);
        }
        Ok(select_required)
    }

    /// Tears the battle down once terminal, returning ownership of the
    /// participant and deck state for persistence outside combat.
    pub fn destroy(self) -> (r: Result<
        (WarriorContext, WarriorDeckContext, Vec<EnemyContext>),
        Error,
    >)
        ensures
            self.last_output == IterationOutput::GameWin || self.last_output
                == IterationOutput::GameLose <==> r is Ok,
            r is Ok ==> r->Ok_0.0 == self.player && r->Ok_0.1 == self.player_deck && r->Ok_0.2
                == self.opponents,
            r is Err ==> r == Result::<
                (WarriorContext, WarriorDeckContext, Vec<EnemyContext>),
                Error,
            >::Err(Error::BattleNotFinished),
    {
        if self.last_output != IterationOutput::GameWin && self.last_output
            != IterationOutput::GameLose {
            return Err(Error::BattleNotFinished);
        }
        Ok((self.player, self.player_deck, self.opponents))
    }
}

} // verus!
