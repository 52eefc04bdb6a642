use vstd::prelude::*;

verus! {

use crate::battle::pve::{FightView, Instruction, MapBattlePVE};
use crate::battle::traits::{log_extends, FightLog, IterationInput, IterationOutput, Selection};

broadcast use
    crate::battle::traits::lemma_log_extends_push,
    crate::battle::traits::lemma_log_extends_trans,
    crate::battle::traits::lemma_log_extends_refl;

use crate::errors::Error;
use crate::systems::SystemController;
use crate::wrappings::{clone_systems, System};

impl MapBattlePVE {
    /// Routes one host request to its operation; a request whose selection
    /// shape does not fit the operation is refused.
    pub(super) fn iterate(
        &mut self,
        operation: IterationInput,
        controller: &mut SystemController,
    ) -> (r: Result<IterationOutput, Error>)
        requires
            old(self).wf(),
        ensures
            final(self).wf(),
            MapBattlePVE::deck_grows(old(self).player_deck, final(self).player_deck),
            final(controller).rng.seed() == old(controller).rng.seed(),
            final(controller).system_pool == old(controller).system_pool,
            final(controller).card_pool == old(controller).card_pool,
            log_extends(old(self).fight_logs@, final(self).fight_logs@),
            r is Err ==> crate::errors::battle_step_error(r->Err_0),
            r is Ok ==> r->Ok_0 == final(self).last_output || (r->Ok_0
                == IterationOutput::PlayerTurn && final(self).last_output
                == IterationOutput::Continue),
            r is Ok ==> {
                let out = r->Ok_0;
                &&& (out == IterationOutput::GameLose ==> final(self).player.stats.hp == 0)
                &&& (out == IterationOutput::GameWin ==> forall|i: int|
                    0 <= i < final(self).opponents@.len()
                        ==> (#[trigger] final(self).opponents@[i]).stats.hp == 0)
                &&& (out == IterationOutput::GameWin || out == IterationOutput::GameLose
                    ==> MapBattlePVE::battle_modifiers_reset(final(self).player))
            },
    {
        match operation {
            IterationInput::ItemUse(selection, offset) => {
                match selection {
                    Selection::Item(item_index) => self.iterate_item_use(
                        item_index,
                        offset,
                        controller,
                    ),
                    _ => Err(Error::BattleSelectionMismatch),
                }
            },
            IterationInput::HandCardUse(selection, enemy_offset) => {
                match selection {
                    Selection::SingleCard(card_index) => self.iterate_hand_card_use(
                        card_index,
                        enemy_offset,
                        controller,
                    ),
                    _ => Err(Error::BattleSelectionMismatch),
                }
            },
            IterationInput::PendingCardSelect(selection) => {
                match selection {
                    Selection::MultiCards(card_offsets) => self.iterate_pending_card_select(
                        card_offsets,
                        controller,
                    ),
                    _ => Err(Error::BattleSelectionMismatch),
                }
            },
            IterationInput::SpecialCardUse(offset) => self.iterate_special_card_use(
                offset,
                controller,
            ),
            IterationInput::EnemyTurn => self.iterate_enemy_turn(controller),
        }
    }

    /// Enqueues one instruction per system, in order, at the queue tail:
    /// each instruction carries the given view and target, a fresh instance
    /// of its system, and no input.
    pub(super) fn enqueue_systems(
        &mut self,
        view: FightView,
        systems: Vec<System>,
        target: Option<usize>,
    )
        ensures
            final(self).pending_instructions@.len() == old(self).pending_instructions@.len()
                + systems@.len(),
            final(self).pending_instructions@.take(old(self).pending_instructions@.len() as int)
                == old(self).pending_instructions@,
            forall|k: int|
                0 <= k < systems@.len() ==> {
                    let instr = #[trigger] final(self).pending_instructions@[old(
                        self,
                    ).pending_instructions@.len() + k];
                    &&& instr.view == view
                    &&& instr.target == target
                    &&& instr.system_input is None
                    &&& crate::wrappings::sys_identical(instr.ctx.system, systems@[k])
                    &&& instr.ctx.duration_counter == 0
                },
            final(self).same_participants(old(self)),
            final(self).fight_logs == old(self).fight_logs,
    {
        let mut systems = systems;
        let ghost source = systems@;
        let total = systems.len();
        let mut queued: usize = 0;
        while queued < total
            invariant
                queued <= total,
                systems@.len() + queued == total,
                systems@ == source.skip(queued as int),
                total == source.len(),
                self.pending_instructions@.len() == old(self).pending_instructions@.len() + queued,
                self.pending_instructions@.take(old(self).pending_instructions@.len() as int)
                    == old(self).pending_instructions@,
                forall|k: int|
                    0 <= k < queued ==> {
                        let instr = #[trigger] self.pending_instructions@[old(
                            self,
                        ).pending_instructions@.len() + k];
                        &&& instr.view == view
                        &&& instr.target == target
                        &&& instr.system_input is None
                        &&& crate::wrappings::sys_identical(instr.ctx.system, source[k])
                        &&& instr.ctx.duration_counter == 0
                    },
                self.same_participants(old(self)),
                self.fight_logs == old(self).fight_logs,
            decreases total - queued,
        {
            proof {
                assert(source.skip(queued as int)[0] == source[queued as int]);
                assert(source.skip(queued as int).skip(1) =~= source.skip(queued + 1));
            }
            let system = systems.remove(0);
            let ctx = crate::contexts::SystemContext::new(system);
            self.pending_instructions.push_back(
                Instruction { view, ctx, target, system_input: None },
            );
            proof {
                assert(self.pending_instructions@.take(
                    old(self).pending_instructions@.len() as int,
                ) =~= old(self).pending_instructions@);
            }
            queued += 1;
        }
    }

    /// Enqueues one instruction per system, in order, at the queue tail and
    /// drains the queue.
    pub(super) fn trigger_iteration_systems(
        &mut self,
        view: FightView,
        systems: Vec<System>,
        target: Option<usize>,
        controller: &mut SystemController,
    ) -> (r: Result<IterationOutput, Error>)
        requires
            old(self).wf(),
        ensures
            final(self).wf(),
            MapBattlePVE::deck_grows(old(self).player_deck, final(self).player_deck),
            final(controller).rng.seed() == old(controller).rng.seed(),
            final(controller).system_pool == old(controller).system_pool,
            final(controller).card_pool == old(controller).card_pool,
            log_extends(old(self).fight_logs@, final(self).fight_logs@),
            r is Err ==> crate::errors::battle_step_error(r->Err_0),
            r is Ok ==> r->Ok_0 == final(self).last_output || (r->Ok_0
                == IterationOutput::PlayerTurn && final(self).last_output
                == IterationOutput::Continue),
            r is Ok ==> {
                let out = r->Ok_0;
                &&& (out == IterationOutput::GameLose ==> final(self).player.stats.hp == 0)
                &&& (out == IterationOutput::GameWin ==> forall|i: int|
                    0 <= i < final(self).opponents@.len()
                        ==> (#[trigger] final(self).opponents@[i]).stats.hp == 0)
                &&& (out == IterationOutput::GameWin || out == IterationOutput::GameLose
                    ==> MapBattlePVE::battle_modifiers_reset(final(self).player))
            },
            r is Ok ==> r->Ok_0 == final(self).last_output,
            final(self).round == old(self).round,
            final(self).opponents@.len() == old(self).opponents@.len(),
            r is Ok && !(r->Ok_0 == IterationOutput::GameWin) && !(r->Ok_0
                == IterationOutput::GameLose) ==> final(self).player.power == old(
                self,
            ).player.power && final(self).player.max_power == old(self).player.max_power,
    {
        self.enqueue_systems(view, systems, target);
        self.operate_pending_instructions(controller)
    }

    /// Consumes one owned prop item and casts its systems under the
    /// player's view. Legal only while the player may act, and only for an
    /// item slot that exists; an illegal request leaves the battle
    /// unchanged.
    pub(super) fn iterate_item_use(
        &mut self,
        item_index: usize,
        target: Option<usize>,
        controller: &mut SystemController,
    ) -> (r: Result<IterationOutput, Error>)
        requires
            old(self).wf(),
        ensures
            final(self).wf(),
            MapBattlePVE::deck_grows(old(self).player_deck, final(self).player_deck),
            final(controller).rng.seed() == old(controller).rng.seed(),
            final(controller).system_pool == old(controller).system_pool,
            final(controller).card_pool == old(controller).card_pool,
            log_extends(old(self).fight_logs@, final(self).fight_logs@),
            r is Err ==> crate::errors::battle_step_error(r->Err_0),
            r is Ok ==> r->Ok_0 == final(self).last_output || (r->Ok_0
                == IterationOutput::PlayerTurn && final(self).last_output
                == IterationOutput::Continue),
            r is Ok ==> {
                let out = r->Ok_0;
                &&& (out == IterationOutput::GameLose ==> final(self).player.stats.hp == 0)
                &&& (out == IterationOutput::GameWin ==> forall|i: int|
                    0 <= i < final(self).opponents@.len()
                        ==> (#[trigger] final(self).opponents@[i]).stats.hp == 0)
                &&& (out == IterationOutput::GameWin || out == IterationOutput::GameLose
                    ==> MapBattlePVE::battle_modifiers_reset(final(self).player))
            },
            item_index >= old(self).player.props_list@.len() ==> r == Result::<
                IterationOutput,
                Error,
            >::Err(Error::BattleSelectionError) && *final(self) == *old(self) && *final(controller)
                == *old(controller),
            item_index < old(self).player.props_list@.len() && old(self).last_output
                != IterationOutput::Continue ==> r == Result::<IterationOutput, Error>::Err(
                Error::BattleUnexpectedOutput,
            ) && *final(self) == *old(self) && *final(controller) == *old(controller),
    {
        if item_index >= self.player.props_list.len() {
            return Err(Error::BattleSelectionError);
        }
        if self.last_output != IterationOutput::Continue {
            return Err(Error::BattleUnexpectedOutput);
        }
        let props_item = self.player.props_list.remove(item_index);
        self.trigger_log(FightLog::ItemUse(item_index))?;
        self.trigger_iteration_systems(
            FightView::Player,
            props_item.system_pool,
            target,
            controller,
        )
    }

    /// Plays one hand card: checks the state and the power budget, then
    /// spends the power, moves the card to the grave, and casts its systems
    /// under the player's view. An unaffordable or out-of-place request
    /// leaves the battle unchanged.
    pub(super) fn iterate_hand_card_use(
        &mut self,
        card_index: usize,
        target: Option<usize>,
        controller: &mut SystemController,
    ) -> (r: Result<IterationOutput, Error>)
        requires
            old(self).wf(),
        ensures
            final(self).wf(),
            MapBattlePVE::deck_grows(old(self).player_deck, final(self).player_deck),
            final(controller).rng.seed() == old(controller).rng.seed(),
            final(controller).system_pool == old(controller).system_pool,
            final(controller).card_pool == old(controller).card_pool,
            log_extends(old(self).fight_logs@, final(self).fight_logs@),
            r is Err ==> crate::errors::battle_step_error(r->Err_0),
            r is Ok ==> r->Ok_0 == final(self).last_output || (r->Ok_0
                == IterationOutput::PlayerTurn && final(self).last_output
                == IterationOutput::Continue),
            r is Ok ==> {
                let out = r->Ok_0;
                &&& (out == IterationOutput::GameLose ==> final(self).player.stats.hp == 0)
                &&& (out == IterationOutput::GameWin ==> forall|i: int|
                    0 <= i < final(self).opponents@.len()
                        ==> (#[trigger] final(self).opponents@[i]).stats.hp == 0)
                &&& (out == IterationOutput::GameWin || out == IterationOutput::GameLose
                    ==> MapBattlePVE::battle_modifiers_reset(final(self).player))
            },
            card_index >= old(self).player_deck.hand_deck@.len() ==> r == Result::<
                IterationOutput,
                Error,
            >::Err(Error::BattleSelectionError) && *final(self) == *old(self) && *final(controller)
                == *old(controller),
            card_index < old(self).player_deck.hand_deck@.len() && old(self).last_output
                != IterationOutput::Continue ==> r == Result::<IterationOutput, Error>::Err(
                Error::BattleUnexpectedOutput,
            ) && *final(self) == *old(self) && *final(controller) == *old(controller),
            card_index < old(self).player_deck.hand_deck@.len() && old(self).last_output
                == IterationOutput::Continue && old(self).player.power < old(
                self,
            ).player_deck.hand_deck@[card_index as int].power_cost ==> r == Result::<
                IterationOutput,
                Error,
            >::Err(Error::BattlePowerInsufficient) && *final(self) == *old(self) && *final(controller) == *old(controller),
    {
        if card_index >= self.player_deck.hand_deck.len() {
            return Err(Error::BattleSelectionError);
        }
        if self.last_output != IterationOutput::Continue {
            return Err(Error::BattleUnexpectedOutput);
        }
        let cost = self.player_deck.hand_deck[card_index].power_cost;
        if self.player.power < cost {
            return Err(Error::BattlePowerInsufficient);
        }
        self.player.power = self.player.power - cost;
        let card = self.player_deck.hand_deck.remove(card_index);
        let card_offset = card.card.offset;
        let systems = clone_systems(&card.card.system_pool);
        self.player_deck.grave_deck.push(card);
        proof {
            broadcast use vstd::seq_lib::group_to_multiset_ensures;
            broadcast use vstd::seq_lib::lemma_multiset_commutative;

            assert(crate::contexts::offsets_of(self.player_deck.hand_deck@)
                =~= crate::contexts::offsets_of(old(self).player_deck.hand_deck@).remove(
                card_index as int,
            ));
            assert(crate::contexts::offsets_of(self.player_deck.grave_deck@)
                =~= crate::contexts::offsets_of(old(self).player_deck.grave_deck@).push(
                card_offset,
            ));
            assert(crate::contexts::offsets_of(old(self).player_deck.hand_deck@)[card_index as int]
                == card_offset);
            assert(self.player_deck.card_multiset() =~= old(self).player_deck.card_multiset());
        }
        self.trigger_log(FightLog::PowerCost(cost))?;
        self.trigger_log(FightLog::HandCardUse(card_offset))?;
        let ghost mid_logs = self.fight_logs@;
        let out = self.trigger_iteration_systems(FightView::Player, systems, target, controller);
        proof {
            assert(self.fight_logs@[old(self).fight_logs@.len() as int] == mid_logs[old(self).fight_logs@.len() as int]);
            assert(self.fight_logs@[old(self).fight_logs@.len() as int + 1] == mid_logs[old(self).fight_logs@.len() as int + 1]);
        }
        out
    }

    /// Plays the signature card: checks the state and the power budget,
    /// spends the power, and casts its systems under the player's view.
    pub(super) fn iterate_special_card_use(
        &mut self,
        target: Option<usize>,
        controller: &mut SystemController,
    ) -> (r: Result<IterationOutput, Error>)
        requires
            old(self).wf(),
        ensures
            final(self).wf(),
            MapBattlePVE::deck_grows(old(self).player_deck, final(self).player_deck),
            final(controller).rng.seed() == old(controller).rng.seed(),
            final(controller).system_pool == old(controller).system_pool,
            final(controller).card_pool == old(controller).card_pool,
            log_extends(old(self).fight_logs@, final(self).fight_logs@),
            r is Err ==> crate::errors::battle_step_error(r->Err_0),
            r is Ok ==> r->Ok_0 == final(self).last_output || (r->Ok_0
                == IterationOutput::PlayerTurn && final(self).last_output
                == IterationOutput::Continue),
            r is Ok ==> {
                let out = r->Ok_0;
                &&& (out == IterationOutput::GameLose ==> final(self).player.stats.hp == 0)
                &&& (out == IterationOutput::GameWin ==> forall|i: int|
                    0 <= i < final(self).opponents@.len()
                        ==> (#[trigger] final(self).opponents@[i]).stats.hp == 0)
                &&& (out == IterationOutput::GameWin || out == IterationOutput::GameLose
                    ==> MapBattlePVE::battle_modifiers_reset(final(self).player))
            },
            old(self).last_output != IterationOutput::Continue ==> r == Result::<
                IterationOutput,
                Error,
            >::Err(Error::BattleUnexpectedOutput) && *final(self) == *old(self) && *final(controller) == *old(controller),
            old(self).last_output == IterationOutput::Continue && old(self).player.power < old(
                self,
            ).player_deck.special_card.power_cost ==> r == Result::<IterationOutput, Error>::Err(
                Error::BattlePowerInsufficient,
            ) && *final(self) == *old(self) && *final(controller) == *old(controller),
    {
        if self.last_output != IterationOutput::Continue {
            return Err(Error::BattleUnexpectedOutput);
        }
        let cost = self.player_deck.special_card.power_cost;
        if self.player.power < cost {
            return Err(Error::BattlePowerInsufficient);
        }
        self.player.power = self.player.power - cost;
        let systems = clone_systems(&self.player_deck.special_card.card.system_pool);
        self.trigger_log(FightLog::PowerCost(cost))?;
        self.trigger_log(FightLog::SpecialCardUse)?;
        let ghost mid_logs = self.fight_logs@;
        let out = self.trigger_iteration_systems(FightView::Player, systems, target, controller);
        proof {
            assert(self.fight_logs@[old(self).fight_logs@.len() as int] == mid_logs[old(self).fight_logs@.len() as int]);
            assert(self.fight_logs@[old(self).fight_logs@.len() as int + 1] == mid_logs[old(self).fight_logs@.len() as int + 1]);
        }
        out
    }

    /// Answers an open selection prompt: the offsets must fit the requested
    /// count, then the draw or discard is performed and resolution resumes
    /// on the suspended queue.
    pub(super) fn iterate_pending_card_select(
        &mut self,
        card_offsets: Vec<usize>,
        controller: &mut SystemController,
    ) -> (r: Result<IterationOutput, Error>)
        requires
            old(self).wf(),
        ensures
            final(self).wf(),
            MapBattlePVE::deck_grows(old(self).player_deck, final(self).player_deck),
            final(controller).rng.seed() == old(controller).rng.seed(),
            final(controller).system_pool == old(controller).system_pool,
            final(controller).card_pool == old(controller).card_pool,
            log_extends(old(self).fight_logs@, final(self).fight_logs@),
            r is Err ==> crate::errors::battle_step_error(r->Err_0),
            r is Ok ==> r->Ok_0 == final(self).last_output || (r->Ok_0
                == IterationOutput::PlayerTurn && final(self).last_output
                == IterationOutput::Continue),
            r is Ok ==> {
                let out = r->Ok_0;
                &&& (out == IterationOutput::GameLose ==> final(self).player.stats.hp == 0)
                &&& (out == IterationOutput::GameWin ==> forall|i: int|
                    0 <= i < final(self).opponents@.len()
                        ==> (#[trigger] final(self).opponents@[i]).stats.hp == 0)
                &&& (out == IterationOutput::GameWin || out == IterationOutput::GameLose
                    ==> MapBattlePVE::battle_modifiers_reset(final(self).player))
            },
            !(old(self).last_output matches IterationOutput::RequireCardSelect(_, _)) ==> r
                == Result::<IterationOutput, Error>::Err(Error::BattleUnexpectedOutput) && *final(self) == *old(self) && *final(controller) == *old(controller),
            old(self).last_output matches IterationOutput::RequireCardSelect(count, _)
                && card_offsets@.len() > count ==> r == Result::<IterationOutput, Error>::Err(
                Error::BattleExceedCardSelection,
            ) && *final(self) == *old(self) && *final(controller) == *old(controller),
    {
        let (count, draw) = match self.last_output {
            IterationOutput::RequireCardSelect(count, draw) => (count, draw),
            _ => {
                return Err(Error::BattleUnexpectedOutput);
            },
        };
        if card_offsets.len() > count as usize {
            return Err(Error::BattleExceedCardSelection);
        }
        if draw {
            self.player_select_draw(&card_offsets)?;
        } else {
            self.player_select_discard(&card_offsets, true)?;
        }
        self.operate_pending_instructions(controller)
    }

    /// Runs the enemy phase: requires an empty queue, discards the hand,
    /// lets each enemy pop and cast its next action list in offset order
    /// (aborting early on a terminal outcome), then advances the round,
    /// restores the round-scoped resources and costs, draws the new hand
    /// and resolves whatever that triggered.
    pub(super) fn iterate_enemy_turn(&mut self, controller: &mut SystemController) -> (r: Result<
        IterationOutput,
        Error,
    >)
        requires
            old(self).wf(),
        ensures
            final(self).wf(),
            MapBattlePVE::deck_grows(old(self).player_deck, final(self).player_deck),
            final(controller).rng.seed() == old(controller).rng.seed(),
            final(controller).system_pool == old(controller).system_pool,
            final(controller).card_pool == old(controller).card_pool,
            log_extends(old(self).fight_logs@, final(self).fight_logs@),
            r is Err ==> crate::errors::battle_step_error(r->Err_0),
            r is Ok ==> r->Ok_0 == final(self).last_output || (r->Ok_0
                == IterationOutput::PlayerTurn && final(self).last_output
                == IterationOutput::Continue),
            r is Ok ==> {
                let out = r->Ok_0;
                &&& (out == IterationOutput::GameLose ==> final(self).player.stats.hp == 0)
                &&& (out == IterationOutput::GameWin ==> forall|i: int|
                    0 <= i < final(self).opponents@.len()
                        ==> (#[trigger] final(self).opponents@[i]).stats.hp == 0)
                &&& (out == IterationOutput::GameWin || out == IterationOutput::GameLose
                    ==> MapBattlePVE::battle_modifiers_reset(final(self).player))
            },
            old(self).pending_instructions@.len() > 0 ==> r == Result::<IterationOutput, Error>::Err(
                Error::BattleInstructionNotEmpty,
            ) && *final(self) == *old(self) && *final(controller) == *old(controller),
            old(self).pending_instructions@.len() == 0 && r is Ok ==> final(self).fight_logs@.len() >= old(self).fight_logs@.len() + 2 && final(self).fight_logs@[old(
                self,
            ).fight_logs@.len() as int] == FightLog::DiscardAllHandDeck && final(self).fight_logs@[old(self).fight_logs@.len() as int + 1] == FightLog::EnemyTurn(old(self).round),
            r == Result::<IterationOutput, Error>::Ok(IterationOutput::PlayerTurn) ==> final(self).round == old(self).round + 1 && final(self).player.power == final(self).player.max_power,
    {
        if self.pending_instructions.len() > 0 {
            return Err(Error::BattleInstructionNotEmpty);
        }
        self.player_deck.discard_all_hand();
        self.trigger_log(FightLog::DiscardAllHandDeck)?;
        let round = self.round;
        self.trigger_log(FightLog::EnemyTurn(round))?;
        let ghost mid_logs = self.fight_logs@;
        let total = self.opponents.len();
        let mut i: usize = 0;
        while i < total
            invariant
                i <= total,
                self.wf(),
                total == self.opponents@.len(),
                MapBattlePVE::deck_grows(old(self).player_deck, self.player_deck),
                controller.rng.seed() == old(controller).rng.seed(),
                controller.system_pool == old(controller).system_pool,
                controller.card_pool == old(controller).card_pool,
                old(self).pending_instructions@.len() == 0,
                log_extends(old(self).fight_logs@, self.fight_logs@),
                log_extends(mid_logs, self.fight_logs@),
                mid_logs[old(self).fight_logs@.len() as int] == FightLog::DiscardAllHandDeck,
                mid_logs[old(self).fight_logs@.len() as int + 1] == FightLog::EnemyTurn(old(self).round),
                mid_logs.len() >= old(self).fight_logs@.len() + 2,
                self.round == old(self).round,
            decreases total - i,
        {
            let ghost before_ops = self.opponents@;
            let mut enemy = self.opponents.remove(i);
            let action = enemy.pop_action(&mut controller.rng);
            self.opponents.insert(i, enemy);
            proof {
                assert(self.opponents@ =~= before_ops.update(i as int, self.opponents@[i as int]));
            }
            let systems = match action {
                Ok(systems) => systems,
                Err(e) => {
                    return Err(e);
                },
            };
            let output = self.trigger_iteration_systems(
                FightView::Enemy,
                systems,
                Some(i),
                controller,
            )?;
            if output == IterationOutput::GameWin || output == IterationOutput::GameLose {
                proof {
                    assert(self.fight_logs@[old(self).fight_logs@.len() as int] == mid_logs[old(self).fight_logs@.len() as int]);
                    assert(self.fight_logs@[old(self).fight_logs@.len() as int + 1] == mid_logs[old(self).fight_logs@.len() as int + 1]);
                }
                return Ok(output);
            }
            i += 1;
        }
        if self.pending_instructions.len() > 0 {
            return Err(Error::BattleInstructionNotEmpty);
        }
        if self.round == u8::MAX {
            return Err(Error::BattleInternalError);
        }
        self.round = self.round + 1;
        self.player.round_reset();
        self.player_deck.round_reset();
        self.trigger_log(FightLog::RecoverPower)?;
        self.trigger_log(FightLog::RecoverCardCost)?;
        let round = self.round;
        self.trigger_log(FightLog::PlayerTurn(round))?;
        let draw_count = self.player.draw_count;
        self.player_draw(draw_count, controller)?;
        let output = self.operate_pending_instructions(controller)?;
        proof {
            assert(self.fight_logs@[old(self).fight_logs@.len() as int] == mid_logs[old(self).fight_logs@.len() as int]);
            assert(self.fight_logs@[old(self).fight_logs@.len() as int + 1] == mid_logs[old(self).fight_logs@.len() as int + 1]);
        }
        if output == IterationOutput::Continue {
            Ok(IterationOutput::PlayerTurn)
        } else {
            Ok(output)
        }
    }
}

} // verus!
