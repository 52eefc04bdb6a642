use vstd::prelude::*;

verus! {

use crate::battle::pve::{FightView, Instruction, MapBattlePVE};
use crate::battle::traits::{log_extends, FightLog};
use crate::contexts::{clone_contexts, ctx_identical, SystemContext};
use crate::errors::Error;
use crate::systems::SystemInput;

broadcast use crate::battle::traits::lemma_log_extends_push;

impl MapBattlePVE {
    /// Wraps each given mounted instance, in order, as an instruction at the
    /// queue tail: every instruction carries the given view and target and
    /// the event as its input. Nothing else of the battle moves.
    pub(super) fn trigger_mounting_systems(
        &mut self,
        view: FightView,
        target: Option<usize>,
        contexts: Vec<SystemContext>,
        log: FightLog,
    )
        ensures
            final(self).pending_instructions@.len() == old(self).pending_instructions@.len()
                + contexts@.len(),
            final(self).pending_instructions@.take(old(self).pending_instructions@.len() as int)
                == old(self).pending_instructions@,
            forall|k: int|
                0 <= k < contexts@.len() ==> {
                    let instr = #[trigger] final(self).pending_instructions@[old(
                        self,
                    ).pending_instructions@.len() + k];
                    &&& instr.view == view
                    &&& instr.target == target
                    &&& instr.system_input == Some(SystemInput::Trigger(log))
                    &&& ctx_identical(instr.ctx, contexts@[k])
                },
            final(self).same_participants(old(self)),
            final(self).fight_logs == old(self).fight_logs,
    {
        let mut contexts = contexts;
        let ghost source = contexts@;
        let total = contexts.len();
        let mut queued: usize = 0;
        while queued < total
            invariant
                queued <= total,
                contexts@.len() + queued == total,
                contexts@ == source.skip(queued as int),
                total == source.len(),
                self.pending_instructions@.len() == old(self).pending_instructions@.len() + queued,
                self.pending_instructions@.take(old(self).pending_instructions@.len() as int)
                    == old(self).pending_instructions@,
                forall|k: int|
                    0 <= k < queued ==> {
                        let instr = #[trigger] self.pending_instructions@[old(
                            self,
                        ).pending_instructions@.len() + k];
                        &&& instr.view == view
                        &&& instr.target == target
                        &&& instr.system_input == Some(SystemInput::Trigger(log))
                        &&& ctx_identical(instr.ctx, source[k])
                    },
                self.same_participants(old(self)),
                self.fight_logs == old(self).fight_logs,
            decreases total - queued,
        {
            proof {
                assert(source.skip(queued as int)[0] == source[queued as int]);
                assert(source.skip(queued as int).skip(1) =~= source.skip(queued + 1));
            }
            let ctx = contexts.remove(0);
            self.pending_instructions.push_back(
                Instruction { target, ctx, view, system_input: Some(SystemInput::Trigger(log)) },
            );
            proof {
                assert(self.pending_instructions@.take(
                    old(self).pending_instructions@.len() as int,
                ) =~= old(self).pending_instructions@);
            }
            queued += 1;
        }
    }

    /// Appends one domain event to the battle log, rebroadcasting it first:
    /// for the player, each enemy, and each addressable card, every mounted
    /// instance of that owner is wrapped as an instruction carrying the
    /// event as input and pushed to the queue tail, owner by owner in that
    /// order. This is how durable effects observe change without polling.
    pub(super) fn trigger_log(&mut self, log: FightLog) -> (r: Result<(), Error>)
        ensures
            r is Ok,
            final(self).same_participants(old(self)),
            final(self).fight_logs@ == old(self).fight_logs@.push(log),
            log_extends(old(self).fight_logs@, final(self).fight_logs@),
            final(self).pending_instructions@.len() >= old(self).pending_instructions@.len(),
            final(self).pending_instructions@.take(old(self).pending_instructions@.len() as int)
                == old(self).pending_instructions@,
            forall|k: int|
                old(self).pending_instructions@.len() <= k < final(self).pending_instructions@.len() ==> (#[trigger] final(self).pending_instructions@[k]).system_input == Some(SystemInput::Trigger(log)),
    {
        let ghost pre_pending = self.pending_instructions@;
        let player_mounted = clone_contexts(&self.player.mounting_systems);
        let ghost prev = self.pending_instructions@;
        self.trigger_mounting_systems(FightView::Player, None, player_mounted, log);
        proof {
            assert forall|k: int|
                pre_pending.len() <= k < self.pending_instructions@.len() implies (
            #[trigger] self.pending_instructions@[k]).system_input == Some(
                SystemInput::Trigger(log),
            ) by {
                if k < prev.len() {
                assert(self.pending_instructions@.take(prev.len() as int)[k]
                    == self.pending_instructions@[k]);
                } else {
                assert(self.pending_instructions@[prev.len() + (k - prev.len())].system_input
                    == Some(SystemInput::Trigger(log)));
                }
            }
            assert(self.pending_instructions@.take(pre_pending.len() as int) =~= pre_pending);
        }

        let mut i: usize = 0;
        while i < self.opponents.len()
            invariant
                self.same_participants(old(self)),
                self.fight_logs == old(self).fight_logs,
                pre_pending == old(self).pending_instructions@,
                self.pending_instructions@.len() >= pre_pending.len(),
                self.pending_instructions@.take(pre_pending.len() as int) == pre_pending,
                forall|k: int|
                    pre_pending.len() <= k < self.pending_instructions@.len() ==> (#[trigger] self.pending_instructions@[k]).system_input
                        == Some(SystemInput::Trigger(log)),
            decreases self.opponents@.len() - i,
        {
            let enemy_mounted = clone_contexts(&self.opponents[i].mounting_systems);
            let ghost prev = self.pending_instructions@;
            self.trigger_mounting_systems(FightView::Enemy, Some(i), enemy_mounted, log);
            proof {
                assert forall|k: int|
                    pre_pending.len() <= k < self.pending_instructions@.len() implies (
                #[trigger] self.pending_instructions@[k]).system_input == Some(
                    SystemInput::Trigger(log),
                ) by {
                    if k < prev.len() {
                        assert(self.pending_instructions@.take(prev.len() as int)[k]
                            == self.pending_instructions@[k]);
                    } else {
                        assert(self.pending_instructions@[prev.len() + (k - prev.len())].system_input
                            == Some(SystemInput::Trigger(log)));
                    }
                }
                assert(self.pending_instructions@.take(pre_pending.len() as int) =~= pre_pending);
            }
            i += 1;
        }
        let special_offset = self.player_deck.special_card.card.offset;
        let special_mounted = clone_contexts(&self.player_deck.special_card.mounting_systems);
        let ghost prev = self.pending_instructions@;
        self.trigger_mounting_systems(FightView::Card(special_offset), None, special_mounted, log);
        proof {
            assert forall|k: int|
                pre_pending.len() <= k < self.pending_instructions@.len() implies (
            #[trigger] self.pending_instructions@[k]).system_input == Some(
                SystemInput::Trigger(log),
            ) by {
                if k < prev.len() {
                assert(self.pending_instructions@.take(prev.len() as int)[k]
                    == self.pending_instructions@[k]);
                } else {
                assert(self.pending_instructions@[prev.len() + (k - prev.len())].system_input
                    == Some(SystemInput::Trigger(log)));
                }
            }
            assert(self.pending_instructions@.take(pre_pending.len() as int) =~= pre_pending);
        }

        let mut i: usize = 0;
        while i < self.player_deck.hand_deck.len()
            invariant
                self.same_participants(old(self)),
                self.fight_logs == old(self).fight_logs,
                pre_pending == old(self).pending_instructions@,
                self.pending_instructions@.len() >= pre_pending.len(),
                self.pending_instructions@.take(pre_pending.len() as int) == pre_pending,
                forall|k: int|
                    pre_pending.len() <= k < self.pending_instructions@.len() ==> (#[trigger] self.pending_instructions@[k]).system_input
                        == Some(SystemInput::Trigger(log)),
            decreases self.player_deck.hand_deck@.len() - i,
        {
            let card_offset = self.player_deck.hand_deck[i].card.offset;
            let card_mounted = clone_contexts(&self.player_deck.hand_deck[i].mounting_systems);
            let ghost prev = self.pending_instructions@;
            self.trigger_mounting_systems(FightView::Card(card_offset), None, card_mounted, log);
            proof {
                assert forall|k: int|
                    pre_pending.len() <= k < self.pending_instructions@.len() implies (
                #[trigger] self.pending_instructions@[k]).system_input == Some(
                    SystemInput::Trigger(log),
                ) by {
                    if k < prev.len() {
                        assert(self.pending_instructions@.take(prev.len() as int)[k]
                            == self.pending_instructions@[k]);
                    } else {
                        assert(self.pending_instructions@[prev.len() + (k - prev.len())].system_input
                            == Some(SystemInput::Trigger(log)));
                    }
                }
                assert(self.pending_instructions@.take(pre_pending.len() as int) =~= pre_pending);
            }
            i += 1;
        }
        let mut i: usize = 0;
        while i < self.player_deck.deck.len()
            invariant
                self.same_participants(old(self)),
                self.fight_logs == old(self).fight_logs,
                pre_pending == old(self).pending_instructions@,
                self.pending_instructions@.len() >= pre_pending.len(),
                self.pending_instructions@.take(pre_pending.len() as int) == pre_pending,
                forall|k: int|
                    pre_pending.len() <= k < self.pending_instructions@.len() ==> (#[trigger] self.pending_instructions@[k]).system_input
                        == Some(SystemInput::Trigger(log)),
            decreases self.player_deck.deck@.len() - i,
        {
            let card_offset = self.player_deck.deck[i].card.offset;
            let card_mounted = clone_contexts(&self.player_deck.deck[i].mounting_systems);
            let ghost prev = self.pending_instructions@;
            self.trigger_mounting_systems(FightView::Card(card_offset), None, card_mounted, log);
            proof {
                assert forall|k: int|
                    pre_pending.len() <= k < self.pending_instructions@.len() implies (
                #[trigger] self.pending_instructions@[k]).system_input == Some(
                    SystemInput::Trigger(log),
                ) by {
                    if k < prev.len() {
                        assert(self.pending_instructions@.take(prev.len() as int)[k]
                            == self.pending_instructions@[k]);
                    } else {
                        assert(self.pending_instructions@[prev.len() + (k - prev.len())].system_input
                            == Some(SystemInput::Trigger(log)));
                    }
                }
                assert(self.pending_instructions@.take(pre_pending.len() as int) =~= pre_pending);
            }
            i += 1;
        }
        let mut i: usize = 0;
        while i < self.player_deck.grave_deck.len()
            invariant
                self.same_participants(old(self)),
                self.fight_logs == old(self).fight_logs,
                pre_pending == old(self).pending_instructions@,
                self.pending_instructions@.len() >= pre_pending.len(),
                self.pending_instructions@.take(pre_pending.len() as int) == pre_pending,
                forall|k: int|
                    pre_pending.len() <= k < self.pending_instructions@.len() ==> (#[trigger] self.pending_instructions@[k]).system_input
                        == Some(SystemInput::Trigger(log)),
            decreases self.player_deck.grave_deck@.len() - i,
        {
            let card_offset = self.player_deck.grave_deck[i].card.offset;
            let card_mounted = clone_contexts(&self.player_deck.grave_deck[i].mounting_systems);
            let ghost prev = self.pending_instructions@;
            self.trigger_mounting_systems(FightView::Card(card_offset), None, card_mounted, log);
            proof {
                assert forall|k: int|
                    pre_pending.len() <= k < self.pending_instructions@.len() implies (
                #[trigger] self.pending_instructions@[k]).system_input == Some(
                    SystemInput::Trigger(log),
                ) by {
                    if k < prev.len() {
                        assert(self.pending_instructions@.take(prev.len() as int)[k]
                            == self.pending_instructions@[k]);
                    } else {
                        assert(self.pending_instructions@[prev.len() + (k - prev.len())].system_input
                            == Some(SystemInput::Trigger(log)));
                    }
                }
                assert(self.pending_instructions@.take(pre_pending.len() as int) =~= pre_pending);
            }
            i += 1;
        }
        proof {
            assert(self.pending_instructions@.take(pre_pending.len() as int) =~= pre_pending);
        }
        self.fight_logs.push(log);
        Ok(())
    }
}

} // verus!
