use vstd::prelude::*;

verus! {

use crate::battle::pve::{FightView, Instruction, MapBattlePVE, INSTRUCTION_BUDGET};
use crate::battle::traits::{
    discard_payload_fn, draw_payload_fn, extract_offsets, gameover_count, log_extends,
    recover_count, FightLog, IterationOutput,
};
use crate::contexts::{offsets_of, EnemyContext};

broadcast use
    crate::battle::traits::lemma_gameover_count_push,
    crate::battle::traits::lemma_recover_count_push,
    crate::battle::traits::lemma_log_extends_push,
    crate::battle::traits::lemma_log_extends_trans,
    crate::battle::traits::lemma_log_extends_refl,
    crate::battle::traits::lemma_extract_offsets_push;

use crate::errors::{resolution_error, Error};
use crate::systems::{
    cmds_no_gameover, return_no_gameover, Command, DeckSource, SystemController, SystemInput,
    SystemReturn,
};
use crate::wrappings::RequireTarget;

impl MapBattlePVE {
    /// Draws cards from the main deck into the hand, refilling the deck from
    /// the grave when needed. A zero draw request and a draw that outruns
    /// the cards available are refused with the battle unchanged: an empty
    /// deck with an empty grave is an internal invariant violation, never a
    /// loop.
    pub fn player_draw(&mut self, draw_count: u8, controller: &mut SystemController) -> (r: Result<
        (),
        Error,
    >)
        requires
            old(self).wf(),
        ensures
            final(self).wf(),
            draw_count == 0 ==> r == Result::<(), Error>::Err(Error::BattleUnexpectedDrawCount)
                && *final(self) == *old(self) && *final(controller) == *old(controller),
            draw_count > 0 && draw_count as int > old(self).player_deck.deck@.len() + old(
                self,
            ).player_deck.grave_deck@.len() ==> r == Result::<(), Error>::Err(
                Error::BattleInternalError,
            ) && *final(self) == *old(self) && *final(controller) == *old(controller),
            r is Ok <==> 0 < draw_count as int <= old(self).player_deck.deck@.len() + old(
                self,
            ).player_deck.grave_deck@.len(),
            r is Ok ==> final(self).player_deck.hand_deck@.len() == old(
                self,
            ).player_deck.hand_deck@.len() + draw_count,
            final(self).player_deck.card_multiset() == old(self).player_deck.card_multiset(),
            final(self).player == old(self).player,
            final(self).opponents == old(self).opponents,
            final(self).round == old(self).round,
            final(self).last_output == old(self).last_output,
            final(self).next_offset == old(self).next_offset,
            final(controller).rng.seed() == old(controller).rng.seed(),
            final(controller).rng.rotation() == old(controller).rng.rotation(),
            final(controller).system_pool == old(controller).system_pool,
            final(controller).card_pool == old(controller).card_pool,
            final(self).fight_logs@.len() >= old(self).fight_logs@.len(),
            gameover_count(final(self).fight_logs@) == gameover_count(old(self).fight_logs@),
            log_extends(old(self).fight_logs@, final(self).fight_logs@),
            r is Ok ==> {
                let drawn = offsets_of(final(self).player_deck.hand_deck@).skip(
                    old(self).player_deck.hand_deck@.len() as int,
                );
                &&& offsets_of(final(self).player_deck.hand_deck@).take(
                    old(self).player_deck.hand_deck@.len() as int,
                ) == offsets_of(old(self).player_deck.hand_deck@)
                &&& extract_offsets(final(self).fight_logs@, draw_payload_fn()) == extract_offsets(
                    old(self).fight_logs@,
                    draw_payload_fn(),
                ) + drawn
                &&& drawn.len() == draw_count
            },
            r is Ok && draw_count as int <= old(self).player_deck.deck@.len() ==> final(self).player_deck.deck@.len() == old(self).player_deck.deck@.len() - draw_count && final(self).player_deck.grave_deck == old(self).player_deck.grave_deck && recover_count(
                final(self).fight_logs@,
            ) == recover_count(old(self).fight_logs@),
            r is Ok && draw_count as int > old(self).player_deck.deck@.len() ==> final(self).player_deck.grave_deck@.len() == 0 && final(self).player_deck.deck@.len() == old(
                self,
            ).player_deck.deck@.len() + old(self).player_deck.grave_deck@.len() - draw_count
                && recover_count(final(self).fight_logs@) == recover_count(old(self).fight_logs@)
                + 1,
    {
        if draw_count == 0 {
            return Err(Error::BattleUnexpectedDrawCount);
        }
        let deck_len = self.player_deck.deck.len();
        let grave_len = self.player_deck.grave_deck.len();
        let need = draw_count as usize;
        let enough = if need <= deck_len {
            true
        } else {
            need - deck_len <= grave_len
        };
        if !enough {
            return Err(Error::BattleInternalError);
        }
        let total = draw_count as usize;
        let mut made: usize = 0;
        while made < total
            invariant
                made <= total,
                total <= usize::MAX,
                self.wf(),
                self.player_deck.deck@.len() + self.player_deck.grave_deck@.len() + made == old(
                    self,
                ).player_deck.deck@.len() + old(self).player_deck.grave_deck@.len(),
                total <= old(self).player_deck.deck@.len() + old(
                    self,
                ).player_deck.grave_deck@.len(),
                self.player_deck.hand_deck@.len() == old(self).player_deck.hand_deck@.len() + made,
                offsets_of(self.player_deck.hand_deck@).take(
                    old(self).player_deck.hand_deck@.len() as int,
                ) == offsets_of(old(self).player_deck.hand_deck@),
                extract_offsets(self.fight_logs@, draw_payload_fn()) == extract_offsets(
                    old(self).fight_logs@,
                    draw_payload_fn(),
                ) + offsets_of(self.player_deck.hand_deck@).skip(
                    old(self).player_deck.hand_deck@.len() as int,
                ),
                made <= old(self).player_deck.deck@.len() ==> self.player_deck.deck@.len() == old(
                    self,
                ).player_deck.deck@.len() - made && self.player_deck.grave_deck == old(
                    self,
                ).player_deck.grave_deck && recover_count(self.fight_logs@) == recover_count(
                    old(self).fight_logs@,
                ),
                made > old(self).player_deck.deck@.len() ==> self.player_deck.grave_deck@.len()
                    == 0 && recover_count(self.fight_logs@) == recover_count(old(self).fight_logs@)
                    + 1,
                self.player_deck.card_multiset() == old(self).player_deck.card_multiset(),
                self.player == old(self).player,
                self.opponents == old(self).opponents,
                self.round == old(self).round,
                self.last_output == old(self).last_output,
                self.next_offset == old(self).next_offset,
                controller.rng.seed() == old(controller).rng.seed(),
                controller.rng.rotation() == old(controller).rng.rotation(),
                controller.system_pool == old(controller).system_pool,
                controller.card_pool == old(controller).card_pool,
                self.fight_logs@.len() >= old(self).fight_logs@.len(),
                gameover_count(self.fight_logs@) == gameover_count(old(self).fight_logs@),
                log_extends(old(self).fight_logs@, self.fight_logs@),
            decreases total - made,
        {
            let drawn = match self.player_deck.draw_random(&mut controller.rng) {
                Ok(d) => d,
                Err(e) => {
                    proof {
                        assert(false);
                    }
                    return Err(e);
                },
            };
            let (offset, refilled) = drawn;
            if refilled {
                self.trigger_log(FightLog::RecoverGraveDeck)?;
            }
            self.trigger_log(FightLog::Draw(offset))?;
            made += 1;
            proof {
                let base = old(self).player_deck.hand_deck@.len() as int;
                assert(offsets_of(self.player_deck.hand_deck@).take(base) =~= offsets_of(
                    old(self).player_deck.hand_deck@,
                ));
                assert(extract_offsets(self.fight_logs@, draw_payload_fn()) =~= extract_offsets(
                    old(self).fight_logs@,
                    draw_payload_fn(),
                ) + offsets_of(self.player_deck.hand_deck@).skip(base));
            }
        }
        Ok(())
    }

    /// Discards up to `count` uniformly chosen hand cards, logging each; a
    /// zero discard request is refused with the battle unchanged.
    pub fn player_random_discard(
        &mut self,
        discard_count: u8,
        grave: bool,
        controller: &mut SystemController,
    ) -> (r: Result<(), Error>)
        requires
            old(self).wf(),
        ensures
            final(self).wf(),
            r is Err <==> discard_count == 0,
            discard_count == 0 ==> r == Result::<(), Error>::Err(
                Error::BattleUnexpectedDiscardCount,
            ),
            discard_count == 0 ==> *final(self) == *old(self) && *final(controller) == *old(
                controller,
            ),
            gameover_count(final(self).fight_logs@) == gameover_count(old(self).fight_logs@),
            log_extends(old(self).fight_logs@, final(self).fight_logs@),
            final(self).player_deck.card_multiset() == old(self).player_deck.card_multiset(),
            final(self).player == old(self).player,
            final(self).opponents == old(self).opponents,
            final(self).round == old(self).round,
            final(self).last_output == old(self).last_output,
            final(self).next_offset == old(self).next_offset,
            final(controller).rng.seed() == old(controller).rng.seed(),
            final(controller).rng.rotation() == old(controller).rng.rotation(),
            final(controller).system_pool == old(controller).system_pool,
            final(controller).card_pool == old(controller).card_pool,
            r is Ok ==> final(self).player_deck.hand_deck@.len() == old(
                self,
            ).player_deck.hand_deck@.len() - vstd::math::min(
                discard_count as int,
                old(self).player_deck.hand_deck@.len() as int,
            ),
            r is Ok && grave ==> extract_offsets(final(self).fight_logs@, discard_payload_fn())
                == extract_offsets(old(self).fight_logs@, discard_payload_fn()) + offsets_of(
                final(self).player_deck.grave_deck@,
            ).skip(old(self).player_deck.grave_deck@.len() as int),
            r is Ok && !grave ==> extract_offsets(final(self).fight_logs@, discard_payload_fn())
                == extract_offsets(old(self).fight_logs@, discard_payload_fn()) + offsets_of(
                final(self).player_deck.unavaliable_deck@,
            ).skip(old(self).player_deck.unavaliable_deck@.len() as int),
    {
        if discard_count == 0 {
            return Err(Error::BattleUnexpectedDiscardCount);
        }
        let discarded = self.player_deck.random_discard(discard_count, grave, &mut controller.rng);
        let ghost mid_deck = self.player_deck;
        let mut k: usize = 0;
        while k < discarded.len()
            invariant
                k <= discarded@.len(),
                self.wf(),
                gameover_count(self.fight_logs@) == gameover_count(old(self).fight_logs@),
                log_extends(old(self).fight_logs@, self.fight_logs@),
                self.player_deck.card_multiset() == old(self).player_deck.card_multiset(),
                self.player == old(self).player,
                self.opponents == old(self).opponents,
                self.round == old(self).round,
                self.last_output == old(self).last_output,
                self.next_offset == old(self).next_offset,
                controller.rng.seed() == old(controller).rng.seed(),
                controller.rng.rotation() == old(controller).rng.rotation(),
                controller.system_pool == old(controller).system_pool,
                controller.card_pool == old(controller).card_pool,
                self.player_deck == mid_deck,
                extract_offsets(self.fight_logs@, discard_payload_fn()) == extract_offsets(
                    old(self).fight_logs@,
                    discard_payload_fn(),
                ) + discarded@.take(k as int),
            decreases discarded.len() - k,
        {
            self.trigger_log(FightLog::DiscardHandDeck(discarded[k]))?;
            proof {
                assert(extract_offsets(self.fight_logs@, discard_payload_fn())
                    =~= extract_offsets(old(self).fight_logs@, discard_payload_fn())
                    + discarded@.take(k + 1));
            }
            k += 1;
        }
        proof {
            assert(discarded@.take(discarded@.len() as int) =~= discarded@);
            if grave {
                assert(offsets_of(self.player_deck.grave_deck@).skip(
                    old(self).player_deck.grave_deck@.len() as int,
                ) =~= discarded@);
            } else {
                assert(offsets_of(self.player_deck.unavaliable_deck@).skip(
                    old(self).player_deck.unavaliable_deck@.len() as int,
                ) =~= discarded@);
            }
        }
        Ok(())
    }


    /// Answers a draw prompt: moves the selected cards into the hand through
    /// the deck state and logs one draw event per card, in order.
    pub fn player_select_draw(&mut self, card_offsets: &Vec<usize>) -> (r: Result<(), Error>)
        requires
            old(self).wf(),
        ensures
            final(self).wf(),
            ({
                let pool_ok = (forall|k: int|
                    0 <= k < card_offsets@.len() ==> old(
                        self,
                    ).player_deck.selection_pool@.contains(#[trigger] card_offsets@[k]))
                    && card_offsets@.no_duplicates();
                let present_ok = forall|k: int|
                    0 <= k < card_offsets@.len() ==> old(self).player_deck.can_draw(
                        #[trigger] card_offsets@[k],
                    );
                &&& (r is Ok <==> pool_ok && present_ok)
                &&& (!pool_ok ==> r == Result::<(), Error>::Err(Error::BattleUnexpectedCardOffset))
                &&& (pool_ok && !present_ok ==> r == Result::<(), Error>::Err(
                    Error::BattleCardOffsetNotFound,
                ))
            }),
            r is Err ==> *final(self) == *old(self),
            final(self).player_deck.card_multiset() == old(self).player_deck.card_multiset(),
            r is Ok ==> {
                &&& offsets_of(final(self).player_deck.hand_deck@) == offsets_of(
                    old(self).player_deck.hand_deck@,
                ) + card_offsets@
                &&& final(self).player_deck.selection_pool@.len() == 0
                &&& extract_offsets(final(self).fight_logs@, draw_payload_fn()) == extract_offsets(
                    old(self).fight_logs@,
                    draw_payload_fn(),
                ) + card_offsets@
            },
            gameover_count(final(self).fight_logs@) == gameover_count(old(self).fight_logs@),
            log_extends(old(self).fight_logs@, final(self).fight_logs@),
            final(self).player == old(self).player,
            final(self).opponents == old(self).opponents,
            final(self).round == old(self).round,
            final(self).last_output == old(self).last_output,
            final(self).next_offset == old(self).next_offset,
    {
        self.player_deck.select_draw(card_offsets)?;
        let ghost mid_deck = self.player_deck;
        let mut k: usize = 0;
        while k < card_offsets.len()
            invariant
                k <= card_offsets@.len(),
                self.wf(),
                self.player_deck == mid_deck,
                gameover_count(self.fight_logs@) == gameover_count(old(self).fight_logs@),
                log_extends(old(self).fight_logs@, self.fight_logs@),
                self.player == old(self).player,
                self.opponents == old(self).opponents,
                self.round == old(self).round,
                self.last_output == old(self).last_output,
                self.next_offset == old(self).next_offset,
                extract_offsets(self.fight_logs@, draw_payload_fn()) == extract_offsets(
                    old(self).fight_logs@,
                    draw_payload_fn(),
                ) + card_offsets@.take(k as int),
            decreases card_offsets@.len() - k,
        {
            self.trigger_log(FightLog::Draw(card_offsets[k]))?;
            proof {
                assert(extract_offsets(self.fight_logs@, draw_payload_fn()) =~= extract_offsets(
                    old(self).fight_logs@,
                    draw_payload_fn(),
                ) + card_offsets@.take(k + 1));
            }
            k += 1;
        }
        proof {
            assert(card_offsets@.take(card_offsets@.len() as int) =~= card_offsets@);
        }
        Ok(())
    }

    /// Answers a discard prompt: moves the selected hand cards to the grave
    /// (`grave` true) or out of play, and logs one discard event per card,
    /// in order.
    pub fn player_select_discard(&mut self, discard_offsets: &Vec<usize>, grave: bool) -> (r:
        Result<(), Error>)
        requires
            old(self).wf(),
        ensures
            final(self).wf(),
            ({
                let in_hand = forall|k: int|
                    0 <= k < discard_offsets@.len() ==> offsets_of(
                        old(self).player_deck.hand_deck@,
                    ).contains(#[trigger] discard_offsets@[k]);
                &&& (r is Ok <==> discard_offsets@.len() > 0 && discard_offsets@.no_duplicates()
                    && in_hand)
                &&& (discard_offsets@.len() == 0 ==> r == Result::<(), Error>::Err(
                    Error::BattleUnexpectedDiscardCount,
                ))
                &&& (discard_offsets@.len() > 0 && !discard_offsets@.no_duplicates() ==> r
                    == Result::<(), Error>::Err(Error::BattleUnexpectedCardOffset))
                &&& (discard_offsets@.len() > 0 && discard_offsets@.no_duplicates() && !in_hand
                    ==> r == Result::<(), Error>::Err(Error::BattleCardOffsetNotFound))
            }),
            r is Err ==> *final(self) == *old(self),
            final(self).player_deck.card_multiset() == old(self).player_deck.card_multiset(),
            r is Ok ==> {
                &&& final(self).player_deck.hand_deck@.len() + discard_offsets@.len() == old(
                    self,
                ).player_deck.hand_deck@.len()
                &&& (grave ==> offsets_of(final(self).player_deck.grave_deck@) == offsets_of(
                    old(self).player_deck.grave_deck@,
                ) + discard_offsets@)
                &&& (!grave ==> offsets_of(final(self).player_deck.unavaliable_deck@)
                    == offsets_of(old(self).player_deck.unavaliable_deck@) + discard_offsets@)
                &&& extract_offsets(final(self).fight_logs@, discard_payload_fn())
                    == extract_offsets(old(self).fight_logs@, discard_payload_fn())
                    + discard_offsets@
            },
            gameover_count(final(self).fight_logs@) == gameover_count(old(self).fight_logs@),
            log_extends(old(self).fight_logs@, final(self).fight_logs@),
            final(self).player == old(self).player,
            final(self).opponents == old(self).opponents,
            final(self).round == old(self).round,
            final(self).last_output == old(self).last_output,
            final(self).next_offset == old(self).next_offset,
    {
        self.player_deck.select_discard(discard_offsets, grave)?;
        let ghost mid_deck = self.player_deck;
        let mut k: usize = 0;
        while k < discard_offsets.len()
            invariant
                k <= discard_offsets@.len(),
                self.wf(),
                self.player_deck == mid_deck,
                gameover_count(self.fight_logs@) == gameover_count(old(self).fight_logs@),
                log_extends(old(self).fight_logs@, self.fight_logs@),
                self.player == old(self).player,
                self.opponents == old(self).opponents,
                self.round == old(self).round,
                self.last_output == old(self).last_output,
                self.next_offset == old(self).next_offset,
                extract_offsets(self.fight_logs@, discard_payload_fn()) == extract_offsets(
                    old(self).fight_logs@,
                    discard_payload_fn(),
                ) + discard_offsets@.take(k as int),
            decreases discard_offsets@.len() - k,
        {
            self.trigger_log(FightLog::DiscardHandDeck(discard_offsets[k]))?;
            proof {
                assert(extract_offsets(self.fight_logs@, discard_payload_fn())
                    =~= extract_offsets(old(self).fight_logs@, discard_payload_fn())
                    + discard_offsets@.take(k + 1));
            }
            k += 1;
        }
        proof {
            assert(discard_offsets@.take(discard_offsets@.len() as int) =~= discard_offsets@);
        }
        Ok(())
    }

    /// Resolves the casting identity of an instruction: the card itself for
    /// a card view, the player for the player view, and the designated
    /// enemy (by index) for the enemy view.
    pub(super) fn collect_system_caster_offset(
        &self,
        view: FightView,
        target_offset: Option<usize>,
    ) -> (r: Result<usize, Error>)
        ensures
            r is Err ==> resolution_error(r->Err_0),
            view matches FightView::Card(offset) ==> r == Result::<usize, Error>::Ok(offset),
            view == FightView::Player ==> r == Result::<usize, Error>::Ok(self.player.offset),
            view == FightView::Enemy ==> r == match target_offset {
                Option::<usize>::None => Result::<usize, Error>::Err(Error::BattleSelectionError),
                Option::<usize>::Some(i) => if i < self.opponents@.len() {
                    Result::<usize, Error>::Ok(self.opponents@[i as int].offset)
                } else {
                    Result::<usize, Error>::Err(Error::BattleEnemyNotFound)
                },
            },
    {
        match view {
            FightView::Card(offset) => Ok(offset),
            FightView::Player => Ok(self.player.offset),
            FightView::Enemy => {
                let index = match target_offset {
                    Some(i) => i,
                    None => {
                        return Err(Error::BattleSelectionError);
                    },
                };
                if index >= self.opponents.len() {
                    return Err(Error::BattleEnemyNotFound);
                }
                Ok(self.opponents[index].offset)
            },
        }
    }

    /// Resolves the concrete target identities of an instruction from its
    /// view, the template's target rule, and the optionally supplied
    /// designation (an enemy index), following the resolution table: a card
    /// targets itself; the player's opponent rules resolve against the
    /// enemies (one designated, one uniformly random, or all); an enemy's
    /// opponent rules resolve to the player; the owner rule resolves to the
    /// caster's side; and the all-combatants rule gathers everyone.
    /// Unresolvable ambiguity is a selection error.
    pub(super) fn collect_system_target_offsets(
        &mut self,
        view: FightView,
        target: RequireTarget,
        target_offset: Option<usize>,
        controller: &mut SystemController,
    ) -> (r: Result<Vec<usize>, Error>)
        ensures
            *final(self) == *old(self),
            r is Err ==> resolution_error(r->Err_0),
            final(controller).rng.seed() == old(controller).rng.seed(),
            final(controller).rng.rotation() == old(controller).rng.rotation(),
            final(controller).system_pool == old(controller).system_pool,
            final(controller).card_pool == old(controller).card_pool,
            !(view == FightView::Player && target == RequireTarget::RandomOpponent) ==> final(controller).rng
                == old(controller).rng,
            forall|off: usize|
                view == FightView::Card(off) ==> (old(self).player_deck.referable(off) ==> (
                r matches Result::Ok(v) && v@ == seq![off])) && (!old(self).player_deck.referable(
                    off,
                ) ==> r == Result::<Vec<usize>, Error>::Err(Error::BattleInternalError)),
            (view == FightView::Player && target == RequireTarget::Opponent) || (view
                == FightView::Enemy && target == RequireTarget::Owner) ==> match target_offset {
                Option::<usize>::None => r == Result::<Vec<usize>, Error>::Err(
                    Error::BattleSelectionError,
                ),
                Option::<usize>::Some(i) => if i < old(self).opponents@.len() {
                    r matches Result::Ok(v) && v@ == seq![old(self).opponents@[i as int].offset]
                } else {
                    r == Result::<Vec<usize>, Error>::Err(Error::BattleEnemyNotFound)
                },
            },
            view == FightView::Player && target == RequireTarget::AllOpponents ==> (
            r matches Result::Ok(v) && v@ == old(self).opponents@.map_values(
                |e: EnemyContext| e.offset,
            )),
            (view == FightView::Player || view == FightView::Enemy) && target
                == RequireTarget::AllCharactors ==> (r matches Result::Ok(v) && v@ == old(
                self,
            ).opponents@.map_values(|e: EnemyContext| e.offset).push(old(self).player.offset)),
            view == FightView::Player && target == RequireTarget::RandomOpponent ==> {
                if old(self).opponents@.len() == 0 {
                    r == Result::<Vec<usize>, Error>::Err(Error::BattleEnemyNotFound)
                } else {
                    (r matches Result::Ok(v) && v@ == seq![
                        old(self).opponents@[
                            crate::rng::rng_stream32(
                                old(controller).rng.seed(),
                                old(controller).rng.position(),
                            ) as usize as int % old(self).opponents@.len() as int
                        ].offset,
                    ]) && final(controller).rng.position() == old(controller).rng.position() + 1
                }
            },
            view == FightView::Player && target == RequireTarget::Owner ==> (r matches Result::Ok(
                v,
            ) && v@ == seq![old(self).player.offset]),
            view == FightView::Enemy && (target == RequireTarget::Opponent || target
                == RequireTarget::RandomOpponent || target == RequireTarget::AllOpponents) ==> (
            r matches Result::Ok(v) && v@ == seq![old(self).player.offset]),
    {
        let mut targets: Vec<usize> = Vec::new();
        match view {
            FightView::Card(offset) => {
                if self.player_deck.refer_card(offset).is_none() {
                    return Err(Error::BattleInternalError);
                }
                targets.push(offset);
            },
            FightView::Player => {
                match target {
                    RequireTarget::Opponent => {
                        let index = match target_offset {
                            Some(i) => i,
                            None => {
                                return Err(Error::BattleSelectionError);
                            },
                        };
                        if index >= self.opponents.len() {
                            return Err(Error::BattleEnemyNotFound);
                        }
                        targets.push(self.opponents[index].offset);
                    },
                    RequireTarget::AllOpponents => {
                        let mut i: usize = 0;
                        while i < self.opponents.len()
                            invariant
                                i <= self.opponents@.len(),
                                *self == *old(self),
                                targets@ == self.opponents@.map_values(
                                    |e: EnemyContext| e.offset,
                                ).take(i as int),
                            decreases self.opponents@.len() - i,
                        {
                            targets.push(self.opponents[i].offset);
                            proof {
                                assert(targets@ =~= self.opponents@.map_values(
                                    |e: EnemyContext| e.offset,
                                ).take(i + 1));
                            }
                            i += 1;
                        }
                        proof {
                            assert(targets@ =~= self.opponents@.map_values(
                                |e: EnemyContext| e.offset,
                            ));
                        }
                    },
                    RequireTarget::AllCharactors => {
                        let mut i: usize = 0;
                        while i < self.opponents.len()
                            invariant
                                i <= self.opponents@.len(),
                                *self == *old(self),
                                targets@ == self.opponents@.map_values(
                                    |e: EnemyContext| e.offset,
                                ).take(i as int),
                            decreases self.opponents@.len() - i,
                        {
                            targets.push(self.opponents[i].offset);
                            proof {
                                assert(targets@ =~= self.opponents@.map_values(
                                    |e: EnemyContext| e.offset,
                                ).take(i + 1));
                            }
                            i += 1;
                        }
                        proof {
                            assert(targets@ =~= self.opponents@.map_values(
                                |e: EnemyContext| e.offset,
                            ));
                        }
                        targets.push(self.player.offset);
                    },
                    RequireTarget::RandomOpponent => {
                        if self.opponents.len() == 0 {
                            return Err(Error::BattleEnemyNotFound);
                        }
                        let index = controller.rng.pick_index(self.opponents.len());
                        targets.push(self.opponents[index].offset);
                    },
                    RequireTarget::Owner => {
                        targets.push(self.player.offset);
                    },
                }
            },
            FightView::Enemy => {
                match target {
                    RequireTarget::Owner => {
                        let index = match target_offset {
                            Some(i) => i,
                            None => {
                                return Err(Error::BattleSelectionError);
                            },
                        };
                        if index >= self.opponents.len() {
                            return Err(Error::BattleEnemyNotFound);
                        }
                        targets.push(self.opponents[index].offset);
                    },
                    RequireTarget::AllCharactors => {
                        let mut i: usize = 0;
                        while i < self.opponents.len()
                            invariant
                                i <= self.opponents@.len(),
                                *self == *old(self),
                                targets@ == self.opponents@.map_values(
                                    |e: EnemyContext| e.offset,
                                ).take(i as int),
                            decreases self.opponents@.len() - i,
                        {
                            targets.push(self.opponents[i].offset);
                            proof {
                                assert(targets@ =~= self.opponents@.map_values(
                                    |e: EnemyContext| e.offset,
                                ).take(i + 1));
                            }
                            i += 1;
                        }
                        proof {
                            assert(targets@ =~= self.opponents@.map_values(
                                |e: EnemyContext| e.offset,
                            ));
                        }
                        targets.push(self.player.offset);
                    },
                    RequireTarget::Opponent | RequireTarget::RandomOpponent
                        | RequireTarget::AllOpponents => {
                        targets.push(self.player.offset);
                    },
                }
            },
        }
        Ok(targets)
    }

    /// Whether every enemy is down, the winning condition.
    fn all_enemies_down(&self) -> (r: bool)
        ensures
            r == (forall|i: int|
                0 <= i < self.opponents@.len() ==> (#[trigger] self.opponents@[i]).stats.hp == 0),
    {
        let mut i: usize = 0;
        while i < self.opponents.len()
            invariant
                i <= self.opponents@.len(),
                forall|j: int|
                    0 <= j < i ==> (#[trigger] self.opponents@[j]).stats.hp == 0,
            decreases self.opponents@.len() - i,
        {
            if self.opponents[i].stats.hp != 0 {
                return false;
            }
            i += 1;
        }
        true
    }

    /// Drains the instruction queue: resolves each instruction's caster and
    /// targets, dispatches it, applies the returned commands, and watches
    /// for a terminal outcome. Once either side is down, the terminal event
    /// is logged exactly once and the remaining queue keeps draining under
    /// the terminal veto, so the log stays complete without further
    /// mutation; on a selection suspension the queue is left intact. On a
    /// confirmed game over the player's battle-only modifiers reset. A queue
    /// that outruns the instruction budget is broken content.
    pub(super) fn operate_pending_instructions(&mut self, controller: &mut SystemController) -> (r:
        Result<IterationOutput, Error>)
        requires
            old(self).wf(),
        ensures
            final(self).wf(),
            MapBattlePVE::deck_grows(old(self).player_deck, final(self).player_deck),
            final(controller).rng.seed() == old(controller).rng.seed(),
            final(controller).system_pool == old(controller).system_pool,
            final(controller).card_pool == old(controller).card_pool,
            r is Ok ==> r->Ok_0 == final(self).last_output,
            final(self).round == old(self).round,
            final(self).next_offset >= old(self).next_offset,
            final(self).opponents@.len() == old(self).opponents@.len(),
            log_extends(old(self).fight_logs@, final(self).fight_logs@),
            old(self).pending_instructions@.len() == 0 ==> r is Ok && r->Ok_0
                == IterationOutput::Continue,
            r is Err ==> resolution_error(r->Err_0),
            r is Ok ==> {
                let out = r->Ok_0;
                let terminal = out == IterationOutput::GameWin || out == IterationOutput::GameLose;
                &&& gameover_count(final(self).fight_logs@) == gameover_count(
                    old(self).fight_logs@,
                ) + (if terminal {
                    1nat
                } else {
                    0nat
                })
                &&& (out == IterationOutput::GameLose ==> final(self).player.stats.hp == 0)
                &&& (out == IterationOutput::GameWin ==> forall|i: int|
                    0 <= i < final(self).opponents@.len()
                        ==> (#[trigger] final(self).opponents@[i]).stats.hp == 0)
                &&& (terminal ==> MapBattlePVE::battle_modifiers_reset(final(self).player))
                &&& (!terminal ==> final(self).player.power == old(self).player.power && final(self).player.max_power == old(self).player.max_power)
                &&& (!(out matches IterationOutput::RequireCardSelect(_, _))
                    ==> final(self).pending_instructions@.len() == 0)
            },
    {
        let mut game_over = false;
        self.last_output = IterationOutput::Continue;
        let mut budget: usize = INSTRUCTION_BUDGET;
        loop
            invariant
                self.wf(),
                MapBattlePVE::deck_grows(old(self).player_deck, self.player_deck),
                controller.rng.seed() == old(controller).rng.seed(),
                controller.system_pool == old(controller).system_pool,
                controller.card_pool == old(controller).card_pool,
                self.round == old(self).round,
                self.next_offset >= old(self).next_offset,
                self.opponents@.len() == old(self).opponents@.len(),
                game_over == (self.last_output == IterationOutput::GameWin || self.last_output
                    == IterationOutput::GameLose),
                old(self).pending_instructions@.len() == 0 ==> self.pending_instructions@.len()
                    == 0 && self.last_output == IterationOutput::Continue,
                log_extends(old(self).fight_logs@, self.fight_logs@),
                gameover_count(self.fight_logs@) == gameover_count(old(self).fight_logs@) + (
                if game_over {
                    1nat
                } else {
                    0nat
                }),
                self.last_output == IterationOutput::GameLose ==> self.player.stats.hp == 0,
                self.last_output == IterationOutput::GameWin ==> forall|i: int|
                    0 <= i < self.opponents@.len() ==> (#[trigger] self.opponents@[i]).stats.hp
                        == 0,
                !game_over ==> self.player.power == old(self).player.power && self.player.max_power
                    == old(self).player.max_power,
            ensures
                self.wf(),
                MapBattlePVE::deck_grows(old(self).player_deck, self.player_deck),
                controller.rng.seed() == old(controller).rng.seed(),
                controller.system_pool == old(controller).system_pool,
                controller.card_pool == old(controller).card_pool,
                self.round == old(self).round,
                self.next_offset >= old(self).next_offset,
                self.opponents@.len() == old(self).opponents@.len(),
                game_over == (self.last_output == IterationOutput::GameWin || self.last_output
                    == IterationOutput::GameLose),
                old(self).pending_instructions@.len() == 0 ==> self.pending_instructions@.len()
                    == 0 && self.last_output == IterationOutput::Continue,
                log_extends(old(self).fight_logs@, self.fight_logs@),
                gameover_count(self.fight_logs@) == gameover_count(old(self).fight_logs@) + (
                if game_over {
                    1nat
                } else {
                    0nat
                }),
                self.last_output == IterationOutput::GameLose ==> self.player.stats.hp == 0,
                self.last_output == IterationOutput::GameWin ==> forall|i: int|
                    0 <= i < self.opponents@.len() ==> (#[trigger] self.opponents@[i]).stats.hp
                        == 0,
                !game_over ==> self.player.power == old(self).player.power && self.player.max_power
                    == old(self).player.max_power,
                self.pending_instructions@.len() == 0 || (self.last_output
                    matches IterationOutput::RequireCardSelect(_, _)),
            decreases budget,
        {
            let instruction = match self.pending_instructions.pop_front() {
                Some(instruction) => instruction,
                None => {
                    break ;
                },
            };
            if budget == 0 {
                return Err(Error::BattleInternalError);
            }
            budget = budget - 1;
            let Instruction { target, ctx, view, system_input } = instruction;
            let caster = self.collect_system_caster_offset(view, target)?;
            if !(matches!(view, FightView::Card(_))) && system_input.is_none() {
                self.trigger_log(FightLog::CallSystem(caster, ctx.system.id))?;
            }
            let target_type = ctx.system.target_type;
            let targets = self.collect_system_target_offsets(
                view,
                target_type,
                target,
                controller,
            )?;
            let input = if game_over {
                Some(SystemInput::Trigger(FightLog::GameOver))
            } else {
                system_input
            };
            let system_return = controller.system_call(
                ctx,
                caster,
                &targets,
                &mut self.player,
                &mut self.opponents,
                &mut self.player_deck,
                input,
            )?;
            if !game_over {
                if self.player.stats.hp == 0 {
                    self.last_output = IterationOutput::GameLose;
                    self.trigger_log(FightLog::GameOver)?;
                    game_over = true;
                } else if self.all_enemies_down() {
                    self.last_output = IterationOutput::GameWin;
                    self.trigger_log(FightLog::GameOver)?;
                    game_over = true;
                } else {
                    self.operate_system_return(system_return, view, target, controller)?;
                    if matches!(self.last_output, IterationOutput::RequireCardSelect(_, _)) {
                        break ;
                    }
                }
            }
        }
        if game_over {
            self.player.reset();
        }
        Ok(self.last_output)
    }

    /// Applies what a handler returned: commands always; a selection
    /// suspension records the prompt (refusing one cast under the player's
    /// own view, an authoring error); chained instances go ahead of the
    /// queue, preserving their relative order.
    fn operate_system_return(
        &mut self,
        system_return: SystemReturn,
        view: FightView,
        target: Option<usize>,
        controller: &mut SystemController,
    ) -> (r: Result<(), Error>)
        requires
            old(self).wf(),
            return_no_gameover(system_return),
        ensures
            gameover_count(final(self).fight_logs@) == gameover_count(old(self).fight_logs@),
            log_extends(old(self).fight_logs@, final(self).fight_logs@),
            final(self).player == old(self).player,
            r is Err ==> resolution_error(r->Err_0),
            final(self).last_output == old(self).last_output || (final(self).last_output
                matches IterationOutput::RequireCardSelect(_, _)),
            final(self).wf(),
            MapBattlePVE::deck_grows(old(self).player_deck, final(self).player_deck),
            final(controller).rng.seed() == old(controller).rng.seed(),
            final(controller).system_pool == old(controller).system_pool,
            final(controller).card_pool == old(controller).card_pool,
            final(self).round == old(self).round,
            final(self).next_offset >= old(self).next_offset,
            final(self).opponents@.len() == old(self).opponents@.len(),
    {
        let commands = match system_return {
            SystemReturn::Continue(commands) => commands,
            SystemReturn::RequireCardSelect(select_count, is_draw, commands) => {
                if matches!(view, FightView::Player) {
                    return Err(Error::ResourceSystemCardSelectionInEnemy);
                }
                self.last_output = IterationOutput::RequireCardSelect(select_count, is_draw);
                commands
            },
            SystemReturn::PendingSystems(systems, commands) => {
                let mut systems = systems;
                let mut remaining = systems.len();
                while remaining > 0
                    invariant
                        remaining == systems@.len(),
                        self.wf(),
                        self.fight_logs == old(self).fight_logs,
                        self.player == old(self).player,
                        self.last_output == old(self).last_output,
                        MapBattlePVE::deck_grows(old(self).player_deck, self.player_deck),
                        self.round == old(self).round,
                        self.next_offset >= old(self).next_offset,
                        self.opponents == old(self).opponents,
                    decreases remaining,
                {
                    let ctx = match systems.pop() {
                        Some(ctx) => ctx,
                        None => {
                            proof {
                                assert(false);
                            }
                            break ;
                        },
                    };
                    self.pending_instructions.push_front(
                        Instruction { target, ctx, view, system_input: None },
                    );
                    remaining = remaining - 1;
                }
                commands
            },
        };
        self.apply_commands(commands, controller)
    }

    /// Interprets the data-only commands of one resolution step.
    #[verifier::rlimit(100)]
    fn apply_commands(&mut self, commands: Vec<Command>, controller: &mut SystemController) -> (r:
        Result<(), Error>)
        requires
            old(self).wf(),
            cmds_no_gameover(commands@),
        ensures
            gameover_count(final(self).fight_logs@) == gameover_count(old(self).fight_logs@),
            log_extends(old(self).fight_logs@, final(self).fight_logs@),
            final(self).player == old(self).player,
            r is Err ==> resolution_error(r->Err_0),
            final(self).last_output == old(self).last_output,
            final(self).wf(),
            MapBattlePVE::deck_grows(old(self).player_deck, final(self).player_deck),
            final(controller).rng.seed() == old(controller).rng.seed(),
            final(controller).system_pool == old(controller).system_pool,
            final(controller).card_pool == old(controller).card_pool,
            final(self).round == old(self).round,
            final(self).next_offset >= old(self).next_offset,
            final(self).opponents@.len() == old(self).opponents@.len(),
    {
        let mut commands = commands;
        let total = commands.len();
        let mut done: usize = 0;
        while done < total
            invariant
                done <= total,
                commands@.len() + done == total,
                self.wf(),
                cmds_no_gameover(commands@),
                gameover_count(self.fight_logs@) == gameover_count(old(self).fight_logs@),
                log_extends(old(self).fight_logs@, self.fight_logs@),
                self.player == old(self).player,
                self.last_output == old(self).last_output,
                MapBattlePVE::deck_grows(old(self).player_deck, self.player_deck),
                controller.rng.seed() == old(controller).rng.seed(),
                controller.system_pool == old(controller).system_pool,
                controller.card_pool == old(controller).card_pool,
                self.round == old(self).round,
                self.next_offset >= old(self).next_offset,
                self.opponents@.len() == old(self).opponents@.len(),
            decreases total - done,
        {
            proof {
                assert(cmds_no_gameover(commands@.skip(1))) by {
                    assert(forall|j: int|
                        0 <= j < commands@.skip(1).len() ==> commands@.skip(1)[j]
                            == commands@[j + 1]);
                }
            }
            let command = commands.remove(0);
            match command {
                Command::AddLogs(logs) => {
                    let mut logs = logs;
                    proof {
                        crate::battle::traits::lemma_gameover_count_zero(logs@);
                    }
                    let count = logs.len();
                    let mut sent: usize = 0;
                    while sent < count
                        invariant
                            sent <= count,
                            logs@.len() + sent == count,
                            self.wf(),
                            forall|j: int|
                                0 <= j < logs@.len() ==> !((#[trigger] logs@[j]) is GameOver),
                            gameover_count(self.fight_logs@) == gameover_count(
                                old(self).fight_logs@,
                            ),
                            log_extends(old(self).fight_logs@, self.fight_logs@),
                            self.player == old(self).player,
                            self.last_output == old(self).last_output,
                            MapBattlePVE::deck_grows(old(self).player_deck, self.player_deck),
                            controller.rng.seed() == old(controller).rng.seed(),
                            controller.system_pool == old(controller).system_pool,
                            controller.card_pool == old(controller).card_pool,
                            self.round == old(self).round,
                            self.next_offset >= old(self).next_offset,
                            self.opponents@.len() == old(self).opponents@.len(),
                        decreases count - sent,
                    {
                        let entry = logs.remove(0);
                        self.trigger_log(entry)?;
                        sent += 1;
                    }
                },
                Command::DrawCards(count) => {
                    self.player_draw(count, controller)?;
                },
                Command::DiscardHandCards(count, to_grave) => {
                    self.player_random_discard(count, to_grave, controller)?;
                },
                Command::SetSelectionPool(source) => {
                    match source {
                        DeckSource::FromDeck => {
                            self.player_deck.set_selection_from_deck();
                        },
                        DeckSource::FromGrave => {
                            self.player_deck.set_selection_from_grave();
                        },
                        DeckSource::Materialized(cards) => {
                            if cards.len() > usize::MAX - self.next_offset {
                                return Err(Error::BattleInternalError);
                            }
                            let ghost before = *self;
                            self.next_offset = self.player_deck.materialize_selection(
                                cards,
                                self.next_offset,
                            );
                            proof {
                                assert forall|o: usize|
                                    #[trigger] self.player_deck.card_multiset().count(o)
                                        > 0 implies self.opponents@.len() < o
                                    < self.next_offset by {
                                    if before.player_deck.card_multiset().count(o) > 0 {
                                    } else {
                                        assert(before.next_offset <= o < self.next_offset);
                                    }
                                }
                            }
                        },
                    }
                },
                Command::SetRandomHandCost(pick, cost) => {
                    if self.player_deck.hand_deck.len() > 0 {
                        let index = pick as usize % self.player_deck.hand_deck.len();
                        let offset = self.player_deck.hand_deck[index].card.offset;
                        self.player_deck.set_hand_cost(index, cost);
                        self.trigger_log(FightLog::SystemPowerCostChange(offset, cost))?;
                    }
                },
            }
            done += 1;
        }
        Ok(())
    }
}

} // verus!
