use vstd::prelude::*;

verus! {

use vstd::multiset::Multiset;

use crate::contexts::{
    add_mounting_system_internal, clamp_weak, clamped_weak, remove_mounting_system_internal,
    update_mounting_system_internal, CardContext, CombatStats, ContextType, CtxAdaptor,
    SystemContext,
};
use crate::errors::Error;
use crate::rng::SporeRng;
use crate::wrappings::{card_identical, Card, Item, ItemClass, Potion, Warrior};

/// The battle-scoped identities of the cards of one pile, in pile order.
pub open spec fn offsets_of(s: Seq<CardContext>) -> Seq<usize> {
    s.map_values(|c: CardContext| c.card.offset)
}

/// The player's deck state during a battle. Every card the player owns sits
/// in exactly one pile: the main deck, the hand, the grave, the pile of cards
/// discarded out of play for the round, or the pile of cards materialized on
/// the fly that do not belong to the permanent deck until selected. The
/// signature card stands apart and never moves between piles.
#[derive(Debug)]
pub struct WarriorDeckContext {
    pub special_use_count: u8,
    pub special_max_count: u8,
    pub special_card: CardContext,
    pub hand_deck: Vec<CardContext>,
    pub deck: Vec<CardContext>,
    pub grave_deck: Vec<CardContext>,
    pub unavaliable_deck: Vec<CardContext>,
    pub selection_pool: Vec<usize>,
    pub unbelonging_deck: Vec<CardContext>,
}

impl WarriorDeckContext {
    /// The identities of all cards in the five piles, in pile order.
    pub open spec fn all_offsets(&self) -> Seq<usize> {
        offsets_of(self.hand_deck@) + offsets_of(self.deck@) + offsets_of(self.grave_deck@)
            + offsets_of(self.unavaliable_deck@) + offsets_of(self.unbelonging_deck@)
    }

    /// The identities of every card of the deck state, the signature card
    /// included.
    pub open spec fn full_offsets(&self) -> Seq<usize> {
        seq![self.special_card.card.offset] + self.all_offsets()
    }

    /// The card identities as a multiset: the partition currency. Deck
    /// operations preserve it exactly, except those that materialize new
    /// cards, which only add.
    pub open spec fn card_multiset(&self) -> Multiset<usize> {
        self.full_offsets().to_multiset()
    }

    /// Well-formedness: no card identity occurs twice across the piles and
    /// the signature card. Together with multiset preservation this is the
    /// partition invariant: every owned card sits in exactly one pile.
    pub open spec fn wf(&self) -> bool {
        forall|o: usize| #[trigger] self.card_multiset().count(o) <= 1
    }

    /// Builds the deck state of a warrior: the permanent deck wrapped for
    /// battle, everything else empty.
    pub fn new(warrior: &Warrior) -> (r: Self)
        ensures
            r.special_use_count == 0,
            r.special_max_count == 1,
            card_identical(r.special_card.card, warrior.charactor_card),
            r.special_card.power_cost == warrior.charactor_card.power_cost,
            r.special_card.battle_max_power_cost == warrior.charactor_card.power_cost,
            r.special_card.game_max_power_cost == warrior.charactor_card.power_cost,
            r.special_card.mounting_systems@.len() == 0,
            offsets_of(r.deck@) == offsets_of_cards(warrior.deck_status@),
            r.deck@.len() == warrior.deck_status@.len(),
            forall|j: int|
                0 <= j < warrior.deck_status@.len() ==> card_identical(
                    (#[trigger] r.deck@[j]).card,
                    warrior.deck_status@[j],
                ) && r.deck@[j].power_cost == warrior.deck_status@[j].power_cost,
            r.hand_deck@.len() == 0,
            r.grave_deck@.len() == 0,
            r.unavaliable_deck@.len() == 0,
            r.selection_pool@.len() == 0,
            r.unbelonging_deck@.len() == 0,
    {
        let mut deck: Vec<CardContext> = Vec::new();
        let mut i: usize = 0;
        while i < warrior.deck_status.len()
            invariant
                i <= warrior.deck_status.len(),
                deck@.len() == i,
                forall|j: int|
                    0 <= j < i ==> card_identical((#[trigger] deck@[j]).card, warrior.deck_status@[j])
                        && deck@[j].power_cost == warrior.deck_status@[j].power_cost,
                forall|j: int|
                    0 <= j < i ==> #[trigger] deck@[j].card.offset
                        == warrior.deck_status@[j].offset,
            decreases warrior.deck_status.len() - i,
        {
            deck.push(CardContext::new(warrior.deck_status[i].clone()));
            i += 1;
        }
        proof {
            assert(offsets_of(deck@) =~= offsets_of_cards(warrior.deck_status@));
        }
        WarriorDeckContext {
            special_use_count: 0,
            special_max_count: 1,
            special_card: CardContext::new(warrior.charactor_card.clone()),
            deck,
            hand_deck: Vec::new(),
            grave_deck: Vec::new(),
            unavaliable_deck: Vec::new(),
            selection_pool: Vec::new(),
            unbelonging_deck: Vec::new(),
        }
    }

    /// Appends extra cards (a potion's) to the main deck.
    pub fn add_deck(&mut self, potion_deck: Vec<Card>)
        ensures
            final(self).deck@.len() == old(self).deck@.len() + potion_deck@.len(),
            final(self).hand_deck == old(self).hand_deck,
            final(self).grave_deck == old(self).grave_deck,
            final(self).special_card == old(self).special_card,
    {
        let mut i: usize = 0;
        while i < potion_deck.len()
            invariant
                i <= potion_deck.len(),
                self.deck@.len() == old(self).deck@.len() + i,
                self.hand_deck == old(self).hand_deck,
                self.grave_deck == old(self).grave_deck,
                self.special_card == old(self).special_card,
                self.unavaliable_deck == old(self).unavaliable_deck,
                self.unbelonging_deck == old(self).unbelonging_deck,
                self.selection_pool == old(self).selection_pool,
                self.special_use_count == old(self).special_use_count,
                self.special_max_count == old(self).special_max_count,
            decreases potion_deck.len() - i,
        {
            self.deck.push(CardContext::new(potion_deck[i].clone()));
            i += 1;
        }
    }

    /// Looks a card up by identity among the signature card, the hand, the
    /// main deck and the grave (the piles an effect can address).
    pub fn refer_card(&self, offset: usize) -> (r: Option<&CardContext>)
        ensures
            r is Some ==> r->0.card.offset == offset,
            r is None <==> !self.referable(offset),
    {
        if self.special_card.card.offset == offset {
            return Some(&self.special_card);
        }
        let mut i: usize = 0;
        while i < self.hand_deck.len()
            invariant
                i <= self.hand_deck.len(),
                forall|j: int| 0 <= j < i ==> offsets_of(self.hand_deck@)[j] != offset,
            decreases self.hand_deck.len() - i,
        {
            if self.hand_deck[i].card.offset == offset {
                proof {
                    assert(offsets_of(self.hand_deck@)[i as int] == offset);
                }
                return Some(&self.hand_deck[i]);
            }
            i += 1;
        }
        let mut i: usize = 0;
        while i < self.deck.len()
            invariant
                i <= self.deck.len(),
                forall|j: int| 0 <= j < i ==> offsets_of(self.deck@)[j] != offset,
            decreases self.deck.len() - i,
        {
            if self.deck[i].card.offset == offset {
                proof {
                    assert(offsets_of(self.deck@)[i as int] == offset);
                }
                return Some(&self.deck[i]);
            }
            i += 1;
        }
        let mut i: usize = 0;
        while i < self.grave_deck.len()
            invariant
                i <= self.grave_deck.len(),
                forall|j: int| 0 <= j < i ==> offsets_of(self.grave_deck@)[j] != offset,
            decreases self.grave_deck.len() - i,
        {
            if self.grave_deck[i].card.offset == offset {
                proof {
                    assert(offsets_of(self.grave_deck@)[i as int] == offset);
                }
                return Some(&self.grave_deck[i]);
            }
            i += 1;
        }
        proof {
            assert(!self.referable(offset));
        }
        None
    }

    /// Whether a card with this identity is addressable by an effect.
    pub open spec fn referable(&self, offset: usize) -> bool {
        self.special_card.card.offset == offset || offsets_of(self.hand_deck@).contains(offset)
            || offsets_of(self.deck@).contains(offset) || offsets_of(self.grave_deck@).contains(
            offset,
        )
    }


    /// Draws one uniformly chosen card from the main deck into the hand,
    /// refilling the deck from the grave once when it is empty. An empty deck
    /// with an empty grave is an internal invariant violation, never a loop.
    /// Reports the drawn card's identity and whether the grave was recovered.
    pub fn draw_random(&mut self, rng: &mut SporeRng) -> (r: Result<(usize, bool), Error>)
        ensures
            r is Err <==> old(self).deck@.len() == 0 && old(self).grave_deck@.len() == 0,
            r is Err ==> r == Result::<(usize, bool), Error>::Err(Error::BattleInternalError)
                && *final(self) == *old(self) && *final(rng) == *old(rng),
            r is Ok ==> {
                &&& r->Ok_0.1 == (old(self).deck@.len() == 0)
                &&& final(self).card_multiset() == old(self).card_multiset()
                &&& offsets_of(final(self).hand_deck@) == offsets_of(old(self).hand_deck@).push(
                    r->Ok_0.0,
                )
                &&& (r->Ok_0.1 ==> final(self).grave_deck@.len() == 0)
                &&& (!r->Ok_0.1 ==> final(self).grave_deck == old(self).grave_deck)
                &&& final(self).deck@.len() + 1 == old(self).deck@.len() + (if r->Ok_0.1 {
                    old(self).grave_deck@.len()
                } else {
                    0
                })
            },
            final(self).special_card == old(self).special_card,
            final(self).unavaliable_deck == old(self).unavaliable_deck,
            final(self).unbelonging_deck == old(self).unbelonging_deck,
            final(self).selection_pool == old(self).selection_pool,
            final(self).special_use_count == old(self).special_use_count,
            final(self).special_max_count == old(self).special_max_count,
            final(rng).seed() == old(rng).seed(),
            final(rng).rotation() == old(rng).rotation(),
    {
        let ghost pre = *self;
        let refilled = self.deck.len() == 0;
        if refilled {
            if self.grave_deck.len() == 0 {
                return Err(Error::BattleInternalError);
            }
            self.deck.append(&mut self.grave_deck);
        }
        proof {
            broadcast use vstd::seq_lib::group_to_multiset_ensures;
            broadcast use vstd::seq_lib::lemma_multiset_commutative;

            if refilled {
                assert(self.deck@ =~= pre.grave_deck@);
                assert(self.card_multiset() =~= pre.card_multiset());
            }
        }
        let ghost mid = *self;
        let i = rng.pick_index(self.deck.len());
        let card = self.deck.remove(i);
        let offset = card.card.offset;
        self.hand_deck.push(card);
        proof {
            broadcast use vstd::seq_lib::group_to_multiset_ensures;
            broadcast use vstd::seq_lib::lemma_multiset_commutative;

            assert(offsets_of(self.hand_deck@) =~= offsets_of(mid.hand_deck@).push(offset));
            assert(offsets_of(self.deck@) =~= offsets_of(mid.deck@).remove(i as int));
            assert(offsets_of(mid.deck@)[i as int] == offset);
            assert(self.card_multiset() =~= mid.card_multiset());
        }
        Ok((offset, refilled))
    }

    /// Whether a card with this identity can be drawn by a selection: it
    /// sits in the main deck, the grave or the materialized pile.
    pub open spec fn can_draw(&self, o: usize) -> bool {
        offsets_of(self.deck@).contains(o) || offsets_of(self.grave_deck@).contains(o)
            || offsets_of(self.unbelonging_deck@).contains(o)
    }

    /// Moves the selected cards into the hand, in the given order. Every
    /// selected identity must come from the open selection pool, once each;
    /// a pool entry with no card behind it is an internal invariant
    /// violation. A failed call leaves the deck state unchanged.
    pub fn select_draw(&mut self, offsets: &Vec<usize>) -> (r: Result<(), Error>)
        ensures
            ({
                let pool_ok = (forall|k: int|
                    0 <= k < offsets@.len() ==> old(self).selection_pool@.contains(
                        #[trigger] offsets@[k],
                    )) && offsets@.no_duplicates();
                let present_ok = forall|k: int|
                    0 <= k < offsets@.len() ==> old(self).can_draw(#[trigger] offsets@[k]);
                &&& (r is Ok <==> pool_ok && present_ok)
                &&& (!pool_ok ==> r == Result::<(), Error>::Err(Error::BattleUnexpectedCardOffset))
                &&& (pool_ok && !present_ok ==> r == Result::<(), Error>::Err(
                    Error::BattleCardOffsetNotFound,
                ))
            }),
            r is Err ==> *final(self) == *old(self),
            r is Ok ==> {
                &&& final(self).card_multiset() == old(self).card_multiset()
                &&& offsets_of(final(self).hand_deck@) == offsets_of(old(self).hand_deck@)
                    + offsets@
                &&& final(self).selection_pool@.len() == 0
                &&& final(self).special_card == old(self).special_card
                &&& final(self).unavaliable_deck == old(self).unavaliable_deck
            },
    {
        let ghost pre = *self;
        let n = offsets.len();
        let mut k: usize = 0;
        while k < n
            invariant
                k <= n,
                n == offsets@.len(),
                *self == pre,
                forall|j: int| 0 <= j < k ==> pre.selection_pool@.contains(#[trigger] offsets@[j]),
                forall|j1: int, j2: int|
                    0 <= j1 < j2 < k ==> offsets@[j1] != offsets@[j2],
            decreases n - k,
        {
            if !offsets_contain(&self.selection_pool, offsets[k]) {
                proof {
                    assert(!pre.selection_pool@.contains(offsets@[k as int]));
                }
                return Err(Error::BattleUnexpectedCardOffset);
            }
            let mut j: usize = 0;
            while j < k
                invariant
                    j <= k < n,
                    n == offsets@.len(),
                    *self == pre,
                    forall|j2: int| 0 <= j2 < j ==> offsets@[j2] != offsets@[k as int],
                decreases k - j,
            {
                if offsets[j] == offsets[k] {
                    proof {
                        assert(offsets@[j as int] == offsets@[k as int]);
                        assert(!offsets@.no_duplicates());
                    }
                    return Err(Error::BattleUnexpectedCardOffset);
                }
                j += 1;
            }
            k += 1;
        }
        proof {
            assert forall|i1: int, i2: int|
                0 <= i1 < offsets@.len() && 0 <= i2 < offsets@.len() && i1 != i2 implies offsets@[i1]
                != offsets@[i2] by {
                if i1 < i2 {
                } else {
                }
            }
            assert(offsets@.no_duplicates());
        }
        let mut k: usize = 0;
        while k < n
            invariant
                k <= n,
                n == offsets@.len(),
                *self == pre,
                pre == *old(self),
                offsets@.no_duplicates(),
                forall|j: int| 0 <= j < n ==> pre.selection_pool@.contains(#[trigger] offsets@[j]),
                forall|j: int| 0 <= j < k ==> pre.can_draw(#[trigger] offsets@[j]),
            decreases n - k,
        {
            let off = offsets[k];
            let in_deck = pile_find(&self.deck, off).is_some();
            let in_grave = pile_find(&self.grave_deck, off).is_some();
            let in_unbelonging = pile_find(&self.unbelonging_deck, off).is_some();
            if !in_deck && !in_grave && !in_unbelonging {
                proof {
                    assert(!old(self).can_draw(offsets@[k as int]));
                }
                return Err(Error::BattleCardOffsetNotFound);
            }
            k += 1;
        }
        let mut k: usize = 0;
        while k < n
            invariant
                k <= n,
                n == offsets@.len(),
                pre == *old(self),
                offsets@.no_duplicates(),
                forall|j: int| 0 <= j < n ==> pre.selection_pool@.contains(#[trigger] offsets@[j]),
                forall|j: int| 0 <= j < n ==> pre.can_draw(#[trigger] offsets@[j]),
                self.card_multiset() == pre.card_multiset(),
                offsets_of(self.hand_deck@) == offsets_of(pre.hand_deck@) + offsets@.subrange(
                    0,
                    k as int,
                ),
                self.special_card == pre.special_card,
                self.unavaliable_deck == pre.unavaliable_deck,
                self.selection_pool == pre.selection_pool,
                self.special_use_count == pre.special_use_count,
                self.special_max_count == pre.special_max_count,
                forall|j: int| k <= j < n ==> self.can_draw(#[trigger] offsets@[j]),
            decreases n - k,
        {
            let ghost before = *self;
            let off = offsets[k];
            if let Some(i) = pile_find(&self.deck, off) {
                let card = self.deck.remove(i);
                self.hand_deck.push(card);
                proof {
                    broadcast use vstd::seq_lib::group_to_multiset_ensures;
                    broadcast use vstd::seq_lib::lemma_multiset_commutative;

                    assert(offsets_of(self.deck@) =~= offsets_of(before.deck@).remove(i as int));
                    assert(offsets_of(self.hand_deck@) =~= offsets_of(before.hand_deck@).push(off));
                    assert(self.card_multiset() =~= before.card_multiset());
                    assert forall|j: int| k + 1 <= j < n implies self.can_draw(
                        #[trigger] offsets@[j],
                    ) by {
                        lemma_remove_keeps_others(offsets_of(before.deck@), i as int, offsets@[j]);
                    }
                }
            } else if let Some(i) = pile_find(&self.grave_deck, off) {
                let card = self.grave_deck.remove(i);
                self.hand_deck.push(card);
                proof {
                    broadcast use vstd::seq_lib::group_to_multiset_ensures;
                    broadcast use vstd::seq_lib::lemma_multiset_commutative;

                    assert(offsets_of(self.grave_deck@) =~= offsets_of(before.grave_deck@).remove(
                        i as int,
                    ));
                    assert(offsets_of(self.hand_deck@) =~= offsets_of(before.hand_deck@).push(off));
                    assert(self.card_multiset() =~= before.card_multiset());
                    assert forall|j: int| k + 1 <= j < n implies self.can_draw(
                        #[trigger] offsets@[j],
                    ) by {
                        lemma_remove_keeps_others(
                            offsets_of(before.grave_deck@),
                            i as int,
                            offsets@[j],
                        );
                    }
                }
            } else if let Some(i) = pile_find(&self.unbelonging_deck, off) {
                let card = self.unbelonging_deck.remove(i);
                self.hand_deck.push(card);
                proof {
                    broadcast use vstd::seq_lib::group_to_multiset_ensures;
                    broadcast use vstd::seq_lib::lemma_multiset_commutative;

                    assert(offsets_of(self.unbelonging_deck@) =~= offsets_of(
                        before.unbelonging_deck@,
                    ).remove(i as int));
                    assert(offsets_of(self.hand_deck@) =~= offsets_of(before.hand_deck@).push(off));
                    assert(self.card_multiset() =~= before.card_multiset());
                    assert forall|j: int| k + 1 <= j < n implies self.can_draw(
                        #[trigger] offsets@[j],
                    ) by {
                        lemma_remove_keeps_others(
                            offsets_of(before.unbelonging_deck@),
                            i as int,
                            offsets@[j],
                        );
                    }
                }
            } else {
                proof {
                    assert(false);
                }
            }
            proof {
                assert(offsets_of(self.hand_deck@) =~= offsets_of(pre.hand_deck@)
                    + offsets@.subrange(0, k + 1));
            }
            k += 1;
        }
        proof {
            assert(offsets@.subrange(0, n as int) =~= offsets@);
        }
        self.selection_pool = Vec::new();
        Ok(())
    }


    /// Moves the selected cards out of the hand, in the given order, into the
    /// grave (`grave` true) or the out-of-play pile. Every selected identity
    /// must sit in the hand, once each; an empty selection is refused. A
    /// failed call leaves the deck state unchanged.
    pub fn select_discard(&mut self, offsets: &Vec<usize>, grave: bool) -> (r: Result<(), Error>)
        ensures
            ({
                let in_hand = forall|k: int|
                    0 <= k < offsets@.len() ==> offsets_of(old(self).hand_deck@).contains(
                        #[trigger] offsets@[k],
                    );
                &&& (r is Ok <==> offsets@.len() > 0 && offsets@.no_duplicates() && in_hand)
                &&& (offsets@.len() == 0 ==> r == Result::<(), Error>::Err(
                    Error::BattleUnexpectedDiscardCount,
                ))
                &&& (offsets@.len() > 0 && !offsets@.no_duplicates() ==> r == Result::<(),
                Error>::Err(Error::BattleUnexpectedCardOffset))
                &&& (offsets@.len() > 0 && offsets@.no_duplicates() && !in_hand ==> r
                    == Result::<(), Error>::Err(Error::BattleCardOffsetNotFound))
            }),
            r is Err ==> *final(self) == *old(self),
            r is Ok ==> {
                &&& final(self).card_multiset() == old(self).card_multiset()
                &&& final(self).hand_deck@.len() + offsets@.len() == old(self).hand_deck@.len()
                &&& (grave ==> offsets_of(final(self).grave_deck@) == offsets_of(
                    old(self).grave_deck@,
                ) + offsets@ && final(self).unavaliable_deck == old(self).unavaliable_deck)
                &&& (!grave ==> offsets_of(final(self).unavaliable_deck@) == offsets_of(
                    old(self).unavaliable_deck@,
                ) + offsets@ && final(self).grave_deck == old(self).grave_deck)
                &&& final(self).deck == old(self).deck
                &&& final(self).special_card == old(self).special_card
                &&& final(self).unbelonging_deck == old(self).unbelonging_deck
                &&& final(self).selection_pool == old(self).selection_pool
            },
    {
        let ghost pre = *self;
        let n = offsets.len();
        if n == 0 {
            return Err(Error::BattleUnexpectedDiscardCount);
        }
        let mut k: usize = 0;
        while k < n
            invariant
                k <= n,
                n == offsets@.len(),
                *self == pre,
                forall|j1: int, j2: int|
                    0 <= j1 < j2 < k ==> offsets@[j1] != offsets@[j2],
            decreases n - k,
        {
            let mut j: usize = 0;
            while j < k
                invariant
                    j <= k < n,
                    n == offsets@.len(),
                    *self == pre,
                    forall|j2: int| 0 <= j2 < j ==> offsets@[j2] != offsets@[k as int],
                decreases k - j,
            {
                if offsets[j] == offsets[k] {
                    proof {
                        assert(offsets@[j as int] == offsets@[k as int]);
                        assert(!offsets@.no_duplicates());
                    }
                    return Err(Error::BattleUnexpectedCardOffset);
                }
                j += 1;
            }
            k += 1;
        }
        proof {
            assert forall|i1: int, i2: int|
                0 <= i1 < offsets@.len() && 0 <= i2 < offsets@.len() && i1 != i2 implies offsets@[i1]
                != offsets@[i2] by {
                if i1 < i2 {
                } else {
                }
            }
            assert(offsets@.no_duplicates());
        }
        let mut k: usize = 0;
        while k < n
            invariant
                k <= n,
                n == offsets@.len(),
                *self == pre,
                pre == *old(self),
                offsets@.no_duplicates(),
                forall|j: int|
                    0 <= j < k ==> offsets_of(pre.hand_deck@).contains(#[trigger] offsets@[j]),
            decreases n - k,
        {
            if pile_find(&self.hand_deck, offsets[k]).is_none() {
                proof {
                    assert(!offsets_of(pre.hand_deck@).contains(offsets@[k as int]));
                }
                return Err(Error::BattleCardOffsetNotFound);
            }
            k += 1;
        }
        let mut k: usize = 0;
        while k < n
            invariant
                k <= n,
                n == offsets@.len(),
                pre == *old(self),
                offsets@.no_duplicates(),
                self.card_multiset() == pre.card_multiset(),
                self.hand_deck@.len() + k == pre.hand_deck@.len(),
                grave ==> offsets_of(self.grave_deck@) == offsets_of(pre.grave_deck@)
                    + offsets@.subrange(0, k as int) && self.unavaliable_deck
                    == pre.unavaliable_deck,
                !grave ==> offsets_of(self.unavaliable_deck@) == offsets_of(pre.unavaliable_deck@)
                    + offsets@.subrange(0, k as int) && self.grave_deck == pre.grave_deck,
                self.deck == pre.deck,
                self.special_card == pre.special_card,
                self.unbelonging_deck == pre.unbelonging_deck,
                self.selection_pool == pre.selection_pool,
                self.special_use_count == pre.special_use_count,
                self.special_max_count == pre.special_max_count,
                forall|j: int|
                    k <= j < n ==> offsets_of(self.hand_deck@).contains(#[trigger] offsets@[j]),
            decreases n - k,
        {
            let ghost before = *self;
            let off = offsets[k];
            if let Some(i) = pile_find(&self.hand_deck, off) {
                let card = self.hand_deck.remove(i);
                if grave {
                    self.grave_deck.push(card);
                } else {
                    self.unavaliable_deck.push(card);
                }
                proof {
                    broadcast use vstd::seq_lib::group_to_multiset_ensures;
                    broadcast use vstd::seq_lib::lemma_multiset_commutative;

                    assert(offsets_of(self.hand_deck@) =~= offsets_of(before.hand_deck@).remove(
                        i as int,
                    ));
                    if grave {
                        assert(offsets_of(self.grave_deck@) =~= offsets_of(before.grave_deck@).push(
                            off,
                        ));
                        assert(offsets_of(self.grave_deck@) =~= offsets_of(pre.grave_deck@)
                            + offsets@.subrange(0, k + 1));
                    } else {
                        assert(offsets_of(self.unavaliable_deck@) =~= offsets_of(
                            before.unavaliable_deck@,
                        ).push(off));
                        assert(offsets_of(self.unavaliable_deck@) =~= offsets_of(
                            pre.unavaliable_deck@,
                        ) + offsets@.subrange(0, k + 1));
                    }
                    assert(self.card_multiset() =~= before.card_multiset());
                    assert forall|j: int| k + 1 <= j < n implies offsets_of(
                        self.hand_deck@,
                    ).contains(#[trigger] offsets@[j]) by {
                        lemma_remove_keeps_others(
                            offsets_of(before.hand_deck@),
                            i as int,
                            offsets@[j],
                        );
                    }
                }
            } else {
                proof {
                    assert(false);
                }
            }
            k += 1;
        }
        proof {
            if grave {
                assert(offsets_of(self.grave_deck@) =~= offsets_of(pre.grave_deck@) + offsets@);
            } else {
                assert(offsets_of(self.unavaliable_deck@) =~= offsets_of(pre.unavaliable_deck@)
                    + offsets@);
            }
        }
        Ok(())
    }

    /// Discards up to `count` uniformly chosen hand cards into the grave
    /// (`grave` true) or the out-of-play pile, stopping early on an empty
    /// hand. Reports the discarded identities in order.
    pub fn random_discard(&mut self, count: u8, grave: bool, rng: &mut SporeRng) -> (r: Vec<usize>)
        ensures
            r@.len() == vstd::math::min(count as int, old(self).hand_deck@.len() as int),
            final(self).card_multiset() == old(self).card_multiset(),
            final(self).hand_deck@.len() + r@.len() == old(self).hand_deck@.len(),
            grave ==> offsets_of(final(self).grave_deck@) == offsets_of(old(self).grave_deck@) + r@
                && final(self).unavaliable_deck == old(self).unavaliable_deck,
            !grave ==> offsets_of(final(self).unavaliable_deck@) == offsets_of(
                old(self).unavaliable_deck@,
            ) + r@ && final(self).grave_deck == old(self).grave_deck,
            final(self).deck == old(self).deck,
            final(self).special_card == old(self).special_card,
            final(self).unbelonging_deck == old(self).unbelonging_deck,
            final(self).selection_pool == old(self).selection_pool,
            final(rng).seed() == old(rng).seed(),
            final(rng).rotation() == old(rng).rotation(),
    {
        let ghost pre = *self;
        let mut discarded: Vec<usize> = Vec::new();
        let mut made: usize = 0;
        let total = count as usize;
        while made < total && self.hand_deck.len() > 0
            invariant
                made <= total,
                discarded@.len() == made,
                made < total ==> self.hand_deck@.len() + made == pre.hand_deck@.len() || (made
                    <= pre.hand_deck@.len() && self.hand_deck@.len() == 0),
                self.hand_deck@.len() + made == pre.hand_deck@.len() || (self.hand_deck@.len() == 0
                    && made <= pre.hand_deck@.len()),
                self.hand_deck@.len() + made >= pre.hand_deck@.len(),
                self.card_multiset() == pre.card_multiset(),
                grave ==> offsets_of(self.grave_deck@) == offsets_of(pre.grave_deck@) + discarded@
                    && self.unavaliable_deck == pre.unavaliable_deck,
                !grave ==> offsets_of(self.unavaliable_deck@) == offsets_of(pre.unavaliable_deck@)
                    + discarded@ && self.grave_deck == pre.grave_deck,
                self.deck == pre.deck,
                self.special_card == pre.special_card,
                self.unbelonging_deck == pre.unbelonging_deck,
                self.selection_pool == pre.selection_pool,
                self.special_use_count == pre.special_use_count,
                self.special_max_count == pre.special_max_count,
                pre == *old(self),
                rng.seed() == old(rng).seed(),
                rng.rotation() == old(rng).rotation(),
            decreases total - made,
        {
            let ghost before = *self;
            let i = rng.pick_index(self.hand_deck.len());
            let card = self.hand_deck.remove(i);
            let off = card.card.offset;
            if grave {
                self.grave_deck.push(card);
            } else {
                self.unavaliable_deck.push(card);
            }
            discarded.push(off);
            made += 1;
            proof {
                broadcast use vstd::seq_lib::group_to_multiset_ensures;
                broadcast use vstd::seq_lib::lemma_multiset_commutative;

                assert(offsets_of(self.hand_deck@) =~= offsets_of(before.hand_deck@).remove(
                    i as int,
                ));
                if grave {
                    assert(offsets_of(self.grave_deck@) =~= offsets_of(before.grave_deck@).push(
                        off,
                    ));
                    assert(offsets_of(self.grave_deck@) =~= offsets_of(pre.grave_deck@)
                        + discarded@);
                } else {
                    assert(offsets_of(self.unavaliable_deck@) =~= offsets_of(
                        before.unavaliable_deck@,
                    ).push(off));
                    assert(offsets_of(self.unavaliable_deck@) =~= offsets_of(pre.unavaliable_deck@)
                        + discarded@);
                }
                assert(self.card_multiset() =~= before.card_multiset());
            }
        }
        discarded
    }

    /// Opens a selection over the whole main deck.
    pub fn set_selection_from_deck(&mut self)
        ensures
            final(self).selection_pool@ == offsets_of(old(self).deck@),
            *final(self) == (WarriorDeckContext {
                selection_pool: final(self).selection_pool,
                ..*old(self)
            }),
    {
        let mut pool: Vec<usize> = Vec::new();
        let mut i: usize = 0;
        while i < self.deck.len()
            invariant
                i <= self.deck.len(),
                self == old(self),
                pool@ == offsets_of(self.deck@).subrange(0, i as int),
            decreases self.deck.len() - i,
        {
            pool.push(self.deck[i].card.offset);
            i += 1;
        }
        proof {
            assert(pool@ =~= offsets_of(self.deck@));
        }
        self.selection_pool = pool;
    }

    /// Opens a selection over the whole grave.
    pub fn set_selection_from_grave(&mut self)
        ensures
            final(self).selection_pool@ == offsets_of(old(self).grave_deck@),
            *final(self) == (WarriorDeckContext {
                selection_pool: final(self).selection_pool,
                ..*old(self)
            }),
    {
        let mut pool: Vec<usize> = Vec::new();
        let mut i: usize = 0;
        while i < self.grave_deck.len()
            invariant
                i <= self.grave_deck.len(),
                self == old(self),
                pool@ == offsets_of(self.grave_deck@).subrange(0, i as int),
            decreases self.grave_deck.len() - i,
        {
            pool.push(self.grave_deck[i].card.offset);
            i += 1;
        }
        proof {
            assert(pool@ =~= offsets_of(self.grave_deck@));
        }
        self.selection_pool = pool;
    }

    /// Materializes freshly minted cards into the unbelonging pile and opens
    /// a selection over exactly them. The only deck operation that grows the
    /// card multiset.
    pub fn add_unbelonging_selection(&mut self, cards: Vec<CardContext>)
        ensures
            final(self).unbelonging_deck@ == old(self).unbelonging_deck@ + cards@,
            final(self).selection_pool@ == offsets_of(cards@),
            final(self).card_multiset() == old(self).card_multiset().add(
                offsets_of(cards@).to_multiset(),
            ),
            final(self).hand_deck == old(self).hand_deck,
            final(self).deck == old(self).deck,
            final(self).grave_deck == old(self).grave_deck,
            final(self).unavaliable_deck == old(self).unavaliable_deck,
            final(self).special_card == old(self).special_card,
            final(self).special_use_count == old(self).special_use_count,
            final(self).special_max_count == old(self).special_max_count,
    {
        let ghost pre = *self;
        let mut pool: Vec<usize> = Vec::new();
        let mut i: usize = 0;
        while i < cards.len()
            invariant
                i <= cards.len(),
                self == old(self),
                pool@ == offsets_of(cards@).subrange(0, i as int),
            decreases cards.len() - i,
        {
            pool.push(cards[i].card.offset);
            i += 1;
        }
        proof {
            assert(pool@ =~= offsets_of(cards@));
        }
        self.selection_pool = pool;
        let mut incoming = cards;
        self.unbelonging_deck.append(&mut incoming);
        proof {
            broadcast use vstd::seq_lib::group_to_multiset_ensures;
            broadcast use vstd::seq_lib::lemma_multiset_commutative;

            assert(offsets_of(self.unbelonging_deck@) =~= offsets_of(pre.unbelonging_deck@)
                + offsets_of(cards@));
            assert(self.card_multiset() =~= pre.card_multiset().add(
                offsets_of(cards@).to_multiset(),
            ));
        }
    }

    /// Overwrites the cost of the hand card at `index`.
    pub fn set_hand_cost(&mut self, index: usize, cost: u8)
        requires
            index < old(self).hand_deck@.len(),
        ensures
            final(self).hand_deck@ == old(self).hand_deck@.update(
                index as int,
                (CardContext { power_cost: cost, ..old(self).hand_deck@[index as int] }),
            ),
            *final(self) == (WarriorDeckContext { hand_deck: final(self).hand_deck, ..*old(self) }),
            final(self).card_multiset() == old(self).card_multiset(),
    {
        let mut card = self.hand_deck.remove(index);
        card.power_cost = cost;
        self.hand_deck.insert(index, card);
        proof {
            broadcast use vstd::seq_lib::group_to_multiset_ensures;
            broadcast use vstd::seq_lib::lemma_multiset_commutative;

            assert(self.hand_deck@ =~= old(self).hand_deck@.update(
                index as int,
                (CardContext { power_cost: cost, ..old(self).hand_deck@[index as int] }),
            ));
            assert(offsets_of(self.hand_deck@) =~= offsets_of(old(self).hand_deck@));
            assert(self.card_multiset() =~= old(self).card_multiset());
        }
    }


    /// Lowers the cost of the card with the given identity (the signature
    /// card, or the first match in hand, deck or grave order), clamping at
    /// zero. Reports the new cost, or nothing when no card answers to the
    /// identity.
    pub fn card_cost_down(&mut self, offset: usize, value: u8) -> (r: Option<u8>)
        ensures
            r is None <==> !old(self).referable(offset),
            r is None ==> *final(self) == *old(self),
            old(self).special_card.card.offset == offset ==> *final(self) == (WarriorDeckContext {
                special_card: (CardContext {
                    power_cost: sat_sub_u8(old(self).special_card.power_cost, value),
                    ..old(self).special_card
                }),
                ..*old(self)
            }) && r == Some(sat_sub_u8(old(self).special_card.power_cost, value)),
            forall|i: int|
                old(self).special_card.card.offset != offset && 0 <= i < old(
                    self,
                ).hand_deck@.len() && (#[trigger] old(self).hand_deck@[i]).card.offset == offset
                    && (forall|j: int|
                    0 <= j < i ==> old(self).hand_deck@[j].card.offset != offset) ==> *final(self)
                    == (WarriorDeckContext {
                    hand_deck: final(self).hand_deck,
                    ..*old(self)
                }) && final(self).hand_deck@ == old(self).hand_deck@.update(
                    i,
                    (CardContext {
                        power_cost: sat_sub_u8(old(self).hand_deck@[i].power_cost, value),
                        ..old(self).hand_deck@[i]
                    }),
                ) && r == Some(sat_sub_u8(old(self).hand_deck@[i].power_cost, value)),
            forall|i: int|
                old(self).special_card.card.offset != offset && !offsets_of(
                    old(self).hand_deck@,
                ).contains(offset) && 0 <= i < old(self).deck@.len() && (#[trigger] old(
                    self,
                ).deck@[i]).card.offset == offset && (forall|j: int|
                    0 <= j < i ==> old(self).deck@[j].card.offset != offset) ==> *final(self)
                    == (WarriorDeckContext { deck: final(self).deck, ..*old(self) }) && final(self).deck@
                    == old(self).deck@.update(
                    i,
                    (CardContext {
                        power_cost: sat_sub_u8(old(self).deck@[i].power_cost, value),
                        ..old(self).deck@[i]
                    }),
                ) && r == Some(sat_sub_u8(old(self).deck@[i].power_cost, value)),
            forall|i: int|
                old(self).special_card.card.offset != offset && !offsets_of(
                    old(self).hand_deck@,
                ).contains(offset) && !offsets_of(old(self).deck@).contains(offset) && 0 <= i < old(
                    self,
                ).grave_deck@.len() && (#[trigger] old(self).grave_deck@[i]).card.offset == offset
                    && (forall|j: int|
                    0 <= j < i ==> old(self).grave_deck@[j].card.offset != offset) ==> *final(self)
                    == (WarriorDeckContext {
                    grave_deck: final(self).grave_deck,
                    ..*old(self)
                }) && final(self).grave_deck@ == old(self).grave_deck@.update(
                    i,
                    (CardContext {
                        power_cost: sat_sub_u8(old(self).grave_deck@[i].power_cost, value),
                        ..old(self).grave_deck@[i]
                    }),
                ) && r == Some(sat_sub_u8(old(self).grave_deck@[i].power_cost, value)),
            r is Some ==> {
                &&& final(self).card_multiset() == old(self).card_multiset()
                &&& offsets_of(final(self).hand_deck@) == offsets_of(old(self).hand_deck@)
                &&& offsets_of(final(self).deck@) == offsets_of(old(self).deck@)
                &&& offsets_of(final(self).grave_deck@) == offsets_of(old(self).grave_deck@)
                &&& final(self).special_card.card == old(self).special_card.card
                &&& final(self).unavaliable_deck == old(self).unavaliable_deck
                &&& final(self).unbelonging_deck == old(self).unbelonging_deck
                &&& final(self).selection_pool == old(self).selection_pool
            },
    {
        proof {
            lemma_pile_offset_index(self.hand_deck@);
            lemma_pile_offset_index(self.deck@);
            lemma_pile_offset_index(self.grave_deck@);
        }
        if self.special_card.card.offset == offset {
            self.special_card.power_cost = sub_clamped(self.special_card.power_cost, value);
            return Some(self.special_card.power_cost);
        }
        if let Some(i) = pile_find(&self.hand_deck, offset) {
            let mut card = self.hand_deck.remove(i);
            card.power_cost = sub_clamped(card.power_cost, value);
            let cost = card.power_cost;
            self.hand_deck.insert(i, card);
            proof {
                lemma_cost_update_keeps_offsets(old(self).hand_deck@, self.hand_deck@, i as int);
                assert(self.card_multiset() =~= old(self).card_multiset());
                assert(self.hand_deck@ =~= old(self).hand_deck@.update(
                    i as int,
                    (CardContext {
                        power_cost: sat_sub_u8(old(self).hand_deck@[i as int].power_cost, value),
                        ..old(self).hand_deck@[i as int]
                    }),
                ));
            }
            return Some(cost);
        }
        if let Some(i) = pile_find(&self.deck, offset) {
            let mut card = self.deck.remove(i);
            card.power_cost = sub_clamped(card.power_cost, value);
            let cost = card.power_cost;
            self.deck.insert(i, card);
            proof {
                lemma_cost_update_keeps_offsets(old(self).deck@, self.deck@, i as int);
                assert(self.card_multiset() =~= old(self).card_multiset());
                assert(self.deck@ =~= old(self).deck@.update(
                    i as int,
                    (CardContext {
                        power_cost: sat_sub_u8(old(self).deck@[i as int].power_cost, value),
                        ..old(self).deck@[i as int]
                    }),
                ));
            }
            return Some(cost);
        }
        if let Some(i) = pile_find(&self.grave_deck, offset) {
            let mut card = self.grave_deck.remove(i);
            card.power_cost = sub_clamped(card.power_cost, value);
            let cost = card.power_cost;
            self.grave_deck.insert(i, card);
            proof {
                lemma_cost_update_keeps_offsets(old(self).grave_deck@, self.grave_deck@, i as int);
                assert(self.card_multiset() =~= old(self).card_multiset());
                assert(self.grave_deck@ =~= old(self).grave_deck@.update(
                    i as int,
                    (CardContext {
                        power_cost: sat_sub_u8(old(self).grave_deck@[i as int].power_cost, value),
                        ..old(self).grave_deck@[i as int]
                    }),
                ));
            }
            return Some(cost);
        }
        None
    }

    /// Mounts, refreshes or unmounts an instance on the card with the given
    /// identity (see [`MountOp`]); reports the bookkeeping result, or nothing
    /// when no card answers to the identity.
    pub fn card_mounting(&mut self, offset: usize, ctx: &SystemContext, op: MountOp) -> (r: Option<
        bool,
    >)
        ensures
            r is None <==> !old(self).referable(offset),
            r is None ==> *final(self) == *old(self),
            final(self).card_multiset() == old(self).card_multiset(),
            offsets_of(final(self).hand_deck@) == offsets_of(old(self).hand_deck@),
            offsets_of(final(self).deck@) == offsets_of(old(self).deck@),
            offsets_of(final(self).grave_deck@) == offsets_of(old(self).grave_deck@),
            final(self).special_card.card == old(self).special_card.card,
            final(self).hand_deck@.len() == old(self).hand_deck@.len(),
            final(self).deck@.len() == old(self).deck@.len(),
            final(self).grave_deck@.len() == old(self).grave_deck@.len(),
            final(self).unavaliable_deck == old(self).unavaliable_deck,
            final(self).unbelonging_deck == old(self).unbelonging_deck,
            final(self).selection_pool == old(self).selection_pool,
            final(self).special_use_count == old(self).special_use_count,
            final(self).special_max_count == old(self).special_max_count,
    {
        if self.special_card.card.offset == offset {
            let applied = apply_mount(&mut self.special_card, ctx, op);
            return Some(applied);
        }
        if let Some(i) = pile_find(&self.hand_deck, offset) {
            let mut card = self.hand_deck.remove(i);
            let applied = apply_mount(&mut card, ctx, op);
            self.hand_deck.insert(i, card);
            proof {
                lemma_cost_update_keeps_offsets(old(self).hand_deck@, self.hand_deck@, i as int);
                assert(self.card_multiset() =~= old(self).card_multiset());
            }
            return Some(applied);
        }
        if let Some(i) = pile_find(&self.deck, offset) {
            let mut card = self.deck.remove(i);
            let applied = apply_mount(&mut card, ctx, op);
            self.deck.insert(i, card);
            proof {
                lemma_cost_update_keeps_offsets(old(self).deck@, self.deck@, i as int);
                assert(self.card_multiset() =~= old(self).card_multiset());
            }
            return Some(applied);
        }
        if let Some(i) = pile_find(&self.grave_deck, offset) {
            let mut card = self.grave_deck.remove(i);
            let applied = apply_mount(&mut card, ctx, op);
            self.grave_deck.insert(i, card);
            proof {
                lemma_cost_update_keeps_offsets(old(self).grave_deck@, self.grave_deck@, i as int);
                assert(self.card_multiset() =~= old(self).card_multiset());
            }
            return Some(applied);
        }
        None
    }


    /// Moves the whole hand into the grave when the enemy phase begins.
    pub fn discard_all_hand(&mut self)
        ensures
            final(self).hand_deck@.len() == 0,
            final(self).grave_deck@.len() == old(self).grave_deck@.len() + old(
                self,
            ).hand_deck@.len(),
            final(self).card_multiset() == old(self).card_multiset(),
            final(self).deck == old(self).deck,
            final(self).special_card == old(self).special_card,
            final(self).unavaliable_deck == old(self).unavaliable_deck,
            final(self).unbelonging_deck == old(self).unbelonging_deck,
            final(self).selection_pool == old(self).selection_pool,
            final(self).special_use_count == old(self).special_use_count,
            final(self).special_max_count == old(self).special_max_count,
    {
        self.grave_deck.append(&mut self.hand_deck);
        proof {
            broadcast use vstd::seq_lib::group_to_multiset_ensures;
            broadcast use vstd::seq_lib::lemma_multiset_commutative;

            assert(offsets_of(self.grave_deck@) =~= offsets_of(old(self).grave_deck@) + offsets_of(
                old(self).hand_deck@,
            ));
            assert(offsets_of(self.hand_deck@) =~= Seq::<usize>::empty());
            assert(self.card_multiset() =~= old(self).card_multiset());
        }
    }

    /// Hands every card a fresh battle-scoped identity: consecutive numbers
    /// from `start`, in signature-hand-deck-grave-out-of-play-unbelonging
    /// order. Establishes the partition invariant by construction. Reports
    /// the next unassigned number.
    pub fn renumber(&mut self, start: usize) -> (next: usize)
        requires
            start + old(self).full_offsets().len() <= usize::MAX,
        ensures
            next == start + old(self).full_offsets().len(),
            final(self).full_offsets() == Seq::<usize>::new(
                old(self).full_offsets().len(),
                |k: int| (start + k) as usize,
            ),
            final(self).wf(),
            forall|o: usize| final(self).card_multiset().count(o) > 0 ==> start <= o < next,
            final(self).hand_deck@.len() == old(self).hand_deck@.len(),
            final(self).deck@.len() == old(self).deck@.len(),
            final(self).grave_deck@.len() == old(self).grave_deck@.len(),
            final(self).unavaliable_deck@.len() == old(self).unavaliable_deck@.len(),
            final(self).unbelonging_deck@.len() == old(self).unbelonging_deck@.len(),
            final(self).selection_pool == old(self).selection_pool,
            final(self).special_use_count == old(self).special_use_count,
            final(self).special_max_count == old(self).special_max_count,
            final(self).special_card == (CardContext {
                card: (Card { offset: start, ..old(self).special_card.card }),
                ..old(self).special_card
            }),
            forall|j: int|
                0 <= j < old(self).hand_deck@.len() ==> (#[trigger] final(self).hand_deck@[j]).card
                    == (Card {
                    offset: final(self).hand_deck@[j].card.offset,
                    ..old(self).hand_deck@[j].card
                }) && final(self).hand_deck@[j].power_cost == old(self).hand_deck@[j].power_cost,
            forall|j: int|
                0 <= j < old(self).deck@.len() ==> (#[trigger] final(self).deck@[j]).card == (Card {
                    offset: final(self).deck@[j].card.offset,
                    ..old(self).deck@[j].card
                }) && final(self).deck@[j].power_cost == old(self).deck@[j].power_cost,
            forall|j: int|
                0 <= j < old(self).grave_deck@.len() ==> (#[trigger] final(self).grave_deck@[j]).card == (Card {
                    offset: final(self).grave_deck@[j].card.offset,
                    ..old(self).grave_deck@[j].card
                }) && final(self).grave_deck@[j].power_cost == old(self).grave_deck@[j].power_cost,
    {
        let ghost total = old(self).full_offsets().len();
        self.special_card.card.offset = start;
        let mut cursor = start + 1;
        cursor = renumber_pile(&mut self.hand_deck, cursor);
        cursor = renumber_pile(&mut self.deck, cursor);
        cursor = renumber_pile(&mut self.grave_deck, cursor);
        cursor = renumber_pile(&mut self.unavaliable_deck, cursor);
        cursor = renumber_pile(&mut self.unbelonging_deck, cursor);
        proof {
            let target = Seq::<usize>::new(total, |k: int| (start + k) as usize);
            assert(self.full_offsets() =~= target);
            broadcast use vstd::seq_lib::group_to_multiset_ensures;

            assert(target.no_duplicates());
            target.lemma_multiset_has_no_duplicates();
            assert forall|o: usize| self.card_multiset().count(o) > 0 implies start <= o < start
                + total by {
                assert(target.contains(o));
                let k = choose|k: int| 0 <= k < target.len() && target[k] == o;
            }
        }
        cursor
    }


    /// Materializes freshly minted cards under fresh consecutive identities
    /// from `start` and opens a selection over exactly them. Keeps the
    /// partition invariant: the new identities are new to the deck state.
    pub fn materialize_selection(&mut self, cards: Vec<CardContext>, start: usize) -> (next: usize)
        requires
            start + cards@.len() <= usize::MAX,
            old(self).wf(),
            forall|o: usize| #[trigger] old(self).card_multiset().count(o) > 0 ==> o < start,
        ensures
            next == start + cards@.len(),
            final(self).wf(),
            forall|o: usize|
                #[trigger] final(self).card_multiset().count(o) > 0 ==> old(
                    self,
                ).card_multiset().count(o) > 0 || start <= o < next,
            forall|o: usize|
                #[trigger] final(self).card_multiset().count(o) >= old(self).card_multiset().count(
                    o,
                ),
            final(self).hand_deck == old(self).hand_deck,
            final(self).deck == old(self).deck,
            final(self).grave_deck == old(self).grave_deck,
            final(self).unavaliable_deck == old(self).unavaliable_deck,
            final(self).special_card == old(self).special_card,
            final(self).special_use_count == old(self).special_use_count,
            final(self).special_max_count == old(self).special_max_count,
            final(self).unbelonging_deck@.len() == old(self).unbelonging_deck@.len()
                + cards@.len(),
    {
        let mut incoming = cards;
        let next = renumber_pile(&mut incoming, start);
        let ghost fresh = offsets_of(incoming@);
        proof {
            assert(fresh =~= Seq::<usize>::new(incoming@.len(), |k: int| (start + k) as usize));
            assert(fresh.no_duplicates());
            fresh.lemma_multiset_has_no_duplicates();
            broadcast use vstd::seq_lib::group_to_multiset_ensures;

        }
        self.add_unbelonging_selection(incoming);
        proof {
            assert forall|o: usize| #[trigger] self.card_multiset().count(o) > 0 implies old(
                self,
            ).card_multiset().count(o) > 0 || start <= o < next by {
                if fresh.to_multiset().count(o) > 0 {
                    broadcast use vstd::seq_lib::group_to_multiset_ensures;

                    assert(fresh.contains(o));
                    let k = choose|k: int| 0 <= k < fresh.len() && fresh[k] == o;
                }
            }
            assert forall|o: usize| #[trigger] self.card_multiset().count(o) <= 1 by {
                if fresh.to_multiset().count(o) > 0 {
                    broadcast use vstd::seq_lib::group_to_multiset_ensures;

                    assert(fresh.contains(o));
                    let k = choose|k: int| 0 <= k < fresh.len() && fresh[k] == o;
                    assert(o >= start);
                    assert(old(self).card_multiset().count(o) == 0);
                }
            }
        }
        next
    }


    /// Collects each addressable card's identity with a copy of its mounted
    /// systems, signature card first, then hand, deck and grave.
    pub fn collect_mountings(&self) -> (r: Vec<(usize, Vec<SystemContext>)>)
        ensures
            r@.len() == 1 + self.hand_deck@.len() + self.deck@.len() + self.grave_deck@.len(),
    {
        let mut out: Vec<(usize, Vec<SystemContext>)> = Vec::new();
        out.push(
            (self.special_card.card.offset, clone_contexts(&self.special_card.mounting_systems)),
        );
        let mut i: usize = 0;
        while i < self.hand_deck.len()
            invariant
                i <= self.hand_deck@.len(),
                out@.len() == 1 + i,
            decreases self.hand_deck@.len() - i,
        {
            let card = &self.hand_deck[i];
            out.push((card.card.offset, clone_contexts(&card.mounting_systems)));
            i += 1;
        }
        let mut i: usize = 0;
        while i < self.deck.len()
            invariant
                i <= self.deck@.len(),
                out@.len() == 1 + self.hand_deck@.len() + i,
            decreases self.deck@.len() - i,
        {
            let card = &self.deck[i];
            out.push((card.card.offset, clone_contexts(&card.mounting_systems)));
            i += 1;
        }
        let mut i: usize = 0;
        while i < self.grave_deck.len()
            invariant
                i <= self.grave_deck@.len(),
                out@.len() == 1 + self.hand_deck@.len() + self.deck@.len() + i,
            decreases self.grave_deck@.len() - i,
        {
            let card = &self.grave_deck[i];
            out.push((card.card.offset, clone_contexts(&card.mounting_systems)));
            i += 1;
        }
        out
    }

    /// Collects each addressable card's identity with a copy of its printed
    /// system pool, signature card first, then hand, deck and grave.
    pub fn collect_systems(&self) -> (r: Vec<(usize, Vec<crate::wrappings::System>)>)
        ensures
            r@.len() == 1 + self.hand_deck@.len() + self.deck@.len() + self.grave_deck@.len(),
    {
        let mut out: Vec<(usize, Vec<crate::wrappings::System>)> = Vec::new();
        out.push(
            (
                self.special_card.card.offset,
                crate::wrappings::clone_systems(&self.special_card.card.system_pool),
            ),
        );
        let mut i: usize = 0;
        while i < self.hand_deck.len()
            invariant
                i <= self.hand_deck@.len(),
                out@.len() == 1 + i,
            decreases self.hand_deck@.len() - i,
        {
            let card = &self.hand_deck[i];
            out.push((card.card.offset, crate::wrappings::clone_systems(&card.card.system_pool)));
            i += 1;
        }
        let mut i: usize = 0;
        while i < self.deck.len()
            invariant
                i <= self.deck@.len(),
                out@.len() == 1 + self.hand_deck@.len() + i,
            decreases self.deck@.len() - i,
        {
            let card = &self.deck[i];
            out.push((card.card.offset, crate::wrappings::clone_systems(&card.card.system_pool)));
            i += 1;
        }
        let mut i: usize = 0;
        while i < self.grave_deck.len()
            invariant
                i <= self.grave_deck@.len(),
                out@.len() == 1 + self.hand_deck@.len() + self.deck@.len() + i,
            decreases self.grave_deck@.len() - i,
        {
            let card = &self.grave_deck[i];
            out.push((card.card.offset, crate::wrappings::clone_systems(&card.card.system_pool)));
            i += 1;
        }
        out
    }

    /// Collects every addressable card identity, signature card first, then
    /// hand, deck and grave.
    pub fn collect_cards(&self) -> (r: Vec<usize>)
        ensures
            r@ == seq![self.special_card.card.offset] + offsets_of(self.hand_deck@) + offsets_of(
                self.deck@,
            ) + offsets_of(self.grave_deck@),
    {
        let mut out: Vec<usize> = Vec::new();
        out.push(self.special_card.card.offset);
        let mut i: usize = 0;
        while i < self.hand_deck.len()
            invariant
                i <= self.hand_deck@.len(),
                out@ == seq![self.special_card.card.offset] + offsets_of(self.hand_deck@).subrange(
                    0,
                    i as int,
                ),
            decreases self.hand_deck@.len() - i,
        {
            out.push(self.hand_deck[i].card.offset);
            proof {
                assert(out@ =~= seq![self.special_card.card.offset] + offsets_of(
                    self.hand_deck@,
                ).subrange(0, i + 1));
            }
            i += 1;
        }
        proof {
            assert(offsets_of(self.hand_deck@).subrange(
                0,
                self.hand_deck@.len() as int,
            ) =~= offsets_of(self.hand_deck@));
        }
        let mut i: usize = 0;
        while i < self.deck.len()
            invariant
                i <= self.deck@.len(),
                out@ == seq![self.special_card.card.offset] + offsets_of(self.hand_deck@)
                    + offsets_of(self.deck@).subrange(0, i as int),
            decreases self.deck@.len() - i,
        {
            out.push(self.deck[i].card.offset);
            proof {
                assert(out@ =~= seq![self.special_card.card.offset] + offsets_of(self.hand_deck@)
                    + offsets_of(self.deck@).subrange(0, i + 1));
            }
            i += 1;
        }
        proof {
            assert(offsets_of(self.deck@).subrange(0, self.deck@.len() as int) =~= offsets_of(
                self.deck@,
            ));
        }
        let mut i: usize = 0;
        while i < self.grave_deck.len()
            invariant
                i <= self.grave_deck@.len(),
                out@ == seq![self.special_card.card.offset] + offsets_of(self.hand_deck@)
                    + offsets_of(self.deck@) + offsets_of(self.grave_deck@).subrange(0, i as int),
            decreases self.grave_deck@.len() - i,
        {
            out.push(self.grave_deck[i].card.offset);
            proof {
                assert(out@ =~= seq![self.special_card.card.offset] + offsets_of(self.hand_deck@)
                    + offsets_of(self.deck@) + offsets_of(self.grave_deck@).subrange(0, i + 1));
            }
            i += 1;
        }
        proof {
            assert(offsets_of(self.grave_deck@).subrange(
                0,
                self.grave_deck@.len() as int,
            ) =~= offsets_of(self.grave_deck@));
        }
        out
    }

    /// Restores round-scoped state: the signature card may be used again and
    /// card costs return to their per-battle maxima.
    pub fn round_reset(&mut self)
        ensures
            final(self).special_use_count == 0,
            final(self).card_multiset() == old(self).card_multiset(),
            final(self).hand_deck@.len() == old(self).hand_deck@.len(),
            final(self).deck@.len() == old(self).deck@.len(),
            final(self).grave_deck@.len() == old(self).grave_deck@.len(),
            final(self).selection_pool == old(self).selection_pool,
            forall|j: int|
                0 <= j < old(self).deck@.len() ==> #[trigger] final(self).deck@[j] == (CardContext {
                    power_cost: old(self).deck@[j].battle_max_power_cost,
                    ..old(self).deck@[j]
                }),
            forall|j: int|
                0 <= j < old(self).hand_deck@.len() ==> #[trigger] final(self).hand_deck@[j]
                    == (CardContext {
                    power_cost: old(self).hand_deck@[j].battle_max_power_cost,
                    ..old(self).hand_deck@[j]
                }),
            forall|j: int|
                0 <= j < old(self).grave_deck@.len() ==> #[trigger] final(self).grave_deck@[j]
                    == (CardContext {
                    power_cost: old(self).grave_deck@[j].battle_max_power_cost,
                    ..old(self).grave_deck@[j]
                }),
            final(self).special_card == old(self).special_card,
            final(self).unavaliable_deck == old(self).unavaliable_deck,
            final(self).unbelonging_deck == old(self).unbelonging_deck,
            final(self).special_max_count == old(self).special_max_count,
    {
        self.special_use_count = 0;
        reset_costs(&mut self.deck, false);
        reset_costs(&mut self.hand_deck, false);
        reset_costs(&mut self.grave_deck, false);
        proof {
            assert(final(self).full_offsets() =~= old(self).full_offsets());
        }
    }

    /// Restores battle-end state: every pile returns to the main deck, costs
    /// return to their permanent maxima, transient piles are dropped.
    pub fn reset(&mut self)
        ensures
            final(self).hand_deck@.len() == 0,
            final(self).grave_deck@.len() == 0,
            final(self).selection_pool@.len() == 0,
            final(self).unbelonging_deck@.len() == 0,
            final(self).deck@.len() == old(self).deck@.len() + old(self).hand_deck@.len() + old(
                self,
            ).grave_deck@.len(),
            offsets_of(final(self).deck@) == offsets_of(old(self).deck@) + offsets_of(
                old(self).hand_deck@,
            ) + offsets_of(old(self).grave_deck@),
            ({
                let gathered = old(self).deck@ + old(self).hand_deck@ + old(self).grave_deck@;
                forall|j: int|
                    0 <= j < gathered.len() ==> #[trigger] final(self).deck@[j] == (CardContext {
                        power_cost: gathered[j].game_max_power_cost,
                        ..gathered[j]
                    })
            }),
            final(self).special_card == old(self).special_card,
            final(self).unavaliable_deck == old(self).unavaliable_deck,
            final(self).special_use_count == old(self).special_use_count,
            final(self).special_max_count == old(self).special_max_count,
    {
        self.deck.append(&mut self.hand_deck);
        self.deck.append(&mut self.grave_deck);
        proof {
            assert(offsets_of(self.deck@) =~= offsets_of(old(self).deck@) + offsets_of(
                old(self).hand_deck@,
            ) + offsets_of(old(self).grave_deck@));
        }
        reset_costs(&mut self.deck, true);
        self.selection_pool = Vec::new();
        self.unbelonging_deck = Vec::new();
    }
}



/// Removing an element that is not `x` does not change whether `x` occurs.
proof fn lemma_remove_keeps_others(s: Seq<usize>, i: int, x: usize)
    requires
        0 <= i < s.len(),
        s[i] != x,
    ensures
        s.remove(i).contains(x) == s.contains(x),
{
    broadcast use vstd::seq_lib::group_to_multiset_ensures;

    assert(s.remove(i).to_multiset() =~= s.to_multiset().remove(s[i]));
    assert(s.remove(i).to_multiset().count(x) == s.to_multiset().count(x));
}


/// Subtraction on a `u8` value, clamped at zero.
pub open spec fn sat_sub_u8(a: u8, b: u8) -> u8 {
    if a < b {
        0u8
    } else {
        (a - b) as u8
    }
}

/// Subtracts with a floor of zero.
fn sub_clamped(a: u8, b: u8) -> (r: u8)
    ensures
        r == sat_sub_u8(a, b),
{
    if a < b {
        0
    } else {
        a - b
    }
}

/// One of the three mounted-system bookkeeping operations.
#[derive(Clone, Copy, Debug, PartialEq, Eq, Structural)]
pub enum MountOp {
    Add,
    Update,
    Remove,
}

/// Applies a bookkeeping operation to one card.
fn apply_mount(card: &mut CardContext, ctx: &SystemContext, op: MountOp) -> (r: bool)
    ensures
        final(card).card == old(card).card,
        final(card).power_cost == old(card).power_cost,
        final(card).battle_max_power_cost == old(card).battle_max_power_cost,
        final(card).game_max_power_cost == old(card).game_max_power_cost,
{
    match op {
        MountOp::Add => card.add_mounting_system(ctx),
        MountOp::Update => card.update_mounting_system(ctx),
        MountOp::Remove => card.remove_mounting_system(ctx),
    }
}

/// Updating a card in place (same identity, other fields free) keeps the
/// pile's identity sequence.
proof fn lemma_cost_update_keeps_offsets(a: Seq<CardContext>, b: Seq<CardContext>, i: int)
    requires
        0 <= i < a.len(),
        b.len() == a.len(),
        forall|j: int| 0 <= j < a.len() && j != i ==> b[j] == a[j],
        b[i].card.offset == a[i].card.offset,
    ensures
        offsets_of(b) == offsets_of(a),
{
    assert(offsets_of(b) =~= offsets_of(a));
}


/// Hands the cards of one pile consecutive identities from `start`; reports
/// the next unassigned number.
fn renumber_pile(pile: &mut Vec<CardContext>, start: usize) -> (next: usize)
    requires
        start + old(pile)@.len() <= usize::MAX,
    ensures
        next == start + old(pile)@.len(),
        final(pile)@.len() == old(pile)@.len(),
        forall|j: int| 0 <= j < final(pile)@.len() ==> offsets_of(final(pile)@)[j] == start + j,
        forall|j: int|
            0 <= j < final(pile)@.len() ==> #[trigger] final(pile)@[j] == (CardContext {
                card: (Card { offset: (start + j) as usize, ..old(pile)@[j].card }),
                ..old(pile)@[j]
            }),
{
    let n = pile.len();
    let mut i: usize = 0;
    while i < n
        invariant
            i <= n,
            n == pile@.len(),
            pile@.len() == old(pile)@.len(),
            start + n <= usize::MAX,
            forall|j: int| 0 <= j < i ==> offsets_of(pile@)[j] == start + j,
            forall|j: int|
                0 <= j < i ==> #[trigger] pile@[j] == (CardContext {
                    card: (Card { offset: (start + j) as usize, ..old(pile)@[j].card }),
                    ..old(pile)@[j]
                }),
            forall|j: int| i <= j < n ==> #[trigger] pile@[j] == old(pile)@[j],
        decreases n - i,
    {
        let ghost before = pile@;
        let mut card = pile.remove(i);
        card.card.offset = start + i;
        pile.insert(i, card);
        proof {
            assert(pile@ =~= before.update(i as int, pile@[i as int]));
            assert(offsets_of(pile@)[i as int] == start + i);
            assert forall|j: int| 0 <= j < i implies offsets_of(pile@)[j] == start + j by {
                assert(pile@[j] == before[j]);
                assert(offsets_of(before)[j] == start + j);
                assert(offsets_of(pile@)[j] == pile@[j].card.offset);
            }
        }
        i += 1;
    }
    start + n
}


/// Copies a mounted-system list.
pub fn clone_contexts(v: &Vec<SystemContext>) -> (r: Vec<SystemContext>)
    ensures
        r@.len() == v@.len(),
        forall|i: int| 0 <= i < v@.len() ==> crate::contexts::ctx_identical(r@[i], v@[i]),
{
    let mut r: Vec<SystemContext> = Vec::new();
    let mut i: usize = 0;
    while i < v.len()
        invariant
            i <= v.len(),
            r@.len() == i,
            forall|j: int| 0 <= j < i ==> crate::contexts::ctx_identical(r@[j], v@[j]),
        decreases v.len() - i,
    {
        r.push(v[i].clone());
        i += 1;
    }
    r
}

/// The deck partition law: under the partition invariant, a card identity
/// belongs to at most one place — one of the five piles or the signature
/// card. Together with the multiset-preservation contracts of the deck
/// operations, every originally-present identity stays in exactly one pile
/// through any draw, discard or select sequence, and only materialized cards
/// are ever added.
pub proof fn lemma_deck_partition(d: WarriorDeckContext, o: usize)
    requires
        d.wf(),
    ensures
        (if offsets_of(d.hand_deck@).contains(o) {
            1int
        } else {
            0int
        }) + (if offsets_of(d.deck@).contains(o) {
            1int
        } else {
            0int
        }) + (if offsets_of(d.grave_deck@).contains(o) {
            1int
        } else {
            0int
        }) + (if offsets_of(d.unavaliable_deck@).contains(o) {
            1int
        } else {
            0int
        }) + (if offsets_of(d.unbelonging_deck@).contains(o) {
            1int
        } else {
            0int
        }) + (if d.special_card.card.offset == o {
            1int
        } else {
            0int
        }) <= 1,
{
    broadcast use vstd::seq_lib::group_to_multiset_ensures;
    broadcast use vstd::seq_lib::lemma_multiset_commutative;

    let sp = seq![d.special_card.card.offset];
    let h = offsets_of(d.hand_deck@);
    let dk = offsets_of(d.deck@);
    let g = offsets_of(d.grave_deck@);
    let ua = offsets_of(d.unavaliable_deck@);
    let ub = offsets_of(d.unbelonging_deck@);
    assert(d.card_multiset().count(o) == sp.to_multiset().count(o) + h.to_multiset().count(o)
        + dk.to_multiset().count(o) + g.to_multiset().count(o) + ua.to_multiset().count(o)
        + ub.to_multiset().count(o)) by {
        assert(d.full_offsets() == sp + (h + dk + g + ua + ub));
        assert((sp + (h + dk + g + ua + ub)).to_multiset() =~= sp.to_multiset().add(
            (h + dk + g + ua + ub).to_multiset(),
        ));
    }
    assert(d.card_multiset().count(o) <= 1);
    if d.special_card.card.offset == o {
        assert(sp.contains(o));
        assert(sp.to_multiset().count(o) > 0);
    }
}


/// Bridges a pile's element identities to its mapped identity sequence.
proof fn lemma_pile_offset_index(pile: Seq<CardContext>)
    ensures
        forall|i: int| 0 <= i < pile.len() ==> offsets_of(pile)[i] == (#[trigger] pile[i]).card.offset,
{
}

/// Finds the position of a card with the given identity in a pile.
fn pile_find(pile: &Vec<CardContext>, offset: usize) -> (r: Option<usize>)
    ensures
        r is Some ==> r->0 < pile@.len() && offsets_of(pile@)[r->0 as int] == offset && (
        forall|j: int| 0 <= j < r->0 ==> offsets_of(pile@)[j] != offset),
        r is None <==> !offsets_of(pile@).contains(offset),
{
    let mut i: usize = 0;
    while i < pile.len()
        invariant
            i <= pile.len(),
            forall|j: int| 0 <= j < i ==> offsets_of(pile@)[j] != offset,
        decreases pile.len() - i,
    {
        if pile[i].card.offset == offset {
            proof {
                assert(offsets_of(pile@)[i as int] == offset);
            }
            return Some(i);
        }
        i += 1;
    }
    proof {
        assert(!offsets_of(pile@).contains(offset)) by {
            if offsets_of(pile@).contains(offset) {
                let j = choose|j: int|
                    0 <= j < offsets_of(pile@).len() && offsets_of(pile@)[j] == offset;
            }
        }
    }
    None
}

/// Whether `x` occurs in a list of identities.
fn offsets_contain(v: &Vec<usize>, x: usize) -> (r: bool)
    ensures
        r == v@.contains(x),
{
    let mut i: usize = 0;
    while i < v.len()
        invariant
            i <= v.len(),
            forall|j: int| 0 <= j < i ==> v@[j] != x,
        decreases v.len() - i,
    {
        if v[i] == x {
            return true;
        }
        i += 1;
    }
    proof {
        assert(!v@.contains(x)) by {
            if v@.contains(x) {
                let j = choose|j: int| 0 <= j < v@.len() && v@[j] == x;
            }
        }
    }
    false
}

/// The identities of a card list, in order.
pub open spec fn offsets_of_cards(s: Seq<Card>) -> Seq<usize> {
    s.map_values(|c: Card| c.offset)
}

/// Sets every cost of a pile back to its per-battle (`game` false) or
/// permanent (`game` true) maximum.
fn reset_costs(pile: &mut Vec<CardContext>, game: bool)
    ensures
        final(pile)@.len() == old(pile)@.len(),
        forall|j: int|
            0 <= j < old(pile)@.len() ==> #[trigger] final(pile)@[j] == (CardContext {
                power_cost: if game {
                    old(pile)@[j].game_max_power_cost
                } else {
                    old(pile)@[j].battle_max_power_cost
                },
                ..old(pile)@[j]
            }),
        offsets_of(final(pile)@) == offsets_of(old(pile)@),
{
    let n = pile.len();
    let mut i: usize = 0;
    while i < n
        invariant
            i <= n,
            n == pile.len(),
            pile@.len() == old(pile)@.len(),
            forall|j: int|
                0 <= j < i ==> #[trigger] pile@[j] == (CardContext {
                    power_cost: if game {
                        old(pile)@[j].game_max_power_cost
                    } else {
                        old(pile)@[j].battle_max_power_cost
                    },
                    ..old(pile)@[j]
                }),
            forall|j: int| i <= j < n ==> #[trigger] pile@[j] == old(pile)@[j],
        decreases n - i,
    {
        let ghost before = pile@;
        let mut card = pile.remove(i);
        if game {
            card.reset();
        } else {
            card.round_reset();
        }
        pile.insert(i, card);
        proof {
            assert(pile@ =~= before.update(i as int, pile@[i as int]));
        }
        i += 1;
    }
    proof {
        assert(offsets_of(final(pile)@) =~= offsets_of(old(pile)@));
    }
}

/// The player during a battle: the immutable template, live combat
/// statistics, round resources, owned items and mounted systems. The deck
/// state lives in its own structure, [`WarriorDeckContext`].
#[derive(Debug)]
pub struct WarriorContext {
    pub warrior: Warrior,
    pub offset: usize,
    pub stats: CombatStats,
    pub gold: u16,
    pub power: u8,
    pub max_power: u8,
    pub draw_count: u8,
    pub physique: u8,
    pub equipment_list: Vec<Item>,
    pub props_list: Vec<Item>,
    pub mounting_systems: Vec<SystemContext>,
}

impl WarriorContext {
    /// Builds the player and the deck state from a warrior template, with an
    /// optional potion applied on top; every potion boost saturates at the
    /// field maximum.
    pub fn new(warrior: Warrior, potion: Option<Potion>) -> (r: (WarriorContext,
        WarriorDeckContext))
        ensures
            r.0.offset == 0,
            r.0.mounting_systems@.len() == 0,
            potion is None ==> r.0.stats.hp == warrior.hp && r.0.stats.max_hp == warrior.hp
                && r.0.power == warrior.power && r.0.draw_count == warrior.draw_count
                && r.0.stats.armor == warrior.armor as u16 && r.0.stats.shield == warrior.shield
                as u16 && r.0.stats.attack == warrior.attack && r.0.physique == warrior.physique
                && r.1.deck@.len() == warrior.deck_status@.len(),
            forall|p: Potion|
                potion == Some(p) ==> {
                    &&& r.0.stats.hp == vstd::math::min(warrior.hp + p.hp, u16::MAX as int)
                    &&& r.0.stats.max_hp == vstd::math::min(warrior.hp + p.hp, u16::MAX as int)
                    &&& r.0.power == vstd::math::min(warrior.power + p.power, u8::MAX as int)
                    &&& r.0.stats.armor == vstd::math::min(
                        warrior.armor + p.armor,
                        u16::MAX as int,
                    )
                    &&& r.0.stats.shield == vstd::math::min(
                        warrior.shield + p.shield,
                        u16::MAX as int,
                    )
                    &&& r.0.stats.attack == vstd::math::min(
                        warrior.attack + p.attack,
                        u8::MAX as int,
                    )
                    &&& r.0.draw_count == vstd::math::min(
                        warrior.draw_count + p.draw_count,
                        u8::MAX as int,
                    )
                    &&& r.0.physique == vstd::math::min(
                        warrior.physique + p.physique,
                        u8::MAX as int,
                    )
                    &&& r.1.deck@.len() == warrior.deck_status@.len() + p.deck_status@.len()
                },
            r.0.max_power == warrior.power,
            r.0.gold == warrior.gold,
            r.0.warrior == warrior,
    {
        let mut equipment_list: Vec<Item> = Vec::new();
        let mut props_list: Vec<Item> = Vec::new();
        let mut i: usize = 0;
        while i < warrior.package_status.len()
            invariant
                i <= warrior.package_status.len(),
            decreases warrior.package_status.len() - i,
        {
            let item = &warrior.package_status[i];
            match item.class {
                ItemClass::Equipment => equipment_list.push(item.clone()),
                ItemClass::Props => props_list.push(item.clone()),
            }
            i += 1;
        }
        let mut player = WarriorContext {
            offset: 0,
            stats: CombatStats {
                hp: warrior.hp,
                max_hp: warrior.hp,
                armor: warrior.armor as u16,
                shield: warrior.shield as u16,
                attack: warrior.attack,
                attack_weak: clamp_weak(warrior.attack_weak),
                defense: warrior.defense,
                defense_weak: clamp_weak(warrior.defense_weak),
            },
            gold: warrior.gold,
            power: warrior.power,
            max_power: warrior.power,
            draw_count: warrior.draw_count,
            physique: warrior.physique,
            equipment_list,
            props_list,
            mounting_systems: Vec::new(),
            warrior,
        };
        let mut player_deck = WarriorDeckContext::new(&player.warrior);
        if let Some(potion) = potion {
            let Potion {
                hp,
                power,
                armor,
                shield,
                attack,
                draw_count,
                physique,
                mut package_status,
                deck_status,
                ..
            } = potion;
            player.stats.hp = player.stats.hp.saturating_add(hp as u16);
            player.stats.max_hp = player.stats.max_hp.saturating_add(hp as u16);
            player.power = player.power.saturating_add(power);
            player.stats.armor = player.stats.armor.saturating_add(armor as u16);
            player.stats.shield = player.stats.shield.saturating_add(shield as u16);
            player.stats.attack = player.stats.attack.saturating_add(attack);
            player.draw_count = player.draw_count.saturating_add(draw_count);
            player.physique = player.physique.saturating_add(physique);
            player.props_list.append(&mut package_status);
            player_deck.add_deck(deck_status);
        }
        (player, player_deck)
    }

    /// Restores the round-scoped resource: power returns to its maximum.
    pub fn round_reset(&mut self)
        ensures
            *final(self) == (WarriorContext { power: old(self).max_power, ..*old(self) }),
    {
        self.power = self.max_power;
    }

    /// Drops every battle-only modifier: stats return to the template (the
    /// current and maximum hp stay as they are), power refills, and all
    /// mounted systems unmount.
    pub fn reset(&mut self)
        ensures
            final(self).stats == (CombatStats {
                hp: old(self).stats.hp,
                max_hp: old(self).stats.max_hp,
                armor: old(self).warrior.armor as u16,
                shield: old(self).warrior.shield as u16,
                attack: old(self).warrior.attack,
                attack_weak: clamped_weak(old(self).warrior.attack_weak),
                defense: old(self).warrior.defense,
                defense_weak: clamped_weak(old(self).warrior.defense_weak),
            }),
            final(self).power == old(self).warrior.power,
            final(self).draw_count == old(self).warrior.draw_count,
            final(self).mounting_systems@.len() == 0,
            final(self).warrior == old(self).warrior,
            final(self).offset == old(self).offset,
            final(self).gold == old(self).gold,
            final(self).max_power == old(self).max_power,
            final(self).physique == old(self).physique,
            final(self).equipment_list == old(self).equipment_list,
            final(self).props_list == old(self).props_list,
    {
        self.power = self.warrior.power;
        self.stats.armor = self.warrior.armor as u16;
        self.stats.shield = self.warrior.shield as u16;
        self.stats.attack = self.warrior.attack;
        self.stats.attack_weak = clamp_weak(self.warrior.attack_weak);
        self.stats.defense = self.warrior.defense;
        self.stats.defense_weak = clamp_weak(self.warrior.defense_weak);
        self.draw_count = self.warrior.draw_count;
        self.mounting_systems = Vec::new();
    }
}

impl WarriorContext {
    /// Copies the live combat numbers out for a host.
    pub fn snapshot(&self) -> (r: crate::contexts::WarriorSnapshot)
        ensures
            r == (crate::contexts::WarriorSnapshot {
                id: self.warrior.id,
                offset: self.offset,
                hp: self.stats.hp,
                max_hp: self.stats.max_hp,
                gold: self.gold,
                power: self.power,
                armor: self.stats.armor,
                shield: self.stats.shield,
                attack: self.stats.attack,
                attack_weak: self.stats.attack_weak,
                defense: self.stats.defense,
                defense_weak: self.stats.defense_weak,
                draw_count: self.draw_count,
            }),
    {
        crate::contexts::WarriorSnapshot {
            id: self.warrior.id,
            offset: self.offset,
            hp: self.stats.hp,
            max_hp: self.stats.max_hp,
            gold: self.gold,
            power: self.power,
            armor: self.stats.armor,
            shield: self.stats.shield,
            attack: self.stats.attack,
            attack_weak: self.stats.attack_weak,
            defense: self.stats.defense,
            defense_weak: self.stats.defense_weak,
            draw_count: self.draw_count,
        }
    }
}

impl CtxAdaptor for WarriorContext {
    open spec fn kind(&self) -> ContextType {
        ContextType::Warrior
    }

    open spec fn offset_spec(&self) -> usize {
        self.offset
    }

    open spec fn mountings(&self) -> Seq<SystemContext> {
        self.mounting_systems@
    }

    open spec fn same_but_mountings(&self, other: Self) -> bool {
        &&& self.warrior == other.warrior
        &&& self.offset == other.offset
        &&& self.stats == other.stats
        &&& self.gold == other.gold
        &&& self.power == other.power
        &&& self.max_power == other.max_power
        &&& self.draw_count == other.draw_count
        &&& self.physique == other.physique
        &&& self.equipment_list == other.equipment_list
        &&& self.props_list == other.props_list
    }

    fn context_type(&self) -> (r: ContextType) {
        ContextType::Warrior
    }

    fn offset(&self) -> (r: usize) {
        self.offset
    }

    fn add_mounting_system(&mut self, ctx: &SystemContext) -> (r: bool) {
        add_mounting_system_internal(ctx, &mut self.mounting_systems)
    }

    fn update_mounting_system(&mut self, ctx: &SystemContext) -> (r: bool) {
        update_mounting_system_internal(ctx, &mut self.mounting_systems)
    }

    fn remove_mounting_system(&mut self, ctx: &SystemContext) -> (r: bool) {
        remove_mounting_system_internal(ctx, &mut self.mounting_systems)
    }
}

} // verus!
