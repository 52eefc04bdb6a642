use vstd::prelude::*;

verus! {

use crate::contexts::{
    add_mounting_system_internal, remove_mounting_system_internal, update_mounting_system_internal,
    ContextType, CtxAdaptor, SystemContext,
};
use crate::wrappings::{card_identical, Card};

/// A card during a battle: the immutable card, its current power cost against
/// its per-battle and permanent maxima, and the systems mounted on it
/// (equipment-like persistent effects).
#[derive(Debug)]
pub struct CardContext {
    pub card: Card,
    pub power_cost: u8,
    pub battle_max_power_cost: u8,
    pub game_max_power_cost: u8,
    pub mounting_systems: Vec<SystemContext>,
}

impl CardContext {
    /// Wraps a card for battle; every cost starts at the card's printed cost.
    pub fn new(card: Card) -> (r: Self)
        ensures
            card_identical(r.card, card),
            r.power_cost == card.power_cost,
            r.battle_max_power_cost == card.power_cost,
            r.game_max_power_cost == card.power_cost,
            r.mounting_systems@ == Seq::<SystemContext>::empty(),
    {
        CardContext {
            power_cost: card.power_cost,
            battle_max_power_cost: card.power_cost,
            game_max_power_cost: card.power_cost,
            mounting_systems: Vec::new(),
            card,
        }
    }

    /// Restores the cost when a round ends: battle-scoped discounts persist.
    pub fn round_reset(&mut self)
        ensures
            *final(self) == (CardContext { power_cost: old(self).battle_max_power_cost, ..*old(self) }),
    {
        self.power_cost = self.battle_max_power_cost;
    }

    /// Restores the cost when a battle ends: all discounts expire.
    pub fn reset(&mut self)
        ensures
            *final(self) == (CardContext { power_cost: old(self).game_max_power_cost, ..*old(self) }),
    {
        self.power_cost = self.game_max_power_cost;
    }
}

impl CtxAdaptor for CardContext {
    open spec fn kind(&self) -> ContextType {
        ContextType::Card
    }

    open spec fn offset_spec(&self) -> usize {
        self.card.offset
    }

    open spec fn mountings(&self) -> Seq<SystemContext> {
        self.mounting_systems@
    }

    open spec fn same_but_mountings(&self, other: Self) -> bool {
        &&& self.card == other.card
        &&& self.power_cost == other.power_cost
        &&& self.battle_max_power_cost == other.battle_max_power_cost
        &&& self.game_max_power_cost == other.game_max_power_cost
    }

    fn context_type(&self) -> (r: ContextType) {
        ContextType::Card
    }

    fn offset(&self) -> (r: usize) {
        self.card.offset
    }

    fn add_mounting_system(&mut self, ctx: &SystemContext) -> (r: bool) {
        add_mounting_system_internal(ctx, &mut self.mounting_systems)
    }

    fn update_mounting_system(&mut self, ctx: &SystemContext) -> (r: bool) {
        update_mounting_system_internal(ctx, &mut self.mounting_systems)
    }

    fn remove_mounting_system(&mut self, ctx: &SystemContext) -> (r: bool) {
        remove_mounting_system_internal(ctx, &mut self.mounting_systems)
    }
}

} // verus!
