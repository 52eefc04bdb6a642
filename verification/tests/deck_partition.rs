use spore_warriors_core::contexts::{CardContext, SystemContext, WarriorDeckContext};
use spore_warriors_core::errors::Error;
use spore_warriors_core::rng::SporeRng;
use spore_warriors_core::wrappings::{Card, Duration, RequireTarget, System, SystemId, Value};

fn plain_card(offset: usize, id: u16, cost: u8) -> Card {
    Card {
        offset,
        id,
        class: 0,
        power_cost: cost,
        price: 0,
        system_pool: vec![],
    }
}

fn deck_with(cards: Vec<Card>) -> WarriorDeckContext {
    let mut deck = WarriorDeckContext {
        special_use_count: 0,
        special_max_count: 1,
        special_card: CardContext::new(plain_card(0, 999, 2)),
        hand_deck: vec![],
        deck: cards.into_iter().map(CardContext::new).collect(),
        grave_deck: vec![],
        unavaliable_deck: vec![],
        selection_pool: vec![],
        unbelonging_deck: vec![],
    };
    deck.renumber(1);
    deck
}

fn all_offsets(deck: &WarriorDeckContext) -> Vec<usize> {
    let mut out: Vec<usize> = vec![deck.special_card.card.offset];
    for pile in [
        &deck.hand_deck,
        &deck.deck,
        &deck.grave_deck,
        &deck.unavaliable_deck,
        &deck.unbelonging_deck,
    ] {
        out.extend(pile.iter().map(|c| c.card.offset));
    }
    out.sort();
    out
}

#[test]
fn renumber_assigns_consecutive_identities() {
    let deck = deck_with((0..4).map(|i| plain_card(77, i, 1)).collect());
    assert_eq!(all_offsets(&deck), vec![1, 2, 3, 4, 5]);
}

#[test]
fn draw_moves_one_card_and_conserves_the_partition() {
    let mut deck = deck_with((0..3).map(|i| plain_card(0, i, 1)).collect());
    let before = all_offsets(&deck);
    let mut rng = SporeRng::new(8);
    let (offset, refilled) = deck.draw_random(&mut rng).unwrap();
    assert!(!refilled);
    assert_eq!(deck.hand_deck.len(), 1);
    assert_eq!(deck.deck.len(), 2);
    assert_eq!(deck.hand_deck[0].card.offset, offset);
    assert_eq!(all_offsets(&deck), before);
}

#[test]
fn draw_refills_from_grave_when_deck_is_empty() {
    let mut deck = deck_with((0..2).map(|i| plain_card(0, i, 1)).collect());
    deck.grave_deck = std::mem::take(&mut deck.deck);
    let mut rng = SporeRng::new(8);
    let (_, refilled) = deck.draw_random(&mut rng).unwrap();
    assert!(refilled);
    assert_eq!(deck.grave_deck.len(), 0);
    assert_eq!(deck.hand_deck.len(), 1);
    assert_eq!(deck.deck.len(), 1);
}

#[test]
fn forced_draw_with_nothing_left_is_an_internal_error() {
    let mut deck = deck_with(vec![]);
    let mut rng = SporeRng::new(8);
    assert_eq!(deck.draw_random(&mut rng), Err(Error::BattleInternalError));
}

#[test]
fn select_draw_honours_the_open_pool() {
    let mut deck = deck_with((0..3).map(|i| plain_card(0, i, 1)).collect());
    let before = all_offsets(&deck);
    deck.set_selection_from_deck();
    let picked = vec![deck.deck[2].card.offset, deck.deck[0].card.offset];
    deck.select_draw(&picked).unwrap();
    assert_eq!(
        deck.hand_deck.iter().map(|c| c.card.offset).collect::<Vec<_>>(),
        picked
    );
    assert_eq!(deck.selection_pool.len(), 0);
    assert_eq!(all_offsets(&deck), before);
}

#[test]
fn select_draw_rejects_an_identity_outside_the_pool() {
    let mut deck = deck_with((0..3).map(|i| plain_card(0, i, 1)).collect());
    deck.set_selection_from_grave();
    let hand_before = deck.hand_deck.len();
    let r = deck.select_draw(&vec![deck.deck[0].card.offset]);
    assert_eq!(r, Err(Error::BattleUnexpectedCardOffset));
    assert_eq!(deck.hand_deck.len(), hand_before);
}

#[test]
fn select_draw_rejects_a_duplicate_identity() {
    let mut deck = deck_with((0..3).map(|i| plain_card(0, i, 1)).collect());
    deck.set_selection_from_deck();
    let off = deck.deck[1].card.offset;
    assert_eq!(
        deck.select_draw(&vec![off, off]),
        Err(Error::BattleUnexpectedCardOffset)
    );
}

#[test]
fn select_discard_moves_hand_cards_to_the_grave() {
    let mut deck = deck_with((0..3).map(|i| plain_card(0, i, 1)).collect());
    let before = all_offsets(&deck);
    deck.hand_deck = std::mem::take(&mut deck.deck);
    let off = deck.hand_deck[1].card.offset;
    deck.select_discard(&vec![off], true).unwrap();
    assert_eq!(deck.hand_deck.len(), 2);
    assert_eq!(deck.grave_deck.len(), 1);
    assert_eq!(deck.grave_deck[0].card.offset, off);
    assert_eq!(all_offsets(&deck), before);
}

#[test]
fn select_discard_rejects_an_empty_selection() {
    let mut deck = deck_with((0..2).map(|i| plain_card(0, i, 1)).collect());
    assert_eq!(
        deck.select_discard(&vec![], true),
        Err(Error::BattleUnexpectedDiscardCount)
    );
}

#[test]
fn select_discard_rejects_an_identity_not_in_hand() {
    let mut deck = deck_with((0..2).map(|i| plain_card(0, i, 1)).collect());
    let off = deck.deck[0].card.offset;
    assert_eq!(
        deck.select_discard(&vec![off], true),
        Err(Error::BattleCardOffsetNotFound)
    );
}

#[test]
fn random_discard_stops_at_an_empty_hand() {
    let mut deck = deck_with((0..3).map(|i| plain_card(0, i, 1)).collect());
    let before = all_offsets(&deck);
    deck.hand_deck = std::mem::take(&mut deck.deck);
    let mut rng = SporeRng::new(5);
    let discarded = deck.random_discard(5, false, &mut rng);
    assert_eq!(discarded.len(), 3);
    assert_eq!(deck.hand_deck.len(), 0);
    assert_eq!(deck.unavaliable_deck.len(), 3);
    assert_eq!(all_offsets(&deck), before);
}

#[test]
fn materialize_adds_fresh_identities_under_a_selection() {
    let mut deck = deck_with((0..2).map(|i| plain_card(0, i, 1)).collect());
    let minted = vec![
        CardContext::new(plain_card(0, 50, 1)),
        CardContext::new(plain_card(0, 51, 1)),
    ];
    let next = deck.materialize_selection(minted, 10);
    assert_eq!(next, 12);
    assert_eq!(deck.selection_pool, vec![10, 11]);
    assert_eq!(deck.unbelonging_deck.len(), 2);
    deck.select_draw(&vec![11]).unwrap();
    assert_eq!(deck.hand_deck[0].card.id, 51);
    assert_eq!(deck.unbelonging_deck.len(), 1);
}

#[test]
fn round_reset_restores_battle_costs_and_reset_restores_printed_costs() {
    let mut deck = deck_with(vec![plain_card(0, 1, 4)]);
    deck.card_cost_down(deck.deck[0].card.offset, 3);
    assert_eq!(deck.deck[0].power_cost, 1);
    deck.round_reset();
    assert_eq!(deck.deck[0].power_cost, 4);
    deck.card_cost_down(deck.deck[0].card.offset, 10);
    assert_eq!(deck.deck[0].power_cost, 0);
    deck.reset();
    assert_eq!(deck.deck[0].power_cost, 4);
    assert_eq!(deck.hand_deck.len(), 0);
    assert_eq!(deck.grave_deck.len(), 0);
}

#[test]
fn refer_card_finds_cards_in_every_addressable_pile() {
    let mut deck = deck_with((0..2).map(|i| plain_card(0, i, 1)).collect());
    let special = deck.special_card.card.offset;
    let in_deck = deck.deck[0].card.offset;
    assert!(deck.refer_card(special).is_some());
    assert!(deck.refer_card(in_deck).is_some());
    assert!(deck.refer_card(4000).is_none());
    deck.hand_deck = std::mem::take(&mut deck.deck);
    assert!(deck.refer_card(in_deck).is_some());
}

#[test]
fn system_instance_equality_ignores_counters_and_registers() {
    let system = System {
        id: 7,
        system_id: SystemId::TriggerRecoverHp,
        args: vec![Value(5)],
        duration: Some(Duration { trigger: 3, count: 2 }),
        target_type: RequireTarget::Owner,
    };
    let a = SystemContext::new(system.clone());
    let mut b = SystemContext::new(system.clone());
    b.duration_counter = 9;
    b.register_1 = Some(4);
    assert!(a.equal(&b));
    let mut other = SystemContext::new(system);
    other.system.args = vec![Value(6)];
    assert!(!a.equal(&other));
}

#[test]
fn durable_combine_extends_and_durable_update_refreshes() {
    let system = System {
        id: 7,
        system_id: SystemId::TriggerRecoverHp,
        args: vec![Value(5)],
        duration: Some(Duration { trigger: 3, count: 2 }),
        target_type: RequireTarget::Owner,
    };
    let mut mounted = SystemContext::new(system.clone());
    mounted.duration_counter = 2;
    let mut incoming = SystemContext::new(system);
    incoming.duration_counter = 3;
    assert!(mounted.durable_combine(&incoming));
    assert_eq!(mounted.duration_counter, 5);
    assert!(mounted.durable_update(&incoming));
    assert_eq!(mounted.duration_counter, 3);
}
