use spore_warriors_core::battle::pve::MapBattlePVE;
use spore_warriors_core::battle::traits::{
    FightLog, IterationInput, IterationOutput, Selection,
};
use spore_warriors_core::contexts::{CtxAdaptor, SystemContext, WarriorContext};
use spore_warriors_core::errors::Error;
use spore_warriors_core::rng::SporeRng;
use spore_warriors_core::systems::{Command, DeckSource, SystemController, SystemReturn};
use spore_warriors_core::wrappings::{
    Action, ActionStrategy, Card, Duration, Enemy, Item, ItemClass, RequireTarget, System,
    SystemId, Value,
};

fn damage_system(raw: u16, target: RequireTarget) -> System {
    System {
        id: 1,
        system_id: SystemId::InstantDamage,
        args: vec![Value(raw)],
        duration: None,
        target_type: target,
    }
}

fn card(id: u16, cost: u8, systems: Vec<System>) -> Card {
    Card {
        offset: 0,
        id,
        class: 0,
        power_cost: cost,
        price: 0,
        system_pool: systems,
    }
}

fn warrior(hp: u16, power: u8, draw_count: u8, deck: Vec<Card>) -> spore_warriors_core::wrappings::Warrior {
    spore_warriors_core::wrappings::Warrior {
        id: 5001,
        charactor_card: card(900, 2, vec![]),
        hp,
        gold: 10,
        power,
        motion: 0,
        view_range: 0,
        armor: 0,
        shield: 0,
        attack: 0,
        attack_weak: 0,
        defense: 0,
        defense_weak: 0,
        physique: 5,
        draw_count,
        deck_status: deck,
        package_status: vec![],
    }
}

fn enemy(hp: u16, actions: Vec<Vec<System>>) -> Enemy {
    Enemy {
        id: 42,
        rank: 1,
        hp,
        armor: 0,
        shield: 0,
        attack: 0,
        attack_weak: 0,
        defense: 0,
        defense_weak: 0,
        strategy: ActionStrategy {
            random_select: false,
            actions: actions
                .into_iter()
                .map(|system_pool| Action { random_select: false, system_pool })
                .collect(),
        },
    }
}

fn controller(seed: u64) -> SystemController {
    SystemController::new(vec![], vec![], SporeRng::new(seed))
}

fn count_logs(logs: &[FightLog], pred: impl Fn(&FightLog) -> bool) -> usize {
    logs.iter().filter(|l| pred(l)).count()
}

#[test]
fn start_draws_the_opening_hand_and_reports_continue() {
    let w = warrior(100, 5, 2, (0..5).map(|i| card(i, 1, vec![])).collect());
    let (player, deck) = WarriorContext::new(w, None);
    let mut battle = MapBattlePVE::create(player, deck, vec![enemy(30, vec![vec![]])]).unwrap();
    let mut ctl = controller(10000);
    let (output, logs) = battle.start(&mut ctl).unwrap();
    assert_eq!(output, IterationOutput::Continue);
    assert_eq!(battle.player_deck.hand_deck.len(), 2);
    assert_eq!(count_logs(&logs, |l| matches!(l, FightLog::GameStart)), 1);
    assert!(matches!(logs[1], FightLog::Snapshot(shot) if shot.hp == 100));
    assert_eq!(count_logs(&logs, |l| matches!(l, FightLog::Draw(_))), 2);
    assert_eq!(count_logs(&logs, |l| matches!(l, FightLog::PlayerTurn(1))), 1);
}

#[test]
fn start_twice_is_refused() {
    let w = warrior(100, 5, 1, (0..3).map(|i| card(i, 1, vec![])).collect());
    let (player, deck) = WarriorContext::new(w, None);
    let mut battle = MapBattlePVE::create(player, deck, vec![enemy(30, vec![vec![]])]).unwrap();
    let mut ctl = controller(10000);
    battle.start(&mut ctl).unwrap();
    assert!(matches!(battle.start(&mut ctl), Err(Error::BattleRepeatStart)));
}

#[test]
fn run_before_start_is_refused() {
    let w = warrior(100, 5, 1, (0..3).map(|i| card(i, 1, vec![])).collect());
    let (player, deck) = WarriorContext::new(w, None);
    let mut battle = MapBattlePVE::create(player, deck, vec![enemy(30, vec![vec![]])]).unwrap();
    let mut ctl = controller(10000);
    assert!(matches!(
        battle.run(vec![IterationInput::EnemyTurn], &mut ctl),
        Err(Error::BattleNotStarted)
    ));
}

#[test]
fn forced_draw_from_an_empty_deck_fails_without_looping() {
    // An empty deck with an empty grave on a forced draw is an
    // internal-error-class failure, not an infinite loop.
    let w = warrior(100, 5, 1, vec![]);
    let (player, deck) = WarriorContext::new(w, None);
    let mut battle = MapBattlePVE::create(player, deck, vec![enemy(30, vec![vec![]])]).unwrap();
    let mut ctl = controller(10000);
    assert_eq!(battle.player_draw(1, &mut ctl), Err(Error::BattleInternalError));
    assert_eq!(battle.player_draw(0, &mut ctl), Err(Error::BattleUnexpectedDrawCount));
}

#[test]
fn draw_refills_the_deck_from_the_grave_exactly_once() {
    // Drawing three with one card in the deck and five in the grave refills
    // the deck once and lands three cards in hand, with three ordered draw
    // log entries.
    let w = warrior(100, 5, 1, (0..6).map(|i| card(i, 1, vec![])).collect());
    let (player, deck) = WarriorContext::new(w, None);
    let mut battle = MapBattlePVE::create(player, deck, vec![enemy(30, vec![vec![]])]).unwrap();
    let tail = battle.player_deck.deck.split_off(1);
    battle.player_deck.grave_deck.extend(tail);
    let mut ctl = controller(10000);
    battle.player_draw(3, &mut ctl).unwrap();
    assert_eq!(battle.player_deck.hand_deck.len(), 3);
    assert_eq!(battle.player_deck.grave_deck.len(), 0);
    assert_eq!(battle.player_deck.deck.len(), 3);
    let draws: Vec<usize> = battle
        .fight_logs
        .iter()
        .filter_map(|l| match l {
            FightLog::Draw(off) => Some(*off),
            _ => None,
        })
        .collect();
    assert_eq!(draws.len(), 3);
    let hand: Vec<usize> = battle.player_deck.hand_deck.iter().map(|c| c.card.offset).collect();
    assert_eq!(draws, hand);
    assert_eq!(
        count_logs(&battle.fight_logs, |l| matches!(l, FightLog::RecoverGraveDeck)),
        1
    );
}

#[test]
fn unaffordable_hand_card_leaves_the_battle_unchanged() {
    // A hand card costing more power than available fails with the
    // power-insufficient error and hand, grave and power stay as they were.
    let deck: Vec<Card> = (0..4).map(|i| card(i, 5, vec![damage_system(3, RequireTarget::Opponent)])).collect();
    let w = warrior(100, 3, 2, deck);
    let (player, deck) = WarriorContext::new(w, None);
    let mut battle = MapBattlePVE::create(player, deck, vec![enemy(30, vec![vec![]])]).unwrap();
    let mut ctl = controller(10000);
    battle.start(&mut ctl).unwrap();
    let hand_before: Vec<usize> =
        battle.player_deck.hand_deck.iter().map(|c| c.card.offset).collect();
    let grave_before = battle.player_deck.grave_deck.len();
    let power_before = battle.player.power;
    let r = battle.run(
        vec![IterationInput::HandCardUse(Selection::SingleCard(0), Some(0))],
        &mut ctl,
    );
    assert!(matches!(r, Err(Error::BattlePowerInsufficient)));
    let hand_after: Vec<usize> =
        battle.player_deck.hand_deck.iter().map(|c| c.card.offset).collect();
    assert_eq!(hand_after, hand_before);
    assert_eq!(battle.player_deck.grave_deck.len(), grave_before);
    assert_eq!(battle.player.power, power_before);
}

#[test]
fn playing_a_hand_card_spends_power_and_moves_it_to_the_grave() {
    let deck: Vec<Card> = (0..4).map(|i| card(i, 2, vec![damage_system(3, RequireTarget::Opponent)])).collect();
    let w = warrior(100, 5, 2, deck);
    let (player, deck) = WarriorContext::new(w, None);
    let mut battle = MapBattlePVE::create(player, deck, vec![enemy(60, vec![vec![]])]).unwrap();
    let mut ctl = controller(10000);
    battle.start(&mut ctl).unwrap();
    let (output, logs) = battle
        .run(
            vec![IterationInput::HandCardUse(Selection::SingleCard(0), Some(0))],
            &mut ctl,
        )
        .unwrap();
    assert_eq!(output, IterationOutput::Continue);
    assert_eq!(battle.player.power, 3);
    assert_eq!(battle.player_deck.hand_deck.len(), 1);
    assert_eq!(battle.player_deck.grave_deck.len(), 1);
    assert_eq!(count_logs(&logs, |l| matches!(l, FightLog::PowerCost(2))), 1);
    assert_eq!(count_logs(&logs, |l| matches!(l, FightLog::HandCardUse(_))), 1);
    // raw 3 + attack 0, no weaken: 3 damage past no shield and no armor
    assert_eq!(battle.opponents[0].stats.hp, 57);
    assert_eq!(
        count_logs(&logs, |l| matches!(l, FightLog::SystemDamage(_, 3))),
        1
    );
}

#[test]
fn enemy_turn_damages_the_player_and_opens_the_next_round() {
    let deck: Vec<Card> = (0..5).map(|i| card(i, 1, vec![])).collect();
    let w = warrior(100, 5, 2, deck);
    let (player, deck) = WarriorContext::new(w, None);
    let foe = enemy(60, vec![vec![damage_system(10, RequireTarget::Opponent)]]);
    let mut battle = MapBattlePVE::create(player, deck, vec![foe]).unwrap();
    let mut ctl = controller(10000);
    battle.start(&mut ctl).unwrap();
    let (output, logs) = battle.run(vec![IterationInput::EnemyTurn], &mut ctl).unwrap();
    assert_eq!(output, IterationOutput::PlayerTurn);
    assert_eq!(battle.player.stats.hp, 90);
    assert_eq!(battle.round, 2);
    assert_eq!(count_logs(&logs, |l| matches!(l, FightLog::EnemyTurn(1))), 1);
    assert_eq!(count_logs(&logs, |l| matches!(l, FightLog::DiscardAllHandDeck)), 1);
    assert_eq!(count_logs(&logs, |l| matches!(l, FightLog::PlayerTurn(2))), 1);
    assert_eq!(count_logs(&logs, |l| matches!(l, FightLog::RecoverPower)), 1);
    // the hand was discarded, then redrawn
    assert_eq!(battle.player_deck.hand_deck.len(), 2);
}

#[test]
fn terminal_outcome_vetoes_queued_instructions_but_still_logs_them() {
    // The enemy dies to the first of two queued hits: the game-over event is
    // written once, the second instruction is still drained and logged, and
    // no stat moves afterwards.
    let killer = card(
        7,
        1,
        vec![
            damage_system(100, RequireTarget::Opponent),
            damage_system(100, RequireTarget::Opponent),
        ],
    );
    let deck: Vec<Card> = vec![killer.clone(), killer.clone(), killer];
    let w = warrior(100, 5, 2, deck);
    let (player, deck) = WarriorContext::new(w, None);
    let mut battle = MapBattlePVE::create(player, deck, vec![enemy(50, vec![vec![]])]).unwrap();
    let mut ctl = controller(10000);
    battle.start(&mut ctl).unwrap();
    let (output, logs) = battle
        .run(
            vec![IterationInput::HandCardUse(Selection::SingleCard(0), Some(0))],
            &mut ctl,
        )
        .unwrap();
    assert_eq!(output, IterationOutput::GameWin);
    assert_eq!(count_logs(&logs, |l| matches!(l, FightLog::GameOver)), 1);
    assert_eq!(count_logs(&logs, |l| matches!(l, FightLog::CallSystem(_, _))), 2);
    let gameover_at = logs.iter().position(|l| matches!(l, FightLog::GameOver)).unwrap();
    assert!(logs[gameover_at..]
        .iter()
        .all(|l| !matches!(l, FightLog::SystemDamage(_, _))));
    let (player, _deck, opponents) = battle.destroy().unwrap();
    assert_eq!(opponents[0].stats.hp, 0);
    // the player's battle-only modifiers were reset on the confirmed win
    assert_eq!(player.mounting_systems.len(), 0);
}

#[test]
fn durable_heal_arms_fires_twice_and_unmounts() {
    // A durable heal with duration count 2 mounted on the player: the first
    // matching trigger arms it (mount logged, no heal); each of the next two
    // matching triggers heals and decrements; the second reaching zero also
    // unmounts. Exactly two heal applications, one mount, one unmount.
    let deck: Vec<Card> = (0..8).map(|i| card(i, 1, vec![])).collect();
    let w = warrior(100, 5, 1, deck);
    let (player, deck) = WarriorContext::new(w, None);
    let foe = enemy(60, vec![vec![damage_system(10, RequireTarget::Opponent)]]);
    let mut battle = MapBattlePVE::create(player, deck, vec![foe]).unwrap();
    // heal 5 on the player whenever a player-turn event fires (tag 3)
    let heal = System {
        id: 77,
        system_id: SystemId::TriggerRecoverHp,
        args: vec![Value(5)],
        duration: Some(Duration { trigger: 3, count: 2 }),
        target_type: RequireTarget::Owner,
    };
    battle.player.add_mounting_system(&SystemContext::new(heal));
    let mut ctl = controller(10000);
    // start logs the first player turn: the effect arms without healing
    let (_, logs) = battle.start(&mut ctl).unwrap();
    assert_eq!(count_logs(&logs, |l| matches!(l, FightLog::AddSystem(0, 77))), 1);
    assert_eq!(
        count_logs(&logs, |l| matches!(l, FightLog::SystemRecoverHp(0, _))),
        0
    );
    assert_eq!(battle.player.stats.hp, 100);
    // round one: the enemy hits for 10, then the next player turn heals 5
    let (_, logs) = battle.run(vec![IterationInput::EnemyTurn], &mut ctl).unwrap();
    assert_eq!(
        count_logs(&logs, |l| matches!(l, FightLog::SystemRecoverHp(0, 5))),
        1
    );
    assert_eq!(battle.player.stats.hp, 95);
    // round two: hit again, the last charge heals and the effect unmounts
    let (_, logs) = battle.run(vec![IterationInput::EnemyTurn], &mut ctl).unwrap();
    assert_eq!(
        count_logs(&logs, |l| matches!(l, FightLog::SystemRecoverHp(0, 5))),
        1
    );
    assert_eq!(count_logs(&logs, |l| matches!(l, FightLog::RemoveSystem(0, 77))), 1);
    assert_eq!(battle.player.stats.hp, 90);
    assert_eq!(battle.player.mounting_systems.len(), 0);
    // a third round heals nothing: the effect is gone
    let (_, logs) = battle.run(vec![IterationInput::EnemyTurn], &mut ctl).unwrap();
    assert_eq!(
        count_logs(&logs, |l| matches!(l, FightLog::SystemRecoverHp(0, _))),
        0
    );
}

#[test]
fn pending_select_without_a_prompt_is_refused() {
    let deck: Vec<Card> = (0..3).map(|i| card(i, 1, vec![])).collect();
    let w = warrior(100, 5, 1, deck);
    let (player, deck) = WarriorContext::new(w, None);
    let mut battle = MapBattlePVE::create(player, deck, vec![enemy(30, vec![vec![]])]).unwrap();
    let mut ctl = controller(10000);
    battle.start(&mut ctl).unwrap();
    let r = battle.run(
        vec![IterationInput::PendingCardSelect(Selection::MultiCards(vec![1]))],
        &mut ctl,
    );
    assert!(matches!(r, Err(Error::BattleUnexpectedOutput)));
}

#[test]
fn mismatched_selection_shapes_are_refused() {
    let deck: Vec<Card> = (0..3).map(|i| card(i, 1, vec![])).collect();
    let w = warrior(100, 5, 1, deck);
    let (player, deck) = WarriorContext::new(w, None);
    let mut battle = MapBattlePVE::create(player, deck, vec![enemy(30, vec![vec![]])]).unwrap();
    let mut ctl = controller(10000);
    battle.start(&mut ctl).unwrap();
    let r = battle.run(
        vec![IterationInput::HandCardUse(Selection::Item(0), None)],
        &mut ctl,
    );
    assert!(matches!(r, Err(Error::BattleSelectionMismatch)));
}

#[test]
fn destroy_before_a_terminal_outcome_is_refused() {
    let deck: Vec<Card> = (0..3).map(|i| card(i, 1, vec![])).collect();
    let w = warrior(100, 5, 1, deck);
    let (player, deck) = WarriorContext::new(w, None);
    let battle = MapBattlePVE::create(player, deck, vec![enemy(30, vec![vec![]])]).unwrap();
    assert!(matches!(battle.destroy(), Err(Error::BattleNotFinished)));
}

#[test]
fn peak_target_reports_whether_a_prompt_is_needed() {
    let needs_target = card(1, 1, vec![damage_system(3, RequireTarget::Opponent)]);
    let broadcast = card(2, 1, vec![damage_system(3, RequireTarget::AllOpponents)]);
    let double = card(
        3,
        1,
        vec![
            damage_system(3, RequireTarget::Opponent),
            damage_system(3, RequireTarget::Opponent),
        ],
    );
    let w = warrior(100, 5, 3, vec![needs_target, broadcast, double]);
    let (player, deck) = WarriorContext::new(w, None);
    let mut battle = MapBattlePVE::create(player, deck, vec![enemy(30, vec![vec![]])]).unwrap();
    let mut ctl = controller(12);
    battle.start(&mut ctl).unwrap();
    let mut saw_true = 0;
    let mut saw_false = 0;
    let mut saw_broken = 0;
    for i in 0..battle.player_deck.hand_deck.len() {
        match battle.peak_target(Selection::SingleCard(i)) {
            Ok(true) => saw_true += 1,
            Ok(false) => saw_false += 1,
            Err(Error::ResourceSystemTargetInSystemPoolDuplicated) => saw_broken += 1,
            other => panic!("unexpected peak outcome {other:?}"),
        }
    }
    assert_eq!((saw_true, saw_false, saw_broken), (1, 1, 1));
    assert!(matches!(
        battle.peak_target(Selection::SingleCard(99)),
        Err(Error::BattleSelectionError)
    ));
    assert!(matches!(
        battle.peak_target(Selection::Item(0)),
        Err(Error::BattleInvalidPeakOperation)
    ));
}

#[test]
fn weaken_scales_damage_multiplicatively() {
    // attacker weaken 4 of 10: a raw 20 hit lands (20 * 6) / 10 = 12
    let deck: Vec<Card> = (0..3).map(|i| card(i, 1, vec![damage_system(20, RequireTarget::Opponent)])).collect();
    let mut w = warrior(100, 5, 2, deck);
    w.attack_weak = 4;
    let (player, deck) = WarriorContext::new(w, None);
    let mut battle = MapBattlePVE::create(player, deck, vec![enemy(60, vec![vec![]])]).unwrap();
    let mut ctl = controller(10000);
    battle.start(&mut ctl).unwrap();
    battle
        .run(
            vec![IterationInput::HandCardUse(Selection::SingleCard(0), Some(0))],
            &mut ctl,
        )
        .unwrap();
    assert_eq!(battle.opponents[0].stats.hp, 48);
}

#[test]
fn damage_consumes_shield_then_armor_then_hp() {
    let deck: Vec<Card> = (0..3).map(|i| card(i, 1, vec![damage_system(20, RequireTarget::Opponent)])).collect();
    let w = warrior(100, 5, 2, deck);
    let (player, deck) = WarriorContext::new(w, None);
    let mut foe = enemy(60, vec![vec![]]);
    foe.shield = 5;
    foe.armor = 8;
    let mut battle = MapBattlePVE::create(player, deck, vec![foe]).unwrap();
    let mut ctl = controller(10000);
    battle.start(&mut ctl).unwrap();
    battle
        .run(
            vec![IterationInput::HandCardUse(Selection::SingleCard(0), Some(0))],
            &mut ctl,
        )
        .unwrap();
    // 20 damage: 5 eaten by the shield, 8 by the armor, 7 by hit points
    assert_eq!(battle.opponents[0].stats.shield, 0);
    assert_eq!(battle.opponents[0].stats.armor, 0);
    assert_eq!(battle.opponents[0].stats.hp, 53);
}

#[test]
fn enemy_with_no_actions_is_broken_content() {
    let deck: Vec<Card> = (0..3).map(|i| card(i, 1, vec![])).collect();
    let w = warrior(100, 5, 1, deck);
    let (player, deck) = WarriorContext::new(w, None);
    let mut battle = MapBattlePVE::create(player, deck, vec![enemy(30, vec![])]).unwrap();
    let mut ctl = controller(10000);
    battle.start(&mut ctl).unwrap();
    let r = battle.run(vec![IterationInput::EnemyTurn], &mut ctl);
    assert!(matches!(r, Err(Error::ResourceBrokenEnemyStrategy)));
}

#[test]
fn enemy_strategy_reshuffles_from_the_template_when_exhausted() {
    let deck: Vec<Card> = (0..9).map(|i| card(i, 1, vec![])).collect();
    let w = warrior(100, 5, 1, deck);
    let (player, deck) = WarriorContext::new(w, None);
    let foe = enemy(60, vec![vec![damage_system(1, RequireTarget::Opponent)]]);
    let mut battle = MapBattlePVE::create(player, deck, vec![foe]).unwrap();
    let mut ctl = controller(10000);
    battle.start(&mut ctl).unwrap();
    // the single-action strategy is consumed and rebuilt every round
    for round in 0..3 {
        let (output, _) = battle.run(vec![IterationInput::EnemyTurn], &mut ctl).unwrap();
        assert_eq!(output, IterationOutput::PlayerTurn);
        assert_eq!(battle.player.stats.hp, 100 - (round + 1));
    }
}

#[test]
fn draw_selection_resolves_to_a_prompt_with_the_pool_command() {
    let selector = SystemContext::new(System {
        id: 11,
        system_id: SystemId::InstantDrawSelectCards,
        args: vec![Value(1), Value(2)],
        duration: None,
        target_type: RequireTarget::Owner,
    });
    let w = warrior(100, 5, 1, (0..3).map(|i| card(i, 1, vec![])).collect());
    let (mut player, mut deck) = WarriorContext::new(w, None);
    let mut opponents = vec![];
    let mut ctl = controller(3);
    let r = ctl
        .system_call(selector, 0, &vec![0], &mut player, &mut opponents, &mut deck, None)
        .unwrap();
    match r {
        SystemReturn::RequireCardSelect(count, is_draw, commands) => {
            assert_eq!((count, is_draw), (2, true));
            assert!(matches!(
                commands.as_slice(),
                [Command::SetSelectionPool(DeckSource::FromGrave)]
            ));
        },
        other => panic!("expected a selection prompt, got another return"),
    }
}

#[test]
fn player_cast_selection_is_an_authoring_error() {
    // Whether a player-view instruction may demand a card selection is a
    // content-authoring constraint: the engine refuses it outright.
    let selector = System {
        id: 11,
        system_id: SystemId::InstantDiscardSelectCards,
        args: vec![Value(1)],
        duration: None,
        target_type: RequireTarget::Owner,
    };
    let deck: Vec<Card> = (0..4).map(|i| card(i, 1, vec![selector.clone()])).collect();
    let w = warrior(100, 5, 2, deck);
    let (player, deck) = WarriorContext::new(w, None);
    let mut battle = MapBattlePVE::create(player, deck, vec![enemy(30, vec![vec![]])]).unwrap();
    let mut ctl = controller(10000);
    battle.start(&mut ctl).unwrap();
    let r = battle.run(
        vec![IterationInput::HandCardUse(Selection::SingleCard(0), None)],
        &mut ctl,
    );
    assert!(matches!(r, Err(Error::ResourceSystemCardSelectionInEnemy)));
}

#[test]
fn prop_item_casts_its_systems_and_is_consumed() {
    let armor = System {
        id: 21,
        system_id: SystemId::InstantArmorUp,
        args: vec![Value(7)],
        duration: None,
        target_type: RequireTarget::Owner,
    };
    let mut w = warrior(100, 5, 1, (0..3).map(|i| card(i, 1, vec![])).collect());
    w.package_status = vec![Item {
        id: 300,
        class: ItemClass::Props,
        quality: 0,
        weight: 0,
        price: 0,
        system_pool: vec![armor],
    }];
    let (player, deck) = WarriorContext::new(w, None);
    assert_eq!(player.props_list.len(), 1);
    let mut battle = MapBattlePVE::create(player, deck, vec![enemy(30, vec![vec![]])]).unwrap();
    let mut ctl = controller(10000);
    battle.start(&mut ctl).unwrap();
    let (output, logs) = battle
        .run(
            vec![IterationInput::ItemUse(Selection::Item(0), None)],
            &mut ctl,
        )
        .unwrap();
    assert_eq!(output, IterationOutput::Continue);
    assert_eq!(battle.player.props_list.len(), 0);
    assert_eq!(battle.player.stats.armor, 7);
    assert_eq!(count_logs(&logs, |l| matches!(l, FightLog::ItemUse(0))), 1);
    assert_eq!(
        count_logs(&logs, |l| matches!(l, FightLog::SystemArmorUp(0, 7))),
        1
    );
    // the consumed slot is gone
    let r = battle.run(vec![IterationInput::ItemUse(Selection::Item(0), None)], &mut ctl);
    assert!(matches!(r, Err(Error::BattleSelectionError)));
}

#[test]
fn equipment_fires_its_systems_when_the_battle_starts() {
    let shield = System {
        id: 22,
        system_id: SystemId::InstantShieldUp,
        args: vec![Value(4)],
        duration: None,
        target_type: RequireTarget::Owner,
    };
    let mut w = warrior(100, 5, 1, (0..3).map(|i| card(i, 1, vec![])).collect());
    w.package_status = vec![Item {
        id: 301,
        class: ItemClass::Equipment,
        quality: 0,
        weight: 0,
        price: 0,
        system_pool: vec![shield],
    }];
    let (player, deck) = WarriorContext::new(w, None);
    assert_eq!(player.equipment_list.len(), 1);
    let mut battle = MapBattlePVE::create(player, deck, vec![enemy(30, vec![vec![]])]).unwrap();
    let mut ctl = controller(10000);
    let (output, logs) = battle.start(&mut ctl).unwrap();
    assert_eq!(output, IterationOutput::Continue);
    assert_eq!(battle.player.stats.shield, 4);
    assert_eq!(
        count_logs(&logs, |l| matches!(l, FightLog::SystemShieldUp(0, 4))),
        1
    );
}

#[test]
fn special_card_use_spends_power_without_leaving_the_deck() {
    let mut w = warrior(100, 5, 1, (0..3).map(|i| card(i, 1, vec![])).collect());
    w.charactor_card = card(900, 2, vec![damage_system(6, RequireTarget::Opponent)]);
    let (player, deck) = WarriorContext::new(w, None);
    let mut battle = MapBattlePVE::create(player, deck, vec![enemy(60, vec![vec![]])]).unwrap();
    let mut ctl = controller(10000);
    battle.start(&mut ctl).unwrap();
    let (output, logs) = battle
        .run(vec![IterationInput::SpecialCardUse(Some(0))], &mut ctl)
        .unwrap();
    assert_eq!(output, IterationOutput::Continue);
    assert_eq!(battle.player.power, 3);
    assert_eq!(battle.opponents[0].stats.hp, 54);
    assert_eq!(count_logs(&logs, |l| matches!(l, FightLog::SpecialCardUse)), 1);
}

#[test]
fn draw_effect_pulls_cards_through_the_resolver() {
    let drawer = System {
        id: 31,
        system_id: SystemId::InstantDrawCards,
        args: vec![Value(2)],
        duration: None,
        target_type: RequireTarget::Owner,
    };
    let mut deck: Vec<Card> = (0..6).map(|i| card(i, 1, vec![])).collect();
    deck[0] = card(91, 1, vec![drawer]);
    let w = warrior(100, 5, 1, deck);
    let (player, deck) = WarriorContext::new(w, None);
    let mut battle = MapBattlePVE::create(player, deck, vec![enemy(30, vec![vec![]])]).unwrap();
    let mut ctl = controller(2);
    battle.start(&mut ctl).unwrap();
    // make the draw-effect card the one in hand
    let drawer_pos = battle
        .player_deck
        .hand_deck
        .iter()
        .position(|c| c.card.id == 91);
    let Some(pos) = drawer_pos else {
        // the opening draw missed the effect card under this seed; the
        // scenario needs it in hand, so fetch it from the deck
        let in_deck = battle.player_deck.deck.iter().position(|c| c.card.id == 91).unwrap();
        let card = battle.player_deck.deck.remove(in_deck);
        battle.player_deck.hand_deck.push(card);
        let pos = battle.player_deck.hand_deck.len() - 1;
        let hand_before = battle.player_deck.hand_deck.len();
        let (_, logs) = battle
            .run(
                vec![IterationInput::HandCardUse(Selection::SingleCard(pos), None)],
                &mut ctl,
            )
            .unwrap();
        assert_eq!(battle.player_deck.hand_deck.len(), hand_before - 1 + 2);
        assert_eq!(count_logs(&logs, |l| matches!(l, FightLog::Draw(_))), 2);
        return;
    };
    let hand_before = battle.player_deck.hand_deck.len();
    let (_, logs) = battle
        .run(
            vec![IterationInput::HandCardUse(Selection::SingleCard(pos), None)],
            &mut ctl,
        )
        .unwrap();
    assert_eq!(battle.player_deck.hand_deck.len(), hand_before - 1 + 2);
    assert_eq!(count_logs(&logs, |l| matches!(l, FightLog::Draw(_))), 2);
}

#[test]
fn cost_change_effect_rewrites_a_random_hand_card() {
    let changer = System {
        id: 32,
        system_id: SystemId::InstantChangePowerCost,
        args: vec![Value(0)],
        duration: None,
        target_type: RequireTarget::Owner,
    };
    let mut deck: Vec<Card> = (0..5).map(|i| card(i, 3, vec![])).collect();
    deck[0] = card(92, 1, vec![changer]);
    let w = warrior(100, 5, 1, deck);
    let (player, deck) = WarriorContext::new(w, None);
    let mut battle = MapBattlePVE::create(player, deck, vec![enemy(30, vec![vec![]])]).unwrap();
    let mut ctl = controller(2);
    battle.start(&mut ctl).unwrap();
    // put the cost-change card in hand together with one ordinary card
    battle.player_deck.deck.retain(|c| c.card.id != 92);
    let hand = std::mem::take(&mut battle.player_deck.hand_deck);
    battle.player_deck.grave_deck.extend(hand);
    battle
        .player_deck
        .hand_deck
        .push(spore_warriors_core::contexts::CardContext::new(card(92, 1, vec![System {
            id: 32,
            system_id: SystemId::InstantChangePowerCost,
            args: vec![Value(0)],
            duration: None,
            target_type: RequireTarget::Owner,
        }])));
    battle
        .player_deck
        .hand_deck
        .push(spore_warriors_core::contexts::CardContext::new(card(93, 3, vec![])));
    battle.player_deck.renumber(100);
    let (_, logs) = battle
        .run(
            vec![IterationInput::HandCardUse(Selection::SingleCard(0), None)],
            &mut ctl,
        )
        .unwrap();
    assert_eq!(
        count_logs(&logs, |l| matches!(l, FightLog::SystemPowerCostChange(_, 0))),
        1
    );
    assert_eq!(battle.player_deck.hand_deck[0].power_cost, 0);
}

#[test]
fn damage_chains_follow_up_templates_from_the_system_pool() {
    // Trailing argument pairs of a damage template chain follow-up effects:
    // the hit lands first, then the chained template resolves ahead of the
    // rest of the queue.
    let chained_armor = System {
        id: 400,
        system_id: SystemId::InstantArmorUp,
        args: vec![Value(3)],
        duration: None,
        target_type: RequireTarget::Owner,
    };
    let chaining_attack = System {
        id: 1,
        system_id: SystemId::InstantDamage,
        args: vec![Value(5), Value(1), Value(400)],
        duration: None,
        target_type: RequireTarget::Opponent,
    };
    let deck: Vec<Card> = (0..3).map(|i| card(i, 1, vec![chaining_attack.clone()])).collect();
    let w = warrior(100, 5, 2, deck);
    let (player, deck) = WarriorContext::new(w, None);
    let mut battle = MapBattlePVE::create(player, deck, vec![enemy(60, vec![vec![]])]).unwrap();
    let mut ctl = SystemController::new(vec![chained_armor], vec![], SporeRng::new(10000));
    battle.start(&mut ctl).unwrap();
    let (_, logs) = battle
        .run(
            vec![IterationInput::HandCardUse(Selection::SingleCard(0), Some(0))],
            &mut ctl,
        )
        .unwrap();
    assert_eq!(battle.opponents[0].stats.hp, 55);
    assert_eq!(battle.player.stats.armor, 3);
    let dmg_at = logs.iter().position(|l| matches!(l, FightLog::SystemDamage(_, 5))).unwrap();
    let armor_at = logs.iter().position(|l| matches!(l, FightLog::SystemArmorUp(0, 3))).unwrap();
    assert!(dmg_at < armor_at);
}

#[test]
fn damage_with_an_unknown_chained_template_is_broken_content() {
    let chaining_attack = System {
        id: 1,
        system_id: SystemId::InstantDamage,
        args: vec![Value(5), Value(1), Value(401)],
        duration: None,
        target_type: RequireTarget::Opponent,
    };
    let deck: Vec<Card> = (0..3).map(|i| card(i, 1, vec![chaining_attack.clone()])).collect();
    let w = warrior(100, 5, 2, deck);
    let (player, deck) = WarriorContext::new(w, None);
    let mut battle = MapBattlePVE::create(player, deck, vec![enemy(60, vec![vec![]])]).unwrap();
    let mut ctl = controller(10000);
    // every card's systems fire at battle onset, so the broken pair already
    // surfaces there; validation precedes application and nothing was hit
    let r = battle.start(&mut ctl);
    assert!(matches!(r, Err(Error::BattleUnexpectedSystemArgs)));
    assert_eq!(battle.opponents[0].stats.hp, 60);
    assert_eq!(battle.player.stats.hp, 100);
}

#[test]
fn multi_hit_damage_lands_each_hit_separately() {
    // three hits of four: the first two chew through the shield of five,
    // the remainder reaches hit points hit by hit
    let volley = System {
        id: 2,
        system_id: SystemId::InstantMultipleDamage,
        args: vec![Value(4), Value(3)],
        duration: None,
        target_type: RequireTarget::Opponent,
    };
    let deck: Vec<Card> = (0..3).map(|i| card(i, 1, vec![volley.clone()])).collect();
    let w = warrior(100, 5, 2, deck);
    let (player, deck) = WarriorContext::new(w, None);
    let mut foe = enemy(60, vec![vec![]]);
    foe.shield = 5;
    let mut battle = MapBattlePVE::create(player, deck, vec![foe]).unwrap();
    let mut ctl = controller(10000);
    battle.start(&mut ctl).unwrap();
    let (_, logs) = battle
        .run(
            vec![IterationInput::HandCardUse(Selection::SingleCard(0), Some(0))],
            &mut ctl,
        )
        .unwrap();
    // hit one: shield 5 -> 1; hit two: shield 1 -> 0, hp -3; hit three: hp -4
    assert_eq!(battle.opponents[0].stats.shield, 0);
    assert_eq!(battle.opponents[0].stats.hp, 53);
    assert_eq!(
        count_logs(&logs, |l| matches!(l, FightLog::SystemDamage(_, 4))),
        3
    );
}

#[test]
fn enemy_attack_uses_its_own_stat_and_weaken() {
    // raw 10 + enemy attack 6, scaled by the enemy's weaken 5 of 10:
    // (10 + 6) * 5 / 10 = 8 damage to the player
    let deck: Vec<Card> = (0..5).map(|i| card(i, 1, vec![])).collect();
    let w = warrior(100, 5, 1, deck);
    let (player, deck) = WarriorContext::new(w, None);
    let mut foe = enemy(60, vec![vec![damage_system(10, RequireTarget::Opponent)]]);
    foe.attack = 6;
    foe.attack_weak = 5;
    let mut battle = MapBattlePVE::create(player, deck, vec![foe]).unwrap();
    let mut ctl = controller(10000);
    battle.start(&mut ctl).unwrap();
    let (output, _) = battle.run(vec![IterationInput::EnemyTurn], &mut ctl).unwrap();
    assert_eq!(output, IterationOutput::PlayerTurn);
    assert_eq!(battle.player.stats.hp, 92);
}

#[test]
fn multi_hit_volley_reaches_every_opponent() {
    // two hits of three against all opponents: both enemies lose six, and
    // one damage event lands per hit per target (four in all)
    let volley = System {
        id: 2,
        system_id: SystemId::InstantMultipleDamage,
        args: vec![Value(3), Value(2)],
        duration: None,
        target_type: RequireTarget::AllOpponents,
    };
    let deck: Vec<Card> = (0..3).map(|i| card(i, 1, vec![volley.clone()])).collect();
    let w = warrior(100, 5, 2, deck);
    let (player, deck) = WarriorContext::new(w, None);
    let mut battle =
        MapBattlePVE::create(player, deck, vec![enemy(40, vec![vec![]]), enemy(50, vec![vec![]])])
            .unwrap();
    let mut ctl = controller(10000);
    battle.start(&mut ctl).unwrap();
    let (_, logs) = battle
        .run(
            vec![IterationInput::HandCardUse(Selection::SingleCard(0), None)],
            &mut ctl,
        )
        .unwrap();
    assert_eq!(battle.opponents[0].stats.hp, 34);
    assert_eq!(battle.opponents[1].stats.hp, 44);
    assert_eq!(
        count_logs(&logs, |l| matches!(l, FightLog::SystemDamage(_, 3))),
        4
    );
}
