use spore_warriors_core::battle::traits::{FightLog, Target};
use spore_warriors_core::contexts::{
    CombatStats, ContextType, CtxAdaptor, EnemyContext, SystemContext, WarriorContext,
};
use spore_warriors_core::errors::Error;
use spore_warriors_core::rng::SporeRng;
use spore_warriors_core::systems::applications::{
    armor_up_apply, attack_apply, attack_power_weak_apply, healing_apply, max_hp_down_apply,
    max_hp_up_apply,
};
use spore_warriors_core::systems::{SystemController, SystemInput, SystemReturn};
use spore_warriors_core::wrappings::{
    ActionStrategy, Card, Enemy, ItemClass, Point, RequireTarget, SizedPoint, System, SystemId,
    Value, Warrior,
};

fn stats(hp: u16, max_hp: u16, armor: u16, shield: u16) -> CombatStats {
    CombatStats {
        hp,
        max_hp,
        armor,
        shield,
        attack: 0,
        attack_weak: 0,
        defense: 0,
        defense_weak: 0,
    }
}

#[test]
fn attack_chain_floors_every_step_at_zero() {
    let mut logs = vec![];
    let mut s = stats(10, 10, 3, 4);
    attack_apply(&mut logs, 5, 0, 0, 1, &mut s);
    // 5 damage: shield 4 -> 0, armor 3 -> 2, hp untouched
    assert_eq!((s.shield, s.armor, s.hp), (0, 2, 10));
    attack_apply(&mut logs, 50, 0, 0, 1, &mut s);
    assert_eq!((s.shield, s.armor, s.hp), (0, 0, 0));
    assert_eq!(logs, vec![FightLog::SystemDamage(1, 5), FightLog::SystemDamage(1, 50)]);
}

#[test]
fn attack_adds_the_attacker_stat_before_scaling() {
    let mut logs = vec![];
    let mut s = stats(100, 100, 0, 0);
    // (7 raw + 3 attack) * (10 - 5) / 10 = 5
    attack_apply(&mut logs, 7, 3, 5, 2, &mut s);
    assert_eq!(s.hp, 95);
}

#[test]
fn full_weaken_nullifies_damage() {
    let mut logs = vec![];
    let mut s = stats(100, 100, 0, 0);
    attack_apply(&mut logs, 500, 200, 10, 2, &mut s);
    assert_eq!(s.hp, 100);
}

#[test]
fn healing_never_exceeds_the_maximum() {
    let mut logs = vec![];
    let mut s = stats(90, 100, 0, 0);
    healing_apply(&mut logs, 25, 0, &mut s);
    assert_eq!(s.hp, 100);
    assert_eq!(logs, vec![FightLog::SystemRecoverHp(0, 10)]);
    healing_apply(&mut logs, 25, 0, &mut s);
    assert_eq!(s.hp, 100);
    assert_eq!(logs.last(), Some(&FightLog::SystemRecoverHp(0, 0)));
}

#[test]
fn armor_gain_saturates_at_the_field_maximum() {
    let mut logs = vec![];
    let mut s = stats(10, 10, u16::MAX - 3, 0);
    armor_up_apply(&mut logs, 50, 0, &mut s);
    assert_eq!(s.armor, u16::MAX);
}

#[test]
fn weaken_counter_never_leaves_its_cap() {
    let mut logs = vec![];
    let mut s = stats(10, 10, 0, 0);
    s.attack_weak = 8;
    attack_power_weak_apply(&mut logs, 200, 0, &mut s);
    assert_eq!(s.attack_weak, 10);
    assert_eq!(logs, vec![FightLog::SystemAttackWeakUp(0, 2)]);
}

#[test]
fn max_hp_changes_move_current_hp_with_them() {
    let mut logs = vec![];
    let mut s = stats(40, 40, 0, 0);
    max_hp_up_apply(&mut logs, 10, &mut s);
    assert_eq!((s.hp, s.max_hp), (50, 50));
    max_hp_down_apply(&mut logs, 20, &mut s);
    assert_eq!((s.hp, s.max_hp), (30, 30));
}

fn bare_warrior() -> Warrior {
    Warrior {
        id: 1,
        charactor_card: Card {
            offset: 0,
            id: 900,
            class: 0,
            power_cost: 2,
            price: 0,
            system_pool: vec![],
        },
        hp: 100,
        gold: 0,
        power: 4,
        motion: 0,
        view_range: 0,
        armor: 0,
        shield: 0,
        attack: 0,
        attack_weak: 0,
        defense: 0,
        defense_weak: 0,
        physique: 0,
        draw_count: 1,
        deck_status: vec![],
        package_status: vec![],
    }
}

fn bare_enemy(hp: u16) -> Enemy {
    Enemy {
        id: 9,
        rank: 0,
        hp,
        armor: 0,
        shield: 0,
        attack: 0,
        attack_weak: 0,
        defense: 0,
        defense_weak: 0,
        strategy: ActionStrategy { random_select: false, actions: vec![] },
    }
}

#[test]
fn game_over_input_vetoes_all_mutation() {
    // Any handler receiving the game-over rebroadcast returns an empty
    // command set and mutates nothing.
    let (mut player, mut deck) = WarriorContext::new(bare_warrior(), None);
    let mut opponents = vec![EnemyContext::new(bare_enemy(50), 1)];
    let mut ctl = SystemController::new(vec![], vec![], SporeRng::new(1));
    let ctx = SystemContext::new(System {
        id: 1,
        system_id: SystemId::InstantDamage,
        args: vec![Value(30)],
        duration: None,
        target_type: RequireTarget::Opponent,
    });
    let hp_before = opponents[0].stats.hp;
    let r = ctl
        .system_call(
            ctx,
            0,
            &vec![1],
            &mut player,
            &mut opponents,
            &mut deck,
            Some(SystemInput::Trigger(FightLog::GameOver)),
        )
        .unwrap();
    match r {
        SystemReturn::Continue(cmds) => assert!(cmds.is_empty()),
        _ => panic!("veto must resolve to an empty continuation"),
    }
    assert_eq!(opponents[0].stats.hp, hp_before);
    assert_eq!(player.stats.hp, 100);
}

#[test]
fn missing_arguments_are_reported() {
    let (mut player, mut deck) = WarriorContext::new(bare_warrior(), None);
    let mut opponents = vec![EnemyContext::new(bare_enemy(50), 1)];
    let mut ctl = SystemController::new(vec![], vec![], SporeRng::new(1));
    let ctx = SystemContext::new(System {
        id: 1,
        system_id: SystemId::InstantDamage,
        args: vec![],
        duration: None,
        target_type: RequireTarget::Opponent,
    });
    let r = ctl.system_call(ctx, 0, &vec![1], &mut player, &mut opponents, &mut deck, None);
    assert!(matches!(r, Err(Error::BattleUnexpectedSystemArgs)));
}

#[test]
fn durable_handler_without_a_duration_rule_is_an_error() {
    let (mut player, mut deck) = WarriorContext::new(bare_warrior(), None);
    let mut opponents = vec![EnemyContext::new(bare_enemy(50), 1)];
    let mut ctl = SystemController::new(vec![], vec![], SporeRng::new(1));
    let ctx = SystemContext::new(System {
        id: 2,
        system_id: SystemId::TriggerRecoverHp,
        args: vec![Value(5)],
        duration: None,
        target_type: RequireTarget::Owner,
    });
    let r = ctl.system_call(
        ctx,
        0,
        &vec![0],
        &mut player,
        &mut opponents,
        &mut deck,
        Some(SystemInput::Trigger(FightLog::RecoverPower)),
    );
    assert!(matches!(r, Err(Error::BattleUnexpectedSystemDuration)));
}

#[test]
fn system_id_codes_round_trip() {
    for code in 0..=28u16 {
        let id = SystemId::from_code(code).unwrap();
        assert_eq!(id.code(), code);
    }
    assert_eq!(SystemId::from_code(29), Err(Error::ResourceBrokenSystemId));
}

#[test]
fn target_rule_codes_decode_with_a_gap_at_two() {
    assert_eq!(RequireTarget::from_code(0), Ok(RequireTarget::Owner));
    assert_eq!(RequireTarget::from_code(1), Ok(RequireTarget::Opponent));
    assert_eq!(
        RequireTarget::from_code(2),
        Err(Error::ResourceBrokenTargetPosition)
    );
    assert_eq!(RequireTarget::from_code(3), Ok(RequireTarget::RandomOpponent));
    assert_eq!(RequireTarget::from_code(4), Ok(RequireTarget::AllOpponents));
    assert_eq!(RequireTarget::from_code(5), Ok(RequireTarget::AllCharactors));
    assert_eq!(
        RequireTarget::from_code(6),
        Err(Error::ResourceBrokenTargetPosition)
    );
}

#[test]
fn item_class_codes_decode() {
    assert_eq!(ItemClass::from_code(0), Ok(ItemClass::Equipment));
    assert_eq!(ItemClass::from_code(1), Ok(ItemClass::Props));
    assert_eq!(ItemClass::from_code(2), Err(Error::ResourceBrokenItemClass));
}

#[test]
fn sized_point_covers_its_halo() {
    let p = SizedPoint::new(Point::from_xy(2, 3), 1, 1);
    assert!(p.contains(&Point::from_xy(2, 3)));
    assert!(p.contains(&Point::from_xy(1, 2)));
    assert!(p.contains(&Point::from_xy(3, 4)));
    assert!(!p.contains(&Point::from_xy(4, 3)));
    assert!(!p.contains(&Point::from_xy(2, 5)));
    // the halo clamps at the grid border
    let origin = SizedPoint::new(Point::from_xy(0, 0), 1, 1);
    assert!(origin.contains(&Point::from_xy(0, 0)));
    assert!(origin.contains(&Point::from_xy(1, 1)));
    assert!(!origin.contains(&Point::from_xy(2, 0)));
}

#[test]
fn participants_report_their_variant_and_identity() {
    let (player, _deck) = WarriorContext::new(bare_warrior(), None);
    assert!(matches!(player.context_type(), ContextType::Warrior));
    assert_eq!(player.offset(), 0);
    let foe = EnemyContext::new(bare_enemy(10), 3);
    assert!(matches!(foe.context_type(), ContextType::Enemy));
    assert_eq!(foe.offset(), 3);
    assert_ne!(Target::Player, Target::Enemy(0));
}

#[test]
fn snapshots_copy_the_live_numbers() {
    let (player, _deck) = WarriorContext::new(bare_warrior(), None);
    let shot = player.snapshot();
    assert_eq!((shot.id, shot.hp, shot.power), (1, 100, 4));
    let foe = EnemyContext::new(bare_enemy(33), 2);
    let shot = foe.snapshot();
    assert_eq!((shot.id, shot.offset, shot.hp, shot.max_hp), (9, 2, 33, 33));
}
