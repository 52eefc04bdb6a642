use vstd::prelude::*;

verus! {

use crate::contexts::WarriorSnapshot;

/// A host-facing target designation for an action.
#[derive(Clone, Copy, Debug, PartialEq, Eq, Structural)]
pub enum Target {
    Player,
    Enemy(usize),
    RandomEnemy,
    AllEnemy,
    AllCharactor,
}

/// What a host selected for an action: an item slot, one hand card slot, or
/// a set of card identities answering a selection prompt.
#[derive(Debug)]
pub enum Selection {
    Item(usize),
    SingleCard(usize),
    MultiCards(Vec<usize>),
}

/// One host request against a running battle.
#[derive(Debug)]
pub enum IterationInput {
    ItemUse(Selection, Option<usize>),
    SpecialCardUse(Option<usize>),
    HandCardUse(Selection, Option<usize>),
    PendingCardSelect(Selection),
    EnemyTurn,
}

/// What a battle reports after processing requests: the player may act, a
/// terminal outcome was reached, a selection prompt blocks progress, or the
/// enemy phase completed cleanly.
#[derive(Clone, Copy, Debug, PartialEq, Eq, Structural)]
pub enum IterationOutput {
    Continue,
    GameWin,
    GameLose,
    RequireCardSelect(u8, bool),
    PlayerTurn,
}

/// One domain event of a battle. Every event is appended to the battle log
/// and rebroadcast to all mounted durable systems before it is recorded. The
/// opening snapshot carries the player's numbers for the host's record; the
/// enemies' numbers stay readable on the battle itself.
#[derive(Clone, Copy, Debug, PartialEq, Eq, Structural)]
pub enum FightLog {
    GameStart,
    Snapshot(WarriorSnapshot),
    EnemyTurn(u8),
    PlayerTurn(u8),
    GameOver,
    PowerCost(u8),
    SpecialCardUse,
    HandCardUse(usize),
    ItemUse(usize),
    Draw(usize),
    DiscardAllHandDeck,
    DiscardHandDeck(usize),
    RecoverGraveDeck,
    RecoverPower,
    RecoverCardCost,
    RecoverHp(u16),
    CallSystem(usize, u16),
    AddSystem(usize, u16),
    UpdateSystem(usize, u16),
    RemoveSystem(usize, u16),
    SystemDamage(usize, u16),
    SystemArmorUp(usize, u16),
    SystemArmorDown(usize, u16),
    SystemShieldUp(usize, u16),
    SystemShieldDown(usize, u16),
    SystemRecoverHp(usize, u16),
    SystemDrawCountUp(u8),
    SystemDrawCountDown(u8),
    SystemAttackPowerUp(usize, u8),
    SystemAttackPowerDown(usize, u8),
    SystemDefensePowerUp(usize, u8),
    SystemDefensePowerDown(usize, u8),
    SystemAttackWeakUp(usize, u8),
    SystemAttackWeakDown(usize, u8),
    SystemDefenseWeakUp(usize, u8),
    SystemDefenseWeakDown(usize, u8),
    SystemMaxHpUp(u16),
    SystemMaxHpDown(u16),
    SystemPowerCostChange(usize, u8),
}

/// How many game-over events a log sequence holds: the terminal event must
/// be recorded exactly once per battle.
pub open spec fn gameover_count(s: Seq<FightLog>) -> nat
    decreases s.len(),
{
    if s.len() == 0 {
        0
    } else {
        gameover_count(s.drop_last()) + (if s.last() is GameOver {
            1nat
        } else {
            0nat
        })
    }
}

/// Appending one event raises the game-over tally exactly when the event is
/// the terminal one.
pub broadcast proof fn lemma_gameover_count_push(s: Seq<FightLog>, x: FightLog)
    ensures
        #[trigger] gameover_count(s.push(x)) == gameover_count(s) + (if x is GameOver {
            1nat
        } else {
            0nat
        }),
{
    assert(s.push(x).drop_last() =~= s);
}

/// The identities carried by the events of one kind, in log order: `f`
/// projects the interesting payload out of an event.
pub open spec fn extract_offsets(s: Seq<FightLog>, f: spec_fn(FightLog) -> Option<usize>) -> Seq<
    usize,
>
    decreases s.len(),
{
    if s.len() == 0 {
        Seq::empty()
    } else {
        match f(s.last()) {
            Some(o) => extract_offsets(s.drop_last(), f).push(o),
            None => extract_offsets(s.drop_last(), f),
        }
    }
}

/// Appending one event extends the extraction exactly by that event's
/// payload, when it has one.
pub broadcast proof fn lemma_extract_offsets_push(
    s: Seq<FightLog>,
    f: spec_fn(FightLog) -> Option<usize>,
    x: FightLog,
)
    ensures
        #[trigger] extract_offsets(s.push(x), f) == match f(x) {
            Some(o) => extract_offsets(s, f).push(o),
            None => extract_offsets(s, f),
        },
{
    assert(s.push(x).drop_last() =~= s);
}

/// The payload of a draw event.
pub open spec fn draw_payload(log: FightLog) -> Option<usize> {
    match log {
        FightLog::Draw(o) => Some(o),
        _ => None,
    }
}

/// The draw-event projection as a first-class spec function.
pub open spec fn draw_payload_fn() -> spec_fn(FightLog) -> Option<usize> {
    |l: FightLog| draw_payload(l)
}

/// The payload of a hand-discard event.
pub open spec fn discard_payload(log: FightLog) -> Option<usize> {
    match log {
        FightLog::DiscardHandDeck(o) => Some(o),
        _ => None,
    }
}

/// The discard-event projection as a first-class spec function.
pub open spec fn discard_payload_fn() -> spec_fn(FightLog) -> Option<usize> {
    |l: FightLog| discard_payload(l)
}

/// How many grave-recovery events a log sequence holds.
pub open spec fn recover_count(s: Seq<FightLog>) -> nat
    decreases s.len(),
{
    if s.len() == 0 {
        0
    } else {
        recover_count(s.drop_last()) + (if s.last() is RecoverGraveDeck {
            1nat
        } else {
            0nat
        })
    }
}

/// Appending one event raises the grave-recovery tally exactly when the
/// event is a recovery.
pub broadcast proof fn lemma_recover_count_push(s: Seq<FightLog>, x: FightLog)
    ensures
        #[trigger] recover_count(s.push(x)) == recover_count(s) + (if x is RecoverGraveDeck {
            1nat
        } else {
            0nat
        }),
{
    assert(s.push(x).drop_last() =~= s);
}

/// The log is append-only: the new sequence keeps the old one as its
/// prefix.
pub open spec fn log_extends(old_s: Seq<FightLog>, new_s: Seq<FightLog>) -> bool {
    old_s.len() <= new_s.len() && new_s.take(old_s.len() as int) == old_s
}

/// Extension is reflexive.
pub broadcast proof fn lemma_log_extends_refl(s: Seq<FightLog>)
    ensures
        #[trigger] log_extends(s, s),
{
    assert(s.take(s.len() as int) =~= s);
}

/// Appending extends; extension composes.
pub broadcast proof fn lemma_log_extends_push(s: Seq<FightLog>, x: FightLog)
    ensures
        #[trigger] log_extends(s, s.push(x)),
{
    assert(s.push(x).take(s.len() as int) =~= s);
}

/// Two extensions in a row are one extension.
pub broadcast proof fn lemma_log_extends_trans(a: Seq<FightLog>, b: Seq<FightLog>, c: Seq<FightLog>)
    requires
        log_extends(a, b),
        #[trigger] log_extends(b, c),
    ensures
        #[trigger] log_extends(a, c),
{
    assert(c.take(a.len() as int) =~= b.take(a.len() as int));
}

/// How many damage events a log sequence holds.
pub open spec fn damage_count(s: Seq<FightLog>) -> nat
    decreases s.len(),
{
    if s.len() == 0 {
        0
    } else {
        damage_count(s.drop_last()) + (if s.last() is SystemDamage {
            1nat
        } else {
            0nat
        })
    }
}

/// Appending one event raises the damage tally exactly when the event is a
/// damage event.
pub broadcast proof fn lemma_damage_count_push(s: Seq<FightLog>, x: FightLog)
    ensures
        #[trigger] damage_count(s.push(x)) == damage_count(s) + (if x is SystemDamage {
            1nat
        } else {
            0nat
        }),
{
    assert(s.push(x).drop_last() =~= s);
}

/// An append-only extension never loses extracted entries.
pub proof fn lemma_extract_monotone(
    a: Seq<FightLog>,
    b: Seq<FightLog>,
    f: spec_fn(FightLog) -> Option<usize>,
)
    requires
        log_extends(a, b),
    ensures
        extract_offsets(a, f).len() <= extract_offsets(b, f).len(),
    decreases b.len(),
{
    if a.len() < b.len() {
        assert(log_extends(a, b.drop_last())) by {
            assert(b.drop_last().take(a.len() as int) =~= b.take(a.len() as int));
        }
        lemma_extract_monotone(a, b.drop_last(), f);
    } else {
        assert(b.take(a.len() as int) =~= b);
    }
}

/// A sequence with a zero game-over tally holds no game-over event.
pub proof fn lemma_gameover_count_zero(s: Seq<FightLog>)
    requires
        gameover_count(s) == 0,
    ensures
        forall|i: int| 0 <= i < s.len() ==> !((#[trigger] s[i]) is GameOver),
    decreases s.len(),
{
    if s.len() > 0 {
        lemma_gameover_count_zero(s.drop_last());
        assert(forall|i: int| 0 <= i < s.len() - 1 ==> s[i] == s.drop_last()[i]);
    }
}

/// The trigger tag of each log event: the number a durable system's duration
/// rule names to react to events of that kind.
pub open spec fn log_tag(log: FightLog) -> u16 {
    match log {
        FightLog::GameStart => 0,
        FightLog::Snapshot(_) => 1,
        FightLog::EnemyTurn(_) => 2,
        FightLog::PlayerTurn(_) => 3,
        FightLog::GameOver => 4,
        FightLog::PowerCost(_) => 5,
        FightLog::SpecialCardUse => 6,
        FightLog::HandCardUse(_) => 7,
        FightLog::ItemUse(_) => 8,
        FightLog::Draw(_) => 9,
        FightLog::DiscardAllHandDeck => 10,
        FightLog::DiscardHandDeck(_) => 11,
        FightLog::RecoverGraveDeck => 12,
        FightLog::RecoverPower => 13,
        FightLog::RecoverCardCost => 14,
        FightLog::RecoverHp(_) => 15,
        FightLog::CallSystem(_, _) => 16,
        FightLog::AddSystem(_, _) => 17,
        FightLog::UpdateSystem(_, _) => 18,
        FightLog::RemoveSystem(_, _) => 19,
        FightLog::SystemDamage(_, _) => 20,
        FightLog::SystemArmorUp(_, _) => 21,
        FightLog::SystemArmorDown(_, _) => 22,
        FightLog::SystemShieldUp(_, _) => 23,
        FightLog::SystemShieldDown(_, _) => 24,
        FightLog::SystemRecoverHp(_, _) => 25,
        FightLog::SystemDrawCountUp(_) => 26,
        FightLog::SystemDrawCountDown(_) => 27,
        FightLog::SystemAttackPowerUp(_, _) => 28,
        FightLog::SystemAttackPowerDown(_, _) => 29,
        FightLog::SystemDefensePowerUp(_, _) => 30,
        FightLog::SystemDefensePowerDown(_, _) => 31,
        FightLog::SystemAttackWeakUp(_, _) => 32,
        FightLog::SystemAttackWeakDown(_, _) => 33,
        FightLog::SystemDefenseWeakUp(_, _) => 34,
        FightLog::SystemDefenseWeakDown(_, _) => 35,
        FightLog::SystemMaxHpUp(_) => 36,
        FightLog::SystemMaxHpDown(_) => 37,
        FightLog::SystemPowerCostChange(_, _) => 38,
    }
}

impl FightLog {
    /// Reports the trigger tag of this event (see [`log_tag`]).
    pub fn tag(&self) -> (r: u16)
        ensures
            r == log_tag(*self),
    {
        match self {
            FightLog::GameStart => 0,
            FightLog::Snapshot(_) => 1,
            FightLog::EnemyTurn(_) => 2,
            FightLog::PlayerTurn(_) => 3,
            FightLog::GameOver => 4,
            FightLog::PowerCost(_) => 5,
            FightLog::SpecialCardUse => 6,
            FightLog::HandCardUse(_) => 7,
            FightLog::ItemUse(_) => 8,
            FightLog::Draw(_) => 9,
            FightLog::DiscardAllHandDeck => 10,
            FightLog::DiscardHandDeck(_) => 11,
            FightLog::RecoverGraveDeck => 12,
            FightLog::RecoverPower => 13,
            FightLog::RecoverCardCost => 14,
            FightLog::RecoverHp(_) => 15,
            FightLog::CallSystem(_, _) => 16,
            FightLog::AddSystem(_, _) => 17,
            FightLog::UpdateSystem(_, _) => 18,
            FightLog::RemoveSystem(_, _) => 19,
            FightLog::SystemDamage(_, _) => 20,
            FightLog::SystemArmorUp(_, _) => 21,
            FightLog::SystemArmorDown(_, _) => 22,
            FightLog::SystemShieldUp(_, _) => 23,
            FightLog::SystemShieldDown(_, _) => 24,
            FightLog::SystemRecoverHp(_, _) => 25,
            FightLog::SystemDrawCountUp(_) => 26,
            FightLog::SystemDrawCountDown(_) => 27,
            FightLog::SystemAttackPowerUp(_, _) => 28,
            FightLog::SystemAttackPowerDown(_, _) => 29,
            FightLog::SystemDefensePowerUp(_, _) => 30,
            FightLog::SystemDefensePowerDown(_, _) => 31,
            FightLog::SystemAttackWeakUp(_, _) => 32,
            FightLog::SystemAttackWeakDown(_, _) => 33,
            FightLog::SystemDefenseWeakUp(_, _) => 34,
            FightLog::SystemDefenseWeakDown(_, _) => 35,
            FightLog::SystemMaxHpUp(_) => 36,
            FightLog::SystemMaxHpDown(_) => 37,
            FightLog::SystemPowerCostChange(_, _) => 38,
        }
    }
}

} // verus!
