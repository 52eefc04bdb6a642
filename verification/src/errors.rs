use vstd::prelude::*;

verus! {

/// Failure vocabulary of the engine, grouped by origin: `Resource*` marks
/// broken static content, `Battle*` marks a host request that is illegal in
/// the current state or an internal invariant violation, `Rng*` marks a
/// replay request that cannot be honoured.
#[derive(Clone, Copy, Debug, PartialEq, Eq, Structural)]
pub enum Error {
    ResourceBrokenTargetPosition,
    ResourceBrokenSystemId,
    ResourceBrokenItemClass,
    ResourceBrokenDeckType,
    ResourceBrokenEnemyStrategy,
    ResourceBrokenDurationCount,
    ResourceSystemTargetInSystemPoolDuplicated,
    ResourceSystemCardSelectionInEnemy,
    BattleNotStarted,
    BattleRepeatStart,
    BattleNotFinished,
    BattleInvalidPeakOperation,
    BattleSelectionError,
    BattleSelectionMismatch,
    BattlePowerInsufficient,
    BattleEnemyNotFound,
    BattleInstructionNotEmpty,
    BattleInternalError,
    BattleCardOffsetNotFound,
    BattleUnexpectedCardOffset,
    BattleExceedCardSelection,
    BattleUnexpectedDrawCount,
    BattleUnexpectedDiscardCount,
    BattleUnexpectedOutput,
    BattleUnexpectedSystemArgs,
    BattleUnexpectedSystemDuration,
    RngRotationError,
}

/// The errors a queue resolution can surface: broken content discovered
/// while dispatching (bad arguments, codes or durations, an unresolvable
/// target, an exhausted instruction budget) — never a host-protocol error
/// and never a replay error.
pub open spec fn resolution_error(e: Error) -> bool {
    match e {
        Error::BattleUnexpectedSystemArgs => true,
        Error::BattleUnexpectedSystemDuration => true,
        Error::BattleSelectionError => true,
        Error::BattleEnemyNotFound => true,
        Error::BattleInternalError => true,
        Error::BattleUnexpectedDrawCount => true,
        Error::BattleUnexpectedDiscardCount => true,
        Error::ResourceBrokenDeckType => true,
        Error::ResourceBrokenSystemId => true,
        Error::ResourceBrokenDurationCount => true,
        Error::ResourceSystemCardSelectionInEnemy => true,
        _ => false,
    }
}

/// The errors one host request can surface: a protocol refusal, a broken
/// enemy strategy, a bad selection answer, or a resolution error — never a
/// lifecycle error (`BattleNotStarted`, `BattleRepeatStart`,
/// `BattleNotFinished`) and never a replay error.
pub open spec fn battle_step_error(e: Error) -> bool {
    resolution_error(e) || match e {
        Error::BattleSelectionMismatch => true,
        Error::BattleUnexpectedOutput => true,
        Error::BattlePowerInsufficient => true,
        Error::BattleExceedCardSelection => true,
        Error::BattleUnexpectedCardOffset => true,
        Error::BattleCardOffsetNotFound => true,
        Error::BattleInstructionNotEmpty => true,
        Error::ResourceBrokenEnemyStrategy => true,
        _ => false,
    }
}

} // verus!
