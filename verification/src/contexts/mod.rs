use vstd::prelude::*;

mod card;
mod enemy;
mod system;
mod warrior;

pub use card::CardContext;
pub use enemy::EnemyContext;
pub use system::{ctx_equal, ctx_identical, sat_add_u16, SystemContext};
pub use warrior::{
    clone_contexts, lemma_deck_partition, offsets_of, offsets_of_cards, sat_sub_u8, MountOp,
    WarriorContext, WarriorDeckContext,
};

verus! {

/// Variant tag of a combat participant.
#[derive(Clone, Copy, Debug, PartialEq, Eq, Structural)]
pub enum ContextType {
    Warrior,
    Enemy,
    Card,
}

/// The combat statistics every damageable participant carries. All updates
/// clamp to `[0, field maximum]`.
#[derive(Clone, Copy, Debug, PartialEq, Eq, Structural)]
pub struct CombatStats {
    pub hp: u16,
    pub max_hp: u16,
    pub armor: u16,
    pub shield: u16,
    pub attack: u8,
    pub attack_weak: u8,
    pub defense: u8,
    pub defense_weak: u8,
}

/// A weaken counter clamped to its documented cap.
pub open spec fn clamped_weak(v: u8) -> u8 {
    if v > crate::MAX_WEAK_COUNT {
        crate::MAX_WEAK_COUNT
    } else {
        v
    }
}

/// Clamps a weaken counter to its documented cap.
pub fn clamp_weak(v: u8) -> (r: u8)
    ensures
        r == clamped_weak(v),
{
    if v > crate::MAX_WEAK_COUNT {
        crate::MAX_WEAK_COUNT
    } else {
        v
    }
}


/// A host-facing copy of the player's live combat numbers.
#[derive(Clone, Copy, Debug, PartialEq, Eq, Structural)]
pub struct WarriorSnapshot {
    pub id: u16,
    pub offset: usize,
    pub hp: u16,
    pub max_hp: u16,
    pub gold: u16,
    pub power: u8,
    pub armor: u16,
    pub shield: u16,
    pub attack: u8,
    pub attack_weak: u8,
    pub defense: u8,
    pub defense_weak: u8,
    pub draw_count: u8,
}

/// A host-facing copy of an enemy's live combat numbers.
#[derive(Clone, Copy, Debug, PartialEq, Eq, Structural)]
pub struct EnemySnapshot {
    pub id: u16,
    pub offset: usize,
    pub hp: u16,
    pub max_hp: u16,
    pub armor: u16,
    pub shield: u16,
    pub attack: u8,
    pub attack_weak: u8,
    pub defense: u8,
    pub defense_weak: u8,
}

/// No instance among the first `n` of `s` denotes the same effect as `ctx`.
pub open spec fn no_equal_in_prefix(s: Seq<SystemContext>, ctx: SystemContext, n: int) -> bool {
    forall|j: int| 0 <= j < n ==> !ctx_equal(s[j], ctx)
}

/// What mounting an instance does to a mounted-system list: a non-durable
/// instance is refused; a durable one either extends the counter of the first
/// equal mounted instance (result `true`) or is appended (result `false`).
pub open spec fn mounting_add_post(
    old_s: Seq<SystemContext>,
    new_s: Seq<SystemContext>,
    ctx: SystemContext,
    r: bool,
) -> bool {
    if ctx.system.duration is None {
        !r && new_s == old_s
    } else if exists|j: int| 0 <= j < old_s.len() && ctx_equal(old_s[j], ctx) {
        exists|i: int|
            0 <= i < old_s.len() && #[trigger] ctx_equal(old_s[i], ctx) && no_equal_in_prefix(
                old_s,
                ctx,
                i,
            ) && r && new_s == old_s.update(
                i,
                (SystemContext {
                    duration_counter: sat_add_u16(old_s[i].duration_counter, ctx.duration_counter),
                    ..old_s[i]
                }),
            )
    } else {
        !r && new_s.len() == old_s.len() + 1 && new_s.subrange(0, old_s.len() as int) == old_s
            && ctx_identical(new_s[old_s.len() as int], ctx)
    }
}

/// What refreshing an instance does to a mounted-system list: the counter of
/// the first equal durable mounted instance is overwritten (result `true`);
/// otherwise nothing changes.
pub open spec fn mounting_update_post(
    old_s: Seq<SystemContext>,
    new_s: Seq<SystemContext>,
    ctx: SystemContext,
    r: bool,
) -> bool {
    if ctx.system.duration is Some && exists|j: int|
        0 <= j < old_s.len() && ctx_equal(old_s[j], ctx) {
        exists|i: int|
            0 <= i < old_s.len() && #[trigger] ctx_equal(old_s[i], ctx) && no_equal_in_prefix(
                old_s,
                ctx,
                i,
            ) && r && new_s == old_s.update(
                i,
                (SystemContext { duration_counter: ctx.duration_counter, ..old_s[i] }),
            )
    } else {
        !r && new_s == old_s
    }
}

/// What unmounting an instance does to a mounted-system list: the first equal
/// mounted instance leaves (result `true`); otherwise nothing changes.
pub open spec fn mounting_remove_post(
    old_s: Seq<SystemContext>,
    new_s: Seq<SystemContext>,
    ctx: SystemContext,
    r: bool,
) -> bool {
    if exists|j: int| 0 <= j < old_s.len() && ctx_equal(old_s[j], ctx) {
        exists|i: int|
            0 <= i < old_s.len() && #[trigger] ctx_equal(old_s[i], ctx) && no_equal_in_prefix(
                old_s,
                ctx,
                i,
            ) && r && new_s == old_s.remove(i)
    } else {
        !r && new_s == old_s
    }
}

/// Mounts `ctx` on a mounted-system list (see [`mounting_add_post`]).
pub fn add_mounting_system_internal(
    ctx: &SystemContext,
    mounting_systems: &mut Vec<SystemContext>,
) -> (r: bool)
    ensures
        mounting_add_post(old(mounting_systems)@, final(mounting_systems)@, *ctx, r),
{
    if !ctx.is_durable() {
        return false;
    }
    let n = mounting_systems.len();
    let mut i: usize = 0;
    while i < n
        invariant
            i <= n,
            n == mounting_systems.len(),
            mounting_systems@ == old(mounting_systems)@,
            ctx.system.duration is Some,
            no_equal_in_prefix(mounting_systems@, *ctx, i as int),
        decreases n - i,
    {
        if mounting_systems[i].equal(ctx) {
            let mut elem = mounting_systems.remove(i);
            let combined = elem.durable_combine(ctx);
            proof {
                assert(combined);
            }
            mounting_systems.insert(i, elem);
            proof {
                assert(mounting_systems@ =~= old(mounting_systems)@.update(
                    i as int,
                    (SystemContext {
                        duration_counter: sat_add_u16(
                            old(mounting_systems)@[i as int].duration_counter,
                            ctx.duration_counter,
                        ),
                        ..old(mounting_systems)@[i as int]
                    }),
                ));
            }
            return true;
        }
        i += 1;
    }
    mounting_systems.push(ctx.clone());
    proof {
        assert(mounting_systems@.subrange(0, old(mounting_systems)@.len() as int) =~= old(
            mounting_systems,
        )@);
    }
    false
}

/// Refreshes `ctx` on a mounted-system list (see [`mounting_update_post`]).
pub fn update_mounting_system_internal(
    ctx: &SystemContext,
    mounting_systems: &mut Vec<SystemContext>,
) -> (r: bool)
    ensures
        mounting_update_post(old(mounting_systems)@, final(mounting_systems)@, *ctx, r),
{
    if !ctx.is_durable() {
        return false;
    }
    let n = mounting_systems.len();
    let mut i: usize = 0;
    while i < n
        invariant
            i <= n,
            n == mounting_systems.len(),
            mounting_systems@ == old(mounting_systems)@,
            ctx.system.duration is Some,
            no_equal_in_prefix(mounting_systems@, *ctx, i as int),
        decreases n - i,
    {
        if mounting_systems[i].equal(ctx) {
            let mut elem = mounting_systems.remove(i);
            let updated = elem.durable_update(ctx);
            proof {
                assert(updated);
            }
            mounting_systems.insert(i, elem);
            proof {
                assert(mounting_systems@ =~= old(mounting_systems)@.update(
                    i as int,
                    (SystemContext {
                        duration_counter: ctx.duration_counter,
                        ..old(mounting_systems)@[i as int]
                    }),
                ));
            }
            return true;
        }
        i += 1;
    }
    false
}

/// Unmounts `ctx` from a mounted-system list (see [`mounting_remove_post`]).
pub fn remove_mounting_system_internal(
    ctx: &SystemContext,
    mounting_systems: &mut Vec<SystemContext>,
) -> (r: bool)
    ensures
        mounting_remove_post(old(mounting_systems)@, final(mounting_systems)@, *ctx, r),
{
    let n = mounting_systems.len();
    let mut i: usize = 0;
    while i < n
        invariant
            i <= n,
            n == mounting_systems.len(),
            mounting_systems@ == old(mounting_systems)@,
            no_equal_in_prefix(mounting_systems@, *ctx, i as int),
        decreases n - i,
    {
        if mounting_systems[i].equal(ctx) {
            mounting_systems.remove(i);
            return true;
        }
        i += 1;
    }
    false
}

/// Capability interface of the three participant variants: identity, variant
/// tag, and mounted-system bookkeeping. Everything but the mounted-system
/// list is untouched by the bookkeeping methods.
pub trait CtxAdaptor: Sized {
    /// Variant tag of the participant.
    spec fn kind(&self) -> ContextType;

    /// Battle-scoped identity of the participant.
    spec fn offset_spec(&self) -> usize;

    /// The mounted durable instances of the participant.
    spec fn mountings(&self) -> Seq<SystemContext>;

    /// All state except the mounted-system list agrees with `other`.
    spec fn same_but_mountings(&self, other: Self) -> bool;

    /// Reports the variant tag.
    fn context_type(&self) -> (r: ContextType)
        ensures
            r == self.kind(),
    ;

    /// Reports the battle-scoped identity.
    fn offset(&self) -> (r: usize)
        ensures
            r == self.offset_spec(),
    ;

    /// Mounts a durable instance, combining with an equal mounted one.
    fn add_mounting_system(&mut self, ctx: &SystemContext) -> (r: bool)
        ensures
            mounting_add_post(old(self).mountings(), final(self).mountings(), *ctx, r),
            final(self).same_but_mountings(*old(self)),
    ;

    /// Refreshes the counter of an equal mounted durable instance.
    fn update_mounting_system(&mut self, ctx: &SystemContext) -> (r: bool)
        ensures
            mounting_update_post(old(self).mountings(), final(self).mountings(), *ctx, r),
            final(self).same_but_mountings(*old(self)),
    ;

    /// Unmounts the first equal mounted instance.
    fn remove_mounting_system(&mut self, ctx: &SystemContext) -> (r: bool)
        ensures
            mounting_remove_post(old(self).mountings(), final(self).mountings(), *ctx, r),
            final(self).same_but_mountings(*old(self)),
    ;
}

} // verus!
