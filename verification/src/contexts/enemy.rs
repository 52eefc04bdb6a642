use vstd::prelude::*;

verus! {

use crate::contexts::{
    add_mounting_system_internal, clamp_weak, clamped_weak, remove_mounting_system_internal,
    update_mounting_system_internal, CombatStats, ContextType, CtxAdaptor, SystemContext,
};
use crate::errors::Error;
use crate::rng::SporeRng;
use crate::wrappings::{clone_systems, pool_identical, Action, ActionStrategy, Enemy, System};

/// An enemy during a battle: the immutable template, live combat statistics,
/// the remaining precomputed strategy (one system list per enemy turn), and
/// its mounted systems.
#[derive(Debug)]
pub struct EnemyContext {
    pub enemy: Enemy,
    pub offset: usize,
    pub stats: CombatStats,
    pub strategy: Vec<Vec<System>>,
    pub mounting_systems: Vec<SystemContext>,
}

/// A strategy template with no shuffling anywhere: the rebuilt strategy
/// then mirrors the template order exactly.
pub open spec fn deterministic_strategy(strategy: ActionStrategy) -> bool {
    !strategy.random_select && forall|k: int|
        0 <= k < strategy.actions@.len() ==> !(#[trigger] strategy.actions@[k]).random_select
}

/// Copies the actions of a strategy template.
fn clone_actions(v: &Vec<Action>) -> (r: Vec<Action>)
    ensures
        r@.len() == v@.len(),
        forall|i: int|
            0 <= i < v@.len() ==> r@[i].random_select == v@[i].random_select && pool_identical(
                r@[i].system_pool@,
                v@[i].system_pool@,
            ),
{
    let mut r: Vec<Action> = Vec::new();
    let mut i: usize = 0;
    while i < v.len()
        invariant
            i <= v.len(),
            r@.len() == i,
            forall|j: int|
                0 <= j < i ==> r@[j].random_select == v@[j].random_select && pool_identical(
                    r@[j].system_pool@,
                    v@[j].system_pool@,
                ),
        decreases v.len() - i,
    {
        r.push(v[i].clone());
        i += 1;
    }
    r
}

impl EnemyContext {
    /// Wraps an enemy template under a battle-scoped offset; statistics start
    /// at the template values (weaken counters clamped to their cap) and the
    /// strategy starts empty (it is rebuilt on the first turn).
    pub fn new(enemy: Enemy, offset: usize) -> (r: Self)
        ensures
            r.offset == offset,
            r.stats == (CombatStats {
                hp: enemy.hp,
                max_hp: enemy.hp,
                armor: enemy.armor as u16,
                shield: enemy.shield as u16,
                attack: enemy.attack,
                attack_weak: clamped_weak(enemy.attack_weak),
                defense: enemy.defense,
                defense_weak: clamped_weak(enemy.defense_weak),
            }),
            r.strategy@.len() == 0,
            r.mountings() == Seq::<SystemContext>::empty(),
            r.enemy == enemy,
    {
        EnemyContext {
            offset,
            stats: CombatStats {
                hp: enemy.hp,
                max_hp: enemy.hp,
                armor: enemy.armor as u16,
                shield: enemy.shield as u16,
                attack: enemy.attack,
                attack_weak: clamp_weak(enemy.attack_weak),
                defense: enemy.defense,
                defense_weak: clamp_weak(enemy.defense_weak),
            },
            strategy: Vec::new(),
            mounting_systems: Vec::new(),
            enemy,
        }
    }

    /// Rebuilds the strategy from the template: one system list per action,
    /// the action order and each list's order shuffled where the template
    /// asks for it. The rebuilt strategy always has one entry per action.
    pub fn reset_strategy(&mut self, rng: &mut SporeRng)
        ensures
            final(self).strategy@.len() == old(self).enemy.strategy.actions@.len(),
            final(self).enemy == old(self).enemy,
            final(self).offset == old(self).offset,
            final(self).stats == old(self).stats,
            final(self).mounting_systems == old(self).mounting_systems,
            final(rng).seed() == old(rng).seed(),
            final(rng).rotation() == old(rng).rotation(),
            deterministic_strategy(old(self).enemy.strategy) ==> forall|k: int|
                0 <= k < old(self).enemy.strategy.actions@.len() ==> pool_identical(
                    (#[trigger] final(self).strategy@[k])@,
                    old(self).enemy.strategy.actions@[k].system_pool@,
                ),
    {
        let ghost action_count = self.enemy.strategy.actions@.len();
        let ghost det = deterministic_strategy(self.enemy.strategy);
        let ghost template_actions = self.enemy.strategy.actions@;
        let mut source: Vec<Action> = clone_actions(&self.enemy.strategy.actions);
        let mut ordered: Vec<Action> = Vec::new();
        if self.enemy.strategy.random_select {
            while source.len() > 0
                invariant
                    ordered@.len() + source@.len() == action_count,
                    rng.seed() == old(rng).seed(),
                    rng.rotation() == old(rng).rotation(),
                decreases source.len(),
            {
                let i = rng.pick_index(source.len());
                let action = source.remove(i);
                ordered.push(action);
            }
        } else {
            ordered = source;
        }
        proof {
            if det {
                assert(forall|j: int|
                    0 <= j < action_count ==> (#[trigger] ordered@[j]).random_select
                        == template_actions[j].random_select && pool_identical(
                        ordered@[j].system_pool@,
                        template_actions[j].system_pool@,
                    ));
            }
        }
        self.strategy = Vec::new();
        let n = ordered.len();
        proof {
            assert(n == action_count);
        }
        let mut k: usize = 0;
        while k < n
            invariant
                k <= n,
                n == ordered.len(),
                n == action_count,
                action_count == old(self).enemy.strategy.actions@.len(),
                self.strategy@.len() == k,
                self.enemy == old(self).enemy,
                self.offset == old(self).offset,
                self.stats == old(self).stats,
                self.mounting_systems == old(self).mounting_systems,
                rng.seed() == old(rng).seed(),
                rng.rotation() == old(rng).rotation(),
                det == deterministic_strategy(old(self).enemy.strategy),
                template_actions == old(self).enemy.strategy.actions@,
                det ==> forall|j: int|
                    0 <= j < action_count ==> (#[trigger] ordered@[j]).random_select
                        == template_actions[j].random_select && pool_identical(
                        ordered@[j].system_pool@,
                        template_actions[j].system_pool@,
                    ),
                det ==> forall|j: int|
                    0 <= j < k ==> pool_identical(
                        (#[trigger] self.strategy@[j])@,
                        template_actions[j].system_pool@,
                    ),
            decreases n - k,
        {
            let mut pool: Vec<System> = clone_systems(&ordered[k].system_pool);
            if ordered[k].random_select {
                let mut shuffled: Vec<System> = Vec::new();
                while pool.len() > 0
                    invariant
                        rng.seed() == old(rng).seed(),
                        rng.rotation() == old(rng).rotation(),
                    decreases pool.len(),
                {
                    let i = rng.pick_index(pool.len());
                    let system = pool.remove(i);
                    shuffled.push(system);
                }
                pool = shuffled;
            }
            self.strategy.push(pool);
            k += 1;
        }
    }

    /// Pops the next action list of the strategy, rebuilding it from the
    /// template when exhausted. Fails only on a template with no actions.
    pub fn pop_action(&mut self, rng: &mut SporeRng) -> (r: Result<Vec<System>, Error>)
        ensures
            final(self).enemy == old(self).enemy,
            final(self).offset == old(self).offset,
            final(self).stats == old(self).stats,
            final(self).mounting_systems == old(self).mounting_systems,
            r is Err <==> old(self).strategy@.len() == 0 && old(self).enemy.strategy.actions@.len()
                == 0,
            r is Err ==> r == Result::<Vec<System>, Error>::Err(Error::ResourceBrokenEnemyStrategy),
            old(self).strategy@.len() > 0 ==> r is Ok && r->Ok_0 == old(self).strategy@[0]
                && final(self).strategy@ == old(self).strategy@.skip(1),
            old(self).strategy@.len() == 0 && old(self).enemy.strategy.actions@.len() > 0 ==> r
                is Ok && final(self).strategy@.len() == old(self).enemy.strategy.actions@.len()
                - 1,
            old(self).strategy@.len() == 0 && old(self).enemy.strategy.actions@.len() > 0
                && deterministic_strategy(old(self).enemy.strategy) ==> r is Ok && pool_identical(
                r->Ok_0@,
                old(self).enemy.strategy.actions@[0].system_pool@,
            ),
            final(rng).seed() == old(rng).seed(),
            final(rng).rotation() == old(rng).rotation(),
    {
        if self.strategy.len() == 0 {
            self.reset_strategy(rng);
        }
        if self.strategy.len() == 0 {
            return Err(Error::ResourceBrokenEnemyStrategy);
        }
        let head = self.strategy.remove(0);
        proof {
            if old(self).strategy@.len() > 0 {
                assert(self.strategy@ =~= old(self).strategy@.skip(1));
            }
        }
        Ok(head)
    }
}

impl EnemyContext {
    /// Copies the live combat numbers out for a host.
    pub fn snapshot(&self) -> (r: crate::contexts::EnemySnapshot)
        ensures
            r == (crate::contexts::EnemySnapshot {
                id: self.enemy.id,
                offset: self.offset,
                hp: self.stats.hp,
                max_hp: self.stats.max_hp,
                armor: self.stats.armor,
                shield: self.stats.shield,
                attack: self.stats.attack,
                attack_weak: self.stats.attack_weak,
                defense: self.stats.defense,
                defense_weak: self.stats.defense_weak,
            }),
    {
        crate::contexts::EnemySnapshot {
            id: self.enemy.id,
            offset: self.offset,
            hp: self.stats.hp,
            max_hp: self.stats.max_hp,
            armor: self.stats.armor,
            shield: self.stats.shield,
            attack: self.stats.attack,
            attack_weak: self.stats.attack_weak,
            defense: self.stats.defense,
            defense_weak: self.stats.defense_weak,
        }
    }
}

impl CtxAdaptor for EnemyContext {
    open spec fn kind(&self) -> ContextType {
        ContextType::Enemy
    }

    open spec fn offset_spec(&self) -> usize {
        self.offset
    }

    open spec fn mountings(&self) -> Seq<SystemContext> {
        self.mounting_systems@
    }

    open spec fn same_but_mountings(&self, other: Self) -> bool {
        &&& self.enemy == other.enemy
        &&& self.offset == other.offset
        &&& self.stats == other.stats
        &&& self.strategy == other.strategy
    }

    fn context_type(&self) -> (r: ContextType) {
        ContextType::Enemy
    }

    fn offset(&self) -> (r: usize) {
        self.offset
    }

    fn add_mounting_system(&mut self, ctx: &SystemContext) -> (r: bool) {
        add_mounting_system_internal(ctx, &mut self.mounting_systems)
    }

    fn update_mounting_system(&mut self, ctx: &SystemContext) -> (r: bool) {
        update_mounting_system_internal(ctx, &mut self.mounting_systems)
    }

    fn remove_mounting_system(&mut self, ctx: &SystemContext) -> (r: bool) {
        remove_mounting_system_internal(ctx, &mut self.mounting_systems)
    }
}

} // verus!
