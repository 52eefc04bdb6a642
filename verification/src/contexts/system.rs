use vstd::prelude::*;

verus! {

use crate::wrappings::{sys_identical, System};

/// Addition on a `u16` counter, clamped at the counter's maximum.
pub open spec fn sat_add_u16(a: u16, b: u16) -> u16 {
    if a + b > u16::MAX {
        u16::MAX
    } else {
        (a + b) as u16
    }
}

/// A runtime occurrence of a [`System`]: the immutable template plus a
/// duration counter and scratch registers for handlers that need memory
/// across invocations.
#[derive(Debug)]
pub struct SystemContext {
    pub system: System,
    pub duration_counter: u16,
    pub register_1: Option<u16>,
    pub register_2: Option<u16>,
    pub register_3: Vec<usize>,
}

/// Field-for-field equality of two system instances.
pub open spec fn ctx_identical(a: SystemContext, b: SystemContext) -> bool {
    &&& sys_identical(a.system, b.system)
    &&& a.duration_counter == b.duration_counter
    &&& a.register_1 == b.register_1
    &&& a.register_2 == b.register_2
    &&& a.register_3@ == b.register_3@
}

/// Whether two instances denote the same mounted effect: template id,
/// arguments and duration trigger tag all match. Counters and registers do
/// not take part.
pub open spec fn ctx_equal(a: SystemContext, b: SystemContext) -> bool {
    &&& a.system.id == b.system.id
    &&& a.system.args@ == b.system.args@
    &&& match (a.system.duration, b.system.duration) {
        (Some(d1), Some(d2)) => d1.trigger == d2.trigger,
        (None, None) => true,
        _ => false,
    }
}

impl Clone for SystemContext {
    fn clone(&self) -> (r: Self)
        ensures
            ctx_identical(r, *self),
    {
        let mut register_3: Vec<usize> = Vec::new();
        let mut i: usize = 0;
        while i < self.register_3.len()
            invariant
                i <= self.register_3.len(),
                register_3@ == self.register_3@.subrange(0, i as int),
            decreases self.register_3.len() - i,
        {
            register_3.push(self.register_3[i]);
            i += 1;
        }
        proof {
            assert(register_3@ =~= self.register_3@);
        }
        SystemContext {
            system: self.system.clone(),
            duration_counter: self.duration_counter,
            register_1: self.register_1,
            register_2: self.register_2,
            register_3,
        }
    }
}

impl SystemContext {
    /// Wraps a template into a fresh instance: counter at zero, registers
    /// clear.
    pub fn new(system: System) -> (r: Self)
        ensures
            sys_identical(r.system, system),
            r.duration_counter == 0,
            r.register_1 is None,
            r.register_2 is None,
            r.register_3@ == Seq::<usize>::empty(),
    {
        SystemContext {
            system,
            duration_counter: 0,
            register_1: None,
            register_2: None,
            register_3: Vec::new(),
        }
    }

    /// Whether `other` denotes the same mounted effect (see [`ctx_equal`]).
    pub fn equal(&self, other: &Self) -> (r: bool)
        ensures
            r == ctx_equal(*self, *other),
    {
        if self.system.id != other.system.id {
            return false;
        }
        if self.system.args.len() != other.system.args.len() {
            proof {
                assert(self.system.args@ != other.system.args@);
            }
            return false;
        }
        let mut i: usize = 0;
        while i < self.system.args.len()
            invariant
                i <= self.system.args.len(),
                self.system.args.len() == other.system.args.len(),
                forall|j: int| 0 <= j < i ==> self.system.args@[j] == other.system.args@[j],
            decreases self.system.args.len() - i,
        {
            if self.system.args[i] != other.system.args[i] {
                proof {
                    assert(self.system.args@ != other.system.args@);
                }
                return false;
            }
            i += 1;
        }
        proof {
            assert(self.system.args@ =~= other.system.args@);
        }
        match (&self.system.duration, &other.system.duration) {
            (Some(d1), Some(d2)) => d1.trigger == d2.trigger,
            (None, None) => true,
            _ => false,
        }
    }

    /// Extend policy for a duplicate durable effect: adds the incoming
    /// counter onto the mounted one (clamped to the counter's maximum).
    /// Reports whether the instances denoted the same durable effect.
    pub fn durable_combine(&mut self, other: &Self) -> (r: bool)
        ensures
            r == (old(self).system.duration is Some && ctx_equal(*old(self), *other)
                && other.system.duration is Some),
            r ==> *final(self) == (SystemContext {
                duration_counter: sat_add_u16(old(self).duration_counter, other.duration_counter),
                ..*old(self)
            }),
            !r ==> *final(self) == *old(self),
    {
        if self.system.duration.is_none() {
            return false;
        }
        if self.equal(other) {
            if other.system.duration.is_some() {
                self.duration_counter = self.duration_counter.saturating_add(
                    other.duration_counter,
                );
                return true;
            }
        }
        false
    }

    /// Refresh policy for a duplicate durable effect: overwrites the mounted
    /// counter with the incoming one. Reports whether the instances denoted
    /// the same durable effect.
    pub fn durable_update(&mut self, other: &Self) -> (r: bool)
        ensures
            r == (old(self).system.duration is Some && ctx_equal(*old(self), *other)
                && other.system.duration is Some),
            r ==> *final(self) == (SystemContext {
                duration_counter: other.duration_counter,
                ..*old(self)
            }),
            !r ==> *final(self) == *old(self),
    {
        if self.system.duration.is_none() {
            return false;
        }
        if self.equal(other) {
            if other.system.duration.is_some() {
                self.duration_counter = other.duration_counter;
                return true;
            }
        }
        false
    }

    /// Whether the instance is durable, that is carries a duration rule.
    pub fn is_durable(&self) -> (r: bool)
        ensures
            r == (self.system.duration is Some),
    {
        self.system.duration.is_some()
    }

}

} // verus!
