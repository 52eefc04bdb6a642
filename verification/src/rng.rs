use vstd::prelude::*;

verus! {

use crate::errors::Error;

/// The value that a Xoshiro256++ generator seeded from `seed` produces as its
/// `index`-th 64-bit output. The algorithm is a pure function of the seed, so
/// the whole stream is determined by it; no contract of this crate states
/// what any particular value is.
pub uninterp spec fn rng_stream(seed: u64, index: nat) -> u64;

/// The 32-bit draw derived from the `index`-th 64-bit output: its upper half.
pub open spec fn rng_stream32(seed: u64, index: nat) -> u32 {
    (rng_stream(seed, index) >> 32) as u32
}

/// The generator type of the outside crate, opaque to the engine: everything
/// stated about its draws goes through [`rng_stream`].
#[verifier::external_type_specification]
#[verifier::external_body]
pub struct ExXoshiro256PlusPlus(rand_xoshiro::Xoshiro256PlusPlus);

/// Builds the generator state.
///
/// Relies on `rand_xoshiro::Xoshiro256PlusPlus::seed_from_u64`: seeding is a
/// pure function of the seed (a SplitMix64 expansion), so two generators made
/// from one seed produce the same stream.
#[verifier::external_body]
fn xoshiro_from_seed(seed: u64) -> rand_xoshiro::Xoshiro256PlusPlus {
    <rand_xoshiro::Xoshiro256PlusPlus as rand::SeedableRng>::seed_from_u64(seed)
}

/// Seeded deterministic generator of the engine. Every draw consumes exactly
/// one 64-bit step of the underlying stream; `position` counts those steps.
/// The rotation counter counts only the 64-bit-cost draws, which is what a
/// host records to replay a session (see [`SporeRng::rotate_to`]).
pub struct SporeRng {
    rng: rand_xoshiro::Xoshiro256PlusPlus,
    seed: u64,
    position: Ghost<nat>,
    rotation_count: u64,
}

impl SporeRng {
    /// Seed the generator was built from.
    pub closed spec fn seed(&self) -> u64 {
        self.seed
    }

    /// How many 64-bit steps of the stream were consumed so far.
    pub closed spec fn position(&self) -> nat {
        self.position@
    }

    /// Current value of the rotation counter.
    pub closed spec fn rotation(&self) -> u64 {
        self.rotation_count
    }

    /// The 64-bit value the `k`-th draw after the current state will return.
    pub open spec fn future_draw(&self, k: nat) -> u64 {
        rng_stream(self.seed(), self.position() + k)
    }

    /// Builds a fresh generator: nothing consumed, rotation counter at zero.
    pub fn new(seed: u64) -> (r: Self)
        ensures
            r.seed() == seed,
            r.position() == 0,
            r.rotation() == 0,
    {
        SporeRng { rng: xoshiro_from_seed(seed), seed, position: Ghost(0), rotation_count: 0 }
    }

    /// Draws the next 64-bit stream value, advancing one step.
    ///
    /// Relies on `rand_xoshiro::Xoshiro256PlusPlus::next_u64`: each call
    /// returns the next value of the stream determined by the seed, a pure
    /// function of the seed and of how many draws were made before.
    #[verifier::external_body]
    fn raw_next(&mut self) -> (r: u64)
        ensures
            r == rng_stream(old(self).seed(), old(self).position()),
            final(self).seed() == old(self).seed(),
            final(self).position() == old(self).position() + 1,
            final(self).rotation() == old(self).rotation(),
    {
        rand::RngCore::next_u64(&mut self.rng)
    }

    /// A 32-bit draw: the upper half of the next stream value. It advances
    /// the stream but does not count towards the rotation counter.
    pub fn next_u32(&mut self) -> (r: u32)
        ensures
            r == rng_stream32(old(self).seed(), old(self).position()),
            final(self).seed() == old(self).seed(),
            final(self).position() == old(self).position() + 1,
            final(self).rotation() == old(self).rotation(),
    {
        let v = self.raw_next();
        (v >> 32) as u32
    }

    /// A 64-bit draw; it advances the stream and counts one rotation.
    pub fn next_u64(&mut self) -> (r: u64)
        requires
            old(self).rotation() < u64::MAX,
        ensures
            r == rng_stream(old(self).seed(), old(self).position()),
            final(self).seed() == old(self).seed(),
            final(self).position() == old(self).position() + 1,
            final(self).rotation() == old(self).rotation() + 1,
    {
        let v = self.raw_next();
        self.rotation_count = self.rotation_count + 1;
        v
    }

    /// Picks a uniform index in `[0, len)` from one 32-bit draw. All engine
    /// randomness is expressed through this operation.
    pub fn pick_index(&mut self, len: usize) -> (r: usize)
        requires
            len > 0,
        ensures
            r < len,
            r == rng_stream32(old(self).seed(), old(self).position()) as usize % len,
            final(self).seed() == old(self).seed(),
            final(self).position() == old(self).position() + 1,
            final(self).rotation() == old(self).rotation(),
    {
        let v = self.next_u32();
        v as usize % len
    }

    /// Fast-forwards by discarding 64-bit-cost draws until the rotation
    /// counter reaches `target`; fails if `target` is behind the counter.
    /// The state afterwards depends only on the seed and on `target`, which
    /// makes replay from a recorded rotation deterministic.
    pub fn rotate_to(&mut self, target: u64) -> (r: Result<(), Error>)
        ensures
            r is Ok <==> target >= old(self).rotation(),
            final(self).seed() == old(self).seed(),
            r is Ok ==> final(self).rotation() == target && final(self).position() == old(
                self,
            ).position() + (target - old(self).rotation()),
            r is Err ==> r == Result::<(), Error>::Err(Error::RngRotationError) && *final(self)
                == *old(self),
    {
        if target < self.rotation_count {
            return Err(Error::RngRotationError);
        }
        while self.rotation_count < target
            invariant
                self.rotation_count <= target,
                self.seed() == old(self).seed(),
                self.position() == old(self).position() + (self.rotation() - old(self).rotation()),
                self.rotation() >= old(self).rotation(),
            decreases target - self.rotation_count,
        {
            let _ = self.next_u64();
        }
        Ok(())
    }

    /// Reports the rotation counter, the value a host persists for replay.
    pub fn rotation_count(&self) -> (r: u64)
        ensures
            r == self.rotation(),
    {
        self.rotation_count
    }
}

/// Replay determinism: two generators over the same seed that stand at the
/// same stream position return the same value for the `k`-th draw ahead,
/// however each of them reached that position — by consuming draws one by
/// one or by fast-forwarding with [`SporeRng::rotate_to`].
pub proof fn lemma_replay_determinism(a: SporeRng, b: SporeRng, k: nat)
    requires
        a.seed() == b.seed(),
        a.position() == b.position(),
    ensures
        a.future_draw(k) == b.future_draw(k),
{
}

} // verus!
