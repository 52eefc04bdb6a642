//! A deterministic, turn-based effect-resolution engine for card-driven
//! combat between one player and a party of enemies.
//!
//! The heart of the crate is a small closed instruction set ("systems") that
//! mutates combat participants, an instruction queue that drains and chains
//! these systems, a mounting mechanism for durable effects that react to
//! later log events, and the turn state machine driving the player and enemy
//! phases through this interpreter. All randomness flows through one seeded
//! generator whose rotation counter makes a session replayable.
//!
//! The contracts prove, among other things: the damage pipeline (shield,
//! then armor, then hit points, each step floored at zero, scaled by the
//! weaken debuff), that every saturating field update stays inside its
//! documented range, that the card piles always partition the owned cards,
//! that a terminal outcome vetoes every further mutation while the queue
//! keeps draining into the log, and that fast-forwarding the generator
//! replays the exact draw sequence.

pub mod battle;
pub mod contexts;
pub mod errors;
pub mod rng;
pub mod systems;
pub mod wrappings;

use vstd::prelude::*;

verus! {

/// Upper bound of the weaken debuff counters: a weaken value `w` scales an
/// incoming amount by `(MAX_WEAK_COUNT - w) / MAX_WEAK_COUNT`.
pub const MAX_WEAK_COUNT: u8 = 10;

} // verus!
