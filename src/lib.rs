//! Combat core of a two-player, one-axis duel: per-player state machines,
//! attack timing, hit, parry and clash resolution, and the reset protocol.
use vstd::prelude::*;

pub mod arena;
pub mod clash;
pub mod combat;
pub mod laws;
pub mod player;
pub mod score;
pub mod timer;

verus! {

} // verus!
