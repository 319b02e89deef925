//! Results shared across the per-mode calculators.

use crate::fruits;
use vstd::prelude::*;

verus! {

/// The outcome of a star calculation, tagged by game mode.
///
/// Only the Catch variant carries the attributes that the verified
/// hit-result bookkeeping consumes; the attribute bags of the other
/// modes consist of strain values that the unverified formula layer
/// owns, so their variants carry nothing here.
#[derive(Clone, Debug)]
pub enum StarResult {
    Osu,
    Taiko,
    Fruits(fruits::DifficultyAttributes),
    Mania,
}

/// The outcome of a performance calculation: the game mode, the
/// modifiers it was computed under, and the difficulty attributes it
/// rests on, so that a later calculation for the same map and mods can
/// reuse them.
#[derive(Clone, Debug)]
pub struct PpResult {
    pub mode: u8,
    pub mods: u32,
    pub attributes: StarResult,
}

} // verus!
