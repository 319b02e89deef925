//! Score scaling for the Mania mode.
//!
//! A Mania score is capped at 1,000,000 without modifiers, and each of
//! easy, no-fail and half time halves the cap. Scaling the score back
//! up by a factor of two per such modifier makes plays comparable
//! before the performance formula reads them.

use crate::mods::EZ;
use crate::mods::HT;
use crate::mods::Mods;
use crate::mods::NF;
use vstd::prelude::*;

verus! {

/// The factor the score cap was shrunk by: two for each of easy,
/// no-fail and half time that is set.
pub open spec fn score_multiplier(mods: u32) -> int {
    (if mods & EZ != 0 {
        2int
    } else {
        1int
    }) * (if mods & NF != 0 {
        2int
    } else {
        1int
    }) * (if mods & HT != 0 {
        2int
    } else {
        1int
    })
}

/// The score scaled back to the unmodified 1,000,000 cap: doubled once
/// for each of easy, no-fail and half time.
pub fn scaled_score(score: u32, mods: u32) -> (r: u64)
    ensures
        r == score * score_multiplier(mods),
{
    let mut scaled: u64 = score as u64;

    if mods.ez() {
        scaled = scaled * 2;
    }
    if mods.nf() {
        scaled = scaled * 2;
    }
    if mods.ht() {
        scaled = scaled * 2;
    }

    proof {
        lemma_score_multiplier_value(mods);
        let m = score_multiplier(mods);
        if mods & EZ != 0 {
            if mods & NF != 0 {
                if mods & HT != 0 {
                    lemma_mul_congruence(score as int, m, 8);
                } else {
                    lemma_mul_congruence(score as int, m, 4);
                }
            } else {
                if mods & HT != 0 {
                    lemma_mul_congruence(score as int, m, 4);
                } else {
                    lemma_mul_congruence(score as int, m, 2);
                }
            }
        } else {
            if mods & NF != 0 {
                if mods & HT != 0 {
                    lemma_mul_congruence(score as int, m, 4);
                } else {
                    lemma_mul_congruence(score as int, m, 2);
                }
            } else {
                if mods & HT != 0 {
                    lemma_mul_congruence(score as int, m, 2);
                } else {
                    lemma_mul_congruence(score as int, m, 1);
                }
            }
        }
    }

    scaled
}

/// Equal factors give equal products.
proof fn lemma_mul_congruence(a: int, b: int, c: int)
    requires
        b == c,
    ensures
        a * b == a * c,
{
}

/// The multiplier spelled out flag combination by flag combination, so
/// that the product of the three factors is a plain number on every
/// path.
pub proof fn lemma_score_multiplier_value(mods: u32)
    ensures
        mods & EZ != 0 && mods & NF != 0 && mods & HT != 0 ==> score_multiplier(mods) == 8,
        mods & EZ != 0 && mods & NF != 0 && mods & HT == 0 ==> score_multiplier(mods) == 4,
        mods & EZ != 0 && mods & NF == 0 && mods & HT != 0 ==> score_multiplier(mods) == 4,
        mods & EZ != 0 && mods & NF == 0 && mods & HT == 0 ==> score_multiplier(mods) == 2,
        mods & EZ == 0 && mods & NF != 0 && mods & HT != 0 ==> score_multiplier(mods) == 4,
        mods & EZ == 0 && mods & NF != 0 && mods & HT == 0 ==> score_multiplier(mods) == 2,
        mods & EZ == 0 && mods & NF == 0 && mods & HT != 0 ==> score_multiplier(mods) == 2,
        mods & EZ == 0 && mods & NF == 0 && mods & HT == 0 ==> score_multiplier(mods) == 1,
{
}

} // verus!
