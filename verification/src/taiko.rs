//! Hit-count reconstruction for the Taiko mode.
//!
//! A Taiko play is judged on full hits, half hits and misses over the
//! map's circles. Callers often supply only part of these counts; the
//! reconstruction below caps what was given so it fits next to the
//! misses and assigns the unaccounted circles to the count the caller
//! left open, so that an accuracy can be computed from a complete set.

use vstd::math::min;
use vstd::prelude::*;

verus! {

/// The count a caller supplied, or zero where none was given.
pub open spec fn given_or_zero(o: Option<usize>) -> int {
    match o {
        Some(v) => v as int,
        None => 0,
    }
}

/// The reconstructed pair of full hits and half hits: each given count
/// capped so that it fits beside the misses, and the remaining circles
/// assigned to the half hits when only they were left open, and to the
/// full hits otherwise.
pub open spec fn reconstructed_hits(
    n_circles: usize,
    n_misses: usize,
    n300: Option<usize>,
    n100: Option<usize>,
) -> (usize, usize)
    recommends
        n_misses <= n_circles,
{
    let capped300 = min(given_or_zero(n300), n_circles - n_misses);
    let capped100 = min(given_or_zero(n100), n_circles - n_misses - capped300);
    let missing = n_circles - n_misses - capped300 - capped100;
    if n300 is Some && n100 is None {
        (capped300 as usize, (capped100 + missing) as usize)
    } else {
        ((capped300 + missing) as usize, capped100 as usize)
    }
}

/// Complete the full-hit and half-hit counts of a play so that,
/// together with the misses, they cover every circle of the map.
/// Counts that already add up exactly are kept as given.
pub fn reconstruct_hits(
    n_circles: usize,
    n_misses: usize,
    n300: Option<usize>,
    n100: Option<usize>,
) -> (r: (usize, usize))
    requires
        n_misses <= n_circles,
        n300 is Some || n100 is Some,
    ensures
        r == reconstructed_hits(n_circles, n_misses, n300, n100),
        r.0 + r.1 + n_misses == n_circles,
        n300 is Some && n100 is Some
            && given_or_zero(n300) + given_or_zero(n100) + n_misses == n_circles
            ==> r == (n300.unwrap(), n100.unwrap()),
{
    let cap: usize = n_circles - n_misses;

    let given300 = n300.unwrap_or(0);
    let capped300 = if given300 < cap {
        given300
    } else {
        cap
    };

    let rest: usize = cap - capped300;
    let given100 = n100.unwrap_or(0);
    let capped100 = if given100 < rest {
        given100
    } else {
        rest
    };

    let missing: usize = rest - capped100;

    if n300.is_some() && n100.is_none() {
        (capped300, capped100 + missing)
    } else {
        (capped300 + missing, capped100)
    }
}

} // verus!
