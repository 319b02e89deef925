//! Combo counting for the Standard mode.

use vstd::math::min;
use vstd::prelude::*;

verus! {

/// A hit object as the combo count sees it. A slider carries the
/// number of combo-bearing points its path contributes, as counted by
/// the slider-path oracle of the beatmap parser; holds belong to
/// another mode and contribute nothing.
#[derive(Clone, Copy, Debug)]
pub enum ObjectKind {
    Circle,
    Slider { ticks: usize },
    Spinner,
    Hold,
}

/// What one object contributes to the maximum combo.
pub open spec fn combo_contribution(kind: ObjectKind) -> int {
    match kind {
        ObjectKind::Circle => 1,
        ObjectKind::Slider { ticks } => ticks as int,
        ObjectKind::Spinner => 1,
        ObjectKind::Hold => 0,
    }
}

/// The combo that hitting every object of the stream yields.
pub open spec fn spec_max_combo(kinds: Seq<ObjectKind>) -> int
    decreases kinds.len(),
{
    if kinds.len() == 0 {
        0
    } else {
        spec_max_combo(kinds.drop_last()) + combo_contribution(kinds.last())
    }
}

/// The maximum achievable combo over the given objects, clamped at
/// the machine limit.
pub fn max_combo(kinds: &Vec<ObjectKind>) -> (r: usize)
    ensures
        r == min(spec_max_combo(kinds@), usize::MAX as int),
{
    let mut total: usize = 0;
    let mut i: usize = 0;

    while i < kinds.len()
        invariant
            i <= kinds.len(),
            total == min(spec_max_combo(kinds@.take(i as int)), usize::MAX as int),
        decreases kinds.len() - i,
    {
        let contribution: usize = match kinds[i] {
            ObjectKind::Circle => 1,
            ObjectKind::Slider { ticks } => ticks,
            ObjectKind::Spinner => 1,
            ObjectKind::Hold => 0,
        };

        total = total.saturating_add(contribution);
        i += 1;

        proof {
            assert(kinds@.take(i as int).drop_last() =~= kinds@.take(i - 1));
            assert(kinds@.take(i as int).last() == kinds@[i - 1]);
        }
    }

    proof {
        assert(kinds@.take(kinds@.len() as int) =~= kinds@);
    }

    total
}

} // verus!
