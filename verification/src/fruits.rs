//! Hit-result bookkeeping for the Catch mode.
//!
//! A play on a Catch map is scored from five counts: caught fruits,
//! caught droplets, caught tiny droplets, missed tiny droplets, and
//! misses of combo-bearing objects. The builder below collects whatever
//! subset of these a caller supplies and repairs the rest against the
//! map's difficulty attributes, so that the performance formula always
//! works on a complete, balanced set of counts.

use crate::result::PpResult;
use crate::result::StarResult;
use vstd::prelude::*;

verus! {

/// Difficulty attributes of a Catch map: the object counts and the
/// maximum achievable combo. The star rating and approach rate that
/// accompany them are produced and consumed by the unverified strain
/// and formula layer.
#[derive(Clone, Copy, Debug)]
pub struct DifficultyAttributes {
    pub n_fruits: usize,
    pub n_droplets: usize,
    pub n_tiny_droplets: usize,
    pub max_combo: usize,
}

/// Which of the four count fields hold fills derived by an accuracy
/// pass rather than caller-supplied values. An accuracy pass discards
/// such fills before deriving anew, so that repeated passes behave
/// like a single fresh one; the count setters clear the matching flag.
#[derive(Clone, Copy, Debug)]
pub struct DerivedCounts {
    pub n_fruits: bool,
    pub n_droplets: bool,
    pub n_tiny_droplets: bool,
    pub n_tiny_droplet_misses: bool,
}

/// No count was derived: they all stand as the caller left them.
pub open spec fn no_derived_counts() -> DerivedCounts {
    DerivedCounts {
        n_fruits: false,
        n_droplets: false,
        n_tiny_droplets: false,
        n_tiny_droplet_misses: false,
    }
}

/// Calculator state for performance points on a Catch map.
///
/// Fields left unset are derived from the difficulty attributes when
/// the counts are completed.
#[derive(Clone, Debug)]
pub struct FruitsPP {
    pub attributes: Option<DifficultyAttributes>,
    pub mods: u32,
    pub combo: Option<usize>,

    pub n_fruits: Option<usize>,
    pub n_droplets: Option<usize>,
    pub n_tiny_droplets: Option<usize>,
    pub n_tiny_droplet_misses: Option<usize>,
    pub n_misses: usize,
    pub passed_objects: Option<usize>,

    pub derived: DerivedCounts,
}

/// The count a caller supplied, or zero where none was given.
pub open spec fn or_zero(o: Option<usize>) -> int {
    match o {
        Some(v) => v as int,
        None => 0,
    }
}

/// Subtraction on integers, clamped at zero.
pub open spec fn sat_sub(a: int, b: int) -> int {
    if a - b < 0 {
        0
    } else {
        a - b
    }
}

/// A sum as the machine holds it: clamped at the largest `usize`.
pub open spec fn clamped(v: int) -> int {
    if v > usize::MAX {
        usize::MAX as int
    } else {
        v
    }
}

/// The supplied counts are complete and agree with the attributes:
/// fruits, droplets and misses add up to the maximum combo, neither
/// count is below what the misses alone force, and the tiny droplets
/// split exactly into caught and missed ones.
pub open spec fn hitresults_consistent(pp: FruitsPP, attr: DifficultyAttributes) -> bool {
    &&& pp.n_fruits matches Some(f) && pp.n_droplets matches Some(d)
        && f + d + pp.n_misses == attr.max_combo
        && f >= sat_sub(attr.n_fruits as int, pp.n_misses as int)
        && d >= sat_sub(attr.n_droplets as int, pp.n_misses as int)
    &&& pp.n_tiny_droplets matches Some(t) && pp.n_tiny_droplet_misses matches Some(tm)
        && t + tm == attr.n_tiny_droplets
}

/// How many combo-bearing hits are still unaccounted for.
pub open spec fn spec_missing(pp: FruitsPP, attr: DifficultyAttributes) -> int {
    sat_sub(
        sat_sub(sat_sub(attr.max_combo as int, or_zero(pp.n_fruits)), or_zero(pp.n_droplets)),
        pp.n_misses as int,
    )
}

/// Of the unaccounted hits, those that must be fruits: whatever is left
/// once the droplets the map still owes are taken out.
pub open spec fn spec_missing_fruits(pp: FruitsPP, attr: DifficultyAttributes) -> int {
    sat_sub(
        spec_missing(pp, attr),
        sat_sub(attr.n_droplets as int, or_zero(pp.n_droplets)),
    )
}

/// The repaired counts: unaccounted hits are filled in as fruits first,
/// then droplets, and the tiny droplets are topped up to their total.
pub open spec fn repair(pp: FruitsPP, attr: DifficultyAttributes) -> FruitsPP {
    let f0 = or_zero(pp.n_fruits);
    let d0 = or_zero(pp.n_droplets);
    let t0 = or_zero(pp.n_tiny_droplets);
    let tm0 = or_zero(pp.n_tiny_droplet_misses);
    let missing = spec_missing(pp, attr);
    let missing_fruits = spec_missing_fruits(pp, attr);
    FruitsPP {
        n_fruits: Some((f0 + missing_fruits) as usize),
        n_droplets: Some((d0 + (missing - missing_fruits)) as usize),
        n_tiny_droplets: Some(
            (t0 + sat_sub(sat_sub(attr.n_tiny_droplets as int, t0), tm0)) as usize,
        ),
        n_tiny_droplet_misses: Some(tm0 as usize),
        ..pp
    }
}

/// What checking the hit results leaves behind: consistent counts stay
/// untouched, anything else is repaired.
pub open spec fn hitresults_checked(pp: FruitsPP, attr: DifficultyAttributes) -> FruitsPP {
    if hitresults_consistent(pp, attr) {
        pp
    } else {
        repair(pp, attr)
    }
}

/// The builder with every count that an earlier accuracy pass derived
/// put back to unset: only the caller-supplied counts remain.
pub open spec fn caller_counts(pp: FruitsPP) -> FruitsPP {
    FruitsPP {
        n_fruits: if pp.derived.n_fruits {
            None
        } else {
            pp.n_fruits
        },
        n_droplets: if pp.derived.n_droplets {
            None
        } else {
            pp.n_droplets
        },
        n_tiny_droplets: if pp.derived.n_tiny_droplets {
            None
        } else {
            pp.n_tiny_droplets
        },
        n_tiny_droplet_misses: if pp.derived.n_tiny_droplet_misses {
            None
        } else {
            pp.n_tiny_droplet_misses
        },
        derived: no_derived_counts(),
        ..pp
    }
}

/// The counts that targeting an accuracy produces, derived from the
/// caller-supplied counts alone: droplets default to the map's
/// droplets less the misses, fruits to whatever of the combo the
/// misses and droplets leave, tiny droplets to whatever of the
/// targeted hit total fruits and droplets leave, and the remaining
/// tiny droplets count as missed. Every count the pass had to derive
/// is marked so.
pub open spec fn accuracy_hits(pp: FruitsPP, target_hits: usize) -> FruitsPP
    recommends
        pp.attributes is Some,
{
    let base = caller_counts(pp);
    let attr = base.attributes.unwrap();
    let d = if base.n_droplets is Some {
        base.n_droplets.unwrap() as int
    } else {
        sat_sub(attr.n_droplets as int, base.n_misses as int)
    };
    let f = if base.n_fruits is Some {
        base.n_fruits.unwrap() as int
    } else {
        sat_sub(sat_sub(attr.max_combo as int, base.n_misses as int), d)
    };
    let t = if base.n_tiny_droplets is Some {
        base.n_tiny_droplets.unwrap() as int
    } else {
        sat_sub(sat_sub(target_hits as int, f), d)
    };
    let tm = sat_sub(attr.n_tiny_droplets as int, t);
    FruitsPP {
        n_fruits: Some(f as usize),
        n_droplets: Some(d as usize),
        n_tiny_droplets: Some(t as usize),
        n_tiny_droplet_misses: Some(tm as usize),
        derived: DerivedCounts {
            n_fruits: base.n_fruits is None,
            n_droplets: base.n_droplets is None,
            n_tiny_droplets: base.n_tiny_droplets is None,
            n_tiny_droplet_misses: true,
        },
        ..base
    }
}

impl FruitsPP {
    pub fn new() -> (r: Self)
        ensures
            (r == FruitsPP {
                attributes: None,
                mods: 0,
                combo: None,
                n_fruits: None,
                n_droplets: None,
                n_tiny_droplets: None,
                n_tiny_droplet_misses: None,
                n_misses: 0,
                passed_objects: None,
                derived: no_derived_counts(),
            }),
    {
        Self {
            attributes: None,
            mods: 0,
            combo: None,

            n_fruits: None,
            n_droplets: None,
            n_tiny_droplets: None,
            n_tiny_droplet_misses: None,
            n_misses: 0,
            passed_objects: None,

            derived: DerivedCounts {
                n_fruits: false,
                n_droplets: false,
                n_tiny_droplets: false,
                n_tiny_droplet_misses: false,
            },
        }
    }

    /// Supply previously computed difficulty attributes, through any
    /// provider. A provider for another mode yields none, and the
    /// builder keeps whatever it had.
    pub fn attributes<P: FruitsAttributeProvider>(self, attributes: P) -> (r: Self)
        ensures
            attributes.spec_attributes() matches Some(a)
                ==> (r == FruitsPP { attributes: Some(a), ..self }),
            attributes.spec_attributes() is None ==> r == self,
    {
        match attributes.attributes() {
            Some(a) => FruitsPP { attributes: Some(a), ..self },
            None => self,
        }
    }

    /// Specify mods through their bit values.
    pub fn mods(self, mods: u32) -> (r: Self)
        ensures
            (r == FruitsPP { mods, ..self }),
    {
        FruitsPP { mods, ..self }
    }

    /// Specify the max combo of the play.
    pub fn combo(self, combo: usize) -> (r: Self)
        ensures
            (r == FruitsPP { combo: Some(combo), ..self }),
    {
        FruitsPP { combo: Some(combo), ..self }
    }

    /// Specify the amount of fruits of a play.
    pub fn fruits(self, n_fruits: usize) -> (r: Self)
        ensures
            (r == FruitsPP {
                n_fruits: Some(n_fruits),
                derived: DerivedCounts { n_fruits: false, ..self.derived },
                ..self
            }),
    {
        FruitsPP {
            n_fruits: Some(n_fruits),
            derived: DerivedCounts { n_fruits: false, ..self.derived },
            ..self
        }
    }

    /// Specify the amount of droplets of a play.
    pub fn droplets(self, n_droplets: usize) -> (r: Self)
        ensures
            (r == FruitsPP {
                n_droplets: Some(n_droplets),
                derived: DerivedCounts { n_droplets: false, ..self.derived },
                ..self
            }),
    {
        FruitsPP {
            n_droplets: Some(n_droplets),
            derived: DerivedCounts { n_droplets: false, ..self.derived },
            ..self
        }
    }

    /// Specify the amount of tiny droplets of a play.
    pub fn tiny_droplets(self, n_tiny_droplets: usize) -> (r: Self)
        ensures
            (r == FruitsPP {
                n_tiny_droplets: Some(n_tiny_droplets),
                derived: DerivedCounts { n_tiny_droplets: false, ..self.derived },
                ..self
            }),
    {
        FruitsPP {
            n_tiny_droplets: Some(n_tiny_droplets),
            derived: DerivedCounts { n_tiny_droplets: false, ..self.derived },
            ..self
        }
    }

    /// Specify the amount of tiny droplet misses of a play.
    pub fn tiny_droplet_misses(self, n_tiny_droplet_misses: usize) -> (r: Self)
        ensures
            (r == FruitsPP {
                n_tiny_droplet_misses: Some(n_tiny_droplet_misses),
                derived: DerivedCounts { n_tiny_droplet_misses: false, ..self.derived },
                ..self
            }),
    {
        FruitsPP {
            n_tiny_droplet_misses: Some(n_tiny_droplet_misses),
            derived: DerivedCounts { n_tiny_droplet_misses: false, ..self.derived },
            ..self
        }
    }

    /// Specify the amount of fruit and droplet misses of the play.
    pub fn misses(self, n_misses: usize) -> (r: Self)
        ensures
            (r == FruitsPP { n_misses, ..self }),
    {
        FruitsPP { n_misses, ..self }
    }

    /// Amount of passed objects for partial plays, e.g. a fail.
    pub fn passed_objects(self, passed_objects: usize) -> (r: Self)
        ensures
            (r == FruitsPP { passed_objects: Some(passed_objects), ..self }),
    {
        FruitsPP { passed_objects: Some(passed_objects), ..self }
    }

    /// Complete the counts so that they agree with the attributes.
    ///
    /// Counts that are already complete and balanced stay exactly as
    /// given; otherwise the unaccounted combo hits are filled in as
    /// fruits first, then droplets, and the tiny droplets are topped up.
    /// Afterwards every count is set, and as long as the supplied
    /// fruits, droplets and misses did not overshoot the maximum combo,
    /// they add up to it; likewise the tiny droplets split exactly into
    /// caught and missed ones as long as the supplied ones did not
    /// overshoot their total.
    pub fn assert_hitresults(&mut self, attributes: &DifficultyAttributes)
        ensures
            *final(self) == hitresults_checked(*old(self), *attributes),
            final(self).n_fruits is Some,
            final(self).n_droplets is Some,
            final(self).n_tiny_droplets is Some,
            final(self).n_tiny_droplet_misses is Some,
            or_zero(old(self).n_fruits) + or_zero(old(self).n_droplets) + old(self).n_misses
                <= attributes.max_combo
                ==> final(self).n_fruits.unwrap() + final(self).n_droplets.unwrap()
                    + old(self).n_misses == attributes.max_combo,
            or_zero(old(self).n_tiny_droplets) + or_zero(old(self).n_tiny_droplet_misses)
                <= attributes.n_tiny_droplets
                ==> final(self).n_tiny_droplets.unwrap()
                    + final(self).n_tiny_droplet_misses.unwrap() == attributes.n_tiny_droplets,
    {
        let consistent = self.counts_consistent(attributes);

        if !consistent {
            let n_fruits = self.n_fruits.unwrap_or(0);
            let n_droplets = self.n_droplets.unwrap_or(0);
            let n_tiny_droplets = self.n_tiny_droplets.unwrap_or(0);
            let n_tiny_droplet_misses = self.n_tiny_droplet_misses.unwrap_or(0);

            let missing = attributes
                .max_combo
                .saturating_sub(n_fruits)
                .saturating_sub(n_droplets)
                .saturating_sub(self.n_misses);

            let missing_fruits =
                missing.saturating_sub(attributes.n_droplets.saturating_sub(n_droplets));

            self.n_fruits = Some(n_fruits + missing_fruits);
            self.n_droplets = Some(n_droplets + (missing - missing_fruits));
            self.n_tiny_droplets = Some(
                n_tiny_droplets
                    + attributes
                        .n_tiny_droplets
                        .saturating_sub(n_tiny_droplets)
                        .saturating_sub(n_tiny_droplet_misses),
            );
            self.n_tiny_droplet_misses = Some(n_tiny_droplet_misses);
        }
    }

    /// Whether the supplied counts already agree with the attributes.
    fn counts_consistent(&self, attributes: &DifficultyAttributes) -> (r: bool)
        ensures
            r == hitresults_consistent(*self, *attributes),
    {
        let combo_ok = match (self.n_fruits, self.n_droplets) {
            (Some(f), Some(d)) => {
                f <= usize::MAX - d && self.n_misses <= usize::MAX - f - d
                    && f + d + self.n_misses == attributes.max_combo
                    && f >= attributes.n_fruits.saturating_sub(self.n_misses)
                    && d >= attributes.n_droplets.saturating_sub(self.n_misses)
            },
            _ => false,
        };

        let tinies_ok = match (self.n_tiny_droplets, self.n_tiny_droplet_misses) {
            (Some(t), Some(tm)) => {
                t <= usize::MAX - tm && t + tm == attributes.n_tiny_droplets
            },
            _ => false,
        };

        combo_ok && tinies_ok
    }

    /// Generate the hit results from a targeted number of successful
    /// hits, the rounded product of the targeted accuracy and the total
    /// number of accuracy-bearing objects (maximum combo plus tiny
    /// droplets). Set `misses` beforehand, and the attributes before
    /// that.
    ///
    /// Counts that an earlier pass derived are discarded first, so the
    /// derivation reads only what the caller set: a repeated pass with
    /// another target behaves like a single fresh one.
    pub fn set_accuracy_hits(&mut self, target_hits: usize)
        requires
            old(self).attributes is Some,
        ensures
            *final(self) == accuracy_hits(*old(self), target_hits),
            old(self).n_droplets is Some && !old(self).derived.n_droplets
                ==> final(self).n_droplets == old(self).n_droplets,
            old(self).n_fruits is Some && !old(self).derived.n_fruits
                ==> final(self).n_fruits == old(self).n_fruits,
            final(self).n_fruits is Some,
            final(self).n_droplets is Some,
            final(self).n_tiny_droplets is Some,
            final(self).n_tiny_droplet_misses is Some,
    {
        let attr = self.attributes.unwrap();

        if self.derived.n_fruits {
            self.n_fruits = None;
        }
        if self.derived.n_droplets {
            self.n_droplets = None;
        }
        if self.derived.n_tiny_droplets {
            self.n_tiny_droplets = None;
        }
        if self.derived.n_tiny_droplet_misses {
            self.n_tiny_droplet_misses = None;
        }

        let fruits_given = self.n_fruits.is_some();
        let droplets_given = self.n_droplets.is_some();
        let tiny_droplets_given = self.n_tiny_droplets.is_some();

        let n_droplets = match self.n_droplets {
            Some(d) => d,
            None => attr.n_droplets.saturating_sub(self.n_misses),
        };

        let n_fruits = match self.n_fruits {
            Some(f) => f,
            None => attr
                .max_combo
                .saturating_sub(self.n_misses)
                .saturating_sub(n_droplets),
        };

        let n_tiny_droplets = match self.n_tiny_droplets {
            Some(t) => t,
            None => target_hits.saturating_sub(n_fruits).saturating_sub(n_droplets),
        };

        let n_tiny_droplet_misses = attr.n_tiny_droplets.saturating_sub(n_tiny_droplets);

        self.n_fruits = Some(n_fruits);
        self.n_droplets = Some(n_droplets);
        self.n_tiny_droplets = Some(n_tiny_droplets);
        self.n_tiny_droplet_misses = Some(n_tiny_droplet_misses);
        self.derived = DerivedCounts {
            n_fruits: !fruits_given,
            n_droplets: !droplets_given,
            n_tiny_droplets: !tiny_droplets_given,
            n_tiny_droplet_misses: true,
        };
    }

    /// The hits that kept the combo alive: fruits, droplets and
    /// misses, clamped at the machine limit.
    pub fn combo_hits(&self) -> (r: usize)
        ensures
            r == clamped(or_zero(self.n_fruits) + or_zero(self.n_droplets) + self.n_misses),
    {
        self.n_fruits
            .unwrap_or(0)
            .saturating_add(self.n_droplets.unwrap_or(0))
            .saturating_add(self.n_misses)
    }

    /// Everything that was caught, clamped at the machine limit.
    pub fn successful_hits(&self) -> (r: usize)
        ensures
            r == clamped(
                or_zero(self.n_fruits) + or_zero(self.n_droplets)
                    + or_zero(self.n_tiny_droplets),
            ),
    {
        self.n_fruits
            .unwrap_or(0)
            .saturating_add(self.n_droplets.unwrap_or(0))
            .saturating_add(self.n_tiny_droplets.unwrap_or(0))
    }

    /// Everything the play was judged on, caught or missed, clamped at
    /// the machine limit.
    pub fn total_hits(&self) -> (r: usize)
        ensures
            r == clamped(
                or_zero(self.n_fruits) + or_zero(self.n_droplets)
                    + or_zero(self.n_tiny_droplets) + or_zero(self.n_tiny_droplet_misses)
                    + self.n_misses,
            ),
    {
        self.successful_hits()
            .saturating_add(self.n_tiny_droplet_misses.unwrap_or(0))
            .saturating_add(self.n_misses)
    }
}

/// Checking the hit results settles them: a second check of the same
/// counts against the same attributes changes nothing.
pub proof fn lemma_hitresults_check_idempotent(pp: FruitsPP, attr: DifficultyAttributes)
    ensures
        hitresults_checked(hitresults_checked(pp, attr), attr) == hitresults_checked(pp, attr),
{
    let once = hitresults_checked(pp, attr);
    if !hitresults_consistent(once, attr) {
        assert(repair(once, attr) == once);
    }
}

/// An accuracy pass reads only the caller-set counts, never the fills
/// an earlier pass left behind: a second pass with any target gives
/// exactly what a single fresh pass with that target gives, and in
/// particular a repeat of the same target changes nothing.
pub proof fn lemma_accuracy_hits_fresh(pp: FruitsPP, first_target: usize, second_target: usize)
    requires
        pp.attributes is Some,
    ensures
        accuracy_hits(accuracy_hits(pp, first_target), second_target)
            == accuracy_hits(pp, second_target),
{
    assert(caller_counts(accuracy_hits(pp, first_target)) == FruitsPP {
        n_tiny_droplet_misses: None,
        ..caller_counts(pp)
    });
}

/// A source of previously computed Catch difficulty attributes.
///
/// Implemented by the attribute bag itself, by the mode-tagged star
/// result, and by a performance result, so that one calculation's
/// output can seed the next. A source for another mode yields none.
pub trait FruitsAttributeProvider: Sized {
    spec fn spec_attributes(self) -> Option<DifficultyAttributes>;

    fn attributes(self) -> (r: Option<DifficultyAttributes>)
        ensures
            r == self.spec_attributes(),
    ;
}

impl FruitsAttributeProvider for DifficultyAttributes {
    open spec fn spec_attributes(self) -> Option<DifficultyAttributes> {
        Some(self)
    }

    fn attributes(self) -> (r: Option<DifficultyAttributes>) {
        Some(self)
    }
}

impl FruitsAttributeProvider for StarResult {
    open spec fn spec_attributes(self) -> Option<DifficultyAttributes> {
        match self {
            StarResult::Fruits(attributes) => Some(attributes),
            _ => None,
        }
    }

    fn attributes(self) -> (r: Option<DifficultyAttributes>) {
        match self {
            StarResult::Fruits(attributes) => Some(attributes),
            _ => None,
        }
    }
}

impl FruitsAttributeProvider for PpResult {
    open spec fn spec_attributes(self) -> Option<DifficultyAttributes> {
        self.attributes.spec_attributes()
    }

    fn attributes(self) -> (r: Option<DifficultyAttributes>) {
        self.attributes.attributes()
    }
}

} // verus!
