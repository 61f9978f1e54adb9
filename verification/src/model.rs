//! The transition model derived from pair tallies: per current-letter class,
//! the exact chance that the next letter is a consonant or a vowel.
//!
//! A chance is kept as an exact ratio of observed counts rather than as a
//! floating-point quotient: `to_consonant` out of `total` transitions went to
//! a consonant, `to_vowel` out of `total` to a vowel. A class that never had
//! a successor in the observed sequence has no denominator to divide by, and
//! its model is the explicit `Undefined` state, which callers must branch on.

use crate::letters::LetterPairs;
use vstd::prelude::*;

verus! {

/// The chance distribution over the next letter's class, for one current
/// class: either `Undefined` (the class had no successor, so the denominator
/// would be zero) or the two numerators and their shared denominator.
#[derive(PartialEq, Eq, Copy, Clone, Debug, Structural)]
pub enum NextLetterChance {
    Undefined,
    Observed { to_consonant: usize, to_vowel: usize, total: usize },
}

/// The chance distribution built from the two outgoing tallies of one class.
pub open spec fn chance_from(to_consonant: usize, to_vowel: usize) -> NextLetterChance {
    if to_consonant + to_vowel == 0 {
        NextLetterChance::Undefined
    } else {
        NextLetterChance::Observed {
            to_consonant,
            to_vowel,
            total: (to_consonant + to_vowel) as usize,
        }
    }
}

/// A defined chance distribution is a pair of probabilities in [0, 1] that
/// sum to 1: each numerator is at most the denominator, the two numerators
/// sum to the denominator, and the denominator is positive.
pub open spec fn chance_well_formed(chance: NextLetterChance) -> bool {
    match chance {
        NextLetterChance::Undefined => true,
        NextLetterChance::Observed { to_consonant, to_vowel, total } => {
            &&& total > 0
            &&& to_consonant <= total
            &&& to_vowel <= total
            &&& to_consonant + to_vowel == total
        },
    }
}

/// The per-class transition model: one chance distribution for a current
/// consonant and one for a current vowel. Built once and never changed.
pub struct PredictionMachine {
    pub consonant: NextLetterChance,
    pub vowel: NextLetterChance,
}

impl PredictionMachine {
    /// Builds the model from aggregate counts and pair tallies. Outgoing
    /// transitions from a consonant are the `cc` and `cv` tallies, those
    /// from a vowel the `vc` and `vv` tallies; a class whose outgoing total
    /// is zero gets the explicit `Undefined` state.
    #[allow(unused_variables)]
    pub fn from_stats(consonants_count: usize, vowels_count: usize, pairs: LetterPairs) -> (machine:
        PredictionMachine)
        requires
            pairs.cc + pairs.cv <= usize::MAX,
            pairs.vc + pairs.vv <= usize::MAX,
        ensures
            machine.consonant == chance_from(pairs.cc, pairs.cv),
            machine.vowel == chance_from(pairs.vc, pairs.vv),
            chance_well_formed(machine.consonant),
            chance_well_formed(machine.vowel),
    {
        PredictionMachine {
            consonant: Self::chance_from_tallies(pairs.cc, pairs.cv),
            vowel: Self::chance_from_tallies(pairs.vc, pairs.vv),
        }
    }

    fn chance_from_tallies(to_consonant: usize, to_vowel: usize) -> (chance: NextLetterChance)
        requires
            to_consonant + to_vowel <= usize::MAX,
        ensures
            chance == chance_from(to_consonant, to_vowel),
            chance_well_formed(chance),
    {
        let total = to_consonant + to_vowel;
        if total == 0 {
            NextLetterChance::Undefined
        } else {
            NextLetterChance::Observed { to_consonant, to_vowel, total }
        }
    }
}

} // verus!
