//! First-order vowel/consonant statistics over ASCII text.
//!
//! The pipeline normalizes raw text (stripping ASCII whitespace and
//! punctuation), validates that what remains is ASCII alphabetic, classifies
//! each letter as vowel or consonant, accumulates the classified letters in
//! order, and derives totals, adjacent-pair transition tallies, and a
//! transition model that gives, per current-letter class, the exact chance
//! that the next letter is a vowel or a consonant.

pub mod ascii;
pub mod laws;
pub mod letters;
pub mod model;

pub use letters::Letter;
pub use letters::LetterPair;
pub use letters::LetterPairs;
pub use letters::Letters;
pub use letters::MCLResult;
pub use letters::MarkovChainLettersError;
pub use model::NextLetterChance;
pub use model::PredictionMachine;
