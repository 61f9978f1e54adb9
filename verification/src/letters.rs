//! The classified-letter pipeline: normalization, validation, classification,
//! the letter accumulator, and its derived statistics.

use crate::ascii::alphabetic_char;
use crate::ascii::ascii_char;
use crate::ascii::digit_char;
use crate::ascii::is_ascii_alphabetic;
use crate::ascii::is_ascii_char;
use crate::ascii::is_ascii_digit;
use crate::ascii::is_ascii_punctuation;
use crate::ascii::is_ascii_whitespace;
use crate::ascii::is_vowel;
use crate::ascii::punctuation_char;
use crate::ascii::vowel_char;
use crate::ascii::whitespace_char;
use vstd::prelude::*;
use vstd::string::StrSliceExecFns;
use vstd::string::StringExecFns;

verus! {

/// The class of one validated character: vowel or consonant.
#[derive(PartialEq, Eq, Copy, Clone, Debug, Structural)]
pub enum Letter {
    Consonant,
    Vowel,
}

/// The class of one ordered pair of adjacent letters.
#[derive(PartialEq, Eq, Copy, Clone, Debug, Structural)]
pub enum LetterPair {
    CC,
    CV,
    VV,
    VC,
}

/// The tallies of the four transition types over a sequence's adjacent pairs.
#[derive(PartialEq, Eq, Debug, Copy, Clone, Structural)]
pub struct LetterPairs {
    pub cc: usize,
    pub cv: usize,
    pub vc: usize,
    pub vv: usize,
}

/// The three ways validation can reject input, each carrying the offending
/// character where one exists.
#[derive(Debug, Copy, Clone, PartialEq, Eq, Structural)]
#[non_exhaustive]
pub enum MarkovChainLettersError {
    NotAsciiError,
    CharacterIsNumberError(char),
    NotAsciiAlphabeticError(char),
}

pub type MCLResult<T> = Result<T, MarkovChainLettersError>;

/// True of the characters that normalization keeps: everything but ASCII
/// whitespace and ASCII punctuation.
pub open spec fn keeps(c: char) -> bool {
    !is_ascii_whitespace(c) && !is_ascii_punctuation(c)
}

/// What normalization returns: the kept characters, in input order.
pub open spec fn normalized(s: Seq<char>) -> Seq<char>
    decreases s.len(),
{
    if s.len() == 0 {
        Seq::empty()
    } else if keeps(s.last()) {
        normalized(s.drop_last()).push(s.last())
    } else {
        normalized(s.drop_last())
    }
}

/// The fixed classification rule: the five lowercase vowels are vowels, every
/// other character a consonant.
pub open spec fn classify(c: char) -> Letter {
    if is_vowel(c) {
        Letter::Vowel
    } else {
        Letter::Consonant
    }
}

/// Each character of the sequence classified in order.
pub open spec fn classified(s: Seq<char>) -> Seq<Letter> {
    s.map_values(|c: char| classify(c))
}

/// True when every character of the sequence is ASCII.
pub open spec fn all_ascii(s: Seq<char>) -> bool {
    forall|i: int| 0 <= i < s.len() ==> is_ascii_char(#[trigger] s[i])
}

/// The left-to-right scan for the first non-alphabetic character: a digit is
/// reported as `CharacterIsNumberError`, any other as
/// `NotAsciiAlphabeticError`.
pub open spec fn scanned(s: Seq<char>) -> Result<(), MarkovChainLettersError>
    decreases s.len(),
{
    if s.len() == 0 {
        Ok(())
    } else if !is_ascii_alphabetic(s.first()) {
        if is_ascii_digit(s.first()) {
            Err(MarkovChainLettersError::CharacterIsNumberError(s.first()))
        } else {
            Err(MarkovChainLettersError::NotAsciiAlphabeticError(s.first()))
        }
    } else {
        scanned(s.drop_first())
    }
}

/// What validation returns: a sequence with any non-ASCII character fails
/// with `NotAsciiError` before any per-character scan; otherwise the scan
/// reports the first non-alphabetic character, if any.
pub open spec fn validated(s: Seq<char>) -> Result<(), MarkovChainLettersError> {
    if !all_ascii(s) {
        Err(MarkovChainLettersError::NotAsciiError)
    } else {
        scanned(s)
    }
}

/// How many letters of the sequence are consonants.
pub open spec fn consonant_count(s: Seq<Letter>) -> nat
    decreases s.len(),
{
    if s.len() == 0 {
        0
    } else {
        consonant_count(s.drop_last()) + if s.last() is Consonant {
            1nat
        } else {
            0nat
        }
    }
}

/// How many letters of the sequence are vowels.
pub open spec fn vowel_count(s: Seq<Letter>) -> nat
    decreases s.len(),
{
    if s.len() == 0 {
        0
    } else {
        vowel_count(s.drop_last()) + if s.last() is Vowel {
            1nat
        } else {
            0nat
        }
    }
}

/// The transition type of one ordered pair of adjacent letters.
pub open spec fn pair_of(a: Letter, b: Letter) -> LetterPair {
    match (a, b) {
        (Letter::Consonant, Letter::Consonant) => LetterPair::CC,
        (Letter::Consonant, Letter::Vowel) => LetterPair::CV,
        (Letter::Vowel, Letter::Consonant) => LetterPair::VC,
        (Letter::Vowel, Letter::Vowel) => LetterPair::VV,
    }
}

/// How many of the sequence's adjacent pairs have the given transition type.
pub open spec fn pair_count(s: Seq<Letter>, p: LetterPair) -> nat
    decreases s.len(),
{
    if s.len() < 2 {
        0
    } else {
        pair_count(s.drop_last(), p) + if pair_of(s[s.len() - 2], s.last()) == p {
            1nat
        } else {
            0nat
        }
    }
}

/// The ordered accumulator of classified letters.
#[derive(Debug)]
pub struct Letters(pub Vec<Letter>);

impl View for Letters {
    type V = Seq<Letter>;

    open spec fn view(&self) -> Seq<Letter> {
        self.0@
    }
}

impl Letters {
    /// The empty sequence of letters.
    pub fn new() -> (letters: Letters)
        ensures
            letters@ == Seq::<Letter>::empty(),
    {
        Letters(Vec::new())
    }

    /// Removes every ASCII whitespace and ASCII punctuation character; all
    /// other characters pass through unchanged, in order.
    pub fn normalize(input: &str) -> (cleaned: String)
        ensures
            cleaned@ == normalized(input@),
    {
        let len: usize = input.unicode_len();
        let mut cleaned = String::new();
        let mut i: usize = 0;
        while i < len
            invariant
                i <= len,
                len == input@.len(),
                cleaned@ == normalized(input@.subrange(0, i as int)),
            decreases len - i,
        {
            let c = input.get_char(i);
            let ghost prefix = input@.subrange(0, i as int);
            if !whitespace_char(c) && !punctuation_char(c) {
                let piece = input.substring_char(i, i + 1);
                proof {
                    assert(piece@ =~= seq![input@[i as int]]);
                }
                cleaned.append(piece);
            }
            proof {
                let longer = input@.subrange(0, i + 1 as int);
                assert(longer.drop_last() =~= prefix);
                assert(longer.last() == input@[i as int]);
                assert(cleaned@ =~= normalized(longer));
            }
            i = i + 1;
        }
        proof {
            assert(input@.subrange(0, len as int) =~= input@);
        }
        cleaned
    }

    /// Accepts exactly the strings whose every character is ASCII
    /// alphabetic. A string with any non-ASCII character is rejected as
    /// `NotAsciiError`; otherwise the first non-alphabetic character decides
    /// the error: `CharacterIsNumberError` for a digit,
    /// `NotAsciiAlphabeticError` for anything else.
    pub fn validate(input: &str) -> (res: MCLResult<()>)
        ensures
            res == validated(input@),
    {
        let len: usize = input.unicode_len();
        let mut i: usize = 0;
        while i < len
            invariant
                i <= len,
                len == input@.len(),
                forall|j: int| 0 <= j < i ==> is_ascii_char(#[trigger] input@[j]),
            decreases len - i,
        {
            if !ascii_char(input.get_char(i)) {
                return Err(MarkovChainLettersError::NotAsciiError);
            }
            i = i + 1;
        }
        assert(all_ascii(input@));
        proof {
            assert(input@.skip(0) =~= input@);
        }
        i = 0;
        while i < len
            invariant
                i <= len,
                len == input@.len(),
                all_ascii(input@),
                scanned(input@) == scanned(input@.skip(i as int)),
                forall|j: int| 0 <= j < i ==> is_ascii_alphabetic(#[trigger] input@[j]),
            decreases len - i,
        {
            let c = input.get_char(i);
            let ghost rest = input@.skip(i as int);
            proof {
                assert(rest.len() == len - i);
                assert(rest.first() == input@[i as int]);
            }
            if !alphabetic_char(c) {
                if digit_char(c) {
                    return Err(MarkovChainLettersError::CharacterIsNumberError(c));
                } else {
                    return Err(MarkovChainLettersError::NotAsciiAlphabeticError(c));
                }
            }
            proof {
                assert(rest.drop_first() =~= input@.skip(i + 1 as int));
            }
            i = i + 1;
        }
        proof {
            assert(input@.skip(len as int) =~= Seq::<char>::empty());
        }
        Ok(())
    }

    /// Normalizes and validates the chunk, then appends its letters,
    /// classified in order, to the sequence. On a validation failure the
    /// error is handed through and the sequence is left exactly as it was.
    pub fn update(&mut self, input: &str) -> (res: MCLResult<()>)
        ensures
            match res {
                Ok(_) => validated(normalized(input@)) is Ok && final (self)@ == old(self)@
                    + classified(normalized(input@)),
                Err(e) => validated(normalized(input@)) == Err::<(), _>(e) && final (self)@ == old(
                    self,
                )@,
            },
    {
        let cleaned = Letters::normalize(input);
        match Letters::validate(cleaned.as_str()) {
            Err(e) => {
                return Err(e);
            },
            Ok(_) => {},
        }
        let s = cleaned.as_str();
        let len: usize = s.unicode_len();
        let mut i: usize = 0;
        while i < len
            invariant
                i <= len,
                len == s@.len(),
                self@ == old(self)@ + classified(s@.subrange(0, i as int)),
            decreases len - i,
        {
            let c = s.get_char(i);
            let letter = if vowel_char(c) {
                Letter::Vowel
            } else {
                Letter::Consonant
            };
            self.0.push(letter);
            proof {
                assert(classified(s@.subrange(0, i + 1 as int)) =~= classified(
                    s@.subrange(0, i as int),
                ).push(classify(s@[i as int])));
            }
            i = i + 1;
        }
        proof {
            assert(s@.subrange(0, len as int) =~= s@);
        }
        Ok(())
    }

    /// Builds a sequence from one chunk: the letters of the normalized,
    /// validated input, classified in order, or the chunk's validation error.
    pub fn new_from_str(input: &str) -> (res: MCLResult<Letters>)
        ensures
            match res {
                Ok(letters) => validated(normalized(input@)) is Ok && letters@ == classified(
                    normalized(input@),
                ),
                Err(e) => validated(normalized(input@)) == Err::<(), _>(e),
            },
    {
        let mut letters = Letters::new();
        match letters.update(input) {
            Ok(_) => Ok(letters),
            Err(e) => Err(e),
        }
    }

    /// The pair `(consonant_count, vowel_count)` of the sequence: an exact
    /// partition, so the two counts sum to the sequence's length.
    pub fn finalize(&self) -> (counts: (usize, usize))
        ensures
            counts.0 == consonant_count(self@),
            counts.1 == vowel_count(self@),
            counts.0 + counts.1 == self@.len(),
    {
        let len: usize = self.0.len();
        let mut consonants: usize = 0;
        let mut vowels: usize = 0;
        let mut i: usize = 0;
        while i < len
            invariant
                i <= len,
                len == self@.len(),
                consonants == consonant_count(self@.subrange(0, i as int)),
                vowels == vowel_count(self@.subrange(0, i as int)),
                consonants + vowels == i,
            decreases len - i,
        {
            let ghost prefix = self@.subrange(0, i as int);
            match self.0[i] {
                Letter::Consonant => {
                    consonants = consonants + 1;
                },
                Letter::Vowel => {
                    vowels = vowels + 1;
                },
            }
            proof {
                let longer = self@.subrange(0, i + 1 as int);
                assert(longer.drop_last() =~= prefix);
                assert(longer.last() == self@[i as int]);
            }
            i = i + 1;
        }
        proof {
            assert(self@.subrange(0, len as int) =~= self@);
        }
        (consonants, vowels)
    }

    /// Scans the sequence's adjacent pairs in order and tallies the four
    /// transition types. The tallies sum to `length - 1` (to 0 for a
    /// sequence of length 0 or 1).
    pub fn analyze_pairs(&self) -> (tallies: LetterPairs)
        ensures
            tallies.cc == pair_count(self@, LetterPair::CC),
            tallies.cv == pair_count(self@, LetterPair::CV),
            tallies.vc == pair_count(self@, LetterPair::VC),
            tallies.vv == pair_count(self@, LetterPair::VV),
            tallies.cc + tallies.cv + tallies.vc + tallies.vv == if self@.len() == 0 {
                0int
            } else {
                self@.len() - 1
            },
    {
        let len: usize = self.0.len();
        let mut cc: usize = 0;
        let mut cv: usize = 0;
        let mut vc: usize = 0;
        let mut vv: usize = 0;
        if len < 2 {
            return LetterPairs { cc, cv, vc, vv };
        }
        let mut i: usize = 1;
        while i < len
            invariant
                1 <= i <= len,
                len == self@.len(),
                cc == pair_count(self@.subrange(0, i as int), LetterPair::CC),
                cv == pair_count(self@.subrange(0, i as int), LetterPair::CV),
                vc == pair_count(self@.subrange(0, i as int), LetterPair::VC),
                vv == pair_count(self@.subrange(0, i as int), LetterPair::VV),
                cc + cv + vc + vv == i - 1,
            decreases len - i,
        {
            let ghost prefix = self@.subrange(0, i as int);
            match (self.0[i - 1], self.0[i]) {
                (Letter::Consonant, Letter::Consonant) => {
                    cc = cc + 1;
                },
                (Letter::Consonant, Letter::Vowel) => {
                    cv = cv + 1;
                },
                (Letter::Vowel, Letter::Consonant) => {
                    vc = vc + 1;
                },
                (Letter::Vowel, Letter::Vowel) => {
                    vv = vv + 1;
                },
            }
            proof {
                let longer = self@.subrange(0, i + 1 as int);
                assert(longer.drop_last() =~= prefix);
                assert(longer.last() == self@[i as int]);
                assert(longer[longer.len() - 2] == self@[i - 1]);
            }
            i = i + 1;
        }
        proof {
            assert(self@.subrange(0, len as int) =~= self@);
        }
        LetterPairs { cc, cv, vc, vv }
    }
}

impl From<Vec<Letter>> for Letters {
    /// Adopts an already-classified sequence of letters as an accumulator.
    fn from(value: Vec<Letter>) -> (letters: Letters) {
        Letters(value)
    }
}

impl vstd::std_specs::convert::FromSpecImpl<Vec<Letter>> for Letters {
    open spec fn obeys_from_spec() -> bool {
        true
    }

    open spec fn from_spec(value: Vec<Letter>) -> Letters {
        Letters(value)
    }
}

} // verus!
