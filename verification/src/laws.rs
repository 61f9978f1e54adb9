//! The library-wide laws: what holds of validation, of the counts, and of
//! the pair tallies for every input, proved once and for all.

use crate::ascii::is_ascii_alphabetic;
use crate::ascii::is_ascii_char;
use crate::ascii::is_ascii_digit;
use crate::ascii::is_ascii_punctuation;
use crate::ascii::is_ascii_whitespace;
use crate::letters::Letter;
use crate::letters::LetterPair;
use crate::letters::MarkovChainLettersError;
use crate::letters::all_ascii;
use crate::letters::classified;
use crate::letters::consonant_count;
use crate::letters::keeps;
use crate::letters::normalized;
use crate::letters::pair_count;
use crate::letters::scanned;
use crate::letters::validated;
use crate::letters::vowel_count;
use vstd::prelude::*;

verus! {

/// A scan of an all-alphabetic sequence finds nothing to reject.
proof fn lemma_scan_of_alphabetic(s: Seq<char>)
    requires
        forall|i: int| 0 <= i < s.len() ==> is_ascii_alphabetic(#[trigger] s[i]),
    ensures
        scanned(s) == Ok::<(), MarkovChainLettersError>(()),
    decreases s.len(),
{
    if s.len() > 0 {
        assert forall|i: int| 0 <= i < s.drop_first().len() implies is_ascii_alphabetic(
            #[trigger] s.drop_first()[i],
        ) by {
            assert(s.drop_first()[i] == s[i + 1]);
        }
        lemma_scan_of_alphabetic(s.drop_first());
    }
}

/// Every character of the normalized sequence is a kept character of the
/// input.
proof fn lemma_normalized_within(s: Seq<char>)
    ensures
        forall|i: int|
            0 <= i < normalized(s).len() ==> keeps(#[trigger] normalized(s)[i]) && s.contains(
                normalized(s)[i],
            ),
    decreases s.len(),
{
    if s.len() > 0 {
        lemma_normalized_within(s.drop_last());
        let shorter = normalized(s.drop_last());
        assert forall|i: int| 0 <= i < normalized(s).len() implies keeps(#[trigger] normalized(s)[i])
            && s.contains(normalized(s)[i]) by {
            if i < shorter.len() {
                assert(normalized(s)[i] == shorter[i]);
                let j = choose|j: int| 0 <= j < s.drop_last().len() && s.drop_last()[j]
                    == shorter[i];
                assert(s[j] == shorter[i]);
            } else {
                assert(normalized(s)[i] == s.last());
                assert(s[s.len() - 1] == s.last());
            }
        }
    }
}

/// A kept character of the input survives into the normalized sequence.
proof fn lemma_normalized_contains(s: Seq<char>, i: int)
    requires
        0 <= i < s.len(),
        keeps(s[i]),
    ensures
        normalized(s).contains(s[i]),
    decreases s.len(),
{
    if i == s.len() - 1 {
        assert(normalized(s)[normalized(s).len() - 1] == s.last());
    } else {
        lemma_normalized_contains(s.drop_last(), i);
        let shorter = normalized(s.drop_last());
        let j = choose|j: int| 0 <= j < shorter.len() && shorter[j] == s.drop_last()[i];
        assert(normalized(s)[j] == shorter[j]);
    }
}

/// An input of nothing but ASCII letters, whitespace and punctuation always
/// validates once normalized: whitespace and punctuation are stripped, and
/// only alphabetic characters remain.
pub proof fn lemma_clean_input_validates(s: Seq<char>)
    requires
        forall|i: int|
            0 <= i < s.len() ==> is_ascii_alphabetic(#[trigger] s[i]) || is_ascii_whitespace(s[i])
                || is_ascii_punctuation(s[i]),
    ensures
        validated(normalized(s)) == Ok::<(), MarkovChainLettersError>(()),
{
    lemma_normalized_within(s);
    assert forall|i: int| 0 <= i < normalized(s).len() implies is_ascii_alphabetic(
        #[trigger] normalized(s)[i],
    ) by {
        let c = normalized(s)[i];
        let j = choose|j: int| 0 <= j < s.len() && s[j] == c;
    }
    assert forall|i: int| 0 <= i < normalized(s).len() implies is_ascii_char(
        #[trigger] normalized(s)[i],
    ) by {}
    lemma_scan_of_alphabetic(normalized(s));
}

/// For an all-ASCII sequence, the first non-alphabetic character in scan
/// order decides the outcome of validation: a digit is reported as
/// `CharacterIsNumberError`, any other character as
/// `NotAsciiAlphabeticError`, in either case carrying that character.
pub proof fn lemma_first_offender(s: Seq<char>, i: int)
    requires
        all_ascii(s),
        0 <= i < s.len(),
        !is_ascii_alphabetic(s[i]),
        forall|j: int| 0 <= j < i ==> is_ascii_alphabetic(#[trigger] s[j]),
    ensures
        validated(s) == if is_ascii_digit(s[i]) {
            Err::<(), MarkovChainLettersError>(MarkovChainLettersError::CharacterIsNumberError(
                s[i],
            ))
        } else {
            Err::<(), MarkovChainLettersError>(MarkovChainLettersError::NotAsciiAlphabeticError(
                s[i],
            ))
        },
    decreases i,
{
    if i == 0 {
        assert(s.first() == s[0]);
    } else {
        let rest = s.drop_first();
        assert forall|j: int| 0 <= j < rest.len() implies is_ascii_char(#[trigger] rest[j]) by {
            assert(rest[j] == s[j + 1]);
        }
        assert forall|j: int| 0 <= j < i - 1 implies is_ascii_alphabetic(#[trigger] rest[j]) by {
            assert(rest[j] == s[j + 1]);
        }
        assert(rest[i - 1] == s[i]);
        lemma_first_offender(rest, i - 1);
        assert(s.first() == s[0]);
        assert(scanned(s) == scanned(rest));
    }
}

/// An all-ASCII sequence of letters and digits with at least one digit fails
/// validation with `CharacterIsNumberError` carrying the first digit in scan
/// order, which is the first offending character.
pub proof fn lemma_digit_rejected(s: Seq<char>)
    requires
        forall|i: int|
            0 <= i < s.len() ==> is_ascii_alphabetic(#[trigger] s[i]) || is_ascii_digit(s[i]),
        exists|i: int| 0 <= i < s.len() && is_ascii_digit(#[trigger] s[i]),
    ensures
        exists|i: int|
            0 <= i < s.len() && is_ascii_digit(#[trigger] s[i]) && (forall|j: int|
                0 <= j < i ==> is_ascii_alphabetic(#[trigger] s[j])) && validated(s) == Err::<
                (),
                MarkovChainLettersError,
            >(MarkovChainLettersError::CharacterIsNumberError(s[i])),
{
    let k = choose|k: int| 0 <= k < s.len() && is_ascii_digit(#[trigger] s[k]);
    let first = choose|i: int|
        0 <= i < s.len() && is_ascii_digit(#[trigger] s[i]) && forall|j: int|
            0 <= j < i ==> !is_ascii_digit(#[trigger] s[j]);
    lemma_some_first_digit(s, k);
    assert(is_ascii_digit(s[first]));
    assert forall|j: int| 0 <= j < first implies is_ascii_alphabetic(#[trigger] s[j]) by {}
    assert forall|i: int| 0 <= i < s.len() implies is_ascii_char(#[trigger] s[i]) by {}
    lemma_first_offender(s, first);
}

/// Among the indices holding a digit there is a least one.
proof fn lemma_some_first_digit(s: Seq<char>, k: int)
    requires
        0 <= k < s.len(),
        is_ascii_digit(s[k]),
    ensures
        exists|i: int|
            0 <= i < s.len() && is_ascii_digit(#[trigger] s[i]) && forall|j: int|
                0 <= j < i ==> !is_ascii_digit(#[trigger] s[j]),
    decreases k,
{
    if forall|j: int| 0 <= j < k ==> !is_ascii_digit(#[trigger] s[j]) {
        assert(is_ascii_digit(s[k]) && forall|j: int| 0 <= j < k ==> !is_ascii_digit(
            #[trigger] s[j],
        ));
    } else {
        let earlier = choose|j: int| 0 <= j < k && is_ascii_digit(#[trigger] s[j]);
        lemma_some_first_digit(s, earlier);
    }
}

/// An input with any non-ASCII character fails validation with
/// `NotAsciiError`: normalization strips only ASCII whitespace and ASCII
/// punctuation, so the character survives into the validated text.
pub proof fn lemma_non_ascii_rejected(s: Seq<char>)
    requires
        exists|i: int| 0 <= i < s.len() && !is_ascii_char(#[trigger] s[i]),
    ensures
        validated(normalized(s)) == Err::<(), MarkovChainLettersError>(
            MarkovChainLettersError::NotAsciiError,
        ),
{
    let i = choose|i: int| 0 <= i < s.len() && !is_ascii_char(#[trigger] s[i]);
    let c = s[i];
    assert(keeps(c));
    lemma_normalized_contains(s, i);
    let j = choose|j: int| 0 <= j < normalized(s).len() && normalized(s)[j] == c;
    assert(!is_ascii_char(normalized(s)[j]));
}

/// The totals are an exact partition: consonants and vowels together account
/// for every letter of the sequence.
pub proof fn lemma_finalize_partition(s: Seq<Letter>)
    ensures
        consonant_count(s) + vowel_count(s) == s.len(),
    decreases s.len(),
{
    if s.len() > 0 {
        lemma_finalize_partition(s.drop_last());
    }
}

/// The four pair tallies together account for every adjacent pair: their sum
/// is the sequence's length less one, and zero for a sequence of length zero
/// or one.
pub proof fn lemma_pair_tallies_total(s: Seq<Letter>)
    ensures
        pair_count(s, LetterPair::CC) + pair_count(s, LetterPair::CV) + pair_count(
            s,
            LetterPair::VC,
        ) + pair_count(s, LetterPair::VV) == if s.len() == 0 {
            0int
        } else {
            s.len() - 1
        },
    decreases s.len(),
{
    if s.len() >= 2 {
        lemma_pair_tallies_total(s.drop_last());
    }
}

/// Updating is deterministic: two sequences independently built from the
/// same valid chunk carry the same classification at every position.
pub proof fn lemma_update_deterministic(a: Seq<Letter>, b: Seq<Letter>, chunk: Seq<char>)
    requires
        a == classified(normalized(chunk)),
        b == classified(normalized(chunk)),
    ensures
        a.len() == b.len(),
        forall|i: int| 0 <= i < a.len() ==> a[i] == b[i],
{
}

} // verus!
