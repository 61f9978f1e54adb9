use markov_chains::Letter;
use markov_chains::LetterPairs;
use markov_chains::Letters;
use markov_chains::MarkovChainLettersError;
use markov_chains::NextLetterChance;
use markov_chains::PredictionMachine;

#[test]
fn banana_sequence() {
    let letters = Letters::new_from_str("banana").unwrap();
    assert_eq!(
        letters.0,
        vec![
            Letter::Consonant,
            Letter::Vowel,
            Letter::Consonant,
            Letter::Vowel,
            Letter::Consonant,
            Letter::Vowel,
        ]
    );
    assert_eq!(letters.finalize(), (3, 3));
    let pairs = letters.analyze_pairs();
    assert_eq!(pairs.cc, 0);
    assert_eq!(pairs.cv, 3);
    assert_eq!(pairs.vc, 2);
    assert_eq!(pairs.vv, 0);
}

#[test]
fn aeiou_sequence() {
    let letters = Letters::new_from_str("aeiou").unwrap();
    assert_eq!(letters.0, vec![Letter::Vowel; 5]);
    assert_eq!(letters.finalize(), (0, 5));
    let pairs = letters.analyze_pairs();
    assert_eq!(pairs.cc, 0);
    assert_eq!(pairs.cv, 0);
    assert_eq!(pairs.vc, 0);
    assert_eq!(pairs.vv, 4);
}

#[test]
fn digit_rejected() {
    assert_eq!(
        Letters::new_from_str("a1b").unwrap_err(),
        MarkovChainLettersError::CharacterIsNumberError('1')
    );
}

#[test]
fn empty_input() {
    let letters = Letters::new_from_str("").unwrap();
    assert!(letters.0.is_empty());
    assert_eq!(letters.finalize(), (0, 0));
    let pairs = letters.analyze_pairs();
    assert_eq!(pairs.cc, 0);
    assert_eq!(pairs.cv, 0);
    assert_eq!(pairs.vc, 0);
    assert_eq!(pairs.vv, 0);
    let machine = PredictionMachine::from_stats(0, 0, pairs);
    assert_eq!(machine.consonant, NextLetterChance::Undefined);
    assert_eq!(machine.vowel, NextLetterChance::Undefined);
}

#[test]
fn first_offender_decides() {
    assert_eq!(
        Letters::new_from_str("xyz123").unwrap_err(),
        MarkovChainLettersError::CharacterIsNumberError('1')
    );
}

#[test]
fn non_ascii_rejected() {
    assert_eq!(
        Letters::new_from_str("h\u{e9}llo").unwrap_err(),
        MarkovChainLettersError::NotAsciiError
    );
}

#[test]
fn non_ascii_takes_precedence_over_digit() {
    assert_eq!(
        Letters::new_from_str("1\u{e9}").unwrap_err(),
        MarkovChainLettersError::NotAsciiError
    );
}

#[test]
fn not_alphabetic_rejected() {
    // A vertical tab is neither ASCII whitespace (in the sense normalization
    // strips) nor punctuation, so it survives and is the first offender.
    assert_eq!(
        Letters::new_from_str("a\u{b}c").unwrap_err(),
        MarkovChainLettersError::NotAsciiAlphabeticError('\u{b}')
    );
}

#[test]
fn clean_input_validates() {
    let letters = Letters::new_from_str("Hello, World!").unwrap();
    assert_eq!(letters.finalize(), (7, 3));
}

#[test]
fn validate_accepts_only_alphabetic() {
    assert_eq!(Letters::validate("HelloWorld"), Ok(()));
    assert_eq!(
        Letters::validate("a b"),
        Err(MarkovChainLettersError::NotAsciiAlphabeticError(' '))
    );
}

#[test]
fn normalize_strips_whitespace_and_punctuation() {
    assert_eq!(Letters::normalize("a b.c"), "abc");
    assert_eq!(Letters::normalize("\ta e\ni o\u{c}u\r "), "aeiou");
    assert_eq!(Letters::normalize("!/:@[`{~a"), "a");
}

#[test]
fn normalize_keeps_digits_and_non_ascii() {
    assert_eq!(Letters::normalize("a1 b!"), "a1b");
    assert_eq!(Letters::normalize("h\u{e9}llo"), "h\u{e9}llo");
}

#[test]
fn multi_chunk_update_preserves_order() {
    let mut chunked = Letters::new();
    chunked.update("ban").unwrap();
    chunked.update("ana").unwrap();
    let whole = Letters::new_from_str("banana").unwrap();
    assert_eq!(chunked.0, whole.0);
}

#[test]
fn failed_update_leaves_sequence_unchanged() {
    let mut letters = Letters::new_from_str("ab").unwrap();
    let before = letters.0.clone();
    assert_eq!(
        letters.update("x9"),
        Err(MarkovChainLettersError::CharacterIsNumberError('9'))
    );
    assert_eq!(letters.0, before);
}

#[test]
fn update_is_deterministic() {
    let mut first = Letters::new();
    let mut second = Letters::new();
    first.update("rhythm and blues").unwrap();
    second.update("rhythm and blues").unwrap();
    assert_eq!(first.0, second.0);
}

#[test]
fn uppercase_vowels_classify_as_consonants() {
    let letters = Letters::new_from_str("AEIOU").unwrap();
    assert_eq!(letters.finalize(), (5, 0));
}

#[test]
fn from_stats_of_banana_tallies() {
    let letters = Letters::new_from_str("banana").unwrap();
    let (consonants, vowels) = letters.finalize();
    let machine = PredictionMachine::from_stats(consonants, vowels, letters.analyze_pairs());
    assert_eq!(
        machine.consonant,
        NextLetterChance::Observed { to_consonant: 0, to_vowel: 3, total: 3 }
    );
    assert_eq!(
        machine.vowel,
        NextLetterChance::Observed { to_consonant: 2, to_vowel: 0, total: 2 }
    );
}

#[test]
fn from_stats_with_one_class_unobserved() {
    // [C, C, C, V]: two consonant-consonant pairs, one consonant-vowel pair,
    // and the lone vowel has no successor.
    let letters = Letters::new_from_str("bcda").unwrap();
    let (consonants, vowels) = letters.finalize();
    assert_eq!((consonants, vowels), (3, 1));
    let machine = PredictionMachine::from_stats(consonants, vowels, letters.analyze_pairs());
    assert_eq!(
        machine.consonant,
        NextLetterChance::Observed { to_consonant: 2, to_vowel: 1, total: 3 }
    );
    assert_eq!(machine.vowel, NextLetterChance::Undefined);
}

#[test]
fn from_stats_from_raw_tallies() {
    let pairs = LetterPairs { cc: 1, cv: 4, vc: 2, vv: 3 };
    let machine = PredictionMachine::from_stats(0, 0, pairs);
    assert_eq!(
        machine.consonant,
        NextLetterChance::Observed { to_consonant: 1, to_vowel: 4, total: 5 }
    );
    assert_eq!(
        machine.vowel,
        NextLetterChance::Observed { to_consonant: 2, to_vowel: 3, total: 5 }
    );
}

#[test]
fn from_vec_of_letters() {
    let letters = Letters::from(vec![Letter::Vowel, Letter::Consonant, Letter::Vowel]);
    assert_eq!(letters.finalize(), (1, 2));
    let pairs = letters.analyze_pairs();
    assert_eq!(pairs.cv, 1);
    assert_eq!(pairs.vc, 1);
}

#[test]
fn single_letter_has_no_pairs() {
    let letters = Letters::new_from_str("z").unwrap();
    assert_eq!(letters.finalize(), (1, 0));
    let pairs = letters.analyze_pairs();
    assert_eq!(pairs.cc + pairs.cv + pairs.vc + pairs.vv, 0);
}
