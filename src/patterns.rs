use vstd::prelude::*;
use crate::alphabet::{
    at, char_at, consonant_at, consonant_at_exec, starts2, starts2_exec, starts3, starts3_exec,
    starts4, starts4_exec, starts5, starts5_exec, starts6, starts6_exec, tail, tail_exec,
};

verus! {

/// Evidence of a long first syllable in a reconstructed hemistich `s`.
pub open spec fn long_first(s: Seq<char>) -> bool {
    // initial alif maddah, or alif as the second character
    at(s, 0, 'آ') || at(s, 1, 'ا')
    // "in" or "khwa-"
    || starts3(s, 'ا', 'ی', 'ن') || starts3(s, 'خ', 'و', 'ا')
    // "az", "har", "gar", "ay" or "ham", a space, then a consonant
    || ((starts3(s, 'ا', 'ز', ' ') || starts3(s, 'ه', 'ر', ' ') || starts3(s, 'گ', 'ر', ' ')
        || starts3(s, 'ا', 'ی', ' ') || starts3(s, 'ه', 'م', ' ')) && consonant_at(s, 3))
    // "amruz"
    || starts5(s, 'ا', 'م', 'ر', 'و', 'ز')
}

/// Evidence of a short first syllable in a reconstructed hemistich `s`.
pub open spec fn short_first(s: Seq<char>) -> bool {
    // "zih", a space, then a consonant
    (starts2(s, 'ز', ' ') && consonant_at(s, 2))
    // "bi", "ki", "chu", "chi" or "na" and a space; "kuja", "hami", "khuda", "agar",
    // "chira" or "digar"
    || starts3(s, 'ب', 'ه', ' ') || starts3(s, 'ک', 'ه', ' ') || starts3(s, 'چ', 'و', ' ')
    || starts3(s, 'چ', 'ه', ' ') || starts3(s, 'ن', 'ه', ' ') || starts3(s, 'ک', 'ج', 'ا')
    || starts3(s, 'ه', 'م', 'ی') || starts3(s, 'خ', 'د', 'ا') || starts3(s, 'ا', 'گ', 'ر')
    || starts3(s, 'چ', 'ر', 'ا') || starts3(s, 'د', 'گ', 'ر')
    // "shavad", "magar", "mara", "tura" or "hama" and a space; "chunin", "chunan", "bi-bin-"
    || starts4(s, 'ش', 'و', 'د', ' ') || starts4(s, 'م', 'گ', 'ر', ' ')
    || starts4(s, 'م', 'ر', 'ا', ' ') || starts4(s, 'ت', 'ر', 'ا', ' ')
    || starts4(s, 'ه', 'م', 'ه', ' ') || starts4(s, 'چ', 'ن', 'ی', 'ن')
    || starts4(s, 'چ', 'ن', 'ا', 'ن') || starts4(s, 'ب', 'ب', 'ی', 'ن')
}

/// The opening word is a long vowel on one letter ("ta", "ba", "ya", ...) and a space.
pub open spec fn opens_with_long_vowel_word(s: Seq<char>) -> bool {
    at(s, 1, 'ا') && at(s, 2, ' ')
}

/// The opening word is "bi" or "ki" and a space.
pub open spec fn opens_with_bi_ki(s: Seq<char>) -> bool {
    starts3(s, 'ب', 'ه', ' ') || starts3(s, 'ک', 'ه', ' ')
}

/// Evidence of a long second syllable in a reconstructed hemistich `s`.
pub open spec fn long_second(s: Seq<char>) -> bool {
    // alif as the third character, after neither a space, a vav nor an alif
    (at(s, 2, 'ا') && !(s[1] == ' ' || s[1] == 'و' || s[1] == 'ا'))
    // "agar" and a consonant
    || (starts4(s, 'ا', 'گ', 'ر', ' ') && consonant_at(s, 4))
    // "bashad" and a consonant
    || (starts5(s, 'ب', 'ا', 'ش', 'د', ' ') && consonant_at(s, 5))
    // "amruz"
    || starts5(s, 'ا', 'م', 'ر', 'و', 'ز')
    // "ta", "ba", "ya", ... followed by a clearly long syllable
    || (opens_with_long_vowel_word(s) && long_first(tail(s, 3)))
    // "ay", "gar" or "az", a consonant, and a clearly long syllable
    || ((starts3(s, 'ا', 'ی', ' ') || starts3(s, 'گ', 'ر', ' ') || starts3(s, 'ا', 'ز', ' '))
        && consonant_at(s, 3) && long_first(tail(s, 3)))
    // "bi" or "ki" followed by a clearly long syllable
    || (opens_with_bi_ki(s) && long_first(tail(s, 3)))
    // "chunin" or "chunan"
    || starts4(s, 'چ', 'ن', 'ی', 'ن') || starts4(s, 'چ', 'ن', 'ا', 'ن')
}

/// Evidence of a short second syllable in a reconstructed hemistich `s` whose condensed
/// form (spaces taken out) is `n`.
pub open spec fn short_second(s: Seq<char>, n: Seq<char>) -> bool {
    // "bi" or "ki" followed by a clearly short syllable
    (opens_with_bi_ki(s) && short_first(tail(s, 3)))
    // "ta", "ba", "ya", ... followed by a clearly short syllable
    || (opens_with_long_vowel_word(s) && short_first(tail(s, 3)))
    // "harki", "anki", "garchi", "anchi" and a space; "padisha-"
    || starts5(s, 'ه', 'ر', 'ک', 'ه', ' ') || starts5(s, 'آ', 'ن', 'ک', 'ه', ' ')
    || starts5(s, 'گ', 'ر', 'چ', 'ه', ' ') || starts5(s, 'آ', 'ن', 'چ', 'ه', ' ')
    || starts5(s, 'پ', 'ا', 'د', 'ش', 'ا')
    // the same four words with an internal space
    || starts6(s, 'ه', 'ر', ' ', 'ک', 'ه', ' ') || starts6(s, 'آ', 'ن', ' ', 'ک', 'ه', ' ')
    || starts6(s, 'گ', 'ر', ' ', 'چ', 'ه', ' ') || starts6(s, 'آ', 'ن', ' ', 'چ', 'ه', ' ')
    // "chunin" or "chunan" from the third letter of the condensed form
    || (n.len() >= 6 && (starts4(tail(n, 2), 'چ', 'ن', 'ی', 'ن')
        || starts4(tail(n, 2), 'چ', 'ن', 'ا', 'ن')))
    // "in", a space, a consonant, and a clearly short syllable
    || (starts4(s, 'ا', 'ی', 'ن', ' ') && consonant_at(s, 4) && short_first(tail(s, 4)))
}

/// A word at the start of a hemistich whose scansion is known.
#[derive(Clone, Copy, Debug, PartialEq, Eq, Structural)]
pub enum InitialClue {
    Kasi,
    Yaki,
    Chist,
    Dust,
    Nist,
    HamChu,
    Chandan,
    Kist,
}

/// The initial clue of a reconstructed hemistich `s`, the first in this order that matches.
pub open spec fn initial_clue(s: Seq<char>) -> Option<InitialClue> {
    if starts4(s, 'ک', 'س', 'ی', ' ') && consonant_at(s, 4) {
        Some(InitialClue::Kasi)
    } else if starts4(s, 'ی', 'ک', 'ی', ' ') && consonant_at(s, 4) {
        Some(InitialClue::Yaki)
    } else if starts4(s, 'چ', 'ی', 'س', 'ت') {
        Some(InitialClue::Chist)
    } else if starts4(s, 'د', 'و', 'س', 'ت') {
        Some(InitialClue::Dust)
    } else if starts5(s, 'ن', 'ی', 'س', 'ت', ' ') {
        Some(InitialClue::Nist)
    } else if starts5(s, 'ه', 'م', 'چ', 'و', ' ') || starts6(s, 'ه', 'م', ' ', 'چ', 'و', ' ') {
        Some(InitialClue::HamChu)
    } else if starts5(s, 'چ', 'ن', 'د', 'ا', 'ن') {
        Some(InitialClue::Chandan)
    } else if starts4(s, 'ک', 'ی', 'س', 'ت') {
        Some(InitialClue::Kist)
    } else {
        None
    }
}

/// The detectors never look past the end of a hemistich: each needs at least as many
/// characters as its shortest rule reads, and on anything shorter it does not match.
pub proof fn lemma_detectors_need_lookahead(s: Seq<char>, n: Seq<char>)
    ensures
        s.len() < 1 ==> !long_first(s),
        s.len() < 3 ==> !short_first(s),
        s.len() < 3 ==> !long_second(s),
        s.len() < 3 && n.len() < 6 ==> !short_second(s, n),
        s.len() < 4 ==> initial_clue(s) is None,
{
}

pub fn long_first_syllable(h: &[char]) -> (r: bool)
    ensures
        r == long_first(h@),
{
    if char_at(h, 0, 'آ') || char_at(h, 1, 'ا') {
        return true;
    }
    if starts3_exec(h, 'ا', 'ی', 'ن') || starts3_exec(h, 'خ', 'و', 'ا') {
        return true;
    }
    if (starts3_exec(h, 'ا', 'ز', ' ') || starts3_exec(h, 'ه', 'ر', ' ') || starts3_exec(
        h,
        'گ',
        'ر',
        ' ',
    ) || starts3_exec(h, 'ا', 'ی', ' ') || starts3_exec(h, 'ه', 'م', ' ')) && consonant_at_exec(
        h,
        3,
    ) {
        return true;
    }
    starts5_exec(h, 'ا', 'م', 'ر', 'و', 'ز')
}

pub fn short_first_syllable(h: &[char]) -> (r: bool)
    ensures
        r == short_first(h@),
{
    if starts2_exec(h, 'ز', ' ') && consonant_at_exec(h, 2) {
        return true;
    }
    if starts3_exec(h, 'ب', 'ه', ' ') || starts3_exec(h, 'ک', 'ه', ' ') || starts3_exec(
        h,
        'چ',
        'و',
        ' ',
    ) || starts3_exec(h, 'چ', 'ه', ' ') || starts3_exec(h, 'ن', 'ه', ' ') || starts3_exec(
        h,
        'ک',
        'ج',
        'ا',
    ) || starts3_exec(h, 'ه', 'م', 'ی') || starts3_exec(h, 'خ', 'د', 'ا') || starts3_exec(
        h,
        'ا',
        'گ',
        'ر',
    ) || starts3_exec(h, 'چ', 'ر', 'ا') || starts3_exec(h, 'د', 'گ', 'ر') {
        return true;
    }
    starts4_exec(h, 'ش', 'و', 'د', ' ') || starts4_exec(h, 'م', 'گ', 'ر', ' ') || starts4_exec(
        h,
        'م',
        'ر',
        'ا',
        ' ',
    ) || starts4_exec(h, 'ت', 'ر', 'ا', ' ') || starts4_exec(h, 'ه', 'م', 'ه', ' ')
        || starts4_exec(h, 'چ', 'ن', 'ی', 'ن') || starts4_exec(h, 'چ', 'ن', 'ا', 'ن')
        || starts4_exec(h, 'ب', 'ب', 'ی', 'ن')
}

fn opens_with_long_vowel_word_exec(h: &[char]) -> (r: bool)
    ensures
        r == opens_with_long_vowel_word(h@),
        r ==> h@.len() >= 3,
{
    char_at(h, 1, 'ا') && char_at(h, 2, ' ')
}

fn opens_with_bi_ki_exec(h: &[char]) -> (r: bool)
    ensures
        r == opens_with_bi_ki(h@),
        r ==> h@.len() >= 3,
{
    starts3_exec(h, 'ب', 'ه', ' ') || starts3_exec(h, 'ک', 'ه', ' ')
}

/// Whether the syllable that starts at position `k` of `h` is clearly long.
fn long_first_from(h: &[char], k: usize) -> (r: bool)
    requires
        k <= h@.len(),
    ensures
        r == long_first(tail(h@, k as int)),
{
    let t = tail_exec(h, k);
    long_first_syllable(t.as_slice())
}

/// Whether the syllable that starts at position `k` of `h` is clearly short.
fn short_first_from(h: &[char], k: usize) -> (r: bool)
    requires
        k <= h@.len(),
    ensures
        r == short_first(tail(h@, k as int)),
{
    let t = tail_exec(h, k);
    short_first_syllable(t.as_slice())
}

pub fn long_second_syllable(h: &[char]) -> (r: bool)
    ensures
        r == long_second(h@),
{
    if char_at(h, 2, 'ا') && !(h[1] == ' ' || h[1] == 'و' || h[1] == 'ا') {
        return true;
    }
    if starts4_exec(h, 'ا', 'گ', 'ر', ' ') && consonant_at_exec(h, 4) {
        return true;
    }
    if starts5_exec(h, 'ب', 'ا', 'ش', 'د', ' ') && consonant_at_exec(h, 5) {
        return true;
    }
    if starts5_exec(h, 'ا', 'م', 'ر', 'و', 'ز') {
        return true;
    }
    if opens_with_long_vowel_word_exec(h) && long_first_from(h, 3) {
        return true;
    }
    if (starts3_exec(h, 'ا', 'ی', ' ') || starts3_exec(h, 'گ', 'ر', ' ') || starts3_exec(
        h,
        'ا',
        'ز',
        ' ',
    )) && consonant_at_exec(h, 3) && long_first_from(h, 3) {
        return true;
    }
    if opens_with_bi_ki_exec(h) && long_first_from(h, 3) {
        return true;
    }
    starts4_exec(h, 'چ', 'ن', 'ی', 'ن') || starts4_exec(h, 'چ', 'ن', 'ا', 'ن')
}

pub fn short_second_syllable(h: &[char], n: &[char]) -> (r: bool)
    ensures
        r == short_second(h@, n@),
{
    if opens_with_bi_ki_exec(h) && short_first_from(h, 3) {
        return true;
    }
    if opens_with_long_vowel_word_exec(h) && short_first_from(h, 3) {
        return true;
    }
    if starts5_exec(h, 'ه', 'ر', 'ک', 'ه', ' ') || starts5_exec(h, 'آ', 'ن', 'ک', 'ه', ' ')
        || starts5_exec(h, 'گ', 'ر', 'چ', 'ه', ' ') || starts5_exec(h, 'آ', 'ن', 'چ', 'ه', ' ')
        || starts5_exec(h, 'پ', 'ا', 'د', 'ش', 'ا') {
        return true;
    }
    if starts6_exec(h, 'ه', 'ر', ' ', 'ک', 'ه', ' ') || starts6_exec(h, 'آ', 'ن', ' ', 'ک', 'ه', ' ')
        || starts6_exec(h, 'گ', 'ر', ' ', 'چ', 'ه', ' ') || starts6_exec(
        h,
        'آ',
        'ن',
        ' ',
        'چ',
        'ه',
        ' ',
    ) {
        return true;
    }
    if n.len() >= 6 {
        let w = tail_exec(n, 2);
        if starts4_exec(w.as_slice(), 'چ', 'ن', 'ی', 'ن') || starts4_exec(
            w.as_slice(),
            'چ',
            'ن',
            'ا',
            'ن',
        ) {
            return true;
        }
    }
    starts4_exec(h, 'ا', 'ی', 'ن', ' ') && consonant_at_exec(h, 4) && short_first_from(h, 4)
}

pub fn initial_clues(h: &[char]) -> (r: Option<InitialClue>)
    ensures
        r == initial_clue(h@),
{
    if starts4_exec(h, 'ک', 'س', 'ی', ' ') && consonant_at_exec(h, 4) {
        Some(InitialClue::Kasi)
    } else if starts4_exec(h, 'ی', 'ک', 'ی', ' ') && consonant_at_exec(h, 4) {
        Some(InitialClue::Yaki)
    } else if starts4_exec(h, 'چ', 'ی', 'س', 'ت') {
        Some(InitialClue::Chist)
    } else if starts4_exec(h, 'د', 'و', 'س', 'ت') {
        Some(InitialClue::Dust)
    } else if starts5_exec(h, 'ن', 'ی', 'س', 'ت', ' ') {
        Some(InitialClue::Nist)
    } else if starts5_exec(h, 'ه', 'م', 'چ', 'و', ' ') || starts6_exec(
        h,
        'ه',
        'م',
        ' ',
        'چ',
        'و',
        ' ',
    ) {
        Some(InitialClue::HamChu)
    } else if starts5_exec(h, 'چ', 'ن', 'د', 'ا', 'ن') {
        Some(InitialClue::Chandan)
    } else if starts4_exec(h, 'ک', 'ی', 'س', 'ت') {
        Some(InitialClue::Kist)
    } else {
        None
    }
}

} // verus!
