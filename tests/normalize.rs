use persian_meter::normalize::{reconstruct_hemistich, trim_chars, ReconstructionError};

fn chars(s: &str) -> Vec<char> {
    s.chars().collect()
}

#[test]
fn canonical_letters_pass_through() {
    let h = chars("آب و ای");
    assert_eq!(reconstruct_hemistich(&h), Ok(h.clone()));
}

#[test]
fn variants_are_mapped() {
    let h = chars("أؤئة");
    assert_eq!(reconstruct_hemistich(&h), Ok(chars("اویه")));
}

#[test]
fn diacritics_and_punctuation_are_dropped() {
    let h = chars("بَ\u{651}\u{64f}\u{650}\u{652}\u{64b}\u{670}\u{64d}\u{64c}\u{654}ت،؟!");
    assert_eq!(reconstruct_hemistich(&h), Ok(chars("بت")));
}

#[test]
fn zwnj_becomes_space() {
    let h = chars("می\u{200c}رود");
    assert_eq!(reconstruct_hemistich(&h), Ok(chars("می رود")));
}

#[test]
fn line_is_trimmed() {
    let h = chars(" \t\r دل من\u{3000}\r");
    assert_eq!(reconstruct_hemistich(&h), Ok(chars("دل من")));
    assert_eq!(trim_chars(&chars("  \n")), Vec::<char>::new());
}

#[test]
fn latin_letter_is_rejected() {
    let h = chars("دل x من y");
    assert_eq!(reconstruct_hemistich(&h), Err(ReconstructionError { ch: 'x' }));
}

#[test]
fn digit_is_rejected() {
    let h = chars("دل ۱");
    assert_eq!(reconstruct_hemistich(&h), Err(ReconstructionError { ch: '۱' }));
}

#[test]
fn normalization_is_idempotent() {
    let once = reconstruct_hemistich(&chars("أَمروز  ةِ\u{200c}ب")).unwrap();
    let twice = reconstruct_hemistich(&once).unwrap();
    assert_eq!(once, twice);
}
