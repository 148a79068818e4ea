use persian_meter::patterns::{
    initial_clues, long_first_syllable, long_second_syllable, short_first_syllable,
    short_second_syllable, InitialClue,
};

fn chars(s: &str) -> Vec<char> {
    s.chars().collect()
}

fn nospace(s: &str) -> Vec<char> {
    s.chars().filter(|c| *c != ' ').collect()
}

#[test]
fn short_inputs_match_nothing() {
    for s in ["", "ب", "به", "کس", "چیس"] {
        let h = chars(s);
        let n = nospace(s);
        assert!(!short_first_syllable(&h));
        assert!(!long_second_syllable(&h));
        assert!(!short_second_syllable(&h, &n));
        assert_eq!(initial_clues(&h), None);
    }
    assert!(!long_first_syllable(&chars("")));
    assert!(!long_first_syllable(&chars("ب")));
}

#[test]
fn short_input_still_matches_what_fits() {
    assert!(long_first_syllable(&chars("آ")));
    assert!(long_first_syllable(&chars("این")));
    assert!(short_first_syllable(&chars("به ")));
}

#[test]
fn long_first_rules() {
    assert!(long_first_syllable(&chars("آمد")));
    assert!(long_first_syllable(&chars("باد")));
    assert!(long_first_syllable(&chars("این دل")));
    assert!(long_first_syllable(&chars("خواب")));
    assert!(long_first_syllable(&chars("از دل")));
    assert!(long_first_syllable(&chars("هر کس")));
    assert!(long_first_syllable(&chars("گر بود")));
    assert!(long_first_syllable(&chars("ای دل")));
    assert!(long_first_syllable(&chars("هم دل")));
    assert!(long_first_syllable(&chars("امروز")));
    assert!(!long_first_syllable(&chars("از آن")));
    assert!(!long_first_syllable(&chars("بر دل")));
    assert!(!long_first_syllable(&chars("دل من")));
}

#[test]
fn short_first_rules() {
    assert!(short_first_syllable(&chars("ز دل")));
    assert!(!short_first_syllable(&chars("ز او")));
    for s in ["به ", "که ", "چو ", "چه ", "نه ", "کجا", "همی", "خدا", "اگر", "چرا", "دگر"] {
        assert!(short_first_syllable(&chars(s)), "{}", s);
    }
    for s in ["شود ", "مگر ", "مرا ", "ترا ", "همه ", "چنین", "چنان", "ببین"] {
        assert!(short_first_syllable(&chars(s)), "{}", s);
    }
    assert!(!short_first_syllable(&chars("شود")));
    assert!(!short_first_syllable(&chars("دل من")));
}

#[test]
fn long_second_rules() {
    assert!(long_second_syllable(&chars("کتاب")));
    assert!(!long_second_syllable(&chars("ناامید")));
    assert!(!long_second_syllable(&chars("دوا")));
    assert!(long_second_syllable(&chars("اگر ب")));
    assert!(long_second_syllable(&chars("باشد ب")));
    assert!(long_second_syllable(&chars("امروز")));
    assert!(long_second_syllable(&chars("تا آن")));
    assert!(long_second_syllable(&chars("ای خواب")));
    assert!(long_second_syllable(&chars("از خواب")));
    assert!(!long_second_syllable(&chars("از این")));
    assert!(long_second_syllable(&chars("به آن")));
    assert!(long_second_syllable(&chars("چنین")));
    assert!(long_second_syllable(&chars("چنان")));
    assert!(!long_second_syllable(&chars("دل من")));
}

#[test]
fn short_second_rules() {
    let case = |s: &str| short_second_syllable(&chars(s), &nospace(s));
    assert!(case("به که "));
    assert!(case("تا به "));
    assert!(case("هرکه "));
    assert!(case("آنکه "));
    assert!(case("گرچه "));
    assert!(case("آنچه "));
    assert!(case("پادشاه"));
    assert!(case("هر که "));
    assert!(case("آن که "));
    assert!(case("گر چه "));
    assert!(case("آن چه "));
    assert!(case("ازچنین"));
    assert!(case("از چنان"));
    assert!(case("این به "));
    assert!(!case("این دل"));
    assert!(!case("دل من"));
}

#[test]
fn initial_clue_variants() {
    assert_eq!(initial_clues(&chars("کسی ب")), Some(InitialClue::Kasi));
    assert_eq!(initial_clues(&chars("کسی ا")), None);
    assert_eq!(initial_clues(&chars("یکی ب")), Some(InitialClue::Yaki));
    assert_eq!(initial_clues(&chars("چیست")), Some(InitialClue::Chist));
    assert_eq!(initial_clues(&chars("دوست")), Some(InitialClue::Dust));
    assert_eq!(initial_clues(&chars("نیست ")), Some(InitialClue::Nist));
    assert_eq!(initial_clues(&chars("نیستان")), None);
    assert_eq!(initial_clues(&chars("همچو ")), Some(InitialClue::HamChu));
    assert_eq!(initial_clues(&chars("هم چو ")), Some(InitialClue::HamChu));
    assert_eq!(initial_clues(&chars("چندان")), Some(InitialClue::Chandan));
    assert_eq!(initial_clues(&chars("کیست")), Some(InitialClue::Kist));
    assert_eq!(initial_clues(&chars("دل من")), None);
}
