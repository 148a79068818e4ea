use persian_meter::analysis::{analyze_syllables, SyllableAnalysis};
use persian_meter::assess::{classify_meter_length, syllable_verdict, MeterBand, Verdict};
use persian_meter::guidance::final_assessment;
use persian_meter::report::{first_syllable_assessment, meter_report, second_syllable_assessment};

fn chars(s: &str) -> Vec<char> {
    s.chars().collect()
}

#[test]
fn meter_band_thresholds() {
    // 23.5 exactly
    assert_eq!(classify_meter_length(47, 2), MeterBand::Long);
    assert_eq!(classify_meter_length(940, 40), MeterBand::Long);
    // 23.475, just under 23.5
    assert_eq!(classify_meter_length(939, 40), MeterBand::ShortishLong);
    // 22.5 exactly
    assert_eq!(classify_meter_length(45, 2), MeterBand::ShortishLong);
    // 22.475
    assert_eq!(classify_meter_length(899, 40), MeterBand::LongishShort);
    // 21.0 exactly
    assert_eq!(classify_meter_length(210, 10), MeterBand::LongishShort);
    // 20.975, just under 21
    assert_eq!(classify_meter_length(839, 40), MeterBand::Short);
}

#[test]
fn meter_band_counts_at_most_forty_hemistichs() {
    // 940 letters over 100 hemistichs count as 940 over 40
    assert_eq!(classify_meter_length(940, 100), MeterBand::Long);
    assert_eq!(classify_meter_length(839, 41), MeterBand::Short);
}

#[test]
fn meter_report_texts() {
    assert_eq!(
        meter_report(250, 10),
        "*** Meter length ***\nAverage letters per hemistich: 25.0\nThe meter appears to be long (muṡamman).\n"
    );
    assert_eq!(
        meter_report(93, 4),
        "*** Meter length ***\nAverage letters per hemistich: 23.2\nThe meter appears to be long (muṡamman).\n(But this is pretty short for a long meter!)\n"
    );
    assert_eq!(
        meter_report(95, 4),
        "*** Meter length ***\nAverage letters per hemistich: 23.8\nThe meter appears to be long (muṡamman).\n"
    );
    assert_eq!(
        meter_report(210, 10),
        "*** Meter length ***\nAverage letters per hemistich: 21.0\nThe meter appears to be short (musaddas; or mutaqārib muṡamman).\n(But this is pretty long for a short meter!)\n"
    );
    assert_eq!(
        meter_report(209, 10),
        "*** Meter length ***\nAverage letters per hemistich: 20.9\nThe meter appears to be short (musaddas; or mutaqārib muṡamman).\n"
    );
    assert_eq!(
        meter_report(0, 10),
        "*** Meter length ***\nAverage letters per hemistich: 0.0\nThe meter appears to be short (musaddas; or mutaqārib muṡamman).\n"
    );
}

#[test]
fn verdict_needs_two_markers() {
    assert_eq!(syllable_verdict(1, 0), Verdict::Indeterminate);
    assert_eq!(syllable_verdict(0, 1), Verdict::Indeterminate);
    assert_eq!(syllable_verdict(0, 0), Verdict::Indeterminate);
    assert_eq!(syllable_verdict(2, 0), Verdict::Long);
    assert_eq!(syllable_verdict(10, 0), Verdict::Long);
    assert_eq!(syllable_verdict(0, 2), Verdict::Short);
    assert_eq!(syllable_verdict(1, 1), Verdict::Contradictory);
    assert_eq!(syllable_verdict(5, 3), Verdict::Contradictory);
}

#[test]
fn first_syllable_single_marker_is_indeterminate() {
    let (v, text) = first_syllable_assessment(1, &[7], 0, &[]);
    assert_eq!(v, Verdict::Indeterminate);
    assert_eq!(
        text,
        "*** First syllable length ***\nIndications of a long first syllable: 1 (at 7)\nInsufficient evidence (< 2) of a long vs. short first syllable…\n(It's easier to detect short syllables. Scant results may suggest long.)\n"
    );
}

#[test]
fn first_syllable_contradictory_suggests_ramal() {
    let (v, text) = first_syllable_assessment(3, &[1, 2, 2], 1, &[12]);
    assert_eq!(v, Verdict::Contradictory);
    assert_eq!(
        text,
        "*** First syllable length ***\nIndications of a long first syllable: 3 (at 1, 2, 2)\nIndications of a short first syllable: 1 (at 12)\nThere are contradictory indications of a long vs. short first syllable.\nIf this is not an error, it suggests that the meter is probably ramal.\n"
    );
}

#[test]
fn second_syllable_single_marker_caveat() {
    let (v, text) = second_syllable_assessment(1, &[3], 0, &[]);
    assert_eq!(v, Verdict::Indeterminate);
    assert_eq!(
        text,
        "*** Second syllable length ***\nSuggestions of a long second syllable: 1 (at 3)\n(Be careful with this; one result is not much.)\nInsufficient evidence (< 2) of a long vs. short second syllable…\n"
    );
    let (v, text) = second_syllable_assessment(0, &[], 2, &[4, 40]);
    assert_eq!(v, Verdict::Short);
    assert_eq!(
        text,
        "*** Second syllable length ***\nSuggestions of a short second syllable: 2 (at 4, 40)\nThe second syllable in this meter appears to be short.\n"
    );
}

#[test]
fn location_list_rendering() {
    let (_, text) = first_syllable_assessment(0, &[], 4, &[1, 9, 10, 11]);
    assert!(text.contains("Indications of a short first syllable: 4 (at 1, 9, 10, 11)\n"));
    assert!(!text.contains(", )"));
}

#[test]
fn guidance_branches() {
    assert_eq!(
        final_assessment(true, false, true, false, true, false),
        "*** Overall assessment ***\nLong meter, long first syllable, long second syllable?\nConsider, with short third and fourth syllables, hazaj (akhrab).\nConsider, with a long fourth syllable, mużāri‘.\n"
    );
    assert_eq!(
        final_assessment(true, false, false, true, false, false),
        "*** Overall assessment ***\nLong meter, short first syllable, indeterminate second syllable?\nConsider, with a long second syllable, hazaj (sālim) or mujtaṡṡ.\nConsider, with a short second syllable, ramal.\n"
    );
    assert_eq!(
        final_assessment(false, true, false, false, true, false),
        "*** Overall assessment ***\nWhat is clearest is that the meter appears to be short.\nWere there mixed signals about the first syllable?\nIf so, consider ramal or khafīf.\n"
    );
    assert_eq!(
        final_assessment(false, true, false, true, false, true),
        "*** Overall assessment ***\nShort meter, short first syllable, short second syllable?\nThis would be rare. Consider ramal or khafīf.\n"
    );
    assert_eq!(
        final_assessment(false, true, true, false, false, true),
        "*** Overall assessment ***\nShort meter, long first syllable, short second syllable?\nConsider, with a long third syllable, ramal or khafīf.\nIf the third syllable is short, enjoy the puzzle!\n"
    );
    assert_eq!(
        final_assessment(false, false, true, false, true, false),
        "*** Overall assessment ***\nWith the meter length unclear, no further conclusions will be drawn.\n"
    );
}

#[test]
fn initial_clue_adds_markers() {
    let h = chars("هم چو من");
    let n: Vec<char> = h.iter().copied().filter(|c| *c != ' ').collect();
    let mut sa = SyllableAnalysis::new();
    analyze_syllables(&h, &n, 5, &mut sa);
    assert_eq!(sa.long_first_markers, 2);
    assert_eq!(sa.long_first_locations, vec![5, 5]);
    assert_eq!(sa.short_second_markers, 1);
    assert_eq!(sa.short_second_locations, vec![5]);
    assert_eq!(sa.short_first_markers, 0);
    assert_eq!(sa.long_second_markers, 0);
}

#[test]
fn add_methods_record_locations() {
    let mut sa = SyllableAnalysis::new();
    sa.add_long_first(1);
    sa.add_short_first(2);
    sa.add_long_second(3);
    sa.add_short_second(4);
    sa.add_long_first(6);
    assert_eq!(sa.long_first_markers, 2);
    assert_eq!(sa.long_first_locations, vec![1, 6]);
    assert_eq!(sa.short_first_locations, vec![2]);
    assert_eq!(sa.long_second_locations, vec![3]);
    assert_eq!(sa.short_second_locations, vec![4]);
}
