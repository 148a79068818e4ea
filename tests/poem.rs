use persian_meter::normalize::ReconstructionError;
use persian_meter::poem::{analyze_poem, preprocess, split_lines, PoemError};

fn line(first: &str, filler: char, letters: usize) -> String {
    let mut s = String::from(first);
    let have = first.chars().filter(|c| *c != ' ').count();
    for _ in have..letters {
        s.push(filler);
    }
    s
}

#[test]
fn long_meter_long_first_syllable_poem() {
    let lines: Vec<String> = (0..10).map(|_| line("آ", 'ب', 25)).collect();
    let poem = lines.join("\n");
    let report = analyze_poem(&poem).unwrap();
    let mut expected = String::from("*** Assessing the following hemistichs ***\n");
    for i in 1..=10 {
        expected.push_str(&format!("{}: {}\n", i, lines[i - 1]));
    }
    expected.push_str("*** Meter length ***\n");
    expected.push_str("Average letters per hemistich: 25.0\n");
    expected.push_str("The meter appears to be long (muṡamman).\n");
    expected.push_str("*** First syllable length ***\n");
    expected.push_str("Indications of a long first syllable: 10 (at 1, 2, 3, 4, 5, 6, 7, 8, 9, 10)\n");
    expected.push_str("The first syllable in this meter appears to be long.\n");
    expected.push_str("*** Second syllable length ***\n");
    expected.push_str("Insufficient evidence (< 2) of a long vs. short second syllable…\n");
    expected.push_str("*** Overall assessment ***\n");
    expected.push_str("Long meter, long first syllable, indeterminate second syllable?\n");
    expected.push_str("Consider, with a long second syllable, hazaj (akhrab) or mużāri‘.\n");
    expected.push_str("Consider, with a short second syllable, ramal.\n");
    assert_eq!(report, expected);
}

#[test]
fn single_long_first_marker_is_not_enough() {
    let mut lines: Vec<String> = (0..10).map(|_| line("", 'ب', 20)).collect();
    lines[3] = line("آ", 'ب', 20);
    let report = analyze_poem(&lines.join("\n")).unwrap();
    assert!(report.contains("Indications of a long first syllable: 1 (at 4)\n"));
    assert!(!report.contains("short first syllable:"));
    assert!(report.contains("Insufficient evidence (< 2) of a long vs. short first syllable…\n"));
    assert!(!report.contains("The first syllable in this meter appears to be long."));
    assert!(report.contains(
        "*** Overall assessment ***\nWhat is clearest is that the meter appears to be short.\n"
    ));
}

#[test]
fn latin_letter_stops_the_analysis() {
    let mut lines: Vec<String> = (0..12).map(|_| line("", 'ب', 20)).collect();
    lines[5] = String::from("بببQ ببب");
    lines[8] = String::from("ببب z");
    assert_eq!(
        analyze_poem(&lines.join("\n")),
        Err(PoemError::Reconstruction(ReconstructionError { ch: 'Q' }))
    );
}

#[test]
fn too_few_hemistichs() {
    let lines: Vec<String> = (0..9).map(|_| line("", 'ب', 20)).collect();
    assert_eq!(analyze_poem(&lines.join("\n")), Err(PoemError::TooShort { found: 9 }));
    assert_eq!(analyze_poem(""), Err(PoemError::TooShort { found: 0 }));
}

#[test]
fn blank_lines_are_collapsed() {
    let lines: Vec<String> = (0..10).map(|_| line("", 'ب', 20)).collect();
    let poem = format!("\n  \n{}\n\n\n", lines.join("\n\n\n"));
    let pre = preprocess(&poem).unwrap();
    assert_eq!(pre.len(), 10);
    assert_eq!(pre[0], lines[0].chars().collect::<Vec<char>>());
    assert!(analyze_poem(&poem).is_ok());
}

#[test]
fn trailing_newline_and_empty_lines() {
    let c: Vec<char> = "ab\n\ncd\n".chars().collect();
    let ls = split_lines(&c);
    assert_eq!(ls, vec![vec!['a', 'b'], vec![], vec!['c', 'd']]);
    assert_eq!(split_lines(&[]), Vec::<Vec<char>>::new());
    assert_eq!(split_lines(&['\n']), vec![Vec::<char>::new()]);
}

#[test]
fn only_forty_hemistichs_are_analyzed() {
    let mut lines: Vec<String> = (0..45).map(|_| line("", 'ب', 20)).collect();
    lines[42] = String::from("x");
    lines[43] = line("آ", 'ب', 80);
    let report = analyze_poem(&lines.join("\n")).unwrap();
    assert!(report.contains("\n40: "));
    assert!(!report.contains("\n41: "));
    assert!(report.contains("Average letters per hemistich: 20.0\n"));
    assert!(!report.contains("Indications of a long first syllable"));
}

#[test]
fn zwnj_counts_as_space_in_report() {
    let mut lines: Vec<String> = (0..10).map(|_| line("", 'ب', 22)).collect();
    lines[0] = String::from("ببب\u{200c}ببب");
    let report = analyze_poem(&lines.join("\n")).unwrap();
    assert!(report.contains("1: ببب ببب\n"));
}

#[test]
fn error_messages() {
    let e = ReconstructionError { ch: 'x' };
    assert_eq!(
        e.message(),
        format!(
            "Unexpected character: {}. Text must be fully in Persian/Arabic script.",
            'x'.escape_unicode()
        )
    );
    assert_eq!(
        PoemError::Reconstruction(ReconstructionError { ch: '۱' }).message(),
        "Unexpected character: \\u{6f1}. Text must be fully in Persian/Arabic script."
    );
    assert_eq!(
        PoemError::TooShort { found: 9 }.message(),
        "Poem is too short. Found 9 hemistichs; at least 10 are required."
    );
}
