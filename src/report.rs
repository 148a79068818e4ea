use vstd::prelude::*;
use crate::assess::{meter_band, syllable_verdict, verdict, MeterBand, Verdict};
use crate::render::{decimal, digit, digit_exec, join, push_char, push_decimal, push_list};

verus! {

pub const METER_HEADER: &'static str = "*** Meter length ***\n";
pub const AVERAGE_PREFIX: &'static str = "Average letters per hemistich: ";
pub const LONG_METER: &'static str = "The meter appears to be long (muṡamman).\n";
pub const PRETTY_SHORT: &'static str = "(But this is pretty short for a long meter!)\n";
pub const SHORT_METER: &'static str = "The meter appears to be short (musaddas; or mutaqārib muṡamman).\n";
pub const PRETTY_LONG: &'static str = "(But this is pretty long for a short meter!)\n";

pub const FIRST_HEADER: &'static str = "*** First syllable length ***\n";
pub const FIRST_LONG_PREFIX: &'static str = "Indications of a long first syllable: ";
pub const FIRST_SHORT_PREFIX: &'static str = "Indications of a short first syllable: ";
pub const FIRST_CONTRADICTORY: &'static str =
    "There are contradictory indications of a long vs. short first syllable.\n";
pub const FIRST_RAMAL: &'static str =
    "If this is not an error, it suggests that the meter is probably ramal.\n";
pub const FIRST_LONG: &'static str = "The first syllable in this meter appears to be long.\n";
pub const FIRST_SHORT: &'static str = "The first syllable in this meter appears to be short.\n";
pub const FIRST_INSUFFICIENT: &'static str =
    "Insufficient evidence (< 2) of a long vs. short first syllable…\n";
pub const FIRST_SCANT: &'static str =
    "(It's easier to detect short syllables. Scant results may suggest long.)\n";

pub const SECOND_HEADER: &'static str = "*** Second syllable length ***\n";
pub const SECOND_LONG_PREFIX: &'static str = "Suggestions of a long second syllable: ";
pub const SECOND_SHORT_PREFIX: &'static str = "Suggestions of a short second syllable: ";
pub const ONE_RESULT: &'static str = "(Be careful with this; one result is not much.)\n";
pub const SECOND_CONTRADICTORY: &'static str =
    "There are contradictory indications of a long vs. short second syllable.\n";
pub const SECOND_LONG: &'static str = "The second syllable in this meter appears to be long.\n";
pub const SECOND_SHORT: &'static str = "The second syllable in this meter appears to be short.\n";
pub const SECOND_INSUFFICIENT: &'static str =
    "Insufficient evidence (< 2) of a long vs. short second syllable…\n";

/// The average `total / count` rounded to the nearest tenth (ties to the even tenth), in
/// tenths.
pub open spec fn average_tenths(total: nat, count: nat) -> nat {
    let q = (10 * total) / count;
    let rem = (10 * total) % count;
    if 2 * rem > count || (2 * rem == count && q % 2 == 1) {
        q + 1
    } else {
        q
    }
}

/// The meter-length section of the report for `total` letters over `count` analyzed
/// hemistichs.
pub open spec fn meter_text(total: nat, count: nat) -> Seq<char> {
    let t = average_tenths(total, count);
    let head = METER_HEADER@ + AVERAGE_PREFIX@ + decimal(t / 10) + seq!['.', digit(t % 10), '\n'];
    match meter_band(total, count) {
        MeterBand::Long => head + LONG_METER@,
        MeterBand::ShortishLong => head + LONG_METER@ + PRETTY_SHORT@,
        MeterBand::LongishShort => head + SHORT_METER@ + PRETTY_LONG@,
        MeterBand::Short => head + SHORT_METER@,
    }
}

/// Writes the meter-length section of the report.
pub fn meter_report(total_letters: u32, count: usize) -> (r: String)
    requires
        0 < count <= 40,
    ensures
        r@ == meter_text(total_letters as nat, count as nat),
{
    let n: u64 = count as u64;
    let x: u64 = 10 * (total_letters as u64);
    let q: u64 = x / n;
    let rem: u64 = x % n;
    let t: u64 = if 2 * rem > n || (2 * rem == n && q % 2 == 1) {
        q + 1
    } else {
        q
    };
    let mut s = String::from_str(METER_HEADER);
    s.append(AVERAGE_PREFIX);
    push_decimal(&mut s, t / 10);
    push_char(&mut s, '.');
    push_char(&mut s, digit_exec(t % 10));
    push_char(&mut s, '\n');
    let ghost head = s@;
    assert(head =~= METER_HEADER@ + AVERAGE_PREFIX@ + decimal((t / 10) as nat) + seq![
        '.',
        digit((t % 10) as nat),
        '\n',
    ]);
    match crate::assess::classify_meter_length(total_letters, count) {
        MeterBand::Long => {
            s.append(LONG_METER);
        },
        MeterBand::ShortishLong => {
            s.append(LONG_METER);
            s.append(PRETTY_SHORT);
        },
        MeterBand::LongishShort => {
            s.append(SHORT_METER);
            s.append(PRETTY_LONG);
        },
        MeterBand::Short => {
            s.append(SHORT_METER);
        },
    }
    s
}

/// One line of evidence: its prefix, the count, and where the markers stand; empty when there
/// are none. With `caution`, a single marker gets a warning line after it.
pub open spec fn evidence_text(prefix: Seq<char>, count: nat, locs: Seq<usize>, caution: bool) -> Seq<
    char,
> {
    if count == 0 {
        Seq::empty()
    } else {
        let line = prefix + decimal(count) + " (at "@ + join(locs) + ")\n"@;
        if caution && count == 1 {
            line + ONE_RESULT@
        } else {
            line
        }
    }
}

fn evidence_report(prefix: &str, count: u32, locs: &[usize], caution: bool) -> (r: String)
    ensures
        r@ == evidence_text(prefix@, count as nat, locs@, caution),
{
    if count == 0 {
        return String::new();
    }
    let mut s = String::from_str(prefix);
    push_decimal(&mut s, count as u64);
    s.append(" (at ");
    push_list(&mut s, locs);
    s.append(")\n");
    if caution && count == 1 {
        s.append(ONE_RESULT);
    }
    s
}

/// The first-syllable section of the report.
pub open spec fn first_text(long: nat, long_locs: Seq<usize>, short: nat, short_locs: Seq<usize>) -> Seq<
    char,
> {
    let head = FIRST_HEADER@ + evidence_text(FIRST_LONG_PREFIX@, long, long_locs, false)
        + evidence_text(FIRST_SHORT_PREFIX@, short, short_locs, false);
    match verdict(long, short) {
        Verdict::Contradictory => head + FIRST_CONTRADICTORY@ + FIRST_RAMAL@,
        Verdict::Long => head + FIRST_LONG@,
        Verdict::Short => head + FIRST_SHORT@,
        Verdict::Indeterminate => head + FIRST_INSUFFICIENT@ + FIRST_SCANT@,
    }
}

/// The second-syllable section of the report.
pub open spec fn second_text(long: nat, long_locs: Seq<usize>, short: nat, short_locs: Seq<usize>) -> Seq<
    char,
> {
    let head = SECOND_HEADER@ + evidence_text(SECOND_LONG_PREFIX@, long, long_locs, true)
        + evidence_text(SECOND_SHORT_PREFIX@, short, short_locs, true);
    match verdict(long, short) {
        Verdict::Contradictory => head + SECOND_CONTRADICTORY@,
        Verdict::Long => head + SECOND_LONG@,
        Verdict::Short => head + SECOND_SHORT@,
        Verdict::Indeterminate => head + SECOND_INSUFFICIENT@,
    }
}

/// Judges the first syllable from its markers, and writes that section of the report.
pub fn first_syllable_assessment(
    long_first_markers: u32,
    long_first_locations: &[usize],
    short_first_markers: u32,
    short_first_locations: &[usize],
) -> (r: (Verdict, String))
    ensures
        r.0 == verdict(long_first_markers as nat, short_first_markers as nat),
        r.1@ == first_text(
            long_first_markers as nat,
            long_first_locations@,
            short_first_markers as nat,
            short_first_locations@,
        ),
{
    let mut s = String::from_str(FIRST_HEADER);
    let l = evidence_report(FIRST_LONG_PREFIX, long_first_markers, long_first_locations, false);
    s.append(l.as_str());
    let sh = evidence_report(FIRST_SHORT_PREFIX, short_first_markers, short_first_locations, false);
    s.append(sh.as_str());
    let v = syllable_verdict(long_first_markers, short_first_markers);
    match v {
        Verdict::Contradictory => {
            s.append(FIRST_CONTRADICTORY);
            s.append(FIRST_RAMAL);
        },
        Verdict::Long => {
            s.append(FIRST_LONG);
        },
        Verdict::Short => {
            s.append(FIRST_SHORT);
        },
        Verdict::Indeterminate => {
            s.append(FIRST_INSUFFICIENT);
            s.append(FIRST_SCANT);
        },
    }
    (v, s)
}

/// Judges the second syllable from its markers, and writes that section of the report.
pub fn second_syllable_assessment(
    long_second_markers: u32,
    long_second_locations: &[usize],
    short_second_markers: u32,
    short_second_locations: &[usize],
) -> (r: (Verdict, String))
    ensures
        r.0 == verdict(long_second_markers as nat, short_second_markers as nat),
        r.1@ == second_text(
            long_second_markers as nat,
            long_second_locations@,
            short_second_markers as nat,
            short_second_locations@,
        ),
{
    let mut s = String::from_str(SECOND_HEADER);
    let l = evidence_report(SECOND_LONG_PREFIX, long_second_markers, long_second_locations, true);
    s.append(l.as_str());
    let sh = evidence_report(
        SECOND_SHORT_PREFIX,
        short_second_markers,
        short_second_locations,
        true,
    );
    s.append(sh.as_str());
    let v = syllable_verdict(long_second_markers, short_second_markers);
    match v {
        Verdict::Contradictory => {
            s.append(SECOND_CONTRADICTORY);
        },
        Verdict::Long => {
            s.append(SECOND_LONG);
        },
        Verdict::Short => {
            s.append(SECOND_SHORT);
        },
        Verdict::Indeterminate => {
            s.append(SECOND_INSUFFICIENT);
        },
    }
    (v, s)
}

} // verus!
