use vstd::prelude::*;
use crate::analysis::{
    analyze_hemistichs, analyzed_count, letter_total, locations, reconstruct_all, views, Kind,
    MeterAnalysis, MAX_TEXT_LEN,
};
use crate::assess::{analyze_meter_length, band_is_long, meter_band, verdict, Verdict};
use crate::guidance::{final_assessment, guidance};
use crate::normalize::{trim, trim_chars, ReconstructionError};
use crate::render::{decimal, push_char, push_decimal};
use crate::report::{
    first_syllable_assessment, first_text, meter_report, meter_text, second_syllable_assessment,
    second_text,
};

verus! {

/// A poem needs at least this many hemistichs to be analyzed.
pub const MIN_HEMISTICHS: usize = 10;

pub const HEMISTICHS_HEADER: &'static str = "*** Assessing the following hemistichs ***\n";

/// Why a poem could not be analyzed.
#[derive(Clone, Copy, Debug, PartialEq, Eq, Structural)]
pub enum PoemError {
    /// The poem has fewer hemistichs than the analysis needs; `found` is how many it has.
    TooShort { found: usize },
    /// A hemistich holds a code point outside the accepted script.
    Reconstruction(ReconstructionError),
}

impl PoemError {
    /// What to tell the user.
    pub open spec fn message_text(&self) -> Seq<char> {
        match *self {
            PoemError::TooShort { found } => "Poem is too short. Found "@ + decimal(found as nat)
                + " hemistichs; at least "@ + decimal(MIN_HEMISTICHS as nat) + " are required."@,
            PoemError::Reconstruction(e) => e.message_text(),
        }
    }

    pub fn message(&self) -> (r: String)
        ensures
            r@ == self.message_text(),
    {
        match *self {
            PoemError::TooShort { found } => {
                let mut s = String::from_str("Poem is too short. Found ");
                push_decimal(&mut s, found as u64);
                s.append(" hemistichs; at least ");
                push_decimal(&mut s, MIN_HEMISTICHS as u64);
                s.append(" are required.");
                s
            },
            PoemError::Reconstruction(e) => e.message(),
        }
    }
}

/// `s` with every run of two or more newlines replaced by a single newline.
pub open spec fn collapse_newlines(s: Seq<char>) -> Seq<char>
    decreases s.len(),
{
    if s.len() == 0 {
        s
    } else if s.len() >= 2 && s.last() == '\n' && s[s.len() - 2] == '\n' {
        collapse_newlines(s.drop_last())
    } else {
        collapse_newlines(s.drop_last()).push(s.last())
    }
}

/// Relies on regex's `Regex::new` for the pattern `\n{2,}`, which is valid, and on
/// `Regex::replace_all` with the replacement `"\n"`: each leftmost, longest run of two or
/// more newlines becomes one newline, and the rest of the text is kept.
#[verifier::external_body]
fn collapse_blank_lines(s: &str) -> (r: String)
    ensures
        r@ == collapse_newlines(s@),
{
    regex::Regex::new(r"\n{2,}").unwrap().replace_all(s, "\n").into_owned()
}

/// The pieces of `s` between newlines; there is one more piece than newlines.
pub open spec fn split_newlines(s: Seq<char>) -> Seq<Seq<char>>
    decreases s.len(),
{
    if s.len() == 0 {
        seq![Seq::empty()]
    } else if s.last() == '\n' {
        split_newlines(s.drop_last()).push(Seq::empty())
    } else {
        let p = split_newlines(s.drop_last());
        p.update(p.len() - 1, p.last().push(s.last()))
    }
}

/// The lines of `s`: its pieces between newlines, without the empty piece after a final
/// newline, and none at all for empty text. A carriage return before a newline stays in its
/// line; normalization trims it.
pub open spec fn lines_of(s: Seq<char>) -> Seq<Seq<char>> {
    if s.len() == 0 {
        Seq::empty()
    } else if s.last() == '\n' {
        split_newlines(s).drop_last()
    } else {
        split_newlines(s)
    }
}

/// Splits `s` into its lines.
pub fn split_lines(s: &[char]) -> (r: Vec<Vec<char>>)
    ensures
        views(r@) == lines_of(s@),
        forall|j: int| 0 <= j < r@.len() ==> #[trigger] r@[j]@.len() <= s@.len(),
{
    let mut done: Vec<Vec<char>> = Vec::new();
    let mut cur: Vec<char> = Vec::new();
    let mut i: usize = 0;
    assert(s@.subrange(0, 0) =~= Seq::<char>::empty());
    assert(views(done@).push(cur@) =~= split_newlines(s@.subrange(0, 0)));
    while i < s.len()
        invariant
            i <= s@.len(),
            views(done@).push(cur@) == split_newlines(s@.subrange(0, i as int)),
            cur@.len() <= i,
            forall|j: int| 0 <= j < done@.len() ==> #[trigger] done@[j]@.len() <= i,
        decreases s@.len() - i,
    {
        let ghost p = s@.subrange(0, i + 1);
        assert(p.drop_last() =~= s@.subrange(0, i as int));
        let ghost d0 = views(done@);
        if s[i] == '\n' {
            let line = cur;
            cur = Vec::new();
            done.push(line);
            assert(views(done@) =~= d0.push(line@));
            assert(views(done@).push(cur@) =~= split_newlines(p));
        } else {
            let ghost c0 = cur@;
            cur.push(s[i]);
            assert(views(done@).push(cur@) =~= d0.push(c0).update(d0.len() as int, c0.push(s@[i as int])));
        }
        i = i + 1;
    }
    assert(s@.subrange(0, i as int) =~= s@);
    if s.len() > 0 && s[s.len() - 1] == '\n' {
        assert(split_newlines(s@) == split_newlines(s@.drop_last()).push(Seq::<char>::empty()));
        assert(cur@ == views(done@).push(cur@).last());
        assert(cur@.len() == 0);
        assert(views(done@) =~= lines_of(s@).take(done@.len() as int));
        assert(views(done@) =~= lines_of(s@));
    } else if s.len() > 0 {
        done.push(cur);
        assert(views(done@) =~= split_newlines(s@));
    } else {
        assert(views(done@) =~= lines_of(s@));
    }
    done
}

/// Copies the characters of `s`.
pub fn chars_of(s: &str) -> (r: Vec<char>)
    ensures
        r@ == s@,
{
    let n = s.unicode_len();
    let mut r: Vec<char> = Vec::new();
    let mut i: usize = 0;
    while i < n
        invariant
            n == s@.len(),
            i <= n,
            r@ == s@.subrange(0, i as int),
        decreases n - i,
    {
        r.push(s.get_char(i));
        i = i + 1;
        assert(r@ =~= s@.subrange(0, i as int));
    }
    assert(r@ =~= s@);
    r
}

/// A string of the characters `c`.
pub fn string_of(c: &[char]) -> (r: String)
    ensures
        r@ == c@,
{
    let mut r = String::new();
    let mut i: usize = 0;
    while i < c.len()
        invariant
            i <= c@.len(),
            r@ == c@.subrange(0, i as int),
        decreases c@.len() - i,
    {
        push_char(&mut r, c[i]);
        i = i + 1;
        assert(r@ =~= c@.subrange(0, i as int));
    }
    assert(r@ =~= c@);
    r
}

proof fn lemma_collapse_shorter(s: Seq<char>)
    ensures
        collapse_newlines(s).len() <= s.len(),
    decreases s.len(),
{
    if s.len() > 0 {
        lemma_collapse_shorter(s.drop_last());
    }
}

/// The lines of a poem: trimmed, with blank lines collapsed.
pub open spec fn poem_lines(poem: Seq<char>) -> Seq<Seq<char>> {
    lines_of(collapse_newlines(trim(poem)))
}

/// Trims the poem, collapses its blank lines and splits it into hemistichs; fails when there
/// are fewer than the analysis needs.
pub fn preprocess(poem: &str) -> (r: Result<Vec<Vec<char>>, PoemError>)
    ensures
        match r {
            Ok(ls) => views(ls@) == poem_lines(poem@) && ls@.len() >= MIN_HEMISTICHS && forall|
                j: int,
            |
                0 <= j < ls@.len() ==> #[trigger] ls@[j]@.len() <= poem@.len(),
            Err(e) => poem_lines(poem@).len() < MIN_HEMISTICHS && e == PoemError::TooShort {
                found: poem_lines(poem@).len() as usize,
            },
        },
{
    let c = chars_of(poem);
    let t = trim_chars(c.as_slice());
    let ts = string_of(t.as_slice());
    let collapsed = collapse_blank_lines(ts.as_str());
    let cc = chars_of(collapsed.as_str());
    proof {
        lemma_collapse_shorter(t@);
    }
    let lines = split_lines(cc.as_slice());
    if lines.len() < MIN_HEMISTICHS {
        return Err(PoemError::TooShort { found: lines.len() });
    }
    Ok(lines)
}

/// The numbered Reconstructed hemistichs that open the report.
pub open spec fn hemistichs_text(hs: Seq<Seq<char>>) -> Seq<char>
    decreases hs.len(),
{
    if hs.len() == 0 {
        HEMISTICHS_HEADER@
    } else {
        hemistichs_text(hs.drop_last()) + decimal(hs.len()) + ": "@ + hs.last() + "\n"@
    }
}

/// Writes the numbered Reconstructed hemistichs that open the report.
pub fn hemistichs_report(hs: &Vec<Vec<char>>) -> (r: String)
    requires
        hs@.len() <= 40,
    ensures
        r@ == hemistichs_text(views(hs@)),
{
    let mut s = String::from_str(HEMISTICHS_HEADER);
    let mut i: usize = 0;
    assert(views(hs@).take(0) =~= Seq::<Seq<char>>::empty());
    while i < hs.len()
        invariant
            i <= hs@.len() <= 40,
            s@ == hemistichs_text(views(hs@).take(i as int)),
        decreases hs@.len() - i,
    {
        assert(views(hs@).take(i + 1).drop_last() =~= views(hs@).take(i as int));
        push_decimal(&mut s, (i + 1) as u64);
        s.append(": ");
        let line = string_of(hs[i].as_slice());
        s.append(line.as_str());
        s.append("\n");
        i = i + 1;
    }
    assert(views(hs@).take(i as int) =~= views(hs@));
    s
}

/// The report on a poem whose analyzed Reconstructed hemistichs are `hs`, out of `count`
/// hemistichs in all.
pub open spec fn report_text(hs: Seq<Seq<char>>, count: nat) -> Seq<char> {
    let lf = locations(hs, Kind::LongFirst);
    let sf = locations(hs, Kind::ShortFirst);
    let ls = locations(hs, Kind::LongSecond);
    let ss = locations(hs, Kind::ShortSecond);
    let long = band_is_long(meter_band(letter_total(hs), analyzed_count(count as int) as nat));
    let first = verdict(lf.len(), sf.len());
    let second = verdict(ls.len(), ss.len());
    hemistichs_text(hs) + meter_text(letter_total(hs), analyzed_count(count as int) as nat)
        + first_text(lf.len(), lf, sf.len(), sf) + second_text(ls.len(), ls, ss.len(), ss)
        + guidance(
        long,
        !long,
        first == Verdict::Long,
        first == Verdict::Short,
        second == Verdict::Long,
        second == Verdict::Short,
    )
}

/// Analyzes a poem and writes the report on its meter.
pub fn analyze_poem(poem: &str) -> (r: Result<String, PoemError>)
    requires
        poem@.len() <= MAX_TEXT_LEN,
    ensures
        ({
            let ls = poem_lines(poem@);
            let used = ls.take(analyzed_count(ls.len() as int));
            if ls.len() < MIN_HEMISTICHS {
                r == Err::<String, PoemError>(PoemError::TooShort { found: ls.len() as usize })
            } else {
                match reconstruct_all(used) {
                    Err(c) => r == Err::<String, PoemError>(
                        PoemError::Reconstruction(ReconstructionError { ch: c }),
                    ),
                    Ok(hs) => r is Ok && r->Ok_0@ == report_text(hs, ls.len()),
                }
            }
        }),
{
    let lines = match preprocess(poem) {
        Ok(l) => l,
        Err(e) => {
            return Err(e);
        },
    };
    let count = lines.len();
    let mut analysis: MeterAnalysis = match analyze_hemistichs(&lines) {
        Ok(a) => a,
        Err(e) => {
            return Err(PoemError::Reconstruction(e));
        },
    };
    let ghost hs = views(analysis.hemistichs@);
    analyze_meter_length(&mut analysis, count);
    let mut report = hemistichs_report(&analysis.hemistichs);
    let used: usize = if count > 40 {
        40
    } else {
        count
    };
    let m = meter_report(analysis.total_letters, used);
    report.append(m.as_str());
    let sa = &analysis.syllable_analysis;
    assert(sa.count(Kind::LongFirst) == sa.locs(Kind::LongFirst).len());
    assert(sa.count(Kind::ShortFirst) == sa.locs(Kind::ShortFirst).len());
    assert(sa.count(Kind::LongSecond) == sa.locs(Kind::LongSecond).len());
    assert(sa.count(Kind::ShortSecond) == sa.locs(Kind::ShortSecond).len());
    let (first, first_report) = first_syllable_assessment(
        sa.long_first_markers,
        sa.long_first_locations.as_slice(),
        sa.short_first_markers,
        sa.short_first_locations.as_slice(),
    );
    report.append(first_report.as_str());
    let (second, second_report) = second_syllable_assessment(
        sa.long_second_markers,
        sa.long_second_locations.as_slice(),
        sa.short_second_markers,
        sa.short_second_locations.as_slice(),
    );
    report.append(second_report.as_str());
    let summary = final_assessment(
        analysis.long_meter,
        analysis.short_meter,
        first == Verdict::Long,
        first == Verdict::Short,
        second == Verdict::Long,
        second == Verdict::Short,
    );
    report.append(summary.as_str());
    Ok(report)
}

} // verus!
