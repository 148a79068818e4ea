use vstd::prelude::*;
use crate::analysis::{analyzed_count, MeterAnalysis, MAX_HEMISTICHS};

verus! {

/// The verdict on the length of one syllable position.
#[derive(Clone, Copy, Debug, PartialEq, Eq, Structural)]
pub enum Verdict {
    Long,
    Short,
    Indeterminate,
    Contradictory,
}

/// The verdict from the numbers of long and short markers: any conflict is contradictory,
/// and one marker alone is not enough.
pub open spec fn verdict(long: nat, short: nat) -> Verdict {
    if long > 0 && short > 0 {
        Verdict::Contradictory
    } else if long > 1 {
        Verdict::Long
    } else if short > 1 {
        Verdict::Short
    } else {
        Verdict::Indeterminate
    }
}

pub fn syllable_verdict(long_markers: u32, short_markers: u32) -> (r: Verdict)
    ensures
        r == verdict(long_markers as nat, short_markers as nat),
{
    if long_markers > 0 && short_markers > 0 {
        Verdict::Contradictory
    } else if long_markers > 1 {
        Verdict::Long
    } else if short_markers > 1 {
        Verdict::Short
    } else {
        Verdict::Indeterminate
    }
}

/// The band into which the average number of letters per hemistich falls.
#[derive(Clone, Copy, Debug, PartialEq, Eq, Structural)]
pub enum MeterBand {
    /// 23.5 letters or more: long.
    Long,
    /// From 22.5 up to 23.5: long, but pretty short for a long meter.
    ShortishLong,
    /// From 21 up to 22.5: short, but pretty long for a short meter.
    LongishShort,
    /// Under 21: short.
    Short,
}

/// The band of the average `total / count`, compared exactly.
pub open spec fn meter_band(total: nat, count: nat) -> MeterBand {
    if 2 * total >= 47 * count {
        MeterBand::Long
    } else if 2 * total >= 45 * count {
        MeterBand::ShortishLong
    } else if total >= 21 * count {
        MeterBand::LongishShort
    } else {
        MeterBand::Short
    }
}

pub open spec fn band_is_long(b: MeterBand) -> bool {
    b == MeterBand::Long || b == MeterBand::ShortishLong
}

/// The band of a poem of `total_letters` letters over `total_hemistichs` hemistichs, of which
/// at most forty count.
pub fn classify_meter_length(total_letters: u32, total_hemistichs: usize) -> (r: MeterBand)
    requires
        total_hemistichs > 0,
    ensures
        r == meter_band(total_letters as nat, analyzed_count(total_hemistichs as int) as nat),
{
    let n: u64 = if total_hemistichs > MAX_HEMISTICHS {
        MAX_HEMISTICHS as u64
    } else {
        total_hemistichs as u64
    };
    let t: u64 = total_letters as u64;
    if 2 * t >= 47 * n {
        MeterBand::Long
    } else if 2 * t >= 45 * n {
        MeterBand::ShortishLong
    } else if t >= 21 * n {
        MeterBand::LongishShort
    } else {
        MeterBand::Short
    }
}

/// Sets the meter-length flags of `analysis` from its letter total over `total_hemistichs`
/// hemistichs, and returns the band.
pub fn analyze_meter_length(analysis: &mut MeterAnalysis, total_hemistichs: usize) -> (r: MeterBand)
    requires
        total_hemistichs > 0,
    ensures
        r == meter_band(
            old(analysis).total_letters as nat,
            analyzed_count(total_hemistichs as int) as nat,
        ),
        final(analysis).long_meter == band_is_long(r),
        final(analysis).short_meter == !band_is_long(r),
        final(analysis).total_letters == old(analysis).total_letters,
        final(analysis).syllable_analysis == old(analysis).syllable_analysis,
        final(analysis).hemistichs == old(analysis).hemistichs,
{
    let band = classify_meter_length(analysis.total_letters, total_hemistichs);
    let long = match band {
        MeterBand::Long | MeterBand::ShortishLong => true,
        _ => false,
    };
    analysis.long_meter = long;
    analysis.short_meter = !long;
    band
}

} // verus!
