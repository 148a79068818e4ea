use vstd::prelude::*;
use crate::normalize::{reconstruct, reconstruct_hemistich, ReconstructionError};
use crate::patterns::{
    initial_clue, initial_clues, long_first, long_first_syllable, long_second,
    long_second_syllable, short_first, short_first_syllable, short_second, short_second_syllable,
    InitialClue,
};

verus! {

/// Only this many hemistichs of a poem are analyzed.
pub const MAX_HEMISTICHS: usize = 40;

/// The longest text the analysis takes, in characters.
pub const MAX_TEXT_LEN: usize = 10_000;

/// The four kinds of evidence about syllable length.
#[derive(Clone, Copy, Debug, PartialEq, Eq, Structural)]
pub enum Kind {
    LongFirst,
    ShortFirst,
    LongSecond,
    ShortSecond,
}

/// The Condensed form: `s` with its spaces taken out.
pub open spec fn condensed(s: Seq<char>) -> Seq<char>
    decreases s.len(),
{
    if s.len() == 0 {
        s
    } else if s.last() == ' ' {
        condensed(s.drop_last())
    } else {
        condensed(s.drop_last()).push(s.last())
    }
}

/// Whether the detector of kind `k` fires on Reconstructed `s` with Condensed `n`.
pub open spec fn detects(s: Seq<char>, n: Seq<char>, k: Kind) -> bool {
    match k {
        Kind::LongFirst => long_first(s),
        Kind::ShortFirst => short_first(s),
        Kind::LongSecond => long_second(s),
        Kind::ShortSecond => short_second(s, n),
    }
}

/// Whether an initial clue adds a marker of kind `k`.
pub open spec fn clue_marks(c: Option<InitialClue>, k: Kind) -> bool {
    match c {
        None => false,
        Some(InitialClue::Kasi) | Some(InitialClue::Yaki) => k == Kind::ShortFirst || k
            == Kind::LongSecond,
        Some(InitialClue::Chandan) => k == Kind::LongFirst || k == Kind::LongSecond,
        Some(_) => k == Kind::LongFirst || k == Kind::ShortSecond,
    }
}

/// The number of markers of kind `k` that one hemistich yields: one from its detector and
/// one more from its initial clue.
pub open spec fn marks(s: Seq<char>, n: Seq<char>, k: Kind) -> nat {
    (if detects(s, n, k) { 1nat } else { 0nat }) + (if clue_marks(initial_clue(s), k) {
        1nat
    } else {
        0nat
    })
}

/// `x`, `m` times.
pub open spec fn repeat(x: usize, m: nat) -> Seq<usize> {
    Seq::new(m, |i: int| x)
}

/// The hemistich numbers (1-based) at which markers of kind `k` stand, over the
/// Reconstructed hemistichs `hs`, one entry per marker, in order.
pub open spec fn locations(hs: Seq<Seq<char>>, k: Kind) -> Seq<usize>
    decreases hs.len(),
{
    if hs.len() == 0 {
        Seq::empty()
    } else {
        locations(hs.drop_last(), k) + repeat(
            hs.len() as usize,
            marks(hs.last(), condensed(hs.last()), k),
        )
    }
}

/// Location lists hold 1-based hemistich numbers in ascending order.
pub proof fn lemma_locations_ascending(hs: Seq<Seq<char>>, k: Kind)
    requires
        hs.len() <= MAX_HEMISTICHS,
    ensures
        forall|i: int|
            0 <= i < locations(hs, k).len() ==> 1 <= #[trigger] locations(hs, k)[i] <= hs.len(),
        forall|i: int, j: int|
            0 <= i <= j < locations(hs, k).len() ==> #[trigger] locations(hs, k)[i]
                <= #[trigger] locations(hs, k)[j],
    decreases hs.len(),
{
    if hs.len() > 0 {
        lemma_locations_ascending(hs.drop_last(), k);
        let p = locations(hs.drop_last(), k);
        let l = locations(hs, k);
        assert forall|i: int| 0 <= i < l.len() implies 1 <= #[trigger] l[i] <= hs.len() by {
            if i < p.len() {
                assert(l[i] == p[i]);
            }
        }
        assert forall|i: int, j: int| 0 <= i <= j < l.len() implies #[trigger] l[i] <= #[trigger] l[j] by {
            if j < p.len() {
                assert(l[i] == p[i] && l[j] == p[j]);
            } else if i < p.len() {
                assert(l[i] == p[i]);
            }
        }
    }
}

/// The number of letters (spaces not counted) in the Reconstructed hemistichs `hs`.
pub open spec fn letter_total(hs: Seq<Seq<char>>) -> nat
    decreases hs.len(),
{
    if hs.len() == 0 {
        0
    } else {
        letter_total(hs.drop_last()) + condensed(hs.last()).len()
    }
}

/// The Reconstructed forms of the raw lines `ls`, or the first code point that one of them
/// rejects.
pub open spec fn reconstruct_all(ls: Seq<Seq<char>>) -> Result<Seq<Seq<char>>, char>
    decreases ls.len(),
{
    if ls.len() == 0 {
        Ok(Seq::empty())
    } else {
        match reconstruct_all(ls.drop_last()) {
            Err(e) => Err(e),
            Ok(p) => match reconstruct(ls.last()) {
                Ok(h) => Ok(p.push(h)),
                Err(e) => Err(e),
            },
        }
    }
}

/// Running counters and location lists, one pair per kind of marker.
pub struct SyllableAnalysis {
    pub long_first_markers: u32,
    pub long_first_locations: Vec<usize>,
    pub short_first_markers: u32,
    pub short_first_locations: Vec<usize>,
    pub long_second_markers: u32,
    pub long_second_locations: Vec<usize>,
    pub short_second_markers: u32,
    pub short_second_locations: Vec<usize>,
}

impl SyllableAnalysis {
    /// The location list of kind `k`.
    pub open spec fn locs(&self, k: Kind) -> Seq<usize> {
        match k {
            Kind::LongFirst => self.long_first_locations@,
            Kind::ShortFirst => self.short_first_locations@,
            Kind::LongSecond => self.long_second_locations@,
            Kind::ShortSecond => self.short_second_locations@,
        }
    }

    /// The counter of kind `k`.
    pub open spec fn count(&self, k: Kind) -> u32 {
        match k {
            Kind::LongFirst => self.long_first_markers,
            Kind::ShortFirst => self.short_first_markers,
            Kind::LongSecond => self.long_second_markers,
            Kind::ShortSecond => self.short_second_markers,
        }
    }

    /// Each counter is the length of its location list.
    pub open spec fn wf(&self) -> bool {
        forall|k: Kind| #[trigger] self.count(k) == self.locs(k).len()
    }

    pub fn new() -> (r: SyllableAnalysis)
        ensures
            r.wf(),
            forall|k: Kind| #[trigger] r.locs(k) == Seq::<usize>::empty(),
    {
        SyllableAnalysis {
            long_first_markers: 0,
            long_first_locations: Vec::new(),
            short_first_markers: 0,
            short_first_locations: Vec::new(),
            long_second_markers: 0,
            long_second_locations: Vec::new(),
            short_second_markers: 0,
            short_second_locations: Vec::new(),
        }
    }

    pub fn add_long_first(&mut self, hemistich_no: usize)
        requires
            old(self).long_first_markers < u32::MAX,
        ensures
            final(self).long_first_markers == old(self).long_first_markers + 1,
            final(self).long_first_locations@ == old(self).long_first_locations@.push(
                hemistich_no,
            ),
            final(self).short_first_markers == old(self).short_first_markers,
            final(self).short_first_locations@ == old(self).short_first_locations@,
            final(self).long_second_markers == old(self).long_second_markers,
            final(self).long_second_locations@ == old(self).long_second_locations@,
            final(self).short_second_markers == old(self).short_second_markers,
            final(self).short_second_locations@ == old(self).short_second_locations@,
    {
        self.long_first_markers = self.long_first_markers + 1;
        self.long_first_locations.push(hemistich_no);
    }

    pub fn add_short_first(&mut self, hemistich_no: usize)
        requires
            old(self).short_first_markers < u32::MAX,
        ensures
            final(self).short_first_markers == old(self).short_first_markers + 1,
            final(self).short_first_locations@ == old(self).short_first_locations@.push(
                hemistich_no,
            ),
            final(self).long_first_markers == old(self).long_first_markers,
            final(self).long_first_locations@ == old(self).long_first_locations@,
            final(self).long_second_markers == old(self).long_second_markers,
            final(self).long_second_locations@ == old(self).long_second_locations@,
            final(self).short_second_markers == old(self).short_second_markers,
            final(self).short_second_locations@ == old(self).short_second_locations@,
    {
        self.short_first_markers = self.short_first_markers + 1;
        self.short_first_locations.push(hemistich_no);
    }

    pub fn add_long_second(&mut self, hemistich_no: usize)
        requires
            old(self).long_second_markers < u32::MAX,
        ensures
            final(self).long_second_markers == old(self).long_second_markers + 1,
            final(self).long_second_locations@ == old(self).long_second_locations@.push(
                hemistich_no,
            ),
            final(self).long_first_markers == old(self).long_first_markers,
            final(self).long_first_locations@ == old(self).long_first_locations@,
            final(self).short_first_markers == old(self).short_first_markers,
            final(self).short_first_locations@ == old(self).short_first_locations@,
            final(self).short_second_markers == old(self).short_second_markers,
            final(self).short_second_locations@ == old(self).short_second_locations@,
    {
        self.long_second_markers = self.long_second_markers + 1;
        self.long_second_locations.push(hemistich_no);
    }

    pub fn add_short_second(&mut self, hemistich_no: usize)
        requires
            old(self).short_second_markers < u32::MAX,
        ensures
            final(self).short_second_markers == old(self).short_second_markers + 1,
            final(self).short_second_locations@ == old(self).short_second_locations@.push(
                hemistich_no,
            ),
            final(self).long_first_markers == old(self).long_first_markers,
            final(self).long_first_locations@ == old(self).long_first_locations@,
            final(self).short_first_markers == old(self).short_first_markers,
            final(self).short_first_locations@ == old(self).short_first_locations@,
            final(self).long_second_markers == old(self).long_second_markers,
            final(self).long_second_locations@ == old(self).long_second_locations@,
    {
        self.short_second_markers = self.short_second_markers + 1;
        self.short_second_locations.push(hemistich_no);
    }
}

/// Copies `h` without its spaces.
pub fn condense(h: &[char]) -> (r: Vec<char>)
    ensures
        r@ == condensed(h@),
        r@.len() <= h@.len(),
{
    let mut r: Vec<char> = Vec::new();
    let mut i: usize = 0;
    while i < h.len()
        invariant
            i <= h@.len(),
            r@ == condensed(h@.subrange(0, i as int)),
            r@.len() <= i,
        decreases h@.len() - i,
    {
        assert(h@.subrange(0, i + 1).drop_last() =~= h@.subrange(0, i as int));
        if h[i] != ' ' {
            r.push(h[i]);
        }
        i = i + 1;
    }
    assert(h@.subrange(0, i as int) =~= h@);
    r
}

/// Records the markers that one hemistich yields, under its number `hem_no`.
pub fn analyze_syllables(
    hem_reconst: &[char],
    hem_nospace: &[char],
    hem_no: usize,
    analysis: &mut SyllableAnalysis,
)
    requires
        old(analysis).wf(),
        forall|k: Kind| #[trigger] old(analysis).count(k) <= u32::MAX - 2,
    ensures
        final(analysis).wf(),
        forall|k: Kind|
            #[trigger] final(analysis).locs(k) == old(analysis).locs(k) + repeat(
                hem_no,
                marks(hem_reconst@, hem_nospace@, k),
            ),
{
    let ghost s = hem_reconst@;
    let ghost n = hem_nospace@;
    let ghost a0 = *analysis;
    assert(a0.count(Kind::LongFirst) <= u32::MAX - 2);
    assert(a0.count(Kind::ShortFirst) <= u32::MAX - 2);
    assert(a0.count(Kind::LongSecond) <= u32::MAX - 2);
    assert(a0.count(Kind::ShortSecond) <= u32::MAX - 2);
    if long_first_syllable(hem_reconst) {
        analysis.add_long_first(hem_no);
    }
    if short_first_syllable(hem_reconst) {
        analysis.add_short_first(hem_no);
    }
    if long_second_syllable(hem_reconst) {
        analysis.add_long_second(hem_no);
    }
    if short_second_syllable(hem_reconst, hem_nospace) {
        analysis.add_short_second(hem_no);
    }
    let ghost a1 = *analysis;
    assert forall|k: Kind| #[trigger] a1.locs(k) == a0.locs(k) + repeat(
        hem_no,
        if detects(s, n, k) { 1nat } else { 0nat },
    ) && a1.count(k) <= u32::MAX - 1 by {
        if detects(s, n, k) {
            assert(a1.locs(k) =~= a0.locs(k) + repeat(hem_no, 1));
        } else {
            assert(a1.locs(k) =~= a0.locs(k) + repeat(hem_no, 0));
        }
    }
    assert(a1.count(Kind::LongFirst) <= u32::MAX - 1);
    assert(a1.count(Kind::ShortFirst) <= u32::MAX - 1);
    assert(a1.count(Kind::LongSecond) <= u32::MAX - 1);
    assert(a1.count(Kind::ShortSecond) <= u32::MAX - 1);
    match initial_clues(hem_reconst) {
        Some(InitialClue::Kasi) | Some(InitialClue::Yaki) => {
            analysis.add_short_first(hem_no);
            analysis.add_long_second(hem_no);
        },
        Some(InitialClue::Chist) | Some(InitialClue::Dust) | Some(InitialClue::Nist) | Some(
            InitialClue::HamChu,
        ) | Some(InitialClue::Kist) => {
            analysis.add_long_first(hem_no);
            analysis.add_short_second(hem_no);
        },
        Some(InitialClue::Chandan) => {
            analysis.add_long_first(hem_no);
            analysis.add_long_second(hem_no);
        },
        None => {},
    }
    assert forall|k: Kind| #[trigger] analysis.locs(k) == a0.locs(k) + repeat(
        hem_no,
        marks(s, n, k),
    ) by {
        let d: nat = if detects(s, n, k) { 1nat } else { 0nat };
        if clue_marks(initial_clue(s), k) {
            assert(analysis.locs(k) =~= a1.locs(k).push(hem_no));
            assert(a0.locs(k) + repeat(hem_no, d + 1) =~= (a0.locs(k) + repeat(hem_no, d)).push(
                hem_no,
            ));
        } else {
            assert(analysis.locs(k) == a1.locs(k));
        }
    }
}

/// What the aggregation of a poem yields.
pub struct MeterAnalysis {
    pub long_meter: bool,
    pub short_meter: bool,
    pub total_letters: u32,
    pub syllable_analysis: SyllableAnalysis,
    /// The Reconstructed forms of the analyzed hemistichs, in order.
    pub hemistichs: Vec<Vec<char>>,
}

/// The Reconstructed views of a list of hemistichs.
pub open spec fn views(v: Seq<Vec<char>>) -> Seq<Seq<char>> {
    v.map_values(|x: Vec<char>| x@)
}

/// The number of hemistichs analyzed out of `count`.
pub open spec fn analyzed_count(count: int) -> int {
    if count > MAX_HEMISTICHS {
        MAX_HEMISTICHS as int
    } else {
        count
    }
}

/// Reconstructs the first hemistichs of a poem (at most forty), and counts their letters and
/// markers. The meter-length flags are left unset.
pub fn analyze_hemistichs(lines: &Vec<Vec<char>>) -> (r: Result<MeterAnalysis, ReconstructionError>)
    requires
        forall|j: int| 0 <= j < lines@.len() ==> #[trigger] lines@[j]@.len() <= MAX_TEXT_LEN,
    ensures
        ({
            let used = views(lines@).take(analyzed_count(lines@.len() as int));
            match r {
                Err(e) => reconstruct_all(used) == Err::<Seq<Seq<char>>, char>(e.ch),
                Ok(a) => {
                    &&& reconstruct_all(used) == Ok::<Seq<Seq<char>>, char>(views(a.hemistichs@))
                    &&& a.hemistichs@.len() == used.len() <= MAX_HEMISTICHS
                    &&& a.total_letters == letter_total(views(a.hemistichs@))
                    &&& a.syllable_analysis.wf()
                    &&& forall|k: Kind| #[trigger] a.syllable_analysis.locs(k) == locations(
                        views(a.hemistichs@),
                        k,
                    )
                    &&& !a.long_meter && !a.short_meter
                },
            }
        }),
{
    let limit: usize = if lines.len() > MAX_HEMISTICHS {
        MAX_HEMISTICHS
    } else {
        lines.len()
    };
    let ghost used = views(lines@).take(limit as int);
    let mut sa = SyllableAnalysis::new();
    let mut hems: Vec<Vec<char>> = Vec::new();
    let mut total: u32 = 0;
    let mut i: usize = 0;
    assert(views(hems@) =~= Seq::<Seq<char>>::empty());
    assert(used.take(0) =~= Seq::<Seq<char>>::empty());
    while i < limit
        invariant
            limit == analyzed_count(lines@.len() as int),
            used == views(lines@).take(limit as int),
            i <= limit <= MAX_HEMISTICHS,
            limit <= lines@.len(),
            forall|j: int| 0 <= j < lines@.len() ==> #[trigger] lines@[j]@.len() <= MAX_TEXT_LEN,
            reconstruct_all(used.take(i as int)) == Ok::<Seq<Seq<char>>, char>(views(hems@)),
            hems@.len() == i,
            total == letter_total(views(hems@)),
            total <= i * MAX_TEXT_LEN,
            sa.wf(),
            forall|k: Kind| #[trigger] sa.locs(k) == locations(views(hems@), k),
            forall|k: Kind| #[trigger] sa.count(k) <= 2 * i,
        decreases limit - i,
    {
        assert(used.take(i + 1).drop_last() =~= used.take(i as int));
        assert(used.take(i + 1).last() == lines@[i as int]@);
        match reconstruct_hemistich(lines[i].as_slice()) {
            Err(e) => {
                proof {
                    lemma_reconstruct_all_error_persists(used, i + 1, e.ch);
                }
                return Err(e);
            },
            Ok(h) => {
                let n = condense(h.as_slice());
                let ghost before = views(hems@);
                let ghost sa0 = sa;
                analyze_syllables(h.as_slice(), n.as_slice(), i + 1, &mut sa);
                total = total + n.len() as u32;
                hems.push(h);
                proof {
                    let after = views(hems@);
                    assert(after =~= before.push(h@));
                    assert(after.drop_last() =~= before);
                    assert forall|k: Kind| #[trigger] sa.count(k) <= 2 * (i + 1) by {
                        assert(sa.count(k) == sa.locs(k).len());
                        assert(sa0.count(k) == sa0.locs(k).len());
                    }
                }
                i = i + 1;
            },
        }
    }
    assert(used.take(i as int) =~= used);
    Ok(
        MeterAnalysis {
            long_meter: false,
            short_meter: false,
            total_letters: total,
            syllable_analysis: sa,
            hemistichs: hems,
        },
    )
}

/// Once reconstruction of the first lines has failed, it fails with the same code point
/// on every longer run of lines.
pub proof fn lemma_reconstruct_all_error_persists(ls: Seq<Seq<char>>, i: int, e: char)
    requires
        0 <= i <= ls.len(),
        reconstruct_all(ls.take(i)) == Err::<Seq<Seq<char>>, char>(e),
    ensures
        reconstruct_all(ls) == Err::<Seq<Seq<char>>, char>(e),
    decreases ls.len() - i,
{
    if i < ls.len() {
        assert(ls.take(i + 1).drop_last() =~= ls.take(i));
        lemma_reconstruct_all_error_persists(ls, i + 1, e);
    } else {
        assert(ls.take(i) =~= ls);
    }
}

} // verus!
