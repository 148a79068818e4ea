use vstd::prelude::*;

verus! {

/// True of the thirty consonant letters of the canonical alphabet, isolated hamza included.
pub open spec fn consonant(c: char) -> bool {
    c == 'ء' || c == 'ب' || c == 'پ' || c == 'ت' || c == 'ث' || c == 'ج' || c == 'چ' || c == 'ح'
        || c == 'خ' || c == 'د' || c == 'ذ' || c == 'ر' || c == 'ز' || c == 'ژ' || c == 'س'
        || c == 'ش' || c == 'ص' || c == 'ض' || c == 'ط' || c == 'ظ' || c == 'ع' || c == 'غ'
        || c == 'ف' || c == 'ق' || c == 'ک' || c == 'گ' || c == 'ل' || c == 'م' || c == 'ن'
        || c == 'ه'
}

pub fn is_consonant(c: char) -> (r: bool)
    ensures
        r == consonant(c),
{
    c == 'ء' || c == 'ب' || c == 'پ' || c == 'ت' || c == 'ث' || c == 'ج' || c == 'چ' || c == 'ح'
        || c == 'خ' || c == 'د' || c == 'ذ' || c == 'ر' || c == 'ز' || c == 'ژ' || c == 'س'
        || c == 'ش' || c == 'ص' || c == 'ض' || c == 'ط' || c == 'ظ' || c == 'ع' || c == 'غ'
        || c == 'ف' || c == 'ق' || c == 'ک' || c == 'گ' || c == 'ل' || c == 'م' || c == 'ن'
        || c == 'ه'
}

/// `c` stands at position `i` of `s`; false when `i` is out of range.
pub open spec fn at(s: Seq<char>, i: int, c: char) -> bool {
    0 <= i < s.len() && s[i] == c
}

/// A consonant stands at position `i` of `s`; false when `i` is out of range.
pub open spec fn consonant_at(s: Seq<char>, i: int) -> bool {
    0 <= i < s.len() && consonant(s[i])
}

pub open spec fn starts2(s: Seq<char>, a: char, b: char) -> bool {
    at(s, 0, a) && at(s, 1, b)
}

pub open spec fn starts3(s: Seq<char>, a: char, b: char, c: char) -> bool {
    starts2(s, a, b) && at(s, 2, c)
}

pub open spec fn starts4(s: Seq<char>, a: char, b: char, c: char, d: char) -> bool {
    starts3(s, a, b, c) && at(s, 3, d)
}

pub open spec fn starts5(s: Seq<char>, a: char, b: char, c: char, d: char, e: char) -> bool {
    starts4(s, a, b, c, d) && at(s, 4, e)
}

pub open spec fn starts6(s: Seq<char>, a: char, b: char, c: char, d: char, e: char, f: char) -> bool {
    starts5(s, a, b, c, d, e) && at(s, 5, f)
}

/// The part of `s` from position `k` on (empty when `k` is past the end).
pub open spec fn tail(s: Seq<char>, k: int) -> Seq<char> {
    if k <= s.len() {
        s.subrange(k, s.len() as int)
    } else {
        Seq::empty()
    }
}

pub fn char_at(h: &[char], i: usize, c: char) -> (r: bool)
    ensures
        r == at(h@, i as int, c),
{
    i < h.len() && h[i] == c
}

pub fn consonant_at_exec(h: &[char], i: usize) -> (r: bool)
    ensures
        r == consonant_at(h@, i as int),
{
    i < h.len() && is_consonant(h[i])
}

pub fn starts2_exec(h: &[char], a: char, b: char) -> (r: bool)
    ensures
        r == starts2(h@, a, b),
{
    char_at(h, 0, a) && char_at(h, 1, b)
}

pub fn starts3_exec(h: &[char], a: char, b: char, c: char) -> (r: bool)
    ensures
        r == starts3(h@, a, b, c),
{
    starts2_exec(h, a, b) && char_at(h, 2, c)
}

pub fn starts4_exec(h: &[char], a: char, b: char, c: char, d: char) -> (r: bool)
    ensures
        r == starts4(h@, a, b, c, d),
{
    starts3_exec(h, a, b, c) && char_at(h, 3, d)
}

pub fn starts5_exec(h: &[char], a: char, b: char, c: char, d: char, e: char) -> (r: bool)
    ensures
        r == starts5(h@, a, b, c, d, e),
{
    starts4_exec(h, a, b, c, d) && char_at(h, 4, e)
}

pub fn starts6_exec(h: &[char], a: char, b: char, c: char, d: char, e: char, f: char) -> (r: bool)
    ensures
        r == starts6(h@, a, b, c, d, e, f),
{
    starts5_exec(h, a, b, c, d, e) && char_at(h, 5, f)
}

/// A copy of `h` from position `k` on.
pub fn tail_exec(h: &[char], k: usize) -> (r: Vec<char>)
    requires
        k <= h@.len(),
    ensures
        r@ == tail(h@, k as int),
{
    let mut r: Vec<char> = Vec::new();
    let mut i: usize = k;
    while i < h.len()
        invariant
            k <= i <= h@.len(),
            r@ == h@.subrange(k as int, i as int),
        decreases h@.len() - i,
    {
        r.push(h[i]);
        i = i + 1;
        assert(r@ =~= h@.subrange(k as int, i as int));
    }
    r
}

} // verus!
