use vstd::prelude::*;

verus! {

/// Relies on std's `String::push`: appends one character to the end of the string.
#[verifier::external_body]
pub(crate) fn push_char(s: &mut String, c: char)
    ensures
        final(s)@ == old(s)@.push(c),
{
    s.push(c)
}

/// The decimal digit of `d` (below ten).
pub open spec fn digit(d: nat) -> char {
    if d == 0 {
        '0'
    } else if d == 1 {
        '1'
    } else if d == 2 {
        '2'
    } else if d == 3 {
        '3'
    } else if d == 4 {
        '4'
    } else if d == 5 {
        '5'
    } else if d == 6 {
        '6'
    } else if d == 7 {
        '7'
    } else if d == 8 {
        '8'
    } else {
        '9'
    }
}

pub(crate) fn digit_exec(d: u64) -> (r: char)
    requires
        d < 10,
    ensures
        r == digit(d as nat),
{
    if d == 0 {
        '0'
    } else if d == 1 {
        '1'
    } else if d == 2 {
        '2'
    } else if d == 3 {
        '3'
    } else if d == 4 {
        '4'
    } else if d == 5 {
        '5'
    } else if d == 6 {
        '6'
    } else if d == 7 {
        '7'
    } else if d == 8 {
        '8'
    } else {
        '9'
    }
}

/// The decimal notation of `n`, without leading zeros.
pub open spec fn decimal(n: nat) -> Seq<char>
    decreases n,
{
    if n < 10 {
        seq![digit(n)]
    } else {
        decimal(n / 10).push(digit(n % 10))
    }
}

/// Appends the decimal notation of `n`.
pub fn push_decimal(s: &mut String, n: u64)
    ensures
        final(s)@ == old(s)@ + decimal(n as nat),
    decreases n,
{
    if n >= 10 {
        push_decimal(s, n / 10);
    }
    push_char(s, digit_exec(n % 10));
    assert(final(s)@ =~= old(s)@ + decimal(n as nat));
}

/// The lower-case hexadecimal digit of `d` (below sixteen).
pub open spec fn hex_digit(d: nat) -> char {
    if d < 10 {
        digit(d)
    } else if d == 10 {
        'a'
    } else if d == 11 {
        'b'
    } else if d == 12 {
        'c'
    } else if d == 13 {
        'd'
    } else if d == 14 {
        'e'
    } else {
        'f'
    }
}

/// The lower-case hexadecimal notation of `n`, without leading zeros.
pub open spec fn hex(n: nat) -> Seq<char>
    decreases n,
{
    if n < 16 {
        seq![hex_digit(n)]
    } else {
        hex(n / 16).push(hex_digit(n % 16))
    }
}

/// Appends the lower-case hexadecimal notation of `n`.
pub fn push_hex(s: &mut String, n: u32)
    ensures
        final(s)@ == old(s)@ + hex(n as nat),
    decreases n,
{
    if n >= 16 {
        push_hex(s, n / 16);
    }
    let d = n % 16;
    let c = if d < 10 {
        digit_exec(d as u64)
    } else if d == 10 {
        'a'
    } else if d == 11 {
        'b'
    } else if d == 12 {
        'c'
    } else if d == 13 {
        'd'
    } else if d == 14 {
        'e'
    } else {
        'f'
    };
    push_char(s, c);
    assert(final(s)@ =~= old(s)@ + hex(n as nat));
}

/// The numbers of `locs` in decimal, separated by a comma and a space.
pub open spec fn join(locs: Seq<usize>) -> Seq<char>
    decreases locs.len(),
{
    if locs.len() == 0 {
        Seq::empty()
    } else if locs.len() == 1 {
        decimal(locs[0] as nat)
    } else {
        join(locs.drop_last()) + ", "@ + decimal(locs.last() as nat)
    }
}

proof fn lemma_decimal_ends_in_digit(n: nat)
    ensures
        decimal(n).len() > 0,
        decimal(n).last() == digit(n % 10),
    decreases n,
{
    if n >= 10 {
        lemma_decimal_ends_in_digit(n / 10);
    }
}

/// A rendered list holds no trailing separator: when it is not empty it ends with the last
/// digit of its last number.
pub proof fn lemma_join_ends_in_digit(locs: Seq<usize>)
    requires
        locs.len() > 0,
    ensures
        join(locs).len() > 0,
        join(locs).last() == digit((locs.last() as nat) % 10),
{
    lemma_decimal_ends_in_digit(locs.last() as nat);
}

/// Appends the numbers of `locs` in decimal, separated by a comma and a space.
pub fn push_list(s: &mut String, locs: &[usize])
    ensures
        final(s)@ == old(s)@ + join(locs@),
{
    let ghost s0 = s@;
    let mut i: usize = 0;
    assert(s@ =~= s0 + join(locs@.take(0)));
    while i < locs.len()
        invariant
            i <= locs@.len(),
            s@ == s0 + join(locs@.take(i as int)),
        decreases locs@.len() - i,
    {
        assert(locs@.take(i + 1).drop_last() =~= locs@.take(i as int));
        if i > 0 {
            s.append(", ");
        }
        push_decimal(s, locs[i] as u64);
        assert(s@ =~= s0 + join(locs@.take(i + 1)));
        i = i + 1;
    }
    assert(locs@.take(i as int) =~= locs@);
}

} // verus!
