use vstd::prelude::*;

verus! {

/// The characters that Unicode gives the White_Space property.
pub open spec fn white_space(c: char) -> bool {
    ('\u{9}' <= c && c <= '\u{d}') || c == ' ' || c == '\u{85}' || c == '\u{a0}' || c
        == '\u{1680}' || ('\u{2000}' <= c && c <= '\u{200a}') || c == '\u{2028}' || c
        == '\u{2029}' || c == '\u{202f}' || c == '\u{205f}' || c == '\u{3000}'
}

pub fn is_white_space(c: char) -> (r: bool)
    ensures
        r == white_space(c),
{
    ('\u{9}' <= c && c <= '\u{d}') || c == ' ' || c == '\u{85}' || c == '\u{a0}' || c
        == '\u{1680}' || ('\u{2000}' <= c && c <= '\u{200a}') || c == '\u{2028}' || c
        == '\u{2029}' || c == '\u{202f}' || c == '\u{205f}' || c == '\u{3000}'
}

pub open spec fn trim_start(s: Seq<char>) -> Seq<char>
    decreases s.len(),
{
    if s.len() > 0 && white_space(s[0]) {
        trim_start(s.drop_first())
    } else {
        s
    }
}

pub open spec fn trim_end(s: Seq<char>) -> Seq<char>
    decreases s.len(),
{
    if s.len() > 0 && white_space(s.last()) {
        trim_end(s.drop_last())
    } else {
        s
    }
}

/// `s` without its leading and trailing white space.
pub open spec fn trim(s: Seq<char>) -> Seq<char> {
    trim_end(trim_start(s))
}

/// Copies `s` without its leading and trailing white space.
pub fn trim_chars(s: &[char]) -> (r: Vec<char>)
    ensures
        r@ == trim(s@),
        r@.len() <= s@.len(),
{
    let mut a: usize = 0;
    assert(s@.subrange(0, s@.len() as int) =~= s@);
    while a < s.len() && is_white_space(s[a])
        invariant
            a <= s@.len(),
            trim_start(s@) == trim_start(s@.subrange(a as int, s@.len() as int)),
        decreases s@.len() - a,
    {
        assert(s@.subrange(a as int, s@.len() as int).drop_first() =~= s@.subrange(
            a + 1,
            s@.len() as int,
        ));
        a = a + 1;
    }
    let ghost t = s@.subrange(a as int, s@.len() as int);
    let mut b: usize = s.len();
    while b > a && is_white_space(s[b - 1])
        invariant
            a <= b <= s@.len(),
            t == s@.subrange(a as int, s@.len() as int),
            trim_start(s@) == t,
            trim_end(t) == trim_end(s@.subrange(a as int, b as int)),
        decreases b,
    {
        assert(s@.subrange(a as int, b as int).drop_last() =~= s@.subrange(a as int, b - 1));
        b = b - 1;
    }
    let mut r: Vec<char> = Vec::new();
    let mut i: usize = a;
    while i < b
        invariant
            a <= i <= b <= s@.len(),
            r@ == s@.subrange(a as int, i as int),
        decreases b - i,
    {
        r.push(s[i]);
        i = i + 1;
        assert(r@ =~= s@.subrange(a as int, i as int));
    }
    r
}

/// What normalization does with one code point.
pub enum CharAction {
    /// The code point becomes this letter (or space).
    Emit(char),
    /// The code point is dropped.
    Drop,
    /// The code point is outside the accepted script.
    Reject,
}

/// The action of normalization on one code point.
pub open spec fn char_action(c: char) -> CharAction {
    if c == 'ا' || c == 'آ' || c == 'و' || c == 'ی' || crate::alphabet::consonant(c) || c == ' ' {
        CharAction::Emit(c)
    } else if c == 'أ' {
        CharAction::Emit('ا')
    } else if c == 'ؤ' {
        CharAction::Emit('و')
    } else if c == 'ئ' {
        CharAction::Emit('ی')
    } else if c == 'ة' {
        CharAction::Emit('ه')
    } else if c == '\u{200c}' {
        CharAction::Emit(' ')
    } else if c == '\u{654}' || c == '\u{64e}' || c == '\u{651}' || c == '\u{64f}' || c
        == '\u{650}' || c == '\u{652}' || c == '\u{64b}' || c == '\u{670}' || c == '\u{64d}' || c
        == '\u{64c}' || c == '،' || c == '؟' || c == '!' {
        CharAction::Drop
    } else {
        CharAction::Reject
    }
}

pub fn char_action_exec(c: char) -> (r: CharAction)
    ensures
        r == char_action(c),
{
    if c == 'ا' || c == 'آ' || c == 'و' || c == 'ی' || crate::alphabet::is_consonant(c) || c
        == ' ' {
        CharAction::Emit(c)
    } else if c == 'أ' {
        CharAction::Emit('ا')
    } else if c == 'ؤ' {
        CharAction::Emit('و')
    } else if c == 'ئ' {
        CharAction::Emit('ی')
    } else if c == 'ة' {
        CharAction::Emit('ه')
    } else if c == '\u{200c}' {
        CharAction::Emit(' ')
    } else if c == '\u{654}' || c == '\u{64e}' || c == '\u{651}' || c == '\u{64f}' || c
        == '\u{650}' || c == '\u{652}' || c == '\u{64b}' || c == '\u{670}' || c == '\u{64d}' || c
        == '\u{64c}' || c == '،' || c == '؟' || c == '!' {
        CharAction::Drop
    } else {
        CharAction::Reject
    }
}

/// Normalization of an already trimmed line: the letters it yields, or the first code point
/// that it rejects.
pub open spec fn normalize(s: Seq<char>) -> Result<Seq<char>, char>
    decreases s.len(),
{
    if s.len() == 0 {
        Ok(Seq::empty())
    } else {
        match normalize(s.drop_last()) {
            Err(e) => Err(e),
            Ok(p) => match char_action(s.last()) {
                CharAction::Emit(c) => Ok(p.push(c)),
                CharAction::Drop => Ok(p),
                CharAction::Reject => Err(s.last()),
            },
        }
    }
}

/// The Reconstructed form of a raw line, or the first code point it rejects.
pub open spec fn reconstruct(s: Seq<char>) -> Result<Seq<char>, char> {
    normalize(trim(s))
}

/// A code point outside the accepted script, found while normalizing a hemistich.
#[derive(Clone, Copy, Debug, PartialEq, Eq, Structural)]
pub struct ReconstructionError {
    pub ch: char,
}

impl ReconstructionError {
    /// What to tell the user: the code point, escaped as `\u{..}` in hexadecimal.
    pub open spec fn message_text(&self) -> Seq<char> {
        "Unexpected character: \\u{"@ + crate::render::hex(self.ch as nat)
            + "}. Text must be fully in Persian/Arabic script."@
    }

    pub fn message(&self) -> (r: String)
        ensures
            r@ == self.message_text(),
    {
        let mut s = String::from_str("Unexpected character: \\u{");
        crate::render::push_hex(&mut s, self.ch as u32);
        s.append("}. Text must be fully in Persian/Arabic script.");
        s
    }
}

/// Once normalization of a prefix has failed, it fails with the same code point on
/// every longer prefix.
pub proof fn lemma_normalize_error_persists(s: Seq<char>, i: int, e: char)
    requires
        0 <= i <= s.len(),
        normalize(s.subrange(0, i)) == Err::<Seq<char>, char>(e),
    ensures
        normalize(s) == Err::<Seq<char>, char>(e),
    decreases s.len() - i,
{
    if i < s.len() {
        let p = s.subrange(0, i + 1);
        assert(p.drop_last() =~= s.subrange(0, i));
        lemma_normalize_error_persists(s, i + 1, e);
    } else {
        assert(s.subrange(0, i) =~= s);
    }
}

/// Normalizes one raw line into its Reconstructed form.
pub fn reconstruct_hemistich(hem: &[char]) -> (r: Result<Vec<char>, ReconstructionError>)
    ensures
        match r {
            Ok(v) => reconstruct(hem@) == Ok::<Seq<char>, char>(v@) && v@.len() <= hem@.len(),
            Err(e) => reconstruct(hem@) == Err::<Seq<char>, char>(e.ch),
        },
{
    let t = trim_chars(hem);
    let mut out: Vec<char> = Vec::new();
    let mut i: usize = 0;
    while i < t.len()
        invariant
            i <= t@.len(),
            t@ == trim(hem@),
            normalize(t@.subrange(0, i as int)) == Ok::<Seq<char>, char>(out@),
            out@.len() <= i,
            t@.len() <= hem@.len(),
        decreases t@.len() - i,
    {
        let c = t[i];
        assert(t@.subrange(0, i + 1).drop_last() =~= t@.subrange(0, i as int));
        match char_action_exec(c) {
            CharAction::Emit(d) => {
                out.push(d);
            },
            CharAction::Drop => {},
            CharAction::Reject => {
                proof {
                    lemma_normalize_error_persists(t@, i + 1, c);
                }
                return Err(ReconstructionError { ch: c });
            },
        }
        i = i + 1;
    }
    assert(t@.subrange(0, i as int) =~= t@);
    Ok(out)
}

/// A letter of the canonical alphabet, or a space: what normalization emits unchanged.
pub open spec fn canonical(c: char) -> bool {
    char_action(c) == CharAction::Emit(c)
}

/// Everything that normalization yields is canonical.
pub proof fn lemma_normalize_yields_canonical(s: Seq<char>)
    ensures
        normalize(s) is Ok ==> forall|i: int|
            0 <= i < normalize(s)->Ok_0.len() ==> #[trigger] canonical(normalize(s)->Ok_0[i]),
    decreases s.len(),
{
    if s.len() > 0 {
        lemma_normalize_yields_canonical(s.drop_last());
    }
}

/// Normalization is idempotent: normalizing what it yielded gives the same letters again.
pub proof fn lemma_normalize_idempotent(s: Seq<char>)
    requires
        normalize(s) is Ok,
    ensures
        normalize(normalize(s)->Ok_0) == normalize(s),
{
    lemma_normalize_yields_canonical(s);
    lemma_normalize_canonical_idempotent(normalize(s)->Ok_0);
}

/// Reconstructing a Reconstructed line gives it back, when it neither starts nor ends with a
/// space (a space there, from a zero-width non-joiner, would be trimmed).
pub proof fn lemma_reconstruct_idempotent(s: Seq<char>)
    requires
        reconstruct(s) is Ok,
        reconstruct(s)->Ok_0.len() > 0 ==> reconstruct(s)->Ok_0[0] != ' ' && reconstruct(
            s,
        )->Ok_0.last() != ' ',
    ensures
        reconstruct(reconstruct(s)->Ok_0) == reconstruct(s),
{
    let r = reconstruct(s)->Ok_0;
    lemma_normalize_yields_canonical(trim(s));
    if r.len() > 0 {
        assert(canonical(r[0]));
        assert(canonical(r[r.len() - 1]));
    }
    assert(trim_start(r) == r);
    assert(trim_end(r) == r);
    lemma_normalize_canonical_idempotent(r);
}

/// Normalization leaves a line of canonical letters and spaces as it is.
pub proof fn lemma_normalize_canonical_idempotent(s: Seq<char>)
    requires
        forall|i: int| 0 <= i < s.len() ==> #[trigger] canonical(s[i]),
    ensures
        normalize(s) == Ok::<Seq<char>, char>(s),
    decreases s.len(),
{
    if s.len() > 0 {
        let p = s.drop_last();
        assert forall|i: int| 0 <= i < p.len() implies #[trigger] canonical(p[i]) by {
            assert(p[i] == s[i]);
        }
        lemma_normalize_canonical_idempotent(p);
        assert(canonical(s[s.len() - 1]));
        assert(p.push(s.last()) =~= s);
    } else {
        assert(s =~= Seq::<char>::empty());
    }
}

} // verus!
