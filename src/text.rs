use vstd::prelude::*;

verus! {

broadcast use vstd::string::axiom_spec_iter;

/// The characters of `s`, one by one.
pub fn chars_of(s: &str) -> (r: Vec<char>)
    ensures
        r@ == s@,
{
    let mut out: Vec<char> = Vec::new();
    for c in it: s.chars()
        invariant
            it.seq() == s@,
            out@ == s@.subrange(0, it.index() as int),
    {
        out.push(c);
        assert(out@ =~= s@.subrange(0, it.index() + 1));
    }
    assert(s@ =~= s@.subrange(0, s@.len() as int));
    out
}

/// Whether the characters in `c` spell exactly `s`.
pub fn equals_str(c: &Vec<char>, s: &str) -> (r: bool)
    ensures
        r == (c@ == s@),
{
    let t = chars_of(s);
    if c.len() != t.len() {
        return false;
    }
    let mut i: usize = 0;
    while i < c.len()
        invariant
            c@.len() == t@.len(),
            t@ == s@,
            0 <= i <= c@.len(),
            c@.subrange(0, i as int) == t@.subrange(0, i as int),
        decreases c@.len() - i,
    {
        if c[i] != t[i] {
            assert(c@[i as int] != t@[i as int]);
            return false;
        }
        assert(c@.subrange(0, i + 1) =~= c@.subrange(0, i as int).push(c@[i as int]));
        assert(t@.subrange(0, i + 1) =~= t@.subrange(0, i as int).push(t@[i as int]));
        i += 1;
    }
    assert(c@ =~= c@.subrange(0, c@.len() as int));
    assert(t@ =~= t@.subrange(0, t@.len() as int));
    true
}

/// Relies on `String::push`: appends one character.
#[verifier::external_body]
pub(crate) fn push_char(s: &mut String, c: char)
    ensures
        final(s)@ == old(s)@.push(c),
{
    s.push(c)
}

/// Whether `c` is an ASCII decimal digit.
pub open spec fn is_digit(c: char) -> bool {
    '0' <= c && c <= '9'
}

/// The digit character for `d < 10`.
pub open spec fn digit_char(d: nat) -> char {
    (d + 48) as char
}

/// Decimal notation of `n`, without leading zeros.
pub open spec fn decimal(n: nat) -> Seq<char>
    decreases n,
{
    if n < 10 {
        seq![digit_char(n)]
    } else {
        decimal(n / 10).push(digit_char(n % 10))
    }
}

/// The number that a string of decimal digits denotes.
pub open spec fn digits_value(s: Seq<char>) -> nat
    decreases s.len(),
{
    if s.len() == 0 {
        0
    } else {
        digits_value(s.drop_last()) * 10 + ((s.last() as nat) - 48) as nat
    }
}

/// Decimal notation is made of digits and reads back as the number written.
pub proof fn lemma_decimal(n: nat)
    ensures
        decimal(n).len() >= 1,
        forall|i: int| 0 <= i < decimal(n).len() ==> is_digit(#[trigger] decimal(n)[i]),
        digits_value(decimal(n)) == n,
    decreases n,
{
    assert((digit_char(n % 10) as nat) == n % 10 + 48);
    let d = decimal(n);
    if n >= 10 {
        lemma_decimal(n / 10);
        assert(d.drop_last() =~= decimal(n / 10));
        assert(d.last() == digit_char(n % 10));
        assert(n == (n / 10) * 10 + n % 10);
        assert(digits_value(d) == digits_value(decimal(n / 10)) * 10 + n % 10);
    } else {
        assert(d.drop_last() =~= Seq::<char>::empty());
        assert(digits_value(d.drop_last()) == 0);
        assert(d.last() == digit_char(n));
    }
}

/// A prefix of a string of digits never denotes more than the whole.
pub proof fn lemma_digits_prefix_le(s: Seq<char>, k: int)
    requires
        0 <= k <= s.len(),
        forall|i: int| 0 <= i < s.len() ==> is_digit(#[trigger] s[i]),
    ensures
        digits_value(s.subrange(0, k)) <= digits_value(s),
    decreases s.len(),
{
    if k < s.len() {
        let t = s.drop_last();
        assert(t.subrange(0, k) =~= s.subrange(0, k));
        lemma_digits_prefix_le(t, k);
    } else {
        assert(s.subrange(0, k) =~= s);
    }
}

/// Appends the decimal notation of `n`.
pub fn push_decimal(out: &mut String, n: u128)
    ensures
        final(out)@ == old(out)@ + decimal(n as nat),
    decreases n,
{
    if n >= 10 {
        push_decimal(out, n / 10);
    }
    let d: u8 = (n % 10) as u8;
    let c: char = (d + 48u8) as char;
    assert(c == digit_char((n % 10) as nat));
    push_char(out, c);
    assert(final(out)@ =~= old(out)@ + decimal(n as nat));
}

/// Whether `t` holds `lit` from position `pos` on.
pub fn starts_at(t: &Vec<char>, pos: usize, lit: &str) -> (r: bool)
    ensures
        r == (pos + lit@.len() <= t@.len() && t@.subrange(pos as int, pos + lit@.len()) == lit@),
{
    let l = chars_of(lit);
    if pos > t.len() || l.len() > t.len() - pos {
        return false;
    }
    let n = t.len();
    let mut i: usize = 0;
    while i < l.len()
        invariant
            n == t@.len(),
            l@ == lit@,
            pos + l@.len() <= t@.len(),
            0 <= i <= l@.len(),
            pos + l@.len() <= t@.len(),
            forall|j: int| 0 <= j < i ==> t@[pos + j] == l@[j],
        decreases l@.len() - i,
    {
        assert(pos + i < t@.len());
        if t[pos + i] != l[i] {
            assert(t@.subrange(pos as int, pos + lit@.len())[i as int] != lit@[i as int]);
            return false;
        }
        i += 1;
    }
    assert(t@.subrange(pos as int, pos + lit@.len()) =~= lit@);
    true
}

/// The first position at or after `pos` that holds `stop`, or the length.
pub fn find_char(t: &Vec<char>, pos: usize, stop: char) -> (e: usize)
    requires
        pos <= t@.len(),
    ensures
        pos <= e <= t@.len(),
        forall|i: int| pos <= i < e ==> t@[i] != stop,
        e < t@.len() ==> t@[e as int] == stop,
{
    let mut e = pos;
    while e < t.len() && t[e] != stop
        invariant
            pos <= e <= t@.len(),
            forall|i: int| pos <= i < e ==> t@[i] != stop,
        decreases t@.len() - e,
    {
        e += 1;
    }
    e
}

/// The end of the run of digits that starts at `pos`.
pub fn digit_run_end(t: &Vec<char>, pos: usize) -> (e: usize)
    requires
        pos <= t@.len(),
    ensures
        pos <= e <= t@.len(),
        forall|i: int| pos <= i < e ==> is_digit(#[trigger] t@[i]),
        e < t@.len() ==> !is_digit(t@[e as int]),
{
    let mut e = pos;
    while e < t.len() && '0' <= t[e] && t[e] <= '9'
        invariant
            pos <= e <= t@.len(),
            forall|i: int| pos <= i < e ==> is_digit(#[trigger] t@[i]),
        decreases t@.len() - e,
    {
        e += 1;
    }
    e
}

/// The number written by the digits in `t[pos..e]`, if it fits in `u128`.
pub fn read_digits(t: &Vec<char>, pos: usize, e: usize) -> (r: Option<u128>)
    requires
        pos <= e <= t@.len(),
        forall|i: int| pos <= i < e ==> is_digit(#[trigger] t@[i]),
    ensures
        digits_value(t@.subrange(pos as int, e as int)) <= u128::MAX ==> r == Some(
            digits_value(t@.subrange(pos as int, e as int)) as u128,
        ),
        digits_value(t@.subrange(pos as int, e as int)) > u128::MAX ==> r is None,
{
    let ghost run = t@.subrange(pos as int, e as int);
    let mut acc: u128 = 0;
    let mut i = pos;
    while i < e
        invariant
            pos <= i <= e <= t@.len(),
            run == t@.subrange(pos as int, e as int),
            forall|j: int| pos <= j < e ==> is_digit(#[trigger] t@[j]),
            acc == digits_value(t@.subrange(pos as int, i as int)),
        decreases e - i,
    {
        let d: u128 = ((t[i] as u32) - 48) as u128;
        proof {
            let s = t@.subrange(pos as int, i + 1);
            assert(s.drop_last() =~= t@.subrange(pos as int, i as int));
            assert(run.subrange(0, i + 1 - pos) =~= s);
            assert forall|j: int| 0 <= j < run.len() implies is_digit(#[trigger] run[j]) by {
                assert(run[j] == t@[pos + j]);
            }
            lemma_digits_prefix_le(run, i + 1 - pos);
        }
        if acc > (u128::MAX - d) / 10 {
            return None;
        }
        acc = acc * 10 + d;
        i += 1;
    }
    Some(acc)
}

/// Two character sequences are equal.
pub fn same_chars(a: &Vec<char>, b: &Vec<char>) -> (r: bool)
    ensures
        r == (a@ == b@),
{
    if a.len() != b.len() {
        return false;
    }
    let mut i: usize = 0;
    while i < a.len()
        invariant
            a@.len() == b@.len(),
            0 <= i <= a@.len(),
            forall|j: int| 0 <= j < i ==> a@[j] == b@[j],
        decreases a@.len() - i,
    {
        if a[i] != b[i] {
            return false;
        }
        i += 1;
    }
    assert(a@ =~= b@);
    true
}

} // verus!
