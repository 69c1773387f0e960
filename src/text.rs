//! Character-level string operations with exact contracts.

use vstd::prelude::*;

verus! {

/// `s` with every trailing `c` removed.
pub open spec fn trim_end_spec(s: Seq<char>, c: char) -> Seq<char>
    decreases s.len(),
{
    if s.len() > 0 && s.last() == c { trim_end_spec(s.drop_last(), c) } else { s }
}

/// `s` with every leading `c` removed.
pub open spec fn trim_start_spec(s: Seq<char>, c: char) -> Seq<char>
    decreases s.len(),
{
    if s.len() > 0 && s[0] == c { trim_start_spec(s.drop_first(), c) } else { s }
}

/// Whether `s` and `t` hold the same characters.
pub fn text_eq(s: &str, t: &str) -> (r: bool)
    ensures
        r == (s@ == t@),
{
    let n = s.unicode_len();
    if n != t.unicode_len() {
        return false;
    }
    let mut i: usize = 0;
    while i < n
        invariant
            n == s@.len(),
            n == t@.len(),
            i <= n,
            s@.subrange(0, i as int) == t@.subrange(0, i as int),
        decreases n - i,
    {
        if s.get_char(i) != t.get_char(i) {
            assert(s@[i as int] != t@[i as int]);
            return false;
        }
        assert(s@.subrange(0, i + 1) =~= s@.subrange(0, i as int).push(s@[i as int]));
        assert(t@.subrange(0, i + 1) =~= t@.subrange(0, i as int).push(t@[i as int]));
        i = i + 1;
    }
    assert(s@ =~= s@.subrange(0, n as int));
    assert(t@ =~= t@.subrange(0, n as int));
    true
}

/// Whether `prefix` is a prefix of `s`.
pub fn text_starts_with(s: &str, prefix: &str) -> (r: bool)
    ensures
        r == prefix@.is_prefix_of(s@),
{
    let n = prefix.unicode_len();
    let m = s.unicode_len();
    if n > m {
        return false;
    }
    let head = s.substring_char(0, n);
    let r = text_eq(head, prefix);
    assert(r == (s@.subrange(0, n as int) == prefix@));
    r
}

/// The number of characters of `s` left once every trailing `c` is removed.
pub fn trim_end_len(s: &str, c: char) -> (r: usize)
    ensures
        r <= s@.len(),
        trim_end_spec(s@, c) == s@.subrange(0, r as int),
{
    let mut k = s.unicode_len();
    assert(s@.subrange(0, k as int) =~= s@);
    while k > 0 && s.get_char(k - 1) == c
        invariant
            k <= s@.len(),
            trim_end_spec(s@, c) == trim_end_spec(s@.subrange(0, k as int), c),
        decreases k,
    {
        assert(s@.subrange(0, k as int).drop_last() =~= s@.subrange(0, k - 1));
        k = k - 1;
    }
    k
}

/// The index of the first character of `s` that is not `c`, or its length.
pub fn trim_start_len(s: &str, c: char) -> (r: usize)
    ensures
        r <= s@.len(),
        trim_start_spec(s@, c) == s@.subrange(r as int, s@.len() as int),
{
    let n = s.unicode_len();
    let mut k: usize = 0;
    assert(s@.subrange(0, n as int) =~= s@);
    while k < n && s.get_char(k) == c
        invariant
            n == s@.len(),
            k <= n,
            trim_start_spec(s@, c) == trim_start_spec(s@.subrange(k as int, n as int), c),
        decreases n - k,
    {
        assert(s@.subrange(k as int, n as int).drop_first() =~= s@.subrange(k + 1, n as int));
        k = k + 1;
    }
    k
}

/// The decimal digits of `n`, most significant first, without leading zeros.
pub open spec fn decimal(n: nat) -> Seq<char>
    decreases n,
{
    if n < 10 {
        seq![digit_char((n % 10) as nat)]
    } else {
        decimal(n / 10).push(digit_char((n % 10) as nat))
    }
}

/// The character of a digit below ten.
pub open spec fn digit_char(d: nat) -> char {
    if d == 0 { '0' }
    else if d == 1 { '1' }
    else if d == 2 { '2' }
    else if d == 3 { '3' }
    else if d == 4 { '4' }
    else if d == 5 { '5' }
    else if d == 6 { '6' }
    else if d == 7 { '7' }
    else if d == 8 { '8' }
    else { '9' }
}

fn digit_str(d: u64) -> (r: &'static str)
    requires
        d < 10,
    ensures
        r@ == seq![digit_char(d as nat)],
{
    proof {
        reveal_strlit("0");
        reveal_strlit("1");
        reveal_strlit("2");
        reveal_strlit("3");
        reveal_strlit("4");
        reveal_strlit("5");
        reveal_strlit("6");
        reveal_strlit("7");
        reveal_strlit("8");
        reveal_strlit("9");
    }
    if d == 0 { "0" }
    else if d == 1 { "1" }
    else if d == 2 { "2" }
    else if d == 3 { "3" }
    else if d == 4 { "4" }
    else if d == 5 { "5" }
    else if d == 6 { "6" }
    else if d == 7 { "7" }
    else if d == 8 { "8" }
    else { "9" }
}

/// Appends the decimal digits of `n` to `out`.
pub fn push_decimal(out: &mut String, n: u64)
    ensures
        final(out)@ == old(out)@ + decimal(n as nat),
    decreases n,
{
    if n >= 10 {
        push_decimal(out, n / 10);
    }
    out.append(digit_str(n % 10));
    assert(out@ =~= old(out)@ + decimal(n as nat));
}

} // verus!
