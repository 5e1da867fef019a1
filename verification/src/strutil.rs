//! String helpers shared by the encoder, the tracer and the logger: decimal
//! rendering of 64-bit values (OTLP carries timestamps as decimal strings)
//! and character-level predicates used in contracts.

use vstd::prelude::*;

verus! {

/// The decimal digit character for a value below ten.
pub open spec fn dec_digit(d: int) -> char {
    if d == 0 {
        '0'
    } else if d == 1 {
        '1'
    } else if d == 2 {
        '2'
    } else if d == 3 {
        '3'
    } else if d == 4 {
        '4'
    } else if d == 5 {
        '5'
    } else if d == 6 {
        '6'
    } else if d == 7 {
        '7'
    } else if d == 8 {
        '8'
    } else {
        '9'
    }
}

/// The decimal rendering of a natural number, most significant digit first,
/// with no leading zeros (zero itself renders as "0").
pub open spec fn dec_str(n: nat) -> Seq<char>
    decreases n,
{
    if n < 10 {
        seq![dec_digit(n as int)]
    } else {
        dec_str(n / 10).push(dec_digit((n % 10) as int))
    }
}

fn dec_digit_str(d: u64) -> (r: &'static str)
    requires
        d < 10,
    ensures
        r@ == seq![dec_digit(d as int)],
{
    proof {
        reveal_strlit("0");
        reveal_strlit("1");
        reveal_strlit("2");
        reveal_strlit("3");
        reveal_strlit("4");
        reveal_strlit("5");
        reveal_strlit("6");
        reveal_strlit("7");
        reveal_strlit("8");
        reveal_strlit("9");
    }
    let r = match d {
        0 => "0",
        1 => "1",
        2 => "2",
        3 => "3",
        4 => "4",
        5 => "5",
        6 => "6",
        7 => "7",
        8 => "8",
        _ => "9",
    };
    proof {
        assert(r@ =~= seq![dec_digit(d as int)]);
    }
    r
}

/// Renders a 64-bit value in decimal, as OTLP requires for timestamps.
pub fn u64_to_dec(n: u64) -> (r: String)
    ensures
        r@ == dec_str(n as nat),
    decreases n,
{
    if n < 10 {
        dec_digit_str(n).to_owned()
    } else {
        proof {
            assert(n / 10 < n) by (nonlinear_arith)
                requires
                    n >= 10,
            ;
        }
        let mut s = u64_to_dec(n / 10);
        s.append(dec_digit_str(n % 10));
        s
    }
}

/// One sequence is a prefix of another.
pub open spec fn spec_is_prefix(p: Seq<char>, t: Seq<char>) -> bool {
    p.len() <= t.len() && t.subrange(0, p.len() as int) == p
}

/// Whether `t` begins with `p`.
pub fn starts_with_str(t: &str, p: &str) -> (r: bool)
    ensures
        r == spec_is_prefix(p@, t@),
{
    let pn = p.unicode_len();
    let tn = t.unicode_len();
    if pn > tn {
        proof {
            assert(!spec_is_prefix(p@, t@));
        }
        return false;
    }
    let mut i: usize = 0;
    while i < pn
        invariant
            i <= pn <= tn,
            pn == p@.len(),
            tn == t@.len(),
            forall|j: int| 0 <= j < i ==> p@[j] == t@[j],
        decreases pn - i,
    {
        if p.get_char(i) != t.get_char(i) {
            proof {
                assert(t@.subrange(0, p@.len() as int)[i as int] != p@[i as int]);
            }
            return false;
        }
        i = i + 1;
    }
    proof {
        assert(t@.subrange(0, p@.len() as int) =~= p@);
    }
    true
}

/// The index of the first occurrence of `c` in `s`, or the length of `s`
/// where it does not occur.
pub open spec fn find_ch(s: Seq<char>, c: char) -> int
    decreases s.len(),
{
    if s.len() == 0 {
        0
    } else if s[0] == c {
        0
    } else {
        1 + find_ch(s.drop_first(), c)
    }
}

/// What the index returned by `find_ch` satisfies.
pub proof fn lemma_find_ch(s: Seq<char>, c: char)
    ensures
        0 <= find_ch(s, c) <= s.len(),
        forall|j: int| 0 <= j < find_ch(s, c) ==> s[j] != c,
        find_ch(s, c) < s.len() ==> s[find_ch(s, c)] == c,
    decreases s.len(),
{
    if s.len() > 0 && s[0] != c {
        lemma_find_ch(s.drop_first(), c);
        assert forall|j: int| 0 <= j < find_ch(s, c) implies s[j] != c by {
            if j > 0 {
                assert(s.drop_first()[j - 1] != c);
            }
        }
    }
}

/// The position of the first occurrence of `c`, as `find_ch` gives it.
pub fn find_char(s: &str, c: char) -> (r: usize)
    ensures
        r == find_ch(s@, c),
{
    proof {
        lemma_find_ch(s@, c);
    }
    let n = s.unicode_len();
    let mut i: usize = 0;
    while i < n
        invariant
            i <= n,
            n == s@.len(),
            forall|j: int| 0 <= j < i ==> s@[j] != c,
        decreases n - i,
    {
        if s.get_char(i) == c {
            proof {
                lemma_find_ch_at(s@, c, i as int);
            }
            return i;
        }
        i = i + 1;
    }
    proof {
        lemma_find_ch_at(s@, c, n as int);
    }
    n
}

/// An index before which `c` never occurs, and at which it occurs or the
/// sequence ends, is exactly `find_ch`.
proof fn lemma_find_ch_at(s: Seq<char>, c: char, i: int)
    requires
        0 <= i <= s.len(),
        forall|j: int| 0 <= j < i ==> s[j] != c,
        i < s.len() ==> s[i] == c,
    ensures
        find_ch(s, c) == i,
    decreases s.len(),
{
    if s.len() > 0 && s[0] != c {
        assert forall|j: int| 0 <= j < i - 1 implies s.drop_first()[j] != c by {
            assert(s[j + 1] != c);
        }
        lemma_find_ch_at(s.drop_first(), c, i - 1);
    }
}

/// An ASCII whitespace character, as trimming removes it.
pub open spec fn is_space(c: char) -> bool {
    c == ' ' || c == '\t' || c == '\n' || c == '\r'
}

/// The sequence with leading and trailing ASCII whitespace removed.
pub open spec fn spec_trim(s: Seq<char>) -> Seq<char>
    decreases s.len(),
{
    if s.len() > 0 && is_space(s[0]) {
        spec_trim(s.drop_first())
    } else if s.len() > 0 && is_space(s.last()) {
        spec_trim(s.drop_last())
    } else {
        s
    }
}

fn is_space_char(c: char) -> (r: bool)
    ensures
        r == is_space(c),
{
    c == ' ' || c == '\t' || c == '\n' || c == '\r'
}

/// A copy of `s` with leading and trailing ASCII whitespace removed.
pub fn trim_str(s: &str) -> (r: String)
    ensures
        r@ == spec_trim(s@),
    decreases s@.len(),
{
    let n = s.unicode_len();
    if n > 0 && is_space_char(s.get_char(0)) {
        let rest = s.substring_char(1, n);
        proof {
            assert(rest@ =~= s@.drop_first());
        }
        trim_str(rest)
    } else if n > 0 && is_space_char(s.get_char(n - 1)) {
        let rest = s.substring_char(0, n - 1);
        proof {
            assert(rest@ =~= s@.drop_last());
        }
        trim_str(rest)
    } else {
        s.to_owned()
    }
}

/// Case-insensitive equality of one character against an expected
/// lowercase character: equal outright, or the uppercase form of it.
pub open spec fn char_ieq(a: char, b: char) -> bool {
    a == b || ('a' <= b && b <= 'z' && a as int + 32 == b as int)
}

/// Case-insensitive equality against an expected lowercase word.
pub open spec fn spec_ieq(s: Seq<char>, t: Seq<char>) -> bool {
    s.len() == t.len() && forall|i: int| 0 <= i < s.len() ==> char_ieq(s[i], #[trigger] t[i])
}

/// Whether `s` equals the expected lowercase word `t`, ignoring ASCII case
/// in `s`.
pub fn str_ieq(s: &str, t: &str) -> (r: bool)
    ensures
        r == spec_ieq(s@, t@),
{
    let sn = s.unicode_len();
    let tn = t.unicode_len();
    if sn != tn {
        return false;
    }
    let mut i: usize = 0;
    while i < sn
        invariant
            i <= sn,
            sn == s@.len(),
            sn == t@.len(),
            forall|j: int| 0 <= j < i ==> char_ieq(s@[j], #[trigger] t@[j]),
        decreases sn - i,
    {
        let a = s.get_char(i);
        let b = t.get_char(i);
        let same = if a == b {
            true
        } else {
            b >= 'a' && b <= 'z' && (a as u32) + 32 == (b as u32)
        };
        if !same {
            return false;
        }
        i = i + 1;
    }
    true
}

} // verus!
