//! Verified text helpers: decimal formatting and substring searches used
//! by URL builders, log masking, and encoder option tables.

use vstd::prelude::*;
use vstd::string::StrSliceExecFns;
use vstd::string::StringExecFns;

verus! {

/// The decimal digit character for `d` (0 through 9).
pub open spec fn spec_dec_digit(d: int) -> char {
    if d == 0 {
        '0'
    } else if d == 1 {
        '1'
    } else if d == 2 {
        '2'
    } else if d == 3 {
        '3'
    } else if d == 4 {
        '4'
    } else if d == 5 {
        '5'
    } else if d == 6 {
        '6'
    } else if d == 7 {
        '7'
    } else if d == 8 {
        '8'
    } else {
        '9'
    }
}

/// Decimal digit string of a nonnegative `n`, most significant digit first.
pub open spec fn spec_decimal(n: int) -> Seq<char>
    decreases n,
{
    if n < 10 {
        seq![spec_dec_digit(n)]
    } else {
        spec_decimal(n / 10).push(spec_dec_digit(n % 10))
    }
}

/// One-character string for the decimal digit `d`.
fn dec_digit_str(d: u64) -> (r: &'static str)
    requires
        d < 10,
    ensures
        r@ =~= seq![spec_dec_digit(d as int)],
{
    let r: &'static str = match d {
        0 => "0",
        1 => "1",
        2 => "2",
        3 => "3",
        4 => "4",
        5 => "5",
        6 => "6",
        7 => "7",
        8 => "8",
        _ => "9",
    };
    proof {
        reveal_strlit("0");
        reveal_strlit("1");
        reveal_strlit("2");
        reveal_strlit("3");
        reveal_strlit("4");
        reveal_strlit("5");
        reveal_strlit("6");
        reveal_strlit("7");
        reveal_strlit("8");
        reveal_strlit("9");
    }
    r
}

/// Render `value` in decimal.
pub fn u64_to_string(value: u64) -> (s: String)
    ensures
        s@ =~= spec_decimal(value as int),
{
    let mut n: u64 = value;
    let mut acc: String = String::new();
    while n >= 10
        invariant
            spec_decimal(value as int) =~= spec_decimal(n as int) + acc@,
        decreases n,
    {
        let dstr: &'static str = dec_digit_str(n % 10);
        acc = String::from_str(dstr).concat(acc.as_str());
        n = n / 10;
    }
    let dstr: &'static str = dec_digit_str(n);
    String::from_str(dstr).concat(acc.as_str())
}

/// Decimal rendering of a signed value: a minus sign ahead of the digits
/// of its magnitude.
pub open spec fn spec_decimal_signed(n: int) -> Seq<char> {
    if n < 0 {
        seq!['-'] + spec_decimal(-n)
    } else {
        spec_decimal(n)
    }
}

/// Render `value` in decimal, with a leading minus sign when negative.
pub fn i64_to_string(value: i64) -> (s: String)
    ensures
        s@ =~= spec_decimal_signed(value as int),
{
    if value >= 0 {
        u64_to_string(value as u64)
    } else {
        // Negate around i64::MIN by moving into u64 first.
        let magnitude: u64 = if value == i64::MIN {
            9_223_372_036_854_775_808u64
        } else {
            (-value) as u64
        };
        proof {
            reveal_strlit("-");
        }
        String::from_str("-").concat(u64_to_string(magnitude).as_str())
    }
}

/// Whether `s` begins with `prefix`.
pub fn str_starts_with(s: &str, prefix: &str) -> (r: bool)
    ensures
        r == (prefix@.len() <= s@.len() && s@.subrange(0, prefix@.len() as int) == prefix@),
{
    let plen: usize = prefix.unicode_len();
    let slen: usize = s.unicode_len();
    if plen > slen {
        return false;
    }
    let mut i: usize = 0;
    while i < plen
        invariant
            0 <= i <= plen <= slen,
            plen == prefix@.len(),
            slen == s@.len(),
            forall|j: int| 0 <= j < i ==> s@[j] == prefix@[j],
        decreases plen - i,
    {
        if s.get_char(i) != prefix.get_char(i) {
            proof {
                assert(s@.subrange(0, plen as int)[i as int] != prefix@[i as int]);
            }
            return false;
        }
        i = i + 1;
    }
    proof {
        assert(s@.subrange(0, plen as int) =~= prefix@);
    }
    true
}

/// Whether `s` contains the character `c`.
pub fn contains_char(s: &str, c: char) -> (r: bool)
    ensures
        r == s@.contains(c),
{
    let len: usize = s.unicode_len();
    let mut i: usize = 0;
    while i < len
        invariant
            0 <= i <= len,
            len == s@.len(),
            forall|j: int| 0 <= j < i ==> s@[j] != c,
        decreases len - i,
    {
        if s.get_char(i) == c {
            return true;
        }
        i = i + 1;
    }
    false
}

/// Whether `sub` occurs inside `s` starting at position `at`.
pub open spec fn spec_match_at(s: Seq<char>, sub: Seq<char>, at: int) -> bool {
    0 <= at && at + sub.len() <= s.len() && s.subrange(at, at + sub.len()) == sub
}

/// Whether `sub` occurs anywhere inside `s`.
pub open spec fn spec_contains_sub(s: Seq<char>, sub: Seq<char>) -> bool {
    exists|at: int| spec_match_at(s, sub, at)
}

/// Whether `s` contains `sub` as a contiguous run of characters.
pub fn str_contains(s: &str, sub: &str) -> (r: bool)
    ensures
        r == spec_contains_sub(s@, sub@),
{
    let slen: usize = s.unicode_len();
    let sublen: usize = sub.unicode_len();
    if sublen > slen {
        return false;
    }
    if sublen == 0 {
        proof {
            assert(s@.subrange(0, 0) =~= sub@);
            assert(spec_match_at(s@, sub@, 0));
        }
        return true;
    }
    let mut at: usize = 0;
    while at <= slen - sublen
        invariant
            0 <= at <= slen - sublen + 1,
            1 <= sublen <= slen,
            slen == s@.len(),
            sublen == sub@.len(),
            forall|k: int| 0 <= k < at ==> !spec_match_at(s@, sub@, k),
        decreases slen - sublen - at + 1,
    {
        let mut i: usize = 0;
        let mut hit: bool = true;
        while i < sublen
            invariant
                0 <= i <= sublen,
                at + sublen <= slen,
                slen == s@.len(),
                sublen == sub@.len(),
                hit ==> forall|j: int| 0 <= j < i ==> s@[at + j] == sub@[j],
                !hit ==> !spec_match_at(s@, sub@, at as int),
            decreases sublen - i,
        {
            if s.get_char(at + i) != sub.get_char(i) {
                proof {
                    if spec_match_at(s@, sub@, at as int) {
                        assert(s@.subrange(at as int, at + sub@.len())[i as int] == sub@[i as int]);
                    }
                }
                hit = false;
                i = sublen;
            } else {
                i = i + 1;
            }
        }
        if hit {
            proof {
                assert(s@.subrange(at as int, at + sub@.len()) =~= sub@);
                assert(spec_match_at(s@, sub@, at as int));
            }
            return true;
        }
        at = at + 1;
    }
    proof {
        assert forall|k: int| spec_match_at(s@, sub@, k) implies false by {
            assert(0 <= k <= slen - sublen);
        }
    }
    false
}

/// Position of the last occurrence of `c` in `s`, if any.
pub fn rfind_char(s: &str, c: char) -> (r: Option<usize>)
    ensures
        match r {
            Some(i) => i < s@.len() && s@[i as int] == c
                && forall|j: int| i < j < s@.len() ==> s@[j] != c,
            None => forall|j: int| 0 <= j < s@.len() ==> s@[j] != c,
        },
{
    let len: usize = s.unicode_len();
    let mut i: usize = len;
    while i > 0
        invariant
            0 <= i <= len,
            len == s@.len(),
            forall|j: int| i <= j < len ==> s@[j] != c,
        decreases i,
    {
        i = i - 1;
        if s.get_char(i) == c {
            return Some(i);
        }
    }
    None
}

/// Whether `s` and `t` hold the same characters.
pub fn str_eq(s: &str, t: &str) -> (r: bool)
    ensures
        r == (s@ == t@),
{
    let slen: usize = s.unicode_len();
    let tlen: usize = t.unicode_len();
    if slen != tlen {
        return false;
    }
    let mut i: usize = 0;
    while i < slen
        invariant
            0 <= i <= slen,
            slen == s@.len(),
            slen == t@.len(),
            forall|j: int| 0 <= j < i ==> s@[j] == t@[j],
        decreases slen - i,
    {
        if s.get_char(i) != t.get_char(i) {
            return false;
        }
        i = i + 1;
    }
    proof {
        assert(s@ =~= t@);
    }
    true
}

/// Whether `s` ends with `suffix`.
pub fn str_ends_with(s: &str, suffix: &str) -> (r: bool)
    ensures
        r == (suffix@.len() <= s@.len() && s@.subrange(
            s@.len() - suffix@.len(),
            s@.len() as int,
        ) == suffix@),
{
    let slen: usize = s.unicode_len();
    let xlen: usize = suffix.unicode_len();
    if xlen > slen {
        return false;
    }
    let base: usize = slen - xlen;
    let mut i: usize = 0;
    while i < xlen
        invariant
            0 <= i <= xlen <= slen,
            base == slen - xlen,
            slen == s@.len(),
            xlen == suffix@.len(),
            forall|j: int| 0 <= j < i ==> s@[base + j] == suffix@[j],
        decreases xlen - i,
    {
        if s.get_char(base + i) != suffix.get_char(i) {
            proof {
                assert(s@.subrange(base as int, slen as int)[i as int] != suffix@[i as int]);
            }
            return false;
        }
        i = i + 1;
    }
    proof {
        assert(s@.subrange(base as int, slen as int) =~= suffix@);
    }
    true
}

} // verus!
