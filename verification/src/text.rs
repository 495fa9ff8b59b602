//! Verified text primitives: character search, string comparison, prefix
//! tests, and decimal conversion, shared by the URL and bulletin-board
//! parsers.

use vstd::prelude::*;
use vstd::string::StrSliceExecFns;

verus! {

/// The first index at or after `from` where `s` holds `c`, or -1 when there
/// is none.
pub open spec fn spec_find_char(s: Seq<char>, c: char, from: int) -> int
    decreases s.len() - from when from <= s.len()
{
    if from >= s.len() {
        -1
    } else if s[from] == c {
        from
    } else {
        spec_find_char(s, c, from + 1)
    }
}

/// Find the first occurrence of `c` in `s` at or after index `from`
/// (an index in characters, not bytes).
pub fn find_char(s: &str, c: char, from: usize) -> (r: Option<usize>)
    requires
        from <= s@.len(),
    ensures
        r is Some ==> r.unwrap() as int == spec_find_char(s@, c, from as int),
        r is Some ==> from <= r.unwrap() < s@.len() && s@[r.unwrap() as int] == c,
        r is None ==> spec_find_char(s@, c, from as int) == -1,
{
    let n: usize = s.unicode_len();
    let mut i: usize = from;
    while i < n
        invariant
            from <= i <= n,
            n == s@.len(),
            spec_find_char(s@, c, from as int) == spec_find_char(s@, c, i as int),
        decreases n - i,
    {
        if s.get_char(i) == c {
            return Some(i);
        }
        i += 1;
    }
    None
}

/// Whether two strings hold the same characters.
pub fn str_eq(a: &str, b: &str) -> (r: bool)
    ensures
        r == (a@ == b@),
{
    let na: usize = a.unicode_len();
    let nb: usize = b.unicode_len();
    if na != nb {
        return false;
    }
    let mut i: usize = 0;
    while i < na
        invariant
            0 <= i <= na,
            na == a@.len(),
            na == b@.len(),
            forall|j: int| 0 <= j < i ==> a@[j] == b@[j],
        decreases na - i,
    {
        if a.get_char(i) != b.get_char(i) {
            return false;
        }
        i += 1;
    }
    proof {
        assert(a@ =~= b@);
    }
    true
}

/// Whether `p` is a prefix of `s`.
pub open spec fn spec_starts_with(s: Seq<char>, p: Seq<char>) -> bool {
    s.len() >= p.len() && s.subrange(0, p.len() as int) == p
}

/// Whether `s` starts with the characters of `prefix`.
pub fn str_starts_with(s: &str, prefix: &str) -> (r: bool)
    ensures
        r == spec_starts_with(s@, prefix@),
{
    let n: usize = s.unicode_len();
    let np: usize = prefix.unicode_len();
    if n < np {
        return false;
    }
    let mut i: usize = 0;
    while i < np
        invariant
            0 <= i <= np,
            n == s@.len(),
            np == prefix@.len(),
            np <= n,
            forall|j: int| 0 <= j < i ==> s@[j] == prefix@[j],
        decreases np - i,
    {
        if s.get_char(i) != prefix.get_char(i) {
            proof {
                assert(s@.subrange(0, prefix@.len() as int)[i as int] != prefix@[i as int]);
            }
            return false;
        }
        i += 1;
    }
    proof {
        assert(s@.subrange(0, prefix@.len() as int) =~= prefix@);
    }
    true
}

/// Whether `c` is a decimal digit.
pub open spec fn is_ascii_digit(c: char) -> bool {
    48 <= c as int && c as int <= 57
}

/// The numeric value of a decimal digit.
pub open spec fn digit_val(c: char) -> int {
    c as int - 48
}

/// Whether every character of `s` is a decimal digit.
pub open spec fn all_digits(s: Seq<char>) -> bool {
    forall|i: int| 0 <= i < s.len() ==> is_ascii_digit(#[trigger] s[i])
}

/// The number a sequence of decimal digits denotes.
pub open spec fn digits_value(s: Seq<char>) -> int
    decreases s.len(),
{
    if s.len() == 0 {
        0
    } else {
        digits_value(s.drop_last()) * 10 + digit_val(s.last())
    }
}

/// The digit part of a decimal number string: the whole string, or the rest
/// after a single leading plus sign.
pub open spec fn u64_digits_part(s: Seq<char>) -> Seq<char> {
    if s.len() > 0 && s[0] == '+' {
        s.subrange(1, s.len() as int)
    } else {
        s
    }
}

/// Whether `s` is a decimal (optionally plus-signed) numeral whose value
/// fits in a `u64` — exactly the strings `u64`'s decimal parser accepts.
pub open spec fn is_valid_u64_str(s: Seq<char>) -> bool {
    let d = u64_digits_part(s);
    d.len() > 0 && all_digits(d) && digits_value(d) <= u64::MAX
}

/// A digit string denotes a non-negative number.
pub proof fn lemma_digits_nonneg(s: Seq<char>)
    requires
        all_digits(s),
    ensures
        digits_value(s) >= 0,
    decreases s.len(),
{
    if s.len() > 0 {
        assert(all_digits(s.drop_last())) by {
            assert(forall|i: int| 0 <= i < s.len() - 1 ==> s.drop_last()[i] == s[i]);
        }
        lemma_digits_nonneg(s.drop_last());
    }
}

/// A digit string denotes at least as much as any of its prefixes.
pub proof fn lemma_digits_prefix_le(s: Seq<char>, k: int)
    requires
        all_digits(s),
        0 <= k <= s.len(),
    ensures
        digits_value(s.subrange(0, k)) <= digits_value(s),
    decreases s.len() - k,
{
    if k == s.len() {
        assert(s.subrange(0, k) =~= s);
    } else {
        lemma_digits_prefix_le(s, k + 1);
        let p = s.subrange(0, k + 1);
        assert(p.drop_last() =~= s.subrange(0, k));
        assert(all_digits(s.subrange(0, k))) by {
            assert(forall|i: int| 0 <= i < k ==> s.subrange(0, k)[i] == s[i]);
        }
        lemma_digits_nonneg(s.subrange(0, k));
        assert(digits_value(p) == digits_value(s.subrange(0, k)) * 10 + digit_val(s[k]));
    }
}

/// Parse a decimal `u64`, accepting exactly what `u64`'s own decimal parser
/// accepts: an optional leading plus sign, then one or more digits, denoting
/// a value that fits.
pub fn parse_u64(s: &str) -> (r: Option<u64>)
    ensures
        r is Some <==> is_valid_u64_str(s@),
        r is Some ==> r.unwrap() as int == digits_value(u64_digits_part(s@)),
{
    let n: usize = s.unicode_len();
    if n == 0 {
        return None;
    }
    let start: usize = if s.get_char(0) == '+' {
        1
    } else {
        0
    };
    if n == start {
        return None;
    }
    let ghost d = u64_digits_part(s@);
    proof {
        assert(d.len() == n - start);
        assert(forall|j: int| 0 <= j < d.len() ==> d[j] == s@[start + j]);
    }
    let mut i: usize = start;
    let mut val: u64 = 0;
    while i < n
        invariant
            start <= i <= n,
            n == s@.len(),
            d == u64_digits_part(s@),
            d.len() == n - start,
            forall|j: int| 0 <= j < d.len() ==> d[j] == s@[start + j],
            all_digits(d.subrange(0, i - start)),
            val as int == digits_value(d.subrange(0, i - start)),
        decreases n - i,
    {
        let c: char = s.get_char(i);
        let code: u32 = c as u32;
        if code < 48 || code > 57 {
            proof {
                assert(d[i - start] == c);
                assert(!is_ascii_digit(c));
            }
            return None;
        }
        let dv: u64 = (code - 48) as u64;
        let ghost prev = d.subrange(0, i - start);
        let ghost cur = d.subrange(0, i + 1 - start);
        proof {
            assert(cur.drop_last() =~= prev);
            assert(cur.last() == d[i - start]);
            assert(digits_value(cur) == digits_value(prev) * 10 + digit_val(c));
            assert(all_digits(cur));
        }
        if val > (u64::MAX - dv) / 10 {
            proof {
                assert(digits_value(cur) > u64::MAX);
                if all_digits(d) {
                    lemma_digits_prefix_le(d, i + 1 - start);
                }
            }
            return None;
        }
        val = val * 10 + dv;
        i += 1;
    }
    proof {
        assert(d.subrange(0, (n - start) as int) =~= d);
    }
    Some(val)
}

/// The character of a decimal digit value.
pub open spec fn digit_char(d: int) -> char {
    ((48 + d) as u8) as char
}

/// The decimal numeral of a non-negative number.
pub open spec fn dec_digits(n: int) -> Seq<char>
    decreases n when n >= 0
{
    if n < 10 {
        seq![digit_char(n)]
    } else {
        dec_digits(n / 10).push(digit_char(n % 10))
    }
}

/// The string of one decimal digit.
fn digit_str(d: u64) -> (r: &'static str)
    requires
        d < 10,
    ensures
        r@ == seq![digit_char(d as int)],
{
    let r: &'static str = match d {
        0 => "0",
        1 => "1",
        2 => "2",
        3 => "3",
        4 => "4",
        5 => "5",
        6 => "6",
        7 => "7",
        8 => "8",
        _ => "9",
    };
    proof {
        reveal_strlit("0");
        reveal_strlit("1");
        reveal_strlit("2");
        reveal_strlit("3");
        reveal_strlit("4");
        reveal_strlit("5");
        reveal_strlit("6");
        reveal_strlit("7");
        reveal_strlit("8");
        reveal_strlit("9");
        assert(r@ =~= seq![digit_char(d as int)]);
    }
    r
}

/// Format a number as its decimal numeral.
pub fn u64_to_string(n: u64) -> (r: String)
    ensures
        r@ == dec_digits(n as int),
    decreases n,
{
    if n < 10 {
        digit_str(n).to_owned()
    } else {
        let front: String = u64_to_string(n / 10);
        let r = front.concat(digit_str(n % 10));
        proof {
            assert(r@ =~= dec_digits(n as int));
        }
        r
    }
}

} // verus!
