//! Character set and title of a fetched page head.
//!
//! The first kilobyte of a thread's page is scanned for a `charset=`
//! declaration; the page is decoded in that character set (or as UTF-8,
//! lossily, when none is declared or the label is unknown), and the decoded
//! text is scanned for its title element, matched without regard to ASCII
//! case and confined to one line.
//!
//! The charset scan works on raw bytes: the unquoted form runs to the next
//! semicolon or double quote whatever bytes lie between (line breaks and
//! ill-formed sequences included), and the quoted form runs to the last
//! double quote of the buffer. A label holding such bytes does not name a
//! known encoding, so the decoding falls back to UTF-8 either way.

use vstd::prelude::*;
use vstd::slice::slice_subrange;
use vstd::string::StrSliceExecFns;
use vstd::string::StringExecFns;

verus! {

/// The bytes of the `charset=` marker.
pub open spec fn charset_needle() -> Seq<u8> {
    seq![99u8, 104u8, 97u8, 114u8, 115u8, 101u8, 116u8, 61u8]
}

/// Whether the bytes of `n` occur in `h` at position `i`.
pub open spec fn bytes_match_at(h: Seq<u8>, n: Seq<u8>, i: int) -> bool {
    0 <= i && i + n.len() <= h.len() && forall|j: int| 0 <= j < n.len() ==> h[i + j] == n[j]
}

/// The end of the unquoted charset value starting at `from`: the first index
/// holding a semicolon or double quote, or the end of `h`.
pub open spec fn spec_run_end(h: Seq<u8>, from: int) -> int
    decreases h.len() - from when from <= h.len()
{
    if from >= h.len() {
        h.len() as int
    } else if h[from] == 59 || h[from] == 34 {
        from
    } else {
        spec_run_end(h, from + 1)
    }
}

/// The last index beyond `after` holding a double quote, or -1.
pub open spec fn spec_last_quote_after(h: Seq<u8>, after: int) -> int
    decreases h.len(),
{
    if h.len() == 0 {
        -1
    } else if h[h.len() - 1] == 34 && h.len() - 1 > after {
        h.len() - 1
    } else {
        spec_last_quote_after(h.drop_last(), after)
    }
}

/// The declared character-set label in `h` at or after `from`, as the range
/// of its bytes: after the first `charset=` marker, either an unquoted run
/// (not starting with a semicolon or quote, running to the next one), or a
/// double-quoted span of at least one byte (running to the last quote).
/// Where the marker is followed by neither form, the scan goes on behind it.
pub open spec fn spec_charset_capture(h: Seq<u8>, from: int) -> Option<(int, int)>
    decreases h.len() - from when 0 <= from <= h.len()
{
    if from + 8 > h.len() {
        None
    } else if bytes_match_at(h, charset_needle(), from) {
        let a = from + 8;
        if a < h.len() && h[a] != 59 && h[a] != 34 {
            Some((a, spec_run_end(h, a)))
        } else {
            let q = spec_last_quote_after(h, a);
            if a < h.len() && h[a] == 34 && q >= a + 2 {
                Some((a + 1, q))
            } else {
                spec_charset_capture(h, from + 1)
            }
        }
    } else {
        spec_charset_capture(h, from + 1)
    }
}

/// A character with an ASCII capital folded to its small form.
pub open spec fn spec_lower_char(c: char) -> char {
    if 65 <= c as int && c as int <= 90 {
        ((c as int + 32) as u8) as char
    } else {
        c
    }
}

/// Whether `pat` occurs in `s` at position `i`, without regard to ASCII
/// case.
pub open spec fn ci_match_at(s: Seq<char>, pat: Seq<char>, i: int) -> bool {
    0 <= i && i + pat.len() <= s.len() && forall|j: int|
        0 <= j < pat.len() ==> spec_lower_char(s[i + j]) == spec_lower_char(pat[j])
}

/// The first position at or after `from` where `pat` occurs in `s` without
/// regard to ASCII case, or -1.
pub open spec fn spec_find_ci(s: Seq<char>, pat: Seq<char>, from: int) -> int
    decreases s.len() - from when 0 <= from <= s.len()
{
    if from + pat.len() > s.len() {
        -1
    } else if ci_match_at(s, pat, from) {
        from
    } else {
        spec_find_ci(s, pat, from + 1)
    }
}

/// The text of the first title element of a page, scanned from position
/// `from`: at an opening `<title>` (matched without regard to ASCII case)
/// whose nearest closing `</title>` follows with no line feed in between,
/// the characters between the two; where a line feed intervenes the scan
/// moves past that opening tag; where no closing tag remains at all, or no
/// opening tag matches, the title is empty.
pub open spec fn spec_title_from(text: Seq<char>, from: int) -> Seq<char>
    decreases text.len() - from when 0 <= from <= text.len()
{
    if from + "<title>"@.len() > text.len() {
        Seq::empty()
    } else if ci_match_at(text, "<title>"@, from) {
        let b = from + "<title>"@.len();
        let q = spec_find_ci(text, "</title>"@, b);
        if q == -1 {
            Seq::empty()
        } else {
            let nl = crate::text::spec_find_char(text, '\n', b);
            if nl == -1 || nl >= q {
                text.subrange(b, q)
            } else {
                spec_title_from(text, from + 1)
            }
        }
    } else {
        spec_title_from(text, from + 1)
    }
}

/// The text of the first title element of a page.
pub open spec fn spec_title_of(text: Seq<char>) -> Seq<char> {
    spec_title_from(text, 0)
}

/// Whether a character-set label (as raw bytes) names an encoding the WHATWG
/// encoding tables know.
pub uninterp spec fn charset_label_known(label: Seq<u8>) -> bool;

/// The text the given bytes decode to in the character set named by `label`.
pub uninterp spec fn decoded_of(label: Seq<u8>, bytes: Seq<u8>) -> Seq<char>;

/// Relies on encoding_rs::Encoding::for_label to resolve the label (None
/// for an unknown one) and encoding_rs::Encoding::decode to decode the
/// bytes; both depend on their arguments alone.
#[verifier::external_body]
fn decode_with(label: &[u8], bytes: &[u8]) -> (r: Option<String>)
    ensures
        r is Some <==> charset_label_known(label@),
        r is Some ==> r.unwrap()@ == decoded_of(label@, bytes@),
{
    let encoding = encoding_rs::Encoding::for_label(label)?;
    let (text, _, _) = encoding.decode(bytes);
    Some(text.into_owned())
}

/// The text the given bytes decode to as UTF-8, with ill-formed sequences
/// replaced.
pub uninterp spec fn utf8_lossy_of(bytes: Seq<u8>) -> Seq<char>;

/// Relies on String::from_utf8_lossy, whose result depends on the bytes
/// alone.
#[verifier::external_body]
fn utf8_lossy(bytes: &[u8]) -> (r: String)
    ensures
        r@ == utf8_lossy_of(bytes@),
{
    String::from_utf8_lossy(bytes).into_owned()
}

/// Find the end of the unquoted charset value.
fn run_end(h: &[u8], from: usize) -> (r: usize)
    requires
        from <= h@.len(),
    ensures
        r as int == spec_run_end(h@, from as int),
        from <= r <= h@.len(),
{
    let n: usize = h.len();
    let mut i: usize = from;
    while i < n
        invariant
            from <= i <= n,
            n == h@.len(),
            spec_run_end(h@, from as int) == spec_run_end(h@, i as int),
        decreases n - i,
    {
        let b: u8 = *vstd::slice::slice_index_get(h, i);
        if b == 59 || b == 34 {
            return i;
        }
        i += 1;
    }
    n
}

/// Find the last double quote beyond `after`.
fn last_quote_after(h: &[u8], after: usize) -> (r: Option<usize>)
    ensures
        r is Some ==> r.unwrap() as int == spec_last_quote_after(h@, after as int)
            && after < r.unwrap() < h@.len(),
        r is None ==> spec_last_quote_after(h@, after as int) == -1,
{
    let n: usize = h.len();
    let mut i: usize = n;
    proof {
        assert(h@.subrange(0, n as int) =~= h@);
    }
    while i > 0
        invariant
            0 <= i <= n,
            n == h@.len(),
            spec_last_quote_after(h@, after as int) == spec_last_quote_after(h@.subrange(0,
                i as int), after as int),
        decreases i,
    {
        i -= 1;
        let b: u8 = *vstd::slice::slice_index_get(h, i);
        proof {
            let cur = h@.subrange(0, i + 1);
            assert(cur.drop_last() =~= h@.subrange(0, i as int));
            assert(cur.len() > 0 && cur[cur.len() - 1] == h@[i as int]);
        }
        if b == 34 && i > after {
            return Some(i);
        }
    }
    proof {
        assert(h@.subrange(0, 0) =~= Seq::<u8>::empty());
    }
    None
}

/// Check whether the `charset=` marker occurs at position `i`.
fn needle_match_at(h: &[u8], i: usize) -> (r: bool)
    requires
        i + 8 <= h@.len(),
    ensures
        r == bytes_match_at(h@, charset_needle(), i as int),
{
    let n: usize = h.len();
    let r = *vstd::slice::slice_index_get(h, i) == 99 && *vstd::slice::slice_index_get(h, i + 1)
        == 104 && *vstd::slice::slice_index_get(h, i + 2) == 97 && *vstd::slice::slice_index_get(
        h,
        i + 3,
    ) == 114 && *vstd::slice::slice_index_get(h, i + 4) == 115 && *vstd::slice::slice_index_get(
        h,
        i + 5,
    ) == 101 && *vstd::slice::slice_index_get(h, i + 6) == 116 && *vstd::slice::slice_index_get(
        h,
        i + 7,
    ) == 61;
    proof {
        if r {
            assert forall|j: int| 0 <= j < 8 implies h@[i + j] == charset_needle()[j] by {
            }
        } else {
            assert(!bytes_match_at(h@, charset_needle(), i as int)) by {
                if bytes_match_at(h@, charset_needle(), i as int) {
                    assert(h@[i + 0] == charset_needle()[0]);
                    assert(h@[i + 1] == charset_needle()[1]);
                    assert(h@[i + 2] == charset_needle()[2]);
                    assert(h@[i + 3] == charset_needle()[3]);
                    assert(h@[i + 4] == charset_needle()[4]);
                    assert(h@[i + 5] == charset_needle()[5]);
                    assert(h@[i + 6] == charset_needle()[6]);
                    assert(h@[i + 7] == charset_needle()[7]);
                }
            }
        }
    }
    r
}

/// Find the declared character-set label; see `spec_charset_capture`.
fn charset_capture(h: &[u8]) -> (r: Option<(usize, usize)>)
    ensures
        r is Some ==> ({
            let (a, b) = r.unwrap();
            spec_charset_capture(h@, 0) == Some((a as int, b as int)) && a <= b <= h@.len()
        }),
        r is None ==> spec_charset_capture(h@, 0) is None,
{
    let n: usize = h.len();
    if n < 8 {
        return None;
    }
    let mut i: usize = 0;
    while i <= n - 8
        invariant
            0 <= i <= n - 7,
            8 <= n == h@.len(),
            spec_charset_capture(h@, 0) == spec_charset_capture(h@, i as int),
        decreases n - i,
    {
        if needle_match_at(h, i) {
            let a: usize = i + 8;
            if a < n {
                let b0: u8 = *vstd::slice::slice_index_get(h, a);
                if b0 != 59 && b0 != 34 {
                    let e: usize = run_end(h, a);
                    return Some((a, e));
                }
                if b0 == 34 {
                    match last_quote_after(h, a) {
                        Some(q) => {
                            if q >= a + 2 {
                                return Some((a + 1, q));
                            }
                        },
                        None => {},
                    }
                }
            }
        }
        i += 1;
    }
    None
}

/// A character with an ASCII capital folded to its small form, by code.
fn lower_code(c: char) -> (r: u32)
    ensures
        r == spec_lower_char(c) as int,
        r <= 0x10FFFF,
{
    let code: u32 = c as u32;
    if 65 <= code && code <= 90 {
        code + 32
    } else {
        code
    }
}

/// Whether `pat` occurs in `s` at position `i`, without regard to ASCII
/// case.
fn ci_match_at_exec(s: &str, pat: &str, i: usize) -> (r: bool)
    requires
        i + pat@.len() <= s@.len(),
    ensures
        r == ci_match_at(s@, pat@, i as int),
{
    let n: usize = s.unicode_len();
    let m: usize = pat.unicode_len();
    let mut j: usize = 0;
    while j < m
        invariant
            0 <= j <= m,
            m == pat@.len(),
            n == s@.len(),
            i + m <= n,
            forall|k: int| 0 <= k < j ==> spec_lower_char(s@[i + k]) == spec_lower_char(pat@[k]),
        decreases m - j,
    {
        let a: u32 = lower_code(s.get_char(i + j));
        let b: u32 = lower_code(pat.get_char(j));
        if a != b {
            return false;
        }
        j += 1;
    }
    true
}

/// Find the first occurrence of `pat` in `s` at or after `from`, without
/// regard to ASCII case.
fn find_ci(s: &str, pat: &str, from: usize) -> (r: Option<usize>)
    requires
        from <= s@.len(),
    ensures
        r is Some ==> r.unwrap() as int == spec_find_ci(s@, pat@, from as int) && from
            <= r.unwrap() && r.unwrap() + pat@.len() <= s@.len(),
        r is None ==> spec_find_ci(s@, pat@, from as int) == -1,
{
    let n: usize = s.unicode_len();
    let m: usize = pat.unicode_len();
    if m == 0 {
        proof {
            assert(ci_match_at(s@, pat@, from as int));
        }
        return Some(from);
    }
    if m > n || from > n - m {
        return None;
    }
    let mut i: usize = from;
    while i <= n - m
        invariant
            from <= i,
            m <= n,
            i <= n - m + 1,
            n == s@.len(),
            m == pat@.len(),
            spec_find_ci(s@, pat@, from as int) == spec_find_ci(s@, pat@, i as int),
        decreases n - i,
    {
        if ci_match_at_exec(s, pat, i) {
            return Some(i);
        }
        i += 1;
    }
    None
}

/// The text of the first title element; see `spec_title_of`.
fn title_of(text: &str) -> (r: String)
    ensures
        r@ == spec_title_of(text@),
{
    proof {
        reveal_strlit("<title>");
        reveal_strlit("</title>");
        reveal_strlit("");
    }
    let n: usize = text.unicode_len();
    if n < 7 {
        return String::new();
    }
    let mut i: usize = 0;
    while i <= n - 7
        invariant
            0 <= i,
            i <= n - 6,
            7 <= n == text@.len(),
            spec_title_from(text@, 0) == spec_title_from(text@, i as int),
        decreases n - i,
    {
        proof {
            reveal_strlit("<title>");
            reveal_strlit("</title>");
            reveal_strlit("");
        }
        if ci_match_at_exec(text, "<title>", i) {
            let b: usize = i + 7;
            let q: usize = match find_ci(text, "</title>", b) {
                Some(q) => q,
                None => { return String::new(); },
            };
            let line_confined: bool = match crate::text::find_char(text, '\n', b) {
                Some(nl) => nl >= q,
                None => true,
            };
            if line_confined {
                let body: &str = text.substring_char(b, q);
                proof {
                    assert(body@ =~= spec_title_of(text@));
                }
                return body.to_owned();
            }
        }
        i += 1;
    }
    proof {
        reveal_strlit("<title>");
        reveal_strlit("");
    }
    String::new()
}

/// The character set and title the page scanner yields for these bytes:
/// the declared character set (as typed, decoded lossily as UTF-8) and the
/// title decoded in it, or UTF-8 with lossy decoding when no known
/// character set is declared.
pub open spec fn spec_charset_title(buf: Seq<u8>) -> (Seq<char>, Seq<char>) {
    let cap = spec_charset_capture(buf, 0);
    if cap is Some && charset_label_known(buf.subrange(cap.unwrap().0, cap.unwrap().1)) {
        let label = buf.subrange(cap.unwrap().0, cap.unwrap().1);
        (utf8_lossy_of(label), spec_title_of(decoded_of(label, buf)))
    } else {
        ("UTF-8"@, spec_title_of(utf8_lossy_of(buf)))
    }
}

/// The character set and title of a fetched page head; see
/// `spec_charset_title`.
pub fn charset_title_pair(buf: &[u8]) -> (r: (String, String))
    ensures
        r.0@ == spec_charset_title(buf@).0,
        r.1@ == spec_charset_title(buf@).1,
{
    match charset_capture(buf) {
        Some((a, b)) => {
            let label: &[u8] = slice_subrange(buf, a, b);
            match decode_with(label, buf) {
                Some(text) => {
                    let charset: String = utf8_lossy(label);
                    let title: String = title_of(text.as_str());
                    (charset, title)
                },
                None => {
                    let text: String = utf8_lossy(buf);
                    let title: String = title_of(text.as_str());
                    (String::from_str("UTF-8"), title)
                },
            }
        },
        None => {
            let text: String = utf8_lossy(buf);
            let title: String = title_of(text.as_str());
            (String::from_str("UTF-8"), title)
        },
    }
}

} // verus!
