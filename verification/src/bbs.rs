//! The bulletin-board subsystem's parsing rules.
//!
//! A thread URL names a board directory, a board number and a thread key in
//! its path; a board URL names just the board; the board's subject listing
//! starts with the latest thread's key. Everything here is pure parsing and
//! formatting on plain values — the network that the URLs point at is the
//! app layer's business.

use vstd::prelude::*;
use vstd::string::StrSliceExecFns;
use vstd::string::StringExecFns;

use crate::text::digits_value;
use crate::text::is_valid_u64_str;
use crate::text::parse_u64;
use crate::text::spec_find_char;
use crate::text::spec_starts_with;
use crate::text::str_eq;
use crate::text::str_starts_with;
use crate::text::u64_digits_part;
use crate::text::find_char;
use crate::text::dec_digits;
use crate::text::u64_to_string;

verus! {

/// Why a bulletin-board operation was refused.
#[derive(Clone, Copy, Debug, PartialEq, Eq, Structural)]
pub enum BbsError {
    /// The URL has no host.
    NoHost,
    /// The URL belongs to the bulletin-board service this player does not
    /// post to.
    ShitarabaUnsupported,
    /// The URL does not name a thread.
    InvalidUrl,
    /// The board's subject listing was empty.
    EmptySubject,
    /// The subject listing does not start with a thread key.
    InvalidNumber,
    /// The posting form's character set is not a known encoding.
    UnknownCharset,
}

/// The parts of a parsed URL that the classification rules read — its
/// scheme, host, path, and serialized origin — together with the whole URL
/// serialized back, all as plain strings.
pub struct UrlParts {
    pub scheme: String,
    pub host: Option<String>,
    pub path: String,
    pub origin: String,
    pub full: String,
}

/// Whether a URL with this host and path belongs to the unsupported
/// bulletin-board service: either it is hosted there outright, or its path
/// uses that service's thread-reader layout.
pub fn is_shitaraba_bbs(host: &str, path: &str) -> (r: bool)
    ensures
        r == (host@ == "jbbs.shitaraba.net"@ || spec_starts_with(path@, "/bbs/read.cgi/"@)),
{
    if str_eq(host, "jbbs.shitaraba.net") {
        return true;
    }
    if str_starts_with(path, "/bbs/read.cgi/") {
        return true;
    }
    false
}

/// The end of the thread key in `s` starting at `from`: the first index
/// holding `/`, or holding `:` directly before a `/`, or the end of `s`.
pub open spec fn spec_key_end(s: Seq<char>, from: int) -> int
    decreases s.len() - from when from <= s.len()
{
    if from >= s.len() {
        s.len() as int
    } else if s[from] == '/' {
        from
    } else if s[from] == ':' && from + 1 < s.len() && s[from + 1] == '/' {
        from
    } else {
        spec_key_end(s, from + 1)
    }
}

/// The (directory, board, key) components of a thread-reader path: the path
/// must start with `/bbs/read.cgi/`; the directory and board run to the next
/// separator and must be non-empty; the key runs to the next `/` (or `:`
/// directly before a `/`, or the end) and must be non-empty. Whatever
/// follows the key is ignored.
pub open spec fn spec_thread_path(path: Seq<char>) -> Option<(Seq<char>, Seq<char>, Seq<char>)> {
    let prefix = "/bbs/read.cgi/"@;
    if !spec_starts_with(path, prefix) {
        None
    } else {
        let rest = path.subrange(prefix.len() as int, path.len() as int);
        let i1 = spec_find_char(rest, '/', 0);
        if i1 <= 0 {
            None
        } else {
            let i2 = spec_find_char(rest, '/', i1 + 1);
            if i2 == -1 || i2 == i1 + 1 {
                None
            } else {
                let k = spec_key_end(rest, i2 + 1);
                if k == i2 + 1 {
                    None
                } else {
                    Some((rest.subrange(0, i1), rest.subrange(i1 + 1, i2), rest.subrange(i2 + 1,
                        k)))
                }
            }
        }
    }
}

/// The mathematical model of a parsed thread address.
pub struct ShitarabaView {
    pub origin: Seq<char>,
    pub dir: Seq<char>,
    pub bbs: u64,
    pub key: u64,
}

/// A thread address on the bulletin board: the site origin, the board
/// directory, the board number and the thread key.
pub struct Shitaraba {
    origin: String,
    dir: String,
    bbs: u64,
    key: u64,
}

impl View for Shitaraba {
    type V = ShitarabaView;

    closed spec fn view(&self) -> ShitarabaView {
        ShitarabaView { origin: self.origin@, dir: self.dir@, bbs: self.bbs, key: self.key }
    }
}

/// Find the end of the thread key: the first index at or after `from`
/// holding `/`, or holding `:` directly before a `/`, or the length of `s`.
fn key_end(s: &str, from: usize) -> (r: usize)
    requires
        from <= s@.len(),
    ensures
        r as int == spec_key_end(s@, from as int),
        from <= r <= s@.len(),
    decreases s@.len() - from,
{
    let n: usize = s.unicode_len();
    let mut i: usize = from;
    while i < n
        invariant
            from <= i <= n,
            n == s@.len(),
            spec_key_end(s@, from as int) == spec_key_end(s@, i as int),
        decreases n - i,
    {
        let c: char = s.get_char(i);
        if c == '/' {
            return i;
        }
        if c == ':' && i + 1 < n && s.get_char(i + 1) == '/' {
            return i;
        }
        i += 1;
    }
    n
}

/// Parse a thread URL: accepted exactly when its path has the thread-reader
/// layout (see `spec_thread_path`) and the board and key components are
/// decimal numbers. The returned address carries the URL's origin verbatim.
pub fn parse_thread_url(url: &UrlParts) -> (r: Option<Shitaraba>)
    ensures
        ({
            let p = spec_thread_path(url.path@);
            &&& (r is Some <==> p is Some && is_valid_u64_str(p.unwrap().1) && is_valid_u64_str(
                p.unwrap().2,
            ))
            &&& (r is Some ==> r.unwrap()@.origin == url.origin@)
            &&& (r is Some ==> r.unwrap()@.dir == p.unwrap().0)
            &&& (r is Some ==> r.unwrap()@.bbs as int == digits_value(u64_digits_part(
                p.unwrap().1,
            )))
            &&& (r is Some ==> r.unwrap()@.key as int == digits_value(u64_digits_part(
                p.unwrap().2,
            )))
        }),
{
    let path: &str = url.path.as_str();
    if !str_starts_with(path, "/bbs/read.cgi/") {
        return None;
    }
    let prefix_len: usize = "/bbs/read.cgi/".unicode_len();
    let n: usize = path.unicode_len();
    let rest: &str = path.substring_char(prefix_len, n);
    proof {
        assert(rest@ =~= url.path@.subrange("/bbs/read.cgi/"@.len() as int, url.path@.len() as int));
    }
    let i1: usize = match find_char(rest, '/', 0) {
        Some(i) => i,
        None => { return None; },
    };
    if i1 == 0 {
        return None;
    }
    let i2: usize = match find_char(rest, '/', i1 + 1) {
        Some(i) => i,
        None => { return None; },
    };
    if i2 == i1 + 1 {
        return None;
    }
    let k: usize = key_end(rest, i2 + 1);
    if k == i2 + 1 {
        return None;
    }
    let dir: &str = rest.substring_char(0, i1);
    let bbs_str: &str = rest.substring_char(i1 + 1, i2);
    let key_str: &str = rest.substring_char(i2 + 1, k);
    let bbs: u64 = match parse_u64(bbs_str) {
        Some(v) => v,
        None => { return None; },
    };
    let key: u64 = match parse_u64(key_str) {
        Some(v) => v,
        None => { return None; },
    };
    Some(Shitaraba { origin: url.origin.clone(), dir: dir.to_owned(), bbs, key })
}

/// The board name in a board URL's path: the path without its leading
/// slash and without one trailing slash.
pub open spec fn spec_board_name(path: Seq<char>) -> Seq<char> {
    let body = path.subrange(1, path.len() as int);
    if body.len() >= 2 && body.last() == '/' {
        body.drop_last()
    } else {
        body
    }
}

/// Parse a board URL: its path must be a slash followed by the board name,
/// with one optional trailing slash (stripped from the name).
pub fn parse_board_url(url: &UrlParts) -> (r: Option<String>)
    ensures
        r is Some <==> url.path@.len() >= 2 && url.path@[0] == '/',
        r is Some ==> r.unwrap()@ == spec_board_name(url.path@),
{
    let path: &str = url.path.as_str();
    let n: usize = path.unicode_len();
    if n < 2 {
        return None;
    }
    if path.get_char(0) != '/' {
        return None;
    }
    let last: char = path.get_char(n - 1);
    let body: &str = if last == '/' && n >= 3 {
        path.substring_char(1, n - 1)
    } else {
        path.substring_char(1, n)
    };
    proof {
        let full = url.path@.subrange(1, url.path@.len() as int);
        if last == '/' && n >= 3 {
            assert(body@ =~= full.drop_last());
        } else {
            assert(body@ =~= full);
        }
    }
    Some(body.to_owned())
}

impl Shitaraba {
    /// Parse a thread URL into a thread address; `InvalidUrl` when the path
    /// does not name a thread.
    pub fn new(url: &UrlParts) -> (r: Result<Shitaraba, BbsError>)
        ensures
            ({
                let p = spec_thread_path(url.path@);
                &&& (r is Ok <==> p is Some && is_valid_u64_str(p.unwrap().1)
                    && is_valid_u64_str(p.unwrap().2))
                &&& (r is Ok ==> r.unwrap()@.origin == url.origin@ && r.unwrap()@.dir
                    == p.unwrap().0 && r.unwrap()@.bbs as int == digits_value(u64_digits_part(
                    p.unwrap().1,
                )) && r.unwrap()@.key as int == digits_value(u64_digits_part(p.unwrap().2)))
                &&& (r is Err ==> r == Err::<Shitaraba, BbsError>(BbsError::InvalidUrl))
            }),
    {
        match parse_thread_url(url) {
            Some(site) => Ok(site),
            None => Err(BbsError::InvalidUrl),
        }
    }
}

/// The first line of a text: the characters before the first line feed (or
/// the whole text), with one trailing carriage return stripped.
pub open spec fn spec_first_line(s: Seq<char>) -> Seq<char> {
    let e = spec_find_char(s, '\n', 0);
    let line = if e == -1 {
        s
    } else {
        s.subrange(0, e)
    };
    if line.len() > 0 && line.last() == '\r' {
        line.drop_last()
    } else {
        line
    }
}

/// The leading token of a line: the characters before the first dot, or the
/// whole line.
pub open spec fn spec_first_token(line: Seq<char>) -> Seq<char> {
    let e = spec_find_char(line, '.', 0);
    if e == -1 {
        line
    } else {
        line.subrange(0, e)
    }
}

/// The key of the latest thread, read from a board's subject listing: the
/// first line starts with the key, a dot, and the thread's filename suffix.
/// `EmptySubject` for an empty listing; `InvalidNumber` when the leading
/// token is not a decimal number.
pub fn read_latest_thread(subject_txt: &str) -> (r: Result<u64, BbsError>)
    ensures
        subject_txt@.len() == 0 ==> r == Err::<u64, BbsError>(BbsError::EmptySubject),
        subject_txt@.len() > 0 ==> {
            let tok = spec_first_token(spec_first_line(subject_txt@));
            &&& (r is Ok <==> is_valid_u64_str(tok))
            &&& (r is Ok ==> r.unwrap() as int == digits_value(u64_digits_part(tok)))
            &&& (r is Err ==> r == Err::<u64, BbsError>(BbsError::InvalidNumber))
        },
{
    let n: usize = subject_txt.unicode_len();
    if n == 0 {
        return Err(BbsError::EmptySubject);
    }
    let line_end: usize = match find_char(subject_txt, '\n', 0) {
        Some(i) => i,
        None => n,
    };
    let raw_line: &str = subject_txt.substring_char(0, line_end);
    proof {
        if spec_find_char(subject_txt@, '\n', 0) == -1 {
            assert(raw_line@ =~= subject_txt@);
        }
    }
    let ln: usize = raw_line.unicode_len();
    let line: &str = if ln > 0 && raw_line.get_char(ln - 1) == '\r' {
        raw_line.substring_char(0, ln - 1)
    } else {
        raw_line
    };
    proof {
        if ln > 0 && raw_line@.last() == '\r' {
            assert(line@ =~= raw_line@.drop_last());
        }
        assert(line@ == spec_first_line(subject_txt@));
    }
    let tok_end: usize = match find_char(line, '.', 0) {
        Some(i) => i,
        None => line.unicode_len(),
    };
    let tok: &str = line.substring_char(0, tok_end);
    proof {
        if spec_find_char(line@, '.', 0) == -1 {
            assert(tok@ =~= line@);
        }
        assert(tok@ == spec_first_token(spec_first_line(subject_txt@)));
    }
    match parse_u64(tok) {
        Some(v) => Ok(v),
        None => Err(BbsError::InvalidNumber),
    }
}

/// Whether a character-set label names an encoding the WHATWG encoding
/// tables know.
pub uninterp spec fn charset_is_known(label: Seq<char>) -> bool;

/// The text encoded in the character set named by `label`, each byte then
/// percent-escaped unless it is ASCII alphanumeric.
pub uninterp spec fn charset_percent_encoding(label: Seq<char>, text: Seq<char>) -> Seq<char>;

/// Relies on encoding_rs::Encoding::for_label to resolve the label (None for
/// an unknown one), encoding_rs::Encoding::encode to encode the text, and
/// percent_encoding::percent_encode with the NON_ALPHANUMERIC set to escape
/// the bytes; all three depend on their arguments alone.
#[verifier::external_body]
fn charset_percent_encode(charset: &str, text: &str) -> (r: Option<String>)
    ensures
        r is Some <==> charset_is_known(charset@),
        r is Some ==> r.unwrap()@ == charset_percent_encoding(charset@, text@),
{
    let encoding = encoding_rs::Encoding::for_label(charset.as_bytes())?;
    let (bytes, _, _) = encoding.encode(text);
    Some(percent_encoding::percent_encode(&bytes, percent_encoding::NON_ALPHANUMERIC).to_string())
}

/// The address of a board's subject listing.
pub fn subject_txt_url(origin: &str, bbs: &str) -> (r: String)
    ensures
        r@ == origin@ + "/"@ + bbs@ + "/subject.txt"@,
{
    let r = origin.to_owned().concat("/").concat(bbs).concat("/subject.txt");
    proof {
        assert(r@ =~= origin@ + "/"@ + bbs@ + "/subject.txt"@);
    }
    r
}

/// The address of a board's latest thread, given its key.
pub fn latest_thread_url(origin: &str, bbs: &str, key: u64) -> (r: String)
    ensures
        r@ == origin@ + "/bbs/read.cgi/"@ + bbs@ + "/"@ + dec_digits(key as int),
{
    let key_str: String = u64_to_string(key);
    let r = origin.to_owned().concat("/bbs/read.cgi/").concat(bbs).concat("/").concat(
        key_str.as_str(),
    );
    proof {
        assert(r@ =~= origin@ + "/bbs/read.cgi/"@ + bbs@ + "/"@ + dec_digits(key as int));
    }
    r
}

/// An HTTP request, ready to send, that posts a message to a thread.
pub struct PostRequest {
    pub url: String,
    pub content_type: String,
    pub referer: String,
    pub body: String,
}

/// The posting endpoint of a thread.
pub open spec fn spec_write_url(t: ShitarabaView) -> Seq<char> {
    t.origin + "/bbs/write.cgi/"@ + t.dir + "/"@ + dec_digits(t.bbs as int) + "/"@ + dec_digits(
        t.key as int,
    ) + "/"@
}

/// The reader address of a thread, sent as the referer of a post.
pub open spec fn spec_read_url(t: ShitarabaView) -> Seq<char> {
    t.origin + "/bbs/read.cgi/"@ + t.dir + "/"@ + dec_digits(t.bbs as int) + "/"@ + dec_digits(
        t.key as int,
    ) + "/"@
}

/// The form body of a post, with the free-text fields already escaped.
pub open spec fn spec_post_body(
    t: ShitarabaView,
    name_enc: Seq<char>,
    email_enc: Seq<char>,
    msg_enc: Seq<char>,
) -> Seq<char> {
    "BBS="@ + dec_digits(t.bbs as int) + "&KEY="@ + dec_digits(t.key as int) + "&DIR="@ + t.dir
        + "&NAME="@ + name_enc + "&MAIL="@ + email_enc + "&MESSAGE="@ + msg_enc
}

impl Shitaraba {
    /// Build the request that posts a message to this thread: the write
    /// endpoint, the form content type carrying the character set, the
    /// thread's reader address as referer, and the form body with the name,
    /// mail and message fields encoded in that character set and
    /// percent-escaped. `UnknownCharset` when the label names no known
    /// encoding.
    pub fn post_request(&self, charset: &str, name: &str, email: &str, msg: &str) -> (r: Result<
        PostRequest,
        BbsError,
    >)
        ensures
            r is Ok <==> charset_is_known(charset@),
            r is Err ==> r == Err::<PostRequest, BbsError>(BbsError::UnknownCharset),
            r is Ok ==> ({
                let req = r.unwrap();
                &&& req.url@ == spec_write_url(self@)
                &&& req.referer@ == spec_read_url(self@)
                &&& req.content_type@ == "application/x-www-form-urlencoded; charset="@
                    + charset@
                &&& req.body@ == spec_post_body(self@, charset_percent_encoding(charset@, name@),
                    charset_percent_encoding(charset@, email@), charset_percent_encoding(
                    charset@, msg@))
            }),
    {
        let name_enc: String = match charset_percent_encode(charset, name) {
            Some(s) => s,
            None => { return Err(BbsError::UnknownCharset); },
        };
        let email_enc: String = match charset_percent_encode(charset, email) {
            Some(s) => s,
            None => { return Err(BbsError::UnknownCharset); },
        };
        let msg_enc: String = match charset_percent_encode(charset, msg) {
            Some(s) => s,
            None => { return Err(BbsError::UnknownCharset); },
        };
        let bbs_str: String = u64_to_string(self.bbs);
        let key_str: String = u64_to_string(self.key);
        let url = self.origin.clone().concat("/bbs/write.cgi/").concat(self.dir.as_str()).concat(
            "/",
        ).concat(bbs_str.as_str()).concat("/").concat(key_str.as_str()).concat("/");
        let referer = self.origin.clone().concat("/bbs/read.cgi/").concat(self.dir.as_str())
            .concat("/").concat(bbs_str.as_str()).concat("/").concat(key_str.as_str()).concat(
            "/",
        );
        let content_type = String::from_str("application/x-www-form-urlencoded; charset=")
            .concat(charset);
        let body = String::from_str("BBS=").concat(bbs_str.as_str()).concat("&KEY=").concat(
            key_str.as_str(),
        ).concat("&DIR=").concat(self.dir.as_str()).concat("&NAME=").concat(name_enc.as_str())
            .concat("&MAIL=").concat(email_enc.as_str()).concat("&MESSAGE=").concat(
            msg_enc.as_str(),
        );
        proof {
            assert(url@ =~= spec_write_url(self@));
            assert(referer@ =~= spec_read_url(self@));
            assert(content_type@ =~= "application/x-www-form-urlencoded; charset="@ + charset@);
            assert(body@ =~= spec_post_body(self@, name_enc@, email_enc@, msg_enc@));
        }
        Ok(PostRequest { url, content_type, referer, body })
    }
}

/// A thread a message can be posted to: the implementation turns the
/// message into the HTTP request that posts it, and the app layer sends the
/// request.
pub trait Thread {
    /// The request that posts a message to this thread, or why none can be
    /// built.
    fn post(&self, charset: &str, name: &str, email: &str, msg: &str) -> Result<
        PostRequest,
        BbsError,
    >;
}

impl Thread for Shitaraba {
    fn post(&self, charset: &str, name: &str, email: &str, msg: &str) -> Result<
        PostRequest,
        BbsError,
    > {
        self.post_request(charset, name, email, msg)
    }
}

/// A classified bulletin-board URL: most likely a thread, most likely a
/// board (whose latest thread must still be looked up), or a URL of the
/// unsupported service.
pub enum BbsUrl {
    ProbablyCompatibleThread(UrlParts, Shitaraba),
    ProbablyShitaraba(UrlParts),
    MaybeCompatibleBoard(UrlParts, String),
}

impl BbsUrl {
    /// Give back the URL the classification was made from.
    pub fn into_url(self) -> (r: UrlParts)
        ensures
            match self {
                BbsUrl::ProbablyCompatibleThread(u, _) => r == u,
                BbsUrl::ProbablyShitaraba(u) => r == u,
                BbsUrl::MaybeCompatibleBoard(u, _) => r == u,
            },
    {
        match self {
            BbsUrl::ProbablyCompatibleThread(url, _) => url,
            BbsUrl::ProbablyShitaraba(url) => url,
            BbsUrl::MaybeCompatibleBoard(url, _) => url,
        }
    }
}

/// Whether a path parses as a thread address.
pub open spec fn spec_is_thread_path(path: Seq<char>) -> bool {
    let p = spec_thread_path(path);
    p is Some && is_valid_u64_str(p.unwrap().1) && is_valid_u64_str(p.unwrap().2)
}

/// Classify a URL: a thread address when its path parses as one; otherwise
/// a board when its path is a slash-led name; otherwise the unsupported
/// service when its host or path says so; otherwise — or without a host —
/// the URL is handed back unclassified.
pub fn parse_bbs_url(url: UrlParts) -> (r: Result<BbsUrl, UrlParts>)
    ensures
        ({
            let threaded = spec_is_thread_path(url.path@);
            let boarded = url.path@.len() >= 2 && url.path@[0] == '/';
            let shita = (url.host is Some && url.host.unwrap()@ == "jbbs.shitaraba.net"@)
                || spec_starts_with(url.path@, "/bbs/read.cgi/"@);
            match r {
                Ok(BbsUrl::ProbablyCompatibleThread(u, t)) => url.host is Some && threaded && u
                    == url && t@.origin == url.origin@,
                Ok(BbsUrl::MaybeCompatibleBoard(u, b)) => url.host is Some && !threaded && boarded
                    && u == url && b@ == spec_board_name(url.path@),
                Ok(BbsUrl::ProbablyShitaraba(u)) => url.host is Some && !threaded && !boarded
                    && shita && u == url,
                Err(u) => u == url && (url.host is None || (!threaded && !boarded && !shita)),
            }
        }),
{
    if url.host.is_none() {
        return Err(url);
    }
    match parse_thread_url(&url) {
        Some(thread) => { return Ok(BbsUrl::ProbablyCompatibleThread(url, thread)); },
        None => {},
    }
    match parse_board_url(&url) {
        Some(board) => { return Ok(BbsUrl::MaybeCompatibleBoard(url, board)); },
        None => {},
    }
    let host: &str = match &url.host {
        Some(h) => h.as_str(),
        None => "",
    };
    if is_shitaraba_bbs(host, url.path.as_str()) {
        return Ok(BbsUrl::ProbablyShitaraba(url));
    }
    Err(url)
}

/// The thread a message would be posted to: refused without a host, refused
/// for the unsupported bulletin-board service, and otherwise parsed as a
/// thread address.
pub fn new(url: &UrlParts) -> (r: Result<Shitaraba, BbsError>)
    ensures
        url.host is None ==> r == Err::<Shitaraba, BbsError>(BbsError::NoHost),
        url.host is Some && (url.host.unwrap()@ == "jbbs.shitaraba.net"@ || spec_starts_with(
            url.path@,
            "/bbs/read.cgi/"@,
        )) ==> r == Err::<Shitaraba, BbsError>(BbsError::ShitarabaUnsupported),
        url.host is Some && !(url.host.unwrap()@ == "jbbs.shitaraba.net"@ || spec_starts_with(
            url.path@,
            "/bbs/read.cgi/"@,
        )) ==> ({
            let p = spec_thread_path(url.path@);
            &&& (r is Ok <==> spec_is_thread_path(url.path@))
            &&& (r is Err ==> r == Err::<Shitaraba, BbsError>(BbsError::InvalidUrl))
            &&& (r is Ok ==> r.unwrap()@.origin == url.origin@)
        }),
{
    let host: &str = match &url.host {
        Some(h) => h.as_str(),
        None => { return Err(BbsError::NoHost); },
    };
    if is_shitaraba_bbs(host, url.path.as_str()) {
        return Err(BbsError::ShitarabaUnsupported);
    }
    Shitaraba::new(url)
}

} // verus!
