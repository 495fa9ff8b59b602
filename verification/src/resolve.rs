//! Classification of a URL the player is asked to open.
//!
//! A URL may name a bulletin-board thread or board (whose title and
//! character set, and for a board its latest thread, must be fetched), a
//! playlist that points at a stream, or a stream outright. The decisions are
//! made here, step by step, as a state machine over plain values; the app
//! layer performs each fetch the machine asks for and hands back what came
//! of it.

use vstd::prelude::*;
use vstd::string::StringExecFns;

use crate::bbs::BbsUrl;
use crate::bbs::UrlParts;
use crate::bbs::latest_thread_url;
use crate::bbs::parse_bbs_url;
use crate::bbs::read_latest_thread;
use crate::bbs::spec_board_name;
use crate::bbs::spec_first_line;
use crate::bbs::spec_first_token;
use crate::bbs::spec_is_thread_path;
use crate::bbs::subject_txt_url;
use crate::page::charset_title_pair;
use crate::page::spec_charset_title;
use crate::text::dec_digits;
use crate::text::digits_value;
use crate::text::is_valid_u64_str;
use crate::text::spec_starts_with;
use crate::text::str_eq;
use crate::text::str_starts_with;
use crate::text::u64_digits_part;

verus! {

/// What a URL resolved to, as the app layer reports it: a bulletin-board
/// thread with its character set and name, a stream, or nothing recognized
/// (with the failure's description when one was raised).
pub enum ResolveUrlResult {
    Bbs { thread_url: String, charset: String, thread_name: String },
    Stream { stream_url: String },
    Unknown { error: Option<String> },
}

/// Whether a path most likely names a playlist.
pub fn is_probably_pls(path: &str) -> (r: bool)
    ensures
        r == spec_starts_with(path@, "/pls/"@),
{
    str_starts_with(path, "/pls/")
}

/// The mathematical model of a parsed URL, for the parser's contract.
pub struct UrlPartsV {
    pub scheme: Seq<char>,
    pub host: Option<Seq<char>>,
    pub path: Seq<char>,
    pub origin: Seq<char>,
    pub full: Seq<char>,
}

/// The outcome of URL parsing: the parsed URL's parts, or nothing when the
/// text is not a URL.
pub uninterp spec fn url_parse_of(s: Seq<char>) -> Option<UrlPartsV>;

/// Whether a parts value carries exactly the parsed model `v`.
pub open spec fn parts_match(u: UrlParts, v: UrlPartsV) -> bool {
    &&& u.scheme@ == v.scheme
    &&& (u.host is Some <==> v.host is Some)
    &&& (u.host is Some ==> u.host.unwrap()@ == v.host.unwrap())
    &&& u.path@ == v.path
    &&& u.origin@ == v.origin
    &&& u.full@ == v.full
}

/// Relies on url::Url::parse (whose outcome depends on the text alone) and,
/// on success, on Url::scheme, Url::host_str, Url::path, Url::origin with
/// Origin::ascii_serialization, and Url::as_str, to take the parts apart.
/// The error text is the parse error's description, not further specified.
#[verifier::external_body]
pub(crate) fn parse_url_parts(s: &str) -> (r: Result<UrlParts, String>)
    ensures
        r is Ok <==> url_parse_of(s@) is Some,
        r is Ok ==> parts_match(r.unwrap(), url_parse_of(s@).unwrap()),
{
    match url::Url::parse(s) {
        Ok(u) => Ok(UrlParts {
            scheme: u.scheme().to_string(),
            host: u.host_str().map(|h| h.to_string()),
            path: u.path().to_string(),
            origin: u.origin().ascii_serialization(),
            full: u.as_str().to_string(),
        }),
        Err(e) => Err(e.to_string()),
    }
}

/// The first entry of an extended M3U playlist, as a path or URL string, or
/// nothing when the text is no well-formed playlist or lists no entry.
pub uninterp spec fn first_playlist_entry_of(text: Seq<char>) -> Option<Seq<char>>;

/// Relies on m3u::Reader::new_ext to read the playlist header and
/// m3u::EntryExtReader::entry_exts to iterate its entries; both read only
/// the given text. The reader slices lines at fixed byte indices (7 for the
/// header test, 8 for the entry tag test) and would strike a character
/// boundary fault on lines where those indices split a multi-byte
/// character, so such text is screened out up front and yields no entry;
/// the screen, too, is a function of the text alone, so the call always
/// returns. The first entry's path or URL is handed back serialized.
#[verifier::external_body]
pub(crate) fn first_playlist_entry(text: &str) -> (r: Option<String>)
    ensures
        r is Some <==> first_playlist_entry_of(text@) is Some,
        r is Some ==> r.unwrap()@ == first_playlist_entry_of(text@).unwrap(),
{
    let mut lines = text.split('\n').map(str::trim_start).skip_while(|t| t.is_empty());
    let first = lines.next().unwrap_or("");
    if (first.len() >= 7 && !first.is_char_boundary(7)) || lines.any(|t| t.starts_with('#')
        && t.len() >= 8 && !t.is_char_boundary(8)) {
        return None;
    }
    let mut reader = m3u::Reader::new_ext(text.as_bytes()).ok()?;
    match reader.entry_exts().next() {
        Some(Ok(entry_ext)) => Some(match entry_ext.entry {
            m3u::Entry::Path(path) => path.to_string_lossy().to_string(),
            m3u::Entry::Url(u) => u.to_string(),
        }),
        _ => None,
    }
}

/// One step of resolving a URL: what the app layer must fetch next, or the
/// final result.
pub enum ResolveState {
    /// Fetch the head of the page at `fetch_url` for its character set and
    /// title; `thread_url` is the address the result will name, and on
    /// failure resolution falls back to classifying `fallback` as a stream.
    /// `raw` is the caller's URL text, carried verbatim for the fallbacks.
    FetchingTitle { fetch_url: String, thread_url: String, fallback: UrlParts, raw: String },
    /// Fetch the board's subject listing at `fetch_url` to learn its latest
    /// thread; `origin` and `board` rebuild the thread address, and on
    /// failure resolution falls back to `fallback`; `raw` as above.
    FetchingSubject {
        fetch_url: String,
        origin: String,
        board: String,
        fallback: UrlParts,
        raw: String,
    },
    /// Fetch the playlist the URL probably names — at the caller's URL text
    /// `raw`, verbatim; when it yields no stream, resolution falls back to
    /// probing that text itself.
    FetchingPls { url: UrlParts, raw: String },
    /// Probe the caller's URL text `raw`, verbatim, for a stream content
    /// type; a hit names that text as the stream.
    CheckingStream { url: UrlParts, raw: String },
    /// Resolution is complete.
    Finished { result: ResolveUrlResult },
}

/// What the app layer reports back for one step.
pub enum ResolveEvent {
    /// The page head requested by `FetchingTitle`: `ok` is false when the
    /// fetch itself failed, and `body` holds the first bytes received.
    PageFetched { ok: bool, body: Vec<u8> },
    /// The subject listing requested by `FetchingSubject`.
    SubjectFetched { ok: bool, text: String },
    /// The playlist requested by `FetchingPls`: whether the fetch succeeded,
    /// whether the response was small enough for a playlist, whether its
    /// content type named one, and its text.
    PlsFetched { ok: bool, small: bool, pls_content_type: bool, text: String },
    /// The probe requested by `CheckingStream`: whether it succeeded (with
    /// the failure's description when not), and whether the content type
    /// named a stream.
    StreamChecked { ok: bool, is_flv: bool, error: String },
}

/// Classifying a URL as a playlist or a stream once the bulletin-board
/// interpretations are exhausted: probe the playlist when the path says so,
/// else probe the URL itself.
fn pls_or_stream(url: UrlParts, raw: String) -> (r: ResolveState)
    ensures
        spec_starts_with(url.path@, "/pls/"@) ==> r == (ResolveState::FetchingPls { url, raw }),
        !spec_starts_with(url.path@, "/pls/"@) ==> r == (ResolveState::CheckingStream {
            url,
            raw,
        }),
{
    if is_probably_pls(url.path.as_str()) {
        ResolveState::FetchingPls { url, raw }
    } else {
        ResolveState::CheckingStream { url, raw }
    }
}

/// Start resolving the given text as a URL. Text that is no URL, or a URL
/// of a scheme other than http or https, finishes at once as unrecognized
/// with a description of the failure; a thread URL asks for its page head, a
/// board URL for its subject listing, and anything else is classified as a
/// playlist or stream.
pub fn resolve_start(url_str: &str) -> (r: ResolveState)
    ensures
        url_parse_of(url_str@) is None ==> (r matches ResolveState::Finished { result }
            && result matches ResolveUrlResult::Unknown { error } && error is Some),
        url_parse_of(url_str@) is Some ==> ({
            let v = url_parse_of(url_str@).unwrap();
            let threaded = v.host is Some && spec_is_thread_path(v.path);
            let boarded = v.host is Some && v.path.len() >= 2 && v.path[0] == '/';
            let scheme_ok = v.scheme == "http"@ || v.scheme == "https"@;
            &&& (!scheme_ok ==> (r matches ResolveState::Finished { result } && result matches
                ResolveUrlResult::Unknown { error } && error is Some && error.unwrap()@
                == "Invalid URL scheme: "@ + v.scheme))
            &&& (scheme_ok && threaded ==> (r matches ResolveState::FetchingTitle {
                fetch_url,
                thread_url,
                fallback,
                raw,
            } && fetch_url@ == v.full && thread_url@ == v.full && parts_match(fallback, v) && raw@
                == url_str@))
            &&& (scheme_ok && !threaded && boarded ==> (r matches ResolveState::FetchingSubject {
                fetch_url,
                origin,
                board,
                fallback,
                raw,
            } && origin@ == v.origin && board@ == spec_board_name(v.path) && fetch_url@ == v.origin
                + "/"@ + spec_board_name(v.path) + "/subject.txt"@ && parts_match(fallback, v)
                && raw@ == url_str@))
            &&& (scheme_ok && !threaded && !boarded && spec_starts_with(v.path, "/pls/"@) ==> (
            r matches ResolveState::FetchingPls { url, raw } && parts_match(url, v) && raw@
                == url_str@))
            &&& (scheme_ok && !threaded && !boarded && !spec_starts_with(v.path, "/pls/"@) ==> (
            r matches ResolveState::CheckingStream { url, raw } && parts_match(url, v) && raw@
                == url_str@))
        }),
{
    let url: UrlParts = match parse_url_parts(url_str) {
        Ok(u) => u,
        Err(e) => {
            return ResolveState::Finished {
                result: ResolveUrlResult::Unknown { error: Some(e) },
            };
        },
    };
    if !(str_eq(url.scheme.as_str(), "http") || str_eq(url.scheme.as_str(), "https")) {
        let msg = String::from_str("Invalid URL scheme: ").concat(url.scheme.as_str());
        return ResolveState::Finished { result: ResolveUrlResult::Unknown { error: Some(msg) } };
    }
    let raw: String = url_str.to_owned();
    match parse_bbs_url(url) {
        Err(url) => pls_or_stream(url, raw),
        Ok(BbsUrl::ProbablyCompatibleThread(url, _thread)) => {
            let fetch_url = url.full.clone();
            let thread_url = url.full.clone();
            ResolveState::FetchingTitle { fetch_url, thread_url, fallback: url, raw }
        },
        Ok(BbsUrl::ProbablyShitaraba(url)) => pls_or_stream(url, raw),
        Ok(BbsUrl::MaybeCompatibleBoard(url, board)) => {
            let fetch_url = subject_txt_url(url.origin.as_str(), board.as_str());
            let origin = url.origin.clone();
            ResolveState::FetchingSubject { fetch_url, origin, board, fallback: url, raw }
        },
    }
}

/// Advance resolution by one step with what the app layer fetched. An event
/// that does not answer the pending request leaves the state unchanged; a
/// finished state stays finished.
pub fn resolve_step(state: ResolveState, event: ResolveEvent) -> (r: ResolveState)
    ensures
        state matches ResolveState::FetchingTitle { fetch_url, thread_url, fallback, raw }
            ==> match event {
            ResolveEvent::PageFetched { ok, body } => {
                if ok {
                    r matches ResolveState::Finished { result } && result matches
                        ResolveUrlResult::Bbs { thread_url: t, charset, thread_name } && t@
                        == thread_url@ && charset@ == spec_charset_title(body@).0 && thread_name@
                        == spec_charset_title(body@).1
                } else {
                    (spec_starts_with(fallback.path@, "/pls/"@) ==> r == (
                    ResolveState::FetchingPls { url: fallback, raw })) && (!spec_starts_with(
                        fallback.path@,
                        "/pls/"@,
                    ) ==> r == (ResolveState::CheckingStream { url: fallback, raw }))
                }
            },
            _ => r == state,
        },
        state matches ResolveState::FetchingSubject { fetch_url, origin, board, fallback, raw }
            ==> match event {
            ResolveEvent::SubjectFetched { ok, text } => {
                let tok = spec_first_token(spec_first_line(text@));
                if ok && text@.len() > 0 && is_valid_u64_str(tok) {
                    r matches ResolveState::FetchingTitle { fetch_url: f, thread_url: t, fallback:
                        fb, raw: rw } && t@ == origin@ + "/bbs/read.cgi/"@ + board@ + "/"@
                        + dec_digits(digits_value(u64_digits_part(tok))) && f@ == t@ && fb
                        == fallback && rw == raw
                } else {
                    (spec_starts_with(fallback.path@, "/pls/"@) ==> r == (
                    ResolveState::FetchingPls { url: fallback, raw })) && (!spec_starts_with(
                        fallback.path@,
                        "/pls/"@,
                    ) ==> r == (ResolveState::CheckingStream { url: fallback, raw }))
                }
            },
            _ => r == state,
        },
        state matches ResolveState::FetchingPls { url, raw } ==> match event {
            ResolveEvent::PlsFetched { ok, small, pls_content_type, text } => {
                if ok && small && pls_content_type && first_playlist_entry_of(text@) is Some {
                    r matches ResolveState::Finished { result } && result matches
                        ResolveUrlResult::Stream { stream_url } && stream_url@
                        == first_playlist_entry_of(text@).unwrap()
                } else {
                    r == (ResolveState::CheckingStream { url, raw })
                }
            },
            _ => r == state,
        },
        state matches ResolveState::CheckingStream { url, raw } ==> match event {
            ResolveEvent::StreamChecked { ok, is_flv, error } => {
                if !ok {
                    r matches ResolveState::Finished { result } && result matches
                        ResolveUrlResult::Unknown { error: e } && e == Some(error)
                } else if is_flv {
                    r matches ResolveState::Finished { result } && result matches
                        ResolveUrlResult::Stream { stream_url } && stream_url@ == raw@
                } else {
                    r matches ResolveState::Finished { result } && result matches
                        ResolveUrlResult::Unknown { error: e } && e is None
                }
            },
            _ => r == state,
        },
        state matches ResolveState::Finished { result } ==> r == state,
{
    match state {
        ResolveState::FetchingTitle { fetch_url, thread_url, fallback, raw } => match event {
            ResolveEvent::PageFetched { ok, body } => {
                if ok {
                    let (charset, thread_name): (String, String) = charset_title_pair(
                        body.as_slice(),
                    );
                    ResolveState::Finished {
                        result: ResolveUrlResult::Bbs { thread_url, charset, thread_name },
                    }
                } else {
                    pls_or_stream(fallback, raw)
                }
            },
            _ => ResolveState::FetchingTitle { fetch_url, thread_url, fallback, raw },
        },
        ResolveState::FetchingSubject { fetch_url, origin, board, fallback, raw } => match event {
            ResolveEvent::SubjectFetched { ok, text } => {
                if !ok {
                    return pls_or_stream(fallback, raw);
                }
                if text.as_str().is_empty() {
                    return pls_or_stream(fallback, raw);
                }
                match read_latest_thread(text.as_str()) {
                    Ok(key) => {
                        let thread_url = latest_thread_url(origin.as_str(), board.as_str(), key);
                        let fetch_url = thread_url.clone();
                        ResolveState::FetchingTitle { fetch_url, thread_url, fallback, raw }
                    },
                    Err(_) => pls_or_stream(fallback, raw),
                }
            },
            _ => ResolveState::FetchingSubject { fetch_url, origin, board, fallback, raw },
        },
        ResolveState::FetchingPls { url, raw } => match event {
            ResolveEvent::PlsFetched { ok, small, pls_content_type, text } => {
                if !(ok && small && pls_content_type) {
                    return ResolveState::CheckingStream { url, raw };
                }
                match first_playlist_entry(text.as_str()) {
                    Some(stream_url) => ResolveState::Finished {
                        result: ResolveUrlResult::Stream { stream_url },
                    },
                    None => ResolveState::CheckingStream { url, raw },
                }
            },
            _ => ResolveState::FetchingPls { url, raw },
        },
        ResolveState::CheckingStream { url, raw } => match event {
            ResolveEvent::StreamChecked { ok, is_flv, error } => {
                if !ok {
                    ResolveState::Finished {
                        result: ResolveUrlResult::Unknown { error: Some(error) },
                    }
                } else if is_flv {
                    ResolveState::Finished {
                        result: ResolveUrlResult::Stream { stream_url: raw },
                    }
                } else {
                    ResolveState::Finished { result: ResolveUrlResult::Unknown { error: None } }
                }
            },
            _ => ResolveState::CheckingStream { url, raw },
        },
        ResolveState::Finished { result } => ResolveState::Finished { result },
    }
}

} // verus!
