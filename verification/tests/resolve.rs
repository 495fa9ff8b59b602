use pcoplayer::page::charset_title_pair;
use pcoplayer::resolve::{
    is_probably_pls, resolve_start, resolve_step, ResolveEvent, ResolveState, ResolveUrlResult,
};

#[test]
fn pls_paths_are_recognized() {
    assert!(is_probably_pls("/pls/radio"));
    assert!(!is_probably_pls("/radio/pls"));
    assert!(!is_probably_pls("/pl"));
}

#[test]
fn url_parsing_keeps_the_query_in_the_serialized_address() {
    // The parsed URL's serialization, with its query, is what the thread
    // result carries; the path alone drives the classification.
    let state = resolve_start("http://example.com/bbs/read.cgi/game/1/2?x=1");
    match &state {
        ResolveState::FetchingTitle { thread_url, .. } => {
            assert_eq!(thread_url, "http://example.com/bbs/read.cgi/game/1/2?x=1");
        }
        _ => panic!("expected a page fetch"),
    }
}

#[test]
fn text_without_the_playlist_header_is_no_playlist() {
    let state = resolve_start("http://example.com/pls/radio");
    let state = resolve_step(
        state,
        ResolveEvent::SubjectFetched { ok: false, text: String::new() },
    );
    let state = resolve_step(
        state,
        ResolveEvent::PlsFetched {
            ok: true,
            small: true,
            pls_content_type: true,
            text: "http://example.com/stream\n".to_string(),
        },
    );
    assert!(matches!(state, ResolveState::CheckingStream { .. }));
}

#[test]
fn non_url_finishes_unrecognized_with_a_description() {
    match resolve_start("definitely not a url") {
        ResolveState::Finished { result: ResolveUrlResult::Unknown { error } } => {
            assert!(error.is_some());
        }
        _ => panic!("expected an immediate finish"),
    }
}

#[test]
fn wrong_scheme_finishes_unrecognized() {
    match resolve_start("ftp://example.com/x") {
        ResolveState::Finished { result: ResolveUrlResult::Unknown { error } } => {
            assert_eq!(error.as_deref(), Some("Invalid URL scheme: ftp"));
        }
        _ => panic!("expected an immediate finish"),
    }
}

#[test]
fn thread_url_asks_for_its_page_head() {
    let state = resolve_start("http://example.com/bbs/read.cgi/game/1/2");
    match &state {
        ResolveState::FetchingTitle { fetch_url, thread_url, .. } => {
            assert_eq!(fetch_url, "http://example.com/bbs/read.cgi/game/1/2");
            assert_eq!(thread_url, "http://example.com/bbs/read.cgi/game/1/2");
        }
        _ => panic!("expected a page fetch"),
    }
    let page = b"<meta content=\"text/html; charset=Shift_JIS\"><title>My Thread</title>";
    match resolve_step(state, ResolveEvent::PageFetched { ok: true, body: page.to_vec() }) {
        ResolveState::Finished {
            result: ResolveUrlResult::Bbs { thread_url, charset, thread_name },
        } => {
            assert_eq!(thread_url, "http://example.com/bbs/read.cgi/game/1/2");
            assert_eq!(charset, "Shift_JIS");
            assert_eq!(thread_name, "My Thread");
        }
        _ => panic!("expected a thread result"),
    }
}

#[test]
fn board_url_walks_subject_listing_to_the_latest_thread() {
    let state = resolve_start("http://example.com/game/");
    match &state {
        ResolveState::FetchingSubject { fetch_url, .. } => {
            assert_eq!(fetch_url, "http://example.com/game/subject.txt");
        }
        _ => panic!("expected a subject fetch"),
    }
    let state = resolve_step(
        state,
        ResolveEvent::SubjectFetched { ok: true, text: "12345.cgi,Title\n".to_string() },
    );
    match &state {
        ResolveState::FetchingTitle { fetch_url, thread_url, .. } => {
            assert_eq!(fetch_url, "http://example.com/bbs/read.cgi/game/12345");
            assert_eq!(thread_url, "http://example.com/bbs/read.cgi/game/12345");
        }
        _ => panic!("expected a page fetch"),
    }
}

#[test]
fn failed_bbs_interpretation_falls_back_to_playlist_then_stream() {
    let state = resolve_start("http://example.com/pls/radio");
    // The path parses as a board name first, so the subject listing is
    // tried; when that fails, the playlist path takes over.
    let state = resolve_step(
        state,
        ResolveEvent::SubjectFetched { ok: false, text: String::new() },
    );
    assert!(matches!(state, ResolveState::FetchingPls { .. }));
    let pls = "#EXTM3U\n#EXTINF:1,R\nhttp://example.com/live\n".to_string();
    match resolve_step(
        state,
        ResolveEvent::PlsFetched { ok: true, small: true, pls_content_type: true, text: pls },
    ) {
        ResolveState::Finished { result: ResolveUrlResult::Stream { stream_url } } => {
            assert_eq!(stream_url, "http://example.com/live");
        }
        _ => panic!("expected a stream result"),
    }
}

#[test]
fn an_unusable_playlist_falls_back_to_the_stream_probe() {
    let state = resolve_start("http://example.com/pls/radio");
    let state = resolve_step(
        state,
        ResolveEvent::SubjectFetched { ok: false, text: String::new() },
    );
    let state = resolve_step(
        state,
        ResolveEvent::PlsFetched {
            ok: true,
            small: false,
            pls_content_type: true,
            text: String::new(),
        },
    );
    match &state {
        ResolveState::CheckingStream { url, .. } => {
            assert_eq!(url.full, "http://example.com/pls/radio");
        }
        _ => panic!("expected a stream probe"),
    }
    match resolve_step(
        state,
        ResolveEvent::StreamChecked { ok: true, is_flv: true, error: String::new() },
    ) {
        ResolveState::Finished { result: ResolveUrlResult::Stream { stream_url } } => {
            assert_eq!(stream_url, "http://example.com/pls/radio");
        }
        _ => panic!("expected a stream result"),
    }
}

#[test]
fn a_failed_probe_reports_its_description() {
    let state = resolve_start("http://example.com/");
    assert!(matches!(state, ResolveState::CheckingStream { .. }));
    match resolve_step(
        state,
        ResolveEvent::StreamChecked { ok: false, is_flv: false, error: "boom".to_string() },
    ) {
        ResolveState::Finished { result: ResolveUrlResult::Unknown { error } } => {
            assert_eq!(error.as_deref(), Some("boom"));
        }
        _ => panic!("expected an unrecognized result"),
    }
}

#[test]
fn a_probe_without_a_stream_finishes_unrecognized() {
    let state = resolve_start("http://example.com/");
    match resolve_step(
        state,
        ResolveEvent::StreamChecked { ok: true, is_flv: false, error: String::new() },
    ) {
        ResolveState::Finished { result: ResolveUrlResult::Unknown { error } } => {
            assert_eq!(error, None);
        }
        _ => panic!("expected an unrecognized result"),
    }
}

#[test]
fn a_mismatched_event_changes_nothing() {
    let state = resolve_start("http://example.com/");
    let state = resolve_step(
        state,
        ResolveEvent::SubjectFetched { ok: true, text: "1.cgi".to_string() },
    );
    assert!(matches!(state, ResolveState::CheckingStream { .. }));
}

#[test]
fn stream_results_carry_the_callers_exact_url_text() {
    // The parser normalizes case and drops the default port; the playlist
    // fetch, the stream probe and the stream result use the caller's text
    // verbatim.
    let state = resolve_start("HTTP://EXAMPLE.com:80/pls/Radio");
    let state = resolve_step(
        state,
        ResolveEvent::SubjectFetched { ok: false, text: String::new() },
    );
    match &state {
        ResolveState::FetchingPls { url, raw } => {
            assert_eq!(url.full, "http://example.com/pls/Radio");
            assert_eq!(raw, "HTTP://EXAMPLE.com:80/pls/Radio");
        }
        _ => panic!("expected a playlist fetch"),
    }
    let state = resolve_step(
        state,
        ResolveEvent::PlsFetched {
            ok: true,
            small: true,
            pls_content_type: true,
            text: String::new(),
        },
    );
    match resolve_step(
        state,
        ResolveEvent::StreamChecked { ok: true, is_flv: true, error: String::new() },
    ) {
        ResolveState::Finished { result: ResolveUrlResult::Stream { stream_url } } => {
            assert_eq!(stream_url, "HTTP://EXAMPLE.com:80/pls/Radio");
        }
        _ => panic!("expected a stream result"),
    }
}

#[test]
fn a_playlist_that_would_fault_the_reader_yields_no_entry() {
    // A line whose seventh byte falls inside a multi-byte character would
    // strike the playlist reader's fixed-index slicing; such text is
    // screened out and resolution falls through to the stream probe.
    let state = resolve_start("http://example.com/pls/radio");
    let state = resolve_step(
        state,
        ResolveEvent::SubjectFetched { ok: false, text: String::new() },
    );
    let state = resolve_step(
        state,
        ResolveEvent::PlsFetched {
            ok: true,
            small: true,
            pls_content_type: true,
            text: "#EXTM3\u{e9}\nhttp://example.com/live\n".to_string(),
        },
    );
    assert!(matches!(state, ResolveState::CheckingStream { .. }));
}

#[test]
fn charset_detection_reads_the_declared_label() {
    let (charset, title) =
        charset_title_pair(b"<meta content=\"text/html; charset=Shift_JIS\"><title>Abc</title>");
    assert_eq!(charset, "Shift_JIS");
    assert_eq!(title, "Abc");
}

#[test]
fn charset_detection_falls_back_to_utf8() {
    let (charset, title) = charset_title_pair(b"<title>Plain</title>");
    assert_eq!(charset, "UTF-8");
    assert_eq!(title, "Plain");

    let (charset, _) = charset_title_pair(b"charset=no-such-encoding;");
    assert_eq!(charset, "UTF-8");
}

#[test]
fn quoted_charset_labels_are_accepted() {
    let (charset, title) = charset_title_pair(b"<meta charset=\"euc-jp\"><x><title>T</title>");
    // The quoted form captures up to the last quote of the head; with no
    // later quote in the buffer that is the label itself.
    assert_eq!(charset, "euc-jp");
    assert_eq!(title, "T");
}

#[test]
fn title_matching_ignores_ascii_case() {
    let (_, title) = charset_title_pair(b"<TITLE>Shouting</TiTlE>");
    assert_eq!(title, "Shouting");
    let (_, title) = charset_title_pair(b"no title here");
    assert_eq!(title, "");
}

#[test]
fn a_title_never_spans_a_line_break() {
    let (_, title) = charset_title_pair(b"<title>line1\nline2</title>");
    assert_eq!(title, "");
    // The scan moves past an opening tag whose closing tag lies beyond a
    // line feed, and takes the next single-line element.
    let (_, title) = charset_title_pair(b"<title>a\n</title><title>b</title>");
    assert_eq!(title, "b");
}

#[test]
fn title_is_decoded_in_the_declared_charset() {
    // "\x83\x81" is the katakana letter "me" in Shift_JIS.
    let mut page: Vec<u8> = b"<meta content=\"x; charset=Shift_JIS\"><title>".to_vec();
    page.extend_from_slice(&[0x83, 0x81]);
    page.extend_from_slice(b"</title>");
    let (charset, title) = charset_title_pair(&page);
    assert_eq!(charset, "Shift_JIS");
    assert_eq!(title, "\u{30E1}");
}
