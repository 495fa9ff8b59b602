use pcoplayer::bbs::{
    is_shitaraba_bbs, latest_thread_url, new, parse_board_url, parse_bbs_url, parse_thread_url,
    read_latest_thread, subject_txt_url, BbsError, BbsUrl, Shitaraba, UrlParts,
};
use pcoplayer::bbs::Thread;
use pcoplayer::text::{parse_u64, u64_to_string};

fn url(host: Option<&str>, path: &str) -> UrlParts {
    let origin = match host {
        Some(h) => format!("http://{}", h),
        None => "null".to_string(),
    };
    let full = format!("{}{}", origin, path);
    UrlParts {
        scheme: "http".to_string(),
        host: host.map(|h| h.to_string()),
        path: path.to_string(),
        origin,
        full,
    }
}

#[test]
fn shitaraba_is_recognized_by_host_or_path() {
    assert!(is_shitaraba_bbs("jbbs.shitaraba.net", "/anything"));
    assert!(is_shitaraba_bbs("example.com", "/bbs/read.cgi/game/1/2"));
    assert!(!is_shitaraba_bbs("example.com", "/board/"));
    assert!(!is_shitaraba_bbs("jbbs.shitaraba.example", "/bbs/read.cgx/"));
}

#[test]
fn thread_url_parses_directory_board_and_key() {
    let u = url(Some("example.com"), "/bbs/read.cgi/game/12345/67890");
    let t = parse_thread_url(&u).unwrap();
    let req = t.post_request("utf-8", "", "", "").unwrap();
    assert_eq!(req.url, "http://example.com/bbs/write.cgi/game/12345/67890/");
}

#[test]
fn thread_url_allows_a_suffix_after_the_key() {
    assert!(parse_thread_url(&url(Some("e.com"), "/bbs/read.cgi/g/1/2/l50")).is_some());
    assert!(parse_thread_url(&url(Some("e.com"), "/bbs/read.cgi/g/1/2:/x")).is_some());
}

#[test]
fn thread_url_rejects_malformed_paths() {
    assert!(parse_thread_url(&url(Some("e.com"), "/bbs/read.cgi/")).is_none());
    assert!(parse_thread_url(&url(Some("e.com"), "/bbs/read.cgi/game")).is_none());
    assert!(parse_thread_url(&url(Some("e.com"), "/bbs/read.cgi/game/12345")).is_none());
    assert!(parse_thread_url(&url(Some("e.com"), "/bbs/read.cgi//1/2")).is_none());
    assert!(parse_thread_url(&url(Some("e.com"), "/bbs/read.cgi/g/x/2")).is_none());
    assert!(parse_thread_url(&url(Some("e.com"), "/bbs/read.cgi/g/1/x")).is_none());
    assert!(parse_thread_url(&url(Some("e.com"), "/other/read.cgi/g/1/2")).is_none());
}

#[test]
fn board_url_strips_the_slashes() {
    assert_eq!(parse_board_url(&url(Some("e.com"), "/abc/")).as_deref(), Some("abc"));
    assert_eq!(parse_board_url(&url(Some("e.com"), "/abc")).as_deref(), Some("abc"));
    assert_eq!(parse_board_url(&url(Some("e.com"), "/a/b")).as_deref(), Some("a/b"));
    assert_eq!(parse_board_url(&url(Some("e.com"), "//")).as_deref(), Some("/"));
    assert_eq!(parse_board_url(&url(Some("e.com"), "/")), None);
    assert_eq!(parse_board_url(&url(Some("e.com"), "")), None);
}

#[test]
fn shitaraba_new_rejects_non_thread_urls() {
    let err = Shitaraba::new(&url(Some("e.com"), "/board/")).err();
    assert_eq!(err, Some(BbsError::InvalidUrl));
}

#[test]
fn new_thread_refuses_missing_host_and_shitaraba() {
    assert_eq!(new(&url(None, "/x/")).err(), Some(BbsError::NoHost));
    assert_eq!(
        new(&url(Some("jbbs.shitaraba.net"), "/board/")).err(),
        Some(BbsError::ShitarabaUnsupported)
    );
    // A thread-reader path counts as the unsupported service as well, so no
    // compatible thread can actually be built from one.
    assert_eq!(
        new(&url(Some("e.com"), "/bbs/read.cgi/g/1/2")).err(),
        Some(BbsError::ShitarabaUnsupported)
    );
    assert_eq!(new(&url(Some("e.com"), "/board/")).err(), Some(BbsError::InvalidUrl));
}

#[test]
fn classification_prefers_thread_then_board_then_shitaraba() {
    let t = parse_bbs_url(url(Some("e.com"), "/bbs/read.cgi/g/1/2"));
    assert!(matches!(t, Ok(BbsUrl::ProbablyCompatibleThread(_, _))));

    let b = parse_bbs_url(url(Some("e.com"), "/board/"));
    match b {
        Ok(BbsUrl::MaybeCompatibleBoard(_, board)) => assert_eq!(board, "board"),
        _ => panic!("expected a board"),
    }

    // A thread-reader path with a non-numeric key is no thread, and as a
    // path it still parses as a board, so the board classification wins.
    let s = parse_bbs_url(url(Some("jbbs.shitaraba.net"), "/bbs/read.cgi/g/1/x"));
    assert!(matches!(s, Ok(BbsUrl::MaybeCompatibleBoard(_, _))));

    // Only a host without any board-like path falls to the service check.
    let s2 = parse_bbs_url(url(Some("jbbs.shitaraba.net"), "/"));
    assert!(matches!(s2, Ok(BbsUrl::ProbablyShitaraba(_))));

    let e = parse_bbs_url(url(None, "/board/"));
    assert!(matches!(e, Err(_)));

    let e2 = parse_bbs_url(url(Some("e.com"), "/"));
    assert!(matches!(e2, Err(_)));
}

#[test]
fn into_url_hands_the_url_back() {
    let u = url(Some("e.com"), "/board/");
    match parse_bbs_url(u) {
        Ok(b) => assert_eq!(b.into_url().path, "/board/"),
        Err(_) => panic!("expected a classification"),
    }
}

#[test]
fn read_latest_thread_takes_the_leading_key() {
    assert_eq!(read_latest_thread("12345.cgi,Title(3)\n999.cgi,Old(7)\n"), Ok(12345));
    assert_eq!(read_latest_thread("42"), Ok(42));
    assert_eq!(read_latest_thread("7.x\r\nrest"), Ok(7));
    assert_eq!(read_latest_thread(""), Err(BbsError::EmptySubject));
    assert_eq!(read_latest_thread("\n123.cgi"), Err(BbsError::InvalidNumber));
    assert_eq!(read_latest_thread("abc.cgi,T\n"), Err(BbsError::InvalidNumber));
}

#[test]
fn listing_and_thread_addresses_are_formatted() {
    assert_eq!(
        subject_txt_url("http://e.com", "game"),
        "http://e.com/game/subject.txt"
    );
    assert_eq!(
        latest_thread_url("http://e.com", "game", 12345),
        "http://e.com/bbs/read.cgi/game/12345"
    );
}

#[test]
fn decimal_parsing_matches_the_standard_parser() {
    assert_eq!(parse_u64("0"), Some(0));
    assert_eq!(parse_u64("+12"), Some(12));
    assert_eq!(parse_u64("18446744073709551615"), Some(u64::MAX));
    assert_eq!(parse_u64("18446744073709551616"), None);
    assert_eq!(parse_u64(""), None);
    assert_eq!(parse_u64("+"), None);
    assert_eq!(parse_u64("1a"), None);
    assert_eq!(parse_u64("-1"), None);
    for s in ["0", "+12", "18446744073709551615", "18446744073709551616", "", "+", "1a", "-1"] {
        assert_eq!(parse_u64(s), s.parse::<u64>().ok());
    }
}

#[test]
fn decimal_formatting_matches_the_standard_formatter() {
    for n in [0u64, 7, 10, 1234567890, u64::MAX] {
        assert_eq!(u64_to_string(n), n.to_string());
    }
}

#[test]
fn post_request_encodes_the_form() {
    let t = parse_thread_url(&url(Some("example.com"), "/bbs/read.cgi/game/12345/67890")).unwrap();
    let req = t.post_request("utf-8", "a b", "", "メ").unwrap();
    assert_eq!(req.url, "http://example.com/bbs/write.cgi/game/12345/67890/");
    assert_eq!(req.referer, "http://example.com/bbs/read.cgi/game/12345/67890/");
    assert_eq!(
        req.content_type,
        "application/x-www-form-urlencoded; charset=utf-8"
    );
    assert_eq!(
        req.body,
        "BBS=12345&KEY=67890&DIR=game&NAME=a%20b&MAIL=&MESSAGE=%E3%83%A1"
    );
}

#[test]
fn post_request_encodes_in_the_declared_charset() {
    let t = parse_thread_url(&url(Some("e.com"), "/bbs/read.cgi/g/1/2")).unwrap();
    // "あ" is A4A2 in EUC-JP: the message is encoded in the declared
    // character set, not in UTF-8.
    let req = t.post_request("euc-jp", "", "", "あ").unwrap();
    assert_eq!(req.body, "BBS=1&KEY=2&DIR=g&NAME=&MAIL=&MESSAGE=%A4%A2");
}

#[test]
fn a_thread_builds_its_post_through_the_trait() {
    let t = parse_thread_url(&url(Some("e.com"), "/bbs/read.cgi/g/1/2")).unwrap();
    let via_trait = Thread::post(&t, "utf-8", "n", "m", "x").unwrap();
    let direct = t.post_request("utf-8", "n", "m", "x").unwrap();
    assert_eq!(via_trait.url, direct.url);
    assert_eq!(via_trait.body, direct.body);
}

#[test]
fn post_request_rejects_an_unknown_charset() {
    let t = parse_thread_url(&url(Some("e.com"), "/bbs/read.cgi/g/1/2")).unwrap();
    assert_eq!(
        t.post_request("no-such-charset", "", "", "").err(),
        Some(BbsError::UnknownCharset)
    );
}
