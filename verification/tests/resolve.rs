use puzzle_formats::urls::ResolutionError;
use puzzle_formats::urls::ResolutionOptions;
use puzzle_formats::urls::ResolutionStep;
use puzzle_formats::urls::ResolvedUrlInner;
use puzzle_formats::urls::ScriptedBlockingFetcher;
use puzzle_formats::urls::SudokuPadFullUrl;
use puzzle_formats::urls::UnresolvedUrl;
use puzzle_formats::urls::Url;
use puzzle_formats::urls::UrlValue;

fn unresolved(input: &str) -> UnresolvedUrl {
    match UrlValue::parse(input).unwrap() {
        UrlValue::Unresolved(u) => u,
        UrlValue::Resolved(_) => panic!("expected an unresolved reference for {input}"),
    }
}

#[test]
fn redirect_kind_builds_a_short_link_lookup() {
    let u = unresolved("https://f-puzzles.com/?id=short1");
    match u.resolution_step().unwrap() {
        ResolutionStep::FetchRedirectUrl(url) => {
            assert_eq!(url.as_str(), "https://tinyurl.com/short1");
        }
        ResolutionStep::FetchResult(_) => panic!("wrong action"),
    }
}

#[test]
fn body_kind_builds_the_id_endpoint_lookup() {
    let u = unresolved("https://sudokupad.app/?puzzleid=shortid1");
    match u.resolution_step().unwrap() {
        ResolutionStep::FetchResult(url) => {
            assert_eq!(url.as_str(), "https://sudokupad.app/api/puzzle/shortid1");
        }
        ResolutionStep::FetchRedirectUrl(_) => panic!("wrong action"),
    }
}

#[test]
fn unknown_kind_follows_its_own_redirect() {
    let u = unresolved("https://example.com/p/1");
    match u.resolution_step().unwrap() {
        ResolutionStep::FetchRedirectUrl(url) => {
            assert_eq!(url.as_str(), "https://example.com/p/1");
        }
        ResolutionStep::FetchResult(_) => panic!("wrong action"),
    }
}

#[test]
fn redirect_target_is_reclassified() {
    let u = unresolved("https://f-puzzles.com/?id=short1");
    let target = Url::parse("https://f-puzzles.com/?load=FULLPAYLOAD").unwrap();
    let mut fetcher = ScriptedBlockingFetcher {
        redirect_answer: Some(Some(target)),
        body_answer: None,
        calls: 0,
    };
    let resolved = u
        .resolve_blocking(&mut fetcher, &ResolutionOptions::default())
        .unwrap();
    match resolved.inner() {
        ResolvedUrlInner::FPuzzles(id) => assert_eq!(id, "FULLPAYLOAD"),
        _ => panic!("wrong site"),
    }
    assert_eq!(fetcher.calls, 1);
}

#[test]
fn absent_redirect_keeps_the_original_id() {
    let u = unresolved("https://f-puzzles.com/?id=short1");
    let mut fetcher = ScriptedBlockingFetcher {
        redirect_answer: Some(None),
        body_answer: None,
        calls: 0,
    };
    let resolved = u
        .resolve_blocking(&mut fetcher, &ResolutionOptions::default())
        .unwrap();
    match resolved.inner() {
        ResolvedUrlInner::FPuzzles(id) => assert_eq!(id, "short1"),
        _ => panic!("wrong site"),
    }
}

#[test]
fn unresolvable_redirect_target_is_reported() {
    let u = unresolved("https://example.com/p/1");
    let target = Url::parse("https://another.example.com/p/2").unwrap();
    let mut fetcher = ScriptedBlockingFetcher {
        redirect_answer: Some(Some(target)),
        body_answer: None,
        calls: 0,
    };
    match u.resolve_blocking(&mut fetcher, &ResolutionOptions::default()) {
        Err(ResolutionError::Unresolved(s)) => {
            assert_eq!(s, "https://another.example.com/p/2");
        }
        _ => panic!("expected an unresolved report"),
    }
}

#[test]
fn body_text_is_the_full_id() {
    let u = unresolved("https://sudokupad.app/?puzzleid=shortid1");
    let mut fetcher = ScriptedBlockingFetcher {
        redirect_answer: None,
        body_answer: Some("sclFULLID".to_string()),
        calls: 0,
    };
    let resolved = u
        .resolve_blocking(&mut fetcher, &ResolutionOptions::default())
        .unwrap();
    match resolved.inner() {
        ResolvedUrlInner::SudokuPad(SudokuPadFullUrl::Scl(id)) => assert_eq!(id, "FULLID"),
        _ => panic!("wrong kind"),
    }
    assert_eq!(fetcher.calls, 1);
}

#[test]
fn body_without_a_prefix_is_reported() {
    let u = unresolved("https://sudokupad.app/?puzzleid=shortid1");
    let mut fetcher = ScriptedBlockingFetcher {
        redirect_answer: None,
        body_answer: Some("unprefixed".to_string()),
        calls: 0,
    };
    match u.resolve_blocking(&mut fetcher, &ResolutionOptions::default()) {
        Err(ResolutionError::Unresolved(s)) => assert_eq!(s, "unprefixed"),
        _ => panic!("expected an unresolved report"),
    }
}

#[test]
fn fetcher_failure_is_surfaced() {
    let u = unresolved("https://f-puzzles.com/?id=short1");
    let mut fetcher = ScriptedBlockingFetcher {
        redirect_answer: None,
        body_answer: None,
        calls: 0,
    };
    assert!(matches!(
        u.resolve_blocking(&mut fetcher, &ResolutionOptions::default()),
        Err(ResolutionError::Fetcher(_))
    ));
    assert_eq!(fetcher.calls, 1);
}

#[test]
fn decode_reports_the_placeholder() {
    match UrlValue::parse("https://f-puzzles.com/?load=ABC123").unwrap() {
        UrlValue::Resolved(r) => {
            assert!(r.decode().is_err());
        }
        UrlValue::Unresolved(_) => panic!("expected a resolved reference"),
    }
}
