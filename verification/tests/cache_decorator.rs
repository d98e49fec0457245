use puzzle_formats::urls::BlockingUrlFetcher;
use puzzle_formats::urls::BlockingUrlFetcherCache;
use puzzle_formats::urls::BlockingUrlFetcherCacheExt;
use puzzle_formats::urls::BlockingUrlFetcherErrExt;
use puzzle_formats::urls::CachedFetcher;
use puzzle_formats::urls::CachedFetcherError;
use puzzle_formats::urls::RusqliteBlockingUrlFetcherCache;
use puzzle_formats::urls::ScriptedBlockingFetcher;
use puzzle_formats::urls::ScriptedFetchError;
use puzzle_formats::urls::Url;
use rusqlite::Connection;

fn setup_cache() -> RusqliteBlockingUrlFetcherCache {
    let c = Connection::open_in_memory().unwrap();
    RusqliteBlockingUrlFetcherCache::new(c).unwrap()
}

#[test]
fn warmed_cache_short_circuits_the_network() {
    let mut cache = setup_cache();
    let url1 = Url::parse("https://google.com/").unwrap();
    let url2 = Url::parse("https://bing.com/").unwrap();
    cache
        .store_redirect_blocking(&url1, Some(url2.clone()))
        .unwrap();

    let fetcher = ScriptedBlockingFetcher {
        redirect_answer: Some(None),
        body_answer: None,
        calls: 0,
    };
    let mut cached = fetcher.with_cache_blocking(cache);
    assert_eq!(
        cached.fetch_redirect_url_blocking(&url1).unwrap(),
        Some(url2.clone())
    );
    assert_eq!(cached.fetcher_ref().calls, 0);
}

#[test]
fn stored_no_redirect_differs_from_no_entry() {
    let mut cache = setup_cache();
    let url1 = Url::parse("https://google.com/").unwrap();
    cache.store_redirect_blocking(&url1, None).unwrap();

    let fetcher = ScriptedBlockingFetcher {
        redirect_answer: Some(Some(Url::parse("https://bing.com/").unwrap())),
        body_answer: None,
        calls: 0,
    };
    let mut cached = CachedFetcher::blocking(cache, fetcher);
    // the stored "no redirect" answers the call; the fetcher's Some answer
    // would differ, and it is never consulted
    assert_eq!(cached.fetch_redirect_url_blocking(&url1).unwrap(), None);
    assert_eq!(cached.fetcher_ref().calls, 0);
}

#[test]
fn first_miss_reaches_the_network_once() {
    let cache = setup_cache();
    let url1 = Url::parse("https://google.com/").unwrap();
    let url2 = Url::parse("https://bing.com/").unwrap();

    let fetcher = ScriptedBlockingFetcher {
        redirect_answer: Some(Some(url2.clone())),
        body_answer: None,
        calls: 0,
    };
    let mut cached = CachedFetcher::blocking(cache, fetcher);
    assert_eq!(
        cached.fetch_redirect_url_blocking(&url1).unwrap(),
        Some(url2.clone())
    );
    assert_eq!(cached.fetcher_ref().calls, 1);
    // the second call is answered from the cache
    assert_eq!(
        cached.fetch_redirect_url_blocking(&url1).unwrap(),
        Some(url2.clone())
    );
    assert_eq!(cached.fetcher_ref().calls, 1);
}

#[test]
fn body_fetches_are_cached_too() {
    let cache = setup_cache();
    let url1 = Url::parse("https://google.com/").unwrap();

    let fetcher = ScriptedBlockingFetcher {
        redirect_answer: None,
        body_answer: Some("THISISARANDOMID".to_string()),
        calls: 0,
    };
    let mut cached = CachedFetcher::blocking(cache, fetcher);
    assert_eq!(
        cached.fetch_result_blocking(&url1).unwrap().as_str(),
        "THISISARANDOMID"
    );
    assert_eq!(cached.fetcher_ref().calls, 1);
    assert_eq!(
        cached.fetch_result_blocking(&url1).unwrap().as_str(),
        "THISISARANDOMID"
    );
    assert_eq!(cached.fetcher_ref().calls, 1);
}

#[test]
fn redirect_and_body_tables_do_not_collide() {
    let cache = setup_cache();
    let url1 = Url::parse("https://google.com/").unwrap();
    let url2 = Url::parse("https://bing.com/").unwrap();

    let fetcher = ScriptedBlockingFetcher {
        redirect_answer: Some(Some(url2.clone())),
        body_answer: Some("THISISARANDOMID".to_string()),
        calls: 0,
    };
    let mut cached = CachedFetcher::blocking(cache, fetcher);
    assert_eq!(
        cached.fetch_redirect_url_blocking(&url1).unwrap(),
        Some(url2.clone())
    );
    assert_eq!(
        cached.fetch_result_blocking(&url1).unwrap().as_str(),
        "THISISARANDOMID"
    );
    // both entries answer from the cache now, independently
    assert_eq!(
        cached.fetch_redirect_url_blocking(&url1).unwrap(),
        Some(url2.clone())
    );
    assert_eq!(
        cached.fetch_result_blocking(&url1).unwrap().as_str(),
        "THISISARANDOMID"
    );
    assert_eq!(cached.fetcher_ref().calls, 2);
}

#[test]
fn inner_fetch_failure_writes_nothing() {
    let cache = setup_cache();
    let url1 = Url::parse("https://google.com/").unwrap();

    let fetcher = ScriptedBlockingFetcher {
        redirect_answer: None,
        body_answer: None,
        calls: 0,
    };
    let mut cached = CachedFetcher::blocking(cache, fetcher);
    assert!(matches!(
        cached.fetch_redirect_url_blocking(&url1),
        Err(CachedFetcherError::FetchError(_))
    ));
    assert_eq!(cached.fetcher_ref().calls, 1);
    // still a miss: the failed fetch left no row behind, so the inner
    // fetcher is consulted again
    assert!(matches!(
        cached.fetch_redirect_url_blocking(&url1),
        Err(CachedFetcherError::FetchError(_))
    ));
    assert_eq!(cached.fetcher_ref().calls, 2);
}

#[test]
fn broken_cache_backend_is_not_bypassed() {
    let c = Connection::open_in_memory().unwrap();
    c.execute(
        "CREATE TABLE IF NOT EXISTS redirect_cache (
                request_url     TEXT NOT NULL PRIMARY KEY,
                redirect_url    TEXT
            )",
        (),
    )
    .unwrap();
    c.execute(
        "INSERT OR REPLACE INTO redirect_cache (request_url, redirect_url) VALUES (?1, ?2)",
        ("https://google.com/", "not a url at all"),
    )
    .unwrap();
    let cache = RusqliteBlockingUrlFetcherCache::new(c).unwrap();
    let url1 = Url::parse("https://google.com/").unwrap();
    let fetcher = ScriptedBlockingFetcher {
        redirect_answer: Some(None),
        body_answer: None,
        calls: 0,
    };
    let mut cached = CachedFetcher::blocking(cache, fetcher);
    assert!(matches!(
        cached.fetch_redirect_url_blocking(&url1),
        Err(CachedFetcherError::CacheFetchError(_))
    ));
    assert_eq!(cached.fetcher_ref().calls, 0);
}

#[test]
fn mapped_errors_pass_through_the_mapper() {
    let fetcher = ScriptedBlockingFetcher {
        redirect_answer: None,
        body_answer: None,
        calls: 0,
    };
    let mut mapped = fetcher.map_err_blocking(|_e: ScriptedFetchError| 7u32);
    let url1 = Url::parse("https://google.com/").unwrap();
    assert_eq!(mapped.fetch_redirect_url_blocking(&url1), Err(7u32));
    assert_eq!(mapped.fetch_result_blocking(&url1), Err(7u32));
}
