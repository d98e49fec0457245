use puzzle_formats::urls::BlockingUrlFetcherCache;
use puzzle_formats::urls::CacheError;
use puzzle_formats::urls::RusqliteBlockingUrlFetcherCache;
use puzzle_formats::urls::Url;
use rusqlite::Connection;

fn setup_cache() -> RusqliteBlockingUrlFetcherCache {
    let c = Connection::open_in_memory().unwrap();
    RusqliteBlockingUrlFetcherCache::new(c).unwrap()
}

#[test]
fn redirect() {
    let mut cache = setup_cache();

    let url1 = Url::parse("https://google.com/").unwrap();
    let url2 = Url::parse("https://bing.com/").unwrap();
    let url3 = Url::parse("https://yahoo.com/").unwrap();

    assert!(matches!(
        cache.fetch_redirect_url_blocking(&url1),
        Err(CacheError::NoCacheValue)
    ));
    assert!(matches!(
        cache.fetch_redirect_url_blocking(&url2),
        Err(CacheError::NoCacheValue)
    ));

    cache
        .store_redirect_blocking(&url1, Some(url3.clone()))
        .unwrap();

    assert_eq!(
        cache.fetch_redirect_url_blocking(&url1).unwrap(),
        Some(url3.clone())
    );
    assert!(matches!(
        cache.fetch_redirect_url_blocking(&url2),
        Err(CacheError::NoCacheValue)
    ));

    cache.store_redirect_blocking(&url2, None).unwrap();

    assert_eq!(
        cache.fetch_redirect_url_blocking(&url1).unwrap(),
        Some(url3.clone())
    );
    assert_eq!(cache.fetch_redirect_url_blocking(&url2).unwrap(), None);

    cache.store_redirect_blocking(&url1, None).unwrap();

    assert_eq!(cache.fetch_redirect_url_blocking(&url1).unwrap(), None);
    assert_eq!(cache.fetch_redirect_url_blocking(&url2).unwrap(), None);
}

#[test]
fn result() {
    let mut cache = setup_cache();

    let url1 = Url::parse("https://google.com/").unwrap();
    let url2 = Url::parse("https://bing.com/").unwrap();

    let val1 = "THISISARANDOMID";
    let val2 = "ANOTHERRANDOMID";

    assert!(matches!(
        cache.fetch_result_blocking(&url1),
        Err(CacheError::NoCacheValue)
    ));
    assert!(matches!(
        cache.fetch_result_blocking(&url2),
        Err(CacheError::NoCacheValue)
    ));

    cache.store_result_blocking(&url1, val1).unwrap();

    assert_eq!(cache.fetch_result_blocking(&url1).unwrap().as_str(), val1);
    assert!(matches!(
        cache.fetch_result_blocking(&url2),
        Err(CacheError::NoCacheValue)
    ));

    cache.store_result_blocking(&url2, val2).unwrap();

    assert_eq!(cache.fetch_result_blocking(&url1).unwrap().as_str(), val1);
    assert_eq!(cache.fetch_result_blocking(&url2).unwrap().as_str(), val2);

    cache.store_result_blocking(&url1, val2).unwrap();

    assert_eq!(cache.fetch_result_blocking(&url1).unwrap().as_str(), val2);
    assert_eq!(cache.fetch_result_blocking(&url2).unwrap().as_str(), val2);
}

#[test]
fn overlap() {
    let mut cache = setup_cache();

    let url1 = Url::parse("https://google.com/").unwrap();
    let url2 = Url::parse("https://bing.com/").unwrap();

    let val1 = "THISISARANDOMID";

    assert!(matches!(
        cache.fetch_redirect_url_blocking(&url1),
        Err(CacheError::NoCacheValue)
    ));
    assert!(matches!(
        cache.fetch_result_blocking(&url1),
        Err(CacheError::NoCacheValue)
    ));

    cache
        .store_redirect_blocking(&url1, Some(url2.clone()))
        .unwrap();

    assert_eq!(
        cache.fetch_redirect_url_blocking(&url1).unwrap(),
        Some(url2.clone())
    );
    assert!(matches!(
        cache.fetch_result_blocking(&url1),
        Err(CacheError::NoCacheValue)
    ));

    cache.store_result_blocking(&url1, val1).unwrap();

    assert_eq!(
        cache.fetch_redirect_url_blocking(&url1).unwrap(),
        Some(url2.clone())
    );
    assert_eq!(cache.fetch_result_blocking(&url1).unwrap().as_str(), val1);

    cache
        .store_redirect_blocking(&url1, Some(url1.clone()))
        .unwrap();

    assert_eq!(
        cache.fetch_redirect_url_blocking(&url1).unwrap(),
        Some(url1.clone())
    );
    assert_eq!(cache.fetch_result_blocking(&url1).unwrap().as_str(), val1);
}

#[test]
fn unparseable_stored_redirect_is_a_backend_error() {
    let c = Connection::open_in_memory().unwrap();
    c.execute(
        "CREATE TABLE IF NOT EXISTS redirect_cache (
                request_url     TEXT NOT NULL PRIMARY KEY,
                redirect_url    TEXT
            )",
        (),
    )
    .unwrap();
    c.execute(
        "INSERT OR REPLACE INTO redirect_cache (request_url, redirect_url) VALUES (?1, ?2)",
        ("https://google.com/", "not a url at all"),
    )
    .unwrap();
    let mut cache = RusqliteBlockingUrlFetcherCache::new(c).unwrap();
    let url1 = Url::parse("https://google.com/").unwrap();
    assert!(matches!(
        cache.fetch_redirect_url_blocking(&url1),
        Err(CacheError::CacheFetchError(_))
    ));
}
