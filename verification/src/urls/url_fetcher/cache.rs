//! A caching decorator: wraps any fetcher and a persistent key-value
//! store, consulting the store before the network and writing fetched
//! results back.
//!
//! The store is modeled as two maps keyed by the request URL's canonical
//! string: one table of redirect outcomes and one of body texts. The two
//! tables are separate namespaces, so a redirect entry and a body entry
//! for the same URL never collide.

use vstd::prelude::*;

use super::super::parsed_url::Url;
use super::super::parsed_url::UrlModel;
use super::super::parsed_url::opt_url_model;
use super::super::parsed_url::parse_url_of;
use super::super::parsed_url::url_model_wf;
use super::BlockingUrlFetcher;

verus! {

/// Outcome of asking a cache backend for a value.
#[derive(Debug)]
pub enum CacheError<E> {
    /// The backend holds no value for the key: an expected miss, not a
    /// fault.
    NoCacheValue,
    /// The backend itself failed.
    CacheFetchError(E),
}

/// The stored text of an optional redirect target: its canonical
/// serialization, or the marker for "no redirect".
pub open spec fn opt_serialization(v: Option<UrlModel>) -> Option<Seq<char>> {
    match v {
        Some(m) => Some(m.serialization),
        None => None,
    }
}

/// How a stored redirect entry relates to a value handed back from the
/// cache: a stored "no redirect" comes back as `None`, and a stored
/// serialization comes back as the URL it parses to.
pub open spec fn redirect_entry_decodes(stored: Option<Seq<char>>, got: Option<UrlModel>) -> bool {
    match (stored, got) {
        (None, None) => true,
        (Some(s), Some(m)) => parse_url_of(s) == Some(m),
        _ => false,
    }
}

/// A persistent store of fetch outcomes, keyed by request URL. Fetching
/// never changes the store; each store operation writes exactly its own
/// table, upserting under the request URL's canonical string.
pub trait BlockingUrlFetcherCache {
    /// The backend's error type for reads.
    type FetchError;

    /// The backend's error type for writes.
    type StoreError;

    /// The redirect table: request URL string to stored redirect target
    /// text, where `None` records that no redirect occurred.
    spec fn redirect_model(&self) -> Map<Seq<char>, Option<Seq<char>>>;

    /// The body table: request URL string to stored response body.
    spec fn result_model(&self) -> Map<Seq<char>, Seq<char>>;

    /// Look up the stored redirect outcome for `url`.
    fn fetch_redirect_url_blocking(&mut self, url: &Url) -> (r: Result<
        Option<Url>,
        CacheError<Self::FetchError>,
    >)
        ensures
            final(self).redirect_model() == old(self).redirect_model(),
            final(self).result_model() == old(self).result_model(),
            r matches Ok(v) ==> old(self).redirect_model().contains_key(url@.serialization)
                && redirect_entry_decodes(
                old(self).redirect_model()[url@.serialization],
                opt_url_model(v),
            ),
            r matches Err(e) ==> e matches CacheError::NoCacheValue ==> !old(
                self,
            ).redirect_model().contains_key(url@.serialization),
    ;

    /// Look up the stored body for `url`.
    fn fetch_result_blocking(&mut self, url: &Url) -> (r: Result<
        String,
        CacheError<Self::FetchError>,
    >)
        ensures
            final(self).redirect_model() == old(self).redirect_model(),
            final(self).result_model() == old(self).result_model(),
            r matches Ok(v) ==> old(self).result_model().contains_key(url@.serialization) && old(
                self,
            ).result_model()[url@.serialization] == v@,
            r matches Err(e) ==> e matches CacheError::NoCacheValue ==> !old(
                self,
            ).result_model().contains_key(url@.serialization),
    ;

    /// Upsert the redirect outcome for `url`. On failure nothing is
    /// written: a write is a single statement, atomic per key.
    fn store_redirect_blocking(&mut self, url: &Url, value: Option<Url>) -> (r: Result<
        (),
        Self::StoreError,
    >)
        ensures
            final(self).result_model() == old(self).result_model(),
            r matches Ok(_) ==> final(self).redirect_model() == old(
                self,
            ).redirect_model().insert(url@.serialization, opt_serialization(opt_url_model(value))),
            r matches Err(_) ==> final(self).redirect_model() == old(self).redirect_model(),
    ;

    /// Upsert the body for `url`. On failure nothing is written.
    fn store_result_blocking(&mut self, url: &Url, value: &str) -> (r: Result<
        (),
        Self::StoreError,
    >)
        ensures
            final(self).redirect_model() == old(self).redirect_model(),
            r matches Ok(_) ==> final(self).result_model() == old(self).result_model().insert(
                url@.serialization,
                value@,
            ),
            r matches Err(_) ==> final(self).result_model() == old(self).result_model(),
    ;
}

/// Why a cached fetch failed: the three failure sources stay
/// distinguishable to the caller.
#[derive(Debug)]
pub enum CachedFetcherError<CF, CS, F> {
    /// The cache backend failed while being consulted; a broken cache is
    /// not silently bypassed.
    CacheFetchError(CF),
    /// The fetch itself succeeded but writing it back failed; the fetched
    /// value is discarded so that only durably cached answers are served.
    CacheStoreError(CS),
    /// The inner fetcher failed; nothing is written back.
    FetchError(F),
}

/// A fetcher that consults `cache` before delegating to `fetcher`, and
/// writes fetched outcomes back. It implements the fetcher interface
/// itself, so it composes transparently.
pub struct CachedFetcher<C, F> {
    cache: C,
    fetcher: F,
}

impl<C, F> CachedFetcher<C, F> {
    /// The wrapped cache backend.
    pub closed spec fn spec_cache(self) -> C {
        self.cache
    }

    /// The wrapped inner fetcher.
    pub closed spec fn spec_fetcher(self) -> F {
        self.fetcher
    }
}

impl<C, F> CachedFetcher<C, F> where C: BlockingUrlFetcherCache, F: BlockingUrlFetcher {
    /// A view of the wrapped inner fetcher, for callers that observe it.
    pub fn fetcher_ref(&self) -> (r: &F)
        ensures
            *r == self.spec_fetcher(),
    {
        &self.fetcher
    }

    /// Wraps a cache backend and a blocking fetcher.
    pub fn blocking(cache: C, fetcher: F) -> (r: Self)
        ensures
            r.spec_cache() == cache,
            r.spec_fetcher() == fetcher,
    {
        CachedFetcher { cache, fetcher }
    }
}

/// An extension method that wraps a blocking fetcher in a cache.
pub trait BlockingUrlFetcherCacheExt: BlockingUrlFetcher + Sized {
    /// Wraps `self` so that every fetch consults `cache` first.
    fn with_cache_blocking<C: BlockingUrlFetcherCache>(self, cache: C) -> (r: CachedFetcher<
        C,
        Self,
    >)
        ensures
            r.spec_cache() == cache,
            r.spec_fetcher() == self,
    ;
}

impl<F: BlockingUrlFetcher> BlockingUrlFetcherCacheExt for F {
    fn with_cache_blocking<C: BlockingUrlFetcherCache>(self, cache: C) -> (r: CachedFetcher<
        C,
        Self,
    >) {
        CachedFetcher::blocking(cache, self)
    }
}

pub(crate) fn clone_opt_url(v: &Option<Url>) -> (r: Option<Url>)
    ensures
        opt_url_model(r) == opt_url_model(*v),
{
    match v {
        Some(u) => Some(u.clone()),
        None => None,
    }
}

impl<C, F> BlockingUrlFetcher for CachedFetcher<C, F> where
    C: BlockingUrlFetcherCache,
    F: BlockingUrlFetcher,
 {
    type Error = CachedFetcherError<C::FetchError, C::StoreError, F::Error>;

    /// On a hit the stored entry is decoded and returned, the store is
    /// unchanged and the inner fetcher untouched; a backend failure is
    /// surfaced, never bypassed. On a miss the inner fetcher answers and
    /// its outcome is written back under the request URL; if the inner
    /// fetch fails nothing is written; if the write-back fails, that is
    /// reported distinctly. The body table is never touched.
    fn fetch_redirect_url_blocking(&mut self, url: &Url) -> (r: Result<Option<Url>, Self::Error>)
        ensures
            final(self).spec_cache().result_model() == old(self).spec_cache().result_model(),
            old(self).spec_cache().redirect_model().contains_key(url@.serialization) ==> {
                &&& final(self).spec_fetcher() == old(self).spec_fetcher()
                &&& final(self).spec_cache().redirect_model() == old(
                    self,
                ).spec_cache().redirect_model()
                &&& match r {
                    Ok(v) => redirect_entry_decodes(
                        old(self).spec_cache().redirect_model()[url@.serialization],
                        opt_url_model(v),
                    ),
                    Err(e) => e is CacheFetchError,
                }
            },
            !old(self).spec_cache().redirect_model().contains_key(url@.serialization) ==> match r {
                Ok(v) => final(self).spec_cache().redirect_model() == old(
                    self,
                ).spec_cache().redirect_model().insert(
                    url@.serialization,
                    opt_serialization(opt_url_model(v)),
                ),
                Err(e) => {
                    &&& final(self).spec_cache().redirect_model() == old(
                        self,
                    ).spec_cache().redirect_model()
                    &&& (e is CacheFetchError ==> final(self).spec_fetcher() == old(
                        self,
                    ).spec_fetcher())
                },
            },
    {
        match self.cache.fetch_redirect_url_blocking(url) {
            Ok(value) => {
                return Ok(value);
            },
            Err(CacheError::CacheFetchError(err)) => {
                return Err(CachedFetcherError::CacheFetchError(err));
            },
            Err(CacheError::NoCacheValue) => {},
        }
        let value = match self.fetcher.fetch_redirect_url_blocking(url) {
            Ok(v) => v,
            Err(err) => {
                return Err(CachedFetcherError::FetchError(err));
            },
        };
        let stored = clone_opt_url(&value);
        match self.cache.store_redirect_blocking(url, stored) {
            Ok(_) => Ok(value),
            Err(err) => Err(CachedFetcherError::CacheStoreError(err)),
        }
    }

    /// The body-fetch twin of `fetch_redirect_url_blocking`, caching the
    /// full body text under the request URL. The redirect table is never
    /// touched.
    fn fetch_result_blocking(&mut self, url: &Url) -> (r: Result<String, Self::Error>)
        ensures
            final(self).spec_cache().redirect_model() == old(self).spec_cache().redirect_model(),
            old(self).spec_cache().result_model().contains_key(url@.serialization) ==> {
                &&& final(self).spec_fetcher() == old(self).spec_fetcher()
                &&& final(self).spec_cache().result_model() == old(self).spec_cache().result_model()
                &&& match r {
                    Ok(v) => old(self).spec_cache().result_model()[url@.serialization] == v@,
                    Err(e) => e is CacheFetchError,
                }
            },
            !old(self).spec_cache().result_model().contains_key(url@.serialization) ==> match r {
                Ok(v) => final(self).spec_cache().result_model() == old(
                    self,
                ).spec_cache().result_model().insert(url@.serialization, v@),
                Err(e) => {
                    &&& final(self).spec_cache().result_model() == old(
                        self,
                    ).spec_cache().result_model()
                    &&& (e is CacheFetchError ==> final(self).spec_fetcher() == old(
                        self,
                    ).spec_fetcher())
                },
            },
    {
        match self.cache.fetch_result_blocking(url) {
            Ok(value) => {
                return Ok(value);
            },
            Err(CacheError::CacheFetchError(err)) => {
                return Err(CachedFetcherError::CacheFetchError(err));
            },
            Err(CacheError::NoCacheValue) => {},
        }
        let value = match self.fetcher.fetch_result_blocking(url) {
            Ok(v) => v,
            Err(err) => {
                return Err(CachedFetcherError::FetchError(err));
            },
        };
        match self.cache.store_result_blocking(url, value.as_str()) {
            Ok(_) => Ok(value),
            Err(err) => Err(CachedFetcherError::CacheStoreError(err)),
        }
    }
}

/// Cache round trip for redirects: once a redirect outcome for a request
/// is stored, a hit on that request decodes to exactly the stored
/// outcome — storing `Some(target)` fetches back that target, and storing
/// a "no redirect" marker fetches back `None`, distinguishable from a
/// missing entry.
pub proof fn lemma_redirect_round_trip(
    m: Map<Seq<char>, Option<Seq<char>>>,
    k: Seq<char>,
    stored: Option<UrlModel>,
    got: Option<UrlModel>,
)
    requires
        match stored {
            Some(u) => url_model_wf(u),
            None => true,
        },
        redirect_entry_decodes(m.insert(k, opt_serialization(stored))[k], got),
    ensures
        got == stored,
{
}

/// Cache round trip for bodies: the body table stores the text verbatim,
/// so what was stored under a request is exactly what a hit returns.
pub proof fn lemma_result_round_trip(
    m: Map<Seq<char>, Seq<char>>,
    k: Seq<char>,
    stored: Seq<char>,
)
    ensures
        m.insert(k, stored)[k] == stored,
{
}

/// Namespace independence: storing a redirect outcome transforms the
/// tables from `(r, b)` to `(r.insert(k, v), b)` and storing a body
/// transforms them to `(r, b.insert(k, w))` — the store contracts above —
/// so storing both under the same request URL leaves each independently
/// retrievable.
pub proof fn lemma_namespace_independence(
    redirects: Map<Seq<char>, Option<Seq<char>>>,
    bodies: Map<Seq<char>, Seq<char>>,
    k: Seq<char>,
    v: Option<Seq<char>>,
    w: Seq<char>,
)
    ensures
        redirects.insert(k, v)[k] == v,
        bodies.insert(k, w)[k] == w,
        redirects.insert(k, v).insert(k, v)[k] == v,
{
}

/// Idempotence of a warmed cache: two hits on the same stored entry
/// decode to the same value. Together with the decorator's contract — a
/// hit leaves the store unchanged and the inner fetcher untouched — two
/// consecutive fetches of one URL against a warmed cache return identical
/// results and the second never reaches the network.
pub proof fn lemma_warm_hits_agree(
    entry: Option<Seq<char>>,
    got1: Option<UrlModel>,
    got2: Option<UrlModel>,
)
    requires
        redirect_entry_decodes(entry, got1),
        redirect_entry_decodes(entry, got2),
    ensures
        got1 == got2,
{
}

} // verus!
