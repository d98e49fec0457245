//! The minimal capability interface for the two network operations this
//! crate needs, independent of any specific HTTP client.

use vstd::prelude::*;

pub mod cache;
pub mod map_err;
pub mod scripted;
pub mod sqlite_cache;

use super::parsed_url::Url;

verus! {

/// A blocking fetcher. Implementations perform network I/O, so nothing is
/// promised of their results: callers state what holds of every outcome.
pub trait BlockingUrlFetcher {
    /// The implementation's own error type.
    type Error;

    /// Fetch the redirect of a single request to `url`, with redirect
    /// following disabled. `None` means the response carried no redirect.
    fn fetch_redirect_url_blocking(&mut self, url: &Url) -> Result<Option<Url>, Self::Error>;

    /// Fetch the response body of a request to `url`, following redirects.
    fn fetch_result_blocking(&mut self, url: &Url) -> Result<String, Self::Error>;
}

} // verus!
