//! A scripted fetcher: answers every fetch from fixed values and counts
//! its calls. It stands in for the network where a test must observe
//! whether the inner fetcher of a decorator was reached at all.

use vstd::prelude::*;

use super::super::parsed_url::Url;
use super::super::parsed_url::opt_url_model;
use super::BlockingUrlFetcher;
use super::cache::clone_opt_url;

verus! {

/// The scripted fetcher's error: it carries nothing, a scripted failure
/// has no cause.
#[derive(Debug, PartialEq, Eq, Clone, Copy)]
pub struct ScriptedFetchError;

/// A fetcher that never touches the network: each redirect fetch answers
/// with `redirect_answer` and each body fetch with `body_answer`, where
/// `None` scripts a failure; `calls` counts every fetch made.
pub struct ScriptedBlockingFetcher {
    /// The scripted redirect outcome, or `None` to fail redirect fetches.
    pub redirect_answer: Option<Option<Url>>,
    /// The scripted body, or `None` to fail body fetches.
    pub body_answer: Option<String>,
    /// How many fetches were made, saturating at the type's maximum.
    pub calls: usize,
}

impl BlockingUrlFetcher for ScriptedBlockingFetcher {
    type Error = ScriptedFetchError;

    /// Counts the call and answers with the scripted redirect outcome.
    fn fetch_redirect_url_blocking(&mut self, url: &Url) -> (r: Result<
        Option<Url>,
        ScriptedFetchError,
    >)
        ensures
            final(self).calls == if old(self).calls < usize::MAX {
                old(self).calls + 1
            } else {
                old(self).calls as int
            },
            final(self).redirect_answer == old(self).redirect_answer,
            final(self).body_answer == old(self).body_answer,
            match r {
                Ok(v) => old(self).redirect_answer matches Some(ans) && opt_url_model(v)
                    == opt_url_model(ans),
                Err(_) => old(self).redirect_answer is None,
            },
    {
        if self.calls < usize::MAX {
            self.calls = self.calls + 1;
        }
        match &self.redirect_answer {
            Some(ans) => Ok(clone_opt_url(ans)),
            None => Err(ScriptedFetchError),
        }
    }

    /// Counts the call and answers with the scripted body.
    fn fetch_result_blocking(&mut self, url: &Url) -> (r: Result<String, ScriptedFetchError>)
        ensures
            final(self).calls == if old(self).calls < usize::MAX {
                old(self).calls + 1
            } else {
                old(self).calls as int
            },
            final(self).redirect_answer == old(self).redirect_answer,
            final(self).body_answer == old(self).body_answer,
            match r {
                Ok(v) => old(self).body_answer matches Some(body) && v@ == body@,
                Err(_) => old(self).body_answer is None,
            },
    {
        if self.calls < usize::MAX {
            self.calls = self.calls + 1;
        }
        match &self.body_answer {
            Some(body) => Ok(body.clone()),
            None => Err(ScriptedFetchError),
        }
    }
}

} // verus!
