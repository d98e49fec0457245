//! Puzzle references that need exactly one more network fetch.

use ::url::ParseError as UrlParseError;
use vstd::prelude::*;

use super::parsed_url::Url;
use super::parsed_url::UrlModel;
use super::parsed_url::opt_url_model;
use super::parsed_url::parse_url_of;
use super::resolved_url::ResolvedUrl;
use super::resolved_url::ResolvedUrlInner;
use super::resolved_url::ResolvedUrlModel;
use super::url_fetcher::BlockingUrlFetcher;
use super::url_value::UrlValue;
use super::url_value::UrlValueModel;
use super::url_value::classify;
use super::url_value::classify_spec;
use super::url_value::classify_sudokupad_id;
use super::url_value::classify_sudokupad_id_spec;

verus! {

/// Model of an unresolved puzzle reference.
pub ghost enum UnresolvedUrlModel {
    FPuzzles(Seq<char>),
    SudokuPad(Seq<char>),
    Unknown(UrlModel),
}

/// How an unresolved reference obtains its payload id: each variant owns
/// the state needed to build its one lookup URL.
#[derive(Clone)]
pub enum UnresolvedUrlInner {
    /// A short id on the f-puzzles site; resolving follows the redirect of
    /// a short-link lookup URL built from the id.
    FPuzzles(String),
    /// A short id on the sudokupad site; resolving fetches the body of the
    /// site's id-resolution endpoint for the id.
    SudokuPad(String),
    /// An unrecognized URL; resolving follows its own redirect.
    Unknown(Box<Url>),
}

impl View for UnresolvedUrlInner {
    type V = UnresolvedUrlModel;

    open spec fn view(&self) -> UnresolvedUrlModel {
        match self {
            UnresolvedUrlInner::FPuzzles(id) => UnresolvedUrlModel::FPuzzles(id@),
            UnresolvedUrlInner::SudokuPad(id) => UnresolvedUrlModel::SudokuPad(id@),
            UnresolvedUrlInner::Unknown(url) => UnresolvedUrlModel::Unknown(url@),
        }
    }
}

/// A puzzle reference that requires exactly one more fetch.
pub struct UnresolvedUrl {
    inner: UnresolvedUrlInner,
}

impl View for UnresolvedUrl {
    type V = UnresolvedUrlModel;

    closed spec fn view(&self) -> UnresolvedUrlModel {
        self.inner@
    }
}

/// Configuration of a resolution attempt. Carries no fields yet; it is
/// kept so that future parameters do not change the interface.
#[derive(Debug, Default)]
pub struct ResolutionOptions {}

/// The single fetch action a resolution attempt performs, together with
/// its target URL.
pub enum ResolutionStep {
    /// Fetch the body of the target; the body text carries the id.
    FetchResult(Url),
    /// Fetch the redirect of the target; the redirect carries the id.
    FetchRedirectUrl(Url),
}

/// Model of [`ResolutionStep`].
pub ghost enum ResolutionStepModel {
    FetchResult(UrlModel),
    FetchRedirectUrl(UrlModel),
}

impl View for ResolutionStep {
    type V = ResolutionStepModel;

    open spec fn view(&self) -> ResolutionStepModel {
        match self {
            ResolutionStep::FetchResult(u) => ResolutionStepModel::FetchResult(u@),
            ResolutionStep::FetchRedirectUrl(u) => ResolutionStepModel::FetchRedirectUrl(u@),
        }
    }
}

/// Model of a resolution error.
pub ghost enum ResolutionErrorModel {
    Fetcher,
    MalformedId,
    Unresolved(Seq<char>),
}

/// Why a resolution attempt failed.
#[derive(Debug)]
pub enum ResolutionError<E> {
    /// The fetcher itself failed; its error is surfaced as-is.
    Fetcher(E),
    /// The id could not be substituted into the lookup URL template.
    MalformedId(UrlParseError),
    /// The fetched redirect target or body did not classify to a resolved
    /// reference; carries the offending target or body text.
    Unresolved(String),
}

impl<E> View for ResolutionError<E> {
    type V = ResolutionErrorModel;

    open spec fn view(&self) -> ResolutionErrorModel {
        match self {
            ResolutionError::Fetcher(_) => ResolutionErrorModel::Fetcher,
            ResolutionError::MalformedId(_) => ResolutionErrorModel::MalformedId,
            ResolutionError::Unresolved(s) => ResolutionErrorModel::Unresolved(s@),
        }
    }
}

/// The string from which the one lookup URL of an unresolved reference is
/// built: a fixed template with the id substituted, or the original URL's
/// own serialization.
pub open spec fn lookup_string(u: UnresolvedUrlModel) -> Seq<char> {
    match u {
        UnresolvedUrlModel::FPuzzles(id) => "https://tinyurl.com/"@ + id,
        UnresolvedUrlModel::SudokuPad(id) => "https://sudokupad.app/api/puzzle/"@ + id,
        UnresolvedUrlModel::Unknown(m) => m.serialization,
    }
}

/// The single fetch action an unresolved reference requires: `None` when
/// the id does not substitute into a well-formed lookup URL.
pub open spec fn resolution_step_spec(u: UnresolvedUrlModel) -> Option<ResolutionStepModel> {
    match u {
        UnresolvedUrlModel::FPuzzles(_) => match parse_url_of(lookup_string(u)) {
            Some(m) => Some(ResolutionStepModel::FetchRedirectUrl(m)),
            None => None,
        },
        UnresolvedUrlModel::SudokuPad(_) => match parse_url_of(lookup_string(u)) {
            Some(m) => Some(ResolutionStepModel::FetchResult(m)),
            None => None,
        },
        UnresolvedUrlModel::Unknown(m) => Some(ResolutionStepModel::FetchRedirectUrl(m)),
    }
}

/// What a fetched redirect outcome resolves to. A present target is
/// re-classified, and only a resolved classification counts; an absent
/// redirect means the original f-puzzles id was already final, while an
/// unknown URL that does not redirect stays unresolved and is reported.
pub open spec fn interpret_redirect_spec(u: UnresolvedUrlModel, target: Option<UrlModel>) -> Result<
    ResolvedUrlModel,
    Seq<char>,
> {
    match target {
        Some(t) => match classify_spec(t) {
            Ok(UrlValueModel::Resolved(r)) => Ok(r),
            _ => Err(t.serialization),
        },
        None => match u {
            UnresolvedUrlModel::FPuzzles(id) => Ok(ResolvedUrlModel::FPuzzles(id)),
            UnresolvedUrlModel::SudokuPad(id) => Err(id),
            UnresolvedUrlModel::Unknown(m) => Err(m.serialization),
        },
    }
}

/// What a fetched body resolves to: the entire body text is the full
/// puzzle id, classified by its prefix; a body without a recognized
/// prefix would need yet another fetch and is reported instead.
pub open spec fn interpret_body_spec(body: Seq<char>) -> Result<ResolvedUrlModel, Seq<char>> {
    match classify_sudokupad_id_spec(body) {
        UrlValueModel::Resolved(r) => Ok(r),
        UrlValueModel::Unresolved(_) => Err(body),
    }
}

impl UnresolvedUrl {
    pub(crate) fn new(inner: UnresolvedUrlInner) -> (r: Self)
        ensures
            r@ == inner@,
    {
        UnresolvedUrl { inner }
    }

    /// How this reference obtains its payload id.
    pub fn inner(&self) -> (r: &UnresolvedUrlInner)
        ensures
            r@ == self@,
    {
        &self.inner
    }

    /// The one fetch action this reference requires, with its lookup URL,
    /// per [`resolution_step_spec`].
    pub fn resolution_step(&self) -> (r: Result<ResolutionStep, UrlParseError>)
        ensures
            match r {
                Ok(step) => resolution_step_spec(self@) == Some(step@),
                Err(_) => resolution_step_spec(self@) is None,
            },
    {
        match &self.inner {
            UnresolvedUrlInner::FPuzzles(id) => {
                let mut lookup = String::from_str("https://tinyurl.com/");
                lookup.append(id.as_str());
                match Url::parse(lookup.as_str()) {
                    Ok(url) => Ok(ResolutionStep::FetchRedirectUrl(url)),
                    Err(e) => Err(e),
                }
            },
            UnresolvedUrlInner::SudokuPad(id) => {
                let mut lookup = String::from_str("https://sudokupad.app/api/puzzle/");
                lookup.append(id.as_str());
                match Url::parse(lookup.as_str()) {
                    Ok(url) => Ok(ResolutionStep::FetchResult(url)),
                    Err(e) => Err(e),
                }
            },
            UnresolvedUrlInner::Unknown(url) => Ok(
                ResolutionStep::FetchRedirectUrl((**url).clone()),
            ),
        }
    }

    /// Turns the outcome of the redirect fetch into the final resolved
    /// reference, per [`interpret_redirect_spec`].
    pub fn interpret_redirect<E>(&self, target: Option<Url>) -> (r: Result<
        ResolvedUrl,
        ResolutionError<E>,
    >)
        ensures
            match r {
                Ok(res) => interpret_redirect_spec(self@, opt_url_model(target)) == Ok::<
                    ResolvedUrlModel,
                    Seq<char>,
                >(res@),
                Err(e) => e@ matches ResolutionErrorModel::Unresolved(s)
                    && interpret_redirect_spec(self@, opt_url_model(target)) == Err::<
                    ResolvedUrlModel,
                    Seq<char>,
                >(s),
            },
    {
        match target {
            Some(t) => {
                let serialization = Url::as_str(&t).to_owned();
                match classify(t) {
                    Ok(UrlValue::Resolved(r)) => Ok(r),
                    _ => Err(ResolutionError::Unresolved(serialization)),
                }
            },
            None => match &self.inner {
                UnresolvedUrlInner::FPuzzles(id) => Ok(
                    ResolvedUrl::new(ResolvedUrlInner::FPuzzles(id.clone())),
                ),
                UnresolvedUrlInner::SudokuPad(id) => Err(
                    ResolutionError::Unresolved(id.clone()),
                ),
                UnresolvedUrlInner::Unknown(url) => Err(
                    ResolutionError::Unresolved(Url::as_str(url).to_owned()),
                ),
            },
        }
    }

    /// Turns the fetched body text into the final resolved reference, per
    /// [`interpret_body_spec`].
    pub fn interpret_body<E>(body: String) -> (r: Result<ResolvedUrl, ResolutionError<E>>)
        ensures
            match r {
                Ok(res) => interpret_body_spec(body@) == Ok::<ResolvedUrlModel, Seq<char>>(res@),
                Err(e) => e@ matches ResolutionErrorModel::Unresolved(s) && interpret_body_spec(
                    body@,
                ) == Err::<ResolvedUrlModel, Seq<char>>(s),
            },
    {
        match classify_sudokupad_id(body) {
            UrlValue::Resolved(r) => Ok(r),
            UrlValue::Unresolved(u) => match u.inner() {
                UnresolvedUrlInner::SudokuPad(id) => Err(ResolutionError::Unresolved(id.clone())),
                _ => {
                    proof {
                        assert(false);
                    }
                    Err(ResolutionError::Unresolved(String::new()))
                },
            },
        }
    }

    /// Resolves this reference with the given fetcher: builds the one
    /// lookup URL, performs exactly one fetch, and interprets its result.
    ///
    /// The id is rejected as malformed exactly when it does not substitute
    /// into a well-formed lookup URL; a fetcher failure is surfaced as-is;
    /// and every successful result, as well as every unresolved report, is
    /// the interpretation of some outcome of the one fetch performed.
    pub fn resolve_blocking<F: BlockingUrlFetcher>(
        &self,
        fetcher: &mut F,
        _options: &ResolutionOptions,
    ) -> (r: Result<ResolvedUrl, ResolutionError<F::Error>>)
        ensures
            (r matches Err(e) && e@ is MalformedId) <==> resolution_step_spec(self@) is None,
            r matches Ok(res) ==> match self@ {
                UnresolvedUrlModel::SudokuPad(_) => exists|b: Seq<char>|
                    interpret_body_spec(b) == Ok::<ResolvedUrlModel, Seq<char>>(res@),
                _ => exists|t: Option<UrlModel>|
                    interpret_redirect_spec(self@, t) == Ok::<ResolvedUrlModel, Seq<char>>(res@),
            },
            r matches Err(e) ==> e@ matches ResolutionErrorModel::Unresolved(s) ==> match self@ {
                UnresolvedUrlModel::SudokuPad(_) => exists|b: Seq<char>|
                    interpret_body_spec(b) == Err::<ResolvedUrlModel, Seq<char>>(s),
                _ => exists|t: Option<UrlModel>|
                    interpret_redirect_spec(self@, t) == Err::<ResolvedUrlModel, Seq<char>>(s),
            },
    {
        let step = match self.resolution_step() {
            Ok(step) => step,
            Err(e) => {
                return Err(ResolutionError::MalformedId(e));
            },
        };
        match step {
            ResolutionStep::FetchRedirectUrl(url) => {
                let target = match fetcher.fetch_redirect_url_blocking(&url) {
                    Ok(t) => t,
                    Err(e) => {
                        return Err(ResolutionError::Fetcher(e));
                    },
                };
                let ghost target_model = opt_url_model(target);
                let r = self.interpret_redirect(target);
                proof {
                    match &r {
                        Ok(res) => {
                            assert(interpret_redirect_spec(self@, target_model) == Ok::<
                                ResolvedUrlModel,
                                Seq<char>,
                            >(res@));
                        },
                        Err(e) => {
                            if let ResolutionErrorModel::Unresolved(s) = e@ {
                                assert(interpret_redirect_spec(self@, target_model) == Err::<
                                    ResolvedUrlModel,
                                    Seq<char>,
                                >(s));
                            }
                        },
                    }
                }
                r
            },
            ResolutionStep::FetchResult(url) => {
                let body = match fetcher.fetch_result_blocking(&url) {
                    Ok(b) => b,
                    Err(e) => {
                        return Err(ResolutionError::Fetcher(e));
                    },
                };
                let ghost body_chars = body@;
                let r = Self::interpret_body(body);
                proof {
                    match &r {
                        Ok(res) => {
                            assert(interpret_body_spec(body_chars) == Ok::<
                                ResolvedUrlModel,
                                Seq<char>,
                            >(res@));
                        },
                        Err(e) => {
                            if let ResolutionErrorModel::Unresolved(s) = e@ {
                                assert(interpret_body_spec(body_chars) == Err::<
                                    ResolvedUrlModel,
                                    Seq<char>,
                                >(s));
                            }
                        },
                    }
                }
                r
            },
        }
    }
}

} // verus!
