//! Classification of a parsed URL into a resolved or unresolved puzzle
//! reference.

use vstd::prelude::*;

use crate::text::find_first_value;
use crate::text::first_value_for;
use crate::text::join_segments;
use crate::text::join_slash;
use crate::text::str_eq;
use crate::text::str_strip_prefix;
use crate::text::with_prefix;

use super::into_url::IntoUrl;
use super::parsed_url::Url;
use super::parsed_url::UrlModel;
use super::resolved_url::ResolvedUrl;
use super::resolved_url::ResolvedUrlInner;
use super::resolved_url::ResolvedUrlModel;
use super::resolved_url::SudokuPadFullUrl;
use super::resolved_url::SudokuPadFullUrlModel;
use super::unresolved_url::UnresolvedUrl;
use super::unresolved_url::UnresolvedUrlInner;
use super::unresolved_url::UnresolvedUrlModel;

verus! {

/// Model of a classification error.
pub ghost enum ParseErrorModel {
    InvalidScheme(Seq<char>),
    NoDomain(UrlModel),
    UnknownPage(UrlModel),
    MissingId(UrlModel),
    UrlParseError,
}

/// Why a URL could not be classified. Every variant carries the offending
/// URL, or its scheme, for diagnostics.
#[derive(Debug)]
pub enum ParseError {
    /// The scheme is neither `http` nor `https`.
    InvalidScheme(String),
    /// The URL has no host domain, or cannot carry a path.
    NoDomain(Url),
    /// A known host, but a page on it that carries no puzzle.
    UnknownPage(Url),
    /// A known page that lacks its required id parameter.
    MissingId(Url),
    /// The input string did not parse as an absolute URL.
    UrlParseError(::url::ParseError),
}

impl View for ParseError {
    type V = ParseErrorModel;

    open spec fn view(&self) -> ParseErrorModel {
        match self {
            ParseError::InvalidScheme(s) => ParseErrorModel::InvalidScheme(s@),
            ParseError::NoDomain(u) => ParseErrorModel::NoDomain(u@),
            ParseError::UnknownPage(u) => ParseErrorModel::UnknownPage(u@),
            ParseError::MissingId(u) => ParseErrorModel::MissingId(u@),
            ParseError::UrlParseError(_) => ParseErrorModel::UrlParseError,
        }
    }
}

/// Model of a classified URL.
pub ghost enum UrlValueModel {
    Resolved(ResolvedUrlModel),
    Unresolved(UnresolvedUrlModel),
}

/// A classified URL: either fully resolved, or in need of exactly one
/// more fetch. Once constructed, a value never changes variant.
pub enum UrlValue {
    Resolved(ResolvedUrl),
    Unresolved(UnresolvedUrl),
}

impl View for UrlValue {
    type V = UrlValueModel;

    open spec fn view(&self) -> UrlValueModel {
        match self {
            UrlValue::Resolved(r) => UrlValueModel::Resolved(r@),
            UrlValue::Unresolved(u) => UrlValueModel::Unresolved(u@),
        }
    }
}

/// The schemes this crate accepts.
pub open spec fn supported_scheme(s: Seq<char>) -> bool {
    s == "http"@ || s == "https"@
}

/// The hosts of the sudokupad site.
pub open spec fn sudokupad_domain(d: Seq<char>) -> bool {
    d == "sudokupad.app"@ || d == "alpha.sudokupad.app"@ || d == "beta.sudokupad.app"@
}

/// The hosts of the f-puzzles site.
pub open spec fn fpuzzles_domain(d: Seq<char>) -> bool {
    d == "f-puzzles.com"@ || d == "www.f-puzzles.com"@
}

/// A URL whose path is empty: either no segment at all, or the single
/// empty segment that a bare `/` path yields.
pub open spec fn no_path(segs: Seq<Seq<char>>) -> bool {
    segs.len() == 0 || (segs.len() == 1 && segs[0].len() == 0)
}

/// The path segments with the single leading sentinel segment `sudoku`
/// removed, if and only if it is the first segment.
pub open spec fn skip_sudoku_sentinel(segs: Seq<Seq<char>>) -> Seq<Seq<char>> {
    if segs.len() > 0 && segs[0] == "sudoku"@ {
        segs.skip(1)
    } else {
        segs
    }
}

/// The candidate puzzle id of a URL on the sudokupad hosts: the value of
/// the first `puzzleid` query parameter if present, otherwise the path
/// segments past the sentinel joined with `/`.
pub open spec fn sudokupad_candidate_id(u: UrlModel) -> Seq<char> {
    match first_value_for(u.query, "puzzleid"@) {
        Some(v) => v,
        None => join_slash(skip_sudoku_sentinel(u.path_segments.unwrap())),
    }
}

/// Classification of a sudokupad candidate id by its prefix: the prefixes
/// are tried in a fixed order and the first match wins; an id without a
/// recognized prefix is a short id that needs one body fetch.
pub open spec fn classify_sudokupad_id_spec(pid: Seq<char>) -> UrlValueModel {
    if "fpuzzles"@.is_prefix_of(pid) {
        UrlValueModel::Resolved(
            ResolvedUrlModel::SudokuPad(SudokuPadFullUrlModel::FPuz(pid.skip(8))),
        )
    } else if "fpuz"@.is_prefix_of(pid) {
        UrlValueModel::Resolved(
            ResolvedUrlModel::SudokuPad(SudokuPadFullUrlModel::FPuz(pid.skip(4))),
        )
    } else if "scl"@.is_prefix_of(pid) {
        UrlValueModel::Resolved(ResolvedUrlModel::SudokuPad(SudokuPadFullUrlModel::Scl(pid.skip(3))))
    } else if "ctc"@.is_prefix_of(pid) {
        UrlValueModel::Resolved(ResolvedUrlModel::SudokuPad(SudokuPadFullUrlModel::Scl(pid.skip(3))))
    } else if "scf"@.is_prefix_of(pid) {
        UrlValueModel::Resolved(ResolvedUrlModel::SudokuPad(SudokuPadFullUrlModel::Scf(pid.skip(3))))
    } else {
        UrlValueModel::Unresolved(UnresolvedUrlModel::SudokuPad(pid))
    }
}

/// What classification returns for every well-formed URL.
pub open spec fn classify_spec(u: UrlModel) -> Result<UrlValueModel, ParseErrorModel> {
    if !supported_scheme(u.scheme) {
        Err(ParseErrorModel::InvalidScheme(u.scheme))
    } else if u.domain is None {
        Err(ParseErrorModel::NoDomain(u))
    } else if u.path_segments is None {
        Err(ParseErrorModel::NoDomain(u))
    } else {
        let d = u.domain.unwrap();
        let segs = u.path_segments.unwrap();
        if sudokupad_domain(d) {
            Ok(classify_sudokupad_id_spec(sudokupad_candidate_id(u)))
        } else if fpuzzles_domain(d) {
            if !no_path(segs) {
                Err(ParseErrorModel::UnknownPage(u))
            } else if u.query.len() == 0 {
                Err(ParseErrorModel::MissingId(u))
            } else if u.query[0].0 == "id"@ {
                Ok(UrlValueModel::Unresolved(UnresolvedUrlModel::FPuzzles(u.query[0].1)))
            } else if u.query[0].0 == "load"@ {
                Ok(UrlValueModel::Resolved(ResolvedUrlModel::FPuzzles(u.query[0].1)))
            } else {
                Err(ParseErrorModel::MissingId(u))
            }
        } else if d == "sudokumaker.app"@ {
            match first_value_for(u.query, "puzzle"@) {
                Some(v) => Ok(UrlValueModel::Resolved(ResolvedUrlModel::SudokuMaker(v))),
                None => Err(ParseErrorModel::MissingId(u)),
            }
        } else if d == "swaroopg92.github.io"@ {
            if segs.len() == 1 && segs[0] == "penpa-edit"@ {
                Ok(UrlValueModel::Resolved(ResolvedUrlModel::Penpa(u)))
            } else {
                Ok(UrlValueModel::Unresolved(UnresolvedUrlModel::Unknown(u)))
            }
        } else {
            Ok(UrlValueModel::Unresolved(UnresolvedUrlModel::Unknown(u)))
        }
    }
}

impl UrlValue {
    fn resolved(inner: ResolvedUrlInner) -> (r: Self)
        ensures
            r@ == UrlValueModel::Resolved(inner@),
    {
        UrlValue::Resolved(ResolvedUrl::new(inner))
    }

    fn unresolved(inner: UnresolvedUrlInner) -> (r: Self)
        ensures
            r@ == UrlValueModel::Unresolved(inner@),
    {
        UrlValue::Unresolved(UnresolvedUrl::new(inner))
    }
}

pub(crate) fn classify_sudokupad_id(pid: String) -> (r: UrlValue)
    ensures
        r@ == classify_sudokupad_id_spec(pid@),
{
    proof {
        reveal_strlit("fpuzzles");
        reveal_strlit("fpuz");
        reveal_strlit("scl");
        reveal_strlit("ctc");
        reveal_strlit("scf");
    }
    if let Some(rest) = str_strip_prefix(pid.as_str(), "fpuzzles") {
        proof {
            assert(pid@.skip(8) =~= rest@);
        }
        return UrlValue::resolved(
            ResolvedUrlInner::SudokuPad(SudokuPadFullUrl::FPuz(rest.to_owned())),
        );
    }
    if let Some(rest) = str_strip_prefix(pid.as_str(), "fpuz") {
        proof {
            assert(pid@.skip(4) =~= rest@);
        }
        return UrlValue::resolved(
            ResolvedUrlInner::SudokuPad(SudokuPadFullUrl::FPuz(rest.to_owned())),
        );
    }
    if let Some(rest) = str_strip_prefix(pid.as_str(), "scl") {
        proof {
            assert(pid@.skip(3) =~= rest@);
        }
        return UrlValue::resolved(
            ResolvedUrlInner::SudokuPad(SudokuPadFullUrl::Scl(rest.to_owned())),
        );
    }
    if let Some(rest) = str_strip_prefix(pid.as_str(), "ctc") {
        proof {
            assert(pid@.skip(3) =~= rest@);
        }
        return UrlValue::resolved(
            ResolvedUrlInner::SudokuPad(SudokuPadFullUrl::Scl(rest.to_owned())),
        );
    }
    if let Some(rest) = str_strip_prefix(pid.as_str(), "scf") {
        proof {
            assert(pid@.skip(3) =~= rest@);
        }
        return UrlValue::resolved(
            ResolvedUrlInner::SudokuPad(SudokuPadFullUrl::Scf(rest.to_owned())),
        );
    }
    UrlValue::unresolved(UnresolvedUrlInner::SudokuPad(pid))
}

/// Classifies a parsed URL, per [`classify_spec`]: pure and deterministic,
/// no I/O.
pub fn classify(url: Url) -> (r: Result<UrlValue, ParseError>)
    ensures
        r matches Ok(v) ==> classify_spec(url@) == Ok::<UrlValueModel, ParseErrorModel>(v@),
        r matches Err(e) ==> classify_spec(url@) == Err::<UrlValueModel, ParseErrorModel>(e@),
{
    let scheme_ok = str_eq(url.scheme(), "http") || str_eq(url.scheme(), "https");
    if !scheme_ok {
        let scheme = url.scheme().to_owned();
        return Err(ParseError::InvalidScheme(scheme));
    }
    if url.domain().is_none() {
        return Err(ParseError::NoDomain(url));
    }
    if url.path_segments().is_none() {
        return Err(ParseError::NoDomain(url));
    }
    let domain = match url.domain() {
        Some(d) => d.to_owned(),
        None => {
            return Err(ParseError::NoDomain(url));
        },
    };
    let d = domain.as_str();

    if str_eq(d, "sudokupad.app") || str_eq(d, "alpha.sudokupad.app") || str_eq(
        d,
        "beta.sudokupad.app",
    ) {
        let pid: String = match find_first_value(url.query_pairs(), "puzzleid") {
            Some(v) => v,
            None => {
                let segs = match url.path_segments() {
                    Some(s) => s,
                    None => {
                        return Err(ParseError::NoDomain(url));
                    },
                };
                let from: usize = if segs.len() > 0 && str_eq(segs[0].as_str(), "sudoku") {
                    1
                } else {
                    0
                };
                proof {
                    if from == 0 {
                        assert(segs.deep_view().skip(0) =~= skip_sudoku_sentinel(segs.deep_view()));
                    }
                }
                join_segments(segs, from)
            },
        };
        return Ok(classify_sudokupad_id(pid));
    }

    if str_eq(d, "f-puzzles.com") || str_eq(d, "www.f-puzzles.com") {
        let segs = match url.path_segments() {
            Some(s) => s,
            None => {
                return Err(ParseError::NoDomain(url));
            },
        };
        let path_empty = segs.len() == 0 || (segs.len() == 1 && segs[0].as_str().is_empty());
        if !path_empty {
            return Err(ParseError::UnknownPage(url));
        }
        let pairs = url.query_pairs();
        if pairs.len() == 0 {
            return Err(ParseError::MissingId(url));
        }
        let key_is_id = str_eq(pairs[0].0.as_str(), "id");
        let key_is_load = str_eq(pairs[0].0.as_str(), "load");
        let value = pairs[0].1.clone();
        if key_is_id {
            return Ok(UrlValue::unresolved(UnresolvedUrlInner::FPuzzles(value)));
        }
        if key_is_load {
            return Ok(UrlValue::resolved(ResolvedUrlInner::FPuzzles(value)));
        }
        return Err(ParseError::MissingId(url));
    }

    if str_eq(d, "sudokumaker.app") {
        return match find_first_value(url.query_pairs(), "puzzle") {
            Some(v) => Ok(UrlValue::resolved(ResolvedUrlInner::SudokuMaker(v))),
            None => Err(ParseError::MissingId(url)),
        };
    }

    if str_eq(d, "swaroopg92.github.io") {
        let is_edit_page = {
            let segs = match url.path_segments() {
                Some(s) => s,
                None => {
                    return Err(ParseError::NoDomain(url));
                },
            };
            segs.len() == 1 && str_eq(segs[0].as_str(), "penpa-edit")
        };
        if is_edit_page {
            return Ok(UrlValue::resolved(ResolvedUrlInner::Penpa(Box::new(url))));
        }
        return Ok(UrlValue::unresolved(UnresolvedUrlInner::Unknown(Box::new(url))));
    }

    Ok(UrlValue::unresolved(UnresolvedUrlInner::Unknown(Box::new(url))))
}

impl UrlValue {
    /// Parses the given value into a URL if necessary, then classifies
    /// it. Strings that do not parse as absolute URLs are rejected with
    /// the parse error; parsed URLs are classified per [`classify_spec`].
    pub fn parse<T: IntoUrl>(url: T) -> (r: Result<UrlValue, ParseError>)
        ensures
            match url.url_model() {
                None => r matches Err(e) && e@ == ParseErrorModel::UrlParseError,
                Some(m) => match r {
                    Ok(v) => classify_spec(m) == Ok::<UrlValueModel, ParseErrorModel>(v@),
                    Err(e) => classify_spec(m) == Err::<UrlValueModel, ParseErrorModel>(e@),
                },
            },
    {
        let parsed = match url.into_url() {
            Ok(u) => u,
            Err(e) => {
                return Err(ParseError::UrlParseError(e));
            },
        };
        classify(parsed)
    }
}

} // verus!
