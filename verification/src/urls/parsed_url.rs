//! A parsed absolute URL, modeled as plain values.
//!
//! Parsing itself is done by the `url` crate; this module reads the parsed
//! record out into plain strings and vectors once, so that everything
//! downstream can be specified over those values.

use ::url::ParseError as UrlParseError;
use vstd::prelude::*;

verus! {

/// The mathematical model of a parsed URL: its scheme, host domain,
/// path segments, decoded query pairs, and canonical serialization.
#[verifier::ext_equal]
pub ghost struct UrlModel {
    pub scheme: Seq<char>,
    pub domain: Option<Seq<char>>,
    pub path_segments: Option<Seq<Seq<char>>>,
    pub query: Seq<(Seq<char>, Seq<char>)>,
    pub serialization: Seq<char>,
}

/// The result of parsing a string as an absolute URL, as a function of the
/// characters alone: `None` when parsing fails, otherwise the parsed record.
pub uninterp spec fn parse_url_of(s: Seq<char>) -> Option<UrlModel>;

/// A well-formed URL record: its canonical serialization parses back to
/// the record itself.
pub open spec fn url_model_wf(m: UrlModel) -> bool {
    parse_url_of(m.serialization) == Some(m)
}

#[verifier::external_type_specification]
#[verifier::external_body]
pub struct ExUrlParseError(UrlParseError);

/// An immutable, parsed absolute URL. A value of this type is only ever
/// produced by [`Url::parse`], so its model is always well formed.
#[derive(Debug, PartialEq, Eq)]
pub struct Url {
    scheme: String,
    domain: Option<String>,
    path_segments: Option<Vec<String>>,
    query: Vec<(String, String)>,
    serialization: String,
}

impl View for Url {
    type V = UrlModel;

    closed spec fn view(&self) -> UrlModel {
        UrlModel {
            scheme: self.scheme@,
            domain: self.domain.deep_view(),
            path_segments: self.path_segments.deep_view(),
            query: self.query.deep_view(),
            serialization: self.serialization@,
        }
    }
}

impl Url {
    /// Every value of this type carries a well-formed model.
    #[verifier::type_invariant]
    pub open spec fn wf(self) -> bool {
        url_model_wf(self@)
    }

    /// Parse an absolute URL from a string.
    ///
    /// Relies on `url::Url::parse` and the accessors `scheme`, `domain`,
    /// `path_segments`, `query_pairs` and `as_str` of the `url` crate: the
    /// outcome is a function of the input characters alone, and a parsed
    /// URL's serialization parses back to the same record.
    #[verifier::external_body]
    pub fn parse(input: &str) -> (r: Result<Url, UrlParseError>)
        ensures
            match r {
                Ok(u) => parse_url_of(input@) == Some(u@) && url_model_wf(u@),
                Err(_) => parse_url_of(input@) is None,
            },
    {
        let parsed = url::Url::parse(input)?;
        let scheme = parsed.scheme().to_string();
        let domain = parsed.domain().map(|d| d.to_string());
        let path_segments = parsed.path_segments().map(|segments| {
            segments.map(|segment| segment.to_string()).collect()
        });
        let query = parsed.query_pairs().map(|(k, v)| (k.into_owned(), v.into_owned())).collect();
        let serialization = parsed.as_str().to_string();
        Ok(Url { scheme, domain, path_segments, query, serialization })
    }

    /// The URL's scheme, without the trailing `:`.
    pub fn scheme(&self) -> (r: &str)
        ensures
            r@ == self@.scheme,
    {
        self.scheme.as_str()
    }

    /// The URL's host, when that host is a domain name.
    pub fn domain(&self) -> (r: Option<&str>)
        ensures
            match r {
                Some(d) => self@.domain == Some(d@),
                None => self@.domain is None,
            },
    {
        match &self.domain {
            Some(d) => Some(d.as_str()),
            None => None,
        }
    }

    /// The URL's path segments, when the URL can carry a path.
    pub fn path_segments(&self) -> (r: Option<&Vec<String>>)
        ensures
            match r {
                Some(segs) => self@.path_segments == Some(segs.deep_view()),
                None => self@.path_segments is None,
            },
    {
        match &self.path_segments {
            Some(segs) => Some(segs),
            None => None,
        }
    }

    /// The URL's decoded query pairs, in order.
    pub fn query_pairs(&self) -> (r: &Vec<(String, String)>)
        ensures
            r.deep_view() == self@.query,
    {
        &self.query
    }

    /// The canonical string form of the URL, used as the cache key.
    pub fn as_str(&self) -> (r: &str)
        ensures
            r@ == self@.serialization,
    {
        self.serialization.as_str()
    }
}

fn clone_string_vec(v: &Vec<String>) -> (r: Vec<String>)
    ensures
        r.deep_view() == v.deep_view(),
{
    let mut out: Vec<String> = Vec::new();
    let mut i: usize = 0;
    while i < v.len()
        invariant
            i <= v@.len(),
            out@.len() == i as int,
            out.deep_view() =~= v.deep_view().take(i as int),
        decreases v@.len() - i,
    {
        let ghost pre = out@;
        let element = v[i].clone();
        proof {
            assert(element@ == v@[i as int]@);
        }
        out.push(element);
        proof {
            assert(out@ == pre.push(element));
            assert forall|j: int| 0 <= j < out@.len() implies out.deep_view()[j]
                == v.deep_view().take(i + 1)[j] by {
                if j < i {
                    assert(out@[j] == pre[j]);
                } else {
                    assert(out@[j] == element);
                }
            }
            assert(out.deep_view() =~= v.deep_view().take(i + 1));
        }
        i = i + 1;
    }
    proof {
        assert(v.deep_view().take(v@.len() as int) =~= v.deep_view());
    }
    out
}

fn clone_string_pairs(v: &Vec<(String, String)>) -> (r: Vec<(String, String)>)
    ensures
        r.deep_view() == v.deep_view(),
{
    let mut out: Vec<(String, String)> = Vec::new();
    let mut i: usize = 0;
    while i < v.len()
        invariant
            i <= v@.len(),
            out@.len() == i as int,
            out.deep_view() =~= v.deep_view().take(i as int),
        decreases v@.len() - i,
    {
        let ghost pre = out@;
        let pair = (v[i].0.clone(), v[i].1.clone());
        proof {
            assert(pair.deep_view() == v@[i as int].deep_view());
        }
        out.push(pair);
        proof {
            assert(out@ == pre.push(pair));
            assert forall|j: int| 0 <= j < out@.len() implies out.deep_view()[j]
                == v.deep_view().take(i + 1)[j] by {
                if j < i {
                    assert(out@[j] == pre[j]);
                } else {
                    assert(out@[j] == pair);
                }
            }
            assert(out.deep_view() =~= v.deep_view().take(i + 1));
        }
        i = i + 1;
    }
    proof {
        assert(v.deep_view().take(v@.len() as int) =~= v.deep_view());
    }
    out
}

impl Clone for Url {
    /// Cloning preserves the URL's model.
    fn clone(&self) -> (r: Self)
        ensures
            r@ == self@,
    {
        proof {
            use_type_invariant(self);
        }
        let scheme = self.scheme.clone();
        let domain = self.domain.clone();
        let path_segments = match &self.path_segments {
            Some(segs) => Some(clone_string_vec(segs)),
            None => None,
        };
        let query = clone_string_pairs(&self.query);
        let serialization = self.serialization.clone();
        let result = Url { scheme, domain, path_segments, query, serialization };
        proof {
            assert(result@ =~= self@);
        }
        result
    }
}

/// The models of an optional URL, position by position.
pub open spec fn opt_url_model(v: Option<Url>) -> Option<UrlModel> {
    match v {
        Some(u) => Some(u@),
        None => None,
    }
}

} // verus!
