//! Conversion of strings and parsed URLs into [`Url`] values.

use ::url::ParseError as UrlParseError;
use vstd::prelude::*;

use super::parsed_url::Url;
use super::parsed_url::UrlModel;
use super::parsed_url::parse_url_of;

verus! {

/// A value that denotes a URL: either a parsed [`Url`] already, or a
/// string that may parse into one.
pub trait IntoUrl: Sized {
    /// The URL record this value denotes, if it denotes one.
    spec fn url_model(&self) -> Option<UrlModel>;

    /// The characters of this value's own string form.
    spec fn str_chars(&self) -> Seq<char>;

    /// Parse the value into a [`Url`], if necessary.
    fn into_url(self) -> (r: Result<Url, UrlParseError>)
        ensures
            match r {
                Ok(u) => self.url_model() == Some(u@),
                Err(_) => self.url_model() is None,
            },
    ;

    /// The string form of this value.
    fn as_str(&self) -> (r: &str)
        ensures
            r@ == self.str_chars(),
    ;
}

impl IntoUrl for Url {
    open spec fn url_model(&self) -> Option<UrlModel> {
        Some(self@)
    }

    open spec fn str_chars(&self) -> Seq<char> {
        self@.serialization
    }

    fn into_url(self) -> (r: Result<Url, UrlParseError>) {
        Ok(self)
    }

    fn as_str(&self) -> (r: &str) {
        Url::as_str(self)
    }
}

impl IntoUrl for String {
    open spec fn url_model(&self) -> Option<UrlModel> {
        parse_url_of(self@)
    }

    open spec fn str_chars(&self) -> Seq<char> {
        self@
    }

    fn into_url(self) -> (r: Result<Url, UrlParseError>) {
        Url::parse(String::as_str(&self))
    }

    fn as_str(&self) -> (r: &str) {
        String::as_str(self)
    }
}

impl IntoUrl for &str {
    open spec fn url_model(&self) -> Option<UrlModel> {
        parse_url_of((*self)@)
    }

    open spec fn str_chars(&self) -> Seq<char> {
        (*self)@
    }

    fn into_url(self) -> (r: Result<Url, UrlParseError>) {
        Url::parse(self)
    }

    fn as_str(&self) -> (r: &str) {
        *self
    }
}

impl IntoUrl for &String {
    open spec fn url_model(&self) -> Option<UrlModel> {
        parse_url_of((*self)@)
    }

    open spec fn str_chars(&self) -> Seq<char> {
        (*self)@
    }

    fn into_url(self) -> (r: Result<Url, UrlParseError>) {
        Url::parse(String::as_str(self))
    }

    fn as_str(&self) -> (r: &str) {
        String::as_str(*self)
    }
}

} // verus!
