//! Small helpers shared by the puzzle file-format records.

use vstd::prelude::*;

use crate::numeric::int_chars;
use crate::numeric::i32_to_string;
use crate::numeric::parse_i32;
use crate::numeric::parse_i32_spec;

verus! {

/// A value that some sites write as a string and others as a number.
#[derive(Debug, PartialEq, Eq, Clone)]
pub enum StrOrInt {
    Str(String),
    Int(i32),
}

impl StrOrInt {
    /// The value's text: the string itself, or the number's canonical
    /// decimal form.
    pub fn as_str(&self) -> (r: String)
        ensures
            match self {
                StrOrInt::Str(s) => r@ == s@,
                StrOrInt::Int(n) => r@ == int_chars(*n as int),
            },
    {
        match self {
            StrOrInt::Str(s) => s.clone(),
            StrOrInt::Int(n) => i32_to_string(*n),
        }
    }

    /// The value as a number: a string is read as decimal text and may
    /// fail, a number is already one.
    pub fn as_i32(&self) -> (r: Option<i32>)
        ensures
            match self {
                StrOrInt::Str(s) => match r {
                    Some(v) => parse_i32_spec(s@) == Some(v as int),
                    None => parse_i32_spec(s@) is None,
                },
                StrOrInt::Int(n) => r == Some(*n),
            },
    {
        match self {
            StrOrInt::Str(s) => parse_i32(s.as_str()),
            StrOrInt::Int(n) => Some(*n),
        }
    }
}

impl From<String> for StrOrInt {
    fn from(value: String) -> (r: Self) {
        StrOrInt::Str(value)
    }
}

impl vstd::std_specs::convert::FromSpecImpl<String> for StrOrInt {
    open spec fn obeys_from_spec() -> bool {
        true
    }

    open spec fn from_spec(value: String) -> Self {
        StrOrInt::Str(value)
    }
}

impl From<i32> for StrOrInt {
    fn from(value: i32) -> (r: Self) {
        StrOrInt::Int(value)
    }
}

impl vstd::std_specs::convert::FromSpecImpl<i32> for StrOrInt {
    open spec fn obeys_from_spec() -> bool {
        true
    }

    open spec fn from_spec(value: i32) -> Self {
        StrOrInt::Int(value)
    }
}

/// Reading back the text of a numeric value yields the value: `as_str`
/// followed by `as_i32` loses nothing on the `Int` variant.
pub proof fn lemma_int_text_round_trip(n: i32)
    ensures
        parse_i32_spec(int_chars(n as int)) == Some(n as int),
{
    crate::numeric::lemma_int_chars_round_trip(n as int);
}

/// Whether a value equals its type's default. What the comparison means
/// is up to the type's own `PartialEq` and `Default` impls.
pub fn is_default<T: Default + PartialEq>(value: &T) -> bool {
    *value == T::default()
}

/// Whether a slice holds no element.
pub fn is_empty<T>(value: &[T]) -> (r: bool)
    ensures
        r == (value@.len() == 0),
{
    value.len() == 0
}

} // verus!
