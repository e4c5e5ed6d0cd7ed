//! Command argument values, as the message decoder hands them over.
use vstd::prelude::*;

verus! {

/// One tagged value of a command message.
///
/// Numbers arrive on the wire as floating point. Only their use as
/// transaction identifiers matters here, so a number is kept as a whole
/// value when it is one, and as `OtherNumber` otherwise.
#[derive(Debug)]
pub enum Amf0Value {
    /// A number that is a whole value in `0..=u64::MAX`.
    WholeNumber(u64),
    /// Any other number: negative, fractional or not finite.
    OtherNumber,
    Boolean(bool),
    Utf8String(String),
    Object(Vec<Amf0Property>),
    Null,
    Undefined,
}

/// One key/value pair of an object value.
#[derive(Debug)]
pub struct Amf0Property {
    pub key: String,
    pub value: Amf0Value,
}

/// `v` is the string `s`.
pub open spec fn is_string(v: Amf0Value, s: Seq<char>) -> bool {
    match v {
        Amf0Value::Utf8String(t) => t@ == s,
        _ => false,
    }
}

/// `v` is the whole number `n`.
pub open spec fn is_whole_number(v: Amf0Value, n: u64) -> bool {
    match v {
        Amf0Value::WholeNumber(m) => m == n,
        _ => false,
    }
}

/// Tells whether `v` is the string `s`.
pub fn string_equals(v: &Amf0Value, s: &str) -> (r: bool)
    ensures
        r == is_string(*v, s@),
{
    match v {
        Amf0Value::Utf8String(t) => {
            let expected = s.to_owned();
            t.eq(&expected)
        },
        _ => false,
    }
}

} // verus!
