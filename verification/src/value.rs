//! A header value proven to be valid UTF-8 text.

use vstd::prelude::*;

use crate::error::HttpError;
use crate::http_bindings;
use crate::syntax::valid_value_text;
use http::HeaderValue as RawHttpValue;

verus! {

/// A header value guaranteed to be a UTF-8 string.
///
/// Unlike `http::HeaderValue`, which may carry arbitrary bytes, this type
/// holds text: it is built only from input that passed validation, and it is
/// read back as a string without re-checking.
#[derive(Debug)]
pub struct HeaderValue {
    text: String,
}

impl Clone for HeaderValue {
    /// The copy carries the same text.
    fn clone(&self) -> (r: HeaderValue)
        ensures
            r@ == self@,
    {
        HeaderValue { text: self.text.clone() }
    }
}

impl View for HeaderValue {
    type V = Seq<char>;

    closed spec fn view(&self) -> Seq<char> {
        self.text@
    }
}

impl HeaderValue {
    /// Wraps text that has already been validated.
    pub(crate) fn from_text(text: String) -> (r: HeaderValue)
        ensures
            r@ == text@,
    {
        HeaderValue { text }
    }

    /// The string representation of this header value.
    pub fn as_str(&self) -> (r: &str)
        ensures
            r@ == self@,
    {
        self.text.as_str()
    }

    /// Converts this value into an owned string, consuming it.
    pub fn into_string(self) -> (r: String)
        ensures
            r@ == self@,
    {
        self.text
    }

    /// Validates a string as a header value.  Accepts exactly the texts whose
    /// characters are all allowed in a header value; anything else is
    /// reported as an invalid header value.
    pub fn try_from(value: String) -> (r: Result<HeaderValue, HttpError>)
        ensures
            r is Ok <==> valid_value_text(value@),
            r matches Ok(v) ==> v@ == value@,
            r matches Err(e) ==> e == HttpError::InvalidHeaderValue,
    {
        match http_bindings::parse_value(value.as_str()) {
            Ok(_raw) => Ok(HeaderValue { text: value }),
            Err(_) => Err(HttpError::InvalidHeaderValue),
        }
    }

    /// Validates a raw `http::HeaderValue` as UTF-8 text.  Succeeds exactly
    /// when the raw bytes are the encoding of a text, and returns that text;
    /// malformed bytes are reported as not being a string.
    pub(crate) fn from_http02x(value: &RawHttpValue) -> (r: Result<HeaderValue, HttpError>)
        ensures
            r is Ok <==> exists|s: Seq<char>|
                http_bindings::utf8_bytes(s) == http_bindings::raw_value_bytes(*value),
            r matches Ok(v) ==> http_bindings::utf8_bytes(v@) == http_bindings::raw_value_bytes(*value)
                && forall|s: Seq<char>|
                    http_bindings::utf8_bytes(s) == http_bindings::raw_value_bytes(*value) ==> s == v@,
            r matches Err(e) ==> e == HttpError::NotAString,
    {
        let bytes = http_bindings::raw_value_as_bytes(value);
        match http_bindings::utf8_from(bytes) {
            Ok(text) => Ok(HeaderValue { text: <String as vstd::string::StringExecFns>::from_str(text) }),
            Err(_) => Err(HttpError::NotAString),
        }
    }
}

impl core::str::FromStr for HeaderValue {
    type Err = HttpError;

    fn from_str(s: &str) -> Result<HeaderValue, HttpError> {
        HeaderValue::try_from(<String as vstd::string::StringExecFns>::from_str(s))
    }
}

} // verus!
