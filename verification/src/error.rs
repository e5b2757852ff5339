//! The error reported by fallible header operations.

use vstd::prelude::*;

verus! {

/// Why a header operation was rejected.
///
/// Every fallible operation of this crate reports one of these kinds: a key
/// that is not a well-formed header name, a value whose characters are not
/// allowed in a header, or input bytes that are not valid UTF-8 text.
#[derive(Clone, Copy, Debug, PartialEq, Eq, Structural)]
pub enum HttpError {
    /// The key fails header-name syntax.
    InvalidHeaderName,
    /// The value fails header-value syntax.
    InvalidHeaderValue,
    /// The bytes are not valid UTF-8.
    NotAString,
}

} // verus!
