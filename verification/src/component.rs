//! Coercion of caller-supplied inputs into header components.
//!
//! Callers may supply borrowed static text, owned text, a tagged union of the
//! two, or one of the already-validated native `http` types.  Each of these
//! coerces into the canonical "maybe-static text" form; a native header name
//! additionally short-circuits name construction, since it needs no
//! re-validation.

use vstd::prelude::*;

use crate::error::HttpError;
use crate::http_bindings;
use crate::http_bindings::{name_text, raw_value_bytes, utf8_bytes};
use crate::syntax::{lower_seq, valid_name_text, valid_value_text, visible_ascii_text};
use crate::value::HeaderValue;
use http::HeaderValue as RawHttpValue;

verus! {

/// Text that is either borrowed static text or owned text.
///
/// This transient form shuttles caller input into the name and value
/// constructors while preserving the zero-copy opportunity when the caller
/// already held static text.
pub enum MaybeStatic {
    /// Borrowed text with static lifetime, typically a literal.
    Static(&'static str),
    /// Owned text.
    Owned(String),
}

impl MaybeStatic {
    /// Whether this is the borrowed static form.
    pub open spec fn is_static_form(&self) -> bool {
        self matches MaybeStatic::Static(_)
    }

    /// The text carried, whichever form holds it.
    pub open spec fn carried_text(&self) -> Seq<char> {
        match self {
            MaybeStatic::Static(s) => s@,
            MaybeStatic::Owned(s) => s@,
        }
    }

    /// A borrowed view of the carried text.
    pub fn as_text(&self) -> (r: &str)
        ensures
            r@ == self.carried_text(),
    {
        match self {
            MaybeStatic::Static(s) => s,
            MaybeStatic::Owned(s) => s.as_str(),
        }
    }

    /// The carried text as an owned string.
    pub fn into_text(self) -> (r: String)
        ensures
            r@ == self.carried_text(),
    {
        match self {
            MaybeStatic::Static(s) => <String as vstd::string::StringExecFns>::from_str(s),
            MaybeStatic::Owned(s) => s,
        }
    }
}

/// Things that may be converted into a header component (name or value).
pub trait AsHeaderComponent: Sized {
    /// Whether this input is an already-validated native header name.
    spec fn is_native_name(&self) -> bool;

    /// Whether coercion to text succeeds.
    spec fn coercible(&self) -> bool;

    /// Whether coercion yields the borrowed static form, whose zero-copy
    /// value constructor is stricter than the fallible one.
    spec fn is_static_text(&self) -> bool;

    /// The text this component carries when coercion succeeds; for a native
    /// header name, the name's (lowercase) text.
    spec fn text(&self) -> Seq<char>;

    /// Coerces this component into maybe-static text.
    fn into_maybe_static(self) -> (r: Result<MaybeStatic, HttpError>)
        ensures
            r is Ok <==> self.coercible(),
            r matches Ok(ms) ==> ms.carried_text() == self.text()
                && ms.is_static_form() == self.is_static_text(),
            r matches Err(e) ==> e == HttpError::NotAString;

    /// A string reference to this component.
    fn as_str(&self) -> (r: Result<&str, HttpError>)
        ensures
            r is Ok <==> self.coercible(),
            r matches Ok(t) ==> t@ == self.text(),
            r matches Err(e) ==> e == HttpError::NotAString;

    /// If this component is already internally represented as a native
    /// `http::HeaderName`, returns it; otherwise hands the component back.
    fn repr_as_http02x_header_name(self) -> (r: Result<http::HeaderName, Self>)
        ensures
            self.is_native_name() ==> (r matches Ok(n) && name_text(n) == self.text()),
            !self.is_native_name() ==> (r matches Err(c) && c == self);
}

impl AsHeaderComponent for &'static str {
    open spec fn is_native_name(&self) -> bool {
        false
    }

    open spec fn coercible(&self) -> bool {
        true
    }

    open spec fn is_static_text(&self) -> bool {
        true
    }

    open spec fn text(&self) -> Seq<char> {
        self@
    }

    fn into_maybe_static(self) -> (r: Result<MaybeStatic, HttpError>) {
        Ok(MaybeStatic::Static(self))
    }

    fn as_str(&self) -> (r: Result<&str, HttpError>) {
        Ok(self)
    }

    fn repr_as_http02x_header_name(self) -> (r: Result<http::HeaderName, Self>) {
        Err(self)
    }
}

impl AsHeaderComponent for String {
    open spec fn is_native_name(&self) -> bool {
        false
    }

    open spec fn coercible(&self) -> bool {
        true
    }

    open spec fn is_static_text(&self) -> bool {
        false
    }

    open spec fn text(&self) -> Seq<char> {
        self@
    }

    fn into_maybe_static(self) -> (r: Result<MaybeStatic, HttpError>) {
        Ok(MaybeStatic::Owned(self))
    }

    fn as_str(&self) -> (r: Result<&str, HttpError>) {
        Ok(self.as_str())
    }

    fn repr_as_http02x_header_name(self) -> (r: Result<http::HeaderName, Self>) {
        Err(self)
    }
}

impl AsHeaderComponent for MaybeStatic {
    open spec fn is_native_name(&self) -> bool {
        false
    }

    open spec fn coercible(&self) -> bool {
        true
    }

    open spec fn is_static_text(&self) -> bool {
        self.is_static_form()
    }

    open spec fn text(&self) -> Seq<char> {
        self.carried_text()
    }

    fn into_maybe_static(self) -> (r: Result<MaybeStatic, HttpError>) {
        Ok(self)
    }

    fn as_str(&self) -> (r: Result<&str, HttpError>) {
        Ok(self.as_text())
    }

    fn repr_as_http02x_header_name(self) -> (r: Result<http::HeaderName, Self>) {
        Err(self)
    }
}

impl AsHeaderComponent for RawHttpValue {
    open spec fn is_native_name(&self) -> bool {
        false
    }

    open spec fn coercible(&self) -> bool {
        exists|s: Seq<char>| utf8_bytes(s) == raw_value_bytes(*self)
    }

    open spec fn is_static_text(&self) -> bool {
        false
    }

    open spec fn text(&self) -> Seq<char> {
        choose|s: Seq<char>| utf8_bytes(s) == raw_value_bytes(*self)
    }

    fn into_maybe_static(self) -> (r: Result<MaybeStatic, HttpError>) {
        match HeaderValue::from_http02x(&self) {
            Ok(v) => Ok(MaybeStatic::Owned(v.into_string())),
            Err(_) => Err(HttpError::NotAString),
        }
    }

    fn as_str(&self) -> (r: Result<&str, HttpError>) {
        let bytes = http_bindings::raw_value_as_bytes(self);
        match http_bindings::utf8_from(bytes) {
            Ok(t) => Ok(t),
            Err(_) => Err(HttpError::NotAString),
        }
    }

    fn repr_as_http02x_header_name(self) -> (r: Result<http::HeaderName, Self>) {
        Err(self)
    }
}

impl AsHeaderComponent for http::HeaderName {
    open spec fn is_native_name(&self) -> bool {
        true
    }

    open spec fn coercible(&self) -> bool {
        true
    }

    open spec fn is_static_text(&self) -> bool {
        false
    }

    open spec fn text(&self) -> Seq<char> {
        name_text(*self)
    }

    fn into_maybe_static(self) -> (r: Result<MaybeStatic, HttpError>) {
        let text = http_bindings::name_as_str(&self);
        Ok(MaybeStatic::Owned(<String as vstd::string::StringExecFns>::from_str(text)))
    }

    fn as_str(&self) -> (r: Result<&str, HttpError>) {
        Ok(http_bindings::name_as_str(self))
    }

    fn repr_as_http02x_header_name(self) -> (r: Result<http::HeaderName, Self>) {
        Ok(self)
    }
}

/// The key under which a component's entry is stored: a native name is reused
/// as it stands, any other input is normalized to lowercase.
pub open spec fn stored_key<K: AsHeaderComponent>(key: K) -> Seq<char> {
    if key.is_native_name() {
        key.text()
    } else {
        lower_seq(key.text())
    }
}

/// Whether a component is accepted as a key by the single-entry mutations
/// that use the native-name fast path.
pub open spec fn key_acceptable<K: AsHeaderComponent>(key: K) -> bool {
    key.is_native_name() || (key.coercible() && valid_name_text(key.text()))
}

/// Whether a component is accepted as a key by the mutations that coerce the
/// key to text before validating it.
pub open spec fn coerced_key_acceptable<K: AsHeaderComponent>(key: K) -> bool {
    key.coercible() && valid_name_text(key.text())
}

/// Whether a component is accepted as a header value by the fallible
/// mutations.
pub open spec fn value_acceptable<V: AsHeaderComponent>(value: V) -> bool {
    value.coercible() && valid_value_text(value.text())
}

/// Whether a component is accepted as a header value by the trusted
/// (aborting) mutations: those build borrowed static text through the
/// zero-copy constructor, which tolerates only tab and visible ASCII.
pub open spec fn value_acceptable_trusted<V: AsHeaderComponent>(value: V) -> bool {
    &&& value.coercible()
    &&& if value.is_static_text() {
        visible_ascii_text(value.text())
    } else {
        valid_value_text(value.text())
    }
}

/// The error a mutation with the native-name fast path reports: key problems
/// first, then value problems, uncoercible input before syntax.
pub open spec fn mutation_error<K: AsHeaderComponent, V: AsHeaderComponent>(key: K, value: V) -> HttpError {
    if !key.is_native_name() && !key.coercible() {
        HttpError::NotAString
    } else if !key_acceptable(key) {
        HttpError::InvalidHeaderName
    } else if !value.coercible() {
        HttpError::NotAString
    } else {
        HttpError::InvalidHeaderValue
    }
}

/// The error a mutation that coerces its key reports: key problems first,
/// then value problems, uncoercible input before syntax.
pub open spec fn coerced_mutation_error<K: AsHeaderComponent, V: AsHeaderComponent>(key: K, value: V) -> HttpError {
    if !key.coercible() {
        HttpError::NotAString
    } else if !valid_name_text(key.text()) {
        HttpError::InvalidHeaderName
    } else if !value.coercible() {
        HttpError::NotAString
    } else {
        HttpError::InvalidHeaderValue
    }
}

/// Constructs a validated header name from a caller-supplied component.
///
/// A native header name is reused directly.  Any other input is coerced to
/// text and validated: the name must be a nonempty token within the length
/// bound, and uppercase ASCII is normalized to lowercase.  Input that cannot
/// be coerced to text is reported as not being a string; text that fails
/// name syntax is reported as an invalid header name.
pub fn header_name<K: AsHeaderComponent>(name: K) -> (r: Result<http::HeaderName, HttpError>)
    ensures
        r is Ok <==> (name.is_native_name()
            || (name.coercible() && valid_name_text(name.text()))),
        r matches Ok(n) ==> name_text(n) == stored_key(name),
        r matches Err(e) ==> e == (if !name.coercible() {
            HttpError::NotAString
        } else {
            HttpError::InvalidHeaderName
        }),
{
    match name.repr_as_http02x_header_name() {
        Ok(native) => Ok(native),
        Err(other) => match other.into_maybe_static() {
            Ok(text) => match http_bindings::parse_name(text.as_text()) {
                Ok(n) => Ok(n),
                Err(_) => Err(HttpError::InvalidHeaderName),
            },
            Err(e) => Err(e),
        },
    }
}

/// Constructs a validated header value from maybe-static text.
///
/// With `panic_safe` set, the text is validated fallibly and accepted exactly
/// when all of its characters are allowed in a header value.  Without it,
/// borrowed static text goes through the zero-copy constructor instead, which
/// tolerates only tab and visible ASCII and aborts otherwise; callers on that
/// path must supply such text.  Either way the result wraps the text as
/// UTF-8-safe.
pub fn header_value(value: MaybeStatic, panic_safe: bool) -> (r: Result<HeaderValue, HttpError>)
    requires
        !panic_safe && value.is_static_form() ==> visible_ascii_text(value.carried_text()),
    ensures
        r is Ok <==> valid_value_text(value.carried_text()),
        r matches Ok(v) ==> v@ == value.carried_text(),
        r matches Err(e) ==> e == HttpError::InvalidHeaderValue,
{
    match value {
        MaybeStatic::Static(s) if !panic_safe => {
            let _raw = http_bindings::value_from_static(s);
            proof {
                assert forall|i: int| 0 <= i < s@.len() implies crate::syntax::is_value_char(
                    s@[i],
                ) by {
                    assert(crate::syntax::is_visible_ascii_char(s@[i]));
                }
            }
            Ok(HeaderValue::from_text(<String as vstd::string::StringExecFns>::from_str(s)))
        },
        other => match http_bindings::parse_value(other.as_text()) {
            Ok(_raw) => Ok(HeaderValue::from_text(other.into_text())),
            Err(_) => Err(HttpError::InvalidHeaderValue),
        },
    }
}

} // verus!
