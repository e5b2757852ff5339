//! The trusted interface to the `http` crate and to UTF-8 decoding.
//!
//! The container wraps `http`'s `HeaderMap`, `HeaderName` and `HeaderValue`
//! rather than reimplementing them.  Everything the verified code relies on
//! about them is stated here, as contracts on small wrappers, in terms of a
//! few named results: the text of a name, the bytes of a raw value, the UTF-8
//! encoding of a text, and the flat entry sequence of a map.

use vstd::prelude::*;

use crate::syntax::{entries_for, lower_seq, valid_name_text, valid_value_text, visible_ascii_text, CAPACITY_GUARD};
use crate::value::HeaderValue;
use http::HeaderValue as RawHttpValue;

verus! {

#[verifier::external_type_specification]
#[verifier::external_body]
pub struct ExHeaderName(http::HeaderName);

#[verifier::external_type_specification]
#[verifier::external_body]
pub struct ExHttpHeaderValue(RawHttpValue);

#[verifier::external_type_specification]
#[verifier::external_body]
#[verifier::reject_recursive_types(T)]
pub struct ExHeaderMap<T>(http::HeaderMap<T>);

#[verifier::external_type_specification]
#[verifier::external_body]
pub struct ExInvalidHeaderName(http::header::InvalidHeaderName);

#[verifier::external_type_specification]
#[verifier::external_body]
pub struct ExInvalidHeaderValue(http::header::InvalidHeaderValue);

#[verifier::external_type_specification]
#[verifier::external_body]
pub struct ExUtf8Error(std::str::Utf8Error);

/// The text of a validated header name.  `http::HeaderName` stores its name
/// as lowercase ASCII text, a pure function of the value.
pub uninterp spec fn name_text(n: http::HeaderName) -> Seq<char>;

/// The bytes held by a raw `RawHttpValue`, a pure function of the value.
pub uninterp spec fn raw_value_bytes(v: RawHttpValue) -> Seq<u8>;

/// The UTF-8 encoding of a text, as produced by `str::as_bytes`.
pub uninterp spec fn utf8_bytes(s: Seq<char>) -> Seq<u8>;

/// Whether a byte sequence is the UTF-8 encoding of some text.
pub open spec fn utf8_decodable(b: Seq<u8>) -> bool {
    exists|s: Seq<char>| utf8_bytes(s) == b
}

/// The text a decodable byte sequence encodes.
pub open spec fn utf8_text(b: Seq<u8>) -> Seq<char> {
    choose|s: Seq<char>| utf8_bytes(s) == b
}

/// The contents of a string-safe map, as the flat sequence of (name text,
/// value text) entries in the map's storage order: the order its iterator
/// yields, with the values of one name adjacent and in insertion order.
pub uninterp spec fn map_entries(m: http::HeaderMap<HeaderValue>) -> Seq<(Seq<char>, Seq<char>)>;

/// The contents of a raw map, as the flat sequence of (name text, value
/// bytes) entries in the map's storage order.
pub uninterp spec fn raw_map_entries(m: http::HeaderMap<RawHttpValue>) -> Seq<(Seq<char>, Seq<u8>)>;

/// Relies on `http::HeaderName::try_from(&str)`: it accepts exactly the
/// nonempty token texts within the length bound, and normalizes ASCII
/// uppercase to lowercase.
#[verifier::external_body]
pub(crate) fn parse_name(s: &str) -> (r: Result<http::HeaderName, http::header::InvalidHeaderName>)
    ensures
        r is Ok <==> valid_name_text(s@),
        r matches Ok(n) ==> name_text(n) == lower_seq(s@),
{
    http::HeaderName::try_from(s)
}

/// Relies on `http::HeaderName::as_str`: it returns the name's lowercase text.
#[verifier::external_body]
pub(crate) fn name_as_str(n: &http::HeaderName) -> (r: &str)
    ensures
        r@ == name_text(*n),
{
    n.as_str()
}

/// Relies on `http::HeaderName::clone`: the copy carries the same name.
#[verifier::external_body]
pub(crate) fn name_clone(n: &http::HeaderName) -> (r: http::HeaderName)
    ensures
        name_text(r) == name_text(*n),
{
    n.clone()
}

/// Relies on `RawHttpValue::try_from(&str)`: it accepts exactly the
/// texts whose characters are tab or at least space and not ASCII delete,
/// and stores the text's UTF-8 bytes.
#[verifier::external_body]
pub(crate) fn parse_value(s: &str) -> (r: Result<RawHttpValue, http::header::InvalidHeaderValue>)
    ensures
        r is Ok <==> valid_value_text(s@),
        r matches Ok(v) ==> raw_value_bytes(v) == utf8_bytes(s@),
{
    RawHttpValue::try_from(s)
}

/// Relies on `RawHttpValue::from_static`: it accepts tab and visible ASCII
/// without allocating, and aborts on anything else, which the precondition
/// rules out.
#[verifier::external_body]
pub(crate) fn value_from_static(s: &'static str) -> (r: RawHttpValue)
    requires
        visible_ascii_text(s@),
    ensures
        raw_value_bytes(r) == utf8_bytes(s@),
{
    RawHttpValue::from_static(s)
}

/// Relies on `RawHttpValue::as_bytes`: it returns the value's bytes.
#[verifier::external_body]
pub(crate) fn raw_value_as_bytes(v: &RawHttpValue) -> (r: &[u8])
    ensures
        r@ == raw_value_bytes(*v),
{
    v.as_bytes()
}

/// Relies on `std::str::from_utf8`: it succeeds exactly on the UTF-8
/// encoding of a text, and returns that text; `str::as_bytes` is its inverse,
/// so the text with a given encoding is unique.
#[verifier::external_body]
pub(crate) fn utf8_from(b: &[u8]) -> (r: Result<&str, std::str::Utf8Error>)
    ensures
        r is Ok <==> exists|s: Seq<char>| utf8_bytes(s) == b@,
        r matches Ok(t) ==> utf8_bytes(t@) == b@
            && forall|s: Seq<char>| utf8_bytes(s) == b@ ==> s == t@,
{
    std::str::from_utf8(b)
}

/// Relies on `http::HeaderMap::default`: it returns an empty map.
#[verifier::external_body]
pub(crate) fn map_new() -> (r: http::HeaderMap<HeaderValue>)
    ensures
        map_entries(r) == Seq::<(Seq<char>, Seq<char>)>::empty(),
{
    http::HeaderMap::default()
}

/// Relies on `http::HeaderMap::clone` (derived): the copy holds the same
/// entries.
#[verifier::external_body]
pub(crate) fn map_clone(m: &http::HeaderMap<HeaderValue>) -> (r: http::HeaderMap<HeaderValue>)
    ensures
        map_entries(r) == map_entries(*m),
{
    m.clone()
}

/// Relies on `http::HeaderMap::len`: it counts all values over all names.
#[verifier::external_body]
pub(crate) fn map_len(m: &http::HeaderMap<HeaderValue>) -> (r: usize)
    ensures
        r == map_entries(*m).len(),
{
    m.len()
}

/// Relies on `http::HeaderMap::get` with a `&str` key: the lookup normalizes
/// the key to lowercase and returns the first value stored under it; a key
/// that matches no entry (including one that is not a well-formed name)
/// yields nothing.
#[verifier::external_body]
pub(crate) fn map_get<'a>(m: &'a http::HeaderMap<HeaderValue>, key: &str) -> (r: Option<&'a HeaderValue>)
    ensures
        match r {
            Some(v) => {
                &&& entries_for(map_entries(*m), lower_seq(key@)).len() > 0
                &&& v@ == entries_for(map_entries(*m), lower_seq(key@))[0]
            },
            None => entries_for(map_entries(*m), lower_seq(key@)).len() == 0,
        },
{
    m.get(key)
}

/// Relies on `http::HeaderMap::get_all`: it yields every value stored under
/// the (lowercased) key, in insertion order.
#[verifier::external_body]
pub(crate) fn map_get_all(m: &http::HeaderMap<HeaderValue>, key: &str) -> (r: Vec<String>)
    ensures
        r@.map_values(|s: String| s@) == entries_for(map_entries(*m), lower_seq(key@)),
{
    m.get_all(key).iter().map(|v| v.as_str().to_string()).collect()
}

/// Relies on `http::HeaderMap::contains_key` with a `&str` key.
#[verifier::external_body]
pub(crate) fn map_contains(m: &http::HeaderMap<HeaderValue>, key: &str) -> (r: bool)
    ensures
        r == (entries_for(map_entries(*m), lower_seq(key@)).len() > 0),
{
    m.contains_key(key)
}

/// Relies on `http::HeaderMap::insert`: it replaces every value stored under
/// the name with the one given, leaves other names unchanged, and returns the
/// first previously stored value, if any.  Within the capacity guard it does
/// not abort.
#[verifier::external_body]
pub(crate) fn map_insert(m: &mut http::HeaderMap<HeaderValue>, name: http::HeaderName, value: HeaderValue) -> (r: Option<HeaderValue>)
    requires
        map_entries(*old(m)).len() < CAPACITY_GUARD,
    ensures
        entries_for(map_entries(*final(m)), name_text(name)) == seq![value@],
        forall|k: Seq<char>| k != name_text(name) ==>
            entries_for(map_entries(*final(m)), k) == entries_for(map_entries(*old(m)), k),
        map_entries(*final(m)).len() == map_entries(*old(m)).len()
            - entries_for(map_entries(*old(m)), name_text(name)).len() + 1,
        match r {
            Some(prev) => {
                &&& entries_for(map_entries(*old(m)), name_text(name)).len() > 0
                &&& prev@ == entries_for(map_entries(*old(m)), name_text(name))[0]
            },
            None => entries_for(map_entries(*old(m)), name_text(name)).len() == 0,
        },
{
    m.insert(name, value)
}

/// Relies on `http::HeaderMap::append`: it adds the value at the end of the
/// name's values, leaves other names unchanged, and reports whether the name
/// was already present.  Within the capacity guard it does not abort.
#[verifier::external_body]
pub(crate) fn map_append(m: &mut http::HeaderMap<HeaderValue>, name: http::HeaderName, value: HeaderValue) -> (r: bool)
    requires
        map_entries(*old(m)).len() < CAPACITY_GUARD,
    ensures
        entries_for(map_entries(*final(m)), name_text(name))
            == entries_for(map_entries(*old(m)), name_text(name)).push(value@),
        forall|k: Seq<char>| k != name_text(name) ==>
            entries_for(map_entries(*final(m)), k) == entries_for(map_entries(*old(m)), k),
        map_entries(*final(m)).len() == map_entries(*old(m)).len() + 1,
        r == (entries_for(map_entries(*old(m)), name_text(name)).len() > 0),
{
    m.append(name, value)
}

/// Relies on `http::HeaderMap::remove` with a `&str` key: it removes every
/// value stored under the (lowercased) key, leaves other names unchanged, and
/// returns the first removed value; when the key matches nothing the map is
/// untouched.
#[verifier::external_body]
pub(crate) fn map_remove(m: &mut http::HeaderMap<HeaderValue>, key: &str) -> (r: Option<HeaderValue>)
    ensures
        entries_for(map_entries(*final(m)), lower_seq(key@)).len() == 0,
        forall|k: Seq<char>| k != lower_seq(key@) ==>
            entries_for(map_entries(*final(m)), k) == entries_for(map_entries(*old(m)), k),
        map_entries(*final(m)).len() == map_entries(*old(m)).len()
            - entries_for(map_entries(*old(m)), lower_seq(key@)).len(),
        entries_for(map_entries(*old(m)), lower_seq(key@)).len() == 0
            ==> map_entries(*final(m)) == map_entries(*old(m)),
        match r {
            Some(prev) => {
                &&& entries_for(map_entries(*old(m)), lower_seq(key@)).len() > 0
                &&& prev@ == entries_for(map_entries(*old(m)), lower_seq(key@))[0]
            },
            None => entries_for(map_entries(*old(m)), lower_seq(key@)).len() == 0,
        },
{
    m.remove(key)
}

/// Relies on `http::HeaderMap::iter`: it yields every (name, value) entry in
/// storage order, the name repeated for each of its values.
#[verifier::external_body]
pub(crate) fn map_dump(m: &http::HeaderMap<HeaderValue>) -> (r: Vec<(String, String)>)
    ensures
        r@.map_values(|p: (String, String)| (p.0@, p.1@)) == map_entries(*m),
{
    m.iter().map(|(k, v)| (k.as_str().to_string(), v.as_str().to_string())).collect()
}

/// Relies on `http::HeaderMap::iter` on a raw map: it yields every (name,
/// value) entry in storage order, the name repeated for each of its values.
#[verifier::external_body]
pub(crate) fn raw_map_dump(m: &http::HeaderMap<RawHttpValue>) -> (r: Vec<(http::HeaderName, RawHttpValue)>)
    ensures
        r@.map_values(|p: (http::HeaderName, RawHttpValue)| (name_text(p.0), raw_value_bytes(p.1)))
            == raw_map_entries(*m),
{
    m.iter().map(|(k, v)| (k.clone(), v.clone())).collect()
}

} // verus!
