//! The string-safe header container.

use vstd::prelude::*;

use crate::component::{
    coerced_key_acceptable, coerced_mutation_error, header_name, header_value, key_acceptable,
    mutation_error, stored_key, value_acceptable, value_acceptable_trusted, AsHeaderComponent,
};
use crate::error::HttpError;
use crate::http_bindings;
use crate::http_bindings::{map_entries, name_text, raw_map_entries, raw_value_bytes, utf8_decodable, utf8_text};
use crate::syntax::{entries_for, first_value_for, lower_seq, CAPACITY_GUARD};
use crate::value::HeaderValue;
use http::HeaderValue as RawHttpValue;

verus! {

/// How an insertion changes the entry view: the key holds exactly the new
/// value, every other key is untouched, and the count drops by the number of
/// values the key held and gains one.
pub open spec fn insert_effect(
    before: Seq<(Seq<char>, Seq<char>)>,
    after: Seq<(Seq<char>, Seq<char>)>,
    key: Seq<char>,
    value: Seq<char>,
) -> bool {
    &&& entries_for(after, key) == seq![value]
    &&& forall|k: Seq<char>| k != key ==> entries_for(after, k) == entries_for(before, k)
    &&& after.len() == before.len() - entries_for(before, key).len() + 1
}

/// How an append changes the entry view: the new value joins the end of the
/// key's values, every other key is untouched, and the count grows by one.
pub open spec fn append_effect(
    before: Seq<(Seq<char>, Seq<char>)>,
    after: Seq<(Seq<char>, Seq<char>)>,
    key: Seq<char>,
    value: Seq<char>,
) -> bool {
    &&& entries_for(after, key) == entries_for(before, key).push(value)
    &&& forall|k: Seq<char>| k != key ==> entries_for(after, k) == entries_for(before, k)
    &&& after.len() == before.len() + 1
}

/// How a removal changes the entry view: the key holds nothing, every other
/// key is untouched, the count drops by the number of values removed, and a
/// removal of an absent key changes nothing at all.
pub open spec fn remove_effect(
    before: Seq<(Seq<char>, Seq<char>)>,
    after: Seq<(Seq<char>, Seq<char>)>,
    key: Seq<char>,
) -> bool {
    &&& entries_for(after, key).len() == 0
    &&& forall|k: Seq<char>| k != key ==> entries_for(after, k) == entries_for(before, k)
    &&& after.len() == before.len() - entries_for(before, key).len()
    &&& entries_for(before, key).len() == 0 ==> after == before
}

/// The entries of a raw collection with every value decoded as the text its
/// bytes encode.
pub open spec fn decoded_raw_entries(raw: Seq<(Seq<char>, Seq<u8>)>) -> Seq<(Seq<char>, Seq<char>)> {
    raw.map_values(|e: (Seq<char>, Seq<u8>)| (e.0, utf8_text(e.1)))
}

/// An immutable view of headers.
///
/// A multi-map from case-insensitive header names to UTF-8 string values,
/// keeping insertion order among the values of one name.  Its view is the
/// flat sequence of (name text, value text) entries in storage order.
#[derive(Debug)]
pub struct Headers {
    headers: http::HeaderMap<HeaderValue>,
}

impl Clone for Headers {
    /// The copy is structurally independent and holds the same entries.
    fn clone(&self) -> (r: Headers)
        ensures
            r@ == self@,
    {
        Headers { headers: http_bindings::map_clone(&self.headers) }
    }
}

impl View for Headers {
    type V = Seq<(Seq<char>, Seq<char>)>;

    closed spec fn view(&self) -> Seq<(Seq<char>, Seq<char>)> {
        map_entries(self.headers)
    }
}

impl Default for Headers {
    fn default() -> (r: Headers)
        ensures
            r@ == Seq::<(Seq<char>, Seq<char>)>::empty(),
    {
        Headers::new()
    }
}

impl Headers {
    /// Creates an empty header map.
    pub fn new() -> (r: Headers)
        ensures
            r@ == Seq::<(Seq<char>, Seq<char>)>::empty(),
    {
        Headers { headers: http_bindings::map_new() }
    }

    /// Returns the first value for a key, looked up case-insensitively, or
    /// nothing if the key is absent.
    pub fn get<'a>(&'a self, key: &str) -> (r: Option<&'a str>)
        ensures
            match r {
                Some(t) => first_value_for(self@, lower_seq(key@)) == Some(t@),
                None => first_value_for(self@, lower_seq(key@)) is None,
            },
    {
        match http_bindings::map_get(&self.headers, key) {
            Some(v) => Some(v.as_str()),
            None => None,
        }
    }

    /// Returns every value for a key in insertion order; empty if the key is
    /// absent.
    pub fn get_all(&self, key: &str) -> (r: Vec<String>)
        ensures
            r@.map_values(|s: String| s@) == entries_for(self@, lower_seq(key@)),
    {
        http_bindings::map_get_all(&self.headers, key)
    }

    /// Returns an iterator over all (name, value) entries, in storage order.
    pub fn iter(&self) -> (r: HeadersIter)
        ensures
            r@ == self@,
    {
        let entries = http_bindings::map_dump(&self.headers);
        let r = HeadersIter { entries, pos: 0 };
        proof {
            assert(r@ =~= self@);
        }
        r
    }

    /// The total number of values stored, over all keys.
    pub fn len(&self) -> (r: usize)
        ensures
            r == self@.len(),
    {
        http_bindings::map_len(&self.headers)
    }

    /// Whether no header is stored.
    pub fn is_empty(&self) -> (r: bool)
        ensures
            r == (self@.len() == 0),
    {
        self.len() == 0
    }

    /// Whether the key, looked up case-insensitively, has at least one value.
    pub fn contains_key(&self, key: &str) -> (r: bool)
        ensures
            r == (entries_for(self@, lower_seq(key@)).len() > 0),
    {
        http_bindings::map_contains(&self.headers, key)
    }

    /// Inserts a value, replacing every value the key previously held, and
    /// returns the first previously stored value, if any.
    ///
    /// Callers must supply a well-formed key and value: this entry point
    /// aborts on input that `try_insert` would reject.
    pub fn insert<K: AsHeaderComponent, V: AsHeaderComponent>(&mut self, key: K, value: V) -> (r: Option<String>)
        requires
            old(self)@.len() < CAPACITY_GUARD,
            key_acceptable(key),
            value_acceptable_trusted(value),
        ensures
            insert_effect(old(self)@, final(self)@, stored_key(key), value.text()),
            match r {
                Some(p) => entries_for(old(self)@, stored_key(key)).len() > 0
                    && p@ == entries_for(old(self)@, stored_key(key))[0],
                None => entries_for(old(self)@, stored_key(key)).len() == 0,
            },
    {
        let name = header_name(key).unwrap();
        let text = value.into_maybe_static().unwrap();
        let v = header_value(text, false).unwrap();
        match http_bindings::map_insert(&mut self.headers, name, v) {
            Some(prev) => Some(prev.into_string()),
            None => None,
        }
    }

    /// Inserts a value, replacing every value the key previously held, and
    /// returns the first previously stored value, if any.
    ///
    /// A key that is not a well-formed header name or a value that is not a
    /// well-formed header value is reported as a typed error, and the
    /// container is left unchanged.
    pub fn try_insert<K: AsHeaderComponent, V: AsHeaderComponent>(&mut self, key: K, value: V) -> (r: Result<Option<String>, HttpError>)
        requires
            old(self)@.len() < CAPACITY_GUARD,
        ensures
            r is Ok <==> (key_acceptable(key) && value_acceptable(value)),
            r is Ok ==> insert_effect(old(self)@, final(self)@, stored_key(key), value.text()),
            r matches Ok(prev) ==> match prev {
                Some(p) => entries_for(old(self)@, stored_key(key)).len() > 0
                    && p@ == entries_for(old(self)@, stored_key(key))[0],
                None => entries_for(old(self)@, stored_key(key)).len() == 0,
            },
            r is Err ==> final(self)@ == old(self)@,
            r matches Err(e) ==> e == mutation_error(key, value),
    {
        let name = match header_name(key) {
            Ok(n) => n,
            Err(e) => {
                return Err(e);
            },
        };
        let text = match value.into_maybe_static() {
            Ok(ms) => ms,
            Err(e) => {
                return Err(e);
            },
        };
        let v = match header_value(text, true) {
            Ok(v) => v,
            Err(e) => {
                return Err(e);
            },
        };
        match http_bindings::map_insert(&mut self.headers, name, v) {
            Some(prev) => Ok(Some(prev.into_string())),
            None => Ok(None),
        }
    }

    /// Appends a value to a key without removing existing values, and returns
    /// whether the key already had a value.
    ///
    /// Callers must supply a well-formed key and value: this entry point
    /// aborts on input that `try_append` would reject.
    pub fn append<K: AsHeaderComponent, V: AsHeaderComponent>(&mut self, key: K, value: V) -> (r: bool)
        requires
            old(self)@.len() < CAPACITY_GUARD,
            coerced_key_acceptable(key),
            value_acceptable_trusted(value),
        ensures
            append_effect(old(self)@, final(self)@, lower_seq(key.text()), value.text()),
            r == (entries_for(old(self)@, lower_seq(key.text())).len() > 0),
    {
        let key_text = key.into_maybe_static().unwrap();
        let name = header_name(key_text).unwrap();
        let text = value.into_maybe_static().unwrap();
        let v = header_value(text, false).unwrap();
        http_bindings::map_append(&mut self.headers, name, v)
    }

    /// Appends a value to a key without removing existing values, and returns
    /// whether the key already had a value.
    ///
    /// A key that is not a well-formed header name or a value that is not a
    /// well-formed header value is reported as a typed error, and the
    /// container is left unchanged.
    pub fn try_append<K: AsHeaderComponent, V: AsHeaderComponent>(&mut self, key: K, value: V) -> (r: Result<bool, HttpError>)
        requires
            old(self)@.len() < CAPACITY_GUARD,
        ensures
            r is Ok <==> (coerced_key_acceptable(key) && value_acceptable(value)),
            r is Ok ==> append_effect(old(self)@, final(self)@, lower_seq(key.text()), value.text()),
            r matches Ok(existed) ==> existed == (entries_for(old(self)@, lower_seq(key.text())).len() > 0),
            r is Err ==> final(self)@ == old(self)@,
            r matches Err(e) ==> e == coerced_mutation_error(key, value),
    {
        let key_text = match key.into_maybe_static() {
            Ok(ms) => ms,
            Err(e) => {
                return Err(e);
            },
        };
        let name = match header_name(key_text) {
            Ok(n) => n,
            Err(e) => {
                return Err(e);
            },
        };
        let text = match value.into_maybe_static() {
            Ok(ms) => ms,
            Err(e) => {
                return Err(e);
            },
        };
        let v = match header_value(text, true) {
            Ok(v) => v,
            Err(e) => {
                return Err(e);
            },
        };
        Ok(http_bindings::map_append(&mut self.headers, name, v))
    }

    /// Removes every value for a key, returning the first removed value, or
    /// nothing if the key was absent; an absent key leaves the container
    /// unchanged.
    pub fn remove(&mut self, key: &str) -> (r: Option<String>)
        ensures
            remove_effect(old(self)@, final(self)@, lower_seq(key@)),
            match r {
                Some(s) => entries_for(old(self)@, lower_seq(key@)).len() > 0
                    && s@ == entries_for(old(self)@, lower_seq(key@))[0],
                None => entries_for(old(self)@, lower_seq(key@)).len() == 0,
            },
    {
        match http_bindings::map_remove(&mut self.headers, key) {
            Some(v) => Some(v.into_string()),
            None => None,
        }
    }

    /// Builds a string-safe header map from a raw header collection.
    ///
    /// Every raw value is checked for UTF-8 validity before anything is
    /// constructed: the first malformed value fails the whole conversion with
    /// nothing built.  On success the result holds one entry per raw entry,
    /// keyed exactly as the raw collection was (raw names are already
    /// validated, so no further normalization is applied).
    pub fn try_from(value: http::HeaderMap<RawHttpValue>) -> (r: Result<Headers, HttpError>)
        requires
            raw_map_entries(value).len() <= CAPACITY_GUARD,
        ensures
            r is Ok <==> (forall|i: int| 0 <= i < raw_map_entries(value).len()
                ==> utf8_decodable(#[trigger] raw_map_entries(value)[i].1)),
            r matches Ok(h) ==> h@.len() == raw_map_entries(value).len(),
            r matches Ok(h) ==> forall|k: Seq<char>|
                #[trigger] entries_for(h@, k)
                    == entries_for(decoded_raw_entries(raw_map_entries(value)), k),
            r matches Err(e) ==> e == HttpError::NotAString,
    {
        let entries = http_bindings::raw_map_dump(&value);
        let ghost raw = raw_map_entries(value);
        let n = entries.len();
        let mut texts: Vec<HeaderValue> = Vec::new();
        let mut i: usize = 0;
        while i < n
            invariant
                n == entries.len(),
                raw == raw_map_entries(value),
                entries@.map_values(
                    |p: (http::HeaderName, RawHttpValue)|
                        (http_bindings::name_text(p.0), raw_value_bytes(p.1)),
                ) == raw,
                texts.len() == i,
                i <= n,
                forall|j: int| 0 <= j < i ==> utf8_decodable(#[trigger] raw[j].1),
                forall|j: int| 0 <= j < i ==> texts@[j]@ == utf8_text(#[trigger] raw[j].1),
            decreases n - i,
        {
            proof {
                assert(raw[i as int] == (http_bindings::name_text(entries@[i as int].0),
                    raw_value_bytes(entries@[i as int].1)));
            }
            match HeaderValue::from_http02x(&entries[i].1) {
                Ok(v) => {
                    proof {
                        assert(utf8_text(raw[i as int].1) == v@);
                    }
                    texts.push(v);
                },
                Err(_) => {
                    proof {
                        assert(raw.len() == n);
                        assert(!utf8_decodable(raw_map_entries(value)[i as int].1));
                    }
                    return Err(HttpError::NotAString);
                },
            }
            i += 1;
        }
        let ghost decoded = decoded_raw_entries(raw);
        let mut map = http_bindings::map_new();
        let mut j: usize = 0;
        while j < n
            invariant
                n == entries.len(),
                n <= CAPACITY_GUARD,
                raw == raw_map_entries(value),
                decoded == decoded_raw_entries(raw),
                entries@.map_values(
                    |p: (http::HeaderName, RawHttpValue)|
                        (name_text(p.0), raw_value_bytes(p.1)),
                ) == raw,
                texts.len() == n,
                forall|jj: int| 0 <= jj < n ==> texts@[jj]@ == utf8_text(#[trigger] raw[jj].1),
                j <= n,
                map_entries(map).len() == j,
                forall|k: Seq<char>|
                    #[trigger] entries_for(map_entries(map), k)
                        == entries_for(decoded.take(j as int), k),
            decreases n - j,
        {
            let name = http_bindings::name_clone(&entries[j].0);
            let v = texts[j].clone();
            let ghost before = map_entries(map);
            http_bindings::map_append(&mut map, name, v);
            proof {
                broadcast use Seq::lemma_filter_push, Seq::lemma_filter_len_push;

                let k0 = name_text(name);
                assert(raw[j as int] == (name_text(entries@[j as int].0),
                    raw_value_bytes(entries@[j as int].1)));
                assert(decoded[j as int] == (raw[j as int].0, utf8_text(raw[j as int].1)));
                assert(decoded[j as int] == (k0, v@));
                assert(decoded.take(j as int + 1) =~= decoded.take(j as int).push(
                    decoded[j as int],
                ));
                assert forall|k: Seq<char>|
                    #[trigger] entries_for(map_entries(map), k)
                        == entries_for(decoded.take(j as int + 1), k) by {
                    let pred = |e: (Seq<char>, Seq<char>)| e.0 == k;
                    let tail = decoded.take(j as int).push(decoded[j as int]);
                    assert(tail.filter(pred) == if pred(decoded[j as int]) {
                        decoded.take(j as int).filter(pred).push(decoded[j as int])
                    } else {
                        decoded.take(j as int).filter(pred)
                    });
                    assert(entries_for(map_entries(map), k) =~= entries_for(
                        decoded.take(j as int + 1),
                        k,
                    ));
                }
            }
            j += 1;
        }
        proof {
            assert(decoded.take(n as int) =~= decoded);
        }
        Ok(Headers { headers: map })
    }
}

/// An iterator over headers: the remaining (name, value) entries in storage
/// order.
pub struct HeadersIter {
    entries: Vec<(String, String)>,
    pos: usize,
}

impl View for HeadersIter {
    type V = Seq<(Seq<char>, Seq<char>)>;

    closed spec fn view(&self) -> Seq<(Seq<char>, Seq<char>)> {
        let all = self.entries@.map_values(|p: (String, String)| (p.0@, p.1@));
        if self.pos as int <= all.len() {
            all.skip(self.pos as int)
        } else {
            Seq::empty()
        }
    }
}

impl HeadersIter {
    /// Yields the next (name, value) entry, or nothing once every entry has
    /// been yielded.
    pub fn next(&mut self) -> (r: Option<(String, String)>)
        ensures
            match r {
                Some(p) => old(self)@.len() > 0 && (p.0@, p.1@) == old(self)@[0]
                    && final(self)@ == old(self)@.drop_first(),
                None => old(self)@.len() == 0 && final(self)@ == old(self)@,
            },
    {
        if self.pos < self.entries.len() {
            let name = self.entries[self.pos].0.clone();
            let val = self.entries[self.pos].1.clone();
            self.pos = self.pos + 1;
            proof {
                let m = old(self).entries@.map_values(|p: (String, String)| (p.0@, p.1@));
                assert(old(self)@ == m.skip(old(self).pos as int));
                assert(old(self)@[0] == m[old(self).pos as int]);
                assert((name@, val@) == old(self)@[0]);
                assert(final(self)@ =~= old(self)@.drop_first());
            }
            Some((name, val))
        } else {
            proof {
                assert(old(self)@ =~= Seq::<(Seq<char>, Seq<char>)>::empty());
            }
            None
        }
    }
}

} // verus!
