use utf8_headers::Headers;
use utf8_headers::HeaderValue;
use utf8_headers::HttpError;
use utf8_headers::MaybeStatic;

#[test]
fn headers_can_be_any_string() {
    let _: HeaderValue = "😹".parse().expect("can be any string");
    let _: HeaderValue = "abcd".parse().expect("can be any string");
    let _ = "a\nb"
        .parse::<HeaderValue>()
        .expect_err("cannot contain control characters");
}

#[test]
fn no_panic_insert_upper_case_header_name() {
    let mut headers = Headers::new();
    headers.insert("I-Have-Upper-Case", "foo");
}

#[test]
fn no_panic_append_upper_case_header_name() {
    let mut headers = Headers::new();
    headers.append("I-Have-Upper-Case", "foo");
}

#[test]
#[should_panic]
fn panic_insert_invalid_ascii_key() {
    let mut headers = Headers::new();
    headers.insert("💩", "foo");
}

#[test]
#[should_panic]
fn panic_insert_invalid_header_value() {
    let mut headers = Headers::new();
    headers.insert("foo", "💩");
}

#[test]
#[should_panic]
fn panic_append_invalid_ascii_key() {
    let mut headers = Headers::new();
    headers.append("💩", "foo");
}

#[test]
#[should_panic]
fn panic_append_invalid_header_value() {
    let mut headers = Headers::new();
    headers.append("foo", "💩");
}

#[test]
fn no_panic_try_insert_invalid_ascii_key() {
    let mut headers = Headers::new();
    assert!(headers.try_insert("💩", "foo").is_err());
}

#[test]
fn no_panic_try_insert_invalid_header_value() {
    let mut headers = Headers::new();
    assert!(headers
        .try_insert(
            "foo",
            // Valid header value with invalid UTF-8
            http::HeaderValue::from_bytes(&[0xC0, 0x80]).unwrap()
        )
        .is_err());
}

#[test]
fn no_panic_try_append_invalid_ascii_key() {
    let mut headers = Headers::new();
    assert!(headers.try_append("💩", "foo").is_err());
}

#[test]
fn no_panic_try_append_invalid_header_value() {
    let mut headers = Headers::new();
    assert!(headers
        .try_insert(
            "foo",
            // Valid header value with invalid UTF-8
            http::HeaderValue::from_bytes(&[0xC0, 0x80]).unwrap()
        )
        .is_err());
}

#[test]
fn mixed_case_key_retrievable_under_any_case() {
    let mut headers = Headers::new();
    headers.insert("X-Foo", "1");
    assert_eq!(headers.get("x-foo"), Some("1"));
    assert_eq!(headers.get("X-FOO"), Some("1"));
    assert_eq!(headers.get("X-Foo"), Some("1"));
    assert!(headers.contains_key("x-fOO"));
}

#[test]
fn insert_fully_replaces_prior_values() {
    let mut headers = Headers::new();
    assert_eq!(headers.insert("a", "1"), None);
    assert_eq!(headers.insert("a", "2"), Some("1".to_string()));
    assert_eq!(headers.get_all("a"), vec!["2".to_string()]);
    assert_eq!(headers.len(), 1);
}

#[test]
fn insert_returns_first_of_multiple_previous_values() {
    let mut headers = Headers::new();
    headers.append("a", "1");
    headers.append("a", "2");
    assert_eq!(headers.insert("a", "3"), Some("1".to_string()));
    assert_eq!(headers.get_all("a"), vec!["3".to_string()]);
}

#[test]
fn append_preserves_prior_values_in_order() {
    let mut headers = Headers::new();
    assert!(!headers.append("a", "1"));
    assert!(headers.append("a", "2"));
    assert_eq!(headers.get_all("a"), vec!["1".to_string(), "2".to_string()]);
    assert_eq!(headers.get("a"), Some("1"));
    assert_eq!(headers.len(), 2);
}

#[test]
fn remove_absent_key_changes_nothing() {
    let mut headers = Headers::new();
    headers.insert("a", "1");
    assert_eq!(headers.remove("missing"), None);
    assert_eq!(headers.len(), 1);
    assert_eq!(headers.get("a"), Some("1"));
}

#[test]
fn remove_deletes_all_values_and_returns_first() {
    let mut headers = Headers::new();
    headers.append("a", "1");
    headers.append("a", "2");
    headers.insert("b", "3");
    assert_eq!(headers.remove("A"), Some("1".to_string()));
    assert!(!headers.contains_key("a"));
    assert_eq!(headers.len(), 1);
    assert_eq!(headers.get("b"), Some("3"));
}

#[test]
fn bulk_conversion_counts_every_raw_entry() {
    let mut raw = http::HeaderMap::new();
    raw.insert("a", http::HeaderValue::from_static("1"));
    raw.append("a", http::HeaderValue::from_static("2"));
    raw.insert("b", http::HeaderValue::from_static("3"));
    let headers = Headers::try_from(raw).expect("all values are UTF-8");
    assert_eq!(headers.len(), 3);
    assert_eq!(headers.get_all("a"), vec!["1".to_string(), "2".to_string()]);
    assert_eq!(headers.get("b"), Some("3"));
}

#[test]
fn bulk_conversion_rejects_non_utf8_value_entirely() {
    let mut raw = http::HeaderMap::new();
    raw.insert("a", http::HeaderValue::from_static("fine"));
    raw.insert("b", http::HeaderValue::from_bytes(&[0xC0, 0x80]).unwrap());
    let result = Headers::try_from(raw);
    assert_eq!(result.unwrap_err(), HttpError::NotAString);
}

#[test]
fn newline_value_rejected_by_fallible_mutations() {
    let mut headers = Headers::new();
    assert_eq!(
        headers.try_insert("x", "a\nb".to_string()).unwrap_err(),
        HttpError::InvalidHeaderValue
    );
    assert_eq!(
        headers.try_append("x", "a\nb".to_string()).unwrap_err(),
        HttpError::InvalidHeaderValue
    );
    assert!(headers.is_empty());
}

#[test]
fn emoji_value_accepted_emoji_name_rejected() {
    let mut headers = Headers::new();
    headers.try_insert("x", "😹".to_string()).expect("emoji value is text");
    assert_eq!(headers.get("x"), Some("😹"));
    assert_eq!(
        headers.try_insert("😹", "plain").unwrap_err(),
        HttpError::InvalidHeaderName
    );
    assert_eq!(
        headers.try_append("😹", "plain").unwrap_err(),
        HttpError::InvalidHeaderName
    );
}

#[test]
fn fallible_mutations_never_panic_on_arbitrary_text() {
    let inputs = [
        "",
        " ",
        "a",
        "a\nb",
        "\u{0}",
        "💩",
        "I-Have-Upper-Case",
        "x-ok",
        "\t tab",
        "very-long-☃-value",
    ];
    for key in inputs.iter() {
        for value in inputs.iter() {
            let mut headers = Headers::new();
            let _ = headers.try_insert(key.to_string(), value.to_string());
            let _ = headers.try_append(key.to_string(), value.to_string());
        }
    }
}

#[test]
fn empty_key_is_an_invalid_name() {
    let mut headers = Headers::new();
    assert_eq!(
        headers.try_insert("", "v").unwrap_err(),
        HttpError::InvalidHeaderName
    );
}

#[test]
fn iteration_yields_every_entry_with_lowercased_names() {
    let mut headers = Headers::new();
    headers.insert("X-One", "1");
    headers.append("x-two", "2");
    headers.append("X-Two", "3");
    let mut iter = headers.iter();
    let mut seen: Vec<(String, String)> = Vec::new();
    while let Some(pair) = iter.next() {
        seen.push(pair);
    }
    assert_eq!(seen.len(), 3);
    assert!(seen.contains(&("x-one".to_string(), "1".to_string())));
    let two_values: Vec<String> = seen
        .iter()
        .filter(|p| p.0 == "x-two")
        .map(|p| p.1.clone())
        .collect();
    assert_eq!(two_values, vec!["2".to_string(), "3".to_string()]);
    assert!(iter.next().is_none());
}

#[test]
fn new_container_is_empty() {
    let headers = Headers::new();
    assert!(headers.is_empty());
    assert_eq!(headers.len(), 0);
    assert_eq!(headers.get("anything"), None);
    assert_eq!(headers.get_all("anything"), Vec::<String>::new());
    assert!(!headers.contains_key("anything"));
}

#[test]
fn clone_is_independent() {
    let mut headers = Headers::new();
    headers.insert("a", "1");
    let mut copy = headers.clone();
    copy.insert("a", "2");
    assert_eq!(headers.get("a"), Some("1"));
    assert_eq!(copy.get("a"), Some("2"));
}

#[test]
fn header_value_exposes_its_text() {
    let value: HeaderValue = "hello world".parse().expect("plain text");
    assert_eq!(value.as_str(), "hello world");
    assert_eq!(value.into_string(), "hello world".to_string());
}

#[test]
fn native_name_key_is_accepted_without_revalidation() {
    let name = http::header::HeaderName::from_static("x-native");
    let mut headers = Headers::new();
    headers.try_insert(name, "v".to_string()).expect("native names are valid");
    assert_eq!(headers.get("x-native"), Some("v"));
}

#[test]
fn valid_utf8_native_value_is_accepted() {
    let mut headers = Headers::new();
    let value = http::HeaderValue::from_static("native-text");
    headers.try_insert("x", value).expect("UTF-8 native value");
    assert_eq!(headers.get("x"), Some("native-text"));
}

#[test]
fn maybe_static_components_are_accepted() {
    let mut headers = Headers::new();
    headers
        .try_insert(
            MaybeStatic::Owned("x-tagged".to_string()),
            MaybeStatic::Static("v"),
        )
        .expect("both forms carry valid text");
    assert_eq!(headers.get("x-tagged"), Some("v"));
}

#[test]
fn name_token_punctuation_is_accepted() {
    let mut headers = Headers::new();
    headers
        .try_insert("a\"b.c|d~e_f`g".to_string(), "v".to_string())
        .expect("token punctuation is allowed in names");
    assert_eq!(headers.get("a\"b.c|d~e_f`g"), Some("v"));
    assert_eq!(
        headers.try_insert("a b".to_string(), "v".to_string()).unwrap_err(),
        HttpError::InvalidHeaderName
    );
    assert_eq!(
        headers.try_insert("a{b".to_string(), "v".to_string()).unwrap_err(),
        HttpError::InvalidHeaderName
    );
}

#[test]
fn name_length_bound_is_enforced() {
    let mut headers = Headers::new();
    let long_ok = "x".repeat(65535);
    headers
        .try_insert(long_ok.clone(), "v".to_string())
        .expect("a name at the length bound is accepted");
    assert_eq!(headers.get(long_ok.as_str()), Some("v"));
    let too_long = "x".repeat(65536);
    assert_eq!(
        headers.try_insert(too_long, "v".to_string()).unwrap_err(),
        HttpError::InvalidHeaderName
    );
}

#[test]
fn value_character_boundaries() {
    let mut headers = Headers::new();
    headers
        .try_insert("x", "a\tb c".to_string())
        .expect("tab and space are allowed in values");
    assert_eq!(headers.get("x"), Some("a\tb c"));
    assert_eq!(
        headers.try_insert("x", "a\u{7f}b".to_string()).unwrap_err(),
        HttpError::InvalidHeaderValue
    );
    assert_eq!(
        headers.try_insert("x", "a\rb".to_string()).unwrap_err(),
        HttpError::InvalidHeaderValue
    );
}
