use sqlgraph::cookie::{ContextParsingError, CookieExtractor};
use sqlgraph::http::{strip_leading, strip_leading_slash, Headers};
use sqlgraph::json::JsonValue;

#[test]
fn headers_lowercase_keys_on_insert_and_lookup() {
    let mut headers = Headers::new();
    headers.insert("Content-Type".to_string(), "application/json".to_string());
    assert_eq!(headers.get("content-type"), Some("application/json".to_string()));
    assert_eq!(headers.get("CONTENT-TYPE"), Some("application/json".to_string()));
    assert_eq!(headers.get("accept"), None);
}

#[test]
fn headers_insert_replaces() {
    let mut headers = Headers::new();
    headers.insert("accept".to_string(), "text/plain".to_string());
    headers.insert("Accept".to_string(), "application/json".to_string());
    assert_eq!(headers.get("accept"), Some("application/json".to_string()));
}

#[test]
fn headers_remove_hands_the_value_back() {
    let mut headers = Headers::new();
    headers.insert("X-Request-Id".to_string(), "abc".to_string());
    assert_eq!(headers.remove("x-request-id"), Some("abc".to_string()));
    assert_eq!(headers.get("x-request-id"), None);
    assert_eq!(headers.remove("x-request-id"), None);
}

#[test]
fn headers_from_vec_lowercases_and_later_wins() {
    let headers = Headers::from_vec(vec![
        ("Accept".to_string(), "text/plain".to_string()),
        ("ACCEPT".to_string(), "application/json".to_string()),
    ]);
    assert_eq!(headers.get("accept"), Some("application/json".to_string()));
}

#[test]
fn headers_from_map_keeps_casing() {
    let headers = Headers::from_map(vec![("Accept".to_string(), "text/plain".to_string())]);
    // The stored key kept its casing, and lookups lowercase theirs, so this
    // lookup misses.
    assert_eq!(headers.get("Accept"), None);
    let lowercased = Headers::from_map(vec![("accept".to_string(), "text/plain".to_string())]);
    assert_eq!(lowercased.get("Accept"), Some("text/plain".to_string()));
}

#[test]
fn strip_leading_removes_one_prefix() {
    assert_eq!(strip_leading("/api/items", "/"), "api/items".to_string());
    assert_eq!(strip_leading("api/items", "/"), "api/items".to_string());
    assert_eq!(strip_leading("prefix-rest", "prefix-"), "rest".to_string());
    assert_eq!(strip_leading("pre", "prefix-"), "pre".to_string());
}

#[test]
fn strip_leading_slash_strips_once() {
    assert_eq!(strip_leading_slash("//double"), "/double".to_string());
    assert_eq!(strip_leading_slash("plain"), "plain".to_string());
}

#[test]
fn cookies_parse_into_named_values() {
    let headers = vec!["session=abc123".to_string(), "theme = dark".to_string()];
    let context = CookieExtractor::parse_context(&headers).unwrap();
    assert_eq!(context.annotation_name(), "cookie");
    assert_eq!(
        context.extract_context_field(Some("session")),
        Some(JsonValue::Str("abc123".to_string()))
    );
    assert_eq!(
        context.extract_context_field(Some("theme")),
        Some(JsonValue::Str("dark".to_string()))
    );
    assert_eq!(context.extract_context_field(Some("missing")), None);
    assert_eq!(context.extract_context_field(None), None);
}

#[test]
fn cookie_attributes_do_not_join_the_value() {
    // The parser takes the name/value pair before the attributes.
    let headers = vec!["session=abc123; Path=/; HttpOnly".to_string()];
    let context = CookieExtractor::parse_context(&headers).unwrap();
    assert_eq!(
        context.extract_context_field(Some("session")),
        Some(JsonValue::Str("abc123".to_string()))
    );
}

#[test]
fn malformed_cookie_header_fails_extraction() {
    let headers = vec!["no-equals-sign".to_string()];
    assert_eq!(
        CookieExtractor::parse_context(&headers),
        Err(ContextParsingError::Malformed)
    );
}
