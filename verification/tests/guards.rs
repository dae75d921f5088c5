use http::header::{HeaderMap, HeaderValue};
use via::guard::accept;
use via::guard::content_type;
use via::guard::{
    and, case_sensitive, contains, ends_with, header, is_mutation, is_safe, not, or, starts_with,
    tag, token, ErrorKind, Predicate,
};

fn headers(pairs: &[(&'static str, &'static str)]) -> HeaderMap {
    let mut map = HeaderMap::new();
    for (name, value) in pairs {
        map.append(*name, HeaderValue::from_static(value));
    }
    map
}

#[test]
fn byte_predicates_match_as_documented() {
    assert!(case_sensitive(b"abc").matches(&b"abc"[..]));
    assert!(!case_sensitive(b"abc").matches(&b"ABC"[..]));
    assert!(tag(b"abc").matches(&b"AbC"[..]));
    assert!(starts_with(b"text/").matches(&b"text/plain"[..]));
    assert!(!starts_with(b"text/").matches(&b"tex"[..]));
    assert!(ends_with(b".json").matches(&b"a.json"[..]));
}

#[test]
fn contains_splits_on_commas_and_trims() {
    let predicate = contains(tag(b"upgrade"));
    assert!(predicate.matches(&b"keep-alive, Upgrade"[..]));
    assert!(!predicate.matches(&b"keep-alive, upgrades"[..]));
    assert!(predicate.matches(&b" upgrade "[..]));
}

#[test]
fn token_splits_on_non_token_bytes() {
    let predicate = token(tag(b"gzip"));
    assert!(predicate.matches(&b"deflate;q=1 gzip"[..]));
    assert!(!predicate.matches(&b"deflate"[..]));
}

#[test]
fn combinators_follow_boolean_logic() {
    let yes = case_sensitive(b"a");
    let no = case_sensitive(b"b");
    let input = &b"a"[..];
    assert!(and((case_sensitive(b"a"), case_sensitive(b"a"))).matches(input));
    assert!(!and((yes, no)).matches(input));
    assert!(or((case_sensitive(b"b"), case_sensitive(b"a"))).matches(input));
    assert!(!not(case_sensitive(b"a")).matches(input));
    assert!(not(not(case_sensitive(b"a"))).matches(input));
    assert!(matches!(not(case_sensitive(b"a")).cmp(input), Err(ErrorKind::Not)));
    assert!(via::guard::when(case_sensitive(b"b"), case_sensitive(b"c")).matches(input));
    assert!(!via::guard::when(case_sensitive(b"a"), case_sensitive(b"c")).matches(input));
}

#[test]
fn header_guard_reports_the_header() {
    let map = headers(&[("content-type", "application/json")]);
    assert!(content_type::json().matches(&map));
    let other = headers(&[("content-type", "text/html")]);
    match content_type::json().cmp(&other) {
        Err(ErrorKind::Header(name)) => assert_eq!(name, "content-type"),
        _ => panic!("expected a header error"),
    }
    let empty = HeaderMap::new();
    assert!(!content_type::json().matches(&empty));
    assert!(content_type::json().optional().matches(&empty));
}

#[test]
fn header_guard_lowercases_its_key() {
    let guard = header("X-Api-Key", case_sensitive(b"secret"));
    assert!(guard.matches(&headers(&[("x-api-key", "secret")])));
    assert!(!guard.matches(&headers(&[("x-api-key", "Secret")])));
}

#[test]
fn accept_json_takes_wildcards() {
    assert!(accept::json().matches(&headers(&[("accept", "text/html, */*")])));
    assert!(accept::json().matches(&headers(&[("accept", "Application/JSON")])));
    assert!(!accept::json().matches(&headers(&[("accept", "text/html")])));
}

#[test]
fn safe_methods_and_mutations() {
    for method in ["GET", "HEAD", "OPTIONS", "TRACE", "QUERY"] {
        assert!(is_safe().matches(method));
        assert!(!is_mutation().matches(method));
    }
    for method in ["POST", "PUT", "PATCH", "DELETE", "CONNECT"] {
        assert!(!is_safe().matches(method));
        assert!(is_mutation().matches(method));
        assert!(matches!(is_safe().cmp(method), Err(ErrorKind::Method)));
    }
    assert!(matches!(case_sensitive(b"x").cmp(&b"y"[..]), Err(ErrorKind::Match)));
}

#[test]
fn combinators_take_up_to_twenty_predicates() {
    let input = &b"a"[..];
    let a = || case_sensitive(b"a");
    let b = || case_sensitive(b"b");
    assert!(and((a(), a(), a(), a(), a(), a(), a())).matches(input));
    assert!(!and((a(), a(), a(), a(), a(), a(), b())).matches(input));
    assert!(and((
        a(), a(), a(), a(), a(), a(), a(), a(), a(), a(),
        a(), a(), a(), a(), a(), a(), a(), a(), a(), a(),
    ))
    .matches(input));
    assert!(or((b(), b(), b(), b(), b(), b(), a())).matches(input));
    assert!(!or((b(), b(), b(), b(), b(), b(), b())).matches(input));
    assert!(or((
        b(), b(), b(), b(), b(), b(), b(), b(), b(), b(),
        b(), b(), b(), b(), b(), b(), b(), b(), b(), a(),
    ))
    .matches(input));
    assert!(matches!(
        and((a(), a(), a(), a(), a(), a(), a(), b())).cmp(input),
        Err(ErrorKind::Match)
    ));
}

#[test]
fn token_looks_only_at_non_empty_tokens() {
    assert!(!token(case_sensitive(b"")).matches(&b","[..]));
    assert!(!token(case_sensitive(b"")).matches(&b"a, b"[..]));
    assert!(token(case_sensitive(b"b")).matches(&b"a, b"[..]));
}
