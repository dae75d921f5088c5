use http::header::{HeaderMap, HeaderValue};
use via::cookies::cookies;
use via::encoding::UriEncoding;

#[test]
fn only_allowed_cookies_are_kept() {
    let jar = cookies(&["name", "session"]);
    let kept = jar.parse("name=bob; other=x; session=abc");
    assert_eq!(
        kept,
        vec![("name".to_owned(), "bob".to_owned()), ("session".to_owned(), "abc".to_owned())]
    );
    assert!(jar.allows("name"));
    assert!(!jar.allows("other"));
}

#[test]
fn duplicate_names_are_allowed_once() {
    let jar = cookies(&["a", "a", "b"]);
    assert!(jar.allows("a"));
    assert!(jar.allows("b"));
    assert!(!jar.allows("c"));
}

#[test]
fn decode_percent_decodes_values() {
    let plain = cookies(&["name"]);
    assert_eq!(plain.parse("name=a%20b"), vec![("name".to_owned(), "a%20b".to_owned())]);
    let decoding = cookies(&["name"]).decode();
    assert!(matches!(decoding.encoding(), UriEncoding::Percent));
    assert_eq!(decoding.parse("name=a%20b"), vec![("name".to_owned(), "a b".to_owned())]);
}

#[test]
fn malformed_cookies_are_skipped() {
    let jar = cookies(&["name"]);
    assert_eq!(jar.parse("=nothing; name=ok"), vec![("name".to_owned(), "ok".to_owned())]);
}

#[test]
fn request_cookies_read_the_cookie_header() {
    let jar = cookies(&["id"]);
    let mut headers = HeaderMap::new();
    assert_eq!(jar.request_cookies(&headers), None);
    headers.insert("cookie", HeaderValue::from_static("id=7; x=1"));
    assert_eq!(jar.request_cookies(&headers), Some(vec![("id".to_owned(), "7".to_owned())]));
    let mut binary = HeaderMap::new();
    binary.insert("cookie", HeaderValue::from_bytes(&[0x69, 0x64, 0x3d, 0xe9]).unwrap());
    assert_eq!(jar.request_cookies(&binary), None);
}

#[test]
fn changed_cookies_become_set_cookie_headers() {
    let plain = cookies(&["id"]);
    let delta = vec![
        ("id=a b".to_owned(), "id=a%20b".to_owned()),
        ("x=1".to_owned(), "x=1".to_owned()),
    ];
    let mut headers = HeaderMap::new();
    plain.set_cookie_headers(&delta, &mut headers).unwrap();
    let values: Vec<&str> = headers.get_all("set-cookie").iter().map(|v| v.to_str().unwrap()).collect();
    assert_eq!(values, vec!["id=a b", "x=1"]);

    let encoded = cookies(&["id"]).decode();
    let mut headers = HeaderMap::new();
    encoded.set_cookie_headers(&delta, &mut headers).unwrap();
    let values: Vec<&str> = headers.get_all("set-cookie").iter().map(|v| v.to_str().unwrap()).collect();
    assert_eq!(values, vec!["id=a%20b", "x=1"]);
}

#[test]
fn an_unwritable_set_cookie_is_a_server_error() {
    let jar = cookies(&[]);
    let delta = vec![("bad=a\nb".to_owned(), "bad=a%0Ab".to_owned())];
    let mut headers = HeaderMap::new();
    let error = jar.set_cookie_headers(&delta, &mut headers).unwrap_err();
    assert_eq!(error.status(), 500);
    assert_eq!(
        error.message(),
        "An error occurred while writing a Set-Cookie header to a response."
    );
    assert!(headers.get("set-cookie").is_none());
}

#[test]
fn a_jar_delta_is_written_once_per_changed_cookie() {
    let jar = cookies(&["id"]);
    let mut changes = cookie::CookieJar::new();
    changes.add_original(cookie::Cookie::new("id", "old"));
    changes.add(cookie::Cookie::new("id", "new"));
    let mut headers = HeaderMap::new();
    jar.write_set_cookies(&changes, &mut headers).unwrap();
    let values: Vec<&str> = headers.get_all("set-cookie").iter().map(|v| v.to_str().unwrap()).collect();
    assert_eq!(values, vec!["id=new"]);
}

#[test]
fn a_valid_delta_is_always_written() {
    let jar = cookies(&[]);
    let mut headers = HeaderMap::new();
    headers.insert("set-cookie", HeaderValue::from_static("old=1"));
    let delta = vec![("a=1".to_owned(), "a=1".to_owned())];
    assert!(jar.set_cookie_headers(&delta, &mut headers).is_ok());
    let values: Vec<&str> = headers.get_all("set-cookie").iter().map(|v| v.to_str().unwrap()).collect();
    assert_eq!(values, vec!["old=1", "a=1"]);
}
