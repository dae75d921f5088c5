use std::collections::VecDeque;
use via::allow::{Mask, MethodNotAllowed};
use via::error::{deny, Error, ErrorList};
use via::next::Next;
use via::rescue::{ErrorBody, Sanitizer};
use via::response::{content_type, not_found, BodyKind, Redirect};

#[test]
fn redirects_carry_their_status_and_location() {
    let found = Redirect::found("/home").ok().unwrap();
    assert_eq!((found.status, found.location.as_str()), (302, "/home"));
    assert_eq!(Redirect::see_other("/a").ok().unwrap().status, 303);
    assert_eq!(Redirect::temporary("/a").ok().unwrap().status, 307);
    assert_eq!(Redirect::permanent("/a").ok().unwrap().status, 308);
    assert_eq!(Redirect::with_status("/a", 301).ok().unwrap().status, 301);
}

#[test]
fn redirect_with_other_status_is_a_server_error() {
    let error = Redirect::with_status("/a", 200).err().unwrap();
    assert_eq!(error.status(), 500);
    assert_eq!(error.message(), "internal server error.");
}

#[test]
fn redirect_to_an_invalid_location_is_a_server_error() {
    let error = Redirect::found("/a\nb").err().unwrap();
    assert_eq!(error.status(), 500);
    assert_eq!(error.message(), "failed to parse header value");
    assert!(Redirect::with_status("/tab\tok", 303).is_ok());
}

#[test]
fn body_content_types() {
    assert_eq!(content_type(BodyKind::Json), "application/json; charset=utf-8");
    assert_eq!(content_type(BodyKind::Html), "text/html; charset=utf-8");
    assert_eq!(content_type(BodyKind::Text), "text/plain; charset=utf-8");
}

#[test]
fn next_runs_middleware_in_order_then_404() {
    let next = Next::new(VecDeque::from(vec!["first", "second"]));
    let (m, next) = next.pop().ok().unwrap();
    assert_eq!(m, "first");
    let (m, next) = next.pop().ok().unwrap();
    assert_eq!(m, "second");
    let error = next.pop().err().unwrap();
    assert_eq!(error.status(), 404);
    assert_eq!(error.message(), "not found.");
    assert_eq!(not_found().message(), "not found.");
}

#[test]
fn sanitizer_renders_text_by_default() {
    let response = Sanitizer::new(deny(409, "taken")).finalize();
    assert_eq!(response.status, 409);
    assert!(response.allow.is_none());
    match response.body {
        ErrorBody::Text(text) => assert_eq!(text, "taken"),
        ErrorBody::Json(_) => panic!("expected text"),
    }
}

#[test]
fn sanitizer_custom_status_and_message() {
    let mut sanitizer = Sanitizer::new(Error::new("secret detail"));
    sanitizer.set_status(503);
    sanitizer.use_canonical_reason();
    let response = sanitizer.finalize();
    assert_eq!(response.status, 503);
    match response.body {
        ErrorBody::Text(text) => assert_eq!(text, "Service Unavailable"),
        ErrorBody::Json(_) => panic!("expected text"),
    }
}

#[test]
fn sanitizer_json_uses_the_message() {
    let mut sanitizer = Sanitizer::new(Error::new("oops"));
    sanitizer.use_json();
    sanitizer.set_message("hidden");
    match sanitizer.finalize().body {
        ErrorBody::Json(errors) => {
            assert_eq!(errors.status, 500);
            match errors.errors {
                ErrorList::Original(message) => assert_eq!(message, "hidden"),
                ErrorList::Chain(_) => panic!("expected the custom message"),
            }
        }
        ErrorBody::Text(_) => panic!("expected json"),
    }
}

#[test]
fn sanitizer_adds_allow_header_for_405() {
    let allow = Mask::from_method("GET").union(Mask::from_method("HEAD"));
    let refused = MethodNotAllowed::new(allow, Mask::from_method("POST"));
    let response = Sanitizer::new(Error::method_not_allowed(refused)).finalize();
    assert_eq!(response.status, 405);
    assert_eq!(response.allow, Some("GET, HEAD".to_owned()));
    match response.body {
        ErrorBody::Text(text) => assert_eq!(text, "method not allowed: \"POST\""),
        ErrorBody::Json(_) => panic!("expected text"),
    }
}
