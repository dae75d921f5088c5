use via::error::{
    canonical_error, deny, Error, ErrorList, IoErrorKind, ResultExt, SourceChain,
};

#[test]
fn new_error_is_internal_server_error() {
    let error = Error::new("boom");
    assert_eq!(error.status(), 500);
    assert_eq!(error.message(), "boom");
    assert!(error.source().is_none());
}

#[test]
fn deny_keeps_status_and_message() {
    let error = deny(403, "no entry");
    assert_eq!(error.status(), 403);
    assert_eq!(error.message(), "no entry");
}

#[test]
fn deny_with_invalid_status_is_internal_server_error() {
    let error = deny(1000, "ignored");
    assert_eq!(error.status(), 500);
    assert_eq!(error.message(), "invalid status code");
}

#[test]
fn canonical_error_lowercases_reason() {
    let error = canonical_error(404);
    assert_eq!(error.status(), 404);
    assert_eq!(error.message(), "not found.");
    assert_eq!(canonical_error(500).message(), "internal server error.");
    assert_eq!(canonical_error(414).message(), "uri too long.");
}

#[test]
fn io_errors_map_to_statuses() {
    let chain = || SourceChain::single("io");
    assert_eq!(Error::from_io_error(IoErrorKind::AlreadyExists, chain()).status(), 409);
    assert_eq!(Error::from_io_error(IoErrorKind::BrokenPipe, chain()).status(), 502);
    assert_eq!(Error::from_io_error(IoErrorKind::ConnectionRefused, chain()).status(), 503);
    assert_eq!(Error::from_io_error(IoErrorKind::InvalidData, chain()).status(), 400);
    assert_eq!(Error::from_io_error(IoErrorKind::PermissionDenied, chain()).status(), 403);
    assert_eq!(Error::from_io_error(IoErrorKind::NotFound, chain()).status(), 404);
    assert_eq!(Error::from_io_error(IoErrorKind::TimedOut, chain()).status(), 504);
    assert_eq!(Error::from_io_error(IoErrorKind::Interrupted, chain()).status(), 500);
}

#[test]
fn source_lists_messages_outermost_first() {
    let chain = SourceChain { head: "outer".to_owned(), causes: vec!["inner".to_owned()] };
    let error = Error::other(chain);
    assert_eq!(error.source(), Some(vec!["outer".to_owned(), "inner".to_owned()]));
    assert_eq!(error.message(), "outer");
}

#[test]
fn repr_json_of_message_is_original() {
    let errors = deny(400, "bad").repr_json();
    assert_eq!(errors.status, 400);
    match errors.errors {
        ErrorList::Original(message) => assert_eq!(message, "bad"),
        ErrorList::Chain(_) => panic!("expected the original message"),
    }
}

#[test]
fn repr_json_of_chain_is_innermost_first() {
    let chain = SourceChain { head: "outer".to_owned(), causes: vec!["inner".to_owned()] };
    let errors = Error::other(chain).repr_json();
    assert_eq!(errors.status, 500);
    match errors.errors {
        ErrorList::Chain(list) => assert_eq!(list, vec!["inner".to_owned(), "outer".to_owned()]),
        ErrorList::Original(_) => panic!("expected a chain"),
    }
}

#[test]
fn or_status_helpers_replace_the_status() {
    let failed: Result<(), Error> = Err(Error::new("x"));
    let error = failed.or_bad_request().unwrap_err();
    assert_eq!(error.status(), 400);
    assert_eq!(error.message(), "x");
    let failed: Result<(), Error> = Err(Error::new("y"));
    assert_eq!(failed.or_not_found().unwrap_err().status(), 404);
    let fine: Result<u8, Error> = Ok(3);
    assert_eq!(fine.or_forbidden().unwrap(), 3);
}

#[test]
fn with_status_keeps_the_message() {
    let error = Error::new("kept").with_status(418);
    assert_eq!(error.status(), 418);
    assert_eq!(error.message(), "kept");
}

#[test]
fn named_errors_have_their_messages() {
    assert_eq!(Error::payload_too_large().status(), 413);
    assert_eq!(Error::payload_too_large().message(), "request body exceeds the maximum length");
    assert_eq!(Error::require_path_param("id").message(), "missing required path parameter: \"id\".");
    assert_eq!(Error::require_query_param("q").message(), "missing required query parameter: \"q\".");
    assert_eq!(Error::invalid_utf8_sequence("path").message(), "invalid utf-8 sequence of bytes in path.");
    assert_eq!(Error::invalid_utf8_sequence("path").status(), 400);
}
