use bytes::Bytes;
use http::header::{HeaderMap, HeaderValue};
use via::body::{Aggregate, BodyFrame, Coalesce, Payload, RequestBody, SizeHint};

#[test]
fn body_counts_frames_against_its_limit() {
    let mut body = RequestBody::new(10, Vec::new());
    let unknown = SizeHint::new();
    assert!(body.check_limit(&unknown, false).is_ok());
    assert!(body.consume(4).is_ok());
    assert_eq!(body.remaining(), 6);
    assert!(body.consume(6).is_ok());
    assert_eq!(body.remaining(), 0);
    assert!(body.check_limit(&unknown, false).is_ok());
    let error = body.check_limit(&SizeHint::with_exact(1), false).unwrap_err();
    assert_eq!(error.status(), 413);
    assert_eq!(error.message(), "request body exceeds the maximum length");
    assert!(body.check_limit(&SizeHint::with_exact(0), true).is_ok());
    let error = body.consume(1).unwrap_err();
    assert_eq!(error.status(), 413);
}

#[test]
fn oversized_frame_exhausts_the_body() {
    let mut body = RequestBody::new(3, Vec::new());
    let error = body.consume(5).unwrap_err();
    assert_eq!(error.status(), 413);
    assert_eq!(error.message(), "request body exceeds the maximum length");
    assert_eq!(body.remaining(), 0);
}

#[test]
fn exact_hint_larger_than_the_limit_is_refused() {
    let body = RequestBody::new(100, Vec::new());
    assert!(body.has_capacity(&SizeHint::with_exact(100)));
    assert!(!body.has_capacity(&SizeHint::with_exact(101)));
    assert!(body.check_limit(&SizeHint::with_exact(101), false).is_err());
    assert!(body.is_end_stream(&SizeHint::with_exact(101), false));
    assert!(!body.is_end_stream(&SizeHint::new(), false));
    assert!(body.is_end_stream(&SizeHint::new(), true));
}

#[test]
fn size_hint_is_capped_by_the_limit() {
    let body = RequestBody::new(50, Vec::new());
    let hint = body.size_hint(SizeHint::new());
    assert_eq!((hint.lower(), hint.upper()), (0, Some(50)));
    let hint = body.size_hint(SizeHint::with_exact(20));
    assert_eq!((hint.lower(), hint.upper()), (20, Some(20)));
    let hint = body.size_hint(SizeHint::with_exact(80));
    assert_eq!((hint.lower(), hint.upper()), (50, Some(50)));
    let mut wide = SizeHint::new();
    wide.set_upper(70);
    wide.set_lower(10);
    assert_eq!(wide.exact(), None);
    let hint = body.size_hint(wide);
    assert_eq!((hint.lower(), hint.upper()), (10, Some(50)));
    assert_eq!(SizeHint::with_exact(7).exact(), Some(7));
}

#[test]
fn frames_are_taken_once() {
    let mut body = RequestBody::new(10, Vec::new());
    assert!(body.push_frame(Bytes::from_static(b"ab")).is_ok());
    let frames = body.end().ok().unwrap();
    assert_eq!(frames.len(), 1);
    let error = body.end().err().unwrap();
    assert_eq!(error.message(), "a request body can only be read once.");
    assert!(body.push_frame(Bytes::from_static(b"c")).is_err());
}

#[test]
fn aggregate_len_and_coalesce() {
    let frames = vec![Bytes::from_static(b"hel"), Bytes::from_static(b"lo")];
    let aggregate = Aggregate::new(frames, None);
    assert_eq!(aggregate.len(), Some(5));
    assert!(!aggregate.is_empty());
    assert!(aggregate.trailers().is_none());
    assert_eq!(aggregate.coalesce(), b"hello".to_vec());
    assert!(Aggregate::new(Vec::new(), None).is_empty());
}

#[test]
fn aggregate_utf8() {
    let text = Aggregate::new(vec![Bytes::from_static("hé".as_bytes())], None);
    assert_eq!(text.utf8().ok().unwrap(), "hé");
    let invalid = Aggregate::new(vec![Bytes::from_static(&[0xff, 0xfe])], None);
    let error = invalid.utf8().err().unwrap();
    assert_eq!(error.status(), 400);
    assert_eq!(error.message(), "invalid utf-8 sequence of bytes in request body.");
    assert_eq!(Bytes::from_static(b"raw").coalesce(), b"raw".to_vec());
}

#[test]
fn coalesce_collects_frames_and_merges_trailers() {
    let mut reading = Coalesce::new(RequestBody::new(100, Vec::new()));
    assert!(reading.on_data(Bytes::from_static(b"a")).is_ok());
    assert!(reading.on_data(Bytes::from_static(b"b")).is_ok());
    let mut first = HeaderMap::new();
    first.insert("x-sum", HeaderValue::from_static("1"));
    first.insert("x-keep", HeaderValue::from_static("k"));
    reading.on_trailers(first);
    let mut second = HeaderMap::new();
    second.insert("x-sum", HeaderValue::from_static("2"));
    reading.on_trailers(second);
    let aggregate = reading.finish().ok().unwrap();
    let trailers = aggregate.trailers().unwrap();
    assert_eq!(trailers.get("x-sum").unwrap(), "2");
    assert_eq!(trailers.get("x-keep").unwrap(), "k");
    assert_eq!(aggregate.coalesce(), b"ab".to_vec());
}

#[test]
fn a_body_of_exactly_the_limit_is_read() {
    let mut reading = Coalesce::new(RequestBody::new(4, Vec::new()));
    let unknown = SizeHint::new();
    assert!(reading.body_mut().check_limit(&unknown, false).is_ok());
    assert!(reading.on_frame(BodyFrame::Data(Bytes::from_static(b"ab"))).is_ok());
    assert!(reading.body_mut().check_limit(&unknown, false).is_ok());
    assert!(reading.on_frame(BodyFrame::Data(Bytes::from_static(b"cd"))).is_ok());
    assert_eq!(reading.body_mut().remaining(), 0);
    assert!(reading.body_mut().check_limit(&SizeHint::with_exact(0), true).is_ok());
    let aggregate = reading.finish().ok().unwrap();
    assert_eq!(aggregate.len(), Some(4));
    assert_eq!(aggregate.coalesce(), b"abcd".to_vec());
}

#[test]
fn a_frame_past_the_limit_is_refused() {
    let mut reading = Coalesce::new(RequestBody::new(3, Vec::new()));
    let error = reading.on_frame(BodyFrame::Data(Bytes::from_static(b"abcd"))).unwrap_err();
    assert_eq!(error.status(), 413);
    assert_eq!(error.message(), "request body exceeds the maximum length");
    assert_eq!(reading.body_mut().remaining(), 0);
}

#[test]
fn an_unknown_frame_is_refused() {
    let mut reading = Coalesce::new(RequestBody::new(3, Vec::new()));
    let error = reading.on_frame(BodyFrame::Unknown).unwrap_err();
    assert_eq!(error.status(), 500);
    assert_eq!(error.message(), "unknown frame type received while reading a request body.");
}

#[test]
fn trailer_frames_are_merged() {
    let mut reading = Coalesce::new(RequestBody::new(3, Vec::new()));
    let mut first = HeaderMap::new();
    first.insert("x-a", HeaderValue::from_static("1"));
    assert!(reading.on_frame(BodyFrame::Trailers(first)).is_ok());
    let mut second = HeaderMap::new();
    second.insert("x-a", HeaderValue::from_static("2"));
    second.insert("x-b", HeaderValue::from_static("3"));
    assert!(reading.try_on_trailers(second).is_ok());
    let trailers = reading.trailers().unwrap();
    assert_eq!(trailers.get("x-a").unwrap(), "2");
    assert_eq!(trailers.get("x-b").unwrap(), "3");
}

#[test]
fn too_many_trailer_names_are_handed_back() {
    let mut reading = Coalesce::new(RequestBody::new(3, Vec::new()));
    let mut first = HeaderMap::new();
    for i in 0..4000 {
        let name = http::header::HeaderName::from_bytes(format!("a{}", i).as_bytes()).unwrap();
        first.insert(name, HeaderValue::from_static("1"));
    }
    assert!(reading.try_on_trailers(first).is_ok());
    let mut second = HeaderMap::new();
    for i in 0..2554 {
        let name = http::header::HeaderName::from_bytes(format!("b{}", i).as_bytes()).unwrap();
        second.insert(name, HeaderValue::from_static("2"));
    }
    let back = reading.try_on_trailers(second).unwrap_err();
    assert_eq!(back.keys_len(), 2554);
    assert_eq!(reading.trailers().unwrap().keys_len(), 4000);
}

#[test]
fn after_a_frame_past_the_limit_every_poll_is_refused() {
    let mut body = RequestBody::new(3, Vec::new());
    assert!(body.consume(5).is_err());
    let unknown = SizeHint::new();
    assert_eq!(body.check_limit(&unknown, false).unwrap_err().status(), 413);
    assert_eq!(body.check_limit(&SizeHint::with_exact(0), true).unwrap_err().status(), 413);
}

#[test]
fn merged_trailers_up_to_the_room_are_kept() {
    let mut reading = Coalesce::new(RequestBody::new(3, Vec::new()));
    let mut first = HeaderMap::new();
    for i in 0..4000 {
        let name = http::header::HeaderName::from_bytes(format!("a{}", i).as_bytes()).unwrap();
        first.insert(name, HeaderValue::from_static("1"));
    }
    assert!(reading.try_on_trailers(first).is_ok());
    let mut second = HeaderMap::new();
    for i in 0..2553 {
        let name = http::header::HeaderName::from_bytes(format!("b{}", i).as_bytes()).unwrap();
        second.insert(name, HeaderValue::from_static("2"));
    }
    assert!(reading.try_on_trailers(second).is_ok());
    assert_eq!(reading.trailers().unwrap().keys_len(), 6553);
}
