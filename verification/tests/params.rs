use via::encoding::UriEncoding;
use via::error::ResultExt;
use via::params::{PathParams, PathSpan, QueryParams};
use via::query::{parse_query, QueryParser};

#[test]
fn parse_query_reads_names_and_ranges() {
    let items = parse_query("a=1&b=2");
    assert_eq!(items.len(), 2);
    assert_eq!(items[0].0, "a");
    assert_eq!(items[0].1, Some((Some(2), Some(3))));
    assert_eq!(items[1].0, "b");
    assert_eq!(items[1].1, Some((Some(6), None)));
}

#[test]
fn parse_query_skips_repeated_separators() {
    let items = parse_query("&&x==5&&y");
    assert_eq!(items.len(), 2);
    assert_eq!(items[0].0, "x");
    assert_eq!(items[0].1, Some((Some(5), Some(6))));
    assert_eq!(items[1].0, "y");
    assert_eq!(items[1].1, None);
}

#[test]
fn parse_query_decodes_names() {
    let items = parse_query("na%20me=v");
    assert_eq!(items[0].0, "na me");
}

#[test]
fn query_parser_yields_items_in_order() {
    let mut parser = QueryParser::new("k=v&z");
    let first = parser.next().unwrap();
    assert_eq!(first.0, "k");
    let second = parser.next().unwrap();
    assert_eq!(second.0, "z");
    assert!(parser.next().is_none());
}

#[test]
fn query_params_first_last_all() {
    let params = QueryParams::new(Some("n=1&n=2&m=&n=3"));
    assert_eq!(params.first("n").ok().unwrap().unwrap(), "1");
    assert_eq!(params.last("n").ok().unwrap().unwrap(), "3");
    let all: Vec<String> = params
        .all("n")
        .into_iter()
        .map(|p| p.ok().unwrap().unwrap().into_owned())
        .collect();
    assert_eq!(all, vec!["1", "2", "3"]);
    assert!(params.contains("m"));
    assert!(!params.contains("x"));
}

#[test]
fn query_param_with_empty_value_is_none() {
    let params = QueryParams::new(Some("m=&k=v"));
    assert!(params.first("m").ok().unwrap().is_none());
    let error = params.first("m").into_result().unwrap_err();
    assert_eq!(error.status(), 400);
    assert_eq!(error.message(), "missing required query parameter: \"m\".");
}

#[test]
fn query_param_percent_decode() {
    let params = QueryParams::new(Some("q=hello%20world"));
    assert_eq!(params.first("q").ok().unwrap().unwrap(), "hello%20world");
    assert_eq!(params.first("q").percent_decode().ok().unwrap().unwrap(), "hello world");
}

#[test]
fn query_param_invalid_utf8_is_bad_request() {
    let params = QueryParams::new(Some("q=%FF"));
    let error = params.first("q").percent_decode().ok().unwrap_err();
    assert_eq!(error.status(), 400);
    assert_eq!(error.message(), "invalid utf-8 sequence of bytes in q.");
}

#[test]
fn missing_query_is_empty() {
    let params = QueryParams::new(None);
    assert!(!params.contains("a"));
    assert!(params.first("a").ok().unwrap().is_none());
}

#[test]
fn path_params_slice_values() {
    let spans = vec![PathSpan::new("id", 7, Some(9)), PathSpan::new("rest", 10, None)];
    let path = "/users/42/a%2Fb";
    let params = PathParams::new(path, &spans);
    assert_eq!(params.get("id").ok().unwrap().unwrap(), "42");
    assert_eq!(params.get("rest").ok().unwrap().unwrap(), "a%2Fb");
    assert_eq!(params.get("rest").percent_decode().into_result().unwrap(), "a/b");
    assert!(params.get("missing").ok().unwrap().is_none());
}

#[test]
fn missing_path_param_is_bad_request() {
    let spans = vec![PathSpan::new("id", 1, None)];
    let params = PathParams::new("/x", &spans);
    let error = params.get("name").into_result().unwrap_err();
    assert_eq!(error.status(), 400);
    assert_eq!(error.message(), "missing required path parameter: \"name\".");
}

#[test]
fn decode_as_leaves_unencoded_input() {
    assert_eq!(UriEncoding::Unencoded.decode_as("n", "a%20b").unwrap(), "a%20b");
    assert_eq!(UriEncoding::Percent.decode_as("n", "a%20b").unwrap(), "a b");
    assert_eq!(UriEncoding::Percent.decode_as("n", "%C3%28").unwrap_err().status(), 400);
}

#[test]
fn path_span_slice_respects_char_boundaries() {
    let span = PathSpan::new("x", 1, Some(2));
    assert_eq!(span.slice("é"), None);
    assert_eq!(span.ident(), "x");
}
