//! Path and query parameters of a request.
use vstd::prelude::*;
use vstd::utf8::{decode_utf8, valid_utf8, is_char_boundary};
use vstd::string::StringSliceAdditionalSpecFns;
use std::borrow::Cow;
use crate::encoding::{UriEncoding, spec_decode_as, is_invalid_utf8_error};
use crate::error::{Error, ErrorSource, ResultExt};
use crate::query::{QueryParamRange, parse_query, spec_query_items, item_view};
use crate::status::BAD_REQUEST;
use crate::text::{owned, spec_str_get, str_eq, str_get, str_get_from, lemma_view_is_decoded_bytes};

verus! {

broadcast use {vstd::string::group_string_axioms, vstd::slice::group_slice_axioms};

/// The text of a string slice.
pub fn cow_str<'c>(c: &'c Cow<'_, str>) -> (r: &'c str)
    ensures
        r@ == c@,
{
    match c {
        Cow::Borrowed(b) => b,
        Cow::Owned(o) => o.as_str(),
    }
}

/// The bytes of `source` in the range `start..end` (or `start..` when `end`
/// is `None`), when the range is a valid sub-slice.
pub open spec fn spec_range_bytes(source: Seq<u8>, start: usize, end: Option<usize>) -> Option<Seq<u8>> {
    match end {
        Some(e) => spec_str_get(source, start as int, e as int),
        None => spec_str_get(source, start as int, source.len() as int),
    }
}

/// A parameter captured from the request path: its name and the byte range
/// of its value in the path.
pub struct PathSpan {
    ident: String,
    start: usize,
    end: Option<usize>,
}

impl PathSpan {
    pub closed spec fn spec_ident(self) -> Seq<char> {
        self.ident@
    }

    pub closed spec fn spec_start(self) -> usize {
        self.start
    }

    pub closed spec fn spec_end(self) -> Option<usize> {
        self.end
    }

    /// A parameter named `ident` whose value spans `start..end` (or
    /// `start..` when `end` is `None`).
    pub fn new(ident: &str, start: usize, end: Option<usize>) -> (r: Self)
        ensures
            r.spec_ident() == ident@,
            r.spec_start() == start,
            r.spec_end() == end,
    {
        PathSpan { ident: owned(ident), start, end }
    }

    /// The name of the parameter.
    pub fn ident(&self) -> (r: &str)
        ensures
            r@ == self.spec_ident(),
    {
        self.ident.as_str()
    }

    /// The value of the parameter in `path`.
    pub fn slice<'a>(&self, path: &'a str) -> (r: Option<&'a str>)
        ensures
            r is Some <==> spec_range_bytes(path.spec_bytes(), self.spec_start(), self.spec_end()) is Some,
            r matches Some(t) ==> spec_range_bytes(path.spec_bytes(), self.spec_start(), self.spec_end())
                == Some(t.spec_bytes()),
    {
        match self.end {
            Some(end) => str_get(path, self.start, end),
            None => str_get_from(path, self.start),
        }
    }
}

/// The index of the first span named `name`.
pub open spec fn first_span_index(spans: Seq<PathSpan>, name: Seq<char>) -> Option<int>
    decreases spans.len(),
{
    if spans.len() == 0 {
        None
    } else if spans.last().spec_ident() == name && first_span_index(spans.drop_last(), name) is None {
        Some(spans.len() - 1)
    } else {
        first_span_index(spans.drop_last(), name)
    }
}

/// The first span named `name`.
pub fn get<'a>(spans: &'a [PathSpan], name: &str) -> (r: Option<&'a PathSpan>)
    ensures
        r is Some <==> first_span_index(spans@, name@) is Some,
        r matches Some(span) ==> *span == spans@[first_span_index(spans@, name@).unwrap()],
{
    let mut i: usize = 0;
    while i < spans.len()
        invariant
            i <= spans@.len(),
            first_span_index(spans@.subrange(0, i as int), name@) is None,
        decreases spans@.len() - i,
    {
        proof {
            let prefix = spans@.subrange(0, i + 1);
            assert(prefix.drop_last() =~= spans@.subrange(0, i as int));
        }
        if str_eq(spans[i].ident(), name) {
            proof {
                lemma_first_index_extends(spans@, name@, i as int + 1);
            }
            return Some(&spans[i]);
        }
        i = i + 1;
    }
    proof {
        assert(spans@.subrange(0, spans@.len() as int) =~= spans@);
    }
    None
}

/// A parameter's value is the text of the path between the bounds of its
/// span: the path is the part before the start, the value, then the rest,
/// and the value holds exactly the bytes between the bounds (all the bytes
/// from the start when the span has no end). Reading the value of a span
/// that was found succeeds unless its bounds fall off the path or inside a
/// character.
pub proof fn lemma_range_is_slice(source: Seq<u8>, start: usize, end: Option<usize>)
    requires
        valid_utf8(source),
    ensures
        spec_range_bytes(source, start, end) matches Some(v) ==> source.subrange(0, start as int) + v
            + source.subrange(start + v.len(), source.len() as int) == source,
        spec_range_bytes(source, start, end) matches Some(v) ==> match end {
            Some(e) => v.len() == e - start,
            None => v.len() == source.len() - start,
        },
        (match end {
            Some(e) => start <= e <= source.len() && is_char_boundary(source, start as int)
                && is_char_boundary(source, e as int),
            None => start <= source.len() && is_char_boundary(source, start as int),
        }) ==> spec_range_bytes(source, start, end) is Some,
{
    vstd::utf8::is_char_boundary_start_end_of_seq(source);
    if let Some(v) = spec_range_bytes(source, start, end) {
        assert(source.subrange(0, start as int) + v + source.subrange(start + v.len(), source.len() as int) =~= source);
    }
}

/// Looking a span up by name finds the first span that carries that name:
/// the span found is named `name`, no span before it is, and nothing is
/// found exactly when no span is named `name`.
pub proof fn lemma_first_span_index(spans: Seq<PathSpan>, name: Seq<char>)
    ensures
        first_span_index(spans, name) matches Some(i) ==> 0 <= i < spans.len()
            && spans[i].spec_ident() == name && forall|j: int|
            0 <= j < i ==> (#[trigger] spans[j]).spec_ident() != name,
        first_span_index(spans, name) is None <==> forall|j: int|
            0 <= j < spans.len() ==> (#[trigger] spans[j]).spec_ident() != name,
    decreases spans.len(),
{
    if spans.len() > 0 {
        let init = spans.drop_last();
        lemma_first_span_index(init, name);
        assert forall|j: int| 0 <= j < init.len() implies #[trigger] init[j] == spans[j] by {}
        if first_span_index(spans, name) is None {
            assert forall|j: int| 0 <= j < spans.len() implies (#[trigger] spans[j]).spec_ident() != name by {
                if j < init.len() {
                    assert(init[j] == spans[j]);
                }
            }
        }
        if let Some(i) = first_span_index(spans, name) {
            assert forall|j: int| 0 <= j < i implies (#[trigger] spans[j]).spec_ident() != name by {
                assert(init[j] == spans[j]);
            }
        }
    }
}

/// A first match within a prefix is the first match of the whole sequence.
proof fn lemma_first_index_extends(spans: Seq<PathSpan>, name: Seq<char>, n: int)
    requires
        0 <= n <= spans.len(),
        first_span_index(spans.subrange(0, n), name) is Some,
    ensures
        first_span_index(spans, name) == first_span_index(spans.subrange(0, n), name),
    decreases spans.len() - n,
{
    if n < spans.len() {
        let longer = spans.subrange(0, n + 1);
        assert(longer.drop_last() =~= spans.subrange(0, n));
        lemma_first_index_extends(spans, name, n + 1);
    } else {
        assert(spans.subrange(0, n) =~= spans);
    }
}

/// The path parameters of a request: the path and the captured spans.
pub struct PathParams<'a> {
    path: &'a str,
    spans: &'a [PathSpan],
}

/// A path parameter looked up by name, with the encoding used to read it.
pub struct PathParam<'a, 'b> {
    encoding: UriEncoding,
    source: &'a str,
    param: Option<&'a PathSpan>,
    name: &'b str,
}

/// What a path parameter's value is: its bytes, when it was captured and
/// its range is valid.
pub open spec fn spec_path_value(source: &str, param: Option<&PathSpan>) -> Option<Seq<u8>> {
    match param {
        Some(span) => spec_range_bytes(source.spec_bytes(), span.spec_start(), span.spec_end()),
        None => None,
    }
}

/// The error of a required parameter that is missing; `prefix` names the
/// kind of parameter.
pub open spec fn is_missing_error(e: Error, prefix: Seq<char>, name: Seq<char>) -> bool {
    &&& e.spec_status() == BAD_REQUEST
    &&& e.spec_source() matches ErrorSource::Message(m) && m@ == prefix + name + "\"."@
}

/// The start of the message of a missing path parameter.
pub open spec fn missing_path_prefix() -> Seq<char> {
    "missing required path parameter: \""@
}

/// The start of the message of a missing query parameter.
pub open spec fn missing_query_prefix() -> Seq<char> {
    "missing required query parameter: \""@
}

/// The outcome of reading a parameter whose value bytes are `value`
/// (`None` when it is absent): `Ok(None)` when absent, otherwise the decoded
/// value or the decoding error.
pub open spec fn optional_value_ok(
    encoding: UriEncoding,
    name: Seq<char>,
    value: Option<Seq<u8>>,
    r: Result<Option<Seq<char>>, Error>,
) -> bool {
    match value {
        None => r == Ok::<Option<Seq<char>>, Error>(None),
        Some(b) => match spec_decode_as(encoding, decode_utf8(b)) {
            Some(text) => r == Ok::<Option<Seq<char>>, Error>(Some(text)),
            None => r matches Err(e) && is_invalid_utf8_error(e, name),
        },
    }
}

/// The outcome of reading a required parameter whose value bytes are
/// `value`: the decoded value, the missing-parameter error, or the decoding
/// error.
pub open spec fn required_value_ok(
    encoding: UriEncoding,
    prefix: Seq<char>,
    name: Seq<char>,
    value: Option<Seq<u8>>,
    r: Result<Seq<char>, Error>,
) -> bool {
    match value {
        None => r matches Err(e) && is_missing_error(e, prefix, name),
        Some(b) => match spec_decode_as(encoding, decode_utf8(b)) {
            Some(text) => r == Ok::<Seq<char>, Error>(text),
            None => r matches Err(e) && is_invalid_utf8_error(e, name),
        },
    }
}

/// The view of an optional decoded value.
pub open spec fn opt_view(r: Result<Option<Cow<str>>, Error>) -> Result<Option<Seq<char>>, Error> {
    match r {
        Ok(Some(c)) => Ok(Some(c@)),
        Ok(None) => Ok(None),
        Err(e) => Err(e),
    }
}

/// The view of a decoded value.
pub open spec fn req_view(r: Result<Cow<str>, Error>) -> Result<Seq<char>, Error> {
    match r {
        Ok(c) => Ok(c@),
        Err(e) => Err(e),
    }
}

impl<'a> PathParams<'a> {
    pub closed spec fn spec_path(self) -> &'a str {
        self.path
    }

    pub closed spec fn spec_spans(self) -> Seq<PathSpan> {
        self.spans@
    }

    pub fn new(path: &'a str, spans: &'a [PathSpan]) -> (r: Self)
        ensures
            r.spec_path() == path,
            r.spec_spans() == spans@,
    {
        PathParams { path, spans }
    }

    /// The parameter named `name`.
    pub fn get<'b>(&self, name: &'b str) -> (r: PathParam<'a, 'b>)
        ensures
            r.spec_encoding() == UriEncoding::Unencoded,
            r.spec_source() == self.spec_path(),
            r.spec_name() == name,
            r.spec_param() is Some <==> first_span_index(self.spec_spans(), name@) is Some,
            r.spec_param() matches Some(span) ==> *span == self.spec_spans()[first_span_index(
                self.spec_spans(),
                name@,
            ).unwrap()],
    {
        PathParam::new(self.path, get(self.spans, name), name)
    }
}

impl<'a, 'b> PathParam<'a, 'b> {
    pub closed spec fn spec_encoding(self) -> UriEncoding {
        self.encoding
    }

    pub closed spec fn spec_source(self) -> &'a str {
        self.source
    }

    pub closed spec fn spec_param(self) -> Option<&'a PathSpan> {
        self.param
    }

    pub closed spec fn spec_name(self) -> &'b str {
        self.name
    }

    /// The bytes of the parameter's value, if it was captured.
    pub open spec fn spec_value(self) -> Option<Seq<u8>> {
        spec_path_value(self.spec_source(), self.spec_param())
    }

    pub fn new(source: &'a str, param: Option<&'a PathSpan>, name: &'b str) -> (r: Self)
        ensures
            r.spec_encoding() == UriEncoding::Unencoded,
            r.spec_source() == source,
            r.spec_param() == param,
            r.spec_name() == name,
    {
        PathParam { encoding: UriEncoding::Unencoded, source, param, name }
    }

    /// The same parameter, percent-decoded when it is read.
    pub fn percent_decode(self) -> (r: Self)
        ensures
            r.spec_encoding() == UriEncoding::Percent,
            r.spec_source() == self.spec_source(),
            r.spec_param() == self.spec_param(),
            r.spec_name() == self.spec_name(),
    {
        PathParam { encoding: UriEncoding::Percent, ..self }
    }

    /// The raw value of the parameter.
    fn value(&self) -> (r: Option<&'a str>)
        ensures
            r is Some <==> self.spec_value() is Some,
            r matches Some(t) ==> self.spec_value() == Some(t.spec_bytes()),
    {
        match self.param {
            Some(span) => span.slice(self.source),
            None => None,
        }
    }

    /// The decoded value of the parameter, or `None` when it is absent.
    pub fn ok(self) -> (r: Result<Option<Cow<'a, str>>, Error>)
        ensures
            optional_value_ok(self.spec_encoding(), self.spec_name()@, self.spec_value(), opt_view(r)),
    {
        match self.value() {
            None => Ok(None),
            Some(value) => {
                proof {
                    lemma_view_is_decoded_bytes(value);
                }
                match self.encoding.decode_as(self.name, value) {
                    Ok(decoded) => Ok(Some(decoded)),
                    Err(error) => Err(error),
                }
            },
        }
    }
}

impl<'a, 'b> ResultExt for PathParam<'a, 'b> {
    type Output = Cow<'a, str>;

    open spec fn into_result_gives(self, r: Result<Cow<'a, str>, Error>) -> bool {
        required_value_ok(self.spec_encoding(), missing_path_prefix(), self.spec_name()@, self.spec_value(), req_view(r))
    }

    /// The decoded value of the parameter; a `400` error when it is absent.
    fn into_result(self) -> (r: Result<Cow<'a, str>, Error>) {
        match self.value() {
            None => Err(Error::require_path_param(self.name)),
            Some(value) => {
                proof {
                    lemma_view_is_decoded_bytes(value);
                }
                self.encoding.decode_as(self.name, value)
            },
        }
    }
}


/// The decoded names and value ranges of parsed query parameters.
pub open spec fn items_view<'a>(v: Seq<(Cow<'a, str>, Option<QueryParamRange>)>) -> Seq<(Seq<char>, Option<QueryParamRange>)> {
    v.map_values(|item: (Cow<'a, str>, Option<QueryParamRange>)| item_view(item))
}

/// The range of the first parameter named `name` that has a value.
pub open spec fn first_value(items: Seq<(Seq<char>, Option<QueryParamRange>)>, name: Seq<char>) -> Option<QueryParamRange>
    decreases items.len(),
{
    if items.len() == 0 {
        None
    } else if items[0].0 == name && items[0].1 is Some {
        items[0].1
    } else {
        first_value(items.drop_first(), name)
    }
}

/// The range of the last parameter named `name` that has a value.
pub open spec fn last_value(items: Seq<(Seq<char>, Option<QueryParamRange>)>, name: Seq<char>) -> Option<QueryParamRange>
    decreases items.len(),
{
    if items.len() == 0 {
        None
    } else if items.last().0 == name && items.last().1 is Some {
        items.last().1
    } else {
        last_value(items.drop_last(), name)
    }
}

/// The value ranges of every parameter named `name`, in order.
pub open spec fn values_named(items: Seq<(Seq<char>, Option<QueryParamRange>)>, name: Seq<char>) -> Seq<Option<QueryParamRange>>
    decreases items.len(),
{
    if items.len() == 0 {
        seq![]
    } else if items.last().0 == name {
        values_named(items.drop_last(), name).push(items.last().1)
    } else {
        values_named(items.drop_last(), name)
    }
}

/// The bytes of a query parameter's value: `None` when the parameter is
/// absent, has no value, or its value is empty.
pub open spec fn spec_query_value(source: Option<&str>, range: Option<QueryParamRange>) -> Option<Seq<u8>> {
    match (source, range) {
        (Some(src), Some((Some(from), Some(to)))) => if from == to {
            None
        } else {
            spec_str_get(src.spec_bytes(), from as int, to as int)
        },
        (Some(src), Some((Some(from), None))) => spec_str_get(
            src.spec_bytes(),
            from as int,
            src.spec_bytes().len() as int,
        ),
        _ => None,
    }
}

/// The query parameters of a request.
pub struct QueryParams<'a> {
    query: Option<&'a str>,
    spans: Vec<(Cow<'a, str>, Option<QueryParamRange>)>,
}

/// A query parameter looked up by name, with the encoding used to read it.
pub struct QueryParam<'a, 'b> {
    encoding: UriEncoding,
    source: Option<&'a str>,
    range: Option<QueryParamRange>,
    name: &'b str,
}

impl<'a> QueryParams<'a> {
    pub closed spec fn spec_query(self) -> Option<&'a str> {
        self.query
    }

    /// The parameters, in the order of the query.
    pub closed spec fn spec_items(self) -> Seq<(Seq<char>, Option<QueryParamRange>)> {
        items_view(self.spans@)
    }

    /// Parses the query, if any.
    pub fn new(query: Option<&'a str>) -> (r: Self)
        ensures
            r.spec_query() == query,
            r.spec_items() == match query {
                Some(q) => spec_query_items(q),
                None => seq![],
            },
    {
        let spans = match query {
            Some(input) => parse_query(input),
            None => Vec::new(),
        };
        let r = QueryParams { query, spans };
        assert(query is None ==> r.spec_items() =~= seq![]);
        r
    }

    /// Every parameter named `name`, in order.
    pub fn all<'b>(&self, name: &'b str) -> (r: Vec<QueryParam<'a, 'b>>)
        ensures
            r@.len() == values_named(self.spec_items(), name@).len(),
            forall|i: int|
                0 <= i < r@.len() ==> {
                    &&& (#[trigger] r@[i]).spec_range() == values_named(self.spec_items(), name@)[i]
                    &&& r@[i].spec_source() == self.spec_query()
                    &&& r@[i].spec_name() == name
                    &&& r@[i].spec_encoding() == UriEncoding::Unencoded
                },
    {
        let mut r: Vec<QueryParam<'a, 'b>> = Vec::new();
        let mut i: usize = 0;
        while i < self.spans.len()
            invariant
                i <= self.spans@.len(),
                r@.len() == values_named(self.spec_items().take(i as int), name@).len(),
                forall|j: int|
                    0 <= j < r@.len() ==> {
                        &&& (#[trigger] r@[j]).spec_range() == values_named(self.spec_items().take(i as int), name@)[j]
                        &&& r@[j].spec_source() == self.spec_query()
                        &&& r@[j].spec_name() == name
                        &&& r@[j].spec_encoding() == UriEncoding::Unencoded
                    },
            decreases self.spans@.len() - i,
        {
            let ghost items = self.spec_items();
            assert(items.take(i + 1).drop_last() =~= items.take(i as int));
            assert(items.take(i + 1).last() == items[i as int]);
            let (key, value) = &self.spans[i];
            if str_eq(cow_str(key), name) {
                r.push(QueryParam::new(self.query, *value, name));
            }
            i = i + 1;
        }
        assert(self.spec_items().take(self.spans@.len() as int) =~= self.spec_items());
        r
    }

    /// Whether some parameter is named `name`.
    pub fn contains(&self, name: &str) -> (r: bool)
        ensures
            r == exists|i: int| 0 <= i < self.spec_items().len() && (#[trigger] self.spec_items()[i]).0 == name@,
    {
        let mut i: usize = 0;
        while i < self.spans.len()
            invariant
                i <= self.spans@.len(),
                forall|j: int| 0 <= j < i ==> (#[trigger] self.spec_items()[j]).0 != name@,
            decreases self.spans@.len() - i,
        {
            let (key, _) = &self.spans[i];
            if str_eq(cow_str(key), name) {
                assert(self.spec_items()[i as int].0 == name@);
                return true;
            }
            i = i + 1;
        }
        false
    }

    /// The first parameter named `name` that has a value.
    pub fn first<'b>(&self, name: &'b str) -> (r: QueryParam<'a, 'b>)
        ensures
            r.spec_range() == first_value(self.spec_items(), name@),
            r.spec_source() == self.spec_query(),
            r.spec_name() == name,
            r.spec_encoding() == UriEncoding::Unencoded,
    {
        let mut i: usize = 0;
        assert(self.spec_items().skip(0) =~= self.spec_items());
        while i < self.spans.len()
            invariant
                i <= self.spans@.len(),
                first_value(self.spec_items(), name@) == first_value(self.spec_items().skip(i as int), name@),
            decreases self.spans@.len() - i,
        {
            let ghost items = self.spec_items();
            assert(items.skip(i as int).drop_first() =~= items.skip(i + 1));
            assert(items.skip(i as int)[0] == items[i as int]);
            let (key, value) = &self.spans[i];
            if value.is_some() && str_eq(cow_str(key), name) {
                return QueryParam::new(self.query, *value, name);
            }
            i = i + 1;
        }
        assert(self.spec_items().skip(i as int).len() == 0);
        QueryParam::new(self.query, None, name)
    }

    /// The last parameter named `name` that has a value.
    pub fn last<'b>(&self, name: &'b str) -> (r: QueryParam<'a, 'b>)
        ensures
            r.spec_range() == last_value(self.spec_items(), name@),
            r.spec_source() == self.spec_query(),
            r.spec_name() == name,
            r.spec_encoding() == UriEncoding::Unencoded,
    {
        let mut i: usize = self.spans.len();
        assert(self.spec_items().take(i as int) =~= self.spec_items());
        while i > 0
            invariant
                i <= self.spans@.len(),
                last_value(self.spec_items(), name@) == last_value(self.spec_items().take(i as int), name@),
            decreases i,
        {
            let ghost items = self.spec_items();
            assert(items.take(i as int).drop_last() =~= items.take(i - 1));
            assert(items.take(i as int).last() == items[i - 1]);
            let (key, value) = &self.spans[i - 1];
            if value.is_some() && str_eq(cow_str(key), name) {
                return QueryParam::new(self.query, *value, name);
            }
            i = i - 1;
        }
        assert(self.spec_items().take(0).len() == 0);
        QueryParam::new(self.query, None, name)
    }
}

impl<'a, 'b> QueryParam<'a, 'b> {
    pub closed spec fn spec_encoding(self) -> UriEncoding {
        self.encoding
    }

    pub closed spec fn spec_source(self) -> Option<&'a str> {
        self.source
    }

    pub closed spec fn spec_range(self) -> Option<QueryParamRange> {
        self.range
    }

    pub closed spec fn spec_name(self) -> &'b str {
        self.name
    }

    /// The bytes of the parameter's value, if it has a non-empty one.
    pub open spec fn spec_value(self) -> Option<Seq<u8>> {
        spec_query_value(self.spec_source(), self.spec_range())
    }

    pub fn new(source: Option<&'a str>, range: Option<QueryParamRange>, name: &'b str) -> (r: Self)
        ensures
            r.spec_encoding() == UriEncoding::Unencoded,
            r.spec_source() == source,
            r.spec_range() == range,
            r.spec_name() == name,
    {
        QueryParam { encoding: UriEncoding::Unencoded, source, range, name }
    }

    /// The same parameter, percent-decoded when it is read.
    pub fn percent_decode(self) -> (r: Self)
        ensures
            r.spec_encoding() == UriEncoding::Percent,
            r.spec_source() == self.spec_source(),
            r.spec_range() == self.spec_range(),
            r.spec_name() == self.spec_name(),
    {
        QueryParam { encoding: UriEncoding::Percent, ..self }
    }

    /// The raw value of the parameter; an empty value counts as absent.
    fn slice(&self) -> (r: Option<&'a str>)
        ensures
            r is Some <==> self.spec_value() is Some,
            r matches Some(t) ==> self.spec_value() == Some(t.spec_bytes()),
    {
        match (self.source, self.range) {
            (Some(source), Some((Some(from), Some(to)))) => if from == to {
                None
            } else {
                str_get(source, from, to)
            },
            (Some(source), Some((Some(from), None))) => str_get_from(source, from),
            _ => None,
        }
    }

    /// The decoded value of the parameter, or `None` when it is absent.
    pub fn ok(self) -> (r: Result<Option<Cow<'a, str>>, Error>)
        ensures
            optional_value_ok(self.spec_encoding(), self.spec_name()@, self.spec_value(), opt_view(r)),
    {
        match self.slice() {
            None => Ok(None),
            Some(value) => {
                proof {
                    lemma_view_is_decoded_bytes(value);
                }
                match self.encoding.decode_as(self.name, value) {
                    Ok(decoded) => Ok(Some(decoded)),
                    Err(error) => Err(error),
                }
            },
        }
    }
}

impl<'a, 'b> ResultExt for QueryParam<'a, 'b> {
    type Output = Cow<'a, str>;

    open spec fn into_result_gives(self, r: Result<Cow<'a, str>, Error>) -> bool {
        required_value_ok(self.spec_encoding(), missing_query_prefix(), self.spec_name()@, self.spec_value(), req_view(r))
    }

    /// The decoded value of the parameter; a `400` error when it is absent.
    fn into_result(self) -> (r: Result<Cow<'a, str>, Error>) {
        match self.slice() {
            None => Err(Error::require_query_param(self.name)),
            Some(value) => {
                proof {
                    lemma_view_is_decoded_bytes(value);
                }
                self.encoding.decode_as(self.name, value)
            },
        }
    }
}


/// Some parameter named `name` has a value.
pub open spec fn has_named_value(items: Seq<(Seq<char>, Option<QueryParamRange>)>, name: Seq<char>) -> bool {
    exists|i: int| 0 <= i < items.len() && (#[trigger] items[i]).0 == name && items[i].1 is Some
}

/// Some parameter is named `name`.
pub open spec fn has_named(items: Seq<(Seq<char>, Option<QueryParamRange>)>, name: Seq<char>) -> bool {
    exists|i: int| 0 <= i < items.len() && (#[trigger] items[i]).0 == name
}

proof fn lemma_first_value(items: Seq<(Seq<char>, Option<QueryParamRange>)>, name: Seq<char>)
    ensures
        first_value(items, name) is Some <==> has_named_value(items, name),
    decreases items.len(),
{
    if items.len() > 0 {
        let rest = items.drop_first();
        lemma_first_value(rest, name);
        if has_named_value(items, name) && !(items[0].0 == name && items[0].1 is Some) {
            let i = choose|i: int| 0 <= i < items.len() && (#[trigger] items[i]).0 == name && items[i].1 is Some;
            assert(rest[i - 1] == items[i]);
        }
        if has_named_value(rest, name) {
            let j = choose|j: int| 0 <= j < rest.len() && (#[trigger] rest[j]).0 == name && rest[j].1 is Some;
            assert(items[j + 1] == rest[j]);
        }
    }
}

proof fn lemma_last_value(items: Seq<(Seq<char>, Option<QueryParamRange>)>, name: Seq<char>)
    ensures
        last_value(items, name) is Some <==> has_named_value(items, name),
    decreases items.len(),
{
    if items.len() > 0 {
        let init = items.drop_last();
        lemma_last_value(init, name);
        if has_named_value(items, name) && !(items.last().0 == name && items.last().1 is Some) {
            let i = choose|i: int| 0 <= i < items.len() && (#[trigger] items[i]).0 == name && items[i].1 is Some;
            assert(init[i] == items[i]);
        }
        if has_named_value(init, name) {
            let j = choose|j: int| 0 <= j < init.len() && (#[trigger] init[j]).0 == name && init[j].1 is Some;
            assert(items[j] == init[j]);
        }
    }
}

proof fn lemma_values_named(items: Seq<(Seq<char>, Option<QueryParamRange>)>, name: Seq<char>)
    ensures
        values_named(items, name).len() > 0 <==> has_named(items, name),
        values_named(items, name).contains(first_value(items, name)) || first_value(items, name) is None,
    decreases items.len(),
{
    if items.len() > 0 {
        let init = items.drop_last();
        lemma_values_named(init, name);
        if has_named(items, name) && items.last().0 != name {
            let i = choose|i: int| 0 <= i < items.len() && (#[trigger] items[i]).0 == name;
            assert(init[i] == items[i]);
        }
        if has_named(init, name) {
            let j = choose|j: int| 0 <= j < init.len() && (#[trigger] init[j]).0 == name;
            assert(items[j] == init[j]);
        }
        lemma_first_value_prefix(items, name);
        let vi = values_named(init, name);
        if items.last().0 == name {
            assert(values_named(items, name) == vi.push(items.last().1));
            assert(values_named(items, name).last() == items.last().1);
            if first_value(init, name) is Some {
                let k = choose|k: int| 0 <= k < vi.len() && vi[k] == first_value(init, name);
                assert(values_named(items, name)[k] == vi[k]);
            }
        } else {
            assert(values_named(items, name) == vi);
        }
    }
}

/// The first value of a list is the first value of its prefix, when the
/// prefix has one; otherwise it comes from the last parameter.
proof fn lemma_first_value_prefix(items: Seq<(Seq<char>, Option<QueryParamRange>)>, name: Seq<char>)
    requires
        items.len() > 0,
    ensures
        first_value(items.drop_last(), name) is Some ==> first_value(items, name) == first_value(
            items.drop_last(),
            name,
        ),
        first_value(items.drop_last(), name) is None ==> first_value(items, name) == (if items.last().0
            == name && items.last().1 is Some {
            items.last().1
        } else {
            None
        }),
    decreases items.len(),
{
    if items.len() > 1 {
        let rest = items.drop_first();
        lemma_first_value_prefix(rest, name);
        assert(rest.drop_last() =~= items.drop_last().drop_first());
        assert(items.drop_last()[0] == items[0]);
        assert(rest.last() == items.last());
        if !(items[0].0 == name && items[0].1 is Some) {
            assert(first_value(items, name) == first_value(rest, name));
            assert(first_value(items.drop_last(), name) == first_value(rest.drop_last(), name));
        }
    } else {
        assert(items.drop_last().len() == 0);
        assert(items.drop_first().len() == 0);
        assert(first_value(items.drop_first(), name) is None);
        assert(items[0] == items.last());
    }
}

/// How the lookups of a query parameter by name compose: on a query made of
/// two parts, the first value comes from the first part if it has one, the
/// last value from the second part if it has one, and the values of every
/// parameter named `name` are those of the first part then those of the
/// second. A single parameter is found exactly when it carries the name (and,
/// for the first and last value, has a value).
pub proof fn lemma_lookups_compose(
    a: Seq<(Seq<char>, Option<QueryParamRange>)>,
    b: Seq<(Seq<char>, Option<QueryParamRange>)>,
    name: Seq<char>,
    item: (Seq<char>, Option<QueryParamRange>),
)
    ensures
        first_value(a + b, name) == (if first_value(a, name) is Some {
            first_value(a, name)
        } else {
            first_value(b, name)
        }),
        last_value(a + b, name) == (if last_value(b, name) is Some {
            last_value(b, name)
        } else {
            last_value(a, name)
        }),
        values_named(a + b, name) == values_named(a, name) + values_named(b, name),
        first_value(seq![item], name) == (if item.0 == name && item.1 is Some {
            item.1
        } else {
            None
        }),
        last_value(seq![item], name) == (if item.0 == name && item.1 is Some {
            item.1
        } else {
            None
        }),
        values_named(seq![item], name) == (if item.0 == name {
            seq![item.1]
        } else {
            Seq::<Option<QueryParamRange>>::empty()
        }),
{
    lemma_first_value_concat(a, b, name);
    lemma_last_value_concat(a, b, name);
    lemma_values_named_concat(a, b, name);
    let one = seq![item];
    let none = Seq::<(Seq<char>, Option<QueryParamRange>)>::empty();
    assert(one.drop_first() =~= none);
    assert(one.drop_last() =~= none);
    assert(first_value(none, name) is None);
    assert(last_value(none, name) is None);
    assert(one[0] == item && one.last() == item);
    assert(values_named(none, name) =~= Seq::<Option<QueryParamRange>>::empty());
    if item.0 == name {
        assert(values_named(one, name) == values_named(none, name).push(item.1));
        assert(Seq::<Option<QueryParamRange>>::empty().push(item.1) =~= seq![item.1]);
    }
}

proof fn lemma_first_value_concat(
    a: Seq<(Seq<char>, Option<QueryParamRange>)>,
    b: Seq<(Seq<char>, Option<QueryParamRange>)>,
    name: Seq<char>,
)
    ensures
        first_value(a + b, name) == (if first_value(a, name) is Some {
            first_value(a, name)
        } else {
            first_value(b, name)
        }),
    decreases a.len(),
{
    if a.len() == 0 {
        assert(a + b =~= b);
    } else {
        lemma_first_value_concat(a.drop_first(), b, name);
        assert((a + b).drop_first() =~= a.drop_first() + b);
        assert((a + b)[0] == a[0]);
    }
}

proof fn lemma_last_value_concat(
    a: Seq<(Seq<char>, Option<QueryParamRange>)>,
    b: Seq<(Seq<char>, Option<QueryParamRange>)>,
    name: Seq<char>,
)
    ensures
        last_value(a + b, name) == (if last_value(b, name) is Some {
            last_value(b, name)
        } else {
            last_value(a, name)
        }),
    decreases b.len(),
{
    if b.len() == 0 {
        assert(a + b =~= a);
    } else {
        lemma_last_value_concat(a, b.drop_last(), name);
        assert((a + b).drop_last() =~= a + b.drop_last());
        assert((a + b).last() == b.last());
    }
}

proof fn lemma_values_named_concat(
    a: Seq<(Seq<char>, Option<QueryParamRange>)>,
    b: Seq<(Seq<char>, Option<QueryParamRange>)>,
    name: Seq<char>,
)
    ensures
        values_named(a + b, name) == values_named(a, name) + values_named(b, name),
    decreases b.len(),
{
    if b.len() == 0 {
        assert(a + b =~= a);
        assert(values_named(a, name) + values_named(b, name) =~= values_named(a, name));
    } else {
        lemma_values_named_concat(a, b.drop_last(), name);
        assert((a + b).drop_last() =~= a + b.drop_last());
        assert((a + b).last() == b.last());
        if b.last().0 == name {
            assert((values_named(a, name) + values_named(b.drop_last(), name)).push(b.last().1)
                =~= values_named(a, name) + values_named(b.drop_last(), name).push(b.last().1));
        }
    }
}

/// Looking a parameter up by name agrees from either end: the first and the
/// last parameter named `name` with a value both exist exactly when some
/// parameter named `name` has a value, and `contains` holds exactly when
/// `all` finds at least one parameter, among which is the first value.
pub proof fn lemma_lookups_agree(params: QueryParams, name: Seq<char>)
    ensures
        first_value(params.spec_items(), name) is Some <==> has_named_value(params.spec_items(), name),
        last_value(params.spec_items(), name) is Some <==> has_named_value(params.spec_items(), name),
        values_named(params.spec_items(), name).len() > 0 <==> has_named(params.spec_items(), name),
        first_value(params.spec_items(), name) is Some ==> values_named(params.spec_items(), name).contains(
            first_value(params.spec_items(), name),
        ),
{
    lemma_first_value(params.spec_items(), name);
    lemma_last_value(params.spec_items(), name);
    lemma_values_named(params.spec_items(), name);
}

} // verus!
