//! The query string parser: splits `name=value` pairs separated by `&`,
//! decoding names and recording the byte range of each value.
use vstd::prelude::*;
use vstd::utf8::{
    valid_utf8, decode_utf8, is_char_boundary, is_char_boundary_start_end_of_seq,
    is_char_boundary_iff_is_leading_byte, is_char_boundary_iff_not_is_continuation_byte,
    valid_utf8_split, pop_first_scalar,
};
use vstd::string::StringSliceAdditionalSpecFns;
use std::borrow::Cow;
use crate::text::{spec_str_get, str_get, str_get_from, lemma_view_is_decoded_bytes};
use crate::encoding::{percent_decoded_lossy, percent_decode_lossy};

verus! {

broadcast use {
    vstd::string::group_string_axioms,
    vstd::slice::group_slice_axioms,
    vstd::utf8::is_char_boundary_start_end_of_seq,
};

/// The byte range of a query parameter's value: where it starts and, unless
/// it runs to the end of the query, where it ends.
pub type QueryParamRange = (Option<usize>, Option<usize>);

pub const AMPERSAND: u8 = 0x26;
pub const EQUALS: u8 = 0x3d;

/// The first offset at or after `i` whose byte ends the run of bytes for
/// which `(byte == delim) == equal`.
pub open spec fn run_end(s: Seq<u8>, i: int, delim: u8, equal: bool) -> Option<int>
    decreases s.len() - i,
{
    if i < 0 || i >= s.len() {
        None
    } else if (s[i] == delim) != equal {
        Some(i)
    } else {
        run_end(s, i + 1, delim, equal)
    }
}

/// `take_while`: the end of the run that starts at `from`, or `None` when
/// `from` is not a valid place to start (`str::get(from..)` is `None`) or the
/// run reaches the end of the input.
pub open spec fn spec_take_while(s: Seq<u8>, from: int, delim: u8, equal: bool) -> Option<int> {
    if spec_str_get(s, from, s.len() as int) is Some {
        run_end(s, from, delim, equal)
    } else {
        None
    }
}

/// The decoded text of the bytes `s[start..end]`, when that range is a
/// valid sub-slice.
pub open spec fn spec_name_at(s: Seq<u8>, start: int, end: int) -> Option<Seq<char>> {
    match spec_str_get(s, start, end) {
        Some(b) => Some(percent_decoded_lossy(decode_utf8(b))),
        None => None,
    }
}

/// `take_name`: skip `&`s, then read up to the next `=`. Yields where the
/// name ends and the decoded name.
pub open spec fn spec_take_name(s: Seq<u8>, from: int) -> (int, Option<Seq<char>>) {
    let len = s.len() as int;
    match spec_take_while(s, from, AMPERSAND, true) {
        Some(start) => {
            let end = match spec_take_while(s, start, EQUALS, false) {
                Some(e) => e,
                None => len,
            };
            (end, spec_name_at(s, start, end))
        },
        None => (len, None),
    }
}

/// `take_value`: skip `=`s, then read up to the next `&`. Yields where the
/// value ends and its range.
pub open spec fn spec_take_value(s: Seq<u8>, from: int) -> (int, Option<QueryParamRange>) {
    let len = s.len() as int;
    match spec_take_while(s, from, EQUALS, true) {
        Some(start) => match spec_take_while(s, start, AMPERSAND, false) {
            Some(end) => (end, Some((Some(start as usize), Some(end as usize)))),
            None => (len, Some((Some(start as usize), None))),
        },
        None => (len, None),
    }
}

/// One step of the parser from the offset `from`: the parameter read (if
/// any) and the offset where the next step starts.
pub open spec fn spec_step(s: Seq<u8>, from: int) -> (Option<(Seq<char>, Option<QueryParamRange>)>, int) {
    let (start, name) = spec_take_name(s, from);
    let (end, at) = spec_take_value(s, start);
    match name {
        Some(n) => (Some((n, at)), end),
        None => (None, end),
    }
}

/// The end of a run lies in range, on a byte that ends the run, after bytes
/// that continue it.
pub proof fn lemma_run_end(s: Seq<u8>, i: int, delim: u8, equal: bool)
    requires
        0 <= i,
    ensures
        run_end(s, i, delim, equal) matches Some(k) ==> i <= k < s.len() && (s[k] == delim)
            != equal,
        run_end(s, i, delim, equal) matches Some(k) ==> forall|j: int|
            i <= j < k ==> (#[trigger] s[j] == delim) == equal,
        run_end(s, i, delim, equal) is None ==> forall|j: int|
            i <= j < s.len() ==> (#[trigger] s[j] == delim) == equal,
    decreases s.len() - i,
{
    if i < s.len() && (s[i] == delim) == equal {
        lemma_run_end(s, i + 1, delim, equal);
    }
}

/// After a step that reads a parameter, the parser has moved forward and
/// stays within the input.
pub proof fn lemma_step_advances(s: Seq<u8>, from: int)
    requires
        valid_utf8(s),
        0 <= from <= s.len(),
    ensures
        spec_step(s, from).0 is Some ==> from < spec_step(s, from).1 <= s.len(),
        from <= spec_step(s, from).1 <= s.len(),
{
    let len = s.len() as int;
    is_char_boundary_start_end_of_seq(s);
    lemma_run_end(s, from, AMPERSAND, true);
    match spec_take_while(s, from, AMPERSAND, true) {
        Some(start) => {
            lemma_run_end(s, start, EQUALS, false);
            let end = spec_take_name(s, from).0;
            assert(start <= end <= len);
            lemma_run_end(s, end, EQUALS, true);
            match spec_take_while(s, end, EQUALS, true) {
                Some(vstart) => {
                    lemma_run_end(s, vstart, AMPERSAND, false);
                },
                None => {},
            }
            if spec_step(s, from).0 is Some {
                if end < len {
                    assert(s[end] == EQUALS);
                    assert(spec_str_get(s, end, len) is Some);
                }
            }
        },
        None => {},
    }
}

/// The parameters of a query, in order, from the offset `from` on: the
/// parser stops at the first step that reads no name.
pub open spec fn spec_items_from(s: Seq<u8>, from: int) -> Seq<(Seq<char>, Option<QueryParamRange>)>
    decreases s.len() - from,
{
    if valid_utf8(s) && 0 <= from <= s.len() {
        match spec_step(s, from).0 {
            Some(item) => {
                proof {
                    lemma_step_advances(s, from);
                }
                seq![item] + spec_items_from(s, spec_step(s, from).1)
            },
            None => seq![],
        }
    } else {
        seq![]
    }
}

/// The parameters of the query `input`.
pub open spec fn spec_query_items(input: &str) -> Seq<(Seq<char>, Option<QueryParamRange>)> {
    spec_items_from(input.spec_bytes(), 0)
}

/// A value range that the parser reports: a value that starts after an
/// `=` and ends before an `&`, or one that runs to the end of the query,
/// neither of which holds an `&` or starts with `=`.
pub open spec fn is_value_range(s: Seq<u8>, range: Option<QueryParamRange>) -> bool {
    match range {
        Some((Some(a), Some(b))) => 0 < a <= b < s.len() && s[a - 1] == EQUALS && s[b as int]
            == AMPERSAND && (a < b ==> s[a as int] != EQUALS) && forall|j: int|
            a <= j < b ==> #[trigger] s[j] != AMPERSAND,
        Some((Some(a), None)) => 0 < a <= s.len() && s[a - 1] == EQUALS && (a < s.len() ==> s[a as int]
            != EQUALS) && forall|j: int| a <= j < s.len() ==> #[trigger] s[j] != AMPERSAND,
        Some((None, _)) => false,
        None => true,
    }
}

/// In valid UTF-8, the byte after an ASCII byte starts a character.
proof fn lemma_after_ascii(s: Seq<u8>, k: int)
    requires
        valid_utf8(s),
        0 <= k,
        k + 1 < s.len(),
        s[k] < 0x80,
    ensures
        is_char_boundary(s, k + 1),
{
    is_char_boundary_iff_is_leading_byte(s, k);
    valid_utf8_split(s, k);
    let u = s.subrange(k, s.len() as int);
    assert(u[0] == s[k]);
    assert(pop_first_scalar(u) =~= s.subrange(k + 1, s.len() as int));
    let t = s.subrange(k + 1, s.len() as int);
    assert(valid_utf8(t));
    assert(t[0] == s[k + 1]);
    is_char_boundary_iff_not_is_continuation_byte(s, k + 1);
}

/// The end of a run of `=` that starts at a character boundary is a
/// character boundary.
proof fn lemma_equals_run_boundary(s: Seq<u8>, start: int, end: int)
    requires
        valid_utf8(s),
        0 <= start <= end <= s.len(),
        is_char_boundary(s, start),
        forall|j: int| start <= j < end ==> #[trigger] s[j] == EQUALS,
    ensures
        is_char_boundary(s, end),
{
    if end == s.len() {
        is_char_boundary_start_end_of_seq(s);
    } else if end > start {
        lemma_after_ascii(s, end - 1);
    }
}

proof fn lemma_step_value(s: Seq<u8>, from: int)
    requires
        valid_utf8(s),
        0 <= from <= s.len(),
        s.len() <= usize::MAX,
    ensures
        spec_step(s, from).0 matches Some(item) ==> is_value_range(s, item.1),
{
    lemma_step_advances(s, from);
    let start = spec_take_name(s, from).0;
    lemma_run_end(s, from, AMPERSAND, true);
    match spec_take_while(s, from, AMPERSAND, true) {
        Some(nstart) => {
            lemma_run_end(s, nstart, EQUALS, false);
        },
        None => {},
    }
    if 0 <= start {
        lemma_run_end(s, start, EQUALS, true);
        match spec_take_while(s, start, EQUALS, true) {
            Some(vstart) => {
                lemma_run_end(s, vstart, AMPERSAND, false);
                assert(vstart as usize == vstart);
                lemma_equals_run_boundary(s, start, vstart);
                match spec_take_while(s, vstart, AMPERSAND, false) {
                    Some(end) => {
                        assert(end as usize == end);
                        assert(spec_take_value(s, start).1 == Some(
                            (Some(vstart as usize), Some(end as usize)),
                        ));
                        assert(is_value_range(s, spec_take_value(s, start).1));
                    },
                    None => {
                        if spec_str_get(s, vstart, s.len() as int) is Some {
                            assert(run_end(s, vstart, AMPERSAND, false) is None);
                        }
                        assert(is_value_range(s, spec_take_value(s, start).1));
                    },
                }
            },
            None => {},
        }
    }
}

/// Every value the parser reports lies within the query and holds no `&`:
/// it ends at the `&` that follows it, or at the end of the query.
pub proof fn lemma_value_ranges(s: Seq<u8>, from: int)
    requires
        valid_utf8(s),
        0 <= from <= s.len(),
        s.len() <= usize::MAX,
    ensures
        forall|i: int| 0 <= i < spec_items_from(s, from).len() ==> is_value_range(
            s,
            (#[trigger] spec_items_from(s, from)[i]).1,
        ),
    decreases s.len() - from,
{
    match spec_step(s, from).0 {
        Some(item) => {
            lemma_step_advances(s, from);
            lemma_step_value(s, from);
            let next = spec_step(s, from).1;
            lemma_value_ranges(s, next);
            let items = spec_items_from(s, from);
            assert(items == seq![item] + spec_items_from(s, next));
            assert forall|i: int| 0 <= i < items.len() implies is_value_range(s, (#[trigger] items[i]).1) by {
                if i > 0 {
                    assert(items[i] == spec_items_from(s, next)[i - 1]);
                }
            }
        },
        None => {},
    }
}

/// The values of the parameters of a query hold no `&`.
pub proof fn lemma_query_values(input: &str)
    requires
        input.spec_bytes().len() <= usize::MAX,
    ensures
        forall|i: int| 0 <= i < spec_query_items(input).len() ==> is_value_range(
            input.spec_bytes(),
            (#[trigger] spec_query_items(input)[i]).1,
        ),
{
    lemma_view_is_decoded_bytes(input);
    lemma_value_ranges(input.spec_bytes(), 0);
}

/// In valid UTF-8, an ASCII byte starts a character.
proof fn lemma_ascii_boundary(s: Seq<u8>, k: int)
    requires
        valid_utf8(s),
        0 <= k < s.len(),
        s[k] < 0x80,
    ensures
        is_char_boundary(s, k),
{
    is_char_boundary_iff_not_is_continuation_byte(s, k);
}

/// A run that ends at `k`: the bytes from `i` continue it and the byte at
/// `k` ends it.
proof fn lemma_run_end_at(s: Seq<u8>, i: int, k: int, delim: u8, equal: bool)
    requires
        0 <= i <= k < s.len(),
        forall|j: int| i <= j < k ==> (#[trigger] s[j] == delim) == equal,
        (s[k] == delim) != equal,
    ensures
        run_end(s, i, delim, equal) == Some(k),
    decreases k - i,
{
    if i < k {
        lemma_run_end_at(s, i + 1, k, delim, equal);
    }
}

/// A run that reaches the end of the input.
proof fn lemma_run_to_end(s: Seq<u8>, i: int, delim: u8, equal: bool)
    requires
        0 <= i,
        forall|j: int| i <= j < s.len() ==> (#[trigger] s[j] == delim) == equal,
    ensures
        run_end(s, i, delim, equal) is None,
    decreases s.len() - i,
{
    if i < s.len() {
        lemma_run_to_end(s, i + 1, delim, equal);
    }
}

/// One step of the parser reads one `name=value` pair. From a place where a
/// step may start, past any `&`s, a name `s[a..e]` without `=` ended by an
/// `=`, and a value `s[e + 1..b]` that does not start with `=`, holds no
/// `&`, and ends at an `&` or at the end of the query: the step reads the
/// lossy decoding of the name and the range of the value, and the next step
/// starts at the `&` after the value (or at the end).
pub proof fn lemma_step_reads_pair(s: Seq<u8>, from: int, a: int, e: int, b: int)
    requires
        valid_utf8(s),
        s.len() <= usize::MAX,
        is_step_start(s, from),
        0 <= from <= a <= e,
        e + 1 < b <= s.len(),
        forall|j: int| from <= j < a ==> #[trigger] s[j] == AMPERSAND,
        s[a] != AMPERSAND,
        forall|j: int| a <= j < e ==> #[trigger] s[j] != EQUALS,
        s[e] == EQUALS,
        s[e + 1] != EQUALS,
        forall|j: int| e + 1 <= j < b ==> #[trigger] s[j] != AMPERSAND,
        b == s.len() || s[b] == AMPERSAND,
    ensures
        spec_step(s, from) == (
            Some((
                percent_decoded_lossy(decode_utf8(s.subrange(a, e))),
                Some((Some((e + 1) as usize), if b == s.len() { None } else { Some(b as usize) })),
            )),
            b,
        ),
{
    let len = s.len() as int;
    is_char_boundary_start_end_of_seq(s);
    if from < len {
        if from > 0 {
            lemma_ascii_boundary(s, from);
        }
    }
    lemma_run_end_at(s, from, a, AMPERSAND, true);
    if a > 0 {
        if a == from {
            if a < len {
                assert(from == 0 || s[from] == AMPERSAND);
            }
        } else {
            lemma_after_ascii(s, a - 1);
        }
    }
    lemma_run_end_at(s, a, e, EQUALS, false);
    lemma_ascii_boundary(s, e);
    lemma_run_end_at(s, e, e + 1, EQUALS, true);
    lemma_after_ascii(s, e);
    if b < len {
        lemma_run_end_at(s, e + 1, b, AMPERSAND, false);
    } else {
        lemma_run_to_end(s, e + 1, AMPERSAND, false);
    }
}

/// The items read from a place are the item of the step there, then the
/// items read from where that step ends; nothing is read where no name can
/// be read.
pub proof fn lemma_items_continue(s: Seq<u8>, from: int)
    requires
        valid_utf8(s),
        0 <= from <= s.len(),
    ensures
        spec_step(s, from).0 matches Some(item) ==> spec_items_from(s, from) == seq![item]
            + spec_items_from(s, spec_step(s, from).1),
        spec_step(s, from).0 is None ==> spec_items_from(s, from).len() == 0,
{
}

/// A name as the parser reads it: the lossy percent-decoding of the text of
/// `s[a..b]`, a piece of the query that holds no `=`, starts the query or
/// follows an `&`, and ends at an `=` or at the end of the query.
pub open spec fn is_name_piece(s: Seq<u8>, a: int, b: int, name: Seq<char>) -> bool {
    &&& 0 <= a <= b <= s.len()
    &&& a == 0 || s[a - 1] == AMPERSAND
    &&& b == s.len() || s[b] == EQUALS
    &&& forall|j: int| a <= j < b ==> #[trigger] s[j] != EQUALS
    &&& spec_str_get(s, a, b) matches Some(raw) && name == percent_decoded_lossy(decode_utf8(raw))
}

/// `name` is what the parser reads from some piece of the query `s`.
pub open spec fn is_decoded_piece(s: Seq<u8>, name: Seq<char>) -> bool {
    exists|a: int, b: int| #[trigger] is_name_piece(s, a, b, name)
}

/// Where a step may start: the start or the end of the query, or an `&`.
pub open spec fn is_step_start(s: Seq<u8>, from: int) -> bool {
    from == 0 || from == s.len() || (0 <= from < s.len() && s[from] == AMPERSAND)
}

proof fn lemma_step_name(s: Seq<u8>, from: int)
    requires
        valid_utf8(s),
        0 <= from <= s.len(),
        is_step_start(s, from),
    ensures
        spec_step(s, from).0 matches Some(item) ==> is_decoded_piece(s, item.0),
        is_step_start(s, spec_step(s, from).1),
{
    lemma_step_advances(s, from);
    lemma_run_end(s, from, AMPERSAND, true);
    match spec_take_while(s, from, AMPERSAND, true) {
        Some(start) => {
            lemma_run_end(s, start, EQUALS, false);
            let end = spec_take_name(s, from).0;
            if start > from {
                assert(s[start - 1] == AMPERSAND);
            }
            if let Some(item) = spec_step(s, from).0 {
                assert(spec_take_name(s, from).1 == Some(item.0));
                assert(is_name_piece(s, start, end, item.0));
            }
            lemma_run_end(s, end, EQUALS, true);
            match spec_take_while(s, end, EQUALS, true) {
                Some(vstart) => {
                    lemma_run_end(s, vstart, AMPERSAND, false);
                },
                None => {},
            }
        },
        None => {},
    }
}

/// Every name the parser reads is the lossy percent-decoding of a piece of
/// the query, and nothing more: the piece starts the query or follows an
/// `&`, holds no `=`, and ends at an `=` or at the end of the query.
pub proof fn lemma_names_are_decoded_pieces(s: Seq<u8>, from: int)
    requires
        valid_utf8(s),
        0 <= from <= s.len(),
        is_step_start(s, from),
    ensures
        forall|i: int|
            0 <= i < spec_items_from(s, from).len() ==> is_decoded_piece(s, (#[trigger] spec_items_from(s, from)[i]).0),
    decreases s.len() - from,
{
    match spec_step(s, from).0 {
        Some(item) => {
            lemma_step_advances(s, from);
            lemma_step_name(s, from);
            let next = spec_step(s, from).1;
            lemma_names_are_decoded_pieces(s, next);
            let items = spec_items_from(s, from);
            assert(items == seq![item] + spec_items_from(s, next));
            assert forall|i: int| 0 <= i < items.len() implies is_decoded_piece(s, (#[trigger] items[i]).0) by {
                if i > 0 {
                    assert(items[i] == spec_items_from(s, next)[i - 1]);
                } else {
                    assert(items[0] == item);
                }
            }
        },
        None => {},
    }
}

/// The names of the parameters of a query are lossy percent-decodings of
/// pieces of it, as `lemma_names_are_decoded_pieces` says.
pub proof fn lemma_query_names(input: &str)
    ensures
        forall|i: int|
            0 <= i < spec_query_items(input).len() ==> is_decoded_piece(
                input.spec_bytes(),
                (#[trigger] spec_query_items(input)[i]).0,
            ),
{
    lemma_view_is_decoded_bytes(input);
    lemma_names_are_decoded_pieces(input.spec_bytes(), 0);
}

/// A query parameter as a pair of its decoded name and value range.
pub open spec fn item_view(item: (Cow<str>, Option<QueryParamRange>)) -> (Seq<char>, Option<QueryParamRange>) {
    (item.0@, item.1)
}

/// An iterator-like reader of the parameters of a query string.
pub struct QueryParser<'a> {
    input: &'a str,
    from: usize,
}

/// The end of the run of bytes for which `(byte == delim) == equal` that
/// starts at the byte offset `from`.
fn take_while(input: &str, from: usize, delim: u8, equal: bool) -> (r: Option<usize>)
    ensures
        r is Some <==> spec_take_while(input.spec_bytes(), from as int, delim, equal) is Some,
        r matches Some(k) ==> spec_take_while(input.spec_bytes(), from as int, delim, equal) == Some(
            k as int,
        ),
{
    match str_get_from(input, from) {
        None => return None,
        Some(_) => {},
    }
    let bytes = input.as_bytes();
    let mut i: usize = from;
    while i < bytes.len()
        invariant
            bytes@ == input.spec_bytes(),
            from <= i <= bytes@.len(),
            spec_str_get(bytes@, from as int, bytes@.len() as int) is Some,
            run_end(bytes@, from as int, delim, equal) == run_end(bytes@, i as int, delim, equal),
        decreases bytes@.len() - i,
    {
        if (bytes[i] == delim) != equal {
            return Some(i);
        }
        i = i + 1;
    }
    None
}

/// Reads a parameter name from `from`: returns where it ends and the decoded
/// name.
fn take_name<'a>(input: &'a str, from: usize) -> (r: (usize, Option<Cow<'a, str>>))
    ensures
        r.0 == spec_take_name(input.spec_bytes(), from as int).0,
        r.1 is Some <==> spec_take_name(input.spec_bytes(), from as int).1 is Some,
        r.1 matches Some(c) ==> spec_take_name(input.spec_bytes(), from as int).1 == Some(c@),
{
    let len = input.as_bytes().len();
    match take_while(input, from, AMPERSAND, true) {
        Some(start) => {
            let end = match take_while(input, start, EQUALS, false) {
                Some(e) => e,
                None => len,
            };
            let name = match str_get(input, start, end) {
                Some(slice) => {
                    proof {
                        lemma_view_is_decoded_bytes(slice);
                    }
                    Some(percent_decode_lossy(slice))
                },
                None => None,
            };
            (end, name)
        },
        None => (len, None),
    }
}

/// Reads a parameter value from `from`: returns where it ends and its range.
fn take_value(input: &str, from: usize) -> (r: (usize, Option<QueryParamRange>))
    ensures
        r.0 == spec_take_value(input.spec_bytes(), from as int).0,
        r.1 == spec_take_value(input.spec_bytes(), from as int).1,
{
    let len = input.as_bytes().len();
    match take_while(input, from, EQUALS, true) {
        Some(start) => match take_while(input, start, AMPERSAND, false) {
            Some(end) => (end, Some((Some(start), Some(end)))),
            None => (len, Some((Some(start), None))),
        },
        None => (len, None),
    }
}

impl<'a> QueryParser<'a> {
    /// The query being read.
    pub closed spec fn spec_input(self) -> &'a str {
        self.input
    }

    /// The byte offset where the next step starts.
    pub closed spec fn spec_from(self) -> int {
        self.from as int
    }

    /// A parser positioned at the start of `input`.
    pub fn new(input: &'a str) -> (r: Self)
        ensures
            r.spec_input() == input,
            r.spec_from() == 0,
    {
        QueryParser { input, from: 0 }
    }

    /// Reads the next parameter: its decoded name and the range of its
    /// value. `None` when no further name can be read.
    pub fn next(&mut self) -> (r: Option<(Cow<'a, str>, Option<QueryParamRange>)>)
        ensures
            final(self).spec_input() == old(self).spec_input(),
            final(self).spec_from() == spec_step(old(self).spec_input().spec_bytes(), old(self).spec_from()).1,
            r is Some <==> spec_step(old(self).spec_input().spec_bytes(), old(self).spec_from()).0 is Some,
            r matches Some(item) ==> spec_step(old(self).spec_input().spec_bytes(), old(self).spec_from()).0
                == Some(item_view(item)),
    {
        let (start, name) = take_name(self.input, self.from);
        let (end, at) = take_value(self.input, start);
        self.from = end;
        match name {
            Some(n) => Some((n, at)),
            None => None,
        }
    }
}

/// All the parameters of the query `input`, in order.
pub fn parse_query<'a>(input: &'a str) -> (r: Vec<(Cow<'a, str>, Option<QueryParamRange>)>)
    ensures
        r@.map_values(|item: (Cow<'a, str>, Option<QueryParamRange>)| item_view(item))
            == spec_query_items(input),
{
    let ghost s = input.spec_bytes();
    proof {
        lemma_view_is_decoded_bytes(input);
    }
    let mut parser = QueryParser::new(input);
    let mut items: Vec<(Cow<'a, str>, Option<QueryParamRange>)> = Vec::new();
    loop
        invariant
            s == input.spec_bytes(),
            valid_utf8(s),
            parser.spec_input() == input,
            0 <= parser.spec_from() <= s.len(),
            items@.map_values(|item: (Cow<'a, str>, Option<QueryParamRange>)| item_view(item))
                + spec_items_from(s, parser.spec_from()) == spec_items_from(s, 0),
        decreases s.len() - parser.spec_from(),
    {
        let ghost from = parser.spec_from();
        proof {
            lemma_step_advances(s, from);
        }
        match parser.next() {
            Some(item) => {
                let ghost before = items@;
                items.push(item);
                assert(items@.map_values(
                    |item: (Cow<'a, str>, Option<QueryParamRange>)| item_view(item),
                ) =~= before.map_values(
                    |item: (Cow<'a, str>, Option<QueryParamRange>)| item_view(item),
                ).push(item_view(item)));
                assert(spec_items_from(s, from) == seq![item_view(item)] + spec_items_from(
                    s,
                    parser.spec_from(),
                ));
                assert(items@.map_values(
                    |item: (Cow<'a, str>, Option<QueryParamRange>)| item_view(item),
                ) + spec_items_from(s, parser.spec_from()) =~= before.map_values(
                    |item: (Cow<'a, str>, Option<QueryParamRange>)| item_view(item),
                ) + spec_items_from(s, from));
            },
            None => {
                assert(spec_items_from(s, from) == Seq::<(Seq<char>, Option<QueryParamRange>)>::empty());
                assert(items@.map_values(
                    |item: (Cow<'a, str>, Option<QueryParamRange>)| item_view(item),
                ) =~= items@.map_values(
                    |item: (Cow<'a, str>, Option<QueryParamRange>)| item_view(item),
                ) + spec_items_from(s, from));
                return items;
            },
        }
    }
}

} // verus!
