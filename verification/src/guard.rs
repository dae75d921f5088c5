//! Request guards: composable predicates over bytes, header values, header
//! maps and request methods.
use vstd::prelude::*;

pub mod accept;
pub mod content_type;

use vstd::slice::slice_subrange;
use crate::error::Error;
use vstd::string::StringSliceAdditionalSpecFns;
use crate::text::{ascii_lowercase, str_eq};

verus! {

broadcast use vstd::slice::group_slice_axioms;

/// Why a predicate failed.
#[derive(Debug)]
pub enum ErrorKind {
    /// The named header is missing or its value does not match.
    Header(String),
    Match,
    Method,
    Not,
    Other(Error),
}

/// What a predicate sees of its input.
pub trait Inspect {
    type Model;

    spec fn model(&self) -> Self::Model;
}

impl Inspect for u8 {
    type Model = u8;

    open spec fn model(&self) -> u8 {
        *self
    }
}

impl Inspect for [u8] {
    type Model = Seq<u8>;

    open spec fn model(&self) -> Seq<u8> {
        self@
    }
}

impl Inspect for str {
    type Model = Seq<char>;

    open spec fn model(&self) -> Seq<char> {
        self@
    }
}

#[verifier::external_type_specification]
#[verifier::external_body]
#[verifier::reject_recursive_types(T)]
pub struct ExHeaderMap<T>(http::HeaderMap<T>);

#[verifier::external_type_specification]
#[verifier::external_body]
pub struct ExHeaderValue(http::HeaderValue);

/// The contents of a header map: for each (lower-case) header name, its
/// values in the order they were inserted.
pub uninterp spec fn header_map_contents(m: http::HeaderMap) -> Map<Seq<char>, Seq<Seq<u8>>>;

/// The most names a header map may hold and still surely take one more. The
/// map grows its table as it fills, and fails to (past its largest size)
/// only when it holds more names than this: with many colliding names it
/// doubles its table once it holds a fifth of its largest size.
pub const HEADER_MAP_ROOM: usize = 6553;

/// The first value of a header, if the map holds one.
pub open spec fn first_header_value(m: Map<Seq<char>, Seq<Seq<u8>>>, name: Seq<char>) -> Option<Seq<u8>> {
    if m.contains_key(name) && m[name].len() > 0 {
        Some(m[name][0])
    } else {
        None
    }
}

/// A header name in the form `http::HeaderName` keeps: one or more token
/// characters, lower case.
pub open spec fn is_lower_header_name(name: Seq<char>) -> bool {
    1 <= name.len() <= 65535 && forall|i: int|
        0 <= i < name.len() ==> is_header_name_char(#[trigger] name[i]) && !('A' <= name[i] <= 'Z')
}

/// A character that `http::HeaderName::from_bytes` accepts.
pub open spec fn is_header_name_char(c: char) -> bool {
    c == '!' || c == '#' || c == '$' || c == '%' || c == '&' || c == '\'' || c == '*' || c
        == '+' || c == '-' || c == '.' || c == '^' || c == '_' || c == '`' || c == '|' || c
        == '~' || ('0' <= c <= '9') || ('a' <= c <= 'z') || ('A' <= c <= 'Z')
}

/// A name that `http::HeaderName::from_bytes` accepts.
pub open spec fn is_valid_header_name(name: Seq<char>) -> bool {
    1 <= name.len() <= 65535 && forall|i: int|
        0 <= i < name.len() ==> is_header_name_char(#[trigger] name[i])
}

/// Calls `http::HeaderMap::get` with a lower-case header name and reads the
/// bytes of the value. Its source returns the first value inserted under the
/// name.
#[verifier::external_body]
pub(crate) fn header_get<'a>(headers: &'a http::HeaderMap, name: &str) -> (r: Option<&'a [u8]>)
    requires
        is_lower_header_name(name@),
    ensures
        r is Some <==> first_header_value(header_map_contents(*headers), name@) is Some,
        r matches Some(v) ==> first_header_value(header_map_contents(*headers), name@) == Some(v@),
{
    match headers.get(name) {
        Some(value) => Some(value.as_bytes()),
        None => None,
    }
}

/// Calls `http::HeaderName::from_bytes` and keeps the name it builds. Its
/// source accepts one to 65535 header name characters and lower-cases them.
#[verifier::external_body]
pub(crate) fn header_name(key: &str) -> (r: Option<String>)
    ensures
        r is Some <==> is_valid_header_name(key@),
        r matches Some(name) ==> name@ == ascii_lowercase(key@),
{
    match http::HeaderName::from_bytes(key.as_bytes()) {
        Ok(name) => Some(name.as_str().to_owned()),
        Err(_) => None,
    }
}

/// A byte that `http::HeaderValue` accepts: a tab, or a visible or space
/// byte other than DEL.
pub open spec fn is_header_value_byte(b: u8) -> bool {
    (b >= 32 && b != 127) || b == 9
}

/// Bytes that make a valid header value.
pub open spec fn is_header_value(bytes: Seq<u8>) -> bool {
    forall|i: int| 0 <= i < bytes.len() ==> is_header_value_byte(#[trigger] bytes[i])
}

/// The `Display` text of `http::header::InvalidHeaderValue`, which also is
/// the text of an `http::Error` that wraps it.
pub open spec fn invalid_header_value_message() -> Seq<char> {
    "failed to parse header value"@
}

/// Calls `http::HeaderValue::from_str`. Its source accepts exactly the
/// strings all of whose bytes are tabs or at least 32 and not 127; its error
/// writes one constant text.
#[verifier::external_body]
pub(crate) fn header_value_check(value: &str) -> (r: Result<(), String>)
    ensures
        r is Ok <==> is_header_value(value.spec_bytes()),
        r matches Err(m) ==> m@ == invalid_header_value_message(),
{
    match http::HeaderValue::from_str(value) {
        Ok(_) => Ok(()),
        Err(error) => Err(error.to_string()),
    }
}

impl Inspect for http::HeaderMap {
    type Model = Map<Seq<char>, Seq<Seq<u8>>>;

    open spec fn model(&self) -> Map<Seq<char>, Seq<Seq<u8>>> {
        header_map_contents(*self)
    }
}

/// A test on an input that either succeeds or says why it failed.
pub trait Predicate<Input: Inspect + ?Sized> {
    /// The outcome of the test on an input with the given model.
    spec fn judge(&self, input: Input::Model) -> Result<(), ErrorKind>;

    fn cmp(&self, input: &Input) -> (r: Result<(), ErrorKind>)
        ensures
            r == self.judge(input.model()),
    ;

    fn matches(&self, input: &Input) -> (r: bool)
        ensures
            r == (self.judge(input.model()) is Ok),
    {
        self.cmp(input).is_ok()
    }
}

/// The outcome of a test that either holds or fails with `Match`.
pub open spec fn outcome(holds: bool) -> Result<(), ErrorKind> {
    if holds {
        Ok(())
    } else {
        Err(ErrorKind::Match)
    }
}

// ---------------------------------------------------------------------------
// Bytes

/// `byte` is a token character (RFC 9110 `tchar`).
pub open spec fn is_tchar(byte: u8) -> bool {
    byte == 0x21 || (0x23 <= byte <= 0x27) || byte == 0x2A || byte == 0x2B || byte == 0x2D
        || byte == 0x2E || (0x30 <= byte <= 0x39) || (0x41 <= byte <= 0x5A) || (0x5E <= byte
        <= 0x7A) || byte == 0x7C || byte == 0x7E
}

/// Matches a comma.
pub struct Comma;

/// Matches a token character.
pub struct Tchar;

impl Predicate<u8> for Comma {
    open spec fn judge(&self, input: u8) -> Result<(), ErrorKind> {
        outcome(input == 0x2C)
    }

    fn cmp(&self, byte: &u8) -> (r: Result<(), ErrorKind>) {
        if *byte == 0x2C {
            Ok(())
        } else {
            Err(ErrorKind::Match)
        }
    }
}

impl Predicate<u8> for Tchar {
    open spec fn judge(&self, input: u8) -> Result<(), ErrorKind> {
        outcome(is_tchar(input))
    }

    fn cmp(&self, byte: &u8) -> (r: Result<(), ErrorKind>) {
        let b = *byte;
        if b == 0x21 || (0x23 <= b && b <= 0x27) || b == 0x2A || b == 0x2B || b == 0x2D || b
            == 0x2E || (0x30 <= b && b <= 0x39) || (0x41 <= b && b <= 0x5A) || (0x5E <= b && b
            <= 0x7A) || b == 0x7C || b == 0x7E {
            Ok(())
        } else {
            Err(ErrorKind::Match)
        }
    }
}

/// ASCII lower-casing of a byte.
pub open spec fn lower_byte(b: u8) -> u8 {
    if 0x41 <= b <= 0x5A {
        (b + 32) as u8
    } else {
        b
    }
}

/// Equality of byte strings up to ASCII case (`eq_ignore_ascii_case`).
pub open spec fn eq_ignore_ascii_case(a: Seq<u8>, b: Seq<u8>) -> bool {
    a.len() == b.len() && forall|i: int| 0 <= i < a.len() ==> lower_byte(#[trigger] a[i]) == lower_byte(b[i])
}

/// Matches a value equal to the given bytes.
pub struct CaseSensitive(Vec<u8>);

/// Matches a value that starts with the given bytes.
pub struct StartsWith(Vec<u8>);

/// Matches a value that ends with the given bytes.
pub struct EndsWith(Vec<u8>);

/// Matches a value equal to the given bytes up to ASCII case.
pub struct Tag(Vec<u8>);

impl CaseSensitive {
    pub closed spec fn spec_bytes(self) -> Seq<u8> {
        self.0@
    }
}

impl StartsWith {
    pub closed spec fn spec_bytes(self) -> Seq<u8> {
        self.0@
    }
}

impl EndsWith {
    pub closed spec fn spec_bytes(self) -> Seq<u8> {
        self.0@
    }
}

impl Tag {
    pub closed spec fn spec_bytes(self) -> Seq<u8> {
        self.0@
    }
}

fn to_vec(value: &[u8]) -> (r: Vec<u8>)
    ensures
        r@ == value@,
{
    let mut r = Vec::new();
    let mut i: usize = 0;
    while i < value.len()
        invariant
            i <= value@.len(),
            r@ == value@.subrange(0, i as int),
        decreases value@.len() - i,
    {
        r.push(value[i]);
        i = i + 1;
        assert(r@ =~= value@.subrange(0, i as int));
    }
    assert(value@.subrange(0, value@.len() as int) =~= value@);
    r
}

/// Matches a value equal to `value`.
pub fn case_sensitive(value: &[u8]) -> (r: CaseSensitive)
    ensures
        r.spec_bytes() == value@,
{
    CaseSensitive(to_vec(value))
}

/// Matches a value that starts with `prefix`.
pub fn starts_with(prefix: &[u8]) -> (r: StartsWith)
    ensures
        r.spec_bytes() == prefix@,
{
    StartsWith(to_vec(prefix))
}

/// Matches a value that ends with `suffix`.
pub fn ends_with(suffix: &[u8]) -> (r: EndsWith)
    ensures
        r.spec_bytes() == suffix@,
{
    EndsWith(to_vec(suffix))
}

/// Matches a value equal to `value` up to ASCII case.
pub fn tag(value: &[u8]) -> (r: Tag)
    ensures
        r.spec_bytes() == value@,
{
    Tag(to_vec(value))
}

/// Whether `a[offset..offset + b.len()]` equals `b`.
fn equal_at(a: &[u8], offset: usize, b: &[u8]) -> (r: bool)
    requires
        offset + b@.len() <= a@.len(),
    ensures
        r == (a@.subrange(offset as int, offset + b@.len()) == b@),
{
    let mut i: usize = 0;
    let a_len = a.len();
    while i < b.len()
        invariant
            a_len == a@.len(),
            offset + b@.len() <= a@.len(),
            i <= b@.len(),
            forall|j: int| 0 <= j < i ==> a@[offset + j] == b@[j],
        decreases b@.len() - i,
    {
        if a[offset + i] != b[i] {
            assert(a@.subrange(offset as int, offset + b@.len())[i as int] != b@[i as int]);
            return false;
        }
        i = i + 1;
    }
    assert(a@.subrange(offset as int, offset + b@.len()) =~= b@);
    true
}

/// `input` starts with `p`.
pub open spec fn has_prefix(input: Seq<u8>, p: Seq<u8>) -> bool {
    p.len() <= input.len() && input.subrange(0, p.len() as int) == p
}

/// `input` ends with `p`.
pub open spec fn has_suffix(input: Seq<u8>, p: Seq<u8>) -> bool {
    p.len() <= input.len() && input.subrange(input.len() - p.len(), input.len() as int) == p
}

fn same_bytes(value: &[u8], expected: &[u8]) -> (r: bool)
    ensures
        r == (expected@ == value@),
{
    if expected.len() == value.len() && equal_at(value, 0, expected) {
        assert(value@.subrange(0, value@.len() as int) =~= value@);
        true
    } else {
        proof {
            if expected@.len() == value@.len() {
                assert(value@.subrange(0, value@.len() as int) =~= value@);
            }
        }
        false
    }
}

fn prefix_of(value: &[u8], p: &[u8]) -> (r: bool)
    ensures
        r == has_prefix(value@, p@),
{
    p.len() <= value.len() && equal_at(value, 0, p)
}

fn suffix_of(value: &[u8], p: &[u8]) -> (r: bool)
    ensures
        r == has_suffix(value@, p@),
{
    p.len() <= value.len() && equal_at(value, value.len() - p.len(), p)
}

impl Predicate<[u8]> for CaseSensitive {
    open spec fn judge(&self, input: Seq<u8>) -> Result<(), ErrorKind> {
        outcome(self.spec_bytes() == input)
    }

    fn cmp(&self, value: &[u8]) -> (r: Result<(), ErrorKind>) {
        if same_bytes(value, self.0.as_slice()) {
            Ok(())
        } else {
            Err(ErrorKind::Match)
        }
    }
}

impl Predicate<[u8]> for StartsWith {
    open spec fn judge(&self, input: Seq<u8>) -> Result<(), ErrorKind> {
        outcome(has_prefix(input, self.spec_bytes()))
    }

    fn cmp(&self, value: &[u8]) -> (r: Result<(), ErrorKind>) {
        if prefix_of(value, self.0.as_slice()) {
            Ok(())
        } else {
            Err(ErrorKind::Match)
        }
    }
}

impl Predicate<[u8]> for EndsWith {
    open spec fn judge(&self, input: Seq<u8>) -> Result<(), ErrorKind> {
        outcome(has_suffix(input, self.spec_bytes()))
    }

    fn cmp(&self, value: &[u8]) -> (r: Result<(), ErrorKind>) {
        if suffix_of(value, self.0.as_slice()) {
            Ok(())
        } else {
            Err(ErrorKind::Match)
        }
    }
}

/// ASCII lower-casing of a byte (`u8::to_ascii_lowercase`).
fn to_lower_byte(b: u8) -> (r: u8)
    ensures
        r == lower_byte(b),
{
    if 0x41 <= b && b <= 0x5A {
        b + 32
    } else {
        b
    }
}

impl Predicate<[u8]> for Tag {
    open spec fn judge(&self, input: Seq<u8>) -> Result<(), ErrorKind> {
        outcome(eq_ignore_ascii_case(self.spec_bytes(), input))
    }

    fn cmp(&self, value: &[u8]) -> (r: Result<(), ErrorKind>) {
        if self.0.len() != value.len() {
            return Err(ErrorKind::Match);
        }
        let mut i: usize = 0;
        while i < value.len()
            invariant
                self.0@.len() == value@.len(),
                i <= value@.len(),
                forall|j: int| 0 <= j < i ==> lower_byte(#[trigger] self.0@[j]) == lower_byte(value@[j]),
            decreases value@.len() - i,
        {
            if to_lower_byte(self.0[i]) != to_lower_byte(value[i]) {
                return Err(ErrorKind::Match);
            }
            i = i + 1;
        }
        Ok(())
    }
}


// ---------------------------------------------------------------------------
// Combinators

/// Succeeds when every predicate of the tuple succeeds, trying them in order.
pub struct And<T>(T);

/// Succeeds when some predicate of the tuple succeeds, trying them in order.
pub struct Or<T>(T);

/// Succeeds when the predicate fails.
pub struct Not<T>(T);

/// Tests `predicate` only when `condition` succeeds.
pub struct When<T, U> {
    condition: T,
    predicate: U,
}

impl<T> And<T> {
    pub closed spec fn spec_list(self) -> T {
        self.0
    }
}

impl<T> Or<T> {
    pub closed spec fn spec_list(self) -> T {
        self.0
    }
}

impl<T> Not<T> {
    pub closed spec fn spec_inner(self) -> T {
        self.0
    }
}

impl<T, U> When<T, U> {
    pub closed spec fn spec_condition(self) -> T {
        self.condition
    }

    pub closed spec fn spec_predicate(self) -> U {
        self.predicate
    }
}

/// All of the predicates in `list`.
pub fn and<T>(list: T) -> (r: And<T>)
    ensures
        r.spec_list() == list,
{
    And(list)
}

/// The negation of `predicate`.
pub fn not<T>(predicate: T) -> (r: Not<T>)
    ensures
        r.spec_inner() == predicate,
{
    Not(predicate)
}

/// Any of the predicates in `list`.
pub fn or<T>(list: T) -> (r: Or<T>)
    ensures
        r.spec_list() == list,
{
    Or(list)
}

/// `predicate`, tested only when `condition` holds.
pub fn when<T, U>(condition: T, predicate: U) -> (r: When<T, U>)
    ensures
        r.spec_condition() == condition,
        r.spec_predicate() == predicate,
{
    When { condition, predicate }
}

/// The first failure of a sequence of outcomes, or success.
pub open spec fn and_then(a: Result<(), ErrorKind>, b: Result<(), ErrorKind>) -> Result<(), ErrorKind> {
    match a {
        Ok(()) => b,
        Err(e) => Err(e),
    }
}

/// The first success of a sequence of outcomes, or the last failure.
pub open spec fn or_else(a: Result<(), ErrorKind>, b: Result<(), ErrorKind>) -> Result<(), ErrorKind> {
    match a {
        Ok(()) => Ok(()),
        Err(_) => b,
    }
}

impl<Input: Inspect + ?Sized, T: Predicate<Input>> Predicate<Input> for Not<T> {
    open spec fn judge(&self, input: Input::Model) -> Result<(), ErrorKind> {
        if self.spec_inner().judge(input) is Ok {
            Err(ErrorKind::Not)
        } else {
            Ok(())
        }
    }

    fn cmp(&self, value: &Input) -> (r: Result<(), ErrorKind>) {
        if self.0.cmp(value).is_err() {
            Ok(())
        } else {
            Err(ErrorKind::Not)
        }
    }
}

impl<Input: Inspect + ?Sized, T: Predicate<Input>, U: Predicate<Input>> Predicate<Input> for When<T, U> {
    open spec fn judge(&self, input: Input::Model) -> Result<(), ErrorKind> {
        if self.spec_condition().judge(input) is Ok {
            self.spec_predicate().judge(input)
        } else {
            Ok(())
        }
    }

    fn cmp(&self, input: &Input) -> (r: Result<(), ErrorKind>) {
        if self.condition.cmp(input).is_ok() {
            self.predicate.cmp(input)
        } else {
            Ok(())
        }
    }
}

impl<Input: Inspect + ?Sized, A: Predicate<Input>, B: Predicate<Input>> Predicate<Input> for And<(A, B)> {
    open spec fn judge(&self, input: Input::Model) -> Result<(), ErrorKind> {
        and_then(self.spec_list().0.judge(input), self.spec_list().1.judge(input))
    }

    fn cmp(&self, input: &Input) -> (r: Result<(), ErrorKind>) {
        match self.0.0.cmp(input) {
            Ok(()) => {},
            Err(e) => return Err(e),
        }
        self.0.1.cmp(input)
    }
}

impl<Input: Inspect + ?Sized, A: Predicate<Input>, B: Predicate<Input>, C: Predicate<Input>> Predicate<Input> for And<(A, B, C)> {
    open spec fn judge(&self, input: Input::Model) -> Result<(), ErrorKind> {
        and_then(self.spec_list().0.judge(input), and_then(self.spec_list().1.judge(input), self.spec_list().2.judge(input)))
    }

    fn cmp(&self, input: &Input) -> (r: Result<(), ErrorKind>) {
        match self.0.0.cmp(input) {
            Ok(()) => {},
            Err(e) => return Err(e),
        }
        match self.0.1.cmp(input) {
            Ok(()) => {},
            Err(e) => return Err(e),
        }
        self.0.2.cmp(input)
    }
}

impl<Input: Inspect + ?Sized, A: Predicate<Input>, B: Predicate<Input>, C: Predicate<Input>, D: Predicate<Input>> Predicate<Input> for And<(A, B, C, D)> {
    open spec fn judge(&self, input: Input::Model) -> Result<(), ErrorKind> {
        and_then(self.spec_list().0.judge(input), and_then(self.spec_list().1.judge(input), and_then(self.spec_list().2.judge(input), self.spec_list().3.judge(input))))
    }

    fn cmp(&self, input: &Input) -> (r: Result<(), ErrorKind>) {
        match self.0.0.cmp(input) {
            Ok(()) => {},
            Err(e) => return Err(e),
        }
        match self.0.1.cmp(input) {
            Ok(()) => {},
            Err(e) => return Err(e),
        }
        match self.0.2.cmp(input) {
            Ok(()) => {},
            Err(e) => return Err(e),
        }
        self.0.3.cmp(input)
    }
}

impl<Input: Inspect + ?Sized, A: Predicate<Input>, B: Predicate<Input>, C: Predicate<Input>, D: Predicate<Input>, E: Predicate<Input>> Predicate<Input> for And<(A, B, C, D, E)> {
    open spec fn judge(&self, input: Input::Model) -> Result<(), ErrorKind> {
        and_then(self.spec_list().0.judge(input), and_then(self.spec_list().1.judge(input), and_then(self.spec_list().2.judge(input), and_then(self.spec_list().3.judge(input), self.spec_list().4.judge(input)))))
    }

    fn cmp(&self, input: &Input) -> (r: Result<(), ErrorKind>) {
        match self.0.0.cmp(input) {
            Ok(()) => {},
            Err(e) => return Err(e),
        }
        match self.0.1.cmp(input) {
            Ok(()) => {},
            Err(e) => return Err(e),
        }
        match self.0.2.cmp(input) {
            Ok(()) => {},
            Err(e) => return Err(e),
        }
        match self.0.3.cmp(input) {
            Ok(()) => {},
            Err(e) => return Err(e),
        }
        self.0.4.cmp(input)
    }
}

impl<Input: Inspect + ?Sized, A: Predicate<Input>, B: Predicate<Input>, C: Predicate<Input>, D: Predicate<Input>, E: Predicate<Input>, F: Predicate<Input>> Predicate<Input> for And<(A, B, C, D, E, F)> {
    open spec fn judge(&self, input: Input::Model) -> Result<(), ErrorKind> {
        and_then(self.spec_list().0.judge(input), and_then(self.spec_list().1.judge(input), and_then(self.spec_list().2.judge(input), and_then(self.spec_list().3.judge(input), and_then(self.spec_list().4.judge(input), self.spec_list().5.judge(input))))))
    }

    fn cmp(&self, input: &Input) -> (r: Result<(), ErrorKind>) {
        match self.0.0.cmp(input) {
            Ok(()) => {},
            Err(e) => return Err(e),
        }
        match self.0.1.cmp(input) {
            Ok(()) => {},
            Err(e) => return Err(e),
        }
        match self.0.2.cmp(input) {
            Ok(()) => {},
            Err(e) => return Err(e),
        }
        match self.0.3.cmp(input) {
            Ok(()) => {},
            Err(e) => return Err(e),
        }
        match self.0.4.cmp(input) {
            Ok(()) => {},
            Err(e) => return Err(e),
        }
        self.0.5.cmp(input)
    }
}

impl<Input: Inspect + ?Sized, A: Predicate<Input>, B: Predicate<Input>, C: Predicate<Input>, D: Predicate<Input>, E: Predicate<Input>, F: Predicate<Input>, G: Predicate<Input>> Predicate<Input> for And<(A, B, C, D, E, F, G)> {
    open spec fn judge(&self, input: Input::Model) -> Result<(), ErrorKind> {
        and_then(self.spec_list().0.judge(input), and_then(self.spec_list().1.judge(input), and_then(self.spec_list().2.judge(input), and_then(self.spec_list().3.judge(input), and_then(self.spec_list().4.judge(input), and_then(self.spec_list().5.judge(input), self.spec_list().6.judge(input)))))))
    }

    fn cmp(&self, input: &Input) -> (r: Result<(), ErrorKind>) {
        match self.0.0.cmp(input) {
            Ok(()) => {},
            Err(e) => return Err(e),
        }
        match self.0.1.cmp(input) {
            Ok(()) => {},
            Err(e) => return Err(e),
        }
        match self.0.2.cmp(input) {
            Ok(()) => {},
            Err(e) => return Err(e),
        }
        match self.0.3.cmp(input) {
            Ok(()) => {},
            Err(e) => return Err(e),
        }
        match self.0.4.cmp(input) {
            Ok(()) => {},
            Err(e) => return Err(e),
        }
        match self.0.5.cmp(input) {
            Ok(()) => {},
            Err(e) => return Err(e),
        }
        self.0.6.cmp(input)
    }
}

impl<Input: Inspect + ?Sized, A: Predicate<Input>, B: Predicate<Input>, C: Predicate<Input>, D: Predicate<Input>, E: Predicate<Input>, F: Predicate<Input>, G: Predicate<Input>, H: Predicate<Input>> Predicate<Input> for And<(A, B, C, D, E, F, G, H)> {
    open spec fn judge(&self, input: Input::Model) -> Result<(), ErrorKind> {
        and_then(self.spec_list().0.judge(input), and_then(self.spec_list().1.judge(input), and_then(self.spec_list().2.judge(input), and_then(self.spec_list().3.judge(input), and_then(self.spec_list().4.judge(input), and_then(self.spec_list().5.judge(input), and_then(self.spec_list().6.judge(input), self.spec_list().7.judge(input))))))))
    }

    fn cmp(&self, input: &Input) -> (r: Result<(), ErrorKind>) {
        match self.0.0.cmp(input) {
            Ok(()) => {},
            Err(e) => return Err(e),
        }
        match self.0.1.cmp(input) {
            Ok(()) => {},
            Err(e) => return Err(e),
        }
        match self.0.2.cmp(input) {
            Ok(()) => {},
            Err(e) => return Err(e),
        }
        match self.0.3.cmp(input) {
            Ok(()) => {},
            Err(e) => return Err(e),
        }
        match self.0.4.cmp(input) {
            Ok(()) => {},
            Err(e) => return Err(e),
        }
        match self.0.5.cmp(input) {
            Ok(()) => {},
            Err(e) => return Err(e),
        }
        match self.0.6.cmp(input) {
            Ok(()) => {},
            Err(e) => return Err(e),
        }
        self.0.7.cmp(input)
    }
}

impl<Input: Inspect + ?Sized, A: Predicate<Input>, B: Predicate<Input>, C: Predicate<Input>, D: Predicate<Input>, E: Predicate<Input>, F: Predicate<Input>, G: Predicate<Input>, H: Predicate<Input>, I: Predicate<Input>> Predicate<Input> for And<(A, B, C, D, E, F, G, H, I)> {
    open spec fn judge(&self, input: Input::Model) -> Result<(), ErrorKind> {
        and_then(self.spec_list().0.judge(input), and_then(self.spec_list().1.judge(input), and_then(self.spec_list().2.judge(input), and_then(self.spec_list().3.judge(input), and_then(self.spec_list().4.judge(input), and_then(self.spec_list().5.judge(input), and_then(self.spec_list().6.judge(input), and_then(self.spec_list().7.judge(input), self.spec_list().8.judge(input)))))))))
    }

    fn cmp(&self, input: &Input) -> (r: Result<(), ErrorKind>) {
        match self.0.0.cmp(input) {
            Ok(()) => {},
            Err(e) => return Err(e),
        }
        match self.0.1.cmp(input) {
            Ok(()) => {},
            Err(e) => return Err(e),
        }
        match self.0.2.cmp(input) {
            Ok(()) => {},
            Err(e) => return Err(e),
        }
        match self.0.3.cmp(input) {
            Ok(()) => {},
            Err(e) => return Err(e),
        }
        match self.0.4.cmp(input) {
            Ok(()) => {},
            Err(e) => return Err(e),
        }
        match self.0.5.cmp(input) {
            Ok(()) => {},
            Err(e) => return Err(e),
        }
        match self.0.6.cmp(input) {
            Ok(()) => {},
            Err(e) => return Err(e),
        }
        match self.0.7.cmp(input) {
            Ok(()) => {},
            Err(e) => return Err(e),
        }
        self.0.8.cmp(input)
    }
}

impl<Input: Inspect + ?Sized, A: Predicate<Input>, B: Predicate<Input>, C: Predicate<Input>, D: Predicate<Input>, E: Predicate<Input>, F: Predicate<Input>, G: Predicate<Input>, H: Predicate<Input>, I: Predicate<Input>, J: Predicate<Input>> Predicate<Input> for And<(A, B, C, D, E, F, G, H, I, J)> {
    open spec fn judge(&self, input: Input::Model) -> Result<(), ErrorKind> {
        and_then(self.spec_list().0.judge(input), and_then(self.spec_list().1.judge(input), and_then(self.spec_list().2.judge(input), and_then(self.spec_list().3.judge(input), and_then(self.spec_list().4.judge(input), and_then(self.spec_list().5.judge(input), and_then(self.spec_list().6.judge(input), and_then(self.spec_list().7.judge(input), and_then(self.spec_list().8.judge(input), self.spec_list().9.judge(input))))))))))
    }

    fn cmp(&self, input: &Input) -> (r: Result<(), ErrorKind>) {
        match self.0.0.cmp(input) {
            Ok(()) => {},
            Err(e) => return Err(e),
        }
        match self.0.1.cmp(input) {
            Ok(()) => {},
            Err(e) => return Err(e),
        }
        match self.0.2.cmp(input) {
            Ok(()) => {},
            Err(e) => return Err(e),
        }
        match self.0.3.cmp(input) {
            Ok(()) => {},
            Err(e) => return Err(e),
        }
        match self.0.4.cmp(input) {
            Ok(()) => {},
            Err(e) => return Err(e),
        }
        match self.0.5.cmp(input) {
            Ok(()) => {},
            Err(e) => return Err(e),
        }
        match self.0.6.cmp(input) {
            Ok(()) => {},
            Err(e) => return Err(e),
        }
        match self.0.7.cmp(input) {
            Ok(()) => {},
            Err(e) => return Err(e),
        }
        match self.0.8.cmp(input) {
            Ok(()) => {},
            Err(e) => return Err(e),
        }
        self.0.9.cmp(input)
    }
}

impl<Input: Inspect + ?Sized, A: Predicate<Input>, B: Predicate<Input>, C: Predicate<Input>, D: Predicate<Input>, E: Predicate<Input>, F: Predicate<Input>, G: Predicate<Input>, H: Predicate<Input>, I: Predicate<Input>, J: Predicate<Input>, K: Predicate<Input>> Predicate<Input> for And<(A, B, C, D, E, F, G, H, I, J, K)> {
    open spec fn judge(&self, input: Input::Model) -> Result<(), ErrorKind> {
        and_then(self.spec_list().0.judge(input), and_then(self.spec_list().1.judge(input), and_then(self.spec_list().2.judge(input), and_then(self.spec_list().3.judge(input), and_then(self.spec_list().4.judge(input), and_then(self.spec_list().5.judge(input), and_then(self.spec_list().6.judge(input), and_then(self.spec_list().7.judge(input), and_then(self.spec_list().8.judge(input), and_then(self.spec_list().9.judge(input), self.spec_list().10.judge(input)))))))))))
    }

    fn cmp(&self, input: &Input) -> (r: Result<(), ErrorKind>) {
        match self.0.0.cmp(input) {
            Ok(()) => {},
            Err(e) => return Err(e),
        }
        match self.0.1.cmp(input) {
            Ok(()) => {},
            Err(e) => return Err(e),
        }
        match self.0.2.cmp(input) {
            Ok(()) => {},
            Err(e) => return Err(e),
        }
        match self.0.3.cmp(input) {
            Ok(()) => {},
            Err(e) => return Err(e),
        }
        match self.0.4.cmp(input) {
            Ok(()) => {},
            Err(e) => return Err(e),
        }
        match self.0.5.cmp(input) {
            Ok(()) => {},
            Err(e) => return Err(e),
        }
        match self.0.6.cmp(input) {
            Ok(()) => {},
            Err(e) => return Err(e),
        }
        match self.0.7.cmp(input) {
            Ok(()) => {},
            Err(e) => return Err(e),
        }
        match self.0.8.cmp(input) {
            Ok(()) => {},
            Err(e) => return Err(e),
        }
        match self.0.9.cmp(input) {
            Ok(()) => {},
            Err(e) => return Err(e),
        }
        self.0.10.cmp(input)
    }
}

impl<Input: Inspect + ?Sized, A: Predicate<Input>, B: Predicate<Input>, C: Predicate<Input>, D: Predicate<Input>, E: Predicate<Input>, F: Predicate<Input>, G: Predicate<Input>, H: Predicate<Input>, I: Predicate<Input>, J: Predicate<Input>, K: Predicate<Input>, L: Predicate<Input>> Predicate<Input> for And<(A, B, C, D, E, F, G, H, I, J, K, L)> {
    open spec fn judge(&self, input: Input::Model) -> Result<(), ErrorKind> {
        and_then(self.spec_list().0.judge(input), and_then(self.spec_list().1.judge(input), and_then(self.spec_list().2.judge(input), and_then(self.spec_list().3.judge(input), and_then(self.spec_list().4.judge(input), and_then(self.spec_list().5.judge(input), and_then(self.spec_list().6.judge(input), and_then(self.spec_list().7.judge(input), and_then(self.spec_list().8.judge(input), and_then(self.spec_list().9.judge(input), and_then(self.spec_list().10.judge(input), self.spec_list().11.judge(input))))))))))))
    }

    fn cmp(&self, input: &Input) -> (r: Result<(), ErrorKind>) {
        match self.0.0.cmp(input) {
            Ok(()) => {},
            Err(e) => return Err(e),
        }
        match self.0.1.cmp(input) {
            Ok(()) => {},
            Err(e) => return Err(e),
        }
        match self.0.2.cmp(input) {
            Ok(()) => {},
            Err(e) => return Err(e),
        }
        match self.0.3.cmp(input) {
            Ok(()) => {},
            Err(e) => return Err(e),
        }
        match self.0.4.cmp(input) {
            Ok(()) => {},
            Err(e) => return Err(e),
        }
        match self.0.5.cmp(input) {
            Ok(()) => {},
            Err(e) => return Err(e),
        }
        match self.0.6.cmp(input) {
            Ok(()) => {},
            Err(e) => return Err(e),
        }
        match self.0.7.cmp(input) {
            Ok(()) => {},
            Err(e) => return Err(e),
        }
        match self.0.8.cmp(input) {
            Ok(()) => {},
            Err(e) => return Err(e),
        }
        match self.0.9.cmp(input) {
            Ok(()) => {},
            Err(e) => return Err(e),
        }
        match self.0.10.cmp(input) {
            Ok(()) => {},
            Err(e) => return Err(e),
        }
        self.0.11.cmp(input)
    }
}

impl<Input: Inspect + ?Sized, A: Predicate<Input>, B: Predicate<Input>, C: Predicate<Input>, D: Predicate<Input>, E: Predicate<Input>, F: Predicate<Input>, G: Predicate<Input>, H: Predicate<Input>, I: Predicate<Input>, J: Predicate<Input>, K: Predicate<Input>, L: Predicate<Input>, M: Predicate<Input>> Predicate<Input> for And<(A, B, C, D, E, F, G, H, I, J, K, L, M)> {
    open spec fn judge(&self, input: Input::Model) -> Result<(), ErrorKind> {
        and_then(self.spec_list().0.judge(input), and_then(self.spec_list().1.judge(input), and_then(self.spec_list().2.judge(input), and_then(self.spec_list().3.judge(input), and_then(self.spec_list().4.judge(input), and_then(self.spec_list().5.judge(input), and_then(self.spec_list().6.judge(input), and_then(self.spec_list().7.judge(input), and_then(self.spec_list().8.judge(input), and_then(self.spec_list().9.judge(input), and_then(self.spec_list().10.judge(input), and_then(self.spec_list().11.judge(input), self.spec_list().12.judge(input)))))))))))))
    }

    fn cmp(&self, input: &Input) -> (r: Result<(), ErrorKind>) {
        match self.0.0.cmp(input) {
            Ok(()) => {},
            Err(e) => return Err(e),
        }
        match self.0.1.cmp(input) {
            Ok(()) => {},
            Err(e) => return Err(e),
        }
        match self.0.2.cmp(input) {
            Ok(()) => {},
            Err(e) => return Err(e),
        }
        match self.0.3.cmp(input) {
            Ok(()) => {},
            Err(e) => return Err(e),
        }
        match self.0.4.cmp(input) {
            Ok(()) => {},
            Err(e) => return Err(e),
        }
        match self.0.5.cmp(input) {
            Ok(()) => {},
            Err(e) => return Err(e),
        }
        match self.0.6.cmp(input) {
            Ok(()) => {},
            Err(e) => return Err(e),
        }
        match self.0.7.cmp(input) {
            Ok(()) => {},
            Err(e) => return Err(e),
        }
        match self.0.8.cmp(input) {
            Ok(()) => {},
            Err(e) => return Err(e),
        }
        match self.0.9.cmp(input) {
            Ok(()) => {},
            Err(e) => return Err(e),
        }
        match self.0.10.cmp(input) {
            Ok(()) => {},
            Err(e) => return Err(e),
        }
        match self.0.11.cmp(input) {
            Ok(()) => {},
            Err(e) => return Err(e),
        }
        self.0.12.cmp(input)
    }
}

impl<Input: Inspect + ?Sized, A: Predicate<Input>, B: Predicate<Input>, C: Predicate<Input>, D: Predicate<Input>, E: Predicate<Input>, F: Predicate<Input>, G: Predicate<Input>, H: Predicate<Input>, I: Predicate<Input>, J: Predicate<Input>, K: Predicate<Input>, L: Predicate<Input>, M: Predicate<Input>, N: Predicate<Input>> Predicate<Input> for And<(A, B, C, D, E, F, G, H, I, J, K, L, M, N)> {
    open spec fn judge(&self, input: Input::Model) -> Result<(), ErrorKind> {
        and_then(self.spec_list().0.judge(input), and_then(self.spec_list().1.judge(input), and_then(self.spec_list().2.judge(input), and_then(self.spec_list().3.judge(input), and_then(self.spec_list().4.judge(input), and_then(self.spec_list().5.judge(input), and_then(self.spec_list().6.judge(input), and_then(self.spec_list().7.judge(input), and_then(self.spec_list().8.judge(input), and_then(self.spec_list().9.judge(input), and_then(self.spec_list().10.judge(input), and_then(self.spec_list().11.judge(input), and_then(self.spec_list().12.judge(input), self.spec_list().13.judge(input))))))))))))))
    }

    fn cmp(&self, input: &Input) -> (r: Result<(), ErrorKind>) {
        match self.0.0.cmp(input) {
            Ok(()) => {},
            Err(e) => return Err(e),
        }
        match self.0.1.cmp(input) {
            Ok(()) => {},
            Err(e) => return Err(e),
        }
        match self.0.2.cmp(input) {
            Ok(()) => {},
            Err(e) => return Err(e),
        }
        match self.0.3.cmp(input) {
            Ok(()) => {},
            Err(e) => return Err(e),
        }
        match self.0.4.cmp(input) {
            Ok(()) => {},
            Err(e) => return Err(e),
        }
        match self.0.5.cmp(input) {
            Ok(()) => {},
            Err(e) => return Err(e),
        }
        match self.0.6.cmp(input) {
            Ok(()) => {},
            Err(e) => return Err(e),
        }
        match self.0.7.cmp(input) {
            Ok(()) => {},
            Err(e) => return Err(e),
        }
        match self.0.8.cmp(input) {
            Ok(()) => {},
            Err(e) => return Err(e),
        }
        match self.0.9.cmp(input) {
            Ok(()) => {},
            Err(e) => return Err(e),
        }
        match self.0.10.cmp(input) {
            Ok(()) => {},
            Err(e) => return Err(e),
        }
        match self.0.11.cmp(input) {
            Ok(()) => {},
            Err(e) => return Err(e),
        }
        match self.0.12.cmp(input) {
            Ok(()) => {},
            Err(e) => return Err(e),
        }
        self.0.13.cmp(input)
    }
}

impl<Input: Inspect + ?Sized, A: Predicate<Input>, B: Predicate<Input>, C: Predicate<Input>, D: Predicate<Input>, E: Predicate<Input>, F: Predicate<Input>, G: Predicate<Input>, H: Predicate<Input>, I: Predicate<Input>, J: Predicate<Input>, K: Predicate<Input>, L: Predicate<Input>, M: Predicate<Input>, N: Predicate<Input>, O: Predicate<Input>> Predicate<Input> for And<(A, B, C, D, E, F, G, H, I, J, K, L, M, N, O)> {
    open spec fn judge(&self, input: Input::Model) -> Result<(), ErrorKind> {
        and_then(self.spec_list().0.judge(input), and_then(self.spec_list().1.judge(input), and_then(self.spec_list().2.judge(input), and_then(self.spec_list().3.judge(input), and_then(self.spec_list().4.judge(input), and_then(self.spec_list().5.judge(input), and_then(self.spec_list().6.judge(input), and_then(self.spec_list().7.judge(input), and_then(self.spec_list().8.judge(input), and_then(self.spec_list().9.judge(input), and_then(self.spec_list().10.judge(input), and_then(self.spec_list().11.judge(input), and_then(self.spec_list().12.judge(input), and_then(self.spec_list().13.judge(input), self.spec_list().14.judge(input)))))))))))))))
    }

    fn cmp(&self, input: &Input) -> (r: Result<(), ErrorKind>) {
        match self.0.0.cmp(input) {
            Ok(()) => {},
            Err(e) => return Err(e),
        }
        match self.0.1.cmp(input) {
            Ok(()) => {},
            Err(e) => return Err(e),
        }
        match self.0.2.cmp(input) {
            Ok(()) => {},
            Err(e) => return Err(e),
        }
        match self.0.3.cmp(input) {
            Ok(()) => {},
            Err(e) => return Err(e),
        }
        match self.0.4.cmp(input) {
            Ok(()) => {},
            Err(e) => return Err(e),
        }
        match self.0.5.cmp(input) {
            Ok(()) => {},
            Err(e) => return Err(e),
        }
        match self.0.6.cmp(input) {
            Ok(()) => {},
            Err(e) => return Err(e),
        }
        match self.0.7.cmp(input) {
            Ok(()) => {},
            Err(e) => return Err(e),
        }
        match self.0.8.cmp(input) {
            Ok(()) => {},
            Err(e) => return Err(e),
        }
        match self.0.9.cmp(input) {
            Ok(()) => {},
            Err(e) => return Err(e),
        }
        match self.0.10.cmp(input) {
            Ok(()) => {},
            Err(e) => return Err(e),
        }
        match self.0.11.cmp(input) {
            Ok(()) => {},
            Err(e) => return Err(e),
        }
        match self.0.12.cmp(input) {
            Ok(()) => {},
            Err(e) => return Err(e),
        }
        match self.0.13.cmp(input) {
            Ok(()) => {},
            Err(e) => return Err(e),
        }
        self.0.14.cmp(input)
    }
}

impl<Input: Inspect + ?Sized, A: Predicate<Input>, B: Predicate<Input>, C: Predicate<Input>, D: Predicate<Input>, E: Predicate<Input>, F: Predicate<Input>, G: Predicate<Input>, H: Predicate<Input>, I: Predicate<Input>, J: Predicate<Input>, K: Predicate<Input>, L: Predicate<Input>, M: Predicate<Input>, N: Predicate<Input>, O: Predicate<Input>, P: Predicate<Input>> Predicate<Input> for And<(A, B, C, D, E, F, G, H, I, J, K, L, M, N, O, P)> {
    open spec fn judge(&self, input: Input::Model) -> Result<(), ErrorKind> {
        and_then(self.spec_list().0.judge(input), and_then(self.spec_list().1.judge(input), and_then(self.spec_list().2.judge(input), and_then(self.spec_list().3.judge(input), and_then(self.spec_list().4.judge(input), and_then(self.spec_list().5.judge(input), and_then(self.spec_list().6.judge(input), and_then(self.spec_list().7.judge(input), and_then(self.spec_list().8.judge(input), and_then(self.spec_list().9.judge(input), and_then(self.spec_list().10.judge(input), and_then(self.spec_list().11.judge(input), and_then(self.spec_list().12.judge(input), and_then(self.spec_list().13.judge(input), and_then(self.spec_list().14.judge(input), self.spec_list().15.judge(input))))))))))))))))
    }

    fn cmp(&self, input: &Input) -> (r: Result<(), ErrorKind>) {
        match self.0.0.cmp(input) {
            Ok(()) => {},
            Err(e) => return Err(e),
        }
        match self.0.1.cmp(input) {
            Ok(()) => {},
            Err(e) => return Err(e),
        }
        match self.0.2.cmp(input) {
            Ok(()) => {},
            Err(e) => return Err(e),
        }
        match self.0.3.cmp(input) {
            Ok(()) => {},
            Err(e) => return Err(e),
        }
        match self.0.4.cmp(input) {
            Ok(()) => {},
            Err(e) => return Err(e),
        }
        match self.0.5.cmp(input) {
            Ok(()) => {},
            Err(e) => return Err(e),
        }
        match self.0.6.cmp(input) {
            Ok(()) => {},
            Err(e) => return Err(e),
        }
        match self.0.7.cmp(input) {
            Ok(()) => {},
            Err(e) => return Err(e),
        }
        match self.0.8.cmp(input) {
            Ok(()) => {},
            Err(e) => return Err(e),
        }
        match self.0.9.cmp(input) {
            Ok(()) => {},
            Err(e) => return Err(e),
        }
        match self.0.10.cmp(input) {
            Ok(()) => {},
            Err(e) => return Err(e),
        }
        match self.0.11.cmp(input) {
            Ok(()) => {},
            Err(e) => return Err(e),
        }
        match self.0.12.cmp(input) {
            Ok(()) => {},
            Err(e) => return Err(e),
        }
        match self.0.13.cmp(input) {
            Ok(()) => {},
            Err(e) => return Err(e),
        }
        match self.0.14.cmp(input) {
            Ok(()) => {},
            Err(e) => return Err(e),
        }
        self.0.15.cmp(input)
    }
}

impl<Input: Inspect + ?Sized, A: Predicate<Input>, B: Predicate<Input>, C: Predicate<Input>, D: Predicate<Input>, E: Predicate<Input>, F: Predicate<Input>, G: Predicate<Input>, H: Predicate<Input>, I: Predicate<Input>, J: Predicate<Input>, K: Predicate<Input>, L: Predicate<Input>, M: Predicate<Input>, N: Predicate<Input>, O: Predicate<Input>, P: Predicate<Input>, Q: Predicate<Input>> Predicate<Input> for And<(A, B, C, D, E, F, G, H, I, J, K, L, M, N, O, P, Q)> {
    open spec fn judge(&self, input: Input::Model) -> Result<(), ErrorKind> {
        and_then(self.spec_list().0.judge(input), and_then(self.spec_list().1.judge(input), and_then(self.spec_list().2.judge(input), and_then(self.spec_list().3.judge(input), and_then(self.spec_list().4.judge(input), and_then(self.spec_list().5.judge(input), and_then(self.spec_list().6.judge(input), and_then(self.spec_list().7.judge(input), and_then(self.spec_list().8.judge(input), and_then(self.spec_list().9.judge(input), and_then(self.spec_list().10.judge(input), and_then(self.spec_list().11.judge(input), and_then(self.spec_list().12.judge(input), and_then(self.spec_list().13.judge(input), and_then(self.spec_list().14.judge(input), and_then(self.spec_list().15.judge(input), self.spec_list().16.judge(input)))))))))))))))))
    }

    fn cmp(&self, input: &Input) -> (r: Result<(), ErrorKind>) {
        match self.0.0.cmp(input) {
            Ok(()) => {},
            Err(e) => return Err(e),
        }
        match self.0.1.cmp(input) {
            Ok(()) => {},
            Err(e) => return Err(e),
        }
        match self.0.2.cmp(input) {
            Ok(()) => {},
            Err(e) => return Err(e),
        }
        match self.0.3.cmp(input) {
            Ok(()) => {},
            Err(e) => return Err(e),
        }
        match self.0.4.cmp(input) {
            Ok(()) => {},
            Err(e) => return Err(e),
        }
        match self.0.5.cmp(input) {
            Ok(()) => {},
            Err(e) => return Err(e),
        }
        match self.0.6.cmp(input) {
            Ok(()) => {},
            Err(e) => return Err(e),
        }
        match self.0.7.cmp(input) {
            Ok(()) => {},
            Err(e) => return Err(e),
        }
        match self.0.8.cmp(input) {
            Ok(()) => {},
            Err(e) => return Err(e),
        }
        match self.0.9.cmp(input) {
            Ok(()) => {},
            Err(e) => return Err(e),
        }
        match self.0.10.cmp(input) {
            Ok(()) => {},
            Err(e) => return Err(e),
        }
        match self.0.11.cmp(input) {
            Ok(()) => {},
            Err(e) => return Err(e),
        }
        match self.0.12.cmp(input) {
            Ok(()) => {},
            Err(e) => return Err(e),
        }
        match self.0.13.cmp(input) {
            Ok(()) => {},
            Err(e) => return Err(e),
        }
        match self.0.14.cmp(input) {
            Ok(()) => {},
            Err(e) => return Err(e),
        }
        match self.0.15.cmp(input) {
            Ok(()) => {},
            Err(e) => return Err(e),
        }
        self.0.16.cmp(input)
    }
}

impl<Input: Inspect + ?Sized, A: Predicate<Input>, B: Predicate<Input>, C: Predicate<Input>, D: Predicate<Input>, E: Predicate<Input>, F: Predicate<Input>, G: Predicate<Input>, H: Predicate<Input>, I: Predicate<Input>, J: Predicate<Input>, K: Predicate<Input>, L: Predicate<Input>, M: Predicate<Input>, N: Predicate<Input>, O: Predicate<Input>, P: Predicate<Input>, Q: Predicate<Input>, R: Predicate<Input>> Predicate<Input> for And<(A, B, C, D, E, F, G, H, I, J, K, L, M, N, O, P, Q, R)> {
    open spec fn judge(&self, input: Input::Model) -> Result<(), ErrorKind> {
        and_then(self.spec_list().0.judge(input), and_then(self.spec_list().1.judge(input), and_then(self.spec_list().2.judge(input), and_then(self.spec_list().3.judge(input), and_then(self.spec_list().4.judge(input), and_then(self.spec_list().5.judge(input), and_then(self.spec_list().6.judge(input), and_then(self.spec_list().7.judge(input), and_then(self.spec_list().8.judge(input), and_then(self.spec_list().9.judge(input), and_then(self.spec_list().10.judge(input), and_then(self.spec_list().11.judge(input), and_then(self.spec_list().12.judge(input), and_then(self.spec_list().13.judge(input), and_then(self.spec_list().14.judge(input), and_then(self.spec_list().15.judge(input), and_then(self.spec_list().16.judge(input), self.spec_list().17.judge(input))))))))))))))))))
    }

    fn cmp(&self, input: &Input) -> (r: Result<(), ErrorKind>) {
        match self.0.0.cmp(input) {
            Ok(()) => {},
            Err(e) => return Err(e),
        }
        match self.0.1.cmp(input) {
            Ok(()) => {},
            Err(e) => return Err(e),
        }
        match self.0.2.cmp(input) {
            Ok(()) => {},
            Err(e) => return Err(e),
        }
        match self.0.3.cmp(input) {
            Ok(()) => {},
            Err(e) => return Err(e),
        }
        match self.0.4.cmp(input) {
            Ok(()) => {},
            Err(e) => return Err(e),
        }
        match self.0.5.cmp(input) {
            Ok(()) => {},
            Err(e) => return Err(e),
        }
        match self.0.6.cmp(input) {
            Ok(()) => {},
            Err(e) => return Err(e),
        }
        match self.0.7.cmp(input) {
            Ok(()) => {},
            Err(e) => return Err(e),
        }
        match self.0.8.cmp(input) {
            Ok(()) => {},
            Err(e) => return Err(e),
        }
        match self.0.9.cmp(input) {
            Ok(()) => {},
            Err(e) => return Err(e),
        }
        match self.0.10.cmp(input) {
            Ok(()) => {},
            Err(e) => return Err(e),
        }
        match self.0.11.cmp(input) {
            Ok(()) => {},
            Err(e) => return Err(e),
        }
        match self.0.12.cmp(input) {
            Ok(()) => {},
            Err(e) => return Err(e),
        }
        match self.0.13.cmp(input) {
            Ok(()) => {},
            Err(e) => return Err(e),
        }
        match self.0.14.cmp(input) {
            Ok(()) => {},
            Err(e) => return Err(e),
        }
        match self.0.15.cmp(input) {
            Ok(()) => {},
            Err(e) => return Err(e),
        }
        match self.0.16.cmp(input) {
            Ok(()) => {},
            Err(e) => return Err(e),
        }
        self.0.17.cmp(input)
    }
}

impl<Input: Inspect + ?Sized, A: Predicate<Input>, B: Predicate<Input>, C: Predicate<Input>, D: Predicate<Input>, E: Predicate<Input>, F: Predicate<Input>, G: Predicate<Input>, H: Predicate<Input>, I: Predicate<Input>, J: Predicate<Input>, K: Predicate<Input>, L: Predicate<Input>, M: Predicate<Input>, N: Predicate<Input>, O: Predicate<Input>, P: Predicate<Input>, Q: Predicate<Input>, R: Predicate<Input>, S: Predicate<Input>> Predicate<Input> for And<(A, B, C, D, E, F, G, H, I, J, K, L, M, N, O, P, Q, R, S)> {
    open spec fn judge(&self, input: Input::Model) -> Result<(), ErrorKind> {
        and_then(self.spec_list().0.judge(input), and_then(self.spec_list().1.judge(input), and_then(self.spec_list().2.judge(input), and_then(self.spec_list().3.judge(input), and_then(self.spec_list().4.judge(input), and_then(self.spec_list().5.judge(input), and_then(self.spec_list().6.judge(input), and_then(self.spec_list().7.judge(input), and_then(self.spec_list().8.judge(input), and_then(self.spec_list().9.judge(input), and_then(self.spec_list().10.judge(input), and_then(self.spec_list().11.judge(input), and_then(self.spec_list().12.judge(input), and_then(self.spec_list().13.judge(input), and_then(self.spec_list().14.judge(input), and_then(self.spec_list().15.judge(input), and_then(self.spec_list().16.judge(input), and_then(self.spec_list().17.judge(input), self.spec_list().18.judge(input)))))))))))))))))))
    }

    fn cmp(&self, input: &Input) -> (r: Result<(), ErrorKind>) {
        match self.0.0.cmp(input) {
            Ok(()) => {},
            Err(e) => return Err(e),
        }
        match self.0.1.cmp(input) {
            Ok(()) => {},
            Err(e) => return Err(e),
        }
        match self.0.2.cmp(input) {
            Ok(()) => {},
            Err(e) => return Err(e),
        }
        match self.0.3.cmp(input) {
            Ok(()) => {},
            Err(e) => return Err(e),
        }
        match self.0.4.cmp(input) {
            Ok(()) => {},
            Err(e) => return Err(e),
        }
        match self.0.5.cmp(input) {
            Ok(()) => {},
            Err(e) => return Err(e),
        }
        match self.0.6.cmp(input) {
            Ok(()) => {},
            Err(e) => return Err(e),
        }
        match self.0.7.cmp(input) {
            Ok(()) => {},
            Err(e) => return Err(e),
        }
        match self.0.8.cmp(input) {
            Ok(()) => {},
            Err(e) => return Err(e),
        }
        match self.0.9.cmp(input) {
            Ok(()) => {},
            Err(e) => return Err(e),
        }
        match self.0.10.cmp(input) {
            Ok(()) => {},
            Err(e) => return Err(e),
        }
        match self.0.11.cmp(input) {
            Ok(()) => {},
            Err(e) => return Err(e),
        }
        match self.0.12.cmp(input) {
            Ok(()) => {},
            Err(e) => return Err(e),
        }
        match self.0.13.cmp(input) {
            Ok(()) => {},
            Err(e) => return Err(e),
        }
        match self.0.14.cmp(input) {
            Ok(()) => {},
            Err(e) => return Err(e),
        }
        match self.0.15.cmp(input) {
            Ok(()) => {},
            Err(e) => return Err(e),
        }
        match self.0.16.cmp(input) {
            Ok(()) => {},
            Err(e) => return Err(e),
        }
        match self.0.17.cmp(input) {
            Ok(()) => {},
            Err(e) => return Err(e),
        }
        self.0.18.cmp(input)
    }
}

impl<Input: Inspect + ?Sized, A: Predicate<Input>, B: Predicate<Input>, C: Predicate<Input>, D: Predicate<Input>, E: Predicate<Input>, F: Predicate<Input>, G: Predicate<Input>, H: Predicate<Input>, I: Predicate<Input>, J: Predicate<Input>, K: Predicate<Input>, L: Predicate<Input>, M: Predicate<Input>, N: Predicate<Input>, O: Predicate<Input>, P: Predicate<Input>, Q: Predicate<Input>, R: Predicate<Input>, S: Predicate<Input>, T: Predicate<Input>> Predicate<Input> for And<(A, B, C, D, E, F, G, H, I, J, K, L, M, N, O, P, Q, R, S, T)> {
    open spec fn judge(&self, input: Input::Model) -> Result<(), ErrorKind> {
        and_then(self.spec_list().0.judge(input), and_then(self.spec_list().1.judge(input), and_then(self.spec_list().2.judge(input), and_then(self.spec_list().3.judge(input), and_then(self.spec_list().4.judge(input), and_then(self.spec_list().5.judge(input), and_then(self.spec_list().6.judge(input), and_then(self.spec_list().7.judge(input), and_then(self.spec_list().8.judge(input), and_then(self.spec_list().9.judge(input), and_then(self.spec_list().10.judge(input), and_then(self.spec_list().11.judge(input), and_then(self.spec_list().12.judge(input), and_then(self.spec_list().13.judge(input), and_then(self.spec_list().14.judge(input), and_then(self.spec_list().15.judge(input), and_then(self.spec_list().16.judge(input), and_then(self.spec_list().17.judge(input), and_then(self.spec_list().18.judge(input), self.spec_list().19.judge(input))))))))))))))))))))
    }

    fn cmp(&self, input: &Input) -> (r: Result<(), ErrorKind>) {
        match self.0.0.cmp(input) {
            Ok(()) => {},
            Err(e) => return Err(e),
        }
        match self.0.1.cmp(input) {
            Ok(()) => {},
            Err(e) => return Err(e),
        }
        match self.0.2.cmp(input) {
            Ok(()) => {},
            Err(e) => return Err(e),
        }
        match self.0.3.cmp(input) {
            Ok(()) => {},
            Err(e) => return Err(e),
        }
        match self.0.4.cmp(input) {
            Ok(()) => {},
            Err(e) => return Err(e),
        }
        match self.0.5.cmp(input) {
            Ok(()) => {},
            Err(e) => return Err(e),
        }
        match self.0.6.cmp(input) {
            Ok(()) => {},
            Err(e) => return Err(e),
        }
        match self.0.7.cmp(input) {
            Ok(()) => {},
            Err(e) => return Err(e),
        }
        match self.0.8.cmp(input) {
            Ok(()) => {},
            Err(e) => return Err(e),
        }
        match self.0.9.cmp(input) {
            Ok(()) => {},
            Err(e) => return Err(e),
        }
        match self.0.10.cmp(input) {
            Ok(()) => {},
            Err(e) => return Err(e),
        }
        match self.0.11.cmp(input) {
            Ok(()) => {},
            Err(e) => return Err(e),
        }
        match self.0.12.cmp(input) {
            Ok(()) => {},
            Err(e) => return Err(e),
        }
        match self.0.13.cmp(input) {
            Ok(()) => {},
            Err(e) => return Err(e),
        }
        match self.0.14.cmp(input) {
            Ok(()) => {},
            Err(e) => return Err(e),
        }
        match self.0.15.cmp(input) {
            Ok(()) => {},
            Err(e) => return Err(e),
        }
        match self.0.16.cmp(input) {
            Ok(()) => {},
            Err(e) => return Err(e),
        }
        match self.0.17.cmp(input) {
            Ok(()) => {},
            Err(e) => return Err(e),
        }
        match self.0.18.cmp(input) {
            Ok(()) => {},
            Err(e) => return Err(e),
        }
        self.0.19.cmp(input)
    }
}

impl<Input: Inspect + ?Sized, A: Predicate<Input>, B: Predicate<Input>> Predicate<Input> for Or<(A, B)> {
    open spec fn judge(&self, input: Input::Model) -> Result<(), ErrorKind> {
        or_else(self.spec_list().0.judge(input), self.spec_list().1.judge(input))
    }

    fn cmp(&self, input: &Input) -> (r: Result<(), ErrorKind>) {
        if self.0.0.cmp(input).is_ok() {
            return Ok(());
        }
        self.0.1.cmp(input)
    }
}

impl<Input: Inspect + ?Sized, A: Predicate<Input>, B: Predicate<Input>, C: Predicate<Input>> Predicate<Input> for Or<(A, B, C)> {
    open spec fn judge(&self, input: Input::Model) -> Result<(), ErrorKind> {
        or_else(self.spec_list().0.judge(input), or_else(self.spec_list().1.judge(input), self.spec_list().2.judge(input)))
    }

    fn cmp(&self, input: &Input) -> (r: Result<(), ErrorKind>) {
        if self.0.0.cmp(input).is_ok() {
            return Ok(());
        }
        if self.0.1.cmp(input).is_ok() {
            return Ok(());
        }
        self.0.2.cmp(input)
    }
}

impl<Input: Inspect + ?Sized, A: Predicate<Input>, B: Predicate<Input>, C: Predicate<Input>, D: Predicate<Input>> Predicate<Input> for Or<(A, B, C, D)> {
    open spec fn judge(&self, input: Input::Model) -> Result<(), ErrorKind> {
        or_else(self.spec_list().0.judge(input), or_else(self.spec_list().1.judge(input), or_else(self.spec_list().2.judge(input), self.spec_list().3.judge(input))))
    }

    fn cmp(&self, input: &Input) -> (r: Result<(), ErrorKind>) {
        if self.0.0.cmp(input).is_ok() {
            return Ok(());
        }
        if self.0.1.cmp(input).is_ok() {
            return Ok(());
        }
        if self.0.2.cmp(input).is_ok() {
            return Ok(());
        }
        self.0.3.cmp(input)
    }
}

impl<Input: Inspect + ?Sized, A: Predicate<Input>, B: Predicate<Input>, C: Predicate<Input>, D: Predicate<Input>, E: Predicate<Input>> Predicate<Input> for Or<(A, B, C, D, E)> {
    open spec fn judge(&self, input: Input::Model) -> Result<(), ErrorKind> {
        or_else(self.spec_list().0.judge(input), or_else(self.spec_list().1.judge(input), or_else(self.spec_list().2.judge(input), or_else(self.spec_list().3.judge(input), self.spec_list().4.judge(input)))))
    }

    fn cmp(&self, input: &Input) -> (r: Result<(), ErrorKind>) {
        if self.0.0.cmp(input).is_ok() {
            return Ok(());
        }
        if self.0.1.cmp(input).is_ok() {
            return Ok(());
        }
        if self.0.2.cmp(input).is_ok() {
            return Ok(());
        }
        if self.0.3.cmp(input).is_ok() {
            return Ok(());
        }
        self.0.4.cmp(input)
    }
}

impl<Input: Inspect + ?Sized, A: Predicate<Input>, B: Predicate<Input>, C: Predicate<Input>, D: Predicate<Input>, E: Predicate<Input>, F: Predicate<Input>> Predicate<Input> for Or<(A, B, C, D, E, F)> {
    open spec fn judge(&self, input: Input::Model) -> Result<(), ErrorKind> {
        or_else(self.spec_list().0.judge(input), or_else(self.spec_list().1.judge(input), or_else(self.spec_list().2.judge(input), or_else(self.spec_list().3.judge(input), or_else(self.spec_list().4.judge(input), self.spec_list().5.judge(input))))))
    }

    fn cmp(&self, input: &Input) -> (r: Result<(), ErrorKind>) {
        if self.0.0.cmp(input).is_ok() {
            return Ok(());
        }
        if self.0.1.cmp(input).is_ok() {
            return Ok(());
        }
        if self.0.2.cmp(input).is_ok() {
            return Ok(());
        }
        if self.0.3.cmp(input).is_ok() {
            return Ok(());
        }
        if self.0.4.cmp(input).is_ok() {
            return Ok(());
        }
        self.0.5.cmp(input)
    }
}

impl<Input: Inspect + ?Sized, A: Predicate<Input>, B: Predicate<Input>, C: Predicate<Input>, D: Predicate<Input>, E: Predicate<Input>, F: Predicate<Input>, G: Predicate<Input>> Predicate<Input> for Or<(A, B, C, D, E, F, G)> {
    open spec fn judge(&self, input: Input::Model) -> Result<(), ErrorKind> {
        or_else(self.spec_list().0.judge(input), or_else(self.spec_list().1.judge(input), or_else(self.spec_list().2.judge(input), or_else(self.spec_list().3.judge(input), or_else(self.spec_list().4.judge(input), or_else(self.spec_list().5.judge(input), self.spec_list().6.judge(input)))))))
    }

    fn cmp(&self, input: &Input) -> (r: Result<(), ErrorKind>) {
        if self.0.0.cmp(input).is_ok() {
            return Ok(());
        }
        if self.0.1.cmp(input).is_ok() {
            return Ok(());
        }
        if self.0.2.cmp(input).is_ok() {
            return Ok(());
        }
        if self.0.3.cmp(input).is_ok() {
            return Ok(());
        }
        if self.0.4.cmp(input).is_ok() {
            return Ok(());
        }
        if self.0.5.cmp(input).is_ok() {
            return Ok(());
        }
        self.0.6.cmp(input)
    }
}

impl<Input: Inspect + ?Sized, A: Predicate<Input>, B: Predicate<Input>, C: Predicate<Input>, D: Predicate<Input>, E: Predicate<Input>, F: Predicate<Input>, G: Predicate<Input>, H: Predicate<Input>> Predicate<Input> for Or<(A, B, C, D, E, F, G, H)> {
    open spec fn judge(&self, input: Input::Model) -> Result<(), ErrorKind> {
        or_else(self.spec_list().0.judge(input), or_else(self.spec_list().1.judge(input), or_else(self.spec_list().2.judge(input), or_else(self.spec_list().3.judge(input), or_else(self.spec_list().4.judge(input), or_else(self.spec_list().5.judge(input), or_else(self.spec_list().6.judge(input), self.spec_list().7.judge(input))))))))
    }

    fn cmp(&self, input: &Input) -> (r: Result<(), ErrorKind>) {
        if self.0.0.cmp(input).is_ok() {
            return Ok(());
        }
        if self.0.1.cmp(input).is_ok() {
            return Ok(());
        }
        if self.0.2.cmp(input).is_ok() {
            return Ok(());
        }
        if self.0.3.cmp(input).is_ok() {
            return Ok(());
        }
        if self.0.4.cmp(input).is_ok() {
            return Ok(());
        }
        if self.0.5.cmp(input).is_ok() {
            return Ok(());
        }
        if self.0.6.cmp(input).is_ok() {
            return Ok(());
        }
        self.0.7.cmp(input)
    }
}

impl<Input: Inspect + ?Sized, A: Predicate<Input>, B: Predicate<Input>, C: Predicate<Input>, D: Predicate<Input>, E: Predicate<Input>, F: Predicate<Input>, G: Predicate<Input>, H: Predicate<Input>, I: Predicate<Input>> Predicate<Input> for Or<(A, B, C, D, E, F, G, H, I)> {
    open spec fn judge(&self, input: Input::Model) -> Result<(), ErrorKind> {
        or_else(self.spec_list().0.judge(input), or_else(self.spec_list().1.judge(input), or_else(self.spec_list().2.judge(input), or_else(self.spec_list().3.judge(input), or_else(self.spec_list().4.judge(input), or_else(self.spec_list().5.judge(input), or_else(self.spec_list().6.judge(input), or_else(self.spec_list().7.judge(input), self.spec_list().8.judge(input)))))))))
    }

    fn cmp(&self, input: &Input) -> (r: Result<(), ErrorKind>) {
        if self.0.0.cmp(input).is_ok() {
            return Ok(());
        }
        if self.0.1.cmp(input).is_ok() {
            return Ok(());
        }
        if self.0.2.cmp(input).is_ok() {
            return Ok(());
        }
        if self.0.3.cmp(input).is_ok() {
            return Ok(());
        }
        if self.0.4.cmp(input).is_ok() {
            return Ok(());
        }
        if self.0.5.cmp(input).is_ok() {
            return Ok(());
        }
        if self.0.6.cmp(input).is_ok() {
            return Ok(());
        }
        if self.0.7.cmp(input).is_ok() {
            return Ok(());
        }
        self.0.8.cmp(input)
    }
}

impl<Input: Inspect + ?Sized, A: Predicate<Input>, B: Predicate<Input>, C: Predicate<Input>, D: Predicate<Input>, E: Predicate<Input>, F: Predicate<Input>, G: Predicate<Input>, H: Predicate<Input>, I: Predicate<Input>, J: Predicate<Input>> Predicate<Input> for Or<(A, B, C, D, E, F, G, H, I, J)> {
    open spec fn judge(&self, input: Input::Model) -> Result<(), ErrorKind> {
        or_else(self.spec_list().0.judge(input), or_else(self.spec_list().1.judge(input), or_else(self.spec_list().2.judge(input), or_else(self.spec_list().3.judge(input), or_else(self.spec_list().4.judge(input), or_else(self.spec_list().5.judge(input), or_else(self.spec_list().6.judge(input), or_else(self.spec_list().7.judge(input), or_else(self.spec_list().8.judge(input), self.spec_list().9.judge(input))))))))))
    }

    fn cmp(&self, input: &Input) -> (r: Result<(), ErrorKind>) {
        if self.0.0.cmp(input).is_ok() {
            return Ok(());
        }
        if self.0.1.cmp(input).is_ok() {
            return Ok(());
        }
        if self.0.2.cmp(input).is_ok() {
            return Ok(());
        }
        if self.0.3.cmp(input).is_ok() {
            return Ok(());
        }
        if self.0.4.cmp(input).is_ok() {
            return Ok(());
        }
        if self.0.5.cmp(input).is_ok() {
            return Ok(());
        }
        if self.0.6.cmp(input).is_ok() {
            return Ok(());
        }
        if self.0.7.cmp(input).is_ok() {
            return Ok(());
        }
        if self.0.8.cmp(input).is_ok() {
            return Ok(());
        }
        self.0.9.cmp(input)
    }
}

impl<Input: Inspect + ?Sized, A: Predicate<Input>, B: Predicate<Input>, C: Predicate<Input>, D: Predicate<Input>, E: Predicate<Input>, F: Predicate<Input>, G: Predicate<Input>, H: Predicate<Input>, I: Predicate<Input>, J: Predicate<Input>, K: Predicate<Input>> Predicate<Input> for Or<(A, B, C, D, E, F, G, H, I, J, K)> {
    open spec fn judge(&self, input: Input::Model) -> Result<(), ErrorKind> {
        or_else(self.spec_list().0.judge(input), or_else(self.spec_list().1.judge(input), or_else(self.spec_list().2.judge(input), or_else(self.spec_list().3.judge(input), or_else(self.spec_list().4.judge(input), or_else(self.spec_list().5.judge(input), or_else(self.spec_list().6.judge(input), or_else(self.spec_list().7.judge(input), or_else(self.spec_list().8.judge(input), or_else(self.spec_list().9.judge(input), self.spec_list().10.judge(input)))))))))))
    }

    fn cmp(&self, input: &Input) -> (r: Result<(), ErrorKind>) {
        if self.0.0.cmp(input).is_ok() {
            return Ok(());
        }
        if self.0.1.cmp(input).is_ok() {
            return Ok(());
        }
        if self.0.2.cmp(input).is_ok() {
            return Ok(());
        }
        if self.0.3.cmp(input).is_ok() {
            return Ok(());
        }
        if self.0.4.cmp(input).is_ok() {
            return Ok(());
        }
        if self.0.5.cmp(input).is_ok() {
            return Ok(());
        }
        if self.0.6.cmp(input).is_ok() {
            return Ok(());
        }
        if self.0.7.cmp(input).is_ok() {
            return Ok(());
        }
        if self.0.8.cmp(input).is_ok() {
            return Ok(());
        }
        if self.0.9.cmp(input).is_ok() {
            return Ok(());
        }
        self.0.10.cmp(input)
    }
}

impl<Input: Inspect + ?Sized, A: Predicate<Input>, B: Predicate<Input>, C: Predicate<Input>, D: Predicate<Input>, E: Predicate<Input>, F: Predicate<Input>, G: Predicate<Input>, H: Predicate<Input>, I: Predicate<Input>, J: Predicate<Input>, K: Predicate<Input>, L: Predicate<Input>> Predicate<Input> for Or<(A, B, C, D, E, F, G, H, I, J, K, L)> {
    open spec fn judge(&self, input: Input::Model) -> Result<(), ErrorKind> {
        or_else(self.spec_list().0.judge(input), or_else(self.spec_list().1.judge(input), or_else(self.spec_list().2.judge(input), or_else(self.spec_list().3.judge(input), or_else(self.spec_list().4.judge(input), or_else(self.spec_list().5.judge(input), or_else(self.spec_list().6.judge(input), or_else(self.spec_list().7.judge(input), or_else(self.spec_list().8.judge(input), or_else(self.spec_list().9.judge(input), or_else(self.spec_list().10.judge(input), self.spec_list().11.judge(input))))))))))))
    }

    fn cmp(&self, input: &Input) -> (r: Result<(), ErrorKind>) {
        if self.0.0.cmp(input).is_ok() {
            return Ok(());
        }
        if self.0.1.cmp(input).is_ok() {
            return Ok(());
        }
        if self.0.2.cmp(input).is_ok() {
            return Ok(());
        }
        if self.0.3.cmp(input).is_ok() {
            return Ok(());
        }
        if self.0.4.cmp(input).is_ok() {
            return Ok(());
        }
        if self.0.5.cmp(input).is_ok() {
            return Ok(());
        }
        if self.0.6.cmp(input).is_ok() {
            return Ok(());
        }
        if self.0.7.cmp(input).is_ok() {
            return Ok(());
        }
        if self.0.8.cmp(input).is_ok() {
            return Ok(());
        }
        if self.0.9.cmp(input).is_ok() {
            return Ok(());
        }
        if self.0.10.cmp(input).is_ok() {
            return Ok(());
        }
        self.0.11.cmp(input)
    }
}

impl<Input: Inspect + ?Sized, A: Predicate<Input>, B: Predicate<Input>, C: Predicate<Input>, D: Predicate<Input>, E: Predicate<Input>, F: Predicate<Input>, G: Predicate<Input>, H: Predicate<Input>, I: Predicate<Input>, J: Predicate<Input>, K: Predicate<Input>, L: Predicate<Input>, M: Predicate<Input>> Predicate<Input> for Or<(A, B, C, D, E, F, G, H, I, J, K, L, M)> {
    open spec fn judge(&self, input: Input::Model) -> Result<(), ErrorKind> {
        or_else(self.spec_list().0.judge(input), or_else(self.spec_list().1.judge(input), or_else(self.spec_list().2.judge(input), or_else(self.spec_list().3.judge(input), or_else(self.spec_list().4.judge(input), or_else(self.spec_list().5.judge(input), or_else(self.spec_list().6.judge(input), or_else(self.spec_list().7.judge(input), or_else(self.spec_list().8.judge(input), or_else(self.spec_list().9.judge(input), or_else(self.spec_list().10.judge(input), or_else(self.spec_list().11.judge(input), self.spec_list().12.judge(input)))))))))))))
    }

    fn cmp(&self, input: &Input) -> (r: Result<(), ErrorKind>) {
        if self.0.0.cmp(input).is_ok() {
            return Ok(());
        }
        if self.0.1.cmp(input).is_ok() {
            return Ok(());
        }
        if self.0.2.cmp(input).is_ok() {
            return Ok(());
        }
        if self.0.3.cmp(input).is_ok() {
            return Ok(());
        }
        if self.0.4.cmp(input).is_ok() {
            return Ok(());
        }
        if self.0.5.cmp(input).is_ok() {
            return Ok(());
        }
        if self.0.6.cmp(input).is_ok() {
            return Ok(());
        }
        if self.0.7.cmp(input).is_ok() {
            return Ok(());
        }
        if self.0.8.cmp(input).is_ok() {
            return Ok(());
        }
        if self.0.9.cmp(input).is_ok() {
            return Ok(());
        }
        if self.0.10.cmp(input).is_ok() {
            return Ok(());
        }
        if self.0.11.cmp(input).is_ok() {
            return Ok(());
        }
        self.0.12.cmp(input)
    }
}

impl<Input: Inspect + ?Sized, A: Predicate<Input>, B: Predicate<Input>, C: Predicate<Input>, D: Predicate<Input>, E: Predicate<Input>, F: Predicate<Input>, G: Predicate<Input>, H: Predicate<Input>, I: Predicate<Input>, J: Predicate<Input>, K: Predicate<Input>, L: Predicate<Input>, M: Predicate<Input>, N: Predicate<Input>> Predicate<Input> for Or<(A, B, C, D, E, F, G, H, I, J, K, L, M, N)> {
    open spec fn judge(&self, input: Input::Model) -> Result<(), ErrorKind> {
        or_else(self.spec_list().0.judge(input), or_else(self.spec_list().1.judge(input), or_else(self.spec_list().2.judge(input), or_else(self.spec_list().3.judge(input), or_else(self.spec_list().4.judge(input), or_else(self.spec_list().5.judge(input), or_else(self.spec_list().6.judge(input), or_else(self.spec_list().7.judge(input), or_else(self.spec_list().8.judge(input), or_else(self.spec_list().9.judge(input), or_else(self.spec_list().10.judge(input), or_else(self.spec_list().11.judge(input), or_else(self.spec_list().12.judge(input), self.spec_list().13.judge(input))))))))))))))
    }

    fn cmp(&self, input: &Input) -> (r: Result<(), ErrorKind>) {
        if self.0.0.cmp(input).is_ok() {
            return Ok(());
        }
        if self.0.1.cmp(input).is_ok() {
            return Ok(());
        }
        if self.0.2.cmp(input).is_ok() {
            return Ok(());
        }
        if self.0.3.cmp(input).is_ok() {
            return Ok(());
        }
        if self.0.4.cmp(input).is_ok() {
            return Ok(());
        }
        if self.0.5.cmp(input).is_ok() {
            return Ok(());
        }
        if self.0.6.cmp(input).is_ok() {
            return Ok(());
        }
        if self.0.7.cmp(input).is_ok() {
            return Ok(());
        }
        if self.0.8.cmp(input).is_ok() {
            return Ok(());
        }
        if self.0.9.cmp(input).is_ok() {
            return Ok(());
        }
        if self.0.10.cmp(input).is_ok() {
            return Ok(());
        }
        if self.0.11.cmp(input).is_ok() {
            return Ok(());
        }
        if self.0.12.cmp(input).is_ok() {
            return Ok(());
        }
        self.0.13.cmp(input)
    }
}

impl<Input: Inspect + ?Sized, A: Predicate<Input>, B: Predicate<Input>, C: Predicate<Input>, D: Predicate<Input>, E: Predicate<Input>, F: Predicate<Input>, G: Predicate<Input>, H: Predicate<Input>, I: Predicate<Input>, J: Predicate<Input>, K: Predicate<Input>, L: Predicate<Input>, M: Predicate<Input>, N: Predicate<Input>, O: Predicate<Input>> Predicate<Input> for Or<(A, B, C, D, E, F, G, H, I, J, K, L, M, N, O)> {
    open spec fn judge(&self, input: Input::Model) -> Result<(), ErrorKind> {
        or_else(self.spec_list().0.judge(input), or_else(self.spec_list().1.judge(input), or_else(self.spec_list().2.judge(input), or_else(self.spec_list().3.judge(input), or_else(self.spec_list().4.judge(input), or_else(self.spec_list().5.judge(input), or_else(self.spec_list().6.judge(input), or_else(self.spec_list().7.judge(input), or_else(self.spec_list().8.judge(input), or_else(self.spec_list().9.judge(input), or_else(self.spec_list().10.judge(input), or_else(self.spec_list().11.judge(input), or_else(self.spec_list().12.judge(input), or_else(self.spec_list().13.judge(input), self.spec_list().14.judge(input)))))))))))))))
    }

    fn cmp(&self, input: &Input) -> (r: Result<(), ErrorKind>) {
        if self.0.0.cmp(input).is_ok() {
            return Ok(());
        }
        if self.0.1.cmp(input).is_ok() {
            return Ok(());
        }
        if self.0.2.cmp(input).is_ok() {
            return Ok(());
        }
        if self.0.3.cmp(input).is_ok() {
            return Ok(());
        }
        if self.0.4.cmp(input).is_ok() {
            return Ok(());
        }
        if self.0.5.cmp(input).is_ok() {
            return Ok(());
        }
        if self.0.6.cmp(input).is_ok() {
            return Ok(());
        }
        if self.0.7.cmp(input).is_ok() {
            return Ok(());
        }
        if self.0.8.cmp(input).is_ok() {
            return Ok(());
        }
        if self.0.9.cmp(input).is_ok() {
            return Ok(());
        }
        if self.0.10.cmp(input).is_ok() {
            return Ok(());
        }
        if self.0.11.cmp(input).is_ok() {
            return Ok(());
        }
        if self.0.12.cmp(input).is_ok() {
            return Ok(());
        }
        if self.0.13.cmp(input).is_ok() {
            return Ok(());
        }
        self.0.14.cmp(input)
    }
}

impl<Input: Inspect + ?Sized, A: Predicate<Input>, B: Predicate<Input>, C: Predicate<Input>, D: Predicate<Input>, E: Predicate<Input>, F: Predicate<Input>, G: Predicate<Input>, H: Predicate<Input>, I: Predicate<Input>, J: Predicate<Input>, K: Predicate<Input>, L: Predicate<Input>, M: Predicate<Input>, N: Predicate<Input>, O: Predicate<Input>, P: Predicate<Input>> Predicate<Input> for Or<(A, B, C, D, E, F, G, H, I, J, K, L, M, N, O, P)> {
    open spec fn judge(&self, input: Input::Model) -> Result<(), ErrorKind> {
        or_else(self.spec_list().0.judge(input), or_else(self.spec_list().1.judge(input), or_else(self.spec_list().2.judge(input), or_else(self.spec_list().3.judge(input), or_else(self.spec_list().4.judge(input), or_else(self.spec_list().5.judge(input), or_else(self.spec_list().6.judge(input), or_else(self.spec_list().7.judge(input), or_else(self.spec_list().8.judge(input), or_else(self.spec_list().9.judge(input), or_else(self.spec_list().10.judge(input), or_else(self.spec_list().11.judge(input), or_else(self.spec_list().12.judge(input), or_else(self.spec_list().13.judge(input), or_else(self.spec_list().14.judge(input), self.spec_list().15.judge(input))))))))))))))))
    }

    fn cmp(&self, input: &Input) -> (r: Result<(), ErrorKind>) {
        if self.0.0.cmp(input).is_ok() {
            return Ok(());
        }
        if self.0.1.cmp(input).is_ok() {
            return Ok(());
        }
        if self.0.2.cmp(input).is_ok() {
            return Ok(());
        }
        if self.0.3.cmp(input).is_ok() {
            return Ok(());
        }
        if self.0.4.cmp(input).is_ok() {
            return Ok(());
        }
        if self.0.5.cmp(input).is_ok() {
            return Ok(());
        }
        if self.0.6.cmp(input).is_ok() {
            return Ok(());
        }
        if self.0.7.cmp(input).is_ok() {
            return Ok(());
        }
        if self.0.8.cmp(input).is_ok() {
            return Ok(());
        }
        if self.0.9.cmp(input).is_ok() {
            return Ok(());
        }
        if self.0.10.cmp(input).is_ok() {
            return Ok(());
        }
        if self.0.11.cmp(input).is_ok() {
            return Ok(());
        }
        if self.0.12.cmp(input).is_ok() {
            return Ok(());
        }
        if self.0.13.cmp(input).is_ok() {
            return Ok(());
        }
        if self.0.14.cmp(input).is_ok() {
            return Ok(());
        }
        self.0.15.cmp(input)
    }
}

impl<Input: Inspect + ?Sized, A: Predicate<Input>, B: Predicate<Input>, C: Predicate<Input>, D: Predicate<Input>, E: Predicate<Input>, F: Predicate<Input>, G: Predicate<Input>, H: Predicate<Input>, I: Predicate<Input>, J: Predicate<Input>, K: Predicate<Input>, L: Predicate<Input>, M: Predicate<Input>, N: Predicate<Input>, O: Predicate<Input>, P: Predicate<Input>, Q: Predicate<Input>> Predicate<Input> for Or<(A, B, C, D, E, F, G, H, I, J, K, L, M, N, O, P, Q)> {
    open spec fn judge(&self, input: Input::Model) -> Result<(), ErrorKind> {
        or_else(self.spec_list().0.judge(input), or_else(self.spec_list().1.judge(input), or_else(self.spec_list().2.judge(input), or_else(self.spec_list().3.judge(input), or_else(self.spec_list().4.judge(input), or_else(self.spec_list().5.judge(input), or_else(self.spec_list().6.judge(input), or_else(self.spec_list().7.judge(input), or_else(self.spec_list().8.judge(input), or_else(self.spec_list().9.judge(input), or_else(self.spec_list().10.judge(input), or_else(self.spec_list().11.judge(input), or_else(self.spec_list().12.judge(input), or_else(self.spec_list().13.judge(input), or_else(self.spec_list().14.judge(input), or_else(self.spec_list().15.judge(input), self.spec_list().16.judge(input)))))))))))))))))
    }

    fn cmp(&self, input: &Input) -> (r: Result<(), ErrorKind>) {
        if self.0.0.cmp(input).is_ok() {
            return Ok(());
        }
        if self.0.1.cmp(input).is_ok() {
            return Ok(());
        }
        if self.0.2.cmp(input).is_ok() {
            return Ok(());
        }
        if self.0.3.cmp(input).is_ok() {
            return Ok(());
        }
        if self.0.4.cmp(input).is_ok() {
            return Ok(());
        }
        if self.0.5.cmp(input).is_ok() {
            return Ok(());
        }
        if self.0.6.cmp(input).is_ok() {
            return Ok(());
        }
        if self.0.7.cmp(input).is_ok() {
            return Ok(());
        }
        if self.0.8.cmp(input).is_ok() {
            return Ok(());
        }
        if self.0.9.cmp(input).is_ok() {
            return Ok(());
        }
        if self.0.10.cmp(input).is_ok() {
            return Ok(());
        }
        if self.0.11.cmp(input).is_ok() {
            return Ok(());
        }
        if self.0.12.cmp(input).is_ok() {
            return Ok(());
        }
        if self.0.13.cmp(input).is_ok() {
            return Ok(());
        }
        if self.0.14.cmp(input).is_ok() {
            return Ok(());
        }
        if self.0.15.cmp(input).is_ok() {
            return Ok(());
        }
        self.0.16.cmp(input)
    }
}

impl<Input: Inspect + ?Sized, A: Predicate<Input>, B: Predicate<Input>, C: Predicate<Input>, D: Predicate<Input>, E: Predicate<Input>, F: Predicate<Input>, G: Predicate<Input>, H: Predicate<Input>, I: Predicate<Input>, J: Predicate<Input>, K: Predicate<Input>, L: Predicate<Input>, M: Predicate<Input>, N: Predicate<Input>, O: Predicate<Input>, P: Predicate<Input>, Q: Predicate<Input>, R: Predicate<Input>> Predicate<Input> for Or<(A, B, C, D, E, F, G, H, I, J, K, L, M, N, O, P, Q, R)> {
    open spec fn judge(&self, input: Input::Model) -> Result<(), ErrorKind> {
        or_else(self.spec_list().0.judge(input), or_else(self.spec_list().1.judge(input), or_else(self.spec_list().2.judge(input), or_else(self.spec_list().3.judge(input), or_else(self.spec_list().4.judge(input), or_else(self.spec_list().5.judge(input), or_else(self.spec_list().6.judge(input), or_else(self.spec_list().7.judge(input), or_else(self.spec_list().8.judge(input), or_else(self.spec_list().9.judge(input), or_else(self.spec_list().10.judge(input), or_else(self.spec_list().11.judge(input), or_else(self.spec_list().12.judge(input), or_else(self.spec_list().13.judge(input), or_else(self.spec_list().14.judge(input), or_else(self.spec_list().15.judge(input), or_else(self.spec_list().16.judge(input), self.spec_list().17.judge(input))))))))))))))))))
    }

    fn cmp(&self, input: &Input) -> (r: Result<(), ErrorKind>) {
        if self.0.0.cmp(input).is_ok() {
            return Ok(());
        }
        if self.0.1.cmp(input).is_ok() {
            return Ok(());
        }
        if self.0.2.cmp(input).is_ok() {
            return Ok(());
        }
        if self.0.3.cmp(input).is_ok() {
            return Ok(());
        }
        if self.0.4.cmp(input).is_ok() {
            return Ok(());
        }
        if self.0.5.cmp(input).is_ok() {
            return Ok(());
        }
        if self.0.6.cmp(input).is_ok() {
            return Ok(());
        }
        if self.0.7.cmp(input).is_ok() {
            return Ok(());
        }
        if self.0.8.cmp(input).is_ok() {
            return Ok(());
        }
        if self.0.9.cmp(input).is_ok() {
            return Ok(());
        }
        if self.0.10.cmp(input).is_ok() {
            return Ok(());
        }
        if self.0.11.cmp(input).is_ok() {
            return Ok(());
        }
        if self.0.12.cmp(input).is_ok() {
            return Ok(());
        }
        if self.0.13.cmp(input).is_ok() {
            return Ok(());
        }
        if self.0.14.cmp(input).is_ok() {
            return Ok(());
        }
        if self.0.15.cmp(input).is_ok() {
            return Ok(());
        }
        if self.0.16.cmp(input).is_ok() {
            return Ok(());
        }
        self.0.17.cmp(input)
    }
}

impl<Input: Inspect + ?Sized, A: Predicate<Input>, B: Predicate<Input>, C: Predicate<Input>, D: Predicate<Input>, E: Predicate<Input>, F: Predicate<Input>, G: Predicate<Input>, H: Predicate<Input>, I: Predicate<Input>, J: Predicate<Input>, K: Predicate<Input>, L: Predicate<Input>, M: Predicate<Input>, N: Predicate<Input>, O: Predicate<Input>, P: Predicate<Input>, Q: Predicate<Input>, R: Predicate<Input>, S: Predicate<Input>> Predicate<Input> for Or<(A, B, C, D, E, F, G, H, I, J, K, L, M, N, O, P, Q, R, S)> {
    open spec fn judge(&self, input: Input::Model) -> Result<(), ErrorKind> {
        or_else(self.spec_list().0.judge(input), or_else(self.spec_list().1.judge(input), or_else(self.spec_list().2.judge(input), or_else(self.spec_list().3.judge(input), or_else(self.spec_list().4.judge(input), or_else(self.spec_list().5.judge(input), or_else(self.spec_list().6.judge(input), or_else(self.spec_list().7.judge(input), or_else(self.spec_list().8.judge(input), or_else(self.spec_list().9.judge(input), or_else(self.spec_list().10.judge(input), or_else(self.spec_list().11.judge(input), or_else(self.spec_list().12.judge(input), or_else(self.spec_list().13.judge(input), or_else(self.spec_list().14.judge(input), or_else(self.spec_list().15.judge(input), or_else(self.spec_list().16.judge(input), or_else(self.spec_list().17.judge(input), self.spec_list().18.judge(input)))))))))))))))))))
    }

    fn cmp(&self, input: &Input) -> (r: Result<(), ErrorKind>) {
        if self.0.0.cmp(input).is_ok() {
            return Ok(());
        }
        if self.0.1.cmp(input).is_ok() {
            return Ok(());
        }
        if self.0.2.cmp(input).is_ok() {
            return Ok(());
        }
        if self.0.3.cmp(input).is_ok() {
            return Ok(());
        }
        if self.0.4.cmp(input).is_ok() {
            return Ok(());
        }
        if self.0.5.cmp(input).is_ok() {
            return Ok(());
        }
        if self.0.6.cmp(input).is_ok() {
            return Ok(());
        }
        if self.0.7.cmp(input).is_ok() {
            return Ok(());
        }
        if self.0.8.cmp(input).is_ok() {
            return Ok(());
        }
        if self.0.9.cmp(input).is_ok() {
            return Ok(());
        }
        if self.0.10.cmp(input).is_ok() {
            return Ok(());
        }
        if self.0.11.cmp(input).is_ok() {
            return Ok(());
        }
        if self.0.12.cmp(input).is_ok() {
            return Ok(());
        }
        if self.0.13.cmp(input).is_ok() {
            return Ok(());
        }
        if self.0.14.cmp(input).is_ok() {
            return Ok(());
        }
        if self.0.15.cmp(input).is_ok() {
            return Ok(());
        }
        if self.0.16.cmp(input).is_ok() {
            return Ok(());
        }
        if self.0.17.cmp(input).is_ok() {
            return Ok(());
        }
        self.0.18.cmp(input)
    }
}

impl<Input: Inspect + ?Sized, A: Predicate<Input>, B: Predicate<Input>, C: Predicate<Input>, D: Predicate<Input>, E: Predicate<Input>, F: Predicate<Input>, G: Predicate<Input>, H: Predicate<Input>, I: Predicate<Input>, J: Predicate<Input>, K: Predicate<Input>, L: Predicate<Input>, M: Predicate<Input>, N: Predicate<Input>, O: Predicate<Input>, P: Predicate<Input>, Q: Predicate<Input>, R: Predicate<Input>, S: Predicate<Input>, T: Predicate<Input>> Predicate<Input> for Or<(A, B, C, D, E, F, G, H, I, J, K, L, M, N, O, P, Q, R, S, T)> {
    open spec fn judge(&self, input: Input::Model) -> Result<(), ErrorKind> {
        or_else(self.spec_list().0.judge(input), or_else(self.spec_list().1.judge(input), or_else(self.spec_list().2.judge(input), or_else(self.spec_list().3.judge(input), or_else(self.spec_list().4.judge(input), or_else(self.spec_list().5.judge(input), or_else(self.spec_list().6.judge(input), or_else(self.spec_list().7.judge(input), or_else(self.spec_list().8.judge(input), or_else(self.spec_list().9.judge(input), or_else(self.spec_list().10.judge(input), or_else(self.spec_list().11.judge(input), or_else(self.spec_list().12.judge(input), or_else(self.spec_list().13.judge(input), or_else(self.spec_list().14.judge(input), or_else(self.spec_list().15.judge(input), or_else(self.spec_list().16.judge(input), or_else(self.spec_list().17.judge(input), or_else(self.spec_list().18.judge(input), self.spec_list().19.judge(input))))))))))))))))))))
    }

    fn cmp(&self, input: &Input) -> (r: Result<(), ErrorKind>) {
        if self.0.0.cmp(input).is_ok() {
            return Ok(());
        }
        if self.0.1.cmp(input).is_ok() {
            return Ok(());
        }
        if self.0.2.cmp(input).is_ok() {
            return Ok(());
        }
        if self.0.3.cmp(input).is_ok() {
            return Ok(());
        }
        if self.0.4.cmp(input).is_ok() {
            return Ok(());
        }
        if self.0.5.cmp(input).is_ok() {
            return Ok(());
        }
        if self.0.6.cmp(input).is_ok() {
            return Ok(());
        }
        if self.0.7.cmp(input).is_ok() {
            return Ok(());
        }
        if self.0.8.cmp(input).is_ok() {
            return Ok(());
        }
        if self.0.9.cmp(input).is_ok() {
            return Ok(());
        }
        if self.0.10.cmp(input).is_ok() {
            return Ok(());
        }
        if self.0.11.cmp(input).is_ok() {
            return Ok(());
        }
        if self.0.12.cmp(input).is_ok() {
            return Ok(());
        }
        if self.0.13.cmp(input).is_ok() {
            return Ok(());
        }
        if self.0.14.cmp(input).is_ok() {
            return Ok(());
        }
        if self.0.15.cmp(input).is_ok() {
            return Ok(());
        }
        if self.0.16.cmp(input).is_ok() {
            return Ok(());
        }
        if self.0.17.cmp(input).is_ok() {
            return Ok(());
        }
        if self.0.18.cmp(input).is_ok() {
            return Ok(());
        }
        self.0.19.cmp(input)
    }
}


// ---------------------------------------------------------------------------
// Sequences

/// Whether a byte is ASCII white space (`u8::is_ascii_whitespace`).
pub open spec fn is_ascii_ws(b: u8) -> bool {
    b == 0x09 || b == 0x0A || b == 0x0C || b == 0x0D || b == 0x20
}

/// `s` without its leading ASCII white space.
pub open spec fn trim_start(s: Seq<u8>) -> Seq<u8>
    decreases s.len(),
{
    if s.len() > 0 && is_ascii_ws(s[0]) {
        trim_start(s.drop_first())
    } else {
        s
    }
}

/// `s` without its trailing ASCII white space.
pub open spec fn trim_end(s: Seq<u8>) -> Seq<u8>
    decreases s.len(),
{
    if s.len() > 0 && is_ascii_ws(s.last()) {
        trim_end(s.drop_last())
    } else {
        s
    }
}

/// `s` without leading and trailing ASCII white space (`trim_ascii`).
pub open spec fn trim_ascii(s: Seq<u8>) -> Seq<u8> {
    trim_end(trim_start(s))
}

/// The pieces of `v` between the bytes that `sep` matches, as
/// `slice::split` yields them.
pub open spec fn split_bytes<S: Predicate<u8>>(sep: S, v: Seq<u8>) -> Seq<Seq<u8>>
    decreases v.len(),
{
    if v.len() == 0 {
        seq![seq![]]
    } else {
        let init = split_bytes(sep, v.drop_last());
        if sep.judge(v.last()) is Ok {
            init.push(seq![])
        } else {
            init.update(init.len() - 1, init.last().push(v.last()))
        }
    }
}

/// Splitting yields at least one piece.
pub proof fn lemma_split_nonempty<S: Predicate<u8>>(sep: S, v: Seq<u8>)
    ensures
        split_bytes(sep, v).len() >= 1,
    decreases v.len(),
{
    if v.len() > 0 {
        lemma_split_nonempty(sep, v.drop_last());
    }
}

/// The bounds of `v[start..end]` once ASCII white space is trimmed.
fn trim_bounds(v: &[u8], start: usize, end: usize) -> (r: (usize, usize))
    requires
        start <= end <= v@.len(),
    ensures
        start <= r.0 <= r.1 <= end,
        v@.subrange(r.0 as int, r.1 as int) == trim_ascii(v@.subrange(start as int, end as int)),
{
    let mut lo = start;
    while lo < end && (v[lo] == 0x09 || v[lo] == 0x0A || v[lo] == 0x0C || v[lo] == 0x0D || v[lo] == 0x20)
        invariant
            start <= lo <= end <= v@.len(),
            trim_start(v@.subrange(start as int, end as int)) == trim_start(v@.subrange(lo as int, end as int)),
        decreases end - lo,
    {
        assert(v@.subrange(lo as int, end as int).drop_first() =~= v@.subrange(lo + 1, end as int));
        lo = lo + 1;
    }
    let mut hi = end;
    while hi > lo && (v[hi - 1] == 0x09 || v[hi - 1] == 0x0A || v[hi - 1] == 0x0C || v[hi - 1] == 0x0D || v[hi - 1] == 0x20)
        invariant
            start <= lo <= hi <= end <= v@.len(),
            trim_start(v@.subrange(start as int, end as int)) == v@.subrange(lo as int, end as int),
            trim_end(v@.subrange(lo as int, end as int)) == trim_end(v@.subrange(lo as int, hi as int)),
        decreases hi - lo,
    {
        assert(v@.subrange(lo as int, hi as int).drop_last() =~= v@.subrange(lo as int, hi - 1));
        hi = hi - 1;
    }
    (lo, hi)
}

/// Succeeds when `predicate` matches one of the pieces of the value between
/// the bytes that `separator` matches, trimmed of white space.
pub struct Has<T, U> {
    separator: T,
    predicate: U,
}

/// Succeeds if the predicate matches a comma separated value in the header.
pub struct Contains<T>(Has<Comma, T>);

/// Succeeds if the predicate matches one of the tokens in the header value.
pub struct Token<T>(Has<Not<Tchar>, T>);

impl<T, U> Has<T, U> {
    pub closed spec fn spec_separator(self) -> T {
        self.separator
    }

    pub closed spec fn spec_predicate(self) -> U {
        self.predicate
    }
}

impl<T> Contains<T> {
    pub closed spec fn spec_has(self) -> Has<Comma, T> {
        self.0
    }
}

impl<T> Token<T> {
    pub closed spec fn spec_has(self) -> Has<Not<Tchar>, T> {
        self.0
    }
}

/// Some piece of `v`, trimmed, satisfies `predicate`; when `nonempty`
/// holds, only the pieces that hold at least one byte count.
pub open spec fn some_piece<S: Predicate<u8>, P: Predicate<[u8]>>(sep: S, predicate: P, v: Seq<u8>, nonempty: bool) -> bool {
    exists|i: int|
        0 <= i < split_bytes(sep, v).len() && (!nonempty || split_bytes(sep, v)[i].len() > 0)
            && (#[trigger] predicate.judge(trim_ascii(split_bytes(sep, v)[i]))) is Ok
}

impl<T: Predicate<u8>, U: Predicate<[u8]>> Has<T, U> {
    /// Whether `predicate` matches `v[start..end]` trimmed of white space.
    fn piece_matches(&self, v: &[u8], start: usize, end: usize) -> (r: bool)
        requires
            start <= end <= v@.len(),
        ensures
            r == (self.spec_predicate().judge(trim_ascii(v@.subrange(start as int, end as int))) is Ok),
    {
        let (lo, hi) = trim_bounds(v, start, end);
        let piece = slice_subrange(v, lo, hi);
        self.predicate.matches(piece)
    }
}

impl<T: Predicate<u8>, U: Predicate<[u8]>> Predicate<[u8]> for Has<T, U> {
    open spec fn judge(&self, input: Seq<u8>) -> Result<(), ErrorKind> {
        outcome(some_piece(self.spec_separator(), self.spec_predicate(), input, false))
    }

    fn cmp(&self, value: &[u8]) -> (r: Result<(), ErrorKind>) {
        if self.find_piece(value, false) {
            Ok(())
        } else {
            Err(ErrorKind::Match)
        }
    }
}

impl<T: Predicate<u8>, U: Predicate<[u8]>> Has<T, U> {
    /// Whether some piece of `value`, trimmed, matches the predicate (only a
    /// piece of at least one byte when `nonempty` holds).
    fn find_piece(&self, value: &[u8], nonempty: bool) -> (r: bool)
        ensures
            r == some_piece(self.spec_separator(), self.spec_predicate(), value@, nonempty),
    {
        let ghost sep = self.spec_separator();
        let ghost pred = self.spec_predicate();
        let ghost mut done: Seq<Seq<u8>> = seq![];
        let mut start: usize = 0;
        let mut i: usize = 0;
        assert(value@.take(0) =~= seq![]);
        assert(value@.subrange(0, 0) =~= seq![]);
        assert(split_bytes(sep, value@.take(0)) =~= done.push(value@.subrange(0, 0)));
        while i < value.len()
            invariant
                sep == self.spec_separator(),
                pred == self.spec_predicate(),
                start <= i <= value@.len(),
                split_bytes(sep, value@.take(i as int)) =~= done.push(value@.subrange(start as int, i as int)),
                forall|j: int| 0 <= j < done.len() ==> !((!nonempty || done[j].len() > 0) && (#[trigger] pred.judge(trim_ascii(done[j]))) is Ok),
            decreases value@.len() - i,
        {
            let ghost prefix = value@.take(i + 1);
            assert(prefix.drop_last() =~= value@.take(i as int));
            assert(prefix.last() == value@[i as int]);
            if self.separator.matches(&value[i]) {
                if (!nonempty || start < i) && self.piece_matches(value, start, i) {
                    proof {
                        let segs = split_bytes(sep, value@);
                        lemma_split_prefix(sep, value@, i as int + 1);
                        let k = done.len() as int;
                        assert(split_bytes(sep, prefix) =~= done.push(value@.subrange(start as int, i as int)).push(seq![]));
                        assert(segs[k] == value@.subrange(start as int, i as int));
                        assert(pred.judge(trim_ascii(segs[k])) is Ok);
                    }
                    return true;
                }
                proof {
                    done = done.push(value@.subrange(start as int, i as int));
                    assert(value@.subrange(i + 1, i + 1) =~= seq![]);
                }
                start = i + 1;
            } else {
                proof {
                    assert(value@.subrange(start as int, i + 1) =~= value@.subrange(start as int, i as int).push(value@[i as int]));
                }
            }
            i = i + 1;
        }
        assert(value@.take(value@.len() as int) =~= value@);
        if (!nonempty || start < value.len()) && self.piece_matches(value, start, value.len()) {
            proof {
                let segs = split_bytes(sep, value@);
                assert(segs[done.len() as int] == value@.subrange(start as int, value@.len() as int));
            }
            true
        } else {
            proof {
                let segs = split_bytes(sep, value@);
                assert forall|j: int| 0 <= j < segs.len() implies !((!nonempty || segs[j].len() > 0) && (#[trigger] pred.judge(trim_ascii(segs[j]))) is Ok) by {
                    if j < done.len() {
                        assert(segs[j] == done[j]);
                    }
                }
            }
            false
        }
    }
}

/// The pieces of a prefix are a prefix of the pieces, except that the last
/// piece of the prefix may grow.
pub proof fn lemma_split_prefix<S: Predicate<u8>>(sep: S, v: Seq<u8>, n: int)
    requires
        0 <= n <= v.len(),
    ensures
        split_bytes(sep, v.take(n)).len() <= split_bytes(sep, v).len(),
        forall|j: int| 0 <= j < split_bytes(sep, v.take(n)).len() - 1 ==> #[trigger] split_bytes(sep, v)[j] == split_bytes(sep, v.take(n))[j],
    decreases v.len() - n,
{
    lemma_split_nonempty(sep, v.take(n));
    if n < v.len() {
        lemma_split_prefix(sep, v, n + 1);
        let p = v.take(n + 1);
        assert(p.drop_last() =~= v.take(n));
        lemma_split_nonempty(sep, v.take(n));
    } else {
        assert(v.take(n) =~= v);
    }
}

/// Trimming removes the ASCII white space (space, tab, line feed, form feed,
/// carriage return) around a value and nothing else: a value that neither
/// starts nor ends with white space comes back whole from between any runs
/// of white space, and a value of white space alone trims to nothing.
pub proof fn lemma_trim(p: Seq<u8>, x: Seq<u8>, q: Seq<u8>)
    requires
        forall|i: int| 0 <= i < p.len() ==> is_ascii_ws(#[trigger] p[i]),
        forall|i: int| 0 <= i < q.len() ==> is_ascii_ws(#[trigger] q[i]),
    ensures
        (x.len() == 0 || (!is_ascii_ws(x[0]) && !is_ascii_ws(x.last()))) ==> trim_ascii(p + x + q) == x,
        trim_ascii(p) == Seq::<u8>::empty(),
        is_ascii_ws(0x20) && is_ascii_ws(0x09) && !is_ascii_ws(0x2C) && !is_ascii_ws(0x41),
    decreases p.len() + q.len(),
{
    if p.len() > 0 {
        assert forall|i: int| 0 <= i < p.drop_first().len() implies is_ascii_ws(#[trigger] p.drop_first()[i]) by {
            assert(p.drop_first()[i] == p[i + 1]);
        }
        lemma_trim(p.drop_first(), x, q);
        assert((p + x + q).drop_first() =~= p.drop_first() + x + q);
        assert((p + x + q)[0] == p[0]);
        lemma_trim_start_ws(p);
        lemma_trim_end_ws(Seq::<u8>::empty());
    } else {
        lemma_trim_end_ws(p);
        assert(p =~= Seq::<u8>::empty());
        if x.len() == 0 || (!is_ascii_ws(x[0]) && !is_ascii_ws(x.last())) {
            assert(p + x + q =~= x + q);
            if x.len() == 0 {
                lemma_trim_start_ws(q);
                lemma_trim_end_ws(trim_start(q));
                assert(x =~= Seq::<u8>::empty());
            } else {
                assert((x + q)[0] == x[0]);
                lemma_trim_end_keeps(x, q);
            }
        }
    }
}

proof fn lemma_trim_start_ws(q: Seq<u8>)
    requires
        forall|i: int| 0 <= i < q.len() ==> is_ascii_ws(#[trigger] q[i]),
    ensures
        trim_start(q) == Seq::<u8>::empty(),
    decreases q.len(),
{
    if q.len() > 0 {
        assert forall|i: int| 0 <= i < q.drop_first().len() implies is_ascii_ws(#[trigger] q.drop_first()[i]) by {
            assert(q.drop_first()[i] == q[i + 1]);
        }
        lemma_trim_start_ws(q.drop_first());
        assert(is_ascii_ws(q[0]));
    } else {
        assert(q =~= Seq::<u8>::empty());
    }
}

proof fn lemma_trim_end_ws(q: Seq<u8>)
    requires
        forall|i: int| 0 <= i < q.len() ==> is_ascii_ws(#[trigger] q[i]),
    ensures
        trim_end(q) == Seq::<u8>::empty(),
    decreases q.len(),
{
    if q.len() > 0 {
        assert forall|i: int| 0 <= i < q.drop_last().len() implies is_ascii_ws(#[trigger] q.drop_last()[i]) by {
            assert(q.drop_last()[i] == q[i]);
        }
        lemma_trim_end_ws(q.drop_last());
        assert(is_ascii_ws(q[q.len() - 1]));
    } else {
        assert(q =~= Seq::<u8>::empty());
    }
}

proof fn lemma_trim_end_keeps(x: Seq<u8>, q: Seq<u8>)
    requires
        x.len() > 0,
        !is_ascii_ws(x.last()),
        forall|i: int| 0 <= i < q.len() ==> is_ascii_ws(#[trigger] q[i]),
    ensures
        trim_end(x + q) == x,
    decreases q.len(),
{
    if q.len() > 0 {
        assert forall|i: int| 0 <= i < q.drop_last().len() implies is_ascii_ws(#[trigger] q.drop_last()[i]) by {
            assert(q.drop_last()[i] == q[i]);
        }
        lemma_trim_end_keeps(x, q.drop_last());
        assert((x + q).drop_last() =~= x + q.drop_last());
        assert((x + q).last() == q.last());
        assert(is_ascii_ws(q[q.len() - 1]));
    } else {
        assert(x + q =~= x);
    }
}

/// Splitting at a separator byte: the pieces of `a`, the separator, then
/// `b` are the pieces of `a` followed by those of `b`.
proof fn lemma_split_concat<S: Predicate<u8>>(sep: S, a: Seq<u8>, c: u8, b: Seq<u8>)
    requires
        sep.judge(c) is Ok,
    ensures
        split_bytes(sep, a.push(c) + b) == split_bytes(sep, a) + split_bytes(sep, b),
    decreases b.len(),
{
    let x = a.push(c) + b;
    if b.len() == 0 {
        assert(x =~= a.push(c));
        assert(x.drop_last() =~= a);
        assert(split_bytes(sep, a).push(seq![]) =~= split_bytes(sep, a) + split_bytes(sep, b));
    } else {
        assert(x.drop_last() =~= a.push(c) + b.drop_last());
        assert(x.last() == b.last());
        lemma_split_concat(sep, a, c, b.drop_last());
        lemma_split_nonempty(sep, b.drop_last());
        let pa = split_bytes(sep, a);
        let pb = split_bytes(sep, b.drop_last());
        if sep.judge(b.last()) is Ok {
            assert((pa + pb).push(seq![]) =~= pa + pb.push(seq![]));
        } else {
            let q = pa + pb;
            assert(q.update(q.len() - 1, q.last().push(b.last())) =~= pa + pb.update(
                pb.len() - 1,
                pb.last().push(b.last()),
            ));
        }
    }
}

/// A value that holds no separator byte is one piece.
proof fn lemma_split_single<S: Predicate<u8>>(sep: S, v: Seq<u8>)
    requires
        forall|i: int| 0 <= i < v.len() ==> !(sep.judge(#[trigger] v[i]) is Ok),
    ensures
        split_bytes(sep, v) == seq![v],
    decreases v.len(),
{
    if v.len() > 0 {
        assert forall|i: int| 0 <= i < v.drop_last().len() implies !(sep.judge(#[trigger] v.drop_last()[i]) is Ok) by {
            assert(v.drop_last()[i] == v[i]);
        }
        lemma_split_single(sep, v.drop_last());
        assert(v.drop_last().push(v.last()) =~= v);
        assert(seq![v.drop_last()].update(0, v.drop_last().push(v.last())) =~= seq![v]);
    } else {
        assert(v =~= seq![]);
    }
}

/// A list guard joins its pieces by "or": on two values joined by a
/// separator byte it matches exactly when it matches one of them. On a value
/// without a separator it tests the whole value, trimmed.
pub proof fn lemma_has_pieces<T: Predicate<u8>, U: Predicate<[u8]>>(h: Has<T, U>, a: Seq<u8>, c: u8, b: Seq<u8>)
    requires
        h.spec_separator().judge(c) is Ok,
    ensures
        (h.judge(a.push(c) + b) is Ok) <==> (h.judge(a) is Ok || h.judge(b) is Ok),
        (forall|i: int| 0 <= i < a.len() ==> !(h.spec_separator().judge(#[trigger] a[i]) is Ok)) ==> ((
        h.judge(a) is Ok) <==> (h.spec_predicate().judge(trim_ascii(a)) is Ok)),
{
    let sep = h.spec_separator();
    let pred = h.spec_predicate();
    lemma_split_concat(sep, a, c, b);
    let pa = split_bytes(sep, a);
    let pb = split_bytes(sep, b);
    let px = split_bytes(sep, a.push(c) + b);
    if some_piece(sep, pred, a.push(c) + b, false) {
        let i = choose|i: int| 0 <= i < px.len() && (!false || px[i].len() > 0) && (#[trigger] pred.judge(trim_ascii(px[i]))) is Ok;
        if i < pa.len() {
            assert(px[i] == pa[i]);
        } else {
            assert(px[i] == pb[i - pa.len()]);
        }
    }
    if some_piece(sep, pred, a, false) {
        let i = choose|i: int| 0 <= i < pa.len() && (!false || pa[i].len() > 0) && (#[trigger] pred.judge(trim_ascii(pa[i]))) is Ok;
        assert(px[i] == pa[i]);
    }
    if some_piece(sep, pred, b, false) {
        let i = choose|i: int| 0 <= i < pb.len() && (!false || pb[i].len() > 0) && (#[trigger] pred.judge(trim_ascii(pb[i]))) is Ok;
        assert(px[pa.len() + i] == pb[i]);
    }
    if forall|i: int| 0 <= i < a.len() ==> !(sep.judge(#[trigger] a[i]) is Ok) {
        lemma_split_single(sep, a);
        assert(pa[0] == a);
    }
}

/// `contains` matches a comma separated list exactly when it matches one of
/// its items, trimmed of white space.
pub proof fn lemma_contains_items<T: Predicate<[u8]>>(p: Contains<T>, a: Seq<u8>, b: Seq<u8>)
    ensures
        (p.judge(a.push(0x2Cu8) + b) is Ok) <==> (p.judge(a) is Ok || p.judge(b) is Ok),
        (forall|i: int| 0 <= i < a.len() ==> #[trigger] a[i] != 0x2Cu8) ==> ((p.judge(a) is Ok) <==> (
        p.spec_has().spec_predicate().judge(trim_ascii(a)) is Ok)),
{
    let h = p.spec_has();
    assert(h.spec_separator().judge(0x2Cu8) is Ok);
    lemma_has_pieces(h, a, 0x2Cu8, b);
    if forall|i: int| 0 <= i < a.len() ==> #[trigger] a[i] != 0x2Cu8 {
        assert forall|i: int| 0 <= i < a.len() implies !(h.spec_separator().judge(#[trigger] a[i]) is Ok) by {
            assert(a[i] != 0x2Cu8);
        }
    }
}

/// A token is a run of token characters; `token` matches a value exactly
/// when it matches one of its tokens: on two values joined by any byte that
/// is not a token character it matches exactly when it matches one of them,
/// it matches a single token when its predicate matches that token as it
/// is, and it never matches a value that holds no token.
pub proof fn lemma_token_pieces<T: Predicate<[u8]>>(p: Token<T>, a: Seq<u8>, c: u8, b: Seq<u8>)
    requires
        !is_tchar(c),
    ensures
        (p.judge(a.push(c) + b) is Ok) <==> (p.judge(a) is Ok || p.judge(b) is Ok),
        a.len() > 0 && (forall|i: int| 0 <= i < a.len() ==> is_tchar(#[trigger] a[i])) ==> ((p.judge(
            a,
        ) is Ok) <==> (p.spec_has().spec_predicate().judge(a) is Ok)),
        (forall|i: int| 0 <= i < a.len() ==> !is_tchar(#[trigger] a[i])) ==> p.judge(a) is Err,
{
    let h = p.spec_has();
    let sep = h.spec_separator();
    let pred = h.spec_predicate();
    assert(sep.judge(c) is Ok);
    lemma_split_concat(sep, a, c, b);
    let pa = split_bytes(sep, a);
    let pb = split_bytes(sep, b);
    let px = split_bytes(sep, a.push(c) + b);
    if some_piece(sep, pred, a.push(c) + b, true) {
        let i = choose|i: int| 0 <= i < px.len() && (!true || px[i].len() > 0) && (#[trigger] pred.judge(trim_ascii(px[i]))) is Ok;
        if i < pa.len() {
            assert(px[i] == pa[i]);
        } else {
            assert(px[i] == pb[i - pa.len()]);
        }
    }
    if some_piece(sep, pred, a, true) {
        let i = choose|i: int| 0 <= i < pa.len() && (!true || pa[i].len() > 0) && (#[trigger] pred.judge(trim_ascii(pa[i]))) is Ok;
        assert(px[i] == pa[i]);
    }
    if some_piece(sep, pred, b, true) {
        let i = choose|i: int| 0 <= i < pb.len() && (!true || pb[i].len() > 0) && (#[trigger] pred.judge(trim_ascii(pb[i]))) is Ok;
        assert(px[pa.len() + i] == pb[i]);
    }
    if a.len() > 0 && (forall|i: int| 0 <= i < a.len() ==> is_tchar(#[trigger] a[i])) {
        assert forall|i: int| 0 <= i < a.len() implies !(sep.judge(#[trigger] a[i]) is Ok) by {
            assert(is_tchar(a[i]));
        }
        lemma_split_single(sep, a);
        assert(pa[0] == a);
        assert(is_tchar(a[0]) && is_tchar(a[a.len() - 1]));
        assert(!is_ascii_ws(a[0]) && !is_ascii_ws(a[a.len() - 1]));
        assert(trim_start(a) == a);
        assert(trim_end(a) == a);
        assert(trim_ascii(a) == a);
        assert(pa.len() == 1);
        if pred.judge(a) is Ok {
            assert(pred.judge(trim_ascii(pa[0])) is Ok);
        }
    }
    if forall|i: int| 0 <= i < a.len() ==> !is_tchar(#[trigger] a[i]) {
        lemma_empty_pieces(sep, a);
        if some_piece(sep, pred, a, true) {
            let i = choose|i: int| 0 <= i < pa.len() && (!true || pa[i].len() > 0) && (#[trigger] pred.judge(trim_ascii(pa[i]))) is Ok;
            assert(pa[i].len() == 0);
        }
    }
}

/// When every byte is a separator, every piece is empty.
proof fn lemma_empty_pieces<S: Predicate<u8>>(sep: S, v: Seq<u8>)
    requires
        forall|i: int| 0 <= i < v.len() ==> sep.judge(#[trigger] v[i]) is Ok,
    ensures
        forall|j: int| 0 <= j < split_bytes(sep, v).len() ==> (#[trigger] split_bytes(sep, v)[j]).len() == 0,
    decreases v.len(),
{
    if v.len() > 0 {
        assert forall|i: int| 0 <= i < v.drop_last().len() implies sep.judge(#[trigger] v.drop_last()[i]) is Ok by {
            assert(v.drop_last()[i] == v[i]);
        }
        lemma_empty_pieces(sep, v.drop_last());
        assert(sep.judge(v[v.len() - 1]) is Ok);
        let init = split_bytes(sep, v.drop_last());
        assert forall|j: int| 0 <= j < split_bytes(sep, v).len() implies (#[trigger] split_bytes(sep, v)[j]).len() == 0 by {
            if j < init.len() {
                assert(split_bytes(sep, v)[j] == init[j]);
            }
        }
    }
}

impl<T: Predicate<[u8]>> Predicate<[u8]> for Contains<T> {
    open spec fn judge(&self, input: Seq<u8>) -> Result<(), ErrorKind> {
        self.spec_has().judge(input)
    }

    fn cmp(&self, value: &[u8]) -> (r: Result<(), ErrorKind>) {
        self.0.cmp(value)
    }
}

/// Tokens are the non-empty runs of token characters, so a token predicate
/// tests only the pieces that hold at least one byte.
impl<T: Predicate<[u8]>> Predicate<[u8]> for Token<T> {
    open spec fn judge(&self, input: Seq<u8>) -> Result<(), ErrorKind> {
        outcome(some_piece(self.spec_has().spec_separator(), self.spec_has().spec_predicate(), input, true))
    }

    fn cmp(&self, value: &[u8]) -> (r: Result<(), ErrorKind>) {
        if self.0.find_piece(value, true) {
            Ok(())
        } else {
            Err(ErrorKind::Match)
        }
    }
}

/// Succeeds if `predicate` matches a comma separated value in the header.
pub fn contains<T>(predicate: T) -> (r: Contains<T>)
    ensures
        r.spec_has().spec_predicate() == predicate,
        r.spec_has().spec_separator() == Comma,
{
    Contains(Has { separator: Comma, predicate })
}

/// Succeeds if `predicate` matches one of the tokens in the header value.
pub fn token<T>(predicate: T) -> (r: Token<T>)
    ensures
        r.spec_has().spec_predicate() == predicate,
        r.spec_has().spec_separator().spec_inner() == Tchar,
{
    Token(Has { separator: not(Tchar), predicate })
}


// ---------------------------------------------------------------------------
// Headers

/// A lower-cased valid header name is a valid lower-case header name.
proof fn lemma_lowercase_header_name(key: Seq<char>)
    requires
        is_valid_header_name(key),
    ensures
        is_lower_header_name(ascii_lowercase(key)),
{
    let lower = ascii_lowercase(key);
    assert forall|i: int| 0 <= i < lower.len() implies is_header_name_char(#[trigger] lower[i]) && !('A' <= lower[i] <= 'Z') by {
        assert(is_header_name_char(key[i]));
    }
}

/// Tests the value of a request header.
pub struct Header<T> {
    optional: bool,
    value: T,
    key: String,
}

impl<T> Header<T> {
    #[verifier::type_invariant]
    spec fn inv(self) -> bool {
        is_lower_header_name(self.key@)
    }

    pub closed spec fn spec_optional(self) -> bool {
        self.optional
    }

    pub closed spec fn spec_value(self) -> T {
        self.value
    }

    /// The (lower-case) name of the header.
    pub closed spec fn spec_key(self) -> String {
        self.key
    }

    /// The same test, which also succeeds when the header is absent.
    pub fn optional(self) -> (r: Self)
        ensures
            r.spec_optional(),
            r.spec_value() == self.spec_value(),
            r.spec_key() == self.spec_key(),
    {
        proof {
            use_type_invariant(&self);
        }
        Header { optional: true, value: self.value, key: self.key }
    }
}

/// Tests the value of the header `key` with `value`. The key must be a
/// valid header name; it is kept in lower case.
pub fn header<V>(key: &str, value: V) -> (r: Header<V>)
    requires
        is_valid_header_name(key@),
    ensures
        !r.spec_optional(),
        r.spec_value() == value,
        r.spec_key()@ == ascii_lowercase(key@),
{
    proof {
        lemma_lowercase_header_name(key@);
    }
    match header_name(key) {
        Some(name) => Header { optional: false, value, key: name },
        None => {
            proof {
                assert(false);
            }
            Header { optional: false, value, key: String::new() }
        },
    }
}

/// The outcome of a header test on a header map.
pub open spec fn header_outcome<T: Predicate<[u8]>>(h: Header<T>, m: Map<Seq<char>, Seq<Seq<u8>>>) -> Result<(), ErrorKind> {
    match first_header_value(m, h.spec_key()@) {
        Some(v) => if h.spec_value().judge(v) is Ok {
            Ok(())
        } else {
            Err(ErrorKind::Header(h.spec_key()))
        },
        None => if h.spec_optional() {
            Ok(())
        } else {
            Err(ErrorKind::Header(h.spec_key()))
        },
    }
}

impl<T: Predicate<[u8]>> Predicate<http::HeaderMap> for Header<T> {
    open spec fn judge(&self, input: Map<Seq<char>, Seq<Seq<u8>>>) -> Result<(), ErrorKind> {
        header_outcome(*self, input)
    }

    fn cmp(&self, headers: &http::HeaderMap) -> (r: Result<(), ErrorKind>) {
        proof {
            use_type_invariant(self);
        }
        match header_get(headers, self.key.as_str()) {
            Some(value) => if self.value.matches(value) {
                Ok(())
            } else {
                Err(ErrorKind::Header(self.key.clone()))
            },
            None => if self.optional {
                Ok(())
            } else {
                Err(ErrorKind::Header(self.key.clone()))
            },
        }
    }
}

/// A header guard tests the first value of its header and nothing else: with
/// values under its key it matches exactly when its predicate matches the
/// first of them; other headers never change its answer; without its header
/// it matches only when it is optional; and a failure names its header.
pub proof fn lemma_header_guard<T: Predicate<[u8]>>(
    h: Header<T>,
    m: Map<Seq<char>, Seq<Seq<u8>>>,
    values: Seq<Seq<u8>>,
    other: Seq<char>,
)
    ensures
        values.len() > 0 ==> ((h.judge(m.insert(h.spec_key()@, values)) is Ok) <==> (h.spec_value().judge(
            values[0],
        ) is Ok)),
        other != h.spec_key()@ ==> h.judge(m.insert(other, values)) == h.judge(m),
        !m.contains_key(h.spec_key()@) ==> ((h.judge(m) is Ok) <==> h.spec_optional()),
        h.judge(m) is Err ==> h.judge(m) == Err::<(), ErrorKind>(ErrorKind::Header(h.spec_key())),
{
    let key = h.spec_key()@;
    if other != key {
        assert(m.insert(other, values).contains_key(key) == m.contains_key(key));
        if m.contains_key(key) {
            assert(m.insert(other, values)[key] == m[key]);
        }
    }
}

// ---------------------------------------------------------------------------
// Methods

/// The methods that `http::Method::is_safe` calls safe.
pub open spec fn is_safe_method(name: Seq<char>) -> bool {
    name == "GET"@ || name == "HEAD"@ || name == "OPTIONS"@ || name == "TRACE"@ || name == "QUERY"@
}

/// Succeeds when the request method (given by name) is safe.
pub struct IsSafe;

impl Predicate<str> for IsSafe {
    open spec fn judge(&self, input: Seq<char>) -> Result<(), ErrorKind> {
        if is_safe_method(input) {
            Ok(())
        } else {
            Err(ErrorKind::Method)
        }
    }

    fn cmp(&self, method: &str) -> (r: Result<(), ErrorKind>) {
        if str_eq(method, "GET") || str_eq(method, "HEAD") || str_eq(method, "OPTIONS") || str_eq(method, "TRACE")
            || str_eq(method, "QUERY") {
            Ok(())
        } else {
            Err(ErrorKind::Method)
        }
    }
}

/// Succeeds when the request method is safe.
pub fn is_safe() -> (r: IsSafe) {
    IsSafe
}

/// Succeeds when the request method is not safe.
pub fn is_mutation() -> (r: Not<IsSafe>)
    ensures
        r.spec_inner() == IsSafe,
{
    not(is_safe())
}

// ---------------------------------------------------------------------------
// Guard

/// Stop processing the request and respond if the provided precondition
/// fails: `or_else` turns the failure into the error of the response.
pub struct Guard<E, T> {
    or_else: E,
    predicate: T,
}

impl<E, T> Guard<E, T> {
    pub closed spec fn spec_or_else(self) -> E {
        self.or_else
    }

    pub closed spec fn spec_predicate(self) -> T {
        self.predicate
    }

    /// The function that turns a failure into an error.
    pub fn or_else(&self) -> (r: &E)
        ensures
            *r == self.spec_or_else(),
    {
        &self.or_else
    }

    /// The precondition.
    pub fn predicate(&self) -> (r: &T)
        ensures
            *r == self.spec_predicate(),
    {
        &self.predicate
    }
}

/// Confirm that the request matches the provided predicate before
/// proceeding.
pub fn guard<E, T>(or_else: E, predicate: T) -> (r: Guard<E, T>)
    ensures
        r.spec_or_else() == or_else,
        r.spec_predicate() == predicate,
{
    Guard { or_else, predicate }
}

/// `application/json`, with or without a utf-8 charset.
pub type ApplicationJson = Or<(Tag, Tag, Tag)>;

/// The JSON media types, each matched up to ASCII case: `application/json`,
/// `application/json; charset=utf-8` and `application/json;charset=utf-8`.
pub open spec fn is_json_media(p: ApplicationJson) -> bool {
    &&& p.spec_list().0.spec_bytes() == "application/json".spec_bytes()
    &&& p.spec_list().1.spec_bytes() == "application/json; charset=utf-8".spec_bytes()
    &&& p.spec_list().2.spec_bytes() == "application/json;charset=utf-8".spec_bytes()
}

/// Matches the JSON media types.
pub fn application_json() -> (r: ApplicationJson)
    ensures
        r.spec_list().0.spec_bytes() == "application/json".spec_bytes(),
        r.spec_list().1.spec_bytes() == "application/json; charset=utf-8".spec_bytes(),
        r.spec_list().2.spec_bytes() == "application/json;charset=utf-8".spec_bytes(),
{
    or((
        tag("application/json".as_bytes()),
        tag("application/json; charset=utf-8".as_bytes()),
        tag("application/json;charset=utf-8".as_bytes()),
    ))
}


/// `and` matches when both predicates match; its failure is the first
/// failure.
pub proof fn lemma_and<Input: Inspect + ?Sized, A: Predicate<Input>, B: Predicate<Input>>(
    p: And<(A, B)>,
    input: Input::Model,
)
    ensures
        (p.judge(input) is Ok) <==> (p.spec_list().0.judge(input) is Ok && p.spec_list().1.judge(
            input,
        ) is Ok),
        p.spec_list().0.judge(input) is Err ==> p.judge(input) == p.spec_list().0.judge(input),
        p.spec_list().0.judge(input) is Ok && p.spec_list().1.judge(input) is Err ==> p.judge(input)
            == p.spec_list().1.judge(input),
{
}

/// `or` matches when one of the predicates matches.
pub proof fn lemma_or<Input: Inspect + ?Sized, A: Predicate<Input>, B: Predicate<Input>>(
    p: Or<(A, B)>,
    input: Input::Model,
)
    ensures
        (p.judge(input) is Ok) <==> (p.spec_list().0.judge(input) is Ok || p.spec_list().1.judge(
            input,
        ) is Ok),
        p.spec_list().0.judge(input) is Err && p.spec_list().1.judge(input) is Err ==> p.judge(input)
            == p.spec_list().1.judge(input),
{
}

/// `and` of 3 predicates matches exactly when every one matches; it fails
/// with the failure of the first one that fails, and tests none after it.
pub proof fn lemma_and3<Input: Inspect + ?Sized, A: Predicate<Input>, B: Predicate<Input>, C: Predicate<Input>>(
    p: And<(A, B, C)>,
    input: Input::Model,
)
    ensures
        (p.judge(input) is Ok) <==> (p.spec_list().0.judge(input) is Ok && p.spec_list().1.judge(input) is Ok && p.spec_list().2.judge(input) is Ok),
        p.spec_list().0.judge(input) is Err ==> p.judge(input) == p.spec_list().0.judge(input),
        p.spec_list().0.judge(input) is Ok && p.spec_list().1.judge(input) is Err ==> p.judge(input) == p.spec_list().1.judge(input),
        p.spec_list().0.judge(input) is Ok && p.spec_list().1.judge(input) is Ok && p.spec_list().2.judge(input) is Err ==> p.judge(input) == p.spec_list().2.judge(input),
{
}

/// `and` of 4 predicates matches exactly when every one matches; it fails
/// with the failure of the first one that fails, and tests none after it.
pub proof fn lemma_and4<Input: Inspect + ?Sized, A: Predicate<Input>, B: Predicate<Input>, C: Predicate<Input>, D: Predicate<Input>>(
    p: And<(A, B, C, D)>,
    input: Input::Model,
)
    ensures
        (p.judge(input) is Ok) <==> (p.spec_list().0.judge(input) is Ok && p.spec_list().1.judge(input) is Ok && p.spec_list().2.judge(input) is Ok && p.spec_list().3.judge(input) is Ok),
        p.spec_list().0.judge(input) is Err ==> p.judge(input) == p.spec_list().0.judge(input),
        p.spec_list().0.judge(input) is Ok && p.spec_list().1.judge(input) is Err ==> p.judge(input) == p.spec_list().1.judge(input),
        p.spec_list().0.judge(input) is Ok && p.spec_list().1.judge(input) is Ok && p.spec_list().2.judge(input) is Err ==> p.judge(input) == p.spec_list().2.judge(input),
        p.spec_list().0.judge(input) is Ok && p.spec_list().1.judge(input) is Ok && p.spec_list().2.judge(input) is Ok && p.spec_list().3.judge(input) is Err ==> p.judge(input) == p.spec_list().3.judge(input),
{
}

/// `and` of 5 predicates matches exactly when every one matches; it fails
/// with the failure of the first one that fails, and tests none after it.
pub proof fn lemma_and5<Input: Inspect + ?Sized, A: Predicate<Input>, B: Predicate<Input>, C: Predicate<Input>, D: Predicate<Input>, E: Predicate<Input>>(
    p: And<(A, B, C, D, E)>,
    input: Input::Model,
)
    ensures
        (p.judge(input) is Ok) <==> (p.spec_list().0.judge(input) is Ok && p.spec_list().1.judge(input) is Ok && p.spec_list().2.judge(input) is Ok && p.spec_list().3.judge(input) is Ok && p.spec_list().4.judge(input) is Ok),
        p.spec_list().0.judge(input) is Err ==> p.judge(input) == p.spec_list().0.judge(input),
        p.spec_list().0.judge(input) is Ok && p.spec_list().1.judge(input) is Err ==> p.judge(input) == p.spec_list().1.judge(input),
        p.spec_list().0.judge(input) is Ok && p.spec_list().1.judge(input) is Ok && p.spec_list().2.judge(input) is Err ==> p.judge(input) == p.spec_list().2.judge(input),
        p.spec_list().0.judge(input) is Ok && p.spec_list().1.judge(input) is Ok && p.spec_list().2.judge(input) is Ok && p.spec_list().3.judge(input) is Err ==> p.judge(input) == p.spec_list().3.judge(input),
        p.spec_list().0.judge(input) is Ok && p.spec_list().1.judge(input) is Ok && p.spec_list().2.judge(input) is Ok && p.spec_list().3.judge(input) is Ok && p.spec_list().4.judge(input) is Err ==> p.judge(input) == p.spec_list().4.judge(input),
{
}

/// `and` of 6 predicates matches exactly when every one matches; it fails
/// with the failure of the first one that fails, and tests none after it.
pub proof fn lemma_and6<Input: Inspect + ?Sized, A: Predicate<Input>, B: Predicate<Input>, C: Predicate<Input>, D: Predicate<Input>, E: Predicate<Input>, F: Predicate<Input>>(
    p: And<(A, B, C, D, E, F)>,
    input: Input::Model,
)
    ensures
        (p.judge(input) is Ok) <==> (p.spec_list().0.judge(input) is Ok && p.spec_list().1.judge(input) is Ok && p.spec_list().2.judge(input) is Ok && p.spec_list().3.judge(input) is Ok && p.spec_list().4.judge(input) is Ok && p.spec_list().5.judge(input) is Ok),
        p.spec_list().0.judge(input) is Err ==> p.judge(input) == p.spec_list().0.judge(input),
        p.spec_list().0.judge(input) is Ok && p.spec_list().1.judge(input) is Err ==> p.judge(input) == p.spec_list().1.judge(input),
        p.spec_list().0.judge(input) is Ok && p.spec_list().1.judge(input) is Ok && p.spec_list().2.judge(input) is Err ==> p.judge(input) == p.spec_list().2.judge(input),
        p.spec_list().0.judge(input) is Ok && p.spec_list().1.judge(input) is Ok && p.spec_list().2.judge(input) is Ok && p.spec_list().3.judge(input) is Err ==> p.judge(input) == p.spec_list().3.judge(input),
        p.spec_list().0.judge(input) is Ok && p.spec_list().1.judge(input) is Ok && p.spec_list().2.judge(input) is Ok && p.spec_list().3.judge(input) is Ok && p.spec_list().4.judge(input) is Err ==> p.judge(input) == p.spec_list().4.judge(input),
        p.spec_list().0.judge(input) is Ok && p.spec_list().1.judge(input) is Ok && p.spec_list().2.judge(input) is Ok && p.spec_list().3.judge(input) is Ok && p.spec_list().4.judge(input) is Ok && p.spec_list().5.judge(input) is Err ==> p.judge(input) == p.spec_list().5.judge(input),
{
}

/// `and` of 7 predicates matches exactly when every one matches; it fails
/// with the failure of the first one that fails, and tests none after it.
pub proof fn lemma_and7<Input: Inspect + ?Sized, A: Predicate<Input>, B: Predicate<Input>, C: Predicate<Input>, D: Predicate<Input>, E: Predicate<Input>, F: Predicate<Input>, G: Predicate<Input>>(
    p: And<(A, B, C, D, E, F, G)>,
    input: Input::Model,
)
    ensures
        (p.judge(input) is Ok) <==> (p.spec_list().0.judge(input) is Ok && p.spec_list().1.judge(input) is Ok && p.spec_list().2.judge(input) is Ok && p.spec_list().3.judge(input) is Ok && p.spec_list().4.judge(input) is Ok && p.spec_list().5.judge(input) is Ok && p.spec_list().6.judge(input) is Ok),
        p.spec_list().0.judge(input) is Err ==> p.judge(input) == p.spec_list().0.judge(input),
        p.spec_list().0.judge(input) is Ok && p.spec_list().1.judge(input) is Err ==> p.judge(input) == p.spec_list().1.judge(input),
        p.spec_list().0.judge(input) is Ok && p.spec_list().1.judge(input) is Ok && p.spec_list().2.judge(input) is Err ==> p.judge(input) == p.spec_list().2.judge(input),
        p.spec_list().0.judge(input) is Ok && p.spec_list().1.judge(input) is Ok && p.spec_list().2.judge(input) is Ok && p.spec_list().3.judge(input) is Err ==> p.judge(input) == p.spec_list().3.judge(input),
        p.spec_list().0.judge(input) is Ok && p.spec_list().1.judge(input) is Ok && p.spec_list().2.judge(input) is Ok && p.spec_list().3.judge(input) is Ok && p.spec_list().4.judge(input) is Err ==> p.judge(input) == p.spec_list().4.judge(input),
        p.spec_list().0.judge(input) is Ok && p.spec_list().1.judge(input) is Ok && p.spec_list().2.judge(input) is Ok && p.spec_list().3.judge(input) is Ok && p.spec_list().4.judge(input) is Ok && p.spec_list().5.judge(input) is Err ==> p.judge(input) == p.spec_list().5.judge(input),
        p.spec_list().0.judge(input) is Ok && p.spec_list().1.judge(input) is Ok && p.spec_list().2.judge(input) is Ok && p.spec_list().3.judge(input) is Ok && p.spec_list().4.judge(input) is Ok && p.spec_list().5.judge(input) is Ok && p.spec_list().6.judge(input) is Err ==> p.judge(input) == p.spec_list().6.judge(input),
{
}

/// `and` of 8 predicates matches exactly when every one matches; it fails
/// with the failure of the first one that fails, and tests none after it.
pub proof fn lemma_and8<Input: Inspect + ?Sized, A: Predicate<Input>, B: Predicate<Input>, C: Predicate<Input>, D: Predicate<Input>, E: Predicate<Input>, F: Predicate<Input>, G: Predicate<Input>, H: Predicate<Input>>(
    p: And<(A, B, C, D, E, F, G, H)>,
    input: Input::Model,
)
    ensures
        (p.judge(input) is Ok) <==> (p.spec_list().0.judge(input) is Ok && p.spec_list().1.judge(input) is Ok && p.spec_list().2.judge(input) is Ok && p.spec_list().3.judge(input) is Ok && p.spec_list().4.judge(input) is Ok && p.spec_list().5.judge(input) is Ok && p.spec_list().6.judge(input) is Ok && p.spec_list().7.judge(input) is Ok),
        p.spec_list().0.judge(input) is Err ==> p.judge(input) == p.spec_list().0.judge(input),
        p.spec_list().0.judge(input) is Ok && p.spec_list().1.judge(input) is Err ==> p.judge(input) == p.spec_list().1.judge(input),
        p.spec_list().0.judge(input) is Ok && p.spec_list().1.judge(input) is Ok && p.spec_list().2.judge(input) is Err ==> p.judge(input) == p.spec_list().2.judge(input),
        p.spec_list().0.judge(input) is Ok && p.spec_list().1.judge(input) is Ok && p.spec_list().2.judge(input) is Ok && p.spec_list().3.judge(input) is Err ==> p.judge(input) == p.spec_list().3.judge(input),
        p.spec_list().0.judge(input) is Ok && p.spec_list().1.judge(input) is Ok && p.spec_list().2.judge(input) is Ok && p.spec_list().3.judge(input) is Ok && p.spec_list().4.judge(input) is Err ==> p.judge(input) == p.spec_list().4.judge(input),
        p.spec_list().0.judge(input) is Ok && p.spec_list().1.judge(input) is Ok && p.spec_list().2.judge(input) is Ok && p.spec_list().3.judge(input) is Ok && p.spec_list().4.judge(input) is Ok && p.spec_list().5.judge(input) is Err ==> p.judge(input) == p.spec_list().5.judge(input),
        p.spec_list().0.judge(input) is Ok && p.spec_list().1.judge(input) is Ok && p.spec_list().2.judge(input) is Ok && p.spec_list().3.judge(input) is Ok && p.spec_list().4.judge(input) is Ok && p.spec_list().5.judge(input) is Ok && p.spec_list().6.judge(input) is Err ==> p.judge(input) == p.spec_list().6.judge(input),
        p.spec_list().0.judge(input) is Ok && p.spec_list().1.judge(input) is Ok && p.spec_list().2.judge(input) is Ok && p.spec_list().3.judge(input) is Ok && p.spec_list().4.judge(input) is Ok && p.spec_list().5.judge(input) is Ok && p.spec_list().6.judge(input) is Ok && p.spec_list().7.judge(input) is Err ==> p.judge(input) == p.spec_list().7.judge(input),
{
}

/// `and` of 9 predicates matches exactly when every one matches; it fails
/// with the failure of the first one that fails, and tests none after it.
pub proof fn lemma_and9<Input: Inspect + ?Sized, A: Predicate<Input>, B: Predicate<Input>, C: Predicate<Input>, D: Predicate<Input>, E: Predicate<Input>, F: Predicate<Input>, G: Predicate<Input>, H: Predicate<Input>, I: Predicate<Input>>(
    p: And<(A, B, C, D, E, F, G, H, I)>,
    input: Input::Model,
)
    ensures
        (p.judge(input) is Ok) <==> (p.spec_list().0.judge(input) is Ok && p.spec_list().1.judge(input) is Ok && p.spec_list().2.judge(input) is Ok && p.spec_list().3.judge(input) is Ok && p.spec_list().4.judge(input) is Ok && p.spec_list().5.judge(input) is Ok && p.spec_list().6.judge(input) is Ok && p.spec_list().7.judge(input) is Ok && p.spec_list().8.judge(input) is Ok),
        p.spec_list().0.judge(input) is Err ==> p.judge(input) == p.spec_list().0.judge(input),
        p.spec_list().0.judge(input) is Ok && p.spec_list().1.judge(input) is Err ==> p.judge(input) == p.spec_list().1.judge(input),
        p.spec_list().0.judge(input) is Ok && p.spec_list().1.judge(input) is Ok && p.spec_list().2.judge(input) is Err ==> p.judge(input) == p.spec_list().2.judge(input),
        p.spec_list().0.judge(input) is Ok && p.spec_list().1.judge(input) is Ok && p.spec_list().2.judge(input) is Ok && p.spec_list().3.judge(input) is Err ==> p.judge(input) == p.spec_list().3.judge(input),
        p.spec_list().0.judge(input) is Ok && p.spec_list().1.judge(input) is Ok && p.spec_list().2.judge(input) is Ok && p.spec_list().3.judge(input) is Ok && p.spec_list().4.judge(input) is Err ==> p.judge(input) == p.spec_list().4.judge(input),
        p.spec_list().0.judge(input) is Ok && p.spec_list().1.judge(input) is Ok && p.spec_list().2.judge(input) is Ok && p.spec_list().3.judge(input) is Ok && p.spec_list().4.judge(input) is Ok && p.spec_list().5.judge(input) is Err ==> p.judge(input) == p.spec_list().5.judge(input),
        p.spec_list().0.judge(input) is Ok && p.spec_list().1.judge(input) is Ok && p.spec_list().2.judge(input) is Ok && p.spec_list().3.judge(input) is Ok && p.spec_list().4.judge(input) is Ok && p.spec_list().5.judge(input) is Ok && p.spec_list().6.judge(input) is Err ==> p.judge(input) == p.spec_list().6.judge(input),
        p.spec_list().0.judge(input) is Ok && p.spec_list().1.judge(input) is Ok && p.spec_list().2.judge(input) is Ok && p.spec_list().3.judge(input) is Ok && p.spec_list().4.judge(input) is Ok && p.spec_list().5.judge(input) is Ok && p.spec_list().6.judge(input) is Ok && p.spec_list().7.judge(input) is Err ==> p.judge(input) == p.spec_list().7.judge(input),
        p.spec_list().0.judge(input) is Ok && p.spec_list().1.judge(input) is Ok && p.spec_list().2.judge(input) is Ok && p.spec_list().3.judge(input) is Ok && p.spec_list().4.judge(input) is Ok && p.spec_list().5.judge(input) is Ok && p.spec_list().6.judge(input) is Ok && p.spec_list().7.judge(input) is Ok && p.spec_list().8.judge(input) is Err ==> p.judge(input) == p.spec_list().8.judge(input),
{
}

/// `and` of 10 predicates matches exactly when every one matches; it fails
/// with the failure of the first one that fails, and tests none after it.
pub proof fn lemma_and10<Input: Inspect + ?Sized, A: Predicate<Input>, B: Predicate<Input>, C: Predicate<Input>, D: Predicate<Input>, E: Predicate<Input>, F: Predicate<Input>, G: Predicate<Input>, H: Predicate<Input>, I: Predicate<Input>, J: Predicate<Input>>(
    p: And<(A, B, C, D, E, F, G, H, I, J)>,
    input: Input::Model,
)
    ensures
        (p.judge(input) is Ok) <==> (p.spec_list().0.judge(input) is Ok && p.spec_list().1.judge(input) is Ok && p.spec_list().2.judge(input) is Ok && p.spec_list().3.judge(input) is Ok && p.spec_list().4.judge(input) is Ok && p.spec_list().5.judge(input) is Ok && p.spec_list().6.judge(input) is Ok && p.spec_list().7.judge(input) is Ok && p.spec_list().8.judge(input) is Ok && p.spec_list().9.judge(input) is Ok),
        p.spec_list().0.judge(input) is Err ==> p.judge(input) == p.spec_list().0.judge(input),
        p.spec_list().0.judge(input) is Ok && p.spec_list().1.judge(input) is Err ==> p.judge(input) == p.spec_list().1.judge(input),
        p.spec_list().0.judge(input) is Ok && p.spec_list().1.judge(input) is Ok && p.spec_list().2.judge(input) is Err ==> p.judge(input) == p.spec_list().2.judge(input),
        p.spec_list().0.judge(input) is Ok && p.spec_list().1.judge(input) is Ok && p.spec_list().2.judge(input) is Ok && p.spec_list().3.judge(input) is Err ==> p.judge(input) == p.spec_list().3.judge(input),
        p.spec_list().0.judge(input) is Ok && p.spec_list().1.judge(input) is Ok && p.spec_list().2.judge(input) is Ok && p.spec_list().3.judge(input) is Ok && p.spec_list().4.judge(input) is Err ==> p.judge(input) == p.spec_list().4.judge(input),
        p.spec_list().0.judge(input) is Ok && p.spec_list().1.judge(input) is Ok && p.spec_list().2.judge(input) is Ok && p.spec_list().3.judge(input) is Ok && p.spec_list().4.judge(input) is Ok && p.spec_list().5.judge(input) is Err ==> p.judge(input) == p.spec_list().5.judge(input),
        p.spec_list().0.judge(input) is Ok && p.spec_list().1.judge(input) is Ok && p.spec_list().2.judge(input) is Ok && p.spec_list().3.judge(input) is Ok && p.spec_list().4.judge(input) is Ok && p.spec_list().5.judge(input) is Ok && p.spec_list().6.judge(input) is Err ==> p.judge(input) == p.spec_list().6.judge(input),
        p.spec_list().0.judge(input) is Ok && p.spec_list().1.judge(input) is Ok && p.spec_list().2.judge(input) is Ok && p.spec_list().3.judge(input) is Ok && p.spec_list().4.judge(input) is Ok && p.spec_list().5.judge(input) is Ok && p.spec_list().6.judge(input) is Ok && p.spec_list().7.judge(input) is Err ==> p.judge(input) == p.spec_list().7.judge(input),
        p.spec_list().0.judge(input) is Ok && p.spec_list().1.judge(input) is Ok && p.spec_list().2.judge(input) is Ok && p.spec_list().3.judge(input) is Ok && p.spec_list().4.judge(input) is Ok && p.spec_list().5.judge(input) is Ok && p.spec_list().6.judge(input) is Ok && p.spec_list().7.judge(input) is Ok && p.spec_list().8.judge(input) is Err ==> p.judge(input) == p.spec_list().8.judge(input),
        p.spec_list().0.judge(input) is Ok && p.spec_list().1.judge(input) is Ok && p.spec_list().2.judge(input) is Ok && p.spec_list().3.judge(input) is Ok && p.spec_list().4.judge(input) is Ok && p.spec_list().5.judge(input) is Ok && p.spec_list().6.judge(input) is Ok && p.spec_list().7.judge(input) is Ok && p.spec_list().8.judge(input) is Ok && p.spec_list().9.judge(input) is Err ==> p.judge(input) == p.spec_list().9.judge(input),
{
}

/// `and` of 11 predicates matches exactly when every one matches; it fails
/// with the failure of the first one that fails, and tests none after it.
pub proof fn lemma_and11<Input: Inspect + ?Sized, A: Predicate<Input>, B: Predicate<Input>, C: Predicate<Input>, D: Predicate<Input>, E: Predicate<Input>, F: Predicate<Input>, G: Predicate<Input>, H: Predicate<Input>, I: Predicate<Input>, J: Predicate<Input>, K: Predicate<Input>>(
    p: And<(A, B, C, D, E, F, G, H, I, J, K)>,
    input: Input::Model,
)
    ensures
        (p.judge(input) is Ok) <==> (p.spec_list().0.judge(input) is Ok && p.spec_list().1.judge(input) is Ok && p.spec_list().2.judge(input) is Ok && p.spec_list().3.judge(input) is Ok && p.spec_list().4.judge(input) is Ok && p.spec_list().5.judge(input) is Ok && p.spec_list().6.judge(input) is Ok && p.spec_list().7.judge(input) is Ok && p.spec_list().8.judge(input) is Ok && p.spec_list().9.judge(input) is Ok && p.spec_list().10.judge(input) is Ok),
        p.spec_list().0.judge(input) is Err ==> p.judge(input) == p.spec_list().0.judge(input),
        p.spec_list().0.judge(input) is Ok && p.spec_list().1.judge(input) is Err ==> p.judge(input) == p.spec_list().1.judge(input),
        p.spec_list().0.judge(input) is Ok && p.spec_list().1.judge(input) is Ok && p.spec_list().2.judge(input) is Err ==> p.judge(input) == p.spec_list().2.judge(input),
        p.spec_list().0.judge(input) is Ok && p.spec_list().1.judge(input) is Ok && p.spec_list().2.judge(input) is Ok && p.spec_list().3.judge(input) is Err ==> p.judge(input) == p.spec_list().3.judge(input),
        p.spec_list().0.judge(input) is Ok && p.spec_list().1.judge(input) is Ok && p.spec_list().2.judge(input) is Ok && p.spec_list().3.judge(input) is Ok && p.spec_list().4.judge(input) is Err ==> p.judge(input) == p.spec_list().4.judge(input),
        p.spec_list().0.judge(input) is Ok && p.spec_list().1.judge(input) is Ok && p.spec_list().2.judge(input) is Ok && p.spec_list().3.judge(input) is Ok && p.spec_list().4.judge(input) is Ok && p.spec_list().5.judge(input) is Err ==> p.judge(input) == p.spec_list().5.judge(input),
        p.spec_list().0.judge(input) is Ok && p.spec_list().1.judge(input) is Ok && p.spec_list().2.judge(input) is Ok && p.spec_list().3.judge(input) is Ok && p.spec_list().4.judge(input) is Ok && p.spec_list().5.judge(input) is Ok && p.spec_list().6.judge(input) is Err ==> p.judge(input) == p.spec_list().6.judge(input),
        p.spec_list().0.judge(input) is Ok && p.spec_list().1.judge(input) is Ok && p.spec_list().2.judge(input) is Ok && p.spec_list().3.judge(input) is Ok && p.spec_list().4.judge(input) is Ok && p.spec_list().5.judge(input) is Ok && p.spec_list().6.judge(input) is Ok && p.spec_list().7.judge(input) is Err ==> p.judge(input) == p.spec_list().7.judge(input),
        p.spec_list().0.judge(input) is Ok && p.spec_list().1.judge(input) is Ok && p.spec_list().2.judge(input) is Ok && p.spec_list().3.judge(input) is Ok && p.spec_list().4.judge(input) is Ok && p.spec_list().5.judge(input) is Ok && p.spec_list().6.judge(input) is Ok && p.spec_list().7.judge(input) is Ok && p.spec_list().8.judge(input) is Err ==> p.judge(input) == p.spec_list().8.judge(input),
        p.spec_list().0.judge(input) is Ok && p.spec_list().1.judge(input) is Ok && p.spec_list().2.judge(input) is Ok && p.spec_list().3.judge(input) is Ok && p.spec_list().4.judge(input) is Ok && p.spec_list().5.judge(input) is Ok && p.spec_list().6.judge(input) is Ok && p.spec_list().7.judge(input) is Ok && p.spec_list().8.judge(input) is Ok && p.spec_list().9.judge(input) is Err ==> p.judge(input) == p.spec_list().9.judge(input),
        p.spec_list().0.judge(input) is Ok && p.spec_list().1.judge(input) is Ok && p.spec_list().2.judge(input) is Ok && p.spec_list().3.judge(input) is Ok && p.spec_list().4.judge(input) is Ok && p.spec_list().5.judge(input) is Ok && p.spec_list().6.judge(input) is Ok && p.spec_list().7.judge(input) is Ok && p.spec_list().8.judge(input) is Ok && p.spec_list().9.judge(input) is Ok && p.spec_list().10.judge(input) is Err ==> p.judge(input) == p.spec_list().10.judge(input),
{
}

/// `and` of 12 predicates matches exactly when every one matches; it fails
/// with the failure of the first one that fails, and tests none after it.
pub proof fn lemma_and12<Input: Inspect + ?Sized, A: Predicate<Input>, B: Predicate<Input>, C: Predicate<Input>, D: Predicate<Input>, E: Predicate<Input>, F: Predicate<Input>, G: Predicate<Input>, H: Predicate<Input>, I: Predicate<Input>, J: Predicate<Input>, K: Predicate<Input>, L: Predicate<Input>>(
    p: And<(A, B, C, D, E, F, G, H, I, J, K, L)>,
    input: Input::Model,
)
    ensures
        (p.judge(input) is Ok) <==> (p.spec_list().0.judge(input) is Ok && p.spec_list().1.judge(input) is Ok && p.spec_list().2.judge(input) is Ok && p.spec_list().3.judge(input) is Ok && p.spec_list().4.judge(input) is Ok && p.spec_list().5.judge(input) is Ok && p.spec_list().6.judge(input) is Ok && p.spec_list().7.judge(input) is Ok && p.spec_list().8.judge(input) is Ok && p.spec_list().9.judge(input) is Ok && p.spec_list().10.judge(input) is Ok && p.spec_list().11.judge(input) is Ok),
        p.spec_list().0.judge(input) is Err ==> p.judge(input) == p.spec_list().0.judge(input),
        p.spec_list().0.judge(input) is Ok && p.spec_list().1.judge(input) is Err ==> p.judge(input) == p.spec_list().1.judge(input),
        p.spec_list().0.judge(input) is Ok && p.spec_list().1.judge(input) is Ok && p.spec_list().2.judge(input) is Err ==> p.judge(input) == p.spec_list().2.judge(input),
        p.spec_list().0.judge(input) is Ok && p.spec_list().1.judge(input) is Ok && p.spec_list().2.judge(input) is Ok && p.spec_list().3.judge(input) is Err ==> p.judge(input) == p.spec_list().3.judge(input),
        p.spec_list().0.judge(input) is Ok && p.spec_list().1.judge(input) is Ok && p.spec_list().2.judge(input) is Ok && p.spec_list().3.judge(input) is Ok && p.spec_list().4.judge(input) is Err ==> p.judge(input) == p.spec_list().4.judge(input),
        p.spec_list().0.judge(input) is Ok && p.spec_list().1.judge(input) is Ok && p.spec_list().2.judge(input) is Ok && p.spec_list().3.judge(input) is Ok && p.spec_list().4.judge(input) is Ok && p.spec_list().5.judge(input) is Err ==> p.judge(input) == p.spec_list().5.judge(input),
        p.spec_list().0.judge(input) is Ok && p.spec_list().1.judge(input) is Ok && p.spec_list().2.judge(input) is Ok && p.spec_list().3.judge(input) is Ok && p.spec_list().4.judge(input) is Ok && p.spec_list().5.judge(input) is Ok && p.spec_list().6.judge(input) is Err ==> p.judge(input) == p.spec_list().6.judge(input),
        p.spec_list().0.judge(input) is Ok && p.spec_list().1.judge(input) is Ok && p.spec_list().2.judge(input) is Ok && p.spec_list().3.judge(input) is Ok && p.spec_list().4.judge(input) is Ok && p.spec_list().5.judge(input) is Ok && p.spec_list().6.judge(input) is Ok && p.spec_list().7.judge(input) is Err ==> p.judge(input) == p.spec_list().7.judge(input),
        p.spec_list().0.judge(input) is Ok && p.spec_list().1.judge(input) is Ok && p.spec_list().2.judge(input) is Ok && p.spec_list().3.judge(input) is Ok && p.spec_list().4.judge(input) is Ok && p.spec_list().5.judge(input) is Ok && p.spec_list().6.judge(input) is Ok && p.spec_list().7.judge(input) is Ok && p.spec_list().8.judge(input) is Err ==> p.judge(input) == p.spec_list().8.judge(input),
        p.spec_list().0.judge(input) is Ok && p.spec_list().1.judge(input) is Ok && p.spec_list().2.judge(input) is Ok && p.spec_list().3.judge(input) is Ok && p.spec_list().4.judge(input) is Ok && p.spec_list().5.judge(input) is Ok && p.spec_list().6.judge(input) is Ok && p.spec_list().7.judge(input) is Ok && p.spec_list().8.judge(input) is Ok && p.spec_list().9.judge(input) is Err ==> p.judge(input) == p.spec_list().9.judge(input),
        p.spec_list().0.judge(input) is Ok && p.spec_list().1.judge(input) is Ok && p.spec_list().2.judge(input) is Ok && p.spec_list().3.judge(input) is Ok && p.spec_list().4.judge(input) is Ok && p.spec_list().5.judge(input) is Ok && p.spec_list().6.judge(input) is Ok && p.spec_list().7.judge(input) is Ok && p.spec_list().8.judge(input) is Ok && p.spec_list().9.judge(input) is Ok && p.spec_list().10.judge(input) is Err ==> p.judge(input) == p.spec_list().10.judge(input),
        p.spec_list().0.judge(input) is Ok && p.spec_list().1.judge(input) is Ok && p.spec_list().2.judge(input) is Ok && p.spec_list().3.judge(input) is Ok && p.spec_list().4.judge(input) is Ok && p.spec_list().5.judge(input) is Ok && p.spec_list().6.judge(input) is Ok && p.spec_list().7.judge(input) is Ok && p.spec_list().8.judge(input) is Ok && p.spec_list().9.judge(input) is Ok && p.spec_list().10.judge(input) is Ok && p.spec_list().11.judge(input) is Err ==> p.judge(input) == p.spec_list().11.judge(input),
{
}

/// `and` of 13 predicates matches exactly when every one matches; it fails
/// with the failure of the first one that fails, and tests none after it.
pub proof fn lemma_and13<Input: Inspect + ?Sized, A: Predicate<Input>, B: Predicate<Input>, C: Predicate<Input>, D: Predicate<Input>, E: Predicate<Input>, F: Predicate<Input>, G: Predicate<Input>, H: Predicate<Input>, I: Predicate<Input>, J: Predicate<Input>, K: Predicate<Input>, L: Predicate<Input>, M: Predicate<Input>>(
    p: And<(A, B, C, D, E, F, G, H, I, J, K, L, M)>,
    input: Input::Model,
)
    ensures
        (p.judge(input) is Ok) <==> (p.spec_list().0.judge(input) is Ok && p.spec_list().1.judge(input) is Ok && p.spec_list().2.judge(input) is Ok && p.spec_list().3.judge(input) is Ok && p.spec_list().4.judge(input) is Ok && p.spec_list().5.judge(input) is Ok && p.spec_list().6.judge(input) is Ok && p.spec_list().7.judge(input) is Ok && p.spec_list().8.judge(input) is Ok && p.spec_list().9.judge(input) is Ok && p.spec_list().10.judge(input) is Ok && p.spec_list().11.judge(input) is Ok && p.spec_list().12.judge(input) is Ok),
        p.spec_list().0.judge(input) is Err ==> p.judge(input) == p.spec_list().0.judge(input),
        p.spec_list().0.judge(input) is Ok && p.spec_list().1.judge(input) is Err ==> p.judge(input) == p.spec_list().1.judge(input),
        p.spec_list().0.judge(input) is Ok && p.spec_list().1.judge(input) is Ok && p.spec_list().2.judge(input) is Err ==> p.judge(input) == p.spec_list().2.judge(input),
        p.spec_list().0.judge(input) is Ok && p.spec_list().1.judge(input) is Ok && p.spec_list().2.judge(input) is Ok && p.spec_list().3.judge(input) is Err ==> p.judge(input) == p.spec_list().3.judge(input),
        p.spec_list().0.judge(input) is Ok && p.spec_list().1.judge(input) is Ok && p.spec_list().2.judge(input) is Ok && p.spec_list().3.judge(input) is Ok && p.spec_list().4.judge(input) is Err ==> p.judge(input) == p.spec_list().4.judge(input),
        p.spec_list().0.judge(input) is Ok && p.spec_list().1.judge(input) is Ok && p.spec_list().2.judge(input) is Ok && p.spec_list().3.judge(input) is Ok && p.spec_list().4.judge(input) is Ok && p.spec_list().5.judge(input) is Err ==> p.judge(input) == p.spec_list().5.judge(input),
        p.spec_list().0.judge(input) is Ok && p.spec_list().1.judge(input) is Ok && p.spec_list().2.judge(input) is Ok && p.spec_list().3.judge(input) is Ok && p.spec_list().4.judge(input) is Ok && p.spec_list().5.judge(input) is Ok && p.spec_list().6.judge(input) is Err ==> p.judge(input) == p.spec_list().6.judge(input),
        p.spec_list().0.judge(input) is Ok && p.spec_list().1.judge(input) is Ok && p.spec_list().2.judge(input) is Ok && p.spec_list().3.judge(input) is Ok && p.spec_list().4.judge(input) is Ok && p.spec_list().5.judge(input) is Ok && p.spec_list().6.judge(input) is Ok && p.spec_list().7.judge(input) is Err ==> p.judge(input) == p.spec_list().7.judge(input),
        p.spec_list().0.judge(input) is Ok && p.spec_list().1.judge(input) is Ok && p.spec_list().2.judge(input) is Ok && p.spec_list().3.judge(input) is Ok && p.spec_list().4.judge(input) is Ok && p.spec_list().5.judge(input) is Ok && p.spec_list().6.judge(input) is Ok && p.spec_list().7.judge(input) is Ok && p.spec_list().8.judge(input) is Err ==> p.judge(input) == p.spec_list().8.judge(input),
        p.spec_list().0.judge(input) is Ok && p.spec_list().1.judge(input) is Ok && p.spec_list().2.judge(input) is Ok && p.spec_list().3.judge(input) is Ok && p.spec_list().4.judge(input) is Ok && p.spec_list().5.judge(input) is Ok && p.spec_list().6.judge(input) is Ok && p.spec_list().7.judge(input) is Ok && p.spec_list().8.judge(input) is Ok && p.spec_list().9.judge(input) is Err ==> p.judge(input) == p.spec_list().9.judge(input),
        p.spec_list().0.judge(input) is Ok && p.spec_list().1.judge(input) is Ok && p.spec_list().2.judge(input) is Ok && p.spec_list().3.judge(input) is Ok && p.spec_list().4.judge(input) is Ok && p.spec_list().5.judge(input) is Ok && p.spec_list().6.judge(input) is Ok && p.spec_list().7.judge(input) is Ok && p.spec_list().8.judge(input) is Ok && p.spec_list().9.judge(input) is Ok && p.spec_list().10.judge(input) is Err ==> p.judge(input) == p.spec_list().10.judge(input),
        p.spec_list().0.judge(input) is Ok && p.spec_list().1.judge(input) is Ok && p.spec_list().2.judge(input) is Ok && p.spec_list().3.judge(input) is Ok && p.spec_list().4.judge(input) is Ok && p.spec_list().5.judge(input) is Ok && p.spec_list().6.judge(input) is Ok && p.spec_list().7.judge(input) is Ok && p.spec_list().8.judge(input) is Ok && p.spec_list().9.judge(input) is Ok && p.spec_list().10.judge(input) is Ok && p.spec_list().11.judge(input) is Err ==> p.judge(input) == p.spec_list().11.judge(input),
        p.spec_list().0.judge(input) is Ok && p.spec_list().1.judge(input) is Ok && p.spec_list().2.judge(input) is Ok && p.spec_list().3.judge(input) is Ok && p.spec_list().4.judge(input) is Ok && p.spec_list().5.judge(input) is Ok && p.spec_list().6.judge(input) is Ok && p.spec_list().7.judge(input) is Ok && p.spec_list().8.judge(input) is Ok && p.spec_list().9.judge(input) is Ok && p.spec_list().10.judge(input) is Ok && p.spec_list().11.judge(input) is Ok && p.spec_list().12.judge(input) is Err ==> p.judge(input) == p.spec_list().12.judge(input),
{
}

/// `and` of 14 predicates matches exactly when every one matches; it fails
/// with the failure of the first one that fails, and tests none after it.
pub proof fn lemma_and14<Input: Inspect + ?Sized, A: Predicate<Input>, B: Predicate<Input>, C: Predicate<Input>, D: Predicate<Input>, E: Predicate<Input>, F: Predicate<Input>, G: Predicate<Input>, H: Predicate<Input>, I: Predicate<Input>, J: Predicate<Input>, K: Predicate<Input>, L: Predicate<Input>, M: Predicate<Input>, N: Predicate<Input>>(
    p: And<(A, B, C, D, E, F, G, H, I, J, K, L, M, N)>,
    input: Input::Model,
)
    ensures
        (p.judge(input) is Ok) <==> (p.spec_list().0.judge(input) is Ok && p.spec_list().1.judge(input) is Ok && p.spec_list().2.judge(input) is Ok && p.spec_list().3.judge(input) is Ok && p.spec_list().4.judge(input) is Ok && p.spec_list().5.judge(input) is Ok && p.spec_list().6.judge(input) is Ok && p.spec_list().7.judge(input) is Ok && p.spec_list().8.judge(input) is Ok && p.spec_list().9.judge(input) is Ok && p.spec_list().10.judge(input) is Ok && p.spec_list().11.judge(input) is Ok && p.spec_list().12.judge(input) is Ok && p.spec_list().13.judge(input) is Ok),
        p.spec_list().0.judge(input) is Err ==> p.judge(input) == p.spec_list().0.judge(input),
        p.spec_list().0.judge(input) is Ok && p.spec_list().1.judge(input) is Err ==> p.judge(input) == p.spec_list().1.judge(input),
        p.spec_list().0.judge(input) is Ok && p.spec_list().1.judge(input) is Ok && p.spec_list().2.judge(input) is Err ==> p.judge(input) == p.spec_list().2.judge(input),
        p.spec_list().0.judge(input) is Ok && p.spec_list().1.judge(input) is Ok && p.spec_list().2.judge(input) is Ok && p.spec_list().3.judge(input) is Err ==> p.judge(input) == p.spec_list().3.judge(input),
        p.spec_list().0.judge(input) is Ok && p.spec_list().1.judge(input) is Ok && p.spec_list().2.judge(input) is Ok && p.spec_list().3.judge(input) is Ok && p.spec_list().4.judge(input) is Err ==> p.judge(input) == p.spec_list().4.judge(input),
        p.spec_list().0.judge(input) is Ok && p.spec_list().1.judge(input) is Ok && p.spec_list().2.judge(input) is Ok && p.spec_list().3.judge(input) is Ok && p.spec_list().4.judge(input) is Ok && p.spec_list().5.judge(input) is Err ==> p.judge(input) == p.spec_list().5.judge(input),
        p.spec_list().0.judge(input) is Ok && p.spec_list().1.judge(input) is Ok && p.spec_list().2.judge(input) is Ok && p.spec_list().3.judge(input) is Ok && p.spec_list().4.judge(input) is Ok && p.spec_list().5.judge(input) is Ok && p.spec_list().6.judge(input) is Err ==> p.judge(input) == p.spec_list().6.judge(input),
        p.spec_list().0.judge(input) is Ok && p.spec_list().1.judge(input) is Ok && p.spec_list().2.judge(input) is Ok && p.spec_list().3.judge(input) is Ok && p.spec_list().4.judge(input) is Ok && p.spec_list().5.judge(input) is Ok && p.spec_list().6.judge(input) is Ok && p.spec_list().7.judge(input) is Err ==> p.judge(input) == p.spec_list().7.judge(input),
        p.spec_list().0.judge(input) is Ok && p.spec_list().1.judge(input) is Ok && p.spec_list().2.judge(input) is Ok && p.spec_list().3.judge(input) is Ok && p.spec_list().4.judge(input) is Ok && p.spec_list().5.judge(input) is Ok && p.spec_list().6.judge(input) is Ok && p.spec_list().7.judge(input) is Ok && p.spec_list().8.judge(input) is Err ==> p.judge(input) == p.spec_list().8.judge(input),
        p.spec_list().0.judge(input) is Ok && p.spec_list().1.judge(input) is Ok && p.spec_list().2.judge(input) is Ok && p.spec_list().3.judge(input) is Ok && p.spec_list().4.judge(input) is Ok && p.spec_list().5.judge(input) is Ok && p.spec_list().6.judge(input) is Ok && p.spec_list().7.judge(input) is Ok && p.spec_list().8.judge(input) is Ok && p.spec_list().9.judge(input) is Err ==> p.judge(input) == p.spec_list().9.judge(input),
        p.spec_list().0.judge(input) is Ok && p.spec_list().1.judge(input) is Ok && p.spec_list().2.judge(input) is Ok && p.spec_list().3.judge(input) is Ok && p.spec_list().4.judge(input) is Ok && p.spec_list().5.judge(input) is Ok && p.spec_list().6.judge(input) is Ok && p.spec_list().7.judge(input) is Ok && p.spec_list().8.judge(input) is Ok && p.spec_list().9.judge(input) is Ok && p.spec_list().10.judge(input) is Err ==> p.judge(input) == p.spec_list().10.judge(input),
        p.spec_list().0.judge(input) is Ok && p.spec_list().1.judge(input) is Ok && p.spec_list().2.judge(input) is Ok && p.spec_list().3.judge(input) is Ok && p.spec_list().4.judge(input) is Ok && p.spec_list().5.judge(input) is Ok && p.spec_list().6.judge(input) is Ok && p.spec_list().7.judge(input) is Ok && p.spec_list().8.judge(input) is Ok && p.spec_list().9.judge(input) is Ok && p.spec_list().10.judge(input) is Ok && p.spec_list().11.judge(input) is Err ==> p.judge(input) == p.spec_list().11.judge(input),
        p.spec_list().0.judge(input) is Ok && p.spec_list().1.judge(input) is Ok && p.spec_list().2.judge(input) is Ok && p.spec_list().3.judge(input) is Ok && p.spec_list().4.judge(input) is Ok && p.spec_list().5.judge(input) is Ok && p.spec_list().6.judge(input) is Ok && p.spec_list().7.judge(input) is Ok && p.spec_list().8.judge(input) is Ok && p.spec_list().9.judge(input) is Ok && p.spec_list().10.judge(input) is Ok && p.spec_list().11.judge(input) is Ok && p.spec_list().12.judge(input) is Err ==> p.judge(input) == p.spec_list().12.judge(input),
        p.spec_list().0.judge(input) is Ok && p.spec_list().1.judge(input) is Ok && p.spec_list().2.judge(input) is Ok && p.spec_list().3.judge(input) is Ok && p.spec_list().4.judge(input) is Ok && p.spec_list().5.judge(input) is Ok && p.spec_list().6.judge(input) is Ok && p.spec_list().7.judge(input) is Ok && p.spec_list().8.judge(input) is Ok && p.spec_list().9.judge(input) is Ok && p.spec_list().10.judge(input) is Ok && p.spec_list().11.judge(input) is Ok && p.spec_list().12.judge(input) is Ok && p.spec_list().13.judge(input) is Err ==> p.judge(input) == p.spec_list().13.judge(input),
{
}

/// `and` of 15 predicates matches exactly when every one matches; it fails
/// with the failure of the first one that fails, and tests none after it.
pub proof fn lemma_and15<Input: Inspect + ?Sized, A: Predicate<Input>, B: Predicate<Input>, C: Predicate<Input>, D: Predicate<Input>, E: Predicate<Input>, F: Predicate<Input>, G: Predicate<Input>, H: Predicate<Input>, I: Predicate<Input>, J: Predicate<Input>, K: Predicate<Input>, L: Predicate<Input>, M: Predicate<Input>, N: Predicate<Input>, O: Predicate<Input>>(
    p: And<(A, B, C, D, E, F, G, H, I, J, K, L, M, N, O)>,
    input: Input::Model,
)
    ensures
        (p.judge(input) is Ok) <==> (p.spec_list().0.judge(input) is Ok && p.spec_list().1.judge(input) is Ok && p.spec_list().2.judge(input) is Ok && p.spec_list().3.judge(input) is Ok && p.spec_list().4.judge(input) is Ok && p.spec_list().5.judge(input) is Ok && p.spec_list().6.judge(input) is Ok && p.spec_list().7.judge(input) is Ok && p.spec_list().8.judge(input) is Ok && p.spec_list().9.judge(input) is Ok && p.spec_list().10.judge(input) is Ok && p.spec_list().11.judge(input) is Ok && p.spec_list().12.judge(input) is Ok && p.spec_list().13.judge(input) is Ok && p.spec_list().14.judge(input) is Ok),
        p.spec_list().0.judge(input) is Err ==> p.judge(input) == p.spec_list().0.judge(input),
        p.spec_list().0.judge(input) is Ok && p.spec_list().1.judge(input) is Err ==> p.judge(input) == p.spec_list().1.judge(input),
        p.spec_list().0.judge(input) is Ok && p.spec_list().1.judge(input) is Ok && p.spec_list().2.judge(input) is Err ==> p.judge(input) == p.spec_list().2.judge(input),
        p.spec_list().0.judge(input) is Ok && p.spec_list().1.judge(input) is Ok && p.spec_list().2.judge(input) is Ok && p.spec_list().3.judge(input) is Err ==> p.judge(input) == p.spec_list().3.judge(input),
        p.spec_list().0.judge(input) is Ok && p.spec_list().1.judge(input) is Ok && p.spec_list().2.judge(input) is Ok && p.spec_list().3.judge(input) is Ok && p.spec_list().4.judge(input) is Err ==> p.judge(input) == p.spec_list().4.judge(input),
        p.spec_list().0.judge(input) is Ok && p.spec_list().1.judge(input) is Ok && p.spec_list().2.judge(input) is Ok && p.spec_list().3.judge(input) is Ok && p.spec_list().4.judge(input) is Ok && p.spec_list().5.judge(input) is Err ==> p.judge(input) == p.spec_list().5.judge(input),
        p.spec_list().0.judge(input) is Ok && p.spec_list().1.judge(input) is Ok && p.spec_list().2.judge(input) is Ok && p.spec_list().3.judge(input) is Ok && p.spec_list().4.judge(input) is Ok && p.spec_list().5.judge(input) is Ok && p.spec_list().6.judge(input) is Err ==> p.judge(input) == p.spec_list().6.judge(input),
        p.spec_list().0.judge(input) is Ok && p.spec_list().1.judge(input) is Ok && p.spec_list().2.judge(input) is Ok && p.spec_list().3.judge(input) is Ok && p.spec_list().4.judge(input) is Ok && p.spec_list().5.judge(input) is Ok && p.spec_list().6.judge(input) is Ok && p.spec_list().7.judge(input) is Err ==> p.judge(input) == p.spec_list().7.judge(input),
        p.spec_list().0.judge(input) is Ok && p.spec_list().1.judge(input) is Ok && p.spec_list().2.judge(input) is Ok && p.spec_list().3.judge(input) is Ok && p.spec_list().4.judge(input) is Ok && p.spec_list().5.judge(input) is Ok && p.spec_list().6.judge(input) is Ok && p.spec_list().7.judge(input) is Ok && p.spec_list().8.judge(input) is Err ==> p.judge(input) == p.spec_list().8.judge(input),
        p.spec_list().0.judge(input) is Ok && p.spec_list().1.judge(input) is Ok && p.spec_list().2.judge(input) is Ok && p.spec_list().3.judge(input) is Ok && p.spec_list().4.judge(input) is Ok && p.spec_list().5.judge(input) is Ok && p.spec_list().6.judge(input) is Ok && p.spec_list().7.judge(input) is Ok && p.spec_list().8.judge(input) is Ok && p.spec_list().9.judge(input) is Err ==> p.judge(input) == p.spec_list().9.judge(input),
        p.spec_list().0.judge(input) is Ok && p.spec_list().1.judge(input) is Ok && p.spec_list().2.judge(input) is Ok && p.spec_list().3.judge(input) is Ok && p.spec_list().4.judge(input) is Ok && p.spec_list().5.judge(input) is Ok && p.spec_list().6.judge(input) is Ok && p.spec_list().7.judge(input) is Ok && p.spec_list().8.judge(input) is Ok && p.spec_list().9.judge(input) is Ok && p.spec_list().10.judge(input) is Err ==> p.judge(input) == p.spec_list().10.judge(input),
        p.spec_list().0.judge(input) is Ok && p.spec_list().1.judge(input) is Ok && p.spec_list().2.judge(input) is Ok && p.spec_list().3.judge(input) is Ok && p.spec_list().4.judge(input) is Ok && p.spec_list().5.judge(input) is Ok && p.spec_list().6.judge(input) is Ok && p.spec_list().7.judge(input) is Ok && p.spec_list().8.judge(input) is Ok && p.spec_list().9.judge(input) is Ok && p.spec_list().10.judge(input) is Ok && p.spec_list().11.judge(input) is Err ==> p.judge(input) == p.spec_list().11.judge(input),
        p.spec_list().0.judge(input) is Ok && p.spec_list().1.judge(input) is Ok && p.spec_list().2.judge(input) is Ok && p.spec_list().3.judge(input) is Ok && p.spec_list().4.judge(input) is Ok && p.spec_list().5.judge(input) is Ok && p.spec_list().6.judge(input) is Ok && p.spec_list().7.judge(input) is Ok && p.spec_list().8.judge(input) is Ok && p.spec_list().9.judge(input) is Ok && p.spec_list().10.judge(input) is Ok && p.spec_list().11.judge(input) is Ok && p.spec_list().12.judge(input) is Err ==> p.judge(input) == p.spec_list().12.judge(input),
        p.spec_list().0.judge(input) is Ok && p.spec_list().1.judge(input) is Ok && p.spec_list().2.judge(input) is Ok && p.spec_list().3.judge(input) is Ok && p.spec_list().4.judge(input) is Ok && p.spec_list().5.judge(input) is Ok && p.spec_list().6.judge(input) is Ok && p.spec_list().7.judge(input) is Ok && p.spec_list().8.judge(input) is Ok && p.spec_list().9.judge(input) is Ok && p.spec_list().10.judge(input) is Ok && p.spec_list().11.judge(input) is Ok && p.spec_list().12.judge(input) is Ok && p.spec_list().13.judge(input) is Err ==> p.judge(input) == p.spec_list().13.judge(input),
        p.spec_list().0.judge(input) is Ok && p.spec_list().1.judge(input) is Ok && p.spec_list().2.judge(input) is Ok && p.spec_list().3.judge(input) is Ok && p.spec_list().4.judge(input) is Ok && p.spec_list().5.judge(input) is Ok && p.spec_list().6.judge(input) is Ok && p.spec_list().7.judge(input) is Ok && p.spec_list().8.judge(input) is Ok && p.spec_list().9.judge(input) is Ok && p.spec_list().10.judge(input) is Ok && p.spec_list().11.judge(input) is Ok && p.spec_list().12.judge(input) is Ok && p.spec_list().13.judge(input) is Ok && p.spec_list().14.judge(input) is Err ==> p.judge(input) == p.spec_list().14.judge(input),
{
}

/// `and` of 16 predicates matches exactly when every one matches; it fails
/// with the failure of the first one that fails, and tests none after it.
pub proof fn lemma_and16<Input: Inspect + ?Sized, A: Predicate<Input>, B: Predicate<Input>, C: Predicate<Input>, D: Predicate<Input>, E: Predicate<Input>, F: Predicate<Input>, G: Predicate<Input>, H: Predicate<Input>, I: Predicate<Input>, J: Predicate<Input>, K: Predicate<Input>, L: Predicate<Input>, M: Predicate<Input>, N: Predicate<Input>, O: Predicate<Input>, P: Predicate<Input>>(
    p: And<(A, B, C, D, E, F, G, H, I, J, K, L, M, N, O, P)>,
    input: Input::Model,
)
    ensures
        (p.judge(input) is Ok) <==> (p.spec_list().0.judge(input) is Ok && p.spec_list().1.judge(input) is Ok && p.spec_list().2.judge(input) is Ok && p.spec_list().3.judge(input) is Ok && p.spec_list().4.judge(input) is Ok && p.spec_list().5.judge(input) is Ok && p.spec_list().6.judge(input) is Ok && p.spec_list().7.judge(input) is Ok && p.spec_list().8.judge(input) is Ok && p.spec_list().9.judge(input) is Ok && p.spec_list().10.judge(input) is Ok && p.spec_list().11.judge(input) is Ok && p.spec_list().12.judge(input) is Ok && p.spec_list().13.judge(input) is Ok && p.spec_list().14.judge(input) is Ok && p.spec_list().15.judge(input) is Ok),
        p.spec_list().0.judge(input) is Err ==> p.judge(input) == p.spec_list().0.judge(input),
        p.spec_list().0.judge(input) is Ok && p.spec_list().1.judge(input) is Err ==> p.judge(input) == p.spec_list().1.judge(input),
        p.spec_list().0.judge(input) is Ok && p.spec_list().1.judge(input) is Ok && p.spec_list().2.judge(input) is Err ==> p.judge(input) == p.spec_list().2.judge(input),
        p.spec_list().0.judge(input) is Ok && p.spec_list().1.judge(input) is Ok && p.spec_list().2.judge(input) is Ok && p.spec_list().3.judge(input) is Err ==> p.judge(input) == p.spec_list().3.judge(input),
        p.spec_list().0.judge(input) is Ok && p.spec_list().1.judge(input) is Ok && p.spec_list().2.judge(input) is Ok && p.spec_list().3.judge(input) is Ok && p.spec_list().4.judge(input) is Err ==> p.judge(input) == p.spec_list().4.judge(input),
        p.spec_list().0.judge(input) is Ok && p.spec_list().1.judge(input) is Ok && p.spec_list().2.judge(input) is Ok && p.spec_list().3.judge(input) is Ok && p.spec_list().4.judge(input) is Ok && p.spec_list().5.judge(input) is Err ==> p.judge(input) == p.spec_list().5.judge(input),
        p.spec_list().0.judge(input) is Ok && p.spec_list().1.judge(input) is Ok && p.spec_list().2.judge(input) is Ok && p.spec_list().3.judge(input) is Ok && p.spec_list().4.judge(input) is Ok && p.spec_list().5.judge(input) is Ok && p.spec_list().6.judge(input) is Err ==> p.judge(input) == p.spec_list().6.judge(input),
        p.spec_list().0.judge(input) is Ok && p.spec_list().1.judge(input) is Ok && p.spec_list().2.judge(input) is Ok && p.spec_list().3.judge(input) is Ok && p.spec_list().4.judge(input) is Ok && p.spec_list().5.judge(input) is Ok && p.spec_list().6.judge(input) is Ok && p.spec_list().7.judge(input) is Err ==> p.judge(input) == p.spec_list().7.judge(input),
        p.spec_list().0.judge(input) is Ok && p.spec_list().1.judge(input) is Ok && p.spec_list().2.judge(input) is Ok && p.spec_list().3.judge(input) is Ok && p.spec_list().4.judge(input) is Ok && p.spec_list().5.judge(input) is Ok && p.spec_list().6.judge(input) is Ok && p.spec_list().7.judge(input) is Ok && p.spec_list().8.judge(input) is Err ==> p.judge(input) == p.spec_list().8.judge(input),
        p.spec_list().0.judge(input) is Ok && p.spec_list().1.judge(input) is Ok && p.spec_list().2.judge(input) is Ok && p.spec_list().3.judge(input) is Ok && p.spec_list().4.judge(input) is Ok && p.spec_list().5.judge(input) is Ok && p.spec_list().6.judge(input) is Ok && p.spec_list().7.judge(input) is Ok && p.spec_list().8.judge(input) is Ok && p.spec_list().9.judge(input) is Err ==> p.judge(input) == p.spec_list().9.judge(input),
        p.spec_list().0.judge(input) is Ok && p.spec_list().1.judge(input) is Ok && p.spec_list().2.judge(input) is Ok && p.spec_list().3.judge(input) is Ok && p.spec_list().4.judge(input) is Ok && p.spec_list().5.judge(input) is Ok && p.spec_list().6.judge(input) is Ok && p.spec_list().7.judge(input) is Ok && p.spec_list().8.judge(input) is Ok && p.spec_list().9.judge(input) is Ok && p.spec_list().10.judge(input) is Err ==> p.judge(input) == p.spec_list().10.judge(input),
        p.spec_list().0.judge(input) is Ok && p.spec_list().1.judge(input) is Ok && p.spec_list().2.judge(input) is Ok && p.spec_list().3.judge(input) is Ok && p.spec_list().4.judge(input) is Ok && p.spec_list().5.judge(input) is Ok && p.spec_list().6.judge(input) is Ok && p.spec_list().7.judge(input) is Ok && p.spec_list().8.judge(input) is Ok && p.spec_list().9.judge(input) is Ok && p.spec_list().10.judge(input) is Ok && p.spec_list().11.judge(input) is Err ==> p.judge(input) == p.spec_list().11.judge(input),
        p.spec_list().0.judge(input) is Ok && p.spec_list().1.judge(input) is Ok && p.spec_list().2.judge(input) is Ok && p.spec_list().3.judge(input) is Ok && p.spec_list().4.judge(input) is Ok && p.spec_list().5.judge(input) is Ok && p.spec_list().6.judge(input) is Ok && p.spec_list().7.judge(input) is Ok && p.spec_list().8.judge(input) is Ok && p.spec_list().9.judge(input) is Ok && p.spec_list().10.judge(input) is Ok && p.spec_list().11.judge(input) is Ok && p.spec_list().12.judge(input) is Err ==> p.judge(input) == p.spec_list().12.judge(input),
        p.spec_list().0.judge(input) is Ok && p.spec_list().1.judge(input) is Ok && p.spec_list().2.judge(input) is Ok && p.spec_list().3.judge(input) is Ok && p.spec_list().4.judge(input) is Ok && p.spec_list().5.judge(input) is Ok && p.spec_list().6.judge(input) is Ok && p.spec_list().7.judge(input) is Ok && p.spec_list().8.judge(input) is Ok && p.spec_list().9.judge(input) is Ok && p.spec_list().10.judge(input) is Ok && p.spec_list().11.judge(input) is Ok && p.spec_list().12.judge(input) is Ok && p.spec_list().13.judge(input) is Err ==> p.judge(input) == p.spec_list().13.judge(input),
        p.spec_list().0.judge(input) is Ok && p.spec_list().1.judge(input) is Ok && p.spec_list().2.judge(input) is Ok && p.spec_list().3.judge(input) is Ok && p.spec_list().4.judge(input) is Ok && p.spec_list().5.judge(input) is Ok && p.spec_list().6.judge(input) is Ok && p.spec_list().7.judge(input) is Ok && p.spec_list().8.judge(input) is Ok && p.spec_list().9.judge(input) is Ok && p.spec_list().10.judge(input) is Ok && p.spec_list().11.judge(input) is Ok && p.spec_list().12.judge(input) is Ok && p.spec_list().13.judge(input) is Ok && p.spec_list().14.judge(input) is Err ==> p.judge(input) == p.spec_list().14.judge(input),
        p.spec_list().0.judge(input) is Ok && p.spec_list().1.judge(input) is Ok && p.spec_list().2.judge(input) is Ok && p.spec_list().3.judge(input) is Ok && p.spec_list().4.judge(input) is Ok && p.spec_list().5.judge(input) is Ok && p.spec_list().6.judge(input) is Ok && p.spec_list().7.judge(input) is Ok && p.spec_list().8.judge(input) is Ok && p.spec_list().9.judge(input) is Ok && p.spec_list().10.judge(input) is Ok && p.spec_list().11.judge(input) is Ok && p.spec_list().12.judge(input) is Ok && p.spec_list().13.judge(input) is Ok && p.spec_list().14.judge(input) is Ok && p.spec_list().15.judge(input) is Err ==> p.judge(input) == p.spec_list().15.judge(input),
{
}

/// `and` of 17 predicates matches exactly when every one matches; it fails
/// with the failure of the first one that fails, and tests none after it.
pub proof fn lemma_and17<Input: Inspect + ?Sized, A: Predicate<Input>, B: Predicate<Input>, C: Predicate<Input>, D: Predicate<Input>, E: Predicate<Input>, F: Predicate<Input>, G: Predicate<Input>, H: Predicate<Input>, I: Predicate<Input>, J: Predicate<Input>, K: Predicate<Input>, L: Predicate<Input>, M: Predicate<Input>, N: Predicate<Input>, O: Predicate<Input>, P: Predicate<Input>, Q: Predicate<Input>>(
    p: And<(A, B, C, D, E, F, G, H, I, J, K, L, M, N, O, P, Q)>,
    input: Input::Model,
)
    ensures
        (p.judge(input) is Ok) <==> (p.spec_list().0.judge(input) is Ok && p.spec_list().1.judge(input) is Ok && p.spec_list().2.judge(input) is Ok && p.spec_list().3.judge(input) is Ok && p.spec_list().4.judge(input) is Ok && p.spec_list().5.judge(input) is Ok && p.spec_list().6.judge(input) is Ok && p.spec_list().7.judge(input) is Ok && p.spec_list().8.judge(input) is Ok && p.spec_list().9.judge(input) is Ok && p.spec_list().10.judge(input) is Ok && p.spec_list().11.judge(input) is Ok && p.spec_list().12.judge(input) is Ok && p.spec_list().13.judge(input) is Ok && p.spec_list().14.judge(input) is Ok && p.spec_list().15.judge(input) is Ok && p.spec_list().16.judge(input) is Ok),
        p.spec_list().0.judge(input) is Err ==> p.judge(input) == p.spec_list().0.judge(input),
        p.spec_list().0.judge(input) is Ok && p.spec_list().1.judge(input) is Err ==> p.judge(input) == p.spec_list().1.judge(input),
        p.spec_list().0.judge(input) is Ok && p.spec_list().1.judge(input) is Ok && p.spec_list().2.judge(input) is Err ==> p.judge(input) == p.spec_list().2.judge(input),
        p.spec_list().0.judge(input) is Ok && p.spec_list().1.judge(input) is Ok && p.spec_list().2.judge(input) is Ok && p.spec_list().3.judge(input) is Err ==> p.judge(input) == p.spec_list().3.judge(input),
        p.spec_list().0.judge(input) is Ok && p.spec_list().1.judge(input) is Ok && p.spec_list().2.judge(input) is Ok && p.spec_list().3.judge(input) is Ok && p.spec_list().4.judge(input) is Err ==> p.judge(input) == p.spec_list().4.judge(input),
        p.spec_list().0.judge(input) is Ok && p.spec_list().1.judge(input) is Ok && p.spec_list().2.judge(input) is Ok && p.spec_list().3.judge(input) is Ok && p.spec_list().4.judge(input) is Ok && p.spec_list().5.judge(input) is Err ==> p.judge(input) == p.spec_list().5.judge(input),
        p.spec_list().0.judge(input) is Ok && p.spec_list().1.judge(input) is Ok && p.spec_list().2.judge(input) is Ok && p.spec_list().3.judge(input) is Ok && p.spec_list().4.judge(input) is Ok && p.spec_list().5.judge(input) is Ok && p.spec_list().6.judge(input) is Err ==> p.judge(input) == p.spec_list().6.judge(input),
        p.spec_list().0.judge(input) is Ok && p.spec_list().1.judge(input) is Ok && p.spec_list().2.judge(input) is Ok && p.spec_list().3.judge(input) is Ok && p.spec_list().4.judge(input) is Ok && p.spec_list().5.judge(input) is Ok && p.spec_list().6.judge(input) is Ok && p.spec_list().7.judge(input) is Err ==> p.judge(input) == p.spec_list().7.judge(input),
        p.spec_list().0.judge(input) is Ok && p.spec_list().1.judge(input) is Ok && p.spec_list().2.judge(input) is Ok && p.spec_list().3.judge(input) is Ok && p.spec_list().4.judge(input) is Ok && p.spec_list().5.judge(input) is Ok && p.spec_list().6.judge(input) is Ok && p.spec_list().7.judge(input) is Ok && p.spec_list().8.judge(input) is Err ==> p.judge(input) == p.spec_list().8.judge(input),
        p.spec_list().0.judge(input) is Ok && p.spec_list().1.judge(input) is Ok && p.spec_list().2.judge(input) is Ok && p.spec_list().3.judge(input) is Ok && p.spec_list().4.judge(input) is Ok && p.spec_list().5.judge(input) is Ok && p.spec_list().6.judge(input) is Ok && p.spec_list().7.judge(input) is Ok && p.spec_list().8.judge(input) is Ok && p.spec_list().9.judge(input) is Err ==> p.judge(input) == p.spec_list().9.judge(input),
        p.spec_list().0.judge(input) is Ok && p.spec_list().1.judge(input) is Ok && p.spec_list().2.judge(input) is Ok && p.spec_list().3.judge(input) is Ok && p.spec_list().4.judge(input) is Ok && p.spec_list().5.judge(input) is Ok && p.spec_list().6.judge(input) is Ok && p.spec_list().7.judge(input) is Ok && p.spec_list().8.judge(input) is Ok && p.spec_list().9.judge(input) is Ok && p.spec_list().10.judge(input) is Err ==> p.judge(input) == p.spec_list().10.judge(input),
        p.spec_list().0.judge(input) is Ok && p.spec_list().1.judge(input) is Ok && p.spec_list().2.judge(input) is Ok && p.spec_list().3.judge(input) is Ok && p.spec_list().4.judge(input) is Ok && p.spec_list().5.judge(input) is Ok && p.spec_list().6.judge(input) is Ok && p.spec_list().7.judge(input) is Ok && p.spec_list().8.judge(input) is Ok && p.spec_list().9.judge(input) is Ok && p.spec_list().10.judge(input) is Ok && p.spec_list().11.judge(input) is Err ==> p.judge(input) == p.spec_list().11.judge(input),
        p.spec_list().0.judge(input) is Ok && p.spec_list().1.judge(input) is Ok && p.spec_list().2.judge(input) is Ok && p.spec_list().3.judge(input) is Ok && p.spec_list().4.judge(input) is Ok && p.spec_list().5.judge(input) is Ok && p.spec_list().6.judge(input) is Ok && p.spec_list().7.judge(input) is Ok && p.spec_list().8.judge(input) is Ok && p.spec_list().9.judge(input) is Ok && p.spec_list().10.judge(input) is Ok && p.spec_list().11.judge(input) is Ok && p.spec_list().12.judge(input) is Err ==> p.judge(input) == p.spec_list().12.judge(input),
        p.spec_list().0.judge(input) is Ok && p.spec_list().1.judge(input) is Ok && p.spec_list().2.judge(input) is Ok && p.spec_list().3.judge(input) is Ok && p.spec_list().4.judge(input) is Ok && p.spec_list().5.judge(input) is Ok && p.spec_list().6.judge(input) is Ok && p.spec_list().7.judge(input) is Ok && p.spec_list().8.judge(input) is Ok && p.spec_list().9.judge(input) is Ok && p.spec_list().10.judge(input) is Ok && p.spec_list().11.judge(input) is Ok && p.spec_list().12.judge(input) is Ok && p.spec_list().13.judge(input) is Err ==> p.judge(input) == p.spec_list().13.judge(input),
        p.spec_list().0.judge(input) is Ok && p.spec_list().1.judge(input) is Ok && p.spec_list().2.judge(input) is Ok && p.spec_list().3.judge(input) is Ok && p.spec_list().4.judge(input) is Ok && p.spec_list().5.judge(input) is Ok && p.spec_list().6.judge(input) is Ok && p.spec_list().7.judge(input) is Ok && p.spec_list().8.judge(input) is Ok && p.spec_list().9.judge(input) is Ok && p.spec_list().10.judge(input) is Ok && p.spec_list().11.judge(input) is Ok && p.spec_list().12.judge(input) is Ok && p.spec_list().13.judge(input) is Ok && p.spec_list().14.judge(input) is Err ==> p.judge(input) == p.spec_list().14.judge(input),
        p.spec_list().0.judge(input) is Ok && p.spec_list().1.judge(input) is Ok && p.spec_list().2.judge(input) is Ok && p.spec_list().3.judge(input) is Ok && p.spec_list().4.judge(input) is Ok && p.spec_list().5.judge(input) is Ok && p.spec_list().6.judge(input) is Ok && p.spec_list().7.judge(input) is Ok && p.spec_list().8.judge(input) is Ok && p.spec_list().9.judge(input) is Ok && p.spec_list().10.judge(input) is Ok && p.spec_list().11.judge(input) is Ok && p.spec_list().12.judge(input) is Ok && p.spec_list().13.judge(input) is Ok && p.spec_list().14.judge(input) is Ok && p.spec_list().15.judge(input) is Err ==> p.judge(input) == p.spec_list().15.judge(input),
        p.spec_list().0.judge(input) is Ok && p.spec_list().1.judge(input) is Ok && p.spec_list().2.judge(input) is Ok && p.spec_list().3.judge(input) is Ok && p.spec_list().4.judge(input) is Ok && p.spec_list().5.judge(input) is Ok && p.spec_list().6.judge(input) is Ok && p.spec_list().7.judge(input) is Ok && p.spec_list().8.judge(input) is Ok && p.spec_list().9.judge(input) is Ok && p.spec_list().10.judge(input) is Ok && p.spec_list().11.judge(input) is Ok && p.spec_list().12.judge(input) is Ok && p.spec_list().13.judge(input) is Ok && p.spec_list().14.judge(input) is Ok && p.spec_list().15.judge(input) is Ok && p.spec_list().16.judge(input) is Err ==> p.judge(input) == p.spec_list().16.judge(input),
{
}

/// `and` of 18 predicates matches exactly when every one matches; it fails
/// with the failure of the first one that fails, and tests none after it.
pub proof fn lemma_and18<Input: Inspect + ?Sized, A: Predicate<Input>, B: Predicate<Input>, C: Predicate<Input>, D: Predicate<Input>, E: Predicate<Input>, F: Predicate<Input>, G: Predicate<Input>, H: Predicate<Input>, I: Predicate<Input>, J: Predicate<Input>, K: Predicate<Input>, L: Predicate<Input>, M: Predicate<Input>, N: Predicate<Input>, O: Predicate<Input>, P: Predicate<Input>, Q: Predicate<Input>, R: Predicate<Input>>(
    p: And<(A, B, C, D, E, F, G, H, I, J, K, L, M, N, O, P, Q, R)>,
    input: Input::Model,
)
    ensures
        (p.judge(input) is Ok) <==> (p.spec_list().0.judge(input) is Ok && p.spec_list().1.judge(input) is Ok && p.spec_list().2.judge(input) is Ok && p.spec_list().3.judge(input) is Ok && p.spec_list().4.judge(input) is Ok && p.spec_list().5.judge(input) is Ok && p.spec_list().6.judge(input) is Ok && p.spec_list().7.judge(input) is Ok && p.spec_list().8.judge(input) is Ok && p.spec_list().9.judge(input) is Ok && p.spec_list().10.judge(input) is Ok && p.spec_list().11.judge(input) is Ok && p.spec_list().12.judge(input) is Ok && p.spec_list().13.judge(input) is Ok && p.spec_list().14.judge(input) is Ok && p.spec_list().15.judge(input) is Ok && p.spec_list().16.judge(input) is Ok && p.spec_list().17.judge(input) is Ok),
        p.spec_list().0.judge(input) is Err ==> p.judge(input) == p.spec_list().0.judge(input),
        p.spec_list().0.judge(input) is Ok && p.spec_list().1.judge(input) is Err ==> p.judge(input) == p.spec_list().1.judge(input),
        p.spec_list().0.judge(input) is Ok && p.spec_list().1.judge(input) is Ok && p.spec_list().2.judge(input) is Err ==> p.judge(input) == p.spec_list().2.judge(input),
        p.spec_list().0.judge(input) is Ok && p.spec_list().1.judge(input) is Ok && p.spec_list().2.judge(input) is Ok && p.spec_list().3.judge(input) is Err ==> p.judge(input) == p.spec_list().3.judge(input),
        p.spec_list().0.judge(input) is Ok && p.spec_list().1.judge(input) is Ok && p.spec_list().2.judge(input) is Ok && p.spec_list().3.judge(input) is Ok && p.spec_list().4.judge(input) is Err ==> p.judge(input) == p.spec_list().4.judge(input),
        p.spec_list().0.judge(input) is Ok && p.spec_list().1.judge(input) is Ok && p.spec_list().2.judge(input) is Ok && p.spec_list().3.judge(input) is Ok && p.spec_list().4.judge(input) is Ok && p.spec_list().5.judge(input) is Err ==> p.judge(input) == p.spec_list().5.judge(input),
        p.spec_list().0.judge(input) is Ok && p.spec_list().1.judge(input) is Ok && p.spec_list().2.judge(input) is Ok && p.spec_list().3.judge(input) is Ok && p.spec_list().4.judge(input) is Ok && p.spec_list().5.judge(input) is Ok && p.spec_list().6.judge(input) is Err ==> p.judge(input) == p.spec_list().6.judge(input),
        p.spec_list().0.judge(input) is Ok && p.spec_list().1.judge(input) is Ok && p.spec_list().2.judge(input) is Ok && p.spec_list().3.judge(input) is Ok && p.spec_list().4.judge(input) is Ok && p.spec_list().5.judge(input) is Ok && p.spec_list().6.judge(input) is Ok && p.spec_list().7.judge(input) is Err ==> p.judge(input) == p.spec_list().7.judge(input),
        p.spec_list().0.judge(input) is Ok && p.spec_list().1.judge(input) is Ok && p.spec_list().2.judge(input) is Ok && p.spec_list().3.judge(input) is Ok && p.spec_list().4.judge(input) is Ok && p.spec_list().5.judge(input) is Ok && p.spec_list().6.judge(input) is Ok && p.spec_list().7.judge(input) is Ok && p.spec_list().8.judge(input) is Err ==> p.judge(input) == p.spec_list().8.judge(input),
        p.spec_list().0.judge(input) is Ok && p.spec_list().1.judge(input) is Ok && p.spec_list().2.judge(input) is Ok && p.spec_list().3.judge(input) is Ok && p.spec_list().4.judge(input) is Ok && p.spec_list().5.judge(input) is Ok && p.spec_list().6.judge(input) is Ok && p.spec_list().7.judge(input) is Ok && p.spec_list().8.judge(input) is Ok && p.spec_list().9.judge(input) is Err ==> p.judge(input) == p.spec_list().9.judge(input),
        p.spec_list().0.judge(input) is Ok && p.spec_list().1.judge(input) is Ok && p.spec_list().2.judge(input) is Ok && p.spec_list().3.judge(input) is Ok && p.spec_list().4.judge(input) is Ok && p.spec_list().5.judge(input) is Ok && p.spec_list().6.judge(input) is Ok && p.spec_list().7.judge(input) is Ok && p.spec_list().8.judge(input) is Ok && p.spec_list().9.judge(input) is Ok && p.spec_list().10.judge(input) is Err ==> p.judge(input) == p.spec_list().10.judge(input),
        p.spec_list().0.judge(input) is Ok && p.spec_list().1.judge(input) is Ok && p.spec_list().2.judge(input) is Ok && p.spec_list().3.judge(input) is Ok && p.spec_list().4.judge(input) is Ok && p.spec_list().5.judge(input) is Ok && p.spec_list().6.judge(input) is Ok && p.spec_list().7.judge(input) is Ok && p.spec_list().8.judge(input) is Ok && p.spec_list().9.judge(input) is Ok && p.spec_list().10.judge(input) is Ok && p.spec_list().11.judge(input) is Err ==> p.judge(input) == p.spec_list().11.judge(input),
        p.spec_list().0.judge(input) is Ok && p.spec_list().1.judge(input) is Ok && p.spec_list().2.judge(input) is Ok && p.spec_list().3.judge(input) is Ok && p.spec_list().4.judge(input) is Ok && p.spec_list().5.judge(input) is Ok && p.spec_list().6.judge(input) is Ok && p.spec_list().7.judge(input) is Ok && p.spec_list().8.judge(input) is Ok && p.spec_list().9.judge(input) is Ok && p.spec_list().10.judge(input) is Ok && p.spec_list().11.judge(input) is Ok && p.spec_list().12.judge(input) is Err ==> p.judge(input) == p.spec_list().12.judge(input),
        p.spec_list().0.judge(input) is Ok && p.spec_list().1.judge(input) is Ok && p.spec_list().2.judge(input) is Ok && p.spec_list().3.judge(input) is Ok && p.spec_list().4.judge(input) is Ok && p.spec_list().5.judge(input) is Ok && p.spec_list().6.judge(input) is Ok && p.spec_list().7.judge(input) is Ok && p.spec_list().8.judge(input) is Ok && p.spec_list().9.judge(input) is Ok && p.spec_list().10.judge(input) is Ok && p.spec_list().11.judge(input) is Ok && p.spec_list().12.judge(input) is Ok && p.spec_list().13.judge(input) is Err ==> p.judge(input) == p.spec_list().13.judge(input),
        p.spec_list().0.judge(input) is Ok && p.spec_list().1.judge(input) is Ok && p.spec_list().2.judge(input) is Ok && p.spec_list().3.judge(input) is Ok && p.spec_list().4.judge(input) is Ok && p.spec_list().5.judge(input) is Ok && p.spec_list().6.judge(input) is Ok && p.spec_list().7.judge(input) is Ok && p.spec_list().8.judge(input) is Ok && p.spec_list().9.judge(input) is Ok && p.spec_list().10.judge(input) is Ok && p.spec_list().11.judge(input) is Ok && p.spec_list().12.judge(input) is Ok && p.spec_list().13.judge(input) is Ok && p.spec_list().14.judge(input) is Err ==> p.judge(input) == p.spec_list().14.judge(input),
        p.spec_list().0.judge(input) is Ok && p.spec_list().1.judge(input) is Ok && p.spec_list().2.judge(input) is Ok && p.spec_list().3.judge(input) is Ok && p.spec_list().4.judge(input) is Ok && p.spec_list().5.judge(input) is Ok && p.spec_list().6.judge(input) is Ok && p.spec_list().7.judge(input) is Ok && p.spec_list().8.judge(input) is Ok && p.spec_list().9.judge(input) is Ok && p.spec_list().10.judge(input) is Ok && p.spec_list().11.judge(input) is Ok && p.spec_list().12.judge(input) is Ok && p.spec_list().13.judge(input) is Ok && p.spec_list().14.judge(input) is Ok && p.spec_list().15.judge(input) is Err ==> p.judge(input) == p.spec_list().15.judge(input),
        p.spec_list().0.judge(input) is Ok && p.spec_list().1.judge(input) is Ok && p.spec_list().2.judge(input) is Ok && p.spec_list().3.judge(input) is Ok && p.spec_list().4.judge(input) is Ok && p.spec_list().5.judge(input) is Ok && p.spec_list().6.judge(input) is Ok && p.spec_list().7.judge(input) is Ok && p.spec_list().8.judge(input) is Ok && p.spec_list().9.judge(input) is Ok && p.spec_list().10.judge(input) is Ok && p.spec_list().11.judge(input) is Ok && p.spec_list().12.judge(input) is Ok && p.spec_list().13.judge(input) is Ok && p.spec_list().14.judge(input) is Ok && p.spec_list().15.judge(input) is Ok && p.spec_list().16.judge(input) is Err ==> p.judge(input) == p.spec_list().16.judge(input),
        p.spec_list().0.judge(input) is Ok && p.spec_list().1.judge(input) is Ok && p.spec_list().2.judge(input) is Ok && p.spec_list().3.judge(input) is Ok && p.spec_list().4.judge(input) is Ok && p.spec_list().5.judge(input) is Ok && p.spec_list().6.judge(input) is Ok && p.spec_list().7.judge(input) is Ok && p.spec_list().8.judge(input) is Ok && p.spec_list().9.judge(input) is Ok && p.spec_list().10.judge(input) is Ok && p.spec_list().11.judge(input) is Ok && p.spec_list().12.judge(input) is Ok && p.spec_list().13.judge(input) is Ok && p.spec_list().14.judge(input) is Ok && p.spec_list().15.judge(input) is Ok && p.spec_list().16.judge(input) is Ok && p.spec_list().17.judge(input) is Err ==> p.judge(input) == p.spec_list().17.judge(input),
{
}

/// `and` of 19 predicates matches exactly when every one matches; it fails
/// with the failure of the first one that fails, and tests none after it.
pub proof fn lemma_and19<Input: Inspect + ?Sized, A: Predicate<Input>, B: Predicate<Input>, C: Predicate<Input>, D: Predicate<Input>, E: Predicate<Input>, F: Predicate<Input>, G: Predicate<Input>, H: Predicate<Input>, I: Predicate<Input>, J: Predicate<Input>, K: Predicate<Input>, L: Predicate<Input>, M: Predicate<Input>, N: Predicate<Input>, O: Predicate<Input>, P: Predicate<Input>, Q: Predicate<Input>, R: Predicate<Input>, S: Predicate<Input>>(
    p: And<(A, B, C, D, E, F, G, H, I, J, K, L, M, N, O, P, Q, R, S)>,
    input: Input::Model,
)
    ensures
        (p.judge(input) is Ok) <==> (p.spec_list().0.judge(input) is Ok && p.spec_list().1.judge(input) is Ok && p.spec_list().2.judge(input) is Ok && p.spec_list().3.judge(input) is Ok && p.spec_list().4.judge(input) is Ok && p.spec_list().5.judge(input) is Ok && p.spec_list().6.judge(input) is Ok && p.spec_list().7.judge(input) is Ok && p.spec_list().8.judge(input) is Ok && p.spec_list().9.judge(input) is Ok && p.spec_list().10.judge(input) is Ok && p.spec_list().11.judge(input) is Ok && p.spec_list().12.judge(input) is Ok && p.spec_list().13.judge(input) is Ok && p.spec_list().14.judge(input) is Ok && p.spec_list().15.judge(input) is Ok && p.spec_list().16.judge(input) is Ok && p.spec_list().17.judge(input) is Ok && p.spec_list().18.judge(input) is Ok),
        p.spec_list().0.judge(input) is Err ==> p.judge(input) == p.spec_list().0.judge(input),
        p.spec_list().0.judge(input) is Ok && p.spec_list().1.judge(input) is Err ==> p.judge(input) == p.spec_list().1.judge(input),
        p.spec_list().0.judge(input) is Ok && p.spec_list().1.judge(input) is Ok && p.spec_list().2.judge(input) is Err ==> p.judge(input) == p.spec_list().2.judge(input),
        p.spec_list().0.judge(input) is Ok && p.spec_list().1.judge(input) is Ok && p.spec_list().2.judge(input) is Ok && p.spec_list().3.judge(input) is Err ==> p.judge(input) == p.spec_list().3.judge(input),
        p.spec_list().0.judge(input) is Ok && p.spec_list().1.judge(input) is Ok && p.spec_list().2.judge(input) is Ok && p.spec_list().3.judge(input) is Ok && p.spec_list().4.judge(input) is Err ==> p.judge(input) == p.spec_list().4.judge(input),
        p.spec_list().0.judge(input) is Ok && p.spec_list().1.judge(input) is Ok && p.spec_list().2.judge(input) is Ok && p.spec_list().3.judge(input) is Ok && p.spec_list().4.judge(input) is Ok && p.spec_list().5.judge(input) is Err ==> p.judge(input) == p.spec_list().5.judge(input),
        p.spec_list().0.judge(input) is Ok && p.spec_list().1.judge(input) is Ok && p.spec_list().2.judge(input) is Ok && p.spec_list().3.judge(input) is Ok && p.spec_list().4.judge(input) is Ok && p.spec_list().5.judge(input) is Ok && p.spec_list().6.judge(input) is Err ==> p.judge(input) == p.spec_list().6.judge(input),
        p.spec_list().0.judge(input) is Ok && p.spec_list().1.judge(input) is Ok && p.spec_list().2.judge(input) is Ok && p.spec_list().3.judge(input) is Ok && p.spec_list().4.judge(input) is Ok && p.spec_list().5.judge(input) is Ok && p.spec_list().6.judge(input) is Ok && p.spec_list().7.judge(input) is Err ==> p.judge(input) == p.spec_list().7.judge(input),
        p.spec_list().0.judge(input) is Ok && p.spec_list().1.judge(input) is Ok && p.spec_list().2.judge(input) is Ok && p.spec_list().3.judge(input) is Ok && p.spec_list().4.judge(input) is Ok && p.spec_list().5.judge(input) is Ok && p.spec_list().6.judge(input) is Ok && p.spec_list().7.judge(input) is Ok && p.spec_list().8.judge(input) is Err ==> p.judge(input) == p.spec_list().8.judge(input),
        p.spec_list().0.judge(input) is Ok && p.spec_list().1.judge(input) is Ok && p.spec_list().2.judge(input) is Ok && p.spec_list().3.judge(input) is Ok && p.spec_list().4.judge(input) is Ok && p.spec_list().5.judge(input) is Ok && p.spec_list().6.judge(input) is Ok && p.spec_list().7.judge(input) is Ok && p.spec_list().8.judge(input) is Ok && p.spec_list().9.judge(input) is Err ==> p.judge(input) == p.spec_list().9.judge(input),
        p.spec_list().0.judge(input) is Ok && p.spec_list().1.judge(input) is Ok && p.spec_list().2.judge(input) is Ok && p.spec_list().3.judge(input) is Ok && p.spec_list().4.judge(input) is Ok && p.spec_list().5.judge(input) is Ok && p.spec_list().6.judge(input) is Ok && p.spec_list().7.judge(input) is Ok && p.spec_list().8.judge(input) is Ok && p.spec_list().9.judge(input) is Ok && p.spec_list().10.judge(input) is Err ==> p.judge(input) == p.spec_list().10.judge(input),
        p.spec_list().0.judge(input) is Ok && p.spec_list().1.judge(input) is Ok && p.spec_list().2.judge(input) is Ok && p.spec_list().3.judge(input) is Ok && p.spec_list().4.judge(input) is Ok && p.spec_list().5.judge(input) is Ok && p.spec_list().6.judge(input) is Ok && p.spec_list().7.judge(input) is Ok && p.spec_list().8.judge(input) is Ok && p.spec_list().9.judge(input) is Ok && p.spec_list().10.judge(input) is Ok && p.spec_list().11.judge(input) is Err ==> p.judge(input) == p.spec_list().11.judge(input),
        p.spec_list().0.judge(input) is Ok && p.spec_list().1.judge(input) is Ok && p.spec_list().2.judge(input) is Ok && p.spec_list().3.judge(input) is Ok && p.spec_list().4.judge(input) is Ok && p.spec_list().5.judge(input) is Ok && p.spec_list().6.judge(input) is Ok && p.spec_list().7.judge(input) is Ok && p.spec_list().8.judge(input) is Ok && p.spec_list().9.judge(input) is Ok && p.spec_list().10.judge(input) is Ok && p.spec_list().11.judge(input) is Ok && p.spec_list().12.judge(input) is Err ==> p.judge(input) == p.spec_list().12.judge(input),
        p.spec_list().0.judge(input) is Ok && p.spec_list().1.judge(input) is Ok && p.spec_list().2.judge(input) is Ok && p.spec_list().3.judge(input) is Ok && p.spec_list().4.judge(input) is Ok && p.spec_list().5.judge(input) is Ok && p.spec_list().6.judge(input) is Ok && p.spec_list().7.judge(input) is Ok && p.spec_list().8.judge(input) is Ok && p.spec_list().9.judge(input) is Ok && p.spec_list().10.judge(input) is Ok && p.spec_list().11.judge(input) is Ok && p.spec_list().12.judge(input) is Ok && p.spec_list().13.judge(input) is Err ==> p.judge(input) == p.spec_list().13.judge(input),
        p.spec_list().0.judge(input) is Ok && p.spec_list().1.judge(input) is Ok && p.spec_list().2.judge(input) is Ok && p.spec_list().3.judge(input) is Ok && p.spec_list().4.judge(input) is Ok && p.spec_list().5.judge(input) is Ok && p.spec_list().6.judge(input) is Ok && p.spec_list().7.judge(input) is Ok && p.spec_list().8.judge(input) is Ok && p.spec_list().9.judge(input) is Ok && p.spec_list().10.judge(input) is Ok && p.spec_list().11.judge(input) is Ok && p.spec_list().12.judge(input) is Ok && p.spec_list().13.judge(input) is Ok && p.spec_list().14.judge(input) is Err ==> p.judge(input) == p.spec_list().14.judge(input),
        p.spec_list().0.judge(input) is Ok && p.spec_list().1.judge(input) is Ok && p.spec_list().2.judge(input) is Ok && p.spec_list().3.judge(input) is Ok && p.spec_list().4.judge(input) is Ok && p.spec_list().5.judge(input) is Ok && p.spec_list().6.judge(input) is Ok && p.spec_list().7.judge(input) is Ok && p.spec_list().8.judge(input) is Ok && p.spec_list().9.judge(input) is Ok && p.spec_list().10.judge(input) is Ok && p.spec_list().11.judge(input) is Ok && p.spec_list().12.judge(input) is Ok && p.spec_list().13.judge(input) is Ok && p.spec_list().14.judge(input) is Ok && p.spec_list().15.judge(input) is Err ==> p.judge(input) == p.spec_list().15.judge(input),
        p.spec_list().0.judge(input) is Ok && p.spec_list().1.judge(input) is Ok && p.spec_list().2.judge(input) is Ok && p.spec_list().3.judge(input) is Ok && p.spec_list().4.judge(input) is Ok && p.spec_list().5.judge(input) is Ok && p.spec_list().6.judge(input) is Ok && p.spec_list().7.judge(input) is Ok && p.spec_list().8.judge(input) is Ok && p.spec_list().9.judge(input) is Ok && p.spec_list().10.judge(input) is Ok && p.spec_list().11.judge(input) is Ok && p.spec_list().12.judge(input) is Ok && p.spec_list().13.judge(input) is Ok && p.spec_list().14.judge(input) is Ok && p.spec_list().15.judge(input) is Ok && p.spec_list().16.judge(input) is Err ==> p.judge(input) == p.spec_list().16.judge(input),
        p.spec_list().0.judge(input) is Ok && p.spec_list().1.judge(input) is Ok && p.spec_list().2.judge(input) is Ok && p.spec_list().3.judge(input) is Ok && p.spec_list().4.judge(input) is Ok && p.spec_list().5.judge(input) is Ok && p.spec_list().6.judge(input) is Ok && p.spec_list().7.judge(input) is Ok && p.spec_list().8.judge(input) is Ok && p.spec_list().9.judge(input) is Ok && p.spec_list().10.judge(input) is Ok && p.spec_list().11.judge(input) is Ok && p.spec_list().12.judge(input) is Ok && p.spec_list().13.judge(input) is Ok && p.spec_list().14.judge(input) is Ok && p.spec_list().15.judge(input) is Ok && p.spec_list().16.judge(input) is Ok && p.spec_list().17.judge(input) is Err ==> p.judge(input) == p.spec_list().17.judge(input),
        p.spec_list().0.judge(input) is Ok && p.spec_list().1.judge(input) is Ok && p.spec_list().2.judge(input) is Ok && p.spec_list().3.judge(input) is Ok && p.spec_list().4.judge(input) is Ok && p.spec_list().5.judge(input) is Ok && p.spec_list().6.judge(input) is Ok && p.spec_list().7.judge(input) is Ok && p.spec_list().8.judge(input) is Ok && p.spec_list().9.judge(input) is Ok && p.spec_list().10.judge(input) is Ok && p.spec_list().11.judge(input) is Ok && p.spec_list().12.judge(input) is Ok && p.spec_list().13.judge(input) is Ok && p.spec_list().14.judge(input) is Ok && p.spec_list().15.judge(input) is Ok && p.spec_list().16.judge(input) is Ok && p.spec_list().17.judge(input) is Ok && p.spec_list().18.judge(input) is Err ==> p.judge(input) == p.spec_list().18.judge(input),
{
}

/// `and` of 20 predicates matches exactly when every one matches; it fails
/// with the failure of the first one that fails, and tests none after it.
pub proof fn lemma_and20<Input: Inspect + ?Sized, A: Predicate<Input>, B: Predicate<Input>, C: Predicate<Input>, D: Predicate<Input>, E: Predicate<Input>, F: Predicate<Input>, G: Predicate<Input>, H: Predicate<Input>, I: Predicate<Input>, J: Predicate<Input>, K: Predicate<Input>, L: Predicate<Input>, M: Predicate<Input>, N: Predicate<Input>, O: Predicate<Input>, P: Predicate<Input>, Q: Predicate<Input>, R: Predicate<Input>, S: Predicate<Input>, T: Predicate<Input>>(
    p: And<(A, B, C, D, E, F, G, H, I, J, K, L, M, N, O, P, Q, R, S, T)>,
    input: Input::Model,
)
    ensures
        (p.judge(input) is Ok) <==> (p.spec_list().0.judge(input) is Ok && p.spec_list().1.judge(input) is Ok && p.spec_list().2.judge(input) is Ok && p.spec_list().3.judge(input) is Ok && p.spec_list().4.judge(input) is Ok && p.spec_list().5.judge(input) is Ok && p.spec_list().6.judge(input) is Ok && p.spec_list().7.judge(input) is Ok && p.spec_list().8.judge(input) is Ok && p.spec_list().9.judge(input) is Ok && p.spec_list().10.judge(input) is Ok && p.spec_list().11.judge(input) is Ok && p.spec_list().12.judge(input) is Ok && p.spec_list().13.judge(input) is Ok && p.spec_list().14.judge(input) is Ok && p.spec_list().15.judge(input) is Ok && p.spec_list().16.judge(input) is Ok && p.spec_list().17.judge(input) is Ok && p.spec_list().18.judge(input) is Ok && p.spec_list().19.judge(input) is Ok),
        p.spec_list().0.judge(input) is Err ==> p.judge(input) == p.spec_list().0.judge(input),
        p.spec_list().0.judge(input) is Ok && p.spec_list().1.judge(input) is Err ==> p.judge(input) == p.spec_list().1.judge(input),
        p.spec_list().0.judge(input) is Ok && p.spec_list().1.judge(input) is Ok && p.spec_list().2.judge(input) is Err ==> p.judge(input) == p.spec_list().2.judge(input),
        p.spec_list().0.judge(input) is Ok && p.spec_list().1.judge(input) is Ok && p.spec_list().2.judge(input) is Ok && p.spec_list().3.judge(input) is Err ==> p.judge(input) == p.spec_list().3.judge(input),
        p.spec_list().0.judge(input) is Ok && p.spec_list().1.judge(input) is Ok && p.spec_list().2.judge(input) is Ok && p.spec_list().3.judge(input) is Ok && p.spec_list().4.judge(input) is Err ==> p.judge(input) == p.spec_list().4.judge(input),
        p.spec_list().0.judge(input) is Ok && p.spec_list().1.judge(input) is Ok && p.spec_list().2.judge(input) is Ok && p.spec_list().3.judge(input) is Ok && p.spec_list().4.judge(input) is Ok && p.spec_list().5.judge(input) is Err ==> p.judge(input) == p.spec_list().5.judge(input),
        p.spec_list().0.judge(input) is Ok && p.spec_list().1.judge(input) is Ok && p.spec_list().2.judge(input) is Ok && p.spec_list().3.judge(input) is Ok && p.spec_list().4.judge(input) is Ok && p.spec_list().5.judge(input) is Ok && p.spec_list().6.judge(input) is Err ==> p.judge(input) == p.spec_list().6.judge(input),
        p.spec_list().0.judge(input) is Ok && p.spec_list().1.judge(input) is Ok && p.spec_list().2.judge(input) is Ok && p.spec_list().3.judge(input) is Ok && p.spec_list().4.judge(input) is Ok && p.spec_list().5.judge(input) is Ok && p.spec_list().6.judge(input) is Ok && p.spec_list().7.judge(input) is Err ==> p.judge(input) == p.spec_list().7.judge(input),
        p.spec_list().0.judge(input) is Ok && p.spec_list().1.judge(input) is Ok && p.spec_list().2.judge(input) is Ok && p.spec_list().3.judge(input) is Ok && p.spec_list().4.judge(input) is Ok && p.spec_list().5.judge(input) is Ok && p.spec_list().6.judge(input) is Ok && p.spec_list().7.judge(input) is Ok && p.spec_list().8.judge(input) is Err ==> p.judge(input) == p.spec_list().8.judge(input),
        p.spec_list().0.judge(input) is Ok && p.spec_list().1.judge(input) is Ok && p.spec_list().2.judge(input) is Ok && p.spec_list().3.judge(input) is Ok && p.spec_list().4.judge(input) is Ok && p.spec_list().5.judge(input) is Ok && p.spec_list().6.judge(input) is Ok && p.spec_list().7.judge(input) is Ok && p.spec_list().8.judge(input) is Ok && p.spec_list().9.judge(input) is Err ==> p.judge(input) == p.spec_list().9.judge(input),
        p.spec_list().0.judge(input) is Ok && p.spec_list().1.judge(input) is Ok && p.spec_list().2.judge(input) is Ok && p.spec_list().3.judge(input) is Ok && p.spec_list().4.judge(input) is Ok && p.spec_list().5.judge(input) is Ok && p.spec_list().6.judge(input) is Ok && p.spec_list().7.judge(input) is Ok && p.spec_list().8.judge(input) is Ok && p.spec_list().9.judge(input) is Ok && p.spec_list().10.judge(input) is Err ==> p.judge(input) == p.spec_list().10.judge(input),
        p.spec_list().0.judge(input) is Ok && p.spec_list().1.judge(input) is Ok && p.spec_list().2.judge(input) is Ok && p.spec_list().3.judge(input) is Ok && p.spec_list().4.judge(input) is Ok && p.spec_list().5.judge(input) is Ok && p.spec_list().6.judge(input) is Ok && p.spec_list().7.judge(input) is Ok && p.spec_list().8.judge(input) is Ok && p.spec_list().9.judge(input) is Ok && p.spec_list().10.judge(input) is Ok && p.spec_list().11.judge(input) is Err ==> p.judge(input) == p.spec_list().11.judge(input),
        p.spec_list().0.judge(input) is Ok && p.spec_list().1.judge(input) is Ok && p.spec_list().2.judge(input) is Ok && p.spec_list().3.judge(input) is Ok && p.spec_list().4.judge(input) is Ok && p.spec_list().5.judge(input) is Ok && p.spec_list().6.judge(input) is Ok && p.spec_list().7.judge(input) is Ok && p.spec_list().8.judge(input) is Ok && p.spec_list().9.judge(input) is Ok && p.spec_list().10.judge(input) is Ok && p.spec_list().11.judge(input) is Ok && p.spec_list().12.judge(input) is Err ==> p.judge(input) == p.spec_list().12.judge(input),
        p.spec_list().0.judge(input) is Ok && p.spec_list().1.judge(input) is Ok && p.spec_list().2.judge(input) is Ok && p.spec_list().3.judge(input) is Ok && p.spec_list().4.judge(input) is Ok && p.spec_list().5.judge(input) is Ok && p.spec_list().6.judge(input) is Ok && p.spec_list().7.judge(input) is Ok && p.spec_list().8.judge(input) is Ok && p.spec_list().9.judge(input) is Ok && p.spec_list().10.judge(input) is Ok && p.spec_list().11.judge(input) is Ok && p.spec_list().12.judge(input) is Ok && p.spec_list().13.judge(input) is Err ==> p.judge(input) == p.spec_list().13.judge(input),
        p.spec_list().0.judge(input) is Ok && p.spec_list().1.judge(input) is Ok && p.spec_list().2.judge(input) is Ok && p.spec_list().3.judge(input) is Ok && p.spec_list().4.judge(input) is Ok && p.spec_list().5.judge(input) is Ok && p.spec_list().6.judge(input) is Ok && p.spec_list().7.judge(input) is Ok && p.spec_list().8.judge(input) is Ok && p.spec_list().9.judge(input) is Ok && p.spec_list().10.judge(input) is Ok && p.spec_list().11.judge(input) is Ok && p.spec_list().12.judge(input) is Ok && p.spec_list().13.judge(input) is Ok && p.spec_list().14.judge(input) is Err ==> p.judge(input) == p.spec_list().14.judge(input),
        p.spec_list().0.judge(input) is Ok && p.spec_list().1.judge(input) is Ok && p.spec_list().2.judge(input) is Ok && p.spec_list().3.judge(input) is Ok && p.spec_list().4.judge(input) is Ok && p.spec_list().5.judge(input) is Ok && p.spec_list().6.judge(input) is Ok && p.spec_list().7.judge(input) is Ok && p.spec_list().8.judge(input) is Ok && p.spec_list().9.judge(input) is Ok && p.spec_list().10.judge(input) is Ok && p.spec_list().11.judge(input) is Ok && p.spec_list().12.judge(input) is Ok && p.spec_list().13.judge(input) is Ok && p.spec_list().14.judge(input) is Ok && p.spec_list().15.judge(input) is Err ==> p.judge(input) == p.spec_list().15.judge(input),
        p.spec_list().0.judge(input) is Ok && p.spec_list().1.judge(input) is Ok && p.spec_list().2.judge(input) is Ok && p.spec_list().3.judge(input) is Ok && p.spec_list().4.judge(input) is Ok && p.spec_list().5.judge(input) is Ok && p.spec_list().6.judge(input) is Ok && p.spec_list().7.judge(input) is Ok && p.spec_list().8.judge(input) is Ok && p.spec_list().9.judge(input) is Ok && p.spec_list().10.judge(input) is Ok && p.spec_list().11.judge(input) is Ok && p.spec_list().12.judge(input) is Ok && p.spec_list().13.judge(input) is Ok && p.spec_list().14.judge(input) is Ok && p.spec_list().15.judge(input) is Ok && p.spec_list().16.judge(input) is Err ==> p.judge(input) == p.spec_list().16.judge(input),
        p.spec_list().0.judge(input) is Ok && p.spec_list().1.judge(input) is Ok && p.spec_list().2.judge(input) is Ok && p.spec_list().3.judge(input) is Ok && p.spec_list().4.judge(input) is Ok && p.spec_list().5.judge(input) is Ok && p.spec_list().6.judge(input) is Ok && p.spec_list().7.judge(input) is Ok && p.spec_list().8.judge(input) is Ok && p.spec_list().9.judge(input) is Ok && p.spec_list().10.judge(input) is Ok && p.spec_list().11.judge(input) is Ok && p.spec_list().12.judge(input) is Ok && p.spec_list().13.judge(input) is Ok && p.spec_list().14.judge(input) is Ok && p.spec_list().15.judge(input) is Ok && p.spec_list().16.judge(input) is Ok && p.spec_list().17.judge(input) is Err ==> p.judge(input) == p.spec_list().17.judge(input),
        p.spec_list().0.judge(input) is Ok && p.spec_list().1.judge(input) is Ok && p.spec_list().2.judge(input) is Ok && p.spec_list().3.judge(input) is Ok && p.spec_list().4.judge(input) is Ok && p.spec_list().5.judge(input) is Ok && p.spec_list().6.judge(input) is Ok && p.spec_list().7.judge(input) is Ok && p.spec_list().8.judge(input) is Ok && p.spec_list().9.judge(input) is Ok && p.spec_list().10.judge(input) is Ok && p.spec_list().11.judge(input) is Ok && p.spec_list().12.judge(input) is Ok && p.spec_list().13.judge(input) is Ok && p.spec_list().14.judge(input) is Ok && p.spec_list().15.judge(input) is Ok && p.spec_list().16.judge(input) is Ok && p.spec_list().17.judge(input) is Ok && p.spec_list().18.judge(input) is Err ==> p.judge(input) == p.spec_list().18.judge(input),
        p.spec_list().0.judge(input) is Ok && p.spec_list().1.judge(input) is Ok && p.spec_list().2.judge(input) is Ok && p.spec_list().3.judge(input) is Ok && p.spec_list().4.judge(input) is Ok && p.spec_list().5.judge(input) is Ok && p.spec_list().6.judge(input) is Ok && p.spec_list().7.judge(input) is Ok && p.spec_list().8.judge(input) is Ok && p.spec_list().9.judge(input) is Ok && p.spec_list().10.judge(input) is Ok && p.spec_list().11.judge(input) is Ok && p.spec_list().12.judge(input) is Ok && p.spec_list().13.judge(input) is Ok && p.spec_list().14.judge(input) is Ok && p.spec_list().15.judge(input) is Ok && p.spec_list().16.judge(input) is Ok && p.spec_list().17.judge(input) is Ok && p.spec_list().18.judge(input) is Ok && p.spec_list().19.judge(input) is Err ==> p.judge(input) == p.spec_list().19.judge(input),
{
}

/// `or` of 3 predicates matches exactly when one of them matches; when
/// none does, it fails with the failure of the last one.
pub proof fn lemma_or3<Input: Inspect + ?Sized, A: Predicate<Input>, B: Predicate<Input>, C: Predicate<Input>>(
    p: Or<(A, B, C)>,
    input: Input::Model,
)
    ensures
        (p.judge(input) is Ok) <==> (p.spec_list().0.judge(input) is Ok || p.spec_list().1.judge(input) is Ok || p.spec_list().2.judge(input) is Ok),
        p.spec_list().0.judge(input) is Err && p.spec_list().1.judge(input) is Err && p.spec_list().2.judge(input) is Err ==> p.judge(input) == p.spec_list().2.judge(input),
{
}

/// `or` of 4 predicates matches exactly when one of them matches; when
/// none does, it fails with the failure of the last one.
pub proof fn lemma_or4<Input: Inspect + ?Sized, A: Predicate<Input>, B: Predicate<Input>, C: Predicate<Input>, D: Predicate<Input>>(
    p: Or<(A, B, C, D)>,
    input: Input::Model,
)
    ensures
        (p.judge(input) is Ok) <==> (p.spec_list().0.judge(input) is Ok || p.spec_list().1.judge(input) is Ok || p.spec_list().2.judge(input) is Ok || p.spec_list().3.judge(input) is Ok),
        p.spec_list().0.judge(input) is Err && p.spec_list().1.judge(input) is Err && p.spec_list().2.judge(input) is Err && p.spec_list().3.judge(input) is Err ==> p.judge(input) == p.spec_list().3.judge(input),
{
}

/// `or` of 5 predicates matches exactly when one of them matches; when
/// none does, it fails with the failure of the last one.
pub proof fn lemma_or5<Input: Inspect + ?Sized, A: Predicate<Input>, B: Predicate<Input>, C: Predicate<Input>, D: Predicate<Input>, E: Predicate<Input>>(
    p: Or<(A, B, C, D, E)>,
    input: Input::Model,
)
    ensures
        (p.judge(input) is Ok) <==> (p.spec_list().0.judge(input) is Ok || p.spec_list().1.judge(input) is Ok || p.spec_list().2.judge(input) is Ok || p.spec_list().3.judge(input) is Ok || p.spec_list().4.judge(input) is Ok),
        p.spec_list().0.judge(input) is Err && p.spec_list().1.judge(input) is Err && p.spec_list().2.judge(input) is Err && p.spec_list().3.judge(input) is Err && p.spec_list().4.judge(input) is Err ==> p.judge(input) == p.spec_list().4.judge(input),
{
}

/// `or` of 6 predicates matches exactly when one of them matches; when
/// none does, it fails with the failure of the last one.
pub proof fn lemma_or6<Input: Inspect + ?Sized, A: Predicate<Input>, B: Predicate<Input>, C: Predicate<Input>, D: Predicate<Input>, E: Predicate<Input>, F: Predicate<Input>>(
    p: Or<(A, B, C, D, E, F)>,
    input: Input::Model,
)
    ensures
        (p.judge(input) is Ok) <==> (p.spec_list().0.judge(input) is Ok || p.spec_list().1.judge(input) is Ok || p.spec_list().2.judge(input) is Ok || p.spec_list().3.judge(input) is Ok || p.spec_list().4.judge(input) is Ok || p.spec_list().5.judge(input) is Ok),
        p.spec_list().0.judge(input) is Err && p.spec_list().1.judge(input) is Err && p.spec_list().2.judge(input) is Err && p.spec_list().3.judge(input) is Err && p.spec_list().4.judge(input) is Err && p.spec_list().5.judge(input) is Err ==> p.judge(input) == p.spec_list().5.judge(input),
{
}

/// `or` of 7 predicates matches exactly when one of them matches; when
/// none does, it fails with the failure of the last one.
pub proof fn lemma_or7<Input: Inspect + ?Sized, A: Predicate<Input>, B: Predicate<Input>, C: Predicate<Input>, D: Predicate<Input>, E: Predicate<Input>, F: Predicate<Input>, G: Predicate<Input>>(
    p: Or<(A, B, C, D, E, F, G)>,
    input: Input::Model,
)
    ensures
        (p.judge(input) is Ok) <==> (p.spec_list().0.judge(input) is Ok || p.spec_list().1.judge(input) is Ok || p.spec_list().2.judge(input) is Ok || p.spec_list().3.judge(input) is Ok || p.spec_list().4.judge(input) is Ok || p.spec_list().5.judge(input) is Ok || p.spec_list().6.judge(input) is Ok),
        p.spec_list().0.judge(input) is Err && p.spec_list().1.judge(input) is Err && p.spec_list().2.judge(input) is Err && p.spec_list().3.judge(input) is Err && p.spec_list().4.judge(input) is Err && p.spec_list().5.judge(input) is Err && p.spec_list().6.judge(input) is Err ==> p.judge(input) == p.spec_list().6.judge(input),
{
}

/// `or` of 8 predicates matches exactly when one of them matches; when
/// none does, it fails with the failure of the last one.
pub proof fn lemma_or8<Input: Inspect + ?Sized, A: Predicate<Input>, B: Predicate<Input>, C: Predicate<Input>, D: Predicate<Input>, E: Predicate<Input>, F: Predicate<Input>, G: Predicate<Input>, H: Predicate<Input>>(
    p: Or<(A, B, C, D, E, F, G, H)>,
    input: Input::Model,
)
    ensures
        (p.judge(input) is Ok) <==> (p.spec_list().0.judge(input) is Ok || p.spec_list().1.judge(input) is Ok || p.spec_list().2.judge(input) is Ok || p.spec_list().3.judge(input) is Ok || p.spec_list().4.judge(input) is Ok || p.spec_list().5.judge(input) is Ok || p.spec_list().6.judge(input) is Ok || p.spec_list().7.judge(input) is Ok),
        p.spec_list().0.judge(input) is Err && p.spec_list().1.judge(input) is Err && p.spec_list().2.judge(input) is Err && p.spec_list().3.judge(input) is Err && p.spec_list().4.judge(input) is Err && p.spec_list().5.judge(input) is Err && p.spec_list().6.judge(input) is Err && p.spec_list().7.judge(input) is Err ==> p.judge(input) == p.spec_list().7.judge(input),
{
}

/// `or` of 9 predicates matches exactly when one of them matches; when
/// none does, it fails with the failure of the last one.
pub proof fn lemma_or9<Input: Inspect + ?Sized, A: Predicate<Input>, B: Predicate<Input>, C: Predicate<Input>, D: Predicate<Input>, E: Predicate<Input>, F: Predicate<Input>, G: Predicate<Input>, H: Predicate<Input>, I: Predicate<Input>>(
    p: Or<(A, B, C, D, E, F, G, H, I)>,
    input: Input::Model,
)
    ensures
        (p.judge(input) is Ok) <==> (p.spec_list().0.judge(input) is Ok || p.spec_list().1.judge(input) is Ok || p.spec_list().2.judge(input) is Ok || p.spec_list().3.judge(input) is Ok || p.spec_list().4.judge(input) is Ok || p.spec_list().5.judge(input) is Ok || p.spec_list().6.judge(input) is Ok || p.spec_list().7.judge(input) is Ok || p.spec_list().8.judge(input) is Ok),
        p.spec_list().0.judge(input) is Err && p.spec_list().1.judge(input) is Err && p.spec_list().2.judge(input) is Err && p.spec_list().3.judge(input) is Err && p.spec_list().4.judge(input) is Err && p.spec_list().5.judge(input) is Err && p.spec_list().6.judge(input) is Err && p.spec_list().7.judge(input) is Err && p.spec_list().8.judge(input) is Err ==> p.judge(input) == p.spec_list().8.judge(input),
{
}

/// `or` of 10 predicates matches exactly when one of them matches; when
/// none does, it fails with the failure of the last one.
pub proof fn lemma_or10<Input: Inspect + ?Sized, A: Predicate<Input>, B: Predicate<Input>, C: Predicate<Input>, D: Predicate<Input>, E: Predicate<Input>, F: Predicate<Input>, G: Predicate<Input>, H: Predicate<Input>, I: Predicate<Input>, J: Predicate<Input>>(
    p: Or<(A, B, C, D, E, F, G, H, I, J)>,
    input: Input::Model,
)
    ensures
        (p.judge(input) is Ok) <==> (p.spec_list().0.judge(input) is Ok || p.spec_list().1.judge(input) is Ok || p.spec_list().2.judge(input) is Ok || p.spec_list().3.judge(input) is Ok || p.spec_list().4.judge(input) is Ok || p.spec_list().5.judge(input) is Ok || p.spec_list().6.judge(input) is Ok || p.spec_list().7.judge(input) is Ok || p.spec_list().8.judge(input) is Ok || p.spec_list().9.judge(input) is Ok),
        p.spec_list().0.judge(input) is Err && p.spec_list().1.judge(input) is Err && p.spec_list().2.judge(input) is Err && p.spec_list().3.judge(input) is Err && p.spec_list().4.judge(input) is Err && p.spec_list().5.judge(input) is Err && p.spec_list().6.judge(input) is Err && p.spec_list().7.judge(input) is Err && p.spec_list().8.judge(input) is Err && p.spec_list().9.judge(input) is Err ==> p.judge(input) == p.spec_list().9.judge(input),
{
}

/// `or` of 11 predicates matches exactly when one of them matches; when
/// none does, it fails with the failure of the last one.
pub proof fn lemma_or11<Input: Inspect + ?Sized, A: Predicate<Input>, B: Predicate<Input>, C: Predicate<Input>, D: Predicate<Input>, E: Predicate<Input>, F: Predicate<Input>, G: Predicate<Input>, H: Predicate<Input>, I: Predicate<Input>, J: Predicate<Input>, K: Predicate<Input>>(
    p: Or<(A, B, C, D, E, F, G, H, I, J, K)>,
    input: Input::Model,
)
    ensures
        (p.judge(input) is Ok) <==> (p.spec_list().0.judge(input) is Ok || p.spec_list().1.judge(input) is Ok || p.spec_list().2.judge(input) is Ok || p.spec_list().3.judge(input) is Ok || p.spec_list().4.judge(input) is Ok || p.spec_list().5.judge(input) is Ok || p.spec_list().6.judge(input) is Ok || p.spec_list().7.judge(input) is Ok || p.spec_list().8.judge(input) is Ok || p.spec_list().9.judge(input) is Ok || p.spec_list().10.judge(input) is Ok),
        p.spec_list().0.judge(input) is Err && p.spec_list().1.judge(input) is Err && p.spec_list().2.judge(input) is Err && p.spec_list().3.judge(input) is Err && p.spec_list().4.judge(input) is Err && p.spec_list().5.judge(input) is Err && p.spec_list().6.judge(input) is Err && p.spec_list().7.judge(input) is Err && p.spec_list().8.judge(input) is Err && p.spec_list().9.judge(input) is Err && p.spec_list().10.judge(input) is Err ==> p.judge(input) == p.spec_list().10.judge(input),
{
}

/// `or` of 12 predicates matches exactly when one of them matches; when
/// none does, it fails with the failure of the last one.
pub proof fn lemma_or12<Input: Inspect + ?Sized, A: Predicate<Input>, B: Predicate<Input>, C: Predicate<Input>, D: Predicate<Input>, E: Predicate<Input>, F: Predicate<Input>, G: Predicate<Input>, H: Predicate<Input>, I: Predicate<Input>, J: Predicate<Input>, K: Predicate<Input>, L: Predicate<Input>>(
    p: Or<(A, B, C, D, E, F, G, H, I, J, K, L)>,
    input: Input::Model,
)
    ensures
        (p.judge(input) is Ok) <==> (p.spec_list().0.judge(input) is Ok || p.spec_list().1.judge(input) is Ok || p.spec_list().2.judge(input) is Ok || p.spec_list().3.judge(input) is Ok || p.spec_list().4.judge(input) is Ok || p.spec_list().5.judge(input) is Ok || p.spec_list().6.judge(input) is Ok || p.spec_list().7.judge(input) is Ok || p.spec_list().8.judge(input) is Ok || p.spec_list().9.judge(input) is Ok || p.spec_list().10.judge(input) is Ok || p.spec_list().11.judge(input) is Ok),
        p.spec_list().0.judge(input) is Err && p.spec_list().1.judge(input) is Err && p.spec_list().2.judge(input) is Err && p.spec_list().3.judge(input) is Err && p.spec_list().4.judge(input) is Err && p.spec_list().5.judge(input) is Err && p.spec_list().6.judge(input) is Err && p.spec_list().7.judge(input) is Err && p.spec_list().8.judge(input) is Err && p.spec_list().9.judge(input) is Err && p.spec_list().10.judge(input) is Err && p.spec_list().11.judge(input) is Err ==> p.judge(input) == p.spec_list().11.judge(input),
{
}

/// `or` of 13 predicates matches exactly when one of them matches; when
/// none does, it fails with the failure of the last one.
pub proof fn lemma_or13<Input: Inspect + ?Sized, A: Predicate<Input>, B: Predicate<Input>, C: Predicate<Input>, D: Predicate<Input>, E: Predicate<Input>, F: Predicate<Input>, G: Predicate<Input>, H: Predicate<Input>, I: Predicate<Input>, J: Predicate<Input>, K: Predicate<Input>, L: Predicate<Input>, M: Predicate<Input>>(
    p: Or<(A, B, C, D, E, F, G, H, I, J, K, L, M)>,
    input: Input::Model,
)
    ensures
        (p.judge(input) is Ok) <==> (p.spec_list().0.judge(input) is Ok || p.spec_list().1.judge(input) is Ok || p.spec_list().2.judge(input) is Ok || p.spec_list().3.judge(input) is Ok || p.spec_list().4.judge(input) is Ok || p.spec_list().5.judge(input) is Ok || p.spec_list().6.judge(input) is Ok || p.spec_list().7.judge(input) is Ok || p.spec_list().8.judge(input) is Ok || p.spec_list().9.judge(input) is Ok || p.spec_list().10.judge(input) is Ok || p.spec_list().11.judge(input) is Ok || p.spec_list().12.judge(input) is Ok),
        p.spec_list().0.judge(input) is Err && p.spec_list().1.judge(input) is Err && p.spec_list().2.judge(input) is Err && p.spec_list().3.judge(input) is Err && p.spec_list().4.judge(input) is Err && p.spec_list().5.judge(input) is Err && p.spec_list().6.judge(input) is Err && p.spec_list().7.judge(input) is Err && p.spec_list().8.judge(input) is Err && p.spec_list().9.judge(input) is Err && p.spec_list().10.judge(input) is Err && p.spec_list().11.judge(input) is Err && p.spec_list().12.judge(input) is Err ==> p.judge(input) == p.spec_list().12.judge(input),
{
}

/// `or` of 14 predicates matches exactly when one of them matches; when
/// none does, it fails with the failure of the last one.
pub proof fn lemma_or14<Input: Inspect + ?Sized, A: Predicate<Input>, B: Predicate<Input>, C: Predicate<Input>, D: Predicate<Input>, E: Predicate<Input>, F: Predicate<Input>, G: Predicate<Input>, H: Predicate<Input>, I: Predicate<Input>, J: Predicate<Input>, K: Predicate<Input>, L: Predicate<Input>, M: Predicate<Input>, N: Predicate<Input>>(
    p: Or<(A, B, C, D, E, F, G, H, I, J, K, L, M, N)>,
    input: Input::Model,
)
    ensures
        (p.judge(input) is Ok) <==> (p.spec_list().0.judge(input) is Ok || p.spec_list().1.judge(input) is Ok || p.spec_list().2.judge(input) is Ok || p.spec_list().3.judge(input) is Ok || p.spec_list().4.judge(input) is Ok || p.spec_list().5.judge(input) is Ok || p.spec_list().6.judge(input) is Ok || p.spec_list().7.judge(input) is Ok || p.spec_list().8.judge(input) is Ok || p.spec_list().9.judge(input) is Ok || p.spec_list().10.judge(input) is Ok || p.spec_list().11.judge(input) is Ok || p.spec_list().12.judge(input) is Ok || p.spec_list().13.judge(input) is Ok),
        p.spec_list().0.judge(input) is Err && p.spec_list().1.judge(input) is Err && p.spec_list().2.judge(input) is Err && p.spec_list().3.judge(input) is Err && p.spec_list().4.judge(input) is Err && p.spec_list().5.judge(input) is Err && p.spec_list().6.judge(input) is Err && p.spec_list().7.judge(input) is Err && p.spec_list().8.judge(input) is Err && p.spec_list().9.judge(input) is Err && p.spec_list().10.judge(input) is Err && p.spec_list().11.judge(input) is Err && p.spec_list().12.judge(input) is Err && p.spec_list().13.judge(input) is Err ==> p.judge(input) == p.spec_list().13.judge(input),
{
}

/// `or` of 15 predicates matches exactly when one of them matches; when
/// none does, it fails with the failure of the last one.
pub proof fn lemma_or15<Input: Inspect + ?Sized, A: Predicate<Input>, B: Predicate<Input>, C: Predicate<Input>, D: Predicate<Input>, E: Predicate<Input>, F: Predicate<Input>, G: Predicate<Input>, H: Predicate<Input>, I: Predicate<Input>, J: Predicate<Input>, K: Predicate<Input>, L: Predicate<Input>, M: Predicate<Input>, N: Predicate<Input>, O: Predicate<Input>>(
    p: Or<(A, B, C, D, E, F, G, H, I, J, K, L, M, N, O)>,
    input: Input::Model,
)
    ensures
        (p.judge(input) is Ok) <==> (p.spec_list().0.judge(input) is Ok || p.spec_list().1.judge(input) is Ok || p.spec_list().2.judge(input) is Ok || p.spec_list().3.judge(input) is Ok || p.spec_list().4.judge(input) is Ok || p.spec_list().5.judge(input) is Ok || p.spec_list().6.judge(input) is Ok || p.spec_list().7.judge(input) is Ok || p.spec_list().8.judge(input) is Ok || p.spec_list().9.judge(input) is Ok || p.spec_list().10.judge(input) is Ok || p.spec_list().11.judge(input) is Ok || p.spec_list().12.judge(input) is Ok || p.spec_list().13.judge(input) is Ok || p.spec_list().14.judge(input) is Ok),
        p.spec_list().0.judge(input) is Err && p.spec_list().1.judge(input) is Err && p.spec_list().2.judge(input) is Err && p.spec_list().3.judge(input) is Err && p.spec_list().4.judge(input) is Err && p.spec_list().5.judge(input) is Err && p.spec_list().6.judge(input) is Err && p.spec_list().7.judge(input) is Err && p.spec_list().8.judge(input) is Err && p.spec_list().9.judge(input) is Err && p.spec_list().10.judge(input) is Err && p.spec_list().11.judge(input) is Err && p.spec_list().12.judge(input) is Err && p.spec_list().13.judge(input) is Err && p.spec_list().14.judge(input) is Err ==> p.judge(input) == p.spec_list().14.judge(input),
{
}

/// `or` of 16 predicates matches exactly when one of them matches; when
/// none does, it fails with the failure of the last one.
pub proof fn lemma_or16<Input: Inspect + ?Sized, A: Predicate<Input>, B: Predicate<Input>, C: Predicate<Input>, D: Predicate<Input>, E: Predicate<Input>, F: Predicate<Input>, G: Predicate<Input>, H: Predicate<Input>, I: Predicate<Input>, J: Predicate<Input>, K: Predicate<Input>, L: Predicate<Input>, M: Predicate<Input>, N: Predicate<Input>, O: Predicate<Input>, P: Predicate<Input>>(
    p: Or<(A, B, C, D, E, F, G, H, I, J, K, L, M, N, O, P)>,
    input: Input::Model,
)
    ensures
        (p.judge(input) is Ok) <==> (p.spec_list().0.judge(input) is Ok || p.spec_list().1.judge(input) is Ok || p.spec_list().2.judge(input) is Ok || p.spec_list().3.judge(input) is Ok || p.spec_list().4.judge(input) is Ok || p.spec_list().5.judge(input) is Ok || p.spec_list().6.judge(input) is Ok || p.spec_list().7.judge(input) is Ok || p.spec_list().8.judge(input) is Ok || p.spec_list().9.judge(input) is Ok || p.spec_list().10.judge(input) is Ok || p.spec_list().11.judge(input) is Ok || p.spec_list().12.judge(input) is Ok || p.spec_list().13.judge(input) is Ok || p.spec_list().14.judge(input) is Ok || p.spec_list().15.judge(input) is Ok),
        p.spec_list().0.judge(input) is Err && p.spec_list().1.judge(input) is Err && p.spec_list().2.judge(input) is Err && p.spec_list().3.judge(input) is Err && p.spec_list().4.judge(input) is Err && p.spec_list().5.judge(input) is Err && p.spec_list().6.judge(input) is Err && p.spec_list().7.judge(input) is Err && p.spec_list().8.judge(input) is Err && p.spec_list().9.judge(input) is Err && p.spec_list().10.judge(input) is Err && p.spec_list().11.judge(input) is Err && p.spec_list().12.judge(input) is Err && p.spec_list().13.judge(input) is Err && p.spec_list().14.judge(input) is Err && p.spec_list().15.judge(input) is Err ==> p.judge(input) == p.spec_list().15.judge(input),
{
}

/// `or` of 17 predicates matches exactly when one of them matches; when
/// none does, it fails with the failure of the last one.
pub proof fn lemma_or17<Input: Inspect + ?Sized, A: Predicate<Input>, B: Predicate<Input>, C: Predicate<Input>, D: Predicate<Input>, E: Predicate<Input>, F: Predicate<Input>, G: Predicate<Input>, H: Predicate<Input>, I: Predicate<Input>, J: Predicate<Input>, K: Predicate<Input>, L: Predicate<Input>, M: Predicate<Input>, N: Predicate<Input>, O: Predicate<Input>, P: Predicate<Input>, Q: Predicate<Input>>(
    p: Or<(A, B, C, D, E, F, G, H, I, J, K, L, M, N, O, P, Q)>,
    input: Input::Model,
)
    ensures
        (p.judge(input) is Ok) <==> (p.spec_list().0.judge(input) is Ok || p.spec_list().1.judge(input) is Ok || p.spec_list().2.judge(input) is Ok || p.spec_list().3.judge(input) is Ok || p.spec_list().4.judge(input) is Ok || p.spec_list().5.judge(input) is Ok || p.spec_list().6.judge(input) is Ok || p.spec_list().7.judge(input) is Ok || p.spec_list().8.judge(input) is Ok || p.spec_list().9.judge(input) is Ok || p.spec_list().10.judge(input) is Ok || p.spec_list().11.judge(input) is Ok || p.spec_list().12.judge(input) is Ok || p.spec_list().13.judge(input) is Ok || p.spec_list().14.judge(input) is Ok || p.spec_list().15.judge(input) is Ok || p.spec_list().16.judge(input) is Ok),
        p.spec_list().0.judge(input) is Err && p.spec_list().1.judge(input) is Err && p.spec_list().2.judge(input) is Err && p.spec_list().3.judge(input) is Err && p.spec_list().4.judge(input) is Err && p.spec_list().5.judge(input) is Err && p.spec_list().6.judge(input) is Err && p.spec_list().7.judge(input) is Err && p.spec_list().8.judge(input) is Err && p.spec_list().9.judge(input) is Err && p.spec_list().10.judge(input) is Err && p.spec_list().11.judge(input) is Err && p.spec_list().12.judge(input) is Err && p.spec_list().13.judge(input) is Err && p.spec_list().14.judge(input) is Err && p.spec_list().15.judge(input) is Err && p.spec_list().16.judge(input) is Err ==> p.judge(input) == p.spec_list().16.judge(input),
{
}

/// `or` of 18 predicates matches exactly when one of them matches; when
/// none does, it fails with the failure of the last one.
pub proof fn lemma_or18<Input: Inspect + ?Sized, A: Predicate<Input>, B: Predicate<Input>, C: Predicate<Input>, D: Predicate<Input>, E: Predicate<Input>, F: Predicate<Input>, G: Predicate<Input>, H: Predicate<Input>, I: Predicate<Input>, J: Predicate<Input>, K: Predicate<Input>, L: Predicate<Input>, M: Predicate<Input>, N: Predicate<Input>, O: Predicate<Input>, P: Predicate<Input>, Q: Predicate<Input>, R: Predicate<Input>>(
    p: Or<(A, B, C, D, E, F, G, H, I, J, K, L, M, N, O, P, Q, R)>,
    input: Input::Model,
)
    ensures
        (p.judge(input) is Ok) <==> (p.spec_list().0.judge(input) is Ok || p.spec_list().1.judge(input) is Ok || p.spec_list().2.judge(input) is Ok || p.spec_list().3.judge(input) is Ok || p.spec_list().4.judge(input) is Ok || p.spec_list().5.judge(input) is Ok || p.spec_list().6.judge(input) is Ok || p.spec_list().7.judge(input) is Ok || p.spec_list().8.judge(input) is Ok || p.spec_list().9.judge(input) is Ok || p.spec_list().10.judge(input) is Ok || p.spec_list().11.judge(input) is Ok || p.spec_list().12.judge(input) is Ok || p.spec_list().13.judge(input) is Ok || p.spec_list().14.judge(input) is Ok || p.spec_list().15.judge(input) is Ok || p.spec_list().16.judge(input) is Ok || p.spec_list().17.judge(input) is Ok),
        p.spec_list().0.judge(input) is Err && p.spec_list().1.judge(input) is Err && p.spec_list().2.judge(input) is Err && p.spec_list().3.judge(input) is Err && p.spec_list().4.judge(input) is Err && p.spec_list().5.judge(input) is Err && p.spec_list().6.judge(input) is Err && p.spec_list().7.judge(input) is Err && p.spec_list().8.judge(input) is Err && p.spec_list().9.judge(input) is Err && p.spec_list().10.judge(input) is Err && p.spec_list().11.judge(input) is Err && p.spec_list().12.judge(input) is Err && p.spec_list().13.judge(input) is Err && p.spec_list().14.judge(input) is Err && p.spec_list().15.judge(input) is Err && p.spec_list().16.judge(input) is Err && p.spec_list().17.judge(input) is Err ==> p.judge(input) == p.spec_list().17.judge(input),
{
}

/// `or` of 19 predicates matches exactly when one of them matches; when
/// none does, it fails with the failure of the last one.
pub proof fn lemma_or19<Input: Inspect + ?Sized, A: Predicate<Input>, B: Predicate<Input>, C: Predicate<Input>, D: Predicate<Input>, E: Predicate<Input>, F: Predicate<Input>, G: Predicate<Input>, H: Predicate<Input>, I: Predicate<Input>, J: Predicate<Input>, K: Predicate<Input>, L: Predicate<Input>, M: Predicate<Input>, N: Predicate<Input>, O: Predicate<Input>, P: Predicate<Input>, Q: Predicate<Input>, R: Predicate<Input>, S: Predicate<Input>>(
    p: Or<(A, B, C, D, E, F, G, H, I, J, K, L, M, N, O, P, Q, R, S)>,
    input: Input::Model,
)
    ensures
        (p.judge(input) is Ok) <==> (p.spec_list().0.judge(input) is Ok || p.spec_list().1.judge(input) is Ok || p.spec_list().2.judge(input) is Ok || p.spec_list().3.judge(input) is Ok || p.spec_list().4.judge(input) is Ok || p.spec_list().5.judge(input) is Ok || p.spec_list().6.judge(input) is Ok || p.spec_list().7.judge(input) is Ok || p.spec_list().8.judge(input) is Ok || p.spec_list().9.judge(input) is Ok || p.spec_list().10.judge(input) is Ok || p.spec_list().11.judge(input) is Ok || p.spec_list().12.judge(input) is Ok || p.spec_list().13.judge(input) is Ok || p.spec_list().14.judge(input) is Ok || p.spec_list().15.judge(input) is Ok || p.spec_list().16.judge(input) is Ok || p.spec_list().17.judge(input) is Ok || p.spec_list().18.judge(input) is Ok),
        p.spec_list().0.judge(input) is Err && p.spec_list().1.judge(input) is Err && p.spec_list().2.judge(input) is Err && p.spec_list().3.judge(input) is Err && p.spec_list().4.judge(input) is Err && p.spec_list().5.judge(input) is Err && p.spec_list().6.judge(input) is Err && p.spec_list().7.judge(input) is Err && p.spec_list().8.judge(input) is Err && p.spec_list().9.judge(input) is Err && p.spec_list().10.judge(input) is Err && p.spec_list().11.judge(input) is Err && p.spec_list().12.judge(input) is Err && p.spec_list().13.judge(input) is Err && p.spec_list().14.judge(input) is Err && p.spec_list().15.judge(input) is Err && p.spec_list().16.judge(input) is Err && p.spec_list().17.judge(input) is Err && p.spec_list().18.judge(input) is Err ==> p.judge(input) == p.spec_list().18.judge(input),
{
}

/// `or` of 20 predicates matches exactly when one of them matches; when
/// none does, it fails with the failure of the last one.
pub proof fn lemma_or20<Input: Inspect + ?Sized, A: Predicate<Input>, B: Predicate<Input>, C: Predicate<Input>, D: Predicate<Input>, E: Predicate<Input>, F: Predicate<Input>, G: Predicate<Input>, H: Predicate<Input>, I: Predicate<Input>, J: Predicate<Input>, K: Predicate<Input>, L: Predicate<Input>, M: Predicate<Input>, N: Predicate<Input>, O: Predicate<Input>, P: Predicate<Input>, Q: Predicate<Input>, R: Predicate<Input>, S: Predicate<Input>, T: Predicate<Input>>(
    p: Or<(A, B, C, D, E, F, G, H, I, J, K, L, M, N, O, P, Q, R, S, T)>,
    input: Input::Model,
)
    ensures
        (p.judge(input) is Ok) <==> (p.spec_list().0.judge(input) is Ok || p.spec_list().1.judge(input) is Ok || p.spec_list().2.judge(input) is Ok || p.spec_list().3.judge(input) is Ok || p.spec_list().4.judge(input) is Ok || p.spec_list().5.judge(input) is Ok || p.spec_list().6.judge(input) is Ok || p.spec_list().7.judge(input) is Ok || p.spec_list().8.judge(input) is Ok || p.spec_list().9.judge(input) is Ok || p.spec_list().10.judge(input) is Ok || p.spec_list().11.judge(input) is Ok || p.spec_list().12.judge(input) is Ok || p.spec_list().13.judge(input) is Ok || p.spec_list().14.judge(input) is Ok || p.spec_list().15.judge(input) is Ok || p.spec_list().16.judge(input) is Ok || p.spec_list().17.judge(input) is Ok || p.spec_list().18.judge(input) is Ok || p.spec_list().19.judge(input) is Ok),
        p.spec_list().0.judge(input) is Err && p.spec_list().1.judge(input) is Err && p.spec_list().2.judge(input) is Err && p.spec_list().3.judge(input) is Err && p.spec_list().4.judge(input) is Err && p.spec_list().5.judge(input) is Err && p.spec_list().6.judge(input) is Err && p.spec_list().7.judge(input) is Err && p.spec_list().8.judge(input) is Err && p.spec_list().9.judge(input) is Err && p.spec_list().10.judge(input) is Err && p.spec_list().11.judge(input) is Err && p.spec_list().12.judge(input) is Err && p.spec_list().13.judge(input) is Err && p.spec_list().14.judge(input) is Err && p.spec_list().15.judge(input) is Err && p.spec_list().16.judge(input) is Err && p.spec_list().17.judge(input) is Err && p.spec_list().18.judge(input) is Err && p.spec_list().19.judge(input) is Err ==> p.judge(input) == p.spec_list().19.judge(input),
{
}


/// Two bytes that are equal up to ASCII case: equal, or a capital letter and
/// its small letter.
pub open spec fn same_letter(a: u8, b: u8) -> bool {
    a == b || (0x41 <= a <= 0x5A && b == a + 32) || (0x41 <= b <= 0x5A && a == b + 32)
}

/// What the byte predicates match, each failing with `Match`:
/// `case_sensitive` the very bytes; `starts_with` a value that begins with
/// its bytes, whatever follows; `ends_with` one that ends with them, whatever
/// comes first; `tag` the bytes up to ASCII case.
pub proof fn lemma_byte_predicates(p: CaseSensitive, s: StartsWith, e: EndsWith, t: Tag, x: Seq<u8>, rest: Seq<u8>)
    ensures
        (p.judge(x) is Ok) <==> x == p.spec_bytes(),
        s.judge(s.spec_bytes() + rest) is Ok,
        (s.judge(x) is Ok) <==> (s.spec_bytes().len() <= x.len() && x.subrange(0, s.spec_bytes().len() as int) == s.spec_bytes()),
        e.judge(rest + e.spec_bytes()) is Ok,
        (e.judge(x) is Ok) <==> (e.spec_bytes().len() <= x.len() && x.subrange(
            x.len() - e.spec_bytes().len(),
            x.len() as int,
        ) == e.spec_bytes()),
        (t.judge(x) is Ok) <==> (x.len() == t.spec_bytes().len() && forall|i: int|
            0 <= i < x.len() ==> same_letter(#[trigger] x[i], t.spec_bytes()[i])),
        p.judge(x) is Err ==> p.judge(x) == Err::<(), ErrorKind>(ErrorKind::Match),
        s.judge(x) is Err ==> s.judge(x) == Err::<(), ErrorKind>(ErrorKind::Match),
        e.judge(x) is Err ==> e.judge(x) == Err::<(), ErrorKind>(ErrorKind::Match),
        t.judge(x) is Err ==> t.judge(x) == Err::<(), ErrorKind>(ErrorKind::Match),
{
    let b = s.spec_bytes();
    assert((b + rest).subrange(0, b.len() as int) =~= b);
    let c = e.spec_bytes();
    let y = rest + c;
    assert(y.subrange(y.len() - c.len(), y.len() as int) =~= c);
    let tb = t.spec_bytes();
    if x.len() == tb.len() {
        assert forall|i: int| 0 <= i < x.len() implies (lower_byte(#[trigger] tb[i]) == lower_byte(x[i])
            <==> same_letter(x[i], tb[i])) by {
            let u = x[i];
            let v = tb[i];
            assert((lower_byte(v) == lower_byte(u)) <==> same_letter(u, v)) by (bit_vector)
                requires
                    lower_byte(v) == (if 0x41 <= v <= 0x5A { (v + 32) as u8 } else { v }),
                    lower_byte(u) == (if 0x41 <= u <= 0x5A { (u + 32) as u8 } else { u }),
                    same_letter(u, v) == (u == v || (0x41 <= u <= 0x5A && v == u + 32) || (0x41 <= v <= 0x5A && u == v + 32)),
            ;
        }
        if t.judge(x) is Ok {
            assert forall|i: int| 0 <= i < x.len() implies same_letter(#[trigger] x[i], tb[i]) by {
                assert(lower_byte(tb[i]) == lower_byte(x[i]));
            }
        }
        if forall|i: int| 0 <= i < x.len() ==> same_letter(#[trigger] x[i], tb[i]) {
            assert forall|i: int| 0 <= i < tb.len() implies lower_byte(#[trigger] tb[i]) == lower_byte(x[i]) by {
                assert(same_letter(x[i], tb[i]));
            }
        }
    }
}

/// What the byte classes match: `Comma` the comma alone; `Tchar` every
/// letter and digit and none of the separators (space, tab, `"`, `(`, `)`,
/// `,`, `/`, `:`, `;`, `<`, `=`, `>`, `?`, `@`, `[`, `\`, `]`, `{`, `}`).
pub proof fn lemma_byte_classes(b: u8)
    ensures
        (Comma.judge(b) is Ok) <==> b == 0x2C,
        (0x30 <= b <= 0x39 || 0x41 <= b <= 0x5A || 0x61 <= b <= 0x7A) ==> Tchar.judge(b) is Ok,
        (b == 0x20 || b == 0x09 || b == 0x22 || b == 0x28 || b == 0x29 || b == 0x2C || b == 0x2F
            || b == 0x3A || b == 0x3B || b == 0x3C || b == 0x3D || b == 0x3E || b == 0x3F || b
            == 0x40 || b == 0x5B || b == 0x5C || b == 0x5D || b == 0x7B || b == 0x7D || b >= 0x7F
            || b < 0x20) ==> Tchar.judge(b) is Err,
{
}

/// `not` matches when its predicate does not and fails with `Not` when it
/// does, and a doubly negated predicate matches exactly when the predicate
/// does; for every kind of input, sized or not.
pub proof fn lemma_not<Input: Inspect + ?Sized, T: Predicate<Input>>(p: Not<Not<T>>, input: Input::Model)
    ensures
        (p.spec_inner().judge(input) is Ok) <==> !(p.spec_inner().spec_inner().judge(input) is Ok),
        !(p.spec_inner().judge(input) is Ok) ==> p.spec_inner().judge(input) == Err::<(), ErrorKind>(
            ErrorKind::Not,
        ),
        (p.judge(input) is Ok) <==> (p.spec_inner().spec_inner().judge(input) is Ok),
{
}

/// `when` matches when its condition fails or its predicate matches.
pub proof fn lemma_when<Input: Inspect + ?Sized, T: Predicate<Input>, U: Predicate<Input>>(
    p: When<T, U>,
    input: Input::Model,
)
    ensures
        (p.judge(input) is Ok) <==> (p.spec_condition().judge(input) is Ok
            ==> p.spec_predicate().judge(input) is Ok),
        p.spec_condition().judge(input) is Ok ==> p.judge(input) == p.spec_predicate().judge(input),
{
}

/// A request method is a mutation exactly when it is not safe.
pub proof fn lemma_mutation_is_unsafe(p: Not<IsSafe>, method: Seq<char>)
    ensures
        (p.judge(method) is Ok) <==> !is_safe_method(method),
{
}

/// The safe methods are GET, HEAD, OPTIONS, TRACE and QUERY; the others,
/// such as POST, PUT, DELETE, PATCH and CONNECT, are mutations. A method that
/// is not safe fails with `Method`.
pub proof fn lemma_safe_methods(p: IsSafe, method: Seq<char>)
    ensures
        (p.judge(method) is Ok) <==> (method == "GET"@ || method == "HEAD"@ || method == "OPTIONS"@
            || method == "TRACE"@ || method == "QUERY"@),
        p.judge("POST"@) is Err && p.judge("PUT"@) is Err && p.judge("DELETE"@) is Err && p.judge(
            "PATCH"@,
        ) is Err && p.judge("CONNECT"@) is Err,
        p.judge(method) is Err ==> p.judge(method) == Err::<(), ErrorKind>(ErrorKind::Method),
{
    reveal_strlit("GET");
    reveal_strlit("HEAD");
    reveal_strlit("OPTIONS");
    reveal_strlit("TRACE");
    reveal_strlit("QUERY");
    reveal_strlit("POST");
    reveal_strlit("PUT");
    reveal_strlit("DELETE");
    reveal_strlit("PATCH");
    reveal_strlit("CONNECT");
    assert("GET"@.len() == 3 && "GET"@[0] == 'G' && "GET"@[1] == 'E');
    assert("HEAD"@.len() == 4 && "HEAD"@[0] == 'H' && "HEAD"@[1] == 'E');
    assert("OPTIONS"@.len() == 7 && "OPTIONS"@[0] == 'O' && "OPTIONS"@[1] == 'P');
    assert("TRACE"@.len() == 5 && "TRACE"@[0] == 'T' && "TRACE"@[1] == 'R');
    assert("QUERY"@.len() == 5 && "QUERY"@[0] == 'Q' && "QUERY"@[1] == 'U');
    assert("POST"@.len() == 4 && "POST"@[0] == 'P' && "POST"@[1] == 'O');
    assert("PUT"@.len() == 3 && "PUT"@[0] == 'P' && "PUT"@[1] == 'U');
    assert("DELETE"@.len() == 6 && "DELETE"@[0] == 'D' && "DELETE"@[1] == 'E');
    assert("PATCH"@.len() == 5 && "PATCH"@[0] == 'P' && "PATCH"@[1] == 'A');
    assert("CONNECT"@.len() == 7 && "CONNECT"@[0] == 'C' && "CONNECT"@[1] == 'O');
}

} // verus!
