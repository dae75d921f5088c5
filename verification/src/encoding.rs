//! Percent-decoding (through `percent_encoding`) and the encoding of URI
//! components.
use vstd::prelude::*;
use vstd::utf8::{encode_utf8, valid_utf8, decode_utf8};
use std::borrow::Cow;
use crate::error::{Error, ErrorSource};
use crate::status::BAD_REQUEST;

verus! {

/// Whether the text holds a percent sign.
pub open spec fn has_percent(s: Seq<char>) -> bool {
    s.contains('%')
}

/// A hexadecimal digit: `0`-`9`, `a`-`f` or `A`-`F`.
pub open spec fn is_hex_digit(b: u8) -> bool {
    (0x30 <= b <= 0x39) || (0x61 <= b <= 0x66) || (0x41 <= b <= 0x46)
}

/// The value of a hexadecimal digit.
pub open spec fn hex_value(b: u8) -> int {
    if 0x30 <= b <= 0x39 {
        b - 0x30
    } else if 0x61 <= b <= 0x66 {
        b - 0x61 + 10
    } else {
        b - 0x41 + 10
    }
}

/// The percent-decoding of bytes: each `%` followed by two hexadecimal
/// digits becomes the byte they spell; every other byte stays.
pub open spec fn percent_decode_bytes(b: Seq<u8>) -> Seq<u8>
    decreases b.len(),
{
    if b.len() == 0 {
        seq![]
    } else if b[0] == 0x25 && b.len() >= 3 && is_hex_digit(b[1]) && is_hex_digit(b[2]) {
        seq![(hex_value(b[1]) * 16 + hex_value(b[2])) as u8] + percent_decode_bytes(
            b.subrange(3, b.len() as int),
        )
    } else {
        seq![b[0]] + percent_decode_bytes(b.drop_first())
    }
}

/// Percent-decoding changes only `%` escapes: bytes without a `%` decode to
/// themselves, a `%` followed by two hexadecimal digits becomes the byte they
/// spell (`%41` and `%61` are `A` and `a`, `%2F` and `%2f` are `/`), and the
/// rest of the bytes decode on their own.
pub proof fn lemma_percent_decode(b: Seq<u8>, rest: Seq<u8>, h: u8, l: u8)
    ensures
        (forall|i: int| 0 <= i < b.len() ==> #[trigger] b[i] != 0x25) ==> percent_decode_bytes(b) == b,
        is_hex_digit(h) && is_hex_digit(l) ==> percent_decode_bytes(seq![0x25u8, h, l] + rest) == seq![
            (hex_value(h) * 16 + hex_value(l)) as u8,
        ] + percent_decode_bytes(rest),
        percent_decode_bytes(seq![0x25u8, 0x34u8, 0x31u8]) == seq![0x41u8],
        percent_decode_bytes(seq![0x25u8, 0x32u8, 0x66u8]) == seq![0x2Fu8],
        0 <= hex_value(h) < 16 || !is_hex_digit(h),
    decreases b.len(),
{
    if forall|i: int| 0 <= i < b.len() ==> #[trigger] b[i] != 0x25 {
        if b.len() > 0 {
            assert forall|i: int| 0 <= i < b.drop_first().len() implies #[trigger] b.drop_first()[i] != 0x25 by {
                assert(b.drop_first()[i] == b[i + 1]);
            }
            lemma_percent_decode(b.drop_first(), rest, h, l);
            assert(b[0] != 0x25);
            assert(seq![b[0]] + b.drop_first() =~= b);
        }
    }
    let x = seq![0x25u8, h, l] + rest;
    assert(x.subrange(3, x.len() as int) =~= rest);
    let e = Seq::<u8>::empty();
    let y = seq![0x25u8, 0x34u8, 0x31u8];
    assert(y.subrange(3, 3) =~= e);
    assert(percent_decode_bytes(e) =~= e);
    assert(seq![0x41u8] + e =~= seq![0x41u8]);
    let z = seq![0x25u8, 0x32u8, 0x66u8];
    assert(z.subrange(3, 3) =~= e);
    assert(seq![0x2Fu8] + e =~= seq![0x2Fu8]);
}

/// What `percent_decode_str(input).decode_utf8()` gives: the text of the
/// percent-decoded bytes of `input`, or `None` when they are not UTF-8.
pub open spec fn percent_decoded(input: Seq<char>) -> Option<Seq<char>> {
    let bytes = percent_decode_bytes(encode_utf8(input));
    if valid_utf8(bytes) {
        Some(decode_utf8(bytes))
    } else {
        None
    }
}

/// What `percent_decode_str(input).decode_utf8_lossy()` gives.
pub uninterp spec fn percent_decoded_lossy(input: Seq<char>) -> Seq<char>;

/// Calls `percent_encoding::percent_decode_str(input).decode_utf8()`: its
/// source decodes each `%` followed by two hexadecimal digits, keeps every
/// other byte, and fails when the result is not UTF-8. An input without `%`
/// decodes to itself.
#[verifier::external_body]
pub(crate) fn percent_decode_utf8<'a>(input: &'a str) -> (r: Option<Cow<'a, str>>)
    ensures
        r is Some <==> percent_decoded(input@) is Some,
        r matches Some(c) ==> percent_decoded(input@) == Some(c@),
        !has_percent(input@) ==> r is Some && r.unwrap()@ == input@,
{
    percent_encoding::percent_decode_str(input).decode_utf8().ok()
}

/// Calls `percent_encoding::percent_decode_str(input).decode_utf8_lossy()`.
/// Its source shows that an input without `%` decodes to itself.
#[verifier::external_body]
pub(crate) fn percent_decode_lossy<'a>(input: &'a str) -> (r: Cow<'a, str>)
    ensures
        r@ == percent_decoded_lossy(input@),
        !has_percent(input@) ==> r@ == input@,
{
    percent_encoding::percent_decode_str(input).decode_utf8_lossy()
}

/// How a URI component (or a cookie) is encoded.
#[derive(PartialEq, Eq, Structural)]
pub enum UriEncoding {
    Percent,
    Unencoded,
}

impl Clone for UriEncoding {
    fn clone(&self) -> (r: Self)
        ensures
            r == *self,
    {
        match self {
            UriEncoding::Percent => UriEncoding::Percent,
            UriEncoding::Unencoded => UriEncoding::Unencoded,
        }
    }
}

impl Copy for UriEncoding {}

/// What `decode_as` gives for `input`: the input itself when it is not
/// encoded, otherwise its percent-decoding (`None` when that is not UTF-8).
pub open spec fn spec_decode_as(encoding: UriEncoding, input: Seq<char>) -> Option<Seq<char>> {
    match encoding {
        UriEncoding::Unencoded => Some(input),
        UriEncoding::Percent => percent_decoded(input),
    }
}

/// The error of a value, named `name`, whose decoding is not UTF-8.
pub open spec fn is_invalid_utf8_error(e: Error, name: Seq<char>) -> bool {
    &&& e.spec_status() == BAD_REQUEST
    &&& e.spec_source() matches ErrorSource::Message(m) && m@
        == "invalid utf-8 sequence of bytes in "@ + name + "."@
}

impl UriEncoding {
    /// Decodes `input`, the value of the component named `name`.
    pub fn decode_as<'a>(&self, name: &str, input: &'a str) -> (r: Result<Cow<'a, str>, Error>)
        ensures
            r is Ok <==> spec_decode_as(*self, input@) is Some,
            r matches Ok(c) ==> spec_decode_as(*self, input@) == Some(c@),
            r matches Err(e) ==> is_invalid_utf8_error(e, name@),
    {
        match self {
            UriEncoding::Unencoded => Ok(Cow::Borrowed(input)),
            UriEncoding::Percent => match percent_decode_utf8(input) {
                Some(decoded) => Ok(decoded),
                None => Err(Error::invalid_utf8_sequence(name)),
            },
        }
    }
}

} // verus!
