//! Byte-level views of string slices: sub-slicing by byte offsets and
//! equality, with the same behaviour as `str::get` and `==`.
use vstd::prelude::*;
use vstd::utf8::*;
use vstd::string::StringSliceAdditionalSpecFns;

verus! {

broadcast use {
    vstd::string::group_string_axioms,
    vstd::slice::group_slice_axioms,
    vstd::utf8::encode_utf8_valid_utf8,
    vstd::utf8::encode_utf8_decode_utf8,
    vstd::utf8::is_char_boundary_start_end_of_seq,
};

/// The UTF-8 bytes of a string slice.
pub open spec fn bytes_of(s: &str) -> Seq<u8> {
    s.spec_bytes()
}

/// What `str::get(from..to)` yields, as bytes: the sub-slice when both
/// offsets are in order, in bounds and on character boundaries.
pub open spec fn spec_str_get(bytes: Seq<u8>, from: int, to: int) -> Option<Seq<u8>> {
    if 0 <= from <= to <= bytes.len() && is_char_boundary(bytes, from) && is_char_boundary(
        bytes,
        to,
    ) {
        Some(bytes.subrange(from, to))
    } else {
        None
    }
}

/// A boundary of a valid sequence that lies at or after `from` (another
/// boundary) is also a boundary of the suffix that starts at `from`.
proof fn lemma_boundary_in_suffix(bytes: Seq<u8>, from: int, to: int)
    requires
        valid_utf8(bytes),
        0 <= from <= to <= bytes.len(),
        is_char_boundary(bytes, from),
        is_char_boundary(bytes, to),
    ensures
        valid_utf8(bytes.subrange(from, bytes.len() as int)),
        is_char_boundary(bytes.subrange(from, bytes.len() as int), to - from),
{
    let suffix = bytes.subrange(from, bytes.len() as int);
    valid_utf8_split(bytes, from);
    if to - from == 0 {
    } else if to == bytes.len() {
        is_char_boundary_start_end_of_seq(suffix);
    } else {
        is_char_boundary_iff_not_is_continuation_byte(bytes, to);
        is_char_boundary_iff_not_is_continuation_byte(suffix, to - from);
        assert(suffix[to - from] == bytes[to]);
    }
}

/// The character view of a slice is the decoding of its bytes.
pub proof fn lemma_view_is_decoded_bytes(s: &str)
    ensures
        s@ == decode_utf8(s.spec_bytes()),
        valid_utf8(s.spec_bytes()),
{
    encode_utf8_decode_utf8(s@);
    encode_utf8_valid_utf8(s@);
}

/// Returns the sub-slice of `s` between the byte offsets `from` and `to`, or
/// `None` where `str::get(from..to)` would return `None`.
pub fn str_get<'a>(s: &'a str, from: usize, to: usize) -> (r: Option<&'a str>)
    ensures
        r is Some <==> spec_str_get(s.spec_bytes(), from as int, to as int) is Some,
        r matches Some(t) ==> Some(t.spec_bytes()) == spec_str_get(
            s.spec_bytes(),
            from as int,
            to as int,
        ),
{
    let len = s.as_bytes().len();
    if from > to || to > len {
        return None;
    }
    if !s.is_char_boundary(from) || !s.is_char_boundary(to) {
        return None;
    }
    proof {
        lemma_view_is_decoded_bytes(s);
        lemma_boundary_in_suffix(s.spec_bytes(), from as int, to as int);
    }
    let (_, rest) = s.split_at(from);
    let (mid, _) = rest.split_at(to - from);
    proof {
        assert(mid.spec_bytes() =~= s.spec_bytes().subrange(from as int, to as int));
    }
    Some(mid)
}

/// Returns the suffix of `s` that starts at the byte offset `from`, or `None`
/// where `str::get(from..)` would return `None`.
pub fn str_get_from<'a>(s: &'a str, from: usize) -> (r: Option<&'a str>)
    ensures
        r is Some <==> spec_str_get(s.spec_bytes(), from as int, s.spec_bytes().len() as int) is Some,
        r matches Some(t) ==> Some(t.spec_bytes()) == spec_str_get(
            s.spec_bytes(),
            from as int,
            s.spec_bytes().len() as int,
        ),
{
    proof {
        lemma_view_is_decoded_bytes(s);
    }
    str_get(s, from, s.as_bytes().len())
}

/// Byte-wise equality of two byte slices.
pub fn bytes_eq(a: &[u8], b: &[u8]) -> (r: bool)
    ensures
        r == (a@ == b@),
{
    if a.len() != b.len() {
        return false;
    }
    let mut i: usize = 0;
    while i < a.len()
        invariant
            a@.len() == b@.len(),
            i <= a@.len(),
            forall|j: int| 0 <= j < i ==> a@[j] == b@[j],
        decreases a@.len() - i,
    {
        if a[i] != b[i] {
            return false;
        }
        i = i + 1;
    }
    assert(a@ =~= b@);
    true
}

/// Equality of two string slices, as `==` on `str` computes it.
pub fn str_eq(a: &str, b: &str) -> (r: bool)
    ensures
        r == (a@ == b@),
{
    proof {
        lemma_view_is_decoded_bytes(a);
        lemma_view_is_decoded_bytes(b);
    }
    bytes_eq(a.as_bytes(), b.as_bytes())
}

} // verus!

verus! {

/// ASCII lower-casing of one character, as `char::to_ascii_lowercase`.
pub open spec fn ascii_lower(c: char) -> char {
    if 'A' <= c <= 'Z' {
        ((c as u32) + 32) as char
    } else {
        c
    }
}

/// ASCII lower-casing of a string, character by character.
pub open spec fn ascii_lowercase(s: Seq<char>) -> Seq<char> {
    s.map_values(|c: char| ascii_lower(c))
}

/// ASCII lower-casing keeps the length, turns each capital letter into its
/// small letter, leaves every other character, changes nothing the second
/// time, and works on each part of a text on its own.
pub proof fn lemma_ascii_lowercase(s: Seq<char>, t: Seq<char>)
    ensures
        ascii_lowercase(s).len() == s.len(),
        forall|i: int| 0 <= i < s.len() ==> ('A' <= #[trigger] s[i] <= 'Z' ==> ascii_lowercase(s)[i] as u32
            == s[i] as u32 + 32) && (!('A' <= s[i] <= 'Z') ==> ascii_lowercase(s)[i] == s[i]),
        ascii_lowercase(ascii_lowercase(s)) == ascii_lowercase(s),
        ascii_lowercase(s + t) == ascii_lowercase(s) + ascii_lowercase(t),
{
    assert forall|i: int| 0 <= i < s.len() implies ('A' <= #[trigger] s[i] <= 'Z' ==> ascii_lowercase(s)[i] as u32
        == s[i] as u32 + 32) && (!('A' <= s[i] <= 'Z') ==> ascii_lowercase(s)[i] == s[i]) by {
        let c = s[i];
        if 'A' <= c <= 'Z' {
            assert(((c as u32) + 32) as char as u32 == c as u32 + 32);
        }
    }
    assert forall|i: int| 0 <= i < s.len() implies #[trigger] ascii_lowercase(ascii_lowercase(s))[i]
        == ascii_lowercase(s)[i] by {
        let c = s[i];
        if 'A' <= c <= 'Z' {
            assert(((c as u32) + 32) as char as u32 == c as u32 + 32);
        }
    }
    assert(ascii_lowercase(ascii_lowercase(s)) =~= ascii_lowercase(s));
    assert(ascii_lowercase(s + t) =~= ascii_lowercase(s) + ascii_lowercase(t));
}

/// Calls `str::to_ascii_lowercase`, which its documentation describes as
/// mapping `'A'..='Z'` to `'a'..='z'` and leaving every other character as it
/// is.
#[verifier::external_body]
pub(crate) fn to_ascii_lowercase(s: &str) -> (r: String)
    ensures
        r@ == ascii_lowercase(s@),
{
    s.to_ascii_lowercase()
}

/// Calls `String::push_str`, which appends `t` to `s`.
#[verifier::external_body]
pub(crate) fn push_str(s: &mut String, t: &str)
    ensures
        final(s)@ == old(s)@ + t@,
{
    s.push_str(t)
}

/// A `String` with the contents of `t` (`str::to_owned`).
pub fn owned(t: &str) -> (r: String)
    ensures
        r@ == t@,
{
    t.to_owned()
}

/// The concatenation of two string slices.
pub fn concat2(a: &str, b: &str) -> (r: String)
    ensures
        r@ == a@ + b@,
{
    let mut r = a.to_owned();
    push_str(&mut r, b);
    r
}

/// The concatenation of three string slices.
pub fn concat3(a: &str, b: &str, c: &str) -> (r: String)
    ensures
        r@ == a@ + b@ + c@,
{
    let mut r = a.to_owned();
    push_str(&mut r, b);
    push_str(&mut r, c);
    r
}

/// Calls `String::from_utf8`, which its documentation describes as accepting
/// exactly the byte vectors that are valid UTF-8 and keeping their contents.
#[verifier::external_body]
pub(crate) fn string_from_utf8(bytes: Vec<u8>) -> (r: Option<String>)
    ensures
        r is Some <==> valid_utf8(bytes@),
        r matches Some(s) ==> s@ == decode_utf8(bytes@),
{
    String::from_utf8(bytes).ok()
}

/// Every byte is ASCII.
pub open spec fn is_ascii_bytes(b: Seq<u8>) -> bool {
    forall|i: int| 0 <= i < b.len() ==> #[trigger] b[i] < 0x80
}

/// The text of ASCII bytes.
pub open spec fn ascii_text(b: Seq<u8>) -> Seq<char> {
    Seq::new(b.len(), |i: int| b[i] as char)
}

/// ASCII bytes are valid UTF-8 and decode to the characters of the same
/// codes.
pub proof fn lemma_ascii_utf8(b: Seq<u8>)
    requires
        is_ascii_bytes(b),
    ensures
        valid_utf8(b),
        decode_utf8(b) == ascii_text(b),
    decreases b.len(),
{
    if b.len() > 0 {
        let rest = b.subrange(1, b.len() as int);
        assert(is_ascii_bytes(rest)) by {
            assert forall|i: int| 0 <= i < rest.len() implies #[trigger] rest[i] < 0x80 by {
                assert(rest[i] == b[i + 1]);
            }
        }
        lemma_ascii_utf8(rest);
        let b0 = b[0];
        assert(b0 < 0x80);
        assert(b0 & 0x7f == b0) by (bit_vector)
            requires
                b0 < 0x80,
        ;
        assert(pop_first_scalar(b) =~= rest);
        assert(decode_utf8(b) =~= ascii_text(b));
    } else {
        assert(decode_utf8(b) =~= ascii_text(b));
    }
}

} // verus!
