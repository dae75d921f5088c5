//! Request bodies: the limit on how many bytes a body may carry, the size
//! hints it reports, and the frames and trailers it is read into.
use vstd::prelude::*;
use vstd::utf8::*;
use crate::error::{Error, ErrorSource};
use crate::guard::{header_map_contents, HEADER_MAP_ROOM};
use crate::status::{BAD_REQUEST, INTERNAL_SERVER_ERROR, PAYLOAD_TOO_LARGE};
use crate::text::string_from_utf8;

verus! {

#[verifier::external_type_specification]
#[verifier::external_body]
pub struct ExBytes(bytes::Bytes);

/// The bytes that a buffer holds.
pub uninterp spec fn bytes_contents(b: bytes::Bytes) -> Seq<u8>;

/// Calls `Bytes::len`: the number of bytes in the buffer.
#[verifier::external_body]
fn bytes_len(b: &bytes::Bytes) -> (r: usize)
    ensures
        r == bytes_contents(*b).len(),
{
    b.len()
}

/// Calls `<Bytes as AsRef<[u8]>>::as_ref`: the bytes of the buffer.
#[verifier::external_body]
fn bytes_slice(b: &bytes::Bytes) -> (r: &[u8])
    ensures
        r@ == bytes_contents(*b),
{
    b.as_ref()
}

/// Calls `<HeaderMap as Extend<(Option<HeaderName>, HeaderValue)>>::extend`
/// with another map. Its source replaces the values of each name that
/// `other` holds with the values `other` holds for it. It panics when the map
/// cannot grow for the next name, which cannot happen while it holds at most
/// `HEADER_MAP_ROOM` names, as two maps of at most that many names together
/// ensure; beyond that, whether it panics rests on the state of its table.
#[verifier::external_body]
fn header_map_extend(map: &mut http::HeaderMap, other: http::HeaderMap)
    requires
        header_map_contents(*old(map)).dom().len() + header_map_contents(other).dom().len() <= HEADER_MAP_ROOM,
    ensures
        header_map_contents(*final(map)) == header_map_contents(*old(map)).union_prefer_right(
            header_map_contents(other),
        ),
{
    map.extend(other)
}

/// Calls `HeaderMap::keys_len`: the number of distinct names in the map (its
/// source counts the map's entries, one per name).
#[verifier::external_body]
fn header_map_keys_len(map: &http::HeaderMap) -> (r: usize)
    ensures
        r == header_map_contents(*map).dom().len(),
{
    map.keys_len()
}

// ---------------------------------------------------------------------------
// Size hints

/// Bounds on the number of bytes a body will yield (`http_body::SizeHint`).
pub struct SizeHint {
    lower: u64,
    upper: Option<u64>,
}

impl SizeHint {
    #[verifier::type_invariant]
    spec fn inv(self) -> bool {
        self.upper matches Some(u) ==> self.lower <= u
    }

    pub closed spec fn spec_lower(self) -> u64 {
        self.lower
    }

    pub closed spec fn spec_upper(self) -> Option<u64> {
        self.upper
    }

    /// No lower bound and no upper bound.
    pub fn new() -> (r: Self)
        ensures
            r.spec_lower() == 0,
            r.spec_upper() == None::<u64>,
    {
        SizeHint { lower: 0, upper: None }
    }

    /// Both bounds equal to `value`.
    pub fn with_exact(value: u64) -> (r: Self)
        ensures
            r.spec_lower() == value,
            r.spec_upper() == Some(value),
    {
        SizeHint { lower: value, upper: Some(value) }
    }

    pub fn lower(&self) -> (r: u64)
        ensures
            r == self.spec_lower(),
    {
        self.lower
    }

    pub fn upper(&self) -> (r: Option<u64>)
        ensures
            r == self.spec_upper(),
    {
        self.upper
    }

    /// The exact size, when the bounds are equal.
    pub fn exact(&self) -> (r: Option<u64>)
        ensures
            r == (if self.spec_upper() == Some(self.spec_lower()) {
                Some(self.spec_lower())
            } else {
                None
            }),
    {
        match self.upper {
            Some(u) => if u == self.lower {
                Some(u)
            } else {
                None
            },
            None => None,
        }
    }

    /// Sets the lower bound, which may not exceed the upper bound.
    pub fn set_lower(&mut self, value: u64)
        requires
            old(self).spec_upper() matches Some(u) ==> value <= u,
        ensures
            final(self).spec_lower() == value,
            final(self).spec_upper() == old(self).spec_upper(),
    {
        self.lower = value;
    }

    /// Sets the upper bound, which may not be below the lower bound.
    pub fn set_upper(&mut self, value: u64)
        requires
            value >= old(self).spec_lower(),
        ensures
            final(self).spec_lower() == old(self).spec_lower(),
            final(self).spec_upper() == Some(value),
    {
        self.upper = Some(value);
    }

    /// Sets both bounds to `value`.
    pub fn set_exact(&mut self, value: u64)
        ensures
            final(self).spec_lower() == value,
            final(self).spec_upper() == Some(value),
    {
        *self = SizeHint { lower: value, upper: Some(value) };
    }
}

// ---------------------------------------------------------------------------
// The body limit

/// The error of a second read of a body.
pub fn already_read() -> (r: Error)
    ensures
        r.spec_status() == INTERNAL_SERVER_ERROR,
        r.spec_source() matches ErrorSource::Message(m) && m@
            == "a request body can only be read once."@,
{
    Error::new("a request body can only be read once.")
}

/// The error of a frame that is neither data nor trailers.
pub fn unknown_frame_type() -> (r: Error)
    ensures
        r.spec_status() == INTERNAL_SERVER_ERROR,
        r.spec_source() matches ErrorSource::Message(m) && m@
            == "unknown frame type received while reading a request body."@,
{
    Error::new("unknown frame type received while reading a request body.")
}

/// The error of a body longer than the limit: `413` with the message
/// `request body exceeds the maximum length`.
pub open spec fn is_payload_too_large(e: Error) -> bool {
    &&& e.spec_status() == PAYLOAD_TOO_LARGE
    &&& e.spec_source() matches ErrorSource::Message(m) && m@ == "request body exceeds the maximum length"@
}

/// The part of a request body that the framework keeps: how many more bytes
/// it may yield, whether a frame already went past the limit, and the data
/// frames read so far (`None` once they are taken).
pub struct RequestBody {
    remaining: usize,
    exceeded: bool,
    frames: Option<Vec<bytes::Bytes>>,
}

/// A body with `remaining` bytes left can take one whose exact size is
/// `exact`: there is no exact size, or it fits.
pub open spec fn fits(remaining: usize, exact: Option<u64>) -> bool {
    match exact {
        Some(upper) => remaining >= upper,
        None => true,
    }
}

/// The exact size that a size hint gives, if any.
pub open spec fn exact_of(hint: SizeHint) -> Option<u64> {
    if hint.spec_upper() == Some(hint.spec_lower()) {
        Some(hint.spec_lower())
    } else {
        None
    }
}

/// The size hint of a limited body: the inner hint capped at the bytes
/// left; exactly the bytes left when the inner body promises more.
pub open spec fn capped_hint(remaining: u64, lower: u64, upper: Option<u64>) -> (u64, Option<u64>) {
    if remaining < lower {
        (remaining, Some(remaining))
    } else {
        match upper {
            Some(u) => (lower, Some(if u < remaining { u } else { remaining })),
            None => (lower, Some(remaining)),
        }
    }
}

impl RequestBody {
    pub closed spec fn spec_remaining(self) -> usize {
        self.remaining
    }

    /// A data frame went past the limit: every later poll is refused.
    pub closed spec fn spec_exceeded(self) -> bool {
        self.exceeded
    }

    pub closed spec fn spec_frames(self) -> Option<Seq<bytes::Bytes>> {
        match self.frames {
            Some(v) => Some(v@),
            None => None,
        }
    }

    /// A body that may yield `remaining` more bytes, with the frames read so
    /// far.
    pub fn new(remaining: usize, frames: Vec<bytes::Bytes>) -> (r: Self)
        ensures
            r.spec_remaining() == remaining,
            !r.spec_exceeded(),
            r.spec_frames() == Some(frames@),
    {
        RequestBody { remaining, exceeded: false, frames: Some(frames) }
    }

    /// How many more bytes the body may yield.
    pub fn remaining(&self) -> (r: usize)
        ensures
            r == self.spec_remaining(),
    {
        self.remaining
    }

    /// Whether the rest of the inner body, whose size hint is `hint`, fits
    /// in the bytes left.
    pub fn has_capacity(&self, hint: &SizeHint) -> (r: bool)
        ensures
            r == fits(self.spec_remaining(), exact_of(*hint)),
    {
        match hint.exact() {
            Some(upper) => (self.remaining as u64) >= upper,
            None => true,
        }
    }

    /// Whether the body may be polled for another frame: never once a frame
    /// went past the limit; otherwise when the inner body has ended, or when
    /// the rest of the inner body, as far as its size hint tells, fits in the
    /// bytes left. A body of exactly the limit is so read to its end, and the
    /// data frame that goes past the limit is refused by `consume`.
    pub fn check_limit(&self, hint: &SizeHint, inner_ended: bool) -> (r: Result<(), Error>)
        ensures
            r is Ok <==> !self.spec_exceeded() && (inner_ended || fits(
                self.spec_remaining(),
                exact_of(*hint),
            )),
            r matches Err(e) ==> is_payload_too_large(e),
    {
        if self.exceeded {
            Err(Error::payload_too_large())
        } else if inner_ended || self.has_capacity(hint) {
            Ok(())
        } else {
            Err(Error::payload_too_large())
        }
    }

    /// Counts a data frame of `len` bytes against the limit. A frame longer
    /// than what is left exhausts the body, marks it as past the limit, and
    /// fails.
    pub fn consume(&mut self, len: usize) -> (r: Result<(), Error>)
        ensures
            r is Ok <==> len <= old(self).spec_remaining(),
            r is Ok ==> final(self).spec_remaining() == old(self).spec_remaining() - len
                && final(self).spec_exceeded() == old(self).spec_exceeded(),
            r is Err ==> final(self).spec_remaining() == 0 && final(self).spec_exceeded(),
            r matches Err(e) ==> is_payload_too_large(e),
            final(self).spec_frames() == old(self).spec_frames(),
    {
        match self.remaining.checked_sub(len) {
            Some(left) => {
                self.remaining = left;
                Ok(())
            },
            None => {
                self.remaining = 0;
                self.exceeded = true;
                Err(Error::payload_too_large())
            },
        }
    }

    /// Whether the body has ended: no bytes are left, the rest of the inner
    /// body does not fit, or the inner body has ended.
    pub fn is_end_stream(&self, hint: &SizeHint, inner_ended: bool) -> (r: bool)
        ensures
            r == (self.spec_remaining() == 0 || !fits(self.spec_remaining(), exact_of(*hint))
                || inner_ended),
    {
        self.remaining == 0 || !self.has_capacity(hint) || inner_ended
    }

    /// The size hint of the body, given that of the inner body.
    pub fn size_hint(&self, inner: SizeHint) -> (r: SizeHint)
        ensures
            (r.spec_lower(), r.spec_upper()) == capped_hint(
                self.spec_remaining() as u64,
                inner.spec_lower(),
                inner.spec_upper(),
            ),
    {
        let remaining = self.remaining as u64;
        let mut hint = inner;
        if remaining < hint.lower() {
            hint.set_exact(remaining);
        } else {
            let upper = match hint.upper() {
                Some(u) => if u < remaining {
                    u
                } else {
                    remaining
                },
                None => remaining,
            };
            proof {
                use_type_invariant(&hint);
            }
            hint.set_upper(upper);
        }
        hint
    }

    /// Adds a data frame to the frames read so far.
    pub fn push_frame(&mut self, frame: bytes::Bytes) -> (r: Result<(), Error>)
        ensures
            r is Ok <==> old(self).spec_frames() is Some,
            r matches Err(e) ==> e.spec_status() == INTERNAL_SERVER_ERROR,
            final(self).spec_remaining() == old(self).spec_remaining(),
            final(self).spec_exceeded() == old(self).spec_exceeded(),
            final(self).spec_frames() == (match old(self).spec_frames() {
                Some(f) => Some(f.push(frame)),
                None => None,
            }),
    {
        match &mut self.frames {
            Some(frames) => {
                frames.push(frame);
                Ok(())
            },
            None => Err(already_read()),
        }
    }

    /// Takes the frames read so far; a body gives them up once.
    pub fn end(&mut self) -> (r: Result<Vec<bytes::Bytes>, Error>)
        ensures
            r is Ok <==> old(self).spec_frames() is Some,
            r matches Ok(f) ==> old(self).spec_frames() == Some(f@),
            r matches Err(e) ==> e.spec_status() == INTERNAL_SERVER_ERROR,
            final(self).spec_remaining() == old(self).spec_remaining(),
            final(self).spec_exceeded() == old(self).spec_exceeded(),
            final(self).spec_frames() == None::<Seq<bytes::Bytes>>,
    {
        match self.frames.take() {
            Some(frames) => Ok(frames),
            None => Err(already_read()),
        }
    }
}

// ---------------------------------------------------------------------------
// Aggregated bodies

/// The bytes of a list of frames, one after the other.
pub open spec fn frames_data(frames: Seq<bytes::Bytes>) -> Seq<u8>
    decreases frames.len(),
{
    if frames.len() == 0 {
        seq![]
    } else {
        frames_data(frames.drop_last()) + bytes_contents(frames.last())
    }
}

/// What reading a body as UTF-8 gives: the text, or a `400` error naming
/// the request body.
pub open spec fn utf8_outcome(data: Seq<u8>, r: Result<String, Error>) -> bool {
    &&& r is Ok <==> valid_utf8(data)
    &&& r matches Ok(s) ==> s@ == decode_utf8(data)
    &&& r matches Err(e) ==> e.spec_status() == BAD_REQUEST && (e.spec_source() matches ErrorSource::Message(m)
        && m@ == "invalid utf-8 sequence of bytes in request body."@)
}

/// Reads bytes as UTF-8 text.
pub fn deserialize_utf8(data: Vec<u8>) -> (r: Result<String, Error>)
    ensures
        utf8_outcome(data@, r),
{
    let ghost bytes = data@;
    match string_from_utf8(data) {
        Some(text) => Ok(text),
        None => {
            proof {
                reveal_strlit("request body");
                reveal_strlit("invalid utf-8 sequence of bytes in ");
                reveal_strlit(".");
                reveal_strlit("invalid utf-8 sequence of bytes in request body.");
                assert("invalid utf-8 sequence of bytes in "@ + "request body"@ + "."@
                    =~= "invalid utf-8 sequence of bytes in request body."@);
            }
            Err(Error::invalid_utf8_sequence("request body"))
        },
    }
}

/// The data and trailers of a request body.
pub struct Aggregate {
    frames: Vec<bytes::Bytes>,
    trailers: Option<http::HeaderMap>,
}

/// A source of bytes received from a client.
pub trait Payload: Sized {
    /// The bytes of the payload.
    spec fn spec_data(&self) -> Seq<u8>;

    /// The bytes of the payload in one contiguous buffer.
    fn coalesce(self) -> (r: Vec<u8>)
        ensures
            r@ == self.spec_data(),
    ;

    /// The payload as UTF-8 text.
    fn utf8(self) -> (r: Result<String, Error>)
        ensures
            utf8_outcome(self.spec_data(), r),
    {
        let ghost data = self.spec_data();
        deserialize_utf8(self.coalesce())
    }
}

/// The sum of the lengths of the frames.
pub open spec fn frames_len(frames: Seq<bytes::Bytes>) -> int {
    frames_data(frames).len() as int
}

impl Aggregate {
    pub closed spec fn spec_frames(self) -> Seq<bytes::Bytes> {
        self.frames@
    }

    pub closed spec fn spec_trailers(self) -> Option<http::HeaderMap> {
        self.trailers
    }

    /// The data frames and trailers of a body that has been read.
    pub fn new(frames: Vec<bytes::Bytes>, trailers: Option<http::HeaderMap>) -> (r: Self)
        ensures
            r.spec_frames() == frames@,
            r.spec_trailers() == trailers,
    {
        Aggregate { frames, trailers }
    }

    /// The data frames and the trailers.
    pub fn into_parts(self) -> (r: (Vec<bytes::Bytes>, Option<http::HeaderMap>))
        ensures
            r.0@ == self.spec_frames(),
            r.1 == self.spec_trailers(),
    {
        (self.frames, self.trailers)
    }

    /// The trailers of the body, if it had any.
    pub fn trailers(&self) -> (r: Option<&http::HeaderMap>)
        ensures
            r == (match self.spec_trailers() {
                Some(t) => Some(&t),
                None => None,
            }),
    {
        match &self.trailers {
            Some(t) => Some(t),
            None => None,
        }
    }

    /// The number of bytes in the body; `None` when it does not fit in a
    /// `usize`.
    pub fn len(&self) -> (r: Option<usize>)
        ensures
            r == (if frames_len(self.spec_frames()) <= usize::MAX {
                Some(frames_len(self.spec_frames()) as usize)
            } else {
                None
            }),
    {
        let mut total: usize = 0;
        let mut i: usize = 0;
        while i < self.frames.len()
            invariant
                i <= self.frames@.len(),
                total == frames_len(self.frames@.take(i as int)),
            decreases self.frames@.len() - i,
        {
            let n = bytes_len(&self.frames[i]);
            assert(self.frames@.take(i + 1).drop_last() =~= self.frames@.take(i as int));
            match total.checked_add(n) {
                Some(t) => total = t,
                None => {
                    proof {
                        self.lemma_len_grows((i + 1) as int);
                    }
                    return None;
                },
            }
            i = i + 1;
        }
        assert(self.frames@.take(self.frames@.len() as int) =~= self.frames@);
        Some(total)
    }

    /// The data of a prefix of the frames is no longer than all of it.
    proof fn lemma_len_grows(&self, n: int)
        requires
            0 <= n <= self.frames@.len(),
        ensures
            frames_len(self.frames@.take(n)) <= frames_len(self.frames@),
        decreases self.frames@.len() - n,
    {
        if n < self.frames@.len() {
            self.lemma_len_grows(n + 1);
            assert(self.frames@.take(n + 1).drop_last() =~= self.frames@.take(n));
        } else {
            assert(self.frames@.take(n) =~= self.frames@);
        }
    }

    /// Whether the body is empty.
    pub fn is_empty(&self) -> (r: bool)
        ensures
            r == (frames_len(self.spec_frames()) == 0),
    {
        match self.len() {
            Some(n) => n == 0,
            None => false,
        }
    }
}

impl Payload for Aggregate {
    open spec fn spec_data(&self) -> Seq<u8> {
        frames_data(self.spec_frames())
    }

    fn coalesce(self) -> (r: Vec<u8>) {
        let mut dest: Vec<u8> = Vec::new();
        let mut i: usize = 0;
        while i < self.frames.len()
            invariant
                i <= self.frames@.len(),
                dest@ == frames_data(self.frames@.take(i as int)),
            decreases self.frames@.len() - i,
        {
            let data = bytes_slice(&self.frames[i]);
            let mut j: usize = 0;
            let ghost start = dest@;
            while j < data.len()
                invariant
                    j <= data@.len(),
                    dest@ == start + data@.take(j as int),
                decreases data@.len() - j,
            {
                dest.push(data[j]);
                j = j + 1;
                assert(dest@ =~= start + data@.take(j as int));
            }
            assert(data@.take(data@.len() as int) =~= data@);
            assert(self.frames@.take(i + 1).drop_last() =~= self.frames@.take(i as int));
            i = i + 1;
        }
        assert(self.frames@.take(self.frames@.len() as int) =~= self.frames@);
        dest
    }
}

impl Payload for bytes::Bytes {
    open spec fn spec_data(&self) -> Seq<u8> {
        bytes_contents(*self)
    }

    fn coalesce(self) -> (r: Vec<u8>) {
        let data = bytes_slice(&self);
        let mut dest: Vec<u8> = Vec::new();
        let mut j: usize = 0;
        while j < data.len()
            invariant
                j <= data@.len(),
                dest@ == data@.take(j as int),
            decreases data@.len() - j,
        {
            dest.push(data[j]);
            j = j + 1;
            assert(dest@ =~= data@.take(j as int));
        }
        assert(data@.take(data@.len() as int) =~= data@);
        dest
    }
}

/// A frame of a request body: data, trailers, or a kind the reader does not
/// know.
pub enum BodyFrame {
    Data(bytes::Bytes),
    Trailers(http::HeaderMap),
    Unknown,
}

/// The trailers of a frame fit beside those read so far: at most
/// `HEADER_MAP_ROOM` names together.
pub open spec fn trailers_fit(existing: Option<http::HeaderMap>, trailers: http::HeaderMap) -> bool {
    existing matches Some(e) ==> header_map_contents(e).dom().len() + header_map_contents(
        trailers,
    ).dom().len() <= HEADER_MAP_ROOM
}

/// The trailers after merging a trailers frame into those read so far.
pub open spec fn merged_trailers(existing: Option<http::HeaderMap>, trailers: http::HeaderMap) -> Map<
    Seq<char>,
    Seq<Seq<u8>>,
> {
    match existing {
        Some(e) => header_map_contents(e).union_prefer_right(header_map_contents(trailers)),
        None => header_map_contents(trailers),
    }
}

/// Reads a request body into an `Aggregate`: collects its data frames and
/// merges its trailers.
pub struct Coalesce {
    body: RequestBody,
    trailers: Option<http::HeaderMap>,
}

impl Coalesce {
    pub closed spec fn spec_body(self) -> RequestBody {
        self.body
    }

    pub closed spec fn spec_trailers(self) -> Option<http::HeaderMap> {
        self.trailers
    }

    /// Starts reading `body`.
    pub fn new(body: RequestBody) -> (r: Self)
        ensures
            r.spec_body() == body,
            r.spec_trailers() == None::<http::HeaderMap>,
    {
        Coalesce { body, trailers: None }
    }

    /// The trailers read so far.
    pub fn trailers(&self) -> (r: Option<&http::HeaderMap>)
        ensures
            r == (match self.spec_trailers() {
                Some(t) => Some(&t),
                None => None,
            }),
    {
        match &self.trailers {
            Some(t) => Some(t),
            None => None,
        }
    }

    /// The limit and frames of the body being read.
    pub fn body_mut(&mut self) -> (r: &mut RequestBody)
        ensures
            *r == old(self).spec_body(),
            final(self).spec_body() == *final(r),
            final(self).spec_trailers() == old(self).spec_trailers(),
    {
        &mut self.body
    }

    /// Keeps a data frame.
    pub fn on_data(&mut self, data: bytes::Bytes) -> (r: Result<(), Error>)
        ensures
            r is Ok <==> old(self).spec_body().spec_frames() is Some,
            r matches Err(e) ==> e.spec_status() == INTERNAL_SERVER_ERROR,
            final(self).spec_body().spec_frames() == (match old(self).spec_body().spec_frames() {
                Some(f) => Some(f.push(data)),
                None => None,
            }),
            final(self).spec_body().spec_remaining() == old(self).spec_body().spec_remaining(),
            final(self).spec_body().spec_exceeded() == old(self).spec_body().spec_exceeded(),
            final(self).spec_trailers() == old(self).spec_trailers(),
    {
        self.body.push_frame(data)
    }

    /// Merges a trailers frame into the trailers read so far: the values of
    /// a name that appears again replace the earlier ones.
    pub fn on_trailers(&mut self, trailers: http::HeaderMap)
        requires
            old(self).spec_trailers() matches Some(existing) ==> header_map_contents(
                existing,
            ).dom().len() + header_map_contents(trailers).dom().len() <= HEADER_MAP_ROOM,
        ensures
            final(self).spec_body() == old(self).spec_body(),
            final(self).spec_trailers() matches Some(t) && header_map_contents(t) == (
            match old(self).spec_trailers() {
                Some(existing) => header_map_contents(existing).union_prefer_right(
                    header_map_contents(trailers),
                ),
                None => header_map_contents(trailers),
            }),
    {
        match &mut self.trailers {
            Some(existing) => header_map_extend(existing, trailers),
            None => self.trailers = Some(trailers),
        }
    }

    /// Merges a trailers frame as `on_trailers` does when the two maps
    /// together hold at most `HEADER_MAP_ROOM` names; otherwise changes nothing and
    /// hands the frame back.
    pub fn try_on_trailers(&mut self, trailers: http::HeaderMap) -> (r: Result<(), http::HeaderMap>)
        ensures
            r is Ok <==> (old(self).spec_trailers() matches Some(existing) ==> header_map_contents(
                existing,
            ).dom().len() + header_map_contents(trailers).dom().len() <= HEADER_MAP_ROOM),
            r is Ok ==> final(self).spec_body() == old(self).spec_body(),
            r is Ok ==> (final(self).spec_trailers() matches Some(t) && header_map_contents(t) == (
            match old(self).spec_trailers() {
                Some(existing) => header_map_contents(existing).union_prefer_right(
                    header_map_contents(trailers),
                ),
                None => header_map_contents(trailers),
            })),
            r matches Err(t) ==> t == trailers && *final(self) == *old(self),
    {
        let fits = match &self.trailers {
            Some(existing) => {
                let known = header_map_keys_len(existing);
                let extra = header_map_keys_len(&trailers);
                known <= HEADER_MAP_ROOM && extra <= HEADER_MAP_ROOM - known
            },
            None => true,
        };
        if fits {
            self.on_trailers(trailers);
            Ok(())
        } else {
            Err(trailers)
        }
    }

    /// Handles one frame of the inner body: a data frame is counted against
    /// the limit and kept, trailers are merged, and any other frame is
    /// refused with a `500` error.
    pub fn on_frame(&mut self, frame: BodyFrame) -> (r: Result<(), Error>)
        requires
            frame matches BodyFrame::Trailers(t) ==> trailers_fit(old(self).spec_trailers(), t),
        ensures
            final(self).spec_trailers() == old(self).spec_trailers() || frame is Trailers,
            match frame {
                BodyFrame::Data(d) => {
                    let len = bytes_contents(d).len();
                    let before = old(self).spec_body();
                    let after = final(self).spec_body();
                    &&& r is Ok <==> len <= before.spec_remaining() && before.spec_frames() is Some
                    &&& len <= before.spec_remaining() ==> after.spec_remaining() == before.spec_remaining() - len
                        && after.spec_frames() == (match before.spec_frames() {
                        Some(f) => Some(f.push(d)),
                        None => None,
                    })
                    &&& len <= before.spec_remaining() && before.spec_frames() is None ==> (r matches Err(
                        e,
                    ) && e.spec_status() == INTERNAL_SERVER_ERROR)
                    &&& after.spec_exceeded() == (before.spec_exceeded() || len > before.spec_remaining())
                    &&& len > before.spec_remaining() ==> after.spec_remaining() == 0
                        && after.spec_frames() == before.spec_frames() && (r matches Err(e)
                        && is_payload_too_large(e))
                },
                BodyFrame::Trailers(t) => {
                    &&& r is Ok
                    &&& final(self).spec_body() == old(self).spec_body()
                    &&& final(self).spec_trailers() matches Some(m) && header_map_contents(m)
                        == merged_trailers(old(self).spec_trailers(), t)
                },
                BodyFrame::Unknown => {
                    &&& *final(self) == *old(self)
                    &&& r matches Err(e) && e.spec_status() == INTERNAL_SERVER_ERROR
                        && (e.spec_source() matches ErrorSource::Message(m) && m@
                        == "unknown frame type received while reading a request body."@)
                },
            },
    {
        match frame {
            BodyFrame::Data(data) => {
                let len = bytes_len(&data);
                match self.body.consume(len) {
                    Ok(()) => {},
                    Err(e) => return Err(e),
                }
                self.on_data(data)
            },
            BodyFrame::Trailers(trailers) => {
                self.on_trailers(trailers);
                Ok(())
            },
            BodyFrame::Unknown => Err(unknown_frame_type()),
        }
    }

    /// The body once the inner body has ended: its data frames and trailers.
    pub fn finish(&mut self) -> (r: Result<Aggregate, Error>)
        ensures
            r is Ok <==> old(self).spec_body().spec_frames() is Some,
            r matches Ok(a) ==> Some(a.spec_frames()) == old(self).spec_body().spec_frames()
                && a.spec_trailers() == old(self).spec_trailers(),
            final(self).spec_body().spec_frames() == None::<Seq<bytes::Bytes>>,
    {
        match self.body.end() {
            Ok(frames) => {
                let trailers = self.trailers.take();
                Ok(Aggregate::new(frames, trailers))
            },
            Err(e) => Err(e),
        }
    }
}


/// The data of a body is its frames' bytes one after the other: the data of
/// two runs of frames is the data of the first then that of the second, and
/// a single frame's data is its bytes.
pub proof fn lemma_frames_data_compose(a: Seq<bytes::Bytes>, b: Seq<bytes::Bytes>, f: bytes::Bytes)
    ensures
        frames_data(a + b) == frames_data(a) + frames_data(b),
        frames_data(seq![f]) == bytes_contents(f),
        frames_len(a + b) == frames_len(a) + frames_len(b),
    decreases b.len(),
{
    let none = Seq::<bytes::Bytes>::empty();
    assert(seq![f].drop_last() =~= none);
    assert(seq![f].last() == f);
    assert(frames_data(none) =~= Seq::<u8>::empty());
    assert(frames_data(seq![f]) == frames_data(none) + bytes_contents(f));
    assert(Seq::<u8>::empty() + bytes_contents(f) =~= bytes_contents(f));
    if b.len() == 0 {
        assert(a + b =~= a);
        assert(frames_data(a) + frames_data(b) =~= frames_data(a));
    } else {
        lemma_frames_data_compose(a, b.drop_last(), f);
        assert((a + b).drop_last() =~= a + b.drop_last());
        assert((a + b).last() == b.last());
        assert(frames_data(a) + frames_data(b.drop_last()) + bytes_contents(b.last()) =~= frames_data(a)
            + (frames_data(b.drop_last()) + bytes_contents(b.last())));
    }
}

/// The bytes left after counting data frames of the given lengths, one
/// after the other, as `RequestBody::consume` counts them; `None` once a
/// frame is refused.
pub open spec fn remaining_after(remaining: int, lens: Seq<usize>) -> Option<int>
    decreases lens.len(),
{
    if lens.len() == 0 {
        Some(remaining)
    } else {
        match remaining_after(remaining, lens.drop_last()) {
            Some(left) => if lens.last() <= left {
                Some(left - lens.last())
            } else {
                None
            },
            None => None,
        }
    }
}

/// The sum of a list of lengths.
pub open spec fn total_len(lens: Seq<usize>) -> int
    decreases lens.len(),
{
    if lens.len() == 0 {
        0
    } else {
        total_len(lens.drop_last()) + lens.last()
    }
}

/// A body never yields more than its limit: it accepts a series of data
/// frames exactly when their total length fits in the limit, and what is
/// left is the limit less that total.
pub proof fn lemma_limit_holds(remaining: usize, lens: Seq<usize>)
    ensures
        remaining_after(remaining as int, lens) is Some <==> total_len(lens) <= remaining,
        remaining_after(remaining as int, lens) matches Some(left) ==> left == remaining - total_len(lens),
    decreases lens.len(),
{
    if lens.len() > 0 {
        lemma_limit_holds(remaining, lens.drop_last());
        lemma_total_len_nonneg(lens.drop_last());
    }
}

proof fn lemma_total_len_nonneg(lens: Seq<usize>)
    ensures
        total_len(lens) >= 0,
    decreases lens.len(),
{
    if lens.len() > 0 {
        lemma_total_len_nonneg(lens.drop_last());
    }
}

/// The size hint of a limited body never promises more than the bytes
/// left, and its lower bound never exceeds its upper bound.
pub proof fn lemma_hint_capped(remaining: u64, lower: u64, upper: Option<u64>)
    requires
        upper matches Some(u) ==> lower <= u,
    ensures
        capped_hint(remaining, lower, upper).1 matches Some(u) && u <= remaining
            && capped_hint(remaining, lower, upper).0 <= u,
{
}

} // verus!
