//! WebSocket upgrades: the checks on the handshake request, the accept key,
//! the connection's configuration, and the decisions of the task that relays
//! messages between the socket and the listener.
use vstd::prelude::*;
use core::ops::ControlFlow;
use crate::error::{Error, ErrorSource, SourceChain, IoErrorKind};
use crate::guard::{
    ErrorKind, Predicate, And, and, Header, header, CaseSensitive, case_sensitive, Contains,
    contains, Tag, tag, Comma, first_header_value, header_map_contents, header_get,
};
use crate::status::INTERNAL_SERVER_ERROR;
use crate::text::{owned, str_eq, string_from_utf8, ascii_lowercase, is_ascii_bytes, ascii_text, lemma_ascii_utf8};
use vstd::utf8::*;
use vstd::string::StringSliceAdditionalSpecFns;

verus! {

/// The outcome of a step of a web socket listener: `Break` closes the
/// connection, `Continue` reconnects the listener.
pub type Result<T> = core::result::Result<T, ControlFlow<Error, Error>>;

// ---------------------------------------------------------------------------
// Errors

/// Why a connection cannot be upgraded to a web socket.
#[derive(Debug)]
pub enum UpgradeError {
    InvalidAcceptEncoding,
    InvalidConnectionHeader,
    InvalidUpgradeHeader,
    EncoderError,
    MissingAcceptKey,
    UnknownVersion,
    Unsupported,
}

/// The `Display` text of an upgrade error.
pub open spec fn upgrade_message(e: UpgradeError) -> Seq<char> {
    match e {
        UpgradeError::InvalidAcceptEncoding => "header \"sec-websocket-key\" must be base64 encoded."@,
        UpgradeError::InvalidConnectionHeader => "\"connection\" header must contain token: \"upgrade\"."@,
        UpgradeError::InvalidUpgradeHeader => "\"upgrade\" header must contain token: \"websocket\"."@,
        UpgradeError::EncoderError => "failed to encode \"sec-websocket-accept\"."@,
        UpgradeError::MissingAcceptKey => "missing required header: \"sec-websocket-key\"."@,
        UpgradeError::UnknownVersion => "\"sec-websocket-version\" must be \"13\"."@,
        UpgradeError::Unsupported => "connection does not support websocket upgrades."@,
    }
}

impl UpgradeError {
    /// The `Display` text of the error.
    pub fn message(&self) -> (r: String)
        ensures
            r@ == upgrade_message(*self),
    {
        match self {
            UpgradeError::InvalidAcceptEncoding => owned("header \"sec-websocket-key\" must be base64 encoded."),
            UpgradeError::InvalidConnectionHeader => owned("\"connection\" header must contain token: \"upgrade\"."),
            UpgradeError::InvalidUpgradeHeader => owned("\"upgrade\" header must contain token: \"websocket\"."),
            UpgradeError::EncoderError => owned("failed to encode \"sec-websocket-accept\"."),
            UpgradeError::MissingAcceptKey => owned("missing required header: \"sec-websocket-key\"."),
            UpgradeError::UnknownVersion => owned("\"sec-websocket-version\" must be \"13\"."),
            UpgradeError::Unsupported => owned("connection does not support websocket upgrades."),
        }
    }

    /// The error as the source of a framework error: its message, without a
    /// cause.
    pub fn source_chain(&self) -> (r: SourceChain)
        ensures
            r.messages() == seq![upgrade_message(*self)],
    {
        let m = self.message();
        SourceChain::single(m.as_str())
    }
}

/// The upgrade error that a failed handshake check stands for: a bad
/// `connection` or `upgrade` header, otherwise a bad version.
pub open spec fn upgrade_error_of(kind: ErrorKind) -> UpgradeError {
    match kind {
        ErrorKind::Header(name) => if name@ == "connection"@ {
            UpgradeError::InvalidConnectionHeader
        } else if name@ == "upgrade"@ {
            UpgradeError::InvalidUpgradeHeader
        } else {
            UpgradeError::UnknownVersion
        },
        _ => UpgradeError::UnknownVersion,
    }
}

impl From<ErrorKind> for UpgradeError {
    fn from(error: ErrorKind) -> (r: Self) {
        match error {
            ErrorKind::Header(name) => if str_eq(name.as_str(), "connection") {
                UpgradeError::InvalidConnectionHeader
            } else if str_eq(name.as_str(), "upgrade") {
                UpgradeError::InvalidUpgradeHeader
            } else {
                UpgradeError::UnknownVersion
            },
            _ => UpgradeError::UnknownVersion,
        }
    }
}

impl vstd::std_specs::convert::FromSpecImpl<ErrorKind> for UpgradeError {
    open spec fn obeys_from_spec() -> bool {
        true
    }

    open spec fn from_spec(v: ErrorKind) -> Self {
        upgrade_error_of(v)
    }
}

/// What the framework reads of an error of the web socket protocol
/// (`tungstenite::Error`): the kind of I/O error it wraps, if it wraps
/// one, and its messages.
pub struct WebSocketError {
    pub io: Option<IoErrorKind>,
    pub source: SourceChain,
}

/// Calls `Display::fmt` on `tungstenite::Error::AlreadyClosed`, whose
/// `#[error]` attribute in the crate's source gives the text.
#[verifier::external_body]
fn already_closed_message() -> (r: String)
    ensures
        r@ == "Trying to work with closed connection"@,
{
    tungstenite::Error::AlreadyClosed.to_string()
}

/// The error of an operation on a connection that is closed: it closes the
/// connection.
pub fn already_closed() -> (r: ControlFlow<Error, Error>)
    ensures
        r matches ControlFlow::Break(e) && e.spec_status() == INTERNAL_SERVER_ERROR && (
        e.spec_source() matches ErrorSource::Other(c) && c.messages() == seq![
            "Trying to work with closed connection"@,
        ]),
{
    let message = already_closed_message();
    ControlFlow::Break(Error::other(SourceChain::single(message.as_str())))
}

/// Whether an I/O error of this kind is worth a new attempt.
pub open spec fn is_transient(kind: Option<IoErrorKind>) -> bool {
    kind == Some(IoErrorKind::Interrupted) || kind == Some(IoErrorKind::TimedOut)
}

/// Only an interrupted or timed out read or write is worth a new attempt;
/// every other I/O error, and an error with no I/O kind, closes the
/// connection.
pub proof fn lemma_transient_errors(kind: Option<IoErrorKind>)
    ensures
        is_transient(kind) <==> (kind == Some(IoErrorKind::Interrupted) || kind == Some(
            IoErrorKind::TimedOut,
        )),
        !is_transient(None) && !is_transient(Some(IoErrorKind::ConnectionReset)) && !is_transient(
            Some(IoErrorKind::BrokenPipe),
        ),
{
}

/// Decides what a protocol error does to the connection: an interrupted or
/// timed out read or write reconnects the listener, any other error closes
/// the connection. Either way the error becomes a framework error with
/// status `500`.
pub fn rescue(error: WebSocketError) -> (r: ControlFlow<Error, Error>)
    ensures
        r is Continue <==> is_transient(error.io),
        r matches ControlFlow::Continue(e) ==> e.spec_status() == INTERNAL_SERVER_ERROR
            && e.spec_source() == ErrorSource::Other(error.source),
        r matches ControlFlow::Break(e) ==> e.spec_status() == INTERNAL_SERVER_ERROR
            && e.spec_source() == ErrorSource::Other(error.source),
{
    let transient = match error.io {
        Some(IoErrorKind::Interrupted) | Some(IoErrorKind::TimedOut) => true,
        _ => false,
    };
    if transient {
        ControlFlow::Continue(Error::other(error.source))
    } else {
        ControlFlow::Break(Error::other(error.source))
    }
}

/// Conversions of a framework result into the result of a listener step.
pub trait ResultExt: Sized {
    type Output;

    /// `r` is `self` with its error, if any, made a framework error.
    spec fn converts_to(self, r: core::result::Result<Self::Output, Error>) -> bool;

    /// A failure closes the connection.
    fn or_close(self) -> (r: Result<Self::Output>)
        ensures
            exists|orig: core::result::Result<Self::Output, Error>| #[trigger] self.converts_to(orig)
                && match orig {
                Ok(v) => r == Ok::<Self::Output, ControlFlow<Error, Error>>(v),
                Err(e) => r == Err::<Self::Output, ControlFlow<Error, Error>>(ControlFlow::Break(e)),
            },
    ;

    /// A failure reconnects the listener.
    fn or_reconnect(self) -> (r: Result<Self::Output>)
        ensures
            exists|orig: core::result::Result<Self::Output, Error>| #[trigger] self.converts_to(orig)
                && match orig {
                Ok(v) => r == Ok::<Self::Output, ControlFlow<Error, Error>>(v),
                Err(e) => r == Err::<Self::Output, ControlFlow<Error, Error>>(ControlFlow::Continue(e)),
            },
    ;
}

/// A result whose error the framework error can be built from: its error
/// becomes what `Error::from` builds of it.
impl<T, E> ResultExt for core::result::Result<T, E> where Error: From<E> {
    type Output = T;

    open spec fn converts_to(self, r: core::result::Result<T, Error>) -> bool {
        match self {
            Ok(v) => r == Ok::<T, Error>(v),
            Err(e) => r matches Err(x) && call_ensures(<Error as From<E>>::from, (e,), x),
        }
    }

    fn or_close(self) -> (r: Result<T>) {
        match self {
            Ok(v) => {
                assert(self.converts_to(Ok::<T, Error>(v)));
                Ok(v)
            },
            Err(e) => {
                let x = Error::from(e);
                assert(self.converts_to(Err::<T, Error>(x)));
                Err(ControlFlow::Break(x))
            },
        }
    }

    fn or_reconnect(self) -> (r: Result<T>) {
        match self {
            Ok(v) => {
                assert(self.converts_to(Ok::<T, Error>(v)));
                Ok(v)
            },
            Err(e) => {
                let x = Error::from(e);
                assert(self.converts_to(Err::<T, Error>(x)));
                Err(ControlFlow::Continue(x))
            },
        }
    }
}

// ---------------------------------------------------------------------------
// The accept key

#[verifier::external_type_specification]
#[verifier::external_body]
pub struct ExEncodeSliceError(base64::EncodeSliceError);

/// The SHA-1 digest of `data` (`ring::digest::digest` with
/// `SHA1_FOR_LEGACY_USE_ONLY`).
pub uninterp spec fn sha1_digest(data: Seq<u8>) -> Seq<u8>;

/// The character of the standard base64 alphabet for a 6-bit value:
/// `A`-`Z`, `a`-`z`, `0`-`9`, `+`, `/`.
pub open spec fn base64_char(v: int) -> u8 {
    if v < 26 {
        (0x41 + v) as u8
    } else if v < 52 {
        (0x61 + v - 26) as u8
    } else if v < 62 {
        (0x30 + v - 52) as u8
    } else if v == 62 {
        0x2B
    } else {
        0x2F
    }
}

/// The standard base64 encoding of `data`, with padding
/// (`base64::engine::general_purpose::STANDARD`): each group of three bytes
/// becomes four characters of six bits each; a last group of one or two
/// bytes is padded with `=` to four characters.
pub open spec fn base64_standard(data: Seq<u8>) -> Seq<u8>
    decreases data.len(),
{
    if data.len() == 0 {
        seq![]
    } else if data.len() == 1 {
        let a = data[0] as int;
        seq![base64_char(a / 4), base64_char((a % 4) * 16), 0x3Du8, 0x3Du8]
    } else if data.len() == 2 {
        let a = data[0] as int;
        let b = data[1] as int;
        seq![base64_char(a / 4), base64_char((a % 4) * 16 + b / 16), base64_char((b % 16) * 4), 0x3Du8]
    } else {
        let a = data[0] as int;
        let b = data[1] as int;
        let c = data[2] as int;
        seq![
            base64_char(a / 4),
            base64_char((a % 4) * 16 + b / 16),
            base64_char((b % 16) * 4 + c / 64),
            base64_char(c % 64),
        ] + base64_standard(data.subrange(3, data.len() as int))
    }
}

/// The length of the padded base64 encoding of `n` bytes.
pub open spec fn base64_len(n: int) -> int {
    4 * ((n + 2) / 3)
}

/// Base64 writes four characters for every three bytes, padding the last
/// group: its length is `base64_len`, and a whole number of groups encodes on
/// its own, so the encoding of `a` then `b` is that of `a` followed by that
/// of `b` when `a` holds whole groups.
pub proof fn lemma_base64_groups(a: Seq<u8>, b: Seq<u8>)
    ensures
        base64_standard(a).len() == base64_len(a.len() as int),
        a.len() % 3 == 0 ==> base64_standard(a + b) == base64_standard(a) + base64_standard(b),
    decreases a.len(),
{
    if a.len() >= 3 {
        lemma_base64_groups(a.subrange(3, a.len() as int), b);
        assert((a + b).subrange(3, (a + b).len() as int) =~= a.subrange(3, a.len() as int) + b);
        assert((a + b)[0] == a[0] && (a + b)[1] == a[1] && (a + b)[2] == a[2]);
        if a.len() % 3 == 0 {
            assert(base64_standard(a + b) =~= base64_standard(a) + base64_standard(b));
        }
    } else if a.len() == 0 {
        assert(a + b =~= b);
        assert(base64_standard(a) + base64_standard(b) =~= base64_standard(b));
    }
}

/// A byte of the standard base64 alphabet, or the padding byte `=`.
pub open spec fn is_base64_byte(b: u8) -> bool {
    (0x41 <= b <= 0x5A) || (0x61 <= b <= 0x7A) || (0x30 <= b <= 0x39) || b == 0x2B || b == 0x2F
        || b == 0x3D
}

/// The longest input that ring's SHA-1 accepts: `2^61 - 1` bytes
/// (`2^64 - 1` bits).
pub open spec fn sha1_input_limit() -> int {
    0x2000_0000_0000_0000
}

/// Calls `ring::digest::digest` with `SHA1_FOR_LEGACY_USE_ONLY`; its
/// documentation gives a 20-byte digest, and its source panics only on an
/// input of `2^61` bytes or more.
#[verifier::external_body]
fn digest_sha1(data: &[u8]) -> (r: Vec<u8>)
    requires
        data@.len() < sha1_input_limit(),
    ensures
        r@ == sha1_digest(data@),
        r@.len() == 20,
{
    ring::digest::digest(&ring::digest::SHA1_FOR_LEGACY_USE_ONLY, data).as_ref().to_vec()
}

/// Calls `Engine::encode_slice` on the standard engine. Its source writes
/// the padded encoding (`base64_standard`), `4 * ceil(n / 3)` bytes of the
/// standard alphabet, to the front of `output` when it fits and fails
/// otherwise; it panics only when that length overflows.
#[verifier::external_body]
fn base64_encode_slice(input: &[u8], output: &mut Vec<u8>) -> (r: core::result::Result<
    usize,
    base64::EncodeSliceError,
>)
    requires
        base64_len(input@.len() as int) <= usize::MAX,
    ensures
        final(output)@.len() == old(output)@.len(),
        r is Ok <==> base64_len(input@.len() as int) <= old(output)@.len(),
        r is Err ==> final(output)@ == old(output)@,
        r matches Ok(n) ==> n == base64_len(input@.len() as int) && final(output)@.take(n as int)
            == base64_standard(input@) && final(output)@.skip(n as int) == old(output)@.skip(
            n as int,
        ) && forall|i: int| 0 <= i < n ==> is_base64_byte(#[trigger] final(output)@[i]),
{
    base64::Engine::encode_slice(
        &base64::engine::general_purpose::STANDARD,
        input,
        output.as_mut_slice(),
    )
}

/// The GUID that RFC 6455 appends to the key of a handshake.
pub open spec fn ws_accept_guid() -> Seq<u8> {
    "258EAFA5-E914-47DA-95CA-C5AB0DC85B11".spec_bytes()
}

/// The value of `sec-websocket-accept` for a handshake key: the base64
/// encoding of the SHA-1 digest of the key followed by the GUID.
pub open spec fn accept_value(key: Seq<u8>) -> Seq<char> {
    ascii_text(base64_standard(sha1_digest(key + ws_accept_guid())))
}

/// The base64 text of a digest.
#[derive(Debug)]
pub struct Base64EncodedDigest(String);

impl View for Base64EncodedDigest {
    type V = Seq<char>;

    closed spec fn view(&self) -> Seq<char> {
        self.0@
    }
}

impl Base64EncodedDigest {
    pub fn as_str(&self) -> (r: &str)
        ensures
            r@ == self@,
    {
        self.0.as_str()
    }
}

fn bytes_are_ascii(b: &[u8]) -> (r: bool)
    ensures
        r == is_ascii_bytes(b@),
{
    let mut i: usize = 0;
    while i < b.len()
        invariant
            i <= b@.len(),
            forall|j: int| 0 <= j < i ==> #[trigger] b@[j] < 0x80,
        decreases b@.len() - i,
    {
        if b[i] >= 0x80 {
            return false;
        }
        i = i + 1;
    }
    true
}

fn join_bytes(a: &[u8], b: &[u8]) -> (r: Vec<u8>)
    requires
        a@.len() + b@.len() <= usize::MAX,
    ensures
        r@ == a@ + b@,
{
    let mut r: Vec<u8> = Vec::new();
    let mut i: usize = 0;
    while i < a.len()
        invariant
            i <= a@.len(),
            r@ == a@.take(i as int),
        decreases a@.len() - i,
    {
        r.push(a[i]);
        i = i + 1;
        assert(r@ =~= a@.take(i as int));
    }
    let mut j: usize = 0;
    while j < b.len()
        invariant
            i == a@.len(),
            j <= b@.len(),
            r@ == a@ + b@.take(j as int),
        decreases b@.len() - j,
    {
        r.push(b[j]);
        j = j + 1;
        assert(r@ =~= a@ + b@.take(j as int));
    }
    assert(b@.take(b@.len() as int) =~= b@);
    r
}

/// Computes the `sec-websocket-accept` value for a handshake key. A key
/// with a byte outside ASCII is refused.
pub fn sha1(input: &[u8]) -> (r: core::result::Result<Base64EncodedDigest, UpgradeError>)
    requires
        input@.len() + 36 < sha1_input_limit(),
        input@.len() + 36 <= usize::MAX,
    ensures
        r is Ok <==> is_ascii_bytes(input@),
        r matches Ok(d) ==> d@ == accept_value(input@),
        r matches Err(e) ==> e == UpgradeError::InvalidAcceptEncoding,
{
    if !bytes_are_ascii(input) {
        return Err(UpgradeError::InvalidAcceptEncoding);
    }
    let text = "258EAFA5-E914-47DA-95CA-C5AB0DC85B11";
    let guid = text.as_bytes();
    proof {
        reveal_strlit("258EAFA5-E914-47DA-95CA-C5AB0DC85B11");
        assert(vstd::string::is_ascii(text));
        vstd::string::is_ascii_spec_bytes(text);
        assert(guid@.len() == 36);
    }
    let data = join_bytes(input, guid);
    let digest = digest_sha1(data.as_slice());
    let mut buf: Vec<u8> = Vec::new();
    while buf.len() < 28
        invariant
            buf@.len() <= 28,
        decreases 28 - buf@.len(),
    {
        buf.push(0);
    }
    match base64_encode_slice(digest.as_slice(), &mut buf) {
        Ok(n) => {
            let ghost encoded = buf@;
            assert(encoded.take(28) =~= encoded);
            proof {
                assert(is_ascii_bytes(encoded)) by {
                    assert forall|i: int| 0 <= i < encoded.len() implies #[trigger] encoded[i] < 0x80 by {
                        assert(is_base64_byte(encoded[i]));
                    }
                }
                lemma_ascii_utf8(encoded);
            }
            match string_from_utf8(buf) {
                Some(text) => Ok(Base64EncodedDigest(text)),
                None => Err(UpgradeError::EncoderError),
            }
        },
        Err(_) => Err(UpgradeError::EncoderError),
    }
}

// ---------------------------------------------------------------------------
// The upgrade middleware

/// The default size of a frame, a message and the read buffer: 16 KB.
pub const DEFAULT_FRAME_SIZE: usize = 16384;

/// How a web socket connection is configured.
pub struct WsConfig {
    /// The memory to pre-allocate in bytes for buffered reads.
    pub buffer_size: usize,
    /// The largest incoming frame; `None` for no limit.
    pub max_frame_size: Option<usize>,
    /// The largest message; `None` for no limit.
    pub max_message_size: Option<usize>,
}

impl WsConfig {
    /// The target size of the write buffer: twice the largest message, when
    /// there is such a limit and twice it fits in a `usize`.
    pub fn write_buffer_size(&self) -> (r: Option<usize>)
        ensures
            r == (match self.max_message_size {
                Some(limit) => if 2 * limit <= usize::MAX {
                    Some((2 * limit) as usize)
                } else {
                    None
                },
                None => None,
            }),
    {
        match self.max_message_size {
            Some(limit) => limit.checked_mul(2),
            None => None,
        }
    }
}

impl Default for WsConfig {
    fn default() -> (r: Self)
        ensures
            r.buffer_size == DEFAULT_FRAME_SIZE,
            r.max_frame_size == Some(DEFAULT_FRAME_SIZE),
            r.max_message_size == Some(DEFAULT_FRAME_SIZE),
    {
        WsConfig {
            buffer_size: DEFAULT_FRAME_SIZE,
            max_frame_size: Some(DEFAULT_FRAME_SIZE),
            max_message_size: Some(DEFAULT_FRAME_SIZE),
        }
    }
}

/// The checks on the headers of a handshake request.
pub type UpgradeGuard = And<(Header<CaseSensitive>, Header<Contains<Tag>>, Header<Contains<Tag>>)>;

/// The handshake checks: `sec-websocket-version` is exactly `13`, and the
/// comma separated values of `connection` and `upgrade` hold `upgrade` and
/// `websocket`, up to ASCII case.
pub open spec fn is_upgrade_guard(g: UpgradeGuard) -> bool {
    let version = g.spec_list().0;
    let connection = g.spec_list().1;
    let upgrade = g.spec_list().2;
    &&& version.spec_key()@ == "sec-websocket-version"@
    &&& !version.spec_optional()
    &&& version.spec_value().spec_bytes() == "13".spec_bytes()
    &&& connection.spec_key()@ == "connection"@
    &&& !connection.spec_optional()
    &&& connection.spec_value().spec_has().spec_separator() == Comma
    &&& connection.spec_value().spec_has().spec_predicate().spec_bytes() == "upgrade".spec_bytes()
    &&& upgrade.spec_key()@ == "upgrade"@
    &&& !upgrade.spec_optional()
    &&& upgrade.spec_value().spec_has().spec_separator() == Comma
    &&& upgrade.spec_value().spec_has().spec_predicate().spec_bytes() == "websocket".spec_bytes()
}

/// What a handshake request with the given headers gets: the first failed
/// check as an upgrade error, a missing key, a key outside ASCII, or the
/// accept value of the key.
pub open spec fn handshake_outcome(
    check: core::result::Result<(), ErrorKind>,
    headers: Map<Seq<char>, Seq<Seq<u8>>>,
) -> core::result::Result<Seq<char>, UpgradeError> {
    match check {
        Err(kind) => Err(upgrade_error_of(kind)),
        Ok(_) => match first_header_value(headers, "sec-websocket-key"@) {
            None => Err(UpgradeError::MissingAcceptKey),
            Some(key) => if is_ascii_bytes(key) {
                Ok(accept_value(key))
            } else {
                Err(UpgradeError::InvalidAcceptEncoding)
            },
        },
    }
}

/// The handshake checks in order and answers with the first failure: a
/// version other than exactly `13` is `UnknownVersion`, then a `connection`
/// header without the `upgrade` token is `InvalidConnectionHeader`, then an
/// `upgrade` header without `websocket` is `InvalidUpgradeHeader`; a request
/// that passes them needs a key, and gets the accept value of an ASCII key.
pub proof fn lemma_handshake(g: UpgradeGuard, m: Map<Seq<char>, Seq<Seq<u8>>>)
    requires
        is_upgrade_guard(g),
    ensures
        first_header_value(m, "sec-websocket-version"@) != Some("13".spec_bytes()) ==> handshake_outcome(
            g.judge(m),
            m,
        ) == Err::<Seq<char>, UpgradeError>(UpgradeError::UnknownVersion),
        first_header_value(m, "sec-websocket-version"@) == Some("13".spec_bytes()) && g.spec_list().1.judge(
            m,
        ) is Err ==> handshake_outcome(g.judge(m), m) == Err::<Seq<char>, UpgradeError>(
            UpgradeError::InvalidConnectionHeader,
        ),
        first_header_value(m, "sec-websocket-version"@) == Some("13".spec_bytes()) && g.spec_list().1.judge(
            m,
        ) is Ok && g.spec_list().2.judge(m) is Err ==> handshake_outcome(g.judge(m), m) == Err::<
            Seq<char>,
            UpgradeError,
        >(UpgradeError::InvalidUpgradeHeader),
        g.judge(m) is Ok ==> first_header_value(m, "sec-websocket-version"@) == Some("13".spec_bytes()),
        g.judge(m) is Ok && first_header_value(m, "sec-websocket-key"@) is None ==> handshake_outcome(
            g.judge(m),
            m,
        ) == Err::<Seq<char>, UpgradeError>(UpgradeError::MissingAcceptKey),
        g.judge(m) is Ok ==> (first_header_value(m, "sec-websocket-key"@) matches Some(key) ==> (
        is_ascii_bytes(key) ==> handshake_outcome(g.judge(m), m) == Ok::<Seq<char>, UpgradeError>(
            accept_value(key),
        ))),
{
    reveal_strlit("sec-websocket-version");
    reveal_strlit("connection");
    reveal_strlit("upgrade");
    assert("sec-websocket-version"@.len() == 21 && "connection"@.len() == 10 && "upgrade"@.len() == 7);
}

/// Upgrades a connection to a web socket and hands it to `listener`.
pub struct Ws<T> {
    listener: T,
    config: WsConfig,
    guard: UpgradeGuard,
}

impl<T> Ws<T> {
    #[verifier::type_invariant]
    spec fn inv(self) -> bool {
        is_upgrade_guard(self.guard)
    }

    pub closed spec fn spec_listener(self) -> T {
        self.listener
    }

    pub closed spec fn spec_config(self) -> WsConfig {
        self.config
    }

    pub closed spec fn spec_guard(self) -> UpgradeGuard {
        self.guard
    }

    /// A web socket upgrade with the default configuration.
    pub fn new(listener: T) -> (r: Self)
        ensures
            r.spec_listener() == listener,
            r.spec_config().buffer_size == DEFAULT_FRAME_SIZE,
            r.spec_config().max_frame_size == Some(DEFAULT_FRAME_SIZE),
            r.spec_config().max_message_size == Some(DEFAULT_FRAME_SIZE),
            is_upgrade_guard(r.spec_guard()),
    {
        proof {
            reveal_strlit("sec-websocket-version");
            reveal_strlit("connection");
            reveal_strlit("upgrade");
            assert(ascii_lowercase("sec-websocket-version"@) =~= "sec-websocket-version"@);
            assert(ascii_lowercase("connection"@) =~= "connection"@);
            assert(ascii_lowercase("upgrade"@) =~= "upgrade"@);
        }
        let version = header("sec-websocket-version", case_sensitive("13".as_bytes()));
        let connection = header("connection", contains(tag("upgrade".as_bytes())));
        let upgrade = header("upgrade", contains(tag("websocket".as_bytes())));
        Ws { listener, config: WsConfig::default(), guard: and((version, connection, upgrade)) }
    }

    /// The amount of memory to pre-allocate in bytes for buffered reads.
    pub fn buffer_size(self, capacity: usize) -> (r: Self)
        ensures
            r.spec_listener() == self.spec_listener(),
            r.spec_guard() == self.spec_guard(),
            r.spec_config() == (WsConfig { buffer_size: capacity, ..self.spec_config() }),
    {
        proof {
            use_type_invariant(&self);
        }
        let Ws { listener, config, guard } = self;
        Ws { listener, config: WsConfig { buffer_size: capacity, ..config }, guard }
    }

    /// The maximum size of a single incoming message frame; `None` for no
    /// limit.
    pub fn max_frame_size(self, limit: Option<usize>) -> (r: Self)
        ensures
            r.spec_listener() == self.spec_listener(),
            r.spec_guard() == self.spec_guard(),
            r.spec_config() == (WsConfig { max_frame_size: limit, ..self.spec_config() }),
    {
        proof {
            use_type_invariant(&self);
        }
        let Ws { listener, config, guard } = self;
        Ws { listener, config: WsConfig { max_frame_size: limit, ..config }, guard }
    }

    /// The maximum message size in bytes; `None` for no limit.
    pub fn max_message_size(self, limit: Option<usize>) -> (r: Self)
        ensures
            r.spec_listener() == self.spec_listener(),
            r.spec_guard() == self.spec_guard(),
            r.spec_config() == (WsConfig { max_message_size: limit, ..self.spec_config() }),
    {
        proof {
            use_type_invariant(&self);
        }
        let Ws { listener, config, guard } = self;
        Ws { listener, config: WsConfig { max_message_size: limit, ..config }, guard }
    }

    /// The function that serves the upgraded connections.
    pub fn listener(&self) -> (r: &T)
        ensures
            *r == self.spec_listener(),
    {
        &self.listener
    }

    /// The configuration of the upgraded connections.
    pub fn config(&self) -> (r: &WsConfig)
        ensures
            *r == self.spec_config(),
    {
        &self.config
    }

    /// Checks the headers of a handshake request and computes the value of
    /// `sec-websocket-accept`.
    pub fn verify(&self, headers: &http::HeaderMap) -> (r: core::result::Result<
        Base64EncodedDigest,
        UpgradeError,
    >)
        requires
            first_header_value(header_map_contents(*headers), "sec-websocket-key"@) matches Some(
                key,
            ) ==> key.len() + 36 < sha1_input_limit() && key.len() + 36 <= usize::MAX,
        ensures
            is_upgrade_guard(self.spec_guard()),
            match handshake_outcome(
                self.spec_guard().judge(header_map_contents(*headers)),
                header_map_contents(*headers),
            ) {
                Ok(accept) => r matches Ok(d) && d@ == accept,
                Err(e) => r == Err::<Base64EncodedDigest, UpgradeError>(e),
            },
    {
        proof {
            use_type_invariant(self);
        }
        match self.guard.cmp(headers) {
            Ok(()) => {},
            Err(kind) => return Err(UpgradeError::from(kind)),
        }
        proof {
            reveal_strlit("sec-websocket-key");
        }
        match header_get(headers, "sec-websocket-key") {
            Some(key) => sha1(key),
            None => Err(UpgradeError::MissingAcceptKey),
        }
    }

    /// Checks a handshake request as `verify` does, first making sure that
    /// its key is short enough to be hashed: `None` for a longer key.
    pub fn try_verify(&self, headers: &http::HeaderMap) -> (r: Option<
        core::result::Result<Base64EncodedDigest, UpgradeError>,
    >)
        ensures
            r is None <==> (first_header_value(header_map_contents(*headers), "sec-websocket-key"@)
                matches Some(key) && !(key.len() + 36 < sha1_input_limit() && key.len() + 36
                <= usize::MAX)),
            r matches Some(v) ==> match handshake_outcome(
                self.spec_guard().judge(header_map_contents(*headers)),
                header_map_contents(*headers),
            ) {
                Ok(accept) => v matches Ok(d) && d@ == accept,
                Err(e) => v == Err::<Base64EncodedDigest, UpgradeError>(e),
            },
    {
        proof {
            reveal_strlit("sec-websocket-key");
        }
        match header_get(headers, "sec-websocket-key") {
            Some(key) => {
                let n = key.len();
                if n > usize::MAX - 36 || n as u64 >= 0x2000_0000_0000_0000u64 - 36 {
                    return None;
                }
            },
            None => {},
        }
        Some(self.verify(headers))
    }
}

/// Upgrades the connection to a web socket served by `listener`.
pub fn ws<T>(listener: T) -> (r: Ws<T>)
    ensures
        r.spec_listener() == listener,
        r.spec_config().buffer_size == DEFAULT_FRAME_SIZE,
        r.spec_config().max_frame_size == Some(DEFAULT_FRAME_SIZE),
        r.spec_config().max_message_size == Some(DEFAULT_FRAME_SIZE),
        is_upgrade_guard(r.spec_guard()),
{
    Ws::new(listener)
}

// ---------------------------------------------------------------------------
// Relaying messages

/// Where the task that relays messages between the socket and the listener
/// stands: what it has asked for and waits to hear about.
pub enum Stage<M> {
    /// Receiving: asked whether the listener can take another message.
    Capacity,
    /// Asked the socket for the next message.
    Stream,
    /// Handed a message to the listener.
    Delivery,
    /// Polled the listener.
    Listener,
    /// Asked the listener for a message to send.
    Recv,
    /// Sending: asked whether the socket can take the message it holds.
    Ready(M),
    /// Handed the message to the socket.
    Start,
    /// Flushing: asked the socket to flush.
    Flush,
    /// The task has ended.
    Done,
}

/// What the socket, the channel or the listener answered.
pub enum Event<M> {
    /// The task is polled again after it yielded.
    Resume,
    /// Whether the listener can take another message.
    Capacity(bool),
    /// The socket has no message yet.
    StreamPending,
    /// The socket produced a message.
    StreamItem(M),
    /// The socket is closed.
    StreamEnd,
    /// The listener took the message.
    Delivered,
    /// The listener is still running.
    ListenerPending,
    /// The listener returned successfully.
    ListenerDone,
    /// A message from the listener, if it sent one.
    Received(Option<M>),
    /// The socket cannot take a message yet.
    SinkPending,
    /// The socket can take a message.
    SinkReady,
    /// The socket took the message.
    Sent,
    /// The flush has not finished.
    FlushPending,
    /// The flush finished.
    Flushed,
    /// An operation failed, or the listener returned an error.
    Failed(ControlFlow<Error, Error>),
}

/// What the task does next.
pub enum Action<M> {
    CheckCapacity,
    PollStream,
    Deliver(M),
    PollListener,
    TryRecv,
    PollReady,
    StartSend(M),
    PollFlush,
    /// Return `Pending`; the next poll resumes the task.
    Yield,
    /// Return the result: the task has ended.
    Finish(Result<()>),
}

/// The decisions of the relay task: from where it stands and what it just
/// heard, where it stands next and what it does. The task receives while the
/// listener has room, polls the listener, and sends and flushes each message
/// that the listener hands it; any failure ends it, as does the end of the
/// socket or of the listener. An answer that the stage does not wait for
/// changes nothing.
pub open spec fn relay_step<M>(stage: Stage<M>, event: Event<M>) -> (Stage<M>, Action<M>) {
    match (stage, event) {
        (Stage::Done, _) => (Stage::Done, Action::Yield),
        (_, Event::Failed(e)) => (Stage::Done, Action::Finish(Err(e))),
        (Stage::Capacity, Event::Resume) => (Stage::Capacity, Action::CheckCapacity),
        (Stage::Capacity, Event::Capacity(true)) => (Stage::Stream, Action::PollStream),
        (Stage::Capacity, Event::Capacity(false)) => (Stage::Listener, Action::PollListener),
        (Stage::Stream, Event::StreamPending) => (Stage::Listener, Action::PollListener),
        (Stage::Stream, Event::StreamItem(m)) => (Stage::Delivery, Action::Deliver(m)),
        (Stage::Stream, Event::StreamEnd) => (Stage::Done, Action::Finish(Ok(()))),
        (Stage::Delivery, Event::Delivered) => (Stage::Listener, Action::PollListener),
        (Stage::Listener, Event::ListenerPending) => (Stage::Recv, Action::TryRecv),
        (Stage::Listener, Event::ListenerDone) => (Stage::Done, Action::Finish(Ok(()))),
        (Stage::Recv, Event::Received(Some(m))) => (Stage::Ready(m), Action::PollReady),
        (Stage::Recv, Event::Received(None)) => (Stage::Capacity, Action::Yield),
        (Stage::Ready(m), Event::Resume) => (Stage::Ready(m), Action::PollReady),
        (Stage::Ready(m), Event::SinkPending) => (Stage::Ready(m), Action::Yield),
        (Stage::Ready(m), Event::SinkReady) => (Stage::Start, Action::StartSend(m)),
        (Stage::Start, Event::Sent) => (Stage::Flush, Action::PollFlush),
        (Stage::Flush, Event::Resume) => (Stage::Flush, Action::PollFlush),
        (Stage::Flush, Event::FlushPending) => (Stage::Flush, Action::Yield),
        (Stage::Flush, Event::Flushed) => (Stage::Capacity, Action::CheckCapacity),
        (s, _) => (s, Action::Yield),
    }
}

impl<M> Stage<M> {
    /// Where a new task stands: receiving.
    pub fn start() -> (r: Self)
        ensures
            r is Capacity,
    {
        Stage::Capacity
    }
}

/// Takes one step of the relay task.
pub fn relay<M>(stage: Stage<M>, event: Event<M>) -> (r: (Stage<M>, Action<M>))
    ensures
        r == relay_step(stage, event),
{
    match (stage, event) {
        (Stage::Done, _) => (Stage::Done, Action::Yield),
        (_, Event::Failed(e)) => (Stage::Done, Action::Finish(Err(e))),
        (Stage::Capacity, Event::Resume) => (Stage::Capacity, Action::CheckCapacity),
        (Stage::Capacity, Event::Capacity(room)) => if room {
            (Stage::Stream, Action::PollStream)
        } else {
            (Stage::Listener, Action::PollListener)
        },
        (Stage::Stream, Event::StreamPending) => (Stage::Listener, Action::PollListener),
        (Stage::Stream, Event::StreamItem(m)) => (Stage::Delivery, Action::Deliver(m)),
        (Stage::Stream, Event::StreamEnd) => (Stage::Done, Action::Finish(Ok(()))),
        (Stage::Delivery, Event::Delivered) => (Stage::Listener, Action::PollListener),
        (Stage::Listener, Event::ListenerPending) => (Stage::Recv, Action::TryRecv),
        (Stage::Listener, Event::ListenerDone) => (Stage::Done, Action::Finish(Ok(()))),
        (Stage::Recv, Event::Received(Some(m))) => (Stage::Ready(m), Action::PollReady),
        (Stage::Recv, Event::Received(None)) => (Stage::Capacity, Action::Yield),
        (Stage::Ready(m), Event::Resume) => (Stage::Ready(m), Action::PollReady),
        (Stage::Ready(m), Event::SinkPending) => (Stage::Ready(m), Action::Yield),
        (Stage::Ready(m), Event::SinkReady) => (Stage::Start, Action::StartSend(m)),
        (Stage::Start, Event::Sent) => (Stage::Flush, Action::PollFlush),
        (Stage::Flush, Event::Resume) => (Stage::Flush, Action::PollFlush),
        (Stage::Flush, Event::FlushPending) => (Stage::Flush, Action::Yield),
        (Stage::Flush, Event::Flushed) => (Stage::Capacity, Action::CheckCapacity),
        (s, _) => (s, Action::Yield),
    }
}

/// The answers that a stage waits for.
pub open spec fn expects<M>(stage: Stage<M>, event: Event<M>) -> bool {
    match stage {
        Stage::Capacity => event is Resume || event is Capacity || event is Failed,
        Stage::Stream => event is StreamPending || event is StreamItem || event is StreamEnd
            || event is Failed,
        Stage::Delivery => event is Delivered || event is Failed,
        Stage::Listener => event is ListenerPending || event is ListenerDone || event is Failed,
        Stage::Recv => event is Received || event is Failed,
        Stage::Ready(_) => event is Resume || event is SinkPending || event is SinkReady
            || event is Failed,
        Stage::Start => event is Sent || event is Failed,
        Stage::Flush => event is Resume || event is FlushPending || event is Flushed
            || event is Failed,
        Stage::Done => false,
    }
}

/// The answers that performing an action can give.
pub open spec fn answers<M>(action: Action<M>, event: Event<M>) -> bool {
    match action {
        Action::CheckCapacity => event is Capacity || event is Failed,
        Action::PollStream => event is StreamPending || event is StreamItem || event is StreamEnd
            || event is Failed,
        Action::Deliver(_) => event is Delivered || event is Failed,
        Action::PollListener => event is ListenerPending || event is ListenerDone
            || event is Failed,
        Action::TryRecv => event is Received || event is Failed,
        Action::PollReady => event is SinkPending || event is SinkReady || event is Failed,
        Action::StartSend(_) => event is Sent || event is Failed,
        Action::PollFlush => event is FlushPending || event is Flushed || event is Failed,
        Action::Yield => event is Resume,
        Action::Finish(_) => false,
    }
}

/// The relay task asks only what it can hear: whatever a step asks for,
/// every answer to it is one that the next stage waits for, and a task that
/// yields waits to be resumed.
pub proof fn lemma_relay_closed<M>(stage: Stage<M>, event: Event<M>, next: Event<M>)
    requires
        expects(stage, event),
        answers(relay_step(stage, event).1, next),
    ensures
        expects(relay_step(stage, event).0, next),
{
}

/// Any failure ends the relay task with that failure.
pub proof fn lemma_relay_failure_ends<M>(stage: Stage<M>, failure: ControlFlow<Error, Error>)
    requires
        !(stage is Done),
    ensures
        relay_step(stage, Event::Failed(failure)) == (Stage::<M>::Done, Action::<M>::Finish(
            Err(failure),
        )),
{
}

/// A message that the listener hands over is the message that goes to the
/// socket: while the task waits for the socket it keeps the message, and it
/// sends exactly that message, then flushes.
pub proof fn lemma_relay_sends_what_it_received<M>(m: M, event: Event<M>)
    requires
        expects(Stage::Ready(m), event),
        !(event is Failed),
    ensures
        relay_step(Stage::Recv, Event::Received(Some(m))) == (Stage::Ready(m), Action::<M>::PollReady),
        relay_step(Stage::Ready(m), event).0 == Stage::Ready(m)
            || relay_step(Stage::Ready(m), event) == (Stage::<M>::Start, Action::StartSend(m)),
        relay_step(Stage::<M>::Start, Event::Sent) == (Stage::<M>::Flush, Action::<M>::PollFlush),
{
}

/// The relay task ends only when something ends it: a failure, which it
/// returns, or the end of the socket stream or of the listener, which are
/// successes. Any other event keeps a running task running, so an idle
/// listener with nothing to send leaves the connection open: the task yields
/// and checks for room again when it is polled.
pub proof fn lemma_relay_ends_only_on_end<M>(stage: Stage<M>, event: Event<M>)
    ensures
        relay_step(stage, event).1 is Finish ==> !(stage is Done) && (event is Failed
            || event is StreamEnd || event is ListenerDone),
        relay_step(stage, event).1 matches Action::Finish(r) ==> match r {
            Ok(()) => event is StreamEnd || event is ListenerDone,
            Err(e) => event == Event::<M>::Failed(e),
        },
        !(stage is Done) && !(event is Failed || event is StreamEnd || event is ListenerDone) ==> !(
        relay_step(stage, event).0 is Done) && !(relay_step(stage, event).1 is Finish),
        (stage is Done) ==> relay_step(stage, event) == (Stage::<M>::Done, Action::<M>::Yield),
        relay_step(Stage::<M>::Recv, Event::Received(None)) == (Stage::<M>::Capacity, Action::<M>::Yield),
        relay_step(Stage::<M>::Capacity, Event::Resume) == (Stage::<M>::Capacity, Action::<M>::CheckCapacity),
{
}

/// The relay reads from the socket only when the listener has room for
/// another message, hands the listener only a message the socket produced,
/// and sends only the message the listener handed it, once the socket is
/// ready; it polls the listener after each delivery and whenever it cannot
/// read, and checks for room again after each flush.
pub proof fn lemma_relay_data_flow<M>(stage: Stage<M>, event: Event<M>, m: M)
    ensures
        relay_step(stage, event).1 is PollStream <==> (stage is Capacity && event == Event::<M>::Capacity(true)),
        relay_step(stage, event).1 == Action::Deliver(m) <==> (stage is Stream && event == Event::StreamItem(m)),
        relay_step(stage, event).1 == Action::StartSend(m) <==> (stage == Stage::Ready(m) && event is SinkReady),
        (stage is Delivery && event is Delivered) ==> relay_step(stage, event).1 is PollListener,
        (stage is Stream && event is StreamPending) ==> relay_step(stage, event).1 is PollListener,
        (stage is Capacity && event == Event::<M>::Capacity(false)) ==> relay_step(stage, event).1 is PollListener,
        (stage is Flush && event is Flushed) ==> relay_step(stage, event) == (Stage::<M>::Capacity, Action::<M>::CheckCapacity),
{
}

/// A message that the socket produces goes to the listener at once.
pub proof fn lemma_relay_delivers<M>(m: M)
    ensures
        relay_step(Stage::Stream, Event::StreamItem(m)) == (Stage::<M>::Delivery, Action::Deliver(m)),
{
}

/// What the connection task does once the relay ends: a success or an
/// error that closes the connection ends it; an error that asks for a new
/// attempt starts the listener again.
pub enum RunOutcome {
    Complete(core::result::Result<(), Error>),
    Reconnect,
}

/// Decides what the connection task does with the result of the relay.
pub fn run_outcome(result: Result<()>) -> (r: RunOutcome)
    ensures
        match result {
            Ok(_) => r == RunOutcome::Complete(Ok(())),
            Err(ControlFlow::Break(e)) => r == RunOutcome::Complete(Err(e)),
            Err(ControlFlow::Continue(_)) => r is Reconnect,
        },
{
    match result {
        Ok(()) => RunOutcome::Complete(Ok(())),
        Err(ControlFlow::Break(e)) => RunOutcome::Complete(Err(e)),
        Err(ControlFlow::Continue(_)) => RunOutcome::Reconnect,
    }
}

} // verus!
