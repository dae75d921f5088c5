//! HTTP status codes as plain `u16` values, with the facts the library needs
//! from `http::StatusCode`.
use vstd::prelude::*;

verus! {

/// The codes that `http::StatusCode` accepts.
pub open spec fn is_valid_status(code: u16) -> bool {
    100 <= code <= 999
}

/// The 3xx class.
pub open spec fn is_redirection_status(code: u16) -> bool {
    300 <= code <= 399
}

pub const SWITCHING_PROTOCOLS: u16 = 101;
pub const FOUND: u16 = 302;
pub const SEE_OTHER: u16 = 303;
pub const TEMPORARY_REDIRECT: u16 = 307;
pub const PERMANENT_REDIRECT: u16 = 308;
pub const BAD_REQUEST: u16 = 400;
pub const UNAUTHORIZED: u16 = 401;
pub const PAYMENT_REQUIRED: u16 = 402;
pub const FORBIDDEN: u16 = 403;
pub const NOT_FOUND: u16 = 404;
pub const METHOD_NOT_ALLOWED: u16 = 405;
pub const NOT_ACCEPTABLE: u16 = 406;
pub const PROXY_AUTHENTICATION_REQUIRED: u16 = 407;
pub const REQUEST_TIMEOUT: u16 = 408;
pub const CONFLICT: u16 = 409;
pub const GONE: u16 = 410;
pub const LENGTH_REQUIRED: u16 = 411;
pub const PRECONDITION_FAILED: u16 = 412;
pub const PAYLOAD_TOO_LARGE: u16 = 413;
pub const URI_TOO_LONG: u16 = 414;
pub const UNSUPPORTED_MEDIA_TYPE: u16 = 415;
pub const RANGE_NOT_SATISFIABLE: u16 = 416;
pub const EXPECTATION_FAILED: u16 = 417;
pub const IM_A_TEAPOT: u16 = 418;
pub const MISDIRECTED_REQUEST: u16 = 421;
pub const UNPROCESSABLE_ENTITY: u16 = 422;
pub const LOCKED: u16 = 423;
pub const FAILED_DEPENDENCY: u16 = 424;
pub const UPGRADE_REQUIRED: u16 = 426;
pub const PRECONDITION_REQUIRED: u16 = 428;
pub const TOO_MANY_REQUESTS: u16 = 429;
pub const REQUEST_HEADER_FIELDS_TOO_LARGE: u16 = 431;
pub const UNAVAILABLE_FOR_LEGAL_REASONS: u16 = 451;
pub const INTERNAL_SERVER_ERROR: u16 = 500;
pub const NOT_IMPLEMENTED: u16 = 501;
pub const BAD_GATEWAY: u16 = 502;
pub const SERVICE_UNAVAILABLE: u16 = 503;
pub const GATEWAY_TIMEOUT: u16 = 504;
pub const HTTP_VERSION_NOT_SUPPORTED: u16 = 505;
pub const VARIANT_ALSO_NEGOTIATES: u16 = 506;
pub const INSUFFICIENT_STORAGE: u16 = 507;
pub const LOOP_DETECTED: u16 = 508;
pub const NOT_EXTENDED: u16 = 510;
pub const NETWORK_AUTHENTICATION_REQUIRED: u16 = 511;

/// The reason phrase that `http::StatusCode::canonical_reason` gives a code.
pub uninterp spec fn canonical_reason_of(code: u16) -> Option<Seq<char>>;

/// The message of the error that `http::StatusCode::from_u16` returns for a
/// code it rejects (the `Display` text of `InvalidStatusCode`).
pub open spec fn invalid_status_message() -> Seq<char> {
    "invalid status code"@
}

/// Calls `http::StatusCode::from_u16`. Its source accepts exactly the codes
/// `100..=999`; the rejected case hands back the `Display` text of the
/// `InvalidStatusCode` error, which its source writes as one constant text.
#[verifier::external_body]
pub(crate) fn status_from_u16(code: u16) -> (r: Result<u16, String>)
    ensures
        r is Ok <==> is_valid_status(code),
        r matches Ok(c) ==> c == code,
        r matches Err(message) ==> message@ == invalid_status_message(),
{
    match http::StatusCode::from_u16(code) {
        Ok(status) => Ok(status.as_u16()),
        Err(error) => Err(error.to_string()),
    }
}

/// Calls `http::StatusCode::canonical_reason` on the status with the given
/// code. The phrase table is not restated: the result is named by
/// `canonical_reason_of`.
#[verifier::external_body]
pub(crate) fn canonical_reason(code: u16) -> (r: Option<&'static str>)
    requires
        is_valid_status(code),
    ensures
        r is Some <==> canonical_reason_of(code) is Some,
        r matches Some(phrase) ==> canonical_reason_of(code) == Some(phrase@),
{
    match http::StatusCode::from_u16(code) {
        Ok(status) => status.canonical_reason(),
        Err(_) => None,
    }
}

/// Whether a status code redirects the client (`StatusCode::is_redirection`).
pub fn is_redirection(code: u16) -> (r: bool)
    ensures
        r == is_redirection_status(code),
{
    300 <= code && code <= 399
}

} // verus!
