//! Responses: redirects, the error of an empty middleware stack, and the
//! headers that the body helpers set.
use vstd::prelude::*;
use crate::error::{Error, ErrorSource, SourceChain, canonical_error, canonical_message};
use crate::guard::{is_header_value, invalid_header_value_message, header_value_check};
use vstd::string::StringSliceAdditionalSpecFns;
use crate::status::{
    is_valid_status, is_redirection_status, is_redirection, FOUND, SEE_OTHER, TEMPORARY_REDIRECT,
    PERMANENT_REDIRECT, INTERNAL_SERVER_ERROR, NOT_FOUND,
};
use crate::text::owned;

verus! {

/// The `Content-Type` of a JSON body.
pub open spec fn json_content_type() -> Seq<char> {
    "application/json; charset=utf-8"@
}

/// The `Content-Type` of an HTML body.
pub open spec fn html_content_type() -> Seq<char> {
    "text/html; charset=utf-8"@
}

/// The `Content-Type` of a plain text body.
pub open spec fn text_content_type() -> Seq<char> {
    "text/plain; charset=utf-8"@
}

/// The kinds of body that the response builder writes.
pub enum BodyKind {
    Json,
    Html,
    Text,
}

/// The `Content-Type` header that the response builder sets for a body.
pub fn content_type(kind: BodyKind) -> (r: &'static str)
    ensures
        r@ == match kind {
            BodyKind::Json => json_content_type(),
            BodyKind::Html => html_content_type(),
            BodyKind::Text => text_content_type(),
        },
{
    match kind {
        BodyKind::Json => "application/json; charset=utf-8",
        BodyKind::Html => "text/html; charset=utf-8",
        BodyKind::Text => "text/plain; charset=utf-8",
    }
}

/// A redirect: its status and the value of its `Location` header.
pub struct Redirect {
    pub status: u16,
    pub location: String,
}

/// What a redirect with `status` to `location` gives: a status outside
/// `3xx` is a server error with the canonical message; a location that is no
/// valid header value is a server error with http's message; otherwise the
/// redirect.
pub open spec fn redirect_outcome(status: u16, location: &str, r: Result<Redirect, Error>) -> bool {
    if !is_redirection_status(status) {
        r matches Err(e) && e.spec_status() == INTERNAL_SERVER_ERROR && (e.spec_source() matches ErrorSource::Message(m)
            && m@ == canonical_message(INTERNAL_SERVER_ERROR))
    } else if !is_header_value(location.spec_bytes()) {
        r matches Err(e) && e.spec_status() == INTERNAL_SERVER_ERROR && (e.spec_source() matches ErrorSource::Other(c)
            && c.messages() == seq![invalid_header_value_message()])
    } else {
        r matches Ok(redirect) && redirect.status == status && redirect.location@ == location@
    }
}

impl Redirect {
    /// A `302 Found` redirect to `location`.
    pub fn found(location: &str) -> (r: Result<Redirect, Error>)
        ensures
            redirect_outcome(FOUND, location, r),
    {
        Self::with_status(location, FOUND)
    }

    /// A `303 See Other` redirect to `location`.
    pub fn see_other(location: &str) -> (r: Result<Redirect, Error>)
        ensures
            redirect_outcome(SEE_OTHER, location, r),
    {
        Self::with_status(location, SEE_OTHER)
    }

    /// A `307 Temporary Redirect` to `location`.
    pub fn temporary(location: &str) -> (r: Result<Redirect, Error>)
        ensures
            redirect_outcome(TEMPORARY_REDIRECT, location, r),
    {
        Self::with_status(location, TEMPORARY_REDIRECT)
    }

    /// A `308 Permanent Redirect` to `location`.
    pub fn permanent(location: &str) -> (r: Result<Redirect, Error>)
        ensures
            redirect_outcome(PERMANENT_REDIRECT, location, r),
    {
        Self::with_status(location, PERMANENT_REDIRECT)
    }

    /// A redirect to `location` with `status`, which must be a `3xx` code;
    /// any other code, or a location that cannot be a header value, is a
    /// `500` error.
    pub fn with_status(location: &str, status: u16) -> (r: Result<Redirect, Error>)
        ensures
            redirect_outcome(status, location, r),
    {
        if !is_redirection(status) {
            return Err(canonical_error(INTERNAL_SERVER_ERROR));
        }
        match header_value_check(location) {
            Ok(()) => Ok(Redirect { status, location: owned(location) }),
            Err(message) => Err(Error::other(SourceChain::single(message.as_str()))),
        }
    }
}

/// The error of a request that no middleware answered: `404` with the
/// message `not found.`.
pub fn not_found() -> (r: Error)
    ensures
        r.spec_status() == NOT_FOUND,
        r.spec_source() matches ErrorSource::Message(m) && m@ == canonical_message(NOT_FOUND),
{
    canonical_error(NOT_FOUND)
}

} // verus!
