//! Recovering from errors: the sanitizer that lets an application decide
//! how an error is turned into a response, and the response it describes.
use vstd::prelude::*;
use crate::allow::allow_header;
use crate::error::{Error, ErrorSource, Errors, ErrorList, is_repr_json};
use crate::status::{is_valid_status, canonical_reason, canonical_reason_of};
use crate::text::owned;

verus! {

/// The body of the response generated from an error.
pub enum ErrorBody {
    /// The JSON form of the error.
    Json(Errors),
    /// Plain text.
    Text(String),
}

/// The response generated from an error: its status, its `Allow` header, if
/// any, and its body.
pub struct ErrorResponse {
    pub status: u16,
    pub allow: Option<String>,
    pub body: ErrorBody,
}

/// Customizes how an error is converted to a response.
pub struct Sanitizer {
    json: bool,
    error: Error,
    message: Option<String>,
}

/// The `Allow` header of the response to an error: the allowed methods of a
/// refused method, when there are any.
pub open spec fn allow_of(e: Error) -> Option<Seq<char>> {
    match e.spec_source() {
        ErrorSource::AllowMethod(m) => allow_header(m.spec_allow()),
        _ => None,
    }
}

impl Sanitizer {
    pub closed spec fn spec_json(self) -> bool {
        self.json
    }

    pub closed spec fn spec_error(self) -> Error {
        self.error
    }

    pub closed spec fn spec_custom_message(self) -> Option<Seq<char>> {
        match self.message {
            Some(m) => Some(m@),
            None => None,
        }
    }

    /// A sanitizer that renders `error` as it is, as text.
    pub fn new(error: Error) -> (r: Self)
        ensures
            r.spec_error() == error,
            !r.spec_json(),
            r.spec_custom_message() == None::<Seq<char>>,
    {
        Sanitizer { json: false, error, message: None }
    }

    /// The messages of the source of the error and of its causes, outermost
    /// first.
    pub fn source(&self) -> (r: Option<Vec<String>>)
        ensures
            r is Some <==> self.spec_error().spec_chain() is Some,
            r matches Some(list) ==> self.spec_error().spec_chain() == Some(
                crate::error::views(list@),
            ),
    {
        self.error.source()
    }

    /// The message of the error (its `Display` text).
    pub fn message(&self) -> (r: String)
        ensures
            r@ == self.spec_error().spec_message(),
    {
        self.error.message()
    }

    /// Uses `message` as the error message of the response.
    pub fn set_message(&mut self, message: &str)
        ensures
            final(self).spec_custom_message() == Some(message@),
            final(self).spec_error() == old(self).spec_error(),
            final(self).spec_json() == old(self).spec_json(),
    {
        self.message = Some(owned(message));
    }

    /// Overrides the status code of the error.
    pub fn set_status(&mut self, status: u16)
        requires
            is_valid_status(status),
        ensures
            final(self).spec_error().spec_status() == status,
            final(self).spec_error().spec_source() == old(self).spec_error().spec_source(),
            final(self).spec_custom_message() == old(self).spec_custom_message(),
            final(self).spec_json() == old(self).spec_json(),
    {
        self.error.set_status(status);
    }

    /// Uses the canonical reason of the status code as the error message;
    /// a status without one leaves no custom message.
    pub fn use_canonical_reason(&mut self)
        ensures
            final(self).spec_custom_message() == canonical_reason_of(
                old(self).spec_error().spec_status(),
            ),
            final(self).spec_error() == old(self).spec_error(),
            final(self).spec_json() == old(self).spec_json(),
    {
        let status = self.error.status();
        self.message = match canonical_reason(status) {
            Some(reason) => Some(owned(reason)),
            None => None,
        };
    }

    /// Renders the error as JSON.
    pub fn use_json(&mut self)
        ensures
            final(self).spec_json(),
            final(self).spec_error() == old(self).spec_error(),
            final(self).spec_custom_message() == old(self).spec_custom_message(),
    {
        self.json = true;
    }

    /// The status code of the response.
    pub fn status(&self) -> (r: u16)
        ensures
            r == self.spec_error().spec_status(),
    {
        self.error.status()
    }

    /// The error, with the status it has been given.
    pub fn into_error(self) -> (r: Error)
        ensures
            r == self.spec_error(),
    {
        self.error
    }

    /// The response to send: the status of the error, an `Allow` header for
    /// a refused method, and a body that is the JSON form of the error (or
    /// of the custom message) when JSON is requested, otherwise the custom
    /// message or the error's text.
    pub fn finalize(self) -> (r: ErrorResponse)
        ensures
            r.status == self.spec_error().spec_status(),
            r.allow is Some <==> allow_of(self.spec_error()) is Some,
            r.allow matches Some(a) ==> allow_of(self.spec_error()) == Some(a@),
            match r.body {
                ErrorBody::Json(errors) => self.spec_json() && match self.spec_custom_message() {
                    Some(m) => errors.status == self.spec_error().spec_status() && (errors.errors matches ErrorList::Original(o)
                        && o@ == m),
                    None => is_repr_json(self.spec_error(), errors),
                },
                ErrorBody::Text(t) => !self.spec_json() && t@ == match self.spec_custom_message() {
                    Some(m) => m,
                    None => self.spec_error().spec_message(),
                },
            },
    {
        let status = self.error.status();
        let allow = match self.error.allow_method() {
            Some(refused) => refused.allows(),
            None => None,
        };
        let body = if self.json {
            match self.message {
                Some(m) => ErrorBody::Json(Errors { status, errors: ErrorList::Original(m) }),
                None => ErrorBody::Json(self.error.repr_json()),
            }
        } else {
            match self.message {
                Some(m) => ErrorBody::Text(m),
                None => ErrorBody::Text(self.error.message()),
            }
        };
        ErrorResponse { status, allow, body }
    }
}

} // verus!
