//! The framework's error type: a status code and the source of the error,
//! plus its JSON representation and the `ResultExt` helpers.
use vstd::prelude::*;
use crate::allow::{MethodNotAllowed, not_allowed_message};
use crate::status::{
    is_valid_status, canonical_reason_of, invalid_status_message, status_from_u16,
    canonical_reason,
    BAD_GATEWAY,
    BAD_REQUEST,
    CONFLICT,
    EXPECTATION_FAILED,
    FAILED_DEPENDENCY,
    FORBIDDEN,
    GATEWAY_TIMEOUT,
    GONE,
    HTTP_VERSION_NOT_SUPPORTED,
    IM_A_TEAPOT,
    INSUFFICIENT_STORAGE,
    INTERNAL_SERVER_ERROR,
    LENGTH_REQUIRED,
    LOCKED,
    LOOP_DETECTED,
    METHOD_NOT_ALLOWED,
    MISDIRECTED_REQUEST,
    NETWORK_AUTHENTICATION_REQUIRED,
    NOT_ACCEPTABLE,
    NOT_EXTENDED,
    NOT_FOUND,
    NOT_IMPLEMENTED,
    PAYLOAD_TOO_LARGE,
    PAYMENT_REQUIRED,
    PRECONDITION_FAILED,
    PRECONDITION_REQUIRED,
    PROXY_AUTHENTICATION_REQUIRED,
    RANGE_NOT_SATISFIABLE,
    REQUEST_HEADER_FIELDS_TOO_LARGE,
    REQUEST_TIMEOUT,
    SERVICE_UNAVAILABLE,
    TOO_MANY_REQUESTS,
    UNAUTHORIZED,
    UNAVAILABLE_FOR_LEGAL_REASONS,
    UNPROCESSABLE_ENTITY,
    UNSUPPORTED_MEDIA_TYPE,
    UPGRADE_REQUIRED,
    URI_TOO_LONG,
    VARIANT_ALSO_NEGOTIATES,
};
use crate::text::{owned, concat3, ascii_lowercase, to_ascii_lowercase, push_str};

verus! {

/// The messages of an error and of the errors that caused it, outermost
/// first: what the framework reads of an error that it did not create.
#[derive(Debug)]
pub struct SourceChain {
    pub head: String,
    pub causes: Vec<String>,
}

impl SourceChain {
    /// The messages, outermost first.
    pub open spec fn messages(self) -> Seq<Seq<char>> {
        seq![self.head@] + self.causes@.map_values(|s: String| s@)
    }

    /// A chain of one error without a cause.
    pub fn single(message: &str) -> (r: SourceChain)
        ensures
            r.messages() == seq![message@],
    {
        let r = SourceChain { head: owned(message), causes: Vec::new() };
        assert(r.messages() =~= seq![message@]);
        r
    }
}

/// Where an error comes from.
#[derive(Debug)]
pub enum ErrorSource {
    AllowMethod(MethodNotAllowed),
    Message(String),
    Other(SourceChain),
    Json(SourceChain),
}

/// An error that can act as a specialised response: it carries the status
/// code of the response and the source of the error.
#[derive(Debug)]
pub struct Error {
    status: u16,
    source: ErrorSource,
}

/// The value of the `errors` field in the JSON form of an error.
#[derive(Debug)]
pub enum ErrorList {
    Original(String),
    Chain(Vec<String>),
}

/// The JSON form of an error: `{"status": .., "errors": ..}`.
#[derive(Debug)]
pub struct Errors {
    pub status: u16,
    pub errors: ErrorList,
}

/// The kinds of I/O error that the framework tells apart (`std::io::ErrorKind`).
#[derive(Debug)]
pub enum IoErrorKind {
    AlreadyExists,
    BrokenPipe,
    ConnectionReset,
    ConnectionAborted,
    ConnectionRefused,
    InvalidData,
    InvalidInput,
    IsADirectory,
    NotADirectory,
    PermissionDenied,
    NotFound,
    TimedOut,
    Interrupted,
    Other,
}

/// The status code that an I/O error of the given kind maps to.
pub open spec fn io_error_status(kind: IoErrorKind) -> u16 {
    match kind {
        IoErrorKind::AlreadyExists => CONFLICT,
        IoErrorKind::BrokenPipe => BAD_GATEWAY,
        IoErrorKind::ConnectionReset => BAD_GATEWAY,
        IoErrorKind::ConnectionAborted => BAD_GATEWAY,
        IoErrorKind::ConnectionRefused => SERVICE_UNAVAILABLE,
        IoErrorKind::InvalidData => BAD_REQUEST,
        IoErrorKind::InvalidInput => BAD_REQUEST,
        IoErrorKind::IsADirectory => FORBIDDEN,
        IoErrorKind::NotADirectory => FORBIDDEN,
        IoErrorKind::PermissionDenied => FORBIDDEN,
        IoErrorKind::NotFound => NOT_FOUND,
        IoErrorKind::TimedOut => GATEWAY_TIMEOUT,
        _ => INTERNAL_SERVER_ERROR,
    }
}

/// The message that a canonical error of status `code` carries: the reason
/// phrase in lower case followed by a period.
pub open spec fn canonical_message(code: u16) -> Seq<char> {
    ascii_lowercase(
        match canonical_reason_of(code) {
            Some(reason) => reason,
            None => seq![],
        },
    ) + "."@
}

/// The messages of a list of strings.
pub open spec fn views(list: Seq<String>) -> Seq<Seq<char>> {
    list.map_values(|s: String| s@)
}

impl Error {
    #[verifier::type_invariant]
    spec fn inv(self) -> bool {
        is_valid_status(self.status)
    }

    /// The status code of the response generated from this error.
    pub closed spec fn spec_status(self) -> u16 {
        self.status
    }

    /// The source of the error.
    pub closed spec fn spec_source(self) -> ErrorSource {
        self.source
    }

    /// The `Display` text of the error.
    pub open spec fn spec_message(self) -> Seq<char> {
        match self.spec_source() {
            ErrorSource::AllowMethod(e) => not_allowed_message(e.spec_method()),
            ErrorSource::Message(m) => m@,
            ErrorSource::Other(c) => c.head@,
            ErrorSource::Json(c) => c.head@,
        }
    }

    /// The messages of the source of the error and of its causes, outermost
    /// first; `None` for an error built from a message.
    pub open spec fn spec_chain(self) -> Option<Seq<Seq<char>>> {
        match self.spec_source() {
            ErrorSource::AllowMethod(e) => Some(seq![not_allowed_message(e.spec_method())]),
            ErrorSource::Message(_) => None,
            ErrorSource::Other(c) => Some(c.messages()),
            ErrorSource::Json(c) => Some(c.messages()),
        }
    }

    /// Returns a new error with status `500` and the provided message.
    pub fn new(message: &str) -> (r: Self)
        ensures
            r.spec_status() == INTERNAL_SERVER_ERROR,
            r.spec_source() matches ErrorSource::Message(m) && m@ == message@,
    {
        Error { status: INTERNAL_SERVER_ERROR, source: ErrorSource::Message(owned(message)) }
    }

    /// Returns a new error with status `500` and the provided source.
    pub fn other(source: SourceChain) -> (r: Self)
        ensures
            r.spec_status() == INTERNAL_SERVER_ERROR,
            r.spec_source() == ErrorSource::Other(source),
    {
        Error { status: INTERNAL_SERVER_ERROR, source: ErrorSource::Other(source) }
    }

    /// Returns a new error with the provided source and status code.
    pub fn other_with_status(source: SourceChain, status: u16) -> (r: Self)
        requires
            is_valid_status(status),
        ensures
            r.spec_status() == status,
            r.spec_source() == ErrorSource::Other(source),
    {
        Error { status, source: ErrorSource::Other(source) }
    }

    /// Returns a new error from an I/O error of the given kind, with a status
    /// code derived from the kind.
    pub fn from_io_error(kind: IoErrorKind, source: SourceChain) -> (r: Self)
        ensures
            r.spec_status() == io_error_status(kind),
            r.spec_source() == ErrorSource::Other(source),
    {
        let status = match kind {
            IoErrorKind::AlreadyExists => CONFLICT,
            IoErrorKind::BrokenPipe
            | IoErrorKind::ConnectionReset
            | IoErrorKind::ConnectionAborted => BAD_GATEWAY,
            IoErrorKind::ConnectionRefused => SERVICE_UNAVAILABLE,
            IoErrorKind::InvalidData | IoErrorKind::InvalidInput => BAD_REQUEST,
            IoErrorKind::IsADirectory
            | IoErrorKind::NotADirectory
            | IoErrorKind::PermissionDenied => FORBIDDEN,
            IoErrorKind::NotFound => NOT_FOUND,
            IoErrorKind::TimedOut => GATEWAY_TIMEOUT,
            _ => INTERNAL_SERVER_ERROR,
        };
        Self::other_with_status(source, status)
    }

    /// The status code of the response generated from this error.
    pub fn status(&self) -> (r: u16)
        ensures
            r == self.spec_status(),
            is_valid_status(r),
    {
        proof {
            use_type_invariant(self);
        }
        self.status
    }

    /// The source of the error: its message and the messages of its causes,
    /// outermost first. An error built from a message has no source.
    pub fn source(&self) -> (r: Option<Vec<String>>)
        ensures
            r is Some <==> self.spec_chain() is Some,
            r matches Some(list) ==> self.spec_chain() == Some(views(list@)),
    {
        match &self.source {
            ErrorSource::AllowMethod(e) => {
                let mut list = Vec::new();
                list.push(e.message());
                assert(views(list@) =~= seq![not_allowed_message(e.spec_method())]);
                Some(list)
            },
            ErrorSource::Message(_) => None,
            ErrorSource::Other(c) | ErrorSource::Json(c) => {
                let mut list = Vec::new();
                list.push(c.head.clone());
                let mut i: usize = 0;
                while i < c.causes.len()
                    invariant
                        i <= c.causes@.len(),
                        views(list@) =~= seq![c.head@] + views(c.causes@.subrange(0, i as int)),
                    decreases c.causes@.len() - i,
                {
                    let ghost before = list@;
                    let item = c.causes[i].clone();
                    list.push(item);
                    assert(views(list@) =~= views(before).push(item@));
                    assert(c.causes@.subrange(0, i + 1) =~= c.causes@.subrange(0, i as int).push(
                        c.causes@[i as int],
                    ));
                    i = i + 1;
                }
                assert(c.causes@.subrange(0, c.causes@.len() as int) =~= c.causes@);
                Some(list)
            },
        }
    }

    /// The refused method, when the error was built from one.
    pub fn allow_method(&self) -> (r: Option<&MethodNotAllowed>)
        ensures
            match self.spec_source() {
                ErrorSource::AllowMethod(m) => r == Some(&m),
                _ => r is None,
            },
    {
        match &self.source {
            ErrorSource::AllowMethod(m) => Some(m),
            _ => None,
        }
    }

    /// The `Display` text of the error.
    pub fn message(&self) -> (r: String)
        ensures
            r@ == self.spec_message(),
    {
        match &self.source {
            ErrorSource::AllowMethod(e) => e.message(),
            ErrorSource::Message(m) => m.clone(),
            ErrorSource::Other(c) => c.head.clone(),
            ErrorSource::Json(c) => c.head.clone(),
        }
    }

    /// The same error with the status code `code`.
    pub fn with_status(self, code: u16) -> (r: Self)
        requires
            is_valid_status(code),
        ensures
            r.spec_status() == code,
            r.spec_source() == self.spec_source(),
    {
        Error { status: code, source: self.source }
    }

    /// Overrides the status code of the error in place.
    pub fn set_status(&mut self, code: u16)
        requires
            is_valid_status(code),
        ensures
            final(self).spec_status() == code,
            final(self).spec_source() == old(self).spec_source(),
    {
        self.status = code;
    }

    /// `400`: invalid utf-8 in the named part of the request.
    pub fn invalid_utf8_sequence(name: &str) -> (r: Self)
        ensures
            r.spec_status() == BAD_REQUEST,
            r.spec_source() matches ErrorSource::Message(m) && m@
                == "invalid utf-8 sequence of bytes in "@ + name@ + "."@,
    {
        let message = concat3("invalid utf-8 sequence of bytes in ", name, ".");
        Error { status: BAD_REQUEST, source: ErrorSource::Message(message) }
    }

    /// `405`: the request method is not allowed.
    pub fn method_not_allowed(error: MethodNotAllowed) -> (r: Self)
        ensures
            r.spec_status() == METHOD_NOT_ALLOWED,
            r.spec_source() == ErrorSource::AllowMethod(error),
    {
        Error { status: METHOD_NOT_ALLOWED, source: ErrorSource::AllowMethod(error) }
    }

    /// `413`: the request body is longer than the configured limit.
    pub fn payload_too_large() -> (r: Self)
        ensures
            r.spec_status() == PAYLOAD_TOO_LARGE,
            r.spec_source() matches ErrorSource::Message(m) && m@
                == "request body exceeds the maximum length"@,
    {
        let message = owned("request body exceeds the maximum length");
        Error { status: PAYLOAD_TOO_LARGE, source: ErrorSource::Message(message) }
    }

    /// `400`: a required path parameter is missing.
    pub fn require_path_param(name: &str) -> (r: Self)
        ensures
            r.spec_status() == BAD_REQUEST,
            r.spec_source() matches ErrorSource::Message(m) && m@
                == "missing required path parameter: \""@ + name@ + "\"."@,
    {
        let message = concat3("missing required path parameter: \"", name, "\".");
        Error { status: BAD_REQUEST, source: ErrorSource::Message(message) }
    }

    /// `400`: a required query parameter is missing.
    pub fn require_query_param(name: &str) -> (r: Self)
        ensures
            r.spec_status() == BAD_REQUEST,
            r.spec_source() matches ErrorSource::Message(m) && m@
                == "missing required query parameter: \""@ + name@ + "\"."@,
    {
        let message = concat3("missing required query parameter: \"", name, "\".");
        Error { status: BAD_REQUEST, source: ErrorSource::Message(message) }
    }

    /// `500`: a value could not be serialised as JSON.
    pub fn ser_json(source: SourceChain) -> (r: Self)
        ensures
            r.spec_status() == INTERNAL_SERVER_ERROR,
            r.spec_source() == ErrorSource::Json(source),
    {
        Error { status: INTERNAL_SERVER_ERROR, source: ErrorSource::Json(source) }
    }

    /// `400`: the request body could not be deserialised from JSON.
    pub fn de_json(source: SourceChain) -> (r: Self)
        ensures
            r.spec_status() == BAD_REQUEST,
            r.spec_source() == ErrorSource::Json(source),
    {
        Error { status: BAD_REQUEST, source: ErrorSource::Json(source) }
    }

    /// The JSON form of the error: the message of an error built from a
    /// message, or else the chain of source messages, innermost first.
    pub fn repr_json(&self) -> (r: Errors)
        ensures
            is_repr_json(*self, r),
    {
        if let ErrorSource::Message(message) = &self.source {
            return Errors { status: self.status, errors: ErrorList::Original(message.clone()) };
        }
        let chain = match self.source() {
            Some(list) => list,
            None => Vec::new(),
        };
        let mut errors: Vec<String> = Vec::new();
        let mut i: usize = chain.len();
        while i > 0
            invariant
                i <= chain@.len(),
                views(errors@) =~= views(chain@.subrange(i as int, chain@.len() as int)).reverse(),
            decreases i,
        {
            i = i - 1;
            let ghost before = errors@;
            let item = chain[i].clone();
            errors.push(item);
            assert(views(errors@) =~= views(before).push(item@));
            assert(views(chain@.subrange(i as int, chain@.len() as int)) =~= seq![chain@[i as int]@]
                + views(chain@.subrange(i + 1, chain@.len() as int)));
        }
        assert(chain@.subrange(0, chain@.len() as int) =~= chain@);
        proof {
            let v = views(chain@);
            assert(views(errors@).reverse() =~= v) by {
                assert(views(errors@) =~= v.reverse());
            }
        }
        assert(views(errors@) =~= views(chain@).reverse()) by {
            assert(views(errors@).reverse().reverse() =~= views(errors@));
        }
        Errors { status: self.status, errors: ErrorList::Chain(errors) }
    }
}

/// `r` is the JSON form of `e`: its status, and its message when it was
/// built from one, or else the chain of source messages, innermost first.
pub open spec fn is_repr_json(e: Error, r: Errors) -> bool {
    &&& r.status == e.spec_status()
    &&& match e.spec_source() {
        ErrorSource::Message(m) => r.errors matches ErrorList::Original(o) && o@ == m@,
        _ => r.errors matches ErrorList::Chain(list) && Some(views(list@).reverse()) == e.spec_chain(),
    }
}

/// Returns an error with the provided status code and message; a code that
/// is not a valid status turns into a `500` error that says so.
pub fn deny(status: u16, message: &str) -> (r: Error)
    ensures
        is_valid_status(status) ==> r.spec_status() == status && (r.spec_source() matches ErrorSource::Message(m)
            && m@ == message@),
        !is_valid_status(status) ==> r.spec_status() == INTERNAL_SERVER_ERROR && (r.spec_source() matches ErrorSource::Other(c)
            && c.messages() == seq![invalid_status_message()]),
{
    match status_from_u16(status) {
        Ok(code) => Error { status: code, source: ErrorSource::Message(owned(message)) },
        Err(reason) => {
            let chain = SourceChain::single(reason.as_str());
            Error::other(chain)
        },
    }
}

/// The error that `raise!(status)` produces: the canonical reason of the
/// status in lower case, followed by a period.
pub fn canonical_error(status: u16) -> (r: Error)
    requires
        is_valid_status(status),
    ensures
        r.spec_status() == status,
        r.spec_source() matches ErrorSource::Message(m) && m@ == canonical_message(status),
{
    let reason = match canonical_reason(status) {
        Some(reason) => reason,
        None => {
            proof {
                reveal_strlit("");
            }
            ""
        },
    };
    let mut message = to_ascii_lowercase(reason);
    push_str(&mut message, ".");
    deny(status, message.as_str())
}

} // verus!

verus! {

/// `r` is `orig` with the status code of its error replaced by `code`.
pub open spec fn restatused<T>(orig: Result<T, Error>, r: Result<T, Error>, code: u16) -> bool {
    match (orig, r) {
        (Ok(a), Ok(b)) => a == b,
        (Err(a), Err(b)) => b.spec_status() == code && b.spec_source() == a.spec_source(),
        _ => false,
    }
}

/// Conversions of fallible values into `Result<_, Error>`, optionally
/// overriding the status code of the error.
pub trait ResultExt: Sized {
    type Output;

    /// `r` is what `into_result` gives for `self`.
    spec fn into_result_gives(self, r: Result<Self::Output, Error>) -> bool;

    fn into_result(self) -> (r: Result<Self::Output, Error>)
        ensures
            self.into_result_gives(r),
    ;

    /// The result of `into_result` with the status code of its error, if
    /// any, replaced by `code`.
    fn or_status(self, code: u16) -> (r: Result<Self::Output, Error>)
        requires
            is_valid_status(code),
        ensures
            exists|orig: Result<Self::Output, Error>| #[trigger] self.into_result_gives(orig) && restatused(orig, r, code),
    {
        match self.into_result() {
            Ok(value) => Ok(value),
            Err(error) => Err(error.with_status(code)),
        }
    }

    fn or_bad_request(self) -> (r: Result<Self::Output, Error>)
        ensures
            exists|orig: Result<Self::Output, Error>| #[trigger] self.into_result_gives(orig) && restatused(orig, r, BAD_REQUEST),
    {
        self.or_status(BAD_REQUEST)
    }

    fn or_unauthorized(self) -> (r: Result<Self::Output, Error>)
        ensures
            exists|orig: Result<Self::Output, Error>| #[trigger] self.into_result_gives(orig) && restatused(orig, r, UNAUTHORIZED),
    {
        self.or_status(UNAUTHORIZED)
    }

    fn or_payment_required(self) -> (r: Result<Self::Output, Error>)
        ensures
            exists|orig: Result<Self::Output, Error>| #[trigger] self.into_result_gives(orig) && restatused(orig, r, PAYMENT_REQUIRED),
    {
        self.or_status(PAYMENT_REQUIRED)
    }

    fn or_forbidden(self) -> (r: Result<Self::Output, Error>)
        ensures
            exists|orig: Result<Self::Output, Error>| #[trigger] self.into_result_gives(orig) && restatused(orig, r, FORBIDDEN),
    {
        self.or_status(FORBIDDEN)
    }

    fn or_not_found(self) -> (r: Result<Self::Output, Error>)
        ensures
            exists|orig: Result<Self::Output, Error>| #[trigger] self.into_result_gives(orig) && restatused(orig, r, NOT_FOUND),
    {
        self.or_status(NOT_FOUND)
    }

    fn or_method_not_allowed(self) -> (r: Result<Self::Output, Error>)
        ensures
            exists|orig: Result<Self::Output, Error>| #[trigger] self.into_result_gives(orig) && restatused(orig, r, METHOD_NOT_ALLOWED),
    {
        self.or_status(METHOD_NOT_ALLOWED)
    }

    fn or_not_acceptable(self) -> (r: Result<Self::Output, Error>)
        ensures
            exists|orig: Result<Self::Output, Error>| #[trigger] self.into_result_gives(orig) && restatused(orig, r, NOT_ACCEPTABLE),
    {
        self.or_status(NOT_ACCEPTABLE)
    }

    fn or_proxy_authentication_required(self) -> (r: Result<Self::Output, Error>)
        ensures
            exists|orig: Result<Self::Output, Error>| #[trigger] self.into_result_gives(orig) && restatused(orig, r, PROXY_AUTHENTICATION_REQUIRED),
    {
        self.or_status(PROXY_AUTHENTICATION_REQUIRED)
    }

    fn or_request_timeout(self) -> (r: Result<Self::Output, Error>)
        ensures
            exists|orig: Result<Self::Output, Error>| #[trigger] self.into_result_gives(orig) && restatused(orig, r, REQUEST_TIMEOUT),
    {
        self.or_status(REQUEST_TIMEOUT)
    }

    fn or_conflict(self) -> (r: Result<Self::Output, Error>)
        ensures
            exists|orig: Result<Self::Output, Error>| #[trigger] self.into_result_gives(orig) && restatused(orig, r, CONFLICT),
    {
        self.or_status(CONFLICT)
    }

    fn or_gone(self) -> (r: Result<Self::Output, Error>)
        ensures
            exists|orig: Result<Self::Output, Error>| #[trigger] self.into_result_gives(orig) && restatused(orig, r, GONE),
    {
        self.or_status(GONE)
    }

    fn or_length_required(self) -> (r: Result<Self::Output, Error>)
        ensures
            exists|orig: Result<Self::Output, Error>| #[trigger] self.into_result_gives(orig) && restatused(orig, r, LENGTH_REQUIRED),
    {
        self.or_status(LENGTH_REQUIRED)
    }

    fn or_precondition_failed(self) -> (r: Result<Self::Output, Error>)
        ensures
            exists|orig: Result<Self::Output, Error>| #[trigger] self.into_result_gives(orig) && restatused(orig, r, PRECONDITION_FAILED),
    {
        self.or_status(PRECONDITION_FAILED)
    }

    fn or_payload_too_large(self) -> (r: Result<Self::Output, Error>)
        ensures
            exists|orig: Result<Self::Output, Error>| #[trigger] self.into_result_gives(orig) && restatused(orig, r, PAYLOAD_TOO_LARGE),
    {
        self.or_status(PAYLOAD_TOO_LARGE)
    }

    fn or_uri_too_long(self) -> (r: Result<Self::Output, Error>)
        ensures
            exists|orig: Result<Self::Output, Error>| #[trigger] self.into_result_gives(orig) && restatused(orig, r, URI_TOO_LONG),
    {
        self.or_status(URI_TOO_LONG)
    }

    fn or_unsupported_media_type(self) -> (r: Result<Self::Output, Error>)
        ensures
            exists|orig: Result<Self::Output, Error>| #[trigger] self.into_result_gives(orig) && restatused(orig, r, UNSUPPORTED_MEDIA_TYPE),
    {
        self.or_status(UNSUPPORTED_MEDIA_TYPE)
    }

    fn or_range_not_satisfiable(self) -> (r: Result<Self::Output, Error>)
        ensures
            exists|orig: Result<Self::Output, Error>| #[trigger] self.into_result_gives(orig) && restatused(orig, r, RANGE_NOT_SATISFIABLE),
    {
        self.or_status(RANGE_NOT_SATISFIABLE)
    }

    fn or_expectation_failed(self) -> (r: Result<Self::Output, Error>)
        ensures
            exists|orig: Result<Self::Output, Error>| #[trigger] self.into_result_gives(orig) && restatused(orig, r, EXPECTATION_FAILED),
    {
        self.or_status(EXPECTATION_FAILED)
    }

    fn or_im_a_teapot(self) -> (r: Result<Self::Output, Error>)
        ensures
            exists|orig: Result<Self::Output, Error>| #[trigger] self.into_result_gives(orig) && restatused(orig, r, IM_A_TEAPOT),
    {
        self.or_status(IM_A_TEAPOT)
    }

    fn or_misdirected_request(self) -> (r: Result<Self::Output, Error>)
        ensures
            exists|orig: Result<Self::Output, Error>| #[trigger] self.into_result_gives(orig) && restatused(orig, r, MISDIRECTED_REQUEST),
    {
        self.or_status(MISDIRECTED_REQUEST)
    }

    fn or_unprocessable_entity(self) -> (r: Result<Self::Output, Error>)
        ensures
            exists|orig: Result<Self::Output, Error>| #[trigger] self.into_result_gives(orig) && restatused(orig, r, UNPROCESSABLE_ENTITY),
    {
        self.or_status(UNPROCESSABLE_ENTITY)
    }

    fn or_locked(self) -> (r: Result<Self::Output, Error>)
        ensures
            exists|orig: Result<Self::Output, Error>| #[trigger] self.into_result_gives(orig) && restatused(orig, r, LOCKED),
    {
        self.or_status(LOCKED)
    }

    fn or_failed_dependency(self) -> (r: Result<Self::Output, Error>)
        ensures
            exists|orig: Result<Self::Output, Error>| #[trigger] self.into_result_gives(orig) && restatused(orig, r, FAILED_DEPENDENCY),
    {
        self.or_status(FAILED_DEPENDENCY)
    }

    fn or_upgrade_required(self) -> (r: Result<Self::Output, Error>)
        ensures
            exists|orig: Result<Self::Output, Error>| #[trigger] self.into_result_gives(orig) && restatused(orig, r, UPGRADE_REQUIRED),
    {
        self.or_status(UPGRADE_REQUIRED)
    }

    fn or_precondition_required(self) -> (r: Result<Self::Output, Error>)
        ensures
            exists|orig: Result<Self::Output, Error>| #[trigger] self.into_result_gives(orig) && restatused(orig, r, PRECONDITION_REQUIRED),
    {
        self.or_status(PRECONDITION_REQUIRED)
    }

    fn or_too_many_requests(self) -> (r: Result<Self::Output, Error>)
        ensures
            exists|orig: Result<Self::Output, Error>| #[trigger] self.into_result_gives(orig) && restatused(orig, r, TOO_MANY_REQUESTS),
    {
        self.or_status(TOO_MANY_REQUESTS)
    }

    fn or_request_header_fields_too_large(self) -> (r: Result<Self::Output, Error>)
        ensures
            exists|orig: Result<Self::Output, Error>| #[trigger] self.into_result_gives(orig) && restatused(orig, r, REQUEST_HEADER_FIELDS_TOO_LARGE),
    {
        self.or_status(REQUEST_HEADER_FIELDS_TOO_LARGE)
    }

    fn or_unavailable_for_legal_reasons(self) -> (r: Result<Self::Output, Error>)
        ensures
            exists|orig: Result<Self::Output, Error>| #[trigger] self.into_result_gives(orig) && restatused(orig, r, UNAVAILABLE_FOR_LEGAL_REASONS),
    {
        self.or_status(UNAVAILABLE_FOR_LEGAL_REASONS)
    }

    fn or_internal_server_error(self) -> (r: Result<Self::Output, Error>)
        ensures
            exists|orig: Result<Self::Output, Error>| #[trigger] self.into_result_gives(orig) && restatused(orig, r, INTERNAL_SERVER_ERROR),
    {
        self.or_status(INTERNAL_SERVER_ERROR)
    }

    fn or_not_implemented(self) -> (r: Result<Self::Output, Error>)
        ensures
            exists|orig: Result<Self::Output, Error>| #[trigger] self.into_result_gives(orig) && restatused(orig, r, NOT_IMPLEMENTED),
    {
        self.or_status(NOT_IMPLEMENTED)
    }

    fn or_bad_gateway(self) -> (r: Result<Self::Output, Error>)
        ensures
            exists|orig: Result<Self::Output, Error>| #[trigger] self.into_result_gives(orig) && restatused(orig, r, BAD_GATEWAY),
    {
        self.or_status(BAD_GATEWAY)
    }

    fn or_service_unavailable(self) -> (r: Result<Self::Output, Error>)
        ensures
            exists|orig: Result<Self::Output, Error>| #[trigger] self.into_result_gives(orig) && restatused(orig, r, SERVICE_UNAVAILABLE),
    {
        self.or_status(SERVICE_UNAVAILABLE)
    }

    fn or_gateway_timeout(self) -> (r: Result<Self::Output, Error>)
        ensures
            exists|orig: Result<Self::Output, Error>| #[trigger] self.into_result_gives(orig) && restatused(orig, r, GATEWAY_TIMEOUT),
    {
        self.or_status(GATEWAY_TIMEOUT)
    }

    fn or_http_version_not_supported(self) -> (r: Result<Self::Output, Error>)
        ensures
            exists|orig: Result<Self::Output, Error>| #[trigger] self.into_result_gives(orig) && restatused(orig, r, HTTP_VERSION_NOT_SUPPORTED),
    {
        self.or_status(HTTP_VERSION_NOT_SUPPORTED)
    }

    fn or_variant_also_negotiates(self) -> (r: Result<Self::Output, Error>)
        ensures
            exists|orig: Result<Self::Output, Error>| #[trigger] self.into_result_gives(orig) && restatused(orig, r, VARIANT_ALSO_NEGOTIATES),
    {
        self.or_status(VARIANT_ALSO_NEGOTIATES)
    }

    fn or_insufficient_storage(self) -> (r: Result<Self::Output, Error>)
        ensures
            exists|orig: Result<Self::Output, Error>| #[trigger] self.into_result_gives(orig) && restatused(orig, r, INSUFFICIENT_STORAGE),
    {
        self.or_status(INSUFFICIENT_STORAGE)
    }

    fn or_loop_detected(self) -> (r: Result<Self::Output, Error>)
        ensures
            exists|orig: Result<Self::Output, Error>| #[trigger] self.into_result_gives(orig) && restatused(orig, r, LOOP_DETECTED),
    {
        self.or_status(LOOP_DETECTED)
    }

    fn or_not_extended(self) -> (r: Result<Self::Output, Error>)
        ensures
            exists|orig: Result<Self::Output, Error>| #[trigger] self.into_result_gives(orig) && restatused(orig, r, NOT_EXTENDED),
    {
        self.or_status(NOT_EXTENDED)
    }

    fn or_network_authentication_required(self) -> (r: Result<Self::Output, Error>)
        ensures
            exists|orig: Result<Self::Output, Error>| #[trigger] self.into_result_gives(orig) && restatused(orig, r, NETWORK_AUTHENTICATION_REQUIRED),
    {
        self.or_status(NETWORK_AUTHENTICATION_REQUIRED)
    }
}

/// A result whose error the framework error can be built from: its error
/// becomes what `Error::from` builds of it.
impl<T, E> ResultExt for Result<T, E> where Error: From<E> {
    type Output = T;

    open spec fn into_result_gives(self, r: Result<T, Error>) -> bool {
        match self {
            Ok(v) => r == Ok::<T, Error>(v),
            Err(e) => r matches Err(x) && call_ensures(<Error as From<E>>::from, (e,), x),
        }
    }

    fn into_result(self) -> (r: Result<T, Error>) {
        match self {
            Ok(v) => Ok(v),
            Err(e) => Err(Error::from(e)),
        }
    }
}

} // verus!
