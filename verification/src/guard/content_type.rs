//! Guards on the `Content-Type` header.
use vstd::prelude::*;
use crate::guard::{Header, header, ApplicationJson, application_json, is_json_media};
use crate::text::ascii_lowercase;

verus! {

/// Succeeds when the `Content-Type` header matches `predicate`.
pub fn content_type<T>(predicate: T) -> (r: Header<T>)
    ensures
        r.spec_key()@ == "content-type"@,
        !r.spec_optional(),
        r.spec_value() == predicate,
{
    proof {
        reveal_strlit("content-type");
        assert(ascii_lowercase("content-type"@) =~= "content-type"@);
    }
    header("content-type", predicate)
}

/// Succeeds when the request body is JSON.
pub fn json() -> (r: Header<ApplicationJson>)
    ensures
        r.spec_key()@ == "content-type"@,
        !r.spec_optional(),
        is_json_media(r.spec_value()),
{
    content_type(application_json())
}

} // verus!
