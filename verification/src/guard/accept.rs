//! Guards on the `Accept` header.
use vstd::prelude::*;
use vstd::string::StringSliceAdditionalSpecFns;
use crate::guard::{
    Header, header, Contains, contains, Or, or, CaseSensitive, case_sensitive, ApplicationJson,
    application_json, is_json_media, Comma,
};
use crate::text::ascii_lowercase;

verus! {

/// A predicate on the items of an `Accept` header: `*/*` or `T`.
pub type Accept<T> = Contains<Or<(CaseSensitive, T)>>;

/// Succeeds when one of the items of the `Accept` header is `*/*` or
/// matches `predicate`.
pub fn accept<T>(predicate: T) -> (r: Header<Accept<T>>)
    ensures
        r.spec_key()@ == "accept"@,
        !r.spec_optional(),
        r.spec_value().spec_has().spec_separator() == Comma,
        r.spec_value().spec_has().spec_predicate().spec_list().0.spec_bytes() == "*/*".spec_bytes(),
        r.spec_value().spec_has().spec_predicate().spec_list().1 == predicate,
{
    proof {
        reveal_strlit("accept");
        assert(ascii_lowercase("accept"@) =~= "accept"@);
    }
    header("accept", contains(or((case_sensitive("*/*".as_bytes()), predicate))))
}

/// Succeeds when the client accepts JSON.
pub fn json() -> (r: Header<Accept<ApplicationJson>>)
    ensures
        r.spec_key()@ == "accept"@,
        !r.spec_optional(),
        r.spec_value().spec_has().spec_separator() == Comma,
        r.spec_value().spec_has().spec_predicate().spec_list().0.spec_bytes() == "*/*".spec_bytes(),
        is_json_media(r.spec_value().spec_has().spec_predicate().spec_list().1),
{
    accept(application_json())
}

} // verus!
