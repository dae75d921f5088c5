//! The middleware stack of a request: which middleware runs next, and the
//! error of a request that none answered.
use vstd::prelude::*;
use std::collections::VecDeque;
use crate::error::{Error, ErrorSource, canonical_message};
use crate::response::not_found;
use crate::status::NOT_FOUND;

verus! {

/// The middleware that remain in the logical call stack of a request, in
/// the order they run.
pub struct Next<M> {
    deque: VecDeque<M>,
}

impl<M> Next<M> {
    /// The middleware still to run, first to last.
    pub closed spec fn spec_stack(self) -> Seq<M> {
        self.deque@
    }

    /// A stack of the given middleware.
    pub fn new(deque: VecDeque<M>) -> (r: Self)
        ensures
            r.spec_stack() == deque@,
    {
        Next { deque }
    }

    /// Takes the middleware to call next and the stack that it continues
    /// with; a request that reaches the end of the stack is answered with
    /// `404 Not Found`.
    pub fn pop(self) -> (r: Result<(M, Next<M>), Error>)
        ensures
            r is Ok <==> self.spec_stack().len() > 0,
            r matches Ok((m, rest)) ==> m == self.spec_stack()[0] && rest.spec_stack()
                == self.spec_stack().drop_first(),
            r matches Err(e) ==> e.spec_status() == NOT_FOUND && (e.spec_source() matches ErrorSource::Message(
                msg,
            ) && msg@ == canonical_message(NOT_FOUND)),
    {
        let mut deque = self.deque;
        match deque.pop_front() {
            Some(m) => Ok((m, Next { deque })),
            None => Err(not_found()),
        }
    }
}

} // verus!
