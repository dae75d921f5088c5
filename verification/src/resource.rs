//! Resources: a collection route and a member route, each with its
//! middleware.
use vstd::prelude::*;
use crate::allow::{Branch, Deny};

verus! {

/// A middleware and the path it is mounted at.
pub struct WithPath<T> {
    pub path: &'static str,
    pub middleware: T,
}

/// The middleware of a collection path and of a member path.
pub struct Resource<T, U> {
    pub collection: WithPath<T>,
    pub member: WithPath<U>,
}

/// A resource whose member route is still to be given.
pub struct ResourceBuilder<T> {
    pub collection: WithPath<T>,
}

impl<T> ResourceBuilder<T> {
    /// Starts a resource with its collection route.
    pub fn collection(path: &'static str, middleware: T) -> (r: ResourceBuilder<T>)
        ensures
            r.collection.path == path,
            r.collection.middleware == middleware,
    {
        ResourceBuilder { collection: WithPath { path, middleware } }
    }

    /// Completes the resource with its member route.
    pub fn member<U>(self, path: &'static str, middleware: U) -> (r: Resource<T, U>)
        ensures
            r.collection == self.collection,
            r.member.path == path,
            r.member.middleware == middleware,
    {
        Resource { collection: self.collection, member: WithPath { path, middleware } }
    }
}

impl<T, U, X, Y> Resource<Branch<T, X>, Branch<U, Y>> {
    /// Answers a request to either route whose method no branch handles
    /// with `405 Method Not Allowed`, listing the methods that route allows.
    pub fn or_deny(self) -> (r: Resource<Branch<Branch<T, X>, Deny>, Branch<Branch<U, Y>, Deny>>)
        ensures
            r.collection.path == self.collection.path,
            r.member.path == self.member.path,
            r.collection.middleware.spec_middleware() == self.collection.middleware,
            r.member.middleware.spec_middleware() == self.member.middleware,
            r.collection.middleware.spec_or_else().spec_allow()
                == self.collection.middleware.spec_mask_bits(),
            r.member.middleware.spec_or_else().spec_allow() == self.member.middleware.spec_mask_bits(),
            r.collection.middleware.spec_mask_bits() == self.collection.middleware.spec_mask_bits(),
            r.member.middleware.spec_mask_bits() == self.member.middleware.spec_mask_bits(),
    {
        let Resource { collection, member } = self;
        Resource {
            collection: WithPath { path: collection.path, middleware: collection.middleware.or_deny() },
            member: WithPath { path: member.path, middleware: member.middleware.or_deny() },
        }
    }
}

} // verus!
