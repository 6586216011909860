//! The service side: dispatching one decoded request to its handler.
//!
//! A service is a closed set of operations. The schema layer above this
//! crate turns a trait of operations into a request enum with one variant
//! per operation and a response enum aligned with it variant for variant;
//! this module states the contract every such dispatcher owes: the response
//! to a request of variant `X` is of variant `X` -- never another
//! operation's shape.

use vstd::prelude::*;

verus! {

/// One service: a closed request/response pair and the dispatch of each
/// request variant to its own handler.
pub trait Service {
    /// One variant per operation, carrying that operation's arguments.
    type Request;

    /// The matching result variants, aligned positionally with the request.
    type Response;

    /// Which responses answer which requests: response variant `X` for
    /// request variant `X`, and nothing else.
    spec fn response_matches(request: Self::Request, response: Self::Response) -> bool;

    /// The stable name of the service, used for routing.
    fn name(&self) -> (r: &'static str);

    /// Invokes the handler bound to the request's variant and wraps its
    /// result in the positionally matching response variant.
    fn call(&self, request: Self::Request) -> (r: Self::Response)
        ensures
            Self::response_matches(request, r),
    ;
}

} // verus!
