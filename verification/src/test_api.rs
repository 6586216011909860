//! A worked example of the dispatch contract: the shapes the schema layer
//! generates for a small service, and a dispatcher proved to answer every
//! request variant with its own response variant.

use vstd::prelude::*;
use vstd::string::StringExecFns;

use crate::service::Service;

verus! {

/// Arguments of the `foo` operation.
#[derive(Clone, Debug, PartialEq, Eq)]
pub struct TestApiFooArgs {}

/// Arguments of the `bar` operation.
#[derive(Clone, Debug, PartialEq, Eq)]
pub struct TestApiBarArgs {
    pub a0: bool,
}

/// Arguments of the `baz` operation.
#[derive(Clone, Debug, PartialEq, Eq)]
pub struct TestApiBazArgs {}

/// Arguments of the `qaz` operation.
#[derive(Clone, Debug, PartialEq, Eq)]
pub struct TestApiQazArgs {
    pub a0: String,
}

/// One variant per operation of the example service.
#[derive(Clone, Debug, PartialEq, Eq)]
pub enum TestApiRequest {
    Foo(TestApiFooArgs),
    Bar(TestApiBarArgs),
    Baz(TestApiBazArgs),
    Qaz(TestApiQazArgs),
}

/// The result variants, aligned with [`TestApiRequest`] variant for
/// variant.
#[derive(Debug, PartialEq, Eq)]
pub enum TestApiResponse {
    Foo(()),
    Bar(()),
    Baz(u32),
    Qaz(Vec<String>),
}

/// The dispatch contract of the example service: each request variant is
/// answered by the response variant of the same operation.
pub open spec fn test_api_matches(request: TestApiRequest, response: TestApiResponse) -> bool {
    match (request, response) {
        (TestApiRequest::Foo(_), TestApiResponse::Foo(_)) => true,
        (TestApiRequest::Bar(_), TestApiResponse::Bar(_)) => true,
        (TestApiRequest::Baz(_), TestApiResponse::Baz(_)) => true,
        (TestApiRequest::Qaz(_), TestApiResponse::Qaz(_)) => true,
        _ => false,
    }
}

/// The example implementation behind the service: one handler per
/// operation.
pub struct TestService;

impl TestService {
    /// The `foo` handler: does nothing.
    pub fn foo(&self) {
    }

    /// The `bar` handler: accepts its flag and does nothing.
    pub fn bar(&self, inp: bool) {
        let _ = inp;
    }

    /// The `baz` handler: always answers 42.
    pub fn baz(&self) -> (r: u32)
        ensures
            r == 42,
    {
        42
    }

    /// The `qaz` handler: answers the fixed two-element list, whatever the
    /// input.
    pub fn qaz(&self, inp: String) -> (r: Vec<String>)
        ensures
            r@.len() == 2,
            r@[0]@ === "a"@,
            r@[1]@ === "b"@,
    {
        let _ = inp;
        let mut v: Vec<String> = Vec::new();
        v.push(String::from_str("a"));
        v.push(String::from_str("b"));
        v
    }

    /// Dispatches one request to the handler of its variant; only that
    /// handler runs, and its result comes back under the same variant.
    pub fn dispatch(&self, request: TestApiRequest) -> (r: TestApiResponse)
        ensures
            test_api_matches(request, r),
            request is Foo ==> r === TestApiResponse::Foo(()),
            request is Bar ==> r === TestApiResponse::Bar(()),
            request is Baz ==> r === TestApiResponse::Baz(42),
            request is Qaz ==> (r matches TestApiResponse::Qaz(v) && v@.len() == 2 && v@[0]@
                === "a"@ && v@[1]@ === "b"@),
    {
        match request {
            TestApiRequest::Foo(_req) => {
                self.foo();
                TestApiResponse::Foo(())
            },
            TestApiRequest::Bar(req) => {
                self.bar(req.a0);
                TestApiResponse::Bar(())
            },
            TestApiRequest::Baz(_req) => TestApiResponse::Baz(self.baz()),
            TestApiRequest::Qaz(req) => TestApiResponse::Qaz(self.qaz(req.a0)),
        }
    }
}

impl Service for TestService {
    type Request = TestApiRequest;

    type Response = TestApiResponse;

    open spec fn response_matches(request: TestApiRequest, response: TestApiResponse) -> bool {
        test_api_matches(request, response)
    }

    fn name(&self) -> (r: &'static str) {
        "TestApi"
    }

    fn call(&self, request: TestApiRequest) -> (r: TestApiResponse) {
        self.dispatch(request)
    }
}

} // verus!
