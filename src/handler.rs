use vstd::prelude::*;

verus! {

/// A unit of business logic that turns a decoded request into a typed
/// response or a failure.
///
/// A handler is consumed by the call: the adapter hands each request a fresh
/// copy, so one value answers exactly one request.
pub trait Handler<Req, Resp>: Sized {
    /// Errors returned by the handler
    type Error;

    /// What the handler needs of a request before it can be called on it.
    spec fn accepts(&self, req: Req) -> bool;

    /// What the handler promises of its result for a request.
    spec fn answers(&self, req: Req, res: Result<Resp, Self::Error>) -> bool;

    /// Handle the incoming request
    fn call(self, req: Req) -> (res: Result<Resp, Self::Error>)
        requires
            self.accepts(req),
        ensures
            self.answers(req, res),
    ;
}

/// Every closure from a request to a result is a handler: its contract is
/// the closure's own precondition and postcondition.
impl<Req, Resp, Error, F> Handler<Req, Resp> for F where F: FnOnce(Req) -> Result<Resp, Error> {
    type Error = Error;

    open spec fn accepts(&self, req: Req) -> bool {
        call_requires(*self, (req,))
    }

    open spec fn answers(&self, req: Req, res: Result<Resp, Error>) -> bool {
        call_ensures(*self, (req,), res)
    }

    fn call(self, req: Req) -> (res: Result<Resp, Error>) {
        (self)(req)
    }
}

} // verus!
