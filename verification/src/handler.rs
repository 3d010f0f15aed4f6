use crate::message::Request;
use crate::message::Response;
use crate::method::Method;
use crate::route::has_uri;
use crate::route::register_model;
use crate::route::routes_wf;
use crate::server::Server;
use vstd::prelude::*;

verus! {

/// One registered handler: an HTTP method paired with the function that
/// answers requests of that method on the owning URI. Within a URI's list
/// handlers are kept in registration order and dispatch takes the first
/// whose method matches, so a later handler with an already-registered
/// method is unreachable.
pub struct Handler<H> {
    pub method: Method,
    pub handler: H,
}

impl<H: Fn(&Request) -> Response> Handler<H> {
    pub fn new(method: Method, handler: H) -> (h: Handler<H>)
        ensures
            h == (Handler { method, handler }),
    {
        Handler { method, handler }
    }

    /// Append a handler for (`uri`, `method`) to the server's table. The
    /// URI's entry must already exist — a prior `at` on the same URI made
    /// it. Registration only ever appends: nothing is removed or reordered,
    /// and a second handler under an already-taken method stays in the list
    /// but is never dispatched to, since the first match wins.
    pub fn register(server: &mut Server<H>, uri: &str, method: Method, handler: H)
        requires
            has_uri(old(server).routes@, uri@),
        ensures
            final(server).routes@ == register_model(old(server).routes@, uri@, method, handler),
            routes_wf(old(server).routes@) ==> routes_wf(final(server).routes@),
            final(server).address == old(server).address,
            final(server).timeout == old(server).timeout,
    {
        server.routes.register(uri, method, handler);
    }

    /// Invoke the handler function on a parsed request.
    pub fn run(&self, request: &Request) -> (r: Response)
        requires
            call_requires(self.handler, (request,)),
        ensures
            call_ensures(self.handler, (request,), r),
    {
        (self.handler)(request)
    }

    pub fn method(&self) -> (m: &Method)
        ensures
            *m == self.method,
    {
        &self.method
    }
}

} // verus!
