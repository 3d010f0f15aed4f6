use crate::method::Method;
use vstd::prelude::*;

verus! {

/// Status code sent when a request's URI has no entry in the route table.
pub const NOT_FOUND: u16 = 404;

/// Status code sent when the URI is registered but none of its handlers
/// matches the request's method.
pub const METHOD_NOT_ALLOWED: u16 = 405;

/// Mathematical image of a request: the fields that routing and handlers read.
pub struct RequestView {
    pub method: Method,
    pub uri: Seq<char>,
    pub body: Seq<u8>,
}

/// A parsed HTTP request. URIs are matched by exact, case-sensitive string
/// equality; the body is carried through untouched for the handler.
pub struct Request {
    pub method: Method,
    pub uri: String,
    pub body: Vec<u8>,
}

impl View for Request {
    type V = RequestView;

    open spec fn view(&self) -> RequestView {
        RequestView { method: self.method, uri: self.uri@, body: self.body@ }
    }
}

impl Request {
    pub fn new(method: Method, uri: String, body: Vec<u8>) -> (r: Request)
        ensures
            r@ == (RequestView { method, uri: uri@, body: body@ }),
    {
        Request { method, uri, body }
    }
}

/// Mathematical image of a response.
pub struct ResponseView {
    pub status: u16,
    pub body: Seq<u8>,
}

/// An HTTP response as the core produces it: a status code and a body.
/// Byte-level framing of the wire format is left to the transport edge.
pub struct Response {
    pub status: u16,
    pub body: Vec<u8>,
}

impl View for Response {
    type V = ResponseView;

    open spec fn view(&self) -> ResponseView {
        ResponseView { status: self.status, body: self.body@ }
    }
}

impl Response {
    pub fn new(status: u16, body: Vec<u8>) -> (r: Response)
        ensures
            r@ == (ResponseView { status, body: body@ }),
    {
        Response { status, body }
    }

    /// A bodyless response carrying only a status code, as the routing core
    /// sends for a URI or method it cannot dispatch.
    pub fn with_status(status: u16) -> (r: Response)
        ensures
            r@.status == status,
            r@.body == Seq::<u8>::empty(),
    {
        Response { status, body: Vec::new() }
    }
}

} // verus!
