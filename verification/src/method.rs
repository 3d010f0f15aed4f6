use vstd::prelude::*;

verus! {

/// An HTTP request method. Routes pair one of these with a handler;
/// dispatch compares the request's method against the registered one.
#[derive(Clone, Copy, PartialEq, Eq, Structural, Debug)]
pub enum Method {
    Get,
    Head,
    Post,
    Put,
    Delete,
    Trace,
    Options,
    Connect,
    Patch,
}

} // verus!
