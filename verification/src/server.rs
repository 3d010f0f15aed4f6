use crate::handler::Handler;
use crate::message::Request;
use crate::message::Response;
use crate::method::Method;
use crate::route::has_uri;
use crate::route::register_model;
use crate::route::routes_wf;
use crate::route::RouteTable;
use vstd::prelude::*;

verus! {

/// The server as it is configured before starting: a listen address, the
/// idle-read timeout in seconds, and the route table. Starting it — binding
/// the socket, accepting connections and feeding the worker pool — is the
/// transport edge's job; after start the table is shared read-only by every
/// connection task, so no reader ever needs a lock on it.
pub struct Server<H> {
    pub address: String,
    pub timeout: u64,
    pub routes: RouteTable<H>,
}

impl<H: Fn(&Request) -> Response> Server<H> {
    /// A server for `address` with the given idle-read timeout in seconds
    /// and no routes yet.
    pub fn new(address: &str, timeout: u64) -> (s: Server<H>)
        ensures
            s.address@ == address@,
            s.timeout == timeout,
            s.routes@.len() == 0,
            routes_wf(s.routes@),
    {
        Server { address: address.to_owned(), timeout, routes: RouteTable::new() }
    }

    /// Begin registering handlers under `uri`: find-or-create its entry and
    /// hand back a builder bound to that URI.
    pub fn at(&mut self, uri: &str) -> (r: Route)
        ensures
            r.uri@ == uri@,
            has_uri(final(self).routes@, uri@),
            has_uri(old(self).routes@, uri@) ==> final(self).routes@ == old(self).routes@,
            !has_uri(old(self).routes@, uri@) ==> final(self).routes@ == old(self).routes@.push(
                (uri@, Seq::empty()),
            ),
            routes_wf(old(self).routes@) ==> routes_wf(final(self).routes@),
            final(self).address == old(self).address,
            final(self).timeout == old(self).timeout,
    {
        Route::new(self, uri)
    }
}

/// A registration builder bound to one URI. Each method-named call
/// registers a handler for that method under the URI and hands the builder
/// back for chaining.
pub struct Route {
    pub uri: String,
}

impl Route {
    /// Find-or-create the entry for `uri` in the server's table and bind a
    /// builder to it.
    pub fn new<H: Fn(&Request) -> Response>(server: &mut Server<H>, uri: &str) -> (r: Route)
        ensures
            r.uri@ == uri@,
            has_uri(final(server).routes@, uri@),
            has_uri(old(server).routes@, uri@) ==> final(server).routes@ == old(server).routes@,
            !has_uri(old(server).routes@, uri@) ==> final(server).routes@ == old(
                server,
            ).routes@.push((uri@, Seq::empty())),
            routes_wf(old(server).routes@) ==> routes_wf(final(server).routes@),
            final(server).address == old(server).address,
            final(server).timeout == old(server).timeout,
    {
        server.routes.ensure_entry(uri);
        Route { uri: uri.to_owned() }
    }

    /// Register `handler` to answer GET requests on this builder's URI,
    /// and hand the builder back for chaining.
    pub fn get<H: Fn(&Request) -> Response>(&self, server: &mut Server<H>, handler: H) -> (r:
        &Route)
        requires
            has_uri(old(server).routes@, self.uri@),
        ensures
            final(server).routes@ == register_model(
                old(server).routes@,
                self.uri@,
                Method::Get,
                handler,
            ),
            routes_wf(old(server).routes@) ==> routes_wf(final(server).routes@),
            final(server).address == old(server).address,
            final(server).timeout == old(server).timeout,
            r == self,
    {
        Handler::register(server, self.uri.as_str(), Method::Get, handler);
        self
    }

    /// Register `handler` to answer HEAD requests on this builder's URI,
    /// and hand the builder back for chaining.
    pub fn head<H: Fn(&Request) -> Response>(&self, server: &mut Server<H>, handler: H) -> (r:
        &Route)
        requires
            has_uri(old(server).routes@, self.uri@),
        ensures
            final(server).routes@ == register_model(
                old(server).routes@,
                self.uri@,
                Method::Head,
                handler,
            ),
            routes_wf(old(server).routes@) ==> routes_wf(final(server).routes@),
            final(server).address == old(server).address,
            final(server).timeout == old(server).timeout,
            r == self,
    {
        Handler::register(server, self.uri.as_str(), Method::Head, handler);
        self
    }

    /// Register `handler` to answer POST requests on this builder's URI,
    /// and hand the builder back for chaining.
    pub fn post<H: Fn(&Request) -> Response>(&self, server: &mut Server<H>, handler: H) -> (r:
        &Route)
        requires
            has_uri(old(server).routes@, self.uri@),
        ensures
            final(server).routes@ == register_model(
                old(server).routes@,
                self.uri@,
                Method::Post,
                handler,
            ),
            routes_wf(old(server).routes@) ==> routes_wf(final(server).routes@),
            final(server).address == old(server).address,
            final(server).timeout == old(server).timeout,
            r == self,
    {
        Handler::register(server, self.uri.as_str(), Method::Post, handler);
        self
    }

    /// Register `handler` to answer PUT requests on this builder's URI,
    /// and hand the builder back for chaining.
    pub fn put<H: Fn(&Request) -> Response>(&self, server: &mut Server<H>, handler: H) -> (r:
        &Route)
        requires
            has_uri(old(server).routes@, self.uri@),
        ensures
            final(server).routes@ == register_model(
                old(server).routes@,
                self.uri@,
                Method::Put,
                handler,
            ),
            routes_wf(old(server).routes@) ==> routes_wf(final(server).routes@),
            final(server).address == old(server).address,
            final(server).timeout == old(server).timeout,
            r == self,
    {
        Handler::register(server, self.uri.as_str(), Method::Put, handler);
        self
    }

    /// Register `handler` to answer DELETE requests on this builder's URI,
    /// and hand the builder back for chaining.
    pub fn delete<H: Fn(&Request) -> Response>(&self, server: &mut Server<H>, handler: H) -> (r:
        &Route)
        requires
            has_uri(old(server).routes@, self.uri@),
        ensures
            final(server).routes@ == register_model(
                old(server).routes@,
                self.uri@,
                Method::Delete,
                handler,
            ),
            routes_wf(old(server).routes@) ==> routes_wf(final(server).routes@),
            final(server).address == old(server).address,
            final(server).timeout == old(server).timeout,
            r == self,
    {
        Handler::register(server, self.uri.as_str(), Method::Delete, handler);
        self
    }

    /// Register `handler` to answer TRACE requests on this builder's URI,
    /// and hand the builder back for chaining.
    pub fn trace<H: Fn(&Request) -> Response>(&self, server: &mut Server<H>, handler: H) -> (r:
        &Route)
        requires
            has_uri(old(server).routes@, self.uri@),
        ensures
            final(server).routes@ == register_model(
                old(server).routes@,
                self.uri@,
                Method::Trace,
                handler,
            ),
            routes_wf(old(server).routes@) ==> routes_wf(final(server).routes@),
            final(server).address == old(server).address,
            final(server).timeout == old(server).timeout,
            r == self,
    {
        Handler::register(server, self.uri.as_str(), Method::Trace, handler);
        self
    }

    /// Register `handler` to answer OPTIONS requests on this builder's URI,
    /// and hand the builder back for chaining.
    pub fn options<H: Fn(&Request) -> Response>(&self, server: &mut Server<H>, handler: H) -> (r:
        &Route)
        requires
            has_uri(old(server).routes@, self.uri@),
        ensures
            final(server).routes@ == register_model(
                old(server).routes@,
                self.uri@,
                Method::Options,
                handler,
            ),
            routes_wf(old(server).routes@) ==> routes_wf(final(server).routes@),
            final(server).address == old(server).address,
            final(server).timeout == old(server).timeout,
            r == self,
    {
        Handler::register(server, self.uri.as_str(), Method::Options, handler);
        self
    }

    /// Register `handler` to answer CONNECT requests on this builder's URI,
    /// and hand the builder back for chaining.
    pub fn connect<H: Fn(&Request) -> Response>(&self, server: &mut Server<H>, handler: H) -> (r:
        &Route)
        requires
            has_uri(old(server).routes@, self.uri@),
        ensures
            final(server).routes@ == register_model(
                old(server).routes@,
                self.uri@,
                Method::Connect,
                handler,
            ),
            routes_wf(old(server).routes@) ==> routes_wf(final(server).routes@),
            final(server).address == old(server).address,
            final(server).timeout == old(server).timeout,
            r == self,
    {
        Handler::register(server, self.uri.as_str(), Method::Connect, handler);
        self
    }

    /// Register `handler` to answer PATCH requests on this builder's URI,
    /// and hand the builder back for chaining.
    pub fn patch<H: Fn(&Request) -> Response>(&self, server: &mut Server<H>, handler: H) -> (r:
        &Route)
        requires
            has_uri(old(server).routes@, self.uri@),
        ensures
            final(server).routes@ == register_model(
                old(server).routes@,
                self.uri@,
                Method::Patch,
                handler,
            ),
            routes_wf(old(server).routes@) ==> routes_wf(final(server).routes@),
            final(server).address == old(server).address,
            final(server).timeout == old(server).timeout,
            r == self,
    {
        Handler::register(server, self.uri.as_str(), Method::Patch, handler);
        self
    }
}

} // verus!
