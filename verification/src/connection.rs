use crate::message::Request;
use crate::message::Response;
use crate::message::ResponseView;
use crate::message::METHOD_NOT_ALLOWED;
use crate::message::NOT_FOUND;
use crate::route::dispatch_model;
use crate::route::entry_index;
use crate::route::first_match;
use crate::route::lemma_entry_index_props;
use crate::route::lemma_first_match_props;
use crate::route::Dispatch;
use crate::route::DispatchModel;
use crate::route::RouteTable;
use crate::route::RoutesView;
use vstd::prelude::*;

verus! {

/// All handlers in the table accept `req` as input. Trivially true of the
/// usual plain-function handlers, which ask nothing of their argument.
pub open spec fn all_handlers_callable<H: Fn(&Request) -> Response>(
    rs: RoutesView<H>,
    req: &Request,
) -> bool {
    forall|i: int, j: int|
        0 <= i < rs.len() && 0 <= j < rs[i].1.len() ==> #[trigger] call_requires(
            rs[i].1[j].handler,
            (req,),
        )
}

/// The response the routing core owes for `req`: a 404 with an empty body
/// when no entry has the request's URI, a 405 with an empty body when the
/// entry has no handler of the request's method, and otherwise an answer
/// the first matching handler can return.
pub open spec fn response_model<H: Fn(&Request) -> Response>(
    rs: RoutesView<H>,
    req: &Request,
    resp: Response,
) -> bool {
    match dispatch_model(rs, req.uri@, req.method) {
        DispatchModel::Found(h) => call_ensures(h.handler, (req,), resp),
        DispatchModel::MethodNotAllowed => resp@ == (ResponseView {
            status: METHOD_NOT_ALLOWED,
            body: Seq::<u8>::empty(),
        }),
        DispatchModel::NotFound => resp@ == (ResponseView {
            status: NOT_FOUND,
            body: Seq::<u8>::empty(),
        }),
    }
}

/// Route one parsed request and produce the response to write back: the
/// matched handler's answer, or the 404/405 the table's lookup calls for.
pub fn handle_request<H: Fn(&Request) -> Response>(table: &RouteTable<H>, req: &Request) -> (resp:
    Response)
    requires
        all_handlers_callable(table@, req),
    ensures
        response_model(table@, req, resp),
{
    match table.dispatch(&req.uri, req.method) {
        Dispatch::Found(h) => {
            proof {
                let rs = table@;
                let ei = entry_index(rs, req.uri@);
                lemma_entry_index_props(rs, req.uri@);
                let f = first_match(rs[ei].1, req.method);
                lemma_first_match_props(rs[ei].1, req.method);
                assert(call_requires(rs[ei].1[f].handler, (req,)));
                assert(h.handler == rs[ei].1[f].handler);
            }
            h.run(req)
        },
        Dispatch::MethodNotAllowed => Response::with_status(METHOD_NOT_ALLOWED),
        Dispatch::NotFound => Response::with_status(NOT_FOUND),
    }
}

/// What one attempt to read the next request from the connection came to,
/// as the transport edge reports it.
pub enum ReadOutcome {
    /// A complete request was parsed.
    Request(Request),
    /// The idle timeout elapsed before a complete request arrived: the
    /// normal, silent end of a persistent connection, never a failure.
    TimedOut,
    /// Any other read or parse error.
    Failed,
}

/// What the connection loop does next.
pub enum Step {
    /// Write this response, then read the next request on the same
    /// connection: the connection stays usable after a response, 404 and
    /// 405 included.
    Respond(Response),
    /// Go back to reading the next request without writing anything.
    ReadNext,
    /// Drop the connection. `log_failure` says whether the cause is an
    /// unexpected failure worth reporting; an idle timeout closes silently,
    /// and nothing is written for the absent request either way.
    Close { log_failure: bool },
}

/// One step of the per-connection loop, after an attempt to read: a parsed
/// request is routed and answered and the connection stays open; a timeout
/// closes the connection silently; any other failure closes it logged.
pub fn connection_step<H: Fn(&Request) -> Response>(
    table: &RouteTable<H>,
    outcome: ReadOutcome,
) -> (s: Step)
    requires
        outcome matches ReadOutcome::Request(req) ==> all_handlers_callable(table@, &req),
    ensures
        outcome matches ReadOutcome::Request(req) ==> (s matches Step::Respond(resp)
            && response_model(table@, &req, resp)),
        outcome is TimedOut ==> s == (Step::Close { log_failure: false }),
        outcome is Failed ==> s == (Step::Close { log_failure: true }),
{
    match outcome {
        ReadOutcome::Request(req) => Step::Respond(handle_request(table, &req)),
        ReadOutcome::TimedOut => Step::Close { log_failure: false },
        ReadOutcome::Failed => Step::Close { log_failure: true },
    }
}

/// The step after writing a response: a full, flushed write loops back to
/// read the next request; a write failure is an unexpected failure, logged,
/// and ends the connection. A write is never retried.
pub fn write_step(write_ok: bool) -> (s: Step)
    ensures
        write_ok ==> s == Step::ReadNext,
        !write_ok ==> s == (Step::Close { log_failure: true }),
{
    if write_ok {
        Step::ReadNext
    } else {
        Step::Close { log_failure: true }
    }
}

} // verus!
