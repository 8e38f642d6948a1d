//! Request-handling core of an edge-deployed HTTP worker: a single-invocation
//! dispatcher that routes requests to handler logic, builds a typed response,
//! defers secondary work to run after the response is finalized, and threads
//! structured log entries through both the synchronous path and the deferred
//! phase, flushing them once per invocation to a selected logger backend.

pub mod handler;
pub mod http;
pub mod json;
pub mod logging;
pub mod text;

use crate::handler::{
    deferred_log, handle, route_log, route_response, route_tasks, run_deferred, tasks_view,
    Context,
};
use crate::http::{Request, RequestView, Response, ResponseView};
use crate::logging::{
    flush, payload_encoding, recognized_backend, select_logger, ConfigError, LogEntryView,
    LogQueue, Logger, LoggerView, LoggingConfig, LoggingConfigView,
};
use vstd::prelude::*;

verus! {

/// Everything one invocation hands back to the platform layer: the
/// finalized response, the selected backend, the closed log queue, and
/// the serialized batch for the backend's flush endpoint.
#[derive(Debug)]
pub struct ServiceOutput {
    pub response: Response,
    pub logger: Logger,
    pub logs: LogQueue,
    pub payload: String,
}

/// All log entries of one invocation: what the handler logged during the
/// synchronous phase, then what the deferred tasks contributed, in
/// registration order.
pub open spec fn invocation_log(r: RequestView) -> Seq<LogEntryView> {
    route_log(r) + deferred_log(route_tasks(r))
}

/// The outcome of one invocation as a function of configuration and
/// request alone: `None` for the fatal configuration error, otherwise the
/// response, the log entries, and the serialized batch payload.
pub open spec fn invocation_outcome(c: LoggingConfigView, r: RequestView) -> Option<
    (ResponseView, Seq<LogEntryView>, Seq<char>),
> {
    if recognized_backend(c.logger) {
        Some(
            (
                route_response(r),
                invocation_log(r),
                payload_encoding(c.coralogix.application_name, invocation_log(r)),
            ),
        )
    } else {
        None
    }
}

/// One complete invocation: select the logger backend, build the context,
/// dispatch the request, finalize the response, run the deferred tasks,
/// and flush the log queue.
///
/// An unrecognized backend name is fatal and pre-dispatch: the error
/// carries the offending string and nothing else — no response is built
/// and no log entry is produced before the abort. On success every part
/// of the output is pinned by `invocation_outcome`, a function of the
/// configuration and the request alone.
pub fn main_entry(config: &LoggingConfig, req: &Request) -> (r: Result<ServiceOutput, ConfigError>)
    ensures
        r is Ok <==> recognized_backend(config@.logger),
        r is Err ==> r->Err_0.unrecognized@ == config@.logger,
        r is Ok ==> invocation_outcome(config@, req@) == Some(
            ((r->Ok_0.response@, r->Ok_0.logs@, r->Ok_0.payload@)),
        ),
        r is Ok ==> r->Ok_0.logger@ == LoggerView::Coralogix(config@.coralogix),
{
    let logger = match select_logger(config) {
        Ok(l) => l,
        Err(e) => {
            return Err(e);
        },
    };
    let mut ctx = Context::new();
    let dispatched = handle(req, &mut ctx);
    let Context { response: mut response, logs: mut queue, deferred } = ctx;
    if dispatched.is_err() {
        // A failure propagated out of the handler becomes a generic 500.
        // The example handler answers in-band and returns Ok, so this
        // path is provably unreachable.
        response.status(500);
        response.text("Internal Server Error");
    }
    run_deferred(&deferred, &mut queue);
    proof {
        assert(tasks_view(deferred@) =~= route_tasks(req@));
        assert(queue@ =~= invocation_log(req@));
    }
    let payload = flush(&logger, &queue);
    Ok(ServiceOutput { response, logger, logs: queue, payload })
}

/// Idempotence: the outcome of an invocation is a function of the
/// configuration and the request alone, so two invocations with the same
/// request and the same configuration produce identical responses, log
/// entries and payloads — byte for byte.
pub proof fn lemma_invocation_deterministic(
    c1: LoggingConfigView,
    r1: RequestView,
    c2: LoggingConfigView,
    r2: RequestView,
)
    requires
        c1 == c2,
        r1 == r2,
    ensures
        invocation_outcome(c1, r1) == invocation_outcome(c2, r2),
{
}

} // verus!
