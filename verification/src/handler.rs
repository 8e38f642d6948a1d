//! The per-invocation context, the example route handler, and the
//! deferred-task runner.
//!
//! Routing is an ordered match on (method, path): the first matching case
//! wins and anything unmatched falls through to a 404. Tasks registered
//! with [`Context::defer`] run only after the response is finalized, in
//! registration order; a failing task is recorded at Error severity and
//! never stops the tasks after it (and cannot touch the response, which
//! the runner is not even given).

use crate::http::{
    default_response, header_value_ok, BodyView, Method, Request, RequestView, Response,
    ResponseView, url_of,
};
use crate::json::{encode_field_spec, encode_fields_spec, encode_spec, escape, Json};
use crate::logging::{LogEntryView, LogQueue, Severity};
use crate::text::dec_str;
use crate::text::u64_to_string;
use vstd::prelude::*;
use vstd::string::StrSliceExecFns;
use vstd::string::StringExecFns;

verus! {

/// The error value a handler may propagate instead of answering in-band;
/// the entry point turns it into a generic 500 response.
#[derive(Debug)]
pub struct HandlerReturn {
    pub status: u16,
    pub message: String,
}

/// Mathematical view of a deferred task.
#[verifier::ext_equal]
pub enum TaskView {
    One(u64),
    Two(u64),
    Failing(Seq<char>),
}

/// A deferred task: a closed set of work items carrying their own data.
/// `Failing` models a task whose run reports an error.
#[derive(Debug)]
pub enum Task {
    One(u64),
    Two(u64),
    Failing(String),
}

impl View for Task {
    type V = TaskView;

    open spec fn view(&self) -> TaskView {
        match self {
            Task::One(n) => TaskView::One(*n),
            Task::Two(n) => TaskView::Two(*n),
            Task::Failing(m) => TaskView::Failing(m@),
        }
    }
}

/// The error a failing task reports to the runner.
#[derive(Debug)]
pub struct TaskError {
    pub message: String,
}

/// The message a successful `One` task logs.
pub open spec fn one_text(n: int) -> Seq<char> {
    "One: "@ + dec_str(n)
}

/// The message a successful `Two` task logs.
pub open spec fn two_text(n: int) -> Seq<char> {
    "Two: "@ + dec_str(n)
}

/// The entry the runner records when a task fails.
pub open spec fn failure_entry(m: Seq<char>) -> LogEntryView {
    LogEntryView { severity: Severity::Error, kind: "task"@, text: "deferred task failed: "@ + m }
}

/// The log entries one task contributes: its own entry when it succeeds,
/// the runner's failure entry when it fails.
pub open spec fn task_entries(t: TaskView) -> Seq<LogEntryView> {
    match t {
        TaskView::One(n) => seq![
            LogEntryView { severity: Severity::Info, kind: "task"@, text: one_text(n as int) },
        ],
        TaskView::Two(n) => seq![
            LogEntryView { severity: Severity::Info, kind: "task"@, text: two_text(n as int) },
        ],
        TaskView::Failing(m) => seq![failure_entry(m)],
    }
}

/// The log entries a whole task list contributes, in registration order.
pub open spec fn deferred_log(ts: Seq<TaskView>) -> Seq<LogEntryView>
    decreases ts.len(),
{
    if ts.len() == 0 {
        Seq::empty()
    } else {
        deferred_log(ts.drop_last()) + task_entries(ts.last())
    }
}

/// The view of a task list.
pub open spec fn tasks_view(ts: Seq<Task>) -> Seq<TaskView> {
    ts.map_values(|t: Task| t@)
}

impl Task {
    /// Runs one deferred task against the shared log queue. A successful
    /// task appends exactly its own entry; a failing task appends nothing
    /// and reports its message. Tasks never see the response.
    pub fn run(&self, q: &mut LogQueue) -> (r: Result<(), TaskError>)
        ensures
            match self@ {
                TaskView::One(n) => r is Ok && final(q)@ == old(q)@ + task_entries(self@),
                TaskView::Two(n) => r is Ok && final(q)@ == old(q)@ + task_entries(self@),
                TaskView::Failing(m) => r is Err && r->Err_0.message@ == m && final(q)@ == old(
                    q,
                )@,
            },
    {
        match self {
            Task::One(n) => {
                let mut t = String::from_str("One: ");
                let d = u64_to_string(*n);
                t.append(d.as_str());
                q.log(Severity::Info, "task", t.as_str());
                proof {
                    assert(final(q)@ =~= old(q)@ + task_entries(self@));
                }
                Ok(())
            },
            Task::Two(n) => {
                let mut t = String::from_str("Two: ");
                let d = u64_to_string(*n);
                t.append(d.as_str());
                q.log(Severity::Info, "task", t.as_str());
                proof {
                    assert(final(q)@ =~= old(q)@ + task_entries(self@));
                }
                Ok(())
            },
            Task::Failing(m) => Err(TaskError { message: m.clone() }),
        }
    }
}

/// Runs every deferred task in registration order, after the response is
/// already finalized. A failure is recorded at Error severity and the
/// runner moves on: a failing task never prevents a later one, and no
/// task can alter the response (the runner only holds the log queue).
#[verifier::loop_isolation(false)]
pub fn run_deferred(tasks: &Vec<Task>, q: &mut LogQueue)
    ensures
        final(q)@ == old(q)@ + deferred_log(tasks_view(tasks@)),
{
    let n = tasks.len();
    let mut i: usize = 0;
    while i < n
        invariant
            n == tasks@.len(),
            i <= n,
            q@ == old(q)@ + deferred_log(tasks_view(tasks@.subrange(0, i as int))),
        decreases n - i,
    {
        proof {
            assert(tasks_view(tasks@.subrange(0, (i + 1) as int)).drop_last() =~= tasks_view(
                tasks@.subrange(0, i as int),
            ));
            assert(tasks_view(tasks@.subrange(0, (i + 1) as int)).last() == tasks@[i as int]@);
        }
        match tasks[i].run(q) {
            Ok(()) => {},
            Err(e) => {
                let mut t = String::from_str("deferred task failed: ");
                t.append(e.message.as_str());
                q.log(Severity::Error, "task", t.as_str());
            },
        }
        proof {
            assert(q@ =~= old(q)@ + deferred_log(tasks_view(tasks@.subrange(0, (i + 1) as int))));
        }
        i = i + 1;
    }
    proof {
        assert(tasks@.subrange(0, n as int) =~= tasks@);
    }
}

/// The per-invocation state handed to handler logic: the response being
/// built, the shared log queue, and the deferred-task list. The queue
/// outlives the synchronous phase: after the response is finalized it is
/// handed, with the task list, to the deferred runner.
#[derive(Debug)]
pub struct Context {
    pub response: Response,
    pub logs: LogQueue,
    pub deferred: Vec<Task>,
}

impl Context {
    /// A fresh context: default response, empty queue, no tasks.
    pub fn new() -> (c: Context)
        ensures
            c.response@ == default_response(),
            c.logs@ == Seq::<LogEntryView>::empty(),
            tasks_view(c.deferred@) == Seq::<TaskView>::empty(),
    {
        let c = Context { response: Response::new(), logs: LogQueue::new(), deferred: Vec::new() };
        proof {
            assert(tasks_view(c.deferred@) =~= Seq::<TaskView>::empty());
        }
        c
    }

    /// Appends one log entry through the context.
    pub fn log(&mut self, severity: Severity, kind: &str, text: &str)
        ensures
            final(self).logs@ == old(self).logs@.push(
                LogEntryView { severity, kind: kind@, text: text@ },
            ),
            final(self).response == old(self).response,
            final(self).deferred == old(self).deferred,
    {
        self.logs.log(severity, kind, text);
    }

    /// Registers a deferred task; tasks run after the response is
    /// finalized, in registration order.
    pub fn defer(&mut self, t: Task)
        ensures
            tasks_view(final(self).deferred@) == tasks_view(old(self).deferred@).push(t@),
            final(self).response == old(self).response,
            final(self).logs == old(self).logs,
    {
        let ghost tv = t@;
        self.deferred.push(t);
        proof {
            assert(tasks_view(final(self).deferred@) =~= tasks_view(old(self).deferred@).push(tv));
        }
    }

    /// Converts a caught failure into an in-band error response: status
    /// 500 with a diagnostic text body, and an Error entry in the queue.
    pub fn raise_internal_error(&mut self, msg: &str)
        ensures
            final(self).response@ == (ResponseView {
                status: 500,
                body: BodyView::Text("internal error: "@ + msg@),
                ..old(self).response@
            }),
            final(self).logs@ == old(self).logs@.push(
                LogEntryView { severity: Severity::Error, kind: "error"@, text: msg@ },
            ),
            final(self).deferred == old(self).deferred,
    {
        let mut t = String::from_str("internal error: ");
        t.append(msg);
        self.response.status(500);
        self.response.text(t.as_str());
        self.logs.log(Severity::Error, "error", msg);
    }
}

/// The example JSON payload: a pair of a number and a name.
#[derive(Debug)]
pub struct Thing {
    pub x: u32,
    pub name: String,
}

/// The compact JSON encoding of a `Thing`.
pub open spec fn thing_encoding(x: int, name: Seq<char>) -> Seq<char> {
    seq!['{', '"'] + escape("x"@) + seq!['"', ':'] + dec_str(x) + seq![',', '"'] + escape("name"@)
        + seq!['"', ':', '"'] + escape(name) + seq!['"', '}']
}

impl Thing {
    /// The JSON value of this `Thing`: an object with its two fields.
    pub fn to_json(&self) -> (j: Json)
        ensures
            encode_spec(j) == thing_encoding(self.x as int, self.name@),
    {
        let mut fields: Vec<(String, Json)> = Vec::new();
        fields.push((String::from_str("x"), Json::Num(self.x as u64)));
        fields.push((String::from_str("name"), Json::Str(self.name.clone())));
        let j = Json::Obj(fields);
        proof {
            let fs = j->Obj_0@;
            assert(fs.drop_last() =~= seq![fs[0]]);
            assert(encode_fields_spec(fs.drop_last()) == encode_field_spec(fs[0]));
            assert(encode_fields_spec(fs) == encode_field_spec(fs[0]) + seq![',']
                + encode_field_spec(fs[1]));
            assert(encode_spec(j) =~= thing_encoding(self.x as int, self.name@));
        }
        j
    }
}

/// The content type established before routing, unless a route overrides it.
pub open spec fn default_content_type() -> Seq<char> {
    "text/plain; charset=utf-8"@
}

/// The content type of the JSON route.
pub open spec fn json_content_type() -> Seq<char> {
    "application/json"@
}

/// The default content type is a well-formed header value.
pub proof fn lemma_default_ct_ok()
    ensures
        header_value_ok(default_content_type()),
{
    reveal_strlit("text/plain; charset=utf-8");
    reveal_with_fuel(header_value_ok, 27);
    assert(header_value_ok("text/plain; charset=utf-8"@));
}

/// The JSON content type is a well-formed header value.
pub proof fn lemma_json_ct_ok()
    ensures
        header_value_ok(json_content_type()),
{
    reveal_strlit("application/json");
    reveal_with_fuel(header_value_ok, 18);
    assert(header_value_ok("application/json"@));
}

/// The registered route paths are pairwise distinct strings.
pub proof fn lemma_route_paths_distinct()
    ensures
        "/"@ != "/hello"@,
        "/"@ != "/defer"@,
        "/"@ != "/json"@,
        "/hello"@ != "/defer"@,
        "/hello"@ != "/json"@,
        "/defer"@ != "/json"@,
{
    reveal_strlit("/");
    reveal_strlit("/hello");
    reveal_strlit("/defer");
    reveal_strlit("/json");
    assert("/"@.len() == 1);
    assert("/hello"@.len() == 6);
    assert("/defer"@.len() == 6);
    assert("/json"@.len() == 5);
    assert("/hello"@[1] != "/defer"@[1]);
}

/// The name of a method as it appears in the request log line.
pub open spec fn method_name_spec(m: Method) -> Seq<char> {
    match m {
        Method::Get => "GET"@,
        Method::Post => "POST"@,
        Method::Put => "PUT"@,
        Method::Delete => "DELETE"@,
        Method::Head => "HEAD"@,
        Method::Options => "OPTIONS"@,
        Method::Patch => "PATCH"@,
    }
}

/// The method name as an executable string slice.
pub fn method_name(m: Method) -> (r: &'static str)
    ensures
        r@ == method_name_spec(m),
{
    match m {
        Method::Get => "GET",
        Method::Post => "POST",
        Method::Put => "PUT",
        Method::Delete => "DELETE",
        Method::Head => "HEAD",
        Method::Options => "OPTIONS",
        Method::Patch => "PATCH",
    }
}

/// The line logged for every inbound request: method, space, full URL.
pub open spec fn request_line(r: RequestView) -> Seq<char> {
    method_name_spec(r.method) + " "@ + url_of(r)
}

/// Whether a (method, path) pair matches a registered route.
pub open spec fn is_registered_route(m: Method, path: Seq<char>) -> bool {
    m == Method::Get && (path == "/"@ || path == "/hello"@ || path == "/defer"@ || path
        == "/json"@)
}

/// The response the handler produces for a request, starting from the
/// default response: the routing table of the worker.
pub open spec fn route_response(r: RequestView) -> ResponseView {
    let with_ct = ResponseView {
        content_type: Some(default_content_type()),
        ..default_response()
    };
    if r.method == Method::Get && r.path == "/"@ {
        ResponseView { body: BodyView::Text("OK"@), ..with_ct }
    } else if r.method == Method::Get && r.path == "/hello"@ {
        ResponseView { body: BodyView::Text("Hello world!"@), ..with_ct }
    } else if r.method == Method::Get && r.path == "/defer"@ {
        ResponseView { body: BodyView::Text("Hello world!"@), ..with_ct }
    } else if r.method == Method::Get && r.path == "/json"@ {
        ResponseView {
            content_type: Some(json_content_type()),
            body: BodyView::Json(thing_encoding(100, "abc"@)),
            ..with_ct
        }
    } else {
        ResponseView { status: 404, body: BodyView::Text("Not Found"@), ..with_ct }
    }
}

/// The log entries the handler itself appends for a request: the inbound
/// request line, then the entry of the matched route, if it logs one.
pub open spec fn route_log(r: RequestView) -> Seq<LogEntryView> {
    let inbound = LogEntryView {
        severity: Severity::Verbose,
        kind: "handler"@,
        text: request_line(r),
    };
    if r.method == Method::Get && r.path == "/"@ {
        seq![
            inbound,
            LogEntryView { severity: Severity::Info, kind: "root handler"@, text: ""@ },
        ]
    } else if r.method == Method::Get && r.path == "/hello"@ {
        seq![inbound, LogEntryView { severity: Severity::Info, kind: "hello"@, text: ""@ }]
    } else {
        seq![inbound]
    }
}

/// The deferred tasks the handler registers for a request.
pub open spec fn route_tasks(r: RequestView) -> Seq<TaskView> {
    if r.method == Method::Get && r.path == "/defer"@ {
        seq![TaskView::One(111), TaskView::Two(222)]
    } else {
        Seq::empty()
    }
}

/// Every request that matches no registered route gets exactly the
/// fallthrough response: status 404, body "Not Found", the default
/// content type, and no headers.
pub proof fn lemma_unmatched_is_not_found(r: RequestView)
    requires
        !is_registered_route(r.method, r.path),
    ensures
        route_response(r) == (ResponseView {
            status: 404,
            content_type: Some(default_content_type()),
            body: BodyView::Text("Not Found"@),
            ..default_response()
        }),
{
    assert(route_response(r) =~~= (ResponseView {
        status: 404,
        content_type: Some(default_content_type()),
        body: BodyView::Text("Not Found"@),
        ..default_response()
    }));
}

/// Deferred tasks contribute their log entries strictly in registration
/// order: the log of one task list followed by another is the log of the
/// first followed by the log of the second. In particular, for tasks A
/// then B, every entry of A stands before every entry of B. The response
/// is already fixed when the first task runs: the runner never holds it.
pub proof fn lemma_deferred_log_append(ts1: Seq<TaskView>, ts2: Seq<TaskView>)
    ensures
        deferred_log(ts1 + ts2) == deferred_log(ts1) + deferred_log(ts2),
    decreases ts2.len(),
{
    if ts2.len() == 0 {
        assert(ts1 + ts2 =~= ts1);
        assert(deferred_log(ts1 + ts2) =~= deferred_log(ts1) + deferred_log(ts2));
    } else {
        lemma_deferred_log_append(ts1, ts2.drop_last());
        assert((ts1 + ts2).drop_last() =~= ts1 + ts2.drop_last());
        assert((ts1 + ts2).last() == ts2.last());
        assert(deferred_log(ts1 + ts2) =~= deferred_log(ts1) + deferred_log(ts2));
    }
}

/// A failing deferred task is isolated: it contributes exactly the
/// runner's failure entry, and the tasks after it contribute their
/// entries unchanged — a failure never prevents a later task from
/// running, and cannot alter the already-finalized response.
pub proof fn lemma_failing_task_isolated(m: Seq<char>, rest: Seq<TaskView>)
    ensures
        deferred_log(seq![TaskView::Failing(m)] + rest) == seq![failure_entry(m)] + deferred_log(
            rest,
        ),
{
    lemma_deferred_log_append(seq![TaskView::Failing(m)], rest);
    assert(seq![TaskView::Failing(m)].drop_last() =~= Seq::<TaskView>::empty());
    assert(deferred_log(Seq::<TaskView>::empty()) =~= Seq::<LogEntryView>::empty());
    assert(seq![TaskView::Failing(m)].last() == TaskView::Failing(m));
    assert(deferred_log(seq![TaskView::Failing(m)]) =~= seq![failure_entry(m)]);
}

/// Processes one incoming request: logs it, establishes the default
/// content type, and routes on (method, path), first matching case wins;
/// an unmatched request gets status 404 with body "Not Found". The
/// handler answers in-band, so it returns `Ok`; the `Result` is the seam
/// through which a handler could propagate a failure instead.
pub fn handle(req: &Request, ctx: &mut Context) -> (r: Result<(), HandlerReturn>)
    requires
        old(ctx).response@ == default_response(),
    ensures
        r is Ok,
        final(ctx).response@ == route_response(req@),
        final(ctx).logs@ == old(ctx).logs@ + route_log(req@),
        tasks_view(final(ctx).deferred@) == tasks_view(old(ctx).deferred@) + route_tasks(req@),
{
    let url = req.url();
    let mut line = String::from_str(method_name(req.method));
    line.append(" ");
    line.append(url.as_str());
    ctx.log(Severity::Verbose, "handler", line.as_str());
    proof {
        lemma_default_ct_ok();
        lemma_route_paths_distinct();
    }
    // The lemma above shows the literal is a well-formed header value,
    // so this setter provably succeeds and the result needs no handling.
    let _ = ctx.response.content_type("text/plain; charset=utf-8");

    if req.method == Method::Get && crate::text::str_eq(req.path.as_str(), "/") {
        ctx.log(Severity::Info, "root handler", "");
        ctx.response.text("OK");
    } else if req.method == Method::Get && crate::text::str_eq(req.path.as_str(), "/hello") {
        ctx.log(Severity::Info, "hello", "");
        ctx.response.text("Hello world!");
    } else if req.method == Method::Get && crate::text::str_eq(req.path.as_str(), "/defer") {
        ctx.defer(Task::One(111));
        ctx.defer(Task::Two(222));
        ctx.response.text("Hello world!");
    } else if req.method == Method::Get && crate::text::str_eq(req.path.as_str(), "/json") {
        proof {
            lemma_json_ct_ok();
        }
        let _ = ctx.response.content_type("application/json");
        let thing = Thing { x: 100, name: String::from_str("abc") };
        let j = thing.to_json();
        if let Err(_e) = ctx.response.json(&j) {
            // A value outside the JSON model would be reported to the
            // client as an in-band 500; every `Json` value serializes,
            // so this arm is provably unreachable.
            ctx.raise_internal_error("serialization failed");
        }
    } else {
        ctx.response.status(404);
        ctx.response.text("Not Found");
    }
    proof {
        assert(ctx.response@ =~~= route_response(req@));
        assert(ctx.logs@ =~= old(ctx).logs@ + route_log(req@));
        assert(tasks_view(ctx.deferred@) =~= tasks_view(old(ctx).deferred@) + route_tasks(req@));
    }
    Ok(())
}

} // verus!
