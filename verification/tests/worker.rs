//! End-to-end and unit tests of the worker core, run against the real
//! executable library.

use edge_worker::handler::{handle, run_deferred, Context, Task, Thing};
use edge_worker::http::{HeaderError, Method, Request, Response};
use edge_worker::json::{encode, Json};
use edge_worker::logging::{
    flush, select_logger, CoralogixConfig, LogQueue, Logger, LoggingConfig, Severity,
};
use edge_worker::main_entry;
use edge_worker::text::{str_eq, u64_to_string};

fn config_with(logger: &str) -> LoggingConfig {
    LoggingConfig {
        logger: logger.to_string(),
        coralogix: CoralogixConfig {
            api_key: "k".to_string(),
            application_name: "app".to_string(),
            endpoint: "https://example.invalid/logs".to_string(),
        },
    }
}

fn get(path: &str) -> Request {
    Request::new(Method::Get, path.to_string(), String::new(), Vec::new(), Vec::new())
}

fn invoke(path: &str) -> edge_worker::ServiceOutput {
    main_entry(&config_with("coralogix"), &get(path)).unwrap()
}

#[test]
fn route_root() {
    let out = invoke("/");
    assert_eq!(out.response.get_status(), 200);
    assert_eq!(out.response.body_bytes(), b"OK".to_vec());
    assert_eq!(
        out.response.get_content_type(),
        Some("text/plain; charset=utf-8".to_string())
    );
}

#[test]
fn route_hello() {
    let out = invoke("/hello");
    assert_eq!(out.response.get_status(), 200);
    assert_eq!(out.response.body_bytes(), b"Hello world!".to_vec());
}

#[test]
fn route_defer_response() {
    let out = invoke("/defer");
    assert_eq!(out.response.get_status(), 200);
    assert_eq!(out.response.body_bytes(), b"Hello world!".to_vec());
}

#[test]
fn route_json() {
    let out = invoke("/json");
    assert_eq!(out.response.get_status(), 200);
    assert_eq!(
        out.response.get_content_type(),
        Some("application/json".to_string())
    );
    assert_eq!(out.response.body_bytes(), b"{\"x\":100,\"name\":\"abc\"}".to_vec());
}

#[test]
fn route_unmatched_path_is_not_found() {
    let out = invoke("/nope");
    assert_eq!(out.response.get_status(), 404);
    assert_eq!(out.response.body_bytes(), b"Not Found".to_vec());
    assert_eq!(
        out.response.get_content_type(),
        Some("text/plain; charset=utf-8".to_string())
    );
}

#[test]
fn route_unmatched_method_is_not_found() {
    let req = Request::new(Method::Post, "/".to_string(), String::new(), Vec::new(), Vec::new());
    let out = main_entry(&config_with("coralogix"), &req).unwrap();
    assert_eq!(out.response.get_status(), 404);
    assert_eq!(out.response.body_bytes(), b"Not Found".to_vec());
}

#[test]
fn content_type_last_write_wins() {
    let mut r = Response::new();
    r.content_type("text/plain; charset=utf-8").unwrap();
    r.content_type("application/json").unwrap();
    assert_eq!(r.get_content_type(), Some("application/json".to_string()));
}

#[test]
fn deferred_tasks_run_after_finalized_response_in_order() {
    let out = invoke("/defer");
    // The handler's own entry comes first, then the two task entries in
    // registration order.
    let n = out.logs.len();
    assert_eq!(n, 3);
    assert_eq!(out.logs.get(0).severity, Severity::Verbose);
    assert_eq!(out.logs.get(0).kind, "handler");
    assert_eq!(out.logs.get(0).text, "GET /defer");
    assert_eq!(out.logs.get(1).text, "One: 111");
    assert_eq!(out.logs.get(1).severity, Severity::Info);
    assert_eq!(out.logs.get(2).text, "Two: 222");
    // The response was finalized before the tasks ran: it matches the
    // route exactly and carries nothing from the tasks.
    assert_eq!(out.response.body_bytes(), b"Hello world!".to_vec());
}

#[test]
fn failing_task_does_not_stop_later_tasks() {
    let mut q = LogQueue::new();
    let tasks = vec![Task::Failing("boom".to_string()), Task::One(7)];
    run_deferred(&tasks, &mut q);
    assert_eq!(q.len(), 2);
    assert_eq!(q.get(0).severity, Severity::Error);
    assert_eq!(q.get(0).text, "deferred task failed: boom");
    assert_eq!(q.get(1).severity, Severity::Info);
    assert_eq!(q.get(1).text, "One: 7");
}

#[test]
fn failing_task_does_not_change_response() {
    let mut ctx = Context::new();
    let req = get("/hello");
    handle(&req, &mut ctx).unwrap();
    let before = ctx.response.body_bytes();
    let status_before = ctx.response.get_status();
    let mut q = ctx.logs;
    let tasks = vec![Task::Failing("late".to_string()), Task::Two(9)];
    run_deferred(&tasks, &mut q);
    assert_eq!(ctx.response.body_bytes(), before);
    assert_eq!(ctx.response.get_status(), status_before);
    assert_eq!(q.get(q.len() - 1).text, "Two: 9");
}

#[test]
fn json_round_trip() {
    let inner = Json::Obj(vec![(
        "names".to_string(),
        Json::Arr(vec![
            Json::Str("Alice".to_string()),
            Json::Str("Bob".to_string()),
            Json::Str("Carol".to_string()),
        ]),
    )]);
    let v = Json::Obj(vec![
        ("x".to_string(), Json::Num(1)),
        ("found".to_string(), Json::Bool(true)),
        ("inner".to_string(), inner),
    ]);
    let text = encode(&v);
    let parsed: serde_json::Value = serde_json::from_str(&text).unwrap();
    assert_eq!(parsed["x"], serde_json::Value::from(1u64));
    assert_eq!(parsed["found"], serde_json::Value::Bool(true));
    let names = parsed["inner"]["names"].as_array().unwrap();
    let got: Vec<&str> = names.iter().map(|n| n.as_str().unwrap()).collect();
    assert_eq!(got, vec!["Alice", "Bob", "Carol"]);
    // And the structure survives a second encoding of what was parsed.
    let reparsed: serde_json::Value =
        serde_json::from_str(&serde_json::to_string(&parsed).unwrap()).unwrap();
    assert_eq!(parsed, reparsed);
}

#[test]
fn unknown_backend_aborts_before_anything_happens() {
    let r = main_entry(&config_with("not-a-real-backend"), &get("/hello"));
    let e = r.err().unwrap();
    // The error carries only the offending string: no response was
    // built, no log entry was produced.
    assert_eq!(e.unrecognized, "not-a-real-backend");
}

#[test]
fn identical_invocations_are_byte_identical() {
    let a = invoke("/json");
    let b = invoke("/json");
    assert_eq!(a.response.get_status(), b.response.get_status());
    assert_eq!(a.response.body_bytes(), b.response.body_bytes());
    assert_eq!(a.response.get_content_type(), b.response.get_content_type());
    assert_eq!(a.payload, b.payload);
    assert_eq!(a.logs.len(), b.logs.len());
    for i in 0..a.logs.len() {
        assert_eq!(a.logs.get(i).text, b.logs.get(i).text);
        assert_eq!(a.logs.get(i).kind, b.logs.get(i).kind);
    }
}

#[test]
fn encoder_scalars() {
    assert_eq!(encode(&Json::Null), "null");
    assert_eq!(encode(&Json::Bool(true)), "true");
    assert_eq!(encode(&Json::Bool(false)), "false");
    assert_eq!(encode(&Json::Num(0)), "0");
    assert_eq!(encode(&Json::Num(12345)), "12345");
    assert_eq!(encode(&Json::Str("abc".to_string())), "\"abc\"");
}

#[test]
fn encoder_escapes() {
    assert_eq!(
        encode(&Json::Str("a\"b\\c".to_string())),
        "\"a\\\"b\\\\c\""
    );
    assert_eq!(encode(&Json::Str("\u{1}".to_string())), "\"\\u0001\"");
    assert_eq!(encode(&Json::Str("\n".to_string())), "\"\\u000a\"");
    assert_eq!(encode(&Json::Str("héllo".to_string())), "\"héllo\"");
}

#[test]
fn encoder_containers() {
    assert_eq!(encode(&Json::Arr(vec![])), "[]");
    assert_eq!(encode(&Json::Obj(vec![])), "{}");
    assert_eq!(
        encode(&Json::Arr(vec![Json::Num(1), Json::Num(2), Json::Num(3)])),
        "[1,2,3]"
    );
}

#[test]
fn decimal_rendering() {
    assert_eq!(u64_to_string(0), "0");
    assert_eq!(u64_to_string(10), "10");
    assert_eq!(u64_to_string(18446744073709551615), "18446744073709551615");
}

#[test]
fn string_equality() {
    assert!(str_eq("", ""));
    assert!(str_eq("abc", "abc"));
    assert!(!str_eq("abc", "abd"));
    assert!(!str_eq("abc", "ab"));
}

#[test]
fn severity_order_and_names() {
    assert!(Severity::Verbose.rank() < Severity::Info.rank());
    assert!(Severity::Info.rank() < Severity::Warning.rank());
    assert!(Severity::Warning.rank() < Severity::Error.rank());
    assert_eq!(Severity::Verbose.name(), "verbose");
    assert_eq!(Severity::Error.name(), "error");
}

#[test]
fn backend_selection() {
    let ok = select_logger(&config_with("coralogix")).unwrap();
    let Logger::Coralogix(c) = ok;
    assert_eq!(c.api_key, "k");
    assert_eq!(c.application_name, "app");
    assert_eq!(c.endpoint, "https://example.invalid/logs");
    let err = select_logger(&config_with("console")).err().unwrap();
    assert_eq!(err.unrecognized, "console");
}

#[test]
fn header_errors_and_last_write_wins() {
    let mut r = Response::new();
    assert_eq!(r.header("", "v"), Err(HeaderError::InvalidName));
    assert_eq!(r.header("a:b", "v"), Err(HeaderError::InvalidName));
    assert_eq!(r.header("X-A", "bad\nvalue"), Err(HeaderError::InvalidValue));
    assert_eq!(r.header_count(), 0);
    r.header("X-A", "1").unwrap();
    r.header("X-B", "2").unwrap();
    r.header("X-A", "3").unwrap();
    assert_eq!(r.header_count(), 2);
    assert_eq!(r.get_header_at(0), ("X-B".to_string(), "2".to_string()));
    assert_eq!(r.get_header_at(1), ("X-A".to_string(), "3".to_string()));
}

#[test]
fn content_type_rejects_malformed_value() {
    let mut r = Response::new();
    assert_eq!(r.content_type("bad\nvalue"), Err(HeaderError::InvalidValue));
    assert_eq!(r.get_content_type(), None);
}

#[test]
fn body_kinds_are_mutually_exclusive() {
    let mut r = Response::new();
    r.text("hello");
    r.body(vec![1, 2, 3]);
    assert_eq!(r.body_bytes(), vec![1, 2, 3]);
    r.text("after");
    assert_eq!(r.body_bytes(), b"after".to_vec());
}

#[test]
fn empty_body_and_status_default() {
    let r = Response::new();
    assert_eq!(r.get_status(), 200);
    assert_eq!(r.body_bytes(), Vec::<u8>::new());
    assert_eq!(r.get_content_type(), None);
    assert_eq!(r.header_count(), 0);
}

#[test]
fn flush_payload_exact() {
    let logger = select_logger(&config_with("coralogix")).unwrap();
    let mut q = LogQueue::new();
    q.log(Severity::Info, "k", "t");
    let payload = flush(&logger, &q);
    assert_eq!(
        payload,
        "{\"applicationName\":\"app\",\"entries\":[{\"severity\":\"info\",\"kind\":\"k\",\"text\":\"t\"}]}"
    );
    let parsed: serde_json::Value = serde_json::from_str(&payload).unwrap();
    assert_eq!(parsed["entries"].as_array().unwrap().len(), 1);
}

#[test]
fn flush_empty_queue() {
    let logger = select_logger(&config_with("coralogix")).unwrap();
    let q = LogQueue::new();
    assert_eq!(flush(&logger, &q), "{\"applicationName\":\"app\",\"entries\":[]}");
}

#[test]
fn raise_internal_error_sets_500_and_logs() {
    let mut ctx = Context::new();
    ctx.raise_internal_error("went wrong");
    assert_eq!(ctx.response.get_status(), 500);
    assert_eq!(ctx.response.body_bytes(), b"internal error: went wrong".to_vec());
    assert_eq!(ctx.logs.len(), 1);
    assert_eq!(ctx.logs.get(0).severity, Severity::Error);
    assert_eq!(ctx.logs.get(0).text, "went wrong");
}

#[test]
fn request_url_with_query() {
    let r = Request::new(
        Method::Get,
        "/hello".to_string(),
        "a=1&b=2".to_string(),
        Vec::new(),
        Vec::new(),
    );
    assert_eq!(r.url(), "/hello?a=1&b=2");
    assert_eq!(get("/hello").url(), "/hello");
}

#[test]
fn thing_serializes_as_documented() {
    let t = Thing { x: 100, name: "abc".to_string() };
    assert_eq!(encode(&t.to_json()), "{\"x\":100,\"name\":\"abc\"}");
}

#[test]
fn handler_logs_every_inbound_request() {
    let out = invoke("/");
    assert_eq!(out.logs.len(), 2);
    assert_eq!(out.logs.get(0).severity, Severity::Verbose);
    assert_eq!(out.logs.get(0).kind, "handler");
    assert_eq!(out.logs.get(0).text, "GET /");
    assert_eq!(out.logs.get(1).severity, Severity::Info);
    assert_eq!(out.logs.get(1).kind, "root handler");
}

#[test]
fn payload_carries_the_whole_invocation_log() {
    let out = invoke("/defer");
    let parsed: serde_json::Value = serde_json::from_str(&out.payload).unwrap();
    assert_eq!(parsed["applicationName"], serde_json::Value::String("app".to_string()));
    let entries = parsed["entries"].as_array().unwrap();
    assert_eq!(entries.len(), 3);
    assert_eq!(entries[0]["severity"], serde_json::Value::String("verbose".to_string()));
    assert_eq!(entries[0]["text"], serde_json::Value::String("GET /defer".to_string()));
    assert_eq!(entries[1]["text"], serde_json::Value::String("One: 111".to_string()));
    assert_eq!(entries[2]["text"], serde_json::Value::String("Two: 222".to_string()));
}

#[test]
fn payload_escapes_entry_text() {
    let logger = select_logger(&config_with("coralogix")).unwrap();
    let mut q = LogQueue::new();
    q.log(Severity::Warning, "k", "say \"hi\"\\now");
    let payload = flush(&logger, &q);
    let parsed: serde_json::Value = serde_json::from_str(&payload).unwrap();
    let entries = parsed["entries"].as_array().unwrap();
    assert_eq!(entries[0]["text"], serde_json::Value::String("say \"hi\"\\now".to_string()));
    assert_eq!(entries[0]["severity"], serde_json::Value::String("warning".to_string()));
}
