//! Structured logging: severities, log entries, the per-invocation log
//! queue, logger-backend selection, and serialization of the flushed batch.
//!
//! The queue is an ordered, append-only buffer shared between the main
//! handling path and the deferred-task phase. Under the single-threaded
//! cooperative scheduling of one invocation the two phases never run
//! concurrently, so the queue is passed along sequentially; no lock is
//! needed. Wall-clock timestamping and the wire transport to the backend
//! are the platform layer's concern and happen outside this core.

use crate::json::escape;
use crate::text::str_eq;
use vstd::prelude::*;
use vstd::string::StringExecFns;

verus! {

/// Severity of a log entry, ordered: Verbose < Info < Warning < Error.
#[derive(Clone, Copy, Debug, PartialEq, Eq, Structural)]
pub enum Severity {
    Verbose,
    Info,
    Warning,
    Error,
}

impl Severity {
    /// Numeric rank giving the order Verbose < Info < Warning < Error.
    pub open spec fn rank_spec(self) -> int {
        match self {
            Severity::Verbose => 0,
            Severity::Info => 1,
            Severity::Warning => 2,
            Severity::Error => 3,
        }
    }

    /// The rank as an executable value.
    pub fn rank(&self) -> (r: u8)
        ensures
            r as int == self.rank_spec(),
    {
        match self {
            Severity::Verbose => 0,
            Severity::Info => 1,
            Severity::Warning => 2,
            Severity::Error => 3,
        }
    }

    /// The lower-case name used when a batch is serialized.
    pub open spec fn name_spec(self) -> Seq<char> {
        match self {
            Severity::Verbose => "verbose"@,
            Severity::Info => "info"@,
            Severity::Warning => "warning"@,
            Severity::Error => "error"@,
        }
    }

    /// The name as an executable string slice.
    pub fn name(&self) -> (r: &'static str)
        ensures
            r@ == self.name_spec(),
    {
        match self {
            Severity::Verbose => "verbose",
            Severity::Info => "info",
            Severity::Warning => "warning",
            Severity::Error => "error",
        }
    }
}

/// Mathematical view of a log entry.
#[verifier::ext_equal]
pub struct LogEntryView {
    pub severity: Severity,
    pub kind: Seq<char>,
    pub text: Seq<char>,
}

/// One structured record: a severity, a short event tag (`kind`), and a
/// free-form message. Entries are appended to the queue and never mutated.
#[derive(Debug)]
pub struct LogEntry {
    pub severity: Severity,
    pub kind: String,
    pub text: String,
}

impl View for LogEntry {
    type V = LogEntryView;

    open spec fn view(&self) -> LogEntryView {
        LogEntryView { severity: self.severity, kind: self.kind@, text: self.text@ }
    }
}

/// The ordered, append-only buffer of log entries for one invocation.
#[derive(Debug)]
pub struct LogQueue {
    entries: Vec<LogEntry>,
}

impl View for LogQueue {
    type V = Seq<LogEntryView>;

    closed spec fn view(&self) -> Seq<LogEntryView> {
        self.entries@.map_values(|e: LogEntry| e@)
    }
}

impl LogQueue {
    /// An empty queue.
    pub fn new() -> (q: LogQueue)
        ensures
            q@ == Seq::<LogEntryView>::empty(),
    {
        let q = LogQueue { entries: Vec::new() };
        proof {
            assert(q@ =~= Seq::<LogEntryView>::empty());
        }
        q
    }

    /// Appends one entry; nothing already in the queue moves or changes.
    pub fn log(&mut self, severity: Severity, kind: &str, text: &str)
        ensures
            final(self)@ == old(self)@.push(
                LogEntryView { severity, kind: kind@, text: text@ },
            ),
    {
        let e = LogEntry { severity, kind: kind.to_owned(), text: text.to_owned() };
        self.entries.push(e);
        proof {
            assert(final(self)@ =~= old(self)@.push(
                LogEntryView { severity, kind: kind@, text: text@ },
            ));
        }
    }

    /// The number of entries appended so far.
    pub fn len(&self) -> (n: usize)
        ensures
            n == self@.len(),
    {
        self.entries.len()
    }

    /// Read access to the entry at position `i`.
    pub fn get(&self, i: usize) -> (e: &LogEntry)
        requires
            i < self@.len(),
        ensures
            e@ == self@[i as int],
    {
        &self.entries[i]
    }
}

/// Mathematical view of the remote-collector settings.
#[verifier::ext_equal]
pub struct CoralogixConfigView {
    pub api_key: Seq<char>,
    pub application_name: Seq<char>,
    pub endpoint: Seq<char>,
}

/// Settings for the remote structured-log collector backend.
#[derive(Debug)]
pub struct CoralogixConfig {
    pub api_key: String,
    pub application_name: String,
    pub endpoint: String,
}

impl View for CoralogixConfig {
    type V = CoralogixConfigView;

    open spec fn view(&self) -> CoralogixConfigView {
        CoralogixConfigView {
            api_key: self.api_key@,
            application_name: self.application_name@,
            endpoint: self.endpoint@,
        }
    }
}

/// Mathematical view of the logging configuration.
#[verifier::ext_equal]
pub struct LoggingConfigView {
    pub logger: Seq<char>,
    pub coralogix: CoralogixConfigView,
}

/// The logging section of the invocation's configuration: the name of the
/// backend to use, and the settings of the remote collector.
#[derive(Debug)]
pub struct LoggingConfig {
    pub logger: String,
    pub coralogix: CoralogixConfig,
}

impl View for LoggingConfig {
    type V = LoggingConfigView;

    open spec fn view(&self) -> LoggingConfigView {
        LoggingConfigView { logger: self.logger@, coralogix: self.coralogix@ }
    }
}

/// Mathematical view of a selected logger backend.
#[verifier::ext_equal]
pub enum LoggerView {
    Coralogix(CoralogixConfigView),
}

/// A selected logger backend: the closed set of sinks a batch can be
/// flushed to. Selection happens once, before any request processing.
#[derive(Debug)]
pub enum Logger {
    Coralogix(CoralogixConfig),
}

impl View for Logger {
    type V = LoggerView;

    open spec fn view(&self) -> LoggerView {
        match self {
            Logger::Coralogix(c) => LoggerView::Coralogix(c@),
        }
    }
}

/// A fatal configuration error: the backend-selection string named no
/// known backend. It carries the unrecognized value.
#[derive(Debug)]
pub struct ConfigError {
    pub unrecognized: String,
}

/// The serialized form of one log entry in a flushed batch.
pub open spec fn entry_encoding(e: LogEntryView) -> Seq<char> {
    "{\"severity\":\""@ + escape(e.severity.name_spec()) + "\",\"kind\":\""@ + escape(e.kind)
        + "\",\"text\":\""@ + escape(e.text) + "\"}"@
}

/// The comma-separated serialized entries of a batch, in queue order.
pub open spec fn batch_elems(entries: Seq<LogEntryView>) -> Seq<char>
    decreases entries.len(),
{
    if entries.len() == 0 {
        Seq::empty()
    } else if entries.len() == 1 {
        entry_encoding(entries.last())
    } else {
        batch_elems(entries.drop_last()) + ","@ + entry_encoding(entries.last())
    }
}

/// The whole batch payload handed to the backend: the application name
/// and the serialized entries.
pub open spec fn payload_encoding(application_name: Seq<char>, entries: Seq<LogEntryView>) -> Seq<
    char,
> {
    "{\"applicationName\":\""@ + escape(application_name) + "\",\"entries\":["@ + batch_elems(
        entries,
    ) + "]}"@
}

/// Appends the serialized form of one entry to `out`.
fn append_entry(out: &mut String, e: &LogEntry)
    ensures
        final(out)@ == old(out)@ + entry_encoding(e@),
{
    out.append("{\"severity\":\"");
    crate::json::append_escaped(out, e.severity.name());
    out.append("\",\"kind\":\"");
    crate::json::append_escaped(out, e.kind.as_str());
    out.append("\",\"text\":\"");
    crate::json::append_escaped(out, e.text.as_str());
    out.append("\"}");
}

/// Serializes the accumulated queue as one batch for the selected
/// backend. This is the flush of the invocation: it happens exactly once,
/// after the deferred phase; carrying the payload to the backend's wire
/// endpoint is the platform layer's concern, and a delivery failure there
/// is best-effort and never surfaced to the client.
#[verifier::loop_isolation(false)]
pub fn flush(logger: &Logger, q: &LogQueue) -> (payload: String)
    ensures
        match logger@ {
            LoggerView::Coralogix(c) => payload@ == payload_encoding(c.application_name, q@),
        },
{
    match logger {
        Logger::Coralogix(cfg) => {
            let mut out = String::from_str("{\"applicationName\":\"");
            crate::json::append_escaped(&mut out, cfg.application_name.as_str());
            out.append("\",\"entries\":[");
            let ghost head = "{\"applicationName\":\""@ + escape(cfg.application_name@)
                + "\",\"entries\":["@;
            proof {
                assert(out@ =~= head + batch_elems(q@.subrange(0, 0)));
            }
            let n = q.len();
            let mut i: usize = 0;
            while i < n
                invariant
                    n == q@.len(),
                    i <= n,
                    out@ == head + batch_elems(q@.subrange(0, i as int)),
                decreases n - i,
            {
                if i > 0 {
                    out.append(",");
                }
                append_entry(&mut out, q.get(i));
                proof {
                    let pre = q@.subrange(0, i as int);
                    let post = q@.subrange(0, (i + 1) as int);
                    assert(post.drop_last() =~= pre);
                    assert(post.last() == q@[i as int]);
                    assert(out@ =~= head + batch_elems(post));
                }
                i = i + 1;
            }
            out.append("]}");
            proof {
                assert(q@.subrange(0, n as int) =~= q@);
                assert(out@ =~= payload_encoding(cfg.application_name@, q@));
            }
            out
        },
    }
}

/// Whether a backend-selection string names a known backend.
pub open spec fn recognized_backend(name: Seq<char>) -> bool {
    name == "coralogix"@
}

/// Selects the logger backend named by the configuration. An unrecognized
/// name is a fatal, request-independent error: the error value carries the
/// offending string and nothing else has happened yet.
pub fn select_logger(cfg: &LoggingConfig) -> (r: Result<Logger, ConfigError>)
    ensures
        r is Ok <==> recognized_backend(cfg.logger@),
        r is Ok ==> r->Ok_0@ == LoggerView::Coralogix(cfg.coralogix@),
        r is Err ==> r->Err_0.unrecognized@ == cfg.logger@,
{
    if str_eq(cfg.logger.as_str(), "coralogix") {
        Ok(
            Logger::Coralogix(
                CoralogixConfig {
                    api_key: cfg.coralogix.api_key.clone(),
                    application_name: cfg.coralogix.application_name.clone(),
                    endpoint: cfg.coralogix.endpoint.clone(),
                },
            ),
        )
    } else {
        Err(ConfigError { unrecognized: cfg.logger.clone() })
    }
}

} // verus!
