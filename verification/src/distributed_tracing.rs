//! Distributed tracing: traces that are opened, hold spans, logs and errors,
//! are finished and stored, and are queried, counted and expired.
use vstd::prelude::*;
use std::collections::HashMap;
use crate::listing::{first_at, first_index, lemma_first_index, lemma_no_first_index};
use crate::system::{new_uuid, now_millis};
use crate::tags::Tags;

verus! {

/// Settings of tracing. The sampling rate is applied outside the library,
/// which tells `start_trace` whether a trace was sampled.
#[derive(Debug, Clone, Copy, PartialEq, Eq, Structural)]
pub struct TracingConfig {
    /// Whether tracing is on.
    pub enabled: bool,
    /// Deepest trace kept.
    pub max_trace_depth: u32,
    /// Hours a finished trace is kept.
    pub retention_hours: u64,
    /// Traces exported in one batch.
    pub batch_export_size: usize,
    /// Time-out of an export, in seconds.
    pub export_timeout_seconds: u64,
    /// Whether performance is analysed.
    pub enable_performance_analysis: bool,
    /// Whether errors are recorded.
    pub enable_error_tracking: bool,
}

impl Default for TracingConfig {
    fn default() -> (r: Self)
        ensures
            r.enabled,
            r.max_trace_depth == 50,
            r.retention_hours == 24,
            r.batch_export_size == 100,
            r.export_timeout_seconds == 30,
            r.enable_performance_analysis,
            r.enable_error_tracking,
    {
        TracingConfig {
            enabled: true,
            max_trace_depth: 50,
            retention_hours: 24,
            batch_export_size: 100,
            export_timeout_seconds: 30,
            enable_performance_analysis: true,
            enable_error_tracking: true,
        }
    }
}

/// State of a trace.
#[derive(Debug, Clone, Copy, PartialEq, Eq, Structural)]
pub enum TraceStatus {
    /// Open.
    InProgress,
    /// Finished successfully.
    Completed,
    /// Finished with an error.
    Error,
    /// Timed out.
    Timeout,
    /// Cancelled.
    Cancelled,
}

/// State of a span.
#[derive(Debug, Clone, Copy, PartialEq, Eq, Structural)]
pub enum SpanStatus {
    /// Open.
    InProgress,
    /// Finished successfully.
    Success,
    /// Finished with an error.
    Error,
    /// Cancelled.
    Cancelled,
}

/// Level of a log event.
#[derive(Debug, Clone, Copy, PartialEq, Eq, Structural)]
pub enum LogLevel {
    /// Finest detail.
    Trace,
    /// Debugging.
    Debug,
    /// Information.
    Info,
    /// Warning.
    Warn,
    /// Error.
    Error,
}

/// A log event of a span.
#[derive(Debug)]
pub struct LogEvent {
    /// When, in milliseconds since the Unix epoch.
    pub timestamp: i64,
    /// Level.
    pub level: LogLevel,
    /// Message.
    pub message: String,
    /// Fields.
    pub fields: HashMap<String, String>,
}

/// The plain-value view of a log event.
pub struct LogEventView {
    /// Time.
    pub timestamp: i64,
    /// Level.
    pub level: LogLevel,
    /// Message.
    pub message: Seq<char>,
    /// Fields.
    pub fields: Map<String, String>,
}

impl View for LogEvent {
    type V = LogEventView;

    open spec fn view(&self) -> LogEventView {
        LogEventView { timestamp: self.timestamp, level: self.level, message: self.message@, fields: self.fields@ }
    }
}

impl Clone for LogEvent {
    fn clone(&self) -> (r: Self)
        ensures
            r@ == self@,
    {
        LogEvent { timestamp: self.timestamp, level: self.level, message: self.message.clone(), fields: self.fields.clone() }
    }
}

/// The view of an optional text.
pub open spec fn opt_text(t: Option<String>) -> Option<Seq<char>> {
    match t {
        Some(s) => Some(s@),
        None => None,
    }
}

fn clone_opt_text(t: &Option<String>) -> (r: Option<String>)
    ensures
        opt_text(r) == opt_text(*t),
{
    match t {
        Some(s) => Some(s.clone()),
        None => None,
    }
}

/// An error recorded in a trace.
#[derive(Debug)]
pub struct TraceError {
    /// Error id.
    pub error_id: String,
    /// Span in which it happened.
    pub span_id: String,
    /// Kind of error.
    pub error_type: String,
    /// Message.
    pub message: String,
    /// Stack trace, if any.
    pub stack_trace: Option<String>,
    /// When, in milliseconds since the Unix epoch.
    pub timestamp: i64,
    /// Tags.
    pub tags: Tags,
}

/// The plain-value view of a trace error.
pub struct TraceErrorView {
    /// Error id.
    pub error_id: Seq<char>,
    /// Span.
    pub span_id: Seq<char>,
    /// Kind.
    pub error_type: Seq<char>,
    /// Message.
    pub message: Seq<char>,
    /// Stack trace.
    pub stack_trace: Option<Seq<char>>,
    /// Time.
    pub timestamp: i64,
    /// Tags.
    pub tags: Map<Seq<char>, Seq<char>>,
}

impl View for TraceError {
    type V = TraceErrorView;

    open spec fn view(&self) -> TraceErrorView {
        TraceErrorView {
            error_id: self.error_id@,
            span_id: self.span_id@,
            error_type: self.error_type@,
            message: self.message@,
            stack_trace: opt_text(self.stack_trace),
            timestamp: self.timestamp,
            tags: self.tags@,
        }
    }
}

impl Clone for TraceError {
    fn clone(&self) -> (r: Self)
        ensures
            r@ == self@,
    {
        TraceError {
            error_id: self.error_id.clone(),
            span_id: self.span_id.clone(),
            error_type: self.error_type.clone(),
            message: self.message.clone(),
            stack_trace: clone_opt_text(&self.stack_trace),
            timestamp: self.timestamp,
            tags: self.tags.clone(),
        }
    }
}

/// A span of a trace.
#[derive(Debug)]
pub struct Span {
    /// Span id.
    pub span_id: String,
    /// Parent span, if any.
    pub parent_span_id: Option<String>,
    /// Trace it belongs to.
    pub trace_id: String,
    /// Service.
    pub service_name: String,
    /// Operation.
    pub operation_name: String,
    /// Start, in milliseconds since the Unix epoch.
    pub start_time: i64,
    /// End, if finished.
    pub end_time: Option<i64>,
    /// Duration in milliseconds, if finished.
    pub duration_ms: Option<u64>,
    /// State.
    pub status: SpanStatus,
    /// Tags.
    pub tags: Tags,
    /// Log events.
    pub logs: Vec<LogEvent>,
    /// Spans started with this one as parent.
    pub child_count: u32,
}

/// The plain-value view of a span.
pub struct SpanView {
    /// Span id.
    pub span_id: Seq<char>,
    /// Parent.
    pub parent_span_id: Option<Seq<char>>,
    /// Trace.
    pub trace_id: Seq<char>,
    /// Service.
    pub service_name: Seq<char>,
    /// Operation.
    pub operation_name: Seq<char>,
    /// Start.
    pub start_time: i64,
    /// End.
    pub end_time: Option<i64>,
    /// Duration.
    pub duration_ms: Option<u64>,
    /// State.
    pub status: SpanStatus,
    /// Tags.
    pub tags: Map<Seq<char>, Seq<char>>,
    /// Log events.
    pub logs: Seq<LogEventView>,
    /// Children.
    pub child_count: u32,
}

impl View for Span {
    type V = SpanView;

    open spec fn view(&self) -> SpanView {
        SpanView {
            span_id: self.span_id@,
            parent_span_id: opt_text(self.parent_span_id),
            trace_id: self.trace_id@,
            service_name: self.service_name@,
            operation_name: self.operation_name@,
            start_time: self.start_time,
            end_time: self.end_time,
            duration_ms: self.duration_ms,
            status: self.status,
            tags: self.tags@,
            logs: self.logs@.map_values(|l: LogEvent| l@),
            child_count: self.child_count,
        }
    }
}

fn clone_logs(v: &Vec<LogEvent>) -> (r: Vec<LogEvent>)
    ensures
        r@.map_values(|l: LogEvent| l@) == v@.map_values(|l: LogEvent| l@),
{
    let mut out: Vec<LogEvent> = Vec::new();
    let mut i: usize = 0;
    while i < v.len()
        invariant
            i <= v@.len(),
            out@.len() == i,
            forall|j: int| 0 <= j < i ==> #[trigger] out@[j]@ == v@[j]@,
        decreases v@.len() - i,
    {
        out.push(v[i].clone());
        i = i + 1;
    }
    assert(out@.map_values(|l: LogEvent| l@) =~= v@.map_values(|l: LogEvent| l@));
    out
}

impl Clone for Span {
    fn clone(&self) -> (r: Self)
        ensures
            r@ == self@,
    {
        Span {
            span_id: self.span_id.clone(),
            parent_span_id: clone_opt_text(&self.parent_span_id),
            trace_id: self.trace_id.clone(),
            service_name: self.service_name.clone(),
            operation_name: self.operation_name.clone(),
            start_time: self.start_time,
            end_time: self.end_time,
            duration_ms: self.duration_ms,
            status: self.status,
            tags: self.tags.clone(),
            logs: clone_logs(&self.logs),
            child_count: self.child_count,
        }
    }
}

/// A trace: a root operation of a service and the spans under it.
#[derive(Debug)]
pub struct TraceSession {
    /// Trace id.
    pub trace_id: String,
    /// Root span id.
    pub root_span_id: String,
    /// Service.
    pub service_name: String,
    /// Operation.
    pub operation_name: String,
    /// Start, in milliseconds since the Unix epoch.
    pub start_time: i64,
    /// End, if finished.
    pub end_time: Option<i64>,
    /// State.
    pub status: TraceStatus,
    /// Tags.
    pub tags: Tags,
    /// Spans, in the order they were started.
    pub spans: Vec<Span>,
    /// Errors, in the order they were recorded.
    pub errors: Vec<TraceError>,
}

/// The plain-value view of a trace.
pub struct TraceSessionView {
    /// Trace id.
    pub trace_id: Seq<char>,
    /// Root span id.
    pub root_span_id: Seq<char>,
    /// Service.
    pub service_name: Seq<char>,
    /// Operation.
    pub operation_name: Seq<char>,
    /// Start.
    pub start_time: i64,
    /// End.
    pub end_time: Option<i64>,
    /// State.
    pub status: TraceStatus,
    /// Tags.
    pub tags: Map<Seq<char>, Seq<char>>,
    /// Spans.
    pub spans: Seq<SpanView>,
    /// Errors.
    pub errors: Seq<TraceErrorView>,
}

impl View for TraceSession {
    type V = TraceSessionView;

    open spec fn view(&self) -> TraceSessionView {
        TraceSessionView {
            trace_id: self.trace_id@,
            root_span_id: self.root_span_id@,
            service_name: self.service_name@,
            operation_name: self.operation_name@,
            start_time: self.start_time,
            end_time: self.end_time,
            status: self.status,
            tags: self.tags@,
            spans: self.spans@.map_values(|s: Span| s@),
            errors: self.errors@.map_values(|e: TraceError| e@),
        }
    }
}

fn clone_spans(v: &Vec<Span>) -> (r: Vec<Span>)
    ensures
        r@.map_values(|s: Span| s@) == v@.map_values(|s: Span| s@),
{
    let mut out: Vec<Span> = Vec::new();
    let mut i: usize = 0;
    while i < v.len()
        invariant
            i <= v@.len(),
            out@.len() == i,
            forall|j: int| 0 <= j < i ==> #[trigger] out@[j]@ == v@[j]@,
        decreases v@.len() - i,
    {
        out.push(v[i].clone());
        i = i + 1;
    }
    assert(out@.map_values(|s: Span| s@) =~= v@.map_values(|s: Span| s@));
    out
}

fn clone_errors(v: &Vec<TraceError>) -> (r: Vec<TraceError>)
    ensures
        r@.map_values(|e: TraceError| e@) == v@.map_values(|e: TraceError| e@),
{
    let mut out: Vec<TraceError> = Vec::new();
    let mut i: usize = 0;
    while i < v.len()
        invariant
            i <= v@.len(),
            out@.len() == i,
            forall|j: int| 0 <= j < i ==> #[trigger] out@[j]@ == v@[j]@,
        decreases v@.len() - i,
    {
        out.push(v[i].clone());
        i = i + 1;
    }
    assert(out@.map_values(|e: TraceError| e@) =~= v@.map_values(|e: TraceError| e@));
    out
}

impl Clone for TraceSession {
    fn clone(&self) -> (r: Self)
        ensures
            r@ == self@,
    {
        TraceSession {
            trace_id: self.trace_id.clone(),
            root_span_id: self.root_span_id.clone(),
            service_name: self.service_name.clone(),
            operation_name: self.operation_name.clone(),
            start_time: self.start_time,
            end_time: self.end_time,
            status: self.status,
            tags: self.tags.clone(),
            spans: clone_spans(&self.spans),
            errors: clone_errors(&self.errors),
        }
    }
}

/// Writes traces to the console.
#[derive(Debug, Clone, Copy)]
pub struct ConsoleExporter;

impl ConsoleExporter {
    /// The exporter's name.
    pub fn name(&self) -> (r: &'static str)
        ensures
            r@ == "console"@,
    {
        "console"
    }
}

/// Sends traces to a Jaeger collector.
#[derive(Debug, Clone)]
pub struct JaegerExporter {
    endpoint: String,
    service_name: String,
}

impl JaegerExporter {
    /// An exporter to the collector at `endpoint`, for `service_name`.
    pub fn new(endpoint: String, service_name: String) -> (r: Self)
        ensures
            r.endpoint_spec() == endpoint@,
            r.service_spec() == service_name@,
    {
        JaegerExporter { endpoint, service_name }
    }

    /// The collector's endpoint.
    pub closed spec fn endpoint_spec(&self) -> Seq<char> {
        self.endpoint@
    }

    /// The service traced.
    pub closed spec fn service_spec(&self) -> Seq<char> {
        self.service_name@
    }

    /// The collector's endpoint.
    pub fn endpoint(&self) -> (r: &str)
        ensures
            r@ == self.endpoint_spec(),
    {
        self.endpoint.as_str()
    }

    /// The exporter's name.
    pub fn name(&self) -> (r: &'static str)
        ensures
            r@ == "jaeger"@,
    {
        "jaeger"
    }
}

/// Sends traces to an OpenTelemetry collector.
#[derive(Debug, Clone)]
pub struct OpenTelemetryExporter {
    endpoint: String,
    headers: HashMap<String, String>,
}

impl OpenTelemetryExporter {
    /// An exporter to the collector at `endpoint`, sending `headers`.
    pub fn new(endpoint: String, headers: HashMap<String, String>) -> (r: Self)
        ensures
            r.endpoint_spec() == endpoint@,
            r.headers_spec() == headers@,
    {
        OpenTelemetryExporter { endpoint, headers }
    }

    /// The collector's endpoint.
    pub closed spec fn endpoint_spec(&self) -> Seq<char> {
        self.endpoint@
    }

    /// The headers sent.
    pub closed spec fn headers_spec(&self) -> Map<String, String> {
        self.headers@
    }

    /// The collector's endpoint.
    pub fn endpoint(&self) -> (r: &str)
        ensures
            r@ == self.endpoint_spec(),
    {
        self.endpoint.as_str()
    }

    /// The exporter's name.
    pub fn name(&self) -> (r: &'static str)
        ensures
            r@ == "opentelemetry"@,
    {
        "opentelemetry"
    }
}

/// A log event logged at `at`.
pub open spec fn log_event(at: i64, level: LogLevel, message: Seq<char>, fields: Map<String, String>) -> LogEventView {
    LogEventView { timestamp: at, level, message, fields }
}

/// The ids of a sequence of traces.
pub open spec fn trace_ids(s: Seq<TraceSessionView>) -> Seq<Seq<char>> {
    s.map_values(|t: TraceSessionView| t.trace_id)
}

/// The ids of a sequence of spans.
pub open spec fn span_ids(s: Seq<SpanView>) -> Seq<Seq<char>> {
    s.map_values(|t: SpanView| t.span_id)
}

/// The views of a vector of traces.
pub open spec fn trace_views(v: Seq<TraceSession>) -> Seq<TraceSessionView> {
    v.map_values(|t: TraceSession| t@)
}

/// The views of a vector of spans.
pub open spec fn span_views(v: Seq<Span>) -> Seq<SpanView> {
    v.map_values(|t: Span| t@)
}

/// `s` with `t` in place of the first trace with its id, or with `t` added at
/// the end when there is none.
pub open spec fn put_trace(s: Seq<TraceSessionView>, t: TraceSessionView) -> Seq<TraceSessionView> {
    match first_index(trace_ids(s), t.trace_id) {
        Some(i) => s.update(i, t),
        None => s.push(t),
    }
}

/// A trace just started.
pub open spec fn fresh_trace(
    id: Seq<char>,
    root: Seq<char>,
    service: Seq<char>,
    operation: Seq<char>,
    at: i64,
    tags: Map<Seq<char>, Seq<char>>,
) -> TraceSessionView {
    TraceSessionView {
        trace_id: id,
        root_span_id: root,
        service_name: service,
        operation_name: operation,
        start_time: at,
        end_time: None,
        status: TraceStatus::InProgress,
        tags,
        spans: Seq::empty(),
        errors: Seq::empty(),
    }
}

/// A span just started.
pub open spec fn fresh_span(
    id: Seq<char>,
    parent: Option<Seq<char>>,
    trace: Seq<char>,
    service: Seq<char>,
    operation: Seq<char>,
    at: i64,
    tags: Map<Seq<char>, Seq<char>>,
) -> SpanView {
    SpanView {
        span_id: id,
        parent_span_id: parent,
        trace_id: trace,
        service_name: service,
        operation_name: operation,
        start_time: at,
        end_time: None,
        duration_ms: None,
        status: SpanStatus::InProgress,
        tags,
        logs: Seq::empty(),
        child_count: 0,
    }
}

/// The spans with the first span named `parent`, if any, counting one more
/// child (staying at the largest `u32`).
pub open spec fn with_child(spans: Seq<SpanView>, parent: Option<Seq<char>>) -> Seq<SpanView> {
    match parent {
        Some(p) => match first_index(span_ids(spans), p) {
            Some(j) => spans.update(j, SpanView {
                child_count: if spans[j].child_count == u32::MAX { u32::MAX } else { (spans[j].child_count + 1) as u32 },
                ..spans[j]
            }),
            None => spans,
        },
        None => spans,
    }
}

/// A span finished at `at` with `status`: its end is `at`, and its duration
/// is the time since its start when that is not negative.
pub open spec fn finished_span(o: SpanView, status: SpanStatus, at: i64, tags: Map<Seq<char>, Seq<char>>) -> SpanView {
    SpanView {
        end_time: Some(at),
        status,
        duration_ms: if at >= o.start_time { Some((at - o.start_time) as u64) } else { o.duration_ms },
        tags,
        ..o
    }
}

/// The traces of `s` that satisfy `keep`, in order.
pub open spec fn filter_traces(s: Seq<TraceSessionView>, keep: spec_fn(TraceSessionView) -> bool) -> Seq<TraceSessionView>
    decreases s.len(),
{
    if s.len() == 0 {
        Seq::empty()
    } else {
        let rest = filter_traces(s.drop_last(), keep);
        if keep(s.last()) { rest.push(s.last()) } else { rest }
    }
}

/// Whether a stored trace answers a query: of the service asked for, else of
/// the operation asked for; of the status asked for; started within the time
/// range asked for.
pub open spec fn answers(
    t: TraceSessionView,
    service: Option<Seq<char>>,
    operation: Option<Seq<char>>,
    status: Option<TraceStatus>,
    range: Option<(i64, i64)>,
) -> bool {
    &&& match service {
        Some(s) => t.service_name == s,
        None => match operation {
            Some(o) => t.operation_name == o,
            None => true,
        },
    }
    &&& match status {
        Some(st) => t.status == st,
        None => true,
    }
    &&& match range {
        Some((from, to)) => from <= t.start_time <= to,
        None => true,
    }
}

/// `x` placed into `s` (started latest first) after every trace started no
/// earlier than it.
pub open spec fn insert_by_start(s: Seq<TraceSessionView>, x: TraceSessionView) -> Seq<TraceSessionView>
    decreases s.len(),
{
    if s.len() == 0 {
        seq![x]
    } else if s[0].start_time < x.start_time {
        seq![x] + s
    } else {
        seq![s[0]] + insert_by_start(s.drop_first(), x)
    }
}

/// `s` ordered by start, latest first; traces started at the same time keep
/// their order.
pub open spec fn sort_by_start(s: Seq<TraceSessionView>) -> Seq<TraceSessionView>
    decreases s.len(),
{
    if s.len() == 0 {
        s
    } else {
        insert_by_start(sort_by_start(s.drop_last()), s.last())
    }
}

/// What a query returns from the stored traces `s`: the answering traces in
/// the order they were stored, cut to the limit (a limit of zero still lets
/// the first one through), ordered by start, latest first.
pub open spec fn query_result(
    s: Seq<TraceSessionView>,
    service: Option<Seq<char>>,
    operation: Option<Seq<char>>,
    status: Option<TraceStatus>,
    range: Option<(i64, i64)>,
    limit: Option<usize>,
) -> Seq<TraceSessionView> {
    let found = filter_traces(s, |t: TraceSessionView| answers(t, service, operation, status, range));
    let kept = match limit {
        Some(n) => {
            let k: int = if n == 0 { 1 } else { n as int };
            if k <= found.len() { found.take(k) } else { found }
        },
        None => found,
    };
    sort_by_start(kept)
}

/// The number of traces of `s` with the given status.
pub open spec fn count_status(s: Seq<TraceSessionView>, status: TraceStatus) -> nat
    decreases s.len(),
{
    if s.len() == 0 {
        0
    } else {
        count_status(s.drop_last(), status) + if s.last().status == status { 1nat } else { 0nat }
    }
}

/// The number of traces of `s` of the given service.
pub open spec fn count_service(s: Seq<TraceSessionView>, service: Seq<char>) -> nat
    decreases s.len(),
{
    if s.len() == 0 {
        0
    } else {
        count_service(s.drop_last(), service) + if s.last().service_name == service { 1nat } else { 0nat }
    }
}

/// The services of `tally`.
pub open spec fn tally_names(tally: Seq<(Seq<char>, nat)>) -> Seq<Seq<char>> {
    tally.map_values(|e: (Seq<char>, nat)| e.0)
}

/// A tally of services with one more trace of `service`.
pub open spec fn tally_add(tally: Seq<(Seq<char>, nat)>, service: Seq<char>) -> Seq<(Seq<char>, nat)> {
    match first_index(tally_names(tally), service) {
        Some(j) => tally.update(j, (service, tally[j].1 + 1)),
        None => tally.push((service, 1nat)),
    }
}

/// The services of the traces of `s` with the number of traces of each, in the
/// order each service first shows up.
pub open spec fn service_tally(s: Seq<TraceSessionView>) -> Seq<(Seq<char>, nat)>
    decreases s.len(),
{
    if s.len() == 0 {
        Seq::empty()
    } else {
        tally_add(service_tally(s.drop_last()), s.last().service_name)
    }
}

/// Counts over the traces.
#[derive(Debug, Clone)]
pub struct TraceStatistics {
    /// Traces open or finished.
    pub total_traces: usize,
    /// Finished traces.
    pub completed_traces: usize,
    /// Open traces.
    pub active_traces: usize,
    /// Finished traces with an error status.
    pub error_traces: usize,
    /// Finished traces of each service, in the order each service first shows up.
    pub service_counts: Vec<(String, usize)>,
}

/// The view of a tally of services.
pub open spec fn tally_view(v: Seq<(String, usize)>) -> Seq<(Seq<char>, nat)> {
    v.map_values(|e: (String, usize)| (e.0@, e.1 as nat))
}


fn find_trace(v: &Vec<TraceSession>, id: &str) -> (r: Option<usize>)
    ensures
        match r {
            Some(i) => i < v@.len() && first_index(trace_ids(trace_views(v@)), id@) == Some(i as int),
            None => first_index(trace_ids(trace_views(v@)), id@) is None,
        },
{
    let ghost ids = trace_ids(trace_views(v@));
    let mut i: usize = 0;
    while i < v.len()
        invariant
            ids == trace_ids(trace_views(v@)),
            i <= v@.len(),
            forall|j: int| 0 <= j < i ==> ids[j] != id@,
        decreases v@.len() - i,
    {
        if crate::text::same_text(v[i].trace_id.as_str(), id) {
            proof {
                assert(first_at(ids, id@, i as int));
                lemma_first_index(ids, id@, i as int);
            }
            return Some(i);
        }
        i = i + 1;
    }
    proof {
        lemma_no_first_index(ids, id@);
    }
    None
}

fn find_span(v: &Vec<Span>, id: &str) -> (r: Option<usize>)
    ensures
        match r {
            Some(i) => i < v@.len() && first_index(span_ids(span_views(v@)), id@) == Some(i as int),
            None => first_index(span_ids(span_views(v@)), id@) is None,
        },
{
    let ghost ids = span_ids(span_views(v@));
    let mut i: usize = 0;
    while i < v.len()
        invariant
            ids == span_ids(span_views(v@)),
            i <= v@.len(),
            forall|j: int| 0 <= j < i ==> ids[j] != id@,
        decreases v@.len() - i,
    {
        if crate::text::same_text(v[i].span_id.as_str(), id) {
            proof {
                assert(first_at(ids, id@, i as int));
                lemma_first_index(ids, id@, i as int);
            }
            return Some(i);
        }
        i = i + 1;
    }
    proof {
        lemma_no_first_index(ids, id@);
    }
    None
}

/// Keeps the open traces and the finished ones.
pub struct DistributedTracingManager {
    config: TracingConfig,
    active: Vec<TraceSession>,
    completed: Vec<TraceSession>,
}

impl DistributedTracingManager {
    /// The open traces, in the order they were started.
    pub closed spec fn active_traces(&self) -> Seq<TraceSessionView> {
        trace_views(self.active@)
    }

    /// The finished traces, in the order they were stored.
    pub closed spec fn completed_traces(&self) -> Seq<TraceSessionView> {
        trace_views(self.completed@)
    }

    /// The settings.
    pub closed spec fn config_spec(&self) -> TracingConfig {
        self.config
    }

    /// A manager with no traces.
    pub fn new(config: TracingConfig) -> (r: Self)
        ensures
            r.active_traces().len() == 0,
            r.completed_traces().len() == 0,
            r.config_spec() == config,
    {
        DistributedTracingManager { config, active: Vec::new(), completed: Vec::new() }
    }

    /// The settings.
    pub fn config(&self) -> (r: TracingConfig)
        ensures
            r == self.config_spec(),
    {
        self.config
    }

    /// Opens a trace of an operation of a service and returns its id; when
    /// tracing is off or the trace was not sampled, nothing is opened and the
    /// id is empty.
    pub fn start_trace(
        &mut self,
        service_name: String,
        operation_name: String,
        tags: Tags,
        sampled: bool,
    ) -> (r: String)
        ensures
            final(self).completed_traces() == old(self).completed_traces(),
            final(self).config_spec() == old(self).config_spec(),
            !(old(self).config_spec().enabled && sampled) ==> r@ == ""@
                && final(self).active_traces() == old(self).active_traces(),
            old(self).config_spec().enabled && sampled ==> r@.len() == 36
                && exists|root: Seq<char>, at: i64| root.len() == 36 && final(self).active_traces()
                    == #[trigger] put_trace(old(self).active_traces(),
                        fresh_trace(r@, root, service_name@, operation_name@, at, tags@)),
    {
        if !self.config.enabled || !sampled {
            return String::from_str("");
        }
        let trace_id = new_uuid();
        let root_span_id = new_uuid();
        let now = now_millis();
        let ghost fresh = fresh_trace(trace_id@, root_span_id@, service_name@, operation_name@, now, tags@);
        let session = TraceSession {
            trace_id: trace_id.clone(),
            root_span_id,
            service_name,
            operation_name,
            start_time: now,
            end_time: None,
            status: TraceStatus::InProgress,
            tags,
            spans: Vec::new(),
            errors: Vec::new(),
        };
        let ghost t = session@;
        assert(session@.spans =~= Seq::<SpanView>::empty());
        assert(session@.errors =~= Seq::<TraceErrorView>::empty());
        assert(t == fresh);
        match find_trace(&self.active, trace_id.as_str()) {
            Some(i) => {
                self.active.set(i, session);
                assert(self.active_traces() =~= old(self).active_traces().update(i as int, t));
            },
            None => {
                self.active.push(session);
                assert(self.active_traces() =~= old(self).active_traces().push(t));
            },
        }
        assert(final(self).active_traces() == put_trace(old(self).active_traces(), t));
        trace_id
    }

    /// Opens a span in the open trace `trace_id` and returns its id; when a
    /// parent is named, the first span of the trace with that id counts one
    /// more child. An empty trace id opens nothing and gives an empty id; a
    /// trace id that names no open trace opens nothing but still gives an id.
    pub fn start_span(
        &mut self,
        trace_id: &str,
        parent_span_id: Option<String>,
        service_name: String,
        operation_name: String,
        tags: Tags,
    ) -> (r: String)
        ensures
            final(self).completed_traces() == old(self).completed_traces(),
            final(self).config_spec() == old(self).config_spec(),
            trace_id@.len() == 0 ==> r@ == ""@ && final(self).active_traces() == old(self).active_traces(),
            trace_id@.len() > 0 ==> r@.len() == 36 && match first_index(trace_ids(old(self).active_traces()), trace_id@) {
                None => final(self).active_traces() == old(self).active_traces(),
                Some(i) => exists|at: i64| final(self).active_traces() == old(self).active_traces().update(i,
                    TraceSessionView {
                        spans: with_child(
                            old(self).active_traces()[i].spans.push(
                                #[trigger] fresh_span(r@, opt_text(parent_span_id), trace_id@, service_name@,
                                    operation_name@, at, tags@)),
                            opt_text(parent_span_id)),
                        ..old(self).active_traces()[i]
                    }),
            },
    {
        if trace_id.unicode_len() == 0 {
            return String::from_str("");
        }
        let span_id = new_uuid();
        let now = now_millis();
        let parent = clone_opt_text(&parent_span_id);
        let ghost fresh = fresh_span(span_id@, opt_text(parent_span_id), trace_id@, service_name@, operation_name@, now, tags@);
        let span = Span {
            span_id: span_id.clone(),
            parent_span_id,
            trace_id: String::from_str(trace_id),
            service_name,
            operation_name,
            start_time: now,
            end_time: None,
            duration_ms: None,
            status: SpanStatus::InProgress,
            tags,
            logs: Vec::new(),
            child_count: 0,
        };
        assert(span@.logs =~= Seq::<LogEventView>::empty());
        assert(span@ == fresh);
        match find_trace(&self.active, trace_id) {
            Some(i) => {
                let mut t = self.active.remove(i);
                let ghost before = t@;
                t.spans.push(span);
                let ghost pushed = before.spans.push(fresh);
                assert(t@.spans =~= pushed);
                match &parent {
                    Some(p) => {
                        match find_span(&t.spans, p.as_str()) {
                            Some(j) => {
                                let mut sp = t.spans.remove(j);
                                sp.child_count = sp.child_count.saturating_add(1);
                                t.spans.insert(j, sp);
                                assert(t@.spans =~= with_child(pushed, opt_text(parent)));
                            },
                            None => {},
                        }
                    },
                    None => {},
                }
                assert(t@.spans == with_child(pushed, opt_text(parent)));
                let ghost after = t@;
                self.active.insert(i, t);
                assert(self.active_traces() =~= old(self).active_traces().update(i as int,
                    TraceSessionView { spans: with_child(pushed, opt_text(parent)), ..before }));
            },
            None => {},
        }
        span_id
    }

    /// Finishes the first span named `span_id` of the open trace `trace_id`
    /// with `status`: its end is now, its duration the time since its start
    /// (when not negative), and the extra tags, if any, are added to its tags.
    /// Empty ids, or ids that name no open trace or span, change nothing.
    pub fn finish_span(
        &mut self,
        trace_id: &str,
        span_id: &str,
        status: SpanStatus,
        tags: Option<Tags>,
    )
        ensures
            final(self).completed_traces() == old(self).completed_traces(),
            final(self).config_spec() == old(self).config_spec(),
            (trace_id@.len() == 0 || span_id@.len() == 0) ==> final(self).active_traces() == old(self).active_traces(),
            (trace_id@.len() > 0 && span_id@.len() > 0) ==> match first_index(trace_ids(old(self).active_traces()), trace_id@) {
                None => final(self).active_traces() == old(self).active_traces(),
                Some(i) => match first_index(span_ids(old(self).active_traces()[i].spans), span_id@) {
                    None => final(self).active_traces() == old(self).active_traces(),
                    Some(j) => {
                        let t = old(self).active_traces()[i];
                        let n = final(self).active_traces()[i].spans[j];
                        &&& n.end_time is Some
                        &&& n == finished_span(t.spans[j], status, n.end_time->0, match tags {
                            Some(extra) => t.spans[j].tags.union_prefer_right(extra@),
                            None => t.spans[j].tags,
                        })
                        &&& final(self).active_traces() == old(self).active_traces().update(i,
                            TraceSessionView { spans: t.spans.update(j, n), ..t })
                    },
                },
            },
    {
        if trace_id.unicode_len() == 0 || span_id.unicode_len() == 0 {
            return;
        }
        match find_trace(&self.active, trace_id) {
            Some(i) => {
                let mut t = self.active.remove(i);
                let ghost before = t@;
                match find_span(&t.spans, span_id) {
                    Some(j) => {
                        let mut sp = t.spans.remove(j);
                        let ghost o = sp@;
                        let now = now_millis();
                        sp.end_time = Some(now);
                        sp.status = status;
                        if now >= sp.start_time {
                            sp.duration_ms = Some((now as i128 - sp.start_time as i128) as u64);
                        }
                        let ghost given = tags;
                        match tags {
                            Some(extra) => { sp.tags.extend(extra); },
                            None => {},
                        }
                        let ghost n = sp@;
                        assert(n == finished_span(o, status, now, match given {
                            Some(extra) => o.tags.union_prefer_right(extra@),
                            None => o.tags,
                        }));
                        t.spans.insert(j, sp);
                        assert(t@.spans =~= before.spans.update(j as int, n));
                        self.active.insert(i, t);
                        assert(self.active_traces() =~= old(self).active_traces().update(i as int,
                            TraceSessionView { spans: before.spans.update(j as int, n), ..before }));
                    },
                    None => {
                        self.active.insert(i, t);
                        assert(self.active_traces() =~= old(self).active_traces());
                    },
                }
            },
            None => {},
        }
    }

    /// Adds a log event to the first span named `span_id` of the open trace
    /// `trace_id`. Empty ids, or ids that name no open trace or span, change
    /// nothing.
    pub fn add_span_log(
        &mut self,
        trace_id: &str,
        span_id: &str,
        level: LogLevel,
        message: String,
        fields: HashMap<String, String>,
    )
        ensures
            final(self).completed_traces() == old(self).completed_traces(),
            final(self).config_spec() == old(self).config_spec(),
            (trace_id@.len() == 0 || span_id@.len() == 0) ==> final(self).active_traces() == old(self).active_traces(),
            (trace_id@.len() > 0 && span_id@.len() > 0) ==> match first_index(trace_ids(old(self).active_traces()), trace_id@) {
                None => final(self).active_traces() == old(self).active_traces(),
                Some(i) => match first_index(span_ids(old(self).active_traces()[i].spans), span_id@) {
                    None => final(self).active_traces() == old(self).active_traces(),
                    Some(j) => {
                        let t = old(self).active_traces()[i];
                        exists|at: i64| final(self).active_traces() == old(self).active_traces().update(i,
                            TraceSessionView {
                                spans: t.spans.update(j, SpanView {
                                    logs: t.spans[j].logs.push(#[trigger] log_event(at, level, message@, fields@)),
                                    ..t.spans[j]
                                }),
                                ..t
                            })
                    },
                },
            },
    {
        if trace_id.unicode_len() == 0 || span_id.unicode_len() == 0 {
            return;
        }
        let now = now_millis();
        let ghost ev = log_event(now, level, message@, fields@);
        let event = LogEvent { timestamp: now, level, message, fields };
        match find_trace(&self.active, trace_id) {
            Some(i) => {
                let mut t = self.active.remove(i);
                let ghost before = t@;
                match find_span(&t.spans, span_id) {
                    Some(j) => {
                        let mut sp = t.spans.remove(j);
                        let ghost o = sp@;
                        sp.logs.push(event);
                        let ghost n = SpanView { logs: o.logs.push(ev), ..o };
                        assert(sp@.logs =~= o.logs.push(ev));
                        assert(sp@ == n);
                        t.spans.insert(j, sp);
                        assert(t@.spans =~= before.spans.update(j as int, n));
                        self.active.insert(i, t);
                        assert(self.active_traces() =~= old(self).active_traces().update(i as int,
                            TraceSessionView { spans: before.spans.update(j as int, n), ..before }));
                    },
                    None => {
                        self.active.insert(i, t);
                        assert(self.active_traces() =~= old(self).active_traces());
                    },
                }
            },
            None => {},
        }
    }

    /// Records an error in the open trace `trace_id` and marks the trace as
    /// failed. Nothing is recorded when error tracking is off, the trace id is
    /// empty or names no open trace.
    pub fn record_error(
        &mut self,
        trace_id: &str,
        span_id: &str,
        error_type: String,
        message: String,
        stack_trace: Option<String>,
        tags: Tags,
    )
        ensures
            final(self).completed_traces() == old(self).completed_traces(),
            final(self).config_spec() == old(self).config_spec(),
            (!old(self).config_spec().enable_error_tracking || trace_id@.len() == 0)
                ==> final(self).active_traces() == old(self).active_traces(),
            (old(self).config_spec().enable_error_tracking && trace_id@.len() > 0)
                ==> match first_index(trace_ids(old(self).active_traces()), trace_id@) {
                None => final(self).active_traces() == old(self).active_traces(),
                Some(i) => {
                    let t = old(self).active_traces()[i];
                    let e = final(self).active_traces()[i].errors.last();
                    &&& e.error_id.len() == 36
                    &&& e.span_id == span_id@
                    &&& e.error_type == error_type@
                    &&& e.message == message@
                    &&& e.stack_trace == opt_text(stack_trace)
                    &&& e.tags == tags@
                    &&& final(self).active_traces() == old(self).active_traces().update(i,
                        TraceSessionView { errors: t.errors.push(e), status: TraceStatus::Error, ..t })
                },
            },
    {
        if !self.config.enable_error_tracking || trace_id.unicode_len() == 0 {
            return;
        }
        let error = TraceError {
            error_id: new_uuid(),
            span_id: String::from_str(span_id),
            error_type,
            message,
            stack_trace,
            timestamp: now_millis(),
            tags,
        };
        let ghost e = error@;
        match find_trace(&self.active, trace_id) {
            Some(i) => {
                let mut t = self.active.remove(i);
                let ghost before = t@;
                t.errors.push(error);
                t.status = TraceStatus::Error;
                assert(t@.errors =~= before.errors.push(e));
                assert(t@ == TraceSessionView { errors: before.errors.push(e), status: TraceStatus::Error, ..before });
                self.active.insert(i, t);
                assert(self.active_traces() =~= old(self).active_traces().update(i as int,
                    TraceSessionView { errors: before.errors.push(e), status: TraceStatus::Error, ..before }));
            },
            None => {},
        }
    }

    /// Finishes the open trace `trace_id` with `status`, stores it among the
    /// finished traces (in place of a finished trace with its id, if any) and
    /// returns it. An empty id, or one that names no open trace, changes
    /// nothing.
    pub fn finish_trace(&mut self, trace_id: &str, status: TraceStatus) -> (r: Option<TraceSession>)
        ensures
            final(self).config_spec() == old(self).config_spec(),
            match (if trace_id@.len() == 0 { None } else { first_index(trace_ids(old(self).active_traces()), trace_id@) }) {
                None => r is None && final(self).active_traces() == old(self).active_traces()
                    && final(self).completed_traces() == old(self).completed_traces(),
                Some(i) => r matches Some(f) && ({
                    let t = old(self).active_traces()[i];
                    &&& f@.end_time is Some
                    &&& f@ == TraceSessionView { end_time: f@.end_time, status, ..t }
                    &&& final(self).active_traces() == old(self).active_traces().remove(i)
                    &&& final(self).completed_traces() == put_trace(old(self).completed_traces(), f@)
                }),
            },
    {
        if trace_id.unicode_len() == 0 {
            return None;
        }
        match find_trace(&self.active, trace_id) {
            Some(i) => {
                let mut t = self.active.remove(i);
                assert(self.active_traces() =~= old(self).active_traces().remove(i as int));
                t.end_time = Some(now_millis());
                t.status = status;
                let stored = t.clone();
                let ghost f = t@;
                let id = t.trace_id.clone();
                match find_trace(&self.completed, id.as_str()) {
                    Some(k) => {
                        self.completed.set(k, stored);
                        assert(self.completed_traces() =~= old(self).completed_traces().update(k as int, f));
                    },
                    None => {
                        self.completed.push(stored);
                        assert(self.completed_traces() =~= old(self).completed_traces().push(f));
                    },
                }
                Some(t)
            },
            None => None,
        }
    }

    /// The finished traces that answer a query: of `service_name` if given,
    /// else of `operation_name` if given; of `status` if given; started within
    /// `time_range` if given. At most `limit` of them (at least one is let
    /// through even for a limit of zero) are taken in the order they were
    /// stored, then ordered by start, latest first.
    pub fn query_traces(
        &self,
        service_name: Option<&str>,
        operation_name: Option<&str>,
        status: Option<TraceStatus>,
        time_range: Option<(i64, i64)>,
        limit: Option<usize>,
    ) -> (r: Vec<TraceSession>)
        ensures
            trace_views(r@) == query_result(self.completed_traces(), opt_str(service_name), opt_str(operation_name),
                status, time_range, limit),
    {
        let ghost keep = |t: TraceSessionView| answers(t, opt_str(service_name), opt_str(operation_name), status, time_range);
        let ghost all = self.completed_traces();
        let n = self.completed.len();
        let mut found: Vec<TraceSession> = Vec::new();
        let mut i: usize = 0;
        while i < n
            invariant
                n == self.completed@.len(),
                all == self.completed_traces(),
                keep == (|t: TraceSessionView| answers(t, opt_str(service_name), opt_str(operation_name), status, time_range)),
                i <= n,
                trace_views(found@) == filter_traces(all.take(i as int), keep),
            decreases n - i,
        {
            assert(all.take(i + 1).drop_last() =~= all.take(i as int));
            assert(all.take(i + 1).last() == all[i as int]);
            if answers_query(&self.completed[i], service_name, operation_name, status, time_range) {
                let t = self.completed[i].clone();
                found.push(t);
                assert(trace_views(found@) =~= filter_traces(all.take(i as int), keep).push(all[i as int]));
            }
            i = i + 1;
        }
        assert(all.take(n as int) =~= all);
        let ghost f = trace_views(found@);
        match limit {
            Some(l) => {
                let k: usize = if l == 0 { 1 } else { l };
                if k <= found.len() {
                    found.truncate(k);
                    assert(trace_views(found@) =~= f.take(k as int));
                }
            },
            None => {},
        }
        sort_traces_by_start(found)
    }

    /// Counts over the open and finished traces.
    pub fn get_trace_statistics(&self) -> (r: TraceStatistics)
        requires
            self.completed_traces().len() + self.active_traces().len() <= usize::MAX,
        ensures
            r.completed_traces == self.completed_traces().len(),
            r.active_traces == self.active_traces().len(),
            r.total_traces == self.completed_traces().len() + self.active_traces().len(),
            r.error_traces == count_status(self.completed_traces(), TraceStatus::Error),
            tally_view(r.service_counts@) == service_tally(self.completed_traces()),
    {
        let ghost all = self.completed_traces();
        let n = self.completed.len();
        let mut errors: usize = 0;
        let mut tally: Vec<(String, usize)> = Vec::new();
        let mut i: usize = 0;
        while i < n
            invariant
                n == self.completed@.len(),
                all == self.completed_traces(),
                i <= n,
                errors <= i,
                errors == count_status(all.take(i as int), TraceStatus::Error),
                tally_view(tally@) == service_tally(all.take(i as int)),
                forall|j: int| 0 <= j < tally@.len() ==> #[trigger] tally@[j].1 <= i,
            decreases n - i,
        {
            assert(all.take(i + 1).drop_last() =~= all.take(i as int));
            assert(all.take(i + 1).last() == all[i as int]);
            if self.completed[i].status == TraceStatus::Error {
                errors = errors + 1;
            }
            let ghost before = tally_view(tally@);
            let name = self.completed[i].service_name.as_str();
            let mut k: usize = 0;
            let mut found: Option<usize> = None;
            while k < tally.len() && found.is_none()
                invariant
                    k <= tally@.len(),
                    before == tally_view(tally@),
                    found is None ==> forall|m: int| 0 <= m < k ==> tally_names(before)[m] != name@,
                    found matches Some(j) ==> j < tally@.len() && first_at(tally_names(before), name@, j as int),
                decreases tally@.len() - k,
            {
                if crate::text::same_text(tally[k].0.as_str(), name) {
                    assert(first_at(tally_names(before), name@, k as int));
                    found = Some(k);
                }
                k = k + 1;
            }
            match found {
                Some(j) => {
                    proof {
                        lemma_first_index(tally_names(before), name@, j as int);
                    }
                    let (label, count) = tally.remove(j);
                    tally.insert(j, (label, count + 1));
                    assert(tally_view(tally@) =~= tally_add(before, name@));
                },
                None => {
                    proof {
                        lemma_no_first_index(tally_names(before), name@);
                    }
                    tally.push((String::from_str(name), 1));
                    assert(tally_view(tally@) =~= tally_add(before, name@));
                },
            }
            i = i + 1;
        }
        assert(all.take(n as int) =~= all);
        TraceStatistics {
            total_traces: n + self.active.len(),
            completed_traces: n,
            active_traces: self.active.len(),
            error_traces: errors,
            service_counts: tally,
        }
    }

    /// Forgets the finished traces started more than the retention time
    /// before `now` (milliseconds since the Unix epoch); returns how many.
    pub fn cleanup_expired_traces_at(&mut self, now: i64) -> (r: usize)
        ensures
            final(self).config_spec() == old(self).config_spec(),
            final(self).active_traces() == old(self).active_traces(),
            final(self).completed_traces() == filter_traces(old(self).completed_traces(),
                unexpired(now, old(self).config_spec())),
            r == old(self).completed_traces().len() - final(self).completed_traces().len(),
    {
        let cutoff: i128 = now as i128 - (self.config.retention_hours as i128) * 3_600_000;
        let ghost keep = unexpired(now, old(self).config_spec());
        let ghost all = self.completed_traces();
        let n = self.completed.len();
        let mut rest = Vec::new();
        std::mem::swap(&mut rest, &mut self.completed);
        assert(trace_views(rest@) == all);
        let mut kept: Vec<TraceSession> = Vec::new();
        let mut i: usize = 0;
        while i < n
            invariant
                n == all.len(),
                i <= n,
                trace_views(rest@) == all.skip(i as int),
                rest@.len() == n - i,
                cutoff == retention_cutoff(now, old(self).config_spec()),
                keep == unexpired(now, old(self).config_spec()),
                trace_views(kept@) == filter_traces(all.take(i as int), keep),
                kept@.len() <= i,
            decreases n - i,
        {
            assert(all.take(i + 1).drop_last() =~= all.take(i as int));
            assert(all.take(i + 1).last() == all[i as int]);
            assert(all.skip(i as int)[0] == all[i as int]);
            assert(trace_views(rest@)[0] == rest@[0]@);
            let ghost prev = rest@;
            let t = rest.remove(0);
            assert(t@ == all[i as int]);
            assert forall|k: int| 0 <= k < rest@.len() implies #[trigger] trace_views(rest@)[k] == all.skip(i + 1)[k] by {
                assert(rest@[k] == prev[k + 1]);
                assert(trace_views(prev)[k + 1] == prev[k + 1]@);
            }
            assert(trace_views(rest@) =~= all.skip(i + 1));
            if t.start_time as i128 >= cutoff {
                kept.push(t);
                assert(trace_views(kept@) =~= filter_traces(all.take(i as int), keep).push(all[i as int]));
            }
            i = i + 1;
        }
        assert(all.take(n as int) =~= all);
        let removed = n - kept.len();
        self.completed = kept;
        removed
    }

    /// Forgets the finished traces started more than the retention time ago;
    /// returns how many.
    pub fn cleanup_expired_traces(&mut self) -> (r: usize)
        ensures
            final(self).config_spec() == old(self).config_spec(),
            final(self).active_traces() == old(self).active_traces(),
            exists|now: i64| final(self).completed_traces() == filter_traces(old(self).completed_traces(),
                #[trigger] unexpired(now, old(self).config_spec())),
            r == old(self).completed_traces().len() - final(self).completed_traces().len(),
    {
        let now = now_millis();
        self.cleanup_expired_traces_at(now)
    }
}

/// The earliest start a finished trace may have at `now` and still be kept.
pub open spec fn retention_cutoff(now: i64, config: TracingConfig) -> int {
    now - config.retention_hours * 3_600_000
}

/// Whether a finished trace is still kept at `now`.
pub open spec fn unexpired(now: i64, config: TracingConfig) -> spec_fn(TraceSessionView) -> bool {
    |t: TraceSessionView| t.start_time >= retention_cutoff(now, config)
}

/// The view of an optional text slice.
pub open spec fn opt_str(o: Option<&str>) -> Option<Seq<char>> {
    match o {
        Some(s) => Some(s@),
        None => None,
    }
}

fn answers_query(
    t: &TraceSession,
    service: Option<&str>,
    operation: Option<&str>,
    status: Option<TraceStatus>,
    range: Option<(i64, i64)>,
) -> (r: bool)
    ensures
        r == answers(t@, opt_str(service), opt_str(operation), status, range),
{
    let named = match service {
        Some(s) => crate::text::same_text(t.service_name.as_str(), s),
        None => match operation {
            Some(o) => crate::text::same_text(t.operation_name.as_str(), o),
            None => true,
        },
    };
    let in_status = match status {
        Some(st) => t.status == st,
        None => true,
    };
    let in_range = match range {
        Some((from, to)) => from <= t.start_time && t.start_time <= to,
        None => true,
    };
    named && in_status && in_range
}

/// Whether `j` is where `x` goes into `s` (started latest first): after every
/// trace started no earlier than it.
pub open spec fn insert_position(s: Seq<TraceSessionView>, x: TraceSessionView, j: int) -> bool {
    &&& 0 <= j <= s.len()
    &&& forall|k: int| 0 <= k < j ==> s[k].start_time >= x.start_time
    &&& j < s.len() ==> s[j].start_time < x.start_time
}

proof fn lemma_insert_by_start(s: Seq<TraceSessionView>, x: TraceSessionView, j: int)
    requires
        insert_position(s, x, j),
    ensures
        insert_by_start(s, x) == s.insert(j, x),
    decreases s.len(),
{
    if s.len() == 0 {
        assert(s.insert(j, x) =~= seq![x]);
    } else if s[0].start_time < x.start_time {
        assert(j == 0);
        assert(s.insert(0, x) =~= seq![x] + s);
    } else {
        assert(j >= 1);
        let rest = s.drop_first();
        assert(insert_position(rest, x, j - 1)) by {
            assert forall|k: int| 0 <= k < j - 1 implies rest[k].start_time >= x.start_time by {
                assert(rest[k] == s[k + 1]);
            }
            if j - 1 < rest.len() {
                assert(rest[j - 1] == s[j]);
            }
        }
        lemma_insert_by_start(rest, x, j - 1);
        assert(seq![s[0]] + rest.insert(j - 1, x) =~= s.insert(j, x));
    }
}

fn sort_traces_by_start(v: Vec<TraceSession>) -> (r: Vec<TraceSession>)
    ensures
        trace_views(r@) == sort_by_start(trace_views(v@)),
{
    let ghost all = trace_views(v@);
    let n = v.len();
    let mut rest = v;
    let mut out: Vec<TraceSession> = Vec::new();
    let mut i: usize = 0;
    assert(all.take(0) =~= Seq::<TraceSessionView>::empty());
    assert(all.skip(0) =~= all);
    while i < n
        invariant
            n == all.len(),
            i <= n,
            trace_views(rest@) == all.skip(i as int),
            rest@.len() == n - i,
            trace_views(out@) == sort_by_start(all.take(i as int)),
        decreases n - i,
    {
        assert(all.skip(i as int)[0] == all[i as int]);
        assert(trace_views(rest@)[0] == rest@[0]@);
        let ghost prev = rest@;
        let x = rest.remove(0);
        assert(x@ == all[i as int]);
        assert forall|k: int| 0 <= k < rest@.len() implies #[trigger] trace_views(rest@)[k] == all.skip(i + 1)[k] by {
            assert(rest@[k] == prev[k + 1]);
            assert(trace_views(prev)[k + 1] == prev[k + 1]@);
        }
        assert(trace_views(rest@) =~= all.skip(i + 1));
        let ghost sorted = trace_views(out@);
        let mut j: usize = 0;
        while j < out.len() && out[j].start_time >= x.start_time
            invariant
                j <= out@.len(),
                sorted == trace_views(out@),
                forall|k: int| 0 <= k < j ==> sorted[k].start_time >= x.start_time,
            decreases out@.len() - j,
        {
            j = j + 1;
        }
        proof {
            assert(insert_position(sorted, x@, j as int));
            lemma_insert_by_start(sorted, x@, j as int);
            assert(all.take(i + 1).drop_last() =~= all.take(i as int));
            assert(all.take(i + 1).last() == all[i as int]);
        }
        out.insert(j, x);
        assert(trace_views(out@) =~= sorted.insert(j as int, all[i as int]));
        i = i + 1;
    }
    assert(all.take(n as int) =~= all);
    out
}

/// Whether traces are ordered by start, latest first.
pub open spec fn latest_first(s: Seq<TraceSessionView>) -> bool {
    forall|i: int, j: int| 0 <= i < j < s.len() ==> s[i].start_time >= s[j].start_time
}

proof fn lemma_insert_by_start_keeps(s: Seq<TraceSessionView>, x: TraceSessionView)
    ensures
        insert_by_start(s, x).len() == s.len() + 1,
        insert_by_start(s, x).contains(x),
        forall|k: int| 0 <= k < s.len() ==> insert_by_start(s, x).contains(#[trigger] s[k]),
        forall|k: int| 0 <= k < insert_by_start(s, x).len() ==> (#[trigger] insert_by_start(s, x)[k] == x || s.contains(insert_by_start(s, x)[k])),
        latest_first(s) ==> latest_first(insert_by_start(s, x)),
    decreases s.len(),
{
    let r = insert_by_start(s, x);
    if s.len() == 0 {
        assert(r[0] == x);
    } else if s[0].start_time < x.start_time {
        assert(r[0] == x);
        assert forall|k: int| 0 <= k < s.len() implies r.contains(#[trigger] s[k]) by {
            assert(r[k + 1] == s[k]);
        }
        assert forall|k: int| 0 <= k < r.len() implies (#[trigger] r[k] == x || s.contains(r[k])) by {
            if k > 0 {
                assert(r[k] == s[k - 1]);
            }
        }
    } else {
        let rest = s.drop_first();
        lemma_insert_by_start_keeps(rest, x);
        let ri = insert_by_start(rest, x);
        assert(r == seq![s[0]] + ri);
        let j = choose|j: int| 0 <= j < ri.len() && ri[j] == x;
        assert(r[j + 1] == x);
        assert forall|k: int| 0 <= k < s.len() implies r.contains(#[trigger] s[k]) by {
            if k == 0 {
                assert(r[0] == s[0]);
            } else {
                assert(s[k] == rest[k - 1]);
                assert(ri.contains(rest[k - 1]));
                let m = choose|m: int| 0 <= m < ri.len() && ri[m] == rest[k - 1];
                assert(r[m + 1] == s[k]);
            }
        }
        assert forall|k: int| 0 <= k < r.len() implies (#[trigger] r[k] == x || s.contains(r[k])) by {
            if k == 0 {
                assert(s[0] == r[0]);
            } else {
                assert(r[k] == ri[k - 1]);
                if ri[k - 1] != x {
                    assert(rest.contains(ri[k - 1]));
                    let m = choose|m: int| 0 <= m < rest.len() && rest[m] == ri[k - 1];
                    assert(s[m + 1] == r[k]);
                }
            }
        }
        if latest_first(s) {
            assert(latest_first(rest)) by {
                assert forall|a: int, b: int| 0 <= a < b < rest.len() implies rest[a].start_time >= rest[b].start_time by {
                    assert(rest[a] == s[a + 1] && rest[b] == s[b + 1]);
                }
            }
            assert forall|a: int, b: int| 0 <= a < b < r.len() implies r[a].start_time >= r[b].start_time by {
                if a == 0 {
                    assert(r[b] == ri[b - 1]);
                    if ri[b - 1] != x {
                        let m = choose|m: int| 0 <= m < rest.len() && rest[m] == ri[b - 1];
                        assert(rest[m] == s[m + 1]);
                    }
                } else {
                    assert(r[a] == ri[a - 1] && r[b] == ri[b - 1]);
                }
            }
        }
    }
}

proof fn lemma_sort_by_start(s: Seq<TraceSessionView>)
    ensures
        sort_by_start(s).len() == s.len(),
        latest_first(sort_by_start(s)),
        forall|k: int| 0 <= k < s.len() ==> sort_by_start(s).contains(#[trigger] s[k]),
        forall|k: int| 0 <= k < s.len() ==> s.contains(#[trigger] sort_by_start(s)[k]),
    decreases s.len(),
{
    if s.len() > 0 {
        let init = s.drop_last();
        lemma_sort_by_start(init);
        let si = sort_by_start(init);
        lemma_insert_by_start_keeps(si, s.last());
        assert forall|k: int| 0 <= k < s.len() implies sort_by_start(s).contains(#[trigger] s[k]) by {
            if k < init.len() {
                assert(s[k] == init[k]);
                let m = choose|m: int| 0 <= m < si.len() && si[m] == init[k];
                assert(insert_by_start(si, s.last()).contains(si[m]));
            }
        }
        let r = sort_by_start(s);
        assert forall|k: int| 0 <= k < s.len() implies s.contains(#[trigger] r[k]) by {
            if r[k] == s.last() {
                assert(s[s.len() - 1] == s.last());
            } else {
                assert(si.contains(r[k]));
                let m = choose|m: int| 0 <= m < si.len() && si[m] == r[k];
                assert(init.contains(si[m]));
                let q = choose|q: int| 0 <= q < init.len() && init[q] == si[m];
                assert(s[q] == init[q]);
            }
        }
    }
}

proof fn lemma_filter_traces_keeps(s: Seq<TraceSessionView>, keep: spec_fn(TraceSessionView) -> bool, k: int)
    requires
        0 <= k < s.len(),
        keep(s[k]),
    ensures
        filter_traces(s, keep).contains(s[k]),
    decreases s.len(),
{
    let init = s.drop_last();
    if k < init.len() {
        lemma_filter_traces_keeps(init, keep, k);
        let f = filter_traces(init, keep);
        let m = choose|m: int| 0 <= m < f.len() && f[m] == init[k];
        assert(filter_traces(s, keep)[m] == s[k]);
    } else {
        let f = filter_traces(s, keep);
        assert(f[f.len() - 1] == s[k]);
    }
}

/// What a query returns is ordered by start, latest first, and, without a
/// limit, holds every stored trace that answers the query.
pub proof fn lemma_query_result(
    s: Seq<TraceSessionView>,
    service: Option<Seq<char>>,
    operation: Option<Seq<char>>,
    status: Option<TraceStatus>,
    range: Option<(i64, i64)>,
    limit: Option<usize>,
)
    ensures
        latest_first(query_result(s, service, operation, status, range, limit)),
        limit is None ==> forall|k: int| 0 <= k < s.len() && answers(#[trigger] s[k], service, operation, status, range)
            ==> query_result(s, service, operation, status, range, limit).contains(s[k]),
{
    let keep = |t: TraceSessionView| answers(t, service, operation, status, range);
    let found = filter_traces(s, keep);
    let kept = match limit {
        Some(n) => {
            let k: int = if n == 0 { 1 } else { n as int };
            if k <= found.len() { found.take(k) } else { found }
        },
        None => found,
    };
    lemma_sort_by_start(kept);
    if limit is None {
        assert forall|k: int| 0 <= k < s.len() && answers(#[trigger] s[k], service, operation, status, range)
            implies query_result(s, service, operation, status, range, limit).contains(s[k]) by {
            lemma_filter_traces_keeps(s, keep, k);
            let m = choose|m: int| 0 <= m < found.len() && found[m] == s[k];
            assert(sort_by_start(found).contains(found[m]));
        }
    }
}

proof fn lemma_filter_traces_sound(s: Seq<TraceSessionView>, keep: spec_fn(TraceSessionView) -> bool)
    ensures
        forall|k: int| 0 <= k < filter_traces(s, keep).len() ==> keep(#[trigger] filter_traces(s, keep)[k])
            && s.contains(filter_traces(s, keep)[k]),
    decreases s.len(),
{
    if s.len() > 0 {
        let init = s.drop_last();
        lemma_filter_traces_sound(init, keep);
        let f = filter_traces(init, keep);
        let g = filter_traces(s, keep);
        assert forall|k: int| 0 <= k < g.len() implies keep(#[trigger] g[k]) && s.contains(g[k]) by {
            if k < f.len() {
                assert(g[k] == f[k]);
                let q = choose|q: int| 0 <= q < init.len() && init[q] == f[k];
                assert(s[q] == init[q]);
            } else {
                assert(g[k] == s.last());
                assert(s[s.len() - 1] == s.last());
            }
        }
    }
}

/// Every trace a query returns is a stored trace that meets each filter
/// given: of the service asked for (else of the operation asked for), with
/// the status asked for, and started within the time range asked for.
pub proof fn lemma_query_result_sound(
    s: Seq<TraceSessionView>,
    service: Option<Seq<char>>,
    operation: Option<Seq<char>>,
    status: Option<TraceStatus>,
    range: Option<(i64, i64)>,
    limit: Option<usize>,
)
    ensures
        forall|k: int| 0 <= k < query_result(s, service, operation, status, range, limit).len() ==> {
            let t = #[trigger] query_result(s, service, operation, status, range, limit)[k];
            &&& s.contains(t)
            &&& (status matches Some(st) ==> t.status == st)
            &&& (service matches Some(sv) ==> t.service_name == sv)
            &&& (service is None ==> (operation matches Some(op) ==> t.operation_name == op))
            &&& (range matches Some((from, to)) ==> from <= t.start_time && t.start_time <= to)
        },
{
    let keep = |t: TraceSessionView| answers(t, service, operation, status, range);
    let found = filter_traces(s, keep);
    let kept = match limit {
        Some(n) => {
            let k: int = if n == 0 { 1 } else { n as int };
            if k <= found.len() { found.take(k) } else { found }
        },
        None => found,
    };
    lemma_filter_traces_sound(s, keep);
    lemma_sort_by_start(kept);
    let r = query_result(s, service, operation, status, range, limit);
    assert(r == sort_by_start(kept));
    assert forall|k: int| 0 <= k < r.len() implies keep(#[trigger] r[k]) && s.contains(r[k]) by {
        assert(kept.contains(r[k]));
        let q = choose|q: int| 0 <= q < kept.len() && kept[q] == r[k];
        assert(found[q] == kept[q]);
    }
}

} // verus!
