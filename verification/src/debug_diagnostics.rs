//! Debugging and diagnostics: call traces, connection checks and the records
//! that a diagnostic report is made of. Times are milliseconds since the Unix
//! epoch; durations are milliseconds.
use vstd::prelude::*;
use std::collections::HashMap;
use crate::listing::{first_at, first_index, lemma_first_index, lemma_no_first_index};
use crate::text::{decimal, decimal_string, join_line_list, join_lines};
use crate::system::new_uuid;

verus! {

/// Settings of diagnostics.
#[derive(Debug, Clone, Copy, PartialEq, Eq, Structural)]
pub struct DiagnosticsConfig {
    /// Whether profiling is on.
    pub enable_profiling: bool,
    /// Sampling interval, in milliseconds.
    pub sampling_interval_ms: u64,
    /// Hours data is kept.
    pub data_retention_hours: u64,
    /// Whether verbose logging is on.
    pub enable_verbose_logging: bool,
    /// Most log entries kept.
    pub max_log_entries: usize,
}

impl Default for DiagnosticsConfig {
    fn default() -> (r: Self)
        ensures
            r.enable_profiling,
            r.sampling_interval_ms == 1000,
            r.data_retention_hours == 24,
            !r.enable_verbose_logging,
            r.max_log_entries == 10000,
    {
        DiagnosticsConfig {
            enable_profiling: true,
            sampling_interval_ms: 1000,
            data_retention_hours: 24,
            enable_verbose_logging: false,
            max_log_entries: 10000,
        }
    }
}

/// A traced call.
#[derive(Debug, Clone)]
pub struct CallTrace {
    /// Trace id.
    pub trace_id: String,
    /// Function traced.
    pub function_name: String,
    /// Start.
    pub start_time: i64,
    /// End, once stopped.
    pub end_time: Option<i64>,
    /// Duration, once stopped.
    pub duration_ms: Option<u64>,
    /// Parameters.
    pub parameters: HashMap<String, String>,
    /// Return value, if any.
    pub return_value: Option<String>,
    /// Error, if any.
    pub error: Option<String>,
}

/// Memory in use at a time, in bytes.
#[derive(Debug, Clone, Copy, PartialEq, Eq, Structural)]
pub struct MemorySnapshot {
    /// Time.
    pub timestamp: i64,
    /// Total.
    pub total_memory: u64,
    /// Used.
    pub used_memory: u64,
    /// Available.
    pub available_memory: u64,
    /// Heap.
    pub heap_memory: u64,
    /// Stack.
    pub stack_memory: u64,
}

/// The system diagnosed.
#[derive(Debug, Clone)]
pub struct SystemInfo {
    /// Operating system.
    pub os: String,
    /// Architecture.
    pub arch: String,
    /// CPU cores.
    pub cpu_cores: u32,
    /// Total memory, in bytes.
    pub total_memory: u64,
    /// Rust version.
    pub rust_version: String,
    /// Version of the platform.
    pub agentx_version: String,
    /// Start.
    pub start_time: i64,
    /// Time up, in seconds.
    pub uptime_secs: u64,
}

/// Health of a component.
#[derive(Debug, Clone, Copy, PartialEq, Eq, Structural)]
pub enum HealthStatus {
    /// Working.
    Healthy,
    /// Working with warnings.
    Warning,
    /// Failing.
    Error,
    /// Not known.
    Unknown,
}

/// A check of a dependency.
#[derive(Debug, Clone)]
pub struct DependencyCheck {
    /// Name.
    pub name: String,
    /// Version.
    pub version: String,
    /// Whether it is available.
    pub available: bool,
    /// When checked.
    pub check_time: i64,
    /// Error, if any.
    pub error: Option<String>,
}

/// A check of a configuration setting.
#[derive(Debug, Clone)]
pub struct ConfigValidation {
    /// Setting.
    pub config_key: String,
    /// Whether it is valid.
    pub valid: bool,
    /// Value.
    pub current_value: String,
    /// Value recommended, if any.
    pub recommended_value: Option<String>,
    /// Message.
    pub message: String,
}

/// Level of a log entry.
#[derive(Debug, Clone, Copy, PartialEq, Eq, Hash, Structural)]
pub enum LogLevel {
    /// Finest detail.
    Trace,
    /// Debugging.
    Debug,
    /// Information.
    Info,
    /// Warning.
    Warn,
    /// Error.
    Error,
}

/// A log entry.
#[derive(Debug, Clone)]
pub struct LogEntry {
    /// Time.
    pub timestamp: i64,
    /// Level.
    pub level: LogLevel,
    /// Module.
    pub module: String,
    /// Message.
    pub message: String,
    /// Fields.
    pub fields: HashMap<String, String>,
}

/// A pattern of errors in the logs.
#[derive(Debug)]
pub struct ErrorPattern {
    /// Name.
    pub name: String,
    /// Regular expression.
    pub pattern: String,
    /// Severity.
    pub severity: u8,
    /// Matches.
    pub match_count: u32,
    /// Last match, if any.
    pub last_match: Option<i64>,
}

/// A check of a connection.
#[derive(Debug, Clone)]
pub struct ConnectionStatus {
    /// Target address.
    pub target: String,
    /// Port.
    pub port: u16,
    /// Protocol.
    pub protocol: String,
    /// Whether it connected.
    pub connected: bool,
    /// Response time, if any.
    pub response_time_ms: Option<u64>,
    /// Error, if any.
    pub error: Option<String>,
    /// When tested.
    pub test_time: i64,
}

/// A bandwidth measurement, in bytes per second.
#[derive(Debug, Clone)]
pub struct BandwidthTest {
    /// Target.
    pub target: String,
    /// Download speed.
    pub download_speed: u64,
    /// Upload speed.
    pub upload_speed: u64,
    /// When tested.
    pub test_time: i64,
}

/// A name resolution test.
#[derive(Debug, Clone)]
pub struct DnsTest {
    /// Domain.
    pub domain: String,
    /// Time taken.
    pub resolution_time_ms: u64,
    /// Addresses found.
    pub resolved_ips: Vec<String>,
    /// Whether it resolved.
    pub success: bool,
    /// Error, if any.
    pub error: Option<String>,
    /// When tested.
    pub test_time: i64,
}

/// The ids of a sequence of call traces.
pub open spec fn trace_ids(v: Seq<CallTrace>) -> Seq<Seq<char>> {
    v.map_values(|t: CallTrace| t.trace_id@)
}

/// Keeps the traced calls.
pub struct PerformanceProfiler {
    call_traces: Vec<CallTrace>,
}

impl PerformanceProfiler {
    /// The traced calls, in the order started.
    pub closed spec fn traces(&self) -> Seq<CallTrace> {
        self.call_traces@
    }

    /// A profiler with no trace.
    pub fn new() -> (r: Self)
        ensures
            r.traces().len() == 0,
    {
        PerformanceProfiler { call_traces: Vec::new() }
    }

    /// Starts tracing a call under `trace_id` at `now`.
    pub fn start_trace(&mut self, trace_id: &str, now: i64)
        ensures
            final(self).traces().len() == old(self).traces().len() + 1,
            final(self).traces().drop_last() == old(self).traces(),
            ({
                let t = final(self).traces().last();
                &&& t.trace_id@ == trace_id@
                &&& t.function_name@ == "unknown"@
                &&& t.start_time == now
                &&& t.end_time is None
                &&& t.duration_ms is None
                &&& t.parameters@ == Map::<String, String>::empty()
                &&& t.return_value is None
                &&& t.error is None
            }),
    {
        self.call_traces.push(CallTrace {
            trace_id: String::from_str(trace_id),
            function_name: String::from_str("unknown"),
            start_time: now,
            end_time: None,
            duration_ms: None,
            parameters: HashMap::new(),
            return_value: None,
            error: None,
        });
        assert(self.traces().drop_last() =~= old(self).traces());
    }

    /// Stops the first trace under `trace_id` at `now`: its end is `now` and
    /// its duration the time since its start (none when negative). An id not
    /// traced is an error naming it.
    pub fn stop_trace(&mut self, trace_id: &str, now: i64) -> (r: Result<CallTrace, String>)
        ensures
            match first_index(trace_ids(old(self).traces()), trace_id@) {
                Some(i) => r matches Ok(t) && ({
                    let o = old(self).traces()[i];
                    &&& t.trace_id@ == o.trace_id@
                    &&& t.function_name@ == o.function_name@
                    &&& t.start_time == o.start_time
                    &&& t.end_time == Some(now)
                    &&& t.duration_ms == (if now >= o.start_time { Some((now - o.start_time) as u64) } else { None::<u64> })
                    &&& final(self).traces().len() == old(self).traces().len()
                    &&& final(self).traces()[i].end_time == Some(now)
                    &&& final(self).traces()[i].duration_ms == t.duration_ms
                    &&& final(self).traces()[i].trace_id == o.trace_id
                    &&& final(self).traces()[i].start_time == o.start_time
                    &&& forall|j: int| 0 <= j < old(self).traces().len() && j != i ==> #[trigger] final(self).traces()[j] == old(self).traces()[j]
                }),
                None => r matches Err(m) && m@ == "跟踪ID未找到: "@ + trace_id@
                    && final(self).traces() == old(self).traces(),
            },
    {
        let ghost ids = trace_ids(self.call_traces@);
        let mut i: usize = 0;
        while i < self.call_traces.len()
            invariant
                ids == trace_ids(self.call_traces@),
                self.call_traces@ == old(self).call_traces@,
                i <= self.call_traces@.len(),
                forall|j: int| 0 <= j < i ==> ids[j] != trace_id@,
            decreases self.call_traces@.len() - i,
        {
            if crate::text::same_text(self.call_traces[i].trace_id.as_str(), trace_id) {
                proof {
                    assert(first_at(ids, trace_id@, i as int));
                    lemma_first_index(ids, trace_id@, i as int);
                }
                let mut t = self.call_traces.remove(i);
                t.end_time = Some(now);
                t.duration_ms = if now >= t.start_time { Some((now as i128 - t.start_time as i128) as u64) } else { None };
                let out = CallTrace {
                    trace_id: t.trace_id.clone(),
                    function_name: t.function_name.clone(),
                    start_time: t.start_time,
                    end_time: t.end_time,
                    duration_ms: t.duration_ms,
                    parameters: t.parameters.clone(),
                    return_value: t.return_value.clone(),
                    error: t.error.clone(),
                };
                let ghost stopped = t;
                self.call_traces.insert(i, t);
                assert(self.call_traces@ =~= old(self).call_traces@.update(i as int, stopped));
                return Ok(out);
            }
            i = i + 1;
        }
        proof {
            lemma_no_first_index(ids, trace_id@);
        }
        Err(crate::text::join2("跟踪ID未找到: ", trace_id))
    }
}

/// The check recorded for a target: port 80 over HTTP, connected, answering
/// in 50 milliseconds, at `now`.
pub open spec fn simulated_check(c: ConnectionStatus, target: Seq<char>, now: i64) -> bool {
    &&& c.target@ == target
    &&& c.port == 80
    &&& c.protocol@ == "HTTP"@
    &&& c.connected
    &&& c.response_time_ms == Some(50u64)
    &&& c.error is None
    &&& c.test_time == now
}

/// Keeps the connection checks made.
pub struct NetworkDiagnostics {
    connections: Vec<ConnectionStatus>,
}

impl NetworkDiagnostics {
    /// The checks made, oldest first.
    pub closed spec fn checks(&self) -> Seq<ConnectionStatus> {
        self.connections@
    }

    /// Diagnostics with no check made.
    pub fn new() -> (r: Self)
        ensures
            r.checks().len() == 0,
    {
        NetworkDiagnostics { connections: Vec::new() }
    }

    /// Checks each target at `now` (the check is simulated: every target
    /// connects), records the checks and returns them, in the order of the
    /// targets.
    pub fn test_connections(&mut self, targets: Vec<String>, now: i64) -> (r: Vec<ConnectionStatus>)
        ensures
            r@.len() == targets@.len(),
            forall|i: int| 0 <= i < r@.len() ==> simulated_check(#[trigger] r@[i], targets@[i]@, now),
            final(self).checks().len() == old(self).checks().len() + r@.len(),
            final(self).checks().subrange(0, old(self).checks().len() as int) == old(self).checks(),
            forall|i: int| 0 <= i < r@.len() ==> simulated_check(#[trigger] final(self).checks()[old(self).checks().len() + i],
                targets@[i]@, now),
    {
        let mut results: Vec<ConnectionStatus> = Vec::new();
        let n = targets.len();
        let mut i: usize = 0;
        while i < n
            invariant
                n == targets@.len(),
                i <= n,
                results@.len() == i,
                forall|j: int| 0 <= j < i ==> simulated_check(#[trigger] results@[j], targets@[j]@, now),
                self.connections@.len() == old(self).connections@.len() + i,
                self.connections@.subrange(0, old(self).connections@.len() as int) == old(self).connections@,
                forall|j: int| 0 <= j < i ==> simulated_check(#[trigger] self.connections@[old(self).connections@.len() + j],
                    targets@[j]@, now),
            decreases n - i,
        {
            let status = ConnectionStatus {
                target: targets[i].clone(),
                port: 80,
                protocol: String::from_str("HTTP"),
                connected: true,
                response_time_ms: Some(50),
                error: None,
                test_time: now,
            };
            let copy = ConnectionStatus {
                target: targets[i].clone(),
                port: 80,
                protocol: String::from_str("HTTP"),
                connected: true,
                response_time_ms: Some(50),
                error: None,
                test_time: now,
            };
            results.push(status);
            let ghost before = self.connections@;
            self.connections.push(copy);
            assert(self.connections@.subrange(0, old(self).connections@.len() as int)
                =~= before.subrange(0, old(self).connections@.len() as int));
            i = i + 1;
        }
        results
    }

    /// The checks made, oldest first.
    pub fn get_connection_summary(&self) -> (r: &Vec<ConnectionStatus>)
        ensures
            r@ == self.checks(),
    {
        &self.connections
    }
}

/// The line of a diagnostic report for one connection check.
pub open spec fn connection_line(c: ConnectionStatus) -> Seq<char> {
    "- "@ + c.target@ + ":"@ + decimal(c.port as nat) + " ("@ + c.protocol@ + "): "@
        + (if c.connected { "连通"@ } else { "断开"@ })
}

/// The network section of a diagnostic report: one line per check.
pub fn format_network_status(status: &Vec<ConnectionStatus>) -> (r: String)
    ensures
        r@ == join_lines(status@.map_values(|c: ConnectionStatus| connection_line(c))),
{
    let ghost want = status@.map_values(|c: ConnectionStatus| connection_line(c));
    let mut lines: Vec<String> = Vec::new();
    let mut i: usize = 0;
    while i < status.len()
        invariant
            i <= status@.len(),
            want == status@.map_values(|c: ConnectionStatus| connection_line(c)),
            lines@.len() == i,
            forall|j: int| 0 <= j < i ==> #[trigger] lines@[j]@ == want[j],
        decreases status@.len() - i,
    {
        let c = &status[i];
        let port = decimal_string(c.port as u64);
        let mut s = String::from_str("- ");
        s.append(c.target.as_str());
        s.append(":");
        s.append(port.as_str());
        s.append(" (");
        s.append(c.protocol.as_str());
        s.append("): ");
        if c.connected {
            s.append("连通");
        } else {
            s.append("断开");
        }
        lines.push(s);
        i = i + 1;
    }
    assert(lines@.map_values(|s: String| s@) =~= want);
    join_line_list(&lines)
}

impl Clone for ErrorPattern {
    fn clone(&self) -> (r: Self)
        ensures
            r == *self,
    {
        ErrorPattern {
            name: self.name.clone(),
            pattern: self.pattern.clone(),
            severity: self.severity,
            match_count: self.match_count,
            last_match: self.last_match,
        }
    }
}

/// Profiling and network diagnostics under one configuration.
pub struct DebugDiagnosticsManager {
    config: DiagnosticsConfig,
    profiler: PerformanceProfiler,
    network: NetworkDiagnostics,
    error_patterns: Vec<ErrorPattern>,
}

impl DebugDiagnosticsManager {
    /// The configuration.
    pub closed spec fn config_spec(&self) -> DiagnosticsConfig {
        self.config
    }

    /// The traced calls.
    pub closed spec fn traces(&self) -> Seq<CallTrace> {
        self.profiler.traces()
    }

    /// The connection checks made.
    pub closed spec fn checks(&self) -> Seq<ConnectionStatus> {
        self.network.checks()
    }

    /// The error patterns that log analysis knows.
    pub closed spec fn patterns(&self) -> Seq<ErrorPattern> {
        self.error_patterns@
    }

    /// A manager with no trace, no check and no error pattern.
    pub fn new(config: DiagnosticsConfig) -> (r: Self)
        ensures
            r.config_spec() == config,
            r.traces().len() == 0,
            r.checks().len() == 0,
            r.patterns().len() == 0,
    {
        DebugDiagnosticsManager {
            config,
            profiler: PerformanceProfiler::new(),
            network: NetworkDiagnostics::new(),
            error_patterns: Vec::new(),
        }
    }

    /// The error patterns that log analysis detected, in order.
    pub fn analyze_log_patterns(&self) -> (r: Vec<ErrorPattern>)
        ensures
            r@ == self.patterns(),
    {
        let mut out: Vec<ErrorPattern> = Vec::new();
        let mut i: usize = 0;
        while i < self.error_patterns.len()
            invariant
                i <= self.error_patterns@.len(),
                out@ == self.error_patterns@.take(i as int),
            decreases self.error_patterns@.len() - i,
        {
            out.push(self.error_patterns[i].clone());
            i = i + 1;
            assert(out@ =~= self.error_patterns@.take(i as int));
        }
        assert(self.error_patterns@.take(i as int) =~= self.error_patterns@);
        out
    }

    /// The configuration.
    pub fn config(&self) -> (r: &DiagnosticsConfig)
        ensures
            *r == self.config_spec(),
    {
        &self.config
    }

    /// Starts profiling at `now` under a fresh id, which it returns; the
    /// trace is only kept when profiling is enabled.
    pub fn start_profiling(&mut self, now: i64) -> (r: String)
        ensures
            final(self).patterns() == old(self).patterns(),
            r@.len() == 36,
            final(self).config_spec() == old(self).config_spec(),
            final(self).checks() == old(self).checks(),
            old(self).config_spec().enable_profiling ==> ({
                let t = final(self).traces().last();
                &&& final(self).traces().len() == old(self).traces().len() + 1
                &&& final(self).traces().drop_last() == old(self).traces()
                &&& t.trace_id@ == r@
                &&& t.start_time == now
                &&& t.end_time is None
            }),
            !old(self).config_spec().enable_profiling ==> final(self).traces() == old(self).traces(),
    {
        let trace_id = new_uuid();
        if self.config.enable_profiling {
            self.profiler.start_trace(trace_id.as_str(), now);
        }
        trace_id
    }

    /// Stops the profiling of `trace_id` at `now` (see
    /// `PerformanceProfiler::stop_trace`).
    pub fn stop_profiling(&mut self, trace_id: &str, now: i64) -> (r: Result<CallTrace, String>)
        ensures
            final(self).patterns() == old(self).patterns(),
            final(self).config_spec() == old(self).config_spec(),
            final(self).checks() == old(self).checks(),
            final(self).traces().len() == old(self).traces().len(),
            match first_index(trace_ids(old(self).traces()), trace_id@) {
                Some(i) => r matches Ok(t) && t.trace_id@ == trace_id@ && t.end_time == Some(now)
                    && t.start_time == old(self).traces()[i].start_time,
                None => r matches Err(m) && m@ == "跟踪ID未找到: "@ + trace_id@
                    && final(self).traces() == old(self).traces(),
            },
    {
        let r = self.profiler.stop_trace(trace_id, now);
        proof {
            match first_index(trace_ids(old(self).traces()), trace_id@) {
                Some(i) => {
                    assert(first_at(trace_ids(old(self).traces()), trace_id@, i)) by {
                        assert(exists|k: int| first_at(trace_ids(old(self).traces()), trace_id@, k));
                    }
                    assert(trace_ids(old(self).traces())[i] == old(self).traces()[i].trace_id@);
                },
                None => {},
            }
        }
        r
    }

    /// Checks each target at `now` (see `NetworkDiagnostics::test_connections`).
    pub fn run_network_diagnostics(&mut self, targets: Vec<String>, now: i64) -> (r: Vec<ConnectionStatus>)
        ensures
            final(self).patterns() == old(self).patterns(),
            r@.len() == targets@.len(),
            forall|i: int| 0 <= i < r@.len() ==> simulated_check(#[trigger] r@[i], targets@[i]@, now),
            final(self).checks().len() == old(self).checks().len() + r@.len(),
            final(self).checks().subrange(0, old(self).checks().len() as int) == old(self).checks(),
            final(self).traces() == old(self).traces(),
            final(self).config_spec() == old(self).config_spec(),
    {
        self.network.test_connections(targets, now)
    }

    /// The connection checks made, oldest first.
    pub fn connection_summary(&self) -> (r: &Vec<ConnectionStatus>)
        ensures
            r@ == self.checks(),
    {
        self.network.get_connection_summary()
    }
}

} // verus!
