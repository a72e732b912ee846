use std::collections::HashMap;

use agentx::tags::Tags;
use agentx::distributed_tracing::{
    ConsoleExporter, DistributedTracingManager, JaegerExporter, LogLevel, OpenTelemetryExporter, SpanStatus,
    TraceStatus, TracingConfig,
};

fn manager() -> DistributedTracingManager {
    DistributedTracingManager::new(TracingConfig::default())
}

#[test]
fn test_trace_exporters() {
    let console_exporter = ConsoleExporter;
    assert_eq!(console_exporter.name(), "console");

    let jaeger_exporter = JaegerExporter::new("http://localhost:14268".to_string(), "test_service".to_string());
    assert_eq!(jaeger_exporter.name(), "jaeger");

    let otlp_exporter = OpenTelemetryExporter::new("http://localhost:4317".to_string(), HashMap::new());
    assert_eq!(otlp_exporter.name(), "opentelemetry");
}

#[test]
fn test_tracing_manager_creation() {
    let manager = manager();
    assert!(manager.config().enabled);
    assert_eq!(manager.get_trace_statistics().total_traces, 0);
}

#[test]
fn test_trace_lifecycle() {
    let mut manager = manager();

    let mut tags = Tags::new();
    tags.insert("version".to_string(), "1.0.0".to_string());
    let trace_id = manager.start_trace("test_service".to_string(), "test_operation".to_string(), tags, true);
    assert!(!trace_id.is_empty());

    let mut span_tags = Tags::new();
    span_tags.insert("component".to_string(), "database".to_string());
    let span_id =
        manager.start_span(&trace_id, None, "test_service".to_string(), "db_query".to_string(), span_tags);
    assert!(!span_id.is_empty());

    let mut log_fields = HashMap::new();
    log_fields.insert("query".to_string(), "SELECT * FROM users".to_string());
    manager.add_span_log(&trace_id, &span_id, LogLevel::Info, "执行数据库查询".to_string(), log_fields);

    manager.finish_span(&trace_id, &span_id, SpanStatus::Success, None);
    manager.finish_trace(&trace_id, TraceStatus::Completed);

    let traces = manager.query_traces(Some("test_service"), None, None, None, None);
    assert_eq!(traces.len(), 1);
    assert_eq!(traces[0].trace_id, trace_id);
    assert_eq!(traces[0].status, TraceStatus::Completed);
    assert_eq!(traces[0].spans.len(), 1);
    assert_eq!(traces[0].spans[0].logs.len(), 1);
}

#[test]
fn test_error_tracking() {
    let mut manager = manager();

    let trace_id = manager.start_trace("error_service".to_string(), "error_operation".to_string(), Tags::new(), true);
    let span_id = manager.start_span(
        &trace_id,
        None,
        "error_service".to_string(),
        "failing_operation".to_string(),
        Tags::new(),
    );

    let mut error_tags = Tags::new();
    error_tags.insert("error_code".to_string(), "500".to_string());
    manager.record_error(
        &trace_id,
        &span_id,
        "DatabaseError".to_string(),
        "连接超时".to_string(),
        Some("stack trace here".to_string()),
        error_tags,
    );

    manager.finish_span(&trace_id, &span_id, SpanStatus::Error, None);
    manager.finish_trace(&trace_id, TraceStatus::Error);

    let traces = manager.query_traces(None, None, Some(TraceStatus::Error), None, None);
    assert_eq!(traces.len(), 1);
    assert_eq!(traces[0].status, TraceStatus::Error);
    assert_eq!(traces[0].errors.len(), 1);
    assert_eq!(traces[0].errors[0].error_type, "DatabaseError");
}

#[test]
fn test_trace_statistics() {
    let mut manager = manager();
    for i in 0..5 {
        let trace_id =
            manager.start_trace(format!("service_{}", i % 2), "test_operation".to_string(), Tags::new(), true);
        let status = if i == 4 { TraceStatus::Error } else { TraceStatus::Completed };
        manager.finish_trace(&trace_id, status);
    }

    let stats = manager.get_trace_statistics();
    assert_eq!(stats.total_traces, 5);
    assert_eq!(stats.completed_traces, 5);
    assert_eq!(stats.active_traces, 0);
    assert_eq!(stats.error_traces, 1);
    assert_eq!(stats.error_traces as f64 / stats.total_traces as f64, 0.2);
    assert_eq!(stats.service_counts.len(), 2);
    assert_eq!(stats.service_counts[0], ("service_0".to_string(), 3));
    assert_eq!(stats.service_counts[1], ("service_1".to_string(), 2));
}

#[test]
fn unsampled_or_disabled_traces_are_not_started() {
    let mut manager = manager();
    let id = manager.start_trace("s".to_string(), "op".to_string(), Tags::new(), false);
    assert!(id.is_empty());

    let config = TracingConfig { enabled: false, ..TracingConfig::default() };
    let mut disabled = DistributedTracingManager::new(config);
    let id = disabled.start_trace("s".to_string(), "op".to_string(), Tags::new(), true);
    assert!(id.is_empty());
    assert_eq!(disabled.get_trace_statistics().active_traces, 0);
}

#[test]
fn finishing_an_unknown_trace_returns_nothing() {
    let mut manager = manager();
    assert!(manager.finish_trace("missing", TraceStatus::Completed).is_none());
    assert!(manager.finish_trace("", TraceStatus::Completed).is_none());
}

#[test]
fn query_limit_of_zero_still_returns_one_trace() {
    let mut manager = manager();
    for _ in 0..3 {
        let id = manager.start_trace("svc".to_string(), "op".to_string(), Tags::new(), true);
        manager.finish_trace(&id, TraceStatus::Completed);
    }
    assert_eq!(manager.query_traces(None, None, None, None, Some(0)).len(), 1);
    assert_eq!(manager.query_traces(None, None, None, None, Some(2)).len(), 2);
    let all = manager.query_traces(None, None, None, None, None);
    assert_eq!(all.len(), 3);
    for w in all.windows(2) {
        assert!(w[0].start_time >= w[1].start_time);
    }
}

#[test]
fn expired_traces_are_cleaned_up() {
    let mut manager = manager();
    let id = manager.start_trace("svc".to_string(), "op".to_string(), Tags::new(), true);
    let finished = manager.finish_trace(&id, TraceStatus::Completed).unwrap();
    let later = finished.start_time + 25 * 3600 * 1000;
    assert_eq!(manager.cleanup_expired_traces_at(finished.start_time), 0);
    assert_eq!(manager.cleanup_expired_traces_at(later), 1);
    assert_eq!(manager.get_trace_statistics().completed_traces, 0);
}

#[test]
fn exporters_keep_their_endpoints() {
    let jaeger = JaegerExporter::new("http://localhost:14268".to_string(), "svc".to_string());
    assert_eq!(jaeger.endpoint(), "http://localhost:14268");
    let otlp = OpenTelemetryExporter::new("http://localhost:4317".to_string(), HashMap::new());
    assert_eq!(otlp.endpoint(), "http://localhost:4317");
}

#[test]
fn finishing_a_span_merges_its_extra_tags() {
    let mut manager = manager();
    let trace_id = manager.start_trace("svc".to_string(), "op".to_string(), Tags::new(), true);
    let mut span_tags = Tags::new();
    span_tags.insert("component".to_string(), "database".to_string());
    span_tags.insert("retry".to_string(), "0".to_string());
    let span_id = manager.start_span(&trace_id, None, "svc".to_string(), "query".to_string(), span_tags);

    let mut extra = Tags::new();
    extra.insert("retry".to_string(), "2".to_string());
    extra.insert("rows".to_string(), "10".to_string());
    manager.finish_span(&trace_id, &span_id, SpanStatus::Success, Some(extra));

    let finished = manager.finish_trace(&trace_id, TraceStatus::Completed).unwrap();
    let tags = &finished.spans[0].tags;
    assert_eq!(tags.get("component").map(|s| s.as_str()), Some("database"));
    assert_eq!(tags.get("retry").map(|s| s.as_str()), Some("2"));
    assert_eq!(tags.get("rows").map(|s| s.as_str()), Some("10"));
    assert_eq!(tags.get("missing"), None);
}
