//! Monitoring settings, alert vocabulary and dashboard layout, with the rule
//! that decides which system metric an alert rule watches.
use vstd::prelude::*;
use crate::text::same_text;

verus! {

/// How often metrics are collected and alerts checked, and how long history is kept.
#[derive(Debug, Clone)]
pub struct MonitoringConfig {
    /// Seconds between two collections of metrics.
    pub collection_interval_secs: u64,
    /// Hours of metric history kept.
    pub retention_hours: u64,
    /// Seconds between two checks of the alert rules.
    pub alert_check_interval_secs: u64,
    /// Most alerts kept.
    pub max_alerts: usize,
    /// Whether to log in detail.
    pub enable_detailed_logging: bool,
}

impl Default for MonitoringConfig {
    fn default() -> (r: Self)
        ensures
            r.collection_interval_secs == 30,
            r.retention_hours == 24,
            r.alert_check_interval_secs == 60,
            r.max_alerts == 100,
            r.enable_detailed_logging,
    {
        MonitoringConfig {
            collection_interval_secs: 30,
            retention_hours: 24,
            alert_check_interval_secs: 60,
            max_alerts: 100,
            enable_detailed_logging: true,
        }
    }
}

/// How a rule compares a metric with its threshold.
#[derive(Debug, Clone, Copy, PartialEq, Eq, Structural)]
pub enum ComparisonOperator {
    GreaterThan,
    LessThan,
    GreaterThanOrEqual,
    LessThanOrEqual,
    Equal,
    NotEqual,
}

/// How serious an alert is.
#[derive(Debug, Clone, Copy, PartialEq, Eq, Structural)]
pub enum AlertSeverity {
    Critical,
    Warning,
    Info,
}

/// Where an alert stands.
#[derive(Debug, Clone, Copy, PartialEq, Eq, Structural)]
pub enum AlertStatus {
    Active,
    Acknowledged,
    Resolved,
}

/// The kind of a dashboard widget.
#[derive(Debug, Clone, Copy, PartialEq, Eq, Structural)]
pub enum WidgetType {
    LineChart,
    BarChart,
    PieChart,
    Gauge,
    Counter,
    Table,
    Alert,
}

/// Where a widget sits on its dashboard and how large it is.
#[derive(Debug, Clone, Copy, PartialEq, Eq, Structural)]
pub struct WidgetLayout {
    /// Column of the top-left corner.
    pub x: u32,
    /// Row of the top-left corner.
    pub y: u32,
    /// Width in grid cells.
    pub width: u32,
    /// Height in grid cells.
    pub height: u32,
}

/// The system metrics that an alert rule can watch.
#[derive(Debug, Clone, Copy, PartialEq, Eq, Structural)]
pub enum AlertMetric {
    CpuUsagePercent,
    MemoryUsagePercent,
    ErrorRate,
    AvgResponseTimeMs,
}

/// The metric that a rule naming `name` watches; a rule naming anything else
/// never fires.
pub open spec fn watched_metric(name: Seq<char>) -> Option<AlertMetric> {
    if name == "cpu_usage_percent"@ {
        Some(AlertMetric::CpuUsagePercent)
    } else if name == "memory_usage_percent"@ {
        Some(AlertMetric::MemoryUsagePercent)
    } else if name == "error_rate"@ {
        Some(AlertMetric::ErrorRate)
    } else if name == "avg_response_time_ms"@ {
        Some(AlertMetric::AvgResponseTimeMs)
    } else {
        None
    }
}

/// Looks up the metric that an alert rule's metric name refers to.
pub fn alert_metric(name: &str) -> (r: Option<AlertMetric>)
    ensures
        r == watched_metric(name@),
{
    if same_text(name, "cpu_usage_percent") {
        Some(AlertMetric::CpuUsagePercent)
    } else if same_text(name, "memory_usage_percent") {
        Some(AlertMetric::MemoryUsagePercent)
    } else if same_text(name, "error_rate") {
        Some(AlertMetric::ErrorRate)
    } else if same_text(name, "avg_response_time_ms") {
        Some(AlertMetric::AvgResponseTimeMs)
    } else {
        None
    }
}

} // verus!
