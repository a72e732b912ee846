use agentx::a2a::{MessagePart, MessageRole};
use agentx::advanced_monitoring::{
    alert_metric, AlertMetric, AlertSeverity, AlertStatus, ComparisonOperator, MonitoringConfig, WidgetLayout,
};
use agentx::autoscaler::{after_instances, scale_down_target, scale_up_target, ScalingAction};
use agentx::error_recovery::RecoveryStrategy;
use agentx::performance_benchmarks::{create_test_message_with_size, BenchmarkConfig};
use agentx::platform::{AgentXCore, VERSION};
use agentx::real_network_benchmarks::NodeStatus;

#[test]
fn test_comparison_operators() {
    assert_eq!(ComparisonOperator::GreaterThan, ComparisonOperator::GreaterThan);
    assert_ne!(ComparisonOperator::GreaterThan, ComparisonOperator::LessThan);
}

#[test]
fn test_alert_rule_creation() {
    let metric = "cpu_usage_percent".to_string();
    let severity = AlertSeverity::Warning;
    let threshold: f64 = 80.0;
    assert_eq!(threshold, 80.0);
    assert_eq!(severity, AlertSeverity::Warning);
    assert_eq!(alert_metric(&metric), Some(AlertMetric::CpuUsagePercent));
}

#[test]
fn alert_rules_watch_only_known_metrics() {
    assert_eq!(alert_metric("memory_usage_percent"), Some(AlertMetric::MemoryUsagePercent));
    assert_eq!(alert_metric("error_rate"), Some(AlertMetric::ErrorRate));
    assert_eq!(alert_metric("avg_response_time_ms"), Some(AlertMetric::AvgResponseTimeMs));
    assert_eq!(alert_metric("disk_usage_percent"), None);
    assert_eq!(alert_metric(""), None);
}

#[test]
fn monitoring_config_defaults() {
    let config = MonitoringConfig::default();
    assert_eq!(config.collection_interval_secs, 30);
    assert_eq!(config.retention_hours, 24);
    assert_eq!(config.alert_check_interval_secs, 60);
    assert_eq!(config.max_alerts, 100);
    assert!(config.enable_detailed_logging);
    let layout = WidgetLayout { x: 0, y: 1, width: 4, height: 3 };
    assert_eq!(layout.width * layout.height, 12);
    assert_ne!(AlertStatus::Active, AlertStatus::Resolved);
}

#[test]
fn test_benchmark_config_default() {
    let config = BenchmarkConfig::default();
    assert_eq!(config.duration_secs, 60);
    assert_eq!(config.concurrent_connections, 10);
    assert_eq!(config.message_size, 1024);
    assert_eq!(config.target_qps, 1000);
    assert_eq!(config.warmup_secs, 10);
}

#[test]
fn test_create_test_message() {
    let message = create_test_message_with_size(100).unwrap();
    assert!(matches!(message.role, MessageRole::User));
}

#[test]
fn test_message_text_leaves_room_for_the_overhead() {
    let message = create_test_message_with_size(1024).unwrap();
    match &message.parts[0] {
        MessagePart::Text(t) => assert_eq!(t.len(), 924),
        _ => panic!("expected a text part"),
    }
    let small = create_test_message_with_size(10).unwrap();
    match &small.parts[0] {
        MessagePart::Text(t) => assert!(t.is_empty()),
        _ => panic!("expected a text part"),
    }
}

#[test]
fn test_system_info() {
    let core = AgentXCore::new();
    let info = core.get_system_info();

    assert!(info.features.contains(&"协议兼容层".to_string()));
    assert!(info.features.contains(&"云原生部署".to_string()));
    assert!(info.features.contains(&"开发者生态系统".to_string()));
}

#[test]
fn test_agentx_core_initialization() {
    let mut core = AgentXCore::new();
    let result = core.initialize();
    assert!(result.is_ok());

    let info = core.get_system_info();
    assert_eq!(info.version, VERSION);
    assert!(!info.features.is_empty());
    assert_eq!(info.features.len(), 8);
}

#[test]
fn initialization_registers_the_core_components() {
    let mut core = AgentXCore::new();
    core.initialize().unwrap();
    let recovery = core.error_recovery();
    assert!(recovery.get_component_health("protocol_compat").is_some());
    assert!(recovery.get_component_health("cloud_native").is_some());
    assert!(recovery.get_component_health("developer_ecosystem").is_some());
    assert!(recovery.get_component_health("other").is_none());
    let _ = RecoveryStrategy::Retry;
}

#[test]
fn scaling_targets_stay_in_bounds() {
    assert_eq!(scale_up_target(3, 2, 10), 5);
    assert_eq!(scale_up_target(9, 2, 10), 10);
    assert_eq!(scale_down_target(5, 1, 1), 4);
    assert_eq!(scale_down_target(1, 3, 1), 1);
    assert_eq!(scale_down_target(2, 5, 0), 0);
    let up = ScalingAction::ScaleUp { target_instances: 5, reason: "CPU使用率过高".to_string() };
    assert_eq!(after_instances(&up, 3), 5);
    assert_eq!(after_instances(&ScalingAction::NoAction, 3), 3);
}

#[test]
fn node_status_compares_reasons() {
    assert_eq!(NodeStatus::Failed("x".to_string()), NodeStatus::Failed("x".to_string()));
    assert_ne!(NodeStatus::Online, NodeStatus::Offline);
}
