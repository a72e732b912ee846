use agentx::agent::{AgentCard, Capability, Endpoint};
use agentx::autoscaler::{
    after_instances, check_cooldown, record_scaling, scale_down_target, scale_up_target, scaling_step, ScalingAction,
    ScalingHistory,
};
use agentx::cluster_state::{AgentStats, ClusterStateManager};
use agentx::config::{DiscoveryConfig, LoadBalancerConfig, NodeConfig, StateConfig};
use agentx::debug_diagnostics::{format_network_status, DebugDiagnosticsManager, DiagnosticsConfig};
use agentx::error::{code_from_number, code_number, GrpcCode};
use agentx::error_recovery::{
    record_failure, record_success, ComponentHealth, ComponentStatus, ErrorRecoveryConfig, ErrorRecoveryManager,
    ErrorType, RecoveryStrategy,
};
use agentx::load_balancer::{
    least_connections_index, least_response_time_index, next_average, strategy_from_name, strategy_name,
    total_weight_of, weighted_index, LoadBalancer, LoadBalancingStrategy, TargetNode,
};
use agentx::node_manager::{seconds_between, NodeManager};
use agentx::performance_analyzer::{format_optimization_suggestions, generate_suggestions};
use agentx::service_discovery::{backend_from_name, backend_name, normalize_service_id, DiscoveryBackend, ServiceDiscovery};

fn history_entry(at: i64) -> ScalingHistory {
    ScalingHistory {
        timestamp: at,
        action: ScalingAction::NoAction,
        before_instances: 2,
        after_instances: 2,
        success: true,
        error_message: None,
    }
}

fn target(id: &str, weight: u32, connections: u32, rt: u64) -> TargetNode {
    TargetNode {
        id: id.to_string(),
        endpoint: format!("http://{}:8080", id),
        weight,
        connections,
        avg_response_time: rt,
        healthy: true,
        updated_at: 0,
    }
}

fn agent(id: &str) -> AgentCard {
    AgentCard {
        id: id.to_string(),
        name: format!("Agent {}", id),
        description: "state test agent".to_string(),
        version: "1.0.0".to_string(),
        capabilities: vec![Capability { name: "text".to_string(), description: "test".to_string(), available: true }],
        endpoints: vec![Endpoint { endpoint_type: "http".to_string(), url: "http://localhost:1".to_string(), protocols: vec![] }],
        tags: vec![],
    }
}

#[test]
fn scaling_targets_stay_within_bounds() {
    assert_eq!(scale_up_target(3, 2, 10), 5);
    assert_eq!(scale_up_target(9, 2, 10), 10);
    assert_eq!(scale_down_target(3, 2, 1), 1);
    assert_eq!(scale_down_target(1, 5, 0), 0);
    assert_eq!(scale_down_target(8, 2, 1), 6);
    let up = ScalingAction::ScaleUp { target_instances: 7, reason: "cpu".to_string() };
    assert_eq!(after_instances(&up, 3), 7);
    assert_eq!(after_instances(&ScalingAction::NoAction, 3), 3);
}

#[test]
fn cooldown_passes_after_its_seconds() {
    assert!(check_cooldown(None, 0, 300));
    assert!(!check_cooldown(Some(1_000), 300_999, 300));
    assert!(check_cooldown(Some(1_000), 301_000, 300));
    assert!(!check_cooldown(Some(10_000), 5_000, 0));
}

#[test]
fn scaling_history_keeps_its_newest_entries() {
    let mut history = Vec::new();
    for t in 0..5 {
        record_scaling(&mut history, history_entry(t), 3);
    }
    assert_eq!(history.len(), 3);
    let stamps: Vec<i64> = history.iter().map(|h| h.timestamp).collect();
    assert_eq!(stamps, vec![2, 3, 4]);
}

#[test]
fn balancer_helpers_pick_as_documented() {
    let targets = vec![target("a", 1, 5, 30), target("b", 3, 2, 10), target("c", 2, 2, 10)];
    assert_eq!(least_connections_index(&targets), Some(1));
    assert_eq!(least_response_time_index(&targets), Some(1));
    assert_eq!(least_connections_index(&[]), None);
    assert_eq!(total_weight_of(&targets), 6);
    assert_eq!(weighted_index(&targets, 0), 0);
    assert_eq!(weighted_index(&targets, 1), 1);
    assert_eq!(weighted_index(&targets, 3), 1);
    assert_eq!(weighted_index(&targets, 4), 2);
    assert_eq!(weighted_index(&targets, 5), 2);
    assert_eq!(next_average(0, 40), 40);
    assert_eq!(next_average(80, 0), 70);
    assert_eq!(next_average(10, 90), 20);
}

#[test]
fn strategy_names_round_trip() {
    for s in [
        LoadBalancingStrategy::RoundRobin,
        LoadBalancingStrategy::Random,
        LoadBalancingStrategy::LeastConnections,
        LoadBalancingStrategy::WeightedRoundRobin,
        LoadBalancingStrategy::ConsistentHash,
        LoadBalancingStrategy::LeastResponseTime,
    ] {
        assert!(!strategy_name(s).is_empty());
    }
    assert_eq!(strategy_name(LoadBalancingStrategy::LeastConnections), "LeastConnections");
    assert_eq!(strategy_from_name("least_connections"), LoadBalancingStrategy::LeastConnections);
    assert_eq!(strategy_from_name("consistent_hash"), LoadBalancingStrategy::ConsistentHash);
    assert_eq!(strategy_from_name("bogus"), LoadBalancingStrategy::RoundRobin);
    assert_eq!(backend_name(DiscoveryBackend::Etcd), "Etcd");
    assert_eq!(backend_from_name("kubernetes"), DiscoveryBackend::Kubernetes);
    assert_eq!(backend_from_name("unknown"), DiscoveryBackend::Memory);
}

#[test]
fn grpc_code_numbers_round_trip() {
    assert_eq!(code_number(GrpcCode::Success), 0);
    assert_eq!(code_number(GrpcCode::NotFound), 5);
    for n in 0..=16 {
        assert_eq!(code_number(code_from_number(n)), n);
    }
    assert_eq!(code_from_number(99), GrpcCode::Unknown);
    assert_eq!(code_from_number(-1), GrpcCode::Unknown);
}

#[test]
fn whole_seconds_truncate_toward_zero() {
    assert_eq!(seconds_between(5_999, 0), 5);
    assert_eq!(seconds_between(0, 5_999), -5);
    assert_eq!(seconds_between(1_000, 1_000), 0);
    assert_eq!(normalize_service_id("agent-1"), "agent-agent-1");
    assert_eq!(normalize_service_id("worker"), "agent-worker");
}

#[test]
fn component_health_follows_failures_and_successes() {
    let config = ErrorRecoveryConfig { failure_threshold: 3, recovery_threshold: 2, ..Default::default() };
    let mut h = ComponentHealth {
        component: "db".to_string(),
        status: ComponentStatus::Healthy,
        last_check: 0,
        consecutive_failures: 0,
        consecutive_successes: 0,
        total_failures: 0,
        total_successes: 0,
    };
    record_failure(&mut h, &config, 10);
    assert_eq!(h.status, ComponentStatus::Healthy);
    record_failure(&mut h, &config, 20);
    assert_eq!(h.status, ComponentStatus::Degraded);
    record_failure(&mut h, &config, 30);
    assert_eq!(h.status, ComponentStatus::Failed);
    assert_eq!(h.total_failures, 3);
    assert_eq!(h.last_check, 30);
    record_success(&mut h, &config, 40);
    assert_eq!(h.status, ComponentStatus::Failed);
    assert_eq!(h.consecutive_failures, 0);
    record_success(&mut h, &config, 50);
    assert_eq!(h.status, ComponentStatus::Healthy);
    assert_eq!(h.total_successes, 2);
}

#[test]
fn recovery_manager_keeps_histories() {
    let mut manager = ErrorRecoveryManager::new(ErrorRecoveryConfig::default());
    manager.register_component("cache", RecoveryStrategy::Restart);
    manager.register_component("queue", RecoveryStrategy::Manual);
    manager.report_error("cache", ErrorType::Network, "down", 3);
    manager.report_error("queue", ErrorType::Timeout, "slow", 2);
    assert_eq!(manager.get_all_component_health().len(), 2);
    assert_eq!(manager.get_error_history(None).len(), 2);
    assert_eq!(manager.get_error_history(Some(1)).len(), 1);
    manager.complete_recovery("cache", RecoveryStrategy::Restart, true);
    assert_eq!(manager.get_recovery_history(None).len(), 1);
    assert!(manager.recent_error_count(i64::MAX) <= 2);
}

#[test]
fn cluster_state_forgets_silent_agents() {
    let mut manager = ClusterStateManager::new(StateConfig::default()).unwrap();
    manager.update_agent_state("a1", &agent("a1")).unwrap();
    manager.update_agent_state("a2", &agent("a2")).unwrap();
    assert_eq!(manager.list_agent_states().unwrap().len(), 2);
    let stats = AgentStats { messages_processed: 7, errors: 1, avg_response_time: 12, last_activity: None };
    manager.update_agent_stats("a1", stats).unwrap();
    assert_eq!(manager.get_agent_state("a1").unwrap().unwrap().stats.messages_processed, 7);
    let heartbeat = manager.get_agent_state("a2").unwrap().unwrap().last_heartbeat.unwrap();
    assert_eq!(manager.expire_stale_agents(heartbeat), 0);
    assert_eq!(manager.expire_stale_agents(heartbeat + 400_000), 2);
    assert!(manager.list_agent_states().unwrap().is_empty());
    manager.remove_agent_state("a1").unwrap();
    assert!(manager.get_agent_state("a1").unwrap().is_none());
}

#[test]
fn profiling_and_network_diagnostics() {
    let config = DiagnosticsConfig {
        enable_profiling: true,
        sampling_interval_ms: 100,
        data_retention_hours: 24,
        enable_verbose_logging: false,
        max_log_entries: 1000,
    };
    let mut manager = DebugDiagnosticsManager::new(config);
    let id = manager.start_profiling(1_000);
    assert_eq!(id.len(), 36);
    let trace = manager.stop_profiling(&id, 1_250).unwrap();
    assert_eq!(trace.start_time, 1_000);
    assert_eq!(trace.end_time, Some(1_250));
    assert_eq!(trace.duration_ms, Some(250));
    assert_eq!(manager.stop_profiling("missing", 2_000).unwrap_err(), "跟踪ID未找到: missing");

    let checks = manager.run_network_diagnostics(vec!["db".to_string(), "cache".to_string()], 5);
    assert_eq!(checks.len(), 2);
    assert!(checks.iter().all(|c| c.connected && c.port == 80 && c.test_time == 5));
    assert_eq!(manager.connection_summary().len(), 2);
    assert_eq!(format_network_status(&checks), "- db:80 (HTTP): 连通\n- cache:80 (HTTP): 连通");
}

#[test]
fn suggestions_are_formatted_one_per_line() {
    let suggestions = generate_suggestions();
    assert_eq!(suggestions.len(), 1);
    assert_eq!(
        format_optimization_suggestions(&suggestions),
        "- message_router (CachingStrategy): 实施消息路由缓存策略 (优先级: High)"
    );
    assert_eq!(format_optimization_suggestions(&Vec::new()), "");
}

#[test]
fn intervals_come_from_the_configuration() {
    let nodes = NodeManager::new(NodeConfig { heartbeat_interval: 5_000, discovery_interval: 7_000, ..Default::default() }).unwrap();
    assert_eq!(nodes.heartbeat_interval(), 5_000);
    assert_eq!(nodes.discovery_interval(), 7_000);
    let states = ClusterStateManager::new(StateConfig { sync_interval: 11, stats_interval: 13, ..Default::default() }).unwrap();
    assert_eq!(states.sync_interval(), 11);
    assert_eq!(states.stats_interval(), 13);
    let lb = LoadBalancer::new(LoadBalancerConfig { stats_update_interval: 17, ..Default::default() }).unwrap();
    assert_eq!(lb.stats_update_interval(), 17);
    let sd = ServiceDiscovery::new(DiscoveryConfig { cleanup_interval: 19, ..Default::default() }).unwrap();
    assert_eq!(sd.cleanup_interval(), 19);
    assert_eq!(nodes.is_node_healthy("nobody", 30).unwrap(), false);
}

#[test]
fn scaling_step_respects_cooldown_and_confidence() {
    let mut history = Vec::new();
    let mut last = None;
    let up = ScalingAction::ScaleUp { target_instances: 4, reason: "cpu".to_string() };
    assert!(!scaling_step(&mut history, &mut last, &up, 2, false, 1_000, 300, 10));
    assert!(history.is_empty() && last.is_none());
    assert!(!scaling_step(&mut history, &mut last, &ScalingAction::NoAction, 2, true, 1_000, 300, 10));
    assert!(scaling_step(&mut history, &mut last, &up, 2, true, 1_000, 300, 10));
    assert_eq!(last, Some(1_000));
    assert_eq!(history.len(), 1);
    assert_eq!((history[0].before_instances, history[0].after_instances, history[0].timestamp), (2, 4, 1_000));
    assert!(!scaling_step(&mut history, &mut last, &up, 4, true, 200_000, 300, 10));
    assert_eq!(history.len(), 1);
    assert!(scaling_step(&mut history, &mut last, &up, 4, true, 301_000, 300, 10));
    assert_eq!(history.len(), 2);
}

#[test]
fn log_analysis_starts_without_patterns() {
    let manager = DebugDiagnosticsManager::new(DiagnosticsConfig::default());
    assert!(manager.analyze_log_patterns().is_empty());
}

#[test]
fn heartbeats_stamp_the_record_and_nothing_else() {
    let mut nodes = NodeManager::new(NodeConfig::default()).unwrap();
    let other = agentx::node_manager::NodeInfo {
        id: "node-2".to_string(),
        name: "second".to_string(),
        address: "10.0.0.2:7000".to_string(),
        status: agentx::node_manager::NodeStatus::Running,
        role: agentx::node_manager::NodeRole::Worker,
        metadata: std::collections::HashMap::new(),
        created_at: 100,
        updated_at: 200,
        last_heartbeat: None,
        version: "0.1.0".to_string(),
        capabilities: vec!["routing".to_string()],
    };
    nodes.add_cluster_node(other).unwrap();
    nodes.update_heartbeat_at("node-2", 5_000);
    let n = nodes.get_cluster_node("node-2").unwrap().unwrap();
    assert_eq!((n.last_heartbeat, n.updated_at, n.created_at), (Some(5_000), 5_000, 100));
    assert_eq!((n.name.as_str(), n.address.as_str(), n.version.as_str()), ("second", "10.0.0.2:7000", "0.1.0"));
    assert_eq!(n.capabilities, vec!["routing".to_string()]);

    let own = nodes.get_node_info().unwrap().id;
    nodes.update_heartbeat_at(&own, 7_000);
    let me = nodes.get_node_info().unwrap();
    assert_eq!((me.last_heartbeat, me.updated_at), (Some(7_000), 7_000));
    nodes.update_heartbeat_at("nobody", 9_000);
    assert_eq!(nodes.get_cluster_node("node-2").unwrap().unwrap().updated_at, 5_000);
}
