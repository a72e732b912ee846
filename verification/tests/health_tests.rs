use agentx::config::{HealthCheckConfig, NodeConfig};
use agentx::debug_diagnostics::{NetworkDiagnostics, PerformanceProfiler};
use agentx::health_checker::{
    check_result, health_url, is_due, probe_step, HealthChecker, HealthStatus, ProbeAction, ProbeEvent, RETRY_DELAY_MS,
};
use agentx::node_manager::{NodeManager, NodeStatus};

#[test]
fn health_urls_end_in_the_health_path() {
    assert_eq!(health_url("http://localhost:9001"), "http://localhost:9001/health");
    assert_eq!(health_url("http://localhost:9001/"), "http://localhost:9001/health");
    assert_eq!(health_url("http://localhost:9001/health"), "http://localhost:9001/health");
}

#[test]
fn probes_retry_then_give_up() {
    assert!(matches!(probe_step(3, 1, ProbeEvent::Answered), ProbeAction::Finish(HealthStatus::Healthy, None)));
    match probe_step(2, 2, ProbeEvent::Failed("timeout".to_string())) {
        ProbeAction::RetryAfter(ms) => assert_eq!(ms, RETRY_DELAY_MS),
        other => panic!("unexpected {:?}", other),
    }
    match probe_step(2, 3, ProbeEvent::Failed("timeout".to_string())) {
        ProbeAction::Finish(status, Some(e)) => {
            assert_eq!(status, HealthStatus::Unhealthy);
            assert_eq!(e, "timeout");
        },
        other => panic!("unexpected {:?}", other),
    }
}

#[test]
fn recorded_results_count_failures_and_decide_when_next_due() {
    let mut checker = HealthChecker::new(HealthCheckConfig::default()).unwrap();
    checker.start_monitoring("t", "http://t".to_string()).unwrap();
    let target = checker.get_target("t").unwrap();
    assert!(is_due(&target, 0));
    assert_eq!(checker.targets_due(0), vec!["t".to_string()]);

    let failed = check_result(&target, HealthStatus::Unhealthy, Some("refused".to_string()), 12, 1_000);
    checker.record_check_result(failed);
    let target = checker.get_target("t").unwrap();
    assert_eq!(target.consecutive_failures, 1);
    assert_eq!(checker.check_health("t").unwrap(), HealthStatus::Unhealthy);
    assert!(!is_due(&target, 1_000));
    assert!(is_due(&target, 1_000 + target.interval as i64));

    let ok = check_result(&target, HealthStatus::Healthy, None, 3, 2_000);
    checker.record_check_result(ok);
    assert_eq!(checker.get_target("t").unwrap().consecutive_failures, 0);
    assert_eq!(checker.get_health_result("t").unwrap().unwrap().response_time, Some(3));

    checker.set_target_enabled("t", false).unwrap();
    assert!(checker.targets_due(i64::MAX).is_empty());
}

#[test]
fn node_heartbeats_decide_health() {
    let mut manager = NodeManager::new(NodeConfig::default()).unwrap();
    let mut info = manager.get_node_info().unwrap();
    info.id = "peer".to_string();
    manager.add_cluster_node(info).unwrap();
    manager.update_heartbeat("peer").unwrap();
    let beat = manager.get_cluster_node("peer").unwrap().unwrap().last_heartbeat.unwrap();
    assert!(manager.is_node_healthy_at("peer", 30, beat + 10_000).unwrap());
    assert!(!manager.is_node_healthy_at("peer", 30, beat + 31_000).unwrap());
    assert!(!manager.is_node_healthy_at("missing", 30, beat).unwrap());
    assert_eq!(manager.prune_unresponsive_nodes(beat + 10_000), 0);
    manager.update_node_status(NodeStatus::Stopping).unwrap();
    assert_eq!(manager.get_node_info().unwrap().status, NodeStatus::Stopping);
    manager.remove_cluster_node("peer").unwrap();
    assert!(manager.get_cluster_node("peer").unwrap().is_none());
}

#[test]
fn profiler_measures_a_stopped_trace() {
    let mut profiler = PerformanceProfiler::new();
    profiler.start_trace("t1", 1_000);
    let trace = profiler.stop_trace("t1", 1_250).unwrap();
    assert_eq!(trace.end_time, Some(1_250));
    assert_eq!(trace.duration_ms, Some(250));
    assert_eq!(profiler.stop_trace("nope", 0).unwrap_err(), "跟踪ID未找到: nope");
}

#[test]
fn network_checks_are_recorded() {
    let mut net = NetworkDiagnostics::new();
    let results = net.test_connections(vec!["localhost".to_string(), "127.0.0.1".to_string()], 5);
    assert_eq!(results.len(), 2);
    assert!(results.iter().all(|c| c.connected && c.port == 80));
    assert_eq!(net.get_connection_summary().len(), 2);
}
