use std::collections::HashMap;

use agentx::agent::{AgentCard, Capability, Endpoint};
use agentx::cluster::ClusterManager;
use agentx::cluster_state::{ClusterStateManager, ClusterStatus};
use agentx::config::{ClusterConfig, HealthCheckConfig, LoadBalancerConfig, NodeConfig, StateConfig};
use agentx::health_checker::{HealthChecker, HealthStatus};
use agentx::load_balancer::{LoadBalancer, LoadBalancingStrategy};
use agentx::node_manager::{NodeManager, NodeStatus};
use agentx::service_discovery::{MemoryServiceDiscovery, ServiceRegistry};

fn agent(id: &str, capability: &str, url: &str) -> AgentCard {
    AgentCard {
        id: id.to_string(),
        name: format!("Agent {}", id),
        description: "Test agent for cluster testing".to_string(),
        version: "1.0.0".to_string(),
        capabilities: vec![Capability { name: capability.to_string(), description: "test".to_string(), available: true }],
        endpoints: vec![Endpoint { endpoint_type: "http".to_string(), url: url.to_string(), protocols: vec![] }],
        tags: vec!["test".to_string()],
    }
}

#[test]
fn test_node_manager_lifecycle() {
    let mut node_manager = NodeManager::new(NodeConfig::default()).unwrap();
    assert_eq!(node_manager.get_node_info().unwrap().status, NodeStatus::Initializing);
    node_manager.start().unwrap();
    assert_eq!(node_manager.get_node_info().unwrap().status, NodeStatus::Running);
    node_manager.stop().unwrap();
}

#[test]
fn test_load_balancer_strategies() {
    let config = LoadBalancerConfig { strategy: LoadBalancingStrategy::RoundRobin, ..Default::default() };
    let mut lb = LoadBalancer::new(config).unwrap();
    lb.start().unwrap();

    lb.add_target("target1", "http://localhost:8001".to_string()).unwrap();
    lb.add_target("target2", "http://localhost:8002".to_string()).unwrap();
    lb.add_target("target3", "http://localhost:8003".to_string()).unwrap();

    let candidates = vec!["target1".to_string(), "target2".to_string(), "target3".to_string()];
    let mut selections = Vec::new();
    for _ in 0..6 {
        if let Some(selected) = lb.select_target(&candidates).unwrap() {
            selections.push(selected);
        }
    }
    assert_eq!(selections.len(), 6);
    assert_eq!(selections[0], "target1");
    assert_eq!(selections[1], "target2");
    assert_eq!(selections[2], "target3");
    assert_eq!(selections[3], "target1");
    lb.stop().unwrap();
}

#[test]
fn unhealthy_targets_are_not_selected() {
    let mut lb = LoadBalancer::new(LoadBalancerConfig::default()).unwrap();
    lb.add_target("a", "http://a".to_string()).unwrap();
    lb.add_target("b", "http://b".to_string()).unwrap();
    lb.update_target_health("a", false).unwrap();
    let candidates = vec!["a".to_string(), "b".to_string(), "missing".to_string()];
    for _ in 0..4 {
        assert_eq!(lb.select_target(&candidates).unwrap(), Some("b".to_string()));
    }
    lb.update_target_health("b", false).unwrap();
    assert_eq!(lb.select_target(&candidates).unwrap(), None);
    assert!(lb.update_target_health("missing", true).is_ok());
}

#[test]
fn least_connections_picks_the_idlest_target() {
    let config = LoadBalancerConfig { strategy: LoadBalancingStrategy::LeastConnections, ..Default::default() };
    let mut lb = LoadBalancer::new(config).unwrap();
    lb.add_target("a", "http://a".to_string()).unwrap();
    lb.add_target("b", "http://b".to_string()).unwrap();
    lb.update_target_connections("a", 5).unwrap();
    lb.update_target_connections("b", 2).unwrap();
    let candidates = vec!["a".to_string(), "b".to_string()];
    assert_eq!(lb.select_target(&candidates).unwrap(), Some("b".to_string()));
}

#[test]
fn test_health_checker_targets() {
    let mut health_checker = HealthChecker::new(HealthCheckConfig::default()).unwrap();
    health_checker.start().unwrap();

    health_checker.start_monitoring("test1", "http://localhost:9001".to_string()).unwrap();
    health_checker.start_monitoring("test2", "http://localhost:9002".to_string()).unwrap();
    assert_eq!(health_checker.list_targets().unwrap().len(), 2);

    health_checker.update_target_config("test1", Some(60_000), Some(10_000), Some(5)).unwrap();
    let t = health_checker.get_target("test1").unwrap();
    assert_eq!((t.interval, t.timeout, t.retries), (60_000, 10_000, 5));

    health_checker.set_target_enabled("test1", false).unwrap();
    health_checker.stop_monitoring("test1").unwrap();

    let remaining_targets = health_checker.list_targets().unwrap();
    assert_eq!(remaining_targets.len(), 1);
    assert_eq!(remaining_targets[0].id, "test2");
    assert_eq!(health_checker.check_health("test2").unwrap(), HealthStatus::Unknown);
    health_checker.stop().unwrap();
}

#[test]
fn test_cluster_state_management() {
    let mut state_manager = ClusterStateManager::new(StateConfig::default()).unwrap();
    state_manager.start().unwrap();
    let initial_state = state_manager.get_state().unwrap();
    assert_eq!(initial_state.status, ClusterStatus::Running);
    assert_eq!(initial_state.agent_count, 0);

    state_manager.update_cluster_status(ClusterStatus::Degraded).unwrap();
    assert_eq!(state_manager.get_state().unwrap().status, ClusterStatus::Degraded);
    state_manager.stop().unwrap();
}

#[test]
fn test_memory_service_discovery() {
    let mut backend = MemoryServiceDiscovery::new();
    let registry = ServiceRegistry {
        service_id: "test-service".to_string(),
        agent_info: agent("test-agent", "test", "http://localhost:9000"),
        registered_at: 0,
        updated_at: 0,
        ttl_seconds: 300,
        tags: vec!["test".to_string()],
        metadata: HashMap::new(),
    };

    backend.register(registry).unwrap();
    let discovered = backend.discover(None).unwrap();
    assert_eq!(discovered.len(), 1);
    assert_eq!(discovered[0].service_id, "test-service");

    backend.update_health("test-service", false).unwrap();
    assert_eq!(backend.discover(None).unwrap().len(), 0);

    backend.deregister("test-service").unwrap();
    assert_eq!(backend.discover(None).unwrap().len(), 0);
}

#[test]
fn test_cluster_manager_lifecycle() {
    let mut manager = ClusterManager::new(ClusterConfig::default()).unwrap();
    manager.start().unwrap();
    let state = manager.get_cluster_state().unwrap();
    assert_eq!(state.agent_count, 0);
    manager.stop().unwrap();
}

#[test]
fn cluster_integration_tests_test_agent_registration_and_discovery() {
    let mut manager = ClusterManager::new(ClusterConfig::default()).unwrap();
    manager.start().unwrap();

    let agent1_id = manager.register_agent(agent("agent-1", "test.capability", "http://localhost:9001")).unwrap();
    let agent2_id = manager.register_agent(agent("agent-2", "test.capability", "http://localhost:9002")).unwrap();
    let agent3_id = manager.register_agent(agent("agent-3", "test.capability", "http://localhost:9003")).unwrap();
    assert_eq!(agent1_id, "agent-agent-1");
    assert_eq!(agent2_id, "agent-agent-2");
    assert_eq!(agent3_id, "agent-agent-3");

    assert_eq!(manager.discover_agents(None).unwrap().len(), 3);
    assert_eq!(manager.discover_agents(Some("test.capability")).unwrap().len(), 3);
    assert_eq!(manager.discover_agents(Some("nonexistent.capability")).unwrap().len(), 0);
    assert_eq!(manager.get_cluster_state().unwrap().agent_count, 3);

    manager.unregister_agent("agent-1").unwrap();
    assert_eq!(manager.discover_agents(None).unwrap().len(), 2);
    manager.stop().unwrap();
}

#[test]
fn integration_tests_test_agent_registration_and_discovery() {
    let mut manager = ClusterManager::new(ClusterConfig::default()).unwrap();
    manager.start().unwrap();

    let agent1_id = manager.register_agent(agent("integration-agent-1", "test.capability", "http://localhost:9001")).unwrap();
    let agent2_id = manager.register_agent(agent("integration-agent-2", "test.capability", "http://localhost:9002")).unwrap();
    let agent3_id = manager.register_agent(agent("integration-agent-3", "test.capability", "http://localhost:9003")).unwrap();
    assert_eq!(agent1_id, "agent-integration-agent-1");
    assert_eq!(agent2_id, "agent-integration-agent-2");
    assert_eq!(agent3_id, "agent-integration-agent-3");

    assert_eq!(manager.discover_agents(None).unwrap().len(), 3);
    assert_eq!(manager.discover_agents(Some("test.capability")).unwrap().len(), 3);
    assert_eq!(manager.discover_agents(Some("nonexistent.capability")).unwrap().len(), 0);
    assert_eq!(manager.get_cluster_state().unwrap().agent_count, 3);

    manager.unregister_agent("integration-agent-1").unwrap();
    assert_eq!(manager.discover_agents(None).unwrap().len(), 2);
    manager.stop().unwrap();
}

#[test]
fn selection_follows_capabilities() {
    let mut manager = ClusterManager::new(ClusterConfig::default()).unwrap();
    manager.start().unwrap();

    let id = manager.register_agent(agent("a1", "text_generation", "http://localhost:8081")).unwrap();
    assert_eq!(id, "agent-a1");
    manager.register_agent(agent("a2", "translation", "http://localhost:8082")).unwrap();

    assert_eq!(manager.discover_agents(None).unwrap().len(), 2);
    let found = manager.discover_agents(Some("translation")).unwrap();
    assert_eq!(found.len(), 1);
    assert_eq!(found[0].id, "a2");

    let picked = manager.select_target(Some("text_generation")).unwrap().unwrap();
    assert_eq!(picked.id, "a1");
    assert!(manager.select_target(Some("unknown")).unwrap().is_none());

    manager.unregister_agent("a1").unwrap();
    assert_eq!(manager.discover_agents(None).unwrap().len(), 1);
    manager.stop().unwrap();
}

#[test]
fn maintenance_ticks_beat_and_expire() {
    let mut manager = ClusterManager::new(ClusterConfig::default()).unwrap();
    manager.start().unwrap();
    manager.heartbeat_tick(1_234);
    let node = manager.get_node_info().unwrap();
    assert_eq!(node.last_heartbeat, Some(1_234));
    assert_eq!(node.updated_at, 1_234);
    assert_eq!(manager.node_discovery_tick(i64::MAX), 0);

    manager.register_agent(agent("a1", "text_generation", "http://localhost:8081")).unwrap();
    let now = now_millis();
    assert_eq!(manager.stats_tick(now), 0);
    assert_eq!(manager.get_cluster_state().unwrap().agent_count, 1);
    assert_eq!(manager.stats_tick(now + 301_000), 1);
    assert_eq!(manager.get_cluster_state().unwrap().agent_count, 0);
    manager.stop().unwrap();
}

/// The current time in milliseconds since the Unix epoch.
fn now_millis() -> i64 {
    std::time::SystemTime::now().duration_since(std::time::UNIX_EPOCH).unwrap().as_millis() as i64
}
