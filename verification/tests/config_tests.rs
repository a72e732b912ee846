use agentx::config::{ClusterConfig, EnvSettings};
use agentx::load_balancer::LoadBalancingStrategy;
use agentx::service_discovery::DiscoveryBackend;

fn runtime_has(info: &[(String, String)], key: &str) -> bool {
    info.iter().any(|(k, _)| k == key)
}

fn no_env() -> EnvSettings {
    EnvSettings {
        node_id: None,
        node_name: None,
        bind_address: None,
        discovery_backend: None,
        lb_strategy: None,
        cluster_id: None,
        cluster_name: None,
    }
}

#[test]
fn test_default_config() {
    let config = ClusterConfig::default();

    assert_eq!(config.node.node_name, "agentx-node");
    assert_eq!(config.discovery.backend, DiscoveryBackend::Memory);
    assert_eq!(config.load_balancer.strategy, LoadBalancingStrategy::RoundRobin);
    assert!(!config.state.cluster_id.is_empty());
    assert_eq!(config.state.cluster_name, "agentx-cluster");
}

#[test]
fn test_config_validation() {
    let mut config = ClusterConfig::default();

    assert!(config.validate().is_ok());

    config.node.node_name = String::new();
    assert!(config.validate().is_err());

    config.node.node_name = "test-node".to_string();
    assert!(config.validate().is_ok());

    config.discovery.ttl_seconds = 0;
    assert!(config.validate().is_err());
}

#[test]
fn test_env_config_loading() {
    let mut config = ClusterConfig::default();
    let env = EnvSettings {
        node_name: Some("test-node-env".to_string()),
        cluster_name: Some("test-cluster-env".to_string()),
        discovery_backend: Some("consul".to_string()),
        lb_strategy: Some("random".to_string()),
        ..no_env()
    };

    config.load_from_env(env);

    assert_eq!(config.node.node_name, "test-node-env");
    assert_eq!(config.state.cluster_name, "test-cluster-env");
    assert_eq!(config.discovery.backend, DiscoveryBackend::Consul);
    assert_eq!(config.load_balancer.strategy, LoadBalancingStrategy::Random);
}

#[test]
fn test_runtime_info() {
    let config = ClusterConfig::default();
    let info = config.get_runtime_info();

    assert!(runtime_has(&info, "node_name"));
    assert!(runtime_has(&info, "bind_address"));
    assert!(runtime_has(&info, "node_role"));
    assert!(runtime_has(&info, "discovery_backend"));
    assert!(runtime_has(&info, "lb_strategy"));
    assert!(runtime_has(&info, "cluster_id"));
    assert!(runtime_has(&info, "cluster_name"));
}

#[test]
fn validation_reports_the_first_problem() {
    let mut config = ClusterConfig::default();
    config.node.heartbeat_interval = 999;
    config.discovery.ttl_seconds = 0;
    assert_eq!(config.validate(), Err("心跳间隔必须大于0".to_string()));

    let mut config = ClusterConfig::default();
    config.discovery.ttl_seconds = 0;
    assert_eq!(config.validate(), Err("TTL必须大于0".to_string()));

    let mut config = ClusterConfig::default();
    config.load_balancer.connection_timeout = 0;
    assert_eq!(config.validate(), Err("连接超时必须大于0".to_string()));

    let mut config = ClusterConfig::default();
    config.state.cluster_id = String::new();
    assert_eq!(config.validate(), Err("集群ID不能为空".to_string()));

    let mut config = ClusterConfig::default();
    config.state.cluster_name = String::new();
    assert_eq!(config.validate(), Err("集群名称不能为空".to_string()));

    let mut config = ClusterConfig::default();
    config.health_check.default_timeout = 500;
    assert_eq!(config.validate(), Err("健康检查超时必须大于0".to_string()));
}

#[test]
fn runtime_info_values_follow_the_configuration() {
    let config = ClusterConfig::default();
    let info = config.get_runtime_info();
    assert_eq!(info.len(), 7);
    assert_eq!(info[0], ("node_name".to_string(), "agentx-node".to_string()));
    assert_eq!(info[6], ("cluster_name".to_string(), "agentx-cluster".to_string()));
    assert_eq!(info[5].1, config.state.cluster_id);
}

#[test]
fn env_settings_not_given_keep_the_configured_values() {
    let mut config = ClusterConfig::default();
    let before = config.clone();
    config.load_from_env(no_env());
    assert_eq!(config.node.node_name, before.node.node_name);
    assert_eq!(config.state.cluster_id, before.state.cluster_id);
    assert_eq!(config.discovery.backend, before.discovery.backend);

    config.load_from_env(EnvSettings { discovery_backend: Some("unknown".to_string()), ..no_env() });
    assert_eq!(config.discovery.backend, DiscoveryBackend::Memory);
}
