//! Configuration of the cluster layer, its defaults, its validation, and the
//! settings that the environment can override.
use vstd::prelude::*;
use std::collections::HashMap;
use crate::load_balancer::{LoadBalancingStrategy, strategy_from_name, strategy_from_name_spec, strategy_name, strategy_name_spec};
use crate::node_manager::{NodeRole, role_name, role_name_spec};
use crate::service_discovery::{DiscoveryBackend, backend_from_name, backend_from_name_spec, backend_name, backend_name_spec};
use crate::system::new_uuid;

verus! {

/// Settings of this node. Durations are in milliseconds.
#[derive(Debug, Clone)]
pub struct NodeConfig {
    /// Node id; one is generated when absent.
    pub node_id: Option<String>,
    /// Node name.
    pub node_name: String,
    /// Address to bind, as `host:port`.
    pub bind_address: String,
    /// Role of the node.
    pub role: NodeRole,
    /// Interval between heartbeats, in milliseconds.
    pub heartbeat_interval: u64,
    /// Interval between node discovery rounds, in milliseconds.
    pub discovery_interval: u64,
    /// Free-form metadata.
    pub metadata: HashMap<String, String>,
    /// Capabilities of the node.
    pub capabilities: Vec<String>,
}

/// Settings of Consul.
#[derive(Debug, Clone)]
pub struct ConsulConfig {
    /// Address of Consul.
    pub address: String,
    /// Datacenter.
    pub datacenter: Option<String>,
    /// Access token.
    pub token: Option<String>,
    /// Namespace.
    pub namespace: Option<String>,
}

/// Settings of etcd.
#[derive(Debug, Clone)]
pub struct EtcdConfig {
    /// Endpoints of the etcd cluster.
    pub endpoints: Vec<String>,
    /// User name.
    pub username: Option<String>,
    /// Password.
    pub password: Option<String>,
    /// Path of the client certificate.
    pub cert_path: Option<String>,
    /// Path of the client key.
    pub key_path: Option<String>,
    /// Path of the CA certificate.
    pub ca_path: Option<String>,
}

/// Settings of Kubernetes discovery.
#[derive(Debug, Clone)]
pub struct KubernetesConfig {
    /// Namespace.
    pub namespace: String,
    /// Label selector.
    pub label_selector: Option<String>,
    /// Field selector.
    pub field_selector: Option<String>,
    /// Path of the kubeconfig file.
    pub kubeconfig_path: Option<String>,
}

/// Settings of service discovery. Durations are in milliseconds.
#[derive(Debug, Clone)]
pub struct DiscoveryConfig {
    /// Where registrations are kept.
    pub backend: DiscoveryBackend,
    /// Time to live of a registration, in seconds.
    pub ttl_seconds: u64,
    /// Interval between clean-ups, in milliseconds.
    pub cleanup_interval: u64,
    /// Consul settings.
    pub consul: Option<ConsulConfig>,
    /// etcd settings.
    pub etcd: Option<EtcdConfig>,
    /// Kubernetes settings.
    pub kubernetes: Option<KubernetesConfig>,
}

/// Settings of the load balancer. Durations are in milliseconds.
#[derive(Debug, Clone)]
pub struct LoadBalancerConfig {
    /// How targets are chosen.
    pub strategy: LoadBalancingStrategy,
    /// Interval between statistics updates, in milliseconds.
    pub stats_update_interval: u64,
    /// Interval between health checks, in milliseconds.
    pub health_check_interval: u64,
    /// Connection timeout, in milliseconds.
    pub connection_timeout: u64,
    /// Most retries of a request.
    pub max_retries: u32,
}

/// Settings of the cluster state. Durations are in milliseconds.
#[derive(Debug, Clone)]
pub struct StateConfig {
    /// Cluster id.
    pub cluster_id: String,
    /// Cluster name.
    pub cluster_name: String,
    /// Where state is synchronised.
    pub sync_backend: String,
    /// Interval between synchronisations, in milliseconds.
    pub sync_interval: u64,
    /// Interval between statistics rounds, in milliseconds.
    pub stats_interval: u64,
    /// Free-form metadata.
    pub metadata: HashMap<String, String>,
}

/// Settings of health checking. Durations are in milliseconds.
#[derive(Debug, Clone)]
pub struct HealthCheckConfig {
    /// Interval of the checking round, in milliseconds.
    pub check_interval: u64,
    /// Default interval between checks of a target, in milliseconds.
    pub default_interval: u64,
    /// Default timeout of a check, in milliseconds.
    pub default_timeout: u64,
    /// Default number of retries of a check.
    pub default_retries: u32,
    /// Failures after which a target counts as down.
    pub failure_threshold: u32,
    /// Successes after which a target counts as up.
    pub success_threshold: u32,
}

/// Settings of the whole cluster layer.
#[derive(Debug, Clone)]
pub struct ClusterConfig {
    /// This node.
    pub node: NodeConfig,
    /// Service discovery.
    pub discovery: DiscoveryConfig,
    /// Load balancing.
    pub load_balancer: LoadBalancerConfig,
    /// Cluster state.
    pub state: StateConfig,
    /// Health checking.
    pub health_check: HealthCheckConfig,
}

impl Default for NodeConfig {
    fn default() -> (r: Self)
        ensures
            r.node_id is None,
            r.node_name@ == "agentx-node"@,
            r.bind_address@ == "0.0.0.0:8080"@,
            r.role == NodeRole::Worker,
            r.heartbeat_interval == 30_000,
            r.discovery_interval == 60_000,
            r.capabilities@.len() == 2,
            r.capabilities@[0]@ == "agent.hosting"@,
            r.capabilities@[1]@ == "message.routing"@,
    {
        let mut capabilities: Vec<String> = Vec::new();
        capabilities.push(String::from_str("agent.hosting"));
        capabilities.push(String::from_str("message.routing"));
        NodeConfig {
            node_id: None,
            node_name: String::from_str("agentx-node"),
            bind_address: String::from_str("0.0.0.0:8080"),
            role: NodeRole::Worker,
            heartbeat_interval: 30_000,
            discovery_interval: 60_000,
            metadata: HashMap::new(),
            capabilities,
        }
    }
}

impl Default for DiscoveryConfig {
    fn default() -> (r: Self)
        ensures
            r.backend == DiscoveryBackend::Memory,
            r.ttl_seconds == 300,
            r.cleanup_interval == 60_000,
            r.consul is None,
            r.etcd is None,
            r.kubernetes is None,
    {
        DiscoveryConfig {
            backend: DiscoveryBackend::Memory,
            ttl_seconds: 300,
            cleanup_interval: 60_000,
            consul: None,
            etcd: None,
            kubernetes: None,
        }
    }
}

impl Default for LoadBalancerConfig {
    fn default() -> (r: Self)
        ensures
            r.strategy == LoadBalancingStrategy::RoundRobin,
            r.stats_update_interval == 30_000,
            r.health_check_interval == 10_000,
            r.connection_timeout == 5_000,
            r.max_retries == 3,
    {
        LoadBalancerConfig {
            strategy: LoadBalancingStrategy::RoundRobin,
            stats_update_interval: 30_000,
            health_check_interval: 10_000,
            connection_timeout: 5_000,
            max_retries: 3,
        }
    }
}

impl Default for StateConfig {
    fn default() -> (r: Self)
        ensures
            r.cluster_id@.len() == 36,
            r.cluster_name@ == "agentx-cluster"@,
            r.sync_backend@ == "memory"@,
            r.sync_interval == 30_000,
            r.stats_interval == 60_000,
    {
        StateConfig {
            cluster_id: new_uuid(),
            cluster_name: String::from_str("agentx-cluster"),
            sync_backend: String::from_str("memory"),
            sync_interval: 30_000,
            stats_interval: 60_000,
            metadata: HashMap::new(),
        }
    }
}

impl Default for HealthCheckConfig {
    fn default() -> (r: Self)
        ensures
            r.check_interval == 10_000,
            r.default_interval == 30_000,
            r.default_timeout == 5_000,
            r.default_retries == 3,
            r.failure_threshold == 3,
            r.success_threshold == 2,
    {
        HealthCheckConfig {
            check_interval: 10_000,
            default_interval: 30_000,
            default_timeout: 5_000,
            default_retries: 3,
            failure_threshold: 3,
            success_threshold: 2,
        }
    }
}

impl Default for ClusterConfig {
    fn default() -> (r: Self)
        ensures
            r.node.node_name@ == "agentx-node"@,
            r.node.heartbeat_interval == 30_000,
            r.discovery.backend == DiscoveryBackend::Memory,
            r.discovery.ttl_seconds == 300,
            r.load_balancer.strategy == LoadBalancingStrategy::RoundRobin,
            r.load_balancer.connection_timeout == 5_000,
            r.state.cluster_id@.len() == 36,
            r.state.cluster_name@ == "agentx-cluster"@,
            r.state.sync_backend@ == "memory"@,
            r.health_check.default_timeout == 5_000,
    {
        ClusterConfig {
            node: NodeConfig::default(),
            discovery: DiscoveryConfig::default(),
            load_balancer: LoadBalancerConfig::default(),
            state: StateConfig::default(),
            health_check: HealthCheckConfig::default(),
        }
    }
}

/// The first problem of a configuration, in the order in which they are
/// checked, or `None` when there is none. A duration counts as zero when it is
/// under a whole second.
pub open spec fn config_problem(c: ClusterConfig) -> Option<Seq<char>> {
    if c.node.node_name@.len() == 0 {
        Some("节点名称不能为空"@)
    } else if c.node.heartbeat_interval < 1000 {
        Some("心跳间隔必须大于0"@)
    } else if c.discovery.ttl_seconds == 0 {
        Some("TTL必须大于0"@)
    } else if c.load_balancer.connection_timeout < 1000 {
        Some("连接超时必须大于0"@)
    } else if c.state.cluster_id@.len() == 0 {
        Some("集群ID不能为空"@)
    } else if c.state.cluster_name@.len() == 0 {
        Some("集群名称不能为空"@)
    } else if c.health_check.default_timeout < 1000 {
        Some("健康检查超时必须大于0"@)
    } else {
        None
    }
}

/// The settings that the environment gave, as the environment variables
/// `AGENTX_NODE_ID`, `AGENTX_NODE_NAME`, `AGENTX_BIND_ADDRESS` (only when it is a
/// valid socket address), `AGENTX_DISCOVERY_BACKEND`, `AGENTX_LB_STRATEGY`,
/// `AGENTX_CLUSTER_ID` and `AGENTX_CLUSTER_NAME` hold them.
pub struct EnvSettings {
    /// Node id.
    pub node_id: Option<String>,
    /// Node name.
    pub node_name: Option<String>,
    /// Address to bind, already known to be a valid socket address.
    pub bind_address: Option<String>,
    /// Name of the discovery backend.
    pub discovery_backend: Option<String>,
    /// Name of the load balancing strategy.
    pub lb_strategy: Option<String>,
    /// Cluster id.
    pub cluster_id: Option<String>,
    /// Cluster name.
    pub cluster_name: Option<String>,
}

impl ClusterConfig {
    /// `Ok` when the configuration is usable, else the first problem found.
    pub fn validate(&self) -> (r: Result<(), String>)
        ensures
            match config_problem(*self) {
                None => r is Ok,
                Some(m) => r matches Err(e) && e@ == m,
            },
    {
        if self.node.node_name.unicode_len() == 0 {
            return Err(String::from_str("节点名称不能为空"));
        }
        if self.node.heartbeat_interval < 1000 {
            return Err(String::from_str("心跳间隔必须大于0"));
        }
        if self.discovery.ttl_seconds == 0 {
            return Err(String::from_str("TTL必须大于0"));
        }
        if self.load_balancer.connection_timeout < 1000 {
            return Err(String::from_str("连接超时必须大于0"));
        }
        if self.state.cluster_id.unicode_len() == 0 {
            return Err(String::from_str("集群ID不能为空"));
        }
        if self.state.cluster_name.unicode_len() == 0 {
            return Err(String::from_str("集群名称不能为空"));
        }
        if self.health_check.default_timeout < 1000 {
            return Err(String::from_str("健康检查超时必须大于0"));
        }
        Ok(())
    }

    /// Takes over the settings that the environment gave; each one given
    /// replaces the configured value, the others are kept.
    pub fn load_from_env(&mut self, env: EnvSettings)
        ensures
            final(self).node.node_id == (match env.node_id {
                Some(v) => Some(v),
                None => old(self).node.node_id,
            }),
            final(self).node.node_name == (match env.node_name {
                Some(v) => v,
                None => old(self).node.node_name,
            }),
            final(self).node.bind_address == (match env.bind_address {
                Some(v) => v,
                None => old(self).node.bind_address,
            }),
            final(self).discovery.backend == (match env.discovery_backend {
                Some(v) => backend_from_name_spec(v@),
                None => old(self).discovery.backend,
            }),
            final(self).load_balancer.strategy == (match env.lb_strategy {
                Some(v) => strategy_from_name_spec(v@),
                None => old(self).load_balancer.strategy,
            }),
            final(self).state.cluster_id == (match env.cluster_id {
                Some(v) => v,
                None => old(self).state.cluster_id,
            }),
            final(self).state.cluster_name == (match env.cluster_name {
                Some(v) => v,
                None => old(self).state.cluster_name,
            }),
            final(self).node.role == old(self).node.role,
            final(self).node.heartbeat_interval == old(self).node.heartbeat_interval,
            final(self).discovery.ttl_seconds == old(self).discovery.ttl_seconds,
            final(self).load_balancer.connection_timeout == old(self).load_balancer.connection_timeout,
            final(self).health_check.default_timeout == old(self).health_check.default_timeout,
    {
        match env.node_id {
            Some(v) => { self.node.node_id = Some(v); },
            None => {},
        }
        match env.node_name {
            Some(v) => { self.node.node_name = v; },
            None => {},
        }
        match env.bind_address {
            Some(v) => { self.node.bind_address = v; },
            None => {},
        }
        match env.discovery_backend {
            Some(v) => { self.discovery.backend = backend_from_name(v.as_str()); },
            None => {},
        }
        match env.lb_strategy {
            Some(v) => { self.load_balancer.strategy = strategy_from_name(v.as_str()); },
            None => {},
        }
        match env.cluster_id {
            Some(v) => { self.state.cluster_id = v; },
            None => {},
        }
        match env.cluster_name {
            Some(v) => { self.state.cluster_name = v; },
            None => {},
        }
    }

    /// What is reported of the configuration at run time, as (name, value)
    /// pairs: node name, bind address, node role, discovery backend, load
    /// balancing strategy, cluster id and cluster name.
    pub fn get_runtime_info(&self) -> (r: Vec<(String, String)>)
        ensures
            r@.len() == 7,
            r@[0].0@ == "node_name"@ && r@[0].1@ == self.node.node_name@,
            r@[1].0@ == "bind_address"@ && r@[1].1@ == self.node.bind_address@,
            r@[2].0@ == "node_role"@ && r@[2].1@ == role_name_spec(self.node.role),
            r@[3].0@ == "discovery_backend"@ && r@[3].1@ == backend_name_spec(self.discovery.backend),
            r@[4].0@ == "lb_strategy"@ && r@[4].1@ == strategy_name_spec(self.load_balancer.strategy),
            r@[5].0@ == "cluster_id"@ && r@[5].1@ == self.state.cluster_id@,
            r@[6].0@ == "cluster_name"@ && r@[6].1@ == self.state.cluster_name@,
    {
        let mut info: Vec<(String, String)> = Vec::new();
        info.push((String::from_str("node_name"), self.node.node_name.clone()));
        info.push((String::from_str("bind_address"), self.node.bind_address.clone()));
        info.push((String::from_str("node_role"), String::from_str(role_name(self.node.role))));
        info.push((String::from_str("discovery_backend"), String::from_str(backend_name(self.discovery.backend))));
        info.push((String::from_str("lb_strategy"), String::from_str(strategy_name(self.load_balancer.strategy))));
        info.push((String::from_str("cluster_id"), self.state.cluster_id.clone()));
        info.push((String::from_str("cluster_name"), self.state.cluster_name.clone()));
        info
    }
}

} // verus!
