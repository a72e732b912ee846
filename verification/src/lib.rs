//! Cluster management and deployment tooling for an agent platform.

pub mod text;
pub mod listing;
pub mod error;
pub mod system;
pub mod config;
pub mod load_balancer;
pub mod agent;
pub mod node_manager;
pub mod service_discovery;
pub mod cluster_state;
pub mod health_checker;
pub mod cluster;
pub mod error_recovery;
pub mod tags;
pub mod distributed_tracing;
pub mod cloud_native;
pub mod developer_ecosystem;
pub mod a2a;
pub mod protocol_compat;
pub mod helm_charts;
pub mod cicd_pipeline;
pub mod debug_diagnostics;
pub mod performance_analyzer;
pub mod performance_benchmarks;
pub mod advanced_monitoring;
pub mod platform;
pub mod plugin_marketplace;
pub mod autoscaler;
pub mod real_network_benchmarks;
