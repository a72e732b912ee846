use agentx::error_recovery::{
    backoff_delay_ms, recovery_outcome, recovery_pause_ms, CircuitBreaker, CircuitBreakerState, ComponentStatus,
    ErrorRecoveryConfig, ErrorRecoveryManager, ErrorType, RecoveryStrategy,
};

#[test]
fn error_recovery_test_error_recovery_manager() {
    let config = ErrorRecoveryConfig { failure_threshold: 2, recovery_threshold: 2, ..Default::default() };
    let mut manager = ErrorRecoveryManager::new(config);

    manager.register_component("test_component", RecoveryStrategy::Retry);
    manager.report_error("test_component", ErrorType::Network, "连接失败", 4);

    let health = manager.get_component_health("test_component").unwrap();
    assert_eq!(health.status, ComponentStatus::Healthy);
    assert_eq!(health.consecutive_failures, 1);

    manager.report_error("test_component", ErrorType::Timeout, "超时", 4);
    let health = manager.get_component_health("test_component").unwrap();
    assert_eq!(health.status, ComponentStatus::Failed);
    assert_eq!(health.consecutive_failures, 2);

    manager.report_success("test_component");
    manager.report_success("test_component");
    let health = manager.get_component_health("test_component").unwrap();
    assert_eq!(health.status, ComponentStatus::Healthy);
    assert_eq!(health.consecutive_successes, 2);
}

#[test]
fn test_circuit_breaker() {
    let config = ErrorRecoveryConfig::default();
    let mut breaker = CircuitBreaker::new(config);

    assert!(breaker.allow_call(0));
    breaker.on_success();
    assert_eq!(breaker.state(), CircuitBreakerState::Closed);

    for _ in 0..5 {
        if breaker.allow_call(1) {
            breaker.on_failure(1);
        }
    }
    assert_eq!(breaker.state(), CircuitBreakerState::Open);
}

#[test]
fn open_breaker_lets_a_trial_through_after_the_timeout() {
    let config = ErrorRecoveryConfig { failure_threshold: 1, recovery_threshold: 2, ..Default::default() };
    let mut breaker = CircuitBreaker::new(config);
    breaker.on_failure(1_000);
    assert_eq!(breaker.state(), CircuitBreakerState::Open);
    assert!(!breaker.allow_call(1_000 + 60_000));
    assert!(breaker.allow_call(1_000 + 60_001));
    assert_eq!(breaker.state(), CircuitBreakerState::HalfOpen);
    breaker.on_success();
    assert_eq!(breaker.state(), CircuitBreakerState::HalfOpen);
    breaker.on_success();
    assert_eq!(breaker.state(), CircuitBreakerState::Closed);
    assert_eq!(breaker.failure_count(), 0);
}

#[test]
fn half_open_breaker_reopens_on_failure() {
    let config = ErrorRecoveryConfig { failure_threshold: 1, ..Default::default() };
    let mut breaker = CircuitBreaker::new(config);
    breaker.on_failure(0);
    assert!(breaker.allow_call(100_000));
    breaker.on_failure(100_000);
    assert_eq!(breaker.state(), CircuitBreakerState::Open);
}

#[test]
fn backoff_doubles_up_to_the_cap() {
    let config = ErrorRecoveryConfig::default();
    assert_eq!(backoff_delay_ms(&config, 0), 1000);
    assert_eq!(backoff_delay_ms(&config, 1), 1000);
    assert_eq!(backoff_delay_ms(&config, 2), 2000);
    assert_eq!(backoff_delay_ms(&config, 3), 4000);
    assert_eq!(backoff_delay_ms(&config, 6), 30_000);
    assert_eq!(backoff_delay_ms(&config, 40), 30_000);
}

#[test]
fn recovery_strategies_have_known_outcomes_and_pauses() {
    assert_eq!(recovery_outcome(RecoveryStrategy::Retry), None);
    assert_eq!(recovery_outcome(RecoveryStrategy::Restart), Some(true));
    assert_eq!(recovery_outcome(RecoveryStrategy::Manual), Some(false));
    assert_eq!(recovery_pause_ms(RecoveryStrategy::Restart), 2000);
    assert_eq!(recovery_pause_ms(RecoveryStrategy::Failover), 500);
    assert_eq!(recovery_pause_ms(RecoveryStrategy::Degrade), 0);
}

#[test]
fn severe_errors_ask_for_the_component_strategy() {
    let mut manager = ErrorRecoveryManager::new(ErrorRecoveryConfig::default());
    manager.register_component("db", RecoveryStrategy::Failover);
    assert_eq!(manager.report_error("db", ErrorType::DependencyFailure, "down", 3), Some(RecoveryStrategy::Failover));
    assert_eq!(manager.report_error("db", ErrorType::DependencyFailure, "slow", 2), None);
    assert_eq!(manager.report_error("unknown", ErrorType::Network, "x", 5), Some(RecoveryStrategy::Retry));
    assert_eq!(manager.get_error_history(None).len(), 3);
    assert_eq!(manager.get_error_history(Some(1)).len(), 1);
    assert_eq!(manager.get_error_history(Some(1))[0].message, "x");
}

#[test]
fn developer_tools_tests_test_error_recovery_manager() {
    let config = ErrorRecoveryConfig { max_retries: 3, retry_interval_ms: 100, failure_threshold: 3, ..Default::default() };
    let mut manager = ErrorRecoveryManager::new(config);
    manager.register_component("test_component", RecoveryStrategy::Retry);

    for _ in 0..3 {
        manager.report_error("test_component", ErrorType::Network, "模拟网络错误", 2);
    }
    let health = manager.get_component_health("test_component").unwrap();
    assert_eq!(health.status, ComponentStatus::Failed);
    assert_eq!(health.consecutive_failures, 3);
    assert_eq!(manager.failed_components(), vec!["test_component".to_string()]);

    manager.report_success("test_component");
    let health = manager.get_component_health("test_component").unwrap();
    assert_eq!(health.consecutive_failures, 0);
}
