//! Error handling and recovery: the health of each component, derived from the
//! errors and successes reported for it, the circuit breakers that shield a
//! failing component, and the recovery that an error triggers.
use vstd::prelude::*;
use std::collections::HashMap;
use crate::system::{new_uuid, now_millis};
use crate::listing::keys_where;

verus! {

/// Settings of error recovery. The backoff factor is given in thousandths.
#[derive(Debug, Clone, Copy, PartialEq, Eq, Structural)]
pub struct ErrorRecoveryConfig {
    /// Retries of a retry recovery.
    pub max_retries: u32,
    /// Delay before the first retry, in milliseconds.
    pub retry_interval_ms: u64,
    /// Factor by which each further retry waits longer, in thousandths.
    pub backoff_factor_permille: u64,
    /// Longest wait between retries, in milliseconds.
    pub max_backoff_ms: u64,
    /// Interval between health checks, in seconds.
    pub health_check_interval_secs: u64,
    /// Failures in a row after which a component has failed.
    pub failure_threshold: u32,
    /// Successes in a row after which a component has recovered.
    pub recovery_threshold: u32,
    /// Time an open circuit breaker stays open, in seconds.
    pub circuit_breaker_timeout_secs: u64,
}

impl Default for ErrorRecoveryConfig {
    fn default() -> (r: Self)
        ensures
            r.max_retries == 3,
            r.retry_interval_ms == 1000,
            r.backoff_factor_permille == 2000,
            r.max_backoff_ms == 30_000,
            r.health_check_interval_secs == 30,
            r.failure_threshold == 5,
            r.recovery_threshold == 3,
            r.circuit_breaker_timeout_secs == 60,
    {
        ErrorRecoveryConfig {
            max_retries: 3,
            retry_interval_ms: 1000,
            backoff_factor_permille: 2000,
            max_backoff_ms: 30_000,
            health_check_interval_secs: 30,
            failure_threshold: 5,
            recovery_threshold: 3,
            circuit_breaker_timeout_secs: 60,
        }
    }
}

/// State of a component.
#[derive(Debug, Clone, Copy, PartialEq, Eq, Structural)]
pub enum ComponentStatus {
    /// Working.
    Healthy,
    /// Working with errors.
    Degraded,
    /// Not working.
    Failed,
    /// Being recovered.
    Recovering,
    /// Under maintenance.
    Maintenance,
}

/// Kind of error.
#[derive(Debug, Clone, Copy, PartialEq, Eq, Structural)]
pub enum ErrorType {
    /// Network failure.
    Network,
    /// Time-out.
    Timeout,
    /// A resource ran out.
    ResourceExhausted,
    /// Wrong configuration.
    Configuration,
    /// A service depended on failed.
    DependencyFailure,
    /// Internal failure.
    Internal,
    /// Anything else.
    Unknown,
}

/// How a component is recovered.
#[derive(Debug, Clone, Copy, PartialEq, Eq, Structural)]
pub enum RecoveryStrategy {
    /// Try again.
    Retry,
    /// Restart the component.
    Restart,
    /// Switch over to a standby.
    Failover,
    /// Serve with reduced function.
    Degrade,
    /// Leave it to an operator.
    Manual,
}

/// State of a circuit breaker.
#[derive(Debug, Clone, Copy, PartialEq, Eq, Structural)]
pub enum CircuitBreakerState {
    /// Calls go through.
    Closed,
    /// Calls are refused.
    Open,
    /// Calls go through to test whether the component recovered.
    HalfOpen,
}

/// One reported error.
#[derive(Debug)]
pub struct ErrorEvent {
    /// Event id.
    pub id: String,
    /// Component that failed.
    pub component: String,
    /// Kind of error.
    pub error_type: ErrorType,
    /// What went wrong.
    pub message: String,
    /// When, in milliseconds since the Unix epoch.
    pub timestamp: i64,
    /// Severity from 1 to 5, 5 the worst.
    pub severity: u8,
    /// Context.
    pub context: HashMap<String, String>,
}

/// The plain-value view of an error event.
pub struct ErrorEventView {
    /// Event id.
    pub id: Seq<char>,
    /// Component.
    pub component: Seq<char>,
    /// Kind of error.
    pub error_type: ErrorType,
    /// Message.
    pub message: Seq<char>,
    /// Time.
    pub timestamp: i64,
    /// Severity.
    pub severity: u8,
    /// Context.
    pub context: Map<String, String>,
}

impl View for ErrorEvent {
    type V = ErrorEventView;

    open spec fn view(&self) -> ErrorEventView {
        ErrorEventView {
            id: self.id@,
            component: self.component@,
            error_type: self.error_type,
            message: self.message@,
            timestamp: self.timestamp,
            severity: self.severity,
            context: self.context@,
        }
    }
}

impl Clone for ErrorEvent {
    fn clone(&self) -> (r: Self)
        ensures
            r@ == self@,
    {
        ErrorEvent {
            id: self.id.clone(),
            component: self.component.clone(),
            error_type: self.error_type,
            message: self.message.clone(),
            timestamp: self.timestamp,
            severity: self.severity,
            context: self.context.clone(),
        }
    }
}

/// One recovery that was carried out.
#[derive(Debug)]
pub struct RecoveryAction {
    /// Action id.
    pub id: String,
    /// Strategy applied.
    pub strategy: RecoveryStrategy,
    /// Component recovered.
    pub component: String,
    /// When, in milliseconds since the Unix epoch.
    pub executed_at: i64,
    /// Whether it worked.
    pub success: bool,
    /// Outcome in words.
    pub result: String,
}

/// The plain-value view of a recovery action.
pub struct RecoveryActionView {
    /// Action id.
    pub id: Seq<char>,
    /// Strategy.
    pub strategy: RecoveryStrategy,
    /// Component.
    pub component: Seq<char>,
    /// Time.
    pub executed_at: i64,
    /// Whether it worked.
    pub success: bool,
    /// Outcome in words.
    pub result: Seq<char>,
}

impl View for RecoveryAction {
    type V = RecoveryActionView;

    open spec fn view(&self) -> RecoveryActionView {
        RecoveryActionView {
            id: self.id@,
            strategy: self.strategy,
            component: self.component@,
            executed_at: self.executed_at,
            success: self.success,
            result: self.result@,
        }
    }
}

impl Clone for RecoveryAction {
    fn clone(&self) -> (r: Self)
        ensures
            r@ == self@,
    {
        RecoveryAction {
            id: self.id.clone(),
            strategy: self.strategy,
            component: self.component.clone(),
            executed_at: self.executed_at,
            success: self.success,
            result: self.result.clone(),
        }
    }
}

/// The health of a component, as its reports made it.
#[derive(Debug)]
pub struct ComponentHealth {
    /// Component name.
    pub component: String,
    /// Current state.
    pub status: ComponentStatus,
    /// Last report, in milliseconds since the Unix epoch.
    pub last_check: i64,
    /// Failures in a row.
    pub consecutive_failures: u32,
    /// Successes in a row.
    pub consecutive_successes: u32,
    /// All failures.
    pub total_failures: u64,
    /// All successes.
    pub total_successes: u64,
}

/// The plain-value view of a component's health.
pub struct ComponentHealthView {
    /// Component name.
    pub component: Seq<char>,
    /// Current state.
    pub status: ComponentStatus,
    /// Last report.
    pub last_check: i64,
    /// Failures in a row.
    pub consecutive_failures: u32,
    /// Successes in a row.
    pub consecutive_successes: u32,
    /// All failures.
    pub total_failures: u64,
    /// All successes.
    pub total_successes: u64,
}

impl View for ComponentHealth {
    type V = ComponentHealthView;

    open spec fn view(&self) -> ComponentHealthView {
        ComponentHealthView {
            component: self.component@,
            status: self.status,
            last_check: self.last_check,
            consecutive_failures: self.consecutive_failures,
            consecutive_successes: self.consecutive_successes,
            total_failures: self.total_failures,
            total_successes: self.total_successes,
        }
    }
}

impl Clone for ComponentHealth {
    fn clone(&self) -> (r: Self)
        ensures
            r@ == self@,
    {
        ComponentHealth {
            component: self.component.clone(),
            status: self.status,
            last_check: self.last_check,
            consecutive_failures: self.consecutive_failures,
            consecutive_successes: self.consecutive_successes,
            total_failures: self.total_failures,
            total_successes: self.total_successes,
        }
    }
}

/// `n + 1`, staying at the largest `u32`.
pub open spec fn bump32(n: u32) -> u32 {
    if n == u32::MAX { n } else { (n + 1) as u32 }
}

/// `n + 1`, staying at the largest `u64`.
pub open spec fn bump64(n: u64) -> u64 {
    if n == u64::MAX { n } else { (n + 1) as u64 }
}

/// A component's health after a failure reported at `now`: the failures in a
/// row count up and the successes restart; at the failure threshold the
/// component has failed, and from two failures in a row on it is degraded.
pub open spec fn health_after_failure(h: ComponentHealthView, config: ErrorRecoveryConfig, now: i64) -> ComponentHealthView {
    let f = bump32(h.consecutive_failures);
    ComponentHealthView {
        last_check: now,
        consecutive_failures: f,
        consecutive_successes: 0,
        total_failures: bump64(h.total_failures),
        status: if f >= config.failure_threshold {
            ComponentStatus::Failed
        } else if f >= 2 {
            ComponentStatus::Degraded
        } else {
            h.status
        },
        ..h
    }
}

/// A component's health after a success reported at `now`: the successes in a
/// row count up and the failures restart; at the recovery threshold a
/// component that was not healthy is healthy again.
pub open spec fn health_after_success(h: ComponentHealthView, config: ErrorRecoveryConfig, now: i64) -> ComponentHealthView {
    let s = bump32(h.consecutive_successes);
    ComponentHealthView {
        last_check: now,
        consecutive_successes: s,
        consecutive_failures: 0,
        total_successes: bump64(h.total_successes),
        status: if h.status != ComponentStatus::Healthy && s >= config.recovery_threshold {
            ComponentStatus::Healthy
        } else {
            h.status
        },
        ..h
    }
}

/// Records a failure reported at `now`.
pub fn record_failure(h: &mut ComponentHealth, config: &ErrorRecoveryConfig, now: i64)
    ensures
        final(h)@ == health_after_failure(old(h)@, *config, now),
{
    h.last_check = now;
    h.consecutive_failures = h.consecutive_failures.saturating_add(1);
    h.consecutive_successes = 0;
    h.total_failures = h.total_failures.saturating_add(1);
    if h.consecutive_failures >= config.failure_threshold {
        h.status = ComponentStatus::Failed;
    } else if h.consecutive_failures >= 2 {
        h.status = ComponentStatus::Degraded;
    }
}

/// Records a success reported at `now`.
pub fn record_success(h: &mut ComponentHealth, config: &ErrorRecoveryConfig, now: i64)
    ensures
        final(h)@ == health_after_success(old(h)@, *config, now),
{
    h.last_check = now;
    h.consecutive_successes = h.consecutive_successes.saturating_add(1);
    h.consecutive_failures = 0;
    h.total_successes = h.total_successes.saturating_add(1);
    if h.status != ComponentStatus::Healthy && h.consecutive_successes >= config.recovery_threshold {
        h.status = ComponentStatus::Healthy;
    }
}

/// The wait before retry number `attempt` (counted from 1), in milliseconds:
/// the retry interval, made longer by the backoff factor once per earlier
/// retry (each step rounded down to whole milliseconds), and never longer
/// than the longest backoff.
pub open spec fn backoff_ms(config: ErrorRecoveryConfig, attempt: nat) -> nat
    decreases attempt,
{
    if attempt <= 1 {
        if config.retry_interval_ms <= config.max_backoff_ms { config.retry_interval_ms as nat } else { config.max_backoff_ms as nat }
    } else {
        let prev = backoff_ms(config, (attempt - 1) as nat);
        let next = prev * (config.backoff_factor_permille as nat) / 1000;
        if next <= config.max_backoff_ms { next } else { config.max_backoff_ms as nat }
    }
}

/// The wait before retry number `attempt` (counted from 1), in milliseconds.
pub fn backoff_delay_ms(config: &ErrorRecoveryConfig, attempt: u32) -> (r: u64)
    ensures
        r == backoff_ms(*config, attempt as nat),
{
    let mut d: u64 = if config.retry_interval_ms <= config.max_backoff_ms {
        config.retry_interval_ms
    } else {
        config.max_backoff_ms
    };
    let mut k: u32 = 1;
    while k < attempt
        invariant
            1 <= k,
            k <= attempt || attempt == 0,
            attempt == 0 ==> k == 1,
            d == backoff_ms(*config, k as nat),
            d <= config.max_backoff_ms,
        decreases attempt - k,
    {
        assert((d as u128) * (config.backoff_factor_permille as u128) <= 0xffff_ffff_ffff_ffffu128 * 0xffff_ffff_ffff_ffffu128)
            by (nonlinear_arith)
            requires
                d <= 0xffff_ffff_ffff_ffffu64,
                config.backoff_factor_permille <= 0xffff_ffff_ffff_ffffu64,
        ;
        let next: u128 = (d as u128) * (config.backoff_factor_permille as u128) / 1000;
        d = if next <= config.max_backoff_ms as u128 { next as u64 } else { config.max_backoff_ms };
        k = k + 1;
    }
    assert(backoff_ms(*config, 0) == backoff_ms(*config, 1));
    d
}

/// The backoff is exponential and capped: no wait is longer than the longest
/// backoff, and with a factor of at least one no retry waits less than the
/// one before it.
pub proof fn lemma_backoff_capped_and_growing(config: ErrorRecoveryConfig, attempt: nat)
    ensures
        backoff_ms(config, attempt) <= config.max_backoff_ms,
        config.backoff_factor_permille >= 1000 ==> backoff_ms(config, attempt) <= backoff_ms(config, attempt + 1),
{
    let next_attempt = attempt + 1;
    if next_attempt > 1 {
        let prev = backoff_ms(config, attempt);
        let f = config.backoff_factor_permille as nat;
        assert(backoff_ms(config, (next_attempt - 1) as nat) == prev);
        if f >= 1000 {
            assert(prev * f / 1000 >= prev) by (nonlinear_arith)
                requires
                    f >= 1000,
            ;
        }
    }
}

/// What a recovery with a strategy is known to come to without trying:
/// restarting, failing over and degrading always work, manual recovery never
/// does, and a retry depends on the retries.
pub open spec fn known_outcome(strategy: RecoveryStrategy) -> Option<bool> {
    match strategy {
        RecoveryStrategy::Retry => None,
        RecoveryStrategy::Restart => Some(true),
        RecoveryStrategy::Failover => Some(true),
        RecoveryStrategy::Degrade => Some(true),
        RecoveryStrategy::Manual => Some(false),
    }
}

/// What a recovery with a strategy comes to without trying, if known.
pub fn recovery_outcome(strategy: RecoveryStrategy) -> (r: Option<bool>)
    ensures
        r == known_outcome(strategy),
{
    match strategy {
        RecoveryStrategy::Retry => None,
        RecoveryStrategy::Restart => Some(true),
        RecoveryStrategy::Failover => Some(true),
        RecoveryStrategy::Degrade => Some(true),
        RecoveryStrategy::Manual => Some(false),
    }
}

/// The time a recovery takes before it completes, in milliseconds: a restart
/// takes two seconds, a failover half a second.
pub open spec fn pause_of(strategy: RecoveryStrategy) -> u64 {
    match strategy {
        RecoveryStrategy::Restart => 2000,
        RecoveryStrategy::Failover => 500,
        _ => 0,
    }
}

/// The time a recovery takes before it completes, in milliseconds.
pub fn recovery_pause_ms(strategy: RecoveryStrategy) -> (r: u64)
    ensures
        r == pause_of(strategy),
{
    match strategy {
        RecoveryStrategy::Restart => 2000,
        RecoveryStrategy::Failover => 500,
        _ => 0,
    }
}

/// The plain-value view of a circuit breaker.
pub struct CircuitBreakerView {
    /// State.
    pub state: CircuitBreakerState,
    /// Failures counted.
    pub failure_count: u32,
    /// Successes counted while half open.
    pub success_count: u32,
    /// Last failure, in milliseconds since the Unix epoch.
    pub last_failure_at: Option<i64>,
    /// Settings.
    pub config: ErrorRecoveryConfig,
}

/// A circuit breaker: it opens after enough failures, refuses calls while
/// open, lets calls through again on trial once its timeout has passed, and
/// closes after enough successful trials.
#[derive(Debug, Clone, Copy)]
pub struct CircuitBreaker {
    state: CircuitBreakerState,
    failure_count: u32,
    success_count: u32,
    last_failure_at: Option<i64>,
    config: ErrorRecoveryConfig,
}

impl View for CircuitBreaker {
    type V = CircuitBreakerView;

    closed spec fn view(&self) -> CircuitBreakerView {
        CircuitBreakerView {
            state: self.state,
            failure_count: self.failure_count,
            success_count: self.success_count,
            last_failure_at: self.last_failure_at,
            config: self.config,
        }
    }
}

/// Whether a call is let through at `now`, and the breaker afterwards: an open
/// breaker whose timeout has passed since its last failure turns half open
/// with no successes counted and lets the call through, one whose timeout has
/// not passed refuses it; a breaker that is not open lets every call through.
pub open spec fn breaker_allows(b: CircuitBreakerView, now: i64) -> (bool, CircuitBreakerView) {
    match b.state {
        CircuitBreakerState::Open => match b.last_failure_at {
            Some(t) => if now - t > b.config.circuit_breaker_timeout_secs * 1000 {
                (true, CircuitBreakerView { state: CircuitBreakerState::HalfOpen, success_count: 0, ..b })
            } else {
                (false, b)
            },
            None => (true, b),
        },
        _ => (true, b),
    }
}

/// The breaker after a call succeeded: half open, the successes count up and
/// at the recovery threshold it closes with both counts cleared; closed, the
/// failures are cleared.
pub open spec fn breaker_after_success(b: CircuitBreakerView) -> CircuitBreakerView {
    match b.state {
        CircuitBreakerState::HalfOpen => {
            let s = bump32(b.success_count);
            if s >= b.config.recovery_threshold {
                CircuitBreakerView { state: CircuitBreakerState::Closed, failure_count: 0, success_count: 0, ..b }
            } else {
                CircuitBreakerView { success_count: s, ..b }
            }
        },
        CircuitBreakerState::Closed => CircuitBreakerView { failure_count: 0, ..b },
        CircuitBreakerState::Open => b,
    }
}

/// The breaker after a call failed at `now`: the failures count up and the
/// time is kept; closed, it opens at the failure threshold; half open, it
/// opens again.
pub open spec fn breaker_after_failure(b: CircuitBreakerView, now: i64) -> CircuitBreakerView {
    let f = bump32(b.failure_count);
    let c = CircuitBreakerView { failure_count: f, last_failure_at: Some(now), ..b };
    match b.state {
        CircuitBreakerState::Closed => if f >= b.config.failure_threshold {
            CircuitBreakerView { state: CircuitBreakerState::Open, ..c }
        } else {
            c
        },
        CircuitBreakerState::HalfOpen => CircuitBreakerView { state: CircuitBreakerState::Open, ..c },
        CircuitBreakerState::Open => c,
    }
}

impl CircuitBreaker {
    /// A closed breaker with nothing counted.
    pub fn new(config: ErrorRecoveryConfig) -> (r: Self)
        ensures
            r@ == (CircuitBreakerView {
                state: CircuitBreakerState::Closed,
                failure_count: 0,
                success_count: 0,
                last_failure_at: None,
                config,
            }),
    {
        CircuitBreaker { state: CircuitBreakerState::Closed, failure_count: 0, success_count: 0, last_failure_at: None, config }
    }

    /// The state of the breaker.
    pub fn state(&self) -> (r: CircuitBreakerState)
        ensures
            r == self@.state,
    {
        self.state
    }

    /// Failures counted.
    pub fn failure_count(&self) -> (r: u32)
        ensures
            r == self@.failure_count,
    {
        self.failure_count
    }

    /// Whether a call at `now` (milliseconds since the Unix epoch) is let
    /// through.
    pub fn allow_call(&mut self, now: i64) -> (r: bool)
        ensures
            (r, final(self)@) == breaker_allows(old(self)@, now),
    {
        match self.state {
            CircuitBreakerState::Open => match self.last_failure_at {
                Some(t) => {
                    let elapsed: i128 = now as i128 - t as i128;
                    let limit: i128 = self.config.circuit_breaker_timeout_secs as i128 * 1000;
                    if elapsed > limit {
                        self.state = CircuitBreakerState::HalfOpen;
                        self.success_count = 0;
                        true
                    } else {
                        false
                    }
                },
                None => true,
            },
            _ => true,
        }
    }

    /// Records that a call succeeded.
    pub fn on_success(&mut self)
        ensures
            final(self)@ == breaker_after_success(old(self)@),
    {
        match self.state {
            CircuitBreakerState::HalfOpen => {
                self.success_count = self.success_count.saturating_add(1);
                if self.success_count >= self.config.recovery_threshold {
                    self.state = CircuitBreakerState::Closed;
                    self.failure_count = 0;
                    self.success_count = 0;
                }
            },
            CircuitBreakerState::Closed => {
                self.failure_count = 0;
            },
            CircuitBreakerState::Open => {},
        }
    }

    /// Records that a call failed at `now`.
    pub fn on_failure(&mut self, now: i64)
        ensures
            final(self)@ == breaker_after_failure(old(self)@, now),
    {
        self.failure_count = self.failure_count.saturating_add(1);
        self.last_failure_at = Some(now);
        match self.state {
            CircuitBreakerState::Closed => {
                if self.failure_count >= self.config.failure_threshold {
                    self.state = CircuitBreakerState::Open;
                }
            },
            CircuitBreakerState::HalfOpen => {
                self.state = CircuitBreakerState::Open;
            },
            CircuitBreakerState::Open => {},
        }
    }
}

/// A registered component: its health, how it is recovered and its breaker.
#[derive(Debug)]
pub struct ManagedComponent {
    /// Health.
    pub health: ComponentHealth,
    /// Recovery strategy.
    pub strategy: RecoveryStrategy,
    /// Circuit breaker.
    pub breaker: CircuitBreaker,
}

/// The plain-value view of a registered component.
pub struct ManagedComponentView {
    /// Health.
    pub health: ComponentHealthView,
    /// Recovery strategy.
    pub strategy: RecoveryStrategy,
    /// Circuit breaker.
    pub breaker: CircuitBreakerView,
}

impl View for ManagedComponent {
    type V = ManagedComponentView;

    open spec fn view(&self) -> ManagedComponentView {
        ManagedComponentView { health: self.health@, strategy: self.strategy, breaker: self.breaker@ }
    }
}

impl Clone for ManagedComponent {
    fn clone(&self) -> (r: Self)
        ensures
            r@ == self@,
    {
        ManagedComponent { health: self.health.clone(), strategy: self.strategy, breaker: self.breaker }
    }
}

/// Whether no two records name the same component.
pub open spec fn names_unique(s: Seq<ManagedComponentView>) -> bool {
    forall|i: int, j: int| 0 <= i < j < s.len() ==> s[i].health.component != s[j].health.component
}

/// Whether record `i` of `s` is the one of `name`.
pub open spec fn names_at(s: Seq<ManagedComponentView>, name: Seq<char>, i: int) -> bool {
    0 <= i < s.len() && s[i].health.component == name
}

/// The position of the record of `name`, if any.
pub open spec fn position_of(s: Seq<ManagedComponentView>, name: Seq<char>) -> Option<int> {
    if exists|i: int| names_at(s, name, i) {
        Some(choose|i: int| names_at(s, name, i))
    } else {
        None
    }
}

/// The strategy that recovers `name`: its own when registered, else retrying.
pub open spec fn strategy_for(s: Seq<ManagedComponentView>, name: Seq<char>) -> RecoveryStrategy {
    match position_of(s, name) {
        Some(i) => s[i].strategy,
        None => RecoveryStrategy::Retry,
    }
}

/// The record of a component just registered at `now`: healthy, nothing
/// counted, a closed breaker.
pub open spec fn fresh_component(
    name: Seq<char>,
    strategy: RecoveryStrategy,
    config: ErrorRecoveryConfig,
    now: i64,
) -> ManagedComponentView {
    ManagedComponentView {
        health: ComponentHealthView {
            component: name,
            status: ComponentStatus::Healthy,
            last_check: now,
            consecutive_failures: 0,
            consecutive_successes: 0,
            total_failures: 0,
            total_successes: 0,
        },
        strategy,
        breaker: CircuitBreakerView {
            state: CircuitBreakerState::Closed,
            failure_count: 0,
            success_count: 0,
            last_failure_at: None,
            config,
        },
    }
}

/// The health of a component after a completed recovery: a restart leaves it
/// recovering with its failures cleared, degrading leaves it degraded, the
/// other strategies leave it as it was.
pub open spec fn health_after_recovery(h: ComponentHealthView, strategy: RecoveryStrategy) -> ComponentHealthView {
    match strategy {
        RecoveryStrategy::Restart => ComponentHealthView {
            status: ComponentStatus::Recovering,
            consecutive_failures: 0,
            ..h
        },
        RecoveryStrategy::Degrade => ComponentHealthView { status: ComponentStatus::Degraded, ..h },
        _ => h,
    }
}

/// The last `n` elements of `s`, newest first.
pub open spec fn newest_first<A>(s: Seq<A>, n: nat) -> Seq<A> {
    let k = if n <= s.len() { n } else { s.len() };
    Seq::new(k, |i: int| s[s.len() - 1 - i])
}

/// Milliseconds in which errors count as recent.
pub const RECENT_WINDOW_MS: i64 = 300_000;

/// The number of errors of `s` later than `RECENT_WINDOW_MS` before `now`.
pub open spec fn recent_count(s: Seq<ErrorEventView>, now: i64) -> nat
    decreases s.len(),
{
    if s.len() == 0 {
        0
    } else {
        recent_count(s.drop_last(), now) + if s.last().timestamp > now - RECENT_WINDOW_MS { 1nat } else { 0nat }
    }
}

/// Changing the record at position `i` only, or adding one at the end
/// (`i` the old length), leaves where and how every other component is found.
proof fn lemma_lookup_elsewhere(s: Seq<ManagedComponentView>, t: Seq<ManagedComponentView>, n: Seq<char>, i: int)
    requires
        names_unique(s),
        names_unique(t),
        0 <= i <= s.len(),
        t.len() == (if i == s.len() { s.len() + 1int } else { s.len() as int }),
        forall|j: int| 0 <= j < s.len() && j != i ==> t[j] == s[j],
        i < s.len() ==> s[i].health.component == t[i].health.component,
        t[i].health.component != n,
    ensures
        match position_of(s, n) {
            Some(p) => position_of(t, n) == Some(p) && t[p] == s[p],
            None => position_of(t, n) is None,
        },
{
    if exists|p: int| names_at(s, n, p) {
        let p = choose|p: int| names_at(s, n, p);
        assert(p != i);
        assert(names_at(t, n, p));
        let q = choose|q: int| names_at(t, n, q);
        assert(q == p);
    } else {
        if exists|q: int| names_at(t, n, q) {
            let q = choose|q: int| names_at(t, n, q);
            assert(q != i);
            assert(names_at(s, n, q));
        }
    }
}

/// Keeps the health of registered components and the history of errors and
/// recoveries.
pub struct ErrorRecoveryManager {
    config: ErrorRecoveryConfig,
    components: Vec<ManagedComponent>,
    error_history: Vec<ErrorEvent>,
    recovery_history: Vec<RecoveryAction>,
}

impl ErrorRecoveryManager {
    /// The registered components, in the order they were first registered.
    pub closed spec fn comps(&self) -> Seq<ManagedComponentView> {
        self.components@.map_values(|c: ManagedComponent| c@)
    }

    /// The errors reported, oldest first.
    pub closed spec fn errors(&self) -> Seq<ErrorEventView> {
        self.error_history@.map_values(|e: ErrorEvent| e@)
    }

    /// The recoveries carried out, oldest first.
    pub closed spec fn recoveries(&self) -> Seq<RecoveryActionView> {
        self.recovery_history@.map_values(|a: RecoveryAction| a@)
    }

    /// The settings.
    pub closed spec fn config_spec(&self) -> ErrorRecoveryConfig {
        self.config
    }

    /// No component is registered twice.
    pub open spec fn wf(&self) -> bool {
        names_unique(self.comps())
    }

    /// The record of `name`, if registered.
    pub open spec fn lookup(&self, name: Seq<char>) -> Option<ManagedComponentView> {
        match position_of(self.comps(), name) {
            Some(i) => Some(self.comps()[i]),
            None => None,
        }
    }

    /// A manager with no components and no history.
    pub fn new(config: ErrorRecoveryConfig) -> (r: Self)
        ensures
            r.wf(),
            r.comps().len() == 0,
            r.errors().len() == 0,
            r.recoveries().len() == 0,
            r.config_spec() == config,
    {
        let r = ErrorRecoveryManager {
            config,
            components: Vec::new(),
            error_history: Vec::new(),
            recovery_history: Vec::new(),
        };
        assert(r.comps() =~= Seq::<ManagedComponentView>::empty());
        r
    }

    /// The settings.
    pub fn config(&self) -> (r: ErrorRecoveryConfig)
        ensures
            r == self.config_spec(),
    {
        self.config
    }

    /// The position of the record of `name`, if any.
    fn find_component(&self, name: &str) -> (r: Option<usize>)
        requires
            self.wf(),
        ensures
            match r {
                Some(i) => position_of(self.comps(), name@) == Some(i as int) && i < self.components@.len(),
                None => position_of(self.comps(), name@) is None,
            },
    {
        let n = self.components.len();
        let mut i: usize = 0;
        while i < n
            invariant
                n == self.components@.len(),
                i <= n,
                names_unique(self.comps()),
                forall|j: int| 0 <= j < i ==> !names_at(self.comps(), name@, j),
            decreases n - i,
        {
            if crate::text::same_text(self.components[i].health.component.as_str(), name) {
                proof {
                    assert(names_at(self.comps(), name@, i as int));
                    let j = choose|j: int| names_at(self.comps(), name@, j);
                    if j != i as int {
                        if j < i as int {
                        } else {
                            assert(self.comps()[i as int].health.component != self.comps()[j].health.component);
                        }
                    }
                }
                return Some(i);
            }
            proof {
                assert(!names_at(self.comps(), name@, i as int));
            }
            i = i + 1;
        }
        None
    }

    /// Registers a component with a recovery strategy: healthy, nothing
    /// counted, with a closed breaker; a component registered before starts
    /// over.
    pub fn register_component(&mut self, component: &str, strategy: RecoveryStrategy)
        requires
            old(self).wf(),
        ensures
            final(self).wf(),
            final(self).errors() == old(self).errors(),
            final(self).recoveries() == old(self).recoveries(),
            final(self).config_spec() == old(self).config_spec(),
            final(self).lookup(component@) is Some,
            final(self).lookup(component@)->0.strategy == strategy,
            forall|n: Seq<char>| n != component@ ==> #[trigger] final(self).lookup(n) == old(self).lookup(n),
            ({
                let now = final(self).lookup(component@)->0.health.last_check;
                let fresh = fresh_component(component@, strategy, old(self).config_spec(), now);
                match position_of(old(self).comps(), component@) {
                    Some(i) => final(self).comps() == old(self).comps().update(i, fresh),
                    None => final(self).comps() == old(self).comps().push(fresh),
                }
            }),
    {
        let now = now_millis();
        let record = ManagedComponent {
            health: ComponentHealth {
                component: String::from_str(component),
                status: ComponentStatus::Healthy,
                last_check: now,
                consecutive_failures: 0,
                consecutive_successes: 0,
                total_failures: 0,
                total_successes: 0,
            },
            strategy,
            breaker: CircuitBreaker::new(self.config),
        };
        let ghost fresh = fresh_component(component@, strategy, self.config, now);
        assert(record@ == fresh);
        match self.find_component(component) {
            Some(i) => {
                self.components.set(i, record);
                proof {
                    assert(self.comps() =~= old(self).comps().update(i as int, fresh));
                    assert(names_at(self.comps(), component@, i as int));
                    assert forall|a: int, b: int| 0 <= a < b < self.comps().len() implies
                        self.comps()[a].health.component != self.comps()[b].health.component by {
                        if a == i as int {
                            assert(old(self).comps()[i as int].health.component == component@);
                        } else if b == i as int {
                            assert(old(self).comps()[i as int].health.component == component@);
                        }
                    }
                    let j = choose|j: int| names_at(self.comps(), component@, j);
                    assert(j == i as int);
                    assert forall|n: Seq<char>| n != component@ implies #[trigger] self.lookup(n) == old(self).lookup(n) by {
                        lemma_lookup_elsewhere(old(self).comps(), self.comps(), n, i as int);
                    }
                }
            },
            None => {
                self.components.push(record);
                proof {
                    assert(self.comps() =~= old(self).comps().push(fresh));
                    let k = old(self).comps().len() as int;
                    assert(names_at(self.comps(), component@, k));
                    assert forall|a: int, b: int| 0 <= a < b < self.comps().len() implies
                        self.comps()[a].health.component != self.comps()[b].health.component by {
                        if b == k {
                            assert(!names_at(old(self).comps(), component@, a));
                        }
                    }
                    let j = choose|j: int| names_at(self.comps(), component@, j);
                    if j != k {
                        assert(!names_at(old(self).comps(), component@, j));
                    }
                    assert forall|n: Seq<char>| n != component@ implies #[trigger] self.lookup(n) == old(self).lookup(n) by {
                        lemma_lookup_elsewhere(old(self).comps(), self.comps(), n, k);
                    }
                }
            },
        }
    }

    /// Reports an error of a component: the error is recorded, and the
    /// component's health, when it is registered, counts a failure. Returns
    /// the recovery to carry out for an error of severity 3 or more: the
    /// component's strategy, or retrying for a component not registered.
    pub fn report_error(&mut self, component: &str, error_type: ErrorType, message: &str, severity: u8)
        -> (r: Option<RecoveryStrategy>)
        requires
            old(self).wf(),
        ensures
            final(self).wf(),
            final(self).recoveries() == old(self).recoveries(),
            final(self).config_spec() == old(self).config_spec(),
            final(self).errors().len() == old(self).errors().len() + 1,
            final(self).errors().drop_last() == old(self).errors(),
            ({
                let e = final(self).errors().last();
                &&& e.id.len() == 36
                &&& e.component == component@
                &&& e.error_type == error_type
                &&& e.message == message@
                &&& e.severity == severity
                &&& e.context == Map::<String, String>::empty()
                &&& match position_of(old(self).comps(), component@) {
                    Some(i) => final(self).comps() == old(self).comps().update(i, ManagedComponentView {
                        health: health_after_failure(old(self).comps()[i].health, old(self).config_spec(), e.timestamp),
                        ..old(self).comps()[i]
                    }),
                    None => final(self).comps() == old(self).comps(),
                }
            }),
            r == (if severity >= 3 { Some(strategy_for(old(self).comps(), component@)) } else { None }),
    {
        let now = now_millis();
        let event = ErrorEvent {
            id: new_uuid(),
            component: String::from_str(component),
            error_type,
            message: String::from_str(message),
            timestamp: now,
            severity,
            context: HashMap::new(),
        };
        self.error_history.push(event);
        proof {
            assert(self.errors().drop_last() =~= old(self).errors());
        }
        let found = self.find_component(component);
        let strategy = match found {
            Some(i) => {
                let mut rec = self.components[i].clone();
                record_failure(&mut rec.health, &self.config, now);
                let s = rec.strategy;
                let ghost updated = rec@;
                self.components.set(i, rec);
                proof {
                    assert(self.comps() =~= old(self).comps().update(i as int, updated));
                    assert(names_unique(self.comps())) by {
                        assert forall|a: int, b: int| 0 <= a < b < self.comps().len() implies
                            self.comps()[a].health.component != self.comps()[b].health.component by {
                            assert(old(self).comps()[a].health.component != old(self).comps()[b].health.component);
                        }
                    }
                }
                s
            },
            None => RecoveryStrategy::Retry,
        };
        if severity >= 3 {
            Some(strategy)
        } else {
            None
        }
    }

    /// Reports a success of a component: when it is registered, its health
    /// counts a success.
    pub fn report_success(&mut self, component: &str)
        requires
            old(self).wf(),
        ensures
            final(self).wf(),
            final(self).errors() == old(self).errors(),
            final(self).recoveries() == old(self).recoveries(),
            final(self).config_spec() == old(self).config_spec(),
            match position_of(old(self).comps(), component@) {
                Some(i) => final(self).comps() == old(self).comps().update(i, ManagedComponentView {
                    health: health_after_success(old(self).comps()[i].health, old(self).config_spec(),
                        final(self).comps()[i].health.last_check),
                    ..old(self).comps()[i]
                }),
                None => final(self).comps() == old(self).comps(),
            },
    {
        match self.find_component(component) {
            Some(i) => {
                let now = now_millis();
                let mut rec = self.components[i].clone();
                record_success(&mut rec.health, &self.config, now);
                let ghost updated = rec@;
                self.components.set(i, rec);
                proof {
                    assert(self.comps() =~= old(self).comps().update(i as int, updated));
                    assert(names_unique(self.comps())) by {
                        assert forall|a: int, b: int| 0 <= a < b < self.comps().len() implies
                            self.comps()[a].health.component != self.comps()[b].health.component by {
                            assert(old(self).comps()[a].health.component != old(self).comps()[b].health.component);
                        }
                    }
                }
            },
            None => {},
        }
    }

    /// Records a recovery carried out on a component with the given outcome; a
    /// restart leaves the component recovering with its failures cleared, and
    /// degrading leaves it degraded.
    pub fn complete_recovery(&mut self, component: &str, strategy: RecoveryStrategy, success: bool)
        requires
            old(self).wf(),
        ensures
            final(self).wf(),
            final(self).errors() == old(self).errors(),
            final(self).config_spec() == old(self).config_spec(),
            final(self).recoveries().len() == old(self).recoveries().len() + 1,
            final(self).recoveries().drop_last() == old(self).recoveries(),
            ({
                let a = final(self).recoveries().last();
                &&& a.id.len() == 36
                &&& a.strategy == strategy
                &&& a.component == component@
                &&& a.success == success
                &&& a.result == (if success { "成功"@ } else { "失败"@ })
            }),
            match position_of(old(self).comps(), component@) {
                Some(i) => final(self).comps() == old(self).comps().update(i, ManagedComponentView {
                    health: health_after_recovery(old(self).comps()[i].health, strategy),
                    ..old(self).comps()[i]
                }),
                None => final(self).comps() == old(self).comps(),
            },
    {
        match self.find_component(component) {
            Some(i) => {
                let mut rec = self.components[i].clone();
                match strategy {
                    RecoveryStrategy::Restart => {
                        rec.health.status = ComponentStatus::Recovering;
                        rec.health.consecutive_failures = 0;
                    },
                    RecoveryStrategy::Degrade => {
                        rec.health.status = ComponentStatus::Degraded;
                    },
                    _ => {},
                }
                let ghost updated = rec@;
                self.components.set(i, rec);
                proof {
                    assert(self.comps() =~= old(self).comps().update(i as int, updated));
                    assert(names_unique(self.comps())) by {
                        assert forall|a: int, b: int| 0 <= a < b < self.comps().len() implies
                            self.comps()[a].health.component != self.comps()[b].health.component by {
                            assert(old(self).comps()[a].health.component != old(self).comps()[b].health.component);
                        }
                    }
                }
            },
            None => {},
        }
        let action = RecoveryAction {
            id: new_uuid(),
            strategy,
            component: String::from_str(component),
            executed_at: now_millis(),
            success,
            result: if success { String::from_str("成功") } else { String::from_str("失败") },
        };
        self.recovery_history.push(action);
        proof {
            assert(self.recoveries().drop_last() =~= old(self).recoveries());
        }
    }

    /// The health of a component, if registered.
    pub fn get_component_health(&self, component: &str) -> (r: Option<ComponentHealth>)
        requires
            self.wf(),
        ensures
            match self.lookup(component@) {
                Some(c) => r matches Some(h) && h@ == c.health,
                None => r is None,
            },
    {
        match self.find_component(component) {
            Some(i) => Some(self.components[i].health.clone()),
            None => None,
        }
    }

    /// The state of a component's circuit breaker, if registered.
    pub fn breaker_state(&self, component: &str) -> (r: Option<CircuitBreakerState>)
        requires
            self.wf(),
        ensures
            match self.lookup(component@) {
                Some(c) => r == Some(c.breaker.state),
                None => r is None,
            },
    {
        match self.find_component(component) {
            Some(i) => Some(self.components[i].breaker.state()),
            None => None,
        }
    }

    /// The health of every registered component, in the order they were first
    /// registered.
    pub fn get_all_component_health(&self) -> (r: Vec<ComponentHealth>)
        ensures
            r@.len() == self.comps().len(),
            forall|i: int| 0 <= i < r@.len() ==> #[trigger] r@[i]@ == self.comps()[i].health,
    {
        let n = self.components.len();
        let mut out: Vec<ComponentHealth> = Vec::new();
        let mut i: usize = 0;
        while i < n
            invariant
                n == self.components@.len(),
                i <= n,
                out@.len() == i,
                forall|j: int| 0 <= j < i ==> #[trigger] out@[j]@ == self.comps()[j].health,
            decreases n - i,
        {
            out.push(self.components[i].health.clone());
            i = i + 1;
        }
        out
    }

    /// The errors reported, oldest first; with a limit, the last that many,
    /// newest first.
    pub fn get_error_history(&self, limit: Option<usize>) -> (r: Vec<ErrorEvent>)
        ensures
            r@.map_values(|e: ErrorEvent| e@) == match limit {
                Some(n) => newest_first(self.errors(), n as nat),
                None => self.errors(),
            },
    {
        let n = self.error_history.len();
        let mut out: Vec<ErrorEvent> = Vec::new();
        match limit {
            None => {
                let mut i: usize = 0;
                while i < n
                    invariant
                        n == self.error_history@.len(),
                        i <= n,
                        out@.len() == i,
                        forall|j: int| 0 <= j < i ==> #[trigger] out@[j]@ == self.errors()[j],
                    decreases n - i,
                {
                    out.push(self.error_history[i].clone());
                    i = i + 1;
                }
                assert(out@.map_values(|e: ErrorEvent| e@) =~= self.errors());
            },
            Some(k) => {
                let take = if k <= n { k } else { n };
                let mut i: usize = 0;
                while i < take
                    invariant
                        n == self.error_history@.len(),
                        take <= n,
                        i <= take,
                        out@.len() == i,
                        forall|j: int| 0 <= j < i ==> #[trigger] out@[j]@ == self.errors()[n - 1 - j],
                    decreases take - i,
                {
                    out.push(self.error_history[n - 1 - i].clone());
                    i = i + 1;
                }
                assert(out@.map_values(|e: ErrorEvent| e@) =~= newest_first(self.errors(), k as nat));
            },
        }
        out
    }

    /// The recoveries carried out, oldest first; with a limit, the last that
    /// many, newest first.
    pub fn get_recovery_history(&self, limit: Option<usize>) -> (r: Vec<RecoveryAction>)
        ensures
            r@.map_values(|a: RecoveryAction| a@) == match limit {
                Some(n) => newest_first(self.recoveries(), n as nat),
                None => self.recoveries(),
            },
    {
        let n = self.recovery_history.len();
        let mut out: Vec<RecoveryAction> = Vec::new();
        match limit {
            None => {
                let mut i: usize = 0;
                while i < n
                    invariant
                        n == self.recovery_history@.len(),
                        i <= n,
                        out@.len() == i,
                        forall|j: int| 0 <= j < i ==> #[trigger] out@[j]@ == self.recoveries()[j],
                    decreases n - i,
                {
                    out.push(self.recovery_history[i].clone());
                    i = i + 1;
                }
                assert(out@.map_values(|a: RecoveryAction| a@) =~= self.recoveries());
            },
            Some(k) => {
                let take = if k <= n { k } else { n };
                let mut i: usize = 0;
                while i < take
                    invariant
                        n == self.recovery_history@.len(),
                        take <= n,
                        i <= take,
                        out@.len() == i,
                        forall|j: int| 0 <= j < i ==> #[trigger] out@[j]@ == self.recoveries()[n - 1 - j],
                    decreases take - i,
                {
                    out.push(self.recovery_history[n - 1 - i].clone());
                    i = i + 1;
                }
                assert(out@.map_values(|a: RecoveryAction| a@) =~= newest_first(self.recoveries(), k as nat));
            },
        }
        out
    }

    /// The number of errors reported later than five minutes before `now`
    /// (milliseconds since the Unix epoch).
    pub fn recent_error_count(&self, now: i64) -> (r: usize)
        ensures
            r == recent_count(self.errors(), now),
    {
        let n = self.error_history.len();
        let mut count: usize = 0;
        let mut i: usize = 0;
        while i < n
            invariant
                n == self.error_history@.len(),
                i <= n,
                count <= i,
                count == recent_count(self.errors().take(i as int), now),
            decreases n - i,
        {
            assert(self.errors().take(i + 1).drop_last() =~= self.errors().take(i as int));
            let limit: i128 = now as i128 - RECENT_WINDOW_MS as i128;
            if (self.error_history[i].timestamp as i128) > limit {
                count = count + 1;
            }
            i = i + 1;
        }
        assert(self.errors().take(n as int) =~= self.errors());
        count
    }

    /// The components that have failed, in the order they were first
    /// registered.
    pub fn failed_components(&self) -> (r: Vec<String>)
        ensures
            r@.map_values(|s: String| s@) == keys_where(self.comps().map_values(|c: ManagedComponentView|
                (c.health.component, c.health.status == ComponentStatus::Failed))),
    {
        let ghost flags = self.comps().map_values(|c: ManagedComponentView|
            (c.health.component, c.health.status == ComponentStatus::Failed));
        let n = self.components.len();
        let mut out: Vec<String> = Vec::new();
        let mut i: usize = 0;
        while i < n
            invariant
                n == self.components@.len(),
                flags == self.comps().map_values(|c: ManagedComponentView|
                    (c.health.component, c.health.status == ComponentStatus::Failed)),
                i <= n,
                out@.map_values(|s: String| s@) == keys_where(flags.take(i as int)),
            decreases n - i,
        {
            assert(flags.take(i + 1).drop_last() =~= flags.take(i as int));
            if self.components[i].health.status == ComponentStatus::Failed {
                out.push(self.components[i].health.component.clone());
            }
            assert(out@.map_values(|s: String| s@) =~= keys_where(flags.take(i + 1)));
            i = i + 1;
        }
        assert(flags.take(n as int) =~= flags);
        out
    }
}

/// A component's health after `n` failures in a row reported at `now`.
pub open spec fn after_failures(h: ComponentHealthView, config: ErrorRecoveryConfig, n: nat, now: i64) -> ComponentHealthView
    decreases n,
{
    if n == 0 { h } else { health_after_failure(after_failures(h, config, (n - 1) as nat, now), config, now) }
}

/// A component's health after `n` successes in a row reported at `now`.
pub open spec fn after_successes(h: ComponentHealthView, config: ErrorRecoveryConfig, n: nat, now: i64) -> ComponentHealthView
    decreases n,
{
    if n == 0 { h } else { health_after_success(after_successes(h, config, (n - 1) as nat, now), config, now) }
}

/// A breaker after `n` failed calls in a row at `now`.
pub open spec fn breaker_after_failures(b: CircuitBreakerView, n: nat, now: i64) -> CircuitBreakerView
    decreases n,
{
    if n == 0 { b } else { breaker_after_failure(breaker_after_failures(b, (n - 1) as nat, now), now) }
}

proof fn lemma_failures_count(h: ComponentHealthView, config: ErrorRecoveryConfig, n: nat, now: i64)
    requires
        h.consecutive_failures == 0,
        n < u32::MAX,
    ensures
        after_failures(h, config, n, now).consecutive_failures == n,
        n >= config.failure_threshold && n >= 1 ==> after_failures(h, config, n, now).status == ComponentStatus::Failed,
    decreases n,
{
    if n > 0 {
        lemma_failures_count(h, config, (n - 1) as nat, now);
    }
}

/// A component whose failures in a row start from zero has failed once as
/// many failures in a row as the failure threshold (and at least one) have
/// been reported.
pub proof fn lemma_failures_fail_component(h: ComponentHealthView, config: ErrorRecoveryConfig, n: nat, now: i64)
    requires
        h.consecutive_failures == 0,
        n >= config.failure_threshold,
        n >= 1,
        n < u32::MAX,
    ensures
        after_failures(h, config, n, now).status == ComponentStatus::Failed,
        after_failures(h, config, n, now).consecutive_failures == n,
        after_failures(h, config, n, now).consecutive_successes == 0,
{
    lemma_failures_count(h, config, n, now);
}

proof fn lemma_successes_count(h: ComponentHealthView, config: ErrorRecoveryConfig, n: nat, now: i64)
    requires
        h.consecutive_successes == 0,
        n < u32::MAX,
    ensures
        after_successes(h, config, n, now).consecutive_successes == n,
        n >= config.recovery_threshold && n >= 1 ==> after_successes(h, config, n, now).status == ComponentStatus::Healthy,
    decreases n,
{
    if n > 0 {
        lemma_successes_count(h, config, (n - 1) as nat, now);
    }
}

/// A component whose successes in a row start from zero (as after any
/// failure) is healthy again once as many successes in a row as the recovery
/// threshold (and at least one) have been reported.
pub proof fn lemma_successes_recover_component(h: ComponentHealthView, config: ErrorRecoveryConfig, n: nat, now: i64)
    requires
        h.consecutive_successes == 0,
        n >= config.recovery_threshold,
        n >= 1,
        n < u32::MAX,
    ensures
        after_successes(h, config, n, now).status == ComponentStatus::Healthy,
        after_successes(h, config, n, now).consecutive_failures == 0,
{
    lemma_successes_count(h, config, n, now);
}

proof fn lemma_breaker_failures_count(b: CircuitBreakerView, n: nat, now: i64)
    requires
        b.state == CircuitBreakerState::Closed,
        b.failure_count == 0,
        n < u32::MAX,
    ensures
        breaker_after_failures(b, n, now).failure_count == n,
        breaker_after_failures(b, n, now).config == b.config,
        n >= 1 ==> breaker_after_failures(b, n, now).last_failure_at == Some(now),
        n >= b.config.failure_threshold && n >= 1 ==> breaker_after_failures(b, n, now).state == CircuitBreakerState::Open,
        n < b.config.failure_threshold ==> breaker_after_failures(b, n, now).state == CircuitBreakerState::Closed,
    decreases n,
{
    if n > 0 {
        lemma_breaker_failures_count(b, (n - 1) as nat, now);
    }
}

/// A closed breaker with no failures counted opens at the failure threshold:
/// after fewer failed calls in a row it is still closed, after as many (and at
/// least one) it is open, and then it refuses every call until its timeout has
/// passed since the last failure.
pub proof fn lemma_breaker_opens_at_threshold(b: CircuitBreakerView, n: nat, now: i64, later: i64)
    requires
        b.state == CircuitBreakerState::Closed,
        b.failure_count == 0,
        n < u32::MAX,
    ensures
        n < b.config.failure_threshold ==> breaker_after_failures(b, n, now).state == CircuitBreakerState::Closed,
        n >= b.config.failure_threshold && n >= 1 ==> ({
            let o = breaker_after_failures(b, n, now);
            &&& o.state == CircuitBreakerState::Open
            &&& (later - now <= b.config.circuit_breaker_timeout_secs * 1000 ==> !breaker_allows(o, later).0)
            &&& (later - now > b.config.circuit_breaker_timeout_secs * 1000 ==> breaker_allows(o, later).0
                && breaker_allows(o, later).1.state == CircuitBreakerState::HalfOpen)
        }),
{
    lemma_breaker_failures_count(b, n, now);
}

/// A success on a closed breaker forgets the failures before it: the breaker
/// stays closed with no failure counted, so afterwards it takes as many
/// failures in a row as the failure threshold to open it again; fewer leave
/// it closed.
pub proof fn lemma_success_clears_closed_breaker(b: CircuitBreakerView, n: nat, now: i64)
    requires
        b.state == CircuitBreakerState::Closed,
        n < u32::MAX,
    ensures
        breaker_after_success(b).state == CircuitBreakerState::Closed,
        breaker_after_success(b).failure_count == 0,
        breaker_after_success(b).config == b.config,
        n < b.config.failure_threshold
            ==> breaker_after_failures(breaker_after_success(b), n, now).state == CircuitBreakerState::Closed,
        n >= b.config.failure_threshold && n >= 1
            ==> breaker_after_failures(breaker_after_success(b), n, now).state == CircuitBreakerState::Open,
{
    lemma_breaker_failures_count(breaker_after_success(b), n, now);
}

} // verus!
