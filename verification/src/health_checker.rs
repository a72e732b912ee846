//! Health of the agents and nodes that the cluster watches: the targets, their
//! last results, when each is due for a check and how a check with retries ends.
use vstd::prelude::*;
use std::collections::HashMap;
use dashmap::DashMap;
use crate::config::HealthCheckConfig;
use crate::listing::{flagged_key, keys_where, lemma_distinct_keys_cover, lemma_keys_where, lemma_keys_where_distinct};
use crate::error::ClusterResult;
use crate::text::{contains, contains_text, join2, trim_end, trim_end_char};

verus! {

/// Health of a target.
#[derive(Debug, Clone, Copy, PartialEq, Eq, Structural)]
pub enum HealthStatus {
    /// Answers its health endpoint.
    Healthy,
    /// Does not answer, or answers with an error.
    Unhealthy,
    /// Not known yet.
    Unknown,
    /// Being checked.
    Checking,
}

/// The outcome of one health check.
#[derive(Debug)]
pub struct HealthCheckResult {
    /// The target checked.
    pub target_id: String,
    /// The health found.
    pub status: HealthStatus,
    /// Time the check took, in milliseconds.
    pub response_time: Option<u64>,
    /// What went wrong, if anything.
    pub error: Option<String>,
    /// When the check was made, in milliseconds since the Unix epoch.
    pub checked_at: i64,
    /// Further details.
    pub details: HashMap<String, String>,
}

/// The plain-value view of a check result.
pub struct HealthCheckResultView {
    /// The target checked.
    pub target_id: Seq<char>,
    /// The health found.
    pub status: HealthStatus,
    /// Time the check took, in milliseconds.
    pub response_time: Option<u64>,
    /// What went wrong, if anything.
    pub error: Option<Seq<char>>,
    /// When the check was made.
    pub checked_at: i64,
    /// Further details.
    pub details: Map<String, String>,
}

/// The view of an optional text.
pub open spec fn opt_text(t: Option<String>) -> Option<Seq<char>> {
    match t {
        Some(s) => Some(s@),
        None => None,
    }
}

impl View for HealthCheckResult {
    type V = HealthCheckResultView;

    open spec fn view(&self) -> HealthCheckResultView {
        HealthCheckResultView {
            target_id: self.target_id@,
            status: self.status,
            response_time: self.response_time,
            error: opt_text(self.error),
            checked_at: self.checked_at,
            details: self.details@,
        }
    }
}

fn clone_opt_text(t: &Option<String>) -> (r: Option<String>)
    ensures
        opt_text(r) == opt_text(*t),
{
    match t {
        Some(s) => Some(s.clone()),
        None => None,
    }
}

impl Clone for HealthCheckResult {
    fn clone(&self) -> (r: Self)
        ensures
            r@ == self@,
    {
        HealthCheckResult {
            target_id: self.target_id.clone(),
            status: self.status,
            response_time: self.response_time,
            error: clone_opt_text(&self.error),
            checked_at: self.checked_at,
            details: self.details.clone(),
        }
    }
}

/// A target under watch.
#[derive(Debug)]
pub struct HealthCheckTarget {
    /// Target id.
    pub id: String,
    /// Endpoint the target answers on.
    pub endpoint: String,
    /// Interval between checks, in milliseconds.
    pub interval: u64,
    /// Timeout of a check, in milliseconds.
    pub timeout: u64,
    /// Retries after a failed attempt.
    pub retries: u32,
    /// The last result, if the target was checked.
    pub last_result: Option<HealthCheckResult>,
    /// Checks in a row that found the target unhealthy.
    pub consecutive_failures: u32,
    /// Whether the target is checked.
    pub enabled: bool,
}

/// The plain-value view of a target.
pub struct HealthCheckTargetView {
    /// Target id.
    pub id: Seq<char>,
    /// Endpoint.
    pub endpoint: Seq<char>,
    /// Interval between checks, in milliseconds.
    pub interval: u64,
    /// Timeout, in milliseconds.
    pub timeout: u64,
    /// Retries.
    pub retries: u32,
    /// The last result.
    pub last_result: Option<HealthCheckResultView>,
    /// Failures in a row.
    pub consecutive_failures: u32,
    /// Whether the target is checked.
    pub enabled: bool,
}

/// The view of an optional result.
pub open spec fn opt_result(r: Option<HealthCheckResult>) -> Option<HealthCheckResultView> {
    match r {
        Some(x) => Some(x@),
        None => None,
    }
}

impl View for HealthCheckTarget {
    type V = HealthCheckTargetView;

    open spec fn view(&self) -> HealthCheckTargetView {
        HealthCheckTargetView {
            id: self.id@,
            endpoint: self.endpoint@,
            interval: self.interval,
            timeout: self.timeout,
            retries: self.retries,
            last_result: opt_result(self.last_result),
            consecutive_failures: self.consecutive_failures,
            enabled: self.enabled,
        }
    }
}

fn clone_opt_result(r: &Option<HealthCheckResult>) -> (c: Option<HealthCheckResult>)
    ensures
        opt_result(c) == opt_result(*r),
{
    match r {
        Some(x) => Some(x.clone()),
        None => None,
    }
}

impl Clone for HealthCheckTarget {
    fn clone(&self) -> (r: Self)
        ensures
            r@ == self@,
    {
        HealthCheckTarget {
            id: self.id.clone(),
            endpoint: self.endpoint.clone(),
            interval: self.interval,
            timeout: self.timeout,
            retries: self.retries,
            last_result: clone_opt_result(&self.last_result),
            consecutive_failures: self.consecutive_failures,
            enabled: self.enabled,
        }
    }
}

/// The URL probed for an endpoint: the endpoint itself when it names a
/// `/health` path, else the endpoint without trailing slashes followed by
/// `/health`.
pub open spec fn health_url_spec(endpoint: Seq<char>) -> Seq<char> {
    if contains_text(endpoint, "/health"@) {
        endpoint
    } else {
        trim_end_char(endpoint, '/') + "/health"@
    }
}

/// The URL probed for an endpoint.
pub fn health_url(endpoint: &str) -> (r: String)
    ensures
        r@ == health_url_spec(endpoint@),
{
    if contains(endpoint, "/health") {
        String::from_str(endpoint)
    } else {
        let base = trim_end(endpoint, '/');
        join2(base.as_str(), "/health")
    }
}

/// Whether a target is due for a check at `now` (milliseconds since the Unix
/// epoch): it is enabled, and it was never checked or at least its interval
/// has passed since the last check (a last check in the future counts as no
/// time passed).
pub open spec fn due_for_check(t: HealthCheckTargetView, now: i64) -> bool {
    &&& t.enabled
    &&& match t.last_result {
        None => true,
        Some(res) => {
            let elapsed = now - res.checked_at;
            (if elapsed < 0 { 0 } else { elapsed }) >= t.interval
        },
    }
}

/// Whether a target is due for a check at `now`.
pub fn is_due(target: &HealthCheckTarget, now: i64) -> (r: bool)
    ensures
        r == due_for_check(target@, now),
{
    if !target.enabled {
        return false;
    }
    match &target.last_result {
        None => true,
        Some(res) => {
            let elapsed: i128 = now as i128 - res.checked_at as i128;
            let passed: i128 = if elapsed < 0 { 0 } else { elapsed };
            passed >= target.interval as i128
        },
    }
}

/// What one attempt of a check found.
#[derive(Debug)]
pub enum ProbeEvent {
    /// The endpoint answered with a success status.
    Answered,
    /// The attempt failed, with what went wrong.
    Failed(String),
}

/// What to do after an attempt.
#[derive(Debug)]
pub enum ProbeAction {
    /// Wait this many milliseconds, then try again.
    RetryAfter(u64),
    /// The check is over: the health found, and the last error if it failed.
    Finish(HealthStatus, Option<String>),
}

/// Milliseconds waited between two attempts of a check.
pub const RETRY_DELAY_MS: u64 = 100;

/// Decides what follows attempt number `attempt` (counted from 1) of a check
/// that allows `retries` retries.
pub fn probe_step(retries: u32, attempt: u32, event: ProbeEvent) -> (r: ProbeAction)
    ensures
        match event {
            ProbeEvent::Answered => r == ProbeAction::Finish(HealthStatus::Healthy, None),
            ProbeEvent::Failed(e) => if attempt <= retries {
                r == ProbeAction::RetryAfter(RETRY_DELAY_MS)
            } else {
                r matches ProbeAction::Finish(s, Some(m)) && s == HealthStatus::Unhealthy && m@ == e@
            },
        },
{
    match event {
        ProbeEvent::Answered => ProbeAction::Finish(HealthStatus::Healthy, None),
        ProbeEvent::Failed(e) => if attempt <= retries {
            ProbeAction::RetryAfter(RETRY_DELAY_MS)
        } else {
            ProbeAction::Finish(HealthStatus::Unhealthy, Some(e))
        },
    }
}

/// The result of a finished check of `target`.
pub fn check_result(
    target: &HealthCheckTarget,
    status: HealthStatus,
    error: Option<String>,
    response_time: u64,
    checked_at: i64,
) -> (r: HealthCheckResult)
    ensures
        r@.target_id == target.id@,
        r@.status == status,
        r@.response_time == Some(response_time),
        r@.error == opt_text(error),
        r@.checked_at == checked_at,
        r@.details == Map::<String, String>::empty(),
{
    HealthCheckResult {
        target_id: target.id.clone(),
        status,
        response_time: Some(response_time),
        error,
        checked_at,
        details: HashMap::new(),
    }
}

// ---------------------------------------------------------------------------
// The table of targets, a `DashMap` keyed by target id.
// ---------------------------------------------------------------------------

/// What a table of targets holds, by target id.
pub uninterp spec fn target_entries(m: DashMap<String, HealthCheckTarget>) -> Map<Seq<char>, HealthCheckTargetView>;

/// `DashMap::new`: an empty table.
#[verifier::external_body]
fn target_table_new() -> (r: DashMap<String, HealthCheckTarget>)
    ensures
        target_entries(r).dom() == Set::<Seq<char>>::empty(),
{
    DashMap::new()
}

/// `DashMap::insert`: afterwards `id` maps to `v`, every other entry is kept.
#[verifier::external_body]
fn target_table_insert(m: &mut DashMap<String, HealthCheckTarget>, id: String, v: HealthCheckTarget)
    ensures
        target_entries(*final(m)) == target_entries(*old(m)).insert(id@, v@),
{
    m.insert(id, v);
}

/// `DashMap::remove`: afterwards `id` maps to nothing, every other entry is kept.
#[verifier::external_body]
fn target_table_remove(m: &mut DashMap<String, HealthCheckTarget>, id: &str)
    ensures
        target_entries(*final(m)) == target_entries(*old(m)).remove(id@),
{
    m.remove(id);
}

/// `DashMap::get`, cloning the entry: the target filed under `id`, if any.
#[verifier::external_body]
fn target_table_get(m: &DashMap<String, HealthCheckTarget>, id: &str) -> (r: Option<HealthCheckTarget>)
    ensures
        r is Some <==> target_entries(*m).dom().contains(id@),
        r matches Some(v) ==> v@ == target_entries(*m)[id@],
{
    m.get(id).map(|e| e.value().clone())
}

/// `DashMap::iter`, cloning the entries: each entry once, in the map's own order.
#[verifier::external_body]
fn target_table_entries(m: &DashMap<String, HealthCheckTarget>) -> (r: Vec<(String, HealthCheckTarget)>)
    ensures
        forall|i: int| 0 <= i < r@.len() ==> #[trigger] target_entries(*m).dom().contains(r@[i].0@)
            && target_entries(*m)[r@[i].0@] == r@[i].1@,
        forall|i: int, j: int| 0 <= i < j < r@.len() ==> r@[i].0@ != r@[j].0@,
        r@.len() == target_entries(*m).dom().len(),
{
    m.iter().map(|e| (e.key().clone(), e.value().clone())).collect()
}

/// Watches the health of targets.
pub struct HealthChecker {
    targets: DashMap<String, HealthCheckTarget>,
    config: HealthCheckConfig,
    running: bool,
}

/// The health that a target's last result records, or unknown.
pub open spec fn cached_health(t: Option<HealthCheckTargetView>) -> HealthStatus {
    match t {
        Some(tv) => match tv.last_result {
            Some(res) => res.status,
            None => HealthStatus::Unknown,
        },
        None => HealthStatus::Unknown,
    }
}

/// A target's record after a check that found `result`: the result is kept and
/// the failures in a row count up on an unhealthy result (staying at the
/// largest `u32`) and restart from zero on any other.
pub open spec fn after_check(t: HealthCheckTargetView, result: HealthCheckResultView) -> HealthCheckTargetView {
    HealthCheckTargetView {
        last_result: Some(result),
        consecutive_failures: if result.status == HealthStatus::Unhealthy {
            if t.consecutive_failures == u32::MAX { u32::MAX } else { (t.consecutive_failures + 1) as u32 }
        } else {
            0
        },
        ..t
    }
}

impl HealthChecker {
    /// The targets, by id.
    pub closed spec fn table(&self) -> Map<Seq<char>, HealthCheckTargetView> {
        target_entries(self.targets)
    }

    /// Whether the checker runs.
    pub closed spec fn running_spec(&self) -> bool {
        self.running
    }

    /// The settings it was made with.
    pub closed spec fn config_spec(&self) -> HealthCheckConfig {
        self.config
    }

    /// The table is finite and files each target under its own id.
    pub closed spec fn wf(&self) -> bool {
        &&& self.table().dom().finite()
        &&& forall|k: Seq<char>| #[trigger] self.table().dom().contains(k) ==> self.table()[k].id == k
    }

    /// The target filed under `id`, if any.
    pub open spec fn target(&self, id: Seq<char>) -> Option<HealthCheckTargetView> {
        if self.table().dom().contains(id) { Some(self.table()[id]) } else { None }
    }

    /// A target just put under watch: the default interval, timeout and
    /// retries, no result yet, enabled.
    pub open spec fn fresh_target(&self, id: Seq<char>, endpoint: Seq<char>) -> HealthCheckTargetView {
        HealthCheckTargetView {
            id,
            endpoint,
            interval: self.config_spec().default_interval,
            timeout: self.config_spec().default_timeout,
            retries: self.config_spec().default_retries,
            last_result: None,
            consecutive_failures: 0,
            enabled: true,
        }
    }

    /// A checker with no targets, not running.
    pub fn new(config: HealthCheckConfig) -> (r: ClusterResult<Self>)
        ensures
            r matches Ok(h) && h.wf() && h.table().dom() == Set::<Seq<char>>::empty()
                && !h.running_spec() && h.config_spec() == config,
    {
        Ok(HealthChecker { targets: target_table_new(), config, running: false })
    }

    /// Starts the checker.
    pub fn start(&mut self) -> (r: ClusterResult<()>)
        requires
            old(self).wf(),
        ensures
            r is Ok,
            final(self).wf(),
            final(self).running_spec(),
            final(self).table() == old(self).table(),
            final(self).config_spec() == old(self).config_spec(),
    {
        self.running = true;
        Ok(())
    }

    /// Stops the checker.
    pub fn stop(&mut self) -> (r: ClusterResult<()>)
        requires
            old(self).wf(),
        ensures
            r is Ok,
            final(self).wf(),
            !final(self).running_spec(),
            final(self).table() == old(self).table(),
            final(self).config_spec() == old(self).config_spec(),
    {
        self.running = false;
        Ok(())
    }

    /// Whether the checker runs.
    pub fn is_running(&self) -> (r: bool)
        ensures
            r == self.running_spec(),
    {
        self.running
    }

    /// Interval of the checking round, in milliseconds.
    pub fn check_interval(&self) -> (r: u64)
        ensures
            r == self.config_spec().check_interval,
    {
        self.config.check_interval
    }

    /// Starts watching `target_id` at `endpoint`, with the default interval,
    /// timeout and retries, no result yet and enabled; a target watched under
    /// that id before is replaced.
    pub fn start_monitoring(&mut self, target_id: &str, endpoint: String) -> (r: ClusterResult<()>)
        requires
            old(self).wf(),
        ensures
            r is Ok,
            final(self).wf(),
            final(self).table() == old(self).table().insert(target_id@, old(self).fresh_target(target_id@, endpoint@)),
            final(self).running_spec() == old(self).running_spec(),
            final(self).config_spec() == old(self).config_spec(),
    {
        let target = HealthCheckTarget {
            id: String::from_str(target_id),
            endpoint,
            interval: self.config.default_interval,
            timeout: self.config.default_timeout,
            retries: self.config.default_retries,
            last_result: None,
            consecutive_failures: 0,
            enabled: true,
        };
        target_table_insert(&mut self.targets, String::from_str(target_id), target);
        Ok(())
    }

    /// Stops watching `target_id`, if it was watched.
    pub fn stop_monitoring(&mut self, target_id: &str) -> (r: ClusterResult<()>)
        requires
            old(self).wf(),
        ensures
            r is Ok,
            final(self).wf(),
            final(self).table() == old(self).table().remove(target_id@),
            final(self).running_spec() == old(self).running_spec(),
            final(self).config_spec() == old(self).config_spec(),
    {
        target_table_remove(&mut self.targets, target_id);
        Ok(())
    }

    /// The health that the last check of `target_id` found; unknown for a
    /// target not checked yet and for one not watched.
    pub fn check_health(&self, target_id: &str) -> (r: ClusterResult<HealthStatus>)
        ensures
            r matches Ok(s) && s == cached_health(self.target(target_id@)),
    {
        match target_table_get(&self.targets, target_id) {
            Some(t) => match &t.last_result {
                Some(res) => Ok(res.status),
                None => Ok(HealthStatus::Unknown),
            },
            None => Ok(HealthStatus::Unknown),
        }
    }

    /// The last result of `target_id`, if it is watched and was checked.
    pub fn get_health_result(&self, target_id: &str) -> (r: ClusterResult<Option<HealthCheckResult>>)
        ensures
            r matches Ok(o) && opt_result(o) == match self.target(target_id@) {
                Some(t) => t.last_result,
                None => None,
            },
    {
        match target_table_get(&self.targets, target_id) {
            Some(t) => Ok(clone_opt_result(&t.last_result)),
            None => Ok(None),
        }
    }

    /// The target filed under `target_id`, if any.
    pub fn get_target(&self, target_id: &str) -> (r: Option<HealthCheckTarget>)
        ensures
            match r {
                Some(t) => self.target(target_id@) == Some(t@),
                None => self.target(target_id@) is None,
            },
    {
        target_table_get(&self.targets, target_id)
    }

    /// Every target once, in no particular order.
    pub fn list_targets(&self) -> (r: ClusterResult<Vec<HealthCheckTarget>>)
        requires
            self.wf(),
        ensures
            r matches Ok(v) && v@.len() == self.table().dom().len()
                && (forall|i: int| 0 <= i < v@.len() ==> #[trigger] self.table().dom().contains(v@[i]@.id)
                    && self.table()[v@[i]@.id] == v@[i]@)
                && (forall|i: int, j: int| 0 <= i < j < v@.len() ==> v@[i]@.id != v@[j]@.id),
    {
        let entries = target_table_entries(&self.targets);
        assert(forall|i: int| 0 <= i < entries@.len() ==> #[trigger] target_entries(self.targets).dom().contains(entries@[i].0@));
        let n = entries.len();
        let ghost all = entries@;
        let mut out: Vec<HealthCheckTarget> = Vec::new();
        let mut rest = entries;
        let mut i: usize = 0;
        while i < n
            invariant
                n == all.len(),
                i <= n,
                rest@.len() == n - i,
                forall|j: int| 0 <= j < rest@.len() ==> rest@[j] == all[j + i],
                out@.len() == i,
                forall|j: int| 0 <= j < i ==> out@[j]@ == all[j].1@,
            decreases n - i,
        {
            let (_, t) = rest.remove(0);
            out.push(t);
            i = i + 1;
        }
        proof {
            assert forall|j: int| 0 <= j < out@.len() implies #[trigger] self.table().dom().contains(out@[j]@.id)
                && self.table()[out@[j]@.id] == out@[j]@ by {
                assert(target_entries(self.targets).dom().contains(all[j].0@));
            }
            assert forall|a: int, b: int| 0 <= a < b < out@.len() implies out@[a]@.id != out@[b]@.id by {
                assert(target_entries(self.targets).dom().contains(all[a].0@));
                assert(target_entries(self.targets).dom().contains(all[b].0@));
            }
        }
        Ok(out)
    }

    /// Sets the interval, timeout and retries of `target_id` that are given;
    /// a target not watched is left alone.
    pub fn update_target_config(
        &mut self,
        target_id: &str,
        interval: Option<u64>,
        timeout: Option<u64>,
        retries: Option<u32>,
    ) -> (r: ClusterResult<()>)
        requires
            old(self).wf(),
        ensures
            r is Ok,
            final(self).wf(),
            final(self).running_spec() == old(self).running_spec(),
            final(self).config_spec() == old(self).config_spec(),
            match old(self).target(target_id@) {
                Some(t) => final(self).table() == old(self).table().insert(target_id@, HealthCheckTargetView {
                    interval: match interval { Some(x) => x, None => t.interval },
                    timeout: match timeout { Some(x) => x, None => t.timeout },
                    retries: match retries { Some(x) => x, None => t.retries },
                    ..t
                }),
                None => final(self).table() == old(self).table(),
            },
    {
        match target_table_get(&self.targets, target_id) {
            Some(t) => {
                let mut t = t;
                match interval {
                    Some(x) => { t.interval = x; },
                    None => {},
                }
                match timeout {
                    Some(x) => { t.timeout = x; },
                    None => {},
                }
                match retries {
                    Some(x) => { t.retries = x; },
                    None => {},
                }
                target_table_insert(&mut self.targets, String::from_str(target_id), t);
            },
            None => {},
        }
        Ok(())
    }

    /// Turns checking of `target_id` on or off; a target not watched is left
    /// alone.
    pub fn set_target_enabled(&mut self, target_id: &str, enabled: bool) -> (r: ClusterResult<()>)
        requires
            old(self).wf(),
        ensures
            r is Ok,
            final(self).wf(),
            final(self).running_spec() == old(self).running_spec(),
            final(self).config_spec() == old(self).config_spec(),
            match old(self).target(target_id@) {
                Some(t) => final(self).table() == old(self).table().insert(target_id@,
                    HealthCheckTargetView { enabled, ..t }),
                None => final(self).table() == old(self).table(),
            },
    {
        match target_table_get(&self.targets, target_id) {
            Some(t) => {
                let mut t = t;
                t.enabled = enabled;
                target_table_insert(&mut self.targets, String::from_str(target_id), t);
            },
            None => {},
        }
        Ok(())
    }

    /// Records the result of a check of the target it names: the result
    /// becomes the target's last one and its failures in a row are counted; a
    /// result for a target no longer watched is dropped.
    pub fn record_check_result(&mut self, result: HealthCheckResult)
        requires
            old(self).wf(),
        ensures
            final(self).wf(),
            final(self).running_spec() == old(self).running_spec(),
            final(self).config_spec() == old(self).config_spec(),
            match old(self).target(result.target_id@) {
                Some(t) => final(self).table() == old(self).table().insert(result.target_id@,
                    after_check(t, result@)),
                None => final(self).table() == old(self).table(),
            },
    {
        let id = result.target_id.clone();
        match target_table_get(&self.targets, id.as_str()) {
            Some(t) => {
                let mut t = t;
                if result.status == HealthStatus::Unhealthy {
                    t.consecutive_failures = t.consecutive_failures.saturating_add(1);
                } else {
                    t.consecutive_failures = 0;
                }
                t.last_result = Some(result);
                target_table_insert(&mut self.targets, id, t);
            },
            None => {},
        }
    }

    /// The ids of the targets due for a check at `now`, each once.
    pub fn targets_due(&self, now: i64) -> (r: Vec<String>)
        requires
            self.wf(),
        ensures
            forall|i: int| 0 <= i < r@.len() ==> #[trigger] self.table().dom().contains(r@[i]@)
                && due_for_check(self.table()[r@[i]@], now),
            forall|k: Seq<char>| #[trigger] self.table().dom().contains(k) && due_for_check(self.table()[k], now)
                ==> exists|i: int| 0 <= i < r@.len() && r@[i]@ == k,
            forall|i: int, j: int| 0 <= i < j < r@.len() ==> r@[i]@ != r@[j]@,
    {
        let entries = target_table_entries(&self.targets);
        assert(forall|i: int| 0 <= i < entries@.len() ==> #[trigger] target_entries(self.targets).dom().contains(entries@[i].0@));
        let n = entries.len();
        let ghost all = entries@;
        let ghost flags = all.map_values(|e: (String, HealthCheckTarget)| (e.0@, due_for_check(e.1@, now)));
        let mut out: Vec<String> = Vec::new();
        let mut i: usize = 0;
        while i < n
            invariant
                n == all.len(),
                entries@ == all,
                flags == all.map_values(|e: (String, HealthCheckTarget)| (e.0@, due_for_check(e.1@, now))),
                i <= n,
                out@.map_values(|s: String| s@) == keys_where(flags.take(i as int)),
            decreases n - i,
        {
            assert(flags.take(i + 1).drop_last() =~= flags.take(i as int));
            if is_due(&entries[i].1, now) {
                out.push(entries[i].0.clone());
            }
            assert(out@.map_values(|s: String| s@) =~= keys_where(flags.take(i + 1)));
            i = i + 1;
        }
        proof {
            let tab = self.table();
            let kw = keys_where(flags);
            assert(flags.take(n as int) =~= flags);
            assert(forall|x: int| 0 <= x < out@.len() ==> out@[x]@ == #[trigger] kw[x]);
            lemma_keys_where(flags);
            assert forall|x: int| 0 <= x < out@.len() implies #[trigger] tab.dom().contains(out@[x]@)
                && due_for_check(tab[out@[x]@], now) by {
                assert(out@[x]@ == kw[x]);
                assert(flagged_key(flags, kw[x]));
                let k = choose|k: int| 0 <= k < flags.len() && flags[k] == (kw[x], true);
                assert(tab.dom().contains(all[k].0@));
            }
            assert forall|k: Seq<char>| #[trigger] tab.dom().contains(k) && due_for_check(tab[k], now)
                implies exists|a: int| 0 <= a < out@.len() && out@[a]@ == k by {
                let keys = all.map_values(|e: (String, HealthCheckTarget)| e.0@);
                assert forall|j: int| 0 <= j < keys.len() implies #[trigger] tab.dom().contains(keys[j]) by {
                    assert(tab.dom().contains(all[j].0@));
                }
                lemma_distinct_keys_cover(tab.dom(), keys, k);
                let j = choose|j: int| 0 <= j < keys.len() && keys[j] == k;
                assert(tab.dom().contains(all[j].0@));
                assert(flags[j].1);
                assert(kw.contains(flags[j].0));
                let a = choose|a: int| 0 <= a < kw.len() && kw[a] == flags[j].0;
                assert(out@[a]@ == kw[a]);
            }
            assert forall|a: int, b: int| 0 <= a < b < out@.len() implies out@[a]@ != out@[b]@ by {
                lemma_keys_where_distinct(flags, a, b);
                assert(out@[a]@ == kw[a]);
                assert(out@[b]@ == kw[b]);
            }
        }
        out
    }
}

/// One round of health checking, target by target: a disabled target is
/// never due, so never checked or changed; a checked target keeps the check's
/// result as its last one, counts its failures in a row by the result, keeps
/// everything else, and (with a positive interval) is not due again at the
/// time of the check.
pub proof fn lemma_check_round(t: HealthCheckTargetView, now: i64, result: HealthCheckResultView)
    ensures
        !t.enabled ==> !due_for_check(t, now),
        after_check(t, result).last_result == Some(result),
        after_check(t, result).consecutive_failures == (if result.status == HealthStatus::Unhealthy {
            if t.consecutive_failures == u32::MAX { u32::MAX } else { (t.consecutive_failures + 1) as u32 }
        } else {
            0u32
        }),
        after_check(t, result).id == t.id && after_check(t, result).endpoint == t.endpoint
            && after_check(t, result).interval == t.interval && after_check(t, result).enabled == t.enabled,
        result.checked_at == now && t.interval > 0 ==> !due_for_check(after_check(t, result), now),
{
}

} // verus!
