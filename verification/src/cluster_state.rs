//! The global state of the cluster and the state kept for each agent.
use vstd::prelude::*;
use std::collections::HashMap;
use dashmap::DashMap;
use crate::agent::{AgentCard, AgentCardView};
use crate::config::StateConfig;
use crate::error::{ClusterError, ClusterResult};
use crate::system::now_millis;

verus! {

/// Version of the cluster layer, reported in the cluster state.
pub const VERSION: &'static str = "0.1.0";

/// State of the cluster as a whole.
#[derive(Debug, PartialEq, Eq)]
pub enum ClusterStatus {
    /// Starting up.
    Initializing,
    /// Serving.
    Running,
    /// Serving with reduced capacity.
    Degraded,
    /// Under maintenance.
    Maintenance,
    /// Shutting down.
    Stopping,
    /// Shut down.
    Stopped,
    /// Failed, with a reason.
    Error(String),
}

impl Clone for ClusterStatus {
    fn clone(&self) -> (r: Self)
        ensures
            r == *self,
    {
        match self {
            ClusterStatus::Initializing => ClusterStatus::Initializing,
            ClusterStatus::Running => ClusterStatus::Running,
            ClusterStatus::Degraded => ClusterStatus::Degraded,
            ClusterStatus::Maintenance => ClusterStatus::Maintenance,
            ClusterStatus::Stopping => ClusterStatus::Stopping,
            ClusterStatus::Stopped => ClusterStatus::Stopped,
            ClusterStatus::Error(m) => ClusterStatus::Error(m.clone()),
        }
    }
}

/// The state of the cluster.
#[derive(Debug)]
pub struct ClusterState {
    /// Cluster id.
    pub cluster_id: String,
    /// Cluster name.
    pub cluster_name: String,
    /// Version of the cluster layer.
    pub version: String,
    /// Number of nodes.
    pub node_count: usize,
    /// Number of agents with state.
    pub agent_count: usize,
    /// State of the cluster.
    pub status: ClusterStatus,
    /// Creation time, in milliseconds since the Unix epoch.
    pub created_at: i64,
    /// Last change, in milliseconds since the Unix epoch.
    pub updated_at: i64,
    /// Free-form metadata.
    pub metadata: HashMap<String, String>,
}

/// The plain-value view of the cluster state.
pub struct ClusterStateView {
    /// Cluster id.
    pub cluster_id: Seq<char>,
    /// Cluster name.
    pub cluster_name: Seq<char>,
    /// Version.
    pub version: Seq<char>,
    /// Number of nodes.
    pub node_count: usize,
    /// Number of agents.
    pub agent_count: usize,
    /// State.
    pub status: ClusterStatus,
    /// Creation time.
    pub created_at: i64,
    /// Last change.
    pub updated_at: i64,
    /// Metadata.
    pub metadata: Map<String, String>,
}

impl View for ClusterState {
    type V = ClusterStateView;

    open spec fn view(&self) -> ClusterStateView {
        ClusterStateView {
            cluster_id: self.cluster_id@,
            cluster_name: self.cluster_name@,
            version: self.version@,
            node_count: self.node_count,
            agent_count: self.agent_count,
            status: self.status,
            created_at: self.created_at,
            updated_at: self.updated_at,
            metadata: self.metadata@,
        }
    }
}

impl Clone for ClusterState {
    fn clone(&self) -> (r: Self)
        ensures
            r@ == self@,
    {
        ClusterState {
            cluster_id: self.cluster_id.clone(),
            cluster_name: self.cluster_name.clone(),
            version: self.version.clone(),
            node_count: self.node_count,
            agent_count: self.agent_count,
            status: self.status.clone(),
            created_at: self.created_at,
            updated_at: self.updated_at,
            metadata: self.metadata.clone(),
        }
    }
}

/// Statistics of an agent.
#[derive(Debug, Clone, Copy)]
pub struct AgentStats {
    /// Messages processed.
    pub messages_processed: u64,
    /// Errors.
    pub errors: u64,
    /// Average response time, in milliseconds.
    pub avg_response_time: u64,
    /// Last activity, in milliseconds since the Unix epoch.
    pub last_activity: Option<i64>,
}

impl Default for AgentStats {
    fn default() -> (r: Self)
        ensures
            r.messages_processed == 0,
            r.errors == 0,
            r.avg_response_time == 0,
            r.last_activity is None,
    {
        AgentStats { messages_processed: 0, errors: 0, avg_response_time: 0, last_activity: None }
    }
}

/// The state kept for an agent.
#[derive(Debug)]
pub struct AgentStateInfo {
    /// The agent.
    pub agent_info: AgentCard,
    /// Registration time, in milliseconds since the Unix epoch.
    pub registered_at: i64,
    /// Last change, in milliseconds since the Unix epoch.
    pub updated_at: i64,
    /// Last heartbeat, in milliseconds since the Unix epoch.
    pub last_heartbeat: Option<i64>,
    /// Statistics.
    pub stats: AgentStats,
}

/// The plain-value view of an agent's state.
pub struct AgentStateView {
    /// The agent.
    pub agent_info: AgentCardView,
    /// Registration time.
    pub registered_at: i64,
    /// Last change.
    pub updated_at: i64,
    /// Last heartbeat.
    pub last_heartbeat: Option<i64>,
    /// Statistics.
    pub stats: AgentStats,
}

impl View for AgentStateInfo {
    type V = AgentStateView;

    open spec fn view(&self) -> AgentStateView {
        AgentStateView {
            agent_info: self.agent_info@,
            registered_at: self.registered_at,
            updated_at: self.updated_at,
            last_heartbeat: self.last_heartbeat,
            stats: self.stats,
        }
    }
}

impl Clone for AgentStateInfo {
    fn clone(&self) -> (r: Self)
        ensures
            r@ == self@,
    {
        AgentStateInfo {
            agent_info: self.agent_info.clone(),
            registered_at: self.registered_at,
            updated_at: self.updated_at,
            last_heartbeat: self.last_heartbeat,
            stats: self.stats,
        }
    }
}

// ---------------------------------------------------------------------------
// The table of agent states, a `DashMap` keyed by agent id.
// ---------------------------------------------------------------------------

/// What a table of agent states holds, by agent id.
pub uninterp spec fn agent_state_entries(m: DashMap<String, AgentStateInfo>) -> Map<Seq<char>, AgentStateView>;

/// `DashMap::new`: an empty table.
#[verifier::external_body]
fn agent_table_new() -> (r: DashMap<String, AgentStateInfo>)
    ensures
        agent_state_entries(r).dom() == Set::<Seq<char>>::empty(),
{
    DashMap::new()
}

/// `DashMap::insert`: afterwards `id` maps to `v`, every other entry is kept.
#[verifier::external_body]
fn agent_table_insert(m: &mut DashMap<String, AgentStateInfo>, id: String, v: AgentStateInfo)
    ensures
        agent_state_entries(*final(m)) == agent_state_entries(*old(m)).insert(id@, v@),
{
    m.insert(id, v);
}

/// `DashMap::remove`: afterwards `id` maps to nothing, every other entry is kept.
#[verifier::external_body]
fn agent_table_remove(m: &mut DashMap<String, AgentStateInfo>, id: &str)
    ensures
        agent_state_entries(*final(m)) == agent_state_entries(*old(m)).remove(id@),
{
    m.remove(id);
}

/// `DashMap::get`, cloning the entry: the state filed under `id`, if any.
#[verifier::external_body]
fn agent_table_get(m: &DashMap<String, AgentStateInfo>, id: &str) -> (r: Option<AgentStateInfo>)
    ensures
        r is Some <==> agent_state_entries(*m).dom().contains(id@),
        r matches Some(v) ==> v@ == agent_state_entries(*m)[id@],
{
    m.get(id).map(|e| e.value().clone())
}

/// `DashMap::len`: the number of entries.
#[verifier::external_body]
fn agent_table_len(m: &DashMap<String, AgentStateInfo>) -> (r: usize)
    ensures
        r == agent_state_entries(*m).dom().len(),
{
    m.len()
}

/// `DashMap::iter`, cloning the entries: each entry once, in the map's own order.
#[verifier::external_body]
fn agent_table_entries(m: &DashMap<String, AgentStateInfo>) -> (r: Vec<(String, AgentStateInfo)>)
    ensures
        forall|i: int| 0 <= i < r@.len() ==> #[trigger] agent_state_entries(*m).dom().contains(r@[i].0@)
            && agent_state_entries(*m)[r@[i].0@] == r@[i].1@,
        forall|i: int, j: int| 0 <= i < j < r@.len() ==> r@[i].0@ != r@[j].0@,
        r@.len() == agent_state_entries(*m).dom().len(),
{
    m.iter().map(|e| (e.key().clone(), e.value().clone())).collect()
}

/// Keeps the last state synchronised to the other nodes, in this process.
pub struct MemoryStateSync {
    state: Option<ClusterState>,
}

impl MemoryStateSync {
    /// The state last synchronised, if any.
    pub closed spec fn stored(&self) -> Option<ClusterStateView> {
        match self.state {
            Some(s) => Some(s@),
            None => None,
        }
    }

    /// A store that holds no state yet.
    pub fn new() -> (r: Self)
        ensures
            r.stored() is None,
    {
        MemoryStateSync { state: None }
    }

    /// Keeps a copy of `state`.
    pub fn sync_state(&mut self, state: &ClusterState) -> (r: ClusterResult<()>)
        ensures
            r is Ok,
            final(self).stored() == Some(state@),
    {
        self.state = Some(state.clone());
        Ok(())
    }

    /// The state last kept, if any.
    pub fn fetch_state(&self) -> (r: ClusterResult<Option<ClusterState>>)
        ensures
            r matches Ok(o) && match o {
                Some(s) => self.stored() == Some(s@),
                None => self.stored() is None,
            },
    {
        match &self.state {
            Some(s) => Ok(Some(s.clone())),
            None => Ok(None),
        }
    }
}

/// Whether an agent whose last heartbeat was at `heartbeat` counts as gone at
/// `now`: more than 300 whole seconds have passed (times in milliseconds).
pub open spec fn heartbeat_expired(heartbeat: Option<i64>, now: i64) -> bool {
    match heartbeat {
        Some(hb) => now - hb >= 301_000,
        None => false,
    }
}

/// Manages the cluster state and the state of each agent.
pub struct ClusterStateManager {
    cluster_state: ClusterState,
    agent_states: DashMap<String, AgentStateInfo>,
    state_sync: MemoryStateSync,
    config: StateConfig,
    running: bool,
}

impl ClusterStateManager {
    /// The cluster state.
    pub closed spec fn state(&self) -> ClusterStateView {
        self.cluster_state@
    }

    /// The state of each agent, by agent id.
    pub closed spec fn agents(&self) -> Map<Seq<char>, AgentStateView> {
        agent_state_entries(self.agent_states)
    }

    /// The state last synchronised, if any.
    pub closed spec fn synced(&self) -> Option<ClusterStateView> {
        self.state_sync.stored()
    }

    /// The configuration the manager was made with.
    pub closed spec fn config_spec(&self) -> StateConfig {
        self.config
    }

    /// Whether the manager runs.
    pub closed spec fn running_spec(&self) -> bool {
        self.running
    }

    /// The agent table is finite and the cluster state counts its agents.
    pub closed spec fn wf(&self) -> bool {
        &&& self.agents().dom().finite()
        &&& self.cluster_state.agent_count == self.agents().dom().len()
    }

    /// In a well-formed manager the cluster state counts exactly the agents
    /// recorded, after any sequence of the operations (each keeps `wf`).
    pub proof fn lemma_agent_count(&self)
        requires
            self.wf(),
        ensures
            self.state().agent_count == self.agents().dom().len(),
            self.agents().dom().finite(),
    {
    }

    /// A manager for the cluster that `config` describes, with no agents; only the
    /// `memory` synchronisation backend is available.
    pub fn new(config: StateConfig) -> (r: ClusterResult<Self>)
        ensures
            r matches Ok(m) ==> m.config_spec() == config,
            config.sync_backend@ == "memory"@ <==> r is Ok,
            r matches Ok(m) ==> ({
                &&& m.wf()
                &&& m.agents().dom() == Set::<Seq<char>>::empty()
                &&& m.state().cluster_id == config.cluster_id@
                &&& m.state().cluster_name == config.cluster_name@
                &&& m.state().version == VERSION@
                &&& m.state().node_count == 1
                &&& m.state().agent_count == 0
                &&& m.state().status == ClusterStatus::Initializing
                &&& m.state().metadata == config.metadata@
                &&& m.synced() is None
                &&& !m.running_spec()
            }),
            r matches Err(e) ==> (e matches ClusterError::UnsupportedBackend(msg)
                && msg@ == "不支持的状态同步后端: "@ + config.sync_backend@),
    {
        if !crate::text::same_text(config.sync_backend.as_str(), "memory") {
            return Err(ClusterError::UnsupportedBackend(
                crate::text::join2("不支持的状态同步后端: ", config.sync_backend.as_str()),
            ));
        }
        let now = now_millis();
        let cluster_state = ClusterState {
            cluster_id: config.cluster_id.clone(),
            cluster_name: config.cluster_name.clone(),
            version: String::from_str(VERSION),
            node_count: 1,
            agent_count: 0,
            status: ClusterStatus::Initializing,
            created_at: now,
            updated_at: now,
            metadata: config.metadata.clone(),
        };
        Ok(ClusterStateManager {
            cluster_state,
            agent_states: agent_table_new(),
            state_sync: MemoryStateSync::new(),
            config,
            running: false,
        })
    }

    /// Marks the cluster as running.
    pub fn start(&mut self) -> (r: ClusterResult<()>)
        requires
            old(self).wf(),
        ensures
            final(self).config_spec() == old(self).config_spec(),
            r is Ok,
            final(self).wf(),
            final(self).running_spec(),
            final(self).state().status == ClusterStatus::Running,
            final(self).agents() == old(self).agents(),
            final(self).synced() == old(self).synced(),
    {
        self.cluster_state.status = ClusterStatus::Running;
        self.cluster_state.updated_at = now_millis();
        self.running = true;
        Ok(())
    }

    /// Marks the cluster as stopped.
    pub fn stop(&mut self) -> (r: ClusterResult<()>)
        requires
            old(self).wf(),
        ensures
            final(self).config_spec() == old(self).config_spec(),
            r is Ok,
            final(self).wf(),
            !final(self).running_spec(),
            final(self).state().status == ClusterStatus::Stopped,
            final(self).agents() == old(self).agents(),
            final(self).synced() == old(self).synced(),
    {
        self.running = false;
        self.cluster_state.status = ClusterStatus::Stopped;
        self.cluster_state.updated_at = now_millis();
        Ok(())
    }

    /// Interval between synchronisations, in milliseconds.
    pub fn sync_interval(&self) -> (r: u64)
        ensures
            r == self.config_spec().sync_interval,
    {
        self.config.sync_interval
    }

    /// Interval between statistics rounds, in milliseconds.
    pub fn stats_interval(&self) -> (r: u64)
        ensures
            r == self.config_spec().stats_interval,
    {
        self.config.stats_interval
    }

    /// A copy of the cluster state.
    pub fn get_state(&self) -> (r: ClusterResult<ClusterState>)
        ensures
            r matches Ok(s) && s@ == self.state(),
    {
        Ok(self.cluster_state.clone())
    }

    /// Records an agent: a known agent gets the new description and a fresh
    /// heartbeat, a new one is added with empty statistics and counted.
    pub fn update_agent_state(&mut self, agent_id: &str, agent_info: &AgentCard) -> (r: ClusterResult<()>)
        requires
            old(self).wf(),
        ensures
            final(self).config_spec() == old(self).config_spec(),
            r is Ok,
            final(self).wf(),
            final(self).agents().dom() == old(self).agents().dom().insert(agent_id@),
            forall|k: Seq<char>| k != agent_id@ ==> #[trigger] final(self).agents()[k] == old(self).agents()[k],
            final(self).agents()[agent_id@].agent_info == agent_info@,
            final(self).agents()[agent_id@].last_heartbeat == Some(final(self).agents()[agent_id@].updated_at),
            old(self).agents().dom().contains(agent_id@) ==> ({
                let o = old(self).agents()[agent_id@];
                let n = final(self).agents()[agent_id@];
                n.registered_at == o.registered_at && n.stats == o.stats
            }),
            !old(self).agents().dom().contains(agent_id@) ==> ({
                let n = final(self).agents()[agent_id@];
                &&& n.stats.messages_processed == 0 && n.stats.errors == 0
                &&& n.stats.avg_response_time == 0 && n.stats.last_activity is None
                &&& n.registered_at == n.updated_at
            }),
            final(self).state().status == old(self).state().status,
            final(self).synced() == old(self).synced(),
            final(self).running_spec() == old(self).running_spec(),
    {
        let now = now_millis();
        match agent_table_get(&self.agent_states, agent_id) {
            Some(existing) => {
                let mut info = existing;
                info.agent_info = agent_info.clone();
                info.updated_at = now;
                info.last_heartbeat = Some(now);
                agent_table_insert(&mut self.agent_states, String::from_str(agent_id), info);
                proof {
                    assert(self.agents().dom() =~= old(self).agents().dom());
                }
            },
            None => {
                let info = AgentStateInfo {
                    agent_info: agent_info.clone(),
                    registered_at: now,
                    updated_at: now,
                    last_heartbeat: Some(now),
                    stats: AgentStats::default(),
                };
                agent_table_insert(&mut self.agent_states, String::from_str(agent_id), info);
                self.cluster_state.agent_count = agent_table_len(&self.agent_states);
                self.cluster_state.updated_at = now;
            },
        }
        Ok(())
    }

    /// Forgets the state of an agent and recounts the agents.
    pub fn remove_agent_state(&mut self, agent_id: &str) -> (r: ClusterResult<()>)
        requires
            old(self).wf(),
        ensures
            final(self).config_spec() == old(self).config_spec(),
            r is Ok,
            final(self).wf(),
            final(self).agents() == old(self).agents().remove(agent_id@),
            final(self).state().status == old(self).state().status,
            final(self).synced() == old(self).synced(),
            final(self).running_spec() == old(self).running_spec(),
    {
        agent_table_remove(&mut self.agent_states, agent_id);
        self.cluster_state.agent_count = agent_table_len(&self.agent_states);
        self.cluster_state.updated_at = now_millis();
        Ok(())
    }

    /// The state of an agent, if known.
    pub fn get_agent_state(&self, agent_id: &str) -> (r: ClusterResult<Option<AgentStateInfo>>)
        ensures
            r matches Ok(o) && (o is Some <==> self.agents().dom().contains(agent_id@))
                && (o matches Some(v) ==> v@ == self.agents()[agent_id@]),
    {
        Ok(agent_table_get(&self.agent_states, agent_id))
    }

    /// The state of every agent, each once, in no particular order.
    pub fn list_agent_states(&self) -> (r: ClusterResult<Vec<AgentStateInfo>>)
        requires
            self.wf(),
        ensures
            r matches Ok(v) && v@.len() == self.agents().dom().len() && exists|ids: Seq<Seq<char>>|
                #![trigger ids.len()]
                ids.len() == v@.len()
                && (forall|i: int| 0 <= i < v@.len() ==> #[trigger] self.agents().dom().contains(ids[i])
                    && self.agents()[ids[i]] == v@[i]@)
                && (forall|i: int, j: int| 0 <= i < j < ids.len() ==> ids[i] != ids[j]),
    {
        let entries = agent_table_entries(&self.agent_states);
        assert(forall|i: int| 0 <= i < entries@.len() ==> #[trigger] agent_state_entries(self.agent_states).dom().contains(entries@[i].0@));
        let n = entries.len();
        let ghost all = entries@;
        let ghost ids = all.map_values(|e: (String, AgentStateInfo)| e.0@);
        let mut out: Vec<AgentStateInfo> = Vec::new();
        let mut rest = entries;
        let mut i: usize = 0;
        while i < n
            invariant
                n == all.len(),
                i <= n,
                rest@.len() == n - i,
                forall|j: int| 0 <= j < rest@.len() ==> rest@[j] == all[j + i],
                out@.len() == i,
                forall|j: int| 0 <= j < i ==> out@[j]@ == all[j].1@,
            decreases n - i,
        {
            let (_, st) = rest.remove(0);
            out.push(st);
            i = i + 1;
        }
        proof {
            assert forall|j: int| 0 <= j < out@.len() implies #[trigger] self.agents().dom().contains(ids[j])
                && self.agents()[ids[j]] == out@[j]@ by {
                assert(agent_state_entries(self.agent_states).dom().contains(all[j].0@));
            }
            assert forall|j: int, k: int| 0 <= j < k < ids.len() implies ids[j] != ids[k] by {
                assert(all[j].0@ != all[k].0@);
            }
        }
        Ok(out)
    }

    /// Replaces the statistics of a known agent; an unknown agent is ignored.
    pub fn update_agent_stats(&mut self, agent_id: &str, stats: AgentStats) -> (r: ClusterResult<()>)
        requires
            old(self).wf(),
        ensures
            final(self).config_spec() == old(self).config_spec(),
            r is Ok,
            final(self).wf(),
            final(self).agents().dom() == old(self).agents().dom(),
            forall|k: Seq<char>| k != agent_id@ ==> #[trigger] final(self).agents()[k] == old(self).agents()[k],
            old(self).agents().dom().contains(agent_id@) ==> ({
                let o = old(self).agents()[agent_id@];
                let n = final(self).agents()[agent_id@];
                &&& n.stats == stats
                &&& n.agent_info == o.agent_info
                &&& n.registered_at == o.registered_at
                &&& n.last_heartbeat == o.last_heartbeat
            }),
            final(self).state() == old(self).state(),
            final(self).synced() == old(self).synced(),
            final(self).running_spec() == old(self).running_spec(),
    {
        match agent_table_get(&self.agent_states, agent_id) {
            Some(existing) => {
                let mut info = existing;
                info.stats = stats;
                info.updated_at = now_millis();
                agent_table_insert(&mut self.agent_states, String::from_str(agent_id), info);
                proof {
                    assert(self.agents().dom() =~= old(self).agents().dom());
                }
            },
            None => {},
        }
        Ok(())
    }

    /// Sets the state of the cluster and synchronises the new cluster state.
    pub fn update_cluster_status(&mut self, status: ClusterStatus) -> (r: ClusterResult<()>)
        requires
            old(self).wf(),
        ensures
            final(self).config_spec() == old(self).config_spec(),
            r is Ok,
            final(self).wf(),
            final(self).state().status == status,
            final(self).agents() == old(self).agents(),
            final(self).synced() == Some(final(self).state()),
            final(self).running_spec() == old(self).running_spec(),
    {
        self.cluster_state.status = status;
        self.cluster_state.updated_at = now_millis();
        let state = self.cluster_state.clone();
        self.state_sync.sync_state(&state)
    }

    /// Forgets every agent whose last heartbeat is more than 300 seconds before
    /// `now` (milliseconds since the Unix epoch), recounts the agents, and
    /// returns how many were forgotten.
    pub fn expire_stale_agents(&mut self, now: i64) -> (r: usize)
        requires
            old(self).wf(),
        ensures
            final(self).config_spec() == old(self).config_spec(),
            final(self).wf(),
            final(self).agents().dom() == old(self).agents().dom().filter(
                |k: Seq<char>| !heartbeat_expired(old(self).agents()[k].last_heartbeat, now)),
            forall|k: Seq<char>| #[trigger] final(self).agents().dom().contains(k)
                ==> final(self).agents()[k] == old(self).agents()[k],
            r == old(self).agents().dom().len() - final(self).agents().dom().len(),
            final(self).state().status == old(self).state().status,
            final(self).synced() == old(self).synced(),
            final(self).running_spec() == old(self).running_spec(),
    {
        let entries = agent_table_entries(&self.agent_states);
        assert(forall|i: int| 0 <= i < entries@.len() ==> #[trigger] agent_state_entries(self.agent_states).dom().contains(entries@[i].0@));
        let n = entries.len();
        let ghost all = entries@;
        let ghost before = self.agents();
        let mut rest = entries;
        let mut removed: usize = 0;
        let mut i: usize = 0;
        while i < n
            invariant
                n == all.len(),
                i <= n,
                n == before.dom().len(),
                before.dom().finite(),
                rest@.len() == n - i,
                forall|j: int| 0 <= j < rest@.len() ==> rest@[j] == all[j + i],
                forall|j: int| 0 <= j < n ==> #[trigger] before.dom().contains(all[j].0@)
                    && before[all[j].0@] == all[j].1@,
                forall|j: int, k: int| 0 <= j < k < n ==> all[j].0@ != all[k].0@,
                self.agents().dom().finite(),
                self.agents().dom() == before.dom().filter(|k: Seq<char>|
                    !(exists|j: int| 0 <= j < i && all[j].0@ == k && heartbeat_expired(before[k].last_heartbeat, now))),
                forall|k: Seq<char>| #[trigger] self.agents().dom().contains(k) ==> self.agents()[k] == before[k],
                removed == before.dom().len() - self.agents().dom().len(),
                self.cluster_state.status == old(self).cluster_state.status,
                self.state_sync == old(self).state_sync,
                self.running == old(self).running,
                self.config == old(self).config,
            decreases n - i,
        {
            let (id, st) = rest.remove(0);
            let expired = match st.last_heartbeat {
                Some(hb) => (now as i128) - (hb as i128) >= 301_000,
                None => false,
            };
            let ghost dom_before = self.agents().dom();
            if expired {
                agent_table_remove(&mut self.agent_states, id.as_str());
                proof {
                    assert(dom_before.contains(id@));
                    assert(self.agents().dom() =~= dom_before.remove(id@));
                }
                removed = removed + 1;
            }
            proof {
                assert(self.agents().dom() =~= before.dom().filter(|k: Seq<char>|
                    !(exists|j: int| 0 <= j < i + 1 && all[j].0@ == k && heartbeat_expired(before[k].last_heartbeat, now))));
            }
            i = i + 1;
        }
        proof {
            assert(self.agents().dom() =~= before.dom().filter(
                |k: Seq<char>| !heartbeat_expired(before[k].last_heartbeat, now))) by {
                assert forall|k: Seq<char>| before.dom().contains(k) && heartbeat_expired(before[k].last_heartbeat, now)
                    implies exists|j: int| 0 <= j < n && all[j].0@ == k by {
                    lemma_agent_listing_covers(before, all, k);
                }
            }
        }
        self.cluster_state.agent_count = agent_table_len(&self.agent_states);
        self.cluster_state.updated_at = now;
        removed
    }
}

/// Every key of a finite table shows up in a duplicate-free listing of its
/// entries as long as the table.
proof fn lemma_agent_listing_covers(m: Map<Seq<char>, AgentStateView>, all: Seq<(String, AgentStateInfo)>, k: Seq<char>)
    requires
        m.dom().finite(),
        m.dom().contains(k),
        forall|j: int| 0 <= j < all.len() ==> #[trigger] m.dom().contains(all[j].0@) && m[all[j].0@] == all[j].1@,
        forall|j: int, l: int| 0 <= j < l < all.len() ==> all[j].0@ != all[l].0@,
        all.len() == m.dom().len(),
    ensures
        exists|j: int| 0 <= j < all.len() && all[j].0@ == k,
{
    let keys = all.map_values(|e: (String, AgentStateInfo)| e.0@);
    assert forall|j: int, l: int| 0 <= j < keys.len() && 0 <= l < keys.len() && j != l implies keys[j] != keys[l] by {
        if j < l { } else { }
    }
    assert(keys.no_duplicates());
    keys.unique_seq_to_set();
    assert(keys.to_set().subset_of(m.dom())) by {
        assert forall|x: Seq<char>| keys.to_set().contains(x) implies m.dom().contains(x) by {
            let j = choose|j: int| 0 <= j < keys.len() && keys[j] == x;
            assert(m.dom().contains(all[j].0@));
        }
    }
    if !keys.to_set().contains(k) {
        vstd::set_lib::lemma_len_subset(keys.to_set().insert(k), m.dom());
    }
    let j = choose|j: int| 0 <= j < keys.len() && keys[j] == k;
    assert(all[j].0@ == k);
}

} // verus!
