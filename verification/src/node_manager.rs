//! The nodes of the cluster: this node's record, the other nodes it knows of,
//! and their heartbeats.
use vstd::prelude::*;
use std::collections::HashMap;
use dashmap::DashMap;
use crate::agent::{clone_strings, texts};
use crate::cluster_state::VERSION;
use crate::config::NodeConfig;
use crate::error::ClusterResult;
use crate::system::{new_uuid, now_millis};

verus! {

/// Life-cycle state of a node.
#[derive(Debug, PartialEq, Eq)]
pub enum NodeStatus {
    /// Starting up.
    Initializing,
    /// Serving.
    Running,
    /// Shutting down.
    Stopping,
    /// Shut down.
    Stopped,
    /// Failed, with a reason.
    Error(String),
    /// Not reachable.
    Unreachable,
}

/// Role a node plays in the cluster.
#[derive(Debug, Clone, Copy, PartialEq, Eq, Structural)]
pub enum NodeRole {
    /// Coordinates the cluster.
    Master,
    /// Runs agents.
    Worker,
    /// Runs at the edge of the network.
    Edge,
}

/// The name under which a role is reported.
pub open spec fn role_name_spec(role: NodeRole) -> Seq<char> {
    match role {
        NodeRole::Master => "Master"@,
        NodeRole::Worker => "Worker"@,
        NodeRole::Edge => "Edge"@,
    }
}

/// The name under which a role is reported.
pub fn role_name(role: NodeRole) -> (r: &'static str)
    ensures
        r@ == role_name_spec(role),
{
    match role {
        NodeRole::Master => "Master",
        NodeRole::Worker => "Worker",
        NodeRole::Edge => "Edge",
    }
}

impl Clone for NodeStatus {
    fn clone(&self) -> (r: Self)
        ensures
            r == *self,
    {
        match self {
            NodeStatus::Initializing => NodeStatus::Initializing,
            NodeStatus::Running => NodeStatus::Running,
            NodeStatus::Stopping => NodeStatus::Stopping,
            NodeStatus::Stopped => NodeStatus::Stopped,
            NodeStatus::Error(m) => NodeStatus::Error(m.clone()),
            NodeStatus::Unreachable => NodeStatus::Unreachable,
        }
    }
}

/// A node of the cluster.
#[derive(Debug)]
pub struct NodeInfo {
    /// Node id.
    pub id: String,
    /// Node name.
    pub name: String,
    /// Address of the node, as `host:port`.
    pub address: String,
    /// Life-cycle state.
    pub status: NodeStatus,
    /// Role.
    pub role: NodeRole,
    /// Free-form metadata.
    pub metadata: HashMap<String, String>,
    /// Creation time, in milliseconds since the Unix epoch.
    pub created_at: i64,
    /// Last change, in milliseconds since the Unix epoch.
    pub updated_at: i64,
    /// Last heartbeat, in milliseconds since the Unix epoch.
    pub last_heartbeat: Option<i64>,
    /// Version of the node's software.
    pub version: String,
    /// Capabilities of the node.
    pub capabilities: Vec<String>,
}

/// The plain-value view of a node.
pub struct NodeInfoView {
    /// Node id.
    pub id: Seq<char>,
    /// Node name.
    pub name: Seq<char>,
    /// Address.
    pub address: Seq<char>,
    /// Life-cycle state.
    pub status: NodeStatus,
    /// Role.
    pub role: NodeRole,
    /// Metadata.
    pub metadata: Map<String, String>,
    /// Creation time.
    pub created_at: i64,
    /// Last change.
    pub updated_at: i64,
    /// Last heartbeat.
    pub last_heartbeat: Option<i64>,
    /// Version.
    pub version: Seq<char>,
    /// Capabilities.
    pub capabilities: Seq<Seq<char>>,
}

impl View for NodeInfo {
    type V = NodeInfoView;

    open spec fn view(&self) -> NodeInfoView {
        NodeInfoView {
            id: self.id@,
            name: self.name@,
            address: self.address@,
            status: self.status,
            role: self.role,
            metadata: self.metadata@,
            created_at: self.created_at,
            updated_at: self.updated_at,
            last_heartbeat: self.last_heartbeat,
            version: self.version@,
            capabilities: texts(self.capabilities@),
        }
    }
}

impl Clone for NodeInfo {
    fn clone(&self) -> (r: Self)
        ensures
            r@ == self@,
    {
        NodeInfo {
            id: self.id.clone(),
            name: self.name.clone(),
            address: self.address.clone(),
            status: self.status.clone(),
            role: self.role,
            metadata: self.metadata.clone(),
            created_at: self.created_at,
            updated_at: self.updated_at,
            last_heartbeat: self.last_heartbeat,
            version: self.version.clone(),
            capabilities: clone_strings(&self.capabilities),
        }
    }
}

// ---------------------------------------------------------------------------
// The table of other nodes, a `DashMap` keyed by node id.
// ---------------------------------------------------------------------------

/// What a table of nodes holds, by node id.
pub uninterp spec fn node_entries(m: DashMap<String, NodeInfo>) -> Map<Seq<char>, NodeInfoView>;

/// `DashMap::new`: an empty table.
#[verifier::external_body]
fn node_table_new() -> (r: DashMap<String, NodeInfo>)
    ensures
        node_entries(r).dom() == Set::<Seq<char>>::empty(),
{
    DashMap::new()
}

/// `DashMap::insert`: afterwards `id` maps to `v`, every other entry is kept.
#[verifier::external_body]
fn node_table_insert(m: &mut DashMap<String, NodeInfo>, id: String, v: NodeInfo)
    ensures
        node_entries(*final(m)) == node_entries(*old(m)).insert(id@, v@),
{
    m.insert(id, v);
}

/// `DashMap::remove`: afterwards `id` maps to nothing, every other entry is kept.
#[verifier::external_body]
fn node_table_remove(m: &mut DashMap<String, NodeInfo>, id: &str)
    ensures
        node_entries(*final(m)) == node_entries(*old(m)).remove(id@),
{
    m.remove(id);
}

/// `DashMap::get`, cloning the entry: the node filed under `id`, if any.
#[verifier::external_body]
fn node_table_get(m: &DashMap<String, NodeInfo>, id: &str) -> (r: Option<NodeInfo>)
    ensures
        r is Some <==> node_entries(*m).dom().contains(id@),
        r matches Some(v) ==> v@ == node_entries(*m)[id@],
{
    m.get(id).map(|e| e.value().clone())
}

/// `DashMap::iter`, cloning the entries: each entry once, in the map's own order.
#[verifier::external_body]
fn node_table_entries(m: &DashMap<String, NodeInfo>) -> (r: Vec<(String, NodeInfo)>)
    ensures
        forall|i: int| 0 <= i < r@.len() ==> #[trigger] node_entries(*m).dom().contains(r@[i].0@)
            && node_entries(*m)[r@[i].0@] == r@[i].1@,
        forall|i: int, j: int| 0 <= i < j < r@.len() ==> r@[i].0@ != r@[j].0@,
        r@.len() == node_entries(*m).dom().len(),
{
    m.iter().map(|e| (e.key().clone(), e.value().clone())).collect()
}

/// Whole seconds from `earlier` to `later` (milliseconds), truncated toward
/// zero as `chrono::Duration::num_seconds` truncates.
pub open spec fn whole_seconds_between(later: i64, earlier: i64) -> int {
    let d = later - earlier;
    if d >= 0 { d / 1000 } else { -((-d) / 1000) }
}

/// Whole seconds from `earlier` to `later`, truncated toward zero.
pub fn seconds_between(later: i64, earlier: i64) -> (r: i128)
    ensures
        r == whole_seconds_between(later, earlier),
{
    let d: i128 = later as i128 - earlier as i128;
    if d >= 0 {
        d / 1000
    } else {
        -((-d) / 1000)
    }
}

/// Whether a node whose last heartbeat was at `heartbeat` counts as healthy at
/// `now`, for a timeout of `timeout_seconds`: it has sent a heartbeat and
/// fewer whole seconds than the timeout have passed since. The timeout is read
/// as a signed 64-bit number.
pub open spec fn heartbeat_fresh(heartbeat: Option<i64>, now: i64, timeout_seconds: u64) -> bool {
    match heartbeat {
        Some(hb) => whole_seconds_between(now, hb) < (timeout_seconds as i64),
        None => false,
    }
}

/// Whether a node counts as gone: it has sent a heartbeat and more than 300
/// whole seconds have passed since.
pub open spec fn node_unresponsive(heartbeat: Option<i64>, now: i64) -> bool {
    match heartbeat {
        Some(hb) => whole_seconds_between(now, hb) > 300,
        None => false,
    }
}

/// Manages this node's record and the other nodes of the cluster.
pub struct NodeManager {
    current_node: NodeInfo,
    cluster_nodes: DashMap<String, NodeInfo>,
    config: NodeConfig,
    running: bool,
}

impl NodeManager {
    /// This node.
    pub closed spec fn current(&self) -> NodeInfoView {
        self.current_node@
    }

    /// The other nodes, by node id.
    pub closed spec fn others(&self) -> Map<Seq<char>, NodeInfoView> {
        node_entries(self.cluster_nodes)
    }

    /// The configuration the manager was made with.
    pub closed spec fn config_spec(&self) -> NodeConfig {
        self.config
    }

    /// Whether the manager runs.
    pub closed spec fn running_spec(&self) -> bool {
        self.running
    }

    /// The table of other nodes is finite and files each node under its own id.
    pub closed spec fn wf(&self) -> bool {
        &&& self.others().dom().finite()
        &&& forall|k: Seq<char>| #[trigger] self.others().dom().contains(k) ==> self.others()[k].id == k
    }

    /// The node that `id` names: this node when the id is its own, else the
    /// other node filed under it.
    pub open spec fn lookup(&self, id: Seq<char>) -> Option<NodeInfoView> {
        if self.current().id == id {
            Some(self.current())
        } else if self.others().dom().contains(id) {
            Some(self.others()[id])
        } else {
            None
        }
    }

    /// Whether the node that `id` names counts as healthy at `now` for a
    /// timeout of `timeout_seconds` (see `heartbeat_fresh`); an unknown node
    /// does not.
    pub open spec fn healthy_at(&self, id: Seq<char>, timeout_seconds: u64, now: i64) -> bool {
        match self.lookup(id) {
            Some(n) => heartbeat_fresh(n.last_heartbeat, now, timeout_seconds),
            None => false,
        }
    }

    /// A manager for this node as `config` describes it: the configured id or a
    /// fresh one, status initializing, no heartbeat yet, no other nodes.
    pub fn new(config: NodeConfig) -> (r: ClusterResult<Self>)
        ensures
            r matches Ok(m) ==> m.config_spec() == config,
            r matches Ok(m) && ({
                let n = m.current();
                &&& m.wf()
                &&& m.others().dom() == Set::<Seq<char>>::empty()
                &&& match config.node_id {
                    Some(id) => n.id == id@,
                    None => n.id.len() == 36,
                }
                &&& n.name == config.node_name@
                &&& n.address == config.bind_address@
                &&& n.status == NodeStatus::Initializing
                &&& n.role == config.role
                &&& n.metadata == config.metadata@
                &&& n.last_heartbeat is None
                &&& n.version == VERSION@
                &&& n.capabilities == texts(config.capabilities@)
                &&& !m.running_spec()
            }),
    {
        let node_id = match &config.node_id {
            Some(id) => id.clone(),
            None => new_uuid(),
        };
        let now = now_millis();
        let current_node = NodeInfo {
            id: node_id,
            name: config.node_name.clone(),
            address: config.bind_address.clone(),
            status: NodeStatus::Initializing,
            role: config.role,
            metadata: config.metadata.clone(),
            created_at: now,
            updated_at: now,
            last_heartbeat: None,
            version: String::from_str(VERSION),
            capabilities: clone_strings(&config.capabilities),
        };
        Ok(NodeManager { current_node, cluster_nodes: node_table_new(), config, running: false })
    }

    /// Marks this node running, with a fresh heartbeat.
    pub fn start(&mut self) -> (r: ClusterResult<()>)
        requires
            old(self).wf(),
        ensures
            final(self).config_spec() == old(self).config_spec(),
            r is Ok,
            final(self).wf(),
            final(self).running_spec(),
            final(self).current().status == NodeStatus::Running,
            final(self).current().last_heartbeat is Some,
            final(self).current().id == old(self).current().id,
            final(self).others() == old(self).others(),
    {
        let now = now_millis();
        self.current_node.status = NodeStatus::Running;
        self.current_node.updated_at = now;
        self.current_node.last_heartbeat = Some(now);
        self.running = true;
        Ok(())
    }

    /// Marks this node stopped.
    pub fn stop(&mut self) -> (r: ClusterResult<()>)
        requires
            old(self).wf(),
        ensures
            final(self).config_spec() == old(self).config_spec(),
            r is Ok,
            final(self).wf(),
            !final(self).running_spec(),
            final(self).current().status == NodeStatus::Stopped,
            final(self).current().id == old(self).current().id,
            final(self).others() == old(self).others(),
    {
        self.running = false;
        self.current_node.status = NodeStatus::Stopped;
        self.current_node.updated_at = now_millis();
        Ok(())
    }

    /// Interval between heartbeats, in milliseconds.
    pub fn heartbeat_interval(&self) -> (r: u64)
        ensures
            r == self.config_spec().heartbeat_interval,
    {
        self.config.heartbeat_interval
    }

    /// Interval between node discovery rounds, in milliseconds.
    pub fn discovery_interval(&self) -> (r: u64)
        ensures
            r == self.config_spec().discovery_interval,
    {
        self.config.discovery_interval
    }

    /// A copy of this node's record.
    pub fn get_node_info(&self) -> (r: ClusterResult<NodeInfo>)
        ensures
            r matches Ok(n) && n@ == self.current(),
    {
        Ok(self.current_node.clone())
    }

    /// Sets this node's status.
    pub fn update_node_status(&mut self, status: NodeStatus) -> (r: ClusterResult<()>)
        requires
            old(self).wf(),
        ensures
            final(self).config_spec() == old(self).config_spec(),
            r is Ok,
            final(self).wf(),
            final(self).current().status == status,
            final(self).current().id == old(self).current().id,
            final(self).current().last_heartbeat == old(self).current().last_heartbeat,
            final(self).others() == old(self).others(),
            final(self).running_spec() == old(self).running_spec(),
    {
        self.current_node.status = status;
        self.current_node.updated_at = now_millis();
        Ok(())
    }

    /// Files another node under its id, replacing one filed there before.
    pub fn add_cluster_node(&mut self, node_info: NodeInfo) -> (r: ClusterResult<()>)
        requires
            old(self).wf(),
        ensures
            final(self).config_spec() == old(self).config_spec(),
            r is Ok,
            final(self).wf(),
            final(self).others() == old(self).others().insert(node_info.id@, node_info@),
            final(self).current() == old(self).current(),
            final(self).running_spec() == old(self).running_spec(),
    {
        let id = node_info.id.clone();
        node_table_insert(&mut self.cluster_nodes, id, node_info);
        Ok(())
    }

    /// Forgets the other node filed under `node_id`, if any.
    pub fn remove_cluster_node(&mut self, node_id: &str) -> (r: ClusterResult<()>)
        requires
            old(self).wf(),
        ensures
            final(self).config_spec() == old(self).config_spec(),
            r is Ok,
            final(self).wf(),
            final(self).others() == old(self).others().remove(node_id@),
            final(self).current() == old(self).current(),
            final(self).running_spec() == old(self).running_spec(),
    {
        node_table_remove(&mut self.cluster_nodes, node_id);
        Ok(())
    }

    /// This node first, then every other node once, in no particular order.
    pub fn list_nodes(&self) -> (r: ClusterResult<Vec<NodeInfo>>)
        requires
            self.wf(),
        ensures
            r matches Ok(v) && v@.len() == 1 + self.others().dom().len() && v@[0]@ == self.current()
                && (forall|i: int| 1 <= i < v@.len() ==> #[trigger] self.others().dom().contains(v@[i]@.id)
                    && self.others()[v@[i]@.id] == v@[i]@)
                && (forall|i: int, j: int| 1 <= i < j < v@.len() ==> v@[i]@.id != v@[j]@.id),
    {
        let entries = node_table_entries(&self.cluster_nodes);
        assert(forall|i: int| 0 <= i < entries@.len() ==> #[trigger] node_entries(self.cluster_nodes).dom().contains(entries@[i].0@));
        let n = entries.len();
        let ghost all = entries@;
        let mut out: Vec<NodeInfo> = Vec::new();
        out.push(self.current_node.clone());
        let mut rest = entries;
        let mut i: usize = 0;
        while i < n
            invariant
                n == all.len(),
                i <= n,
                rest@.len() == n - i,
                forall|j: int| 0 <= j < rest@.len() ==> rest@[j] == all[j + i],
                out@.len() == i + 1,
                out@[0]@ == self.current(),
                forall|j: int| 0 <= j < i ==> out@[j + 1]@ == all[j].1@,
            decreases n - i,
        {
            let (_, node) = rest.remove(0);
            out.push(node);
            i = i + 1;
        }
        proof {
            assert forall|j: int| 1 <= j < out@.len() implies #[trigger] self.others().dom().contains(out@[j]@.id)
                && self.others()[out@[j]@.id] == out@[j]@ by {
                assert(node_entries(self.cluster_nodes).dom().contains(all[j - 1].0@));
                assert(out@[j]@ == all[j - 1].1@);
            }
            assert forall|a: int, b: int| 1 <= a < b < out@.len() implies out@[a]@.id != out@[b]@.id by {
                assert(node_entries(self.cluster_nodes).dom().contains(all[a - 1].0@));
                assert(node_entries(self.cluster_nodes).dom().contains(all[b - 1].0@));
                assert(out@[a]@ == all[a - 1].1@);
                assert(out@[b]@ == all[b - 1].1@);
            }
        }
        Ok(out)
    }

    /// The node that `node_id` names, if any: this node when the id is its own.
    pub fn get_cluster_node(&self, node_id: &str) -> (r: ClusterResult<Option<NodeInfo>>)
        ensures
            r matches Ok(o) && match o {
                Some(n) => self.lookup(node_id@) == Some(n@),
                None => self.lookup(node_id@) is None,
            },
    {
        if crate::text::same_text(self.current_node.id.as_str(), node_id) {
            return Ok(Some(self.current_node.clone()));
        }
        Ok(node_table_get(&self.cluster_nodes, node_id))
    }

    /// A node's record after a heartbeat at `now`: the heartbeat and the
    /// update time are `now`, everything else stays.
    pub open spec fn beaten(n: NodeInfoView, now: i64) -> NodeInfoView {
        NodeInfoView { last_heartbeat: Some(now), updated_at: now, ..n }
    }

    /// The other nodes after a heartbeat of `id` at `now`: the node filed
    /// under `id`, if any, is `beaten`; the others stay.
    pub open spec fn others_after_beat(&self, id: Seq<char>, now: i64) -> Map<Seq<char>, NodeInfoView> {
        if self.others().dom().contains(id) {
            self.others().insert(id, Self::beaten(self.others()[id], now))
        } else {
            self.others()
        }
    }

    /// Whether `after` is this manager after a heartbeat of `id` at `now`:
    /// this node is `beaten` when the id is its own, else the other node filed
    /// under it is; nothing else changes.
    pub open spec fn heartbeat_applied(&self, after: &NodeManager, id: Seq<char>, now: i64) -> bool {
        &&& after.config_spec() == self.config_spec()
        &&& after.running_spec() == self.running_spec()
        &&& if self.current().id == id {
            after.current() == Self::beaten(self.current(), now) && after.others() == self.others()
        } else {
            after.current() == self.current() && after.others() == self.others_after_beat(id, now)
        }
    }

    /// Records a heartbeat at `now` (milliseconds since the Unix epoch) of the
    /// node that `node_id` names, if any (see `heartbeat_applied`).
    pub fn update_heartbeat_at(&mut self, node_id: &str, now: i64)
        requires
            old(self).wf(),
        ensures
            final(self).wf(),
            old(self).heartbeat_applied(&*final(self), node_id@, now),
    {
        if crate::text::same_text(self.current_node.id.as_str(), node_id) {
            self.current_node.last_heartbeat = Some(now);
            self.current_node.updated_at = now;
            return;
        }
        match node_table_get(&self.cluster_nodes, node_id) {
            Some(node) => {
                let mut node = node;
                node.last_heartbeat = Some(now);
                node.updated_at = now;
                node_table_insert(&mut self.cluster_nodes, String::from_str(node_id), node);
                proof {
                    assert(self.others() =~= old(self).others_after_beat(node_id@, now));
                }
            },
            None => {},
        }
    }

    /// Records a heartbeat of the node that `node_id` names, if any, at the
    /// current time, which the clock gives (see `update_heartbeat_at`).
    pub fn update_heartbeat(&mut self, node_id: &str) -> (r: ClusterResult<()>)
        requires
            old(self).wf(),
        ensures
            r is Ok,
            final(self).wf(),
            exists|now: i64| #[trigger] old(self).heartbeat_applied(&*final(self), node_id@, now),
    {
        let now = now_millis();
        self.update_heartbeat_at(node_id, now);
        assert(old(self).heartbeat_applied(&*self, node_id@, now));
        Ok(())
    }

    /// Records this node's own heartbeat at `now` (milliseconds since the Unix
    /// epoch), as the heartbeat task does on each tick.
    pub fn beat(&mut self, now: i64)
        ensures
            final(self).config_spec() == old(self).config_spec(),
            final(self).current() == (NodeInfoView { last_heartbeat: Some(now), updated_at: now, ..old(self).current() }),
            final(self).others() == old(self).others(),
            final(self).running_spec() == old(self).running_spec(),
            final(self).wf() == old(self).wf(),
    {
        self.current_node.last_heartbeat = Some(now);
        self.current_node.updated_at = now;
    }

    /// Whether the node that `node_id` names has sent a heartbeat fewer than
    /// `timeout_seconds` whole seconds before `now` (milliseconds since the
    /// Unix epoch).
    pub fn is_node_healthy_at(&self, node_id: &str, timeout_seconds: u64, now: i64) -> (r: ClusterResult<bool>)
        ensures
            r matches Ok(b) && b == self.healthy_at(node_id@, timeout_seconds, now),
    {
        match self.get_cluster_node(node_id) {
            Ok(Some(node)) => match node.last_heartbeat {
                Some(hb) => {
                    let secs = seconds_between(now, hb);
                    let limit = timeout_seconds as i64;
                    Ok(secs < limit as i128)
                },
                None => Ok(false),
            },
            _ => Ok(false),
        }
    }

    /// Whether the node that `node_id` names has sent a heartbeat fewer than
    /// `timeout_seconds` whole seconds ago: its health at the current time,
    /// which the clock gives, so the result is its health at some instant.
    pub fn is_node_healthy(&self, node_id: &str, timeout_seconds: u64) -> (r: ClusterResult<bool>)
        ensures
            r matches Ok(b) && (exists|now: i64| b == #[trigger] self.healthy_at(node_id@, timeout_seconds, now)),
    {
        let now = now_millis();
        let r = self.is_node_healthy_at(node_id, timeout_seconds, now);
        assert(r matches Ok(b) && b == self.healthy_at(node_id@, timeout_seconds, now));
        r
    }

    /// Forgets every other node whose last heartbeat is more than 300 whole
    /// seconds before `now`; returns how many were forgotten.
    pub fn prune_unresponsive_nodes(&mut self, now: i64) -> (r: usize)
        requires
            old(self).wf(),
        ensures
            final(self).config_spec() == old(self).config_spec(),
            final(self).wf(),
            final(self).others().dom() == old(self).others().dom().filter(
                |k: Seq<char>| !node_unresponsive(old(self).others()[k].last_heartbeat, now)),
            forall|k: Seq<char>| #[trigger] final(self).others().dom().contains(k)
                ==> final(self).others()[k] == old(self).others()[k],
            r == old(self).others().dom().len() - final(self).others().dom().len(),
            final(self).current() == old(self).current(),
            final(self).running_spec() == old(self).running_spec(),
    {
        let entries = node_table_entries(&self.cluster_nodes);
        assert(forall|i: int| 0 <= i < entries@.len() ==> #[trigger] node_entries(self.cluster_nodes).dom().contains(entries@[i].0@));
        let n = entries.len();
        let ghost all = entries@;
        let ghost before = self.others();
        let mut rest = entries;
        let mut removed: usize = 0;
        let mut i: usize = 0;
        while i < n
            invariant
                n == all.len(),
                i <= n,
                n == before.dom().len(),
                before.dom().finite(),
                rest@.len() == n - i,
                forall|j: int| 0 <= j < rest@.len() ==> rest@[j] == all[j + i],
                forall|j: int| 0 <= j < n ==> #[trigger] before.dom().contains(all[j].0@)
                    && before[all[j].0@] == all[j].1@,
                forall|j: int, k: int| 0 <= j < k < n ==> all[j].0@ != all[k].0@,
                self.others().dom().finite(),
                self.others().dom() == before.dom().filter(|k: Seq<char>|
                    !(exists|j: int| 0 <= j < i && all[j].0@ == k && node_unresponsive(before[k].last_heartbeat, now))),
                forall|k: Seq<char>| #[trigger] self.others().dom().contains(k) ==> self.others()[k] == before[k],
                removed == before.dom().len() - self.others().dom().len(),
                self.current_node@ == old(self).current_node@,
                self.running == old(self).running,
                self.config == old(self).config,
            decreases n - i,
        {
            let (id, node) = rest.remove(0);
            let gone = match node.last_heartbeat {
                Some(hb) => seconds_between(now, hb) > 300,
                None => false,
            };
            let ghost dom_before = self.others().dom();
            if gone {
                node_table_remove(&mut self.cluster_nodes, id.as_str());
                proof {
                    assert(dom_before.contains(id@));
                    assert(self.others().dom() =~= dom_before.remove(id@));
                }
                removed = removed + 1;
            }
            proof {
                assert(self.others().dom() =~= before.dom().filter(|k: Seq<char>|
                    !(exists|j: int| 0 <= j < i + 1 && all[j].0@ == k && node_unresponsive(before[k].last_heartbeat, now))));
            }
            i = i + 1;
        }
        proof {
            assert(self.others().dom() =~= before.dom().filter(
                |k: Seq<char>| !node_unresponsive(before[k].last_heartbeat, now))) by {
                assert forall|k: Seq<char>| before.dom().contains(k) && node_unresponsive(before[k].last_heartbeat, now)
                    implies exists|j: int| 0 <= j < n && all[j].0@ == k by {
                    lemma_node_listing_covers(before, all, k);
                }
            }
        }
        removed
    }
}

/// Every key of a finite table shows up in a duplicate-free listing of its
/// entries as long as the table.
proof fn lemma_node_listing_covers(m: Map<Seq<char>, NodeInfoView>, all: Seq<(String, NodeInfo)>, k: Seq<char>)
    requires
        m.dom().finite(),
        m.dom().contains(k),
        forall|j: int| 0 <= j < all.len() ==> #[trigger] m.dom().contains(all[j].0@) && m[all[j].0@] == all[j].1@,
        forall|j: int, l: int| 0 <= j < l < all.len() ==> all[j].0@ != all[l].0@,
        all.len() == m.dom().len(),
    ensures
        exists|j: int| 0 <= j < all.len() && all[j].0@ == k,
{
    let keys = all.map_values(|e: (String, NodeInfo)| e.0@);
    assert forall|j: int, l: int| 0 <= j < keys.len() && 0 <= l < keys.len() && j != l implies keys[j] != keys[l] by {
        if j < l { } else { }
    }
    assert(keys.no_duplicates());
    keys.unique_seq_to_set();
    assert(keys.to_set().subset_of(m.dom())) by {
        assert forall|x: Seq<char>| keys.to_set().contains(x) implies m.dom().contains(x) by {
            let j = choose|j: int| 0 <= j < keys.len() && keys[j] == x;
            assert(m.dom().contains(all[j].0@));
        }
    }
    if !keys.to_set().contains(k) {
        vstd::set_lib::lemma_len_subset(keys.to_set().insert(k), m.dom());
    }
    let j = choose|j: int| 0 <= j < keys.len() && keys[j] == k;
    assert(all[j].0@ == k);
}

} // verus!
