//! The cluster manager: one interface over the node manager, service discovery,
//! load balancing, the cluster state and health checking.
use vstd::prelude::*;
use crate::agent::{AgentCard, AgentCardView};
use crate::cluster_state::{ClusterState, ClusterStateManager, heartbeat_expired};
use crate::config::ClusterConfig;
use crate::error::{ClusterError, ClusterResult};
use crate::health_checker::{HealthChecker, HealthStatus, cached_health};
use crate::load_balancer::{LoadBalancer, TargetNode, candidate_ids, healthy_targets, picks};
use crate::node_manager::{NodeInfo, NodeInfoView, NodeManager, node_unresponsive};
use crate::service_discovery::{
    ServiceDiscovery, ServiceRegistryView, agents_of, capability_view, lists_exactly, service_id_for,
};

verus! {

/// Endpoint used for an agent that lists none.
pub const DEFAULT_AGENT_ENDPOINT: &'static str = "http://localhost:8080";

/// The endpoint under which an agent is balanced and watched: its first
/// endpoint's URL, or the default one.
pub open spec fn agent_endpoint(a: AgentCardView) -> Seq<char> {
    if a.endpoints.len() > 0 {
        a.endpoints[0].url
    } else {
        DEFAULT_AGENT_ENDPOINT@
    }
}

/// The ids under which agents are balanced: `agent-` followed by the agent id.
pub open spec fn balancer_ids(agents: Seq<AgentCardView>) -> Seq<Seq<char>> {
    agents.map_values(|a: AgentCardView| "agent-"@ + a.id)
}

/// The key that consistent hashing hashes for a list of candidate ids.
pub open spec fn hash_key(ids: Seq<Seq<char>>) -> Seq<char> {
    if ids.len() > 0 { ids[0] } else { Seq::empty() }
}

/// An id with a leading `agent-` removed, if it has one.
pub open spec fn strip_agent_prefix(id: Seq<char>) -> Seq<char> {
    if "agent-"@.is_prefix_of(id) { id.skip(6) } else { id }
}

/// The first agent of a list with the given id, if any.
pub open spec fn first_with_id(agents: Seq<AgentCardView>, id: Seq<char>) -> Option<AgentCardView>
    decreases agents.len(),
{
    if agents.len() == 0 {
        None
    } else if agents[0].id == id {
        Some(agents[0])
    } else {
        first_with_id(agents.drop_first(), id)
    }
}

/// The view of an optional agent.
pub open spec fn opt_agent(o: Option<AgentCard>) -> Option<AgentCardView> {
    match o {
        Some(a) => Some(a@),
        None => None,
    }
}

/// The agent that a balancer pick stands for among the discovered agents.
pub open spec fn picked_agent(agents: Seq<AgentCardView>, pick: Option<String>) -> Option<AgentCardView> {
    match pick {
        Some(p) => first_with_id(agents, strip_agent_prefix(p@)),
        None => None,
    }
}

/// The endpoint under which an agent is balanced and watched.
pub fn endpoint_of(agent: &AgentCard) -> (r: String)
    ensures
        r@ == agent_endpoint(agent@),
{
    if agent.endpoints.len() > 0 {
        agent.endpoints[0].url.clone()
    } else {
        String::from_str(DEFAULT_AGENT_ENDPOINT)
    }
}

/// An id with a leading `agent-` removed, if it has one.
pub fn strip_agent_id(id: &str) -> (r: String)
    ensures
        r@ == strip_agent_prefix(id@),
{
    if crate::text::starts_with(id, "agent-") {
        proof {
            reveal_strlit("agent-");
        }
        let n = id.unicode_len();
        String::from_str(id.substring_char(6, n))
    } else {
        String::from_str(id)
    }
}

fn balancer_id_list(agents: &Vec<AgentCard>) -> (r: Vec<String>)
    ensures
        candidate_ids(r@) == balancer_ids(agents@.map_values(|a: AgentCard| a@)),
{
    let n = agents.len();
    let mut out: Vec<String> = Vec::new();
    let mut i: usize = 0;
    while i < n
        invariant
            n == agents@.len(),
            i <= n,
            out@.len() == i,
            forall|j: int| 0 <= j < i ==> #[trigger] out@[j]@ == "agent-"@ + agents@[j]@.id,
        decreases n - i,
    {
        out.push(crate::text::join2("agent-", agents[i].id.as_str()));
        i = i + 1;
    }
    proof {
        assert(candidate_ids(out@) =~= balancer_ids(agents@.map_values(|a: AgentCard| a@)));
    }
    out
}

/// The position of the first agent with the given id.
fn find_agent(agents: &Vec<AgentCard>, id: &str) -> (r: Option<usize>)
    ensures
        match r {
            Some(i) => i < agents@.len() && first_with_id(agents@.map_values(|a: AgentCard| a@), id@)
                == Some(agents@[i as int]@),
            None => first_with_id(agents@.map_values(|a: AgentCard| a@), id@) is None,
        },
{
    let ghost views = agents@.map_values(|a: AgentCard| a@);
    let n = agents.len();
    let mut i: usize = 0;
    assert(views.skip(0) =~= views);
    while i < n
        invariant
            n == agents@.len(),
            views == agents@.map_values(|a: AgentCard| a@),
            i <= n,
            first_with_id(views, id@) == first_with_id(views.skip(i as int), id@),
        decreases n - i,
    {
        let ghost rest = views.skip(i as int);
        assert(rest[0] == agents@[i as int]@);
        if crate::text::same_text(agents[i].id.as_str(), id) {
            return Some(i);
        }
        assert(rest.drop_first() =~= views.skip(i + 1));
        i = i + 1;
    }
    assert(views.skip(n as int).len() == 0);
    None
}

/// The cluster manager.
pub struct ClusterManager {
    node_manager: NodeManager,
    service_discovery: ServiceDiscovery,
    load_balancer: LoadBalancer,
    state_manager: ClusterStateManager,
    health_checker: HealthChecker,
    config: ClusterConfig,
}

impl ClusterManager {
    /// The node manager.
    pub closed spec fn nodes(&self) -> NodeManager {
        self.node_manager
    }

    /// Service discovery.
    pub closed spec fn discovery(&self) -> ServiceDiscovery {
        self.service_discovery
    }

    /// The load balancer.
    pub closed spec fn balancer(&self) -> LoadBalancer {
        self.load_balancer
    }

    /// The cluster state manager.
    pub closed spec fn states(&self) -> ClusterStateManager {
        self.state_manager
    }

    /// The health checker.
    pub closed spec fn health(&self) -> HealthChecker {
        self.health_checker
    }

    /// Every component is well formed.
    pub open spec fn wf(&self) -> bool {
        &&& self.nodes().wf()
        &&& self.discovery().wf()
        &&& self.balancer().wf()
        &&& self.states().wf()
        &&& self.health().wf()
    }

    /// Whether every component runs.
    pub open spec fn all_running(&self) -> bool {
        &&& self.nodes().running_spec()
        &&& self.discovery().running_spec()
        &&& self.balancer().running_spec()
        &&& self.states().running_spec()
        &&& self.health().running_spec()
    }

    /// Whether no component runs.
    pub open spec fn none_running(&self) -> bool {
        &&& !self.nodes().running_spec()
        &&& !self.discovery().running_spec()
        &&& !self.balancer().running_spec()
        &&& !self.states().running_spec()
        &&& !self.health().running_spec()
    }

    /// Whether discovery files `agent` under `id`, flagged healthy, and `id`
    /// is a healthy load-balancing target.
    pub open spec fn holds_agent(&self, id: Seq<char>, agent: AgentCardView) -> bool {
        &&& self.discovery().registrations().dom().contains(id)
        &&& self.discovery().registrations()[id].agent_info == agent
        &&& self.discovery().health_flags().dom().contains(id)
        &&& self.discovery().health_flags()[id]
        &&& self.balancer().table().dom().contains(id)
        &&& self.balancer().table()[id].healthy
    }

    /// Whether the registered agents and targets of two managers are the same.
    pub open spec fn same_tables(&self, other: &ClusterManager) -> bool {
        &&& self.nodes().others() == other.nodes().others()
        &&& self.discovery().registrations() == other.discovery().registrations()
        &&& self.discovery().health_flags() == other.discovery().health_flags()
        &&& self.balancer().table() == other.balancer().table()
        &&& self.states().agents() == other.states().agents()
        &&& self.health().table() == other.health().table()
    }

    /// A manager whose components are made from `config`; refused when the
    /// discovery backend or the state synchronisation backend is not available.
    pub fn new(config: ClusterConfig) -> (r: ClusterResult<Self>)
        ensures
            r is Ok <==> (config.discovery.backend == crate::service_discovery::DiscoveryBackend::Memory
                && config.state.sync_backend@ == "memory"@),
            r matches Err(e) ==> e is UnsupportedBackend,
            r matches Ok(m) ==> ({
                &&& m.wf()
                &&& m.none_running()
                &&& m.nodes().others().dom() == Set::<Seq<char>>::empty()
                &&& m.discovery().registrations().dom() == Set::<Seq<char>>::empty()
                &&& m.discovery().health_flags().dom() == Set::<Seq<char>>::empty()
                &&& m.balancer().table().dom() == Set::<Seq<char>>::empty()
                &&& m.balancer().strategy_spec() == config.load_balancer.strategy
                &&& m.balancer().counter() == 0
                &&& m.states().agents().dom() == Set::<Seq<char>>::empty()
                &&& m.health().table().dom() == Set::<Seq<char>>::empty()
                &&& m.health().config_spec() == config.health_check
            }),
    {
        let kept = config.clone();
        let ClusterConfig { node, discovery, load_balancer, state, health_check } = config;
        let node_manager = match NodeManager::new(node) {
            Ok(m) => m,
            Err(e) => { return Err(e); },
        };
        let service_discovery = match ServiceDiscovery::new(discovery) {
            Ok(d) => d,
            Err(e) => { return Err(e); },
        };
        let load_balancer = match LoadBalancer::new(load_balancer) {
            Ok(b) => b,
            Err(e) => { return Err(e); },
        };
        let state_manager = match ClusterStateManager::new(state) {
            Ok(s) => s,
            Err(e) => { return Err(e); },
        };
        let health_checker = match HealthChecker::new(health_check) {
            Ok(h) => h,
            Err(e) => { return Err(e); },
        };
        Ok(ClusterManager {
            node_manager,
            service_discovery,
            load_balancer,
            state_manager,
            health_checker,
            config: kept,
        })
    }

    /// Starts every component.
    pub fn start(&mut self) -> (r: ClusterResult<()>)
        requires
            old(self).wf(),
        ensures
            r is Ok,
            final(self).wf(),
            final(self).all_running(),
            final(self).same_tables(old(self)),
            final(self).balancer().counter() == old(self).balancer().counter(),
            final(self).balancer().strategy_spec() == old(self).balancer().strategy_spec(),
            final(self).health().config_spec() == old(self).health().config_spec(),
    {
        let _ = self.node_manager.start();
        let _ = self.service_discovery.start();
        let _ = self.load_balancer.start();
        let _ = self.state_manager.start();
        let _ = self.health_checker.start();
        Ok(())
    }

    /// Stops every component, in the reverse order.
    pub fn stop(&mut self) -> (r: ClusterResult<()>)
        requires
            old(self).wf(),
        ensures
            r is Ok,
            final(self).wf(),
            final(self).none_running(),
            final(self).same_tables(old(self)),
            final(self).balancer().counter() == old(self).balancer().counter(),
            final(self).balancer().strategy_spec() == old(self).balancer().strategy_spec(),
            final(self).health().config_spec() == old(self).health().config_spec(),
    {
        let _ = self.health_checker.stop();
        let _ = self.state_manager.stop();
        let _ = self.load_balancer.stop();
        let _ = self.service_discovery.stop();
        let _ = self.node_manager.stop();
        Ok(())
    }

    /// The heartbeat task's step at `now` (milliseconds since the Unix
    /// epoch): this node records its own heartbeat; nothing else changes.
    pub fn heartbeat_tick(&mut self, now: i64)
        requires
            old(self).wf(),
        ensures
            final(self).wf(),
            final(self).nodes().current()
                == (NodeInfoView { last_heartbeat: Some(now), updated_at: now, ..old(self).nodes().current() }),
            final(self).nodes().others() == old(self).nodes().others(),
            final(self).nodes().running_spec() == old(self).nodes().running_spec(),
            final(self).discovery() == old(self).discovery(),
            final(self).balancer() == old(self).balancer(),
            final(self).states() == old(self).states(),
            final(self).health() == old(self).health(),
    {
        self.node_manager.beat(now);
    }

    /// The node discovery task's step at `now`: every other node that has sent
    /// no heartbeat for more than 300 whole seconds is forgotten; returns how
    /// many were. Nothing else changes.
    pub fn node_discovery_tick(&mut self, now: i64) -> (r: usize)
        requires
            old(self).wf(),
        ensures
            final(self).wf(),
            final(self).nodes().others().dom() == old(self).nodes().others().dom().filter(
                |k: Seq<char>| !node_unresponsive(old(self).nodes().others()[k].last_heartbeat, now)),
            forall|k: Seq<char>| #[trigger] final(self).nodes().others().dom().contains(k)
                ==> final(self).nodes().others()[k] == old(self).nodes().others()[k],
            r == old(self).nodes().others().dom().len() - final(self).nodes().others().dom().len(),
            final(self).nodes().current() == old(self).nodes().current(),
            final(self).nodes().running_spec() == old(self).nodes().running_spec(),
            final(self).discovery() == old(self).discovery(),
            final(self).balancer() == old(self).balancer(),
            final(self).states() == old(self).states(),
            final(self).health() == old(self).health(),
    {
        self.node_manager.prune_unresponsive_nodes(now)
    }

    /// The cluster state's statistics step at `now`: every agent whose last
    /// heartbeat is more than 300 seconds old is forgotten by the cluster
    /// state; returns how many were. Nothing else changes.
    pub fn stats_tick(&mut self, now: i64) -> (r: usize)
        requires
            old(self).wf(),
        ensures
            final(self).wf(),
            final(self).states().agents().dom() == old(self).states().agents().dom().filter(
                |k: Seq<char>| !heartbeat_expired(old(self).states().agents()[k].last_heartbeat, now)),
            forall|k: Seq<char>| #[trigger] final(self).states().agents().dom().contains(k)
                ==> final(self).states().agents()[k] == old(self).states().agents()[k],
            r == old(self).states().agents().dom().len() - final(self).states().agents().dom().len(),
            final(self).states().state().status == old(self).states().state().status,
            final(self).states().running_spec() == old(self).states().running_spec(),
            final(self).nodes() == old(self).nodes(),
            final(self).discovery() == old(self).discovery(),
            final(self).balancer() == old(self).balancer(),
            final(self).health() == old(self).health(),
    {
        self.state_manager.expire_stale_agents(now)
    }

    /// Registers an agent: discovery files it under `agent-` followed by its
    /// id, the cluster state records it, and it becomes a load-balancing target
    /// and a watched target at its endpoint; returns that id.
    pub fn register_agent(&mut self, agent_info: AgentCard) -> (r: ClusterResult<String>)
        requires
            old(self).wf(),
        ensures
            final(self).wf(),
            r matches Ok(id) && id@ == "agent-"@ + agent_info@.id && final(self).holds_agent(id@, agent_info@) && ({
                let ep = agent_endpoint(agent_info@);
                let reg = final(self).discovery().registrations()[id@];
                &&& final(self).discovery().registrations().dom()
                    == old(self).discovery().registrations().dom().insert(id@)
                &&& forall|k: Seq<char>| k != id@ ==> #[trigger] final(self).discovery().registrations()[k]
                    == old(self).discovery().registrations()[k]
                &&& reg.agent_info == agent_info@
                &&& reg.tags == seq!["agent"@]
                &&& final(self).discovery().health_flags() == old(self).discovery().health_flags().insert(id@, true)
                &&& final(self).states().agents().dom() == old(self).states().agents().dom().insert(id@)
                &&& final(self).states().agents()[id@].agent_info == agent_info@
                &&& forall|k: Seq<char>| k != id@ ==> #[trigger] final(self).states().agents()[k]
                    == old(self).states().agents()[k]
                &&& final(self).balancer().table().dom() == old(self).balancer().table().dom().insert(id@)
                &&& final(self).balancer().table()[id@].endpoint@ == ep
                &&& final(self).balancer().table()[id@].healthy
                &&& forall|k: Seq<char>| k != id@ && old(self).balancer().table().dom().contains(k)
                    ==> #[trigger] final(self).balancer().table()[k] == old(self).balancer().table()[k]
                &&& final(self).health().table() == old(self).health().table().insert(id@,
                    old(self).health().fresh_target(id@, ep))
            }),
            final(self).nodes() == old(self).nodes(),
            final(self).balancer().counter() == old(self).balancer().counter(),
            final(self).balancer().strategy_spec() == old(self).balancer().strategy_spec(),
            final(self).health().config_spec() == old(self).health().config_spec(),
    {
        let card = agent_info.clone();
        let agent_id = match self.service_discovery.register_agent(card) {
            Ok(id) => id,
            Err(e) => { return Err(e); },
        };
        let _ = self.state_manager.update_agent_state(agent_id.as_str(), &agent_info);
        let endpoint = endpoint_of(&agent_info);
        let _ = self.load_balancer.add_target(agent_id.as_str(), endpoint.clone());
        let _ = self.health_checker.start_monitoring(agent_id.as_str(), endpoint);
        Ok(agent_id)
    }

    /// Unregisters an agent: it is no longer watched, balanced or recorded
    /// under `agent_id`, and discovery forgets the agent with that id (filed under `agent-` followed by it).
    pub fn unregister_agent(&mut self, agent_id: &str) -> (r: ClusterResult<()>)
        requires
            old(self).wf(),
        ensures
            r is Ok,
            final(self).wf(),
            final(self).health().table() == old(self).health().table().remove(agent_id@),
            final(self).balancer().table() == old(self).balancer().table().remove(agent_id@),
            final(self).states().agents() == old(self).states().agents().remove(agent_id@),
            final(self).discovery().registrations()
                == old(self).discovery().registrations().remove(service_id_for(agent_id@)),
            final(self).discovery().health_flags()
                == old(self).discovery().health_flags().remove(service_id_for(agent_id@)),
            final(self).nodes() == old(self).nodes(),
            final(self).balancer().counter() == old(self).balancer().counter(),
            final(self).balancer().strategy_spec() == old(self).balancer().strategy_spec(),
            final(self).health().config_spec() == old(self).health().config_spec(),
    {
        let _ = self.health_checker.stop_monitoring(agent_id);
        let _ = self.load_balancer.remove_target(agent_id);
        let _ = self.state_manager.remove_agent_state(agent_id);
        let _ = self.service_discovery.unregister_agent(agent_id);
        Ok(())
    }

    /// The agents that show up in discovery, each once, in no particular order.
    pub fn discover_agents(&self, capability: Option<&str>) -> (r: ClusterResult<Vec<AgentCard>>)
        requires
            self.wf(),
        ensures
            r matches Ok(v) && exists|regs: Seq<ServiceRegistryView>|
                lists_exactly(self.discovery().registrations(),
                    self.discovery().discoverable_for(capability_view(capability)), regs)
                && v@.map_values(|a: AgentCard| a@) == #[trigger] agents_of(regs),
    {
        self.service_discovery.discover_agents(capability)
    }

    /// Picks an agent among those that show up in discovery: the load balancer
    /// picks among their ids with `agent-` in front, and the agent whose id the
    /// pick stands for is returned; none when nothing can be picked.
    pub fn select_target(&mut self, capability: Option<&str>) -> (r: ClusterResult<Option<AgentCard>>)
        requires
            old(self).wf(),
        ensures
            final(self).wf(),
            final(self).nodes() == old(self).nodes(),
            final(self).discovery() == old(self).discovery(),
            final(self).states() == old(self).states(),
            final(self).health() == old(self).health(),
            final(self).balancer().table() == old(self).balancer().table(),
            final(self).balancer().strategy_spec() == old(self).balancer().strategy_spec(),
            final(self).balancer().running_spec() == old(self).balancer().running_spec(),
            r matches Ok(o) && exists|regs: Seq<ServiceRegistryView>, pick: Option<String>|
                #![trigger agents_of(regs), picked_agent(agents_of(regs), pick)]
                lists_exactly(old(self).discovery().registrations(),
                    old(self).discovery().discoverable_for(capability_view(capability)), regs)
                && picks(
                    old(self).balancer().strategy_spec(),
                    healthy_targets(old(self).balancer().table(), balancer_ids(agents_of(regs))),
                    old(self).balancer().counter(),
                    hash_key(balancer_ids(agents_of(regs))),
                    pick,
                    final(self).balancer().counter(),
                )
                && opt_agent(o) == picked_agent(agents_of(regs), pick),
    {
        let agents = match self.service_discovery.discover_agents(capability) {
            Ok(v) => v,
            Err(e) => { return Err(e); },
        };
        let ghost regs = choose|regs: Seq<ServiceRegistryView>|
            lists_exactly(self.discovery().registrations(),
                self.discovery().discoverable_for(capability_view(capability)), regs)
            && agents@.map_values(|a: AgentCard| a@) == #[trigger] agents_of(regs);
        let ids = balancer_id_list(&agents);
        if agents.len() == 0 {
            proof {
                assert(balancer_ids(agents_of(regs)).len() == 0);
                assert(healthy_targets(self.balancer().table(), balancer_ids(agents_of(regs))) =~= Seq::<TargetNode>::empty());
                assert(picked_agent(agents_of(regs), None) is None);
            }
            return Ok(None);
        }
        let pick = match self.load_balancer.select_target(ids.as_slice()) {
            Ok(p) => p,
            Err(e) => { return Err(e); },
        };
        proof {
            assert(hash_key(balancer_ids(agents_of(regs))) == ids@[0]@);
        }
        match &pick {
            Some(selected) => {
                let original = strip_agent_id(selected.as_str());
                match find_agent(&agents, original.as_str()) {
                    Some(i) => {
                        let found = agents[i].clone();
                        proof {
                            assert(picked_agent(agents_of(regs), pick) == Some(found@));
                        }
                        Ok(Some(found))
                    },
                    None => {
                        proof {
                            assert(picked_agent(agents_of(regs), pick) is None);
                        }
                        Ok(None)
                    },
                }
            },
            None => Ok(None),
        }
    }

    /// A copy of the cluster state.
    pub fn get_cluster_state(&self) -> (r: ClusterResult<ClusterState>)
        ensures
            r matches Ok(s) && s@ == self.states().state(),
    {
        self.state_manager.get_state()
    }

    /// A copy of this node's record.
    pub fn get_node_info(&self) -> (r: ClusterResult<NodeInfo>)
        ensures
            r matches Ok(n) && n@ == self.nodes().current(),
    {
        self.node_manager.get_node_info()
    }

    /// This node first, then every other node once, in no particular order.
    pub fn list_nodes(&self) -> (r: ClusterResult<Vec<NodeInfo>>)
        requires
            self.wf(),
        ensures
            r matches Ok(v) && v@.len() == 1 + self.nodes().others().dom().len()
                && v@[0]@ == self.nodes().current()
                && (forall|i: int| 1 <= i < v@.len() ==> #[trigger] self.nodes().others().dom().contains(v@[i]@.id)
                    && self.nodes().others()[v@[i]@.id] == v@[i]@)
                && (forall|i: int, j: int| 1 <= i < j < v@.len() ==> v@[i]@.id != v@[j]@.id),
    {
        self.node_manager.list_nodes()
    }

    /// The health that the last check of an agent found, or unknown.
    pub fn check_agent_health(&self, agent_id: &str) -> (r: ClusterResult<HealthStatus>)
        ensures
            r matches Ok(s) && s == cached_health(self.health().target(agent_id@)),
    {
        self.health_checker.check_health(agent_id)
    }

    /// Every load-balancing target once, in no particular order.
    #[verifier::spinoff_prover]
    pub fn list_load_balancer_targets(&self) -> (r: ClusterResult<Vec<TargetNode>>)
        requires
            self.wf(),
        ensures
            r matches Ok(v) && v@.len() == self.balancer().table().dom().len()
                && (forall|i: int| 0 <= i < v@.len() ==> #[trigger] self.balancer().table().dom().contains(v@[i].id@)
                    && self.balancer().table()[v@[i].id@] == v@[i])
                && (forall|i: int, j: int| 0 <= i < j < v@.len() ==> v@[i].id@ != v@[j].id@),
    {
        let r = self.load_balancer.list_targets();
        assert(self.balancer() == self.load_balancer);
        r
    }
}

/// The first agent with an id is one of the agents and has that id, and there
/// is one as soon as some agent has the id.
pub proof fn lemma_first_with_id(agents: Seq<AgentCardView>, id: Seq<char>)
    ensures
        first_with_id(agents, id) matches Some(a) ==> agents.contains(a) && a.id == id,
        (exists|j: int| 0 <= j < agents.len() && #[trigger] agents[j].id == id) ==> first_with_id(agents, id) is Some,
    decreases agents.len(),
{
    if agents.len() > 0 {
        let rest = agents.drop_first();
        lemma_first_with_id(rest, id);
        if agents[0].id != id {
            if first_with_id(rest, id) is Some {
                let a = first_with_id(rest, id)->0;
                let k = choose|k: int| 0 <= k < rest.len() && rest[k] == a;
                assert(agents[k + 1] == a);
            }
            if exists|j: int| 0 <= j < agents.len() && #[trigger] agents[j].id == id {
                let j = choose|j: int| 0 <= j < agents.len() && #[trigger] agents[j].id == id;
                assert(rest[j - 1] == agents[j]);
            }
        } else {
            assert(agents[0] == agents[0]);
        }
    }
}

/// The id under which an agent is balanced stands for the agent again once
/// `agent-` is taken off.
pub proof fn lemma_strip_balancer_id(id: Seq<char>)
    ensures
        strip_agent_prefix("agent-"@ + id) == id,
{
    reveal_strlit("agent-");
    assert("agent-"@.is_prefix_of("agent-"@ + id)) by {
        assert(("agent-"@ + id).subrange(0, 6) =~= "agent-"@);
    }
    assert(("agent-"@ + id).skip(6) =~= id);
}

/// Selection picks an agent whenever some discovered agent is a healthy
/// load-balancing target, and whatever agent it picks is one of the
/// discovered agents and a healthy target itself.
pub proof fn lemma_selection_picks_discovered_agent(
    table: Map<Seq<char>, TargetNode>,
    agents: Seq<AgentCardView>,
    strategy: crate::load_balancer::LoadBalancingStrategy,
    counter: usize,
    key: Seq<char>,
    pick: Option<String>,
    counter2: usize,
)
    requires
        forall|k: Seq<char>| #[trigger] table.dom().contains(k) ==> table[k].id@ == k,
        picks(strategy, healthy_targets(table, balancer_ids(agents)), counter, key, pick, counter2),
    ensures
        picked_agent(agents, pick) matches Some(a) ==> agents.contains(a)
            && table.dom().contains("agent-"@ + a.id) && table["agent-"@ + a.id].healthy,
        (exists|j: int| 0 <= j < agents.len() && table.dom().contains("agent-"@ + agents[j].id)
            && #[trigger] table["agent-"@ + agents[j].id].healthy) ==> picked_agent(agents, pick) is Some,
{
    let ids = balancer_ids(agents);
    crate::load_balancer::lemma_pick_is_healthy_candidate(table, ids, strategy, counter, key, pick, counter2);
    if exists|j: int| 0 <= j < agents.len() && table.dom().contains("agent-"@ + agents[j].id)
        && #[trigger] table["agent-"@ + agents[j].id].healthy {
        let j = choose|j: int| 0 <= j < agents.len() && table.dom().contains("agent-"@ + agents[j].id)
            && #[trigger] table["agent-"@ + agents[j].id].healthy;
        assert(ids[j] == "agent-"@ + agents[j].id);
        assert(crate::load_balancer::some_healthy_candidate(table, ids));
    }
    if pick is Some {
        let p = pick->0;
        let j = choose|j: int| 0 <= j < ids.len() && ids[j] == p@;
        assert(p@ == "agent-"@ + agents[j].id);
        lemma_strip_balancer_id(agents[j].id);
        lemma_first_with_id(agents, agents[j].id);
        let a = picked_agent(agents, pick)->0;
        assert(a.id == agents[j].id);
    }
}

/// An agent that the manager holds shows up in discovery without a
/// capability filter and for every capability it offers.
pub proof fn lemma_held_agent_is_discovered(
    m: ClusterManager,
    id: Seq<char>,
    agent: AgentCardView,
    capability: Option<Seq<char>>,
    regs: Seq<ServiceRegistryView>,
)
    requires
        m.wf(),
        m.holds_agent(id, agent),
        capability matches Some(c) ==> crate::agent::offers(agent, c),
        lists_exactly(m.discovery().registrations(), m.discovery().discoverable_for(capability), regs),
    ensures
        agents_of(regs).contains(agent),
{
    let table = m.discovery().registrations();
    assert(crate::service_discovery::discoverable(m.discovery().health_flags(), table[id], capability));
    assert((m.discovery().discoverable_for(capability))(table[id]));
    let i = choose|i: int| 0 <= i < regs.len() && regs[i].service_id == id;
    assert(table.dom().contains(regs[i].service_id));
    assert(agents_of(regs)[i] == agent);
}

/// An agent that the manager holds, under the id that registration gives it,
/// can always be selected: selection among the agents that discovery lists
/// (without a filter, or for a capability the agent offers) picks some agent.
pub proof fn lemma_registered_agent_is_selectable(
    m: ClusterManager,
    agent: AgentCardView,
    capability: Option<Seq<char>>,
    regs: Seq<ServiceRegistryView>,
    pick: Option<String>,
    counter2: usize,
)
    requires
        m.wf(),
        m.holds_agent("agent-"@ + agent.id, agent),
        capability matches Some(c) ==> crate::agent::offers(agent, c),
        lists_exactly(m.discovery().registrations(), m.discovery().discoverable_for(capability), regs),
        picks(
            m.balancer().strategy_spec(),
            healthy_targets(m.balancer().table(), balancer_ids(agents_of(regs))),
            m.balancer().counter(),
            hash_key(balancer_ids(agents_of(regs))),
            pick,
            counter2,
        ),
    ensures
        picked_agent(agents_of(regs), pick) is Some,
{
    lemma_held_agent_is_discovered(m, "agent-"@ + agent.id, agent, capability, regs);
    let agents = agents_of(regs);
    let j = choose|j: int| 0 <= j < agents.len() && agents[j] == agent;
    let table = m.balancer().table();
    assert(table["agent-"@ + agents[j].id].healthy);
    lemma_selection_picks_discovered_agent(table, agents, m.balancer().strategy_spec(), m.balancer().counter(),
        hash_key(balancer_ids(agents)), pick, counter2);
}

} // verus!
