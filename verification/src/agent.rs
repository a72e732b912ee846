//! The description of an agent that the cluster registers, discovers and
//! routes to: what the cluster logic reads of it.
use vstd::prelude::*;

verus! {

/// A capability an agent offers.
#[derive(Debug)]
pub struct Capability {
    /// Name by which the capability is looked up.
    pub name: String,
    /// What the capability does.
    pub description: String,
    /// Whether the capability can be used now.
    pub available: bool,
}

/// An address at which an agent can be reached.
#[derive(Debug)]
pub struct Endpoint {
    /// Kind of endpoint, such as `http`.
    pub endpoint_type: String,
    /// URL of the endpoint.
    pub url: String,
    /// Protocols spoken there.
    pub protocols: Vec<String>,
}

/// An agent as the cluster knows it.
#[derive(Debug)]
pub struct AgentCard {
    /// Agent id.
    pub id: String,
    /// Display name.
    pub name: String,
    /// What the agent does.
    pub description: String,
    /// Version of the agent.
    pub version: String,
    /// Capabilities offered.
    pub capabilities: Vec<Capability>,
    /// Where the agent can be reached, the preferred endpoint first.
    pub endpoints: Vec<Endpoint>,
    /// Free-form tags.
    pub tags: Vec<String>,
}

/// Whether an agent offers a capability of the given name.
pub open spec fn offers(agent: AgentCardView, capability: Seq<char>) -> bool {
    exists|i: int| 0 <= i < agent.capabilities.len() && #[trigger] agent.capabilities[i].name == capability
}

/// Whether the agent offers a capability named `capability`.
pub fn has_capability(agent: &AgentCard, capability: &str) -> (r: bool)
    ensures
        r == offers(agent@, capability@),
{
    let n = agent.capabilities.len();
    let mut i: usize = 0;
    while i < n
        invariant
            n == agent.capabilities@.len(),
            i <= n,
            forall|j: int| 0 <= j < i ==> #[trigger] agent.capabilities@[j].name@ != capability@,
        decreases n - i,
    {
        if crate::text::same_text(agent.capabilities[i].name.as_str(), capability) {
            assert(agent@.capabilities[i as int].name == capability@);
            return true;
        }
        i = i + 1;
    }
    assert forall|j: int| 0 <= j < agent@.capabilities.len() implies #[trigger] agent@.capabilities[j].name != capability@ by {
        assert(agent.capabilities@[j].name@ != capability@);
    }
    false
}

/// The plain-value view of a capability.
pub struct CapabilityView {
    /// Name.
    pub name: Seq<char>,
    /// Description.
    pub description: Seq<char>,
    /// Availability.
    pub available: bool,
}

/// The plain-value view of an endpoint.
pub struct EndpointView {
    /// Kind of endpoint.
    pub endpoint_type: Seq<char>,
    /// URL.
    pub url: Seq<char>,
    /// Protocols.
    pub protocols: Seq<Seq<char>>,
}

/// The plain-value view of an agent.
pub struct AgentCardView {
    /// Agent id.
    pub id: Seq<char>,
    /// Display name.
    pub name: Seq<char>,
    /// Description.
    pub description: Seq<char>,
    /// Version.
    pub version: Seq<char>,
    /// Capabilities.
    pub capabilities: Seq<CapabilityView>,
    /// Endpoints.
    pub endpoints: Seq<EndpointView>,
    /// Tags.
    pub tags: Seq<Seq<char>>,
}

/// The texts of a sequence of strings.
pub open spec fn texts(v: Seq<String>) -> Seq<Seq<char>> {
    v.map_values(|s: String| s@)
}

impl View for Capability {
    type V = CapabilityView;

    open spec fn view(&self) -> CapabilityView {
        CapabilityView { name: self.name@, description: self.description@, available: self.available }
    }
}

impl View for Endpoint {
    type V = EndpointView;

    open spec fn view(&self) -> EndpointView {
        EndpointView { endpoint_type: self.endpoint_type@, url: self.url@, protocols: texts(self.protocols@) }
    }
}

impl View for AgentCard {
    type V = AgentCardView;

    open spec fn view(&self) -> AgentCardView {
        AgentCardView {
            id: self.id@,
            name: self.name@,
            description: self.description@,
            version: self.version@,
            capabilities: self.capabilities@.map_values(|c: Capability| c@),
            endpoints: self.endpoints@.map_values(|e: Endpoint| e@),
            tags: texts(self.tags@),
        }
    }
}

impl Clone for Capability {
    fn clone(&self) -> (r: Self)
        ensures
            r@ == self@,
    {
        Capability { name: self.name.clone(), description: self.description.clone(), available: self.available }
    }
}

/// Copies a list of strings.
pub fn clone_strings(v: &Vec<String>) -> (r: Vec<String>)
    ensures
        texts(r@) == texts(v@),
{
    let mut out: Vec<String> = Vec::new();
    let mut i: usize = 0;
    while i < v.len()
        invariant
            i <= v@.len(),
            out@.len() == i,
            forall|j: int| 0 <= j < i ==> out@[j]@ == v@[j]@,
        decreases v@.len() - i,
    {
        out.push(v[i].clone());
        i = i + 1;
    }
    assert(texts(out@) =~= texts(v@));
    out
}

impl Clone for Endpoint {
    fn clone(&self) -> (r: Self)
        ensures
            r@ == self@,
    {
        Endpoint {
            endpoint_type: self.endpoint_type.clone(),
            url: self.url.clone(),
            protocols: clone_strings(&self.protocols),
        }
    }
}

impl Clone for AgentCard {
    fn clone(&self) -> (r: Self)
        ensures
            r@ == self@,
    {
        let mut caps: Vec<Capability> = Vec::new();
        let mut i: usize = 0;
        while i < self.capabilities.len()
            invariant
                i <= self.capabilities@.len(),
                caps@.len() == i,
                forall|j: int| 0 <= j < i ==> caps@[j]@ == self.capabilities@[j]@,
            decreases self.capabilities@.len() - i,
        {
            caps.push(self.capabilities[i].clone());
            i = i + 1;
        }
        let mut eps: Vec<Endpoint> = Vec::new();
        let mut k: usize = 0;
        while k < self.endpoints.len()
            invariant
                k <= self.endpoints@.len(),
                eps@.len() == k,
                forall|j: int| 0 <= j < k ==> eps@[j]@ == self.endpoints@[j]@,
            decreases self.endpoints@.len() - k,
        {
            eps.push(self.endpoints[k].clone());
            k = k + 1;
        }
        let r = AgentCard {
            id: self.id.clone(),
            name: self.name.clone(),
            description: self.description.clone(),
            version: self.version.clone(),
            capabilities: caps,
            endpoints: eps,
            tags: clone_strings(&self.tags),
        };
        assert(r@.capabilities =~= self@.capabilities);
        assert(r@.endpoints =~= self@.endpoints);
        r
    }
}

} // verus!
