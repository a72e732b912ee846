//! Registration and discovery of agents as services.
use vstd::prelude::*;
use std::collections::HashMap;
use dashmap::DashMap;
use crate::agent::{AgentCard, AgentCardView, clone_strings, has_capability, offers, texts};
use crate::config::DiscoveryConfig;
use crate::error::{ClusterError, ClusterResult};
use crate::system::now_millis;

verus! {

/// Where service registrations are kept.
#[derive(Debug, Clone, Copy, PartialEq, Eq, Structural)]
pub enum DiscoveryBackend {
    /// In this process (for tests and single-node deployments).
    Memory,
    /// Consul.
    Consul,
    /// etcd.
    Etcd,
    /// Kubernetes.
    Kubernetes,
}

/// The name under which a backend is reported.
pub open spec fn backend_name_spec(b: DiscoveryBackend) -> Seq<char> {
    match b {
        DiscoveryBackend::Memory => "Memory"@,
        DiscoveryBackend::Consul => "Consul"@,
        DiscoveryBackend::Etcd => "Etcd"@,
        DiscoveryBackend::Kubernetes => "Kubernetes"@,
    }
}

/// The name under which a backend is reported.
pub fn backend_name(b: DiscoveryBackend) -> (r: &'static str)
    ensures
        r@ == backend_name_spec(b),
{
    match b {
        DiscoveryBackend::Memory => "Memory",
        DiscoveryBackend::Consul => "Consul",
        DiscoveryBackend::Etcd => "Etcd",
        DiscoveryBackend::Kubernetes => "Kubernetes",
    }
}

/// The backend that a setting names: `consul`, `etcd` and `kubernetes` name
/// theirs, anything else the in-memory one.
pub open spec fn backend_from_name_spec(name: Seq<char>) -> DiscoveryBackend {
    if name == "consul"@ {
        DiscoveryBackend::Consul
    } else if name == "etcd"@ {
        DiscoveryBackend::Etcd
    } else if name == "kubernetes"@ {
        DiscoveryBackend::Kubernetes
    } else {
        DiscoveryBackend::Memory
    }
}

/// The backend that a setting names.
pub fn backend_from_name(name: &str) -> (r: DiscoveryBackend)
    ensures
        r == backend_from_name_spec(name@),
{
    if crate::text::same_text(name, "consul") {
        DiscoveryBackend::Consul
    } else if crate::text::same_text(name, "etcd") {
        DiscoveryBackend::Etcd
    } else if crate::text::same_text(name, "kubernetes") {
        DiscoveryBackend::Kubernetes
    } else {
        DiscoveryBackend::Memory
    }
}

/// An agent registered as a service.
#[derive(Debug)]
pub struct ServiceRegistry {
    /// Service id.
    pub service_id: String,
    /// The agent.
    pub agent_info: AgentCard,
    /// Registration time, in milliseconds since the Unix epoch.
    pub registered_at: i64,
    /// Last change, in milliseconds since the Unix epoch.
    pub updated_at: i64,
    /// Time to live, in seconds.
    pub ttl_seconds: u64,
    /// Tags of the registration.
    pub tags: Vec<String>,
    /// Free-form metadata.
    pub metadata: HashMap<String, String>,
}


/// The plain-value view of a registration.
pub struct ServiceRegistryView {
    /// Service id.
    pub service_id: Seq<char>,
    /// The agent.
    pub agent_info: AgentCardView,
    /// Registration time.
    pub registered_at: i64,
    /// Last change.
    pub updated_at: i64,
    /// Time to live, in seconds.
    pub ttl_seconds: u64,
    /// Tags.
    pub tags: Seq<Seq<char>>,
    /// Metadata.
    pub metadata: Map<String, String>,
}

impl View for ServiceRegistry {
    type V = ServiceRegistryView;

    open spec fn view(&self) -> ServiceRegistryView {
        ServiceRegistryView {
            service_id: self.service_id@,
            agent_info: self.agent_info@,
            registered_at: self.registered_at,
            updated_at: self.updated_at,
            ttl_seconds: self.ttl_seconds,
            tags: texts(self.tags@),
            metadata: self.metadata@,
        }
    }
}

impl Clone for ServiceRegistry {
    fn clone(&self) -> (r: Self)
        ensures
            r@ == self@,
    {
        ServiceRegistry {
            service_id: self.service_id.clone(),
            agent_info: self.agent_info.clone(),
            registered_at: self.registered_at,
            updated_at: self.updated_at,
            ttl_seconds: self.ttl_seconds,
            tags: clone_strings(&self.tags),
            metadata: self.metadata.clone(),
        }
    }
}

/// The views of a sequence of registrations.
pub open spec fn reg_views(regs: Seq<ServiceRegistry>) -> Seq<ServiceRegistryView> {
    regs.map_values(|g: ServiceRegistry| g@)
}

// ---------------------------------------------------------------------------
// The tables of the in-memory backend, `DashMap`s keyed by service id.
// ---------------------------------------------------------------------------

/// What a table of registrations holds, by service id.
pub uninterp spec fn registry_entries(m: DashMap<String, ServiceRegistry>) -> Map<Seq<char>, ServiceRegistryView>;

/// What a table of health flags holds, by service id.
pub uninterp spec fn health_entries(m: DashMap<String, bool>) -> Map<Seq<char>, bool>;

/// `DashMap::new`: an empty table.
#[verifier::external_body]
fn registry_table_new() -> (r: DashMap<String, ServiceRegistry>)
    ensures
        registry_entries(r).dom() == Set::<Seq<char>>::empty(),
{
    DashMap::new()
}

/// `DashMap::insert`: afterwards `id` maps to `v`, every other entry is kept.
#[verifier::external_body]
fn registry_table_insert(m: &mut DashMap<String, ServiceRegistry>, id: String, v: ServiceRegistry)
    ensures
        registry_entries(*final(m)) == registry_entries(*old(m)).insert(id@, v@),
{
    m.insert(id, v);
}

/// `DashMap::remove`: afterwards `id` maps to nothing, every other entry is kept.
#[verifier::external_body]
fn registry_table_remove(m: &mut DashMap<String, ServiceRegistry>, id: &str)
    ensures
        registry_entries(*final(m)) == registry_entries(*old(m)).remove(id@),
{
    m.remove(id);
}

/// `DashMap::get`, cloning the entry: the registration filed under `id`, if any.
#[verifier::external_body]
fn registry_table_get(m: &DashMap<String, ServiceRegistry>, id: &str) -> (r: Option<ServiceRegistry>)
    ensures
        r is Some <==> registry_entries(*m).dom().contains(id@),
        r matches Some(g) ==> g@ == registry_entries(*m)[id@],
{
    m.get(id).map(|e| e.value().clone())
}

/// `DashMap::iter`, cloning the entries: each entry once, in the map's own order.
#[verifier::external_body]
fn registry_table_entries(m: &DashMap<String, ServiceRegistry>) -> (r: Vec<(String, ServiceRegistry)>)
    ensures
        forall|i: int| 0 <= i < r@.len() ==> #[trigger] registry_entries(*m).dom().contains(r@[i].0@)
            && registry_entries(*m)[r@[i].0@] == r@[i].1@,
        forall|i: int, j: int| 0 <= i < j < r@.len() ==> r@[i].0@ != r@[j].0@,
        r@.len() == registry_entries(*m).dom().len(),
{
    m.iter().map(|e| (e.key().clone(), e.value().clone())).collect()
}

/// `DashMap::new`: an empty table.
#[verifier::external_body]
fn health_table_new() -> (r: DashMap<String, bool>)
    ensures
        health_entries(r).dom() == Set::<Seq<char>>::empty(),
{
    DashMap::new()
}

/// `DashMap::insert`: afterwards `id` maps to `v`, every other entry is kept.
#[verifier::external_body]
fn health_table_insert(m: &mut DashMap<String, bool>, id: String, v: bool)
    ensures
        health_entries(*final(m)) == health_entries(*old(m)).insert(id@, v),
{
    m.insert(id, v);
}

/// `DashMap::remove`: afterwards `id` maps to nothing, every other entry is kept.
#[verifier::external_body]
fn health_table_remove(m: &mut DashMap<String, bool>, id: &str)
    ensures
        health_entries(*final(m)) == health_entries(*old(m)).remove(id@),
{
    m.remove(id);
}

/// `DashMap::get`: the flag filed under `id`, if any.
#[verifier::external_body]
fn health_table_get(m: &DashMap<String, bool>, id: &str) -> (r: Option<bool>)
    ensures
        r == (if health_entries(*m).dom().contains(id@) {
            Some(health_entries(*m)[id@])
        } else {
            None
        }),
{
    m.get(id).map(|e| *e.value())
}

// ---------------------------------------------------------------------------
// Listings and filters over registrations.
// ---------------------------------------------------------------------------

/// Whether a registration shows up in discovery: it is not flagged unhealthy
/// and, when a capability is asked for, its agent offers it.
pub open spec fn discoverable(
    health: Map<Seq<char>, bool>,
    reg: ServiceRegistryView,
    capability: Option<Seq<char>>,
) -> bool {
    &&& !(health.dom().contains(reg.service_id) && !health[reg.service_id])
    &&& match capability {
        Some(c) => offers(reg.agent_info, c),
        None => true,
    }
}

/// Whether a registration is tagged `agent`.
pub open spec fn tagged_agent(reg: ServiceRegistryView) -> bool {
    exists|i: int| 0 <= i < reg.tags.len() && #[trigger] reg.tags[i] == "agent"@
}

/// The capability asked for, if any.
pub open spec fn capability_view(c: Option<&str>) -> Option<Seq<char>> {
    match c {
        Some(c) => Some(c@),
        None => None,
    }
}

/// Whether `v` lists, each once, exactly the registrations of `table` that
/// satisfy `keep`.
pub open spec fn lists_exactly(
    table: Map<Seq<char>, ServiceRegistryView>,
    keep: spec_fn(ServiceRegistryView) -> bool,
    v: Seq<ServiceRegistryView>,
) -> bool {
    &&& forall|i: int| 0 <= i < v.len() ==> #[trigger] table.dom().contains(v[i].service_id)
        && table[v[i].service_id] == v[i] && keep(v[i])
    &&& forall|i: int, j: int| 0 <= i < j < v.len() ==> v[i].service_id != v[j].service_id
    &&& forall|k: Seq<char>| #[trigger] table.dom().contains(k) && keep(table[k])
        ==> exists|i: int| 0 <= i < v.len() && v[i].service_id == k
}

/// The registrations of a sequence that satisfy `keep`, in order.
pub open spec fn filter_regs(regs: Seq<ServiceRegistryView>, keep: spec_fn(ServiceRegistryView) -> bool) -> Seq<ServiceRegistryView>
    decreases regs.len(),
{
    if regs.len() == 0 {
        Seq::empty()
    } else {
        let rest = filter_regs(regs.drop_last(), keep);
        if keep(regs.last()) {
            rest.push(regs.last())
        } else {
            rest
        }
    }
}

proof fn lemma_filter_regs(regs: Seq<ServiceRegistryView>, keep: spec_fn(ServiceRegistryView) -> bool)
    ensures
        forall|j: int| 0 <= j < filter_regs(regs, keep).len() ==> (exists|k: int| 0 <= k < regs.len()
            && #[trigger] filter_regs(regs, keep)[j] == regs[k])
            && keep(filter_regs(regs, keep)[j]),
        forall|k: int| 0 <= k < regs.len() && keep(#[trigger] regs[k]) ==> exists|j: int|
            0 <= j < filter_regs(regs, keep).len() && filter_regs(regs, keep)[j] == regs[k],
    decreases regs.len(),
{
    if regs.len() > 0 {
        let init = regs.drop_last();
        lemma_filter_regs(init, keep);
        let f = filter_regs(regs, keep);
        let fi = filter_regs(init, keep);
        assert forall|j: int| 0 <= j < f.len() implies (exists|k: int| 0 <= k < regs.len() && #[trigger] f[j] == regs[k])
            && keep(f[j]) by {
            if j < fi.len() {
                let k = choose|k: int| 0 <= k < init.len() && #[trigger] fi[j] == init[k];
                assert(f[j] == regs[k]);
            } else {
                assert(f[j] == regs[regs.len() - 1]);
            }
        }
        assert forall|k: int| 0 <= k < regs.len() && keep(#[trigger] regs[k]) implies exists|j: int|
            0 <= j < f.len() && f[j] == regs[k] by {
            if k < init.len() {
                assert(init[k] == regs[k]);
                let j = choose|j: int| 0 <= j < fi.len() && fi[j] == init[k];
                assert(f[j] == fi[j]);
            } else {
                assert(f[f.len() - 1] == regs[k]);
            }
        }
    }
}

/// Filtering keeps the order of the sequence, so distinct ids stay distinct.
proof fn lemma_filter_regs_distinct(regs: Seq<ServiceRegistryView>, keep: spec_fn(ServiceRegistryView) -> bool, a: int, b: int)
    requires
        0 <= a < b < filter_regs(regs, keep).len(),
        forall|j: int, l: int| 0 <= j < l < regs.len() ==> regs[j].service_id != regs[l].service_id,
    ensures
        filter_regs(regs, keep)[a].service_id != filter_regs(regs, keep)[b].service_id,
    decreases regs.len(),
{
    let init = regs.drop_last();
    let f = filter_regs(regs, keep);
    let fi = filter_regs(init, keep);
    lemma_filter_regs(init, keep);
    if b < fi.len() {
        lemma_filter_regs_distinct(init, keep, a, b);
    } else {
        let k = choose|k: int| 0 <= k < init.len() && #[trigger] fi[a] == init[k];
        assert(f[a] == regs[k]);
        assert(f[b] == regs[regs.len() - 1]);
    }
}

/// Every key of a finite table shows up in a duplicate-free listing of its
/// registrations as long as the table.
proof fn lemma_listing_covers(m: Map<Seq<char>, ServiceRegistryView>, regs: Seq<ServiceRegistryView>, k: Seq<char>)
    requires
        m.dom().finite(),
        m.dom().contains(k),
        forall|j: int| 0 <= j < regs.len() ==> #[trigger] m.dom().contains(regs[j].service_id),
        forall|j: int, l: int| 0 <= j < l < regs.len() ==> regs[j].service_id != regs[l].service_id,
        regs.len() == m.dom().len(),
    ensures
        exists|j: int| 0 <= j < regs.len() && regs[j].service_id == k,
{
    let keys = regs.map_values(|e: ServiceRegistryView| e.service_id);
    assert forall|j: int, l: int| 0 <= j < keys.len() && 0 <= l < keys.len() && j != l implies keys[j] != keys[l] by {
        if j < l { } else { }
    }
    assert(keys.no_duplicates());
    keys.unique_seq_to_set();
    assert(keys.to_set().subset_of(m.dom())) by {
        assert forall|x: Seq<char>| keys.to_set().contains(x) implies m.dom().contains(x) by {
            let j = choose|j: int| 0 <= j < keys.len() && keys[j] == x;
            assert(m.dom().contains(regs[j].service_id));
        }
    }
    if !keys.to_set().contains(k) {
        vstd::set_lib::lemma_len_subset(keys.to_set().insert(k), m.dom());
    }
    let j = choose|j: int| 0 <= j < keys.len() && keys[j] == k;
    assert(regs[j].service_id == k);
}

/// Filtering a listing that holds every registration of a table once leaves
/// exactly the registrations of the table that satisfy `keep`.
proof fn lemma_filtered_listing(
    table: Map<Seq<char>, ServiceRegistryView>,
    all: Seq<ServiceRegistryView>,
    keep: spec_fn(ServiceRegistryView) -> bool,
)
    requires
        table.dom().finite(),
        all.len() == table.dom().len(),
        lists_exactly(table, |g: ServiceRegistryView| true, all),
    ensures
        lists_exactly(table, keep, filter_regs(all, keep)),
{
    let f = filter_regs(all, keep);
    lemma_filter_regs(all, keep);
    assert forall|i: int| 0 <= i < f.len() implies #[trigger] table.dom().contains(f[i].service_id)
        && table[f[i].service_id] == f[i] && keep(f[i]) by {
        let k = choose|k: int| 0 <= k < all.len() && #[trigger] f[i] == all[k];
        assert(table.dom().contains(all[k].service_id));
    }
    assert forall|i: int, j: int| 0 <= i < j < f.len() implies f[i].service_id != f[j].service_id by {
        lemma_filter_regs_distinct(all, keep, i, j);
    }
    assert forall|k: Seq<char>| #[trigger] table.dom().contains(k) && keep(table[k])
        implies exists|i: int| 0 <= i < f.len() && f[i].service_id == k by {
        assert forall|j: int| 0 <= j < all.len() implies #[trigger] table.dom().contains(all[j].service_id) by {}
        lemma_listing_covers(table, all, k);
        let m = choose|m: int| 0 <= m < all.len() && all[m].service_id == k;
        assert(table.dom().contains(all[m].service_id));
        let j = choose|j: int| 0 <= j < f.len() && f[j] == all[m];
        assert(f[j].service_id == k);
    }
}

/// Keeps the registrations of a listing for which `decide` says yes, in order.
fn filter_listing(
    listing: Vec<ServiceRegistry>,
    Ghost(keep): Ghost<spec_fn(ServiceRegistryView) -> bool>,
    decide: impl Fn(&ServiceRegistry) -> bool,
) -> (r: Vec<ServiceRegistry>)
    requires
        forall|g: &ServiceRegistry| #[trigger] decide.requires((g,)),
        forall|g: &ServiceRegistry, b: bool| decide.ensures((g,), b) ==> b == keep(g@),
    ensures
        reg_views(r@) == filter_regs(reg_views(listing@), keep),
{
    let n = listing.len();
    let ghost regs = reg_views(listing@);
    let mut out: Vec<ServiceRegistry> = Vec::new();
    let mut rest = listing;
    let mut i: usize = 0;
    proof {
        assert(regs.take(0) =~= Seq::<ServiceRegistryView>::empty());
        assert(reg_views(out@) =~= Seq::<ServiceRegistryView>::empty());
    }
    while i < n
        invariant
            n == regs.len(),
            i <= n,
            rest@.len() == n - i,
            forall|j: int| 0 <= j < rest@.len() ==> rest@[j]@ == regs[j + i],
            forall|g: &ServiceRegistry| #[trigger] decide.requires((g,)),
            forall|g: &ServiceRegistry, b: bool| decide.ensures((g,), b) ==> b == keep(g@),
            reg_views(out@) == filter_regs(regs.take(i as int), keep),
        decreases n - i,
    {
        let reg = rest.remove(0);
        proof {
            assert(regs.take(i as int + 1).drop_last() =~= regs.take(i as int));
            assert(regs.take(i as int + 1).last() == reg@);
        }
        if decide(&reg) {
            let ghost before = out@;
            out.push(reg);
            proof {
                assert(reg_views(out@) =~= reg_views(before).push(reg@));
            }
        }
        i = i + 1;
    }
    proof {
        assert(regs.take(n as int) =~= regs);
    }
    out
}

/// The in-memory discovery backend: registrations and health flags by service id.
pub struct MemoryServiceDiscovery {
    services: DashMap<String, ServiceRegistry>,
    health_status: DashMap<String, bool>,
}

impl MemoryServiceDiscovery {
    /// The registrations, by service id.
    pub closed spec fn registrations(&self) -> Map<Seq<char>, ServiceRegistryView> {
        registry_entries(self.services)
    }

    /// The health flags, by service id.
    pub closed spec fn health_flags(&self) -> Map<Seq<char>, bool> {
        health_entries(self.health_status)
    }

    /// What shows up in discovery for `cap`.
    pub open spec fn discoverable_for(&self, cap: Option<Seq<char>>) -> spec_fn(ServiceRegistryView) -> bool {
        |g: ServiceRegistryView| discoverable(self.health_flags(), g, cap)
    }

    /// The tables are finite and each registration is filed under its own id.
    pub open spec fn wf(&self) -> bool {
        &&& self.registrations().dom().finite()
        &&& forall|k: Seq<char>| #[trigger] self.registrations().dom().contains(k)
            ==> self.registrations()[k].service_id == k
    }

    /// A backend with no registrations.
    pub fn new() -> (r: Self)
        ensures
            r.wf(),
            r.registrations().dom() == Set::<Seq<char>>::empty(),
            r.health_flags().dom() == Set::<Seq<char>>::empty(),
    {
        MemoryServiceDiscovery { services: registry_table_new(), health_status: health_table_new() }
    }

    /// Files a registration under its service id and flags it healthy.
    pub fn register(&mut self, registry: ServiceRegistry) -> (r: ClusterResult<()>)
        requires
            old(self).wf(),
        ensures
            r is Ok,
            final(self).wf(),
            final(self).registrations() == old(self).registrations().insert(registry.service_id@, registry@),
            final(self).health_flags() == old(self).health_flags().insert(registry.service_id@, true),
    {
        let id = registry.service_id.clone();
        let id2 = registry.service_id.clone();
        registry_table_insert(&mut self.services, id, registry);
        health_table_insert(&mut self.health_status, id2, true);
        Ok(())
    }

    /// Removes a registration and its health flag.
    pub fn deregister(&mut self, service_id: &str) -> (r: ClusterResult<()>)
        requires
            old(self).wf(),
        ensures
            r is Ok,
            final(self).wf(),
            final(self).registrations() == old(self).registrations().remove(service_id@),
            final(self).health_flags() == old(self).health_flags().remove(service_id@),
    {
        registry_table_remove(&mut self.services, service_id);
        health_table_remove(&mut self.health_status, service_id);
        Ok(())
    }

    /// Every registration, each once, in no particular order.
    pub fn list_services(&self) -> (r: ClusterResult<Vec<ServiceRegistry>>)
        requires
            self.wf(),
        ensures
            r matches Ok(v) && v@.len() == self.registrations().dom().len()
                && lists_exactly(self.registrations(), |g: ServiceRegistryView| true, reg_views(v@)),
    {
        let entries = registry_table_entries(&self.services);
        assert(forall|i: int| 0 <= i < entries@.len() ==> #[trigger] registry_entries(self.services).dom().contains(entries@[i].0@));
        let n = entries.len();
        let ghost all = entries@;
        proof {
            assert forall|j: int| 0 <= j < n implies #[trigger] registry_entries(self.services).dom().contains(all[j].0@)
                && registry_entries(self.services)[all[j].0@] == all[j].1@ by {}
            assert forall|j: int| 0 <= j < n implies #[trigger] self.registrations().dom().contains(all[j].0@)
                && self.registrations()[all[j].0@] == all[j].1@ by {}
        }
        let mut out: Vec<ServiceRegistry> = Vec::new();
        let mut rest = entries;
        let mut i: usize = 0;
        while i < n
            invariant
                self.wf(),
                n == all.len(),
                i <= n,
                rest@.len() == n - i,
                forall|j: int| 0 <= j < rest@.len() ==> rest@[j] == all[j + i],
                out@.len() == i,
                forall|j: int| 0 <= j < i ==> out@[j]@ == all[j].1@,
                forall|j: int| 0 <= j < n ==> #[trigger] self.registrations().dom().contains(all[j].0@)
                    && self.registrations()[all[j].0@] == all[j].1@,
                forall|j: int, k: int| 0 <= j < k < n ==> all[j].0@ != all[k].0@,
            decreases n - i,
        {
            let (_, reg) = rest.remove(0);
            out.push(reg);
            i = i + 1;
        }
        proof {
            let v = reg_views(out@);
            assert forall|j: int| 0 <= j < v.len() implies #[trigger] self.registrations().dom().contains(v[j].service_id)
                && self.registrations()[v[j].service_id] == v[j] by {
                assert(self.registrations().dom().contains(all[j].0@));
            }
            assert forall|j: int, k: int| 0 <= j < k < v.len() implies v[j].service_id != v[k].service_id by {
                assert(self.registrations().dom().contains(all[j].0@));
                assert(self.registrations().dom().contains(all[k].0@));
            }
            assert forall|k: Seq<char>| #[trigger] self.registrations().dom().contains(k)
                implies exists|i: int| 0 <= i < v.len() && v[i].service_id == k by {
                lemma_listing_covers(self.registrations(), v, k);
            }
            let keep = |g: ServiceRegistryView| true;
            assert(forall|g: ServiceRegistryView| #[trigger] keep(g));
            assert(lists_exactly(self.registrations(), keep, v));
        }
        Ok(out)
    }

    /// The registrations that show up in discovery, each once, in no particular
    /// order.
    pub fn discover(&self, capability: Option<&str>) -> (r: ClusterResult<Vec<ServiceRegistry>>)
        requires
            self.wf(),
        ensures
            r matches Ok(v) && lists_exactly(
                self.registrations(),
                self.discoverable_for(capability_view(capability)),
                reg_views(v@),
            ),
    {
        let ghost keep = self.discoverable_for(capability_view(capability));
        let listing = match self.list_services() { Ok(v) => v, Err(_) => Vec::new() };
        let ghost all = reg_views(listing@);
        let health = &self.health_status;
        let decide = |g: &ServiceRegistry| -> (b: bool)
            ensures
                b == discoverable(health_entries(*health), g@, capability_view(capability)),
        {
            let flag = health_table_get(health, g.service_id.as_str());
            let healthy = match flag { Some(h) => h, None => true };
            let wanted = match capability {
                Some(c) => has_capability(&g.agent_info, c),
                None => true,
            };
            healthy && wanted
        };
        let out = filter_listing(listing, Ghost(keep), decide);
        proof {
            lemma_filtered_listing(self.registrations(), all, keep);
        }
        Ok(out)
    }

    /// Sets the health flag of a service id, registered or not.
    pub fn update_health(&mut self, service_id: &str, healthy: bool) -> (r: ClusterResult<()>)
        requires
            old(self).wf(),
        ensures
            r is Ok,
            final(self).wf(),
            final(self).registrations() == old(self).registrations(),
            final(self).health_flags() == old(self).health_flags().insert(service_id@, healthy),
    {
        health_table_insert(&mut self.health_status, String::from_str(service_id), healthy);
        Ok(())
    }

    /// The registration filed under `service_id`, if any.
    pub fn get_service(&self, service_id: &str) -> (r: ClusterResult<Option<ServiceRegistry>>)
        ensures
            r matches Ok(o) && (o is Some <==> self.registrations().dom().contains(service_id@))
                && (o matches Some(g) ==> g@ == self.registrations()[service_id@]),
    {
        Ok(registry_table_get(&self.services, service_id))
    }
}

/// The service id under which registration files an agent: `agent-`
/// followed by the agent id, whatever the agent id begins with.
pub open spec fn service_id_for(agent_id: Seq<char>) -> Seq<char> {
    "agent-"@ + agent_id
}

/// The service id under which registration files an agent.
pub fn normalize_service_id(agent_id: &str) -> (r: String)
    ensures
        r@ == service_id_for(agent_id@),
{
    crate::text::join2("agent-", agent_id)
}

fn has_agent_tag(reg: &ServiceRegistry) -> (r: bool)
    ensures
        r == tagged_agent(reg@),
{
    let n = reg.tags.len();
    let mut i: usize = 0;
    while i < n
        invariant
            n == reg.tags@.len(),
            i <= n,
            forall|j: int| 0 <= j < i ==> #[trigger] reg.tags@[j]@ != "agent"@,
        decreases n - i,
    {
        if crate::text::same_text(reg.tags[i].as_str(), "agent") {
            assert(reg@.tags[i as int] == "agent"@);
            return true;
        }
        i = i + 1;
    }
    assert forall|j: int| 0 <= j < reg@.tags.len() implies #[trigger] reg@.tags[j] != "agent"@ by {
        assert(reg.tags@[j]@ != "agent"@);
    }
    false
}

/// The agents of a sequence of registrations.
pub open spec fn agents_of(regs: Seq<ServiceRegistryView>) -> Seq<AgentCardView> {
    regs.map_values(|g: ServiceRegistryView| g.agent_info)
}

fn collect_agents(regs: Vec<ServiceRegistry>) -> (r: Vec<AgentCard>)
    ensures
        r@.map_values(|a: AgentCard| a@) == agents_of(reg_views(regs@)),
{
    let n = regs.len();
    let ghost all = reg_views(regs@);
    let mut rest = regs;
    let mut out: Vec<AgentCard> = Vec::new();
    let mut i: usize = 0;
    while i < n
        invariant
            n == all.len(),
            i <= n,
            rest@.len() == n - i,
            forall|j: int| 0 <= j < rest@.len() ==> rest@[j]@ == all[j + i],
            out@.len() == i,
            forall|j: int| 0 <= j < i ==> out@[j]@ == all[j].agent_info,
        decreases n - i,
    {
        let reg = rest.remove(0);
        out.push(reg.agent_info);
        i = i + 1;
    }
    proof {
        assert(out@.map_values(|a: AgentCard| a@) =~= agents_of(all));
    }
    out
}

/// Service discovery: the backend that keeps the registrations, its settings,
/// and whether it runs.
pub struct ServiceDiscovery {
    backend: MemoryServiceDiscovery,
    config: DiscoveryConfig,
    running: bool,
}

impl ServiceDiscovery {
    /// The registrations, by service id.
    pub closed spec fn registrations(&self) -> Map<Seq<char>, ServiceRegistryView> {
        self.backend.registrations()
    }

    /// The health flags, by service id.
    pub closed spec fn health_flags(&self) -> Map<Seq<char>, bool> {
        self.backend.health_flags()
    }

    /// What shows up in discovery for `cap`.
    pub open spec fn discoverable_for(&self, cap: Option<Seq<char>>) -> spec_fn(ServiceRegistryView) -> bool {
        |g: ServiceRegistryView| discoverable(self.health_flags(), g, cap)
    }

    /// Time to live given to new registrations, in seconds.
    pub closed spec fn ttl(&self) -> u64 {
        self.config.ttl_seconds
    }

    /// The configuration discovery was made with.
    pub closed spec fn config_spec(&self) -> DiscoveryConfig {
        self.config
    }

    /// Whether discovery runs.
    pub closed spec fn running_spec(&self) -> bool {
        self.running
    }

    /// The tables are finite and each registration is filed under its own id.
    pub open spec fn wf(&self) -> bool {
        &&& self.registrations().dom().finite()
        &&& forall|k: Seq<char>| #[trigger] self.registrations().dom().contains(k)
            ==> self.registrations()[k].service_id == k
    }

    /// Discovery over the backend that `config` names; only the in-memory
    /// backend is available, the others are refused as unsupported.
    pub fn new(config: DiscoveryConfig) -> (r: ClusterResult<Self>)
        ensures
            r matches Ok(d) ==> d.config_spec() == config,
            config.backend == DiscoveryBackend::Memory <==> r is Ok,
            r matches Ok(d) ==> d.wf() && d.registrations().dom() == Set::<Seq<char>>::empty()
                && d.health_flags().dom() == Set::<Seq<char>>::empty() && d.ttl() == config.ttl_seconds
                && !d.running_spec(),
            r matches Err(e) ==> e is UnsupportedBackend,
    {
        match config.backend {
            DiscoveryBackend::Memory => Ok(ServiceDiscovery {
                backend: MemoryServiceDiscovery::new(),
                config,
                running: false,
            }),
            DiscoveryBackend::Consul => Err(ClusterError::UnsupportedBackend(String::from_str("Consul后端尚未实现"))),
            DiscoveryBackend::Etcd => Err(ClusterError::UnsupportedBackend(String::from_str("etcd后端尚未实现"))),
            DiscoveryBackend::Kubernetes => Err(ClusterError::UnsupportedBackend(String::from_str("Kubernetes后端尚未实现"))),
        }
    }

    /// Marks discovery as running.
    pub fn start(&mut self) -> (r: ClusterResult<()>)
        requires
            old(self).wf(),
        ensures
            final(self).config_spec() == old(self).config_spec(),
            r is Ok,
            final(self).wf(),
            final(self).running_spec(),
            final(self).registrations() == old(self).registrations(),
            final(self).health_flags() == old(self).health_flags(),
            final(self).ttl() == old(self).ttl(),
    {
        self.running = true;
        Ok(())
    }

    /// Marks discovery as stopped.
    pub fn stop(&mut self) -> (r: ClusterResult<()>)
        requires
            old(self).wf(),
        ensures
            final(self).config_spec() == old(self).config_spec(),
            r is Ok,
            final(self).wf(),
            !final(self).running_spec(),
            final(self).registrations() == old(self).registrations(),
            final(self).health_flags() == old(self).health_flags(),
            final(self).ttl() == old(self).ttl(),
    {
        self.running = false;
        Ok(())
    }

    /// Interval between clean-ups, in milliseconds.
    pub fn cleanup_interval(&self) -> (r: u64)
        ensures
            r == self.config_spec().cleanup_interval,
    {
        self.config.cleanup_interval
    }

    /// Registers an agent under `agent-` followed by its id, tagged `agent`, with
    /// the configured time to live, flagged healthy; returns the service id.
    pub fn register_agent(&mut self, agent_info: AgentCard) -> (r: ClusterResult<String>)
        requires
            old(self).wf(),
        ensures
            final(self).config_spec() == old(self).config_spec(),
            final(self).wf(),
            r matches Ok(id) && id@ == "agent-"@ + agent_info@.id && ({
                let reg = final(self).registrations()[id@];
                &&& final(self).registrations().dom() == old(self).registrations().dom().insert(id@)
                &&& forall|k: Seq<char>| k != id@ ==> #[trigger] final(self).registrations()[k] == old(self).registrations()[k]
                &&& reg.service_id == id@
                &&& reg.agent_info == agent_info@
                &&& reg.ttl_seconds == old(self).ttl()
                &&& reg.tags == seq!["agent"@]
                &&& final(self).health_flags() == old(self).health_flags().insert(id@, true)
            }),
            final(self).ttl() == old(self).ttl(),
            final(self).running_spec() == old(self).running_spec(),
    {
        let service_id = crate::text::join2("agent-", agent_info.id.as_str());
        let mut tags: Vec<String> = Vec::new();
        tags.push(String::from_str("agent"));
        let now = now_millis();
        let registry = ServiceRegistry {
            service_id: service_id.clone(),
            agent_info,
            registered_at: now,
            updated_at: now,
            ttl_seconds: self.config.ttl_seconds,
            tags,
            metadata: HashMap::new(),
        };
        proof {
            assert(registry@.tags =~= seq!["agent"@]);
        }
        let _ = self.backend.register(registry);
        Ok(service_id)
    }

    /// Removes the registration of the agent with id `agent_id`, filed under
    /// `agent-` followed by that id.
    pub fn unregister_agent(&mut self, agent_id: &str) -> (r: ClusterResult<()>)
        requires
            old(self).wf(),
        ensures
            final(self).config_spec() == old(self).config_spec(),
            r is Ok,
            final(self).wf(),
            final(self).registrations() == old(self).registrations().remove(service_id_for(agent_id@)),
            final(self).health_flags() == old(self).health_flags().remove(service_id_for(agent_id@)),
            final(self).ttl() == old(self).ttl(),
            final(self).running_spec() == old(self).running_spec(),
    {
        let service_id = normalize_service_id(agent_id);
        self.backend.deregister(service_id.as_str())
    }

    /// The agents that show up in discovery, each registration once, in no
    /// particular order.
    pub fn discover_agents(&self, capability: Option<&str>) -> (r: ClusterResult<Vec<AgentCard>>)
        requires
            self.wf(),
        ensures
            r matches Ok(v) && exists|regs: Seq<ServiceRegistryView>|
                lists_exactly(self.registrations(), self.discoverable_for(capability_view(capability)), regs)
                && v@.map_values(|a: AgentCard| a@) == #[trigger] agents_of(regs),
    {
        let regs = match self.backend.discover(capability) { Ok(v) => v, Err(_) => Vec::new() };
        let ghost g = reg_views(regs@);
        let agents = collect_agents(regs);
        proof {
            assert(self.discoverable_for(capability_view(capability)) == self.backend.discoverable_for(capability_view(capability)));
            assert(agents@.map_values(|a: AgentCard| a@) == agents_of(g));
        }
        Ok(agents)
    }

    /// Flags the registration of the agent with id `agent_id` healthy or not.
    pub fn update_agent_health(&mut self, agent_id: &str, healthy: bool) -> (r: ClusterResult<()>)
        requires
            old(self).wf(),
        ensures
            final(self).config_spec() == old(self).config_spec(),
            r is Ok,
            final(self).wf(),
            final(self).registrations() == old(self).registrations(),
            final(self).health_flags() == old(self).health_flags().insert(service_id_for(agent_id@), healthy),
            final(self).ttl() == old(self).ttl(),
            final(self).running_spec() == old(self).running_spec(),
    {
        let service_id = normalize_service_id(agent_id);
        self.backend.update_health(service_id.as_str(), healthy)
    }

    /// The agent with id `agent_id`, if registration filed one.
    pub fn get_agent(&self, agent_id: &str) -> (r: ClusterResult<Option<AgentCard>>)
        ensures
            r matches Ok(o) && (o is Some <==> self.registrations().dom().contains(service_id_for(agent_id@)))
                && (o matches Some(a) ==> a@ == self.registrations()[service_id_for(agent_id@)].agent_info),
    {
        let service_id = normalize_service_id(agent_id);
        match self.backend.get_service(service_id.as_str()) {
            Ok(Some(reg)) => Ok(Some(reg.agent_info)),
            _ => Ok(None),
        }
    }

    /// The agents of every registration tagged `agent`, each once, in no
    /// particular order.
    pub fn list_agents(&self) -> (r: ClusterResult<Vec<AgentCard>>)
        requires
            self.wf(),
        ensures
            r matches Ok(v) && exists|regs: Seq<ServiceRegistryView>|
                lists_exactly(self.registrations(), |g: ServiceRegistryView| tagged_agent(g), regs)
                && v@.map_values(|a: AgentCard| a@) == #[trigger] agents_of(regs),
    {
        let listing = match self.backend.list_services() { Ok(v) => v, Err(_) => Vec::new() };
        let ghost all = reg_views(listing@);
        let ghost keep = |g: ServiceRegistryView| tagged_agent(g);
        let decide = |g: &ServiceRegistry| -> (b: bool)
            ensures
                b == tagged_agent(g@),
        {
            has_agent_tag(g)
        };
        let kept = filter_listing(listing, Ghost(keep), decide);
        let ghost regs = reg_views(kept@);
        proof {
            lemma_filtered_listing(self.registrations(), all, keep);
        }
        let agents = collect_agents(kept);
        Ok(agents)
    }
}

} // verus!
