//! Target selection for requests: the registered targets, their health and load,
//! and the strategies that pick one of them.
use vstd::prelude::*;
use dashmap::DashMap;
use crate::config::LoadBalancerConfig;
use crate::error::ClusterResult;
use crate::system::{hash_text, now_millis, random_below, random_below_u128, text_digest};

verus! {

/// How the load balancer picks a target among the healthy candidates.
#[derive(Debug, Clone, Copy, PartialEq, Eq, Structural)]
pub enum LoadBalancingStrategy {
    /// In turn, by a counter that advances on each pick.
    RoundRobin,
    /// Uniformly at random.
    Random,
    /// The first candidate with the fewest connections.
    LeastConnections,
    /// At random, in proportion to the weights.
    WeightedRoundRobin,
    /// By a hash of the first candidate's id.
    ConsistentHash,
    /// The first candidate with the lowest average response time.
    LeastResponseTime,
}


/// The name under which a strategy is reported.
pub open spec fn strategy_name_spec(s: LoadBalancingStrategy) -> Seq<char> {
    match s {
        LoadBalancingStrategy::RoundRobin => "RoundRobin"@,
        LoadBalancingStrategy::Random => "Random"@,
        LoadBalancingStrategy::LeastConnections => "LeastConnections"@,
        LoadBalancingStrategy::WeightedRoundRobin => "WeightedRoundRobin"@,
        LoadBalancingStrategy::ConsistentHash => "ConsistentHash"@,
        LoadBalancingStrategy::LeastResponseTime => "LeastResponseTime"@,
    }
}

/// The name under which a strategy is reported.
pub fn strategy_name(s: LoadBalancingStrategy) -> (r: &'static str)
    ensures
        r@ == strategy_name_spec(s),
{
    match s {
        LoadBalancingStrategy::RoundRobin => "RoundRobin",
        LoadBalancingStrategy::Random => "Random",
        LoadBalancingStrategy::LeastConnections => "LeastConnections",
        LoadBalancingStrategy::WeightedRoundRobin => "WeightedRoundRobin",
        LoadBalancingStrategy::ConsistentHash => "ConsistentHash",
        LoadBalancingStrategy::LeastResponseTime => "LeastResponseTime",
    }
}

/// The strategy that a setting names: `random`, `least_connections`,
/// `weighted_round_robin`, `consistent_hash` and `least_response_time` name
/// theirs, anything else round robin.
pub open spec fn strategy_from_name_spec(name: Seq<char>) -> LoadBalancingStrategy {
    if name == "random"@ {
        LoadBalancingStrategy::Random
    } else if name == "least_connections"@ {
        LoadBalancingStrategy::LeastConnections
    } else if name == "weighted_round_robin"@ {
        LoadBalancingStrategy::WeightedRoundRobin
    } else if name == "consistent_hash"@ {
        LoadBalancingStrategy::ConsistentHash
    } else if name == "least_response_time"@ {
        LoadBalancingStrategy::LeastResponseTime
    } else {
        LoadBalancingStrategy::RoundRobin
    }
}

/// The strategy that a setting names.
pub fn strategy_from_name(name: &str) -> (r: LoadBalancingStrategy)
    ensures
        r == strategy_from_name_spec(name@),
{
    if crate::text::same_text(name, "random") {
        LoadBalancingStrategy::Random
    } else if crate::text::same_text(name, "least_connections") {
        LoadBalancingStrategy::LeastConnections
    } else if crate::text::same_text(name, "weighted_round_robin") {
        LoadBalancingStrategy::WeightedRoundRobin
    } else if crate::text::same_text(name, "consistent_hash") {
        LoadBalancingStrategy::ConsistentHash
    } else if crate::text::same_text(name, "least_response_time") {
        LoadBalancingStrategy::LeastResponseTime
    } else {
        LoadBalancingStrategy::RoundRobin
    }
}

/// A target that requests can be sent to.
#[derive(Debug, Clone)]
pub struct TargetNode {
    /// Node id.
    pub id: String,
    /// Address of the node.
    pub endpoint: String,
    /// Weight for weighted selection.
    pub weight: u32,
    /// Open connections.
    pub connections: u32,
    /// Average response time in milliseconds.
    pub avg_response_time: u64,
    /// Whether the target may be picked.
    pub healthy: bool,
    /// Last change, in milliseconds since the Unix epoch.
    pub updated_at: i64,
}

// ---------------------------------------------------------------------------
// The table of targets, a `DashMap` keyed by node id.
// ---------------------------------------------------------------------------

/// What a table of targets holds, by node id.
pub uninterp spec fn target_entries(m: DashMap<String, TargetNode>) -> Map<Seq<char>, TargetNode>;

/// `DashMap::new`: an empty table.
#[verifier::external_body]
fn target_table_new() -> (r: DashMap<String, TargetNode>)
    ensures
        target_entries(r).dom() == Set::<Seq<char>>::empty(),
{
    DashMap::new()
}

/// `DashMap::insert`: afterwards `id` maps to `t`, every other entry is kept.
#[verifier::external_body]
fn target_table_insert(m: &mut DashMap<String, TargetNode>, id: String, t: TargetNode)
    ensures
        target_entries(*final(m)) == target_entries(*old(m)).insert(id@, t),
{
    m.insert(id, t);
}

/// `DashMap::remove`: afterwards `id` maps to nothing, every other entry is kept.
#[verifier::external_body]
fn target_table_remove(m: &mut DashMap<String, TargetNode>, id: &str)
    ensures
        target_entries(*final(m)) == target_entries(*old(m)).remove(id@),
{
    m.remove(id);
}

/// `DashMap::get`, cloning the entry: the target that `id` maps to, if any.
#[verifier::external_body]
fn target_table_get(m: &DashMap<String, TargetNode>, id: &str) -> (r: Option<TargetNode>)
    ensures
        r == (if target_entries(*m).dom().contains(id@) {
            Some(target_entries(*m)[id@])
        } else {
            None
        }),
{
    m.get(id).map(|e| e.value().clone())
}

/// `DashMap::iter`, cloning the entries: each entry once, in the map's own order.
#[verifier::external_body]
fn target_table_entries(m: &DashMap<String, TargetNode>) -> (r: Vec<(String, TargetNode)>)
    ensures
        forall|i: int| 0 <= i < r@.len() ==> #[trigger] target_entries(*m).dom().contains(r@[i].0@)
            && target_entries(*m)[r@[i].0@] == r@[i].1,
        forall|i: int, j: int| 0 <= i < j < r@.len() ==> r@[i].0@ != r@[j].0@,
        r@.len() == target_entries(*m).dom().len(),
{
    m.iter().map(|e| (e.key().clone(), e.value().clone())).collect()
}

// ---------------------------------------------------------------------------
// Selection, as functions of the candidates.
// ---------------------------------------------------------------------------

/// The healthy targets among the candidates, in the order of the candidates
/// (a candidate named twice is taken twice).
pub open spec fn healthy_targets(table: Map<Seq<char>, TargetNode>, cands: Seq<Seq<char>>) -> Seq<TargetNode>
    decreases cands.len(),
{
    if cands.len() == 0 {
        Seq::empty()
    } else {
        let rest = healthy_targets(table, cands.drop_last());
        let c = cands.last();
        if table.dom().contains(c) && table[c].healthy {
            rest.push(table[c])
        } else {
            rest
        }
    }
}

/// The ids that candidate strings stand for.
pub open spec fn candidate_ids(cands: Seq<String>) -> Seq<Seq<char>> {
    cands.map_values(|s: String| s@)
}

/// Whether `i` is the first position holding the fewest connections.
pub open spec fn is_first_least_connections(s: Seq<TargetNode>, i: int) -> bool {
    &&& 0 <= i < s.len()
    &&& forall|j: int| 0 <= j < s.len() ==> s[i].connections <= #[trigger] s[j].connections
    &&& forall|j: int| 0 <= j < i ==> s[i].connections < #[trigger] s[j].connections
}

/// Whether `i` is the first position holding the lowest average response time.
pub open spec fn is_first_least_response_time(s: Seq<TargetNode>, i: int) -> bool {
    &&& 0 <= i < s.len()
    &&& forall|j: int| 0 <= j < s.len() ==> s[i].avg_response_time <= #[trigger] s[j].avg_response_time
    &&& forall|j: int| 0 <= j < i ==> s[i].avg_response_time < #[trigger] s[j].avg_response_time
}

/// The sum of the weights of a sequence of targets.
pub open spec fn total_weight(s: Seq<TargetNode>) -> nat
    decreases s.len(),
{
    if s.len() == 0 {
        0
    } else {
        total_weight(s.drop_last()) + s.last().weight as nat
    }
}

/// Whether `i` is the position whose share of the weight line holds `point`: the
/// weights before it sum to at most `point`, and with its own weight to more.
pub open spec fn weight_slot(s: Seq<TargetNode>, point: nat, i: int) -> bool {
    &&& 0 <= i < s.len()
    &&& total_weight(s.take(i)) <= point < total_weight(s.take(i + 1))
}

/// The position of the first target with the fewest connections.
pub fn least_connections_index(targets: &[TargetNode]) -> (r: Option<usize>)
    ensures
        targets@.len() == 0 <==> r is None,
        r matches Some(i) ==> is_first_least_connections(targets@, i as int),
{
    if targets.len() == 0 {
        return None;
    }
    let mut best: usize = 0;
    let mut i: usize = 1;
    while i < targets.len()
        invariant
            1 <= i <= targets@.len(),
            best < i,
            forall|j: int| 0 <= j < i ==> targets@[best as int].connections <= #[trigger] targets@[j].connections,
            forall|j: int| 0 <= j < best ==> targets@[best as int].connections < #[trigger] targets@[j].connections,
        decreases targets@.len() - i,
    {
        if targets[i].connections < targets[best].connections {
            best = i;
        }
        i = i + 1;
    }
    Some(best)
}

/// The position of the first target with the lowest average response time.
pub fn least_response_time_index(targets: &[TargetNode]) -> (r: Option<usize>)
    ensures
        targets@.len() == 0 <==> r is None,
        r matches Some(i) ==> is_first_least_response_time(targets@, i as int),
{
    if targets.len() == 0 {
        return None;
    }
    let mut best: usize = 0;
    let mut i: usize = 1;
    while i < targets.len()
        invariant
            1 <= i <= targets@.len(),
            best < i,
            forall|j: int| 0 <= j < i ==> targets@[best as int].avg_response_time <= #[trigger] targets@[j].avg_response_time,
            forall|j: int| 0 <= j < best ==> targets@[best as int].avg_response_time < #[trigger] targets@[j].avg_response_time,
        decreases targets@.len() - i,
    {
        if targets[i].avg_response_time < targets[best].avg_response_time {
            best = i;
        }
        i = i + 1;
    }
    Some(best)
}

proof fn lemma_total_weight_take_step(s: Seq<TargetNode>, i: int)
    requires
        0 <= i < s.len(),
    ensures
        total_weight(s.take(i + 1)) == total_weight(s.take(i)) + s[i].weight,
{
    assert(s.take(i + 1).drop_last() =~= s.take(i));
}

proof fn lemma_total_weight_bound(s: Seq<TargetNode>)
    ensures
        total_weight(s) <= s.len() * 0xffff_ffff,
    decreases s.len(),
{
    if s.len() > 0 {
        lemma_total_weight_bound(s.drop_last());
    }
}

/// The sum of the weights of the targets.
pub fn total_weight_of(targets: &[TargetNode]) -> (r: u128)
    ensures
        r == total_weight(targets@),
{
    let n = targets.len();
    let mut sum: u128 = 0;
    let mut i: usize = 0;
    proof {
        assert(targets@.take(0) =~= Seq::<TargetNode>::empty());
    }
    while i < n
        invariant
            n == targets@.len(),
            i <= n,
            n <= usize::MAX,
            sum == total_weight(targets@.take(i as int)),
            sum <= i * 0xffff_ffff,
        decreases targets@.len() - i,
    {
        proof {
            lemma_total_weight_take_step(targets@, i as int);
            assert(i * 0xffff_ffff + 0xffff_ffff <= 0xffff_ffff_ffff_ffff * 0xffff_ffff + 0xffff_ffffnat) by (nonlinear_arith)
                requires i <= 0xffff_ffff_ffff_ffffnat;
        }
        sum = sum + targets[i].weight as u128;
        i = i + 1;
    }
    proof {
        assert(targets@.take(targets@.len() as int) =~= targets@);
    }
    sum
}

proof fn lemma_total_weight_prefix_bound(s: Seq<TargetNode>, k: int)
    requires
        0 <= k <= s.len(),
    ensures
        total_weight(s.take(k)) <= total_weight(s),
    decreases s.len() - k,
{
    if k < s.len() {
        lemma_total_weight_prefix_bound(s, k + 1);
        lemma_total_weight_take_step(s, k);
    } else {
        assert(s.take(k) =~= s);
    }
}

proof fn lemma_weight_slot_exists(s: Seq<TargetNode>, point: nat, i: int)
    requires
        0 <= i <= s.len(),
        total_weight(s.take(i)) <= point < total_weight(s),
    ensures
        exists|k: int| i <= k < s.len() && weight_slot(s, point, k),
    decreases s.len() - i,
{
    if i == s.len() {
        assert(s.take(i) =~= s);
    } else {
        lemma_total_weight_take_step(s, i);
        if point < total_weight(s.take(i + 1)) {
            assert(weight_slot(s, point, i));
        } else {
            lemma_weight_slot_exists(s, point, i + 1);
        }
    }
}

/// The position whose share of the weight line holds `point`: walking the
/// targets in order, the first whose weight exceeds what is left of `point`.
pub fn weighted_index(targets: &[TargetNode], point: u128) -> (r: usize)
    requires
        point < total_weight(targets@),
    ensures
        weight_slot(targets@, point as nat, r as int),
{
    let n = targets.len();
    let mut left: u128 = point;
    let mut i: usize = 0;
    proof {
        assert(targets@.take(0) =~= Seq::<TargetNode>::empty());
        lemma_weight_slot_exists(targets@, point as nat, 0);
    }
    while i < n
        invariant
            n == targets@.len(),
            i <= n,
            point < total_weight(targets@),
            total_weight(targets@.take(i as int)) <= point,
            left == point - total_weight(targets@.take(i as int)),
        decreases n - i,
    {
        proof {
            lemma_total_weight_take_step(targets@, i as int);
        }
        if left < targets[i].weight as u128 {
            return i;
        }
        left = left - targets[i].weight as u128;
        i = i + 1;
    }
    proof {
        assert(targets@.take(n as int) =~= targets@);
    }
    0
}

/// Whether `pick` (with the round-robin counter moving from `counter` to
/// `counter2`) is what `strategy` picks among the healthy targets `hs`, where
/// `key` is the id that consistent hashing hashes.
pub open spec fn picks(
    strategy: LoadBalancingStrategy,
    hs: Seq<TargetNode>,
    counter: usize,
    key: Seq<char>,
    pick: Option<String>,
    counter2: usize,
) -> bool {
    let next: usize = if counter == usize::MAX { 0 } else { (counter + 1) as usize };
    if hs.len() == 0 {
        pick is None && counter2 == counter
    } else {
        match strategy {
            LoadBalancingStrategy::RoundRobin =>
                pick == Some(hs[round_robin_slot(counter as int, hs.len() as int)].id) && counter2 == next,
            LoadBalancingStrategy::Random =>
                (exists|i: int| 0 <= i < hs.len() && pick == Some(#[trigger] hs[i].id))
                && counter2 == counter,
            LoadBalancingStrategy::LeastConnections =>
                (exists|i: int| is_first_least_connections(hs, i) && pick == Some(#[trigger] hs[i].id))
                && counter2 == counter,
            LoadBalancingStrategy::WeightedRoundRobin =>
                if total_weight(hs) == 0 {
                    pick == Some(hs[round_robin_slot(counter as int, hs.len() as int)].id) && counter2 == next
                } else {
                    (exists|i: int, p: nat| #![trigger weight_slot(hs, p, i)]
                        p < total_weight(hs) && weight_slot(hs, p, i) && pick == Some(hs[i].id))
                    && counter2 == counter
                },
            LoadBalancingStrategy::ConsistentHash =>
                pick == Some(hs[((text_digest(key) as usize) as int) % (hs.len() as int)].id)
                && counter2 == counter,
            LoadBalancingStrategy::LeastResponseTime =>
                (exists|i: int| is_first_least_response_time(hs, i) && pick == Some(#[trigger] hs[i].id))
                && counter2 == counter,
        }
    }
}

/// The load balancer: the table of targets, the strategy, and the round-robin
/// counter.
pub struct LoadBalancer {
    targets: DashMap<String, TargetNode>,
    strategy: LoadBalancingStrategy,
    round_robin_counter: usize,
    config: LoadBalancerConfig,
    running: bool,
}

impl LoadBalancer {
    /// The targets, by node id.
    pub closed spec fn table(&self) -> Map<Seq<char>, TargetNode> {
        target_entries(self.targets)
    }

    /// The round-robin counter.
    pub closed spec fn counter(&self) -> usize {
        self.round_robin_counter
    }

    /// The strategy in use.
    pub closed spec fn strategy_spec(&self) -> LoadBalancingStrategy {
        self.strategy
    }

    /// The configuration the balancer was made with.
    pub closed spec fn config_spec(&self) -> LoadBalancerConfig {
        self.config
    }

    /// Whether the balancer has been started and not stopped.
    pub closed spec fn running_spec(&self) -> bool {
        self.running
    }

    /// The table is finite and each target is filed under its own id.
    pub open spec fn wf(&self) -> bool {
        &&& self.table().dom().finite()
        &&& forall|k: Seq<char>| #[trigger] self.table().dom().contains(k) ==> self.table()[k].id@ == k
    }

    /// A balancer with no targets that picks by `config.strategy`.
    pub fn new(config: LoadBalancerConfig) -> (r: ClusterResult<Self>)
        ensures
            r matches Ok(lb) ==> lb.config_spec() == config,
            r matches Ok(lb) && lb.wf() && lb.table().dom() == Set::<Seq<char>>::empty()
                && lb.strategy_spec() == config.strategy && lb.counter() == 0 && !lb.running_spec(),
    {
        let strategy = config.strategy;
        Ok(LoadBalancer {
            targets: target_table_new(),
            strategy,
            round_robin_counter: 0,
            config,
            running: false,
        })
    }

    /// The strategy in use.
    pub fn strategy(&self) -> (r: LoadBalancingStrategy)
        ensures
            r == self.strategy_spec(),
    {
        self.strategy
    }

    /// Marks the balancer as running.
    pub fn start(&mut self) -> (r: ClusterResult<()>)
        requires
            old(self).wf(),
        ensures
            final(self).config_spec() == old(self).config_spec(),
            r is Ok,
            final(self).wf(),
            final(self).running_spec(),
            final(self).table() == old(self).table(),
            final(self).counter() == old(self).counter(),
            final(self).strategy_spec() == old(self).strategy_spec(),
    {
        self.running = true;
        Ok(())
    }

    /// Marks the balancer as stopped.
    pub fn stop(&mut self) -> (r: ClusterResult<()>)
        requires
            old(self).wf(),
        ensures
            final(self).config_spec() == old(self).config_spec(),
            r is Ok,
            final(self).wf(),
            !final(self).running_spec(),
            final(self).table() == old(self).table(),
            final(self).counter() == old(self).counter(),
            final(self).strategy_spec() == old(self).strategy_spec(),
    {
        self.running = false;
        Ok(())
    }

    /// Interval between statistics updates, in milliseconds.
    pub fn stats_update_interval(&self) -> (r: u64)
        ensures
            r == self.config_spec().stats_update_interval,
    {
        self.config.stats_update_interval
    }

    /// Registers a target with weight 1, no connections, no response time, healthy;
    /// a target already filed under `node_id` is replaced.
    pub fn add_target(&mut self, node_id: &str, endpoint: String) -> (r: ClusterResult<()>)
        requires
            old(self).wf(),
        ensures
            final(self).config_spec() == old(self).config_spec(),
            r is Ok,
            final(self).wf(),
            final(self).table().dom() == old(self).table().dom().insert(node_id@),
            forall|k: Seq<char>| k != node_id@ && old(self).table().dom().contains(k)
                ==> #[trigger] final(self).table()[k] == old(self).table()[k],
            ({
                let t = final(self).table()[node_id@];
                &&& t.id@ == node_id@
                &&& t.endpoint == endpoint
                &&& t.weight == 1
                &&& t.connections == 0
                &&& t.avg_response_time == 0
                &&& t.healthy
            }),
            final(self).counter() == old(self).counter(),
            final(self).strategy_spec() == old(self).strategy_spec(),
            final(self).running_spec() == old(self).running_spec(),
    {
        let target = TargetNode {
            id: String::from_str(node_id),
            endpoint,
            weight: 1,
            connections: 0,
            avg_response_time: 0,
            healthy: true,
            updated_at: now_millis(),
        };
        target_table_insert(&mut self.targets, String::from_str(node_id), target);
        Ok(())
    }

    /// Unregisters the target filed under `node_id`, if any.
    pub fn remove_target(&mut self, node_id: &str) -> (r: ClusterResult<()>)
        requires
            old(self).wf(),
        ensures
            final(self).config_spec() == old(self).config_spec(),
            r is Ok,
            final(self).wf(),
            final(self).table() == old(self).table().remove(node_id@),
            final(self).counter() == old(self).counter(),
            final(self).strategy_spec() == old(self).strategy_spec(),
            final(self).running_spec() == old(self).running_spec(),
    {
        target_table_remove(&mut self.targets, node_id);
        Ok(())
    }
}

/// The average response time after a new measurement: the measurement itself
/// when there was none yet, else seven eighths of the old average plus one
/// eighth of the measurement, rounded down.
pub open spec fn moving_average(avg: u64, sample: u64) -> nat {
    if avg == 0 {
        sample as nat
    } else {
        ((avg * 7 + sample) / 8) as nat
    }
}

/// The new average response time after a measurement.
pub fn next_average(avg: u64, sample: u64) -> (r: u64)
    ensures
        r == moving_average(avg, sample),
        (avg <= r <= sample) || (sample <= r <= avg),
{
    if avg == 0 {
        sample
    } else {
        let total: u128 = avg as u128 * 7 + sample as u128;
        proof {
            assert(total / 8 <= (if avg >= sample { avg as int } else { sample as int }));
            assert(total / 8 >= (if avg <= sample { avg as int } else { sample as int }));
        }
        (total / 8) as u64
    }
}

impl LoadBalancer {
    /// Sets the weight of the target filed under `node_id`, if any.
    pub fn update_target_weight(&mut self, node_id: &str, weight: u32) -> (r: ClusterResult<()>)
        requires
            old(self).wf(),
        ensures
            final(self).config_spec() == old(self).config_spec(),
            r is Ok,
            final(self).wf(),
            final(self).table().dom() == old(self).table().dom(),
            forall|k: Seq<char>| k != node_id@ ==> #[trigger] final(self).table()[k] == old(self).table()[k],
            old(self).table().dom().contains(node_id@) ==> ({
                let o = old(self).table()[node_id@];
                let n = final(self).table()[node_id@];
                &&& n.id == o.id && n.endpoint == o.endpoint && n.connections == o.connections
                &&& n.avg_response_time == o.avg_response_time && n.healthy == o.healthy
                &&& n.weight == weight
            }),
            final(self).counter() == old(self).counter(),
            final(self).strategy_spec() == old(self).strategy_spec(),
            final(self).running_spec() == old(self).running_spec(),
    {
        match target_table_get(&self.targets, node_id) {
            Some(t) => {
                let mut t = t;
                t.weight = weight;
                t.updated_at = now_millis();
                target_table_insert(&mut self.targets, String::from_str(node_id), t);
                proof {
                    assert(self.table().dom() =~= old(self).table().dom());
                }
            },
            None => {},
        }
        Ok(())
    }

    /// Marks the target filed under `node_id`, if any, healthy or not.
    pub fn update_target_health(&mut self, node_id: &str, healthy: bool) -> (r: ClusterResult<()>)
        requires
            old(self).wf(),
        ensures
            final(self).config_spec() == old(self).config_spec(),
            r is Ok,
            final(self).wf(),
            final(self).table().dom() == old(self).table().dom(),
            forall|k: Seq<char>| k != node_id@ ==> #[trigger] final(self).table()[k] == old(self).table()[k],
            old(self).table().dom().contains(node_id@) ==> ({
                let o = old(self).table()[node_id@];
                let n = final(self).table()[node_id@];
                &&& n.id == o.id && n.endpoint == o.endpoint && n.connections == o.connections
                &&& n.avg_response_time == o.avg_response_time && n.weight == o.weight
                &&& n.healthy == healthy
            }),
            final(self).counter() == old(self).counter(),
            final(self).strategy_spec() == old(self).strategy_spec(),
            final(self).running_spec() == old(self).running_spec(),
    {
        match target_table_get(&self.targets, node_id) {
            Some(t) => {
                let mut t = t;
                t.healthy = healthy;
                t.updated_at = now_millis();
                target_table_insert(&mut self.targets, String::from_str(node_id), t);
                proof {
                    assert(self.table().dom() =~= old(self).table().dom());
                }
            },
            None => {},
        }
        Ok(())
    }

    /// Sets the connection count of the target filed under `node_id`, if any.
    pub fn update_target_connections(&mut self, node_id: &str, connections: u32) -> (r: ClusterResult<()>)
        requires
            old(self).wf(),
        ensures
            final(self).config_spec() == old(self).config_spec(),
            r is Ok,
            final(self).wf(),
            final(self).table().dom() == old(self).table().dom(),
            forall|k: Seq<char>| k != node_id@ ==> #[trigger] final(self).table()[k] == old(self).table()[k],
            old(self).table().dom().contains(node_id@) ==> ({
                let o = old(self).table()[node_id@];
                let n = final(self).table()[node_id@];
                &&& n.id == o.id && n.endpoint == o.endpoint && n.weight == o.weight
                &&& n.avg_response_time == o.avg_response_time && n.healthy == o.healthy
                &&& n.connections == connections
            }),
            final(self).counter() == old(self).counter(),
            final(self).strategy_spec() == old(self).strategy_spec(),
            final(self).running_spec() == old(self).running_spec(),
    {
        match target_table_get(&self.targets, node_id) {
            Some(t) => {
                let mut t = t;
                t.connections = connections;
                t.updated_at = now_millis();
                target_table_insert(&mut self.targets, String::from_str(node_id), t);
                proof {
                    assert(self.table().dom() =~= old(self).table().dom());
                }
            },
            None => {},
        }
        Ok(())
    }

    /// Folds a response time measurement into the average of the target filed
    /// under `node_id`, if any.
    pub fn update_target_response_time(&mut self, node_id: &str, response_time: u64) -> (r: ClusterResult<()>)
        requires
            old(self).wf(),
        ensures
            final(self).config_spec() == old(self).config_spec(),
            r is Ok,
            final(self).wf(),
            final(self).table().dom() == old(self).table().dom(),
            forall|k: Seq<char>| k != node_id@ ==> #[trigger] final(self).table()[k] == old(self).table()[k],
            old(self).table().dom().contains(node_id@) ==> ({
                let o = old(self).table()[node_id@];
                let n = final(self).table()[node_id@];
                &&& n.id == o.id && n.endpoint == o.endpoint && n.weight == o.weight
                &&& n.connections == o.connections && n.healthy == o.healthy
                &&& n.avg_response_time == moving_average(o.avg_response_time, response_time)
            }),
            final(self).counter() == old(self).counter(),
            final(self).strategy_spec() == old(self).strategy_spec(),
            final(self).running_spec() == old(self).running_spec(),
    {
        match target_table_get(&self.targets, node_id) {
            Some(t) => {
                let mut t = t;
                t.avg_response_time = next_average(t.avg_response_time, response_time);
                t.updated_at = now_millis();
                target_table_insert(&mut self.targets, String::from_str(node_id), t);
                proof {
                    assert(self.table().dom() =~= old(self).table().dom());
                }
            },
            None => {},
        }
        Ok(())
    }

    /// The target filed under `node_id`, if any.
    pub fn get_target(&self, node_id: &str) -> (r: ClusterResult<Option<TargetNode>>)
        ensures
            r matches Ok(o) && o == (if self.table().dom().contains(node_id@) {
                Some(self.table()[node_id@])
            } else {
                None
            }),
    {
        Ok(target_table_get(&self.targets, node_id))
    }

    /// Every target, once each, in no particular order.
    pub fn list_targets(&self) -> (r: ClusterResult<Vec<TargetNode>>)
        requires
            self.wf(),
        ensures
            r matches Ok(v) && v@.len() == self.table().dom().len()
                && (forall|i: int| 0 <= i < v@.len() ==> #[trigger] self.table().dom().contains(v@[i].id@)
                    && self.table()[v@[i].id@] == v@[i])
                && (forall|i: int, j: int| 0 <= i < j < v@.len() ==> v@[i].id@ != v@[j].id@),
    {
        let entries = target_table_entries(&self.targets);
        let n = entries.len();
        let mut out: Vec<TargetNode> = Vec::new();
        let mut i: usize = 0;
        let mut entries = entries;
        let ghost all = entries@;
        while i < n
            invariant
                self.wf(),
                n == all.len(),
                i <= n,
                entries@.len() == n - i,
                forall|j: int| 0 <= j < entries@.len() ==> entries@[j] == all[j + i],
                out@.len() == i,
                forall|j: int| 0 <= j < i ==> out@[j] == all[j].1,
                forall|j: int| 0 <= j < n ==> #[trigger] self.table().dom().contains(all[j].0@)
                    && self.table()[all[j].0@] == all[j].1,
                forall|j: int, k: int| 0 <= j < k < n ==> all[j].0@ != all[k].0@,
            decreases n - i,
        {
            let (_, t) = entries.remove(0);
            out.push(t);
            i = i + 1;
        }
        proof {
            assert forall|j: int| 0 <= j < out@.len() implies #[trigger] self.table().dom().contains(out@[j].id@)
                && self.table()[out@[j].id@] == out@[j] by {
                assert(self.table().dom().contains(all[j].0@));
            }
            assert forall|j: int, k: int| 0 <= j < k < out@.len() implies out@[j].id@ != out@[k].id@ by {
                assert(self.table().dom().contains(all[j].0@));
                assert(self.table().dom().contains(all[k].0@));
            }
        }
        Ok(out)
    }

    /// The healthy targets among `candidates`, in order.
    fn healthy_candidates(&self, candidates: &[String]) -> (r: Vec<TargetNode>)
        ensures
            r@ == healthy_targets(self.table(), candidate_ids(candidates@)),
    {
        let n = candidates.len();
        let mut out: Vec<TargetNode> = Vec::new();
        let mut i: usize = 0;
        let ghost ids = candidate_ids(candidates@);
        proof {
            assert(ids.take(0) =~= Seq::<Seq<char>>::empty());
        }
        while i < n
            invariant
                n == candidates@.len(),
                ids == candidate_ids(candidates@),
                ids.len() == n,
                i <= n,
                out@ == healthy_targets(self.table(), ids.take(i as int)),
            decreases n - i,
        {
            proof {
                assert(ids.take(i as int + 1).drop_last() =~= ids.take(i as int));
                assert(ids[i as int] == candidates@[i as int]@);
            }
            match target_table_get(&self.targets, candidates[i].as_str()) {
                Some(t) => {
                    if t.healthy {
                        out.push(t);
                    }
                },
                None => {},
            }
            i = i + 1;
        }
        proof {
            assert(ids.take(n as int) =~= ids);
        }
        out
    }

    /// Picks a healthy target among `candidates` by the strategy in use; `None`
    /// when no candidate is a healthy registered target.
    pub fn select_target(&mut self, candidates: &[String]) -> (r: ClusterResult<Option<String>>)
        requires
            old(self).wf(),
        ensures
            final(self).config_spec() == old(self).config_spec(),
            final(self).wf(),
            final(self).table() == old(self).table(),
            final(self).strategy_spec() == old(self).strategy_spec(),
            final(self).running_spec() == old(self).running_spec(),
            r matches Ok(pick) && picks(
                old(self).strategy_spec(),
                healthy_targets(old(self).table(), candidate_ids(candidates@)),
                old(self).counter(),
                if candidates@.len() > 0 { candidates@[0]@ } else { Seq::empty() },
                pick,
                final(self).counter(),
            ),
    {
        let hs = self.healthy_candidates(candidates);
        let n = hs.len();
        if n == 0 {
            return Ok(None);
        }
        proof {
            assert(candidates@.len() > 0) by {
                if candidates@.len() == 0 {
                    assert(candidate_ids(candidates@).len() == 0);
                }
            }
        }
        let next: usize = if self.round_robin_counter == usize::MAX { 0 } else { self.round_robin_counter + 1 };
        match self.strategy {
            LoadBalancingStrategy::RoundRobin => {
                let index = self.round_robin_counter % n;
                self.round_robin_counter = next;
                Ok(Some(hs[index].id.clone()))
            },
            LoadBalancingStrategy::Random => {
                let index = random_below(n);
                Ok(Some(hs[index].id.clone()))
            },
            LoadBalancingStrategy::LeastConnections => {
                let index = least_connections_index(hs.as_slice()).unwrap();
                Ok(Some(hs[index].id.clone()))
            },
            LoadBalancingStrategy::WeightedRoundRobin => {
                let total = total_weight_of(hs.as_slice());
                if total == 0 {
                    let index = self.round_robin_counter % n;
                    self.round_robin_counter = next;
                    Ok(Some(hs[index].id.clone()))
                } else {
                    let point = random_below_u128(total);
                    let index = weighted_index(hs.as_slice(), point);
                    Ok(Some(hs[index].id.clone()))
                }
            },
            LoadBalancingStrategy::ConsistentHash => {
                let hash = hash_text(candidates[0].as_str());
                let index = (hash as usize) % n;
                Ok(Some(hs[index].id.clone()))
            },
            LoadBalancingStrategy::LeastResponseTime => {
                let index = least_response_time_index(hs.as_slice()).unwrap();
                Ok(Some(hs[index].id.clone()))
            },
        }
    }
}

/// Whether `t` is the target filed under one of the candidates, healthy.
pub open spec fn healthy_candidate(table: Map<Seq<char>, TargetNode>, cands: Seq<Seq<char>>, t: TargetNode) -> bool {
    exists|j: int| 0 <= j < cands.len() && table.dom().contains(cands[j]) && table[cands[j]] == t && t.healthy
}

/// Whether some candidate names a healthy target.
pub open spec fn some_healthy_candidate(table: Map<Seq<char>, TargetNode>, cands: Seq<Seq<char>>) -> bool {
    exists|j: int| 0 <= j < cands.len() && table.dom().contains(cands[j]) && table[cands[j]].healthy
}

/// The healthy targets among the candidates are the targets of healthy
/// candidates, and there is one as soon as some candidate is healthy.
pub proof fn lemma_healthy_targets(table: Map<Seq<char>, TargetNode>, cands: Seq<Seq<char>>)
    ensures
        forall|i: int| 0 <= i < healthy_targets(table, cands).len()
            ==> healthy_candidate(table, cands, #[trigger] healthy_targets(table, cands)[i]),
        healthy_targets(table, cands).len() > 0 <==> some_healthy_candidate(table, cands),
    decreases cands.len(),
{
    if cands.len() > 0 {
        let init = cands.drop_last();
        lemma_healthy_targets(table, init);
        let h = healthy_targets(table, cands);
        let hi = healthy_targets(table, init);
        assert forall|i: int| 0 <= i < h.len() implies healthy_candidate(table, cands, #[trigger] h[i]) by {
            if i < hi.len() {
                assert(healthy_candidate(table, init, hi[i]));
                let j = choose|j: int| 0 <= j < init.len() && table.dom().contains(init[j]) && table[init[j]] == hi[i]
                    && hi[i].healthy;
                assert(cands[j] == init[j]);
                assert(h[i] == hi[i]);
            } else {
                assert(cands[cands.len() - 1] == cands.last());
            }
        }
        if some_healthy_candidate(table, cands) {
            let j = choose|j: int| 0 <= j < cands.len() && table.dom().contains(cands[j]) && table[cands[j]].healthy;
            if j < init.len() {
                assert(init[j] == cands[j]);
                assert(some_healthy_candidate(table, init));
            }
        }
        if h.len() > 0 && !(table.dom().contains(cands.last()) && table[cands.last()].healthy) {
            let j = choose|j: int| 0 <= j < init.len() && table.dom().contains(init[j]) && table[init[j]].healthy;
            assert(cands[j] == init[j]);
        }
    }
}

/// What any strategy picks is the id of one of the healthy targets it was
/// given, and it picks one exactly when it was given any.
pub proof fn lemma_pick_among(
    strategy: LoadBalancingStrategy,
    hs: Seq<TargetNode>,
    counter: usize,
    key: Seq<char>,
    pick: Option<String>,
    counter2: usize,
)
    requires
        picks(strategy, hs, counter, key, pick, counter2),
    ensures
        pick is None <==> hs.len() == 0,
        pick matches Some(p) ==> exists|i: int| 0 <= i < hs.len() && #[trigger] hs[i].id == p,
{
    if hs.len() > 0 {
        match strategy {
            LoadBalancingStrategy::RoundRobin => {
                assert(0 <= round_robin_slot(counter as int, hs.len() as int) < hs.len());
            },
            LoadBalancingStrategy::WeightedRoundRobin => {
                if total_weight(hs) == 0 {
                    assert(0 <= round_robin_slot(counter as int, hs.len() as int) < hs.len());
                } else {
                    let (i, p) = choose|i: int, p: nat| #![trigger weight_slot(hs, p, i)]
                        p < total_weight(hs) && weight_slot(hs, p, i) && pick == Some(hs[i].id);
                    assert(hs[i].id == pick->0);
                }
            },
            LoadBalancingStrategy::ConsistentHash => {
                let i = ((text_digest(key) as usize) as int) % (hs.len() as int);
                assert(0 <= i < hs.len());
                assert(hs[i].id == pick->0);
            },
            _ => {},
        }
    }
}

/// A pick is always a candidate filed as a healthy target, and no pick is made
/// exactly when no candidate is one (health filtering).
pub proof fn lemma_pick_is_healthy_candidate(
    table: Map<Seq<char>, TargetNode>,
    cands: Seq<Seq<char>>,
    strategy: LoadBalancingStrategy,
    counter: usize,
    key: Seq<char>,
    pick: Option<String>,
    counter2: usize,
)
    requires
        forall|k: Seq<char>| #[trigger] table.dom().contains(k) ==> table[k].id@ == k,
        picks(strategy, healthy_targets(table, cands), counter, key, pick, counter2),
    ensures
        pick is None <==> !some_healthy_candidate(table, cands),
        pick matches Some(p) ==> cands.contains(p@) && table.dom().contains(p@) && table[p@].healthy,
{
    let hs = healthy_targets(table, cands);
    lemma_healthy_targets(table, cands);
    lemma_pick_among(strategy, hs, counter, key, pick, counter2);
    if pick is Some {
        let p = pick->0;
        let i = choose|i: int| 0 <= i < hs.len() && #[trigger] hs[i].id == p;
        assert(healthy_candidate(table, cands, hs[i]));
        let j = choose|j: int| 0 <= j < cands.len() && table.dom().contains(cands[j]) && table[cands[j]] == hs[i]
            && hs[i].healthy;
        assert(table[cands[j]].id@ == cands[j]);
        assert(cands[j] == p@);
    }
}

/// The position that round robin picks among `n` targets at counter value
/// `counter`.
pub open spec fn round_robin_slot(counter: int, n: int) -> int {
    counter % n
}

/// Whether round robin among `n` targets picks position `k` at one of the `n`
/// counter values from `counter` on.
pub open spec fn reached_within(counter: int, n: int, k: int) -> bool {
    exists|a: int| 0 <= a < n && #[trigger] round_robin_slot(counter + a, n) == k
}

/// Round robin over the same `n` healthy targets, from counter `counter` on
/// without wrapping, picks a different position at each of `n` consecutive
/// selections, and so every target once.
pub proof fn lemma_round_robin_cycle(counter: int, n: int)
    requires
        counter >= 0,
        n > 0,
    ensures
        forall|a: int, b: int| 0 <= a < b < n ==> #[trigger] round_robin_slot(counter + a, n)
            != #[trigger] round_robin_slot(counter + b, n),
        forall|k: int| 0 <= k < n ==> #[trigger] reached_within(counter, n, k),
{
    assert forall|a: int, b: int| 0 <= a < b < n implies #[trigger] round_robin_slot(counter + a, n)
        != #[trigger] round_robin_slot(counter + b, n) by {
        vstd::arithmetic::div_mod::lemma_mod_equivalence(counter + b, counter + a, n);
        vstd::arithmetic::div_mod::lemma_small_mod((b - a) as nat, n as nat);
        assert((counter + b) - (counter + a) == b - a);
    }
    assert forall|k: int| 0 <= k < n implies #[trigger] reached_within(counter, n, k) by {
        let a = (k - counter) % n;
        vstd::arithmetic::div_mod::lemma_add_mod_noop_right(counter, k - counter, n);
        vstd::arithmetic::div_mod::lemma_small_mod(k as nat, n as nat);
        assert(counter + (k - counter) == k);
        assert(0 <= a < n);
        assert(round_robin_slot(counter + a, n) == k);
    }
}

} // verus!
