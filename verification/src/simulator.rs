//! The network simulator: a made-up network of nodes and the scenarios run
//! on it.
//!
//! Capacities are in whole units; usage, latency and response time are in
//! thousandths of theirs, and so are the metrics of a scenario.
use vstd::prelude::*;
use vstd::string::StringExecFns;
use crate::clock::{elapsed_millis, instant_now};
use crate::ident::fresh_identifier;
use crate::registry::{
    lemma_project_upsert, lemma_selected_all, lemma_selected_step, lemma_upsert_fresh, lookup,
    project, selected, upsert, Registry,
};
use crate::text::{append_decimal, decimal, lemma_decimal_injective};

verus! {

/// The identity of a node as this service sees it.
#[derive(Clone, Debug)]
pub struct MockNodeIdentity {
    pub node_id: String,
    pub public_key: Vec<u8>,
}

/// The network service as this service sees it.
#[derive(Clone, Debug)]
pub struct MockNetworkService {
    pub node_id: String,
}

/// The shard store as this service sees it.
#[derive(Clone, Debug)]
pub struct MockStorageService {
    pub node_id: String,
}

/// The compute service as this service sees it.
#[derive(Clone, Debug)]
pub struct MockComputeService {
    pub node_id: String,
}

/// The ledger as this service sees it.
#[derive(Clone, Debug)]
pub struct MockBlockchainService {
    pub node_id: String,
}

/// What a simulated node offers, in whole gigabytes, operations per second
/// and megabits per second.
#[derive(Clone, Copy, Debug, PartialEq, Eq, Structural)]
pub struct MockNodeCapabilities {
    pub storage_gb: u64,
    pub compute_flops: u64,
    pub bandwidth_mbps: u64,
}

/// Whether a node can be reached and take work.
#[derive(Clone, Copy, Debug, PartialEq, Eq, Structural)]
pub enum NodeStatus {
    Online,
    Offline,
    Busy,
    Available,
}

/// How a simulated node performs, in thousandths: usage as a share,
/// latency and response time in milliseconds.
#[derive(Clone, Copy, Debug, PartialEq, Eq, Structural)]
pub struct NodePerformance {
    pub cpu_usage: u64,
    pub memory_usage: u64,
    pub network_latency: u64,
    pub response_time: u64,
}

/// A node of the simulated network.
#[derive(Clone, Debug)]
pub struct SimulatedNode {
    pub node_id: String,
    pub identity: MockNodeIdentity,
    pub capabilities: MockNodeCapabilities,
    pub status: NodeStatus,
    pub performance: NodePerformance,
}

/// What a `SimulatedNode` holds, as plain values.
pub struct SimulatedNodeView {
    pub node_id: Seq<char>,
    pub identity_node_id: Seq<char>,
    pub public_key: Seq<u8>,
    pub capabilities: MockNodeCapabilities,
    pub status: NodeStatus,
    pub performance: NodePerformance,
}

impl View for SimulatedNode {
    type V = SimulatedNodeView;

    open spec fn view(&self) -> SimulatedNodeView {
        SimulatedNodeView {
            node_id: self.node_id@,
            identity_node_id: self.identity.node_id@,
            public_key: self.identity.public_key@,
            capabilities: self.capabilities,
            status: self.status,
            performance: self.performance,
        }
    }
}

/// A scenario to run on the network.
#[derive(Clone, Debug)]
pub struct SimulationScenario {
    pub scenario_id: String,
    pub name: String,
    pub description: String,
    pub parameters: Registry<String>,
}

/// What a scenario came to.
#[derive(Clone, Debug)]
pub struct SimulationResult {
    pub scenario_id: String,
    pub success: bool,
    /// The metrics by name, in thousandths.
    pub metrics: Registry<u128>,
    pub duration_ms: u64,
    pub error_message: Option<String>,
}

/// The largest network that can be made: past it the compute power of the
/// last node would not fit in 64 bits.
pub const MAX_NETWORK_SIZE: u64 = 184_467_440_728;

/// How many bytes the public key of a simulated node has.
pub const MOCK_KEY_LEN: usize = 32;

/// The name of the node with the number `i`.
pub open spec fn node_name(i: nat) -> Seq<char> {
    "node_"@ + decimal(i)
}

/// The node with the number `i`: the higher the number, the more it
/// offers and the busier and slower it is.
pub open spec fn simulated(i: nat) -> SimulatedNodeView {
    SimulatedNodeView {
        node_id: node_name(i),
        identity_node_id: node_name(i),
        public_key: Seq::new(MOCK_KEY_LEN as nat, |j: int| (i % 256) as u8),
        capabilities: MockNodeCapabilities {
            storage_gb: (1000 + i * 100) as u64,
            compute_flops: (1_000_000_000 + i * 100_000_000) as u64,
            bandwidth_mbps: (100 + i * 10) as u64,
        },
        status: NodeStatus::Online,
        performance: NodePerformance {
            cpu_usage: (100 + i * 50) as u64,
            memory_usage: (200 + i * 30) as u64,
            network_latency: (10_000 + i * 2_000) as u64,
            response_time: (50_000 + i * 10_000) as u64,
        },
    }
}

/// `nodes` after the nodes with the numbers below `count` were recorded,
/// lowest number first, each under its name.
pub open spec fn network_with(nodes: Seq<(Seq<char>, SimulatedNodeView)>, count: nat) -> Seq<
    (Seq<char>, SimulatedNodeView),
>
    decreases count,
{
    if count == 0 {
        nodes
    } else {
        upsert(
            network_with(nodes, (count - 1) as nat),
            node_name((count - 1) as nat),
            simulated((count - 1) as nat),
        )
    }
}

/// Nodes with different numbers have different names.
pub proof fn lemma_node_names_differ(i: nat, j: nat)
    requires
        i != j,
    ensures
        node_name(i) != node_name(j),
{
    if node_name(i) == node_name(j) {
        let prefix = "node_"@;
        assert(node_name(i).subrange(prefix.len() as int, node_name(i).len() as int) =~= decimal(i));
        assert(node_name(j).subrange(prefix.len() as int, node_name(j).len() as int) =~= decimal(j));
        lemma_decimal_injective(i, j);
    }
}

/// A network made from nothing has as many nodes as were asked for: the
/// node with the number `i` stands at position `i`, under its own name.
pub proof fn lemma_fresh_network(count: nat)
    ensures
        network_with(Seq::empty(), count) == Seq::new(
            count,
            |i: int| (node_name(i as nat), simulated(i as nat)),
        ),
    decreases count,
{
    if count > 0 {
        let last = (count - 1) as nat;
        lemma_fresh_network(last);
        let earlier = network_with(Seq::empty(), last);
        assert forall|i: int| 0 <= i < earlier.len() implies (#[trigger] earlier[i]).0 != node_name(
            last,
        ) by {
            lemma_node_names_differ(i as nat, last);
        }
        lemma_upsert_fresh(earlier, node_name(last), simulated(last));
        assert(network_with(Seq::empty(), count) =~= Seq::new(
            count,
            |i: int| (node_name(i as nat), simulated(i as nat)),
        ));
    } else {
        assert(network_with(Seq::empty(), count) =~= Seq::new(
            count,
            |i: int| (node_name(i as nat), simulated(i as nat)),
        ));
    }
}

/// A simulator whose network was made from nothing has as many nodes as
/// were asked for, and all of them are online.
pub proof fn lemma_fresh_network_is_online(service: SimulatorService, count: nat)
    requires
        service.node_views() == network_with(Seq::empty(), count),
    ensures
        service.nodes.entries().len() == count,
        service.online() == count,
{
    lemma_fresh_network(count);
    let entries = service.nodes.entries();
    let views = service.node_views();
    let made = Seq::new(count, |i: int| (node_name(i as nat), simulated(i as nat)));
    let keep = |id: Seq<char>, node: SimulatedNode| node.status == NodeStatus::Online;
    assert(views.len() == entries.len());
    assert(made.len() == count);
    assert forall|i: int| 0 <= i < entries.len() implies keep(
        (#[trigger] entries[i]).0,
        entries[i].1,
    ) by {
        assert(views[i] == made[i]);
        assert(views[i].1 == entries[i].1@);
    }
    lemma_selected_all(entries, keep);
}

/// The metrics of a scenario run on a network of `total` nodes of which
/// `online` are online, in thousandths.
pub open spec fn scenario_metrics(total: nat, online: nat) -> Seq<(Seq<char>, u128)> {
    seq![
        ("total_nodes"@, (total * 1000) as u128),
        ("online_nodes"@, (online * 1000) as u128),
        ("avg_cpu_usage"@, 250u128),
        ("avg_memory_usage"@, 450u128),
        ("avg_network_latency"@, 15_000u128),
    ]
}

/// The names of the metrics of a scenario are five different names.
proof fn lemma_metric_names_differ()
    ensures
        "total_nodes"@ != "online_nodes"@,
        "total_nodes"@ != "avg_cpu_usage"@,
        "total_nodes"@ != "avg_memory_usage"@,
        "total_nodes"@ != "avg_network_latency"@,
        "online_nodes"@ != "avg_cpu_usage"@,
        "online_nodes"@ != "avg_memory_usage"@,
        "online_nodes"@ != "avg_network_latency"@,
        "avg_cpu_usage"@ != "avg_memory_usage"@,
        "avg_cpu_usage"@ != "avg_network_latency"@,
        "avg_memory_usage"@ != "avg_network_latency"@,
{
    reveal_strlit("total_nodes");
    reveal_strlit("online_nodes");
    reveal_strlit("avg_cpu_usage");
    reveal_strlit("avg_memory_usage");
    reveal_strlit("avg_network_latency");
    assert("total_nodes"@.len() == 11);
    assert("online_nodes"@.len() == 12);
    assert("avg_cpu_usage"@.len() == 13);
    assert("avg_memory_usage"@.len() == 16);
    assert("avg_network_latency"@.len() == 19);
}

/// The simulator of one node.
pub struct SimulatorService {
    pub node_id: String,
    pub nodes: Registry<SimulatedNode>,
    pub scenarios: Registry<SimulationScenario>,
    pub results: Registry<SimulationResult>,
}

impl SimulatorService {
    /// The simulated network, as plain values.
    pub open spec fn node_views(self) -> Seq<(Seq<char>, SimulatedNodeView)> {
        project(self.nodes.entries(), |node: SimulatedNode| node@)
    }

    /// How many nodes of the network are online.
    pub open spec fn online(self) -> nat {
        selected(
            self.nodes.entries(),
            |id: Seq<char>, node: SimulatedNode| node.status == NodeStatus::Online,
        ).len()
    }

    /// The result that a run of the scenario `scenario_id` leaves, where
    /// the run took `duration_ms` milliseconds and ended as `success`
    /// says.
    pub open spec fn concludes(
        self,
        result: SimulationResult,
        scenario_id: Seq<char>,
        success: bool,
        duration_ms: u64,
    ) -> bool {
        &&& result.scenario_id@ == scenario_id
        &&& result.success == success
        &&& result.metrics.entries() == scenario_metrics(self.nodes.entries().len(), self.online())
        &&& result.duration_ms == duration_ms
        &&& result.error_message is None
    }

    /// A simulator with no node, scenario or result.
    pub fn new(node_id: String) -> (service: Self)
        ensures
            service.node_id == node_id,
            service.nodes.entries().len() == 0,
            service.scenarios.entries().len() == 0,
            service.results.entries().len() == 0,
    {
        SimulatorService {
            node_id,
            nodes: Registry::new(),
            scenarios: Registry::new(),
            results: Registry::new(),
        }
    }

    /// The node with the number `i`.
    pub fn simulated_node(i: usize) -> (node: SimulatedNode)
        requires
            i < MAX_NETWORK_SIZE,
        ensures
            node@ == simulated(i as nat),
    {
        let mut node_id = "node_".to_owned();
        append_decimal(&mut node_id, i as u128);
        let mut public_key: Vec<u8> = Vec::new();
        let fill = (i % 256) as u8;
        let mut j: usize = 0;
        while j < MOCK_KEY_LEN
            invariant
                j <= MOCK_KEY_LEN,
                public_key@.len() == j,
                fill == (i % 256) as u8,
                forall|k: int| 0 <= k < j ==> public_key@[k] == fill,
            decreases MOCK_KEY_LEN - j,
        {
            public_key.push(fill);
            j += 1;
        }
        assert(public_key@ =~= Seq::new(MOCK_KEY_LEN as nat, |j: int| (i % 256) as u8));
        let n = i as u64;
        SimulatedNode {
            node_id: node_id.clone(),
            identity: MockNodeIdentity { node_id, public_key },
            capabilities: MockNodeCapabilities {
                storage_gb: 1000 + n * 100,
                compute_flops: 1_000_000_000 + n * 100_000_000,
                bandwidth_mbps: 100 + n * 10,
            },
            status: NodeStatus::Online,
            performance: NodePerformance {
                cpu_usage: 100 + n * 50,
                memory_usage: 200 + n * 30,
                network_latency: 10_000 + n * 2_000,
                response_time: 50_000 + n * 10_000,
            },
        }
    }

    /// Records the nodes with the numbers below `node_count`, lowest
    /// number first, each under its name.
    pub fn create_network(&mut self, node_count: usize)
        requires
            node_count <= MAX_NETWORK_SIZE,
        ensures
            final(self).node_id == old(self).node_id,
            final(self).scenarios == old(self).scenarios,
            final(self).results == old(self).results,
            final(self).node_views() == network_with(old(self).node_views(), node_count as nat),
    {
        let mut i: usize = 0;
        while i < node_count
            invariant
                i <= node_count,
                node_count <= MAX_NETWORK_SIZE,
                self.node_id == old(self).node_id,
                self.scenarios == old(self).scenarios,
                self.results == old(self).results,
                self.node_views() == network_with(old(self).node_views(), i as nat),
            decreases node_count - i,
        {
            let node = Self::simulated_node(i);
            proof {
                lemma_project_upsert(
                    self.nodes.entries(),
                    |node: SimulatedNode| node@,
                    node.node_id@,
                    node,
                );
            }
            self.nodes.insert(node.node_id.clone(), node);
            i += 1;
        }
    }

    /// Runs a scenario under a fresh random identifier and returns the
    /// identifier. The time the run took is measured on the way.
    pub fn run_scenario(&mut self, name: String, description: String, parameters: Registry<String>) -> (
        scenario_id: String)
        ensures
            final(self).node_id == old(self).node_id,
            final(self).nodes == old(self).nodes,
            final(self).scenarios.entries() == upsert(
                old(self).scenarios.entries(),
                scenario_id@,
                SimulationScenario { scenario_id, name, description, parameters },
            ),
            lookup(final(self).results.entries(), scenario_id@) matches Some(result) && old(
                self,
            ).concludes(result, scenario_id@, true, result.duration_ms) && final(self).results.entries() == upsert(old(self).results.entries(), scenario_id@, result),
    {
        let scenario_id = fresh_identifier();
        let start = instant_now();
        let success = self.execute_scenario(scenario_id.as_str());
        let duration_ms = elapsed_millis(&start);
        self.record_scenario(scenario_id, name, description, parameters, success, duration_ms)
    }

    /// Records the scenario `scenario_id` and the result of its run, which
    /// took `duration_ms` milliseconds and ended as `success` says, and
    /// returns the identifier.
    pub fn record_scenario(
        &mut self,
        scenario_id: String,
        name: String,
        description: String,
        parameters: Registry<String>,
        success: bool,
        duration_ms: u64,
    ) -> (id: String)
        ensures
            id == scenario_id,
            final(self).node_id == old(self).node_id,
            final(self).nodes == old(self).nodes,
            final(self).scenarios.entries() == upsert(
                old(self).scenarios.entries(),
                scenario_id@,
                SimulationScenario { scenario_id, name, description, parameters },
            ),
            lookup(final(self).results.entries(), scenario_id@) matches Some(result) && old(
                self,
            ).concludes(result, scenario_id@, success, duration_ms) && final(self).results.entries() == upsert(old(self).results.entries(), scenario_id@, result),
    {
        let scenario = SimulationScenario {
            scenario_id: scenario_id.clone(),
            name,
            description,
            parameters,
        };
        self.scenarios.insert(scenario_id.clone(), scenario);
        let result = SimulationResult {
            scenario_id: scenario_id.clone(),
            success,
            metrics: self.generate_metrics(),
            duration_ms,
            error_message: None,
        };
        self.results.insert(scenario_id.clone(), result);
        scenario_id
    }

    /// Stands in for the run of a scenario: every run succeeds.
    pub fn execute_scenario(&self, scenario_id: &str) -> (success: bool)
        ensures
            success,
    {
        true
    }

    /// The metrics of a scenario run now, in thousandths.
    pub fn generate_metrics(&self) -> (metrics: Registry<u128>)
        ensures
            metrics.entries() == scenario_metrics(self.nodes.entries().len(), self.online()),
    {
        let (total, online) = self.get_network_stats();
        let total_nodes = total as u128 * 1000;
        let online_nodes = online as u128 * 1000;
        let mut metrics: Registry<u128> = Registry::new();
        proof {
            lemma_metric_names_differ();
            lemma_upsert_fresh(metrics.entries(), "total_nodes"@, total_nodes);
        }
        metrics.insert("total_nodes".to_owned(), total_nodes);
        proof {
            lemma_upsert_fresh(metrics.entries(), "online_nodes"@, online_nodes);
        }
        metrics.insert("online_nodes".to_owned(), online_nodes);
        proof {
            lemma_upsert_fresh(metrics.entries(), "avg_cpu_usage"@, 250u128);
        }
        metrics.insert("avg_cpu_usage".to_owned(), 250);
        proof {
            lemma_upsert_fresh(metrics.entries(), "avg_memory_usage"@, 450u128);
        }
        metrics.insert("avg_memory_usage".to_owned(), 450);
        proof {
            lemma_upsert_fresh(metrics.entries(), "avg_network_latency"@, 15_000u128);
        }
        metrics.insert("avg_network_latency".to_owned(), 15_000);
        assert(metrics.entries() =~= scenario_metrics(
            self.nodes.entries().len(),
            self.online(),
        ));
        metrics
    }

    /// The number of nodes and the number of those that are online.
    pub fn get_network_stats(&self) -> (stats: (usize, usize))
        ensures
            stats.0 == self.nodes.entries().len(),
            stats.1 == self.online(),
            stats.1 <= stats.0,
    {
        let ghost keep = |id: Seq<char>, node: SimulatedNode| node.status == NodeStatus::Online;
        let ghost entries = self.nodes.entries();
        let total = self.nodes.len();
        let mut online: usize = 0;
        let mut i: usize = 0;
        assert(selected(entries.take(0), keep).len() == 0);
        while i < total
            invariant
                i <= total,
                total == entries.len(),
                entries == self.nodes.entries(),
                keep == |id: Seq<char>, node: SimulatedNode| node.status == NodeStatus::Online,
                online == selected(entries.take(i as int), keep).len(),
                online <= i,
            decreases total - i,
        {
            proof {
                lemma_selected_step(entries, keep, i as int);
            }
            match self.nodes.value_at(i).status {
                NodeStatus::Online => {
                    online += 1;
                },
                _ => {},
            }
            i += 1;
        }
        assert(entries.take(total as int) =~= entries);
        (total, online)
    }

    /// The result of the scenario `scenario_id`.
    pub fn get_scenario_results(&self, scenario_id: &str) -> (found: Option<&SimulationResult>)
        ensures
            match found {
                Some(result) => lookup(self.results.entries(), scenario_id@) == Some(*result),
                None => lookup(self.results.entries(), scenario_id@) is None,
            },
    {
        self.results.get(scenario_id)
    }
}

} // verus!
