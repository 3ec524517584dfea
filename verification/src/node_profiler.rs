//! The node profiler: what the machine under a node offers.
//!
//! Capacities are in whole units; the performance metrics are in
//! thousandths of theirs.
use vstd::prelude::*;
use crate::registry::{lemma_upsert_fresh, Registry};

verus! {

/// What a node offers: storage and memory in gigabytes, compute in
/// operations per second, bandwidth in megabits per second.
#[derive(Clone, Copy, Debug, PartialEq, Eq, Structural)]
pub struct NodeCapabilities {
    pub storage_gb: u64,
    pub compute_flops: u64,
    pub bandwidth_mbps: u64,
    pub memory_gb: u64,
    pub cpu_cores: u32,
    pub gpu_memory_gb: u64,
}

/// The profile of a node.
#[derive(Clone, Debug)]
pub struct NodeProfile {
    pub node_id: String,
    pub hostname: String,
    pub capabilities: NodeCapabilities,
    /// The performance metrics by name, in thousandths.
    pub performance_metrics: Registry<u64>,
}

/// The profiler of one node.
pub struct NodeProfiler {
    pub node_id: String,
}

/// Calls `hostname::get`. Trusted: nothing is claimed of the result,
/// which is the name of the host, or empty where the system gives none.
#[verifier::external_body]
fn host_name() -> (name: String)
{
    hostname::get().unwrap_or_default().to_string_lossy().to_string()
}

/// Calls `num_cpus::get`. Trusted: nothing is claimed of the result,
/// which is the number of logical processors.
#[verifier::external_body]
fn logical_cpus() -> (count: usize)
{
    num_cpus::get()
}

/// The performance metrics of a node that has not been measured, in
/// thousandths.
pub open spec fn default_metrics() -> Seq<(Seq<char>, u64)> {
    seq![
        ("cpu_usage"@, 250u64),
        ("memory_usage"@, 600u64),
        ("disk_usage"@, 450u64),
        ("network_latency"@, 15_000u64),
    ]
}

/// The names of the default metrics are four different names.
proof fn lemma_metric_names_differ()
    ensures
        "cpu_usage"@ != "memory_usage"@,
        "cpu_usage"@ != "disk_usage"@,
        "cpu_usage"@ != "network_latency"@,
        "memory_usage"@ != "disk_usage"@,
        "memory_usage"@ != "network_latency"@,
        "disk_usage"@ != "network_latency"@,
{
    reveal_strlit("cpu_usage");
    reveal_strlit("memory_usage");
    reveal_strlit("disk_usage");
    reveal_strlit("network_latency");
    assert("cpu_usage"@.len() == 9);
    assert("memory_usage"@.len() == 12);
    assert("disk_usage"@.len() == 10);
    assert("network_latency"@.len() == 15);
}

impl NodeProfiler {
    /// A profiler for the node `node_id`.
    pub fn new(node_id: String) -> (profiler: Self)
        ensures
            profiler.node_id == node_id,
    {
        NodeProfiler { node_id }
    }

    /// The profile of this node: the name of the host, what it offers and
    /// how it performs.
    pub fn profile_system(&self) -> (profile: NodeProfile)
        ensures
            profile.node_id == self.node_id,
            profile.capabilities == (NodeCapabilities {
                cpu_cores: profile.capabilities.cpu_cores,
                ..Self::default_capabilities()
            }),
            profile.performance_metrics.entries() == default_metrics(),
    {
        let hostname = host_name();
        let capabilities = self.measure_capabilities();
        let performance_metrics = self.measure_performance();
        NodeProfile { node_id: self.node_id.clone(), hostname, capabilities, performance_metrics }
    }

    /// What a node offers where nothing was measured; the number of
    /// processors is left at zero.
    pub open spec fn default_capabilities() -> NodeCapabilities {
        NodeCapabilities {
            storage_gb: 1000,
            compute_flops: 1_000_000_000,
            bandwidth_mbps: 100,
            memory_gb: 16,
            cpu_cores: 0,
            gpu_memory_gb: 8,
        }
    }

    /// What this node offers: defaults, but for the number of processors,
    /// which is counted.
    pub fn measure_capabilities(&self) -> (capabilities: NodeCapabilities)
        ensures
            capabilities == (NodeCapabilities {
                cpu_cores: capabilities.cpu_cores,
                ..Self::default_capabilities()
            }),
    {
        let storage_gb = self.measure_storage();
        let compute_flops = self.measure_compute();
        let bandwidth_mbps = self.measure_bandwidth();
        let memory_gb = self.measure_memory();
        let cpu_cores = self.measure_cpu_cores();
        let gpu_memory_gb = self.measure_gpu_memory();
        NodeCapabilities {
            storage_gb,
            compute_flops,
            bandwidth_mbps,
            memory_gb,
            cpu_cores,
            gpu_memory_gb,
        }
    }

    /// The storage in gigabytes.
    pub fn measure_storage(&self) -> (gigabytes: u64)
        ensures
            gigabytes == 1000,
    {
        1000
    }

    /// The compute power in operations per second.
    pub fn measure_compute(&self) -> (flops: u64)
        ensures
            flops == 1_000_000_000,
    {
        1_000_000_000
    }

    /// The bandwidth in megabits per second.
    pub fn measure_bandwidth(&self) -> (mbps: u64)
        ensures
            mbps == 100,
    {
        100
    }

    /// The memory in gigabytes.
    pub fn measure_memory(&self) -> (gigabytes: u64)
        ensures
            gigabytes == 16,
    {
        16
    }

    /// A count of processors cut to 32 bits: what is left of it after
    /// whole multiples of two to the power of 32 are taken away.
    pub fn cpu_cores_from(count: usize) -> (cores: u32)
        ensures
            cores == count as int % 0x1_0000_0000,
    {
        let wide = count as u64;
        assert((wide as u32) as u64 == wide % 0x1_0000_0000) by (bit_vector);
        #[verifier::truncate]
        (wide as u32)
    }

    /// The number of logical processors, cut to 32 bits. How many the
    /// machine has is open; `cpu_cores_from` says what is made of the
    /// count.
    pub fn measure_cpu_cores(&self) -> (cores: u32)
    {
        Self::cpu_cores_from(logical_cpus())
    }

    /// The graphics memory in gigabytes.
    pub fn measure_gpu_memory(&self) -> (gigabytes: u64)
        ensures
            gigabytes == 8,
    {
        8
    }

    /// The performance metrics, in thousandths.
    pub fn measure_performance(&self) -> (metrics: Registry<u64>)
        ensures
            metrics.entries() == default_metrics(),
    {
        let mut metrics: Registry<u64> = Registry::new();
        proof {
            lemma_metric_names_differ();
            lemma_upsert_fresh(metrics.entries(), "cpu_usage"@, 250u64);
        }
        metrics.insert("cpu_usage".to_owned(), 250);
        proof {
            lemma_upsert_fresh(metrics.entries(), "memory_usage"@, 600u64);
        }
        metrics.insert("memory_usage".to_owned(), 600);
        proof {
            lemma_upsert_fresh(metrics.entries(), "disk_usage"@, 450u64);
        }
        metrics.insert("disk_usage".to_owned(), 450);
        proof {
            lemma_upsert_fresh(metrics.entries(), "network_latency"@, 15_000u64);
        }
        metrics.insert("network_latency".to_owned(), 15_000);
        assert(metrics.entries() =~= default_metrics());
        metrics
    }
}

} // verus!
