use vstd::prelude::*;

verus! {

/// The part that a node plays in its network.
#[derive(Clone, Copy, Debug, PartialEq, Eq, Structural)]
pub enum Role {
    /// Follows the chain.
    Full,
    /// Follows the chain and takes part in consensus.
    Authority,
}

impl Role {
    /// Whether a node of this role takes part in consensus.
    pub open spec fn spec_is_authority(self) -> bool {
        self is Authority
    }

    /// Whether a node of this role takes part in consensus.
    #[verifier::when_used_as_spec(spec_is_authority)]
    pub fn is_authority(self) -> (r: bool)
        ensures
            r == self.is_authority(),
    {
        match self {
            Role::Full => false,
            Role::Authority => true,
        }
    }
}

/// How compiled runtimes get a fresh memory.
#[derive(Clone, Copy, Debug, PartialEq, Eq, Structural)]
pub enum InstantiationStrategy {
    PoolingCopyOnWrite,
    RecreateInstanceCopyOnWrite,
    Pooling,
    RecreateInstance,
    LegacyInstanceReuse,
}

/// How the executor runs runtimes.
#[derive(Clone, Copy, Debug, PartialEq, Eq, Structural)]
pub enum WasmExecutionMethod {
    Interpreted,
    Compiled(InstantiationStrategy),
}

/// A server that telemetry is sent to.
#[derive(Debug, PartialEq, Eq)]
pub struct TelemetryEndpoint {
    pub address: String,
    pub verbosity: u8,
}

/// What the startup reads of the node's configuration.
#[derive(Debug, PartialEq, Eq)]
pub struct Configuration {
    /// Where the database lies, if it lies on disk.
    pub database_path: Option<String>,
    /// The remote keystore that the operator asks for.
    pub keystore_remote: Option<String>,
    /// The servers that telemetry is sent to.
    pub telemetry_endpoints: Option<Vec<TelemetryEndpoint>>,
    /// How the executor runs runtimes.
    pub wasm_method: WasmExecutionMethod,
    /// Heap pages of the executor, where they are not left to its default.
    pub default_heap_pages: Option<u64>,
    /// How many runtime instances the executor keeps at most.
    pub max_runtime_instances: usize,
    /// How many runtimes the executor caches.
    pub runtime_cache_size: u8,
    /// Whether offchain workers run.
    pub offchain_worker_enabled: bool,
    /// The node's role.
    pub role: Role,
    /// Whether blocks are authored even while the node is offline.
    pub force_authoring: bool,
    /// The node's name in the network.
    pub node_name: String,
    /// Whether the finality gadget is switched off.
    pub disable_grandpa: bool,
    /// Whether metrics are kept, in a registry of the configuration.
    pub prometheus_enabled: bool,
}

impl Configuration {
    /// Telemetry runs when there is a server to send it to.
    pub open spec fn spec_telemetry_enabled(&self) -> bool {
        self.telemetry_endpoints is Some && self.telemetry_endpoints->0@.len() > 0
    }

    /// Whether telemetry runs: a list of servers is configured, and it is not empty.
    #[verifier::when_used_as_spec(spec_telemetry_enabled)]
    pub fn telemetry_enabled(&self) -> (r: bool)
        ensures
            r == self.telemetry_enabled(),
    {
        match &self.telemetry_endpoints {
            Some(endpoints) => endpoints.len() > 0,
            None => false,
        }
    }

    /// Hardware is benchmarked on the database's disk, unless that is switched off.
    pub open spec fn spec_benchmarks_hardware(&self, disable_hardware_benchmarks: bool) -> bool {
        !disable_hardware_benchmarks && self.database_path is Some
    }

    /// Whether the startup benchmarks the hardware: it is not switched off, and the database lies on
    /// disk.
    #[verifier::when_used_as_spec(spec_benchmarks_hardware)]
    pub fn benchmarks_hardware(&self, disable_hardware_benchmarks: bool) -> (r: bool)
        ensures
            r == self.benchmarks_hardware(disable_hardware_benchmarks),
    {
        !disable_hardware_benchmarks && self.database_path.is_some()
    }
}

} // verus!
