//! What a driver is asked to do at each stage of a startup.
use vstd::prelude::*;

use crate::config::{Configuration, Role, TelemetryEndpoint, WasmExecutionMethod};
use crate::plan::Stage;

verus! {

/// How many messages a telemetry worker holds before it drops some.
pub const TELEMETRY_BUFFER_SIZE: usize = 16;

/// The number of the block that the finality gadget's protocol is named after.
pub const GENESIS_BLOCK: u32 = 0;

/// How a future is handed to the task manager.
#[derive(Clone, Copy, Debug, PartialEq, Eq)]
pub struct Task {
    pub name: &'static str,
    pub group: Option<&'static str>,
    /// If the task ends, the service goes down with it.
    pub essential: bool,
    /// The task runs where it may block.
    pub blocking: bool,
}

/// Which of the task manager's handles a component spawns its tasks by.
#[derive(Clone, Copy, Debug, PartialEq, Eq, Structural)]
pub enum Spawner {
    /// The service outlives the tasks.
    Ordinary,
    /// If a task ends, the service goes down with it.
    Essential,
}

/// What blocks are imported through.
#[derive(Clone, Copy, Debug, PartialEq, Eq, Structural)]
pub enum BlockImport {
    /// The client itself.
    Client,
    /// The finality gadget's block import, which hands them on to the client.
    Gadget,
}

/// When a node holds itself able to author on the chain's runtime.
#[derive(Clone, Copy, Debug, PartialEq, Eq, Structural)]
pub enum CanAuthorWith {
    /// When the native runtime of the client's executor is able to.
    NativeVersion,
    Always,
    Never,
}

/// What a component looks to for the state of the network.
#[derive(Clone, Copy, Debug, PartialEq, Eq, Structural)]
pub enum NetworkLink {
    /// The service's network.
    Network,
    /// Nothing: it works as if there were no network.
    Offline,
}

/// Which blocks the finality gadget's voter may vote for.
#[derive(Clone, Copy, Debug, PartialEq, Eq, Structural)]
pub enum VotingRules {
    /// Those that the gadget's own rules allow.
    Standard,
    /// All of them.
    Unrestricted,
}

/// A part of a slot.
#[derive(Clone, Copy, Debug, PartialEq, Eq, Structural)]
pub struct SlotPortion {
    pub numerator: u32,
    pub denominator: u32,
}

/// How blocks are checked and imported.
#[derive(Clone, Copy, Debug, PartialEq, Eq)]
pub struct ImportQueueParams {
    /// In milliseconds.
    pub slot_duration: u64,
    /// What blocks are imported through.
    pub block_import: BlockImport,
    /// What the justifications of blocks are imported through, if they are imported.
    pub justification_import: Option<BlockImport>,
    pub spawner: Spawner,
    pub can_author_with: CanAuthorWith,
    /// Whether blocks are checked for equivocation, where that is not left to the queue's default.
    pub check_for_equivocation: Option<bool>,
    /// Whether the queue keeps metrics.
    pub prometheus: bool,
    /// Whether imports are reported to telemetry.
    pub telemetry: bool,
}

/// How blocks are authored.
#[derive(Clone, Copy, Debug, PartialEq, Eq)]
pub struct AuraParams {
    /// In milliseconds.
    pub slot_duration: u64,
    /// What authored blocks are imported through.
    pub block_import: BlockImport,
    pub force_authoring: bool,
    /// A strategy by which authoring backs off when finality lags.
    pub backoff_authoring_blocks: Option<()>,
    /// Whether the authoring task gets the keystore.
    pub keystore: bool,
    pub can_author_with: CanAuthorWith,
    /// What tells whether the node is offline or still catches up.
    pub sync_oracle: NetworkLink,
    /// What justifications are asked of.
    pub justification_sync_link: NetworkLink,
    /// The part of a slot that goes into proposing a block.
    pub block_proposal_slot_portion: SlotPortion,
    /// The part that may go into it when slots were missed.
    pub max_block_proposal_slot_portion: Option<SlotPortion>,
    /// Whether authoring is reported to telemetry.
    pub telemetry: bool,
}

/// How the finality gadget votes.
#[derive(Debug, PartialEq, Eq)]
pub struct GrandpaConfig<'a> {
    /// How long a round of gossip takes, in milliseconds.
    pub gossip_duration: u64,
    /// A justification is kept every this many blocks.
    pub justification_period: u32,
    /// The voter's name.
    pub name: Option<&'a String>,
    pub observer_enabled: bool,
    /// Whether the voter gets the keystore.
    pub keystore: bool,
    pub local_role: Role,
    /// Whether votes are reported to telemetry.
    pub telemetry: bool,
    pub protocol_name: String,
}

/// What the finality gadget's voter is built with.
#[derive(Debug, PartialEq, Eq)]
pub struct VoterParams<'a> {
    pub config: GrandpaConfig<'a>,
    /// What votes are exchanged over.
    pub network: NetworkLink,
    pub voting_rules: VotingRules,
    /// Whether the voter keeps metrics.
    pub prometheus: bool,
    /// Whether the state of the voter is shared with another component.
    pub shared_voter_state: bool,
    /// Whether the voter reports to telemetry.
    pub telemetry: bool,
}

/// One action of a driver.
#[derive(Debug, PartialEq, Eq)]
pub enum Action<'a> {
    /// Make the directory, with those above it.
    CreateDatabaseDir { path: &'a String },
    /// Measure the hardware, the disk at `path`.
    GatherBenchmarks { path: &'a String },
    /// Start a telemetry worker, and with it telemetry to the endpoints.
    StartTelemetry { buffer_size: usize, endpoints: &'a Vec<TelemetryEndpoint> },
    /// Build the executor.
    BuildExecutor {
        wasm_method: WasmExecutionMethod,
        default_heap_pages: Option<u64>,
        max_runtime_instances: usize,
        runtime_cache_size: u8,
    },
    /// Build client, backend, keystore and task manager.
    BuildParts { telemetry: bool },
    /// Hand the future of that name to the task manager.
    Spawn(Task),
    /// Select the longest chain of the backend.
    SelectChain,
    /// Build the transaction pool, with the configured limits.
    BuildPool { is_validator: bool, prometheus: bool, spawner: Spawner },
    /// Build the finality gadget's two halves: its block import, over the client and the selected chain,
    /// and the link that its voter takes.
    BuildBlockImport { telemetry: bool },
    /// Ask the runtime for the slot duration.
    ReadSlotDuration,
    /// Build the import queue.
    BuildImportQueue(ImportQueueParams),
    /// Name the finality gadget's protocol after the chain and the hash of a block.
    NameProtocol { block: u32 },
    /// Add the finality gadget's set of peers to the network's.
    AddPeersSet { protocol_name: String },
    /// Build the warp sync provider, over the authority set of the finality gadget's link and so many
    /// hard forks of it.
    BuildWarpSync { hard_forks: usize },
    /// Build the network, with the warp sync provider if `warp_sync`, and with a validator of block
    /// announcements if `block_announce_validator`.
    BuildNetwork { spawner: Spawner, warp_sync: bool, block_announce_validator: bool },
    /// Start the offchain workers.
    BuildOffchainWorkers { spawner: Spawner },
    /// Start the service's own tasks, with the keystore if `keystore`.
    SpawnTasks { keystore: bool, telemetry: bool },
    /// Print what was measured of the hardware.
    PrintBenchmarks,
    /// Build the proposer of blocks.
    BuildProposer { spawner: Spawner, prometheus: bool, telemetry: bool },
    /// Build the authoring task.
    StartAura(AuraParams),
    /// Build the finality gadget's voter.
    RunVoter(VoterParams<'a>),
    /// Let the network run.
    StartNetwork,
}

/// The task that reports to telemetry.
pub open spec fn spec_telemetry_task() -> Task {
    Task { name: "telemetry", group: None, essential: false, blocking: false }
}

/// The task that reports the hardware's measurements to telemetry.
pub open spec fn spec_benchmark_telemetry_task() -> Task {
    Task { name: "telemetry_hwbench", group: None, essential: false, blocking: false }
}

/// The authoring task. It is essential: if it fails, the service goes down with it.
pub open spec fn spec_aura_task() -> Task {
    Task { name: "aura", group: Some("block-authoring"), essential: true, blocking: true }
}

/// The finality gadget's voter. It is essential: if it fails, the service goes down with it.
pub open spec fn spec_voter_task() -> Task {
    Task { name: "grandpa-voter", group: None, essential: true, blocking: true }
}

/// How blocks are checked and imported under `config`: they and their justifications go through the
/// finality gadget.
pub open spec fn spec_import_queue_params(
    config: &Configuration,
    slot_duration: u64,
) -> ImportQueueParams {
    ImportQueueParams {
        slot_duration,
        block_import: BlockImport::Gadget,
        justification_import: Some(BlockImport::Gadget),
        spawner: Spawner::Essential,
        can_author_with: CanAuthorWith::NativeVersion,
        check_for_equivocation: None,
        prometheus: config.prometheus_enabled,
        telemetry: config.telemetry_enabled(),
    }
}

/// How blocks are authored under `config`.
pub open spec fn spec_aura_params(config: &Configuration, slot_duration: u64) -> AuraParams {
    AuraParams {
        slot_duration,
        block_import: BlockImport::Gadget,
        force_authoring: config.force_authoring,
        backoff_authoring_blocks: None,
        keystore: true,
        can_author_with: CanAuthorWith::NativeVersion,
        sync_oracle: NetworkLink::Network,
        justification_sync_link: NetworkLink::Network,
        block_proposal_slot_portion: SlotPortion { numerator: 2, denominator: 3 },
        max_block_proposal_slot_portion: None,
        telemetry: config.telemetry_enabled(),
    }
}

/// How the finality gadget votes under `config`. The voter gets the keystore only on a node that takes
/// part in consensus.
pub open spec fn spec_grandpa_config<'a>(
    config: &'a Configuration,
    protocol_name: String,
) -> GrandpaConfig<'a> {
    GrandpaConfig {
        gossip_duration: 333,
        justification_period: 512,
        name: Some(&config.node_name),
        observer_enabled: false,
        keystore: config.role.is_authority(),
        local_role: config.role,
        telemetry: config.telemetry_enabled(),
        protocol_name,
    }
}

/// What the voter is built with under `config`.
pub open spec fn spec_voter_params<'a>(
    config: &'a Configuration,
    protocol_name: String,
) -> VoterParams<'a> {
    VoterParams {
        config: grandpa_config(config, protocol_name),
        network: NetworkLink::Network,
        voting_rules: VotingRules::Standard,
        prometheus: config.prometheus_enabled,
        shared_voter_state: false,
        telemetry: config.telemetry_enabled(),
    }
}

/// How blocks are checked and imported under `config`, in slots of `slot_duration` milliseconds.
#[verifier::when_used_as_spec(spec_import_queue_params)]
pub fn import_queue_params(config: &Configuration, slot_duration: u64) -> (r: ImportQueueParams)
    ensures
        r == import_queue_params(config, slot_duration),
{
    ImportQueueParams {
        slot_duration,
        block_import: BlockImport::Gadget,
        justification_import: Some(BlockImport::Gadget),
        spawner: Spawner::Essential,
        can_author_with: CanAuthorWith::NativeVersion,
        check_for_equivocation: None,
        prometheus: config.prometheus_enabled,
        telemetry: config.telemetry_enabled(),
    }
}

/// How blocks are authored under `config`, in slots of `slot_duration` milliseconds.
#[verifier::when_used_as_spec(spec_aura_params)]
pub fn aura_params(config: &Configuration, slot_duration: u64) -> (r: AuraParams)
    ensures
        r == aura_params(config, slot_duration),
{
    AuraParams {
        slot_duration,
        block_import: BlockImport::Gadget,
        force_authoring: config.force_authoring,
        backoff_authoring_blocks: None,
        keystore: true,
        can_author_with: CanAuthorWith::NativeVersion,
        sync_oracle: NetworkLink::Network,
        justification_sync_link: NetworkLink::Network,
        block_proposal_slot_portion: SlotPortion { numerator: 2, denominator: 3 },
        max_block_proposal_slot_portion: None,
        telemetry: config.telemetry_enabled(),
    }
}

/// How the finality gadget votes under `config`.
#[verifier::when_used_as_spec(spec_grandpa_config)]
pub fn grandpa_config<'a>(config: &'a Configuration, protocol_name: String) -> (r: GrandpaConfig<'a>)
    ensures
        r == grandpa_config(config, protocol_name),
{
    GrandpaConfig {
        gossip_duration: 333,
        justification_period: 512,
        name: Some(&config.node_name),
        observer_enabled: false,
        keystore: config.role.is_authority(),
        local_role: config.role,
        telemetry: config.telemetry_enabled(),
        protocol_name,
    }
}

/// What the voter is built with under `config`.
#[verifier::when_used_as_spec(spec_voter_params)]
pub fn voter_params<'a>(config: &'a Configuration, protocol_name: String) -> (r: VoterParams<'a>)
    ensures
        r == voter_params(config, protocol_name),
{
    VoterParams {
        config: grandpa_config(config, protocol_name),
        network: NetworkLink::Network,
        voting_rules: VotingRules::Standard,
        prometheus: config.prometheus_enabled,
        shared_voter_state: false,
        telemetry: config.telemetry_enabled(),
    }
}

/// What has come back from earlier actions.
#[derive(Debug, PartialEq, Eq)]
pub struct Known {
    /// The name of the finality gadget's protocol.
    pub protocol_name: Option<String>,
    /// The slot duration that was read last, in milliseconds.
    pub slot_duration: Option<u64>,
}

/// Whether the action of a stage can be told.
pub open spec fn can_act(config: &Configuration, known: Known, stage: Stage) -> bool {
    &&& stage is CreateDatabaseDir || stage is GatherBenchmarks ==> config.database_path is Some
    &&& stage is StartTelemetry ==> config.telemetry_endpoints is Some
    &&& stage is BuildImportQueue || stage is StartAura ==> known.slot_duration is Some
    &&& stage is AddPeersSet || stage is RunVoter ==> known.protocol_name is Some
}

/// The action of a stage.
pub open spec fn spec_action<'a>(config: &'a Configuration, known: Known, stage: Stage) -> Action<'a> {
    let telemetry = config.telemetry_enabled();
    match stage {
        Stage::CreateDatabaseDir => Action::CreateDatabaseDir { path: &config.database_path->0 },
        Stage::GatherBenchmarks => Action::GatherBenchmarks { path: &config.database_path->0 },
        Stage::StartTelemetry => Action::StartTelemetry {
            buffer_size: TELEMETRY_BUFFER_SIZE,
            endpoints: &config.telemetry_endpoints->0,
        },
        Stage::BuildExecutor => Action::BuildExecutor {
            wasm_method: config.wasm_method,
            default_heap_pages: config.default_heap_pages,
            max_runtime_instances: config.max_runtime_instances,
            runtime_cache_size: config.runtime_cache_size,
        },
        Stage::BuildParts => Action::BuildParts { telemetry },
        Stage::SpawnTelemetry => Action::Spawn(spec_telemetry_task()),
        Stage::SelectChain => Action::SelectChain,
        Stage::BuildPool => Action::BuildPool {
            is_validator: config.role.is_authority(),
            prometheus: config.prometheus_enabled,
            spawner: Spawner::Essential,
        },
        Stage::BuildBlockImport => Action::BuildBlockImport { telemetry },
        Stage::ReadImportSlotDuration | Stage::ReadAuthoringSlotDuration => Action::ReadSlotDuration,
        Stage::BuildImportQueue => Action::BuildImportQueue(
            import_queue_params(config, known.slot_duration->0),
        ),
        Stage::NameProtocol => Action::NameProtocol { block: GENESIS_BLOCK },
        Stage::AddPeersSet => Action::AddPeersSet { protocol_name: known.protocol_name->0 },
        Stage::BuildWarpSync => Action::BuildWarpSync { hard_forks: 0 },
        Stage::BuildNetwork => Action::BuildNetwork {
            spawner: Spawner::Ordinary,
            warp_sync: true,
            block_announce_validator: false,
        },
        Stage::BuildOffchainWorkers => Action::BuildOffchainWorkers { spawner: Spawner::Ordinary },
        Stage::SpawnTasks => Action::SpawnTasks { keystore: true, telemetry },
        Stage::PrintBenchmarks => Action::PrintBenchmarks,
        Stage::SpawnBenchmarkTelemetry => Action::Spawn(spec_benchmark_telemetry_task()),
        Stage::BuildProposer => Action::BuildProposer {
            spawner: Spawner::Ordinary,
            prometheus: config.prometheus_enabled,
            telemetry,
        },
        Stage::StartAura => Action::StartAura(aura_params(config, known.slot_duration->0)),
        Stage::SpawnAura => Action::Spawn(spec_aura_task()),
        Stage::RunVoter => Action::RunVoter(voter_params(config, known.protocol_name->0)),
        Stage::SpawnVoter => Action::Spawn(spec_voter_task()),
        Stage::StartNetwork => Action::StartNetwork,
    }
}

/// The action of a stage, or nothing where an earlier action's result is missing.
pub fn action<'a>(config: &'a Configuration, known: &Known, stage: Stage) -> (r: Option<Action<'a>>)
    ensures
        r == (if can_act(config, *known, stage) {
            Some(spec_action(config, *known, stage))
        } else {
            None
        }),
{
    let telemetry = config.telemetry_enabled();
    let action = match stage {
        Stage::CreateDatabaseDir => match &config.database_path {
            Some(path) => Action::CreateDatabaseDir { path },
            None => return None,
        },
        Stage::GatherBenchmarks => match &config.database_path {
            Some(path) => Action::GatherBenchmarks { path },
            None => return None,
        },
        Stage::StartTelemetry => match &config.telemetry_endpoints {
            Some(endpoints) => Action::StartTelemetry {
                buffer_size: TELEMETRY_BUFFER_SIZE,
                endpoints,
            },
            None => return None,
        },
        Stage::BuildExecutor => Action::BuildExecutor {
            wasm_method: config.wasm_method,
            default_heap_pages: config.default_heap_pages,
            max_runtime_instances: config.max_runtime_instances,
            runtime_cache_size: config.runtime_cache_size,
        },
        Stage::BuildParts => Action::BuildParts { telemetry },
        Stage::SpawnTelemetry => Action::Spawn(
            Task { name: "telemetry", group: None, essential: false, blocking: false },
        ),
        Stage::SelectChain => Action::SelectChain,
        Stage::BuildPool => Action::BuildPool {
            is_validator: config.role.is_authority(),
            prometheus: config.prometheus_enabled,
            spawner: Spawner::Essential,
        },
        Stage::BuildBlockImport => Action::BuildBlockImport { telemetry },
        Stage::ReadImportSlotDuration | Stage::ReadAuthoringSlotDuration => Action::ReadSlotDuration,
        Stage::BuildImportQueue => match known.slot_duration {
            Some(slot_duration) => Action::BuildImportQueue(
                import_queue_params(config, slot_duration),
            ),
            None => return None,
        },
        Stage::NameProtocol => Action::NameProtocol { block: GENESIS_BLOCK },
        Stage::AddPeersSet => match &known.protocol_name {
            Some(name) => Action::AddPeersSet { protocol_name: name.clone() },
            None => return None,
        },
        Stage::BuildWarpSync => Action::BuildWarpSync { hard_forks: 0 },
        Stage::BuildNetwork => Action::BuildNetwork {
            spawner: Spawner::Ordinary,
            warp_sync: true,
            block_announce_validator: false,
        },
        Stage::BuildOffchainWorkers => Action::BuildOffchainWorkers { spawner: Spawner::Ordinary },
        Stage::SpawnTasks => Action::SpawnTasks { keystore: true, telemetry },
        Stage::PrintBenchmarks => Action::PrintBenchmarks,
        Stage::SpawnBenchmarkTelemetry => Action::Spawn(
            Task { name: "telemetry_hwbench", group: None, essential: false, blocking: false },
        ),
        Stage::BuildProposer => Action::BuildProposer {
            spawner: Spawner::Ordinary,
            prometheus: config.prometheus_enabled,
            telemetry,
        },
        Stage::StartAura => match known.slot_duration {
            Some(slot_duration) => Action::StartAura(aura_params(config, slot_duration)),
            None => return None,
        },
        Stage::SpawnAura => Action::Spawn(
            Task { name: "aura", group: Some("block-authoring"), essential: true, blocking: true },
        ),
        Stage::RunVoter => match &known.protocol_name {
            Some(name) => Action::RunVoter(voter_params(config, name.clone())),
            None => return None,
        },
        Stage::SpawnVoter => Action::Spawn(
            Task { name: "grandpa-voter", group: None, essential: true, blocking: true },
        ),
        Stage::StartNetwork => Action::StartNetwork,
    };
    Some(action)
}

} // verus!
