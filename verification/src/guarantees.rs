//! What an operator may rely on, in terms of the settings themselves: what a startup does with each of
//! them, and what it does whatever they are.
use vstd::prelude::*;

use crate::actions::{
    aura_params, can_act, grandpa_config, import_queue_params, spec_action, voter_params, Action,
    BlockImport, CanAuthorWith, Known, NetworkLink, Spawner, VotingRules,
};
use crate::config::{Configuration, Role};
use crate::error::ServiceError;
use crate::laws::{lemma_run, reported, run};
use crate::plan::{in_order, law_full_plan_stages, law_partial_plan_stages, Stage};
use crate::service_standalone::{
    full_startup, lemma_full_startup_wf, lemma_partial_startup_wf, partial_startup,
};
use crate::startup::{Next, Outcome, StartupState};

verus! {

/// In a plan in order, no stage comes twice, and the stages lie as in the list of them all.
proof fn lemma_order(plan: Seq<Stage>, order: Seq<Stage>)
    requires
        in_order(plan),
        forall|a: int| 0 <= a < order.len() ==> (#[trigger] order[a]).rank() == a,
    ensures
        forall|i: int, j: int|
            0 <= i < plan.len() && 0 <= j < plan.len() && plan[i] == plan[j] ==> i == j,
        forall|i: int, j: int, a: int, b: int|
            0 <= i < plan.len() && 0 <= j < plan.len() && 0 <= a < b < order.len()
                && #[trigger] plan[i] == #[trigger] order[a] && #[trigger] plan[j]
                == #[trigger] order[b] ==> i < j,
{
    assert forall|i: int, j: int|
        0 <= i < plan.len() && 0 <= j < plan.len() && plan[i] == plan[j] implies i == j by {
        assert(!(i < j) && !(j < i));
    }
    assert forall|i: int, j: int, a: int, b: int|
        0 <= i < plan.len() && 0 <= j < plan.len() && 0 <= a < b < order.len()
            && #[trigger] plan[i] == #[trigger] order[a] && #[trigger] plan[j]
            == #[trigger] order[b] implies i < j by {
        assert(plan[i].rank() < plan[j].rank());
        assert(!(j < i));
    }
}

/// Whatever the settings, the work of both startups is done in one order, and no work is done twice.
pub proof fn law_order_of_work(config: &Configuration, disable_hardware_benchmarks: bool)
    ensures
        ({
            let order = seq![
                Stage::CreateDatabaseDir,
                Stage::GatherBenchmarks,
                Stage::StartTelemetry,
                Stage::BuildExecutor,
                Stage::BuildParts,
                Stage::SpawnTelemetry,
                Stage::SelectChain,
                Stage::BuildPool,
                Stage::BuildBlockImport,
                Stage::ReadImportSlotDuration,
                Stage::BuildImportQueue,
                Stage::NameProtocol,
                Stage::AddPeersSet,
                Stage::BuildWarpSync,
                Stage::BuildNetwork,
                Stage::BuildOffchainWorkers,
                Stage::SpawnTasks,
                Stage::PrintBenchmarks,
                Stage::SpawnBenchmarkTelemetry,
                Stage::BuildProposer,
                Stage::ReadAuthoringSlotDuration,
                Stage::StartAura,
                Stage::SpawnAura,
                Stage::RunVoter,
                Stage::SpawnVoter,
                Stage::StartNetwork,
            ];
            let full = full_startup(config, disable_hardware_benchmarks).plan;
            let partial = partial_startup(config).plan;
            &&& forall|i: int, j: int|
                0 <= i < full.len() && 0 <= j < full.len() && full[i] == full[j] ==> i == j
            &&& forall|i: int, j: int|
                0 <= i < partial.len() && 0 <= j < partial.len() && partial[i] == partial[j] ==> i
                    == j
            &&& forall|i: int, j: int, a: int, b: int|
                0 <= i < full.len() && 0 <= j < full.len() && 0 <= a < b < order.len()
                    && #[trigger] full[i] == #[trigger] order[a] && #[trigger] full[j]
                    == #[trigger] order[b] ==> i < j
            &&& forall|i: int, j: int, a: int, b: int|
                0 <= i < partial.len() && 0 <= j < partial.len() && 0 <= a < b < order.len()
                    && #[trigger] partial[i] == #[trigger] order[a] && #[trigger] partial[j]
                    == #[trigger] order[b] ==> i < j
        }),
{
    let order = seq![
        Stage::CreateDatabaseDir,
        Stage::GatherBenchmarks,
        Stage::StartTelemetry,
        Stage::BuildExecutor,
        Stage::BuildParts,
        Stage::SpawnTelemetry,
        Stage::SelectChain,
        Stage::BuildPool,
        Stage::BuildBlockImport,
        Stage::ReadImportSlotDuration,
        Stage::BuildImportQueue,
        Stage::NameProtocol,
        Stage::AddPeersSet,
        Stage::BuildWarpSync,
        Stage::BuildNetwork,
        Stage::BuildOffchainWorkers,
        Stage::SpawnTasks,
        Stage::PrintBenchmarks,
        Stage::SpawnBenchmarkTelemetry,
        Stage::BuildProposer,
        Stage::ReadAuthoringSlotDuration,
        Stage::StartAura,
        Stage::SpawnAura,
        Stage::RunVoter,
        Stage::SpawnVoter,
        Stage::StartNetwork,
    ];
    assert(forall|a: int| 0 <= a < order.len() ==> (#[trigger] order[a]).rank() == a);
    lemma_full_startup_wf(config, disable_hardware_benchmarks);
    lemma_partial_startup_wf(config);
    lemma_order(full_startup(config, disable_hardware_benchmarks).plan, order);
    lemma_order(partial_startup(config).plan, order);
}

/// A full service that is not refused does this work and no other. What of it depends on the settings
/// depends on these alone: the hardware is measured where that is not switched off and the database
/// lies on disk, telemetry runs where there is an endpoint, offchain workers where they are enabled,
/// authoring on authorities, the voter where the gadget is not switched off.
pub proof fn law_work_of_a_full_service<'a>(
    config: &'a Configuration,
    disable_hardware_benchmarks: bool,
)
    requires
        config.keystore_remote is None,
    ensures
        ({
            let start = full_startup(config, disable_hardware_benchmarks);
            let measured = !disable_hardware_benchmarks && config.database_path is Some;
            let endpoints = config.telemetry_endpoints is Some
                && config.telemetry_endpoints->0@.len() > 0;
            let authority = config.role == Role::Authority;
            &&& start.config == config
            &&& start.at == 0
            &&& !start.stopped
            &&& start.refusal is None
            &&& start.plan.contains(Stage::CreateDatabaseDir) == measured
            &&& start.plan.contains(Stage::GatherBenchmarks) == measured
            &&& start.plan.contains(Stage::PrintBenchmarks) == measured
            &&& start.plan.contains(Stage::SpawnBenchmarkTelemetry) == (measured && endpoints)
            &&& start.plan.contains(Stage::StartTelemetry) == endpoints
            &&& start.plan.contains(Stage::SpawnTelemetry) == endpoints
            &&& start.plan.contains(Stage::BuildExecutor)
            &&& start.plan.contains(Stage::BuildParts)
            &&& start.plan.contains(Stage::SelectChain)
            &&& start.plan.contains(Stage::BuildPool)
            &&& start.plan.contains(Stage::BuildBlockImport)
            &&& start.plan.contains(Stage::ReadImportSlotDuration)
            &&& start.plan.contains(Stage::BuildImportQueue)
            &&& start.plan.contains(Stage::NameProtocol)
            &&& start.plan.contains(Stage::AddPeersSet)
            &&& start.plan.contains(Stage::BuildWarpSync)
            &&& start.plan.contains(Stage::BuildNetwork)
            &&& start.plan.contains(Stage::BuildOffchainWorkers) == config.offchain_worker_enabled
            &&& start.plan.contains(Stage::SpawnTasks)
            &&& start.plan.contains(Stage::BuildProposer) == authority
            &&& start.plan.contains(Stage::ReadAuthoringSlotDuration) == authority
            &&& start.plan.contains(Stage::StartAura) == authority
            &&& start.plan.contains(Stage::SpawnAura) == authority
            &&& start.plan.contains(Stage::RunVoter) == !config.disable_grandpa
            &&& start.plan.contains(Stage::SpawnVoter) == !config.disable_grandpa
            &&& start.plan.contains(Stage::StartNetwork)
        }),
{
    law_full_plan_stages(config, disable_hardware_benchmarks);
}

/// Who asks for a remote keystore has the hardware measured, where that is not switched off and the
/// database lies on disk, and is then refused in these words.
pub proof fn law_work_of_a_refused_service<'a>(
    config: &'a Configuration,
    disable_hardware_benchmarks: bool,
)
    requires
        config.keystore_remote is Some,
    ensures
        ({
            let start = full_startup(config, disable_hardware_benchmarks);
            &&& start.config == config
            &&& start.at == 0
            &&& !start.stopped
            &&& start.refusal == Some("Remote Keystores are not supported."@)
            &&& forall|s: Stage| #[trigger]
                start.plan.contains(s) <==> {
                    &&& s == Stage::CreateDatabaseDir || s == Stage::GatherBenchmarks
                    &&& !disable_hardware_benchmarks
                    &&& config.database_path is Some
                }
        }),
{
    let plan = full_startup(config, disable_hardware_benchmarks).plan;
    if !disable_hardware_benchmarks && config.database_path is Some {
        assert(plan[0] == Stage::CreateDatabaseDir && plan[1] == Stage::GatherBenchmarks);
    }
}

/// The startup of components does this work and no other: telemetry runs where there is an endpoint,
/// whatever the other settings, and neither the hardware is measured nor anything done beyond the
/// import queue.
pub proof fn law_work_of_the_components<'a>(config: &'a Configuration)
    ensures
        ({
            let start = partial_startup(config);
            let endpoints = config.telemetry_endpoints is Some
                && config.telemetry_endpoints->0@.len() > 0;
            &&& start.config == config
            &&& start.at == 0
            &&& !start.stopped
            &&& start.refusal is None
            &&& start.plan.contains(Stage::StartTelemetry) == endpoints
            &&& start.plan.contains(Stage::SpawnTelemetry) == endpoints
            &&& forall|s: Stage| #[trigger]
                start.plan.contains(s) ==> match s {
                    Stage::StartTelemetry
                    | Stage::BuildExecutor
                    | Stage::BuildParts
                    | Stage::SpawnTelemetry
                    | Stage::SelectChain
                    | Stage::BuildPool
                    | Stage::BuildBlockImport
                    | Stage::ReadImportSlotDuration
                    | Stage::BuildImportQueue => true,
                    _ => false,
                }
            &&& start.plan.contains(Stage::BuildExecutor)
            &&& start.plan.contains(Stage::BuildParts)
            &&& start.plan.contains(Stage::SelectChain)
            &&& start.plan.contains(Stage::BuildPool)
            &&& start.plan.contains(Stage::BuildBlockImport)
            &&& start.plan.contains(Stage::ReadImportSlotDuration)
            &&& start.plan.contains(Stage::BuildImportQueue)
        }),
{
    law_partial_plan_stages(config);
}

/// Where a list of endpoints is configured and not empty, telemetry goes to just these endpoints, and
/// every component is told to report to it; elsewhere none is. No other setting matters.
pub proof fn law_telemetry_goes_by_the_endpoints<'a>(
    config: &'a Configuration,
    known: Known,
    stage: Stage,
)
    ensures
        ({
            let on = config.telemetry_endpoints is Some
                && config.telemetry_endpoints->0@.len() > 0;
            &&& config.telemetry_enabled() == on
            &&& match spec_action(config, known, stage) {
                Action::StartTelemetry { buffer_size, endpoints } => {
                    &&& buffer_size == 16
                    &&& config.telemetry_endpoints is Some ==> *endpoints
                        == config.telemetry_endpoints->0
                },
                Action::BuildParts { telemetry } => telemetry == on,
                Action::BuildBlockImport { telemetry } => telemetry == on,
                Action::BuildImportQueue(params) => params.telemetry == on,
                Action::SpawnTasks { telemetry, .. } => telemetry == on,
                Action::BuildProposer { telemetry, .. } => telemetry == on,
                Action::StartAura(params) => params.telemetry == on,
                Action::RunVoter(params) => params.telemetry == on && params.config.telemetry == on,
                _ => true,
            }
        }),
{
}

/// The hardware is measured where the database lies: its directory is made there, and the disk is
/// measured there. It is measured unless that is switched off or there is no such place; no other
/// setting matters.
pub proof fn law_hardware_is_measured_where_the_database_lies<'a>(
    config: &'a Configuration,
    disable_hardware_benchmarks: bool,
    known: Known,
    place: String,
)
    requires
        config.database_path == Some(place),
    ensures
        config.benchmarks_hardware(disable_hardware_benchmarks) == !disable_hardware_benchmarks,
        spec_action(config, known, Stage::CreateDatabaseDir) == (Action::CreateDatabaseDir {
            path: &place,
        }),
        spec_action(config, known, Stage::GatherBenchmarks) == (Action::GatherBenchmarks {
            path: &place,
        }),
{
}

/// Without a place on disk, nothing is measured.
pub proof fn law_nothing_is_measured_without_a_place(
    config: &Configuration,
    disable_hardware_benchmarks: bool,
)
    requires
        config.database_path is None,
    ensures
        !config.benchmarks_hardware(disable_hardware_benchmarks),
{
}

/// The executor is built by the operator's settings: each of the four reaches it unchanged.
pub proof fn law_executor_goes_by_the_settings<'a>(config: &'a Configuration, known: Known)
    ensures
        spec_action(config, known, Stage::BuildExecutor) matches Action::BuildExecutor {
            wasm_method,
            default_heap_pages,
            max_runtime_instances,
            runtime_cache_size,
        } && {
            &&& wasm_method == config.wasm_method
            &&& default_heap_pages == config.default_heap_pages
            &&& max_runtime_instances == config.max_runtime_instances
            &&& runtime_cache_size == config.runtime_cache_size
        },
{
}

/// Blocks are authored while the node is offline exactly where the operator asked for it. They are
/// authored in slots of the duration that was read; two thirds of a slot go into proposing a block, with
/// no more after missed slots, and authoring never backs off. Authoring has the keystore, goes by the
/// native runtime's version and by the service's network, and imports through the finality gadget.
pub proof fn law_authoring_goes_by_the_settings<'a>(
    config: &'a Configuration,
    known: Known,
    slot_duration: u64,
)
    requires
        known.slot_duration == Some(slot_duration),
    ensures
        spec_action(config, known, Stage::StartAura) matches Action::StartAura(params) && {
            &&& params.force_authoring == config.force_authoring
            &&& params.slot_duration == slot_duration
            &&& params.block_proposal_slot_portion.numerator * 3
                == params.block_proposal_slot_portion.denominator * 2
            &&& params.block_proposal_slot_portion.denominator == 3
            &&& params.max_block_proposal_slot_portion is None
            &&& params.backoff_authoring_blocks is None
            &&& params.keystore
            &&& params.can_author_with == CanAuthorWith::NativeVersion
            &&& params.sync_oracle == NetworkLink::Network
            &&& params.justification_sync_link == NetworkLink::Network
            &&& params.block_import == BlockImport::Gadget
            &&& params == aura_params(config, slot_duration)
        },
{
}

/// The voter votes under the node's name and in its role, has the keystore on authorities alone, speaks
/// the protocol that was named, and is a full voter. Whatever the settings, it keeps to the gadget's
/// own voting rules, votes over the service's network, shares its state with no one, gossips in rounds
/// of 333 milliseconds and keeps a justification every 512 blocks.
pub proof fn law_voting_goes_by_the_settings<'a>(
    config: &'a Configuration,
    known: Known,
    protocol_name: String,
)
    requires
        known.protocol_name == Some(protocol_name),
    ensures
        spec_action(config, known, Stage::RunVoter) matches Action::RunVoter(params) && {
            &&& params.voting_rules == VotingRules::Standard
            &&& params.network == NetworkLink::Network
            &&& !params.shared_voter_state
            &&& params.prometheus == config.prometheus_enabled
            &&& params.config.name == Some(&config.node_name)
            &&& params.config.local_role == config.role
            &&& params.config.keystore == (config.role == Role::Authority)
            &&& params.config.protocol_name == protocol_name
            &&& !params.config.observer_enabled
            &&& params.config.gossip_duration == 333
            &&& params.config.justification_period == 512
            &&& params.config == grandpa_config(config, protocol_name)
            &&& params == voter_params(config, protocol_name)
        },
{
}

/// Blocks and their justifications are imported through the finality gadget, checked in slots of the
/// duration that was read, by the native runtime's version, with the queue's own check for
/// equivocation. The service goes down with the queue's tasks.
pub proof fn law_importing_goes_by_the_settings<'a>(
    config: &'a Configuration,
    known: Known,
    slot_duration: u64,
)
    requires
        known.slot_duration == Some(slot_duration),
    ensures
        spec_action(config, known, Stage::BuildImportQueue) matches Action::BuildImportQueue(params)
            && {
            &&& params.slot_duration == slot_duration
            &&& params.block_import == BlockImport::Gadget
            &&& params.justification_import == Some(BlockImport::Gadget)
            &&& params.spawner == Spawner::Essential
            &&& params.can_author_with == CanAuthorWith::NativeVersion
            &&& params.check_for_equivocation is None
            &&& params.prometheus == config.prometheus_enabled
            &&& params == import_queue_params(config, slot_duration)
        },
{
}

/// The transaction pool is a validator's exactly on authorities, the proposer outlived by the service,
/// and both keep metrics exactly where the operator has a registry.
pub proof fn law_pool_and_proposer_go_by_the_settings<'a>(config: &'a Configuration, known: Known)
    ensures
        spec_action(config, known, Stage::BuildPool) matches Action::BuildPool {
            is_validator,
            prometheus,
            spawner,
        } && {
            &&& is_validator == (config.role == Role::Authority)
            &&& prometheus == config.prometheus_enabled
            &&& spawner == Spawner::Essential
        },
        spec_action(config, known, Stage::BuildProposer) matches Action::BuildProposer {
            spawner,
            prometheus,
            telemetry: _,
        } && {
            &&& spawner == Spawner::Ordinary
            &&& prometheus == config.prometheus_enabled
        },
{
}

/// Whatever the settings, the network is built in the same way: the gadget's protocol is named after
/// the genesis block and announced under that name, warp proofs know of no hard fork, the network syncs
/// by them and has no validator of announcements, and the service's own tasks have the keystore.
pub proof fn law_network_is_built_alike<'a>(config: &'a Configuration, known: Known)
    ensures
        spec_action(config, known, Stage::NameProtocol) == (Action::NameProtocol { block: 0 }),
        spec_action(config, known, Stage::AddPeersSet) matches Action::AddPeersSet { protocol_name }
            && (known.protocol_name is Some ==> protocol_name == known.protocol_name->0),
        spec_action(config, known, Stage::BuildWarpSync) == (Action::BuildWarpSync {
            hard_forks: 0,
        }),
        spec_action(config, known, Stage::BuildNetwork) == (Action::BuildNetwork {
            spawner: Spawner::Ordinary,
            warp_sync: true,
            block_announce_validator: false,
        }),
        spec_action(config, known, Stage::BuildOffchainWorkers) == (Action::BuildOffchainWorkers {
            spawner: Spawner::Ordinary,
        }),
        spec_action(config, known, Stage::SpawnTasks) matches Action::SpawnTasks { keystore, .. }
            && keystore,
{
}

/// Each piece of work is what it is called, whatever the settings: no stage asks for another stage's
/// action.
pub proof fn law_stages_ask_for_their_own_work<'a>(
    config: &'a Configuration,
    known: Known,
    stage: Stage,
)
    ensures
        ({
            let action = spec_action(config, known, stage);
            &&& action is CreateDatabaseDir <==> stage == Stage::CreateDatabaseDir
            &&& action is GatherBenchmarks <==> stage == Stage::GatherBenchmarks
            &&& action is StartTelemetry <==> stage == Stage::StartTelemetry
            &&& action is BuildExecutor <==> stage == Stage::BuildExecutor
            &&& action is BuildParts <==> stage == Stage::BuildParts
            &&& action is SelectChain <==> stage == Stage::SelectChain
            &&& action is BuildPool <==> stage == Stage::BuildPool
            &&& action is BuildBlockImport <==> stage == Stage::BuildBlockImport
            &&& action is ReadSlotDuration <==> stage == Stage::ReadImportSlotDuration || stage
                == Stage::ReadAuthoringSlotDuration
            &&& action is BuildImportQueue <==> stage == Stage::BuildImportQueue
            &&& action is NameProtocol <==> stage == Stage::NameProtocol
            &&& action is AddPeersSet <==> stage == Stage::AddPeersSet
            &&& action is BuildWarpSync <==> stage == Stage::BuildWarpSync
            &&& action is BuildNetwork <==> stage == Stage::BuildNetwork
            &&& action is BuildOffchainWorkers <==> stage == Stage::BuildOffchainWorkers
            &&& action is SpawnTasks <==> stage == Stage::SpawnTasks
            &&& action is PrintBenchmarks <==> stage == Stage::PrintBenchmarks
            &&& action is BuildProposer <==> stage == Stage::BuildProposer
            &&& action is StartAura <==> stage == Stage::StartAura
            &&& action is RunVoter <==> stage == Stage::RunVoter
            &&& action is StartNetwork <==> stage == Stage::StartNetwork
        }),
{
}

/// The four tasks that a startup hands to the task manager, whatever the settings: each under its name
/// and in its group. With authoring and the voter the service goes down, and they may block.
pub proof fn law_tasks_are_handed_over_by_name<'a>(
    config: &'a Configuration,
    known: Known,
    stage: Stage,
)
    ensures
        spec_action(config, known, stage) matches Action::Spawn(task) ==> {
            &&& stage == Stage::SpawnTelemetry ==> task.name == "telemetry"
            &&& stage == Stage::SpawnBenchmarkTelemetry ==> task.name == "telemetry_hwbench"
            &&& stage == Stage::SpawnAura ==> task.name == "aura"
            &&& stage == Stage::SpawnVoter ==> task.name == "grandpa-voter"
            &&& task.group == (if stage == Stage::SpawnAura {
                Some("block-authoring")
            } else {
                None
            })
            &&& task.essential == (stage == Stage::SpawnAura || stage == Stage::SpawnVoter)
            &&& task.blocking == (stage == Stage::SpawnAura || stage == Stage::SpawnVoter)
        },
        spec_action(config, known, stage) is Spawn <==> {
            ||| stage == Stage::SpawnTelemetry
            ||| stage == Stage::SpawnBenchmarkTelemetry
            ||| stage == Stage::SpawnAura
            ||| stage == Stage::SpawnVoter
        },
{
}

/// The action of a stage can be told as soon as there is what it carries: a place for the database, a
/// list of endpoints, a slot duration, a protocol's name. All others can be told at any time.
pub proof fn law_actions_need_what_they_carry(config: &Configuration, known: Known, stage: Stage)
    ensures
        can_act(config, known, stage) == match stage {
            Stage::CreateDatabaseDir | Stage::GatherBenchmarks => config.database_path is Some,
            Stage::StartTelemetry => config.telemetry_endpoints is Some,
            Stage::BuildImportQueue | Stage::StartAura => known.slot_duration is Some,
            Stage::AddPeersSet | Stage::RunVoter => known.protocol_name is Some,
            _ => true,
        },
{
}

/// Of the work of a startup, the failure of these pieces ends it, with nothing more done, and of no
/// others: a directory that cannot be made is passed over. What is no failure ends nothing.
pub proof fn law_which_failures_end_a_startup<'a, E>(
    state: StartupState<'a>,
    outcome: Outcome<E>,
)
    requires
        state.running(),
    ensures
        ({
            let can_be_fatal = match state.plan[state.at] {
                Stage::StartTelemetry
                | Stage::BuildParts
                | Stage::BuildBlockImport
                | Stage::ReadImportSlotDuration
                | Stage::BuildImportQueue
                | Stage::BuildNetwork
                | Stage::SpawnTasks
                | Stage::ReadAuthoringSlotDuration
                | Stage::StartAura
                | Stage::RunVoter => true,
                _ => false,
            };
            let fatal = outcome is Failed && can_be_fatal;
            &&& state.plan[state.at].is_fallible() == can_be_fatal
            &&& state.is_ended_by(outcome) == fatal
            &&& state.after(outcome).stopped == fatal
            &&& state.after(outcome).at == (if fatal {
                state.at
            } else {
                state.at + 1
            })
        }),
{
}

/// An outcome leaves the startup's settings, plan and refusal alone. A slot duration and a protocol's
/// name are remembered as they were reported; nothing else changes what is known.
pub proof fn law_outcomes_are_remembered<'a, E>(state: StartupState<'a>, outcome: Outcome<E>)
    requires
        state.running(),
    ensures
        state.after(outcome).config == state.config,
        state.after(outcome).plan == state.plan,
        state.after(outcome).refusal == state.refusal,
        state.after(outcome).known.slot_duration == (match outcome {
            Outcome::SlotDuration(millis) => Some(millis),
            _ => state.known.slot_duration,
        }),
        state.after(outcome).known.protocol_name == (match outcome {
            Outcome::ProtocolName(name) => Some(name),
            _ => state.known.protocol_name,
        }),
{
}

/// A driver can always report that an action went well, with whatever came of it, and that it failed
/// where it can fail.
pub proof fn law_outcomes_that_can_be_reported<'a, E>(
    state: StartupState<'a>,
    millis: u64,
    name: String,
    error: E,
)
    requires
        state.running(),
    ensures
        match state.plan[state.at] {
            Stage::ReadImportSlotDuration | Stage::ReadAuthoringSlotDuration => {
                state.expects(Outcome::<E>::SlotDuration(millis))
            },
            Stage::NameProtocol => state.expects(Outcome::<E>::ProtocolName(name)),
            _ => state.expects(Outcome::<E>::Done),
        },
        match state.plan[state.at] {
            Stage::CreateDatabaseDir
            | Stage::StartTelemetry
            | Stage::BuildParts
            | Stage::BuildBlockImport
            | Stage::ReadImportSlotDuration
            | Stage::BuildImportQueue
            | Stage::BuildNetwork
            | Stage::SpawnTasks
            | Stage::ReadAuthoringSlotDuration
            | Stage::StartAura
            | Stage::RunVoter => state.expects(Outcome::<E>::Failed(error)),
            _ => true,
        },
{
}

/// After as many outcomes as were reported, none of which ended it, a startup calls for just one thing:
/// the next piece of its work, or, when there is none left, the refusal that awaits it, or completion.
pub proof fn law_what_a_startup_calls_for<'a, E>(
    start: StartupState<'a>,
    outcomes: Seq<Outcome<E>>,
    next: Next<'a, E>,
)
    requires
        start.wf(),
        start.at == 0,
        !start.stopped,
        reported(start, outcomes),
        !run(start, outcomes).stopped,
    ensures
        ({
            let known = run(start, outcomes).known;
            let done = outcomes.len() as int;
            run(start, outcomes).calls_for(next) <==> match next {
                Next::Perform(action) => {
                    &&& done < start.plan.len()
                    &&& action == spec_action(start.config, known, start.plan[done])
                },
                Next::Finished => done == start.plan.len() && start.refusal is None,
                Next::Failed(ServiceError::Other(message)) => {
                    &&& done == start.plan.len()
                    &&& start.refusal == Some(message@)
                },
                Next::Failed(ServiceError::Component(_)) => false,
            }
        }),
{
    lemma_run(start, outcomes);
}

} // verus!
