//! Which stages a startup goes through.
use vstd::prelude::*;

use crate::config::Configuration;

verus! {

/// One piece of work of a startup. The variants stand in the order in which the work is done.
#[derive(Clone, Copy, Debug, PartialEq, Eq, Structural)]
pub enum Stage {
    /// Make the directory of the database.
    CreateDatabaseDir,
    /// Measure the hardware.
    GatherBenchmarks,
    /// Start a telemetry worker.
    StartTelemetry,
    /// Build the executor of runtimes.
    BuildExecutor,
    /// Build client, backend, keystore and task manager.
    BuildParts,
    /// Hand the telemetry worker to the task manager.
    SpawnTelemetry,
    /// Build the rule that selects the best chain.
    SelectChain,
    /// Build the transaction pool.
    BuildPool,
    /// Build the block import of the finality gadget.
    BuildBlockImport,
    /// Ask the runtime for the slot duration, to check blocks by.
    ReadImportSlotDuration,
    /// Build the queue of blocks to import.
    BuildImportQueue,
    /// Name the protocol of the finality gadget.
    NameProtocol,
    /// Tell the network of the gadget's set of peers.
    AddPeersSet,
    /// Build the provider of warp sync proofs.
    BuildWarpSync,
    /// Build the network.
    BuildNetwork,
    /// Start the offchain workers.
    BuildOffchainWorkers,
    /// Start the service's own tasks.
    SpawnTasks,
    /// Print what was measured of the hardware.
    PrintBenchmarks,
    /// Start the task that reports the measurements.
    SpawnBenchmarkTelemetry,
    /// Build the proposer of blocks.
    BuildProposer,
    /// Ask the runtime for the slot duration, to author blocks by.
    ReadAuthoringSlotDuration,
    /// Build the authoring task.
    StartAura,
    /// Hand the authoring task to the task manager.
    SpawnAura,
    /// Build the voter of the finality gadget.
    RunVoter,
    /// Hand the voter to the task manager.
    SpawnVoter,
    /// Let the network run.
    StartNetwork,
}

impl Stage {
    /// The stage's place in the order of all stages.
    pub open spec fn rank(self) -> int {
        match self {
            Stage::CreateDatabaseDir => 0,
            Stage::GatherBenchmarks => 1,
            Stage::StartTelemetry => 2,
            Stage::BuildExecutor => 3,
            Stage::BuildParts => 4,
            Stage::SpawnTelemetry => 5,
            Stage::SelectChain => 6,
            Stage::BuildPool => 7,
            Stage::BuildBlockImport => 8,
            Stage::ReadImportSlotDuration => 9,
            Stage::BuildImportQueue => 10,
            Stage::NameProtocol => 11,
            Stage::AddPeersSet => 12,
            Stage::BuildWarpSync => 13,
            Stage::BuildNetwork => 14,
            Stage::BuildOffchainWorkers => 15,
            Stage::SpawnTasks => 16,
            Stage::PrintBenchmarks => 17,
            Stage::SpawnBenchmarkTelemetry => 18,
            Stage::BuildProposer => 19,
            Stage::ReadAuthoringSlotDuration => 20,
            Stage::StartAura => 21,
            Stage::SpawnAura => 22,
            Stage::RunVoter => 23,
            Stage::SpawnVoter => 24,
            Stage::StartNetwork => 25,
        }
    }

    /// The stages of which a failure ends the startup.
    pub open spec fn spec_is_fallible(self) -> bool {
        ||| self is StartTelemetry
        ||| self is BuildParts
        ||| self is BuildBlockImport
        ||| self is ReadImportSlotDuration
        ||| self is BuildImportQueue
        ||| self is BuildNetwork
        ||| self is SpawnTasks
        ||| self is ReadAuthoringSlotDuration
        ||| self is StartAura
        ||| self is RunVoter
    }

    /// Whether a failure at this stage ends the startup.
    #[verifier::when_used_as_spec(spec_is_fallible)]
    pub fn is_fallible(self) -> (r: bool)
        ensures
            r == self.is_fallible(),
    {
        match self {
            Stage::StartTelemetry
            | Stage::BuildParts
            | Stage::BuildBlockImport
            | Stage::ReadImportSlotDuration
            | Stage::BuildImportQueue
            | Stage::BuildNetwork
            | Stage::SpawnTasks
            | Stage::ReadAuthoringSlotDuration
            | Stage::StartAura
            | Stage::RunVoter => true,
            _ => false,
        }
    }

    /// The stages that ask the runtime for the slot duration.
    pub open spec fn reads_slot_duration(self) -> bool {
        self is ReadImportSlotDuration || self is ReadAuthoringSlotDuration
    }

    /// Whether the stage uses what `other` makes.
    pub open spec fn needs(self, other: Stage) -> bool {
        match self {
            Stage::CreateDatabaseDir | Stage::StartTelemetry | Stage::BuildExecutor => false,
            Stage::GatherBenchmarks => other is CreateDatabaseDir,
            Stage::BuildParts => other is BuildExecutor,
            Stage::SpawnTelemetry => other is StartTelemetry || other is BuildParts,
            Stage::SelectChain
            | Stage::BuildPool
            | Stage::ReadImportSlotDuration
            | Stage::NameProtocol
            | Stage::ReadAuthoringSlotDuration => other is BuildParts,
            Stage::BuildBlockImport => other is BuildParts || other is SelectChain,
            Stage::BuildImportQueue => {
                ||| other is BuildParts
                ||| other is BuildBlockImport
                ||| other is ReadImportSlotDuration
            },
            Stage::AddPeersSet => other is NameProtocol,
            Stage::BuildWarpSync => other is BuildParts || other is BuildBlockImport,
            Stage::BuildNetwork => {
                ||| other is BuildParts
                ||| other is BuildPool
                ||| other is BuildImportQueue
                ||| other is AddPeersSet
                ||| other is BuildWarpSync
            },
            Stage::BuildOffchainWorkers => other is BuildParts || other is BuildNetwork,
            Stage::SpawnTasks => {
                ||| other is BuildParts
                ||| other is BuildPool
                ||| other is BuildNetwork
            },
            Stage::PrintBenchmarks => other is GatherBenchmarks,
            Stage::SpawnBenchmarkTelemetry => {
                ||| other is GatherBenchmarks
                ||| other is StartTelemetry
                ||| other is BuildParts
            },
            Stage::BuildProposer => other is BuildParts || other is BuildPool,
            Stage::StartAura => {
                ||| other is BuildParts
                ||| other is SelectChain
                ||| other is BuildBlockImport
                ||| other is BuildNetwork
                ||| other is BuildProposer
                ||| other is ReadAuthoringSlotDuration
            },
            Stage::SpawnAura => other is BuildParts || other is StartAura,
            Stage::RunVoter => {
                ||| other is BuildParts
                ||| other is BuildBlockImport
                ||| other is NameProtocol
                ||| other is BuildNetwork
            },
            Stage::SpawnVoter => other is BuildParts || other is RunVoter,
            Stage::StartNetwork => other is BuildNetwork,
        }
    }

    /// Whether the stage is part of the startup of a node's components.
    pub open spec fn in_partial(self, config: &Configuration) -> bool {
        &&& Stage::StartTelemetry.rank() <= self.rank() <= Stage::BuildImportQueue.rank()
        &&& self is StartTelemetry || self is SpawnTelemetry ==> config.telemetry_enabled()
    }

    /// Whether the stage is part of the startup of a full service.
    pub open spec fn in_full(self, config: &Configuration, disable_hardware_benchmarks: bool) -> bool {
        let benchmarks = config.benchmarks_hardware(disable_hardware_benchmarks);
        match self {
            Stage::CreateDatabaseDir | Stage::GatherBenchmarks | Stage::PrintBenchmarks => benchmarks,
            Stage::SpawnBenchmarkTelemetry => benchmarks && config.telemetry_enabled(),
            Stage::StartTelemetry | Stage::SpawnTelemetry => config.telemetry_enabled(),
            Stage::BuildOffchainWorkers => config.offchain_worker_enabled,
            Stage::BuildProposer
            | Stage::ReadAuthoringSlotDuration
            | Stage::StartAura
            | Stage::SpawnAura => config.role.is_authority(),
            Stage::RunVoter | Stage::SpawnVoter => !config.disable_grandpa,
            _ => true,
        }
    }
}

/// `stages` where `condition` holds, nothing elsewhere.
pub open spec fn when(condition: bool, stages: Seq<Stage>) -> Seq<Stage> {
    if condition {
        stages
    } else {
        Seq::empty()
    }
}

/// The stages that measure the hardware.
pub open spec fn benchmark_plan(config: &Configuration, disable_hardware_benchmarks: bool) -> Seq<Stage> {
    when(
        config.benchmarks_hardware(disable_hardware_benchmarks),
        seq![Stage::CreateDatabaseDir, Stage::GatherBenchmarks],
    )
}

/// The stages that build a node's components.
pub open spec fn partial_plan(config: &Configuration) -> Seq<Stage> {
    when(config.telemetry_enabled(), seq![Stage::StartTelemetry])
        + seq![Stage::BuildExecutor, Stage::BuildParts]
        + when(config.telemetry_enabled(), seq![Stage::SpawnTelemetry])
        + seq![
        Stage::SelectChain,
        Stage::BuildPool,
        Stage::BuildBlockImport,
        Stage::ReadImportSlotDuration,
        Stage::BuildImportQueue,
    ]
}

/// The stages that build the network and start what lives on it.
pub open spec fn network_plan(config: &Configuration) -> Seq<Stage> {
    seq![Stage::NameProtocol, Stage::AddPeersSet, Stage::BuildWarpSync, Stage::BuildNetwork] + when(
        config.offchain_worker_enabled,
        seq![Stage::BuildOffchainWorkers],
    ) + seq![Stage::SpawnTasks]
}

/// The stages that report what was measured of the hardware.
pub open spec fn report_plan(config: &Configuration, disable_hardware_benchmarks: bool) -> Seq<Stage> {
    when(
        config.benchmarks_hardware(disable_hardware_benchmarks),
        seq![Stage::PrintBenchmarks] + when(
            config.telemetry_enabled(),
            seq![Stage::SpawnBenchmarkTelemetry],
        ),
    )
}

/// The stages that start to author blocks.
pub open spec fn authoring_plan(config: &Configuration) -> Seq<Stage> {
    when(
        config.role.is_authority(),
        seq![
            Stage::BuildProposer,
            Stage::ReadAuthoringSlotDuration,
            Stage::StartAura,
            Stage::SpawnAura,
        ],
    )
}

/// The stages that start to vote on blocks.
pub open spec fn finality_plan(config: &Configuration) -> Seq<Stage> {
    when(!config.disable_grandpa, seq![Stage::RunVoter, Stage::SpawnVoter])
}

/// The stages that make a service out of a node's components.
pub open spec fn service_plan(config: &Configuration, disable_hardware_benchmarks: bool) -> Seq<Stage> {
    network_plan(config) + report_plan(config, disable_hardware_benchmarks) + authoring_plan(config)
        + finality_plan(config) + seq![Stage::StartNetwork]
}

/// The stages of a full service: the hardware is measured first, then the components are built, then
/// the service is made of them.
pub open spec fn full_plan(config: &Configuration, disable_hardware_benchmarks: bool) -> Seq<Stage> {
    benchmark_plan(config, disable_hardware_benchmarks) + partial_plan(config) + service_plan(
        config,
        disable_hardware_benchmarks,
    )
}

/// Adds the stages that measure the hardware.
pub fn push_benchmark_stages(
    plan: &mut Vec<Stage>,
    config: &Configuration,
    disable_hardware_benchmarks: bool,
)
    ensures
        final(plan)@ == old(plan)@ + benchmark_plan(config, disable_hardware_benchmarks),
{
    if config.benchmarks_hardware(disable_hardware_benchmarks) {
        plan.push(Stage::CreateDatabaseDir);
        plan.push(Stage::GatherBenchmarks);
    }
}

/// Adds the stages that build a node's components.
pub fn push_partial_stages(plan: &mut Vec<Stage>, config: &Configuration)
    ensures
        final(plan)@ == old(plan)@ + partial_plan(config),
{
    let telemetry = config.telemetry_enabled();
    if telemetry {
        plan.push(Stage::StartTelemetry);
    }
    plan.push(Stage::BuildExecutor);
    plan.push(Stage::BuildParts);
    if telemetry {
        plan.push(Stage::SpawnTelemetry);
    }
    plan.push(Stage::SelectChain);
    plan.push(Stage::BuildPool);
    plan.push(Stage::BuildBlockImport);
    plan.push(Stage::ReadImportSlotDuration);
    plan.push(Stage::BuildImportQueue);
}

/// Adds the stages that build the network and start what lives on it.
fn push_network_stages(plan: &mut Vec<Stage>, config: &Configuration)
    ensures
        final(plan)@ == old(plan)@ + network_plan(config),
{
    plan.push(Stage::NameProtocol);
    plan.push(Stage::AddPeersSet);
    plan.push(Stage::BuildWarpSync);
    plan.push(Stage::BuildNetwork);
    if config.offchain_worker_enabled {
        plan.push(Stage::BuildOffchainWorkers);
    }
    plan.push(Stage::SpawnTasks);
}

/// Adds the stages that report what was measured of the hardware.
fn push_report_stages(
    plan: &mut Vec<Stage>,
    config: &Configuration,
    disable_hardware_benchmarks: bool,
)
    ensures
        final(plan)@ == old(plan)@ + report_plan(config, disable_hardware_benchmarks),
{
    if config.benchmarks_hardware(disable_hardware_benchmarks) {
        plan.push(Stage::PrintBenchmarks);
        if config.telemetry_enabled() {
            plan.push(Stage::SpawnBenchmarkTelemetry);
        }
    }
}

/// Adds the stages that start to author blocks.
fn push_authoring_stages(plan: &mut Vec<Stage>, config: &Configuration)
    ensures
        final(plan)@ == old(plan)@ + authoring_plan(config),
{
    if config.role.is_authority() {
        plan.push(Stage::BuildProposer);
        plan.push(Stage::ReadAuthoringSlotDuration);
        plan.push(Stage::StartAura);
        plan.push(Stage::SpawnAura);
    }
}

/// Adds the stages that start to vote on blocks.
fn push_finality_stages(plan: &mut Vec<Stage>, config: &Configuration)
    ensures
        final(plan)@ == old(plan)@ + finality_plan(config),
{
    if !config.disable_grandpa {
        plan.push(Stage::RunVoter);
        plan.push(Stage::SpawnVoter);
    }
}

/// Adds the stages that make a service out of a node's components.
pub fn push_service_stages(
    plan: &mut Vec<Stage>,
    config: &Configuration,
    disable_hardware_benchmarks: bool,
)
    ensures
        final(plan)@ == old(plan)@ + service_plan(config, disable_hardware_benchmarks),
{
    push_network_stages(plan, config);
    push_report_stages(plan, config, disable_hardware_benchmarks);
    push_authoring_stages(plan, config);
    push_finality_stages(plan, config);
    plan.push(Stage::StartNetwork);
}

/// Every stage comes after those of a lower rank, and none comes twice.
pub open spec fn in_order(plan: Seq<Stage>) -> bool {
    forall|i: int, j: int| 0 <= i < j < plan.len() ==> plan[i].rank() < plan[j].rank()
}

/// Every stage has a rank from `low` on and below `high`.
pub open spec fn ranks_within(plan: Seq<Stage>, low: int, high: int) -> bool {
    forall|i: int| 0 <= i < plan.len() ==> low <= (#[trigger] plan[i]).rank() < high
}

/// What one plan holds, and another that follows it, the two hold together.
proof fn lemma_concat(a: Seq<Stage>, b: Seq<Stage>, low: int, middle: int, high: int)
    requires
        in_order(a),
        in_order(b),
        ranks_within(a, low, middle),
        ranks_within(b, middle, high),
        low <= middle <= high,
    ensures
        in_order(a + b),
        ranks_within(a + b, low, high),
        forall|s: Stage| #[trigger]
            (a + b).contains(s) <==> a.contains(s) || b.contains(s),
{
    assert forall|s: Stage| #[trigger] (a + b).contains(s) <==> a.contains(s) || b.contains(s) by {
        if a.contains(s) {
            let i = choose|i: int| 0 <= i < a.len() && a[i] == s;
            assert((a + b)[i] == s);
        }
        if b.contains(s) {
            let i = choose|i: int| 0 <= i < b.len() && b[i] == s;
            assert((a + b)[a.len() + i] == s);
        }
    }
}

proof fn lemma_benchmark_plan(config: &Configuration, disable_hardware_benchmarks: bool)
    ensures
        in_order(benchmark_plan(config, disable_hardware_benchmarks)),
        ranks_within(benchmark_plan(config, disable_hardware_benchmarks), 0, 2),
        forall|s: Stage| #[trigger]
            benchmark_plan(config, disable_hardware_benchmarks).contains(s) <==> {
                &&& s.rank() < 2
                &&& s.in_full(config, disable_hardware_benchmarks)
            },
{
    let plan = benchmark_plan(config, disable_hardware_benchmarks);
    if config.benchmarks_hardware(disable_hardware_benchmarks) {
        assert(plan[0] == Stage::CreateDatabaseDir && plan[1] == Stage::GatherBenchmarks);
    }
}

proof fn lemma_partial_plan(config: &Configuration)
    ensures
        in_order(partial_plan(config)),
        ranks_within(partial_plan(config), 2, 11),
        forall|s: Stage| #[trigger] partial_plan(config).contains(s) <==> s.in_partial(config),
{
    let a = when(config.telemetry_enabled(), seq![Stage::StartTelemetry]);
    let b = seq![Stage::BuildExecutor, Stage::BuildParts];
    let c = when(config.telemetry_enabled(), seq![Stage::SpawnTelemetry]);
    let d = seq![
        Stage::SelectChain,
        Stage::BuildPool,
        Stage::BuildBlockImport,
        Stage::ReadImportSlotDuration,
        Stage::BuildImportQueue,
    ];
    lemma_concat(a, b, 2, 3, 5);
    lemma_concat(a + b, c, 2, 5, 6);
    lemma_concat(a + b + c, d, 2, 6, 11);
    if config.telemetry_enabled() {
        assert(a[0] == Stage::StartTelemetry && c[0] == Stage::SpawnTelemetry);
    }
    assert(b[0] == Stage::BuildExecutor && b[1] == Stage::BuildParts);
    assert(d[0] == Stage::SelectChain && d[1] == Stage::BuildPool);
    assert(d[2] == Stage::BuildBlockImport && d[3] == Stage::ReadImportSlotDuration);
    assert(d[4] == Stage::BuildImportQueue);
}

proof fn lemma_network_plan(config: &Configuration, disable_hardware_benchmarks: bool)
    ensures
        in_order(network_plan(config)),
        ranks_within(network_plan(config), 11, 17),
        forall|s: Stage| #[trigger]
            network_plan(config).contains(s) <==> {
                &&& 11 <= s.rank() < 17
                &&& s.in_full(config, disable_hardware_benchmarks)
            },
{
    let a = seq![Stage::NameProtocol, Stage::AddPeersSet, Stage::BuildWarpSync, Stage::BuildNetwork];
    let b = when(config.offchain_worker_enabled, seq![Stage::BuildOffchainWorkers]);
    let c = seq![Stage::SpawnTasks];
    lemma_concat(a, b, 11, 15, 16);
    lemma_concat(a + b, c, 11, 16, 17);
    assert(a[0] == Stage::NameProtocol && a[1] == Stage::AddPeersSet);
    assert(a[2] == Stage::BuildWarpSync && a[3] == Stage::BuildNetwork);
    assert(config.offchain_worker_enabled ==> b[0] == Stage::BuildOffchainWorkers);
    assert(c[0] == Stage::SpawnTasks);
}

proof fn lemma_report_plan(config: &Configuration, disable_hardware_benchmarks: bool)
    ensures
        in_order(report_plan(config, disable_hardware_benchmarks)),
        ranks_within(report_plan(config, disable_hardware_benchmarks), 17, 19),
        forall|s: Stage| #[trigger]
            report_plan(config, disable_hardware_benchmarks).contains(s) <==> {
                &&& 17 <= s.rank() < 19
                &&& s.in_full(config, disable_hardware_benchmarks)
            },
{
    let plan = report_plan(config, disable_hardware_benchmarks);
    if config.benchmarks_hardware(disable_hardware_benchmarks) {
        assert(plan[0] == Stage::PrintBenchmarks);
        assert(config.telemetry_enabled() ==> plan[1] == Stage::SpawnBenchmarkTelemetry);
    }
}

proof fn lemma_authoring_plan(config: &Configuration, disable_hardware_benchmarks: bool)
    ensures
        in_order(authoring_plan(config)),
        ranks_within(authoring_plan(config), 19, 23),
        forall|s: Stage| #[trigger]
            authoring_plan(config).contains(s) <==> {
                &&& 19 <= s.rank() < 23
                &&& s.in_full(config, disable_hardware_benchmarks)
            },
{
    let plan = authoring_plan(config);
    if config.role.is_authority() {
        assert(plan[0] == Stage::BuildProposer && plan[1] == Stage::ReadAuthoringSlotDuration);
        assert(plan[2] == Stage::StartAura && plan[3] == Stage::SpawnAura);
    }
}

proof fn lemma_finality_plan(config: &Configuration, disable_hardware_benchmarks: bool)
    ensures
        in_order(finality_plan(config)),
        ranks_within(finality_plan(config), 23, 25),
        forall|s: Stage| #[trigger]
            finality_plan(config).contains(s) <==> {
                &&& 23 <= s.rank() < 25
                &&& s.in_full(config, disable_hardware_benchmarks)
            },
{
    let plan = finality_plan(config);
    if !config.disable_grandpa {
        assert(plan[0] == Stage::RunVoter && plan[1] == Stage::SpawnVoter);
    }
}

proof fn lemma_service_plan(config: &Configuration, disable_hardware_benchmarks: bool)
    ensures
        in_order(service_plan(config, disable_hardware_benchmarks)),
        ranks_within(service_plan(config, disable_hardware_benchmarks), 11, 26),
        forall|s: Stage| #[trigger]
            service_plan(config, disable_hardware_benchmarks).contains(s) <==> {
                &&& s.rank() >= 11
                &&& s.in_full(config, disable_hardware_benchmarks)
            },
{
    let a = network_plan(config);
    let b = report_plan(config, disable_hardware_benchmarks);
    let c = authoring_plan(config);
    let d = finality_plan(config);
    let e = seq![Stage::StartNetwork];
    lemma_network_plan(config, disable_hardware_benchmarks);
    lemma_report_plan(config, disable_hardware_benchmarks);
    lemma_authoring_plan(config, disable_hardware_benchmarks);
    lemma_finality_plan(config, disable_hardware_benchmarks);
    lemma_concat(a, b, 11, 17, 19);
    lemma_concat(a + b, c, 11, 19, 23);
    lemma_concat(a + b + c, d, 11, 23, 25);
    lemma_concat(a + b + c + d, e, 11, 25, 26);
    assert(e[0] == Stage::StartNetwork);
}

/// The components of a node are built in the order of the stages, none twice, and the stages are
/// exactly those from the telemetry worker to the import queue, telemetry only where it runs.
pub proof fn law_partial_plan_stages(config: &Configuration)
    ensures
        in_order(partial_plan(config)),
        forall|s: Stage| #[trigger] partial_plan(config).contains(s) <==> s.in_partial(config),
{
    lemma_partial_plan(config);
}

/// A full service goes through its stages in order, none twice, and the stages are exactly those that
/// its configuration calls for.
pub proof fn law_full_plan_stages(config: &Configuration, disable_hardware_benchmarks: bool)
    ensures
        in_order(full_plan(config, disable_hardware_benchmarks)),
        forall|s: Stage| #[trigger]
            full_plan(config, disable_hardware_benchmarks).contains(s) <==> s.in_full(
                config,
                disable_hardware_benchmarks,
            ),
{
    let a = benchmark_plan(config, disable_hardware_benchmarks);
    let b = partial_plan(config);
    let c = service_plan(config, disable_hardware_benchmarks);
    lemma_benchmark_plan(config, disable_hardware_benchmarks);
    lemma_partial_plan(config);
    lemma_service_plan(config, disable_hardware_benchmarks);
    lemma_concat(a, b, 0, 2, 11);
    lemma_concat(a + b, c, 0, 11, 26);
}

/// Two stages of a plan in order lie in it as their ranks do.
pub proof fn lemma_earlier(plan: Seq<Stage>, i: int, other: Stage)
    requires
        in_order(plan),
        0 <= i < plan.len(),
        plan.contains(other),
        other.rank() < plan[i].rank(),
    ensures
        plan.take(i).contains(other),
{
    let j = choose|j: int| 0 <= j < plan.len() && plan[j] == other;
    assert(j < i) by {
        if i < j {
            assert(plan[i].rank() < plan[j].rank());
        }
    }
    assert(plan.take(i)[j] == other);
}

/// While the components of a node are built, nothing is used that was not made before.
pub proof fn law_partial_plan_makes_before_it_uses(config: &Configuration, i: int, other: Stage)
    requires
        0 <= i < partial_plan(config).len(),
        partial_plan(config)[i].needs(other),
    ensures
        partial_plan(config).take(i).contains(other),
{
    let plan = partial_plan(config);
    law_partial_plan_stages(config);
    assert(plan.contains(plan[i]));
    lemma_earlier(plan, i, other);
}

/// While a full service is built, nothing is used that was not made before.
pub proof fn law_full_plan_makes_before_it_uses(
    config: &Configuration,
    disable_hardware_benchmarks: bool,
    i: int,
    other: Stage,
)
    requires
        0 <= i < full_plan(config, disable_hardware_benchmarks).len(),
        full_plan(config, disable_hardware_benchmarks)[i].needs(other),
    ensures
        full_plan(config, disable_hardware_benchmarks).take(i).contains(other),
{
    let plan = full_plan(config, disable_hardware_benchmarks);
    law_full_plan_stages(config, disable_hardware_benchmarks);
    assert(plan.contains(plan[i]));
    lemma_earlier(plan, i, other);
}

} // verus!
