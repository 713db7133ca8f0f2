//! What holds of every run of a startup.
use vstd::prelude::*;

use crate::actions::{spec_action, Action, BlockImport, Known, NetworkLink, Spawner};
use crate::config::Configuration;
use crate::error::ServiceError;
use crate::plan::{
    benchmark_plan, full_plan, in_order, law_full_plan_stages, law_partial_plan_stages,
    lemma_earlier, partial_plan, Stage,
};
use crate::service_standalone::{
    full_startup, lemma_full_startup_wf, lemma_partial_startup_wf, partial_startup,
    remote_keystores_message,
};
use crate::startup::{lemma_after_wf, Next, Outcome, StartupState};

verus! {

/// A startup after `outcomes` were reported to it, one after the other.
pub open spec fn run<'a, E>(state: StartupState<'a>, outcomes: Seq<Outcome<E>>) -> StartupState<'a>
    decreases outcomes.len(),
{
    if outcomes.len() == 0 {
        state
    } else {
        run(state, outcomes.drop_last()).after(outcomes.last())
    }
}

/// Each of `outcomes` was reported while its action was under way, and is one that the action can have.
pub open spec fn reported<'a, E>(state: StartupState<'a>, outcomes: Seq<Outcome<E>>) -> bool
    decreases outcomes.len(),
{
    if outcomes.len() == 0 {
        true
    } else {
        let before = run(state, outcomes.drop_last());
        &&& reported(state, outcomes.drop_last())
        &&& before.running()
        &&& before.expects(outcomes.last())
    }
}

/// The action that the outcome at `i` is the outcome of.
pub open spec fn performed<'a, E>(
    state: StartupState<'a>,
    outcomes: Seq<Outcome<E>>,
    i: int,
) -> Action<'a> {
    let before = run(state, outcomes.take(i));
    spec_action(before.config, before.known, before.stage())
}

/// A run keeps the startup's plan and goes through it stage by stage.
pub proof fn lemma_run<'a, E>(state: StartupState<'a>, outcomes: Seq<Outcome<E>>)
    requires
        state.wf(),
        state.at == 0,
        !state.stopped,
        reported(state, outcomes),
    ensures
        run(state, outcomes).wf(),
        run(state, outcomes).config == state.config,
        run(state, outcomes).plan == state.plan,
        run(state, outcomes).refusal == state.refusal,
        outcomes.len() <= state.plan.len(),
        forall|i: int|
            0 <= i < outcomes.len() ==> {
                ||| !(#[trigger] outcomes[i] is Failed)
                ||| !state.plan[i].is_fallible()
                ||| i == outcomes.len() - 1 && run(state, outcomes).stopped
            },
        run(state, outcomes).stopped ==> {
            &&& outcomes.len() > 0
            &&& outcomes.last() is Failed
            &&& state.plan[outcomes.len() - 1].is_fallible()
        },
        run(state, outcomes).at == (if run(state, outcomes).stopped {
            outcomes.len() - 1
        } else {
            outcomes.len() as int
        }),
    decreases outcomes.len(),
{
    if outcomes.len() > 0 {
        let before = outcomes.drop_last();
        lemma_run(state, before);
        lemma_after_wf(run(state, before), outcomes.last());
        assert forall|i: int| 0 <= i < outcomes.len() implies {
            ||| !(#[trigger] outcomes[i] is Failed)
            ||| !state.plan[i].is_fallible()
            ||| i == outcomes.len() - 1 && run(state, outcomes).stopped
        } by {
            if i < before.len() {
                assert(outcomes[i] == before[i]);
            }
        }
    }
}

/// What was reported up to some point was reported in order.
proof fn lemma_reported_prefix<'a, E>(state: StartupState<'a>, outcomes: Seq<Outcome<E>>, n: int)
    requires
        reported(state, outcomes),
        0 <= n <= outcomes.len(),
    ensures
        reported(state, outcomes.take(n)),
        n < outcomes.len() ==> {
            &&& run(state, outcomes.take(n)).running()
            &&& run(state, outcomes.take(n)).expects(outcomes[n])
            &&& run(state, outcomes.take(n + 1)) == run(state, outcomes.take(n)).after(outcomes[n])
        },
    decreases outcomes.len(),
{
    if n == outcomes.len() {
        assert(outcomes.take(n) == outcomes);
    } else {
        let before = outcomes.drop_last();
        assert(outcomes.take(n + 1).drop_last() == outcomes.take(n));
        assert(outcomes.take(n + 1).last() == outcomes[n]);
        if n == outcomes.len() - 1 {
            assert(outcomes.take(n) == before);
        } else {
            lemma_reported_prefix(state, before, n);
            assert(before.take(n) == outcomes.take(n));
        }
    }
}

/// A startup performs the stages of its plan one by one, from the first on, and none that is not in it.
pub proof fn law_run_follows_plan<'a, E>(
    state: StartupState<'a>,
    outcomes: Seq<Outcome<E>>,
    i: int,
)
    requires
        state.wf(),
        state.at == 0,
        !state.stopped,
        reported(state, outcomes),
        0 <= i < outcomes.len(),
    ensures
        outcomes.len() <= state.plan.len(),
        run(state, outcomes.take(i)).stage() == state.plan[i],
        performed(state, outcomes, i) == spec_action(
            state.config,
            run(state, outcomes.take(i)).known,
            state.plan[i],
        ),
{
    lemma_run(state, outcomes);
    lemma_reported_prefix(state, outcomes, i);
    lemma_run(state, outcomes.take(i));
}

/// The first component that fails ends the startup: it is the last thing that was done, and nothing is
/// reported, so nothing performed, after it. A startup that no component ended has done one stage for
/// each outcome.
pub proof fn law_first_failure_ends<'a, E>(state: StartupState<'a>, outcomes: Seq<Outcome<E>>)
    requires
        state.wf(),
        state.at == 0,
        !state.stopped,
        reported(state, outcomes),
    ensures
        run(state, outcomes).stopped <==> exists|i: int|
            0 <= i < outcomes.len() && #[trigger] outcomes[i] is Failed
                && state.plan[i].is_fallible(),
        forall|i: int|
            0 <= i < outcomes.len() && #[trigger] outcomes[i] is Failed
                && state.plan[i].is_fallible() ==> i == outcomes.len() - 1,
        run(state, outcomes).stopped ==> forall|outcome: Outcome<E>|
            !reported(state, #[trigger] outcomes.push(outcome)),
        !run(state, outcomes).stopped ==> run(state, outcomes).at == outcomes.len(),
{
    lemma_run(state, outcomes);
    if run(state, outcomes).stopped {
        assert(outcomes[outcomes.len() - 1] is Failed);
        assert forall|outcome: Outcome<E>| !reported(state, #[trigger] outcomes.push(outcome)) by {
            assert(outcomes.push(outcome).drop_last() == outcomes);
        }
    }
}

/// A full service is complete exactly when each stage of its plan was done and no component failed;
/// the last thing done is then to let the network run, which was done at no earlier point.
pub proof fn law_full_service_completes<'a, E>(
    config: &'a Configuration,
    disable_hardware_benchmarks: bool,
    outcomes: Seq<Outcome<E>>,
)
    requires
        config.keystore_remote is None,
        reported(full_startup(config, disable_hardware_benchmarks), outcomes),
    ensures
        ({
            let plan = full_plan(config, disable_hardware_benchmarks);
            let end = run(full_startup(config, disable_hardware_benchmarks), outcomes);
            &&& !end.stopped && end.calls_for(Next::<'a, E>::Finished) <==> {
                &&& outcomes.len() == plan.len()
                &&& !end.stopped
            }
            &&& plan.len() > 0
            &&& plan.last() == Stage::StartNetwork
            &&& forall|i: int| 0 <= i < plan.len() - 1 ==> #[trigger] plan[i] != Stage::StartNetwork
        }),
{
    let plan = full_plan(config, disable_hardware_benchmarks);
    lemma_full_startup_wf(config, disable_hardware_benchmarks);
    lemma_run(full_startup(config, disable_hardware_benchmarks), outcomes);
    law_full_plan_stages(config, disable_hardware_benchmarks);
    assert(plan.contains(Stage::StartNetwork));
    let last = choose|i: int| 0 <= i < plan.len() && plan[i] == Stage::StartNetwork;
    if last < plan.len() - 1 {
        assert(plan[last].rank() < plan[last + 1].rank());
    }
}

/// A node's components are complete exactly when each stage of their plan was done and none failed; the
/// last thing built is the import queue.
pub proof fn law_components_complete<'a, E>(config: &'a Configuration, outcomes: Seq<Outcome<E>>)
    requires
        reported(partial_startup(config), outcomes),
    ensures
        ({
            let plan = partial_plan(config);
            let end = run(partial_startup(config), outcomes);
            &&& !end.stopped && end.calls_for(Next::<'a, E>::Finished) <==> {
                &&& outcomes.len() == plan.len()
                &&& !end.stopped
            }
            &&& plan.len() > 0
            &&& plan.last() == Stage::BuildImportQueue
        }),
{
    lemma_partial_startup_wf(config);
    lemma_run(partial_startup(config), outcomes);
}

/// Who asks for a remote keystore gets no service: whatever happens, nothing is done but to measure the
/// hardware, nothing that happens ends the startup before that, and then it is refused, with the words
/// with which the components are refused.
pub proof fn law_remote_keystore_is_refused<'a, E>(
    config: &'a Configuration,
    disable_hardware_benchmarks: bool,
    outcomes: Seq<Outcome<E>>,
    next: Next<'a, E>,
)
    requires
        config.keystore_remote is Some,
        reported(full_startup(config, disable_hardware_benchmarks), outcomes),
    ensures
        ({
            let start = full_startup(config, disable_hardware_benchmarks);
            let end = run(start, outcomes);
            &&& !end.stopped
            &&& forall|i: int|
                0 <= i < outcomes.len() ==> {
                    ||| #[trigger] performed(start, outcomes, i) is CreateDatabaseDir
                    ||| performed(start, outcomes, i) is GatherBenchmarks
                }
            &&& end.calls_for(next) && !(next is Perform) ==> {
                &&& next matches Next::Failed(ServiceError::Other(message))
                &&& message@ == remote_keystores_message()
            }
        }),
{
    let start = full_startup(config, disable_hardware_benchmarks);
    lemma_full_startup_wf(config, disable_hardware_benchmarks);
    lemma_run(start, outcomes);
    assert forall|i: int| 0 <= i < outcomes.len() implies {
        ||| #[trigger] performed(start, outcomes, i) is CreateDatabaseDir
        ||| performed(start, outcomes, i) is GatherBenchmarks
    } by {
        law_run_follows_plan(start, outcomes, i);
    }
}

/// After the protocol was named, its name is known and stays the same.
proof fn lemma_protocol_name<'a, E>(state: StartupState<'a>, outcomes: Seq<Outcome<E>>, naming: int)
    requires
        state.wf(),
        state.at == 0,
        !state.stopped,
        reported(state, outcomes),
        0 <= naming < outcomes.len(),
        state.plan[naming] == Stage::NameProtocol,
    ensures
        outcomes[naming] is ProtocolName,
        run(state, outcomes).known.protocol_name == Some(outcomes[naming]->ProtocolName_0),
    decreases outcomes.len(),
{
    let before = outcomes.drop_last();
    lemma_run(state, outcomes);
    lemma_run(state, before);
    if naming < before.len() {
        lemma_protocol_name(state, before, naming);
        assert(before[naming] == outcomes[naming]);
        assert(state.plan[before.len() as int].rank() > state.plan[naming].rank());
    }
}

/// The finality gadget goes by one name: the one under which its peers are announced to the network is
/// the one that its voter uses, and both are the name that was made for it.
pub proof fn law_one_protocol_name<'a, E>(
    state: StartupState<'a>,
    outcomes: Seq<Outcome<E>>,
    naming: int,
    i: int,
)
    requires
        state.wf(),
        state.at == 0,
        !state.stopped,
        reported(state, outcomes),
        0 <= naming < outcomes.len(),
        performed(state, outcomes, naming) is NameProtocol,
        0 <= i < outcomes.len(),
    ensures
        outcomes[naming] is ProtocolName,
        performed(state, outcomes, i) matches Action::AddPeersSet { protocol_name }
            ==> protocol_name == outcomes[naming]->ProtocolName_0,
        performed(state, outcomes, i) matches Action::RunVoter(params) ==> params.config.protocol_name
            == outcomes[naming]->ProtocolName_0,
{
    law_run_follows_plan(state, outcomes, naming);
    law_run_follows_plan(state, outcomes, i);
    lemma_protocol_name(state, outcomes, naming);
    if state.plan[i] is AddPeersSet || state.plan[i] is RunVoter {
        assert(naming < i) by {
            if i < naming {
                assert(state.plan[i].rank() < state.plan[naming].rank());
            }
        }
        lemma_reported_prefix(state, outcomes, i);
        lemma_protocol_name(state, outcomes.take(i), naming);
    }
}

/// Blocks are checked by the slot duration that was read for the import queue, and authored by the one
/// that was read for authoring.
pub proof fn law_slot_duration_is_the_one_read<'a, E>(
    state: StartupState<'a>,
    outcomes: Seq<Outcome<E>>,
    i: int,
)
    requires
        state.wf(),
        state.at == 0,
        !state.stopped,
        reported(state, outcomes),
        0 <= i < outcomes.len(),
    ensures
        performed(state, outcomes, i) matches Action::BuildImportQueue(params) ==> {
            &&& i > 0
            &&& state.plan[i - 1] == Stage::ReadImportSlotDuration
            &&& outcomes[i - 1] == Outcome::<E>::SlotDuration(params.slot_duration)
        },
        performed(state, outcomes, i) matches Action::StartAura(params) ==> {
            &&& i > 0
            &&& state.plan[i - 1] == Stage::ReadAuthoringSlotDuration
            &&& outcomes[i - 1] == Outcome::<E>::SlotDuration(params.slot_duration)
        },
{
    law_run_follows_plan(state, outcomes, i);
    lemma_reported_prefix(state, outcomes, i);
    let stage = state.plan[i];
    if stage is BuildImportQueue || stage is StartAura {
        let reading = if stage is BuildImportQueue {
            Stage::ReadImportSlotDuration
        } else {
            Stage::ReadAuthoringSlotDuration
        };
        assert(state.plan.contains(reading));
        let j = choose|j: int| 0 <= j < state.plan.len() && state.plan[j] == reading;
        assert(j == i - 1) by {
            if i < j {
                assert(state.plan[i].rank() < state.plan[j].rank());
            }
            if j < i - 1 {
                assert(state.plan[j].rank() < state.plan[i - 1].rank());
                assert(state.plan[i - 1].rank() < state.plan[i].rank());
            }
        }
        law_run_follows_plan(state, outcomes, j);
        lemma_reported_prefix(state, outcomes, j);
        lemma_run(state, outcomes.take(i));
    }
}

/// A service goes down with exactly two of the tasks that its startup hands to the task manager: the
/// authoring of blocks, and the finality gadget's voter.
pub proof fn law_essential_tasks<'a>(
    config: &'a Configuration,
    known: Known,
    stage: Stage,
)
    ensures
        spec_action(config, known, stage) matches Action::Spawn(task) ==> {
            &&& task.essential <==> stage is SpawnAura || stage is SpawnVoter
            &&& task.blocking == task.essential
        },
{
}

/// A node authors blocks exactly when it takes part in consensus; then its transaction pool is a
/// validator's, and its voter gets the keystore. The service's own tasks get the keystore whatever the
/// role, and so does authoring wherever it runs.
pub proof fn law_authority_authors<'a>(
    config: &'a Configuration,
    disable_hardware_benchmarks: bool,
    known: Known,
)
    ensures
        ({
            let plan = full_plan(config, disable_hardware_benchmarks);
            let authors = config.role.is_authority();
            &&& plan.contains(Stage::StartAura) <==> authors
            &&& plan.contains(Stage::SpawnAura) <==> authors
            &&& spec_action(config, known, Stage::BuildPool) == (Action::BuildPool {
                is_validator: authors,
                prometheus: config.prometheus_enabled,
                spawner: Spawner::Essential,
            })
            &&& spec_action(config, known, Stage::RunVoter)->RunVoter_0.config.keystore == authors
            &&& plan.contains(Stage::SpawnTasks)
            &&& spec_action(config, known, Stage::SpawnTasks) == (Action::SpawnTasks {
                keystore: true,
                telemetry: config.telemetry_enabled(),
            })
            &&& spec_action(config, known, Stage::StartAura)->StartAura_0.keystore
        }),
{
    law_full_plan_stages(config, disable_hardware_benchmarks);
}

/// The finality gadget's voter runs unless it is switched off, on every role alike; it never runs as an
/// observer.
pub proof fn law_voter_runs_unless_disabled<'a>(
    config: &'a Configuration,
    disable_hardware_benchmarks: bool,
    known: Known,
)
    ensures
        ({
            let plan = full_plan(config, disable_hardware_benchmarks);
            &&& plan.contains(Stage::RunVoter) <==> !config.disable_grandpa
            &&& plan.contains(Stage::SpawnVoter) <==> !config.disable_grandpa
            &&& !spec_action(config, known, Stage::RunVoter)->RunVoter_0.config.observer_enabled
        }),
{
    law_full_plan_stages(config, disable_hardware_benchmarks);
}

/// Whatever uses telemetry comes after telemetry was started, and nothing is told to use it where it
/// does not run.
pub proof fn law_telemetry_comes_first<'a>(
    config: &'a Configuration,
    disable_hardware_benchmarks: bool,
    known: Known,
    i: int,
)
    requires
        0 <= i < full_plan(config, disable_hardware_benchmarks).len(),
    ensures
        ({
            let plan = full_plan(config, disable_hardware_benchmarks);
            let uses = match spec_action(config, known, plan[i]) {
                Action::BuildParts { telemetry } => telemetry,
                Action::BuildBlockImport { telemetry } => telemetry,
                Action::BuildImportQueue(params) => params.telemetry,
                Action::SpawnTasks { telemetry, .. } => telemetry,
                Action::BuildProposer { telemetry, .. } => telemetry,
                Action::StartAura(params) => params.telemetry,
                Action::RunVoter(params) => params.telemetry || params.config.telemetry,
                Action::Spawn(_) => plan[i] is SpawnTelemetry || plan[i] is SpawnBenchmarkTelemetry,
                _ => false,
            };
            uses ==> plan.take(i).contains(Stage::StartTelemetry)
        }),
{
    let plan = full_plan(config, disable_hardware_benchmarks);
    law_full_plan_stages(config, disable_hardware_benchmarks);
    assert(plan.contains(plan[i]));
    if config.telemetry_enabled() && plan[i].rank() > Stage::StartTelemetry.rank() {
        lemma_earlier(plan, i, Stage::StartTelemetry);
    }
}

/// Whether an action works with a half of the finality gadget: its block import, or its link.
pub open spec fn uses_gadget(action: Action) -> bool {
    match action {
        Action::BuildImportQueue(params) => {
            ||| params.block_import is Gadget
            ||| params.justification_import == Some(BlockImport::Gadget)
        },
        Action::StartAura(params) => params.block_import is Gadget,
        Action::BuildWarpSync { .. } | Action::RunVoter(_) => true,
        _ => false,
    }
}

/// The plan builds the finality gadget once, and before the stage at `i` works with a half of it.
pub open spec fn gadget_is_built_once<'a>(
    config: &'a Configuration,
    plan: Seq<Stage>,
    known: Known,
    i: int,
) -> bool {
    &&& exists|j: int| 0 <= j < plan.len() && #[trigger] plan[j] == Stage::BuildBlockImport
    &&& forall|j: int, k: int|
        0 <= j < plan.len() && 0 <= k < plan.len() && #[trigger] plan[j] == Stage::BuildBlockImport
            && #[trigger] plan[k] == Stage::BuildBlockImport ==> j == k
    &&& uses_gadget(spec_action(config, known, plan[i])) ==> plan.take(i).contains(
        Stage::BuildBlockImport,
    )
}

/// A plan in order that builds the finality gadget does so once, and before what comes later.
proof fn lemma_gadget<'a>(config: &'a Configuration, plan: Seq<Stage>, known: Known, i: int)
    requires
        in_order(plan),
        plan.contains(Stage::BuildBlockImport),
        0 <= i < plan.len(),
    ensures
        gadget_is_built_once(config, plan, known, i),
{
    if plan[i].rank() > Stage::BuildBlockImport.rank() {
        lemma_earlier(plan, i, Stage::BuildBlockImport);
    }
}

/// The finality gadget's block import and its link are two halves of one: both startups build it once,
/// before anything works with either half.
pub proof fn law_one_finality_gadget<'a>(
    config: &'a Configuration,
    disable_hardware_benchmarks: bool,
    known: Known,
    i: int,
)
    ensures
        0 <= i < partial_plan(config).len() ==> gadget_is_built_once(
            config,
            partial_plan(config),
            known,
            i,
        ),
        0 <= i < full_plan(config, disable_hardware_benchmarks).len() ==> gadget_is_built_once(
            config,
            full_plan(config, disable_hardware_benchmarks),
            known,
            i,
        ),
{
    law_partial_plan_stages(config);
    law_full_plan_stages(config, disable_hardware_benchmarks);
    assert(partial_plan(config).contains(Stage::BuildBlockImport));
    assert(full_plan(config, disable_hardware_benchmarks).contains(Stage::BuildBlockImport));
    if 0 <= i < partial_plan(config).len() {
        lemma_gadget(config, partial_plan(config), known, i);
    }
    if 0 <= i < full_plan(config, disable_hardware_benchmarks).len() {
        lemma_gadget(config, full_plan(config, disable_hardware_benchmarks), known, i);
    }
}

/// No block gets past the finality gadget: those from the network, their justifications, and those that
/// the node authors are all imported through the gadget. How equivocations are checked is left to the
/// import queue's default.
pub proof fn law_blocks_go_through_the_gadget<'a>(config: &'a Configuration, known: Known, stage: Stage)
    ensures
        spec_action(config, known, stage) matches Action::BuildImportQueue(params) ==> {
            &&& params.block_import == BlockImport::Gadget
            &&& params.justification_import == Some(BlockImport::Gadget)
            &&& params.check_for_equivocation is None
        },
        spec_action(config, known, stage) matches Action::StartAura(params) ==> params.block_import
            == BlockImport::Gadget,
{
}

/// The service goes down with the tasks of the transaction pool and of the import queue, and outlives
/// those of the network, the offchain workers and the proposer.
pub proof fn law_essential_components<'a>(config: &'a Configuration, known: Known, stage: Stage)
    ensures
        match spec_action(config, known, stage) {
            Action::BuildPool { spawner, .. } => spawner is Essential,
            Action::BuildImportQueue(params) => params.spawner is Essential,
            Action::BuildNetwork { spawner, .. } => spawner is Ordinary,
            Action::BuildOffchainWorkers { spawner } => spawner is Ordinary,
            Action::BuildProposer { spawner, .. } => spawner is Ordinary,
            _ => true,
        },
{
}

/// Metrics are kept by the transaction pool, the import queue, the proposer and the voter, all in the
/// configured registry, or by none of them.
pub proof fn law_metrics_are_kept_alike<'a>(config: &'a Configuration, known: Known, stage: Stage)
    ensures
        match spec_action(config, known, stage) {
            Action::BuildPool { prometheus, .. } => prometheus == config.prometheus_enabled,
            Action::BuildImportQueue(params) => params.prometheus == config.prometheus_enabled,
            Action::BuildProposer { prometheus, .. } => prometheus == config.prometheus_enabled,
            Action::RunVoter(params) => params.prometheus == config.prometheus_enabled,
            _ => true,
        },
{
}

/// The network syncs by warp proofs that know of no hard fork, announcements of blocks are not
/// validated, and authoring and voting go by this network.
pub proof fn law_one_network<'a>(config: &'a Configuration, known: Known, stage: Stage)
    ensures
        match spec_action(config, known, stage) {
            Action::BuildWarpSync { hard_forks } => hard_forks == 0,
            Action::BuildNetwork { warp_sync, block_announce_validator, .. } => {
                warp_sync && !block_announce_validator
            },
            Action::StartAura(params) => {
                &&& params.sync_oracle == NetworkLink::Network
                &&& params.justification_sync_link == NetworkLink::Network
            },
            Action::RunVoter(params) => params.network == NetworkLink::Network,
            _ => true,
        },
{
}

/// A full service is made of the components that the startup of components alone builds, built in the
/// same way.
pub proof fn law_full_service_builds_the_components(
    config: &Configuration,
    disable_hardware_benchmarks: bool,
)
    ensures
        ({
            let start = benchmark_plan(config, disable_hardware_benchmarks).len() as int;
            full_plan(config, disable_hardware_benchmarks).subrange(
                start,
                start + partial_plan(config).len(),
            ) == partial_plan(config)
        }),
{
    let start = benchmark_plan(config, disable_hardware_benchmarks).len() as int;
    assert(full_plan(config, disable_hardware_benchmarks).subrange(
        start,
        start + partial_plan(config).len(),
    ) =~= partial_plan(config));
}

} // verus!
