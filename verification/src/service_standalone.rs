//! The two startups of a standalone node.
use vstd::prelude::*;

use crate::config::Configuration;
use crate::error::ServiceError;
use crate::keystore::hook_up_remote_keystore;
use crate::plan::{push_benchmark_stages, push_partial_stages, push_service_stages, Stage};
use crate::startup::{Startup, StartupState};

verus! {

/// What an operator is told who asks for a remote keystore.
pub open spec fn remote_keystores_message() -> Seq<char> {
    "Remote Keystores are not supported."@
}

/// The startup of a node's components.
pub open spec fn partial_startup<'a>(config: &'a Configuration) -> StartupState<'a> {
    StartupState::initial(config, crate::plan::partial_plan(config), None)
}

/// The startup of a full service. Where a remote keystore is asked for, the hardware is measured, and
/// then the startup is refused before any component is built.
pub open spec fn full_startup<'a>(
    config: &'a Configuration,
    disable_hardware_benchmarks: bool,
) -> StartupState<'a> {
    if config.keystore_remote is Some {
        StartupState::initial(
            config,
            crate::plan::benchmark_plan(config, disable_hardware_benchmarks),
            Some(remote_keystores_message()),
        )
    } else {
        StartupState::initial(
            config,
            crate::plan::full_plan(config, disable_hardware_benchmarks),
            None,
        )
    }
}

/// The startup of a node's components is well-formed.
pub proof fn lemma_partial_startup_wf(config: &Configuration)
    ensures
        partial_startup(config).wf(),
{
    crate::plan::law_partial_plan_stages(config);
    let plan = partial_startup(config).plan;
    assert forall|i: int| 0 <= i < plan.len() implies (#[trigger] plan[i]).in_partial(config) by {
        assert(plan.contains(plan[i]));
    }
    assert(plan.contains(Stage::ReadImportSlotDuration));
}

/// The startup of a full service is well-formed.
pub proof fn lemma_full_startup_wf(config: &Configuration, disable_hardware_benchmarks: bool)
    ensures
        full_startup(config, disable_hardware_benchmarks).wf(),
{
    crate::plan::law_full_plan_stages(config, disable_hardware_benchmarks);
    let state = full_startup(config, disable_hardware_benchmarks);
    let plan = state.plan;
    if config.keystore_remote is None {
        assert forall|i: int| 0 <= i < plan.len() implies (#[trigger] plan[i]).in_full(
            config,
            disable_hardware_benchmarks,
        ) by {
            assert(plan.contains(plan[i]));
        }
        assert(plan.contains(Stage::ReadImportSlotDuration));
        assert(plan.contains(Stage::NameProtocol));
        assert(config.role.is_authority() ==> plan.contains(Stage::ReadAuthoringSlotDuration));
    }
}

/// Starts to build a node's components. A remote keystore is refused.
pub fn new_partial<'a, E>(config: &'a Configuration) -> (r: Result<Startup<'a>, ServiceError<E>>)
    ensures
        config.keystore_remote is Some ==> {
            &&& r matches Err(ServiceError::Other(message))
            &&& message@ == remote_keystores_message()
        },
        config.keystore_remote is None ==> {
            &&& r matches Ok(startup)
            &&& startup@ == partial_startup(config)
            &&& startup@.wf()
        },
{
    if config.keystore_remote.is_some() {
        return Err(ServiceError::Other("Remote Keystores are not supported.".to_owned()));
    }
    let mut plan: Vec<Stage> = Vec::new();
    push_partial_stages(&mut plan, config);
    proof {
        lemma_partial_startup_wf(config);
    }
    assert(plan@ == crate::plan::partial_plan(config));
    Ok(Startup::new(config, plan))
}

/// Starts to build a full service.
pub fn new_full<'a>(config: &'a Configuration, disable_hardware_benchmarks: bool) -> (r: Startup<'a>)
    ensures
        r@ == full_startup(config, disable_hardware_benchmarks),
        r@.wf(),
{
    let mut plan: Vec<Stage> = Vec::new();
    push_benchmark_stages(&mut plan, config, disable_hardware_benchmarks);
    assert(plan@ == crate::plan::benchmark_plan(config, disable_hardware_benchmarks));
    proof {
        lemma_full_startup_wf(config, disable_hardware_benchmarks);
    }
    match new_partial::<()>(config) {
        Err(ServiceError::Other(message)) => return Startup::refused(config, plan, message),
        _ => {},
    }
    push_partial_stages(&mut plan, config);
    match hook_up_remote_keystore::<()>(config) {
        Err(ServiceError::Other(message)) => return Startup::refused(config, plan, message),
        _ => {},
    }
    push_service_stages(&mut plan, config, disable_hardware_benchmarks);
    Startup::new(config, plan)
}

} // verus!
