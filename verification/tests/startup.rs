use zeitgeist_service::actions::{
    Action, AuraParams, BlockImport, CanAuthorWith, GrandpaConfig, ImportQueueParams, NetworkLink,
    SlotPortion, Spawner, Task, VoterParams, VotingRules,
};
use zeitgeist_service::config::{
    Configuration, InstantiationStrategy, Role, TelemetryEndpoint, WasmExecutionMethod,
};
use zeitgeist_service::error::ServiceError;
use zeitgeist_service::service_standalone::{new_full, new_partial};
use zeitgeist_service::startup::{Next, Outcome, Startup};

fn config() -> Configuration {
    Configuration {
        database_path: None,
        keystore_remote: None,
        telemetry_endpoints: None,
        wasm_method: WasmExecutionMethod::Compiled(InstantiationStrategy::PoolingCopyOnWrite),
        default_heap_pages: Some(64),
        max_runtime_instances: 8,
        runtime_cache_size: 2,
        offchain_worker_enabled: false,
        role: Role::Full,
        force_authoring: false,
        node_name: "quiet-owl".to_string(),
        disable_grandpa: true,
        prometheus_enabled: false,
    }
}

fn endpoint() -> TelemetryEndpoint {
    TelemetryEndpoint { address: "/dns/telemetry.example.org/tcp/443".to_string(), verbosity: 1 }
}

fn everything() -> Configuration {
    Configuration {
        database_path: Some("/data/db".to_string()),
        telemetry_endpoints: Some(vec![endpoint()]),
        offchain_worker_enabled: true,
        role: Role::Authority,
        force_authoring: true,
        disable_grandpa: false,
        prometheus_enabled: true,
        ..config()
    }
}

/// The outcome of an action that goes well. The slot durations read are 6000, then 12000.
fn good(action: &Action, reads: &mut u64) -> Outcome<String> {
    match action {
        Action::ReadSlotDuration => {
            *reads += 1;
            Outcome::SlotDuration(6000 * *reads)
        }
        Action::NameProtocol { .. } => Outcome::ProtocolName("/7c/grandpa/1".to_string()),
        _ => Outcome::Done,
    }
}

/// Drives a startup in which the actions named in `failing` fail.
fn drive<'a>(
    startup: &mut Startup<'a>,
    failing: &[&str],
) -> (Vec<String>, Result<(), ServiceError<String>>) {
    let mut names = Vec::new();
    let mut reads = 0;
    let mut next: Next<'a, String> = startup.pending();
    loop {
        match next {
            Next::Perform(action) => {
                let name = name_of(&action);
                let outcome = if failing.contains(&name.as_str()) {
                    Outcome::Failed(format!("no {}", name))
                } else {
                    good(&action, &mut reads)
                };
                names.push(name);
                next = startup.step(outcome);
            }
            Next::Finished => return (names, Ok(())),
            Next::Failed(error) => return (names, Err(error)),
        }
    }
}

fn name_of(action: &Action) -> String {
    match action {
        Action::Spawn(task) => format!("spawn {}", task.name),
        other => {
            let text = format!("{:?}", other);
            text.split(|c: char| !c.is_alphanumeric()).next().unwrap().to_string()
        }
    }
}

/// All actions of a startup that goes well.
fn actions<'a>(startup: &mut Startup<'a>) -> Vec<Action<'a>> {
    let mut all = Vec::new();
    let mut reads = 0;
    let mut next: Next<'a, String> = startup.pending();
    while let Next::Perform(action) = next {
        let outcome = good(&action, &mut reads);
        all.push(action);
        next = startup.step(outcome);
    }
    assert_eq!(next, Next::Finished);
    all
}

#[test]
fn smallest_service() {
    let config = config();
    let (names, end) = drive(&mut new_full(&config, false), &[]);
    assert_eq!(end, Ok(()));
    assert_eq!(
        names,
        vec![
            "BuildExecutor",
            "BuildParts",
            "SelectChain",
            "BuildPool",
            "BuildBlockImport",
            "ReadSlotDuration",
            "BuildImportQueue",
            "NameProtocol",
            "AddPeersSet",
            "BuildWarpSync",
            "BuildNetwork",
            "SpawnTasks",
            "StartNetwork",
        ]
    );
}

#[test]
fn largest_service() {
    let config = everything();
    let (names, end) = drive(&mut new_full(&config, false), &[]);
    assert_eq!(end, Ok(()));
    assert_eq!(
        names,
        vec![
            "CreateDatabaseDir",
            "GatherBenchmarks",
            "StartTelemetry",
            "BuildExecutor",
            "BuildParts",
            "spawn telemetry",
            "SelectChain",
            "BuildPool",
            "BuildBlockImport",
            "ReadSlotDuration",
            "BuildImportQueue",
            "NameProtocol",
            "AddPeersSet",
            "BuildWarpSync",
            "BuildNetwork",
            "BuildOffchainWorkers",
            "SpawnTasks",
            "PrintBenchmarks",
            "spawn telemetry_hwbench",
            "BuildProposer",
            "ReadSlotDuration",
            "StartAura",
            "spawn aura",
            "RunVoter",
            "spawn grandpa-voter",
            "StartNetwork",
        ]
    );
}

#[test]
fn actions_carry_their_parameters() {
    let config = everything();
    let actions = actions(&mut new_full(&config, false));
    let path = "/data/db".to_string();
    let name = "quiet-owl".to_string();
    let protocol_name = "/7c/grandpa/1".to_string();
    let endpoints = vec![endpoint()];
    assert_eq!(
        actions,
        vec![
            Action::CreateDatabaseDir { path: &path },
            Action::GatherBenchmarks { path: &path },
            Action::StartTelemetry { buffer_size: 16, endpoints: &endpoints },
            Action::BuildExecutor {
                wasm_method: WasmExecutionMethod::Compiled(
                    InstantiationStrategy::PoolingCopyOnWrite,
                ),
                default_heap_pages: Some(64),
                max_runtime_instances: 8,
                runtime_cache_size: 2,
            },
            Action::BuildParts { telemetry: true },
            Action::Spawn(Task { name: "telemetry", group: None, essential: false, blocking: false }),
            Action::SelectChain,
            Action::BuildPool {
                is_validator: true,
                prometheus: true,
                spawner: Spawner::Essential,
            },
            Action::BuildBlockImport { telemetry: true },
            Action::ReadSlotDuration,
            Action::BuildImportQueue(ImportQueueParams {
                slot_duration: 6000,
                block_import: BlockImport::Gadget,
                justification_import: Some(BlockImport::Gadget),
                spawner: Spawner::Essential,
                can_author_with: CanAuthorWith::NativeVersion,
                check_for_equivocation: None,
                prometheus: true,
                telemetry: true,
            }),
            Action::NameProtocol { block: 0 },
            Action::AddPeersSet { protocol_name: protocol_name.clone() },
            Action::BuildWarpSync { hard_forks: 0 },
            Action::BuildNetwork {
                spawner: Spawner::Ordinary,
                warp_sync: true,
                block_announce_validator: false,
            },
            Action::BuildOffchainWorkers { spawner: Spawner::Ordinary },
            Action::SpawnTasks { keystore: true, telemetry: true },
            Action::PrintBenchmarks,
            Action::Spawn(Task {
                name: "telemetry_hwbench",
                group: None,
                essential: false,
                blocking: false,
            }),
            Action::BuildProposer {
                spawner: Spawner::Ordinary,
                prometheus: true,
                telemetry: true,
            },
            Action::ReadSlotDuration,
            Action::StartAura(AuraParams {
                slot_duration: 12000,
                block_import: BlockImport::Gadget,
                force_authoring: true,
                backoff_authoring_blocks: None,
                keystore: true,
                can_author_with: CanAuthorWith::NativeVersion,
                sync_oracle: NetworkLink::Network,
                justification_sync_link: NetworkLink::Network,
                block_proposal_slot_portion: SlotPortion { numerator: 2, denominator: 3 },
                max_block_proposal_slot_portion: None,
                telemetry: true,
            }),
            Action::Spawn(Task {
                name: "aura",
                group: Some("block-authoring"),
                essential: true,
                blocking: true,
            }),
            Action::RunVoter(VoterParams {
                config: GrandpaConfig {
                    gossip_duration: 333,
                    justification_period: 512,
                    name: Some(&name),
                    observer_enabled: false,
                    keystore: true,
                    local_role: Role::Authority,
                    telemetry: true,
                    protocol_name,
                },
                network: NetworkLink::Network,
                voting_rules: VotingRules::Standard,
                prometheus: true,
                shared_voter_state: false,
                telemetry: true,
            }),
            Action::Spawn(Task {
                name: "grandpa-voter",
                group: None,
                essential: true,
                blocking: true,
            }),
            Action::StartNetwork,
        ]
    );
}

#[test]
fn voter_of_a_full_node_gets_no_keystore() {
    let config = Configuration { disable_grandpa: false, ..config() };
    let actions = actions(&mut new_full(&config, false));
    let voters: Vec<&Action> =
        actions.iter().filter(|a| matches!(a, Action::RunVoter(_))).collect();
    assert_eq!(voters.len(), 1);
    match voters[0] {
        Action::RunVoter(params) => {
            assert!(!params.config.keystore);
            assert_eq!(params.config.local_role, Role::Full);
            assert!(!params.config.observer_enabled);
            assert!(!params.config.telemetry);
            assert!(!params.telemetry);
        }
        _ => unreachable!(),
    }
    assert!(!actions.iter().any(|a| matches!(a, Action::StartAura(_))));
    assert!(actions.contains(&Action::SpawnTasks { keystore: true, telemetry: false }));
    assert!(actions.contains(&Action::BuildPool {
        is_validator: false,
        prometheus: false,
        spawner: Spawner::Essential,
    }));
}

#[test]
fn partial_stops_at_the_import_queue() {
    let config = everything();
    let mut startup = new_partial::<String>(&config).unwrap();
    let (names, end) = drive(&mut startup, &[]);
    assert_eq!(end, Ok(()));
    assert_eq!(
        names,
        vec![
            "StartTelemetry",
            "BuildExecutor",
            "BuildParts",
            "spawn telemetry",
            "SelectChain",
            "BuildPool",
            "BuildBlockImport",
            "ReadSlotDuration",
            "BuildImportQueue",
        ]
    );
}

#[test]
fn partial_refuses_a_remote_keystore() {
    let config =
        Configuration { keystore_remote: Some("http://keys".to_string()), ..everything() };
    assert_eq!(
        new_partial::<String>(&config).err(),
        Some(ServiceError::Other("Remote Keystores are not supported.".to_string()))
    );
}

#[test]
fn full_refuses_a_remote_keystore_after_the_benchmarks() {
    let config =
        Configuration { keystore_remote: Some("http://keys".to_string()), ..everything() };
    let refusal = Err(ServiceError::Other("Remote Keystores are not supported.".to_string()));
    let (names, end) = drive(&mut new_full(&config, false), &[]);
    assert_eq!(names, vec!["CreateDatabaseDir", "GatherBenchmarks"]);
    assert_eq!(end, refusal);
    let (names, end) = drive(&mut new_full(&config, true), &[]);
    assert!(names.is_empty());
    assert_eq!(end, refusal);
}

#[test]
fn benchmarks_need_a_database_on_disk() {
    let config = Configuration { database_path: None, ..everything() };
    let (names, _) = drive(&mut new_full(&config, false), &[]);
    assert!(!names.iter().any(|n| n.contains("Benchmarks") || n.contains("hwbench")));
    assert!(!names.contains(&"CreateDatabaseDir".to_string()));
}

#[test]
fn benchmarks_can_be_switched_off() {
    let config = everything();
    let (names, _) = drive(&mut new_full(&config, true), &[]);
    assert!(!names.iter().any(|n| n.contains("Benchmarks") || n.contains("hwbench")));
}

#[test]
fn benchmarks_without_telemetry_are_only_printed() {
    let config = Configuration { telemetry_endpoints: None, ..everything() };
    let (names, _) = drive(&mut new_full(&config, false), &[]);
    assert!(names.contains(&"PrintBenchmarks".to_string()));
    assert!(!names.contains(&"spawn telemetry_hwbench".to_string()));
}

#[test]
fn an_empty_list_of_endpoints_is_no_telemetry() {
    let config = Configuration { telemetry_endpoints: Some(Vec::new()), ..everything() };
    assert!(!config.telemetry_enabled());
    let actions = actions(&mut new_full(&config, false));
    assert!(!actions.iter().any(|a| matches!(a, Action::StartTelemetry { .. })));
    assert!(actions.contains(&Action::BuildParts { telemetry: false }));
    assert!(actions.contains(&Action::SpawnTasks { keystore: true, telemetry: false }));
}

#[test]
fn a_directory_that_cannot_be_made_does_not_stop_the_startup() {
    let config = everything();
    let (names, end) = drive(&mut new_full(&config, false), &["CreateDatabaseDir"]);
    assert_eq!(end, Ok(()));
    assert_eq!(names.len(), 26);
}

#[test]
fn the_first_failure_ends_the_startup() {
    let config = everything();
    let (all, _) = drive(&mut new_full(&config, false), &[]);
    for name in [
        "StartTelemetry",
        "BuildParts",
        "BuildBlockImport",
        "ReadSlotDuration",
        "BuildImportQueue",
        "BuildNetwork",
        "SpawnTasks",
        "StartAura",
        "RunVoter",
    ] {
        let (names, end) = drive(&mut new_full(&config, false), &[name]);
        assert_eq!(end, Err(ServiceError::Component(format!("no {}", name))));
        let at = all.iter().position(|n| n == name).unwrap();
        assert_eq!(names, all[..at + 1].to_vec());
        assert!(!names.contains(&"StartNetwork".to_string()));
    }
}

#[test]
fn the_authoring_slot_duration_may_fail_after_the_import_one() {
    let config = everything();
    let mut startup = new_full(&config, false);
    let mut reads = 0;
    let mut next: Next<String> = startup.pending();
    let end = loop {
        match next {
            Next::Perform(Action::ReadSlotDuration) if reads == 1 => {
                next = startup.step(Outcome::Failed("no runtime".to_string()));
            }
            Next::Perform(action) => next = startup.step(good(&action, &mut reads)),
            other => break other,
        }
    };
    assert_eq!(end, Next::Failed(ServiceError::Component("no runtime".to_string())));
}

#[test]
fn offchain_workers_start_between_network_and_tasks() {
    let config = Configuration { offchain_worker_enabled: true, ..config() };
    let (names, _) = drive(&mut new_full(&config, false), &[]);
    let at = names.iter().position(|n| n == "BuildOffchainWorkers").unwrap();
    assert_eq!(names[at - 1], "BuildNetwork");
    assert_eq!(names[at + 1], "SpawnTasks");
}

#[test]
fn both_startups_build_one_gadget_before_they_use_it() {
    let config = everything();
    let components = actions(&mut new_partial::<String>(&config).unwrap());
    let service = actions(&mut new_full(&config, false));
    for all in [components, service] {
        let built: Vec<usize> = (0..all.len())
            .filter(|i| matches!(all[*i], Action::BuildBlockImport { .. }))
            .collect();
        assert_eq!(built.len(), 1);
        for (i, action) in all.iter().enumerate() {
            let uses = match action {
                Action::BuildImportQueue(params) => params.block_import == BlockImport::Gadget,
                Action::StartAura(params) => params.block_import == BlockImport::Gadget,
                Action::BuildWarpSync { .. } | Action::RunVoter(_) => true,
                _ => false,
            };
            assert!(!uses || built[0] < i);
        }
    }
}

#[test]
fn without_a_registry_no_metrics_are_kept() {
    let config = Configuration { prometheus_enabled: false, ..everything() };
    for action in actions(&mut new_full(&config, false)) {
        match action {
            Action::BuildPool { prometheus, .. } => assert!(!prometheus),
            Action::BuildImportQueue(params) => assert!(!params.prometheus),
            Action::BuildProposer { prometheus, .. } => assert!(!prometheus),
            Action::RunVoter(params) => assert!(!params.prometheus),
            _ => {}
        }
    }
}
