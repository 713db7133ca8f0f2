use polkadot_primitives::vstaging::AsyncBackingParams;
use polkadot_runtime_parachains::configuration::HostConfiguration as Host;
use zeitgeist_service::host_configuration::{
    default_parachains_host_configuration, HostConfiguration, Weight,
};
use zeitgeist_service::test_net::{
    para_ext, relay_ext, Account, Amount, CurrencyId, TestNet, PARA_ID_SIBLING, ZEITGEIST_PARA_ID,
};

fn host(config: &HostConfiguration) -> Host<u32> {
    Host {
        minimum_validation_upgrade_delay: config.minimum_validation_upgrade_delay,
        validation_upgrade_cooldown: config.validation_upgrade_cooldown,
        validation_upgrade_delay: config.validation_upgrade_delay,
        code_retention_period: config.code_retention_period,
        max_code_size: config.max_code_size,
        max_pov_size: config.max_pov_size,
        max_head_data_size: config.max_head_data_size,
        group_rotation_frequency: config.group_rotation_frequency,
        chain_availability_period: config.chain_availability_period,
        thread_availability_period: config.thread_availability_period,
        max_upward_queue_count: config.max_upward_queue_count,
        max_upward_queue_size: config.max_upward_queue_size,
        max_downward_message_size: config.max_downward_message_size,
        max_upward_message_size: config.max_upward_message_size,
        max_upward_message_num_per_candidate: config.max_upward_message_num_per_candidate,
        hrmp_sender_deposit: config.hrmp_sender_deposit,
        hrmp_recipient_deposit: config.hrmp_recipient_deposit,
        hrmp_channel_max_capacity: config.hrmp_channel_max_capacity,
        hrmp_channel_max_total_size: config.hrmp_channel_max_total_size,
        hrmp_max_parachain_inbound_channels: config.hrmp_max_parachain_inbound_channels,
        hrmp_max_parathread_inbound_channels: config.hrmp_max_parathread_inbound_channels,
        hrmp_channel_max_message_size: config.hrmp_channel_max_message_size,
        hrmp_max_parachain_outbound_channels: config.hrmp_max_parachain_outbound_channels,
        hrmp_max_parathread_outbound_channels: config.hrmp_max_parathread_outbound_channels,
        hrmp_max_message_num_per_candidate: config.hrmp_max_message_num_per_candidate,
        dispute_period: config.dispute_period,
        no_show_slots: config.no_show_slots,
        n_delay_tranches: config.n_delay_tranches,
        needed_approvals: config.needed_approvals,
        relay_vrf_modulo_samples: config.relay_vrf_modulo_samples,
        zeroth_delay_tranche_width: config.zeroth_delay_tranche_width,
        async_backing_params: AsyncBackingParams {
            max_candidate_depth: config.rest.max_candidate_depth,
            allowed_ancestry_len: config.rest.allowed_ancestry_len,
        },
        parathread_cores: config.rest.parathread_cores,
        parathread_retries: config.rest.parathread_retries,
        scheduling_lookahead: config.rest.scheduling_lookahead,
        max_validators_per_core: config.rest.max_validators_per_core,
        max_validators: config.rest.max_validators,
        dispute_post_conclusion_acceptance_period: config
            .rest
            .dispute_post_conclusion_acceptance_period,
        pvf_checking_enabled: config.rest.pvf_checking_enabled,
        pvf_voting_ttl: config.rest.pvf_voting_ttl,
        executor_params: Default::default(),
    }
}

#[test]
fn host_configuration_values() {
    let config = default_parachains_host_configuration();
    assert_eq!(config.minimum_validation_upgrade_delay, 5);
    assert_eq!(config.validation_upgrade_cooldown, 5);
    assert_eq!(config.validation_upgrade_delay, 5);
    assert_eq!(config.code_retention_period, 1200);
    assert_eq!(config.max_code_size, 3_145_728);
    assert_eq!(config.max_pov_size, 5_242_880);
    assert_eq!(config.max_head_data_size, 32_768);
    assert_eq!(config.group_rotation_frequency, 20);
    assert_eq!(config.chain_availability_period, 4);
    assert_eq!(config.thread_availability_period, 4);
    assert_eq!(config.max_upward_queue_count, 8);
    assert_eq!(config.max_upward_queue_size, 1_048_576);
    assert_eq!(config.max_downward_message_size, 1_024);
    assert_eq!(
        config.ump_service_total_weight,
        Weight { ref_time: 4_000_000_000, proof_size: 0 }
    );
    assert_eq!(config.max_upward_message_size, 51_200);
    assert_eq!(config.max_upward_message_num_per_candidate, 5);
    assert_eq!(config.hrmp_sender_deposit, 0);
    assert_eq!(config.hrmp_recipient_deposit, 0);
    assert_eq!(config.hrmp_channel_max_capacity, 8);
    assert_eq!(config.hrmp_channel_max_total_size, 8_192);
    assert_eq!(config.hrmp_max_parachain_inbound_channels, 4);
    assert_eq!(config.hrmp_max_parathread_inbound_channels, 4);
    assert_eq!(config.hrmp_channel_max_message_size, 1_048_576);
    assert_eq!(config.hrmp_max_parachain_outbound_channels, 4);
    assert_eq!(config.hrmp_max_parathread_outbound_channels, 4);
    assert_eq!(config.hrmp_max_message_num_per_candidate, 5);
    assert_eq!(config.dispute_period, 6);
    assert_eq!(config.no_show_slots, 2);
    assert_eq!(config.n_delay_tranches, 25);
    assert_eq!(config.needed_approvals, 2);
    assert_eq!(config.relay_vrf_modulo_samples, 2);
    assert_eq!(config.zeroth_delay_tranche_width, 0);
}

#[test]
fn what_the_host_configuration_leaves_is_the_default() {
    let rest = default_parachains_host_configuration().rest;
    let default = Host::<u32>::default();
    assert_eq!(rest.max_candidate_depth, default.async_backing_params.max_candidate_depth);
    assert_eq!(rest.allowed_ancestry_len, default.async_backing_params.allowed_ancestry_len);
    assert_eq!(rest.parathread_cores, 0);
    assert_eq!(rest.parathread_retries, 0);
    assert_eq!(rest.scheduling_lookahead, 0);
    assert_eq!(rest.max_validators_per_core, None);
    assert_eq!(rest.max_validators, None);
    assert_eq!(rest.dispute_post_conclusion_acceptance_period, 100);
    assert!(!rest.pvf_checking_enabled);
    assert_eq!(rest.pvf_voting_ttl, 2);
    assert_eq!(rest.executor_params, 0);
    assert!(default.executor_params.is_empty());
}

#[test]
fn a_relay_chain_accepts_the_host_configuration() {
    assert!(host(&default_parachains_host_configuration()).check_consistency().is_ok());
}

#[test]
fn a_relay_chain_refuses_upgrades_before_availability() {
    let mut config = default_parachains_host_configuration();
    config.chain_availability_period = 5;
    assert!(host(&config).check_consistency().is_err());
}

#[test]
fn weight_of_time_alone() {
    assert_eq!(Weight::from_ref_time(7), Weight { ref_time: 7, proof_size: 0 });
}

#[test]
fn relay_chain_genesis() {
    let genesis = relay_ext();
    assert_eq!(genesis.balances, vec![(Account::Alice, Amount::Ksm(2002))]);
    assert_eq!(genesis.host_configuration, default_parachains_host_configuration());
    assert_eq!(genesis.safe_xcm_version, Some(2));
    assert_eq!(genesis.block_number, 1);
}

#[test]
fn parachain_genesis() {
    let genesis = para_ext(7);
    assert_eq!(genesis.parachain_id, 7);
    assert_eq!(
        genesis.balances,
        vec![
            (Account::Alice, CurrencyId::Ztg, Amount::Ztg(10)),
            (Account::Alice, CurrencyId::ForeignParent, Amount::Ksm(10)),
            (Account::ZeitgeistTreasury, CurrencyId::ForeignParent, Amount::Ksm(1)),
        ]
    );
    assert_eq!(genesis.balances, para_ext(8).balances);
}

#[test]
fn network_of_three_chains() {
    let net = TestNet::new();
    assert_eq!(net.relay_chain, relay_ext());
    assert_eq!(
        net.parachains,
        vec![(2101, para_ext(ZEITGEIST_PARA_ID)), (3000, para_ext(PARA_ID_SIBLING))]
    );
    for (id, genesis) in &net.parachains {
        assert_eq!(*id, genesis.parachain_id);
    }
}
