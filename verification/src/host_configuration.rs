//! The configuration of a relay chain that hosts parachains.
use vstd::prelude::*;

verus! {

/// How much execution may cost.
#[derive(Clone, Copy, Debug, PartialEq, Eq, Structural)]
pub struct Weight {
    /// Time, in picoseconds on the reference machine.
    pub ref_time: u64,
    /// Bytes of storage proof.
    pub proof_size: u64,
}

/// What a relay chain allows its parachains.
#[derive(Clone, Copy, Debug, PartialEq, Eq)]
pub struct HostConfiguration {
    pub minimum_validation_upgrade_delay: u32,
    pub validation_upgrade_cooldown: u32,
    pub validation_upgrade_delay: u32,
    pub code_retention_period: u32,
    pub max_code_size: u32,
    pub max_pov_size: u32,
    pub max_head_data_size: u32,
    pub group_rotation_frequency: u32,
    pub chain_availability_period: u32,
    pub thread_availability_period: u32,
    pub max_upward_queue_count: u32,
    pub max_upward_queue_size: u32,
    pub max_downward_message_size: u32,
    pub ump_service_total_weight: Weight,
    pub max_upward_message_size: u32,
    pub max_upward_message_num_per_candidate: u32,
    pub hrmp_sender_deposit: u128,
    pub hrmp_recipient_deposit: u128,
    pub hrmp_channel_max_capacity: u32,
    pub hrmp_channel_max_total_size: u32,
    pub hrmp_max_parachain_inbound_channels: u32,
    pub hrmp_max_parathread_inbound_channels: u32,
    pub hrmp_channel_max_message_size: u32,
    pub hrmp_max_parachain_outbound_channels: u32,
    pub hrmp_max_parathread_outbound_channels: u32,
    pub hrmp_max_message_num_per_candidate: u32,
    pub dispute_period: u32,
    pub no_show_slots: u32,
    pub n_delay_tranches: u32,
    pub needed_approvals: u32,
    pub relay_vrf_modulo_samples: u32,
    pub zeroth_delay_tranche_width: u32,
    /// The rest, which stays as it is by default.
    pub rest: HostDefaults,
}

/// What a host configuration holds besides, and what no chain here sets.
#[derive(Clone, Copy, Debug, PartialEq, Eq)]
pub struct HostDefaults {
    /// How many blocks of a parachain may wait to be included.
    pub max_candidate_depth: u32,
    /// How far back the relay chain's block may lie that they build on.
    pub allowed_ancestry_len: u32,
    pub parathread_cores: u32,
    pub parathread_retries: u32,
    pub scheduling_lookahead: u32,
    pub max_validators_per_core: Option<u32>,
    pub max_validators: Option<u32>,
    pub dispute_post_conclusion_acceptance_period: u32,
    pub pvf_checking_enabled: bool,
    pub pvf_voting_ttl: u32,
    /// How many parameters the executor of validation code is given.
    pub executor_params: usize,
}

/// The largest validation code that any relay chain takes, in bytes.
pub const MAX_CODE_SIZE: u32 = 3 * 1024 * 1024;

/// The largest proof of validity that any relay chain takes, in bytes.
pub const MAX_POV_SIZE: u32 = 5 * 1024 * 1024;

impl HostConfiguration {
    /// A relay chain can start with this configuration: what it divides time by is not zero, its limits
    /// keep to those of every relay chain, and code is upgraded no sooner than a block can become
    /// available.
    pub open spec fn is_consistent(self) -> bool {
        &&& self.group_rotation_frequency > 0
        &&& self.chain_availability_period > 0
        &&& self.thread_availability_period > 0
        &&& self.no_show_slots > 0
        &&& self.max_code_size <= MAX_CODE_SIZE
        &&& self.max_head_data_size <= 1024 * 1024
        &&& self.max_pov_size <= MAX_POV_SIZE
        &&& self.minimum_validation_upgrade_delay > self.chain_availability_period
        &&& self.minimum_validation_upgrade_delay > self.thread_availability_period
        &&& self.validation_upgrade_delay > 1
        &&& self.max_upward_message_size <= 128 * 1024
        &&& self.hrmp_max_message_num_per_candidate <= 16 * 1024
        &&& self.max_upward_message_num_per_candidate <= 16 * 1024
        &&& self.hrmp_max_parachain_outbound_channels <= 128
        &&& self.hrmp_max_parachain_inbound_channels <= 128
    }
}

/// `frame_support::weights::Weight::from_parts`: a weight of that much time and that many bytes.
#[verifier::external_body]
fn weight_from_parts(ref_time: u64, proof_size: u64) -> (weight: Weight)
    ensures
        weight == (Weight { ref_time, proof_size }),
{
    let weight = frame_support::weights::Weight::from_parts(ref_time, proof_size);
    Weight { ref_time: weight.ref_time(), proof_size: weight.proof_size() }
}

impl Weight {
    /// A weight of time alone.
    pub fn from_ref_time(ref_time: u64) -> (weight: Weight)
        ensures
            weight == (Weight { ref_time, proof_size: 0 }),
    {
        weight_from_parts(ref_time, 0)
    }
}

/// `polkadot_primitives::MAX_CODE_SIZE`: three mebibytes.
#[verifier::external_body]
fn max_code_size() -> (size: u32)
    ensures
        size == MAX_CODE_SIZE,
{
    polkadot_primitives::MAX_CODE_SIZE
}

/// `polkadot_primitives::MAX_POV_SIZE`: five mebibytes.
#[verifier::external_body]
fn max_pov_size() -> (size: u32)
    ensures
        size == MAX_POV_SIZE,
{
    polkadot_primitives::MAX_POV_SIZE
}

/// The default of what no chain here sets.
pub open spec fn spec_host_defaults() -> HostDefaults {
    HostDefaults {
        max_candidate_depth: 0,
        allowed_ancestry_len: 0,
        parathread_cores: 0,
        parathread_retries: 0,
        scheduling_lookahead: 0,
        max_validators_per_core: None,
        max_validators: None,
        dispute_post_conclusion_acceptance_period: 100,
        pvf_checking_enabled: false,
        pvf_voting_ttl: 2,
        executor_params: 0,
    }
}

/// `polkadot_runtime_parachains::configuration::HostConfiguration::default`, for block numbers of 32
/// bits, and of it the part that no chain here sets. Of the executor's parameters, a list, the length
/// is handed out: none is given by default.
#[verifier::external_body]
fn host_defaults() -> (rest: HostDefaults)
    ensures
        rest == spec_host_defaults(),
{
    let host = polkadot_runtime_parachains::configuration::HostConfiguration::<u32>::default();
    HostDefaults {
        max_candidate_depth: host.async_backing_params.max_candidate_depth,
        allowed_ancestry_len: host.async_backing_params.allowed_ancestry_len,
        parathread_cores: host.parathread_cores,
        parathread_retries: host.parathread_retries,
        scheduling_lookahead: host.scheduling_lookahead,
        max_validators_per_core: host.max_validators_per_core,
        max_validators: host.max_validators,
        dispute_post_conclusion_acceptance_period: host.dispute_post_conclusion_acceptance_period,
        pvf_checking_enabled: host.pvf_checking_enabled,
        pvf_voting_ttl: host.pvf_voting_ttl,
        executor_params: host.executor_params.len(),
    }
}

/// The host configuration of a relay chain for tests.
pub open spec fn spec_default_parachains_host_configuration() -> HostConfiguration {
    HostConfiguration {
        minimum_validation_upgrade_delay: 5,
        validation_upgrade_cooldown: 5,
        validation_upgrade_delay: 5,
        code_retention_period: 1200,
        max_code_size: MAX_CODE_SIZE,
        max_pov_size: MAX_POV_SIZE,
        max_head_data_size: 32768,
        group_rotation_frequency: 20,
        chain_availability_period: 4,
        thread_availability_period: 4,
        max_upward_queue_count: 8,
        max_upward_queue_size: 1048576,
        max_downward_message_size: 1024,
        ump_service_total_weight: Weight { ref_time: 4_000_000_000, proof_size: 0 },
        max_upward_message_size: 51200,
        max_upward_message_num_per_candidate: 5,
        hrmp_sender_deposit: 0,
        hrmp_recipient_deposit: 0,
        hrmp_channel_max_capacity: 8,
        hrmp_channel_max_total_size: 8192,
        hrmp_max_parachain_inbound_channels: 4,
        hrmp_max_parathread_inbound_channels: 4,
        hrmp_channel_max_message_size: 1048576,
        hrmp_max_parachain_outbound_channels: 4,
        hrmp_max_parathread_outbound_channels: 4,
        hrmp_max_message_num_per_candidate: 5,
        dispute_period: 6,
        no_show_slots: 2,
        n_delay_tranches: 25,
        needed_approvals: 2,
        relay_vrf_modulo_samples: 2,
        zeroth_delay_tranche_width: 0,
        rest: spec_host_defaults(),
    }
}

/// The host configuration of a relay chain for tests.
#[verifier::when_used_as_spec(spec_default_parachains_host_configuration)]
pub fn default_parachains_host_configuration() -> (r: HostConfiguration)
    ensures
        r == default_parachains_host_configuration(),
        r.is_consistent(),
{
    HostConfiguration {
        minimum_validation_upgrade_delay: 5,
        validation_upgrade_cooldown: 5,
        validation_upgrade_delay: 5,
        code_retention_period: 1200,
        max_code_size: max_code_size(),
        max_pov_size: max_pov_size(),
        max_head_data_size: 32 * 1024,
        group_rotation_frequency: 20,
        chain_availability_period: 4,
        thread_availability_period: 4,
        max_upward_queue_count: 8,
        max_upward_queue_size: 1024 * 1024,
        max_downward_message_size: 1024,
        ump_service_total_weight: Weight::from_ref_time(4 * 1_000_000_000),
        max_upward_message_size: 50 * 1024,
        max_upward_message_num_per_candidate: 5,
        hrmp_sender_deposit: 0,
        hrmp_recipient_deposit: 0,
        hrmp_channel_max_capacity: 8,
        hrmp_channel_max_total_size: 8 * 1024,
        hrmp_max_parachain_inbound_channels: 4,
        hrmp_max_parathread_inbound_channels: 4,
        hrmp_channel_max_message_size: 1024 * 1024,
        hrmp_max_parachain_outbound_channels: 4,
        hrmp_max_parathread_outbound_channels: 4,
        hrmp_max_message_num_per_candidate: 5,
        dispute_period: 6,
        no_show_slots: 2,
        n_delay_tranches: 25,
        needed_approvals: 2,
        relay_vrf_modulo_samples: 2,
        zeroth_delay_tranche_width: 0,
        rest: host_defaults(),
    }
}

} // verus!
