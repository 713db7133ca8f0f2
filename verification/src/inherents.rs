use vstd::prelude::*;

verus! {

/// The slot that a moment falls into, both in milliseconds.
pub open spec fn slot_at(timestamp: nat, slot_duration: nat) -> nat {
    timestamp / slot_duration
}

/// What a block author states of a block from outside the chain.
#[derive(Clone, Copy, Debug, PartialEq, Eq, Structural)]
pub struct InherentData {
    /// Milliseconds since the start of 1970.
    pub timestamp: u64,
    /// The slot that the block is for.
    pub slot: u64,
}

/// `sp_timestamp::InherentDataProvider::from_system_time`: the milliseconds since the start of 1970
/// on the machine's clock. Nothing is claimed of the number: it depends on the moment of the call. The
/// call panics on a clock that stands before 1970.
#[verifier::external_body]
fn timestamp_from_system_time() -> u64 {
    sp_timestamp::InherentDataProvider::from_system_time().timestamp().as_millis()
}

/// `sp_consensus_aura::inherents::InherentDataProvider::from_timestamp_and_slot_duration`: the slot
/// provided is the timestamp divided by the duration, rounded down. The call panics where the duration
/// is zero.
#[verifier::external_body]
fn slot_from_timestamp_and_slot_duration(timestamp: u64, slot_duration: u64) -> (slot: u64)
    requires
        slot_duration > 0,
    ensures
        slot == slot_at(timestamp as nat, slot_duration as nat),
{
    let provider =
        sp_consensus_aura::inherents::InherentDataProvider::from_timestamp_and_slot_duration(
        sp_timestamp::Timestamp::new(timestamp),
        sp_consensus_aura::SlotDuration::from_millis(slot_duration),
    );
    u64::from(*provider)
}

/// The inherent data of a block made or checked at `timestamp`.
pub fn inherent_data_at(timestamp: u64, slot_duration: u64) -> (r: InherentData)
    requires
        slot_duration > 0,
    ensures
        r == (InherentData {
            timestamp,
            slot: slot_at(timestamp as nat, slot_duration as nat) as u64,
        }),
{
    InherentData {
        timestamp,
        slot: slot_from_timestamp_and_slot_duration(timestamp, slot_duration),
    }
}

/// The timestamp is one that reading the machine's clock gives. Which ones those are is not known; only
/// a reading shows one.
pub closed spec fn is_clock_reading(timestamp: u64) -> bool {
    call_ensures(timestamp_from_system_time, (), timestamp)
}

/// The inherent data of a block made or checked now. Which moment that is rests with the machine's
/// clock: the timestamp is one that was read off it, and the slot is the one that this moment falls
/// into.
pub fn create_inherent_data(slot_duration: u64) -> (r: InherentData)
    requires
        slot_duration > 0,
    ensures
        is_clock_reading(r.timestamp),
        r.slot == slot_at(r.timestamp as nat, slot_duration as nat),
{
    inherent_data_at(timestamp_from_system_time(), slot_duration)
}

/// A moment falls into its slot: not before the slot begins, and before the next one does.
pub proof fn law_slot_holds_its_moment(timestamp: nat, slot_duration: nat)
    requires
        slot_duration > 0,
    ensures
        slot_at(timestamp, slot_duration) * slot_duration <= timestamp,
        timestamp < (slot_at(timestamp, slot_duration) + 1) * slot_duration,
{
    let slot = slot_at(timestamp, slot_duration);
    vstd::arithmetic::div_mod::lemma_fundamental_div_mod(timestamp as int, slot_duration as int);
    vstd::arithmetic::div_mod::lemma_mod_bound(timestamp as int, slot_duration as int);
    assert(slot_duration * slot == slot * slot_duration) by (nonlinear_arith);
    assert((slot + 1) * slot_duration == slot * slot_duration + slot_duration) by (nonlinear_arith);
}

/// Time does not go back from slot to slot.
pub proof fn law_later_moments_have_no_earlier_slot(earlier: nat, later: nat, slot_duration: nat)
    requires
        slot_duration > 0,
        earlier <= later,
    ensures
        slot_at(earlier, slot_duration) <= slot_at(later, slot_duration),
{
    vstd::arithmetic::div_mod::lemma_div_is_ordered(
        earlier as int,
        later as int,
        slot_duration as int,
    );
}

} // verus!
