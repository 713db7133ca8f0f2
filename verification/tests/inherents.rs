use zeitgeist_service::inherents::{create_inherent_data, inherent_data_at, InherentData};

#[test]
fn slot_is_the_timestamp_in_slot_durations() {
    assert_eq!(
        inherent_data_at(1_671_000_011_999, 12_000),
        InherentData { timestamp: 1_671_000_011_999, slot: 139_250_000 }
    );
    assert_eq!(inherent_data_at(1_671_000_012_000, 12_000).slot, 139_250_001);
}

#[test]
fn slots_at_the_edges() {
    assert_eq!(inherent_data_at(0, 6_000).slot, 0);
    assert_eq!(inherent_data_at(5_999, 6_000).slot, 0);
    assert_eq!(inherent_data_at(6_000, 6_000).slot, 1);
    assert_eq!(inherent_data_at(u64::MAX, 1).slot, u64::MAX);
    assert_eq!(inherent_data_at(u64::MAX - 1, u64::MAX).slot, 0);
}

#[test]
fn a_moment_lies_in_its_slot() {
    for timestamp in [0u64, 1, 11_999, 12_000, 12_001, 1_671_000_011_999] {
        let data = inherent_data_at(timestamp, 12_000);
        assert!(data.slot * 12_000 <= timestamp);
        assert!(timestamp < (data.slot + 1) * 12_000);
    }
}

#[test]
fn slots_do_not_go_back() {
    let mut last = 0;
    for timestamp in (0..100_000u64).step_by(777) {
        let slot = inherent_data_at(timestamp, 6_000).slot;
        assert!(last <= slot);
        last = slot;
    }
}

#[test]
fn the_clock_gives_the_timestamp() {
    let before = sp_timestamp::Timestamp::current().as_millis();
    let data = create_inherent_data(12_000);
    let after = sp_timestamp::Timestamp::current().as_millis();
    assert!(before <= data.timestamp && data.timestamp <= after);
    assert_eq!(data.slot, data.timestamp / 12_000);
}
