//! Fork choice store.

use eip_7732::fork_choice::handlers as fc;
use eip_7732::fork_choice::store::{EpbsStore, SlotPayloadStatus};

#[test]
fn slot_starts_skipped() {
    let store = EpbsStore::new();
    assert_eq!(store.slot_status(999), SlotPayloadStatus::Skipped);
}

#[test]
fn beacon_block_marks_empty() {
    let mut store = EpbsStore::new();
    store.on_beacon_block(100, [0xBBu8; 32]);
    assert_eq!(store.slot_status(100), SlotPayloadStatus::Empty);
}

#[test]
fn payload_reveal_marks_full() {
    let mut store = EpbsStore::new();
    store.on_beacon_block(100, [0xBBu8; 32]);
    store.on_execution_payload(100);
    assert_eq!(store.slot_status(100), SlotPayloadStatus::Full);
}

#[test]
fn payload_without_beacon_block_is_noop() {
    let mut store = EpbsStore::new();
    store.on_execution_payload(100); // no beacon block first
    assert_eq!(store.slot_status(100), SlotPayloadStatus::Skipped);
}

#[test]
fn reveal_safety_not_violated_when_full() {
    let mut store = EpbsStore::new();
    store.on_beacon_block(100, [0u8; 32]);
    store.on_execution_payload(100);
    store.on_ptc_threshold_reached(100, true);
    assert!(!store.check_reveal_safety(100));
}

#[test]
fn reveal_safety_violated_when_ptc_full_but_empty() {
    let mut store = EpbsStore::new();
    store.on_beacon_block(100, [0u8; 32]);
    // No payload revealed — slot stays Empty
    store.on_ptc_threshold_reached(100, true); // PTC says present!
    assert!(store.check_reveal_safety(100));
}

#[test]
fn multiple_slots_tracked_independently() {
    let mut store = EpbsStore::new();
    store.on_beacon_block(100, [0x01u8; 32]);
    store.on_beacon_block(101, [0x02u8; 32]);
    store.on_execution_payload(100);
    // 100 = Full, 101 = Empty, 102 = Skipped
    assert_eq!(store.slot_status(100), SlotPayloadStatus::Full);
    assert_eq!(store.slot_status(101), SlotPayloadStatus::Empty);
    assert_eq!(store.slot_status(102), SlotPayloadStatus::Skipped);
}

#[test]
fn empty_slot_builder_not_paid() {
    let slot = 201u64;
    let mut store = EpbsStore::new();

    fc::on_beacon_block(&mut store, slot, [0xBBu8; 32]);
    // No envelope revealed
    fc::on_ptc_threshold(&mut store, slot, false);

    assert_eq!(store.slot_status(slot), SlotPayloadStatus::Empty);
    assert!(store.check_reveal_safety(slot) == false);
}

#[test]
fn new_beacon_block_resets_slot() {
    let mut store = EpbsStore::default();
    assert_eq!(store.finalized_slot(), 0);
    store.set_finalized_slot(3);
    assert_eq!(store.finalized_slot(), 3);
    store.on_beacon_block(7, [1u8; 32]);
    store.on_execution_payload(7);
    store.on_ptc_threshold_reached(7, true);
    store.on_beacon_block(7, [2u8; 32]);
    assert_eq!(store.slot_status(7), SlotPayloadStatus::Empty);
    assert!(!store.check_reveal_safety(7));
}

#[test]
fn ptc_without_beacon_block_is_noop() {
    let mut store = EpbsStore::new();
    fc::on_ptc_threshold(&mut store, 5, true);
    fc::on_execution_payload(&mut store, 5);
    assert_eq!(store.slot_status(5), SlotPayloadStatus::Skipped);
    assert!(!store.check_reveal_safety(5));
}
