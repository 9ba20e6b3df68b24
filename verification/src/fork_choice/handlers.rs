//! Fork choice event handlers: wire incoming P2P events to store transitions.
use vstd::prelude::*;

use crate::beacon_chain::types::{Root, Slot};
use crate::fork_choice::store::{
    after_beacon_block, after_execution_payload, after_ptc_threshold, recorded_slots_valid,
    EpbsStore,
};

verus! {

/// Called when a SignedBeaconBlock is received and passes initial validation.
pub fn on_beacon_block(store: &mut EpbsStore, slot: Slot, block_root: Root)
    ensures
        recorded_slots_valid(old(store)@),
        recorded_slots_valid(final(store)@),
        final(store)@ == after_beacon_block(old(store)@, slot, block_root),
        final(store).finalized() == old(store).finalized(),
{
    store.on_beacon_block(slot, block_root);
}

/// Called when a SignedExecutionPayloadEnvelope is received and validated.
pub fn on_execution_payload(store: &mut EpbsStore, slot: Slot)
    ensures
        recorded_slots_valid(old(store)@),
        recorded_slots_valid(final(store)@),
        final(store)@ == after_execution_payload(old(store)@, slot),
        final(store).finalized() == old(store).finalized(),
{
    store.on_execution_payload(slot);
}

/// Called when the PTC vote tally for a slot crosses the threshold.
pub fn on_ptc_threshold(store: &mut EpbsStore, slot: Slot, payload_present: bool)
    ensures
        recorded_slots_valid(old(store)@),
        recorded_slots_valid(final(store)@),
        final(store)@ == after_ptc_threshold(old(store)@, slot, payload_present),
        final(store).finalized() == old(store).finalized(),
{
    store.on_ptc_threshold_reached(slot, payload_present);
}

} // verus!
