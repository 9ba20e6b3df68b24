//! A full ePBS round: bid → beacon block → envelope → PTC → fork choice.

use blst::min_pk::SecretKey;
use eip_7732::beacon_chain::containers::ExecutionPayload;
use eip_7732::beacon_chain::process_payload_bid::process_execution_payload_bid;
use eip_7732::beacon_chain::state::BeaconState;
use eip_7732::builder::bid::{bid_message, BidParams};
use eip_7732::builder::envelope::EnvelopeParams;
use eip_7732::builder::guide::{BuilderSlotState, HonestBuilder};
use eip_7732::fork_choice::handlers as fc;
use eip_7732::fork_choice::store::{EpbsStore, SlotPayloadStatus};
use eip_7732::utils::crypto;

const BID_ENCODING: &[u8] = b"{\"slot\":200,\"value\":500000000}";

fn test_secret_key() -> SecretKey {
    SecretKey::from_bytes(&[9u8; 32]).expect("valid sk")
}

fn bls_signer(msg: &[u8]) -> Result<[u8; 96], String> {
    crypto::bls_sign(&test_secret_key().to_bytes(), msg)
}

#[test]
fn full_slot_happy_path() {
    let slot = 200u64;
    let committed_hash = [0xAAu8; 32];
    let parent_hash = [0x01u8; 32];
    let beacon_block_root = [0xBBu8; 32];

    // 1. Builder submits bid
    let mut builder = HonestBuilder::new(1, 32_000_000_000);
    let params = BidParams {
        builder_index: 1,
        builder_balance: 32_000_000_000,
        slot,
        parent_block_hash: parent_hash,
        parent_block_root: [0x02u8; 32],
        committed_block_hash: committed_hash,
        prev_randao: [0u8; 32],
        fee_recipient: [0xFEu8; 20],
        gas_limit: 30_000_000,
        bid_value: 500_000_000,
        execution_payment: 0,
        blob_kzg_commitments: vec![],
    };
    assert_eq!(bid_message(&params).value, 500_000_000);
    let bid = builder.submit_bid(params, BID_ENCODING, bls_signer).unwrap();

    // 2. Beacon state processes bid
    let mut state = BeaconState::new(slot, slot - 1, parent_hash);
    state.builder_balances.insert(1, 32_000_000_000);
    state.builder_pubkeys.insert(1, test_secret_key().sk_to_pk().to_bytes());
    process_execution_payload_bid(&mut state, &bid, BID_ENCODING).unwrap();
    assert_eq!(state.pending_payments.len(), 1);
    assert_eq!(state.pending_payments[0].weight, 500_000_000);
    assert_eq!(state.builder_balances[&1], 31_500_000_000);

    // 3. Fork choice records beacon block
    let mut store = EpbsStore::new();
    fc::on_beacon_block(&mut store, slot, beacon_block_root);
    assert_eq!(store.slot_status(slot), SlotPayloadStatus::Empty);

    // 4. Builder reveals envelope
    builder.on_bid_included(slot);
    assert!(builder.is_ready_to_reveal());

    builder
        .reveal_envelope(
            EnvelopeParams {
                payload: ExecutionPayload {
                    block_hash: committed_hash,
                    parent_hash,
                    fee_recipient: [0xFEu8; 20],
                    gas_used: 10_000_000,
                    gas_limit: 30_000_000,
                    timestamp: 1_700_000_000,
                    extra_data: vec![],
                    transactions: vec![],
                    withdrawals: vec![],
                },
                execution_requests: vec![],
                builder_index: 1,
                beacon_block_root,
                slot,
                post_state_root: [0xCCu8; 32],
                committed_hash,
                expected_withdrawals: vec![],
            },
            b"envelope",
            bls_signer,
        )
        .unwrap();

    // 5. Fork choice records payload
    fc::on_execution_payload(&mut store, slot);
    assert_eq!(store.slot_status(slot), SlotPayloadStatus::Full);

    // 6. PTC votes present
    fc::on_ptc_threshold(&mut store, slot, true);
    builder.on_ptc_result(slot, true, 500_000_000);

    assert!(!store.check_reveal_safety(slot));
    assert!(matches!(builder.slot_state, BuilderSlotState::Paid { amount: 500_000_000, .. }));
}
