//! Beacon chain state transition functions: bids, withdrawals, PTC attestations.

use blst::min_pk::{AggregateSignature, SecretKey, Signature};
use eip_7732::beacon_chain::constants::{
    DOMAIN_BEACON_BUILDER, DOMAIN_PTC_ATTESTER, MAX_PAYLOAD_ATTESTATIONS, PTC_SIZE,
};
use eip_7732::beacon_chain::containers::{
    BeaconBlockBodyEpbs, BuilderPendingPayment, BuilderPendingWithdrawal, ExecutionPayloadBid,
    PayloadAttestation, PayloadAttestationData, SignedExecutionPayloadBid, Withdrawal,
};
use eip_7732::beacon_chain::process_payload_attestation::{
    process_payload_attestation, PayloadAttestationError,
};
use eip_7732::beacon_chain::process_payload_bid::{
    apply_execution_payload_bid, check_execution_payload_bid, process_execution_payload_bid,
    PayloadBidError,
};
use eip_7732::beacon_chain::state::BeaconState;
use eip_7732::beacon_chain::types::{Slot, ValidatorIndex};
use eip_7732::beacon_chain::withdrawals::{
    compute_next_withdrawals, process_withdrawals_consensus, verify_payload_withdrawals,
    WithdrawalError, WithdrawalState,
};
use eip_7732::utils::crypto::bls_sign;
use eip_7732::utils::ssz::{compute_domain_simple, signing_root_encoded};

/// The canonical encoding handed to bid processing in these tests.
const BID_ENCODING: &[u8] = b"{\"slot\":100,\"builder_index\":1}";
/// The canonical encoding handed to attestation processing in these tests.
const DATA_ENCODING: &[u8] = b"{\"slot\":99,\"payload_present\":true}";

fn builder_key() -> SecretKey {
    SecretKey::from_bytes(&[9u8; 32]).expect("valid sk")
}

fn ptc_key(i: usize) -> SecretKey {
    let mut ikm = [0x5Au8; 32];
    ikm[0] = (i & 0xFF) as u8;
    ikm[1] = (i >> 8) as u8;
    SecretKey::key_gen(&ikm, &[]).expect("valid ikm")
}

// ── Beacon state fixture ───────────────────────────────────────────────────────

/// A state at `slot` whose parent block is at `slot - 1`, with builder 1
/// holding 32 ETH and the builder key's public key.
fn state_at(slot: Slot) -> BeaconState {
    let mut state = BeaconState::new(slot, slot - 1, [0x01u8; 32]);
    state.builder_balances.insert(1u64, 32_000_000_000u64);
    state.builder_pubkeys.insert(1u64, builder_key().sk_to_pk().to_bytes());
    state.parent_block_root = [0xBBu8; 32];
    state.ptc.insert(slot - 1, (0..PTC_SIZE as u64).collect::<Vec<ValidatorIndex>>());
    state
}

fn bid_signature() -> [u8; 96] {
    let root = signing_root_encoded(BID_ENCODING, compute_domain_simple(DOMAIN_BEACON_BUILDER));
    bls_sign(&builder_key().to_bytes(), &root).unwrap()
}

fn make_valid_bid(slot: Slot) -> SignedExecutionPayloadBid {
    SignedExecutionPayloadBid {
        message: ExecutionPayloadBid {
            parent_block_hash: [0x01u8; 32],
            parent_block_root: [0x02u8; 32],
            block_hash: [0xAAu8; 32],
            prev_randao: [0u8; 32],
            fee_recipient: [0xFEu8; 20],
            gas_limit: 30_000_000,
            builder_index: 1,
            slot,
            value: 1_000_000_000,
            execution_payment: 0,
            blob_kzg_commitments: vec![],
        },
        signature: bid_signature(),
    }
}

// ── process_execution_payload_bid ─────────────────────────────────────────────

#[test]
fn valid_bid_accepted() {
    let mut state = state_at(100);
    let bid = make_valid_bid(100);
    assert!(process_execution_payload_bid(&mut state, &bid, BID_ENCODING).is_ok());
    assert_eq!(state.pending_payments.len(), 1);
    assert_eq!(state.pending_payments[0].weight, 1_000_000_000);
}

#[test]
fn bid_wrong_slot_rejected() {
    let mut state = state_at(100);
    let bid = make_valid_bid(99); // wrong slot
    let err = process_execution_payload_bid(&mut state, &bid, BID_ENCODING).unwrap_err();
    assert!(matches!(err, PayloadBidError::SlotMismatch { .. }));
}

#[test]
fn bid_unknown_builder_rejected() {
    let mut state = state_at(100);
    let mut bid = make_valid_bid(100);
    bid.message.builder_index = 999; // unknown
    let err = process_execution_payload_bid(&mut state, &bid, BID_ENCODING).unwrap_err();
    assert!(matches!(err, PayloadBidError::BuilderNotFound(999)));
}

#[test]
fn bid_insufficient_balance_rejected() {
    let mut state = state_at(100);
    state.builder_balances.insert(1, 500); // too low
    let mut bid = make_valid_bid(100);
    bid.message.value = 1_000; // bid > balance
    let err = process_execution_payload_bid(&mut state, &bid, BID_ENCODING).unwrap_err();
    assert!(matches!(err, PayloadBidError::InsufficientBalance { .. }));
}

#[test]
fn bid_parent_hash_mismatch_rejected() {
    let mut state = state_at(100);
    state.latest_block_hash = [0xFFu8; 32]; // different
    let bid = make_valid_bid(100);
    let err = process_execution_payload_bid(&mut state, &bid, BID_ENCODING).unwrap_err();
    assert!(matches!(err, PayloadBidError::ParentHashMismatch));
}

#[test]
fn builder_balance_deducted_after_bid() {
    let mut state = state_at(100);
    let initial_bal = *state.builder_balances.get(&1).unwrap();
    let bid = make_valid_bid(100);
    let bid_value = bid.message.value;
    process_execution_payload_bid(&mut state, &bid, BID_ENCODING).unwrap();
    let new_bal = *state.builder_balances.get(&1).unwrap();
    assert_eq!(new_bal, initial_bal - bid_value);
}

#[test]
fn bid_pending_payment_pays_fee_recipient() {
    let mut state = state_at(100);
    let bid = make_valid_bid(100);
    process_execution_payload_bid(&mut state, &bid, BID_ENCODING).unwrap();
    assert_eq!(
        state.pending_payments,
        vec![BuilderPendingPayment {
            weight: 1_000_000_000,
            withdrawal: BuilderPendingWithdrawal {
                fee_recipient: [0xFEu8; 20],
                amount: 1_000_000_000,
                builder_index: 1,
            },
        }]
    );
}

#[test]
fn bid_bad_signature_rejected_and_state_kept() {
    let mut state = state_at(100);
    let mut bid = make_valid_bid(100);
    bid.signature = [0u8; 96];
    assert_eq!(
        process_execution_payload_bid(&mut state, &bid, BID_ENCODING).unwrap_err(),
        PayloadBidError::InvalidSignature
    );
    // A signature over a different encoding does not verify either.
    let bid = make_valid_bid(100);
    assert_eq!(
        process_execution_payload_bid(&mut state, &bid, b"other").unwrap_err(),
        PayloadBidError::InvalidSignature
    );
    assert_eq!(state.builder_balances[&1], 32_000_000_000);
    assert!(state.pending_payments.is_empty());
}

#[test]
fn bid_missing_pubkey_rejected() {
    let mut state = state_at(100);
    state.builder_pubkeys.clear();
    let bid = make_valid_bid(100);
    assert_eq!(
        process_execution_payload_bid(&mut state, &bid, BID_ENCODING).unwrap_err(),
        PayloadBidError::MissingPubkey(1)
    );
}

#[test]
fn bid_errors_carry_details() {
    let state = state_at(100);
    let bid = make_valid_bid(99);
    assert_eq!(
        check_execution_payload_bid(&state, &bid.message).unwrap_err(),
        PayloadBidError::SlotMismatch { bid_slot: 99, block_slot: 100 }
    );
    let mut bid = make_valid_bid(100);
    bid.message.value = 32_000_000_001;
    assert_eq!(
        check_execution_payload_bid(&state, &bid.message).unwrap_err(),
        PayloadBidError::InsufficientBalance { balance: 32_000_000_000, value: 32_000_000_001 }
    );
    bid.message.value = 32_000_000_000;
    assert_eq!(
        check_execution_payload_bid(&state, &bid.message).unwrap(),
        builder_key().sk_to_pk().to_bytes()
    );
}

#[test]
fn apply_bid_follows_signature_outcome() {
    let mut state = state_at(100);
    let bid = make_valid_bid(100);
    assert_eq!(
        apply_execution_payload_bid(&mut state, &bid.message, Err("bad".to_string())).unwrap_err(),
        PayloadBidError::InvalidSignature
    );
    assert!(state.pending_payments.is_empty());
    apply_execution_payload_bid(&mut state, &bid.message, Ok(())).unwrap();
    assert_eq!(state.builder_balances[&1], 31_000_000_000);
    assert_eq!(state.pending_payments.len(), 1);
}

// ── Withdrawals ───────────────────────────────────────────────────────────────

#[test]
fn withdrawals_committed_on_consensus() {
    let mut state = state_at(100);
    let ws = vec![Withdrawal { index: 0, validator_index: 1, address: [0u8; 20], amount: 1_000_000 }];
    process_withdrawals_consensus(&mut state, ws.clone()).unwrap();
    assert_eq!(state.payload_expected_withdrawals(), ws.as_slice());
}

#[test]
fn withdrawal_mismatch_rejected() {
    let mut state = state_at(100);
    let committed =
        vec![Withdrawal { index: 0, validator_index: 1, address: [0u8; 20], amount: 1_000_000 }];
    process_withdrawals_consensus(&mut state, committed).unwrap();
    let wrong = vec![Withdrawal { index: 0, validator_index: 1, address: [0u8; 20], amount: 999 }];
    let err = verify_payload_withdrawals(&mut state, &wrong).unwrap_err();
    assert!(matches!(err, WithdrawalError::WithdrawalsMismatch));
}

#[test]
fn withdrawal_cleared_after_valid_payload() {
    let mut state = state_at(100);
    let ws = vec![Withdrawal { index: 0, validator_index: 1, address: [0u8; 20], amount: 1_000_000 }];
    process_withdrawals_consensus(&mut state, ws.clone()).unwrap();
    verify_payload_withdrawals(&mut state, &ws).unwrap();
    assert!(state.payload_expected_withdrawals().is_empty());
}

#[test]
fn withdrawals_stall_while_outstanding() {
    let mut state = state_at(100);
    let ws = vec![Withdrawal { index: 0, validator_index: 1, address: [0u8; 20], amount: 5 }];
    process_withdrawals_consensus(&mut state, ws.clone()).unwrap();
    let next = vec![Withdrawal { index: 1, validator_index: 2, address: [1u8; 20], amount: 6 }];
    assert_eq!(
        process_withdrawals_consensus(&mut state, next).unwrap_err(),
        WithdrawalError::OutstandingWithdrawals
    );
    assert!(state.has_pending_withdrawals());
    // A mismatching payload keeps the commitment; the matching one clears it.
    let mut other = ws.clone();
    other[0].address = [2u8; 20];
    assert!(verify_payload_withdrawals(&mut state, &other).is_err());
    assert_eq!(state.payload_expected_withdrawals(), ws.as_slice());
    verify_payload_withdrawals(&mut state, &ws).unwrap();
    assert!(!state.has_pending_withdrawals());
    // An empty commitment is honoured by an empty payload.
    process_withdrawals_consensus(&mut state, vec![]).unwrap();
    verify_payload_withdrawals(&mut state, &[]).unwrap();
}

#[test]
fn next_withdrawals_take_first_entries() {
    let balances = vec![(7u64, 100u64), (8, 200), (9, 300)];
    let ws = compute_next_withdrawals(&balances, 2);
    assert_eq!(
        ws,
        vec![
            Withdrawal { index: 0, validator_index: 7, address: [0u8; 20], amount: 100 },
            Withdrawal { index: 0, validator_index: 8, address: [0u8; 20], amount: 200 },
        ]
    );
    assert_eq!(compute_next_withdrawals(&balances, 10).len(), 3);
    assert!(compute_next_withdrawals(&balances, 0).is_empty());
}

// ── PTC attestations ──────────────────────────────────────────────────────────

#[test]
fn valid_ptc_attestation_accepted() {
    let mut state = state_at(100);
    let keys: Vec<SecretKey> = (0..PTC_SIZE as usize).map(ptc_key).collect();
    state.ptc_pubkeys.insert(99, keys.iter().map(|k| k.sk_to_pk().to_bytes()).collect());
    let root = signing_root_encoded(DATA_ENCODING, compute_domain_simple(DOMAIN_PTC_ATTESTER));
    let sigs: Vec<Signature> =
        keys.iter().map(|k| Signature::from_bytes(&bls_sign(&k.to_bytes(), &root).unwrap()).unwrap()).collect();
    let sig_refs: Vec<&Signature> = sigs.iter().collect();
    let aggregate = AggregateSignature::aggregate(&sig_refs, true).unwrap().to_signature();
    let att = PayloadAttestation {
        aggregation_bits: vec![true; PTC_SIZE as usize],
        data: PayloadAttestationData {
            beacon_block_root: [0xBBu8; 32],
            slot: 99, // parent slot
            payload_present: true,
            blob_data_available: true,
        },
        signature: aggregate.to_bytes(),
    };
    assert!(process_payload_attestation(&state, &att, DATA_ENCODING).is_ok());
    // The same signature does not verify for a smaller set of attesters.
    let mut partial = att.clone();
    partial.aggregation_bits[3] = false;
    assert_eq!(
        process_payload_attestation(&state, &partial, DATA_ENCODING).unwrap_err(),
        PayloadAttestationError::InvalidSignature
    );
}

#[test]
fn ptc_wrong_bits_length_rejected() {
    let state = state_at(100);
    let att = PayloadAttestation {
        aggregation_bits: vec![true; 10], // wrong length
        data: PayloadAttestationData {
            beacon_block_root: [0xBBu8; 32],
            slot: 99,
            payload_present: true,
            blob_data_available: true,
        },
        signature: [0u8; 96],
    };
    let err = process_payload_attestation(&state, &att, DATA_ENCODING).unwrap_err();
    assert!(matches!(err, PayloadAttestationError::WrongBitsLength(10)));
}

#[test]
fn ptc_wrong_slot_rejected() {
    let state = state_at(100); // parent_slot = 99
    let att = PayloadAttestation {
        aggregation_bits: vec![false; PTC_SIZE as usize],
        data: PayloadAttestationData {
            beacon_block_root: [0u8; 32],
            slot: 50, // wrong
            payload_present: false,
            blob_data_available: false,
        },
        signature: [0u8; 96],
    };
    let err = process_payload_attestation(&state, &att, DATA_ENCODING).unwrap_err();
    assert!(matches!(err, PayloadAttestationError::WrongSlot { .. }));
}

#[test]
fn ptc_missing_pubkeys_rejected() {
    let state = state_at(100); // no committee pubkeys known
    let att = PayloadAttestation {
        aggregation_bits: vec![false; PTC_SIZE as usize],
        data: PayloadAttestationData {
            beacon_block_root: [0u8; 32],
            slot: 99,
            payload_present: false,
            blob_data_available: false,
        },
        signature: [0u8; 96],
    };
    assert_eq!(
        process_payload_attestation(&state, &att, DATA_ENCODING).unwrap_err(),
        PayloadAttestationError::MissingPubkeys
    );
    let mut wrong_slot = att.clone();
    wrong_slot.data.slot = 98;
    assert_eq!(
        process_payload_attestation(&state, &wrong_slot, DATA_ENCODING).unwrap_err(),
        PayloadAttestationError::WrongSlot { attested: 98, parent: 99 }
    );
}

#[test]
fn payload_attestations_count_bounded() {
    let bid = make_valid_bid(100);
    let att = PayloadAttestation {
        aggregation_bits: vec![],
        data: PayloadAttestationData {
            beacon_block_root: [0u8; 32],
            slot: 0,
            payload_present: false,
            blob_data_available: false,
        },
        signature: [0u8; 96],
    };
    let mut body = BeaconBlockBodyEpbs {
        signed_execution_payload_bid: bid,
        payload_attestations: vec![att.clone(); MAX_PAYLOAD_ATTESTATIONS],
    };
    assert!(body.validate_payload_attestations_count());
    body.payload_attestations.push(att);
    assert!(!body.validate_payload_attestations_count());
}
