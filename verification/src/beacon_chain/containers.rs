//! EIP-7732 containers. All containers mirror the consensus-spec definitions.
use vstd::prelude::*;

use crate::beacon_chain::constants::MAX_PAYLOAD_ATTESTATIONS;
use crate::beacon_chain::types::{
    BLSPubkey, BLSSignature, BuilderIndex, Bytes32, Epoch, ExecutionAddress, Gwei, Hash32,
    KZGCommitment, Root, Slot, ValidatorIndex, WithdrawalIndex,
};

verus! {

// ── New containers ────────────────────────────────────────────────────────────

/// In-protocol staked builder registered in the beacon state.
#[derive(Debug, Clone, PartialEq)]
pub struct Builder {
    pub pubkey: BLSPubkey,
    pub version: u8,
    pub execution_address: ExecutionAddress,
    pub balance: Gwei,
    pub deposit_epoch: Epoch,
    pub withdrawable_epoch: Epoch,
}

/// Pending payment from a builder to a proposer, tracked in beacon state
/// until the corresponding execution payload is processed.
#[derive(Debug, Clone, PartialEq)]
pub struct BuilderPendingPayment {
    pub weight: Gwei,
    pub withdrawal: BuilderPendingWithdrawal,
}

/// A pending withdrawal to be credited on the execution layer.
#[derive(Debug, Clone, PartialEq)]
pub struct BuilderPendingWithdrawal {
    pub fee_recipient: ExecutionAddress,
    pub amount: Gwei,
    pub builder_index: BuilderIndex,
}

/// Attestation data broadcast by a PTC member.
#[derive(Debug, Clone, PartialEq)]
pub struct PayloadAttestationData {
    pub beacon_block_root: Root,
    pub slot: Slot,
    /// True if the builder revealed the payload in time.
    pub payload_present: bool,
    /// True if blob data was available according to the PTC member's view.
    pub blob_data_available: bool,
}

/// Aggregated PTC attestation included in a BeaconBlock.
#[derive(Debug, Clone, PartialEq)]
pub struct PayloadAttestation {
    /// Bitvector of length PTC_SIZE (512).
    pub aggregation_bits: Vec<bool>,
    pub data: PayloadAttestationData,
    pub signature: BLSSignature,
}

/// Individual (unaggregated) PTC attestation broadcast on P2P.
#[derive(Debug, Clone, PartialEq)]
pub struct PayloadAttestationMessage {
    pub validator_index: ValidatorIndex,
    pub data: PayloadAttestationData,
    pub signature: BLSSignature,
}

/// Indexed variant used for verification.
#[derive(Debug, Clone, PartialEq)]
pub struct IndexedPayloadAttestation {
    pub attesting_indices: Vec<ValidatorIndex>,
    pub data: PayloadAttestationData,
    pub signature: BLSSignature,
}

/// A builder's signed commitment to reveal an execution payload for a slot.
#[derive(Debug, Clone, PartialEq)]
pub struct ExecutionPayloadBid {
    pub parent_block_hash: Hash32,
    pub parent_block_root: Root,
    /// The blockhash the builder commits to revealing.
    pub block_hash: Hash32,
    pub prev_randao: Bytes32,
    pub fee_recipient: ExecutionAddress,
    pub gas_limit: u64,
    pub builder_index: BuilderIndex,
    pub slot: Slot,
    /// Value (in Gwei) to be paid to the beacon block proposer.
    pub value: Gwei,
    pub execution_payment: Gwei,
    pub blob_kzg_commitments: Vec<KZGCommitment>,
}

/// Signed wrapper around ExecutionPayloadBid — broadcast on P2P and
/// included in BeaconBlockBody.
#[derive(Debug, Clone, PartialEq)]
pub struct SignedExecutionPayloadBid {
    pub message: ExecutionPayloadBid,
    pub signature: BLSSignature,
}

/// The full execution payload revealed by the builder after the beacon block
/// has been broadcast, with the post-state-transition beacon state root.
#[derive(Debug, Clone, PartialEq)]
pub struct ExecutionPayloadEnvelope {
    /// The full EL execution payload.
    pub payload: ExecutionPayload,
    /// Opaque bytes; the full type is in the EL spec.
    pub execution_requests: Vec<u8>,
    pub builder_index: BuilderIndex,
    pub beacon_block_root: Root,
    pub slot: Slot,
    /// Hash tree root of the CL beacon state AFTER processing this payload.
    pub state_root: Root,
}

/// Signed wrapper around ExecutionPayloadEnvelope — broadcast on P2P.
#[derive(Debug, Clone, PartialEq)]
pub struct SignedExecutionPayloadEnvelope {
    pub message: ExecutionPayloadEnvelope,
    pub signature: BLSSignature,
}

/// Minimal stand-in for the EL ExecutionPayload type.
#[derive(Debug, Clone, PartialEq)]
pub struct ExecutionPayload {
    pub block_hash: Hash32,
    pub parent_hash: Hash32,
    pub fee_recipient: ExecutionAddress,
    pub gas_used: u64,
    pub gas_limit: u64,
    pub timestamp: u64,
    pub extra_data: Vec<u8>,
    pub transactions: Vec<Vec<u8>>,
    pub withdrawals: Vec<Withdrawal>,
}

/// A withdrawal from the beacon chain to be credited on the EL.
#[derive(Debug, Clone, PartialEq)]
pub struct Withdrawal {
    pub index: WithdrawalIndex,
    pub validator_index: ValidatorIndex,
    pub address: ExecutionAddress,
    pub amount: Gwei,
}

// ── Modified BeaconBlockBody ──────────────────────────────────────────────────

/// ePBS fields added to / changed in BeaconBlockBody.
#[derive(Debug, Clone, PartialEq)]
pub struct BeaconBlockBodyEpbs {
    /// Builder's signed commitment to reveal a payload.
    pub signed_execution_payload_bid: SignedExecutionPayloadBid,
    /// PTC attestations from the previous slot (at most MAX_PAYLOAD_ATTESTATIONS).
    pub payload_attestations: Vec<PayloadAttestation>,
}

impl BeaconBlockBodyEpbs {
    /// True when the body carries at most MAX_PAYLOAD_ATTESTATIONS payload attestations.
    pub fn validate_payload_attestations_count(&self) -> (r: bool)
        ensures
            r == (self.payload_attestations@.len() <= MAX_PAYLOAD_ATTESTATIONS),
    {
        self.payload_attestations.len() <= MAX_PAYLOAD_ATTESTATIONS
    }
}

// ── Comparisons ───────────────────────────────────────────────────────────────

/// Field-wise equality of two withdrawals.
pub fn withdrawal_eq(a: &Withdrawal, b: &Withdrawal) -> (r: bool)
    ensures
        r == (*a == *b),
{
    a.index == b.index && a.validator_index == b.validator_index && crate::utils::bytes::bytes_eq(
        &a.address,
        &b.address,
    ) && a.amount == b.amount
}

/// Element-wise equality of two withdrawal lists.
pub fn withdrawals_eq(a: &[Withdrawal], b: &[Withdrawal]) -> (r: bool)
    ensures
        r == (a@ == b@),
{
    if a.len() != b.len() {
        return false;
    }
    let n = a.len();
    let mut i: usize = 0;
    while i < n
        invariant
            0 <= i <= n,
            n == a@.len(),
            n == b@.len(),
            forall|j: int| 0 <= j < i ==> a@[j] == b@[j],
        decreases n - i,
    {
        if !withdrawal_eq(&a[i], &b[i]) {
            return false;
        }
        i = i + 1;
    }
    assert(a@ =~= b@);
    true
}

/// A withdrawal with the same fields.
pub fn copy_withdrawal(w: &Withdrawal) -> (r: Withdrawal)
    ensures
        r == *w,
{
    Withdrawal {
        index: w.index,
        validator_index: w.validator_index,
        address: w.address,
        amount: w.amount,
    }
}

/// A list holding the same withdrawals, in the same order.
pub fn copy_withdrawals(ws: &[Withdrawal]) -> (r: Vec<Withdrawal>)
    ensures
        r@ == ws@,
{
    let mut out: Vec<Withdrawal> = Vec::new();
    let n = ws.len();
    let mut i: usize = 0;
    while i < n
        invariant
            0 <= i <= n,
            n == ws@.len(),
            out@ == ws@.subrange(0, i as int),
        decreases n - i,
    {
        out.push(copy_withdrawal(&ws[i]));
        i = i + 1;
        assert(out@ =~= ws@.subrange(0, i as int));
    }
    assert(ws@.subrange(0, n as int) =~= ws@);
    out
}

/// A list holding the same items, in the same order.
pub fn copy_slice<T: Copy>(items: &[T]) -> (r: Vec<T>)
    ensures
        r@ == items@,
{
    let mut out: Vec<T> = Vec::new();
    let n = items.len();
    let mut i: usize = 0;
    while i < n
        invariant
            0 <= i <= n,
            n == items@.len(),
            out@ == items@.subrange(0, i as int),
        decreases n - i,
    {
        out.push(items[i]);
        i = i + 1;
        assert(out@ =~= items@.subrange(0, i as int));
    }
    assert(items@.subrange(0, n as int) =~= items@);
    out
}

} // verus!
