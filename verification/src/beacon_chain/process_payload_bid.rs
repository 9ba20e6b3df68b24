//! `process_execution_payload_bid`.
//!
//! Validates the SignedExecutionPayloadBid included in the BeaconBlockBody,
//! deducts the committed value from the builder's balance and queues a
//! BuilderPendingPayment in the beacon state.
use vstd::prelude::*;

use crate::beacon_chain::constants::DOMAIN_BEACON_BUILDER;
use crate::beacon_chain::containers::{
    BuilderPendingPayment, BuilderPendingWithdrawal, ExecutionPayloadBid, SignedExecutionPayloadBid,
};
use crate::beacon_chain::types::{BLSPubkey, BuilderIndex, Gwei, Hash32, Slot};
use crate::utils::bytes::bytes_eq;
use crate::utils::crypto::{bls_signature_valid, bls_verify};
use crate::utils::ssz::{compute_domain_simple, domain_of, signing_root_encoded, signing_root_of};

verus! {

#[derive(Debug, Clone, PartialEq)]
pub enum PayloadBidError {
    /// Builder index not found in the registry.
    BuilderNotFound(BuilderIndex),
    /// Builder balance insufficient for the bid value.
    InsufficientBalance { balance: Gwei, value: Gwei },
    /// Bid slot does not match the block slot.
    SlotMismatch { bid_slot: Slot, block_slot: Slot },
    /// Invalid builder BLS signature.
    InvalidSignature,
    /// Parent block hash mismatch.
    ParentHashMismatch,
    /// Builder pubkey missing for this index.
    MissingPubkey(BuilderIndex),
}

/// The value stored under `key`, if any.
pub open spec fn map_lookup<K, V>(m: Map<K, V>, key: K) -> Option<V> {
    if m.contains_key(key) {
        Some(m[key])
    } else {
        None
    }
}

/// Minimal beacon state surface needed by bid processing.
pub trait BeaconStateMut {
    /// Balance of each registered builder.
    spec fn builder_balances(&self) -> Map<BuilderIndex, Gwei>;

    /// Public key of each builder that has one.
    spec fn builder_pubkeys(&self) -> Map<BuilderIndex, BLSPubkey>;

    /// Pending builder payments, oldest first.
    spec fn pending_payments(&self) -> Seq<BuilderPendingPayment>;

    /// The slot of the block being processed.
    spec fn slot(&self) -> Slot;

    /// The block hash of the latest execution payload.
    spec fn block_hash(&self) -> Hash32;

    fn builder_balance(&self, index: BuilderIndex) -> (r: Option<Gwei>)
        ensures
            r == map_lookup(self.builder_balances(), index),
    ;

    fn builder_pubkey(&self, index: BuilderIndex) -> (r: Option<BLSPubkey>)
        ensures
            r == map_lookup(self.builder_pubkeys(), index),
    ;

    fn deduct_builder_balance(&mut self, index: BuilderIndex, amount: Gwei)
        requires
            old(self).builder_balances().contains_key(index),
            amount <= old(self).builder_balances()[index],
        ensures
            final(self).builder_balances() == old(self).builder_balances().insert(
                index,
                (old(self).builder_balances()[index] - amount) as u64,
            ),
            final(self).builder_pubkeys() == old(self).builder_pubkeys(),
            final(self).pending_payments() == old(self).pending_payments(),
            final(self).slot() == old(self).slot(),
            final(self).block_hash() == old(self).block_hash(),
    ;

    fn push_pending_payment(&mut self, payment: BuilderPendingPayment)
        ensures
            final(self).builder_balances() == old(self).builder_balances(),
            final(self).builder_pubkeys() == old(self).builder_pubkeys(),
            final(self).pending_payments() == old(self).pending_payments().push(payment),
            final(self).slot() == old(self).slot(),
            final(self).block_hash() == old(self).block_hash(),
    ;

    fn current_slot(&self) -> (r: Slot)
        ensures
            r == self.slot(),
    ;

    fn latest_block_hash(&self) -> (r: [u8; 32])
        ensures
            r == self.block_hash(),
    ;
}

/// The outcome of the checks made before the signature: slot, parent block
/// hash, builder balance and builder pubkey, in that order. On success it
/// carries the builder's pubkey.
pub open spec fn bid_precheck_outcome<S: BeaconStateMut>(state: S, bid: ExecutionPayloadBid) -> Result<
    BLSPubkey,
    PayloadBidError,
> {
    if bid.slot != state.slot() {
        Err(PayloadBidError::SlotMismatch { bid_slot: bid.slot, block_slot: state.slot() })
    } else if bid.parent_block_hash != state.block_hash() {
        Err(PayloadBidError::ParentHashMismatch)
    } else if !state.builder_balances().contains_key(bid.builder_index) {
        Err(PayloadBidError::BuilderNotFound(bid.builder_index))
    } else if state.builder_balances()[bid.builder_index] < bid.value {
        Err(
            PayloadBidError::InsufficientBalance {
                balance: state.builder_balances()[bid.builder_index],
                value: bid.value,
            },
        )
    } else if !state.builder_pubkeys().contains_key(bid.builder_index) {
        Err(PayloadBidError::MissingPubkey(bid.builder_index))
    } else {
        Ok(state.builder_pubkeys()[bid.builder_index])
    }
}

/// The signing root of a bid message with the given encoding, under the builder domain.
pub open spec fn bid_signing_root(message_encoding: Seq<u8>) -> Seq<u8> {
    signing_root_of(message_encoding, domain_of(DOMAIN_BEACON_BUILDER@))
}

/// The outcome of processing a signed bid whose message has the given encoding.
pub open spec fn bid_outcome<S: BeaconStateMut>(
    state: S,
    signed_bid: SignedExecutionPayloadBid,
    message_encoding: Seq<u8>,
) -> Result<(), PayloadBidError> {
    match bid_precheck_outcome(state, signed_bid.message) {
        Err(e) => Err(e),
        Ok(pk) => if bls_signature_valid(
            pk@,
            bid_signing_root(message_encoding),
            signed_bid.signature@,
        ) {
            Ok(())
        } else {
            Err(PayloadBidError::InvalidSignature)
        },
    }
}

/// The pending payment queued for an accepted bid: the bid value is both the
/// payment's weight and the amount withdrawn to the bid's fee recipient.
pub open spec fn pending_payment_for(bid: ExecutionPayloadBid) -> BuilderPendingPayment {
    BuilderPendingPayment {
        weight: bid.value,
        withdrawal: BuilderPendingWithdrawal {
            fee_recipient: bid.fee_recipient,
            amount: bid.value,
            builder_index: bid.builder_index,
        },
    }
}

/// The effect of accepting a bid: the builder balance is reduced by the bid
/// value and one pending payment is appended; nothing else changes.
pub open spec fn bid_accepted<S: BeaconStateMut>(pre: S, post: S, bid: ExecutionPayloadBid) -> bool {
    &&& post.builder_balances() == pre.builder_balances().insert(
        bid.builder_index,
        (pre.builder_balances()[bid.builder_index] - bid.value) as u64,
    )
    &&& post.pending_payments() == pre.pending_payments().push(pending_payment_for(bid))
    &&& post.builder_pubkeys() == pre.builder_pubkeys()
    &&& post.slot() == pre.slot()
    &&& post.block_hash() == pre.block_hash()
}

/// Steps 1–4 of bid processing: the checks that do not involve the signature.
/// Returns the builder's pubkey when they pass.
pub fn check_execution_payload_bid<S: BeaconStateMut>(state: &S, bid: &ExecutionPayloadBid) -> (r:
    Result<BLSPubkey, PayloadBidError>)
    ensures
        r == bid_precheck_outcome(*state, *bid),
{
    if bid.slot != state.current_slot() {
        return Err(
            PayloadBidError::SlotMismatch { bid_slot: bid.slot, block_slot: state.current_slot() },
        );
    }
    let latest = state.latest_block_hash();
    if !bytes_eq(&bid.parent_block_hash, &latest) {
        return Err(PayloadBidError::ParentHashMismatch);
    }
    let balance = match state.builder_balance(bid.builder_index) {
        Some(b) => b,
        None => {
            return Err(PayloadBidError::BuilderNotFound(bid.builder_index));
        },
    };
    if balance < bid.value {
        return Err(PayloadBidError::InsufficientBalance { balance, value: bid.value });
    }
    match state.builder_pubkey(bid.builder_index) {
        Some(pk) => Ok(pk),
        None => Err(PayloadBidError::MissingPubkey(bid.builder_index)),
    }
}

/// Finishes processing a bid whose pre-signature checks passed, given the outcome
/// of its signature check: a failed check is `InvalidSignature` and leaves the
/// state unchanged; otherwise the bid value is deducted from the builder's
/// balance and a pending payment is queued.
pub fn apply_execution_payload_bid<S: BeaconStateMut>(
    state: &mut S,
    bid: &ExecutionPayloadBid,
    signature_check: Result<(), String>,
) -> (r: Result<(), PayloadBidError>)
    requires
        old(state).builder_balances().contains_key(bid.builder_index),
        bid.value <= old(state).builder_balances()[bid.builder_index],
    ensures
        signature_check is Err ==> r == Err::<(), PayloadBidError>(PayloadBidError::InvalidSignature)
            && *final(state) == *old(state),
        signature_check is Ok ==> r == Ok::<(), PayloadBidError>(()) && bid_accepted(
            *old(state),
            *final(state),
            *bid,
        ),
{
    if signature_check.is_err() {
        return Err(PayloadBidError::InvalidSignature);
    }
    state.deduct_builder_balance(bid.builder_index, bid.value);
    let pending = BuilderPendingPayment {
        weight: bid.value,
        withdrawal: BuilderPendingWithdrawal {
            fee_recipient: bid.fee_recipient,
            amount: bid.value,
            builder_index: bid.builder_index,
        },
    };
    state.push_pending_payment(pending);
    Ok(())
}

/// Process a `SignedExecutionPayloadBid` from the beacon block body.
///
/// `message_encoding` is the canonical (JSON) encoding of `signed_bid.message`;
/// the builder's signature is checked over its signing root.
/// The encoding must be the message's canonical JSON text, as the
/// application layer's `*_json` entry points produce it with serde_json; the
/// library signs or checks whatever bytes it is given and cannot tell.
///
/// Steps:
/// 1. Verify the bid slot matches the current block slot.
/// 2. Verify the parent block hash matches `state.latest_block_hash`.
/// 3. Check the builder is known and has sufficient balance.
/// 4. Verify the builder's BLS signature.
/// 5. Deduct `bid.value` from the builder's balance.
/// 6. Queue a `BuilderPendingPayment` in the beacon state.
pub fn process_execution_payload_bid<S: BeaconStateMut>(
    state: &mut S,
    signed_bid: &SignedExecutionPayloadBid,
    message_encoding: &[u8],
) -> (r: Result<(), PayloadBidError>)
    ensures
        r == bid_outcome(*old(state), *signed_bid, message_encoding@),
        r is Ok ==> bid_accepted(*old(state), *final(state), signed_bid.message),
        r is Err ==> *final(state) == *old(state),
{
    let bid = &signed_bid.message;
    let pk = match check_execution_payload_bid(state, bid) {
        Ok(pk) => pk,
        Err(e) => {
            return Err(e);
        },
    };
    let signature_check = verify_builder_signature(&pk, signed_bid, message_encoding);
    apply_execution_payload_bid(state, bid, signature_check)
}

/// Verifies the builder's signature over the signing root of the bid message
/// under `DOMAIN_BEACON_BUILDER`.
fn verify_builder_signature(
    pk: &BLSPubkey,
    signed_bid: &SignedExecutionPayloadBid,
    message_encoding: &[u8],
) -> (r: Result<(), String>)
    ensures
        (r is Ok) == bls_signature_valid(
            pk@,
            bid_signing_root(message_encoding@),
            signed_bid.signature@,
        ),
{
    let domain = compute_domain_simple(DOMAIN_BEACON_BUILDER);
    let signing_root = signing_root_encoded(message_encoding, domain);
    bls_verify(pk, &signing_root, &signed_bid.signature)
}

} // verus!

verus! {

// ── Laws ──────────────────────────────────────────────────────────────────────

/// Accepting a bid moves exactly the bid value: the builder's balance drops by
/// the value, and the single payment queued for the proposer has the value as
/// both its weight and its amount, paid to the bid's fee recipient.
pub proof fn lemma_accepted_bid_conserves_value<S: BeaconStateMut>(
    pre: S,
    post: S,
    bid: ExecutionPayloadBid,
)
    requires
        pre.builder_balances().contains_key(bid.builder_index),
        bid.value <= pre.builder_balances()[bid.builder_index],
        bid_accepted(pre, post, bid),
    ensures
        post.builder_balances()[bid.builder_index] + bid.value
            == pre.builder_balances()[bid.builder_index],
        post.pending_payments().len() == pre.pending_payments().len() + 1,
        post.pending_payments().last().weight == bid.value,
        post.pending_payments().last().withdrawal.amount == bid.value,
        post.pending_payments().last().withdrawal.fee_recipient == bid.fee_recipient,
        post.pending_payments().last().withdrawal.builder_index == bid.builder_index,
        forall|i: BuilderIndex|
            i != bid.builder_index ==> #[trigger] map_lookup(post.builder_balances(), i)
                == map_lookup(pre.builder_balances(), i),
{
}

/// A bid whose slot and parent block hash are the state's, from a known builder
/// with a public key and enough balance, passes every check before the signature.
pub proof fn lemma_matching_bid_passes_prechecks<S: BeaconStateMut>(state: S, bid: ExecutionPayloadBid)
    requires
        bid.slot == state.slot(),
        bid.parent_block_hash == state.block_hash(),
        state.builder_balances().contains_key(bid.builder_index),
        bid.value <= state.builder_balances()[bid.builder_index],
        state.builder_pubkeys().contains_key(bid.builder_index),
    ensures
        bid_precheck_outcome(state, bid) == Ok::<BLSPubkey, PayloadBidError>(
            state.builder_pubkeys()[bid.builder_index],
        ),
{
}

/// A bid passes the checks before the signature only for the state's own
/// slot, on the state's latest block hash, from a known builder with a public
/// key whose balance covers the value; a bid for any other slot, earlier or
/// later, is refused with the two slots. The same holds of a processed bid.
pub proof fn lemma_bid_prechecks_require_own_slot<S: BeaconStateMut>(
    state: S,
    signed_bid: SignedExecutionPayloadBid,
    message_encoding: Seq<u8>,
)
    ensures
        signed_bid.message.slot != state.slot() ==> bid_precheck_outcome(state, signed_bid.message)
            == Err::<BLSPubkey, PayloadBidError>(
            PayloadBidError::SlotMismatch {
                bid_slot: signed_bid.message.slot,
                block_slot: state.slot(),
            },
        ),
        bid_precheck_outcome(state, signed_bid.message) matches Ok(pk) ==> {
            let bid = signed_bid.message;
            &&& bid.slot == state.slot()
            &&& bid.parent_block_hash == state.block_hash()
            &&& state.builder_balances().contains_key(bid.builder_index)
            &&& bid.value <= state.builder_balances()[bid.builder_index]
            &&& state.builder_pubkeys().contains_key(bid.builder_index)
            &&& pk == state.builder_pubkeys()[bid.builder_index]
        },
        bid_outcome(state, signed_bid, message_encoding) is Ok ==> signed_bid.message.slot
            == state.slot() && signed_bid.message.value <= state.builder_balances()[signed_bid.message.builder_index],
{
}

} // verus!
