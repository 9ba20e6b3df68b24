//! Builder bid construction.
//!
//! An honest builder constructs a `SignedExecutionPayloadBid` and broadcasts
//! it on the `signed_execution_payload_bid` topic. The bid commits to the exact
//! blockhash of the payload the builder will reveal, the value paid to the
//! proposer, and the KZG commitments of any blobs included.
use vstd::prelude::*;

use crate::beacon_chain::constants::DOMAIN_BEACON_BUILDER;
use crate::beacon_chain::containers::{copy_slice, ExecutionPayloadBid, SignedExecutionPayloadBid};
use crate::beacon_chain::process_payload_bid::bid_signing_root;
use crate::beacon_chain::types::{
    BLSSignature, BuilderIndex, ExecutionAddress, Gwei, Hash32, KZGCommitment, Root, Slot,
};
use crate::utils::bytes::is_all_zero;
use crate::utils::ssz::{compute_domain_simple, signing_root_encoded};

verus! {

#[derive(Debug, Clone, PartialEq)]
pub enum BidError {
    /// Bid value exceeds the builder balance.
    ValueExceedsBalance { value: Gwei, balance: Gwei },
    /// Block hash commitment is zero — the builder must commit to a real payload.
    ZeroBlockHash,
    /// The signer reported an error.
    SigningFailed(String),
}

/// All information a builder needs to construct a bid for a slot.
#[derive(Debug, Clone)]
pub struct BidParams {
    pub builder_index: BuilderIndex,
    pub builder_balance: Gwei,
    pub slot: Slot,
    pub parent_block_hash: Hash32,
    pub parent_block_root: Root,
    /// The blockhash of the payload the builder has already built and will reveal.
    pub committed_block_hash: Hash32,
    pub prev_randao: [u8; 32],
    /// Proposer's preferred fee recipient address.
    pub fee_recipient: ExecutionAddress,
    pub gas_limit: u64,
    /// Value offered to the proposer.
    pub bid_value: Gwei,
    /// Any execution-layer payment on top of the beacon-chain payment.
    pub execution_payment: Gwei,
    pub blob_kzg_commitments: Vec<KZGCommitment>,
}

/// `message` is the bid message built from `params`: every field is taken from
/// the parameter of the same meaning.
pub open spec fn is_bid_message_for(message: ExecutionPayloadBid, params: BidParams) -> bool {
    &&& message.parent_block_hash == params.parent_block_hash
    &&& message.parent_block_root == params.parent_block_root
    &&& message.block_hash == params.committed_block_hash
    &&& message.prev_randao == params.prev_randao
    &&& message.fee_recipient == params.fee_recipient
    &&& message.gas_limit == params.gas_limit
    &&& message.builder_index == params.builder_index
    &&& message.slot == params.slot
    &&& message.value == params.bid_value
    &&& message.execution_payment == params.execution_payment
    &&& message.blob_kzg_commitments@ == params.blob_kzg_commitments@
}

/// The parameter error of a bid, if any: a zero committed block hash is checked
/// first, then whether the bid value exceeds the builder balance.
pub open spec fn bid_params_error(params: BidParams) -> Option<BidError> {
    if params.committed_block_hash@ == Seq::new(32, |i: int| 0u8) {
        Some(BidError::ZeroBlockHash)
    } else if params.bid_value > params.builder_balance {
        Some(BidError::ValueExceedsBalance { value: params.bid_value, balance: params.builder_balance })
    } else {
        None
    }
}

/// `r` is what a bid construction returns when the signer answered `signed`:
/// the signed bid message built from `params`, or the signer's error.
pub open spec fn signed_bid_outcome(
    r: Result<SignedExecutionPayloadBid, BidError>,
    params: BidParams,
    signed: Result<BLSSignature, String>,
) -> bool {
    match signed {
        Ok(signature) => r matches Ok(bid) && is_bid_message_for(bid.message, params)
            && bid.signature == signature,
        Err(e) => r == Err::<SignedExecutionPayloadBid, BidError>(BidError::SigningFailed(e)),
    }
}

/// The bid message built from `params`.
pub fn bid_message(params: &BidParams) -> (message: ExecutionPayloadBid)
    ensures
        is_bid_message_for(message, *params),
{
    let blobs = copy_slice(params.blob_kzg_commitments.as_slice());
    ExecutionPayloadBid {
        parent_block_hash: params.parent_block_hash,
        parent_block_root: params.parent_block_root,
        block_hash: params.committed_block_hash,
        prev_randao: params.prev_randao,
        fee_recipient: params.fee_recipient,
        gas_limit: params.gas_limit,
        builder_index: params.builder_index,
        slot: params.slot,
        value: params.bid_value,
        execution_payment: params.execution_payment,
        blob_kzg_commitments: blobs,
    }
}

/// Construct and sign an `ExecutionPayloadBid`.
///
/// `message_encoding` is the canonical (JSON) encoding of `bid_message(params)`;
/// `sign_fn` is handed the signing root of that encoding under
/// `DOMAIN_BEACON_BUILDER`. The builder must have built the full payload
/// before bidding, and `committed_block_hash` must be its real blockhash.
/// The encoding must be the message's canonical JSON text, as the
/// application layer's `*_json` entry points produce it with serde_json; the
/// library signs or checks whatever bytes it is given and cannot tell.
pub fn construct_bid(
    params: &BidParams,
    message_encoding: &[u8],
    sign_fn: impl Fn(&[u8]) -> Result<BLSSignature, String>,
) -> (r: Result<SignedExecutionPayloadBid, BidError>)
    requires
        forall|root: &[u8]| sign_fn.requires((root,)),
    ensures
        bid_params_error(*params) matches Some(e) ==> r == Err::<SignedExecutionPayloadBid, BidError>(e),
        bid_params_error(*params) is None ==> exists|root: &[u8], signed: Result<BLSSignature, String>|
            root@ == bid_signing_root(message_encoding@) && sign_fn.ensures((root,), signed)
                && signed_bid_outcome(r, *params, signed),
{
    // Never commit to a zero blockhash.
    if is_all_zero(&params.committed_block_hash) {
        assert(params.committed_block_hash@ =~= Seq::new(32, |i: int| 0u8));
        return Err(BidError::ZeroBlockHash);
    }
    // The builder must have enough balance to back the bid.
    if params.bid_value > params.builder_balance {
        return Err(
            BidError::ValueExceedsBalance { value: params.bid_value, balance: params.builder_balance },
        );
    }
    let message = bid_message(params);
    let domain = compute_domain_simple(DOMAIN_BEACON_BUILDER);
    let signing_root = signing_root_encoded(message_encoding, domain);
    let root: &[u8] = &signing_root;
    let signed = sign_fn(root);
    match signed {
        Ok(signature) => Ok(SignedExecutionPayloadBid { message, signature }),
        Err(e) => Err(BidError::SigningFailed(e)),
    }
}

} // verus!

verus! {

// ── Laws ──────────────────────────────────────────────────────────────────────

/// A bid built from parameters that pass construction, for the state's slot and
/// latest block hash, by a builder whose recorded balance covers the bid value
/// and who has a public key, passes every beacon-chain check before the signature.
pub proof fn lemma_constructed_bid_passes_prechecks<S: crate::beacon_chain::process_payload_bid::BeaconStateMut>(
    state: S,
    params: BidParams,
    message: ExecutionPayloadBid,
)
    requires
        bid_params_error(params) is None,
        is_bid_message_for(message, params),
        params.slot == state.slot(),
        params.parent_block_hash == state.block_hash(),
        state.builder_balances().contains_key(params.builder_index),
        params.bid_value <= state.builder_balances()[params.builder_index],
        state.builder_pubkeys().contains_key(params.builder_index),
    ensures
        crate::beacon_chain::process_payload_bid::bid_precheck_outcome(state, message) is Ok,
{
}

/// Construction never commits to a zero blockhash, and never offers more than
/// the builder balance: parameters that pass have a nonzero committed hash and a
/// bid value within the balance.
pub proof fn lemma_accepted_params_are_backed(params: BidParams)
    requires
        bid_params_error(params) is None,
    ensures
        params.committed_block_hash@ != Seq::new(32, |i: int| 0u8),
        params.bid_value <= params.builder_balance,
{
}

/// Only the bid value is held against the builder balance, and only a zero
/// block hash is refused besides: parameters with a nonzero committed hash and
/// a bid value within the balance pass, whatever the execution payment, and each
/// refusal holds only when its cause does.
pub proof fn lemma_backed_params_accepted(params: BidParams)
    ensures
        params.committed_block_hash@ != Seq::new(32, |i: int| 0u8) && params.bid_value
            <= params.builder_balance ==> bid_params_error(params) is None,
        bid_params_error(params) == Some(BidError::ZeroBlockHash) ==> params.committed_block_hash@
            == Seq::new(32, |i: int| 0u8),
        bid_params_error(params) matches Some(BidError::ValueExceedsBalance { value, balance }) ==> (
        value == params.bid_value && balance == params.builder_balance && params.bid_value
            > params.builder_balance),
        bid_params_error(params) matches Some(e) ==> (e is ZeroBlockHash || e is ValueExceedsBalance),
{
}

} // verus!
