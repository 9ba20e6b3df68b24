//! Builder payload reveal (ExecutionPayloadEnvelope).
//!
//! After the proposer includes the builder's bid in a beacon block, the builder
//! reveals the full payload by broadcasting a `SignedExecutionPayloadEnvelope`.
//! Revealing late (after the PTC attestation deadline) results in a PTC vote of
//! `payload_present = false`, and the builder is not paid.
//!
//! The envelope commits to the CL post-state-transition beacon state root.
use vstd::prelude::*;

use crate::beacon_chain::containers::{
    copy_slice, copy_withdrawals, withdrawals_eq, ExecutionPayload, ExecutionPayloadEnvelope,
    SignedExecutionPayloadEnvelope, Withdrawal,
};
use crate::beacon_chain::constants::DOMAIN_BEACON_BUILDER;
use crate::beacon_chain::types::{BuilderIndex, Hash32, Root, Slot};
use crate::utils::bytes::bytes_eq;
use crate::utils::ssz::{compute_domain_simple, domain_of, signing_root_encoded, signing_root_of};

verus! {

#[derive(Debug, Clone, PartialEq)]
pub enum EnvelopeError {
    /// Payload blockhash does not match the committed blockhash.
    BlockHashMismatch { revealed: Hash32, committed: Hash32 },
    /// Payload slot does not match the bid slot.
    SlotMismatch { payload_slot: Slot, bid_slot: Slot },
    /// Withdrawals in the payload do not match the beacon state commitment.
    WithdrawalsMismatch,
    /// The signer reported an error.
    SigningFailed(String),
    /// The PTC voted the payload of this slot absent; it must not be revealed.
    PayloadWithheld { slot: Slot },
}

/// Parameters for building the envelope.
#[derive(Debug, Clone)]
pub struct EnvelopeParams {
    pub payload: ExecutionPayload,
    pub execution_requests: Vec<u8>,
    pub builder_index: BuilderIndex,
    pub beacon_block_root: Root,
    pub slot: Slot,
    /// The CL state root AFTER applying this payload — committed in the envelope.
    pub post_state_root: Root,
    /// The blockhash the builder committed to in their bid.
    pub committed_hash: Hash32,
    /// The withdrawals the beacon state expects (must match the payload).
    pub expected_withdrawals: Vec<Withdrawal>,
}

/// `a` and `b` are the same payload: equal fields, and lists with equal contents.
pub open spec fn same_payload(a: ExecutionPayload, b: ExecutionPayload) -> bool {
    &&& a.block_hash == b.block_hash
    &&& a.parent_hash == b.parent_hash
    &&& a.fee_recipient == b.fee_recipient
    &&& a.gas_used == b.gas_used
    &&& a.gas_limit == b.gas_limit
    &&& a.timestamp == b.timestamp
    &&& a.extra_data@ == b.extra_data@
    &&& a.transactions.deep_view() == b.transactions.deep_view()
    &&& a.withdrawals@ == b.withdrawals@
}

/// `message` is the envelope built from `params`: the payload, execution
/// requests, builder index, beacon block root and slot are taken over, and the
/// state root is the post-state root.
pub open spec fn is_envelope_for(message: ExecutionPayloadEnvelope, params: EnvelopeParams) -> bool {
    &&& same_payload(message.payload, params.payload)
    &&& message.execution_requests@ == params.execution_requests@
    &&& message.builder_index == params.builder_index
    &&& message.beacon_block_root == params.beacon_block_root
    &&& message.slot == params.slot
    &&& message.state_root == params.post_state_root
}

/// The parameter error of an envelope, if any: the payload blockhash must be
/// the committed one, then the payload withdrawals must be the expected ones.
pub open spec fn envelope_params_error(params: EnvelopeParams) -> Option<EnvelopeError> {
    if params.payload.block_hash != params.committed_hash {
        Some(
            EnvelopeError::BlockHashMismatch {
                revealed: params.payload.block_hash,
                committed: params.committed_hash,
            },
        )
    } else if params.payload.withdrawals@ != params.expected_withdrawals@ {
        Some(EnvelopeError::WithdrawalsMismatch)
    } else {
        None
    }
}

/// The root an envelope message with the given encoding is signed over: its
/// hash tree root mixed with the builder domain.
pub open spec fn envelope_signing_root(message_encoding: Seq<u8>) -> Seq<u8> {
    signing_root_of(message_encoding, domain_of(DOMAIN_BEACON_BUILDER@))
}

/// `r` is what an envelope construction returns when the signer answered
/// `signed`: the signed envelope built from `params`, or the signer's error.
pub open spec fn signed_envelope_outcome(
    r: Result<SignedExecutionPayloadEnvelope, EnvelopeError>,
    params: EnvelopeParams,
    signed: Result<[u8; 96], String>,
) -> bool {
    match signed {
        Ok(signature) => r matches Ok(env) && is_envelope_for(env.message, params)
            && env.signature == signature,
        Err(e) => r == Err::<SignedExecutionPayloadEnvelope, EnvelopeError>(
            EnvelopeError::SigningFailed(e),
        ),
    }
}

/// A list of byte strings with the same contents.
fn copy_transactions(txs: &Vec<Vec<u8>>) -> (r: Vec<Vec<u8>>)
    ensures
        r.deep_view() == txs.deep_view(),
{
    let mut out: Vec<Vec<u8>> = Vec::new();
    let n = txs.len();
    let mut i: usize = 0;
    while i < n
        invariant
            0 <= i <= n,
            n == txs@.len(),
            out@.len() == i,
            forall|j: int| 0 <= j < i ==> (#[trigger] out@[j])@ == txs@[j]@,
        decreases n - i,
    {
        out.push(copy_slice(txs[i].as_slice()));
        i = i + 1;
    }
    assert(out.deep_view() =~= txs.deep_view());
    out
}

/// A payload with the same fields and list contents.
fn copy_payload(p: &ExecutionPayload) -> (r: ExecutionPayload)
    ensures
        same_payload(r, *p),
{
    ExecutionPayload {
        block_hash: p.block_hash,
        parent_hash: p.parent_hash,
        fee_recipient: p.fee_recipient,
        gas_used: p.gas_used,
        gas_limit: p.gas_limit,
        timestamp: p.timestamp,
        extra_data: copy_slice(p.extra_data.as_slice()),
        transactions: copy_transactions(&p.transactions),
        withdrawals: copy_withdrawals(p.withdrawals.as_slice()),
    }
}

/// The envelope message built from `params`.
pub fn envelope_message(params: &EnvelopeParams) -> (message: ExecutionPayloadEnvelope)
    ensures
        is_envelope_for(message, *params),
{
    ExecutionPayloadEnvelope {
        payload: copy_payload(&params.payload),
        execution_requests: copy_slice(params.execution_requests.as_slice()),
        builder_index: params.builder_index,
        beacon_block_root: params.beacon_block_root,
        slot: params.slot,
        state_root: params.post_state_root,
    }
}

/// Construct and sign a `SignedExecutionPayloadEnvelope`.
///
/// `message_encoding` is the canonical (JSON) encoding of
/// `envelope_message(params)`; `sign_fn` is handed the signing root of that
/// encoding under `DOMAIN_BEACON_BUILDER`. The builder calls this after
/// receiving the beacon block and verifying their bid was included, then
/// broadcasts the result immediately.
/// The encoding must be the message's canonical JSON text, as the
/// application layer's `*_json` entry points produce it with serde_json; the
/// library signs or checks whatever bytes it is given and cannot tell.
pub fn construct_envelope(
    params: &EnvelopeParams,
    message_encoding: &[u8],
    sign_fn: impl Fn(&[u8]) -> Result<[u8; 96], String>,
) -> (r: Result<SignedExecutionPayloadEnvelope, EnvelopeError>)
    requires
        forall|root: &[u8]| sign_fn.requires((root,)),
    ensures
        envelope_params_error(*params) matches Some(e) ==> r == Err::<
            SignedExecutionPayloadEnvelope,
            EnvelopeError,
        >(e),
        envelope_params_error(*params) is None ==> exists|
            root: &[u8],
            signed: Result<[u8; 96], String>,
        |
            root@ == envelope_signing_root(message_encoding@) && sign_fn.ensures((root,), signed)
                && signed_envelope_outcome(r, *params, signed),
{
    // The blockhash must match what was committed in the bid.
    if !bytes_eq(&params.payload.block_hash, &params.committed_hash) {
        return Err(
            EnvelopeError::BlockHashMismatch {
                revealed: params.payload.block_hash,
                committed: params.committed_hash,
            },
        );
    }
    // The withdrawals must match the beacon state commitment.
    if !withdrawals_eq(params.payload.withdrawals.as_slice(), params.expected_withdrawals.as_slice()) {
        return Err(EnvelopeError::WithdrawalsMismatch);
    }
    let message = envelope_message(params);
    let signing_root = compute_envelope_signing_root(message_encoding);
    let root: &[u8] = &signing_root;
    let signed = sign_fn(root);
    match signed {
        Ok(signature) => Ok(SignedExecutionPayloadEnvelope { message, signature }),
        Err(e) => Err(EnvelopeError::SigningFailed(e)),
    }
}

/// The signing root of an envelope message from its canonical encoding:
/// its hash tree root mixed with the `DOMAIN_BEACON_BUILDER` domain.
fn compute_envelope_signing_root(message_encoding: &[u8]) -> (r: [u8; 32])
    ensures
        r@ == envelope_signing_root(message_encoding@),
{
    let domain = compute_domain_simple(DOMAIN_BEACON_BUILDER);
    signing_root_encoded(message_encoding, domain)
}

} // verus!

verus! {

// ── Laws ──────────────────────────────────────────────────────────────────────

/// An envelope that construction accepts carries the committed blockhash and
/// exactly the withdrawals the beacon state committed, so a state whose
/// commitment is `params.expected_withdrawals` accepts the payload's
/// withdrawals and clears its commitment.
pub proof fn lemma_constructed_envelope_honors_withdrawals(
    params: EnvelopeParams,
    message: ExecutionPayloadEnvelope,
)
    requires
        envelope_params_error(params) is None,
        is_envelope_for(message, params),
    ensures
        message.payload.block_hash == params.committed_hash,
        crate::beacon_chain::withdrawals::payload_withdrawals_step(
            params.expected_withdrawals@,
            message.payload.withdrawals@,
        ) == (Seq::<Withdrawal>::empty(), Ok::<(), crate::beacon_chain::withdrawals::WithdrawalError>(
            (),
        )),
{
}

} // verus!
