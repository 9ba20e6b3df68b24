//! Honest builder guide (high-level orchestration).
//!
//! The honest builder lifecycle per slot:
//!
//!  [Slot start]
//!    1. Build a full execution payload optimistically.
//!    2. Submit a SignedExecutionPayloadBid immediately.
//!
//!  [On receiving a BeaconBlock with its own bid]
//!    3. Verify the bid is included correctly.
//!    4. Reveal the SignedExecutionPayloadEnvelope before the PTC deadline.
//!
//!  [After the PTC deadline]
//!    5. If the PTC voted payload_present = true → payment guaranteed.
//!    6. If the PTC voted payload_present = false → the builder was not paid.
//!
//! The builder must not reveal a withheld payload after the PTC votes
//! `payload_present = false`.
use vstd::prelude::*;

use crate::beacon_chain::containers::{SignedExecutionPayloadBid, SignedExecutionPayloadEnvelope};
use crate::beacon_chain::process_payload_bid::bid_signing_root;
use crate::beacon_chain::types::{BLSSignature, BuilderIndex, Gwei, Slot};
use crate::builder::bid::{bid_params_error, construct_bid, signed_bid_outcome, BidError, BidParams};
use crate::builder::envelope::{
    construct_envelope, envelope_params_error, envelope_signing_root, signed_envelope_outcome,
    EnvelopeError, EnvelopeParams,
};

verus! {

/// Current state of the builder's lifecycle for a given slot.
#[derive(Debug, Clone, PartialEq)]
pub enum BuilderSlotState {
    /// Builder has not yet submitted a bid for this slot.
    Idle,
    /// Bid submitted, waiting for beacon block confirmation.
    BidSubmitted { slot: Slot, bid_value: Gwei },
    /// Beacon block seen with our bid included — the envelope should be revealed now.
    BidIncluded { slot: Slot },
    /// Envelope revealed — waiting for the PTC result.
    EnvelopeRevealed { slot: Slot },
    /// PTC confirmed payload_present = true — payment guaranteed.
    Paid { slot: Slot, amount: Gwei },
    /// PTC confirmed payload_present = false — the builder was not paid.
    Unpaid { slot: Slot },
}

pub struct HonestBuilder {
    pub builder_index: BuilderIndex,
    pub balance: Gwei,
    pub slot_state: BuilderSlotState,
}

/// The slot state after a PTC outcome: paid the bid value when the payload was
/// seen present, unpaid otherwise.
pub open spec fn ptc_result_state(slot: Slot, payload_present: bool, bid_value: Gwei) -> BuilderSlotState {
    if payload_present {
        BuilderSlotState::Paid { slot, amount: bid_value }
    } else {
        BuilderSlotState::Unpaid { slot }
    }
}

impl HonestBuilder {
    pub fn new(index: BuilderIndex, balance: Gwei) -> (r: Self)
        ensures
            r.builder_index == index,
            r.balance == balance,
            r.slot_state == BuilderSlotState::Idle,
    {
        Self { builder_index: index, balance, slot_state: BuilderSlotState::Idle }
    }

    /// Steps 1+2: build the bid and submit it; on success the builder waits for
    /// its bid to be included. `message_encoding` is the canonical encoding of
    /// `bid_message(&params)`.
    /// The encoding must be the message's canonical JSON text, as the
    /// application layer's `*_json` entry points produce it with serde_json; the
    /// library signs or checks whatever bytes it is given and cannot tell.
    pub fn submit_bid(
        &mut self,
        params: BidParams,
        message_encoding: &[u8],
        sign_fn: impl Fn(&[u8]) -> Result<BLSSignature, String>,
    ) -> (r: Result<SignedExecutionPayloadBid, BidError>)
        requires
            forall|root: &[u8]| sign_fn.requires((root,)),
        ensures
            bid_params_error(params) matches Some(e) ==> r == Err::<
                SignedExecutionPayloadBid,
                BidError,
            >(e),
            bid_params_error(params) is None ==> exists|
                root: &[u8],
                signed: Result<BLSSignature, String>,
            |
                root@ == bid_signing_root(message_encoding@) && sign_fn.ensures((root,), signed)
                    && signed_bid_outcome(r, params, signed),
            r is Ok ==> final(self).slot_state == (BuilderSlotState::BidSubmitted {
                slot: params.slot,
                bid_value: params.bid_value,
            }),
            r is Err ==> final(self).slot_state == old(self).slot_state,
            final(self).builder_index == old(self).builder_index,
            final(self).balance == old(self).balance,
    {
        let bid = construct_bid(&params, message_encoding, sign_fn);
        if bid.is_ok() {
            self.slot_state = BuilderSlotState::BidSubmitted {
                slot: params.slot,
                bid_value: params.bid_value,
            };
        }
        bid
    }

    /// Step 3: called when the builder sees its bid included in the beacon block.
    pub fn on_bid_included(&mut self, slot: Slot)
        ensures
            final(self).slot_state == (BuilderSlotState::BidIncluded { slot }),
            final(self).builder_index == old(self).builder_index,
            final(self).balance == old(self).balance,
    {
        self.slot_state = BuilderSlotState::BidIncluded { slot };
    }

    /// Step 4: reveal the envelope as fast as possible; on success the builder
    /// waits for the PTC result. `message_encoding` is the canonical encoding of
    /// `envelope_message(&params)`. Once the PTC has voted the payload absent
    /// the builder must not reveal it, and the call is refused.
    /// The encoding must be the message's canonical JSON text, as the
    /// application layer's `*_json` entry points produce it with serde_json; the
    /// library signs or checks whatever bytes it is given and cannot tell.
    pub fn reveal_envelope(
        &mut self,
        params: EnvelopeParams,
        message_encoding: &[u8],
        sign_fn: impl Fn(&[u8]) -> Result<[u8; 96], String>,
    ) -> (r: Result<SignedExecutionPayloadEnvelope, EnvelopeError>)
        requires
            forall|root: &[u8]| sign_fn.requires((root,)),
        ensures
            old(self).slot_state matches BuilderSlotState::Unpaid { slot } ==> r == Err::<
                SignedExecutionPayloadEnvelope,
                EnvelopeError,
            >(EnvelopeError::PayloadWithheld { slot }),
            !(old(self).slot_state is Unpaid) ==> (envelope_params_error(params) matches Some(e) ==> r == Err::<
                SignedExecutionPayloadEnvelope,
                EnvelopeError,
            >(e)),
            !(old(self).slot_state is Unpaid) && envelope_params_error(params) is None ==> exists|
                root: &[u8],
                signed: Result<[u8; 96], String>,
            |
                root@ == envelope_signing_root(message_encoding@) && sign_fn.ensures((root,), signed)
                    && signed_envelope_outcome(r, params, signed),
            r is Ok ==> final(self).slot_state == (BuilderSlotState::EnvelopeRevealed {
                slot: params.slot,
            }),
            r is Err ==> final(self).slot_state == old(self).slot_state,
            final(self).builder_index == old(self).builder_index,
            final(self).balance == old(self).balance,
    {
        if let BuilderSlotState::Unpaid { slot } = self.slot_state {
            return Err(EnvelopeError::PayloadWithheld { slot });
        }
        let envelope = construct_envelope(&params, message_encoding, sign_fn);
        if envelope.is_ok() {
            self.slot_state = BuilderSlotState::EnvelopeRevealed { slot: params.slot };
        }
        envelope
    }

    /// Steps 5/6: update the state from the PTC outcome.
    pub fn on_ptc_result(&mut self, slot: Slot, payload_present: bool, bid_value: Gwei)
        ensures
            final(self).slot_state == ptc_result_state(slot, payload_present, bid_value),
            final(self).builder_index == old(self).builder_index,
            final(self).balance == old(self).balance,
    {
        self.slot_state = if payload_present {
            BuilderSlotState::Paid { slot, amount: bid_value }
        } else {
            BuilderSlotState::Unpaid { slot }
        };
    }

    /// True exactly when the builder's bid has been seen included and the
    /// envelope is still to be revealed.
    pub fn is_ready_to_reveal(&self) -> (r: bool)
        ensures
            r == (self.slot_state is BidIncluded),
    {
        matches!(self.slot_state, BuilderSlotState::BidIncluded { .. })
    }
}

} // verus!

verus! {

// ── Laws ──────────────────────────────────────────────────────────────────────

/// The builder ends a slot paid exactly when the PTC saw the payload present,
/// and is then paid its bid value for that slot.
pub proof fn lemma_paid_iff_payload_present(slot: Slot, payload_present: bool, bid_value: Gwei)
    ensures
        (ptc_result_state(slot, payload_present, bid_value) is Paid) == payload_present,
        (ptc_result_state(slot, payload_present, bid_value) is Unpaid) == !payload_present,
        payload_present ==> ptc_result_state(slot, payload_present, bid_value) == (
        BuilderSlotState::Paid { slot, amount: bid_value }),
{
}

/// The builder is ready to reveal only between seeing its bid included and
/// revealing: a fresh builder, a submitted bid, a revealed envelope and either
/// PTC outcome are not ready states; an included bid is.
pub proof fn lemma_ready_only_after_inclusion(slot: Slot, bid_value: Gwei, payload_present: bool)
    ensures
        !(BuilderSlotState::Idle is BidIncluded),
        !((BuilderSlotState::BidSubmitted { slot, bid_value }) is BidIncluded),
        (BuilderSlotState::BidIncluded { slot }) is BidIncluded,
        !((BuilderSlotState::EnvelopeRevealed { slot }) is BidIncluded),
        !(ptc_result_state(slot, payload_present, bid_value) is BidIncluded),
{
}

} // verus!
