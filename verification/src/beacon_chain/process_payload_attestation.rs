//! `process_payload_attestation`.
//!
//! Validates aggregated PTC attestations included in a BeaconBlockBody.
//! PTC members attest to whether the builder revealed the payload in time
//! (`payload_present`) and whether blob data was available
//! (`blob_data_available`); they do not validate execution correctness.
use vstd::prelude::*;

use crate::beacon_chain::constants::{DOMAIN_PTC_ATTESTER, PTC_SIZE};
use crate::beacon_chain::containers::PayloadAttestation;
use crate::beacon_chain::types::{BLSPubkey, Slot, ValidatorIndex};
use crate::utils::crypto::{bls_aggregate_signature_valid, bls_verify_aggregate};
use crate::utils::ssz::{compute_domain_simple, domain_of, signing_root_encoded, signing_root_of};

verus! {

#[derive(Debug, Clone, PartialEq)]
pub enum PayloadAttestationError {
    /// The attestation references slot `attested` but the parent slot is `parent`.
    WrongSlot { attested: Slot, parent: Slot },
    /// `aggregation_bits` length does not match PTC_SIZE.
    WrongBitsLength(usize),
    /// Invalid aggregated BLS signature.
    InvalidSignature,
    /// Attesting index is not a PTC member for this slot.
    NotPtcMember(ValidatorIndex),
    /// PTC pubkey list length does not match committee size.
    MissingPubkeys,
}

/// Read-only beacon state surface needed by PTC attestation processing.
pub trait BeaconStateRead {
    /// The slot of the parent block.
    spec fn prior_slot(&self) -> Slot;

    /// The payload timeliness committee of a slot, in committee order.
    spec fn committee(&self, slot: Slot) -> Seq<ValidatorIndex>;

    /// The public keys of the committee members of a slot, in committee order.
    spec fn committee_pubkeys(&self, slot: Slot) -> Seq<BLSPubkey>;

    /// The root of the parent beacon block.
    spec fn prior_block_root(&self) -> [u8; 32];

    fn parent_slot(&self) -> (r: Slot)
        ensures
            r == self.prior_slot(),
    ;

    fn get_ptc(&self, slot: Slot) -> (r: Vec<ValidatorIndex>)
        ensures
            r@ == self.committee(slot),
    ;

    fn ptc_pubkeys(&self, slot: Slot) -> (r: Vec<BLSPubkey>)
        ensures
            r@ == self.committee_pubkeys(slot),
    ;

    fn parent_beacon_block_root(&self) -> (r: [u8; 32])
        ensures
            r == self.prior_block_root(),
    ;
}

/// The members whose bit is set, among the first `n` positions, in order.
pub open spec fn attesting_members<T>(bits: Seq<bool>, members: Seq<T>, n: nat) -> Seq<T>
    decreases n,
{
    if n == 0 {
        Seq::empty()
    } else {
        let prev = attesting_members(bits, members, (n - 1) as nat);
        if bits[n - 1] {
            prev.push(members[n - 1])
        } else {
            prev
        }
    }
}

/// Every set bit has a committee member at its position.
pub open spec fn bits_within_committee(bits: Seq<bool>, committee_len: nat) -> bool {
    forall|i: int| 0 <= i < bits.len() && #[trigger] bits[i] ==> i < committee_len
}

/// The outcome of the checks made before the signature: slot, bitvector
/// length and committee pubkeys, in that order. On success it carries the
/// pubkeys of the attesting committee members.
pub open spec fn attestation_precheck_outcome<S: BeaconStateRead>(
    state: S,
    attestation: PayloadAttestation,
) -> Result<Seq<BLSPubkey>, PayloadAttestationError> {
    let data = attestation.data;
    let bits = attestation.aggregation_bits@;
    if data.slot != state.prior_slot() {
        Err(PayloadAttestationError::WrongSlot { attested: data.slot, parent: state.prior_slot() })
    } else if bits.len() != PTC_SIZE {
        Err(PayloadAttestationError::WrongBitsLength(bits.len() as usize))
    } else if state.committee_pubkeys(data.slot).len() != state.committee(data.slot).len() {
        Err(PayloadAttestationError::MissingPubkeys)
    } else {
        Ok(attesting_members(bits, state.committee_pubkeys(data.slot), bits.len()))
    }
}

/// The signing root of attestation data with the given encoding, under the PTC domain.
pub open spec fn attestation_signing_root(data_encoding: Seq<u8>) -> Seq<u8> {
    signing_root_of(data_encoding, domain_of(DOMAIN_PTC_ATTESTER@))
}

/// The outcome of processing an attestation whose data has the given encoding.
pub open spec fn attestation_outcome<S: BeaconStateRead>(
    state: S,
    attestation: PayloadAttestation,
    data_encoding: Seq<u8>,
) -> Result<(), PayloadAttestationError> {
    match attestation_precheck_outcome(state, attestation) {
        Err(e) => Err(e),
        Ok(pubkeys) => if bls_aggregate_signature_valid(
            pubkeys,
            attestation_signing_root(data_encoding),
            attestation.signature@,
        ) {
            Ok(())
        } else {
            Err(PayloadAttestationError::InvalidSignature)
        },
    }
}

/// The precondition under which attestation processing never reads past the
/// committee: when slot, length and pubkey checks pass, every set bit has a
/// committee member at its position.
pub open spec fn attestation_in_bounds<S: BeaconStateRead>(
    state: S,
    attestation: PayloadAttestation,
) -> bool {
    let slot = attestation.data.slot;
    (slot == state.prior_slot() && attestation.aggregation_bits@.len() == PTC_SIZE
        && state.committee_pubkeys(slot).len() == state.committee(slot).len())
        ==> bits_within_committee(attestation.aggregation_bits@, state.committee(slot).len())
}

/// The checks of attestation processing that do not involve the signature.
/// Returns the pubkeys of the attesting committee members when they pass.
pub fn check_payload_attestation<S: BeaconStateRead>(
    state: &S,
    attestation: &PayloadAttestation,
) -> (r: Result<Vec<BLSPubkey>, PayloadAttestationError>)
    requires
        attestation_in_bounds(*state, *attestation),
    ensures
        match attestation_precheck_outcome(*state, *attestation) {
            Ok(pubkeys) => r matches Ok(v) && v@ == pubkeys,
            Err(e) => r == Err::<Vec<BLSPubkey>, PayloadAttestationError>(e),
        },
{
    let data = &attestation.data;
    if data.slot != state.parent_slot() {
        return Err(
            PayloadAttestationError::WrongSlot { attested: data.slot, parent: state.parent_slot() },
        );
    }
    let bits = &attestation.aggregation_bits;
    if bits.len() != PTC_SIZE as usize {
        return Err(PayloadAttestationError::WrongBitsLength(bits.len()));
    }
    let ptc = state.get_ptc(data.slot);
    let ptc_pubkeys = state.ptc_pubkeys(data.slot);
    if ptc_pubkeys.len() != ptc.len() {
        return Err(PayloadAttestationError::MissingPubkeys);
    }
    let mut attesting_indices: Vec<ValidatorIndex> = Vec::new();
    let mut attesting_pubkeys: Vec<BLSPubkey> = Vec::new();
    let n = bits.len();
    let mut i: usize = 0;
    while i < n
        invariant
            0 <= i <= n,
            n == bits@.len(),
            ptc_pubkeys@.len() == ptc@.len(),
            bits_within_committee(bits@, ptc@.len()),
            attesting_indices@ == attesting_members(bits@, ptc@, i as nat),
            attesting_pubkeys@ == attesting_members(bits@, ptc_pubkeys@, i as nat),
        decreases n - i,
    {
        if bits[i] {
            attesting_indices.push(ptc[i]);
            attesting_pubkeys.push(ptc_pubkeys[i]);
        }
        i = i + 1;
    }
    Ok(attesting_pubkeys)
}

/// Validate a `PayloadAttestation` from the beacon block body.
///
/// `data_encoding` is the canonical (JSON) encoding of `attestation.data`; the
/// aggregate signature of the attesting PTC members is checked over its
/// signing root.
/// The encoding must be the message's canonical JSON text, as the
/// application layer's `*_json` entry points produce it with serde_json; the
/// library signs or checks whatever bytes it is given and cannot tell.
pub fn process_payload_attestation<S: BeaconStateRead>(
    state: &S,
    attestation: &PayloadAttestation,
    data_encoding: &[u8],
) -> (r: Result<(), PayloadAttestationError>)
    requires
        attestation_in_bounds(*state, *attestation),
    ensures
        r == attestation_outcome(*state, *attestation, data_encoding@),
{
    let attesting_pubkeys = match check_payload_attestation(state, attestation) {
        Ok(pks) => pks,
        Err(e) => {
            return Err(e);
        },
    };
    verify_aggregate_ptc_signature(&attestation.signature, data_encoding, &attesting_pubkeys)
}

/// Verifies the aggregate signature of `pubkeys` over the signing root of the
/// attestation data under `DOMAIN_PTC_ATTESTER`.
fn verify_aggregate_ptc_signature(
    signature: &[u8; 96],
    data_encoding: &[u8],
    pubkeys: &[BLSPubkey],
) -> (r: Result<(), PayloadAttestationError>)
    ensures
        r == if bls_aggregate_signature_valid(
            pubkeys@,
            attestation_signing_root(data_encoding@),
            signature@,
        ) {
            Ok::<(), PayloadAttestationError>(())
        } else {
            Err(PayloadAttestationError::InvalidSignature)
        },
{
    let domain = compute_domain_simple(DOMAIN_PTC_ATTESTER);
    let signing_root = signing_root_encoded(data_encoding, domain);
    match bls_verify_aggregate(pubkeys, &signing_root, signature) {
        Ok(()) => Ok(()),
        Err(_) => Err(PayloadAttestationError::InvalidSignature),
    }
}

} // verus!

verus! {

// ── Laws ──────────────────────────────────────────────────────────────────────

/// The attesting members are the committee members whose bit is set, in
/// committee order: there are never more of them than bits considered, none
/// when no bit is set, and the whole committee when every bit is set.
pub proof fn lemma_attesting_members_bounds<T>(bits: Seq<bool>, members: Seq<T>, n: nat)
    requires
        n <= bits.len(),
        n <= members.len(),
    ensures
        attesting_members(bits, members, n).len() <= n,
        (forall|i: int| 0 <= i < n ==> !#[trigger] bits[i]) ==> attesting_members(bits, members, n)
            == Seq::<T>::empty(),
        (forall|i: int| 0 <= i < n ==> #[trigger] bits[i]) ==> attesting_members(bits, members, n)
            == members.take(n as int),
    decreases n,
{
    if n > 0 {
        lemma_attesting_members_bounds(bits, members, (n - 1) as nat);
        if forall|i: int| 0 <= i < n ==> #[trigger] bits[i] {
            assert(forall|i: int| 0 <= i < n - 1 ==> #[trigger] bits[i]);
            assert(members.take(n - 1).push(members[n - 1]) =~= members.take(n as int));
        }
        if forall|i: int| 0 <= i < n ==> !#[trigger] bits[i] {
            assert(forall|i: int| 0 <= i < n - 1 ==> !#[trigger] bits[i]);
        }
    } else {
        assert(members.take(0) =~= Seq::<T>::empty());
    }
}

/// The parent beacon block root never decides an attestation: two states that
/// agree on the parent slot and on the committee and its public keys for the
/// attested slot give every attestation the same outcome, whatever their
/// parent block roots.
pub proof fn lemma_outcome_ignores_parent_block_root<S: BeaconStateRead>(
    s1: S,
    s2: S,
    attestation: PayloadAttestation,
    data_encoding: Seq<u8>,
)
    requires
        s1.prior_slot() == s2.prior_slot(),
        s1.committee(attestation.data.slot) == s2.committee(attestation.data.slot),
        s1.committee_pubkeys(attestation.data.slot) == s2.committee_pubkeys(attestation.data.slot),
    ensures
        attestation_outcome(s1, attestation, data_encoding) == attestation_outcome(
            s2,
            attestation,
            data_encoding,
        ),
{
}

/// An attestation that passes the checks before the signature but has no bit
/// set is refused: an empty set of attesters has no valid aggregate signature.
pub proof fn lemma_attestation_without_attesters_refused<S: BeaconStateRead>(
    state: S,
    attestation: PayloadAttestation,
    data_encoding: Seq<u8>,
)
    requires
        attestation_precheck_outcome(state, attestation) is Ok,
        forall|i: int|
            0 <= i < attestation.aggregation_bits@.len() ==> !#[trigger] attestation.aggregation_bits@[i],
    ensures
        attestation_outcome(state, attestation, data_encoding) == Err::<(), PayloadAttestationError>(
            PayloadAttestationError::InvalidSignature,
        ),
{
    let bits = attestation.aggregation_bits@;
    let pubkeys = state.committee_pubkeys(attestation.data.slot);
    assert(bits.len() == PTC_SIZE);
    lemma_attesting_members_none(bits, pubkeys, bits.len());
}

/// With no bit set among the first `n`, nobody attests.
proof fn lemma_attesting_members_none<T>(bits: Seq<bool>, members: Seq<T>, n: nat)
    requires
        n <= bits.len(),
        forall|i: int| 0 <= i < bits.len() ==> !#[trigger] bits[i],
    ensures
        attesting_members(bits, members, n) == Seq::<T>::empty(),
    decreases n,
{
    if n > 0 {
        assert(!bits[n - 1]);
        lemma_attesting_members_none(bits, members, (n - 1) as nat);
    }
}

/// The attesting members are exactly the members at the set positions, in
/// position order: the returned positions are increasing, each is a set
/// position below `n` whose member sits at the same place in the result, and
/// every set position below `n` is among them. So one unset bit leaves out
/// only its own member.
pub proof fn lemma_attesting_members_are_set_positions<T>(
    bits: Seq<bool>,
    members: Seq<T>,
    n: nat,
) -> (positions: Seq<int>)
    requires
        n <= bits.len(),
        n <= members.len(),
    ensures
        positions.len() == attesting_members(bits, members, n).len(),
        forall|k: int|
            0 <= k < positions.len() ==> 0 <= #[trigger] positions[k] < n && bits[positions[k]]
                && attesting_members(bits, members, n)[k] == members[positions[k]],
        forall|k1: int, k2: int|
            0 <= k1 < k2 < positions.len() ==> #[trigger] positions[k1] < #[trigger] positions[k2],
        forall|i: int| 0 <= i < n && #[trigger] bits[i] ==> positions.contains(i),
    decreases n,
{
    if n == 0 {
        Seq::empty()
    } else {
        let prev = lemma_attesting_members_are_set_positions(bits, members, (n - 1) as nat);
        if bits[n - 1] {
            let positions = prev.push(n - 1);
            assert forall|i: int| 0 <= i < n && #[trigger] bits[i] implies positions.contains(i) by {
                if i < n - 1 {
                    let k = choose|k: int| 0 <= k < prev.len() && prev[k] == i;
                    assert(positions[k] == i);
                } else {
                    assert(positions[prev.len() as int] == i);
                }
            }
            positions
        } else {
            assert forall|i: int| 0 <= i < n && #[trigger] bits[i] implies prev.contains(i) by {
                assert(i != n - 1);
            }
            prev
        }
    }
}

/// An attestation passes the checks before the signature only for the parent
/// slot and with a full-size bitvector; for another slot it is refused with the
/// two slots.
pub proof fn lemma_attestation_prechecks_require_parent_slot<S: BeaconStateRead>(
    state: S,
    attestation: PayloadAttestation,
)
    ensures
        attestation.data.slot != state.prior_slot() ==> attestation_precheck_outcome(
            state,
            attestation,
        ) == Err::<Seq<BLSPubkey>, PayloadAttestationError>(
            PayloadAttestationError::WrongSlot {
                attested: attestation.data.slot,
                parent: state.prior_slot(),
            },
        ),
        attestation_precheck_outcome(state, attestation) is Ok ==> attestation.data.slot
            == state.prior_slot() && attestation.aggregation_bits@.len() == PTC_SIZE,
{
}

} // verus!
