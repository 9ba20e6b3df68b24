//! Asynchronous withdrawal processing.
//!
//! 1. When the BeaconBlock is processed, withdrawals are deducted from the
//!    beacon chain and the resulting list is committed to the state as the
//!    payload's expected withdrawals.
//! 2. When the builder's ExecutionPayloadEnvelope is processed, the payload
//!    must include exactly the committed withdrawals; on success the
//!    commitment is cleared.
//!
//! While a commitment is outstanding (an "empty" slot: beacon block present,
//! no payload revealed) no further withdrawals are processed.
use vstd::prelude::*;

use crate::beacon_chain::containers::{withdrawals_eq, Withdrawal};
use crate::beacon_chain::types::{Gwei, ValidatorIndex};

verus! {

broadcast use vstd::array::group_array_axioms;

#[derive(Debug, Clone, PartialEq)]
pub enum WithdrawalError {
    /// Payload withdrawals do not match state commitment.
    WithdrawalsMismatch,
    /// Outstanding withdrawals must be honored before processing new ones.
    OutstandingWithdrawals,
}

/// The beacon state surface needed for withdrawal processing.
pub trait WithdrawalState {
    /// The withdrawals committed during beacon block processing and not yet honored.
    spec fn expected_withdrawals(&self) -> Seq<Withdrawal>;

    /// Returns the list committed during beacon block processing.
    fn payload_expected_withdrawals(&self) -> (r: &[Withdrawal])
        ensures
            r@ == self.expected_withdrawals(),
    ;

    /// Deducts withdrawals from CL balances and stores them as expected.
    fn deduct_and_commit_withdrawals(&mut self, withdrawals: Vec<Withdrawal>)
        ensures
            final(self).expected_withdrawals() == withdrawals@,
    ;

    /// Clears the committed withdrawal list after a successful payload.
    fn clear_expected_withdrawals(&mut self)
        ensures
            final(self).expected_withdrawals() == Seq::<Withdrawal>::empty(),
    ;

    /// True while a committed withdrawal list is outstanding.
    fn has_pending_withdrawals(&self) -> (r: bool)
        ensures
            r == (self.expected_withdrawals().len() > 0),
    {
        self.payload_expected_withdrawals().len() != 0
    }
}

/// The expected withdrawals after consensus processing of `withdrawals`, and
/// the outcome: refused while a commitment is outstanding, committed otherwise.
pub open spec fn consensus_withdrawals_step(expected: Seq<Withdrawal>, withdrawals: Seq<Withdrawal>) -> (
    Seq<Withdrawal>,
    Result<(), WithdrawalError>,
) {
    if expected.len() > 0 {
        (expected, Err(WithdrawalError::OutstandingWithdrawals))
    } else {
        (withdrawals, Ok(()))
    }
}

/// The expected withdrawals after a payload carrying `payload_withdrawals` is
/// checked, and the outcome: cleared when they match the commitment exactly,
/// refused and kept otherwise.
pub open spec fn payload_withdrawals_step(
    expected: Seq<Withdrawal>,
    payload_withdrawals: Seq<Withdrawal>,
) -> (Seq<Withdrawal>, Result<(), WithdrawalError>) {
    if payload_withdrawals == expected {
        (Seq::empty(), Ok(()))
    } else {
        (expected, Err(WithdrawalError::WithdrawalsMismatch))
    }
}

/// Called during BeaconBlock processing (before the payload is known).
/// Deducts from the beacon chain and commits the list to the state.
pub fn process_withdrawals_consensus<S: WithdrawalState>(
    state: &mut S,
    withdrawals: Vec<Withdrawal>,
) -> (r: Result<(), WithdrawalError>)
    ensures
        r == consensus_withdrawals_step(old(state).expected_withdrawals(), withdrawals@).1,
        final(state).expected_withdrawals() == consensus_withdrawals_step(
            old(state).expected_withdrawals(),
            withdrawals@,
        ).0,
        r is Err ==> *final(state) == *old(state),
{
    if state.has_pending_withdrawals() {
        return Err(WithdrawalError::OutstandingWithdrawals);
    }
    state.deduct_and_commit_withdrawals(withdrawals);
    Ok(())
}

/// Called when the ExecutionPayloadEnvelope is received and processed.
/// Verifies the EL payload honored the committed withdrawal list.
pub fn verify_payload_withdrawals<S: WithdrawalState>(
    state: &mut S,
    payload_withdrawals: &[Withdrawal],
) -> (r: Result<(), WithdrawalError>)
    ensures
        r == payload_withdrawals_step(old(state).expected_withdrawals(), payload_withdrawals@).1,
        final(state).expected_withdrawals() == payload_withdrawals_step(
            old(state).expected_withdrawals(),
            payload_withdrawals@,
        ).0,
        r is Err ==> *final(state) == *old(state),
{
    let expected = state.payload_expected_withdrawals();
    if !withdrawals_eq(payload_withdrawals, expected) {
        return Err(WithdrawalError::WithdrawalsMismatch);
    }
    state.clear_expected_withdrawals();
    Ok(())
}

/// The withdrawal built for one `(validator_index, balance)` entry: the whole
/// balance of that validator, with withdrawal index and address left at zero.
pub open spec fn is_withdrawal_for(w: Withdrawal, entry: (ValidatorIndex, Gwei)) -> bool {
    &&& w.index == 0
    &&& w.validator_index == entry.0
    &&& w.address@ == Seq::new(20, |i: int| 0u8)
    &&& w.amount == entry.1
}

/// Compute the next set of validator withdrawals from beacon state: one
/// withdrawal per entry, for the first `max_per_payload` entries, in order.
/// Withdrawal index tracking and address resolution are not modelled.
pub fn compute_next_withdrawals(
    validator_balances: &[(ValidatorIndex, Gwei)],
    max_per_payload: usize,
) -> (r: Vec<Withdrawal>)
    ensures
        r@.len() == if validator_balances@.len() < max_per_payload {
            validator_balances@.len() as int
        } else {
            max_per_payload as int
        },
        forall|i: int| 0 <= i < r@.len() ==> is_withdrawal_for(#[trigger] r@[i], validator_balances@[i]),
{
    let n = if validator_balances.len() < max_per_payload {
        validator_balances.len()
    } else {
        max_per_payload
    };
    let mut out: Vec<Withdrawal> = Vec::new();
    let mut i: usize = 0;
    while i < n
        invariant
            0 <= i <= n,
            n <= validator_balances@.len(),
            out@.len() == i,
            forall|j: int| 0 <= j < i ==> is_withdrawal_for(#[trigger] out@[j], validator_balances@[j]),
        decreases n - i,
    {
        let (idx, balance) = validator_balances[i];
        let w = Withdrawal { index: 0, validator_index: idx, address: [0u8; 20], amount: balance };
        assert(w.address@ =~= Seq::new(20, |k: int| 0u8));
        out.push(w);
        i = i + 1;
    }
    out
}

} // verus!

verus! {

// ── Laws ──────────────────────────────────────────────────────────────────────

/// With no commitment outstanding, committing a list of withdrawals and then
/// presenting a payload that carries exactly that list succeeds at both steps
/// and leaves no commitment behind.
pub proof fn lemma_commit_then_honor_clears(withdrawals: Seq<Withdrawal>)
    ensures
        consensus_withdrawals_step(Seq::empty(), withdrawals) == (withdrawals, Ok::<
            (),
            WithdrawalError,
        >(())),
        payload_withdrawals_step(consensus_withdrawals_step(Seq::empty(), withdrawals).0, withdrawals)
            == (Seq::<Withdrawal>::empty(), Ok::<(), WithdrawalError>(())),
{
}

/// While a commitment is outstanding, no new withdrawals are processed: the
/// consensus step is refused and the commitment is kept.
pub proof fn lemma_outstanding_withdrawals_stall(
    expected: Seq<Withdrawal>,
    withdrawals: Seq<Withdrawal>,
)
    requires
        expected.len() > 0,
    ensures
        consensus_withdrawals_step(expected, withdrawals) == (expected, Err::<(), WithdrawalError>(
            WithdrawalError::OutstandingWithdrawals,
        )),
{
}

/// A payload whose withdrawals differ from the commitment is refused and the
/// commitment stays outstanding, so the withdrawals are still owed.
pub proof fn lemma_mismatched_payload_keeps_commitment(
    expected: Seq<Withdrawal>,
    payload_withdrawals: Seq<Withdrawal>,
)
    requires
        payload_withdrawals != expected,
    ensures
        payload_withdrawals_step(expected, payload_withdrawals) == (expected, Err::<
            (),
            WithdrawalError,
        >(WithdrawalError::WithdrawalsMismatch)),
{
}

} // verus!
