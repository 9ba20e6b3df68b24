//! In-memory beacon state surfaces.
//!
//! `BeaconState` implements the state traits used by bid processing,
//! PTC attestation processing and withdrawal processing; `BuilderRegistry`
//! implements the registry trait. Both keep their data in plain collections,
//! and their trait methods are verified against the traits' contracts.
use std::collections::{HashMap, VecDeque};
use vstd::prelude::*;

use crate::beacon_chain::containers::{
    copy_slice,
    copy_withdrawals, Builder, BuilderPendingPayment, BuilderPendingWithdrawal, Withdrawal,
};
use crate::beacon_chain::process_payload_attestation::BeaconStateRead;
use crate::beacon_chain::process_payload_bid::{map_lookup, BeaconStateMut};
use crate::beacon_chain::registry::{builder_at, debited, popped_count, RegistryState};
use crate::beacon_chain::types::{BLSPubkey, BuilderIndex, Gwei, Hash32, Root, Slot, ValidatorIndex};
use crate::beacon_chain::withdrawals::WithdrawalState;

verus! {

broadcast use {vstd::std_specs::hash::group_hash_axioms, vstd::array::group_array_axioms};

/// Beacon state data read and written by block processing.
pub struct BeaconState {
    /// Balance of each registered builder.
    pub builder_balances: HashMap<BuilderIndex, Gwei>,
    /// Public key of each builder.
    pub builder_pubkeys: HashMap<BuilderIndex, BLSPubkey>,
    /// Pending builder payments, oldest first.
    pub pending_payments: Vec<BuilderPendingPayment>,
    /// Slot of the block being processed.
    pub slot: Slot,
    /// Slot of the parent block.
    pub parent_slot: Slot,
    /// Block hash of the latest execution payload.
    pub latest_block_hash: Hash32,
    /// Root of the parent beacon block.
    pub parent_block_root: Root,
    /// Payload timeliness committee of each slot.
    pub ptc: HashMap<Slot, Vec<ValidatorIndex>>,
    /// Public keys of the committee members of each slot, in committee order.
    pub ptc_pubkeys: HashMap<Slot, Vec<BLSPubkey>>,
    /// Withdrawals committed during block processing and not yet honored.
    pub expected_withdrawals: Vec<Withdrawal>,
}

/// The list stored under `slot` in a per-slot map, or the empty list.
pub open spec fn per_slot<T>(m: Map<Slot, Vec<T>>, slot: Slot) -> Seq<T> {
    if m.contains_key(slot) {
        m[slot]@
    } else {
        Seq::empty()
    }
}

impl BeaconState {
    /// A state at `slot` with no builders, no committees and nothing pending.
    pub fn new(slot: Slot, parent_slot: Slot, latest_block_hash: Hash32) -> (r: Self)
        ensures
            r.builder_balances@ == Map::<BuilderIndex, Gwei>::empty(),
            r.builder_pubkeys@ == Map::<BuilderIndex, BLSPubkey>::empty(),
            r.pending_payments@ == Seq::<BuilderPendingPayment>::empty(),
            r.slot == slot,
            r.parent_slot == parent_slot,
            r.latest_block_hash == latest_block_hash,
            r.parent_block_root@ == Seq::new(32, |i: int| 0u8),
            r.ptc@ == Map::<Slot, Vec<ValidatorIndex>>::empty(),
            r.ptc_pubkeys@ == Map::<Slot, Vec<BLSPubkey>>::empty(),
            r.expected_withdrawals@ == Seq::<Withdrawal>::empty(),
    {
        let parent_block_root = [0u8; 32];
        assert(parent_block_root@ =~= Seq::new(32, |i: int| 0u8));
        BeaconState {
            builder_balances: HashMap::new(),
            builder_pubkeys: HashMap::new(),
            pending_payments: Vec::new(),
            slot,
            parent_slot,
            latest_block_hash,
            parent_block_root,
            ptc: HashMap::new(),
            ptc_pubkeys: HashMap::new(),
            expected_withdrawals: Vec::new(),
        }
    }
}

impl BeaconStateMut for BeaconState {
    open spec fn builder_balances(&self) -> Map<BuilderIndex, Gwei> {
        self.builder_balances@
    }

    open spec fn builder_pubkeys(&self) -> Map<BuilderIndex, BLSPubkey> {
        self.builder_pubkeys@
    }

    open spec fn pending_payments(&self) -> Seq<BuilderPendingPayment> {
        self.pending_payments@
    }

    open spec fn slot(&self) -> Slot {
        self.slot
    }

    open spec fn block_hash(&self) -> Hash32 {
        self.latest_block_hash
    }

    fn builder_balance(&self, index: BuilderIndex) -> (r: Option<Gwei>) {
        match self.builder_balances.get(&index) {
            Some(b) => Some(*b),
            None => None,
        }
    }

    fn builder_pubkey(&self, index: BuilderIndex) -> (r: Option<BLSPubkey>) {
        match self.builder_pubkeys.get(&index) {
            Some(pk) => Some(*pk),
            None => None,
        }
    }

    fn deduct_builder_balance(&mut self, index: BuilderIndex, amount: Gwei) {
        let balance = match self.builder_balances.get(&index) {
            Some(b) => *b,
            None => 0,
        };
        self.builder_balances.insert(index, balance - amount);
    }

    fn push_pending_payment(&mut self, payment: BuilderPendingPayment) {
        self.pending_payments.push(payment);
    }

    fn current_slot(&self) -> (r: Slot) {
        self.slot
    }

    fn latest_block_hash(&self) -> (r: [u8; 32]) {
        self.latest_block_hash
    }
}

impl BeaconStateRead for BeaconState {
    open spec fn prior_slot(&self) -> Slot {
        self.parent_slot
    }

    open spec fn committee(&self, slot: Slot) -> Seq<ValidatorIndex> {
        per_slot(self.ptc@, slot)
    }

    open spec fn committee_pubkeys(&self, slot: Slot) -> Seq<BLSPubkey> {
        per_slot(self.ptc_pubkeys@, slot)
    }

    open spec fn prior_block_root(&self) -> [u8; 32] {
        self.parent_block_root
    }

    fn parent_slot(&self) -> (r: Slot) {
        self.parent_slot
    }

    fn get_ptc(&self, slot: Slot) -> (r: Vec<ValidatorIndex>) {
        match self.ptc.get(&slot) {
            Some(members) => copy_slice(members.as_slice()),
            None => Vec::new(),
        }
    }

    fn ptc_pubkeys(&self, slot: Slot) -> (r: Vec<BLSPubkey>) {
        match self.ptc_pubkeys.get(&slot) {
            Some(keys) => copy_slice(keys.as_slice()),
            None => Vec::new(),
        }
    }

    fn parent_beacon_block_root(&self) -> (r: [u8; 32]) {
        self.parent_block_root
    }
}

impl WithdrawalState for BeaconState {
    open spec fn expected_withdrawals(&self) -> Seq<Withdrawal> {
        self.expected_withdrawals@
    }

    fn payload_expected_withdrawals(&self) -> (r: &[Withdrawal]) {
        self.expected_withdrawals.as_slice()
    }

    fn deduct_and_commit_withdrawals(&mut self, withdrawals: Vec<Withdrawal>) {
        self.expected_withdrawals = withdrawals;
    }

    fn clear_expected_withdrawals(&mut self) {
        self.expected_withdrawals = Vec::new();
    }
}

/// The builder registry: registered builders and the pending withdrawal queue.
pub struct BuilderRegistry {
    /// Registered builders by index.
    pub builders: HashMap<BuilderIndex, Builder>,
    /// Pending builder withdrawals, oldest first.
    pub pending: VecDeque<BuilderPendingWithdrawal>,
}

impl BuilderRegistry {
    /// An empty registry.
    pub fn new() -> (r: Self)
        ensures
            r.builders@ == Map::<BuilderIndex, Builder>::empty(),
            r.pending@ == Seq::<BuilderPendingWithdrawal>::empty(),
    {
        BuilderRegistry { builders: HashMap::new(), pending: VecDeque::new() }
    }
}

fn copy_builder(b: &Builder) -> (r: Builder)
    ensures
        r == *b,
{
    Builder {
        pubkey: b.pubkey,
        version: b.version,
        execution_address: b.execution_address,
        balance: b.balance,
        deposit_epoch: b.deposit_epoch,
        withdrawable_epoch: b.withdrawable_epoch,
    }
}

impl RegistryState for BuilderRegistry {
    open spec fn builders(&self) -> Map<BuilderIndex, Builder> {
        self.builders@
    }

    open spec fn pending_withdrawals(&self) -> Seq<BuilderPendingWithdrawal> {
        self.pending@
    }

    fn builder_count(&self) -> (r: u64) {
        proof {
            assert(self.builders@.dom().finite());
        }
        self.builders.len() as u64
    }

    fn get_builder(&self, index: BuilderIndex) -> (r: Option<Builder>) {
        match self.builders.get(&index) {
            Some(b) => Some(copy_builder(b)),
            None => None,
        }
    }

    fn insert_builder(&mut self, index: BuilderIndex, builder: Builder) {
        self.builders.insert(index, builder);
    }

    fn debit_builder_balance(&mut self, index: BuilderIndex, amount: Gwei) {
        let updated = match self.builders.get(&index) {
            Some(b) => Some(
                Builder {
                    pubkey: b.pubkey,
                    version: b.version,
                    execution_address: b.execution_address,
                    balance: b.balance - amount,
                    deposit_epoch: b.deposit_epoch,
                    withdrawable_epoch: b.withdrawable_epoch,
                },
            ),
            None => None,
        };
        if let Some(b) = updated {
            self.builders.insert(index, b);
        }
    }

    fn push_pending_withdrawal(&mut self, w: BuilderPendingWithdrawal) {
        self.pending.push_back(w);
    }

    fn pending_withdrawals_len(&self) -> (r: u64) {
        self.pending.len() as u64
    }

    fn pop_pending_withdrawals(&mut self, max: u64) -> (r: Vec<BuilderPendingWithdrawal>) {
        let ghost queued = self.pending@;
        let ghost count = popped_count(queued.len(), max);
        let mut out: Vec<BuilderPendingWithdrawal> = Vec::new();
        let mut taken: u64 = 0;
        while taken < max && self.pending.len() > 0
            invariant
                taken <= max,
                taken <= queued.len(),
                out@ == queued.take(taken as int),
                self.pending@ == queued.skip(taken as int),
                self.builders@ == old(self).builders@,
                queued == old(self).pending@,
                count == popped_count(queued.len(), max),
            decreases max - taken,
        {
            let w = self.pending.pop_front();
            if let Some(w) = w {
                out.push(w);
            }
            taken = taken + 1;
            assert(out@ =~= queued.take(taken as int));
            assert(self.pending@ =~= queued.skip(taken as int));
        }
        assert(taken == count);
        out
    }
}

} // verus!
