//! Builder registry and withdrawal flows.
//!
//! The state surface is kept minimal while enforcing:
//! - bounded registry size (`BUILDER_REGISTRY_LIMIT`)
//! - bounded pending withdrawals (`BUILDER_PENDING_WITHDRAWALS_LIMIT`)
//! - withdrawability gating by epoch (`withdrawable_epoch`)
//!
//! Deposits are not implemented; builders are inserted directly through the
//! state trait.
use vstd::prelude::*;

use crate::beacon_chain::constants::{
    BUILDER_PENDING_WITHDRAWALS_LIMIT, BUILDER_REGISTRY_LIMIT, MAX_BUILDERS_PER_WITHDRAWALS_SWEEP,
};
use crate::beacon_chain::containers::{Builder, BuilderPendingWithdrawal};
use crate::beacon_chain::types::{BuilderIndex, Epoch, Gwei};

verus! {

#[derive(Debug, Clone, PartialEq)]
pub enum RegistryError {
    /// Builder registry full (carries the limit).
    RegistryFull(u64),
    /// A builder with this index already exists.
    BuilderExists(BuilderIndex),
    /// No builder with this index.
    UnknownBuilder(BuilderIndex),
    /// Builder not withdrawable until `required`; the current epoch is `current`.
    NotWithdrawable { index: BuilderIndex, required: Epoch, current: Epoch },
    /// Builder balance insufficient for the requested withdrawal.
    InsufficientBalance { index: BuilderIndex, balance: Gwei, amount: Gwei },
    /// Pending withdrawals queue full (carries the limit).
    PendingQueueFull(u64),
}

/// The builder registered under `index`, if any.
pub open spec fn builder_at(builders: Map<BuilderIndex, Builder>, index: BuilderIndex) -> Option<
    Builder,
> {
    if builders.contains_key(index) {
        Some(builders[index])
    } else {
        None
    }
}

/// A builder with `amount` taken off its balance and every other field kept.
pub open spec fn debited(builder: Builder, amount: Gwei) -> Builder {
    Builder { balance: (builder.balance - amount) as u64, ..builder }
}

/// The number of pending withdrawals a pop of at most `max` takes from a queue of `len`.
pub open spec fn popped_count(len: nat, max: u64) -> nat {
    if len < max {
        len
    } else {
        max as nat
    }
}

/// The registry surface of the beacon state.
pub trait RegistryState {
    /// Registered builders by index.
    spec fn builders(&self) -> Map<BuilderIndex, Builder>;

    /// The pending builder withdrawal queue, oldest first.
    spec fn pending_withdrawals(&self) -> Seq<BuilderPendingWithdrawal>;

    fn builder_count(&self) -> (r: u64)
        ensures
            r == self.builders().len(),
    ;

    fn get_builder(&self, index: BuilderIndex) -> (r: Option<Builder>)
        ensures
            r == builder_at(self.builders(), index),
    ;

    fn insert_builder(&mut self, index: BuilderIndex, builder: Builder)
        ensures
            final(self).builders() == old(self).builders().insert(index, builder),
            final(self).pending_withdrawals() == old(self).pending_withdrawals(),
    ;

    fn debit_builder_balance(&mut self, index: BuilderIndex, amount: Gwei)
        requires
            old(self).builders().contains_key(index),
            amount <= old(self).builders()[index].balance,
        ensures
            final(self).builders() == old(self).builders().insert(
                index,
                debited(old(self).builders()[index], amount),
            ),
            final(self).pending_withdrawals() == old(self).pending_withdrawals(),
    ;

    fn push_pending_withdrawal(&mut self, w: BuilderPendingWithdrawal)
        ensures
            final(self).builders() == old(self).builders(),
            final(self).pending_withdrawals() == old(self).pending_withdrawals().push(w),
    ;

    fn pending_withdrawals_len(&self) -> (r: u64)
        ensures
            r == self.pending_withdrawals().len(),
    ;

    /// Removes and returns the oldest pending withdrawals, at most `max` of them.
    fn pop_pending_withdrawals(&mut self, max: u64) -> (r: Vec<BuilderPendingWithdrawal>)
        ensures
            r@ == old(self).pending_withdrawals().take(
                popped_count(old(self).pending_withdrawals().len(), max) as int,
            ),
            final(self).pending_withdrawals() == old(self).pending_withdrawals().skip(
                popped_count(old(self).pending_withdrawals().len(), max) as int,
            ),
            final(self).builders() == old(self).builders(),
    ;
}

/// The outcome of registering `index`: refused when the registry holds
/// `BUILDER_REGISTRY_LIMIT` builders or more, or when `index` is taken.
pub open spec fn register_outcome(
    builders: Map<BuilderIndex, Builder>,
    index: BuilderIndex,
) -> Result<(), RegistryError> {
    if builders.len() >= BUILDER_REGISTRY_LIMIT {
        Err(RegistryError::RegistryFull(BUILDER_REGISTRY_LIMIT))
    } else if builders.contains_key(index) {
        Err(RegistryError::BuilderExists(index))
    } else {
        Ok(())
    }
}

/// Register a builder if space permits.
pub fn register_builder<S: RegistryState>(state: &mut S, index: BuilderIndex, builder: Builder) -> (r:
    Result<(), RegistryError>)
    ensures
        r == register_outcome(old(state).builders(), index),
        r is Ok ==> final(state).builders() == old(state).builders().insert(index, builder)
            && final(state).pending_withdrawals() == old(state).pending_withdrawals(),
        r is Err ==> *final(state) == *old(state),
{
    if state.builder_count() >= BUILDER_REGISTRY_LIMIT {
        return Err(RegistryError::RegistryFull(BUILDER_REGISTRY_LIMIT));
    }
    if state.get_builder(index).is_some() {
        return Err(RegistryError::BuilderExists(index));
    }
    state.insert_builder(index, builder);
    Ok(())
}

/// The pending withdrawal a request creates: the builder's execution address
/// as fee recipient, the requested amount and the builder's index.
pub open spec fn withdrawal_request(builder: Builder, index: BuilderIndex, amount: Gwei) -> BuilderPendingWithdrawal {
    BuilderPendingWithdrawal { fee_recipient: builder.execution_address, amount, builder_index: index }
}

/// The outcome of a withdrawal request, checked in this order: unknown
/// builder, not yet withdrawable, insufficient balance, full queue.
pub open spec fn withdrawal_request_outcome(
    builders: Map<BuilderIndex, Builder>,
    pending_len: nat,
    index: BuilderIndex,
    amount: Gwei,
    current_epoch: Epoch,
) -> Result<BuilderPendingWithdrawal, RegistryError> {
    if !builders.contains_key(index) {
        Err(RegistryError::UnknownBuilder(index))
    } else if builders[index].withdrawable_epoch > current_epoch {
        Err(
            RegistryError::NotWithdrawable {
                index,
                required: builders[index].withdrawable_epoch,
                current: current_epoch,
            },
        )
    } else if builders[index].balance < amount {
        Err(
            RegistryError::InsufficientBalance { index, balance: builders[index].balance, amount },
        )
    } else if pending_len >= BUILDER_PENDING_WITHDRAWALS_LIMIT {
        Err(RegistryError::PendingQueueFull(BUILDER_PENDING_WITHDRAWALS_LIMIT))
    } else {
        Ok(withdrawal_request(builders[index], index, amount))
    }
}

/// Request a withdrawal of builder balance into the execution layer.
pub fn request_builder_withdrawal<S: RegistryState>(
    state: &mut S,
    index: BuilderIndex,
    amount: Gwei,
    current_epoch: Epoch,
) -> (r: Result<BuilderPendingWithdrawal, RegistryError>)
    ensures
        r == withdrawal_request_outcome(
            old(state).builders(),
            old(state).pending_withdrawals().len(),
            index,
            amount,
            current_epoch,
        ),
        r matches Ok(w) ==> {
            &&& final(state).builders() == old(state).builders().insert(
                index,
                debited(old(state).builders()[index], amount),
            )
            &&& final(state).pending_withdrawals() == old(state).pending_withdrawals().push(w)
        },
        r is Err ==> *final(state) == *old(state),
{
    let builder = match state.get_builder(index) {
        Some(b) => b,
        None => {
            return Err(RegistryError::UnknownBuilder(index));
        },
    };
    if builder.withdrawable_epoch > current_epoch {
        return Err(
            RegistryError::NotWithdrawable {
                index,
                required: builder.withdrawable_epoch,
                current: current_epoch,
            },
        );
    }
    if builder.balance < amount {
        return Err(RegistryError::InsufficientBalance { index, balance: builder.balance, amount });
    }
    if state.pending_withdrawals_len() >= BUILDER_PENDING_WITHDRAWALS_LIMIT {
        return Err(RegistryError::PendingQueueFull(BUILDER_PENDING_WITHDRAWALS_LIMIT));
    }
    let withdrawal = BuilderPendingWithdrawal {
        fee_recipient: builder.execution_address,
        amount,
        builder_index: index,
    };
    state.debit_builder_balance(index, amount);
    state.push_pending_withdrawal(
        BuilderPendingWithdrawal {
            fee_recipient: builder.execution_address,
            amount,
            builder_index: index,
        },
    );
    Ok(withdrawal)
}

/// Pop up to `MAX_BUILDERS_PER_WITHDRAWALS_SWEEP` pending withdrawals for inclusion.
pub fn sweep_pending_withdrawals<S: RegistryState>(state: &mut S) -> (r: Vec<BuilderPendingWithdrawal>)
    ensures
        r@ == old(state).pending_withdrawals().take(
            popped_count(old(state).pending_withdrawals().len(), MAX_BUILDERS_PER_WITHDRAWALS_SWEEP)
                as int,
        ),
        final(state).pending_withdrawals() == old(state).pending_withdrawals().skip(
            popped_count(old(state).pending_withdrawals().len(), MAX_BUILDERS_PER_WITHDRAWALS_SWEEP)
                as int,
        ),
        final(state).builders() == old(state).builders(),
{
    state.pop_pending_withdrawals(MAX_BUILDERS_PER_WITHDRAWALS_SWEEP)
}

} // verus!

verus! {

// ── Laws ──────────────────────────────────────────────────────────────────────

/// A successful registration makes the builder retrievable under its index,
/// and never takes a finite registry past `BUILDER_REGISTRY_LIMIT` builders.
pub proof fn lemma_register_then_lookup(
    builders: Map<BuilderIndex, Builder>,
    index: BuilderIndex,
    builder: Builder,
)
    requires
        builders.dom().finite(),
        register_outcome(builders, index) is Ok,
    ensures
        builder_at(builders.insert(index, builder), index) == Some(builder),
        builders.insert(index, builder).len() <= BUILDER_REGISTRY_LIMIT,
        builders.insert(index, builder).len() == builders.len() + 1,
{
}

/// An index that is already registered is refused (unless the registry is
/// full, which is reported first).
pub proof fn lemma_duplicate_registration_refused(
    builders: Map<BuilderIndex, Builder>,
    index: BuilderIndex,
)
    requires
        builders.contains_key(index),
        builders.len() < BUILDER_REGISTRY_LIMIT,
    ensures
        register_outcome(builders, index) == Err::<(), RegistryError>(
            RegistryError::BuilderExists(index),
        ),
{
}

/// A granted withdrawal moves exactly the requested amount: the builder's new
/// balance plus the queued amount is its old balance, the withdrawal goes to the
/// builder's execution address, and the queue stays within its limit.
pub proof fn lemma_withdrawal_conserves_balance(
    builders: Map<BuilderIndex, Builder>,
    pending_len: nat,
    index: BuilderIndex,
    amount: Gwei,
    current_epoch: Epoch,
)
    requires
        withdrawal_request_outcome(builders, pending_len, index, amount, current_epoch) is Ok,
    ensures
        ({
            let w = withdrawal_request_outcome(builders, pending_len, index, amount, current_epoch)
                ->Ok_0;
            &&& debited(builders[index], amount).balance + w.amount == builders[index].balance
            &&& w.amount == amount
            &&& w.builder_index == index
            &&& w.fee_recipient == builders[index].execution_address
            &&& builders[index].withdrawable_epoch <= current_epoch
            &&& pending_len + 1 <= BUILDER_PENDING_WITHDRAWALS_LIMIT
        }),
{
}

/// A sweep takes the oldest withdrawals, at most `MAX_BUILDERS_PER_WITHDRAWALS_SWEEP`
/// of them, and what it takes followed by what it leaves is the old queue.
pub proof fn lemma_sweep_splits_queue(pending: Seq<BuilderPendingWithdrawal>)
    ensures
        ({
            let n = popped_count(pending.len(), MAX_BUILDERS_PER_WITHDRAWALS_SWEEP) as int;
            &&& n <= MAX_BUILDERS_PER_WITHDRAWALS_SWEEP
            &&& n <= pending.len()
            &&& pending.take(n) + pending.skip(n) == pending
            &&& (pending.len() >= MAX_BUILDERS_PER_WITHDRAWALS_SWEEP ==> n
                == MAX_BUILDERS_PER_WITHDRAWALS_SWEEP)
        }),
{
    let n = popped_count(pending.len(), MAX_BUILDERS_PER_WITHDRAWALS_SWEEP) as int;
    assert(pending.take(n) + pending.skip(n) =~= pending);
}

/// Registration is refused only for a full registry or a taken index: a fresh
/// index in a registry below its limit is accepted, and every refusal names
/// its cause.
pub proof fn lemma_fresh_registration_accepted(
    builders: Map<BuilderIndex, Builder>,
    index: BuilderIndex,
)
    ensures
        builders.len() < BUILDER_REGISTRY_LIMIT && !builders.contains_key(index) ==> register_outcome(
            builders,
            index,
        ) == Ok::<(), RegistryError>(()),
        register_outcome(builders, index) is Err ==> builders.len() >= BUILDER_REGISTRY_LIMIT
            || builders.contains_key(index),
        register_outcome(builders, index) == Err::<(), RegistryError>(
            RegistryError::BuilderExists(index),
        ) ==> builders.contains_key(index),
{
}

/// A known builder whose withdrawable epoch has been reached (now or earlier),
/// whose balance covers the amount and whose queue has room is granted exactly
/// the requested amount, to its execution address; and each refusal holds only
/// when its cause does.
pub proof fn lemma_eligible_withdrawal_granted(
    builders: Map<BuilderIndex, Builder>,
    pending_len: nat,
    index: BuilderIndex,
    amount: Gwei,
    current_epoch: Epoch,
)
    ensures
        (builders.contains_key(index) && builders[index].withdrawable_epoch <= current_epoch
            && amount <= builders[index].balance && pending_len < BUILDER_PENDING_WITHDRAWALS_LIMIT)
            ==> withdrawal_request_outcome(builders, pending_len, index, amount, current_epoch)
            == Ok::<BuilderPendingWithdrawal, RegistryError>(
            BuilderPendingWithdrawal {
                fee_recipient: builders[index].execution_address,
                amount,
                builder_index: index,
            },
        ),
        withdrawal_request_outcome(builders, pending_len, index, amount, current_epoch) matches Err(
            e,
        ) ==> match e {
            RegistryError::UnknownBuilder(i) => i == index && !builders.contains_key(index),
            RegistryError::NotWithdrawable { index: i, required, current } => i == index
                && builders.contains_key(index) && required == builders[index].withdrawable_epoch
                && current == current_epoch && required > current,
            RegistryError::InsufficientBalance { index: i, balance, amount: a } => i == index
                && builders.contains_key(index) && balance == builders[index].balance && a == amount
                && balance < amount,
            RegistryError::PendingQueueFull(limit) => limit == BUILDER_PENDING_WITHDRAWALS_LIMIT
                && pending_len >= BUILDER_PENDING_WITHDRAWALS_LIMIT,
            _ => false,
        },
{
}

} // verus!
