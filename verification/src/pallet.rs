//! The vocabulary of a host currency: a single-currency system that takes
//! the reasons for a withdrawal and the wish to keep an account alive along
//! with its calls. `BasicCurrencyAdapter` lifts such a system into the
//! vocabulary of the dispatch layer.
//!
//! As in that vocabulary, each operation comes with a relation named after
//! it, in which an implementation says what its callers can rely on.

use vstd::prelude::*;
use crate::primitives::{AccountId, Balance, BalanceStatus, Error, LockIdentifier};

verus! {

/// Whether an operation may take an account out of existence.
#[derive(Clone, Copy, Debug, PartialEq, Eq, Structural)]
pub enum ExistenceRequirement {
    /// The operation must leave the account in existence.
    KeepAlive,
    /// The operation may leave the account without funds.
    AllowDeath,
}

/// The reasons for which funds are withdrawn or locked.
#[derive(Clone, Copy, Debug, PartialEq, Eq, Structural)]
pub struct WithdrawReasons {
    /// To pay for a transaction.
    pub transaction_payment: bool,
    /// To transfer.
    pub transfer: bool,
    /// To reserve.
    pub reserve: bool,
    /// To pay a fee.
    pub fee: bool,
    /// To tip.
    pub tip: bool,
}

impl WithdrawReasons {
    /// No reason but a transfer.
    pub open spec fn only_transfer() -> WithdrawReasons {
        WithdrawReasons {
            transaction_payment: false,
            transfer: true,
            reserve: false,
            fee: false,
            tip: false,
        }
    }

    /// A transfer or a reservation, and no other reason.
    pub open spec fn transfer_or_reserve() -> WithdrawReasons {
        WithdrawReasons {
            transaction_payment: false,
            transfer: true,
            reserve: true,
            fee: false,
            tip: false,
        }
    }

    /// No reason but a transfer.
    pub fn transfer() -> (reasons: WithdrawReasons)
        ensures
            reasons == WithdrawReasons::only_transfer(),
    {
        WithdrawReasons {
            transaction_payment: false,
            transfer: true,
            reserve: false,
            fee: false,
            tip: false,
        }
    }

    /// A transfer or a reservation, and no other reason.
    pub fn transfer_and_reserve() -> (reasons: WithdrawReasons)
        ensures
            reasons == WithdrawReasons::transfer_or_reserve(),
    {
        WithdrawReasons {
            transaction_payment: false,
            transfer: true,
            reserve: true,
            fee: false,
            tip: false,
        }
    }
}

/// A host currency: balances that can be queried, transferred, created,
/// destroyed and slashed.
pub trait PalletCurrency: Sized {
    /// Whether the value is in a state in which it can be operated. An
    /// implementation that says nothing is always in such a state.
    open spec fn valid(&self) -> bool {
        true
    }

    /// What `total_issuance` may return. An implementation that says nothing
    /// promises nothing.
    open spec fn total_issuance_post(&self, issuance: Balance) -> bool {
        true
    }

    /// What `total_balance` may return. An implementation that says nothing
    /// promises nothing.
    open spec fn total_balance_post(&self, who: AccountId, total: Balance) -> bool {
        true
    }

    /// What `free_balance` may return. An implementation that says nothing
    /// promises nothing.
    open spec fn free_balance_post(&self, who: AccountId, free: Balance) -> bool {
        true
    }

    /// What `ensure_can_withdraw` may return. An implementation that says
    /// nothing promises nothing.
    open spec fn ensure_can_withdraw_post(
        &self,
        who: AccountId,
        amount: Balance,
        reasons: WithdrawReasons,
        new_balance: Balance,
        result: Result<(), Error>,
    ) -> bool {
        true
    }

    /// What `transfer` may leave and return. An implementation that says
    /// nothing promises nothing.
    open spec fn transfer_post(
        &self,
        after: &Self,
        source: AccountId,
        dest: AccountId,
        value: Balance,
        existence_requirement: ExistenceRequirement,
        result: Result<(), Error>,
    ) -> bool {
        true
    }

    /// What `deposit_creating` may leave. An implementation that says nothing
    /// promises nothing.
    open spec fn deposit_creating_post(
        &self,
        after: &Self,
        who: AccountId,
        value: Balance,
    ) -> bool {
        true
    }

    /// What `withdraw` may leave and return. An implementation that says
    /// nothing promises nothing.
    open spec fn withdraw_post(
        &self,
        after: &Self,
        who: AccountId,
        value: Balance,
        reasons: WithdrawReasons,
        liveness: ExistenceRequirement,
        result: Result<(), Error>,
    ) -> bool {
        true
    }

    /// What `can_slash` may return. An implementation that says nothing
    /// promises nothing.
    open spec fn can_slash_post(&self, who: AccountId, value: Balance, can: bool) -> bool {
        true
    }

    /// What `slash` may leave and return. An implementation that says nothing
    /// promises nothing.
    open spec fn slash_post(
        &self,
        after: &Self,
        who: AccountId,
        value: Balance,
        gap: Balance,
    ) -> bool {
        true
    }

    /// The total issuance of the currency.
    fn total_issuance(&self) -> (issuance: Balance)
        ensures
            self.total_issuance_post(issuance),
    ;

    /// The free and the reserved balance of `who` together.
    fn total_balance(&self, who: AccountId) -> (total: Balance)
        ensures
            self.total_balance_post(who, total),
    ;

    /// The free balance of `who`.
    fn free_balance(&self, who: AccountId) -> (free: Balance)
        ensures
            self.free_balance_post(who, free),
    ;

    /// Checks that `amount` may be withdrawn from `who` for `reasons`, given
    /// that `new_balance` would be left of the free balance.
    fn ensure_can_withdraw(
        &self,
        who: AccountId,
        amount: Balance,
        reasons: WithdrawReasons,
        new_balance: Balance,
    ) -> (result: Result<(), Error>)
        ensures
            self.ensure_can_withdraw_post(who, amount, reasons, new_balance, result),
    ;

    /// Moves `value` from the free balance of `source` to that of `dest`.
    fn transfer(
        &mut self,
        source: AccountId,
        dest: AccountId,
        value: Balance,
        existence_requirement: ExistenceRequirement,
    ) -> (result: Result<(), Error>)
        requires
            old(self).valid(),
        ensures
            final(self).valid(),
            old(self).transfer_post(
                final(self),
                source,
                dest,
                value,
                existence_requirement,
                result,
            ),
    ;

    /// Adds up to `value` to the free balance of `who`, creating the account
    /// where it does not exist. It never fails; it may add nothing.
    fn deposit_creating(&mut self, who: AccountId, value: Balance)
        requires
            old(self).valid(),
        ensures
            final(self).valid(),
            old(self).deposit_creating_post(final(self), who, value),
    ;

    /// Removes `value` from the free balance of `who` for `reasons`.
    fn withdraw(
        &mut self,
        who: AccountId,
        value: Balance,
        reasons: WithdrawReasons,
        liveness: ExistenceRequirement,
    ) -> (result: Result<(), Error>)
        requires
            old(self).valid(),
        ensures
            final(self).valid(),
            old(self).withdraw_post(final(self), who, value, reasons, liveness, result),
    ;

    /// Whether `value` can be slashed from the free balance of `who` alone.
    fn can_slash(&self, who: AccountId, value: Balance) -> (can: bool)
        ensures
            self.can_slash_post(who, value, can),
    ;

    /// Takes up to `value` from `who` and destroys it. Returns what could not
    /// be taken.
    fn slash(&mut self, who: AccountId, value: Balance) -> (gap: Balance)
        requires
            old(self).valid(),
        ensures
            final(self).valid(),
            old(self).slash_post(final(self), who, value, gap),
    ;
}

/// A host currency whose free balances can be locked.
pub trait PalletLockableCurrency: PalletCurrency {
    /// What `set_lock` may leave. An implementation that says nothing promises
    /// nothing.
    open spec fn set_lock_post(
        &self,
        after: &Self,
        id: LockIdentifier,
        who: AccountId,
        amount: Balance,
        reasons: WithdrawReasons,
    ) -> bool {
        true
    }

    /// What `extend_lock` may leave. An implementation that says nothing
    /// promises nothing.
    open spec fn extend_lock_post(
        &self,
        after: &Self,
        id: LockIdentifier,
        who: AccountId,
        amount: Balance,
        reasons: WithdrawReasons,
    ) -> bool {
        true
    }

    /// What `remove_lock` may leave. An implementation that says nothing
    /// promises nothing.
    open spec fn remove_lock_post(&self, after: &Self, id: LockIdentifier, who: AccountId) -> bool {
        true
    }

    /// Sets the lock named `id` on the balance of `who` to `amount`, against
    /// withdrawals for `reasons`.
    fn set_lock(
        &mut self,
        id: LockIdentifier,
        who: AccountId,
        amount: Balance,
        reasons: WithdrawReasons,
    )
        requires
            old(self).valid(),
        ensures
            final(self).valid(),
            old(self).set_lock_post(final(self), id, who, amount, reasons),
    ;

    /// Raises the lock named `id` on the balance of `who` to at least
    /// `amount`, and extends it to `reasons`.
    fn extend_lock(
        &mut self,
        id: LockIdentifier,
        who: AccountId,
        amount: Balance,
        reasons: WithdrawReasons,
    )
        requires
            old(self).valid(),
        ensures
            final(self).valid(),
            old(self).extend_lock_post(final(self), id, who, amount, reasons),
    ;

    /// Removes the lock named `id` from the balance of `who`.
    fn remove_lock(&mut self, id: LockIdentifier, who: AccountId)
        requires
            old(self).valid(),
        ensures
            final(self).valid(),
            old(self).remove_lock_post(final(self), id, who),
    ;
}

/// A host currency in which a part of the balance can be set aside.
pub trait PalletReservableCurrency: PalletCurrency {
    /// What `can_reserve` may return. An implementation that says nothing
    /// promises nothing.
    open spec fn can_reserve_post(&self, who: AccountId, value: Balance, can: bool) -> bool {
        true
    }

    /// What `slash_reserved` may leave and return. An implementation that says
    /// nothing promises nothing.
    open spec fn slash_reserved_post(
        &self,
        after: &Self,
        who: AccountId,
        value: Balance,
        gap: Balance,
    ) -> bool {
        true
    }

    /// What `reserved_balance` may return. An implementation that says nothing
    /// promises nothing.
    open spec fn reserved_balance_post(&self, who: AccountId, reserved: Balance) -> bool {
        true
    }

    /// What `reserve` may leave and return. An implementation that says
    /// nothing promises nothing.
    open spec fn reserve_post(
        &self,
        after: &Self,
        who: AccountId,
        value: Balance,
        result: Result<(), Error>,
    ) -> bool {
        true
    }

    /// What `unreserve` may leave and return. An implementation that says
    /// nothing promises nothing.
    open spec fn unreserve_post(
        &self,
        after: &Self,
        who: AccountId,
        value: Balance,
        gap: Balance,
    ) -> bool {
        true
    }

    /// What `repatriate_reserved` may leave and return. An implementation that
    /// says nothing promises nothing.
    open spec fn repatriate_reserved_post(
        &self,
        after: &Self,
        slashed: AccountId,
        beneficiary: AccountId,
        value: Balance,
        status: BalanceStatus,
        result: Result<Balance, Error>,
    ) -> bool {
        true
    }

    /// Whether `who` can reserve `value` from their free balance.
    fn can_reserve(&self, who: AccountId, value: Balance) -> (can: bool)
        ensures
            self.can_reserve_post(who, value, can),
    ;

    /// Destroys up to `value` of the reserved balance of `who`. Returns what
    /// the reserved balance did not cover.
    fn slash_reserved(&mut self, who: AccountId, value: Balance) -> (gap: Balance)
        requires
            old(self).valid(),
        ensures
            final(self).valid(),
            old(self).slash_reserved_post(final(self), who, value, gap),
    ;

    /// The reserved balance of `who`.
    fn reserved_balance(&self, who: AccountId) -> (reserved: Balance)
        ensures
            self.reserved_balance_post(who, reserved),
    ;

    /// Moves `value` from the free balance of `who` to their reserved balance.
    fn reserve(&mut self, who: AccountId, value: Balance) -> (result: Result<(), Error>)
        requires
            old(self).valid(),
        ensures
            final(self).valid(),
            old(self).reserve_post(final(self), who, value, result),
    ;

    /// Moves up to `value` from the reserved balance of `who` back to their
    /// free balance. Returns what the reserved balance did not cover.
    fn unreserve(&mut self, who: AccountId, value: Balance) -> (gap: Balance)
        requires
            old(self).valid(),
        ensures
            final(self).valid(),
            old(self).unreserve_post(final(self), who, value, gap),
    ;

    /// Moves up to `value` from the reserved balance of `slashed` to the
    /// balance of `beneficiary` that `status` names. Returns what the reserved
    /// balance did not cover.
    fn repatriate_reserved(
        &mut self,
        slashed: AccountId,
        beneficiary: AccountId,
        value: Balance,
        status: BalanceStatus,
    ) -> (result: Result<Balance, Error>)
        requires
            old(self).valid(),
        ensures
            final(self).valid(),
            old(self).repatriate_reserved_post(
                final(self),
                slashed,
                beneficiary,
                value,
                status,
                result,
            ),
    ;
}

} // verus!
