//! The vocabulary of a single-currency provider: what the dispatch layer asks
//! of the native currency, one capability per trait.
//!
//! Each operation comes with a relation named after it: for a query between
//! the provider and what it returns, for an operation that changes the
//! provider between the provider before, the provider after and what is
//! returned. An implementation says what the relation is for it, and thereby
//! what its callers can rely on; an implementation that says nothing promises
//! nothing. Code that is generic over the provider states its own contracts
//! through these relations.

use vstd::prelude::*;
use crate::primitives::{AccountId, Amount, Balance, BalanceStatus, Error, LockIdentifier};

verus! {

/// A fungible single-currency system: balances that can be queried,
/// transferred, created, destroyed and slashed.
pub trait BasicCurrency: Sized {
    /// Whether the value is in a state in which it can be operated. An
    /// implementation that says nothing is always in such a state.
    open spec fn valid(&self) -> bool {
        true
    }

    /// What `total_issuance` may return. An implementation that says nothing
    /// promises nothing.
    open spec fn total_issuance_post(&self, issuance: Balance) -> bool {
        true
    }

    /// What `total_balance` may return. An implementation that says nothing
    /// promises nothing.
    open spec fn total_balance_post(&self, who: AccountId, total: Balance) -> bool {
        true
    }

    /// What `free_balance` may return. An implementation that says nothing
    /// promises nothing.
    open spec fn free_balance_post(&self, who: AccountId, free: Balance) -> bool {
        true
    }

    /// What `ensure_can_withdraw` may return. An implementation that says
    /// nothing promises nothing.
    open spec fn ensure_can_withdraw_post(
        &self,
        who: AccountId,
        amount: Balance,
        result: Result<(), Error>,
    ) -> bool {
        true
    }

    /// What `transfer` may leave and return. An implementation that says
    /// nothing promises nothing.
    open spec fn transfer_post(
        &self,
        after: &Self,
        from: AccountId,
        to: AccountId,
        amount: Balance,
        result: Result<(), Error>,
    ) -> bool {
        true
    }

    /// What `deposit` may leave and return. An implementation that says
    /// nothing promises nothing.
    open spec fn deposit_post(
        &self,
        after: &Self,
        who: AccountId,
        amount: Balance,
        result: Result<(), Error>,
    ) -> bool {
        true
    }

    /// What `withdraw` may leave and return. An implementation that says
    /// nothing promises nothing.
    open spec fn withdraw_post(
        &self,
        after: &Self,
        who: AccountId,
        amount: Balance,
        result: Result<(), Error>,
    ) -> bool {
        true
    }

    /// What `can_slash` may return. An implementation that says nothing
    /// promises nothing.
    open spec fn can_slash_post(&self, who: AccountId, amount: Balance, can: bool) -> bool {
        true
    }

    /// What `slash` may leave and return. An implementation that says nothing
    /// promises nothing.
    open spec fn slash_post(
        &self,
        after: &Self,
        who: AccountId,
        amount: Balance,
        leftover: Balance,
    ) -> bool {
        true
    }

    /// The total issuance of the currency.
    fn total_issuance(&self) -> (issuance: Balance)
        ensures
            self.total_issuance_post(issuance),
    ;

    /// The free and the reserved balance of `who` together.
    fn total_balance(&self, who: AccountId) -> (total: Balance)
        ensures
            self.total_balance_post(who, total),
    ;

    /// The free balance of `who`.
    fn free_balance(&self, who: AccountId) -> (free: Balance)
        ensures
            self.free_balance_post(who, free),
    ;

    /// Checks that `amount` may leave the free balance of `who`.
    fn ensure_can_withdraw(&self, who: AccountId, amount: Balance) -> (result: Result<(), Error>)
        ensures
            self.ensure_can_withdraw_post(who, amount, result),
    ;

    /// Moves `amount` from `from` to `to`.
    fn transfer(
        &mut self,
        from: AccountId,
        to: AccountId,
        amount: Balance,
    ) -> (result: Result<(), Error>)
        requires
            old(self).valid(),
        ensures
            final(self).valid(),
            old(self).transfer_post(final(self), from, to, amount, result),
    ;

    /// Creates `amount` on the free balance of `who`.
    fn deposit(&mut self, who: AccountId, amount: Balance) -> (result: Result<(), Error>)
        requires
            old(self).valid(),
        ensures
            final(self).valid(),
            old(self).deposit_post(final(self), who, amount, result),
    ;

    /// Destroys `amount` of the free balance of `who`.
    fn withdraw(&mut self, who: AccountId, amount: Balance) -> (result: Result<(), Error>)
        requires
            old(self).valid(),
        ensures
            final(self).valid(),
            old(self).withdraw_post(final(self), who, amount, result),
    ;

    /// Whether `amount` can be slashed from the free balance of `who` alone.
    fn can_slash(&self, who: AccountId, amount: Balance) -> (can: bool)
        ensures
            self.can_slash_post(who, amount, can),
    ;

    /// Takes up to `amount` from `who` and destroys it. Returns what could not
    /// be taken.
    fn slash(&mut self, who: AccountId, amount: Balance) -> (leftover: Balance)
        requires
            old(self).valid(),
        ensures
            final(self).valid(),
            old(self).slash_post(final(self), who, amount, leftover),
    ;
}

/// A single-currency system whose balances can be changed by a signed amount.
pub trait BasicCurrencyExtended: BasicCurrency {
    /// What `update_balance` may leave and return. An implementation that says
    /// nothing promises nothing.
    open spec fn update_balance_post(
        &self,
        after: &Self,
        who: AccountId,
        by_amount: Amount,
        result: Result<(), Error>,
    ) -> bool {
        true
    }

    /// Adds `by_amount` to the free balance of `who`, or takes its magnitude
    /// away where it is negative.
    fn update_balance(&mut self, who: AccountId, by_amount: Amount) -> (result: Result<(), Error>)
        requires
            old(self).valid(),
        ensures
            final(self).valid(),
            old(self).update_balance_post(final(self), who, by_amount, result),
    ;
}

/// A single-currency system whose free balances can be locked.
pub trait BasicLockableCurrency: BasicCurrency {
    /// What `set_lock` may leave. An implementation that says nothing promises
    /// nothing.
    open spec fn set_lock_post(
        &self,
        after: &Self,
        lock_id: LockIdentifier,
        who: AccountId,
        amount: Balance,
    ) -> bool {
        true
    }

    /// What `extend_lock` may leave. An implementation that says nothing
    /// promises nothing.
    open spec fn extend_lock_post(
        &self,
        after: &Self,
        lock_id: LockIdentifier,
        who: AccountId,
        amount: Balance,
    ) -> bool {
        true
    }

    /// What `remove_lock` may leave. An implementation that says nothing
    /// promises nothing.
    open spec fn remove_lock_post(
        &self,
        after: &Self,
        lock_id: LockIdentifier,
        who: AccountId,
    ) -> bool {
        true
    }

    /// Sets the lock named `lock_id` on the balance of `who` to `amount`.
    fn set_lock(&mut self, lock_id: LockIdentifier, who: AccountId, amount: Balance)
        requires
            old(self).valid(),
        ensures
            final(self).valid(),
            old(self).set_lock_post(final(self), lock_id, who, amount),
    ;

    /// Raises the lock named `lock_id` on the balance of `who` to at least
    /// `amount`.
    fn extend_lock(&mut self, lock_id: LockIdentifier, who: AccountId, amount: Balance)
        requires
            old(self).valid(),
        ensures
            final(self).valid(),
            old(self).extend_lock_post(final(self), lock_id, who, amount),
    ;

    /// Removes the lock named `lock_id` from the balance of `who`.
    fn remove_lock(&mut self, lock_id: LockIdentifier, who: AccountId)
        requires
            old(self).valid(),
        ensures
            final(self).valid(),
            old(self).remove_lock_post(final(self), lock_id, who),
    ;
}

/// A single-currency system in which a part of the balance can be set aside.
pub trait BasicReservableCurrency: BasicCurrency {
    /// What `can_reserve` may return. An implementation that says nothing
    /// promises nothing.
    open spec fn can_reserve_post(&self, who: AccountId, value: Balance, can: bool) -> bool {
        true
    }

    /// What `slash_reserved` may leave and return. An implementation that says
    /// nothing promises nothing.
    open spec fn slash_reserved_post(
        &self,
        after: &Self,
        who: AccountId,
        value: Balance,
        leftover: Balance,
    ) -> bool {
        true
    }

    /// What `reserved_balance` may return. An implementation that says nothing
    /// promises nothing.
    open spec fn reserved_balance_post(&self, who: AccountId, reserved: Balance) -> bool {
        true
    }

    /// What `reserve` may leave and return. An implementation that says
    /// nothing promises nothing.
    open spec fn reserve_post(
        &self,
        after: &Self,
        who: AccountId,
        value: Balance,
        result: Result<(), Error>,
    ) -> bool {
        true
    }

    /// What `unreserve` may leave and return. An implementation that says
    /// nothing promises nothing.
    open spec fn unreserve_post(
        &self,
        after: &Self,
        who: AccountId,
        value: Balance,
        leftover: Balance,
    ) -> bool {
        true
    }

    /// What `repatriate_reserved` may leave and return. An implementation that
    /// says nothing promises nothing.
    open spec fn repatriate_reserved_post(
        &self,
        after: &Self,
        slashed: AccountId,
        beneficiary: AccountId,
        value: Balance,
        status: BalanceStatus,
        result: Result<Balance, Error>,
    ) -> bool {
        true
    }

    /// Whether `who` can reserve `value` from their free balance.
    fn can_reserve(&self, who: AccountId, value: Balance) -> (can: bool)
        ensures
            self.can_reserve_post(who, value, can),
    ;

    /// Destroys up to `value` of the reserved balance of `who`. Returns what
    /// the reserved balance did not cover.
    fn slash_reserved(&mut self, who: AccountId, value: Balance) -> (leftover: Balance)
        requires
            old(self).valid(),
        ensures
            final(self).valid(),
            old(self).slash_reserved_post(final(self), who, value, leftover),
    ;

    /// The reserved balance of `who`.
    fn reserved_balance(&self, who: AccountId) -> (reserved: Balance)
        ensures
            self.reserved_balance_post(who, reserved),
    ;

    /// Moves `value` from the free balance of `who` to their reserved balance.
    fn reserve(&mut self, who: AccountId, value: Balance) -> (result: Result<(), Error>)
        requires
            old(self).valid(),
        ensures
            final(self).valid(),
            old(self).reserve_post(final(self), who, value, result),
    ;

    /// Moves up to `value` from the reserved balance of `who` back to their
    /// free balance. Returns what the reserved balance did not cover.
    fn unreserve(&mut self, who: AccountId, value: Balance) -> (leftover: Balance)
        requires
            old(self).valid(),
        ensures
            final(self).valid(),
            old(self).unreserve_post(final(self), who, value, leftover),
    ;

    /// Moves up to `value` from the reserved balance of `slashed` to the
    /// balance of `beneficiary` that `status` names. Returns what the reserved
    /// balance did not cover.
    fn repatriate_reserved(
        &mut self,
        slashed: AccountId,
        beneficiary: AccountId,
        value: Balance,
        status: BalanceStatus,
    ) -> (result: Result<Balance, Error>)
        requires
            old(self).valid(),
        ensures
            final(self).valid(),
            old(self).repatriate_reserved_post(
                final(self),
                slashed,
                beneficiary,
                value,
                status,
                result,
            ),
    ;
}

} // verus!
