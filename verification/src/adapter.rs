//! Lifts a host currency into the vocabulary of the dispatch layer.

use vstd::prelude::*;
use crate::basic::{
    BasicCurrency, BasicCurrencyExtended, BasicLockableCurrency, BasicReservableCurrency,
};
use crate::pallet::{
    ExistenceRequirement, PalletCurrency, PalletLockableCurrency, PalletReservableCurrency,
    WithdrawReasons,
};
use crate::primitives::{AccountId, Amount, Balance, BalanceStatus, Error, LockIdentifier};

verus! {

/// Adapts a host currency to `BasicCurrency` and its extensions.
///
/// Withdrawals and transfers are made for the reason of a transfer and may
/// leave the account without funds. Locks are set against transfers and
/// reservations. A deposit creates the account where it does not exist, and
/// never fails.
pub struct BasicCurrencyAdapter<C> {
    pallet: C,
}

impl<C: PalletCurrency> BasicCurrencyAdapter<C> {
    /// The host currency.
    pub closed spec fn inner(&self) -> C {
        self.pallet
    }

    /// An adapter for the host currency.
    pub fn new(pallet: C) -> (adapter: Self)
        ensures
            adapter.inner() == pallet,
    {
        BasicCurrencyAdapter { pallet }
    }

    /// The host currency.
    pub fn pallet(&self) -> (pallet: &C)
        ensures
            *pallet == self.inner(),
    {
        &self.pallet
    }

    /// Gives the host currency back.
    pub fn into_inner(self) -> (pallet: C)
        ensures
            pallet == self.inner(),
    {
        self.pallet
    }
}

impl<C: PalletCurrency> BasicCurrency for BasicCurrencyAdapter<C> {
    open spec fn valid(&self) -> bool {
        self.inner().valid()
    }

    open spec fn total_issuance_post(&self, issuance: Balance) -> bool {
        self.inner().total_issuance_post(issuance)
    }

    open spec fn total_balance_post(&self, who: AccountId, total: Balance) -> bool {
        self.inner().total_balance_post(who, total)
    }

    open spec fn free_balance_post(&self, who: AccountId, free: Balance) -> bool {
        self.inner().free_balance_post(who, free)
    }

    /// The host currency reported a free balance for `who`. Where that does
    /// not cover the amount, the answer is `BalanceTooLow`. Otherwise it is
    /// what the host currency says of a withdrawal for a transfer that leaves
    /// the rest.
    open spec fn ensure_can_withdraw_post(
        &self,
        who: AccountId,
        amount: Balance,
        result: Result<(), Error>,
    ) -> bool {
        exists|free: Balance|
            {
                &&& #[trigger] self.inner().free_balance_post(who, free)
                &&& if free < amount {
                    result == Err::<(), Error>(Error::BalanceTooLow)
                } else {
                    self.inner().ensure_can_withdraw_post(
                        who,
                        amount,
                        WithdrawReasons::only_transfer(),
                        (free - amount) as Balance,
                        result,
                    )
                }
            }
    }

    open spec fn can_slash_post(&self, who: AccountId, amount: Balance, can: bool) -> bool {
        self.inner().can_slash_post(who, amount, can)
    }

    /// The transfer of the host currency that may leave `from` without funds.
    open spec fn transfer_post(
        &self,
        after: &Self,
        from: AccountId,
        to: AccountId,
        amount: Balance,
        result: Result<(), Error>,
    ) -> bool {
        self.inner().transfer_post(
            &after.inner(),
            from,
            to,
            amount,
            ExistenceRequirement::AllowDeath,
            result,
        )
    }

    /// The creating deposit of the host currency, reported as a success.
    open spec fn deposit_post(
        &self,
        after: &Self,
        who: AccountId,
        amount: Balance,
        result: Result<(), Error>,
    ) -> bool {
        &&& result is Ok
        &&& self.inner().deposit_creating_post(&after.inner(), who, amount)
    }

    /// The withdrawal of the host currency for a transfer that may leave
    /// `who` without funds.
    open spec fn withdraw_post(
        &self,
        after: &Self,
        who: AccountId,
        amount: Balance,
        result: Result<(), Error>,
    ) -> bool {
        self.inner().withdraw_post(
            &after.inner(),
            who,
            amount,
            WithdrawReasons::only_transfer(),
            ExistenceRequirement::AllowDeath,
            result,
        )
    }

    open spec fn slash_post(
        &self,
        after: &Self,
        who: AccountId,
        amount: Balance,
        leftover: Balance,
    ) -> bool {
        self.inner().slash_post(&after.inner(), who, amount, leftover)
    }

    fn total_issuance(&self) -> (issuance: Balance) {
        self.pallet.total_issuance()
    }

    fn total_balance(&self, who: AccountId) -> (total: Balance) {
        self.pallet.total_balance(who)
    }

    fn free_balance(&self, who: AccountId) -> (free: Balance) {
        self.pallet.free_balance(who)
    }

    fn ensure_can_withdraw(&self, who: AccountId, amount: Balance) -> (result: Result<(), Error>) {
        let free = self.free_balance(who);
        let new_balance = match free.checked_sub(amount) {
            None => {
                return Err(Error::BalanceTooLow);
            },
            Some(new_balance) => new_balance,
        };
        self.pallet.ensure_can_withdraw(who, amount, WithdrawReasons::transfer(), new_balance)
    }

    fn transfer(
        &mut self,
        from: AccountId,
        to: AccountId,
        amount: Balance,
    ) -> (result: Result<(), Error>) {
        self.pallet.transfer(from, to, amount, ExistenceRequirement::AllowDeath)
    }

    fn deposit(&mut self, who: AccountId, amount: Balance) -> (result: Result<(), Error>) {
        self.pallet.deposit_creating(who, amount);
        Ok(())
    }

    fn withdraw(&mut self, who: AccountId, amount: Balance) -> (result: Result<(), Error>) {
        self.pallet.withdraw(
            who,
            amount,
            WithdrawReasons::transfer(),
            ExistenceRequirement::AllowDeath,
        )
    }

    fn can_slash(&self, who: AccountId, amount: Balance) -> (can: bool) {
        self.pallet.can_slash(who, amount)
    }

    fn slash(&mut self, who: AccountId, amount: Balance) -> (leftover: Balance) {
        self.pallet.slash(who, amount)
    }
}

impl<C: PalletCurrency> BasicCurrencyExtended for BasicCurrencyAdapter<C> {
    /// The smallest `Amount`, whose magnitude is not an `Amount` itself, is
    /// refused with `AmountIntoBalanceFailed` and changes nothing. A positive
    /// amount is deposited. The magnitude of any other amount is withdrawn,
    /// that of zero too.
    open spec fn update_balance_post(
        &self,
        after: &Self,
        who: AccountId,
        by_amount: Amount,
        result: Result<(), Error>,
    ) -> bool {
        if by_amount == Amount::MIN {
            &&& result == Err::<(), Error>(Error::AmountIntoBalanceFailed)
            &&& after.inner() == self.inner()
        } else if by_amount > 0 {
            self.deposit_post(after, who, by_amount as Balance, result)
        } else {
            self.withdraw_post(after, who, (-by_amount) as Balance, result)
        }
    }

    fn update_balance(&mut self, who: AccountId, by_amount: Amount) -> (result: Result<(), Error>) {
        if by_amount == Amount::MIN {
            return Err(Error::AmountIntoBalanceFailed);
        }
        if by_amount > 0 {
            self.deposit(who, by_amount as Balance)
        } else {
            self.withdraw(who, (-by_amount) as Balance)
        }
    }
}

impl<C: PalletLockableCurrency> BasicLockableCurrency for BasicCurrencyAdapter<C> {
    /// The lock of the host currency against transfers and reservations.
    open spec fn set_lock_post(
        &self,
        after: &Self,
        lock_id: LockIdentifier,
        who: AccountId,
        amount: Balance,
    ) -> bool {
        self.inner().set_lock_post(
            &after.inner(),
            lock_id,
            who,
            amount,
            WithdrawReasons::transfer_or_reserve(),
        )
    }

    /// The extension of the host currency's lock against transfers and
    /// reservations.
    open spec fn extend_lock_post(
        &self,
        after: &Self,
        lock_id: LockIdentifier,
        who: AccountId,
        amount: Balance,
    ) -> bool {
        self.inner().extend_lock_post(
            &after.inner(),
            lock_id,
            who,
            amount,
            WithdrawReasons::transfer_or_reserve(),
        )
    }

    open spec fn remove_lock_post(
        &self,
        after: &Self,
        lock_id: LockIdentifier,
        who: AccountId,
    ) -> bool {
        self.inner().remove_lock_post(&after.inner(), lock_id, who)
    }

    fn set_lock(&mut self, lock_id: LockIdentifier, who: AccountId, amount: Balance) {
        self.pallet.set_lock(lock_id, who, amount, WithdrawReasons::transfer_and_reserve());
    }

    fn extend_lock(&mut self, lock_id: LockIdentifier, who: AccountId, amount: Balance) {
        self.pallet.extend_lock(lock_id, who, amount, WithdrawReasons::transfer_and_reserve());
    }

    fn remove_lock(&mut self, lock_id: LockIdentifier, who: AccountId) {
        self.pallet.remove_lock(lock_id, who);
    }
}

impl<C: PalletReservableCurrency> BasicReservableCurrency for BasicCurrencyAdapter<C> {
    open spec fn can_reserve_post(&self, who: AccountId, value: Balance, can: bool) -> bool {
        self.inner().can_reserve_post(who, value, can)
    }

    open spec fn reserved_balance_post(&self, who: AccountId, reserved: Balance) -> bool {
        self.inner().reserved_balance_post(who, reserved)
    }

    open spec fn slash_reserved_post(
        &self,
        after: &Self,
        who: AccountId,
        value: Balance,
        leftover: Balance,
    ) -> bool {
        self.inner().slash_reserved_post(&after.inner(), who, value, leftover)
    }

    open spec fn reserve_post(
        &self,
        after: &Self,
        who: AccountId,
        value: Balance,
        result: Result<(), Error>,
    ) -> bool {
        self.inner().reserve_post(&after.inner(), who, value, result)
    }

    open spec fn unreserve_post(
        &self,
        after: &Self,
        who: AccountId,
        value: Balance,
        leftover: Balance,
    ) -> bool {
        self.inner().unreserve_post(&after.inner(), who, value, leftover)
    }

    open spec fn repatriate_reserved_post(
        &self,
        after: &Self,
        slashed: AccountId,
        beneficiary: AccountId,
        value: Balance,
        status: BalanceStatus,
        result: Result<Balance, Error>,
    ) -> bool {
        self.inner().repatriate_reserved_post(
            &after.inner(),
            slashed,
            beneficiary,
            value,
            status,
            result,
        )
    }

    fn can_reserve(&self, who: AccountId, value: Balance) -> (can: bool) {
        self.pallet.can_reserve(who, value)
    }

    fn slash_reserved(&mut self, who: AccountId, value: Balance) -> (leftover: Balance) {
        self.pallet.slash_reserved(who, value)
    }

    fn reserved_balance(&self, who: AccountId) -> (reserved: Balance) {
        self.pallet.reserved_balance(who)
    }

    fn reserve(&mut self, who: AccountId, value: Balance) -> (result: Result<(), Error>) {
        self.pallet.reserve(who, value)
    }

    fn unreserve(&mut self, who: AccountId, value: Balance) -> (leftover: Balance) {
        self.pallet.unreserve(who, value)
    }

    fn repatriate_reserved(
        &mut self,
        slashed: AccountId,
        beneficiary: AccountId,
        value: Balance,
        status: BalanceStatus,
    ) -> (result: Result<Balance, Error>) {
        self.pallet.repatriate_reserved(slashed, beneficiary, value, status)
    }
}

} // verus!
