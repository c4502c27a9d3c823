//! A single currency of the dispatch layer, bound to its identifier: the
//! surface of a single-currency provider for clients that know their
//! currency.

use vstd::prelude::*;
use crate::basic::{
    BasicCurrency, BasicCurrencyExtended, BasicLockableCurrency, BasicReservableCurrency,
};
use crate::currencies::Currencies;
use crate::primitives::{
    AccountId, Amount, Balance, BalanceStatus, CurrencyId, Error, LockIdentifier,
};

verus! {

/// The dispatch layer seen through one currency.
pub struct Currency<N> {
    currency_id: CurrencyId,
    currencies: Currencies<N>,
}

impl<N: BasicCurrencyExtended + BasicLockableCurrency + BasicReservableCurrency> Currency<N> {
    /// The currency that every call is made in.
    pub closed spec fn id(&self) -> CurrencyId {
        self.currency_id
    }

    /// The dispatch layer that every call goes to.
    pub closed spec fn inner(&self) -> Currencies<N> {
        self.currencies
    }

    /// The dispatch layer bound to `currency_id`.
    pub fn new(currency_id: CurrencyId, currencies: Currencies<N>) -> (currency: Self)
        ensures
            currency.id() == currency_id,
            currency.inner() == currencies,
    {
        Currency { currency_id, currencies }
    }

    /// The dispatch layer bound to its native currency.
    pub fn native(currencies: Currencies<N>) -> (currency: Self)
        ensures
            currency.id() == currencies.native_id(),
            currency.inner() == currencies,
    {
        Currency { currency_id: currencies.native_currency_id(), currencies }
    }

    /// The currency that every call is made in.
    pub fn currency_id(&self) -> (currency_id: CurrencyId)
        ensures
            currency_id == self.id(),
    {
        self.currency_id
    }

    /// The dispatch layer that every call goes to.
    pub fn currencies(&self) -> (currencies: &Currencies<N>)
        ensures
            *currencies == self.inner(),
    {
        &self.currencies
    }

    /// Gives the dispatch layer back.
    pub fn into_inner(self) -> (currencies: Currencies<N>)
        ensures
            currencies == self.inner(),
    {
        self.currencies
    }
}

impl<N> BasicCurrency for Currency<N>
where
    N: BasicCurrencyExtended + BasicLockableCurrency + BasicReservableCurrency,
{
    open spec fn valid(&self) -> bool {
        self.inner().wf()
    }

    open spec fn total_issuance_post(&self, issuance: Balance) -> bool {
        self.inner().total_issuance_post(self.id(), issuance)
    }

    open spec fn total_balance_post(&self, who: AccountId, total: Balance) -> bool {
        self.inner().total_balance_post(self.id(), who, total)
    }

    open spec fn free_balance_post(&self, who: AccountId, free: Balance) -> bool {
        self.inner().free_balance_post(self.id(), who, free)
    }

    open spec fn ensure_can_withdraw_post(
        &self,
        who: AccountId,
        amount: Balance,
        result: Result<(), Error>,
    ) -> bool {
        self.inner().ensure_can_withdraw_post(self.id(), who, amount, result)
    }

    open spec fn can_slash_post(&self, who: AccountId, amount: Balance, can: bool) -> bool {
        self.inner().can_slash_post(self.id(), who, amount, can)
    }

    open spec fn transfer_post(
        &self,
        after: &Self,
        from: AccountId,
        to: AccountId,
        amount: Balance,
        result: Result<(), Error>,
    ) -> bool {
        &&& after.id() == self.id()
        &&& self.inner().transfer_post(&after.inner(), self.id(), from, to, amount, result)
    }

    open spec fn deposit_post(
        &self,
        after: &Self,
        who: AccountId,
        amount: Balance,
        result: Result<(), Error>,
    ) -> bool {
        &&& after.id() == self.id()
        &&& self.inner().deposit_post(&after.inner(), self.id(), who, amount, result)
    }

    open spec fn withdraw_post(
        &self,
        after: &Self,
        who: AccountId,
        amount: Balance,
        result: Result<(), Error>,
    ) -> bool {
        &&& after.id() == self.id()
        &&& self.inner().withdraw_post(&after.inner(), self.id(), who, amount, result)
    }

    open spec fn slash_post(
        &self,
        after: &Self,
        who: AccountId,
        amount: Balance,
        leftover: Balance,
    ) -> bool {
        &&& after.id() == self.id()
        &&& self.inner().slash_post(&after.inner(), self.id(), who, amount, leftover)
    }

    fn total_issuance(&self) -> (issuance: Balance) {
        self.currencies.total_issuance(self.currency_id)
    }

    fn total_balance(&self, who: AccountId) -> (total: Balance) {
        self.currencies.total_balance(self.currency_id, who)
    }

    fn free_balance(&self, who: AccountId) -> (free: Balance) {
        self.currencies.free_balance(self.currency_id, who)
    }

    fn ensure_can_withdraw(&self, who: AccountId, amount: Balance) -> (result: Result<(), Error>) {
        self.currencies.ensure_can_withdraw(self.currency_id, who, amount)
    }

    fn can_slash(&self, who: AccountId, amount: Balance) -> (can: bool) {
        self.currencies.can_slash(self.currency_id, who, amount)
    }

    fn transfer(
        &mut self,
        from: AccountId,
        to: AccountId,
        amount: Balance,
    ) -> (result: Result<(), Error>) {
        self.currencies.transfer(self.currency_id, from, to, amount)
    }

    fn deposit(&mut self, who: AccountId, amount: Balance) -> (result: Result<(), Error>) {
        self.currencies.deposit(self.currency_id, who, amount)
    }

    fn withdraw(&mut self, who: AccountId, amount: Balance) -> (result: Result<(), Error>) {
        self.currencies.withdraw(self.currency_id, who, amount)
    }

    fn slash(&mut self, who: AccountId, amount: Balance) -> (leftover: Balance) {
        self.currencies.slash(self.currency_id, who, amount)
    }
}

impl<N> BasicCurrencyExtended for Currency<N>
where
    N: BasicCurrencyExtended + BasicLockableCurrency + BasicReservableCurrency,
{
    open spec fn update_balance_post(
        &self,
        after: &Self,
        who: AccountId,
        by_amount: Amount,
        result: Result<(), Error>,
    ) -> bool {
        &&& after.id() == self.id()
        &&& self.inner().update_balance_post(&after.inner(), self.id(), who, by_amount, result)
    }

    fn update_balance(&mut self, who: AccountId, by_amount: Amount) -> (result: Result<(), Error>) {
        self.currencies.update_balance(self.currency_id, who, by_amount)
    }
}

impl<N> BasicLockableCurrency for Currency<N>
where
    N: BasicCurrencyExtended + BasicLockableCurrency + BasicReservableCurrency,
{
    open spec fn set_lock_post(
        &self,
        after: &Self,
        lock_id: LockIdentifier,
        who: AccountId,
        amount: Balance,
    ) -> bool {
        &&& after.id() == self.id()
        &&& self.inner().set_lock_post(&after.inner(), lock_id, self.id(), who, amount)
    }

    open spec fn extend_lock_post(
        &self,
        after: &Self,
        lock_id: LockIdentifier,
        who: AccountId,
        amount: Balance,
    ) -> bool {
        &&& after.id() == self.id()
        &&& self.inner().extend_lock_post(&after.inner(), lock_id, self.id(), who, amount)
    }

    open spec fn remove_lock_post(
        &self,
        after: &Self,
        lock_id: LockIdentifier,
        who: AccountId,
    ) -> bool {
        &&& after.id() == self.id()
        &&& self.inner().remove_lock_post(&after.inner(), lock_id, self.id(), who)
    }

    fn set_lock(&mut self, lock_id: LockIdentifier, who: AccountId, amount: Balance) {
        self.currencies.set_lock(lock_id, self.currency_id, who, amount);
    }

    fn extend_lock(&mut self, lock_id: LockIdentifier, who: AccountId, amount: Balance) {
        self.currencies.extend_lock(lock_id, self.currency_id, who, amount);
    }

    fn remove_lock(&mut self, lock_id: LockIdentifier, who: AccountId) {
        self.currencies.remove_lock(lock_id, self.currency_id, who);
    }
}

impl<N> BasicReservableCurrency for Currency<N>
where
    N: BasicCurrencyExtended + BasicLockableCurrency + BasicReservableCurrency,
{
    open spec fn can_reserve_post(&self, who: AccountId, value: Balance, can: bool) -> bool {
        self.inner().can_reserve_post(self.id(), who, value, can)
    }

    open spec fn reserved_balance_post(&self, who: AccountId, reserved: Balance) -> bool {
        self.inner().reserved_balance_post(self.id(), who, reserved)
    }

    open spec fn slash_reserved_post(
        &self,
        after: &Self,
        who: AccountId,
        value: Balance,
        leftover: Balance,
    ) -> bool {
        &&& after.id() == self.id()
        &&& self.inner().slash_reserved_post(&after.inner(), self.id(), who, value, leftover)
    }

    open spec fn reserve_post(
        &self,
        after: &Self,
        who: AccountId,
        value: Balance,
        result: Result<(), Error>,
    ) -> bool {
        &&& after.id() == self.id()
        &&& self.inner().reserve_post(&after.inner(), self.id(), who, value, result)
    }

    open spec fn unreserve_post(
        &self,
        after: &Self,
        who: AccountId,
        value: Balance,
        leftover: Balance,
    ) -> bool {
        &&& after.id() == self.id()
        &&& self.inner().unreserve_post(&after.inner(), self.id(), who, value, leftover)
    }

    open spec fn repatriate_reserved_post(
        &self,
        after: &Self,
        slashed: AccountId,
        beneficiary: AccountId,
        value: Balance,
        status: BalanceStatus,
        result: Result<Balance, Error>,
    ) -> bool {
        &&& after.id() == self.id()
        &&& self.inner().repatriate_reserved_post(
            &after.inner(),
            self.id(),
            slashed,
            beneficiary,
            value,
            status,
            result,
        )
    }

    fn can_reserve(&self, who: AccountId, value: Balance) -> (can: bool) {
        self.currencies.can_reserve(self.currency_id, who, value)
    }

    fn reserved_balance(&self, who: AccountId) -> (reserved: Balance) {
        self.currencies.reserved_balance(self.currency_id, who)
    }

    fn slash_reserved(&mut self, who: AccountId, value: Balance) -> (leftover: Balance) {
        self.currencies.slash_reserved(self.currency_id, who, value)
    }

    fn reserve(&mut self, who: AccountId, value: Balance) -> (result: Result<(), Error>) {
        self.currencies.reserve(self.currency_id, who, value)
    }

    fn unreserve(&mut self, who: AccountId, value: Balance) -> (leftover: Balance) {
        self.currencies.unreserve(self.currency_id, who, value)
    }

    fn repatriate_reserved(
        &mut self,
        slashed: AccountId,
        beneficiary: AccountId,
        value: Balance,
        status: BalanceStatus,
    ) -> (result: Result<Balance, Error>) {
        self.currencies.repatriate_reserved(self.currency_id, slashed, beneficiary, value, status)
    }
}

} // verus!
