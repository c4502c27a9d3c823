//! The multi-currency engine: the ledger held in memory, with the operations
//! that query and change it.

use vstd::prelude::*;
use crate::account::AccountData;
use crate::invariants::{
    lemma_balances_bounded, lemma_deposit, lemma_endowed_total_grows, lemma_genesis_contents,
    lemma_genesis_settled, lemma_genesis_wf, lemma_lock_operations, lemma_outbox_taken,
    lemma_repatriate_reserved, lemma_reserve, lemma_slash, lemma_slash_reserved, lemma_transfer,
    lemma_unreserve, lemma_withdraw,
};
use crate::ledger::{
    endowed_once, endowed_settled, endowed_total, endowment_fits, Call, Endowment, Event,
    HostCall, Ledger,
};
use crate::locks::{drop_lock, frozen_by, put_lock, raise_lock, BalanceLock};
use crate::store::Store;
use crate::primitives::{
    ensure_signed, AccountId, Amount, Balance, BalanceStatus, CurrencyId, Error, LockIdentifier,
    Origin,
};

verus! {

/// The engine. It holds, for every currency, the total issuance, the balance
/// records of the accounts and their locks, and the calls that it owes its
/// host.
#[derive(Clone, Debug)]
pub struct Tokens {
    existential_deposit: Balance,
    store: Store,
    outbox: Vec<HostCall>,
}

impl View for Tokens {
    type V = Ledger;

    closed spec fn view(&self) -> Ledger {
        Ledger {
            existential_deposit: self.existential_deposit,
            total_issuance: self.store.issuances(),
            accounts: self.store.records(),
            locks: self.store.lock_lists(),
            outbox: self.outbox@,
        }
    }
}

/// Whether no account is given two initial balances in one currency.
pub fn is_endowed_once(endowed: &Vec<Endowment>) -> (once: bool)
    ensures
        once == endowed_once(endowed@),
{
    let mut j: usize = 0;
    while j < endowed.len()
        invariant
            j <= endowed.len(),
            forall|i: int, k: int|
                0 <= i < k < j ==> (endowed@[i].1, endowed@[i].0) != (endowed@[k].1, endowed@[k].0),
        decreases endowed.len() - j,
    {
        let (who, currency_id, _) = endowed[j];
        let mut i: usize = 0;
        while i < j
            invariant
                i <= j < endowed.len(),
                who == endowed@[j as int].0,
                currency_id == endowed@[j as int].1,
                forall|e: int|
                    0 <= e < i ==> (endowed@[e].1, endowed@[e].0) != (currency_id, who),
            decreases j - i,
        {
            let (earlier, earlier_currency_id, _) = endowed[i];
            if earlier == who && earlier_currency_id == currency_id {
                return false;
            }
            i += 1;
        }
        j += 1;
    }
    true
}

impl Tokens {
    /// Whether the engine holds a valid ledger.
    pub open spec fn wf(&self) -> bool {
        self@.wf()
    }

    /// An engine without accounts.
    pub fn new(existential_deposit: Balance) -> (tokens: Tokens)
        ensures
            tokens@ == Ledger::empty(existential_deposit),
            tokens.wf(),
    {
        Tokens { existential_deposit, store: Store::new(), outbox: Vec::new() }
    }

    /// The engine that starts with the initial balances.
    ///
    /// Each entry becomes the free balance of its account, in place of an
    /// earlier entry for the same account and currency, and is added to the
    /// total issuance of its currency. The answer is `TotalIssuanceOverflow`
    /// where the initial balances of some currency together are no `Balance`.
    /// The engine is valid where no account is given two balances in one
    /// currency. Its free balances obey the existential rule where the initial
    /// balances do.
    pub fn genesis(
        existential_deposit: Balance,
        endowed: &Vec<Endowment>,
    ) -> (result: Result<Tokens, Error>)
        ensures
            match result {
                Ok(tokens) => {
                    &&& endowment_fits(endowed@)
                    &&& tokens@ == Ledger::genesis(existential_deposit, endowed@)
                    &&& endowed_once(endowed@) ==> tokens.wf()
                    &&& endowed_settled(existential_deposit, endowed@) ==> tokens@.settled()
                },
                Err(error) => !endowment_fits(endowed@) && error == Error::TotalIssuanceOverflow,
            },
    {
        let mut tokens = Tokens::new(existential_deposit);
        let mut i: usize = 0;
        proof {
            assert(endowed@.take(0) =~= Seq::<Endowment>::empty());
        }
        while i < endowed.len()
            invariant
                i <= endowed.len(),
                tokens@ == Ledger::genesis(existential_deposit, endowed@.take(i as int)),
                endowment_fits(endowed@.take(i as int)),
            decreases endowed.len() - i,
        {
            let (who, currency_id, balance) = endowed[i];
            let ghost earlier = endowed@.take(i as int);
            let ghost taken = endowed@.take(i + 1);
            proof {
                lemma_genesis_contents(existential_deposit, earlier);
                assert(taken.drop_last() =~= earlier);
                assert(taken.last() == endowed@[i as int]);
                assert(tokens@.issuance(currency_id) == endowed_total(earlier, currency_id));
            }
            let issuance = match tokens.total_issuance(currency_id).checked_add(balance) {
                None => {
                    proof {
                        lemma_endowed_total_grows(endowed@, i + 1, currency_id);
                        assert(endowed_total(taken, currency_id) > Balance::MAX);
                    }
                    return Err(Error::TotalIssuanceOverflow);
                },
                Some(issuance) => issuance,
            };
            tokens.store.set_total_issuance(currency_id, issuance);
            let change = |data: AccountData| -> (changed: AccountData)
                ensures
                    changed == (AccountData { free: balance, ..data }),
            {
                AccountData { free: balance, ..data }
            };
            tokens.store.mutate_account(currency_id, who, change);
            proof {
                assert forall|c: CurrencyId| endowed_total(taken, c) <= Balance::MAX by {
                    assert(endowed_total(earlier, c) <= Balance::MAX);
                }
            }
            i += 1;
        }
        proof {
            assert(endowed@.take(i as int) =~= endowed@);
            if endowed_once(endowed@) {
                lemma_genesis_wf(existential_deposit, endowed@);
            }
            if endowed_settled(existential_deposit, endowed@) {
                lemma_genesis_settled(existential_deposit, endowed@);
            }
        }
        Ok(tokens)
    }

    /// The smallest free balance that an account keeps.
    pub fn existential_deposit(&self) -> (existential_deposit: Balance)
        ensures
            existential_deposit == self@.existential_deposit,
    {
        self.existential_deposit
    }

    /// The balance record of the account.
    pub fn accounts(&self, currency_id: CurrencyId, who: AccountId) -> (data: AccountData)
        ensures
            data == self@.account(currency_id, who),
    {
        self.store.get_account(currency_id, who)
    }

    /// The locks of the account.
    pub fn locks(&self, currency_id: CurrencyId, who: AccountId) -> (locks: Vec<BalanceLock>)
        ensures
            locks@ == self@.locks_of(currency_id, who),
    {
        self.store.get_locks(currency_id, who)
    }

    /// The calls owed to the host, oldest first.
    pub fn outbox(&self) -> (calls: &Vec<HostCall>)
        ensures
            calls@ == self@.outbox,
    {
        &self.outbox
    }

    /// Hands the calls owed to the host over to it, oldest first, and leaves
    /// none behind.
    pub fn take_outbox(&mut self) -> (calls: Vec<HostCall>)
        ensures
            calls@ == old(self)@.outbox,
            final(self)@ == (Ledger { outbox: Seq::empty(), ..old(self)@ }),
            old(self).wf() ==> final(self).wf(),
            old(self)@.settled() ==> final(self)@.settled(),
    {
        let mut calls: Vec<HostCall> = Vec::new();
        std::mem::swap(&mut calls, &mut self.outbox);
        proof {
            lemma_outbox_taken(old(self)@);
        }
        calls
    }

    fn emit(&mut self, call: HostCall)
        ensures
            final(self)@ == old(self)@.emit(call),
    {
        self.outbox.push(call);
    }

    /// Sets the free balance of `who` to a new value under the existential
    /// rule: a balance under the existential deposit is dust, and is removed
    /// from the account and from the total issuance. For a balance that is
    /// kept the caller maintains the total issuance.
    fn set_free_balance(&mut self, currency_id: CurrencyId, who: AccountId, balance: Balance)
        requires
            balance < old(self)@.existential_deposit ==> balance <= old(self)@.issuance(
                currency_id,
            ),
        ensures
            final(self)@ == old(self)@.set_free_balance(currency_id, who, balance),
    {
        if balance < self.existential_deposit {
            let change = |data: AccountData| -> (changed: AccountData)
                ensures
                    changed == (AccountData { free: 0, ..data }),
            {
                AccountData { free: 0, ..data }
            };
            self.store.mutate_account(currency_id, who, change);
            self.emit(HostCall::OnDustRemoval(balance));
            let issuance = self.store.get_total_issuance(currency_id);
            self.store.set_total_issuance(currency_id, issuance - balance);
        } else {
            let change = |data: AccountData| -> (changed: AccountData)
                ensures
                    changed == (AccountData { free: balance, ..data }),
            {
                AccountData { free: balance, ..data }
            };
            self.store.mutate_account(currency_id, who, change);
        }
    }

    /// Sets the reserved balance of `who` to a new value. The caller
    /// maintains the total issuance.
    fn set_reserved_balance(&mut self, currency_id: CurrencyId, who: AccountId, balance: Balance)
        ensures
            final(self)@ == old(self)@.set_reserved_balance(currency_id, who, balance),
    {
        let change = |data: AccountData| -> (changed: AccountData)
            ensures
                changed == (AccountData { reserved: balance, ..data }),
        {
            AccountData { reserved: balance, ..data }
        };
        self.store.mutate_account(currency_id, who, change);
    }

    /// Replaces the locks of `who` by `locks` and updates the frozen amount
    /// of the account. The host is told when the account gets its first lock
    /// and when it loses its last one.
    fn update_locks(&mut self, currency_id: CurrencyId, who: AccountId, locks: Vec<BalanceLock>)
        ensures
            final(self)@ == old(self)@.update_locks(currency_id, who, locks@),
    {
        let frozen = frozen_by(&locks);
        let change = |data: AccountData| -> (changed: AccountData)
            ensures
                changed == (AccountData { frozen, ..data }),
        {
            AccountData { frozen, ..data }
        };
        self.store.mutate_account(currency_id, who, change);
        let existed = self.store.locks_exist(currency_id, who);
        if locks.is_empty() {
            self.store.remove_locks(currency_id, who);
            if existed {
                self.emit(HostCall::DecRef(who));
            }
        } else {
            self.store.set_locks(currency_id, who, locks);
            if !existed {
                self.emit(HostCall::IncRef(who));
            }
        }
    }

    /// The total issuance of the currency.
    pub fn total_issuance(&self, currency_id: CurrencyId) -> (issuance: Balance)
        ensures
            issuance == self@.issuance(currency_id),
    {
        self.store.get_total_issuance(currency_id)
    }

    /// The free and the reserved balance of the account together, as far as
    /// a `Balance` can express the sum.
    pub fn total_balance(&self, currency_id: CurrencyId, who: AccountId) -> (total: Balance)
        ensures
            total == self@.total_balance(currency_id, who),
    {
        self.accounts(currency_id, who).total()
    }

    /// The free balance of the account.
    pub fn free_balance(&self, currency_id: CurrencyId, who: AccountId) -> (free: Balance)
        ensures
            free == self@.account(currency_id, who).free,
    {
        self.accounts(currency_id, who).free
    }

    /// The reserved balance of the account.
    pub fn reserved_balance(&self, currency_id: CurrencyId, who: AccountId) -> (reserved: Balance)
        ensures
            reserved == self@.account(currency_id, who).reserved,
    {
        self.accounts(currency_id, who).reserved
    }

    /// Checks that `amount` may leave the free balance of `who`. An amount of
    /// zero always may. Otherwise the answer is `BalanceTooLow` where the free
    /// balance is smaller than the amount, and `LiquidityRestrictions` where
    /// what would be left is smaller than the frozen amount.
    pub fn ensure_can_withdraw(
        &self,
        currency_id: CurrencyId,
        who: AccountId,
        amount: Balance,
    ) -> (result: Result<(), Error>)
        ensures
            result == self@.ensure_can_withdraw(currency_id, who, amount),
    {
        if amount == 0 {
            return Ok(());
        }
        let data = self.accounts(currency_id, who);
        match data.free.checked_sub(amount) {
            None => Err(Error::BalanceTooLow),
            Some(new_balance) => {
                if new_balance >= data.frozen() {
                    Ok(())
                } else {
                    Err(Error::LiquidityRestrictions)
                }
            },
        }
    }

    /// Moves `amount` from the free balance of `from` to the free balance of
    /// `to`, and reports the transfer to the event sink.
    ///
    /// Nothing happens, and nothing is reported, where the amount is zero or
    /// the two accounts are one. A transfer that is refused changes nothing.
    pub fn transfer(
        &mut self,
        currency_id: CurrencyId,
        from: AccountId,
        to: AccountId,
        amount: Balance,
    ) -> (result: Result<(), Error>)
        requires
            old(self).wf(),
        ensures
            final(self).wf(),
            (final(self)@, result) == old(self)@.transfer(currency_id, from, to, amount),
            old(self)@.settled() ==> final(self)@.settled(),
    {
        proof {
            lemma_transfer(self@, currency_id, from, to, amount);
            lemma_balances_bounded(self@, currency_id, from, to);
        }
        if amount == 0 || from == to {
            return Ok(());
        }
        match self.ensure_can_withdraw(currency_id, from, amount) {
            Err(error) => {
                return Err(error);
            },
            Ok(_) => {},
        }
        let from_balance = self.free_balance(currency_id, from);
        let to_balance = self.free_balance(currency_id, to);
        if to_balance + amount < self.existential_deposit {
            return Err(Error::ExistentialDeposit);
        }
        self.set_free_balance(currency_id, from, from_balance - amount);
        self.set_free_balance(currency_id, to, to_balance + amount);
        self.emit(HostCall::DepositEvent(Event::Transferred(currency_id, from, to, amount)));
        Ok(())
    }

    /// Moves the whole free balance of `from` to `to`, as `transfer` does.
    pub fn transfer_all(
        &mut self,
        currency_id: CurrencyId,
        from: AccountId,
        to: AccountId,
    ) -> (result: Result<(), Error>)
        requires
            old(self).wf(),
        ensures
            final(self).wf(),
            (final(self)@, result) == old(self)@.transfer_all(currency_id, from, to),
            old(self)@.settled() ==> final(self)@.settled(),
    {
        let balance = self.free_balance(currency_id, from);
        self.transfer(currency_id, from, to, balance)
    }

    /// Creates `amount` on the free balance of `who` and adds it to the
    /// total issuance.
    ///
    /// Nothing happens where the amount is zero. The deposit is refused with
    /// `TotalIssuanceOverflow` where the total issuance would leave the range
    /// of `Balance`. An amount under the existential deposit paid to an
    /// account without free balance is accepted and changes nothing.
    pub fn deposit(
        &mut self,
        currency_id: CurrencyId,
        who: AccountId,
        amount: Balance,
    ) -> (result: Result<(), Error>)
        requires
            old(self).wf(),
        ensures
            final(self).wf(),
            (final(self)@, result) == old(self)@.deposit(currency_id, who, amount),
            old(self)@.settled() ==> final(self)@.settled(),
    {
        proof {
            lemma_deposit(self@, currency_id, who, amount);
            lemma_balances_bounded(self@, currency_id, who, who);
        }
        if amount == 0 {
            return Ok(());
        }
        let issuance = match self.total_issuance(currency_id).checked_add(amount) {
            None => {
                return Err(Error::TotalIssuanceOverflow);
            },
            Some(issuance) => issuance,
        };
        let balance = self.free_balance(currency_id, who);
        if balance == 0 && amount < self.existential_deposit {
            return Ok(());
        }
        self.store.set_total_issuance(currency_id, issuance);
        self.set_free_balance(currency_id, who, balance + amount);
        Ok(())
    }

    /// Destroys `amount` of the free balance of `who` and takes it from the
    /// total issuance.
    ///
    /// Nothing happens where the amount is zero. The withdrawal is refused as
    /// `ensure_can_withdraw` says. Where less than the existential deposit is
    /// left of the free balance, that rest is removed as dust.
    pub fn withdraw(
        &mut self,
        currency_id: CurrencyId,
        who: AccountId,
        amount: Balance,
    ) -> (result: Result<(), Error>)
        requires
            old(self).wf(),
        ensures
            final(self).wf(),
            (final(self)@, result) == old(self)@.withdraw(currency_id, who, amount),
            old(self)@.settled() ==> final(self)@.settled(),
    {
        proof {
            lemma_withdraw(self@, currency_id, who, amount);
            lemma_balances_bounded(self@, currency_id, who, who);
        }
        if amount == 0 {
            return Ok(());
        }
        match self.ensure_can_withdraw(currency_id, who, amount) {
            Err(error) => {
                return Err(error);
            },
            Ok(_) => {},
        }
        let issuance = self.total_issuance(currency_id);
        self.store.set_total_issuance(currency_id, issuance - amount);
        let balance = self.free_balance(currency_id, who);
        self.set_free_balance(currency_id, who, balance - amount);
        Ok(())
    }

    /// Whether `value` can be slashed from the free balance of `who` alone.
    pub fn can_slash(&self, currency_id: CurrencyId, who: AccountId, value: Balance) -> (can: bool)
        ensures
            can == self@.can_slash(currency_id, who, value),
    {
        if value == 0 {
            return true;
        }
        self.free_balance(currency_id, who) >= value
    }

    /// Takes up to `amount` from `who` and destroys it: from the free balance
    /// first, and from the reserved balance for what the free balance does
    /// not cover. Returns the part of `amount` that could not be taken.
    pub fn slash(
        &mut self,
        currency_id: CurrencyId,
        who: AccountId,
        amount: Balance,
    ) -> (leftover: Balance)
        requires
            old(self).wf(),
        ensures
            final(self).wf(),
            (final(self)@, leftover) == old(self)@.slash(currency_id, who, amount),
            old(self)@.settled() ==> final(self)@.settled(),
    {
        proof {
            lemma_slash(self@, currency_id, who, amount);
            lemma_balances_bounded(self@, currency_id, who, who);
        }
        if amount == 0 {
            return amount;
        }
        let account = self.accounts(currency_id, who);
        let free_slashed_amount = if account.free <= amount {
            account.free
        } else {
            amount
        };
        let mut remaining_slash = amount - free_slashed_amount;
        if free_slashed_amount != 0 {
            self.set_free_balance(currency_id, who, account.free - free_slashed_amount);
        }
        if remaining_slash != 0 {
            let reserved_slashed_amount = if account.reserved <= remaining_slash {
                account.reserved
            } else {
                remaining_slash
            };
            remaining_slash -= reserved_slashed_amount;
            self.set_reserved_balance(
                currency_id,
                who,
                account.reserved - reserved_slashed_amount,
            );
        }
        let issuance = self.total_issuance(currency_id);
        self.store.set_total_issuance(currency_id, issuance - (amount - remaining_slash));
        remaining_slash
    }

    /// Changes the free balance of `who` by a signed amount: a positive
    /// amount is deposited, the magnitude of a negative one is withdrawn, and
    /// zero does nothing. The smallest `Amount`, whose magnitude is not an
    /// `Amount` itself, is refused with `AmountIntoBalanceFailed`.
    pub fn update_balance(
        &mut self,
        currency_id: CurrencyId,
        who: AccountId,
        by_amount: Amount,
    ) -> (result: Result<(), Error>)
        requires
            old(self).wf(),
        ensures
            final(self).wf(),
            (final(self)@, result) == old(self)@.update_balance(currency_id, who, by_amount),
            old(self)@.settled() ==> final(self)@.settled(),
    {
        if by_amount == 0 {
            return Ok(());
        }
        if by_amount == Amount::MIN {
            return Err(Error::AmountIntoBalanceFailed);
        }
        if by_amount > 0 {
            self.deposit(currency_id, who, by_amount as Balance)
        } else {
            self.withdraw(currency_id, who, (-by_amount) as Balance)
        }
    }

    /// Sets a lock named `lock_id` of `amount` on the balance of `who`, in
    /// place of any lock of that name. Is a no-op if the amount is zero.
    pub fn set_lock(
        &mut self,
        lock_id: LockIdentifier,
        currency_id: CurrencyId,
        who: AccountId,
        amount: Balance,
    )
        requires
            old(self).wf(),
        ensures
            final(self).wf(),
            final(self)@ == old(self)@.set_lock(lock_id, currency_id, who, amount),
            old(self)@.settled() ==> final(self)@.settled(),
    {
        proof {
            lemma_lock_operations(self@, lock_id, currency_id, who, amount);
        }
        if amount == 0 {
            return ;
        }
        let mut locks = self.locks(currency_id, who);
        put_lock(&mut locks, lock_id, amount);
        self.update_locks(currency_id, who, locks);
    }

    /// Extends the lock named `lock_id` on the balance of `who` to at least
    /// `amount`, or sets it where there is none. Is a no-op if the amount is
    /// zero.
    pub fn extend_lock(
        &mut self,
        lock_id: LockIdentifier,
        currency_id: CurrencyId,
        who: AccountId,
        amount: Balance,
    )
        requires
            old(self).wf(),
        ensures
            final(self).wf(),
            final(self)@ == old(self)@.extend_lock(lock_id, currency_id, who, amount),
            old(self)@.settled() ==> final(self)@.settled(),
    {
        proof {
            lemma_lock_operations(self@, lock_id, currency_id, who, amount);
        }
        if amount == 0 {
            return ;
        }
        let mut locks = self.locks(currency_id, who);
        raise_lock(&mut locks, lock_id, amount);
        self.update_locks(currency_id, who, locks);
    }

    /// Removes the lock named `lock_id` from the balance of `who`.
    pub fn remove_lock(&mut self, lock_id: LockIdentifier, currency_id: CurrencyId, who: AccountId)
        requires
            old(self).wf(),
        ensures
            final(self).wf(),
            final(self)@ == old(self)@.remove_lock(lock_id, currency_id, who),
            old(self)@.settled() ==> final(self)@.settled(),
    {
        proof {
            lemma_lock_operations(self@, lock_id, currency_id, who, 0);
        }
        let mut locks = self.locks(currency_id, who);
        drop_lock(&mut locks, lock_id);
        self.update_locks(currency_id, who, locks);
    }

    /// Whether `who` can reserve `value` from their free balance. Always
    /// `true` if the value is zero.
    pub fn can_reserve(
        &self,
        currency_id: CurrencyId,
        who: AccountId,
        value: Balance,
    ) -> (can: bool)
        ensures
            can == self@.can_reserve(currency_id, who, value),
    {
        if value == 0 {
            return true;
        }
        self.ensure_can_withdraw(currency_id, who, value).is_ok()
    }

    /// Destroys up to `value` of the reserved balance of `who`, and returns
    /// the part of `value` that the reserved balance did not cover. Is a no-op
    /// if the value is zero.
    pub fn slash_reserved(
        &mut self,
        currency_id: CurrencyId,
        who: AccountId,
        value: Balance,
    ) -> (leftover: Balance)
        requires
            old(self).wf(),
        ensures
            final(self).wf(),
            (final(self)@, leftover) == old(self)@.slash_reserved(currency_id, who, value),
            old(self)@.settled() ==> final(self)@.settled(),
    {
        proof {
            lemma_slash_reserved(self@, currency_id, who, value);
            lemma_balances_bounded(self@, currency_id, who, who);
        }
        if value == 0 {
            return 0;
        }
        let reserved_balance = self.reserved_balance(currency_id, who);
        let actual = if reserved_balance <= value {
            reserved_balance
        } else {
            value
        };
        let issuance = self.total_issuance(currency_id);
        self.set_reserved_balance(currency_id, who, reserved_balance - actual);
        self.store.set_total_issuance(currency_id, issuance - actual);
        value - actual
    }

    /// Moves `value` from the free balance of `who` to their reserved
    /// balance. Is a no-op if the value is zero, and is refused as
    /// `ensure_can_withdraw` says. Where less than the existential deposit is
    /// left of the free balance, that rest is removed as dust.
    pub fn reserve(
        &mut self,
        currency_id: CurrencyId,
        who: AccountId,
        value: Balance,
    ) -> (result: Result<(), Error>)
        requires
            old(self).wf(),
        ensures
            final(self).wf(),
            (final(self)@, result) == old(self)@.reserve(currency_id, who, value),
            old(self)@.settled() ==> final(self)@.settled(),
    {
        proof {
            lemma_reserve(self@, currency_id, who, value);
            lemma_balances_bounded(self@, currency_id, who, who);
        }
        if value == 0 {
            return Ok(());
        }
        match self.ensure_can_withdraw(currency_id, who, value) {
            Err(error) => {
                return Err(error);
            },
            Ok(_) => {},
        }
        let account = self.accounts(currency_id, who);
        self.set_free_balance(currency_id, who, account.free - value);
        self.set_reserved_balance(currency_id, who, account.reserved + value);
        Ok(())
    }

    /// Moves up to `value` from the reserved balance of `who` back to their
    /// free balance, and returns the part of `value` that the reserved balance
    /// did not cover. Is a no-op if the value is zero.
    pub fn unreserve(
        &mut self,
        currency_id: CurrencyId,
        who: AccountId,
        value: Balance,
    ) -> (leftover: Balance)
        requires
            old(self).wf(),
        ensures
            final(self).wf(),
            (final(self)@, leftover) == old(self)@.unreserve(currency_id, who, value),
            old(self)@.settled() ==> final(self)@.settled(),
    {
        proof {
            lemma_unreserve(self@, currency_id, who, value);
            lemma_balances_bounded(self@, currency_id, who, who);
        }
        if value == 0 {
            return 0;
        }
        let account = self.accounts(currency_id, who);
        let actual = if account.reserved <= value {
            account.reserved
        } else {
            value
        };
        self.set_reserved_balance(currency_id, who, account.reserved - actual);
        self.set_free_balance(currency_id, who, account.free + actual);
        value - actual
    }

    /// Moves up to `value` from the reserved balance of `slashed` to the
    /// balance of `beneficiary` that `status` names, and returns the part of
    /// `value` that the reserved balance did not cover.
    ///
    /// Is a no-op if the value is zero, or if `slashed` is `beneficiary` and
    /// `status` is `Reserved`. The engine never refuses it.
    pub fn repatriate_reserved(
        &mut self,
        currency_id: CurrencyId,
        slashed: AccountId,
        beneficiary: AccountId,
        value: Balance,
        status: BalanceStatus,
    ) -> (result: Result<Balance, Error>)
        requires
            old(self).wf(),
        ensures
            final(self).wf(),
            (final(self)@, result) == old(self)@.repatriate_reserved(
                currency_id,
                slashed,
                beneficiary,
                value,
                status,
            ),
            old(self)@.settled() ==> final(self)@.settled(),
    {
        proof {
            lemma_repatriate_reserved(self@, currency_id, slashed, beneficiary, value, status);
            lemma_balances_bounded(self@, currency_id, slashed, beneficiary);
        }
        if value == 0 {
            return Ok(0);
        }
        if slashed == beneficiary {
            return match status {
                BalanceStatus::Free => Ok(self.unreserve(currency_id, slashed, value)),
                BalanceStatus::Reserved => Ok(
                    value.saturating_sub(self.reserved_balance(currency_id, slashed)),
                ),
            };
        }
        let from_account = self.accounts(currency_id, slashed);
        let to_account = self.accounts(currency_id, beneficiary);
        let actual = if from_account.reserved <= value {
            from_account.reserved
        } else {
            value
        };
        match status {
            BalanceStatus::Free => {
                self.set_free_balance(currency_id, beneficiary, to_account.free + actual);
            },
            BalanceStatus::Reserved => {
                self.set_reserved_balance(currency_id, beneficiary, to_account.reserved + actual);
            },
        }
        self.set_reserved_balance(currency_id, slashed, from_account.reserved - actual);
        Ok(value - actual)
    }

    /// Makes a call in the name of `origin`. A call needs a signed origin;
    /// any other is refused with `NoPermission`.
    pub fn dispatch(&mut self, origin: Origin, call: Call) -> (result: Result<(), Error>)
        requires
            old(self).wf(),
        ensures
            final(self).wf(),
            (final(self)@, result) == old(self)@.dispatch(origin, call),
            old(self)@.settled() ==> final(self)@.settled(),
    {
        let from = match ensure_signed(origin) {
            Err(error) => {
                return Err(error);
            },
            Ok(from) => from,
        };
        match call {
            Call::Transfer { dest, currency_id, amount } => self.transfer(
                currency_id,
                from,
                dest,
                amount,
            ),
            Call::TransferAll { dest, currency_id } => self.transfer_all(currency_id, from, dest),
        }
    }
}

} // verus!
