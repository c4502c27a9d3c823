//! The multi-currency ledger as a mathematical value, and each operation of
//! the engine as a function from the ledger before to the ledger after.

use vstd::prelude::*;
use crate::account::AccountData;
use crate::locks::{
    distinct_ids, max_amount, with_extended_lock, with_lock, without_lock, BalanceLock,
};
use crate::primitives::{
    AccountId, Amount, Balance, BalanceStatus, CurrencyId, Error, LockIdentifier, Origin,
};
use crate::sums::sum_over;

verus! {

/// What the engine reports to the event sink.
#[derive(Clone, Copy, Debug, PartialEq, Eq, Structural)]
pub enum Event {
    /// An amount moved from the free balance of the first account to that of
    /// the second: currency, sender, receiver, amount.
    Transferred(CurrencyId, AccountId, AccountId, Balance),
}

/// A call that the engine owes its host. The engine queues these in the order
/// in which they arise; the host takes them out and performs them.
#[derive(Clone, Copy, Debug, PartialEq, Eq, Structural)]
pub enum HostCall {
    /// Hand the event to the event sink.
    DepositEvent(Event),
    /// Hand the amount to the dust sink. It has left the account and the
    /// total issuance. A free balance that is written as zero counts as dust
    /// of nothing, and is handed over as well.
    OnDustRemoval(Balance),
    /// Count one more reference to the account: it received its first lock.
    IncRef(AccountId),
    /// Count one reference to the account less: its last lock was removed.
    DecRef(AccountId),
}

/// A call into the engine that a signed origin can make.
#[derive(Clone, Copy, Debug, PartialEq, Eq, Structural)]
pub enum Call {
    /// Transfer some balance to another account.
    Transfer { dest: AccountId, currency_id: CurrencyId, amount: Balance },
    /// Transfer the whole free balance to another account.
    TransferAll { dest: AccountId, currency_id: CurrencyId },
}

/// The key under which the store holds what belongs to an account in a
/// currency.
pub type AccountKey = (CurrencyId, AccountId);

/// The state of the engine.
pub struct Ledger {
    /// The smallest free balance that an account keeps. A smaller one is dust
    /// and is removed.
    pub existential_deposit: Balance,
    /// The total issuance of each currency that has one recorded.
    pub total_issuance: Map<CurrencyId, Balance>,
    /// The balance record of each account that has one.
    pub accounts: Map<AccountKey, AccountData>,
    /// The locks of each account that has any.
    pub locks: Map<AccountKey, Seq<BalanceLock>>,
    /// The calls owed to the host, oldest first.
    pub outbox: Seq<HostCall>,
}

/// What the account under `key` holds of `currency_id` according to
/// `accounts`: its free and reserved balance if the key is of that currency
/// and has a record, and nothing otherwise.
pub open spec fn holding_of(
    accounts: Map<AccountKey, AccountData>,
    currency_id: CurrencyId,
    key: AccountKey,
) -> nat {
    if key.0 == currency_id && accounts.contains_key(key) {
        accounts[key].holding()
    } else {
        0
    }
}

/// `holding_of` as a weight on keys.
pub open spec fn holdings(
    accounts: Map<AccountKey, AccountData>,
    currency_id: CurrencyId,
) -> spec_fn(AccountKey) -> nat {
    |key: AccountKey| holding_of(accounts, currency_id, key)
}

/// The sum over all accounts of what they hold of `currency_id`.
pub open spec fn held(accounts: Map<AccountKey, AccountData>, currency_id: CurrencyId) -> nat {
    sum_over(accounts.dom(), holdings(accounts, currency_id))
}

/// The dust that a call hands to the dust sink; nothing for any other call.
pub open spec fn dust_of(call: HostCall) -> nat {
    match call {
        HostCall::OnDustRemoval(amount) => amount as nat,
        _ => 0,
    }
}

/// The dust that the calls hand to the dust sink together.
pub open spec fn dust_total(calls: Seq<HostCall>) -> nat
    decreases calls.len(),
{
    if calls.len() == 0 {
        0
    } else {
        dust_total(calls.drop_last()) + dust_of(calls.last())
    }
}

/// The smaller of two balances.
pub open spec fn smaller(a: Balance, b: Balance) -> Balance {
    if a <= b {
        a
    } else {
        b
    }
}

/// An initial balance: the account, the currency, and the free balance that
/// the account starts with.
pub type Endowment = (AccountId, CurrencyId, Balance);

/// The sum of the initial balances in the currency.
pub open spec fn endowed_total(endowed: Seq<Endowment>, currency_id: CurrencyId) -> nat
    decreases endowed.len(),
{
    if endowed.len() == 0 {
        0
    } else if endowed.last().1 == currency_id {
        endowed_total(endowed.drop_last(), currency_id) + endowed.last().2 as nat
    } else {
        endowed_total(endowed.drop_last(), currency_id)
    }
}

/// The initial balances of every currency together are a `Balance`.
pub open spec fn endowment_fits(endowed: Seq<Endowment>) -> bool {
    forall|currency_id: CurrencyId| endowed_total(endowed, currency_id) <= Balance::MAX
}

/// Whether the account is given an initial balance in the currency.
pub open spec fn endowed_in(
    endowed: Seq<Endowment>,
    currency_id: CurrencyId,
    who: AccountId,
) -> bool {
    exists|i: int|
        0 <= i < endowed.len() && (#[trigger] endowed[i]).1 == currency_id && endowed[i].0 == who
}

/// No account is given two initial balances in one currency.
pub open spec fn endowed_once(endowed: Seq<Endowment>) -> bool {
    forall|i: int, j: int|
        0 <= i < j < endowed.len() ==> (endowed[i].1, endowed[i].0) != (endowed[j].1, endowed[j].0)
}

/// Every initial balance is zero or at least the existential deposit.
pub open spec fn endowed_settled(existential_deposit: Balance, endowed: Seq<Endowment>) -> bool {
    forall|i: int|
        0 <= i < endowed.len() ==> (#[trigger] endowed[i]).2 == 0 || endowed[i].2
            >= existential_deposit
}

impl Ledger {
    /// A ledger without accounts, locks or issuance.
    pub open spec fn empty(existential_deposit: Balance) -> Ledger {
        Ledger {
            existential_deposit,
            total_issuance: Map::empty(),
            accounts: Map::empty(),
            locks: Map::empty(),
            outbox: Seq::empty(),
        }
    }

    /// The total issuance of the currency; zero where none is recorded.
    pub open spec fn issuance(self, currency_id: CurrencyId) -> Balance {
        if self.total_issuance.contains_key(currency_id) {
            self.total_issuance[currency_id]
        } else {
            0
        }
    }

    /// The balance record of the account; the empty record where it has none.
    pub open spec fn account(self, currency_id: CurrencyId, who: AccountId) -> AccountData {
        if self.accounts.contains_key((currency_id, who)) {
            self.accounts[(currency_id, who)]
        } else {
            AccountData::empty()
        }
    }

    /// The locks of the account, in the order in which they were first set.
    pub open spec fn locks_of(self, currency_id: CurrencyId, who: AccountId) -> Seq<BalanceLock> {
        if self.locks.contains_key((currency_id, who)) {
            self.locks[(currency_id, who)]
        } else {
            Seq::empty()
        }
    }

    /// The sum over all accounts of their free and reserved balance in the
    /// currency.
    pub open spec fn held(self, currency_id: CurrencyId) -> nat {
        held(self.accounts, currency_id)
    }

    /// The dust that the calls owed to the host hand to the dust sink.
    pub open spec fn dust_removed(self) -> nat {
        dust_total(self.outbox)
    }

    /// The ledger is valid: the total issuance of every currency is what the
    /// accounts hold of it, the locks of an account have distinct names, a
    /// recorded sequence of locks is not empty, and the frozen amount of every
    /// account is the largest of its locks.
    pub open spec fn wf(self) -> bool {
        &&& self.accounts.dom().finite()
        &&& forall|currency_id: CurrencyId| #[trigger]
            self.issuance(currency_id) == self.held(currency_id)
        &&& forall|key: AccountKey| #[trigger]
            self.locks.contains_key(key) ==> self.locks[key].len() > 0 && distinct_ids(
                self.locks[key],
            )
        &&& forall|currency_id: CurrencyId, who: AccountId|
            (#[trigger] self.account(currency_id, who)).frozen == max_amount(
                self.locks_of(currency_id, who),
            )
    }

    /// Every free balance is zero or at least the existential deposit.
    pub open spec fn settled(self) -> bool {
        forall|currency_id: CurrencyId, who: AccountId|
            {
                let free = (#[trigger] self.account(currency_id, who)).free;
                free == 0 || free >= self.existential_deposit
            }
    }

    /// The ledger with one more call owed to the host.
    pub open spec fn emit(self, call: HostCall) -> Ledger {
        Ledger { outbox: self.outbox.push(call), ..self }
    }

    /// The ledger with the total issuance of the currency set to `issuance`.
    pub open spec fn set_issuance(self, currency_id: CurrencyId, issuance: Balance) -> Ledger {
        Ledger { total_issuance: self.total_issuance.insert(currency_id, issuance), ..self }
    }

    /// The ledger with the record of the account replaced.
    pub open spec fn set_account(
        self,
        currency_id: CurrencyId,
        who: AccountId,
        data: AccountData,
    ) -> Ledger {
        Ledger { accounts: self.accounts.insert((currency_id, who), data), ..self }
    }

    /// The ledger after the free balance of the account was written under the
    /// existential rule. A balance of at least the existential deposit is
    /// stored. A smaller one is dust: the account is left with no free
    /// balance, the dust goes to the dust sink and leaves the total issuance.
    pub open spec fn set_free_balance(
        self,
        currency_id: CurrencyId,
        who: AccountId,
        balance: Balance,
    ) -> Ledger {
        let data = self.account(currency_id, who);
        if balance < self.existential_deposit {
            self.set_account(currency_id, who, AccountData { free: 0, ..data }).emit(
                HostCall::OnDustRemoval(balance),
            ).set_issuance(currency_id, (self.issuance(currency_id) - balance) as Balance)
        } else {
            self.set_account(currency_id, who, AccountData { free: balance, ..data })
        }
    }

    /// The ledger after the reserved balance of the account was written. The
    /// total issuance is left as it is.
    pub open spec fn set_reserved_balance(
        self,
        currency_id: CurrencyId,
        who: AccountId,
        balance: Balance,
    ) -> Ledger {
        let data = self.account(currency_id, who);
        self.set_account(currency_id, who, AccountData { reserved: balance, ..data })
    }

    /// The ledger after the locks of the account were replaced by `locks`. The
    /// frozen amount becomes the largest of them. An empty sequence is not
    /// recorded. The host is told when the account gets its first lock and
    /// when it loses its last one.
    pub open spec fn update_locks(
        self,
        currency_id: CurrencyId,
        who: AccountId,
        locks: Seq<BalanceLock>,
    ) -> Ledger {
        let key = (currency_id, who);
        let data = self.account(currency_id, who);
        let frozen = self.set_account(
            currency_id,
            who,
            AccountData { frozen: max_amount(locks), ..data },
        );
        let existed = self.locks.contains_key(key);
        if locks.len() == 0 {
            let removed = Ledger { locks: self.locks.remove(key), ..frozen };
            if existed {
                removed.emit(HostCall::DecRef(who))
            } else {
                removed
            }
        } else {
            let stored = Ledger { locks: self.locks.insert(key, locks), ..frozen };
            if existed {
                stored
            } else {
                stored.emit(HostCall::IncRef(who))
            }
        }
    }

    /// The ledger after the account was given an initial balance: the balance
    /// becomes its free balance and is added to the total issuance.
    pub open spec fn endow(
        self,
        who: AccountId,
        currency_id: CurrencyId,
        balance: Balance,
    ) -> Ledger {
        self.set_issuance(currency_id, (self.issuance(currency_id) + balance) as Balance)
            .set_account(
            currency_id,
            who,
            AccountData { free: balance, ..self.account(currency_id, who) },
        )
    }

    /// The ledger that starts with the initial balances, given in their
    /// order.
    pub open spec fn genesis(existential_deposit: Balance, endowed: Seq<Endowment>) -> Ledger
        decreases endowed.len(),
    {
        if endowed.len() == 0 {
            Ledger::empty(existential_deposit)
        } else {
            Ledger::genesis(existential_deposit, endowed.drop_last()).endow(
                endowed.last().0,
                endowed.last().1,
                endowed.last().2,
            )
        }
    }

    /// The total balance of the account as far as a `Balance` can express it.
    pub open spec fn total_balance(self, currency_id: CurrencyId, who: AccountId) -> Balance {
        self.account(currency_id, who).spec_total()
    }

    /// Whether `amount` may leave the free balance of the account. Nothing
    /// always may. Otherwise the free balance must cover the amount, and what
    /// is left must not be less than the frozen amount.
    pub open spec fn ensure_can_withdraw(
        self,
        currency_id: CurrencyId,
        who: AccountId,
        amount: Balance,
    ) -> Result<(), Error> {
        let data = self.account(currency_id, who);
        if amount == 0 {
            Ok(())
        } else if data.free < amount {
            Err(Error::BalanceTooLow)
        } else if data.free - amount < data.frozen {
            Err(Error::LiquidityRestrictions)
        } else {
            Ok(())
        }
    }

    /// Whether `value` can be slashed from the free balance alone.
    pub open spec fn can_slash(
        self,
        currency_id: CurrencyId,
        who: AccountId,
        value: Balance,
    ) -> bool {
        value == 0 || self.account(currency_id, who).free >= value
    }

    /// Whether `value` can be moved from the free balance to the reserved one.
    pub open spec fn can_reserve(
        self,
        currency_id: CurrencyId,
        who: AccountId,
        value: Balance,
    ) -> bool {
        value == 0 || self.ensure_can_withdraw(currency_id, who, value) is Ok
    }

    /// Moves `amount` from the free balance of `from` to that of `to`.
    ///
    /// Nothing happens where the amount is zero or the two accounts are one.
    /// The transfer is refused where the amount may not leave `from`, and
    /// where `to` would be left with a free balance under the existential
    /// deposit. Both free balances are written under the existential rule,
    /// and the event is emitted last.
    pub open spec fn transfer(
        self,
        currency_id: CurrencyId,
        from: AccountId,
        to: AccountId,
        amount: Balance,
    ) -> (Ledger, Result<(), Error>) {
        let from_free = self.account(currency_id, from).free;
        let to_free = self.account(currency_id, to).free;
        if amount == 0 || from == to {
            (self, Ok(()))
        } else if self.ensure_can_withdraw(currency_id, from, amount) is Err {
            (self, self.ensure_can_withdraw(currency_id, from, amount))
        } else if to_free + amount < self.existential_deposit {
            (self, Err(Error::ExistentialDeposit))
        } else {
            (
                self.set_free_balance(currency_id, from, (from_free - amount) as Balance)
                    .set_free_balance(currency_id, to, (to_free + amount) as Balance).emit(
                    HostCall::DepositEvent(Event::Transferred(currency_id, from, to, amount)),
                ),
                Ok(()),
            )
        }
    }

    /// Moves the whole free balance of `from` to `to`.
    pub open spec fn transfer_all(
        self,
        currency_id: CurrencyId,
        from: AccountId,
        to: AccountId,
    ) -> (Ledger, Result<(), Error>) {
        self.transfer(currency_id, from, to, self.account(currency_id, from).free)
    }

    /// Creates `amount` on the free balance of the account.
    ///
    /// Nothing happens where the amount is zero. The deposit is refused where
    /// the total issuance would leave the range of `Balance`. An amount under
    /// the existential deposit paid to an account without free balance is
    /// accepted and ignored.
    pub open spec fn deposit(
        self,
        currency_id: CurrencyId,
        who: AccountId,
        amount: Balance,
    ) -> (Ledger, Result<(), Error>) {
        let free = self.account(currency_id, who).free;
        if amount == 0 {
            (self, Ok(()))
        } else if self.issuance(currency_id) + amount > Balance::MAX {
            (self, Err(Error::TotalIssuanceOverflow))
        } else if free == 0 && amount < self.existential_deposit {
            (self, Ok(()))
        } else {
            (
                self.set_issuance(currency_id, (self.issuance(currency_id) + amount) as Balance)
                    .set_free_balance(currency_id, who, (free + amount) as Balance),
                Ok(()),
            )
        }
    }

    /// Destroys `amount` of the free balance of the account.
    ///
    /// Nothing happens where the amount is zero. The withdrawal is refused
    /// where the amount may not leave the account. What is left is written
    /// under the existential rule.
    pub open spec fn withdraw(
        self,
        currency_id: CurrencyId,
        who: AccountId,
        amount: Balance,
    ) -> (Ledger, Result<(), Error>) {
        let free = self.account(currency_id, who).free;
        if amount == 0 {
            (self, Ok(()))
        } else if self.ensure_can_withdraw(currency_id, who, amount) is Err {
            (self, self.ensure_can_withdraw(currency_id, who, amount))
        } else {
            (
                self.set_issuance(currency_id, (self.issuance(currency_id) - amount) as Balance)
                    .set_free_balance(currency_id, who, (free - amount) as Balance),
                Ok(()),
            )
        }
    }

    /// Takes up to `amount` from the account, from its free balance first and
    /// from its reserved balance for the rest, and destroys what it took. The
    /// second component is the part of `amount` that could not be taken.
    ///
    /// What is left of the free balance is written under the existential
    /// rule. A pool from which nothing is taken is not written.
    pub open spec fn slash(
        self,
        currency_id: CurrencyId,
        who: AccountId,
        amount: Balance,
    ) -> (Ledger, Balance) {
        let data = self.account(currency_id, who);
        let from_free = smaller(data.free, amount);
        let remaining = (amount - from_free) as Balance;
        let from_reserved = smaller(data.reserved, remaining);
        let leftover = (remaining - from_reserved) as Balance;
        if amount == 0 {
            (self, 0)
        } else {
            let free_taken = if from_free == 0 {
                self
            } else {
                self.set_free_balance(currency_id, who, (data.free - from_free) as Balance)
            };
            let reserved_taken = if remaining == 0 {
                free_taken
            } else {
                free_taken.set_reserved_balance(
                    currency_id,
                    who,
                    (data.reserved - from_reserved) as Balance,
                )
            };
            (
                reserved_taken.set_issuance(
                    currency_id,
                    (reserved_taken.issuance(currency_id) - (amount - leftover)) as Balance,
                ),
                leftover,
            )
        }
    }

    /// Changes the free balance of the account by a signed amount: a positive
    /// one is deposited, the magnitude of a negative one is withdrawn, zero
    /// does nothing. An amount whose magnitude is not an `Amount` itself is
    /// refused.
    pub open spec fn update_balance(
        self,
        currency_id: CurrencyId,
        who: AccountId,
        by_amount: Amount,
    ) -> (Ledger, Result<(), Error>) {
        if by_amount == 0 {
            (self, Ok(()))
        } else if by_amount == Amount::MIN {
            (self, Err(Error::AmountIntoBalanceFailed))
        } else if by_amount > 0 {
            self.deposit(currency_id, who, by_amount as Balance)
        } else {
            self.withdraw(currency_id, who, (-by_amount) as Balance)
        }
    }

    /// Sets the lock named `lock_id` on the account to `amount`, in place of
    /// any lock of that name. A lock of zero is not set.
    pub open spec fn set_lock(
        self,
        lock_id: LockIdentifier,
        currency_id: CurrencyId,
        who: AccountId,
        amount: Balance,
    ) -> Ledger {
        if amount == 0 {
            self
        } else {
            self.update_locks(
                currency_id,
                who,
                with_lock(self.locks_of(currency_id, who), lock_id, amount),
            )
        }
    }

    /// Raises the lock named `lock_id` on the account to at least `amount`,
    /// or sets it where there is none. An amount of zero changes nothing.
    pub open spec fn extend_lock(
        self,
        lock_id: LockIdentifier,
        currency_id: CurrencyId,
        who: AccountId,
        amount: Balance,
    ) -> Ledger {
        if amount == 0 {
            self
        } else {
            self.update_locks(
                currency_id,
                who,
                with_extended_lock(self.locks_of(currency_id, who), lock_id, amount),
            )
        }
    }

    /// Removes the lock named `lock_id` from the account.
    pub open spec fn remove_lock(
        self,
        lock_id: LockIdentifier,
        currency_id: CurrencyId,
        who: AccountId,
    ) -> Ledger {
        self.update_locks(currency_id, who, without_lock(self.locks_of(currency_id, who), lock_id))
    }

    /// Moves `value` from the free balance of the account to its reserved
    /// balance. It is refused where the value may not leave the free balance.
    /// What is left of the free balance is written under the existential rule.
    pub open spec fn reserve(
        self,
        currency_id: CurrencyId,
        who: AccountId,
        value: Balance,
    ) -> (Ledger, Result<(), Error>) {
        let data = self.account(currency_id, who);
        if value == 0 {
            (self, Ok(()))
        } else if self.ensure_can_withdraw(currency_id, who, value) is Err {
            (self, self.ensure_can_withdraw(currency_id, who, value))
        } else {
            (
                self.set_free_balance(currency_id, who, (data.free - value) as Balance)
                    .set_reserved_balance(currency_id, who, (data.reserved + value) as Balance),
                Ok(()),
            )
        }
    }

    /// Moves up to `value` from the reserved balance of the account back to
    /// its free balance. The second component is the part of `value` that the
    /// reserved balance did not cover.
    pub open spec fn unreserve(
        self,
        currency_id: CurrencyId,
        who: AccountId,
        value: Balance,
    ) -> (Ledger, Balance) {
        let data = self.account(currency_id, who);
        let actual = smaller(data.reserved, value);
        if value == 0 {
            (self, 0)
        } else {
            (
                self.set_reserved_balance(currency_id, who, (data.reserved - actual) as Balance)
                    .set_free_balance(currency_id, who, (data.free + actual) as Balance),
                (value - actual) as Balance,
            )
        }
    }

    /// Destroys up to `value` of the reserved balance of the account. The
    /// second component is the part of `value` that the reserved balance did
    /// not cover.
    pub open spec fn slash_reserved(
        self,
        currency_id: CurrencyId,
        who: AccountId,
        value: Balance,
    ) -> (Ledger, Balance) {
        let reserved = self.account(currency_id, who).reserved;
        let actual = smaller(reserved, value);
        if value == 0 {
            (self, 0)
        } else {
            (
                self.set_reserved_balance(currency_id, who, (reserved - actual) as Balance)
                    .set_issuance(currency_id, (self.issuance(currency_id) - actual) as Balance),
                (value - actual) as Balance,
            )
        }
    }

    /// Moves up to `value` from the reserved balance of `slashed` to the pool
    /// of `beneficiary` that `status` names. The second component is the part
    /// of `value` that the reserved balance did not cover.
    ///
    /// Where the two accounts are one, paying into the free pool is an
    /// unreserve, and paying into the reserved pool changes nothing. A free
    /// balance that receives the payment is written under the existential
    /// rule; the payment is never refused.
    pub open spec fn repatriate_reserved(
        self,
        currency_id: CurrencyId,
        slashed: AccountId,
        beneficiary: AccountId,
        value: Balance,
        status: BalanceStatus,
    ) -> (Ledger, Result<Balance, Error>) {
        let from = self.account(currency_id, slashed);
        let to = self.account(currency_id, beneficiary);
        let actual = smaller(from.reserved, value);
        if value == 0 {
            (self, Ok(0))
        } else if slashed == beneficiary {
            match status {
                BalanceStatus::Free => (
                    self.unreserve(currency_id, slashed, value).0,
                    Ok(self.unreserve(currency_id, slashed, value).1),
                ),
                BalanceStatus::Reserved => (self, Ok((value - actual) as Balance)),
            }
        } else {
            let paid = match status {
                BalanceStatus::Free => self.set_free_balance(
                    currency_id,
                    beneficiary,
                    (to.free + actual) as Balance,
                ),
                BalanceStatus::Reserved => self.set_reserved_balance(
                    currency_id,
                    beneficiary,
                    (to.reserved + actual) as Balance,
                ),
            };
            (
                paid.set_reserved_balance(
                    currency_id,
                    slashed,
                    (from.reserved - actual) as Balance,
                ),
                Ok((value - actual) as Balance),
            )
        }
    }

    /// What a call does when `origin` makes it. A call needs a signed origin,
    /// and is made in the name of the signer.
    pub open spec fn dispatch(self, origin: Origin, call: Call) -> (Ledger, Result<(), Error>) {
        match origin.signer() {
            None => (self, Err(Error::NoPermission)),
            Some(from) => match call {
                Call::Transfer { dest, currency_id, amount } => self.transfer(
                    currency_id,
                    from,
                    dest,
                    amount,
                ),
                Call::TransferAll { dest, currency_id } => self.transfer_all(
                    currency_id,
                    from,
                    dest,
                ),
            },
        }
    }
}

} // verus!
