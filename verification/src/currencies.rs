//! The dispatch layer: one surface over two implementations. A call in the
//! native currency goes to the native single-currency provider, a call in any
//! other currency goes to the multi-currency engine.

use vstd::prelude::*;
use crate::basic::{
    BasicCurrency, BasicCurrencyExtended, BasicLockableCurrency, BasicReservableCurrency,
};
use crate::ledger::{HostCall, Ledger};
use crate::primitives::{
    ensure_root, ensure_signed, AccountId, Amount, Balance, BalanceStatus, CurrencyId, Error,
    LockIdentifier, Origin,
};
use crate::tokens::Tokens;

verus! {

/// What the dispatch layer reports to the event sink.
#[derive(Clone, Copy, Debug, PartialEq, Eq, Structural)]
pub enum Event {
    /// Currency transfer success: currency, sender, receiver, amount.
    Transferred(CurrencyId, AccountId, AccountId, Balance),
    /// Update balance success: currency, account, signed amount.
    BalanceUpdated(CurrencyId, AccountId, Amount),
    /// Deposit success: currency, account, amount.
    Deposited(CurrencyId, AccountId, Balance),
    /// Withdraw success: currency, account, amount.
    Withdrawn(CurrencyId, AccountId, Balance),
}

/// A call into the dispatch layer that an origin can make.
#[allow(inconsistent_fields)]
#[derive(Clone, Copy, Debug, PartialEq, Eq, Structural)]
pub enum Call {
    /// Transfer some balance to another account, in a given currency. Needs
    /// a signed origin.
    Transfer { dest: AccountId, currency_id: CurrencyId, amount: Balance },
    /// Transfer some balance in the native currency to another account,
    /// straight through the native provider. Needs a signed origin.
    TransferNativeCurrency { dest: AccountId, amount: Balance },
    /// Update the balance of an account by a signed amount. Needs the root
    /// origin.
    UpdateBalance { who: AccountId, currency_id: CurrencyId, amount: Amount },
}

/// The dispatch layer over a native provider `N` and the multi-currency
/// engine.
pub struct Currencies<N> {
    native_currency_id: CurrencyId,
    native: N,
    multi: Tokens,
    events: Vec<Event>,
}

impl<N: BasicCurrencyExtended + BasicLockableCurrency + BasicReservableCurrency> Currencies<N> {
    /// The currency whose calls go to the native provider.
    pub closed spec fn native_id(&self) -> CurrencyId {
        self.native_currency_id
    }

    /// The native provider.
    pub closed spec fn provider(&self) -> N {
        self.native
    }

    /// The ledger of the multi-currency engine.
    pub closed spec fn engine(&self) -> Ledger {
        self.multi@
    }

    /// The events that the dispatch layer has emitted and the host has not
    /// taken yet, oldest first.
    pub closed spec fn emitted(&self) -> Seq<Event> {
        self.events@
    }

    /// Whether both implementations are in a state in which they can be
    /// operated.
    pub open spec fn wf(&self) -> bool {
        self.provider().valid() && self.engine().wf()
    }

    /// `after` is this dispatch layer with `event` emitted where `emit`
    /// holds, and with the same events otherwise.
    pub open spec fn emitted_if(&self, after: &Self, emit: bool, event: Event) -> bool {
        after.emitted() == if emit {
            self.emitted().push(event)
        } else {
            self.emitted()
        }
    }

    /// `after` differs from this dispatch layer at most in its events.
    pub open spec fn untouched(&self, after: &Self) -> bool {
        &&& after.native_id() == self.native_id()
        &&& after.provider() == self.provider()
        &&& after.engine() == self.engine()
    }

    /// A dispatch layer over the two implementations, with `native_currency_id`
    /// as the currency of the native one.
    pub fn new(native_currency_id: CurrencyId, native: N, multi: Tokens) -> (currencies: Self)
        ensures
            currencies.native_id() == native_currency_id,
            currencies.provider() == native,
            currencies.engine() == multi@,
            currencies.emitted() == Seq::<Event>::empty(),
            native.valid() && multi.wf() ==> currencies.wf(),
    {
        Currencies { native_currency_id, native, multi, events: Vec::new() }
    }

    /// The currency whose calls go to the native provider.
    pub fn native_currency_id(&self) -> (currency_id: CurrencyId)
        ensures
            currency_id == self.native_id(),
    {
        self.native_currency_id
    }

    /// The native provider.
    pub fn native_currency(&self) -> (native: &N)
        ensures
            *native == self.provider(),
    {
        &self.native
    }

    /// The multi-currency engine.
    pub fn multi_currency(&self) -> (multi: &Tokens)
        ensures
            multi@ == self.engine(),
    {
        &self.multi
    }

    /// The events that the host has not taken yet, oldest first.
    pub fn events(&self) -> (events: &Vec<Event>)
        ensures
            events@ == self.emitted(),
    {
        &self.events
    }

    /// Hands the emitted events over to the host, oldest first, and leaves
    /// none behind.
    pub fn take_events(&mut self) -> (events: Vec<Event>)
        ensures
            events@ == old(self).emitted(),
            final(self).emitted() == Seq::<Event>::empty(),
            old(self).untouched(final(self)),
            old(self).wf() ==> final(self).wf(),
    {
        let mut events: Vec<Event> = Vec::new();
        std::mem::swap(&mut events, &mut self.events);
        events
    }

    /// Hands the calls that the engine owes the host over to it, oldest
    /// first, and leaves none behind.
    pub fn take_outbox(&mut self) -> (calls: Vec<HostCall>)
        ensures
            calls@ == old(self).engine().outbox,
            final(self).engine() == (Ledger { outbox: Seq::empty(), ..old(self).engine() }),
            final(self).native_id() == old(self).native_id(),
            final(self).provider() == old(self).provider(),
            final(self).emitted() == old(self).emitted(),
            old(self).wf() ==> final(self).wf(),
    {
        self.multi.take_outbox()
    }

    /// What `total_issuance` returns: the answer of the implementation that the
    /// currency belongs to.
    pub open spec fn total_issuance_post(
        &self,
        currency_id: CurrencyId,
        issuance: Balance,
    ) -> bool {
        if currency_id == self.native_id() {
            self.provider().total_issuance_post(issuance)
        } else {
            issuance == self.engine().issuance(currency_id)
        }
    }

    /// The total issuance of the currency.
    pub fn total_issuance(&self, currency_id: CurrencyId) -> (issuance: Balance)
        ensures
            self.total_issuance_post(currency_id, issuance),
    {
        if currency_id == self.native_currency_id {
            self.native.total_issuance()
        } else {
            self.multi.total_issuance(currency_id)
        }
    }

    /// What `total_balance` returns: the answer of the implementation that the
    /// currency belongs to.
    pub open spec fn total_balance_post(
        &self,
        currency_id: CurrencyId,
        who: AccountId,
        total: Balance,
    ) -> bool {
        if currency_id == self.native_id() {
            self.provider().total_balance_post(who, total)
        } else {
            total == self.engine().total_balance(currency_id, who)
        }
    }

    /// The free and the reserved balance of `who` in the currency together.
    pub fn total_balance(&self, currency_id: CurrencyId, who: AccountId) -> (total: Balance)
        ensures
            self.total_balance_post(currency_id, who, total),
    {
        if currency_id == self.native_currency_id {
            self.native.total_balance(who)
        } else {
            self.multi.total_balance(currency_id, who)
        }
    }

    /// What `free_balance` returns: the answer of the implementation that the
    /// currency belongs to.
    pub open spec fn free_balance_post(
        &self,
        currency_id: CurrencyId,
        who: AccountId,
        free: Balance,
    ) -> bool {
        if currency_id == self.native_id() {
            self.provider().free_balance_post(who, free)
        } else {
            free == self.engine().account(currency_id, who).free
        }
    }

    /// The free balance of `who` in the currency.
    pub fn free_balance(&self, currency_id: CurrencyId, who: AccountId) -> (free: Balance)
        ensures
            self.free_balance_post(currency_id, who, free),
    {
        if currency_id == self.native_currency_id {
            self.native.free_balance(who)
        } else {
            self.multi.free_balance(currency_id, who)
        }
    }

    /// What `ensure_can_withdraw` returns: the answer of the implementation that the
    /// currency belongs to.
    pub open spec fn ensure_can_withdraw_post(
        &self,
        currency_id: CurrencyId,
        who: AccountId,
        amount: Balance,
        result: Result<(), Error>,
    ) -> bool {
        if currency_id == self.native_id() {
            self.provider().ensure_can_withdraw_post(who, amount, result)
        } else {
            result == self.engine().ensure_can_withdraw(currency_id, who, amount)
        }
    }

    /// Checks that `amount` of the currency may leave the free balance of `who`.
    pub fn ensure_can_withdraw(
        &self,
        currency_id: CurrencyId,
        who: AccountId,
        amount: Balance,
    ) -> (result: Result<(), Error>)
        ensures
            self.ensure_can_withdraw_post(currency_id, who, amount, result),
    {
        if currency_id == self.native_currency_id {
            self.native.ensure_can_withdraw(who, amount)
        } else {
            self.multi.ensure_can_withdraw(currency_id, who, amount)
        }
    }

    /// What `can_slash` returns: the answer of the implementation that the
    /// currency belongs to.
    pub open spec fn can_slash_post(
        &self,
        currency_id: CurrencyId,
        who: AccountId,
        amount: Balance,
        can: bool,
    ) -> bool {
        if currency_id == self.native_id() {
            self.provider().can_slash_post(who, amount, can)
        } else {
            can == self.engine().can_slash(currency_id, who, amount)
        }
    }

    /// Whether `amount` of the currency can be slashed from the free balance of
    /// `who` alone.
    pub fn can_slash(&self, currency_id: CurrencyId, who: AccountId, amount: Balance) -> (can: bool)
        ensures
            self.can_slash_post(currency_id, who, amount, can),
    {
        if currency_id == self.native_currency_id {
            self.native.can_slash(who, amount)
        } else {
            self.multi.can_slash(currency_id, who, amount)
        }
    }

    /// What `can_reserve` returns: the answer of the implementation that the
    /// currency belongs to.
    pub open spec fn can_reserve_post(
        &self,
        currency_id: CurrencyId,
        who: AccountId,
        value: Balance,
        can: bool,
    ) -> bool {
        if currency_id == self.native_id() {
            self.provider().can_reserve_post(who, value, can)
        } else {
            can == self.engine().can_reserve(currency_id, who, value)
        }
    }

    /// Whether `who` can reserve `value` of the currency.
    pub fn can_reserve(
        &self,
        currency_id: CurrencyId,
        who: AccountId,
        value: Balance,
    ) -> (can: bool)
        ensures
            self.can_reserve_post(currency_id, who, value, can),
    {
        if currency_id == self.native_currency_id {
            self.native.can_reserve(who, value)
        } else {
            self.multi.can_reserve(currency_id, who, value)
        }
    }

    /// What `reserved_balance` returns: the answer of the implementation that the
    /// currency belongs to.
    pub open spec fn reserved_balance_post(
        &self,
        currency_id: CurrencyId,
        who: AccountId,
        reserved: Balance,
    ) -> bool {
        if currency_id == self.native_id() {
            self.provider().reserved_balance_post(who, reserved)
        } else {
            reserved == self.engine().account(currency_id, who).reserved
        }
    }

    /// The reserved balance of `who` in the currency.
    pub fn reserved_balance(&self, currency_id: CurrencyId, who: AccountId) -> (reserved: Balance)
        ensures
            self.reserved_balance_post(currency_id, who, reserved),
    {
        if currency_id == self.native_currency_id {
            self.native.reserved_balance(who)
        } else {
            self.multi.reserved_balance(currency_id, who)
        }
    }

    /// What `transfer` leaves and returns: what the implementation that the currency
    /// belongs to does, with the other one untouched, and the
    /// event on success.
    pub open spec fn transfer_post(
        &self,
        after: &Self,
        currency_id: CurrencyId,
        from: AccountId,
        to: AccountId,
        amount: Balance,
        result: Result<(), Error>,
    ) -> bool {
        &&& after.native_id() == self.native_id()
        &&& if amount == 0 {
            &&& result is Ok
            &&& self.untouched(after)
            &&& after.emitted() == self.emitted()
        } else {
            &&& if currency_id == self.native_id() {
                &&& self.provider().transfer_post(&after.provider(), from, to, amount, result)
                &&& after.engine() == self.engine()
            } else {
                &&& (after.engine(), result) == self.engine().transfer(
                    currency_id,
                    from,
                    to,
                    amount,
                )
                &&& after.provider() == self.provider()
            }
            &&& self.emitted_if(
                after,
                result is Ok,
                Event::Transferred(currency_id, from, to, amount),
            )
        }
    }

    /// Moves `amount` of the currency from `from` to `to`, and emits
    /// `Transferred` where that succeeded. An amount of zero succeeds at once:
    /// neither implementation is called and nothing is emitted.
    pub fn transfer(
        &mut self,
        currency_id: CurrencyId,
        from: AccountId,
        to: AccountId,
        amount: Balance,
    ) -> (result: Result<(), Error>)
        requires
            old(self).wf(),
        ensures
            final(self).wf(),
            old(self).transfer_post(final(self), currency_id, from, to, amount, result),
    {
        if amount == 0 {
            return Ok(());
        }
        let result = if currency_id == self.native_currency_id {
            self.native.transfer(from, to, amount)
        } else {
            self.multi.transfer(currency_id, from, to, amount)
        };
        if result.is_ok() {
            self.events.push(Event::Transferred(currency_id, from, to, amount));
        }
        result
    }

    /// What `deposit` leaves and returns: what the implementation that the currency
    /// belongs to does, with the other one untouched, and the
    /// event on success.
    pub open spec fn deposit_post(
        &self,
        after: &Self,
        currency_id: CurrencyId,
        who: AccountId,
        amount: Balance,
        result: Result<(), Error>,
    ) -> bool {
        &&& after.native_id() == self.native_id()
        &&& if amount == 0 {
            &&& result is Ok
            &&& self.untouched(after)
            &&& after.emitted() == self.emitted()
        } else {
            &&& if currency_id == self.native_id() {
                &&& self.provider().deposit_post(&after.provider(), who, amount, result)
                &&& after.engine() == self.engine()
            } else {
                &&& (after.engine(), result) == self.engine().deposit(currency_id, who, amount)
                &&& after.provider() == self.provider()
            }
            &&& self.emitted_if(after, result is Ok, Event::Deposited(currency_id, who, amount))
        }
    }

    /// Creates `amount` of the currency on the free balance of `who`, and emits
    /// `Deposited` where that succeeded. An amount of zero succeeds at once:
    /// neither implementation is called and nothing is emitted.
    pub fn deposit(
        &mut self,
        currency_id: CurrencyId,
        who: AccountId,
        amount: Balance,
    ) -> (result: Result<(), Error>)
        requires
            old(self).wf(),
        ensures
            final(self).wf(),
            old(self).deposit_post(final(self), currency_id, who, amount, result),
    {
        if amount == 0 {
            return Ok(());
        }
        let result = if currency_id == self.native_currency_id {
            self.native.deposit(who, amount)
        } else {
            self.multi.deposit(currency_id, who, amount)
        };
        if result.is_ok() {
            self.events.push(Event::Deposited(currency_id, who, amount));
        }
        result
    }

    /// What `withdraw` leaves and returns: what the implementation that the currency
    /// belongs to does, with the other one untouched, and the
    /// event on success.
    pub open spec fn withdraw_post(
        &self,
        after: &Self,
        currency_id: CurrencyId,
        who: AccountId,
        amount: Balance,
        result: Result<(), Error>,
    ) -> bool {
        &&& after.native_id() == self.native_id()
        &&& if amount == 0 {
            &&& result is Ok
            &&& self.untouched(after)
            &&& after.emitted() == self.emitted()
        } else {
            &&& if currency_id == self.native_id() {
                &&& self.provider().withdraw_post(&after.provider(), who, amount, result)
                &&& after.engine() == self.engine()
            } else {
                &&& (after.engine(), result) == self.engine().withdraw(currency_id, who, amount)
                &&& after.provider() == self.provider()
            }
            &&& self.emitted_if(after, result is Ok, Event::Withdrawn(currency_id, who, amount))
        }
    }

    /// Destroys `amount` of the currency on the free balance of `who`, and
    /// emits `Withdrawn` where that succeeded. An amount of zero succeeds at
    /// once: neither implementation is called and nothing is emitted.
    pub fn withdraw(
        &mut self,
        currency_id: CurrencyId,
        who: AccountId,
        amount: Balance,
    ) -> (result: Result<(), Error>)
        requires
            old(self).wf(),
        ensures
            final(self).wf(),
            old(self).withdraw_post(final(self), currency_id, who, amount, result),
    {
        if amount == 0 {
            return Ok(());
        }
        let result = if currency_id == self.native_currency_id {
            self.native.withdraw(who, amount)
        } else {
            self.multi.withdraw(currency_id, who, amount)
        };
        if result.is_ok() {
            self.events.push(Event::Withdrawn(currency_id, who, amount));
        }
        result
    }

    /// What `slash` leaves and returns: what the implementation that the currency
    /// belongs to does, with the other one untouched.
    pub open spec fn slash_post(
        &self,
        after: &Self,
        currency_id: CurrencyId,
        who: AccountId,
        amount: Balance,
        leftover: Balance,
    ) -> bool {
        &&& after.native_id() == self.native_id()
        &&& if currency_id == self.native_id() {
            &&& self.provider().slash_post(&after.provider(), who, amount, leftover)
            &&& after.engine() == self.engine()
        } else {
            &&& (after.engine(), leftover) == self.engine().slash(currency_id, who, amount)
            &&& after.provider() == self.provider()
        }
        &&& after.emitted() == self.emitted()
    }

    /// Takes up to `amount` of the currency from `who` and destroys it. Returns
    /// what could not be taken.
    pub fn slash(
        &mut self,
        currency_id: CurrencyId,
        who: AccountId,
        amount: Balance,
    ) -> (leftover: Balance)
        requires
            old(self).wf(),
        ensures
            final(self).wf(),
            old(self).slash_post(final(self), currency_id, who, amount, leftover),
    {
        let leftover = if currency_id == self.native_currency_id {
            self.native.slash(who, amount)
        } else {
            self.multi.slash(currency_id, who, amount)
        };
        leftover
    }

    /// What `update_balance` leaves and returns: what the implementation that the currency
    /// belongs to does, with the other one untouched, and the
    /// event on success.
    pub open spec fn update_balance_post(
        &self,
        after: &Self,
        currency_id: CurrencyId,
        who: AccountId,
        by_amount: Amount,
        result: Result<(), Error>,
    ) -> bool {
        &&& after.native_id() == self.native_id()
        &&& if currency_id == self.native_id() {
            &&& self.provider().update_balance_post(&after.provider(), who, by_amount, result)
            &&& after.engine() == self.engine()
        } else {
            &&& (after.engine(), result) == self.engine().update_balance(
                currency_id,
                who,
                by_amount,
            )
            &&& after.provider() == self.provider()
        }
        &&& self.emitted_if(after, result is Ok, Event::BalanceUpdated(currency_id, who, by_amount))
    }

    /// Changes the free balance of `who` in the currency by a signed amount, and
    /// emits `BalanceUpdated` where that succeeded.
    pub fn update_balance(
        &mut self,
        currency_id: CurrencyId,
        who: AccountId,
        by_amount: Amount,
    ) -> (result: Result<(), Error>)
        requires
            old(self).wf(),
        ensures
            final(self).wf(),
            old(self).update_balance_post(final(self), currency_id, who, by_amount, result),
    {
        let result = if currency_id == self.native_currency_id {
            self.native.update_balance(who, by_amount)
        } else {
            self.multi.update_balance(currency_id, who, by_amount)
        };
        if result.is_ok() {
            self.events.push(Event::BalanceUpdated(currency_id, who, by_amount));
        }
        result
    }

    /// What `set_lock` leaves: what the implementation that the currency
    /// belongs to does, with the other one untouched.
    pub open spec fn set_lock_post(
        &self,
        after: &Self,
        lock_id: LockIdentifier,
        currency_id: CurrencyId,
        who: AccountId,
        amount: Balance,
    ) -> bool {
        &&& after.native_id() == self.native_id()
        &&& if currency_id == self.native_id() {
            &&& self.provider().set_lock_post(&after.provider(), lock_id, who, amount)
            &&& after.engine() == self.engine()
        } else {
            &&& after.engine() == self.engine().set_lock(lock_id, currency_id, who, amount)
            &&& after.provider() == self.provider()
        }
        &&& after.emitted() == self.emitted()
    }

    /// Sets the lock named `lock_id` on the balance of `who` in the currency to
    /// `amount`.
    pub fn set_lock(
        &mut self,
        lock_id: LockIdentifier,
        currency_id: CurrencyId,
        who: AccountId,
        amount: Balance,
    )
        requires
            old(self).wf(),
        ensures
            final(self).wf(),
            old(self).set_lock_post(final(self), lock_id, currency_id, who, amount),
    {
        if currency_id == self.native_currency_id {
            self.native.set_lock(lock_id, who, amount);
        } else {
            self.multi.set_lock(lock_id, currency_id, who, amount);
        }
    }

    /// What `extend_lock` leaves: what the implementation that the currency
    /// belongs to does, with the other one untouched.
    pub open spec fn extend_lock_post(
        &self,
        after: &Self,
        lock_id: LockIdentifier,
        currency_id: CurrencyId,
        who: AccountId,
        amount: Balance,
    ) -> bool {
        &&& after.native_id() == self.native_id()
        &&& if currency_id == self.native_id() {
            &&& self.provider().extend_lock_post(&after.provider(), lock_id, who, amount)
            &&& after.engine() == self.engine()
        } else {
            &&& after.engine() == self.engine().extend_lock(lock_id, currency_id, who, amount)
            &&& after.provider() == self.provider()
        }
        &&& after.emitted() == self.emitted()
    }

    /// Raises the lock named `lock_id` on the balance of `who` in the currency
    /// to at least `amount`.
    pub fn extend_lock(
        &mut self,
        lock_id: LockIdentifier,
        currency_id: CurrencyId,
        who: AccountId,
        amount: Balance,
    )
        requires
            old(self).wf(),
        ensures
            final(self).wf(),
            old(self).extend_lock_post(final(self), lock_id, currency_id, who, amount),
    {
        if currency_id == self.native_currency_id {
            self.native.extend_lock(lock_id, who, amount);
        } else {
            self.multi.extend_lock(lock_id, currency_id, who, amount);
        }
    }

    /// What `remove_lock` leaves: what the implementation that the currency
    /// belongs to does, with the other one untouched.
    pub open spec fn remove_lock_post(
        &self,
        after: &Self,
        lock_id: LockIdentifier,
        currency_id: CurrencyId,
        who: AccountId,
    ) -> bool {
        &&& after.native_id() == self.native_id()
        &&& if currency_id == self.native_id() {
            &&& self.provider().remove_lock_post(&after.provider(), lock_id, who)
            &&& after.engine() == self.engine()
        } else {
            &&& after.engine() == self.engine().remove_lock(lock_id, currency_id, who)
            &&& after.provider() == self.provider()
        }
        &&& after.emitted() == self.emitted()
    }

    /// Removes the lock named `lock_id` from the balance of `who` in the
    /// currency.
    pub fn remove_lock(&mut self, lock_id: LockIdentifier, currency_id: CurrencyId, who: AccountId)
        requires
            old(self).wf(),
        ensures
            final(self).wf(),
            old(self).remove_lock_post(final(self), lock_id, currency_id, who),
    {
        if currency_id == self.native_currency_id {
            self.native.remove_lock(lock_id, who);
        } else {
            self.multi.remove_lock(lock_id, currency_id, who);
        }
    }

    /// What `slash_reserved` leaves and returns: what the implementation that the currency
    /// belongs to does, with the other one untouched.
    pub open spec fn slash_reserved_post(
        &self,
        after: &Self,
        currency_id: CurrencyId,
        who: AccountId,
        value: Balance,
        leftover: Balance,
    ) -> bool {
        &&& after.native_id() == self.native_id()
        &&& if currency_id == self.native_id() {
            &&& self.provider().slash_reserved_post(&after.provider(), who, value, leftover)
            &&& after.engine() == self.engine()
        } else {
            &&& (after.engine(), leftover) == self.engine().slash_reserved(currency_id, who, value)
            &&& after.provider() == self.provider()
        }
        &&& after.emitted() == self.emitted()
    }

    /// Destroys up to `value` of the reserved balance of `who` in the currency.
    /// Returns what the reserved balance did not cover.
    pub fn slash_reserved(
        &mut self,
        currency_id: CurrencyId,
        who: AccountId,
        value: Balance,
    ) -> (leftover: Balance)
        requires
            old(self).wf(),
        ensures
            final(self).wf(),
            old(self).slash_reserved_post(final(self), currency_id, who, value, leftover),
    {
        let leftover = if currency_id == self.native_currency_id {
            self.native.slash_reserved(who, value)
        } else {
            self.multi.slash_reserved(currency_id, who, value)
        };
        leftover
    }

    /// What `reserve` leaves and returns: what the implementation that the currency
    /// belongs to does, with the other one untouched.
    pub open spec fn reserve_post(
        &self,
        after: &Self,
        currency_id: CurrencyId,
        who: AccountId,
        value: Balance,
        result: Result<(), Error>,
    ) -> bool {
        &&& after.native_id() == self.native_id()
        &&& if currency_id == self.native_id() {
            &&& self.provider().reserve_post(&after.provider(), who, value, result)
            &&& after.engine() == self.engine()
        } else {
            &&& (after.engine(), result) == self.engine().reserve(currency_id, who, value)
            &&& after.provider() == self.provider()
        }
        &&& after.emitted() == self.emitted()
    }

    /// Moves `value` of the currency from the free balance of `who` to their
    /// reserved balance.
    pub fn reserve(
        &mut self,
        currency_id: CurrencyId,
        who: AccountId,
        value: Balance,
    ) -> (result: Result<(), Error>)
        requires
            old(self).wf(),
        ensures
            final(self).wf(),
            old(self).reserve_post(final(self), currency_id, who, value, result),
    {
        let result = if currency_id == self.native_currency_id {
            self.native.reserve(who, value)
        } else {
            self.multi.reserve(currency_id, who, value)
        };
        result
    }

    /// What `unreserve` leaves and returns: what the implementation that the currency
    /// belongs to does, with the other one untouched.
    pub open spec fn unreserve_post(
        &self,
        after: &Self,
        currency_id: CurrencyId,
        who: AccountId,
        value: Balance,
        leftover: Balance,
    ) -> bool {
        &&& after.native_id() == self.native_id()
        &&& if currency_id == self.native_id() {
            &&& self.provider().unreserve_post(&after.provider(), who, value, leftover)
            &&& after.engine() == self.engine()
        } else {
            &&& (after.engine(), leftover) == self.engine().unreserve(currency_id, who, value)
            &&& after.provider() == self.provider()
        }
        &&& after.emitted() == self.emitted()
    }

    /// Moves up to `value` of the currency from the reserved balance of `who`
    /// back to their free balance. Returns what the reserved balance did not
    /// cover.
    pub fn unreserve(
        &mut self,
        currency_id: CurrencyId,
        who: AccountId,
        value: Balance,
    ) -> (leftover: Balance)
        requires
            old(self).wf(),
        ensures
            final(self).wf(),
            old(self).unreserve_post(final(self), currency_id, who, value, leftover),
    {
        let leftover = if currency_id == self.native_currency_id {
            self.native.unreserve(who, value)
        } else {
            self.multi.unreserve(currency_id, who, value)
        };
        leftover
    }

    /// What `repatriate_reserved` leaves and returns: what the implementation that the currency
    /// belongs to does, with the other one untouched.
    pub open spec fn repatriate_reserved_post(
        &self,
        after: &Self,
        currency_id: CurrencyId,
        slashed: AccountId,
        beneficiary: AccountId,
        value: Balance,
        status: BalanceStatus,
        result: Result<Balance, Error>,
    ) -> bool {
        &&& after.native_id() == self.native_id()
        &&& if currency_id == self.native_id() {
            &&& self.provider().repatriate_reserved_post(
                &after.provider(),
                slashed,
                beneficiary,
                value,
                status,
                result,
            )
            &&& after.engine() == self.engine()
        } else {
            &&& (after.engine(), result) == self.engine().repatriate_reserved(
                currency_id,
                slashed,
                beneficiary,
                value,
                status,
            )
            &&& after.provider() == self.provider()
        }
        &&& after.emitted() == self.emitted()
    }

    /// Moves up to `value` of the currency from the reserved balance of
    /// `slashed` to the balance of `beneficiary` that `status` names. Returns
    /// what the reserved balance did not cover.
    pub fn repatriate_reserved(
        &mut self,
        currency_id: CurrencyId,
        slashed: AccountId,
        beneficiary: AccountId,
        value: Balance,
        status: BalanceStatus,
    ) -> (result: Result<Balance, Error>)
        requires
            old(self).wf(),
        ensures
            final(self).wf(),
            old(self).repatriate_reserved_post(
                final(self),
                currency_id,
                slashed,
                beneficiary,
                value,
                status,
                result,
            ),
    {
        let result = if currency_id == self.native_currency_id {
            self.native.repatriate_reserved(slashed, beneficiary, value, status)
        } else {
            self.multi.repatriate_reserved(currency_id, slashed, beneficiary, value, status)
        };
        result
    }

    /// What a call leaves and returns when `origin` makes it.
    ///
    /// A transfer needs a signed origin and is made in the name of the
    /// signer. A transfer in the native currency goes straight to the native
    /// provider, whatever the amount, and emits `Transferred` where it
    /// succeeded. An update of a balance needs the root origin. A call from
    /// any other origin is refused with `NoPermission` and changes nothing.
    pub open spec fn dispatch_post(
        &self,
        after: &Self,
        origin: Origin,
        call: Call,
        result: Result<(), Error>,
    ) -> bool {
        match call {
            Call::Transfer { dest, currency_id, amount } => match origin.signer() {
                Some(from) => self.transfer_post(after, currency_id, from, dest, amount, result),
                None => self.refused(after, result),
            },
            Call::TransferNativeCurrency { dest, amount } => match origin.signer() {
                Some(from) => {
                    &&& after.native_id() == self.native_id()
                    &&& self.provider().transfer_post(&after.provider(), from, dest, amount, result)
                    &&& after.engine() == self.engine()
                    &&& self.emitted_if(
                        after,
                        result is Ok,
                        Event::Transferred(self.native_id(), from, dest, amount),
                    )
                },
                None => self.refused(after, result),
            },
            Call::UpdateBalance { who, currency_id, amount } => if origin == Origin::Root {
                self.update_balance_post(after, currency_id, who, amount, result)
            } else {
                self.refused(after, result)
            },
        }
    }

    /// The call was refused for want of permission, and nothing has changed.
    pub open spec fn refused(&self, after: &Self, result: Result<(), Error>) -> bool {
        &&& result == Err::<(), Error>(Error::NoPermission)
        &&& self.untouched(after)
        &&& after.emitted() == self.emitted()
    }

    /// Makes a call in the name of `origin`.
    pub fn dispatch(&mut self, origin: Origin, call: Call) -> (result: Result<(), Error>)
        requires
            old(self).wf(),
        ensures
            final(self).wf(),
            old(self).dispatch_post(final(self), origin, call, result),
    {
        match call {
            Call::Transfer { dest, currency_id, amount } => {
                match ensure_signed(origin) {
                    Err(error) => Err(error),
                    Ok(from) => self.transfer(currency_id, from, dest, amount),
                }
            },
            Call::TransferNativeCurrency { dest, amount } => {
                match ensure_signed(origin) {
                    Err(error) => Err(error),
                    Ok(from) => {
                        let result = self.native.transfer(from, dest, amount);
                        if result.is_ok() {
                            self.events.push(
                                Event::Transferred(self.native_currency_id, from, dest, amount),
                            );
                        }
                        result
                    },
                }
            },
            Call::UpdateBalance { who, currency_id, amount } => {
                match ensure_root(origin) {
                    Err(error) => Err(error),
                    Ok(_) => self.update_balance(currency_id, who, amount),
                }
            },
        }
    }
}

} // verus!
