//! What holds of the engine on every ledger and for every argument.

use vstd::prelude::*;
use crate::account::AccountData;
use crate::invariants::{
    deposit_takes_effect, issuance_moved, kept, lemma_balances_bounded, lemma_deposit,
    lemma_dispatch, lemma_lock_operations, lemma_repatriate_reserved, lemma_reserve,
    lemma_same_but_currency_chain, lemma_set_free_balance, lemma_set_issuance,
    lemma_set_reserved_balance, lemma_slash, lemma_slash_reserved, lemma_transfer,
    lemma_unreserve, lemma_update_locks, lemma_withdraw, same_but_currency,
};
use crate::ledger::{smaller, Call, Event, HostCall, Ledger};
use crate::locks::{distinct_ids, lemma_max_amount, max_amount, BalanceLock};
use crate::primitives::{
    AccountId, Amount, Balance, BalanceStatus, CurrencyId, Error, LockIdentifier, Origin,
};

verus! {

/// Conservation: in a valid ledger the total issuance of every currency is
/// the sum of the free and reserved balances of all accounts in it.
pub proof fn law_conservation(ledger: Ledger, currency_id: CurrencyId)
    requires
        ledger.wf(),
    ensures
        ledger.issuance(currency_id) == ledger.held(currency_id),
{
}

/// Every operation of the engine leaves a valid ledger valid: after it, the
/// issuance of every currency is again what the accounts hold of it, and the
/// locks of every account are again distinct and govern its frozen amount.
pub proof fn law_validity_is_kept(
    before: Ledger,
    lock_id: LockIdentifier,
    currency_id: CurrencyId,
    who: AccountId,
    other: AccountId,
    amount: Balance,
    by_amount: Amount,
    status: BalanceStatus,
    origin: Origin,
    call: Call,
)
    requires
        before.wf(),
    ensures
        before.transfer(currency_id, who, other, amount).0.wf(),
        before.transfer_all(currency_id, who, other).0.wf(),
        before.deposit(currency_id, who, amount).0.wf(),
        before.withdraw(currency_id, who, amount).0.wf(),
        before.slash(currency_id, who, amount).0.wf(),
        before.update_balance(currency_id, who, by_amount).0.wf(),
        before.set_lock(lock_id, currency_id, who, amount).wf(),
        before.extend_lock(lock_id, currency_id, who, amount).wf(),
        before.remove_lock(lock_id, currency_id, who).wf(),
        before.reserve(currency_id, who, amount).0.wf(),
        before.unreserve(currency_id, who, amount).0.wf(),
        before.slash_reserved(currency_id, who, amount).0.wf(),
        before.repatriate_reserved(currency_id, who, other, amount, status).0.wf(),
        before.dispatch(origin, call).0.wf(),
{
    lemma_transfer(before, currency_id, who, other, amount);
    lemma_transfer(before, currency_id, who, other, before.account(currency_id, who).free);
    lemma_deposit(before, currency_id, who, amount);
    lemma_withdraw(before, currency_id, who, amount);
    lemma_slash(before, currency_id, who, amount);
    if by_amount > 0 {
        lemma_deposit(before, currency_id, who, by_amount as Balance);
    } else if by_amount < 0 && by_amount != Amount::MIN {
        lemma_withdraw(before, currency_id, who, (-by_amount) as Balance);
    }
    lemma_lock_operations(before, lock_id, currency_id, who, amount);
    lemma_reserve(before, currency_id, who, amount);
    lemma_unreserve(before, currency_id, who, amount);
    lemma_slash_reserved(before, currency_id, who, amount);
    lemma_repatriate_reserved(before, currency_id, who, other, amount, status);
    lemma_dispatch(before, origin, call);
}

/// The total issuance of a currency changes by deposits, withdrawals,
/// slashes and the removal of dust, and by nothing else.
///
/// A deposit that takes effect adds its amount, an accepted withdrawal takes
/// its amount, a slash takes what it did not leave over. Transfers,
/// reservations and repatriations move nothing. Beyond that the issuance
/// falls by the dust that the operation hands to the dust sink. No operation
/// changes the issuance of a currency other than its own, and the lock
/// operations change no issuance at all.
pub proof fn law_issuance_accounting(
    before: Ledger,
    lock_id: LockIdentifier,
    currency_id: CurrencyId,
    who: AccountId,
    other: AccountId,
    amount: Balance,
    status: BalanceStatus,
)
    requires
        before.wf(),
    ensures
        issuance_moved(before, before.transfer(currency_id, who, other, amount).0, currency_id, 0),
        issuance_moved(before, before.reserve(currency_id, who, amount).0, currency_id, 0),
        issuance_moved(before, before.unreserve(currency_id, who, amount).0, currency_id, 0),
        issuance_moved(
            before,
            before.repatriate_reserved(currency_id, who, other, amount, status).0,
            currency_id,
            0,
        ),
        issuance_moved(
            before,
            before.deposit(currency_id, who, amount).0,
            currency_id,
            if deposit_takes_effect(before, currency_id, who, amount) {
                amount as int
            } else {
                0
            },
        ),
        issuance_moved(
            before,
            before.withdraw(currency_id, who, amount).0,
            currency_id,
            if before.withdraw(currency_id, who, amount).1 is Ok {
                -(amount as int)
            } else {
                0
            },
        ),
        issuance_moved(
            before,
            before.slash(currency_id, who, amount).0,
            currency_id,
            before.slash(currency_id, who, amount).1 - amount,
        ),
        issuance_moved(
            before,
            before.slash_reserved(currency_id, who, amount).0,
            currency_id,
            before.slash_reserved(currency_id, who, amount).1 - amount,
        ),
        before.set_lock(lock_id, currency_id, who, amount).total_issuance
            == before.total_issuance,
        before.extend_lock(lock_id, currency_id, who, amount).total_issuance
            == before.total_issuance,
        before.remove_lock(lock_id, currency_id, who).total_issuance == before.total_issuance,
{
    lemma_transfer(before, currency_id, who, other, amount);
    lemma_reserve(before, currency_id, who, amount);
    lemma_unreserve(before, currency_id, who, amount);
    lemma_repatriate_reserved(before, currency_id, who, other, amount, status);
    lemma_deposit(before, currency_id, who, amount);
    lemma_withdraw(before, currency_id, who, amount);
    lemma_slash(before, currency_id, who, amount);
    lemma_slash_reserved(before, currency_id, who, amount);
}

/// The existential rule: where every free balance is zero or at least the
/// existential deposit, an account that holds anything holds at least the
/// existential deposit, unless all it holds is a reserved balance under the
/// existential deposit.
pub proof fn law_existential_deposit(ledger: Ledger, currency_id: CurrencyId, who: AccountId)
    requires
        ledger.settled(),
        !(ledger.account(currency_id, who).free == 0 && 0 < ledger.account(
            currency_id,
            who,
        ).reserved < ledger.existential_deposit),
    ensures
        ledger.account(currency_id, who).holding() == 0 || ledger.account(
            currency_id,
            who,
        ).holding() >= ledger.existential_deposit,
{
    let free = ledger.account(currency_id, who).free;
    assert(free == 0 || free >= ledger.existential_deposit);
}

/// Every operation of the engine leaves every free balance zero or at least
/// the existential deposit, where that held before.
pub proof fn law_existential_rule_is_kept(
    before: Ledger,
    lock_id: LockIdentifier,
    currency_id: CurrencyId,
    who: AccountId,
    other: AccountId,
    amount: Balance,
    by_amount: Amount,
    status: BalanceStatus,
    origin: Origin,
    call: Call,
)
    requires
        before.wf(),
        before.settled(),
    ensures
        before.transfer(currency_id, who, other, amount).0.settled(),
        before.transfer_all(currency_id, who, other).0.settled(),
        before.deposit(currency_id, who, amount).0.settled(),
        before.withdraw(currency_id, who, amount).0.settled(),
        before.slash(currency_id, who, amount).0.settled(),
        before.update_balance(currency_id, who, by_amount).0.settled(),
        before.set_lock(lock_id, currency_id, who, amount).settled(),
        before.extend_lock(lock_id, currency_id, who, amount).settled(),
        before.remove_lock(lock_id, currency_id, who).settled(),
        before.reserve(currency_id, who, amount).0.settled(),
        before.unreserve(currency_id, who, amount).0.settled(),
        before.slash_reserved(currency_id, who, amount).0.settled(),
        before.repatriate_reserved(currency_id, who, other, amount, status).0.settled(),
        before.dispatch(origin, call).0.settled(),
{
    lemma_transfer(before, currency_id, who, other, amount);
    lemma_transfer(before, currency_id, who, other, before.account(currency_id, who).free);
    lemma_deposit(before, currency_id, who, amount);
    lemma_withdraw(before, currency_id, who, amount);
    lemma_slash(before, currency_id, who, amount);
    if by_amount > 0 {
        lemma_deposit(before, currency_id, who, by_amount as Balance);
    } else if by_amount < 0 && by_amount != Amount::MIN {
        lemma_withdraw(before, currency_id, who, (-by_amount) as Balance);
    }
    lemma_lock_operations(before, lock_id, currency_id, who, amount);
    lemma_reserve(before, currency_id, who, amount);
    lemma_unreserve(before, currency_id, who, amount);
    lemma_slash_reserved(before, currency_id, who, amount);
    lemma_repatriate_reserved(before, currency_id, who, other, amount, status);
    lemma_dispatch(before, origin, call);
}

/// The locks of an account in a valid ledger have pairwise distinct names,
/// and the frozen amount of the account is the largest of their amounts, or
/// zero where it has no lock.
pub proof fn law_locks(ledger: Ledger, currency_id: CurrencyId, who: AccountId)
    requires
        ledger.wf(),
    ensures
        distinct_ids(ledger.locks_of(currency_id, who)),
        ledger.account(currency_id, who).frozen == max_amount(ledger.locks_of(currency_id, who)),
        forall|i: int|
            0 <= i < ledger.locks_of(currency_id, who).len() ==> ledger.locks_of(
                currency_id,
                who,
            )[i].amount <= ledger.account(currency_id, who).frozen,
        ledger.locks_of(currency_id, who).len() == 0 ==> ledger.account(currency_id, who).frozen
            == 0,
        ledger.locks_of(currency_id, who).len() > 0 ==> exists|i: int|
            0 <= i < ledger.locks_of(currency_id, who).len() && ledger.locks_of(
                currency_id,
                who,
            )[i].amount == ledger.account(currency_id, who).frozen,
{
    let locks = ledger.locks_of(currency_id, who);
    if ledger.locks.contains_key((currency_id, who)) {
        assert(distinct_ids(ledger.locks[(currency_id, who)]));
    }
    lemma_max_amount(locks);
}

/// What does nothing: a transfer from an account to itself, and a transfer,
/// a deposit and a withdrawal of nothing, succeed and leave the ledger as it
/// was, with no call owed to the host that was not owed before.
pub proof fn law_no_ops(
    ledger: Ledger,
    currency_id: CurrencyId,
    who: AccountId,
    other: AccountId,
    amount: Balance,
)
    ensures
        ledger.transfer(currency_id, who, who, amount) == (ledger, Ok::<(), Error>(())),
        ledger.transfer(currency_id, who, other, 0) == (ledger, Ok::<(), Error>(())),
        ledger.deposit(currency_id, who, 0) == (ledger, Ok::<(), Error>(())),
        ledger.withdraw(currency_id, who, 0) == (ledger, Ok::<(), Error>(())),
{
}

/// The calls that a write of `balance` as a free balance owes the host: the
/// hand-over of the dust where the balance is under the existential deposit,
/// and none otherwise.
pub open spec fn dust_calls(existential_deposit: Balance, balance: Balance) -> Seq<HostCall> {
    if balance < existential_deposit {
        seq![HostCall::OnDustRemoval(balance)]
    } else {
        Seq::empty()
    }
}

/// `after` is `before` but for the balances of `first` and `second` in
/// `currency_id`, the issuance of that currency, and the calls owed to the
/// host.
pub open spec fn only_balances_differ(
    before: Ledger,
    after: Ledger,
    currency_id: CurrencyId,
    first: AccountId,
    second: AccountId,
) -> bool {
    &&& after.existential_deposit == before.existential_deposit
    &&& after.locks == before.locks
    &&& after.account(currency_id, first).frozen == before.account(currency_id, first).frozen
    &&& after.account(currency_id, second).frozen == before.account(currency_id, second).frozen
    &&& forall|c: CurrencyId, a: AccountId|
        (c, a) != (currency_id, first) && (c, a) != (currency_id, second) ==> #[trigger] after.account(
            c,
            a,
        ) == before.account(c, a)
    &&& forall|c: CurrencyId|
        c != currency_id ==> #[trigger] after.issuance(c) == before.issuance(c)
}

/// Writes to the balances of one account leave every other account as it
/// was.
proof fn lemma_one_account_written(
    before: Ledger,
    after: Ledger,
    currency_id: CurrencyId,
    who: AccountId,
    other: AccountId,
)
    requires
        same_but_currency(before, after, currency_id),
        forall|a: AccountId|
            a != who ==> #[trigger] after.account(currency_id, a) == before.account(
                currency_id,
                a,
            ),
    ensures
        only_balances_differ(before, after, currency_id, who, other),
{
    assert forall|c: CurrencyId, a: AccountId|
        (c, a) != (currency_id, who) && (c, a) != (currency_id, other) implies #[trigger] after.account(
        c,
        a,
    ) == before.account(c, a) by {
        if c == currency_id {
            assert(after.account(currency_id, a) == before.account(currency_id, a));
        }
    }
    assert(after.account(currency_id, who).frozen == before.account(currency_id, who).frozen);
    assert(after.account(currency_id, other).frozen == before.account(currency_id, other).frozen);
}

/// Slash spill: a slash that leaves no dust behind takes from the account
/// and from the total issuance exactly the part of the amount that it does
/// not leave over. It takes from the free balance first, and from the
/// reserved balance what the free balance did not cover.
///
/// Dust is left behind where the free balance exceeds the amount by less
/// than the existential deposit; such a slash takes the dust as well.
pub proof fn law_slash_spill(
    before: Ledger,
    currency_id: CurrencyId,
    who: AccountId,
    amount: Balance,
)
    requires
        before.wf(),
        amount == 0 || before.account(currency_id, who).free <= amount || before.account(
            currency_id,
            who,
        ).free - amount >= before.existential_deposit,
    ensures
        ({
            let (after, leftover) = before.slash(currency_id, who, amount);
            let was = before.account(currency_id, who);
            let now = after.account(currency_id, who);
            &&& leftover <= amount
            &&& now.holding() == was.holding() - (amount - leftover)
            &&& after.issuance(currency_id) == before.issuance(currency_id) - (amount - leftover)
            &&& now.free == was.free - smaller(was.free, amount)
            &&& now.reserved == was.reserved - (amount - leftover - smaller(was.free, amount))
            &&& leftover > 0 ==> now.free == 0 && now.reserved == 0
        }),
{
    let (after, leftover) = before.slash(currency_id, who, amount);
    if amount != 0 {
        let data = before.account(currency_id, who);
        let from_free = smaller(data.free, amount);
        let remaining = (amount - from_free) as Balance;
        let from_reserved = smaller(data.reserved, remaining);
        lemma_balances_bounded(before, currency_id, who, who);
        let free_taken = if from_free == 0 {
            before
        } else {
            before.set_free_balance(currency_id, who, (data.free - from_free) as Balance)
        };
        if from_free != 0 {
            lemma_set_free_balance(before, currency_id, who, (data.free - from_free) as Balance);
        }
        if remaining != 0 {
            lemma_set_reserved_balance(
                free_taken,
                currency_id,
                who,
                (data.reserved - from_reserved) as Balance,
            );
        }
    }
}

/// What a slash does in general: it takes from the free balance what that
/// covers of the amount, from the reserved balance what that covers of the
/// rest, and returns what neither covered. What is left of a free balance
/// that it took from is dust where it is under the existential deposit. The
/// issuance falls by what was taken and by the dust. Nothing else changes.
pub proof fn law_slash_effect(
    before: Ledger,
    currency_id: CurrencyId,
    who: AccountId,
    amount: Balance,
)
    requires
        before.wf(),
        amount != 0,
    ensures
        ({
            let (after, leftover) = before.slash(currency_id, who, amount);
            let data = before.account(currency_id, who);
            let from_free = smaller(data.free, amount);
            let from_reserved = smaller(data.reserved, (amount - from_free) as Balance);
            let rest = (data.free - from_free) as Balance;
            let left = if from_free == 0 {
                data.free
            } else {
                kept(before.existential_deposit, rest)
            };
            &&& leftover == amount - from_free - from_reserved
            &&& after.account(currency_id, who) == AccountData {
                free: left,
                reserved: (data.reserved - from_reserved) as Balance,
                ..data
            }
            &&& only_balances_differ(before, after, currency_id, who, who)
            &&& after.issuance(currency_id) == before.issuance(currency_id) - from_free
                - from_reserved - (rest - left)
            &&& after.outbox == before.outbox + if from_free == 0 {
                Seq::empty()
            } else {
                dust_calls(before.existential_deposit, rest)
            }
        }),
{
    let (after, leftover) = before.slash(currency_id, who, amount);
    let data = before.account(currency_id, who);
    let from_free = smaller(data.free, amount);
    let remaining = (amount - from_free) as Balance;
    let from_reserved = smaller(data.reserved, remaining);
    let rest = (data.free - from_free) as Balance;
    lemma_balances_bounded(before, currency_id, who, who);
    let free_taken = if from_free == 0 {
        before
    } else {
        before.set_free_balance(currency_id, who, rest)
    };
    if from_free != 0 {
        lemma_set_free_balance(before, currency_id, who, rest);
    }
    let reserved_taken = if remaining == 0 {
        free_taken
    } else {
        free_taken.set_reserved_balance(
            currency_id,
            who,
            (data.reserved - from_reserved) as Balance,
        )
    };
    if remaining != 0 {
        lemma_set_reserved_balance(
            free_taken,
            currency_id,
            who,
            (data.reserved - from_reserved) as Balance,
        );
    }
    let issued = (reserved_taken.issuance(currency_id) - (amount - leftover)) as Balance;
    lemma_set_issuance(reserved_taken, currency_id, issued);
    assert forall|c: CurrencyId, a: AccountId|
        (c, a) != (currency_id, who) implies #[trigger] after.account(c, a) == before.account(
        c,
        a,
    ) by {
        assert(after.account(c, a) == reserved_taken.account(c, a));
        if c == currency_id {
            assert(reserved_taken.account(currency_id, a) == free_taken.account(currency_id, a));
            assert(free_taken.account(currency_id, a) == before.account(currency_id, a));
        } else {
            assert(free_taken.account(c, a) == before.account(c, a));
        }
    }
    assert forall|c: CurrencyId| c != currency_id implies #[trigger] after.issuance(c)
        == before.issuance(c) by {
        assert(reserved_taken.issuance(c) == free_taken.issuance(c));
    }
    assert(after.outbox =~= before.outbox + if from_free == 0 {
        Seq::<HostCall>::empty()
    } else {
        dust_calls(before.existential_deposit, rest)
    });
}

/// Reserve round-trip: where an amount can be reserved without leaving dust
/// behind, reserving it and unreserving it again succeeds, leaves nothing
/// over, and restores the free and the reserved balance.
///
/// Dust is left behind where the free balance is under the existential
/// deposit, or exceeds the amount by less than that. The locks on the account
/// may forbid the reservation.
pub proof fn law_reserve_round_trip(
    before: Ledger,
    currency_id: CurrencyId,
    who: AccountId,
    value: Balance,
)
    requires
        before.wf(),
        value <= before.account(currency_id, who).free,
        value == 0 || {
            let data = before.account(currency_id, who);
            &&& data.free - value >= data.frozen
            &&& data.free >= before.existential_deposit
            &&& data.free == value || data.free - value >= before.existential_deposit
        },
    ensures
        ({
            let (reserved, result) = before.reserve(currency_id, who, value);
            let (after, leftover) = reserved.unreserve(currency_id, who, value);
            &&& result is Ok
            &&& leftover == 0
            &&& after.account(currency_id, who).free == before.account(currency_id, who).free
            &&& after.account(currency_id, who).reserved == before.account(
                currency_id,
                who,
            ).reserved
            &&& after.issuance(currency_id) == before.issuance(currency_id)
        }),
{
    let (reserved, result) = before.reserve(currency_id, who, value);
    let (after, leftover) = reserved.unreserve(currency_id, who, value);
    if value != 0 {
        let data = before.account(currency_id, who);
        lemma_balances_bounded(before, currency_id, who, who);
        let taken = before.set_free_balance(currency_id, who, (data.free - value) as Balance);
        lemma_set_free_balance(before, currency_id, who, (data.free - value) as Balance);
        lemma_set_reserved_balance(taken, currency_id, who, (data.reserved + value) as Balance);
        lemma_reserve(before, currency_id, who, value);
        let released = reserved.set_reserved_balance(currency_id, who, data.reserved);
        lemma_set_reserved_balance(reserved, currency_id, who, data.reserved);
        lemma_set_free_balance(released, currency_id, who, data.free);
    }
}

/// What an accepted transfer between two accounts does: the amount leaves
/// the free balance of the sender and enters that of the receiver. What is
/// left to the sender is dust where it is under the existential deposit: the
/// sender is left with no free balance, and the dust leaves the issuance. The
/// host is owed the hand-over of the dust, if any, and then the event.
/// Nothing else changes.
pub proof fn law_transfer_effect(
    before: Ledger,
    currency_id: CurrencyId,
    from: AccountId,
    to: AccountId,
    amount: Balance,
)
    requires
        before.wf(),
        amount != 0,
        from != to,
        before.transfer(currency_id, from, to, amount).1 is Ok,
    ensures
        ({
            let after = before.transfer(currency_id, from, to, amount).0;
            let sender = before.account(currency_id, from);
            let receiver = before.account(currency_id, to);
            let rest = (sender.free - amount) as Balance;
            &&& amount <= sender.free
            &&& receiver.free + amount <= Balance::MAX
            &&& after.account(currency_id, from) == AccountData {
                free: kept(before.existential_deposit, rest),
                ..sender
            }
            &&& after.account(currency_id, to) == AccountData {
                free: (receiver.free + amount) as Balance,
                ..receiver
            }
            &&& only_balances_differ(before, after, currency_id, from, to)
            &&& after.issuance(currency_id) == before.issuance(currency_id) - rest + kept(
                before.existential_deposit,
                rest,
            )
            &&& after.outbox == before.outbox + dust_calls(before.existential_deposit, rest).push(
                HostCall::DepositEvent(Event::Transferred(currency_id, from, to, amount)),
            )
        }),
{
    let after = before.transfer(currency_id, from, to, amount).0;
    let sender = before.account(currency_id, from);
    let receiver = before.account(currency_id, to);
    let rest = (sender.free - amount) as Balance;
    let credited = (receiver.free + amount) as Balance;
    lemma_balances_bounded(before, currency_id, from, to);
    let taken = before.set_free_balance(currency_id, from, rest);
    lemma_set_free_balance(before, currency_id, from, rest);
    let given = taken.set_free_balance(currency_id, to, credited);
    lemma_set_free_balance(taken, currency_id, to, credited);
    assert forall|c: CurrencyId, a: AccountId|
        (c, a) != (currency_id, from) && (c, a) != (currency_id, to) implies #[trigger] after.account(
        c,
        a,
    ) == before.account(c, a) by {
        assert(after.account(c, a) == given.account(c, a));
        if c == currency_id {
            assert(given.account(currency_id, a) == taken.account(currency_id, a));
            assert(taken.account(currency_id, a) == before.account(currency_id, a));
        } else {
            assert(taken.account(c, a) == before.account(c, a));
        }
    }
    assert forall|c: CurrencyId| c != currency_id implies #[trigger] after.issuance(c)
        == before.issuance(c) by {
        assert(given.issuance(c) == taken.issuance(c));
    }
    assert(after.outbox =~= before.outbox + dust_calls(before.existential_deposit, rest).push(
        HostCall::DepositEvent(Event::Transferred(currency_id, from, to, amount)),
    ));
}

/// What a deposit that takes effect does: the amount enters the free balance
/// of the account and the issuance. Nothing else changes, unless the free
/// balance is still under the existential deposit: then it is removed as
/// dust.
pub proof fn law_deposit_effect(
    before: Ledger,
    currency_id: CurrencyId,
    who: AccountId,
    amount: Balance,
)
    requires
        before.wf(),
        deposit_takes_effect(before, currency_id, who, amount),
    ensures
        ({
            let (after, result) = before.deposit(currency_id, who, amount);
            let data = before.account(currency_id, who);
            let credited = (data.free + amount) as Balance;
            &&& result is Ok
            &&& data.free + amount <= Balance::MAX
            &&& after.account(currency_id, who) == AccountData {
                free: kept(before.existential_deposit, credited),
                ..data
            }
            &&& only_balances_differ(before, after, currency_id, who, who)
            &&& after.issuance(currency_id) == before.issuance(currency_id) + kept(
                before.existential_deposit,
                credited,
            ) - data.free
            &&& after.outbox == before.outbox + dust_calls(before.existential_deposit, credited)
            &&& before.settled() ==> after.account(currency_id, who).free == credited
        }),
{
    let (after, result) = before.deposit(currency_id, who, amount);
    let data = before.account(currency_id, who);
    let credited = (data.free + amount) as Balance;
    let issued = (before.issuance(currency_id) + amount) as Balance;
    lemma_balances_bounded(before, currency_id, who, who);
    let minted = before.set_issuance(currency_id, issued);
    lemma_set_issuance(before, currency_id, issued);
    lemma_set_free_balance(minted, currency_id, who, credited);
    lemma_same_but_currency_chain(before, minted, after, currency_id);
    assert forall|a: AccountId| a != who implies #[trigger] after.account(currency_id, a)
        == before.account(currency_id, a) by {
        assert(after.account(currency_id, a) == minted.account(currency_id, a));
    }
    lemma_one_account_written(before, after, currency_id, who, who);
    assert(after.outbox =~= before.outbox + dust_calls(before.existential_deposit, credited));
}

/// What an accepted withdrawal does: the amount leaves the free balance of
/// the account and the issuance. What is left is dust where it is under the
/// existential deposit, and leaves the account and the issuance as well.
/// Nothing else changes.
pub proof fn law_withdraw_effect(
    before: Ledger,
    currency_id: CurrencyId,
    who: AccountId,
    amount: Balance,
)
    requires
        before.wf(),
        amount != 0,
        before.withdraw(currency_id, who, amount).1 is Ok,
    ensures
        ({
            let after = before.withdraw(currency_id, who, amount).0;
            let data = before.account(currency_id, who);
            let rest = (data.free - amount) as Balance;
            &&& amount <= data.free
            &&& after.account(currency_id, who) == AccountData {
                free: kept(before.existential_deposit, rest),
                ..data
            }
            &&& only_balances_differ(before, after, currency_id, who, who)
            &&& after.issuance(currency_id) == before.issuance(currency_id) - data.free + kept(
                before.existential_deposit,
                rest,
            )
            &&& after.outbox == before.outbox + dust_calls(before.existential_deposit, rest)
        }),
{
    let after = before.withdraw(currency_id, who, amount).0;
    let data = before.account(currency_id, who);
    let rest = (data.free - amount) as Balance;
    let issued = (before.issuance(currency_id) - amount) as Balance;
    lemma_balances_bounded(before, currency_id, who, who);
    let burnt = before.set_issuance(currency_id, issued);
    lemma_set_issuance(before, currency_id, issued);
    lemma_set_free_balance(burnt, currency_id, who, rest);
    lemma_same_but_currency_chain(before, burnt, after, currency_id);
    assert forall|a: AccountId| a != who implies #[trigger] after.account(currency_id, a)
        == before.account(currency_id, a) by {
        assert(after.account(currency_id, a) == burnt.account(currency_id, a));
    }
    lemma_one_account_written(before, after, currency_id, who, who);
    assert(after.outbox =~= before.outbox + dust_calls(before.existential_deposit, rest));
}

/// What an accepted reservation does: the value moves from the free balance
/// of the account to its reserved balance. What is left of the free balance
/// is dust where it is under the existential deposit, and leaves the account
/// and the issuance. Nothing else changes.
pub proof fn law_reserve_effect(
    before: Ledger,
    currency_id: CurrencyId,
    who: AccountId,
    value: Balance,
)
    requires
        before.wf(),
        value != 0,
        before.reserve(currency_id, who, value).1 is Ok,
    ensures
        ({
            let after = before.reserve(currency_id, who, value).0;
            let data = before.account(currency_id, who);
            let rest = (data.free - value) as Balance;
            &&& value <= data.free
            &&& data.reserved + value <= Balance::MAX
            &&& after.account(currency_id, who) == AccountData {
                free: kept(before.existential_deposit, rest),
                reserved: (data.reserved + value) as Balance,
                ..data
            }
            &&& only_balances_differ(before, after, currency_id, who, who)
            &&& after.issuance(currency_id) == before.issuance(currency_id) - rest + kept(
                before.existential_deposit,
                rest,
            )
            &&& after.outbox == before.outbox + dust_calls(before.existential_deposit, rest)
        }),
{
    let after = before.reserve(currency_id, who, value).0;
    let data = before.account(currency_id, who);
    let rest = (data.free - value) as Balance;
    lemma_balances_bounded(before, currency_id, who, who);
    let taken = before.set_free_balance(currency_id, who, rest);
    lemma_set_free_balance(before, currency_id, who, rest);
    lemma_set_reserved_balance(taken, currency_id, who, (data.reserved + value) as Balance);
    lemma_same_but_currency_chain(before, taken, after, currency_id);
    assert forall|a: AccountId| a != who implies #[trigger] after.account(currency_id, a)
        == before.account(currency_id, a) by {
        assert(after.account(currency_id, a) == taken.account(currency_id, a));
    }
    lemma_one_account_written(before, after, currency_id, who, who);
    assert(after.outbox =~= before.outbox + dust_calls(before.existential_deposit, rest));
}

/// What unreserving does: as much of the value as the reserved balance
/// covers moves back to the free balance, and the rest of the value is
/// returned. The issuance changes only where the free balance is still under
/// the existential deposit and is removed as dust. Nothing else changes.
pub proof fn law_unreserve_effect(
    before: Ledger,
    currency_id: CurrencyId,
    who: AccountId,
    value: Balance,
)
    requires
        before.wf(),
        value != 0,
    ensures
        ({
            let (after, leftover) = before.unreserve(currency_id, who, value);
            let data = before.account(currency_id, who);
            let moved = smaller(data.reserved, value);
            let credited = (data.free + moved) as Balance;
            &&& leftover == value - moved
            &&& data.free + moved <= Balance::MAX
            &&& after.account(currency_id, who) == AccountData {
                free: kept(before.existential_deposit, credited),
                reserved: (data.reserved - moved) as Balance,
                ..data
            }
            &&& only_balances_differ(before, after, currency_id, who, who)
            &&& after.issuance(currency_id) == before.issuance(currency_id) - credited + kept(
                before.existential_deposit,
                credited,
            )
            &&& after.outbox == before.outbox + dust_calls(before.existential_deposit, credited)
        }),
{
    let (after, leftover) = before.unreserve(currency_id, who, value);
    let data = before.account(currency_id, who);
    let moved = smaller(data.reserved, value);
    let credited = (data.free + moved) as Balance;
    lemma_balances_bounded(before, currency_id, who, who);
    let released = before.set_reserved_balance(
        currency_id,
        who,
        (data.reserved - moved) as Balance,
    );
    lemma_set_reserved_balance(before, currency_id, who, (data.reserved - moved) as Balance);
    lemma_set_free_balance(released, currency_id, who, credited);
    lemma_same_but_currency_chain(before, released, after, currency_id);
    assert forall|a: AccountId| a != who implies #[trigger] after.account(currency_id, a)
        == before.account(currency_id, a) by {
        assert(after.account(currency_id, a) == released.account(currency_id, a));
    }
    lemma_one_account_written(before, after, currency_id, who, who);
    assert(after.outbox =~= before.outbox + dust_calls(before.existential_deposit, credited));
}

/// What a slash of the reserved balance does: as much of the value as the
/// reserved balance covers leaves the reserved balance and the issuance, and
/// the rest of the value is returned. Nothing else changes, and the host is
/// owed nothing new.
pub proof fn law_slash_reserved_effect(
    before: Ledger,
    currency_id: CurrencyId,
    who: AccountId,
    value: Balance,
)
    requires
        before.wf(),
        value != 0,
    ensures
        ({
            let (after, leftover) = before.slash_reserved(currency_id, who, value);
            let data = before.account(currency_id, who);
            let burnt = smaller(data.reserved, value);
            &&& leftover == value - burnt
            &&& after.account(currency_id, who) == AccountData {
                reserved: (data.reserved - burnt) as Balance,
                ..data
            }
            &&& only_balances_differ(before, after, currency_id, who, who)
            &&& after.issuance(currency_id) == before.issuance(currency_id) - burnt
            &&& after.outbox == before.outbox
        }),
{
    let (after, leftover) = before.slash_reserved(currency_id, who, value);
    let data = before.account(currency_id, who);
    let burnt = smaller(data.reserved, value);
    lemma_balances_bounded(before, currency_id, who, who);
    let taken = before.set_reserved_balance(currency_id, who, (data.reserved - burnt) as Balance);
    lemma_set_reserved_balance(before, currency_id, who, (data.reserved - burnt) as Balance);
    lemma_set_issuance(taken, currency_id, (before.issuance(currency_id) - burnt) as Balance);
    lemma_same_but_currency_chain(before, taken, after, currency_id);
    assert forall|a: AccountId| a != who implies #[trigger] after.account(currency_id, a)
        == before.account(currency_id, a) by {
        assert(after.account(currency_id, a) == taken.account(currency_id, a));
    }
    lemma_one_account_written(before, after, currency_id, who, who);
}

/// What a repatriation between two accounts does: as much of the value as
/// the reserved balance of the slashed account covers leaves it and enters
/// the pool of the beneficiary that the status names, and the rest of the
/// value is returned. It is never refused. A free balance that is still under
/// the existential deposit after the payment is removed as dust. Nothing else
/// changes.
pub proof fn law_repatriate_effect(
    before: Ledger,
    currency_id: CurrencyId,
    slashed: AccountId,
    beneficiary: AccountId,
    value: Balance,
    status: BalanceStatus,
)
    requires
        before.wf(),
        value != 0,
        slashed != beneficiary,
    ensures
        ({
            let (after, result) = before.repatriate_reserved(
                currency_id,
                slashed,
                beneficiary,
                value,
                status,
            );
            let from = before.account(currency_id, slashed);
            let to = before.account(currency_id, beneficiary);
            let moved = smaller(from.reserved, value);
            &&& result == Ok::<Balance, Error>((value - moved) as Balance)
            &&& to.free + moved <= Balance::MAX
            &&& to.reserved + moved <= Balance::MAX
            &&& after.account(currency_id, slashed) == AccountData {
                reserved: (from.reserved - moved) as Balance,
                ..from
            }
            &&& after.account(currency_id, beneficiary) == match status {
                BalanceStatus::Free => AccountData {
                    free: kept(before.existential_deposit, (to.free + moved) as Balance),
                    ..to
                },
                BalanceStatus::Reserved => AccountData {
                    reserved: (to.reserved + moved) as Balance,
                    ..to
                },
            }
            &&& only_balances_differ(before, after, currency_id, slashed, beneficiary)
            &&& after.outbox == before.outbox + match status {
                BalanceStatus::Free => dust_calls(
                    before.existential_deposit,
                    (to.free + moved) as Balance,
                ),
                BalanceStatus::Reserved => Seq::empty(),
            }
        }),
{
    let (after, result) = before.repatriate_reserved(
        currency_id,
        slashed,
        beneficiary,
        value,
        status,
    );
    let from = before.account(currency_id, slashed);
    let to = before.account(currency_id, beneficiary);
    let moved = smaller(from.reserved, value);
    lemma_balances_bounded(before, currency_id, slashed, beneficiary);
    let paid = match status {
        BalanceStatus::Free => before.set_free_balance(
            currency_id,
            beneficiary,
            (to.free + moved) as Balance,
        ),
        BalanceStatus::Reserved => before.set_reserved_balance(
            currency_id,
            beneficiary,
            (to.reserved + moved) as Balance,
        ),
    };
    match status {
        BalanceStatus::Free => {
            lemma_set_free_balance(before, currency_id, beneficiary, (to.free + moved) as Balance);
        },
        BalanceStatus::Reserved => {
            lemma_set_reserved_balance(
                before,
                currency_id,
                beneficiary,
                (to.reserved + moved) as Balance,
            );
        },
    }
    lemma_set_reserved_balance(paid, currency_id, slashed, (from.reserved - moved) as Balance);
    assert forall|c: CurrencyId, a: AccountId|
        (c, a) != (currency_id, slashed) && (c, a) != (currency_id, beneficiary) implies #[trigger] after.account(
        c,
        a,
    ) == before.account(c, a) by {
        if c == currency_id {
            assert(after.account(currency_id, a) == paid.account(currency_id, a));
            assert(paid.account(currency_id, a) == before.account(currency_id, a));
        } else {
            assert(paid.account(c, a) == before.account(c, a));
        }
    }
    assert forall|c: CurrencyId| c != currency_id implies #[trigger] after.issuance(c)
        == before.issuance(c) by {
        assert(paid.issuance(c) == before.issuance(c));
    }
    match status {
        BalanceStatus::Free => {
            assert(after.outbox =~= before.outbox + dust_calls(
                before.existential_deposit,
                (to.free + moved) as Balance,
            ));
        },
        BalanceStatus::Reserved => {
            assert(after.outbox =~= before.outbox + Seq::<HostCall>::empty());
        },
    }
}

/// What the lock operations do: the locks of the account become what the
/// operation makes of them, and its frozen amount becomes the largest of
/// them. The host is told of the first lock of an account and of the removal
/// of its last one. No free or reserved balance, no issuance, no other
/// account changes.
pub proof fn law_lock_effect(
    before: Ledger,
    currency_id: CurrencyId,
    who: AccountId,
    locks: Seq<BalanceLock>,
)
    requires
        before.wf(),
        distinct_ids(locks),
    ensures
        ({
            let after = before.update_locks(currency_id, who, locks);
            let data = before.account(currency_id, who);
            let had = before.locks_of(currency_id, who).len() > 0;
            &&& after.locks_of(currency_id, who) == locks
            &&& after.account(currency_id, who) == AccountData {
                frozen: max_amount(locks),
                ..data
            }
            &&& forall|c: CurrencyId, a: AccountId|
                (c, a) != (currency_id, who) ==> #[trigger] after.account(c, a)
                    == before.account(c, a) && after.locks_of(c, a) == before.locks_of(c, a)
            &&& after.total_issuance == before.total_issuance
            &&& after.outbox == if had && locks.len() == 0 {
                before.outbox.push(HostCall::DecRef(who))
            } else if !had && locks.len() > 0 {
                before.outbox.push(HostCall::IncRef(who))
            } else {
                before.outbox
            }
        }),
{
    lemma_update_locks(before, currency_id, who, locks);
    let after = before.update_locks(currency_id, who, locks);
    if before.locks.contains_key((currency_id, who)) {
        assert(before.locks[(currency_id, who)].len() > 0);
    }
}

/// Locks gate what leaves the free balance: a transfer, a withdrawal or a
/// reservation of an amount is accepted only if the free balance covers the
/// amount and what is left is at least the frozen amount of the account.
/// Deposits are not gated, nor are slashes and repatriations.
pub proof fn law_locks_gate_withdrawals(
    before: Ledger,
    currency_id: CurrencyId,
    who: AccountId,
    other: AccountId,
    amount: Balance,
)
    requires
        amount != 0,
    ensures
        ({
            let data = before.account(currency_id, who);
            let admitted = amount <= data.free && data.free - amount >= data.frozen;
            &&& before.ensure_can_withdraw(currency_id, who, amount) is Ok <==> admitted
            &&& before.can_reserve(currency_id, who, amount) <==> admitted
            &&& before.withdraw(currency_id, who, amount).1 is Ok <==> admitted
            &&& before.reserve(currency_id, who, amount).1 is Ok <==> admitted
            &&& who != other ==> (before.transfer(currency_id, who, other, amount).1 is Ok
                <==> admitted && before.account(currency_id, other).free + amount
                >= before.existential_deposit)
            &&& !admitted ==> before.ensure_can_withdraw(currency_id, who, amount) == Err::<
                (),
                Error,
            >(
                if data.free < amount {
                    Error::BalanceTooLow
                } else {
                    Error::LiquidityRestrictions
                },
            )
        }),
{
}

/// A refusal changes nothing: an operation of the engine that returns an
/// error leaves the ledger as it was, and the host is owed nothing new.
pub proof fn law_refusals_change_nothing(
    before: Ledger,
    currency_id: CurrencyId,
    who: AccountId,
    other: AccountId,
    amount: Balance,
    by_amount: Amount,
    origin: Origin,
    call: Call,
)
    ensures
        before.transfer(currency_id, who, other, amount).1 is Err ==> before.transfer(
            currency_id,
            who,
            other,
            amount,
        ).0 == before,
        before.transfer_all(currency_id, who, other).1 is Err ==> before.transfer_all(
            currency_id,
            who,
            other,
        ).0 == before,
        before.deposit(currency_id, who, amount).1 is Err ==> before.deposit(
            currency_id,
            who,
            amount,
        ).0 == before,
        before.withdraw(currency_id, who, amount).1 is Err ==> before.withdraw(
            currency_id,
            who,
            amount,
        ).0 == before,
        before.update_balance(currency_id, who, by_amount).1 is Err ==> before.update_balance(
            currency_id,
            who,
            by_amount,
        ).0 == before,
        before.reserve(currency_id, who, amount).1 is Err ==> before.reserve(
            currency_id,
            who,
            amount,
        ).0 == before,
        before.dispatch(origin, call).1 is Err ==> before.dispatch(origin, call).0 == before,
{
}

/// Nothing comes of nothing: every operation of the engine on an amount of
/// zero leaves the ledger as it was, with no call owed to the host that was
/// not owed before, and succeeds where it can fail.
pub proof fn law_zero_amounts(
    ledger: Ledger,
    lock_id: LockIdentifier,
    currency_id: CurrencyId,
    who: AccountId,
    other: AccountId,
    status: BalanceStatus,
)
    ensures
        ledger.transfer(currency_id, who, other, 0) == (ledger, Ok::<(), Error>(())),
        ledger.deposit(currency_id, who, 0) == (ledger, Ok::<(), Error>(())),
        ledger.withdraw(currency_id, who, 0) == (ledger, Ok::<(), Error>(())),
        ledger.update_balance(currency_id, who, 0) == (ledger, Ok::<(), Error>(())),
        ledger.reserve(currency_id, who, 0) == (ledger, Ok::<(), Error>(())),
        ledger.slash(currency_id, who, 0) == (ledger, 0u128),
        ledger.unreserve(currency_id, who, 0) == (ledger, 0u128),
        ledger.slash_reserved(currency_id, who, 0) == (ledger, 0u128),
        ledger.repatriate_reserved(currency_id, who, other, 0, status) == (
            ledger,
            Ok::<Balance, Error>(0),
        ),
        ledger.set_lock(lock_id, currency_id, who, 0) == ledger,
        ledger.extend_lock(lock_id, currency_id, who, 0) == ledger,
        ledger.ensure_can_withdraw(currency_id, who, 0) is Ok,
        ledger.can_slash(currency_id, who, 0),
        ledger.can_reserve(currency_id, who, 0),
{
}

} // verus!
