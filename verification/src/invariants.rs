//! How the writes of the engine change what the accounts hold, and why every
//! operation leaves a valid ledger valid.

use vstd::prelude::*;
use crate::account::AccountData;
use crate::ledger::{
    dust_of, endowed_in, endowed_once, endowed_settled, endowed_total, endowment_fits, held,
    holding_of, holdings, smaller, AccountKey, Call, Endowment, Event, HostCall, Ledger,
};
use crate::primitives::{
    AccountId, Balance, BalanceStatus, CurrencyId, LockIdentifier, Origin,
};
use crate::locks::{
    distinct_ids, lemma_with_lock_distinct, lemma_without_lock_distinct, max_amount,
    with_extended_lock, with_lock, without_lock, BalanceLock,
};
use crate::sums::{lemma_sum_agree, lemma_sum_insert, lemma_sum_split};

verus! {

/// Writing the record of one account changes what is held of its currency by
/// the difference between the new and the old holding of that account, and
/// changes nothing for any other currency.
pub proof fn lemma_held_write(
    accounts: Map<AccountKey, AccountData>,
    key: AccountKey,
    data: AccountData,
    currency_id: CurrencyId,
)
    requires
        accounts.dom().finite(),
    ensures
        accounts.insert(key, data).dom().finite(),
        key.0 == currency_id ==> held(accounts.insert(key, data), currency_id) == held(
            accounts,
            currency_id,
        ) - holding_of(accounts, currency_id, key) + data.holding(),
        key.0 != currency_id ==> held(accounts.insert(key, data), currency_id) == held(
            accounts,
            currency_id,
        ),
{
    let after = accounts.insert(key, data);
    let before_weight = holdings(accounts, currency_id);
    let after_weight = holdings(after, currency_id);
    if accounts.contains_key(key) {
        assert(after.dom() =~= accounts.dom());
        let others = accounts.dom().remove(key);
        lemma_sum_split(accounts.dom(), before_weight, key);
        lemma_sum_split(accounts.dom(), after_weight, key);
        lemma_sum_agree(others, before_weight, after_weight);
    } else {
        assert(after.dom() =~= accounts.dom().insert(key));
        lemma_sum_insert(accounts.dom(), after_weight, key);
        lemma_sum_agree(accounts.dom(), before_weight, after_weight);
    }
}

/// No account holds more of a currency than all accounts hold of it.
pub proof fn lemma_holding_bounded(
    accounts: Map<AccountKey, AccountData>,
    currency_id: CurrencyId,
    who: AccountId,
)
    requires
        accounts.dom().finite(),
    ensures
        holding_of(accounts, currency_id, (currency_id, who)) <= held(accounts, currency_id),
{
    let key = (currency_id, who);
    if accounts.contains_key(key) {
        lemma_sum_split(accounts.dom(), holdings(accounts, currency_id), key);
    }
}

/// Two different accounts together hold no more of a currency than all
/// accounts hold of it.
pub proof fn lemma_two_holdings_bounded(
    accounts: Map<AccountKey, AccountData>,
    currency_id: CurrencyId,
    first: AccountId,
    second: AccountId,
)
    requires
        accounts.dom().finite(),
        first != second,
    ensures
        holding_of(accounts, currency_id, (currency_id, first)) + holding_of(
            accounts,
            currency_id,
            (currency_id, second),
        ) <= held(accounts, currency_id),
{
    let k1 = (currency_id, first);
    let k2 = (currency_id, second);
    let weight = holdings(accounts, currency_id);
    if accounts.contains_key(k1) {
        lemma_sum_split(accounts.dom(), weight, k1);
        if accounts.contains_key(k2) {
            lemma_sum_split(accounts.dom().remove(k1), weight, k2);
        }
    } else {
        lemma_holding_bounded(accounts, currency_id, second);
    }
}

/// The free balance that the existential rule stores for `balance`.
pub open spec fn kept(existential_deposit: Balance, balance: Balance) -> Balance {
    if balance < existential_deposit {
        0
    } else {
        balance
    }
}

/// What writes to the balances of one currency leave as they were: the
/// existential deposit, the locks, every frozen amount, the record of every
/// account in another currency, and for every other currency the issuance and
/// what is held. A free balance that was written is zero or at least the
/// existential deposit.
pub open spec fn same_but_currency(before: Ledger, after: Ledger, currency_id: CurrencyId) -> bool {
    &&& after.accounts.dom().finite()
    &&& after.existential_deposit == before.existential_deposit
    &&& after.locks == before.locks
    &&& forall|c: CurrencyId, a: AccountId|
        {
            let now = #[trigger] after.account(c, a);
            let was = before.account(c, a);
            &&& now.frozen == was.frozen
            &&& c != currency_id ==> now == was
            &&& now.free == was.free || now.free == 0 || now.free >= after.existential_deposit
        }
    &&& forall|c: CurrencyId|
        c != currency_id ==> #[trigger] after.issuance(c) == before.issuance(c) && after.held(c)
            == before.held(c)
}

/// Writes to one currency after writes to the same currency are writes to
/// that currency.
pub proof fn lemma_same_but_currency_chain(
    before: Ledger,
    between: Ledger,
    after: Ledger,
    currency_id: CurrencyId,
)
    requires
        same_but_currency(before, between, currency_id),
        same_but_currency(between, after, currency_id),
    ensures
        same_but_currency(before, after, currency_id),
{
    assert forall|c: CurrencyId, a: AccountId|
        {
            let now = #[trigger] after.account(c, a);
            let was = before.account(c, a);
            &&& now.frozen == was.frozen
            &&& c != currency_id ==> now == was
            &&& now.free == was.free || now.free == 0 || now.free >= after.existential_deposit
        } by {
        assert(between.account(c, a).frozen == before.account(c, a).frozen);
    }
    assert forall|c: CurrencyId| c != currency_id implies #[trigger] after.issuance(c)
        == before.issuance(c) && after.held(c) == before.held(c) by {
        assert(between.issuance(c) == before.issuance(c));
    }
}

/// A write of the free balance under the existential rule touches that
/// account only, and moves the issuance away from what is held by the
/// difference between the old free balance and the one written.
pub proof fn lemma_set_free_balance(
    before: Ledger,
    currency_id: CurrencyId,
    who: AccountId,
    balance: Balance,
)
    requires
        before.accounts.dom().finite(),
        balance < before.existential_deposit ==> balance <= before.issuance(currency_id),
    ensures
        ({
            let after = before.set_free_balance(currency_id, who, balance);
            let data = before.account(currency_id, who);
            &&& same_but_currency(before, after, currency_id)
            &&& forall|a: AccountId|
                a != who ==> #[trigger] after.account(currency_id, a) == before.account(
                    currency_id,
                    a,
                )
            &&& after.account(currency_id, who) == AccountData {
                free: kept(before.existential_deposit, balance),
                ..data
            }
            &&& after.issuance(currency_id) - after.held(currency_id) == before.issuance(
                currency_id,
            ) - before.held(currency_id) + data.free - balance
            &&& after.issuance(currency_id) == before.issuance(currency_id) - balance + kept(
                before.existential_deposit,
                balance,
            )
            &&& issuance_moved(before, after, currency_id, 0)
        }),
{
    let after = before.set_free_balance(currency_id, who, balance);
    let data = before.account(currency_id, who);
    let written = AccountData { free: kept(before.existential_deposit, balance), ..data };
    assert(after.accounts == before.accounts.insert((currency_id, who), written));
    if balance < before.existential_deposit {
        lemma_dust_after_emit(
            before.set_account(currency_id, who, written),
            HostCall::OnDustRemoval(balance),
        );
    }
    assert forall|c: CurrencyId|
        c != currency_id implies #[trigger] after.issuance(c) == before.issuance(c) && after.held(c)
        == before.held(c) by {
        lemma_held_write(before.accounts, (currency_id, who), written, c);
    }
    lemma_held_write(before.accounts, (currency_id, who), written, currency_id);
}

/// A write of the reserved balance touches that account only, and moves what
/// is held by the difference between the balance written and the old reserved
/// balance.
pub proof fn lemma_set_reserved_balance(
    before: Ledger,
    currency_id: CurrencyId,
    who: AccountId,
    balance: Balance,
)
    requires
        before.accounts.dom().finite(),
    ensures
        ({
            let after = before.set_reserved_balance(currency_id, who, balance);
            let data = before.account(currency_id, who);
            &&& same_but_currency(before, after, currency_id)
            &&& forall|a: AccountId|
                a != who ==> #[trigger] after.account(currency_id, a) == before.account(
                    currency_id,
                    a,
                )
            &&& after.account(currency_id, who) == AccountData { reserved: balance, ..data }
            &&& after.issuance(currency_id) == before.issuance(currency_id)
            &&& after.held(currency_id) == before.held(currency_id) - data.reserved + balance
            &&& issuance_moved(before, after, currency_id, 0)
        }),
{
    let after = before.set_reserved_balance(currency_id, who, balance);
    let data = before.account(currency_id, who);
    let written = AccountData { reserved: balance, ..data };
    assert forall|c: CurrencyId|
        c != currency_id implies #[trigger] after.issuance(c) == before.issuance(c) && after.held(c)
        == before.held(c) by {
        lemma_held_write(before.accounts, (currency_id, who), written, c);
    }
    lemma_held_write(before.accounts, (currency_id, who), written, currency_id);
}

/// From `before` to `after` the issuance of `currency_id` has grown by
/// `change`, apart from the dust that was handed to the dust sink in between,
/// and the issuance of no other currency has changed.
pub open spec fn issuance_moved(
    before: Ledger,
    after: Ledger,
    currency_id: CurrencyId,
    change: int,
) -> bool {
    &&& after.issuance(currency_id) + after.dust_removed() == before.issuance(currency_id)
        + before.dust_removed() + change
    &&& forall|c: CurrencyId|
        c != currency_id ==> #[trigger] after.issuance(c) == before.issuance(c)
}

/// Movements of the issuance of one currency add up.
pub proof fn lemma_issuance_moved_chain(
    before: Ledger,
    between: Ledger,
    after: Ledger,
    currency_id: CurrencyId,
    first: int,
    second: int,
)
    requires
        issuance_moved(before, between, currency_id, first),
        issuance_moved(between, after, currency_id, second),
    ensures
        issuance_moved(before, after, currency_id, first + second),
{
    assert forall|c: CurrencyId| c != currency_id implies #[trigger] after.issuance(c)
        == before.issuance(c) by {
        assert(between.issuance(c) == before.issuance(c));
    }
}

/// One more call owed to the host adds its dust to the dust removed.
pub proof fn lemma_dust_after_emit(before: Ledger, call: HostCall)
    ensures
        before.emit(call).dust_removed() == before.dust_removed() + dust_of(call),
{
    assert(before.outbox.push(call).drop_last() =~= before.outbox);
}

/// Handing the calls over to the host leaves a valid ledger valid.
pub proof fn lemma_outbox_taken(before: Ledger)
    ensures
        before.wf() ==> (Ledger { outbox: Seq::empty(), ..before }).wf(),
        before.settled() ==> (Ledger { outbox: Seq::empty(), ..before }).settled(),
{
    let after = Ledger { outbox: Seq::empty(), ..before };
    if before.wf() {
        assert forall|c: CurrencyId| #[trigger] after.issuance(c) == after.held(c) by {
            assert(before.issuance(c) == before.held(c));
        }
        assert forall|c: CurrencyId, a: AccountId|
            (#[trigger] after.account(c, a)).frozen == max_amount(after.locks_of(c, a)) by {
            assert(before.account(c, a).frozen == max_amount(before.locks_of(c, a)));
        }
    }
    if before.settled() {
        assert forall|c: CurrencyId, a: AccountId|
            {
                let free = (#[trigger] after.account(c, a)).free;
                free == 0 || free >= after.existential_deposit
            } by {
            let free = before.account(c, a).free;
            assert(free == 0 || free >= before.existential_deposit);
        }
    }
}

/// A call that is queued for the host touches no balance.
pub proof fn lemma_emit(before: Ledger, call: HostCall, currency_id: CurrencyId)
    requires
        before.accounts.dom().finite(),
    ensures
        same_but_currency(before, before.emit(call), currency_id),
        before.emit(call).issuance(currency_id) == before.issuance(currency_id),
        before.emit(call).held(currency_id) == before.held(currency_id),
        issuance_moved(before, before.emit(call), currency_id, dust_of(call) as int),
{
    let after = before.emit(call);
    lemma_dust_after_emit(before, call);
    assert forall|c: CurrencyId, a: AccountId|
        {
            let now = #[trigger] after.account(c, a);
            let was = before.account(c, a);
            &&& now.frozen == was.frozen
            &&& c != currency_id ==> now == was
            &&& now.free == was.free || now.free == 0 || now.free >= after.existential_deposit
        } by {
        assert(after.account(c, a) == before.account(c, a));
    }
}

/// A write of the issuance of one currency touches no account.
pub proof fn lemma_set_issuance(before: Ledger, currency_id: CurrencyId, issuance: Balance)
    requires
        before.accounts.dom().finite(),
    ensures
        ({
            let after = before.set_issuance(currency_id, issuance);
            &&& same_but_currency(before, after, currency_id)
            &&& after.accounts == before.accounts
            &&& after.issuance(currency_id) == issuance
            &&& after.held(currency_id) == before.held(currency_id)
            &&& issuance_moved(before, after, currency_id, issuance - before.issuance(currency_id))
        }),
{
}

/// Where only the balances of one currency were written, and the issuance of
/// that currency is again what is held of it, a valid ledger has stayed valid,
/// and the existential rule has kept holding.
pub proof fn lemma_wf_after_writes(before: Ledger, after: Ledger, currency_id: CurrencyId)
    requires
        before.wf(),
        same_but_currency(before, after, currency_id),
        after.issuance(currency_id) == after.held(currency_id),
    ensures
        after.wf(),
        before.settled() ==> after.settled(),
{
    assert forall|c: CurrencyId| #[trigger] after.issuance(c) == after.held(c) by {
        if c != currency_id {
            assert(before.issuance(c) == before.held(c));
        }
    }
    assert forall|c: CurrencyId, a: AccountId|
        (#[trigger] after.account(c, a)).frozen == max_amount(after.locks_of(c, a)) by {
        assert(before.account(c, a).frozen == max_amount(before.locks_of(c, a)));
    }
    if before.settled() {
        assert forall|c: CurrencyId, a: AccountId|
            {
                let free = (#[trigger] after.account(c, a)).free;
                free == 0 || free >= after.existential_deposit
            } by {
            let free = before.account(c, a).free;
            assert(free == 0 || free >= before.existential_deposit);
        }
    }
}

/// In a valid ledger no account holds more of a currency than its total
/// issuance, and neither do two different accounts together.
pub proof fn lemma_balances_bounded(
    ledger: Ledger,
    currency_id: CurrencyId,
    first: AccountId,
    second: AccountId,
)
    requires
        ledger.wf(),
    ensures
        ledger.account(currency_id, first).holding() <= ledger.issuance(currency_id),
        first != second ==> ledger.account(currency_id, first).holding() + ledger.account(
            currency_id,
            second,
        ).holding() <= ledger.issuance(currency_id),
{
    assert(ledger.issuance(currency_id) == ledger.held(currency_id));
    lemma_holding_bounded(ledger.accounts, currency_id, first);
    if first != second {
        lemma_two_holdings_bounded(ledger.accounts, currency_id, first, second);
    }
}

/// Writes to the balances of one currency that moved its issuance by
/// `change` apart from dust.
pub open spec fn moved(
    before: Ledger,
    after: Ledger,
    currency_id: CurrencyId,
    change: int,
) -> bool {
    &&& same_but_currency(before, after, currency_id)
    &&& issuance_moved(before, after, currency_id, change)
}

/// Writes after writes are writes, and their movements add up.
pub proof fn lemma_moved_chain(
    before: Ledger,
    between: Ledger,
    after: Ledger,
    currency_id: CurrencyId,
    first: int,
    second: int,
)
    requires
        moved(before, between, currency_id, first),
        moved(between, after, currency_id, second),
    ensures
        moved(before, after, currency_id, first + second),
{
    lemma_same_but_currency_chain(before, between, after, currency_id);
    lemma_issuance_moved_chain(before, between, after, currency_id, first, second);
}

/// No writes move nothing.
pub proof fn lemma_moved_nothing(ledger: Ledger, currency_id: CurrencyId)
    requires
        ledger.accounts.dom().finite(),
    ensures
        moved(ledger, ledger, currency_id, 0),
{
}

/// A transfer leaves a valid ledger valid, and leaves the issuance as it was
/// apart from dust.
pub proof fn lemma_transfer(
    before: Ledger,
    currency_id: CurrencyId,
    from: AccountId,
    to: AccountId,
    amount: Balance,
)
    requires
        before.wf(),
    ensures
        before.transfer(currency_id, from, to, amount).0.wf(),
        before.settled() ==> before.transfer(currency_id, from, to, amount).0.settled(),
        moved(before, before.transfer(currency_id, from, to, amount).0, currency_id, 0),
{
    let (after, result) = before.transfer(currency_id, from, to, amount);
    if after != before {
        let from_free = before.account(currency_id, from).free;
        let to_free = before.account(currency_id, to).free;
        let event = HostCall::DepositEvent(Event::Transferred(currency_id, from, to, amount));
        lemma_balances_bounded(before, currency_id, from, to);
        let taken = before.set_free_balance(currency_id, from, (from_free - amount) as Balance);
        lemma_set_free_balance(before, currency_id, from, (from_free - amount) as Balance);
        let given = taken.set_free_balance(currency_id, to, (to_free + amount) as Balance);
        lemma_set_free_balance(taken, currency_id, to, (to_free + amount) as Balance);
        lemma_moved_chain(before, taken, given, currency_id, 0, 0);
        lemma_emit(given, event, currency_id);
        lemma_moved_chain(before, given, after, currency_id, 0, 0);
        lemma_wf_after_writes(before, after, currency_id);
    } else {
        lemma_moved_nothing(before, currency_id);
    }
}

/// Whether a deposit changes the ledger: the amount is not zero, the
/// issuance has room for it, and it is not an amount under the existential
/// deposit paid to an account without free balance.
pub open spec fn deposit_takes_effect(
    before: Ledger,
    currency_id: CurrencyId,
    who: AccountId,
    amount: Balance,
) -> bool {
    &&& amount != 0
    &&& before.issuance(currency_id) + amount <= Balance::MAX
    &&& !(before.account(currency_id, who).free == 0 && amount < before.existential_deposit)
}

/// A deposit leaves a valid ledger valid. Where it takes effect, it adds the
/// amount to the issuance, apart from dust; otherwise it changes nothing.
pub proof fn lemma_deposit(before: Ledger, currency_id: CurrencyId, who: AccountId, amount: Balance)
    requires
        before.wf(),
    ensures
        before.deposit(currency_id, who, amount).0.wf(),
        before.settled() ==> before.deposit(currency_id, who, amount).0.settled(),
        deposit_takes_effect(before, currency_id, who, amount) ==> moved(
            before,
            before.deposit(currency_id, who, amount).0,
            currency_id,
            amount as int,
        ),
        !deposit_takes_effect(before, currency_id, who, amount) ==> before.deposit(
            currency_id,
            who,
            amount,
        ).0 == before,
{
    let (after, result) = before.deposit(currency_id, who, amount);
    if deposit_takes_effect(before, currency_id, who, amount) {
        let free = before.account(currency_id, who).free;
        let issued = (before.issuance(currency_id) + amount) as Balance;
        lemma_balances_bounded(before, currency_id, who, who);
        let minted = before.set_issuance(currency_id, issued);
        lemma_set_issuance(before, currency_id, issued);
        lemma_set_free_balance(minted, currency_id, who, (free + amount) as Balance);
        lemma_moved_chain(before, minted, after, currency_id, amount as int, 0);
        lemma_wf_after_writes(before, after, currency_id);
    }
}

/// A withdrawal leaves a valid ledger valid. Where it is accepted, it takes
/// the amount from the issuance, apart from dust; where it is refused, it
/// changes nothing.
pub proof fn lemma_withdraw(
    before: Ledger,
    currency_id: CurrencyId,
    who: AccountId,
    amount: Balance,
)
    requires
        before.wf(),
    ensures
        before.withdraw(currency_id, who, amount).0.wf(),
        before.settled() ==> before.withdraw(currency_id, who, amount).0.settled(),
        before.withdraw(currency_id, who, amount).1 is Ok ==> moved(
            before,
            before.withdraw(currency_id, who, amount).0,
            currency_id,
            -(amount as int),
        ),
        before.withdraw(currency_id, who, amount).1 is Err ==> before.withdraw(
            currency_id,
            who,
            amount,
        ).0 == before,
{
    let (after, result) = before.withdraw(currency_id, who, amount);
    if result is Ok && amount != 0 {
        let free = before.account(currency_id, who).free;
        let issued = (before.issuance(currency_id) - amount) as Balance;
        lemma_balances_bounded(before, currency_id, who, who);
        let burnt = before.set_issuance(currency_id, issued);
        lemma_set_issuance(before, currency_id, issued);
        lemma_set_free_balance(burnt, currency_id, who, (free - amount) as Balance);
        lemma_moved_chain(before, burnt, after, currency_id, -(amount as int), 0);
        lemma_wf_after_writes(before, after, currency_id);
    } else {
        lemma_moved_nothing(before, currency_id);
    }
}

/// A slash leaves a valid ledger valid, returns no more than was asked for,
/// and takes from the issuance what it took from the account, apart from
/// dust.
pub proof fn lemma_slash(before: Ledger, currency_id: CurrencyId, who: AccountId, amount: Balance)
    requires
        before.wf(),
    ensures
        before.slash(currency_id, who, amount).0.wf(),
        before.settled() ==> before.slash(currency_id, who, amount).0.settled(),
        before.slash(currency_id, who, amount).1 <= amount,
        moved(
            before,
            before.slash(currency_id, who, amount).0,
            currency_id,
            before.slash(currency_id, who, amount).1 - amount,
        ),
{
    let (after, leftover) = before.slash(currency_id, who, amount);
    if amount != 0 {
        let data = before.account(currency_id, who);
        let from_free = smaller(data.free, amount);
        let remaining = (amount - from_free) as Balance;
        let from_reserved = smaller(data.reserved, remaining);
        lemma_balances_bounded(before, currency_id, who, who);
        let free_taken = if from_free == 0 {
            before
        } else {
            before.set_free_balance(currency_id, who, (data.free - from_free) as Balance)
        };
        if from_free != 0 {
            lemma_set_free_balance(before, currency_id, who, (data.free - from_free) as Balance);
        } else {
            lemma_moved_nothing(before, currency_id);
        }
        let reserved_taken = if remaining == 0 {
            free_taken
        } else {
            free_taken.set_reserved_balance(
                currency_id,
                who,
                (data.reserved - from_reserved) as Balance,
            )
        };
        if remaining != 0 {
            lemma_set_reserved_balance(
                free_taken,
                currency_id,
                who,
                (data.reserved - from_reserved) as Balance,
            );
        } else {
            lemma_moved_nothing(free_taken, currency_id);
        }
        lemma_moved_chain(before, free_taken, reserved_taken, currency_id, 0, 0);
        let issued = (reserved_taken.issuance(currency_id) - (amount - leftover)) as Balance;
        lemma_set_issuance(reserved_taken, currency_id, issued);
        lemma_moved_chain(before, reserved_taken, after, currency_id, 0, leftover - amount);
        lemma_wf_after_writes(before, after, currency_id);
    } else {
        lemma_moved_nothing(before, currency_id);
    }
}

/// A reservation leaves a valid ledger valid, and leaves the issuance as it
/// was apart from dust.
pub proof fn lemma_reserve(before: Ledger, currency_id: CurrencyId, who: AccountId, value: Balance)
    requires
        before.wf(),
    ensures
        before.reserve(currency_id, who, value).0.wf(),
        before.settled() ==> before.reserve(currency_id, who, value).0.settled(),
        moved(before, before.reserve(currency_id, who, value).0, currency_id, 0),
{
    let (after, result) = before.reserve(currency_id, who, value);
    if after != before {
        let data = before.account(currency_id, who);
        lemma_balances_bounded(before, currency_id, who, who);
        let taken = before.set_free_balance(currency_id, who, (data.free - value) as Balance);
        lemma_set_free_balance(before, currency_id, who, (data.free - value) as Balance);
        lemma_set_reserved_balance(taken, currency_id, who, (data.reserved + value) as Balance);
        lemma_moved_chain(before, taken, after, currency_id, 0, 0);
        lemma_wf_after_writes(before, after, currency_id);
    } else {
        lemma_moved_nothing(before, currency_id);
    }
}

/// Unreserving leaves a valid ledger valid, returns no more than was asked
/// for, and leaves the issuance as it was apart from dust.
pub proof fn lemma_unreserve(
    before: Ledger,
    currency_id: CurrencyId,
    who: AccountId,
    value: Balance,
)
    requires
        before.wf(),
    ensures
        before.unreserve(currency_id, who, value).0.wf(),
        before.settled() ==> before.unreserve(currency_id, who, value).0.settled(),
        before.unreserve(currency_id, who, value).1 <= value,
        moved(before, before.unreserve(currency_id, who, value).0, currency_id, 0),
{
    let (after, leftover) = before.unreserve(currency_id, who, value);
    if value != 0 {
        let data = before.account(currency_id, who);
        let actual = smaller(data.reserved, value);
        lemma_balances_bounded(before, currency_id, who, who);
        let released = before.set_reserved_balance(
            currency_id,
            who,
            (data.reserved - actual) as Balance,
        );
        lemma_set_reserved_balance(before, currency_id, who, (data.reserved - actual) as Balance);
        lemma_set_free_balance(released, currency_id, who, (data.free + actual) as Balance);
        lemma_moved_chain(before, released, after, currency_id, 0, 0);
        lemma_wf_after_writes(before, after, currency_id);
    } else {
        lemma_moved_nothing(before, currency_id);
    }
}

/// A slash of the reserved balance leaves a valid ledger valid, returns no
/// more than was asked for, and takes from the issuance what it took from the
/// account.
pub proof fn lemma_slash_reserved(
    before: Ledger,
    currency_id: CurrencyId,
    who: AccountId,
    value: Balance,
)
    requires
        before.wf(),
    ensures
        before.slash_reserved(currency_id, who, value).0.wf(),
        before.settled() ==> before.slash_reserved(currency_id, who, value).0.settled(),
        before.slash_reserved(currency_id, who, value).1 <= value,
        moved(
            before,
            before.slash_reserved(currency_id, who, value).0,
            currency_id,
            before.slash_reserved(currency_id, who, value).1 - value,
        ),
        before.slash_reserved(currency_id, who, value).0.outbox == before.outbox,
{
    let (after, leftover) = before.slash_reserved(currency_id, who, value);
    if value != 0 {
        let reserved = before.account(currency_id, who).reserved;
        let actual = smaller(reserved, value);
        lemma_balances_bounded(before, currency_id, who, who);
        let taken = before.set_reserved_balance(currency_id, who, (reserved - actual) as Balance);
        lemma_set_reserved_balance(before, currency_id, who, (reserved - actual) as Balance);
        lemma_set_issuance(
            taken,
            currency_id,
            (before.issuance(currency_id) - actual) as Balance,
        );
        lemma_moved_chain(before, taken, after, currency_id, 0, -(actual as int));
        lemma_wf_after_writes(before, after, currency_id);
    } else {
        lemma_moved_nothing(before, currency_id);
    }
}

/// A repatriation leaves a valid ledger valid, and leaves the issuance as it
/// was apart from dust.
pub proof fn lemma_repatriate_reserved(
    before: Ledger,
    currency_id: CurrencyId,
    slashed: AccountId,
    beneficiary: AccountId,
    value: Balance,
    status: BalanceStatus,
)
    requires
        before.wf(),
    ensures
        before.repatriate_reserved(currency_id, slashed, beneficiary, value, status).0.wf(),
        before.settled() ==> before.repatriate_reserved(
            currency_id,
            slashed,
            beneficiary,
            value,
            status,
        ).0.settled(),
        moved(
            before,
            before.repatriate_reserved(currency_id, slashed, beneficiary, value, status).0,
            currency_id,
            0,
        ),
{
    let (after, result) = before.repatriate_reserved(
        currency_id,
        slashed,
        beneficiary,
        value,
        status,
    );
    if value == 0 {
        lemma_moved_nothing(before, currency_id);
    } else if slashed == beneficiary {
        lemma_unreserve(before, currency_id, slashed, value);
        lemma_moved_nothing(before, currency_id);
    } else {
        let from = before.account(currency_id, slashed);
        let to = before.account(currency_id, beneficiary);
        let actual = smaller(from.reserved, value);
        lemma_balances_bounded(before, currency_id, slashed, beneficiary);
        let paid = match status {
            BalanceStatus::Free => before.set_free_balance(
                currency_id,
                beneficiary,
                (to.free + actual) as Balance,
            ),
            BalanceStatus::Reserved => before.set_reserved_balance(
                currency_id,
                beneficiary,
                (to.reserved + actual) as Balance,
            ),
        };
        match status {
            BalanceStatus::Free => {
                lemma_set_free_balance(
                    before,
                    currency_id,
                    beneficiary,
                    (to.free + actual) as Balance,
                );
            },
            BalanceStatus::Reserved => {
                lemma_set_reserved_balance(
                    before,
                    currency_id,
                    beneficiary,
                    (to.reserved + actual) as Balance,
                );
            },
        }
        lemma_set_reserved_balance(paid, currency_id, slashed, (from.reserved - actual) as Balance);
        lemma_moved_chain(before, paid, after, currency_id, 0, 0);
        lemma_wf_after_writes(before, after, currency_id);
    }
}

/// Replacing the locks of an account by locks with distinct names leaves a
/// valid ledger valid, and leaves every free and reserved balance and every
/// issuance as it was.
pub proof fn lemma_update_locks(
    before: Ledger,
    currency_id: CurrencyId,
    who: AccountId,
    locks: Seq<BalanceLock>,
)
    requires
        before.wf(),
        distinct_ids(locks),
    ensures
        ({
            let after = before.update_locks(currency_id, who, locks);
            &&& after.wf()
            &&& before.settled() ==> after.settled()
            &&& after.total_issuance == before.total_issuance
            &&& after.locks_of(currency_id, who) == locks
            &&& forall|c: CurrencyId, a: AccountId|
                {
                    let now = #[trigger] after.account(c, a);
                    let was = before.account(c, a);
                    &&& now.free == was.free
                    &&& now.reserved == was.reserved
                    &&& (c, a) != (currency_id, who) ==> now == was && after.locks_of(c, a)
                        == before.locks_of(c, a)
                }
        }),
{
    let after = before.update_locks(currency_id, who, locks);
    let key = (currency_id, who);
    let data = before.account(currency_id, who);
    let written = AccountData { frozen: max_amount(locks), ..data };
    assert(after.accounts == before.accounts.insert(key, written));
    assert forall|c: CurrencyId| #[trigger] after.issuance(c) == after.held(c) by {
        lemma_held_write(before.accounts, key, written, c);
        assert(before.issuance(c) == before.held(c));
    }
    assert forall|c: CurrencyId, a: AccountId|
        {
            let now = #[trigger] after.account(c, a);
            let was = before.account(c, a);
            &&& now.free == was.free
            &&& now.reserved == was.reserved
            &&& (c, a) != (currency_id, who) ==> now == was && after.locks_of(c, a)
                == before.locks_of(c, a)
        } by {}
    assert forall|c: CurrencyId, a: AccountId|
        (#[trigger] after.account(c, a)).frozen == max_amount(after.locks_of(c, a)) by {
        assert(before.account(c, a).frozen == max_amount(before.locks_of(c, a)));
    }
    assert forall|k: AccountKey| #[trigger]
        after.locks.contains_key(k) implies after.locks[k].len() > 0 && distinct_ids(
        after.locks[k],
    ) by {
        if k != key {
            assert(before.locks.contains_key(k));
        }
    }
    if before.settled() {
        assert forall|c: CurrencyId, a: AccountId|
            {
                let free = (#[trigger] after.account(c, a)).free;
                free == 0 || free >= after.existential_deposit
            } by {
            let free = before.account(c, a).free;
            assert(free == 0 || free >= before.existential_deposit);
        }
    }
}

/// Setting, extending and removing a lock leave a valid ledger valid.
pub proof fn lemma_lock_operations(
    before: Ledger,
    lock_id: LockIdentifier,
    currency_id: CurrencyId,
    who: AccountId,
    amount: Balance,
)
    requires
        before.wf(),
    ensures
        before.set_lock(lock_id, currency_id, who, amount).wf(),
        before.extend_lock(lock_id, currency_id, who, amount).wf(),
        before.remove_lock(lock_id, currency_id, who).wf(),
        before.settled() ==> before.set_lock(lock_id, currency_id, who, amount).settled()
            && before.extend_lock(lock_id, currency_id, who, amount).settled()
            && before.remove_lock(lock_id, currency_id, who).settled(),
{
    let locks = before.locks_of(currency_id, who);
    assert(distinct_ids(locks)) by {
        if before.locks.contains_key((currency_id, who)) {
            assert(distinct_ids(before.locks[(currency_id, who)]));
        }
    }
    lemma_with_lock_distinct(locks, lock_id, amount);
    lemma_without_lock_distinct(locks, lock_id);
    lemma_update_locks(before, currency_id, who, with_lock(locks, lock_id, amount));
    lemma_update_locks(before, currency_id, who, with_extended_lock(locks, lock_id, amount));
    lemma_update_locks(before, currency_id, who, without_lock(locks, lock_id));
}

/// The initial balances of a prefix sum to no more than those of the whole.
pub proof fn lemma_endowed_total_grows(endowed: Seq<Endowment>, n: int, currency_id: CurrencyId)
    requires
        0 <= n <= endowed.len(),
    ensures
        endowed_total(endowed.take(n), currency_id) <= endowed_total(endowed, currency_id),
    decreases endowed.len() - n,
{
    if n < endowed.len() {
        lemma_endowed_total_grows(endowed, n + 1, currency_id);
        assert(endowed.take(n + 1).drop_last() =~= endowed.take(n));
    } else {
        assert(endowed.take(n) =~= endowed);
    }
}

/// What the initial ledger holds: the issuance of every currency is the sum
/// of its initial balances; the accounts with a record are those that were
/// given a balance; nothing is reserved, frozen or locked, and the host is
/// owed nothing.
pub open spec fn genesis_contents(
    ledger: Ledger,
    existential_deposit: Balance,
    endowed: Seq<Endowment>,
) -> bool {
    &&& ledger.existential_deposit == existential_deposit
    &&& ledger.locks == Map::<AccountKey, Seq<BalanceLock>>::empty()
    &&& ledger.outbox == Seq::<HostCall>::empty()
    &&& ledger.accounts.dom().finite()
    &&& forall|c: CurrencyId| #[trigger] ledger.issuance(c) == endowed_total(endowed, c)
    &&& forall|c: CurrencyId, a: AccountId|
        {
            let data = #[trigger] ledger.account(c, a);
            &&& data.reserved == 0
            &&& data.frozen == 0
            &&& ledger.accounts.contains_key((c, a)) <==> endowed_in(endowed, c, a)
        }
}

/// Initial balances that fit leave out none that does not.
proof fn lemma_endowment_fits_earlier(endowed: Seq<Endowment>)
    requires
        endowment_fits(endowed),
        endowed.len() > 0,
    ensures
        endowment_fits(endowed.drop_last()),
{
    assert forall|c: CurrencyId| endowed_total(endowed.drop_last(), c) <= Balance::MAX by {
        assert(endowed_total(endowed, c) <= Balance::MAX);
    }
}

/// The initial ledger holds what the initial balances say.
pub proof fn lemma_genesis_contents(existential_deposit: Balance, endowed: Seq<Endowment>)
    requires
        endowment_fits(endowed),
    ensures
        genesis_contents(
            Ledger::genesis(existential_deposit, endowed),
            existential_deposit,
            endowed,
        ),
    decreases endowed.len(),
{
    let ledger = Ledger::genesis(existential_deposit, endowed);
    if endowed.len() == 0 {
        assert(ledger == Ledger::empty(existential_deposit));
        assert forall|c: CurrencyId, a: AccountId|
            {
                let data = #[trigger] ledger.account(c, a);
                &&& data.reserved == 0
                &&& data.frozen == 0
                &&& ledger.accounts.contains_key((c, a)) <==> endowed_in(endowed, c, a)
            } by {}
    } else {
        let earlier = endowed.drop_last();
        let (who, currency_id, balance) = endowed.last();
        let before = Ledger::genesis(existential_deposit, earlier);
        lemma_endowment_fits_earlier(endowed);
        lemma_genesis_contents(existential_deposit, earlier);
        assert(ledger == before.endow(who, currency_id, balance));
        assert(before.issuance(currency_id) == endowed_total(earlier, currency_id));
        assert(endowed_total(endowed, currency_id) <= Balance::MAX);
        assert forall|c: CurrencyId| #[trigger] ledger.issuance(c) == endowed_total(
            endowed,
            c,
        ) by {
            assert(before.issuance(c) == endowed_total(earlier, c));
        }
        assert forall|c: CurrencyId, a: AccountId|
            {
                let data = #[trigger] ledger.account(c, a);
                &&& data.reserved == 0
                &&& data.frozen == 0
                &&& ledger.accounts.contains_key((c, a)) <==> endowed_in(endowed, c, a)
            } by {
            assert(before.account(c, a).reserved == 0);
            if ledger.accounts.contains_key((c, a)) {
                if (c, a) == (currency_id, who) {
                    assert(endowed[endowed.len() - 1].1 == c);
                } else {
                    let i = choose|i: int|
                        0 <= i < earlier.len() && (#[trigger] earlier[i]).1 == c && earlier[i].0
                            == a;
                    assert(endowed[i] == earlier[i]);
                }
            }
            if endowed_in(endowed, c, a) {
                let i = choose|i: int|
                    0 <= i < endowed.len() && (#[trigger] endowed[i]).1 == c && endowed[i].0 == a;
                if i < earlier.len() {
                    assert(earlier[i] == endowed[i]);
                }
            }
        }
    }
}

/// Where no account was given two balances in one currency, the initial
/// ledger is valid.
pub proof fn lemma_genesis_wf(existential_deposit: Balance, endowed: Seq<Endowment>)
    requires
        endowment_fits(endowed),
        endowed_once(endowed),
    ensures
        Ledger::genesis(existential_deposit, endowed).wf(),
    decreases endowed.len(),
{
    let ledger = Ledger::genesis(existential_deposit, endowed);
    lemma_genesis_contents(existential_deposit, endowed);
    if endowed.len() == 0 {
        assert forall|c: CurrencyId| #[trigger] ledger.issuance(c) == ledger.held(c) by {}
    } else {
        let earlier = endowed.drop_last();
        let (who, currency_id, balance) = endowed.last();
        let before = Ledger::genesis(existential_deposit, earlier);
        let written = AccountData { free: balance, ..before.account(currency_id, who) };
        lemma_endowment_fits_earlier(endowed);
        lemma_genesis_contents(existential_deposit, earlier);
        assert(endowed_once(earlier)) by {
            assert forall|i: int, j: int| 0 <= i < j < earlier.len() implies (
                earlier[i].1,
                earlier[i].0,
            ) != (earlier[j].1, earlier[j].0) by {
                assert(earlier[i] == endowed[i] && earlier[j] == endowed[j]);
            }
        }
        lemma_genesis_wf(existential_deposit, earlier);
        assert(!before.accounts.contains_key((currency_id, who))) by {
            if before.accounts.contains_key((currency_id, who)) {
                assert(before.account(currency_id, who).reserved == 0);
                let i = choose|i: int|
                    0 <= i < earlier.len() && (#[trigger] earlier[i]).1 == currency_id
                        && earlier[i].0 == who;
                assert(earlier[i] == endowed[i]);
                assert((endowed[i].1, endowed[i].0) != (
                    endowed[endowed.len() - 1].1,
                    endowed[endowed.len() - 1].0,
                ));
            }
        }
        assert(before.issuance(currency_id) == endowed_total(earlier, currency_id));
        assert(endowed_total(endowed, currency_id) <= Balance::MAX);
        assert forall|c: CurrencyId| #[trigger] ledger.issuance(c) == ledger.held(c) by {
            lemma_held_write(before.accounts, (currency_id, who), written, c);
            assert(before.issuance(c) == before.held(c));
        }
        assert forall|c: CurrencyId, a: AccountId|
            (#[trigger] ledger.account(c, a)).frozen == max_amount(ledger.locks_of(c, a)) by {}
    }
}

/// Where every initial balance is zero or at least the existential deposit,
/// the existential rule holds of the initial ledger.
pub proof fn lemma_genesis_settled(existential_deposit: Balance, endowed: Seq<Endowment>)
    requires
        endowed_settled(existential_deposit, endowed),
    ensures
        Ledger::genesis(existential_deposit, endowed).settled(),
        Ledger::genesis(existential_deposit, endowed).existential_deposit == existential_deposit,
    decreases endowed.len(),
{
    let ledger = Ledger::genesis(existential_deposit, endowed);
    if endowed.len() > 0 {
        let earlier = endowed.drop_last();
        let before = Ledger::genesis(existential_deposit, earlier);
        assert forall|i: int| 0 <= i < earlier.len() implies (#[trigger] earlier[i]).2 == 0
            || earlier[i].2 >= existential_deposit by {
            assert(earlier[i] == endowed[i]);
        }
        lemma_genesis_settled(existential_deposit, earlier);
        assert(endowed[endowed.len() - 1].2 == endowed.last().2);
        assert forall|c: CurrencyId, a: AccountId|
            {
                let free = (#[trigger] ledger.account(c, a)).free;
                free == 0 || free >= ledger.existential_deposit
            } by {
            let free = before.account(c, a).free;
            assert(free == 0 || free >= before.existential_deposit);
        }
    }
}

/// A dispatched call leaves a valid ledger valid.
pub proof fn lemma_dispatch(before: Ledger, origin: Origin, call: Call)
    requires
        before.wf(),
    ensures
        before.dispatch(origin, call).0.wf(),
        before.settled() ==> before.dispatch(origin, call).0.settled(),
{
    match origin.signer() {
        None => {},
        Some(from) => match call {
            Call::Transfer { dest, currency_id, amount } => {
                lemma_transfer(before, currency_id, from, dest, amount);
            },
            Call::TransferAll { dest, currency_id } => {
                lemma_transfer(
                    before,
                    currency_id,
                    from,
                    dest,
                    before.account(currency_id, from).free,
                );
            },
        },
    }
}

} // verus!
