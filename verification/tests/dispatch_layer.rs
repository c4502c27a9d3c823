use multicurrency::adapter::BasicCurrencyAdapter;
use multicurrency::basic::{
    BasicCurrency, BasicCurrencyExtended, BasicLockableCurrency, BasicReservableCurrency,
};
use multicurrency::currencies::{Call, Currencies, Event};
use multicurrency::currency::Currency;
use multicurrency::ledger::HostCall;
use multicurrency::pallet::{
    ExistenceRequirement, PalletCurrency, PalletLockableCurrency, PalletReservableCurrency,
    WithdrawReasons,
};
use multicurrency::primitives::{BalanceStatus, Error, Origin};
use multicurrency::tokens::Tokens;
use std::collections::BTreeMap;

const ALICE: u64 = 1;
const BOB: u64 = 2;
const EVA: u64 = 5;
const NATIVE: u32 = 1;
const X: u32 = 2;

/// A host currency that keeps free and reserved balances and records the
/// arguments that only a host currency takes.
#[derive(Default)]
struct Balances {
    free: BTreeMap<u64, u128>,
    reserved: BTreeMap<u64, u128>,
    locks: Vec<([u8; 8], u64, u128, WithdrawReasons)>,
    seen_reasons: Vec<WithdrawReasons>,
    seen_requirements: Vec<ExistenceRequirement>,
    calls: usize,
}

impl Balances {
    fn with(balances: &[(u64, u128)]) -> Self {
        let mut pallet = Balances::default();
        for (who, free) in balances {
            pallet.free.insert(*who, *free);
        }
        pallet
    }

    fn free_of(&self, who: u64) -> u128 {
        *self.free.get(&who).unwrap_or(&0)
    }

    fn reserved_of(&self, who: u64) -> u128 {
        *self.reserved.get(&who).unwrap_or(&0)
    }
}

impl PalletCurrency for Balances {
    fn total_issuance(&self) -> u128 {
        self.free.values().sum::<u128>() + self.reserved.values().sum::<u128>()
    }

    fn total_balance(&self, who: u64) -> u128 {
        self.free_of(who) + self.reserved_of(who)
    }

    fn free_balance(&self, who: u64) -> u128 {
        self.free_of(who)
    }

    fn ensure_can_withdraw(
        &self,
        _who: u64,
        _amount: u128,
        reasons: WithdrawReasons,
        new_balance: u128,
    ) -> Result<(), Error> {
        if reasons == WithdrawReasons::transfer() && new_balance < 10 {
            Err(Error::LiquidityRestrictions)
        } else {
            Ok(())
        }
    }

    fn transfer(
        &mut self,
        source: u64,
        dest: u64,
        value: u128,
        existence_requirement: ExistenceRequirement,
    ) -> Result<(), Error> {
        self.calls += 1;
        self.seen_requirements.push(existence_requirement);
        if self.free_of(source) < value {
            return Err(Error::BalanceTooLow);
        }
        self.free.insert(source, self.free_of(source) - value);
        self.free.insert(dest, self.free_of(dest) + value);
        Ok(())
    }

    fn deposit_creating(&mut self, who: u64, value: u128) {
        self.calls += 1;
        self.free.insert(who, self.free_of(who) + value);
    }

    fn withdraw(
        &mut self,
        who: u64,
        value: u128,
        reasons: WithdrawReasons,
        liveness: ExistenceRequirement,
    ) -> Result<(), Error> {
        self.calls += 1;
        self.seen_reasons.push(reasons);
        self.seen_requirements.push(liveness);
        if self.free_of(who) < value {
            return Err(Error::BalanceTooLow);
        }
        self.free.insert(who, self.free_of(who) - value);
        Ok(())
    }

    fn can_slash(&self, who: u64, value: u128) -> bool {
        self.free_of(who) >= value
    }

    fn slash(&mut self, who: u64, value: u128) -> u128 {
        let taken = value.min(self.free_of(who));
        self.free.insert(who, self.free_of(who) - taken);
        value - taken
    }
}

impl PalletLockableCurrency for Balances {
    fn set_lock(&mut self, id: [u8; 8], who: u64, amount: u128, reasons: WithdrawReasons) {
        self.locks.retain(|lock| lock.0 != id || lock.1 != who);
        self.locks.push((id, who, amount, reasons));
    }

    fn extend_lock(&mut self, id: [u8; 8], who: u64, amount: u128, reasons: WithdrawReasons) {
        self.locks.push((id, who, amount, reasons));
    }

    fn remove_lock(&mut self, id: [u8; 8], who: u64) {
        self.locks.retain(|lock| lock.0 != id || lock.1 != who);
    }
}

impl PalletReservableCurrency for Balances {
    fn can_reserve(&self, who: u64, value: u128) -> bool {
        self.free_of(who) >= value
    }

    fn slash_reserved(&mut self, who: u64, value: u128) -> u128 {
        let taken = value.min(self.reserved_of(who));
        self.reserved.insert(who, self.reserved_of(who) - taken);
        value - taken
    }

    fn reserved_balance(&self, who: u64) -> u128 {
        self.reserved_of(who)
    }

    fn reserve(&mut self, who: u64, value: u128) -> Result<(), Error> {
        if self.free_of(who) < value {
            return Err(Error::BalanceTooLow);
        }
        self.free.insert(who, self.free_of(who) - value);
        self.reserved.insert(who, self.reserved_of(who) + value);
        Ok(())
    }

    fn unreserve(&mut self, who: u64, value: u128) -> u128 {
        let moved = value.min(self.reserved_of(who));
        self.reserved.insert(who, self.reserved_of(who) - moved);
        self.free.insert(who, self.free_of(who) + moved);
        value - moved
    }

    fn repatriate_reserved(
        &mut self,
        slashed: u64,
        beneficiary: u64,
        value: u128,
        status: BalanceStatus,
    ) -> Result<u128, Error> {
        let moved = value.min(self.reserved_of(slashed));
        self.reserved.insert(slashed, self.reserved_of(slashed) - moved);
        match status {
            BalanceStatus::Free => {
                self.free.insert(beneficiary, self.free_of(beneficiary) + moved);
            }
            BalanceStatus::Reserved => {
                self.reserved.insert(beneficiary, self.reserved_of(beneficiary) + moved);
            }
        }
        Ok(value - moved)
    }
}

type Native = BasicCurrencyAdapter<Balances>;

const TRANSFER: WithdrawReasons = WithdrawReasons {
    transaction_payment: false,
    transfer: true,
    reserve: false,
    fee: false,
    tip: false,
};
const TRANSFER_OR_RESERVE: WithdrawReasons = WithdrawReasons {
    transaction_payment: false,
    transfer: true,
    reserve: true,
    fee: false,
    tip: false,
};
const ID: [u8; 8] = *b"LOCK____";

fn start() -> Currencies<Native> {
    let native = BasicCurrencyAdapter::new(Balances::with(&[(ALICE, 100), (BOB, 100)]));
    let multi = Tokens::genesis(2, &vec![(ALICE, X, 100), (BOB, X, 100)]).unwrap();
    Currencies::new(NATIVE, native, multi)
}

fn pallet(currencies: &Currencies<Native>) -> &Balances {
    currencies.native_currency().pallet()
}

#[test]
fn facade_transfer_in_native_currency_goes_to_the_native_provider() {
    let mut currencies = start();
    assert_eq!(currencies.native_currency_id(), NATIVE);
    assert_eq!(currencies.transfer(NATIVE, ALICE, BOB, 50), Ok(()));
    assert_eq!(currencies.free_balance(NATIVE, ALICE), 50);
    assert_eq!(currencies.free_balance(NATIVE, BOB), 150);
    assert_eq!(currencies.native_currency().free_balance(ALICE), 50);
    assert_eq!(currencies.free_balance(X, ALICE), 100);
    assert_eq!(currencies.free_balance(X, BOB), 100);
    assert_eq!(currencies.events(), &vec![Event::Transferred(NATIVE, ALICE, BOB, 50)]);
    assert!(currencies.multi_currency().outbox().is_empty());
}

#[test]
fn facade_transfer_in_other_currency_goes_to_the_engine() {
    let mut currencies = start();
    assert_eq!(currencies.transfer(X, ALICE, BOB, 50), Ok(()));
    assert_eq!(currencies.free_balance(X, ALICE), 50);
    assert_eq!(currencies.free_balance(X, BOB), 150);
    assert_eq!(currencies.free_balance(NATIVE, ALICE), 100);
    assert_eq!(currencies.free_balance(NATIVE, BOB), 100);
    assert_eq!(currencies.total_issuance(X), 200);
    assert_eq!(currencies.events(), &vec![Event::Transferred(X, ALICE, BOB, 50)]);
    assert_eq!(
        currencies.multi_currency().outbox(),
        &vec![HostCall::DepositEvent(multicurrency::ledger::Event::Transferred(X, ALICE, BOB, 50))]
    );
    assert_eq!(pallet(&currencies).calls, 0);
}

#[test]
fn facade_refused_transfer_emits_nothing() {
    let mut currencies = start();
    assert_eq!(currencies.transfer(X, ALICE, EVA, 1), Err(Error::ExistentialDeposit));
    assert_eq!(currencies.transfer(X, ALICE, BOB, 101), Err(Error::BalanceTooLow));
    assert_eq!(currencies.transfer(NATIVE, ALICE, BOB, 101), Err(Error::BalanceTooLow));
    assert!(currencies.events().is_empty());
    assert_eq!(currencies.free_balance(X, ALICE), 100);
    assert_eq!(currencies.free_balance(NATIVE, ALICE), 100);
}

#[test]
fn facade_zero_amounts_short_circuit() {
    let mut currencies = start();
    for currency_id in [NATIVE, X] {
        assert_eq!(currencies.transfer(currency_id, ALICE, BOB, 0), Ok(()));
        assert_eq!(currencies.deposit(currency_id, ALICE, 0), Ok(()));
        assert_eq!(currencies.withdraw(currency_id, ALICE, 0), Ok(()));
    }
    assert!(currencies.events().is_empty());
    assert!(currencies.multi_currency().outbox().is_empty());
    assert_eq!(pallet(&currencies).calls, 0);
}

#[test]
fn facade_transfer_to_oneself_is_reported_by_the_facade_only() {
    let mut currencies = start();
    assert_eq!(currencies.transfer(X, ALICE, ALICE, 5), Ok(()));
    assert_eq!(currencies.events(), &vec![Event::Transferred(X, ALICE, ALICE, 5)]);
    assert!(currencies.multi_currency().outbox().is_empty());
    assert_eq!(currencies.free_balance(X, ALICE), 100);
}

#[test]
fn facade_deposit_and_withdraw() {
    let mut currencies = start();
    assert_eq!(currencies.deposit(X, ALICE, 10), Ok(()));
    assert_eq!(currencies.deposit(NATIVE, ALICE, 20), Ok(()));
    assert_eq!(currencies.withdraw(X, BOB, 30), Ok(()));
    assert_eq!(currencies.withdraw(NATIVE, BOB, 40), Ok(()));
    assert_eq!(currencies.withdraw(X, BOB, 71), Err(Error::BalanceTooLow));
    assert_eq!(currencies.free_balance(X, ALICE), 110);
    assert_eq!(currencies.free_balance(NATIVE, ALICE), 120);
    assert_eq!(currencies.free_balance(X, BOB), 70);
    assert_eq!(currencies.free_balance(NATIVE, BOB), 60);
    assert_eq!(currencies.total_issuance(X), 180);
    assert_eq!(currencies.total_issuance(NATIVE), 180);
    assert_eq!(
        currencies.events(),
        &vec![
            Event::Deposited(X, ALICE, 10),
            Event::Deposited(NATIVE, ALICE, 20),
            Event::Withdrawn(X, BOB, 30),
            Event::Withdrawn(NATIVE, BOB, 40),
        ]
    );
}

#[test]
fn facade_reports_a_deposit_that_the_engine_ignores() {
    let mut currencies = start();
    assert_eq!(currencies.deposit(X, EVA, 1), Ok(()));
    assert_eq!(currencies.free_balance(X, EVA), 0);
    assert_eq!(currencies.total_issuance(X), 200);
    assert!(currencies.multi_currency().outbox().is_empty());
    assert_eq!(currencies.events(), &vec![Event::Deposited(X, EVA, 1)]);
}

#[test]
fn facade_update_balance() {
    let mut currencies = start();
    assert_eq!(currencies.update_balance(X, ALICE, -10), Ok(()));
    assert_eq!(currencies.update_balance(NATIVE, ALICE, 10), Ok(()));
    assert_eq!(currencies.update_balance(X, ALICE, 0), Ok(()));
    assert_eq!(currencies.update_balance(X, ALICE, -91), Err(Error::BalanceTooLow));
    assert_eq!(
        currencies.update_balance(X, ALICE, i128::MIN),
        Err(Error::AmountIntoBalanceFailed)
    );
    assert_eq!(
        currencies.update_balance(NATIVE, ALICE, i128::MIN),
        Err(Error::AmountIntoBalanceFailed)
    );
    assert_eq!(currencies.free_balance(X, ALICE), 90);
    assert_eq!(currencies.free_balance(NATIVE, ALICE), 110);
    assert_eq!(
        currencies.events(),
        &vec![
            Event::BalanceUpdated(X, ALICE, -10),
            Event::BalanceUpdated(NATIVE, ALICE, 10),
            Event::BalanceUpdated(X, ALICE, 0),
        ]
    );
}

#[test]
fn facade_queries_are_routed() {
    let mut currencies = start();
    assert_eq!(currencies.reserve(X, ALICE, 30), Ok(()));
    assert_eq!(currencies.reserve(NATIVE, ALICE, 60), Ok(()));
    assert_eq!(currencies.total_issuance(X), 200);
    assert_eq!(currencies.total_issuance(NATIVE), 200);
    assert_eq!(currencies.total_balance(X, ALICE), 100);
    assert_eq!(currencies.total_balance(NATIVE, ALICE), 100);
    assert_eq!(currencies.free_balance(X, ALICE), 70);
    assert_eq!(currencies.free_balance(NATIVE, ALICE), 40);
    assert_eq!(currencies.reserved_balance(X, ALICE), 30);
    assert_eq!(currencies.reserved_balance(NATIVE, ALICE), 60);
    assert!(currencies.can_slash(X, ALICE, 70));
    assert!(!currencies.can_slash(X, ALICE, 71));
    assert!(currencies.can_slash(NATIVE, ALICE, 40));
    assert!(!currencies.can_slash(NATIVE, ALICE, 41));
    assert!(currencies.can_reserve(X, ALICE, 70));
    assert!(!currencies.can_reserve(X, ALICE, 71));
    assert!(currencies.can_reserve(NATIVE, ALICE, 40));
    assert!(!currencies.can_reserve(NATIVE, ALICE, 41));
    assert_eq!(currencies.ensure_can_withdraw(X, ALICE, 70), Ok(()));
    assert_eq!(currencies.ensure_can_withdraw(X, ALICE, 71), Err(Error::BalanceTooLow));
    assert_eq!(currencies.ensure_can_withdraw(NATIVE, ALICE, 30), Ok(()));
    assert_eq!(
        currencies.ensure_can_withdraw(NATIVE, ALICE, 31),
        Err(Error::LiquidityRestrictions)
    );
    assert_eq!(currencies.ensure_can_withdraw(NATIVE, ALICE, 41), Err(Error::BalanceTooLow));
    assert!(currencies.events().is_empty());
}

#[test]
fn facade_slash_and_reserves_are_routed_without_events() {
    let mut currencies = start();
    assert_eq!(currencies.reserve(X, ALICE, 30), Ok(()));
    assert_eq!(currencies.reserve(NATIVE, ALICE, 60), Ok(()));
    assert_eq!(currencies.slash(X, ALICE, 80), 0);
    assert_eq!(currencies.slash(NATIVE, ALICE, 80), 40);
    assert_eq!(currencies.free_balance(X, ALICE), 0);
    assert_eq!(currencies.reserved_balance(X, ALICE), 20);
    assert_eq!(currencies.free_balance(NATIVE, ALICE), 0);
    assert_eq!(currencies.reserved_balance(NATIVE, ALICE), 60);
    assert_eq!(currencies.unreserve(X, ALICE, 5), 0);
    assert_eq!(currencies.unreserve(NATIVE, ALICE, 5), 0);
    assert_eq!(currencies.slash_reserved(X, ALICE, 20), 5);
    assert_eq!(currencies.slash_reserved(NATIVE, ALICE, 20), 0);
    assert_eq!(currencies.reserved_balance(X, ALICE), 0);
    assert_eq!(currencies.reserved_balance(NATIVE, ALICE), 35);
    assert_eq!(
        currencies.repatriate_reserved(NATIVE, ALICE, BOB, 40, BalanceStatus::Reserved),
        Ok(5)
    );
    assert_eq!(currencies.reserved_balance(NATIVE, BOB), 35);
    assert_eq!(currencies.reserve(X, BOB, 10), Ok(()));
    assert_eq!(currencies.repatriate_reserved(X, BOB, ALICE, 4, BalanceStatus::Free), Ok(0));
    assert_eq!(currencies.free_balance(X, ALICE), 9);
    assert_eq!(currencies.reserved_balance(X, BOB), 6);
    assert_eq!(currencies.reserve(X, ALICE, 10), Err(Error::BalanceTooLow));
    assert!(currencies.events().is_empty());
}

#[test]
fn facade_locks_are_routed() {
    let mut currencies = start();
    currencies.set_lock(ID, X, ALICE, 80);
    currencies.set_lock(ID, NATIVE, BOB, 7);
    assert_eq!(currencies.multi_currency().accounts(X, ALICE).frozen, 80);
    assert_eq!(currencies.multi_currency().locks(NATIVE, BOB).len(), 0);
    assert_eq!(pallet(&currencies).locks, vec![(ID, BOB, 7, TRANSFER_OR_RESERVE)]);
    assert_eq!(currencies.transfer(X, ALICE, BOB, 21), Err(Error::LiquidityRestrictions));
    assert_eq!(currencies.transfer(X, ALICE, BOB, 20), Ok(()));
    currencies.extend_lock(ID, X, ALICE, 90);
    currencies.extend_lock(ID, NATIVE, BOB, 9);
    assert_eq!(currencies.multi_currency().accounts(X, ALICE).frozen, 90);
    assert_eq!(
        pallet(&currencies).locks,
        vec![(ID, BOB, 7, TRANSFER_OR_RESERVE), (ID, BOB, 9, TRANSFER_OR_RESERVE)]
    );
    currencies.remove_lock(ID, X, ALICE);
    currencies.remove_lock(ID, NATIVE, BOB);
    assert_eq!(currencies.multi_currency().accounts(X, ALICE).frozen, 0);
    assert!(pallet(&currencies).locks.is_empty());
    assert_eq!(
        currencies.take_outbox(),
        vec![
            HostCall::IncRef(ALICE),
            HostCall::DepositEvent(multicurrency::ledger::Event::Transferred(X, ALICE, BOB, 20)),
            HostCall::DecRef(ALICE),
        ]
    );
    assert!(currencies.multi_currency().outbox().is_empty());
}

#[test]
fn take_events_hands_the_events_over() {
    let mut currencies = start();
    assert_eq!(currencies.transfer(X, ALICE, BOB, 50), Ok(()));
    assert_eq!(currencies.take_events(), vec![Event::Transferred(X, ALICE, BOB, 50)]);
    assert!(currencies.events().is_empty());
    assert_eq!(currencies.free_balance(X, BOB), 150);
}

#[test]
fn dispatched_transfer_needs_a_signed_origin() {
    let mut currencies = start();
    let call = Call::Transfer { dest: BOB, currency_id: X, amount: 50 };
    assert_eq!(currencies.dispatch(Origin::Root, call), Err(Error::NoPermission));
    assert_eq!(currencies.dispatch(Origin::Nobody, call), Err(Error::NoPermission));
    assert!(currencies.events().is_empty());
    assert_eq!(currencies.free_balance(X, ALICE), 100);
    assert_eq!(currencies.dispatch(Origin::Signed(ALICE), call), Ok(()));
    assert_eq!(currencies.free_balance(X, ALICE), 50);
    assert_eq!(currencies.free_balance(X, BOB), 150);
    assert_eq!(currencies.events(), &vec![Event::Transferred(X, ALICE, BOB, 50)]);
}

#[test]
fn dispatched_native_transfer_goes_straight_to_the_native_provider() {
    let mut currencies = start();
    let call = Call::TransferNativeCurrency { dest: BOB, amount: 50 };
    assert_eq!(currencies.dispatch(Origin::Root, call), Err(Error::NoPermission));
    assert_eq!(currencies.dispatch(Origin::Signed(ALICE), call), Ok(()));
    assert_eq!(currencies.free_balance(NATIVE, ALICE), 50);
    assert_eq!(currencies.free_balance(NATIVE, BOB), 150);
    assert_eq!(currencies.free_balance(X, ALICE), 100);
    let nothing = Call::TransferNativeCurrency { dest: BOB, amount: 0 };
    assert_eq!(currencies.dispatch(Origin::Signed(ALICE), nothing), Ok(()));
    assert_eq!(pallet(&currencies).calls, 2);
    let too_much = Call::TransferNativeCurrency { dest: BOB, amount: 51 };
    assert_eq!(currencies.dispatch(Origin::Signed(ALICE), too_much), Err(Error::BalanceTooLow));
    assert_eq!(
        currencies.events(),
        &vec![
            Event::Transferred(NATIVE, ALICE, BOB, 50),
            Event::Transferred(NATIVE, ALICE, BOB, 0),
        ]
    );
}

#[test]
fn dispatched_update_balance_needs_root() {
    let mut currencies = start();
    let call = Call::UpdateBalance { who: ALICE, currency_id: X, amount: -10 };
    assert_eq!(currencies.dispatch(Origin::Signed(ALICE), call), Err(Error::NoPermission));
    assert_eq!(currencies.dispatch(Origin::Nobody, call), Err(Error::NoPermission));
    assert_eq!(currencies.free_balance(X, ALICE), 100);
    assert_eq!(currencies.dispatch(Origin::Root, call), Ok(()));
    assert_eq!(currencies.free_balance(X, ALICE), 90);
    let native = Call::UpdateBalance { who: ALICE, currency_id: NATIVE, amount: 10 };
    assert_eq!(currencies.dispatch(Origin::Root, native), Ok(()));
    assert_eq!(currencies.free_balance(NATIVE, ALICE), 110);
    assert_eq!(
        currencies.events(),
        &vec![Event::BalanceUpdated(X, ALICE, -10), Event::BalanceUpdated(NATIVE, ALICE, 10)]
    );
}

#[test]
fn currency_binds_the_facade_to_one_currency() {
    let mut currency = Currency::new(X, start());
    assert_eq!(currency.currency_id(), X);
    assert_eq!(currency.total_issuance(), 200);
    assert_eq!(currency.transfer(ALICE, BOB, 50), Ok(()));
    assert_eq!(currency.free_balance(ALICE), 50);
    assert_eq!(currency.deposit(ALICE, 5), Ok(()));
    assert_eq!(currency.withdraw(BOB, 10), Ok(()));
    assert_eq!(currency.update_balance(BOB, -40), Ok(()));
    assert_eq!(currency.free_balance(BOB), 100);
    assert_eq!(currency.reserve(BOB, 30), Ok(()));
    assert_eq!(currency.reserved_balance(BOB), 30);
    assert_eq!(currency.total_balance(BOB), 100);
    assert!(currency.can_reserve(BOB, 70));
    assert!(!currency.can_reserve(BOB, 71));
    assert!(currency.can_slash(BOB, 70));
    assert_eq!(currency.ensure_can_withdraw(BOB, 71), Err(Error::BalanceTooLow));
    assert_eq!(currency.slash(BOB, 80), 0);
    assert_eq!(currency.slash_reserved(BOB, 30), 10);
    assert_eq!(currency.total_balance(BOB), 0);
    currency.set_lock(ID, ALICE, 50);
    assert_eq!(currency.withdraw(ALICE, 6), Err(Error::LiquidityRestrictions));
    currency.extend_lock(ID, ALICE, 20);
    assert_eq!(currency.withdraw(ALICE, 6), Err(Error::LiquidityRestrictions));
    currency.remove_lock(ID, ALICE);
    assert_eq!(currency.reserve(ALICE, 6), Ok(()));
    assert_eq!(currency.unreserve(ALICE, 2), 0);
    assert_eq!(currency.repatriate_reserved(ALICE, BOB, 9, BalanceStatus::Free), Ok(5));
    assert_eq!(currency.free_balance(BOB), 4);
    assert_eq!(currency.total_issuance(), 200 + 5 - 10 - 40 - 80 - 20);
    let currencies = currency.into_inner();
    assert_eq!(currencies.free_balance(NATIVE, ALICE), 100);
    assert_eq!(currencies.free_balance(X, ALICE), 51);
    assert_eq!(
        currencies.events(),
        &vec![
            Event::Transferred(X, ALICE, BOB, 50),
            Event::Deposited(X, ALICE, 5),
            Event::Withdrawn(X, BOB, 10),
            Event::BalanceUpdated(X, BOB, -40),
        ]
    );
}

#[test]
fn native_currency_of_the_facade() {
    let mut currency = Currency::native(start());
    assert_eq!(currency.currency_id(), NATIVE);
    assert_eq!(currency.transfer(ALICE, BOB, 50), Ok(()));
    assert_eq!(currency.free_balance(BOB), 150);
    assert_eq!(currency.currencies().free_balance(X, BOB), 100);
    assert_eq!(currency.currencies().events(), &vec![Event::Transferred(NATIVE, ALICE, BOB, 50)]);
}

#[test]
fn a_bound_currency_can_be_the_native_provider_of_another_facade() {
    let inner = Currency::new(X, start());
    let multi = Tokens::genesis(2, &vec![(ALICE, 9, 100)]).unwrap();
    let mut outer = Currencies::new(X, inner, multi);
    assert_eq!(outer.transfer(X, ALICE, BOB, 50), Ok(()));
    assert_eq!(outer.transfer(9, ALICE, BOB, 30), Ok(()));
    assert_eq!(outer.free_balance(X, BOB), 150);
    assert_eq!(outer.free_balance(9, BOB), 30);
    assert_eq!(outer.native_currency().currencies().free_balance(X, BOB), 150);
    assert_eq!(
        outer.events(),
        &vec![Event::Transferred(X, ALICE, BOB, 50), Event::Transferred(9, ALICE, BOB, 30)]
    );
}

#[test]
fn adapter_checks_the_free_balance_before_it_asks_the_host_currency() {
    let adapter = BasicCurrencyAdapter::new(Balances::with(&[(ALICE, 100)]));
    assert_eq!(adapter.ensure_can_withdraw(ALICE, 101), Err(Error::BalanceTooLow));
    assert_eq!(adapter.ensure_can_withdraw(ALICE, 91), Err(Error::LiquidityRestrictions));
    assert_eq!(adapter.ensure_can_withdraw(ALICE, 90), Ok(()));
    assert_eq!(adapter.ensure_can_withdraw(BOB, 0), Err(Error::LiquidityRestrictions));
    assert_eq!(adapter.total_issuance(), 100);
    assert_eq!(adapter.total_balance(ALICE), 100);
    assert!(adapter.can_slash(ALICE, 100));
    assert!(!adapter.can_slash(ALICE, 101));
}

#[test]
fn adapter_withdraws_and_transfers_for_a_transfer_and_allows_death() {
    let mut adapter = BasicCurrencyAdapter::new(Balances::with(&[(ALICE, 100)]));
    assert_eq!(adapter.transfer(ALICE, BOB, 100), Ok(()));
    assert_eq!(adapter.withdraw(BOB, 100), Ok(()));
    assert_eq!(adapter.withdraw(BOB, 1), Err(Error::BalanceTooLow));
    assert_eq!(adapter.pallet().seen_reasons, vec![TRANSFER, TRANSFER]);
    assert_eq!(
        adapter.pallet().seen_requirements,
        vec![
            ExistenceRequirement::AllowDeath,
            ExistenceRequirement::AllowDeath,
            ExistenceRequirement::AllowDeath,
        ]
    );
    let pallet = adapter.into_inner();
    assert_eq!(pallet.free_of(ALICE), 0);
    assert_eq!(pallet.free_of(BOB), 0);
}

#[test]
fn adapter_deposit_never_fails() {
    let mut adapter = BasicCurrencyAdapter::new(Balances::with(&[]));
    assert_eq!(adapter.deposit(ALICE, 1), Ok(()));
    assert_eq!(adapter.deposit(ALICE, 0), Ok(()));
    assert_eq!(adapter.free_balance(ALICE), 1);
    assert_eq!(adapter.slash(ALICE, 5), 4);
    assert_eq!(adapter.free_balance(ALICE), 0);
}

#[test]
fn adapter_update_balance_dispatches_on_the_sign() {
    let mut adapter = BasicCurrencyAdapter::new(Balances::with(&[(ALICE, 100)]));
    assert_eq!(adapter.update_balance(ALICE, 50), Ok(()));
    assert_eq!(adapter.free_balance(ALICE), 150);
    assert!(adapter.pallet().seen_reasons.is_empty());
    assert_eq!(adapter.update_balance(ALICE, -20), Ok(()));
    assert_eq!(adapter.free_balance(ALICE), 130);
    assert_eq!(adapter.update_balance(ALICE, 0), Ok(()));
    assert_eq!(adapter.pallet().seen_reasons, vec![TRANSFER, TRANSFER]);
    assert_eq!(adapter.update_balance(ALICE, -131), Err(Error::BalanceTooLow));
    assert_eq!(adapter.update_balance(ALICE, i128::MIN), Err(Error::AmountIntoBalanceFailed));
    assert_eq!(adapter.pallet().calls, 4);
    assert_eq!(adapter.free_balance(ALICE), 130);
}

#[test]
fn adapter_locks_against_transfers_and_reservations() {
    let mut adapter = BasicCurrencyAdapter::new(Balances::with(&[(ALICE, 100)]));
    adapter.set_lock(ID, ALICE, 10);
    adapter.extend_lock(ID, ALICE, 20);
    assert_eq!(
        adapter.pallet().locks,
        vec![(ID, ALICE, 10, TRANSFER_OR_RESERVE), (ID, ALICE, 20, TRANSFER_OR_RESERVE)]
    );
    adapter.remove_lock(ID, ALICE);
    assert!(adapter.pallet().locks.is_empty());
}

#[test]
fn adapter_hands_reservations_through() {
    let mut adapter = BasicCurrencyAdapter::new(Balances::with(&[(ALICE, 100), (BOB, 1)]));
    assert!(adapter.can_reserve(ALICE, 100));
    assert!(!adapter.can_reserve(ALICE, 101));
    assert_eq!(adapter.reserve(ALICE, 101), Err(Error::BalanceTooLow));
    assert_eq!(adapter.reserve(ALICE, 60), Ok(()));
    assert_eq!(adapter.reserved_balance(ALICE), 60);
    assert_eq!(adapter.unreserve(ALICE, 70), 10);
    assert_eq!(adapter.reserve(ALICE, 60), Ok(()));
    assert_eq!(adapter.slash_reserved(ALICE, 20), 0);
    assert_eq!(adapter.repatriate_reserved(ALICE, BOB, 50, BalanceStatus::Free), Ok(10));
    assert_eq!(adapter.free_balance(BOB), 41);
    assert_eq!(adapter.reserved_balance(ALICE), 0);
}

#[test]
fn withdraw_reasons_of_the_adapter() {
    assert_eq!(WithdrawReasons::transfer(), TRANSFER);
    assert_eq!(WithdrawReasons::transfer_and_reserve(), TRANSFER_OR_RESERVE);
}
