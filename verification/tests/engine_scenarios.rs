use multicurrency::account::AccountData;
use multicurrency::ledger::{Call, Event, HostCall};
use multicurrency::locks::BalanceLock;
use multicurrency::primitives::{BalanceStatus, Error, Origin};
use multicurrency::tokens::{is_endowed_once, Tokens};

const ALICE: u64 = 1;
const BOB: u64 = 2;
const CHARLIE: u64 = 3;
const NAT: u32 = 0;
const X: u32 = 7;
const ID_1: [u8; 8] = *b"LOCK____";
const ID_2: [u8; 8] = *b"2       ";

fn start() -> Tokens {
    Tokens::genesis(2, &vec![(ALICE, NAT, 100)]).unwrap()
}

/// Alice with the given free and reserved balance in `X`, Bob with the given
/// free balance, under an existential deposit of 2.
fn with_reserved(alice_free: u128, alice_reserved: u128, bob_free: u128) -> Tokens {
    let mut tokens =
        Tokens::genesis(2, &vec![(ALICE, X, alice_free + alice_reserved), (BOB, X, bob_free)])
            .unwrap();
    assert_eq!(tokens.reserve(X, ALICE, alice_reserved), Ok(()));
    tokens.take_outbox();
    tokens
}

fn held(tokens: &Tokens, currency_id: u32, accounts: &[u64]) -> u128 {
    accounts
        .iter()
        .map(|who| tokens.free_balance(currency_id, *who) + tokens.reserved_balance(currency_id, *who))
        .sum()
}

#[test]
fn transfer_below_existential_deposit_is_refused() {
    let mut tokens = start();
    let before = format!("{:?}", tokens);
    assert_eq!(tokens.transfer(NAT, ALICE, BOB, 1), Err(Error::ExistentialDeposit));
    assert_eq!(format!("{:?}", tokens), before);
    assert_eq!(tokens.free_balance(NAT, ALICE), 100);
    assert_eq!(tokens.free_balance(NAT, BOB), 0);
    assert_eq!(tokens.total_issuance(NAT), 100);
    assert!(tokens.outbox().is_empty());
}

#[test]
fn successful_transfer_moves_the_amount() {
    let mut tokens = start();
    assert_eq!(tokens.transfer(NAT, ALICE, BOB, 50), Ok(()));
    assert_eq!(tokens.free_balance(NAT, ALICE), 50);
    assert_eq!(tokens.free_balance(NAT, BOB), 50);
    assert_eq!(tokens.total_issuance(NAT), 100);
    assert_eq!(
        tokens.outbox(),
        &vec![HostCall::DepositEvent(Event::Transferred(NAT, ALICE, BOB, 50))]
    );
}

#[test]
fn lock_blocks_withdraw_at_the_exact_boundary() {
    let mut tokens = start();
    tokens.set_lock(ID_1, NAT, ALICE, 80);
    assert_eq!(tokens.accounts(NAT, ALICE).frozen, 80);
    assert_eq!(tokens.transfer(NAT, ALICE, BOB, 30), Err(Error::LiquidityRestrictions));
    assert_eq!(tokens.transfer(NAT, ALICE, BOB, 21), Err(Error::LiquidityRestrictions));
    assert_eq!(tokens.free_balance(NAT, ALICE), 100);
    assert_eq!(tokens.transfer(NAT, ALICE, BOB, 20), Ok(()));
    assert_eq!(tokens.free_balance(NAT, ALICE), 80);
    assert_eq!(tokens.free_balance(NAT, BOB), 20);
    assert_eq!(tokens.withdraw(NAT, ALICE, 1), Err(Error::LiquidityRestrictions));
    assert_eq!(tokens.reserve(NAT, ALICE, 1), Err(Error::LiquidityRestrictions));
    assert!(!tokens.can_reserve(NAT, ALICE, 1));
}

#[test]
fn locks_do_not_block_deposits() {
    let mut tokens = start();
    tokens.set_lock(ID_1, NAT, ALICE, 500);
    assert_eq!(tokens.deposit(NAT, ALICE, 10), Ok(()));
    assert_eq!(tokens.free_balance(NAT, ALICE), 110);
    assert_eq!(tokens.total_issuance(NAT), 110);
}

#[test]
fn deposit_below_existential_deposit_into_empty_account_is_ignored() {
    let mut tokens = start();
    assert_eq!(tokens.deposit(X, BOB, 1), Ok(()));
    assert_eq!(tokens.accounts(X, BOB), AccountData { free: 0, reserved: 0, frozen: 0 });
    assert_eq!(tokens.total_issuance(X), 0);
    assert!(tokens.outbox().is_empty());
}

#[test]
fn deposit_of_the_existential_deposit_is_kept() {
    let mut tokens = start();
    assert_eq!(tokens.deposit(X, BOB, 2), Ok(()));
    assert_eq!(tokens.free_balance(X, BOB), 2);
    assert_eq!(tokens.total_issuance(X), 2);
    assert_eq!(tokens.deposit(X, BOB, 1), Ok(()));
    assert_eq!(tokens.free_balance(X, BOB), 3);
    assert_eq!(tokens.total_issuance(X), 3);
}

#[test]
fn deposit_that_overflows_the_issuance_is_refused() {
    let mut tokens = Tokens::genesis(2, &vec![(ALICE, X, u128::MAX - 5)]).unwrap();
    assert_eq!(tokens.deposit(X, BOB, 6), Err(Error::TotalIssuanceOverflow));
    assert_eq!(tokens.free_balance(X, BOB), 0);
    assert_eq!(tokens.total_issuance(X), u128::MAX - 5);
    assert_eq!(tokens.deposit(X, BOB, 5), Ok(()));
    assert_eq!(tokens.total_issuance(X), u128::MAX);
}

#[test]
fn slash_spills_from_reserved() {
    let mut tokens = with_reserved(5, 10, 0);
    let issued = tokens.total_issuance(X);
    assert_eq!(tokens.slash(X, ALICE, 8), 0);
    assert_eq!(tokens.free_balance(X, ALICE), 0);
    assert_eq!(tokens.reserved_balance(X, ALICE), 7);
    assert_eq!(tokens.total_issuance(X), issued - 8);
}

#[test]
fn slash_returns_what_it_could_not_take() {
    let mut tokens = with_reserved(5, 10, 0);
    assert_eq!(tokens.slash(X, ALICE, 20), 5);
    assert_eq!(tokens.accounts(X, ALICE), AccountData { free: 0, reserved: 0, frozen: 0 });
    assert_eq!(tokens.total_issuance(X), 0);
}

#[test]
fn slash_that_leaves_dust_removes_the_dust_too() {
    let mut tokens = with_reserved(5, 10, 0);
    assert_eq!(tokens.slash(X, ALICE, 4), 0);
    assert_eq!(tokens.free_balance(X, ALICE), 0);
    assert_eq!(tokens.reserved_balance(X, ALICE), 10);
    assert_eq!(tokens.total_issuance(X), 10);
    assert_eq!(tokens.outbox(), &vec![HostCall::OnDustRemoval(1)]);
}

#[test]
fn slash_of_nothing_changes_nothing() {
    let mut tokens = with_reserved(5, 10, 0);
    assert_eq!(tokens.slash(X, ALICE, 0), 0);
    assert_eq!(tokens.free_balance(X, ALICE), 5);
    assert_eq!(tokens.total_issuance(X), 15);
    assert!(tokens.outbox().is_empty());
}

#[test]
fn can_slash_looks_at_the_free_balance() {
    let tokens = with_reserved(5, 10, 0);
    assert!(tokens.can_slash(X, ALICE, 0));
    assert!(tokens.can_slash(X, ALICE, 5));
    assert!(!tokens.can_slash(X, ALICE, 6));
    assert!(tokens.can_slash(X, CHARLIE, 0));
    assert!(!tokens.can_slash(X, CHARLIE, 1));
}

#[test]
fn repatriate_to_third_party() {
    let mut tokens = with_reserved(0, 10, 5);
    let issued = tokens.total_issuance(X);
    assert_eq!(tokens.repatriate_reserved(X, ALICE, BOB, 7, BalanceStatus::Free), Ok(0));
    assert_eq!(tokens.reserved_balance(X, ALICE), 3);
    assert_eq!(tokens.free_balance(X, BOB), 12);
    assert_eq!(tokens.total_issuance(X), issued);
}

#[test]
fn repatriate_into_the_reserved_pool() {
    let mut tokens = with_reserved(0, 10, 5);
    assert_eq!(tokens.repatriate_reserved(X, ALICE, BOB, 12, BalanceStatus::Reserved), Ok(2));
    assert_eq!(tokens.reserved_balance(X, ALICE), 0);
    assert_eq!(tokens.reserved_balance(X, BOB), 10);
    assert_eq!(tokens.free_balance(X, BOB), 5);
    assert_eq!(tokens.total_issuance(X), 15);
}

#[test]
fn repatriate_to_oneself() {
    let mut tokens = with_reserved(4, 10, 0);
    assert_eq!(tokens.repatriate_reserved(X, ALICE, ALICE, 12, BalanceStatus::Reserved), Ok(2));
    assert_eq!(tokens.accounts(X, ALICE), AccountData { free: 4, reserved: 10, frozen: 0 });
    assert_eq!(tokens.repatriate_reserved(X, ALICE, ALICE, 3, BalanceStatus::Reserved), Ok(0));
    assert_eq!(tokens.accounts(X, ALICE), AccountData { free: 4, reserved: 10, frozen: 0 });
    assert_eq!(tokens.repatriate_reserved(X, ALICE, ALICE, 3, BalanceStatus::Free), Ok(0));
    assert_eq!(tokens.accounts(X, ALICE), AccountData { free: 7, reserved: 7, frozen: 0 });
    assert_eq!(tokens.repatriate_reserved(X, ALICE, BOB, 0, BalanceStatus::Free), Ok(0));
    assert_eq!(tokens.accounts(X, ALICE), AccountData { free: 7, reserved: 7, frozen: 0 });
}

#[test]
fn repatriate_below_existential_deposit_is_not_refused() {
    let mut tokens = with_reserved(0, 10, 0);
    assert_eq!(tokens.repatriate_reserved(X, ALICE, CHARLIE, 1, BalanceStatus::Free), Ok(0));
    assert_eq!(tokens.reserved_balance(X, ALICE), 9);
    assert_eq!(tokens.free_balance(X, CHARLIE), 0);
    assert_eq!(tokens.total_issuance(X), 9);
    assert_eq!(tokens.outbox(), &vec![HostCall::OnDustRemoval(1)]);
}

#[test]
fn dust_removal_on_withdraw() {
    let mut tokens = Tokens::genesis(2, &vec![(ALICE, X, 3)]).unwrap();
    assert_eq!(tokens.withdraw(X, ALICE, 2), Ok(()));
    assert_eq!(tokens.free_balance(X, ALICE), 0);
    assert_eq!(tokens.total_issuance(X), 0);
    assert_eq!(tokens.outbox(), &vec![HostCall::OnDustRemoval(1)]);
}

#[test]
fn a_free_balance_written_as_zero_hands_over_dust_of_nothing() {
    let mut tokens = Tokens::genesis(2, &vec![(ALICE, X, 3)]).unwrap();
    assert_eq!(tokens.withdraw(X, ALICE, 3), Ok(()));
    assert_eq!(tokens.free_balance(X, ALICE), 0);
    assert_eq!(tokens.total_issuance(X), 0);
    assert_eq!(tokens.outbox(), &vec![HostCall::OnDustRemoval(0)]);
}

#[test]
fn withdraw_more_than_the_free_balance_is_refused() {
    let mut tokens = start();
    assert_eq!(tokens.withdraw(NAT, ALICE, 101), Err(Error::BalanceTooLow));
    assert_eq!(tokens.ensure_can_withdraw(NAT, ALICE, 101), Err(Error::BalanceTooLow));
    assert_eq!(tokens.ensure_can_withdraw(NAT, ALICE, 100), Ok(()));
    assert_eq!(tokens.ensure_can_withdraw(NAT, BOB, 0), Ok(()));
    assert_eq!(tokens.ensure_can_withdraw(NAT, BOB, 1), Err(Error::BalanceTooLow));
    assert_eq!(tokens.free_balance(NAT, ALICE), 100);
    assert_eq!(tokens.total_issuance(NAT), 100);
}

#[test]
fn lock_refcount() {
    let mut tokens = start();
    tokens.set_lock(ID_1, NAT, ALICE, 10);
    assert_eq!(tokens.outbox(), &vec![HostCall::IncRef(ALICE)]);
    tokens.set_lock(ID_1, NAT, ALICE, 20);
    assert_eq!(tokens.outbox(), &vec![HostCall::IncRef(ALICE)]);
    tokens.set_lock(ID_2, NAT, ALICE, 5);
    assert_eq!(tokens.outbox(), &vec![HostCall::IncRef(ALICE)]);
    tokens.remove_lock(ID_1, NAT, ALICE);
    assert_eq!(tokens.outbox(), &vec![HostCall::IncRef(ALICE)]);
    tokens.remove_lock(ID_2, NAT, ALICE);
    assert_eq!(tokens.outbox(), &vec![HostCall::IncRef(ALICE), HostCall::DecRef(ALICE)]);
    tokens.remove_lock(ID_2, NAT, ALICE);
    assert_eq!(tokens.outbox(), &vec![HostCall::IncRef(ALICE), HostCall::DecRef(ALICE)]);
    assert!(tokens.locks(NAT, ALICE).is_empty());
}

#[test]
fn set_lock_replaces_and_frozen_is_the_largest_lock() {
    let mut tokens = start();
    tokens.set_lock(ID_1, NAT, ALICE, 10);
    tokens.set_lock(ID_2, NAT, ALICE, 30);
    assert_eq!(
        tokens.locks(NAT, ALICE),
        vec![BalanceLock { id: ID_1, amount: 10 }, BalanceLock { id: ID_2, amount: 30 }]
    );
    assert_eq!(tokens.accounts(NAT, ALICE).frozen, 30);
    tokens.set_lock(ID_2, NAT, ALICE, 4);
    assert_eq!(
        tokens.locks(NAT, ALICE),
        vec![BalanceLock { id: ID_1, amount: 10 }, BalanceLock { id: ID_2, amount: 4 }]
    );
    assert_eq!(tokens.accounts(NAT, ALICE).frozen, 10);
    tokens.set_lock(ID_1, NAT, ALICE, 0);
    assert_eq!(tokens.accounts(NAT, ALICE).frozen, 10);
    tokens.remove_lock(ID_1, NAT, ALICE);
    assert_eq!(tokens.locks(NAT, ALICE), vec![BalanceLock { id: ID_2, amount: 4 }]);
    assert_eq!(tokens.accounts(NAT, ALICE).frozen, 4);
    assert_eq!(tokens.free_balance(NAT, ALICE), 100);
    assert_eq!(tokens.total_issuance(NAT), 100);
}

#[test]
fn extend_lock_keeps_the_larger_amount() {
    let mut tokens = start();
    tokens.extend_lock(ID_1, NAT, ALICE, 10);
    assert_eq!(tokens.locks(NAT, ALICE), vec![BalanceLock { id: ID_1, amount: 10 }]);
    tokens.extend_lock(ID_1, NAT, ALICE, 5);
    assert_eq!(tokens.locks(NAT, ALICE), vec![BalanceLock { id: ID_1, amount: 10 }]);
    tokens.extend_lock(ID_1, NAT, ALICE, 15);
    assert_eq!(tokens.locks(NAT, ALICE), vec![BalanceLock { id: ID_1, amount: 15 }]);
    tokens.extend_lock(ID_1, NAT, ALICE, 0);
    assert_eq!(tokens.accounts(NAT, ALICE).frozen, 15);
    tokens.extend_lock(ID_2, NAT, BOB, 0);
    assert!(tokens.locks(NAT, BOB).is_empty());
    assert_eq!(tokens.outbox(), &vec![HostCall::IncRef(ALICE)]);
}

#[test]
fn reserve_and_unreserve() {
    let mut tokens = start();
    assert!(tokens.can_reserve(NAT, ALICE, 100));
    assert!(!tokens.can_reserve(NAT, ALICE, 101));
    assert!(tokens.can_reserve(NAT, BOB, 0));
    assert_eq!(tokens.reserve(NAT, ALICE, 101), Err(Error::BalanceTooLow));
    assert_eq!(tokens.reserve(NAT, ALICE, 0), Ok(()));
    assert_eq!(tokens.reserve(NAT, ALICE, 30), Ok(()));
    assert_eq!(tokens.accounts(NAT, ALICE), AccountData { free: 70, reserved: 30, frozen: 0 });
    assert_eq!(tokens.total_balance(NAT, ALICE), 100);
    assert_eq!(tokens.total_issuance(NAT), 100);
    assert_eq!(tokens.unreserve(NAT, ALICE, 0), 0);
    assert_eq!(tokens.unreserve(NAT, ALICE, 50), 20);
    assert_eq!(tokens.accounts(NAT, ALICE), AccountData { free: 100, reserved: 0, frozen: 0 });
    assert_eq!(tokens.total_issuance(NAT), 100);
}

#[test]
fn reserve_round_trip_restores_the_balances() {
    let mut tokens = with_reserved(50, 10, 0);
    assert_eq!(tokens.reserve(X, ALICE, 20), Ok(()));
    assert_eq!(tokens.unreserve(X, ALICE, 20), 0);
    assert_eq!(tokens.accounts(X, ALICE), AccountData { free: 50, reserved: 10, frozen: 0 });
    assert_eq!(tokens.reserve(X, ALICE, 50), Ok(()));
    assert_eq!(tokens.unreserve(X, ALICE, 50), 0);
    assert_eq!(tokens.accounts(X, ALICE), AccountData { free: 50, reserved: 10, frozen: 0 });
    assert_eq!(tokens.total_issuance(X), 60);
}

#[test]
fn reserve_round_trip_loses_the_dust() {
    let mut tokens = with_reserved(5, 0, 0);
    assert_eq!(tokens.reserve(X, ALICE, 4), Ok(()));
    assert_eq!(tokens.accounts(X, ALICE), AccountData { free: 0, reserved: 4, frozen: 0 });
    assert_eq!(tokens.total_issuance(X), 4);
    assert_eq!(tokens.unreserve(X, ALICE, 4), 0);
    assert_eq!(tokens.accounts(X, ALICE), AccountData { free: 4, reserved: 0, frozen: 0 });
}

#[test]
fn slash_reserved_burns_from_the_reserved_balance() {
    let mut tokens = with_reserved(5, 10, 0);
    assert_eq!(tokens.slash_reserved(X, ALICE, 0), 0);
    assert_eq!(tokens.slash_reserved(X, ALICE, 4), 0);
    assert_eq!(tokens.accounts(X, ALICE), AccountData { free: 5, reserved: 6, frozen: 0 });
    assert_eq!(tokens.total_issuance(X), 11);
    assert_eq!(tokens.slash_reserved(X, ALICE, 9), 3);
    assert_eq!(tokens.accounts(X, ALICE), AccountData { free: 5, reserved: 0, frozen: 0 });
    assert_eq!(tokens.total_issuance(X), 5);
    assert!(tokens.outbox().is_empty());
}

#[test]
fn slash_reserved_can_leave_less_than_the_existential_deposit() {
    let mut tokens = with_reserved(0, 10, 0);
    assert_eq!(tokens.slash_reserved(X, ALICE, 9), 0);
    assert_eq!(tokens.accounts(X, ALICE), AccountData { free: 0, reserved: 1, frozen: 0 });
    assert_eq!(tokens.total_balance(X, ALICE), 1);
    assert_eq!(tokens.total_issuance(X), 1);
}

#[test]
fn update_balance_dispatches_on_the_sign() {
    let mut tokens = start();
    assert_eq!(tokens.update_balance(NAT, BOB, 50), Ok(()));
    assert_eq!(tokens.free_balance(NAT, BOB), 50);
    assert_eq!(tokens.total_issuance(NAT), 150);
    assert_eq!(tokens.update_balance(NAT, BOB, -20), Ok(()));
    assert_eq!(tokens.free_balance(NAT, BOB), 30);
    assert_eq!(tokens.total_issuance(NAT), 130);
    assert_eq!(tokens.update_balance(NAT, BOB, 0), Ok(()));
    assert_eq!(tokens.update_balance(NAT, BOB, -31), Err(Error::BalanceTooLow));
    assert_eq!(tokens.update_balance(NAT, BOB, i128::MIN), Err(Error::AmountIntoBalanceFailed));
    assert_eq!(tokens.update_balance(NAT, BOB, i128::MAX), Ok(()));
    assert_eq!(tokens.free_balance(NAT, BOB), 30 + i128::MAX as u128);
    assert_eq!(tokens.update_balance(NAT, BOB, i128::MIN + 1), Ok(()));
    assert_eq!(tokens.free_balance(NAT, BOB), 30);
    assert_eq!(tokens.total_issuance(NAT), 130);
}

#[test]
fn no_op_laws() {
    let mut tokens = start();
    let before = format!("{:?}", tokens);
    assert_eq!(tokens.transfer(NAT, ALICE, ALICE, 40), Ok(()));
    assert_eq!(tokens.transfer(NAT, ALICE, ALICE, 1000), Ok(()));
    assert_eq!(tokens.transfer(NAT, ALICE, BOB, 0), Ok(()));
    assert_eq!(tokens.transfer(NAT, BOB, ALICE, 0), Ok(()));
    assert_eq!(tokens.deposit(NAT, ALICE, 0), Ok(()));
    assert_eq!(tokens.withdraw(NAT, ALICE, 0), Ok(()));
    assert_eq!(tokens.withdraw(NAT, BOB, 0), Ok(()));
    assert_eq!(tokens.accounts(NAT, ALICE), AccountData { free: 100, reserved: 0, frozen: 0 });
    assert_eq!(tokens.accounts(NAT, BOB), AccountData { free: 0, reserved: 0, frozen: 0 });
    assert_eq!(tokens.total_issuance(NAT), 100);
    assert!(tokens.outbox().is_empty());
    assert_eq!(format!("{:?}", tokens), before);
}

#[test]
fn operations_on_nothing_change_nothing() {
    let mut tokens = with_reserved(50, 10, 5);
    tokens.set_lock(ID_1, X, ALICE, 7);
    tokens.take_outbox();
    let before = format!("{:?}", tokens);
    assert_eq!(tokens.slash(X, ALICE, 0), 0);
    assert_eq!(tokens.reserve(X, ALICE, 0), Ok(()));
    assert_eq!(tokens.unreserve(X, ALICE, 0), 0);
    assert_eq!(tokens.slash_reserved(X, ALICE, 0), 0);
    assert_eq!(tokens.repatriate_reserved(X, ALICE, BOB, 0, BalanceStatus::Free), Ok(0));
    assert_eq!(tokens.update_balance(X, ALICE, 0), Ok(()));
    tokens.set_lock(ID_2, X, ALICE, 0);
    tokens.extend_lock(ID_1, X, ALICE, 0);
    assert_eq!(format!("{:?}", tokens), before);
}

#[test]
fn refusals_change_nothing() {
    let mut tokens = with_reserved(50, 10, 5);
    tokens.set_lock(ID_1, X, ALICE, 45);
    tokens.take_outbox();
    let before = format!("{:?}", tokens);
    assert_eq!(tokens.transfer(X, ALICE, BOB, 51), Err(Error::BalanceTooLow));
    assert_eq!(tokens.transfer(X, ALICE, BOB, 6), Err(Error::LiquidityRestrictions));
    assert_eq!(tokens.transfer(X, BOB, CHARLIE, 1), Err(Error::ExistentialDeposit));
    assert_eq!(tokens.withdraw(X, ALICE, 6), Err(Error::LiquidityRestrictions));
    assert_eq!(tokens.reserve(X, ALICE, 51), Err(Error::BalanceTooLow));
    assert_eq!(tokens.update_balance(X, BOB, -6), Err(Error::BalanceTooLow));
    assert_eq!(tokens.update_balance(X, BOB, i128::MIN), Err(Error::AmountIntoBalanceFailed));
    assert_eq!(tokens.deposit(X, BOB, u128::MAX), Err(Error::TotalIssuanceOverflow));
    assert_eq!(tokens.transfer_all(X, ALICE, BOB), Err(Error::LiquidityRestrictions));
    assert_eq!(
        tokens.dispatch(Origin::Root, Call::TransferAll { dest: BOB, currency_id: X }),
        Err(Error::NoPermission)
    );
    assert_eq!(format!("{:?}", tokens), before);
}

#[test]
fn transfer_that_leaves_dust_removes_it() {
    let mut tokens = start();
    assert_eq!(tokens.transfer(NAT, ALICE, BOB, 99), Ok(()));
    assert_eq!(tokens.free_balance(NAT, ALICE), 0);
    assert_eq!(tokens.free_balance(NAT, BOB), 99);
    assert_eq!(tokens.total_issuance(NAT), 99);
    assert_eq!(
        tokens.outbox(),
        &vec![
            HostCall::OnDustRemoval(1),
            HostCall::DepositEvent(Event::Transferred(NAT, ALICE, BOB, 99)),
        ]
    );
}

#[test]
fn transfer_checks_the_free_balance_of_the_receiver_only() {
    let mut tokens = with_reserved(50, 0, 10);
    assert_eq!(tokens.reserve(X, BOB, 10), Ok(()));
    assert_eq!(tokens.accounts(X, BOB), AccountData { free: 0, reserved: 10, frozen: 0 });
    assert_eq!(tokens.transfer(X, ALICE, BOB, 1), Err(Error::ExistentialDeposit));
    assert_eq!(tokens.transfer(X, ALICE, BOB, 2), Ok(()));
    assert_eq!(tokens.accounts(X, BOB), AccountData { free: 2, reserved: 10, frozen: 0 });
}

#[test]
fn transfer_all_moves_the_whole_free_balance() {
    let mut tokens = with_reserved(50, 10, 0);
    assert_eq!(tokens.transfer_all(X, ALICE, BOB), Ok(()));
    assert_eq!(tokens.accounts(X, ALICE), AccountData { free: 0, reserved: 10, frozen: 0 });
    assert_eq!(tokens.free_balance(X, BOB), 50);
    assert_eq!(tokens.total_issuance(X), 60);
    assert_eq!(tokens.transfer_all(X, CHARLIE, BOB), Ok(()));
    assert_eq!(tokens.free_balance(X, BOB), 50);
}

#[test]
fn conservation_over_a_sequence_of_operations() {
    let mut tokens =
        Tokens::genesis(3, &vec![(ALICE, X, 100), (BOB, X, 40), (ALICE, NAT, 9)]).unwrap();
    let everyone = [ALICE, BOB, CHARLIE];
    assert_eq!(tokens.transfer(X, ALICE, CHARLIE, 98), Ok(()));
    assert_eq!(tokens.total_issuance(X), held(&tokens, X, &everyone));
    assert_eq!(tokens.reserve(X, BOB, 38), Ok(()));
    assert_eq!(tokens.total_issuance(X), held(&tokens, X, &everyone));
    assert_eq!(tokens.slash(X, BOB, 7), 0);
    assert_eq!(tokens.total_issuance(X), held(&tokens, X, &everyone));
    assert_eq!(tokens.repatriate_reserved(X, BOB, ALICE, 5, BalanceStatus::Free), Ok(0));
    assert_eq!(tokens.total_issuance(X), held(&tokens, X, &everyone));
    assert_eq!(tokens.deposit(X, CHARLIE, 1), Ok(()));
    assert_eq!(tokens.withdraw(X, CHARLIE, 97), Ok(()));
    assert_eq!(tokens.slash_reserved(X, BOB, 100), 100 - 26);
    assert_eq!(tokens.unreserve(X, BOB, 1), 1);
    assert_eq!(tokens.total_issuance(X), held(&tokens, X, &everyone));
    assert_eq!(tokens.total_issuance(X), 5);
    for who in everyone {
        let free = tokens.free_balance(X, who);
        assert!(free == 0 || free >= 3);
    }
    assert_eq!(tokens.total_issuance(NAT), 9);
    assert_eq!(tokens.free_balance(NAT, ALICE), 9);
    let dust: u128 = tokens
        .outbox()
        .iter()
        .map(|call| match call {
            HostCall::OnDustRemoval(amount) => *amount,
            _ => 0,
        })
        .sum();
    assert_eq!(dust, 2 + 2 + 2);
}

#[test]
fn genesis_sums_the_issuance_and_keeps_the_last_balance() {
    let tokens =
        Tokens::genesis(2, &vec![(ALICE, X, 10), (BOB, X, 1), (ALICE, NAT, 5), (ALICE, X, 4)])
            .unwrap();
    assert_eq!(tokens.existential_deposit(), 2);
    assert_eq!(tokens.total_issuance(X), 15);
    assert_eq!(tokens.total_issuance(NAT), 5);
    assert_eq!(tokens.free_balance(X, ALICE), 4);
    assert_eq!(tokens.free_balance(X, BOB), 1);
    assert_eq!(tokens.free_balance(NAT, ALICE), 5);
    assert_eq!(tokens.reserved_balance(X, ALICE), 0);
    assert!(tokens.outbox().is_empty());
}

#[test]
fn genesis_input_is_checked_for_accounts_endowed_twice() {
    assert!(is_endowed_once(&vec![]));
    assert!(is_endowed_once(&vec![(ALICE, X, 10)]));
    assert!(is_endowed_once(&vec![(ALICE, X, 10), (BOB, X, 10), (ALICE, NAT, 10)]));
    assert!(!is_endowed_once(&vec![(ALICE, X, 10), (BOB, X, 1), (ALICE, NAT, 5), (ALICE, X, 4)]));
    assert!(!is_endowed_once(&vec![(ALICE, X, 0), (ALICE, X, 0)]));
}

#[test]
fn genesis_refuses_an_issuance_that_overflows() {
    assert!(matches!(
        Tokens::genesis(2, &vec![(ALICE, X, u128::MAX), (BOB, NAT, 7), (BOB, X, 1)]),
        Err(Error::TotalIssuanceOverflow)
    ));
    assert!(Tokens::genesis(2, &vec![(ALICE, X, u128::MAX), (BOB, NAT, u128::MAX)]).is_ok());
    assert!(Tokens::genesis(0, &vec![]).is_ok());
}

#[test]
fn without_existential_deposit_nothing_is_dust() {
    let mut tokens = Tokens::genesis(0, &vec![(ALICE, X, 3)]).unwrap();
    assert_eq!(tokens.transfer(X, ALICE, BOB, 2), Ok(()));
    assert_eq!(tokens.free_balance(X, ALICE), 1);
    assert_eq!(tokens.withdraw(X, ALICE, 1), Ok(()));
    assert_eq!(tokens.total_issuance(X), 2);
    assert_eq!(
        tokens.outbox(),
        &vec![HostCall::DepositEvent(Event::Transferred(X, ALICE, BOB, 2))]
    );
}

#[test]
fn total_balance_saturates() {
    let data = AccountData { free: u128::MAX, reserved: 1, frozen: 9 };
    assert_eq!(data.total(), u128::MAX);
    assert_eq!(data.frozen(), 9);
    assert_eq!(AccountData { free: 3, reserved: 4, frozen: 0 }.total(), 7);
    assert_eq!(AccountData::default(), AccountData { free: 0, reserved: 0, frozen: 0 });
}

#[test]
fn take_outbox_hands_the_calls_over() {
    let mut tokens = start();
    assert_eq!(tokens.transfer(NAT, ALICE, BOB, 50), Ok(()));
    assert_eq!(
        tokens.take_outbox(),
        vec![HostCall::DepositEvent(Event::Transferred(NAT, ALICE, BOB, 50))]
    );
    assert!(tokens.outbox().is_empty());
    assert_eq!(tokens.free_balance(NAT, BOB), 50);
}

#[test]
fn engine_calls_need_a_signed_origin() {
    let mut tokens = start();
    let transfer = Call::Transfer { dest: BOB, currency_id: NAT, amount: 10 };
    assert_eq!(tokens.dispatch(Origin::Root, transfer), Err(Error::NoPermission));
    assert_eq!(tokens.dispatch(Origin::Nobody, transfer), Err(Error::NoPermission));
    assert_eq!(tokens.free_balance(NAT, ALICE), 100);
    assert!(tokens.outbox().is_empty());
    assert_eq!(tokens.dispatch(Origin::Signed(ALICE), transfer), Ok(()));
    assert_eq!(tokens.free_balance(NAT, BOB), 10);
    let all = Call::TransferAll { dest: BOB, currency_id: NAT };
    assert_eq!(tokens.dispatch(Origin::Signed(ALICE), all), Ok(()));
    assert_eq!(tokens.free_balance(NAT, ALICE), 0);
    assert_eq!(tokens.free_balance(NAT, BOB), 100);
    assert_eq!(
        tokens.dispatch(Origin::Signed(CHARLIE), transfer),
        Err(Error::BalanceTooLow)
    );
}
