use multicurrency::account::AccountData;
use multicurrency::locks::{drop_lock, find_lock, frozen_by, put_lock, raise_lock, BalanceLock};
use multicurrency::primitives::{ensure_root, ensure_signed, same_lock_id, Error, Origin};
use multicurrency::store::Store;

const A: [u8; 8] = *b"aaaaaaaa";
const B: [u8; 8] = *b"bbbbbbbb";
const C: [u8; 8] = *b"aaaaaaab";

fn lock(id: [u8; 8], amount: u128) -> BalanceLock {
    BalanceLock { id, amount }
}

#[test]
fn lock_identifiers_compare_by_all_bytes() {
    assert!(same_lock_id(&A, &A));
    assert!(!same_lock_id(&A, &B));
    assert!(!same_lock_id(&A, &C));
    assert!(!same_lock_id(&C, &A));
}

#[test]
fn origins_are_told_apart() {
    assert_eq!(ensure_signed(Origin::Signed(7)), Ok(7));
    assert_eq!(ensure_signed(Origin::Root), Err(Error::NoPermission));
    assert_eq!(ensure_signed(Origin::Nobody), Err(Error::NoPermission));
    assert_eq!(ensure_root(Origin::Root), Ok(()));
    assert_eq!(ensure_root(Origin::Signed(7)), Err(Error::NoPermission));
    assert_eq!(ensure_root(Origin::Nobody), Err(Error::NoPermission));
}

#[test]
fn find_lock_gives_the_first_position() {
    let locks = vec![lock(A, 1), lock(B, 2), lock(C, 3)];
    assert_eq!(find_lock(&locks, &A), 0);
    assert_eq!(find_lock(&locks, &B), 1);
    assert_eq!(find_lock(&locks, &C), 2);
    assert_eq!(find_lock(&locks, b"missing!"), 3);
    assert_eq!(find_lock(&vec![], &A), 0);
}

#[test]
fn frozen_by_is_the_largest_amount() {
    assert_eq!(frozen_by(&vec![]), 0);
    assert_eq!(frozen_by(&vec![lock(A, 5)]), 5);
    assert_eq!(frozen_by(&vec![lock(A, 5), lock(B, 9), lock(C, 7)]), 9);
    assert_eq!(frozen_by(&vec![lock(A, u128::MAX), lock(B, 9)]), u128::MAX);
}

#[test]
fn put_lock_replaces_or_appends() {
    let mut locks = vec![lock(A, 5)];
    put_lock(&mut locks, B, 2);
    assert_eq!(locks, vec![lock(A, 5), lock(B, 2)]);
    put_lock(&mut locks, A, 1);
    assert_eq!(locks, vec![lock(A, 1), lock(B, 2)]);
}

#[test]
fn raise_lock_never_lowers() {
    let mut locks = vec![lock(A, 5)];
    raise_lock(&mut locks, A, 3);
    assert_eq!(locks, vec![lock(A, 5)]);
    raise_lock(&mut locks, A, 8);
    assert_eq!(locks, vec![lock(A, 8)]);
    raise_lock(&mut locks, B, 1);
    assert_eq!(locks, vec![lock(A, 8), lock(B, 1)]);
}

#[test]
fn drop_lock_removes_the_named_lock() {
    let mut locks = vec![lock(A, 5), lock(B, 6), lock(C, 7)];
    drop_lock(&mut locks, B);
    assert_eq!(locks, vec![lock(A, 5), lock(C, 7)]);
    drop_lock(&mut locks, B);
    assert_eq!(locks, vec![lock(A, 5), lock(C, 7)]);
    drop_lock(&mut locks, A);
    drop_lock(&mut locks, C);
    assert!(locks.is_empty());
}

#[test]
fn store_reads_defaults_and_keeps_what_it_is_given() {
    let mut store = Store::new();
    assert_eq!(store.get_total_issuance(1), 0);
    assert_eq!(store.get_account(1, 2), AccountData { free: 0, reserved: 0, frozen: 0 });
    assert!(store.get_locks(1, 2).is_empty());
    assert!(!store.locks_exist(1, 2));

    store.set_total_issuance(1, 70);
    assert_eq!(store.get_total_issuance(1), 70);
    assert_eq!(store.get_total_issuance(2), 0);

    store.mutate_account(1, 2, |data| AccountData { free: data.free + 5, ..data });
    store.mutate_account(1, 2, |data| AccountData { reserved: data.free * 2, ..data });
    assert_eq!(store.get_account(1, 2), AccountData { free: 5, reserved: 10, frozen: 0 });
    assert_eq!(store.get_account(2, 1), AccountData { free: 0, reserved: 0, frozen: 0 });

    store.set_locks(1, 2, vec![lock(A, 5)]);
    assert!(store.locks_exist(1, 2));
    assert!(!store.locks_exist(2, 1));
    assert_eq!(store.get_locks(1, 2), vec![lock(A, 5)]);
    store.remove_locks(1, 2);
    assert!(!store.locks_exist(1, 2));
    assert!(store.get_locks(1, 2).is_empty());
    store.remove_locks(1, 2);
    assert_eq!(store.get_account(1, 2), AccountData { free: 5, reserved: 10, frozen: 0 });
    assert_eq!(store.get_total_issuance(1), 70);
}
