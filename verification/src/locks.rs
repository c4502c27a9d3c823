//! Locks on an account: named floors under its free balance. The locks of one
//! account overlap, so the largest of them governs.

use vstd::prelude::*;
use crate::primitives::{same_lock_id, Balance, LockIdentifier};

verus! {

/// A single lock on a balance. There can be many of these on an account and
/// they overlap, so the same balance is frozen by several locks.
#[derive(Clone, Copy, Debug, PartialEq, Eq)]
pub struct BalanceLock {
    /// Names the lock. An account holds at most one lock of each name.
    pub id: LockIdentifier,
    /// The amount below which the free balance may not be drawn while the lock
    /// is in effect.
    pub amount: Balance,
}

/// No two locks of the sequence carry the same name.
pub open spec fn distinct_ids(locks: Seq<BalanceLock>) -> bool {
    forall|i: int, j: int| 0 <= i < j < locks.len() ==> locks[i].id != locks[j].id
}

/// The position of the first lock named `id`, or the length of the sequence
/// where there is none.
pub open spec fn position(locks: Seq<BalanceLock>, id: LockIdentifier) -> int
    decreases locks.len(),
{
    if locks.len() == 0 {
        0
    } else if locks[0].id == id {
        0
    } else {
        1 + position(locks.drop_first(), id)
    }
}

/// Whether some lock of the sequence is named `id`.
pub open spec fn has_lock(locks: Seq<BalanceLock>, id: LockIdentifier) -> bool {
    position(locks, id) < locks.len()
}

/// The larger of two balances.
pub open spec fn larger(a: Balance, b: Balance) -> Balance {
    if a >= b {
        a
    } else {
        b
    }
}

/// The largest amount among the locks, and zero where there is none: the
/// amount that they freeze together.
pub open spec fn max_amount(locks: Seq<BalanceLock>) -> Balance
    decreases locks.len(),
{
    if locks.len() == 0 {
        0
    } else {
        larger(max_amount(locks.drop_last()), locks.last().amount)
    }
}

/// The locks after a lock named `id` was set to `amount`: the lock of that
/// name is replaced where there is one, and a new lock is appended otherwise.
pub open spec fn with_lock(locks: Seq<BalanceLock>, id: LockIdentifier, amount: Balance) -> Seq<
    BalanceLock,
> {
    let at = position(locks, id);
    if at < locks.len() {
        locks.update(at, BalanceLock { id, amount })
    } else {
        locks.push(BalanceLock { id, amount })
    }
}

/// The locks after the lock named `id` was extended to at least `amount`: an
/// existing lock keeps the larger of its amount and `amount`, and a new lock
/// is appended where there was none.
pub open spec fn with_extended_lock(
    locks: Seq<BalanceLock>,
    id: LockIdentifier,
    amount: Balance,
) -> Seq<BalanceLock> {
    let at = position(locks, id);
    if at < locks.len() {
        locks.update(at, BalanceLock { id, amount: larger(locks[at].amount, amount) })
    } else {
        locks.push(BalanceLock { id, amount })
    }
}

/// The locks without the lock named `id`.
pub open spec fn without_lock(locks: Seq<BalanceLock>, id: LockIdentifier) -> Seq<BalanceLock> {
    let at = position(locks, id);
    if at < locks.len() {
        locks.remove(at)
    } else {
        locks
    }
}

/// `position` is the first index at which a lock named `id` stands.
pub proof fn lemma_position(locks: Seq<BalanceLock>, id: LockIdentifier)
    ensures
        0 <= position(locks, id) <= locks.len(),
        position(locks, id) < locks.len() ==> locks[position(locks, id)].id == id,
        forall|i: int| 0 <= i < position(locks, id) ==> locks[i].id != id,
    decreases locks.len(),
{
    if locks.len() > 0 && locks[0].id != id {
        let rest = locks.drop_first();
        lemma_position(rest, id);
        assert forall|i: int| 0 <= i < position(locks, id) implies locks[i].id != id by {
            if i > 0 {
                assert(locks[i] == rest[i - 1]);
            }
        }
    }
}

/// Where no lock before `at` is named `id` and `at` is the end of the
/// sequence or holds such a lock, `at` is the position of `id`.
pub proof fn lemma_position_is(locks: Seq<BalanceLock>, id: LockIdentifier, at: int)
    requires
        0 <= at <= locks.len(),
        forall|i: int| 0 <= i < at ==> locks[i].id != id,
        at < locks.len() ==> locks[at].id == id,
    ensures
        position(locks, id) == at,
{
    lemma_position(locks, id);
}

/// The frozen amount is an upper bound of every lock, and is the amount of one
/// of the locks unless there is none.
pub proof fn lemma_max_amount(locks: Seq<BalanceLock>)
    ensures
        forall|i: int| 0 <= i < locks.len() ==> locks[i].amount <= max_amount(locks),
        locks.len() == 0 ==> max_amount(locks) == 0,
        locks.len() > 0 ==> exists|i: int|
            0 <= i < locks.len() && locks[i].amount == max_amount(locks),
    decreases locks.len(),
{
    if locks.len() > 0 {
        let init = locks.drop_last();
        lemma_max_amount(init);
        assert forall|i: int| 0 <= i < locks.len() implies locks[i].amount <= max_amount(
            locks,
        ) by {
            if i < init.len() {
                assert(locks[i] == init[i]);
            }
        }
        if max_amount(locks) == locks.last().amount {
            assert(locks[locks.len() - 1].amount == max_amount(locks));
        } else {
            let i = choose|i: int| 0 <= i < init.len() && init[i].amount == max_amount(init);
            assert(locks[i] == init[i]);
        }
    }
}

/// Setting a lock keeps the names distinct and leaves at least one lock.
pub proof fn lemma_with_lock_distinct(locks: Seq<BalanceLock>, id: LockIdentifier, amount: Balance)
    requires
        distinct_ids(locks),
    ensures
        distinct_ids(with_lock(locks, id, amount)),
        distinct_ids(with_extended_lock(locks, id, amount)),
        with_lock(locks, id, amount).len() > 0,
        with_extended_lock(locks, id, amount).len() > 0,
        has_lock(with_lock(locks, id, amount), id),
        has_lock(with_extended_lock(locks, id, amount), id),
{
    lemma_position(locks, id);
    let at = position(locks, id);
    let set = with_lock(locks, id, amount);
    let ext = with_extended_lock(locks, id, amount);
    assert(set[at].id == id);
    assert(ext[at].id == id);
    assert forall|i: int| 0 <= i < set.len() implies set[i].id == ext[i].id by {}
    assert forall|i: int, j: int| 0 <= i < j < set.len() implies set[i].id != set[j].id by {
        if j < locks.len() {
            assert(locks[i].id != locks[j].id);
        }
    }
    lemma_position(set, id);
    lemma_position(ext, id);
}

/// Removing a lock keeps the names distinct, and no lock of that name is left.
pub proof fn lemma_without_lock_distinct(locks: Seq<BalanceLock>, id: LockIdentifier)
    requires
        distinct_ids(locks),
    ensures
        distinct_ids(without_lock(locks, id)),
        !has_lock(without_lock(locks, id), id),
{
    lemma_position(locks, id);
    let at = position(locks, id);
    let rest = without_lock(locks, id);
    assert forall|i: int| 0 <= i < rest.len() implies rest[i].id != id by {
        if at < locks.len() {
            if i < at {
                assert(rest[i] == locks[i]);
            } else {
                assert(rest[i] == locks[i + 1]);
                assert(locks[at].id != locks[i + 1].id);
            }
        }
    }
    lemma_position(rest, id);
    assert forall|i: int, j: int| 0 <= i < j < rest.len() implies rest[i].id != rest[j].id by {
        if at < locks.len() {
            let oi = if i < at { i } else { i + 1 };
            let oj = if j < at { j } else { j + 1 };
            assert(rest[i] == locks[oi]);
            assert(rest[j] == locks[oj]);
            assert(locks[oi].id != locks[oj].id);
        }
    }
}

/// The position of the first lock named `id` in `locks`, or the number of
/// locks where none has that name.
pub fn find_lock(locks: &Vec<BalanceLock>, id: &LockIdentifier) -> (at: usize)
    ensures
        at == position(locks@, *id),
        at <= locks.len(),
{
    let mut at: usize = 0;
    while at < locks.len()
        invariant
            at <= locks.len(),
            forall|i: int| 0 <= i < at ==> locks@[i].id != *id,
        decreases locks.len() - at,
    {
        if same_lock_id(&locks[at].id, id) {
            proof {
                lemma_position_is(locks@, *id, at as int);
            }
            return at;
        }
        at += 1;
    }
    proof {
        lemma_position_is(locks@, *id, at as int);
    }
    at
}

/// The amount that the locks freeze together.
pub fn frozen_by(locks: &Vec<BalanceLock>) -> (frozen: Balance)
    ensures
        frozen == max_amount(locks@),
{
    let mut frozen: Balance = 0;
    let mut i: usize = 0;
    while i < locks.len()
        invariant
            i <= locks.len(),
            frozen == max_amount(locks@.take(i as int)),
        decreases locks.len() - i,
    {
        proof {
            assert(locks@.take(i + 1).drop_last() =~= locks@.take(i as int));
        }
        if locks[i].amount > frozen {
            frozen = locks[i].amount;
        }
        i += 1;
    }
    proof {
        assert(locks@.take(i as int) =~= locks@);
    }
    frozen
}

/// Sets the lock named `id` to `amount`: in place of the lock of that name
/// where there is one, and as the last lock otherwise.
pub fn put_lock(locks: &mut Vec<BalanceLock>, id: LockIdentifier, amount: Balance)
    ensures
        final(locks)@ == with_lock(old(locks)@, id, amount),
{
    let at = find_lock(locks, &id);
    if at < locks.len() {
        locks.set(at, BalanceLock { id, amount });
    } else {
        locks.push(BalanceLock { id, amount });
    }
}

/// Raises the lock named `id` to at least `amount`, or adds it as the last
/// lock where there is none of that name.
pub fn raise_lock(locks: &mut Vec<BalanceLock>, id: LockIdentifier, amount: Balance)
    ensures
        final(locks)@ == with_extended_lock(old(locks)@, id, amount),
{
    let at = find_lock(locks, &id);
    if at < locks.len() {
        let existing = locks[at].amount;
        let raised = if existing >= amount {
            existing
        } else {
            amount
        };
        locks.set(at, BalanceLock { id, amount: raised });
    } else {
        locks.push(BalanceLock { id, amount });
    }
}

/// Takes the lock named `id` out of the locks, where there is one.
pub fn drop_lock(locks: &mut Vec<BalanceLock>, id: LockIdentifier)
    ensures
        final(locks)@ == without_lock(old(locks)@, id),
{
    let at = find_lock(locks, &id);
    if at < locks.len() {
        locks.remove(at);
    }
}

} // verus!
