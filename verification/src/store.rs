//! The store: typed key/value maps for the total issuance of each currency,
//! the balance record of each account and the locks of each account. It keeps
//! what it is given and has no rule of its own.

use std::collections::BTreeMap;
use vstd::prelude::*;
use crate::account::AccountData;
use crate::ledger::AccountKey;
use crate::locks::BalanceLock;
use crate::primitives::{AccountId, Balance, CurrencyId};

verus! {

/// The three maps of the ledger, held in memory.
#[derive(Clone, Debug)]
pub struct Store {
    total_issuance: BTreeMap<CurrencyId, Balance>,
    accounts: BTreeMap<AccountKey, AccountData>,
    locks: BTreeMap<AccountKey, Vec<BalanceLock>>,
}

/// A copy of the locks.
fn copy_locks(locks: &Vec<BalanceLock>) -> (copy: Vec<BalanceLock>)
    ensures
        copy@ == locks@,
{
    let mut copy: Vec<BalanceLock> = Vec::new();
    let mut i: usize = 0;
    while i < locks.len()
        invariant
            i <= locks.len(),
            copy@ == locks@.take(i as int),
        decreases locks.len() - i,
    {
        copy.push(locks[i]);
        proof {
            assert(locks@.take(i + 1) =~= locks@.take(i as int).push(locks@[i as int]));
        }
        i += 1;
    }
    proof {
        assert(locks@.take(i as int) =~= locks@);
    }
    copy
}

impl Store {
    /// The total issuance that is recorded for each currency.
    pub closed spec fn issuances(&self) -> Map<CurrencyId, Balance> {
        self.total_issuance@
    }

    /// The balance record that is kept for each account.
    pub closed spec fn records(&self) -> Map<AccountKey, AccountData> {
        self.accounts@
    }

    /// The locks that are kept for each account.
    pub closed spec fn lock_lists(&self) -> Map<AccountKey, Seq<BalanceLock>> {
        self.locks@.map_values(|locks: Vec<BalanceLock>| locks@)
    }

    /// The total issuance of the currency; zero where none is recorded.
    pub open spec fn issuance(&self, currency_id: CurrencyId) -> Balance {
        if self.issuances().contains_key(currency_id) {
            self.issuances()[currency_id]
        } else {
            0
        }
    }

    /// The balance record of the account; the empty record where it has none.
    pub open spec fn account(&self, currency_id: CurrencyId, who: AccountId) -> AccountData {
        if self.records().contains_key((currency_id, who)) {
            self.records()[(currency_id, who)]
        } else {
            AccountData::empty()
        }
    }

    /// The locks of the account; none where none are kept.
    pub open spec fn locks_of(&self, currency_id: CurrencyId, who: AccountId) -> Seq<BalanceLock> {
        if self.lock_lists().contains_key((currency_id, who)) {
            self.lock_lists()[(currency_id, who)]
        } else {
            Seq::empty()
        }
    }

    /// A store that holds nothing.
    pub fn new() -> (store: Store)
        ensures
            store.issuances() == Map::<CurrencyId, Balance>::empty(),
            store.records() == Map::<AccountKey, AccountData>::empty(),
            store.lock_lists() == Map::<AccountKey, Seq<BalanceLock>>::empty(),
    {
        let store = Store {
            total_issuance: BTreeMap::new(),
            accounts: BTreeMap::new(),
            locks: BTreeMap::new(),
        };
        proof {
            assert(store.lock_lists() =~= Map::empty());
        }
        store
    }

    /// Reads the total issuance of the currency.
    pub fn get_total_issuance(&self, currency_id: CurrencyId) -> (issuance: Balance)
        ensures
            issuance == self.issuance(currency_id),
    {
        match self.total_issuance.get(&currency_id) {
            Some(issuance) => *issuance,
            None => 0,
        }
    }

    /// Records the total issuance of the currency.
    pub fn set_total_issuance(&mut self, currency_id: CurrencyId, issuance: Balance)
        ensures
            final(self).issuances() == old(self).issuances().insert(currency_id, issuance),
            final(self).records() == old(self).records(),
            final(self).lock_lists() == old(self).lock_lists(),
    {
        self.total_issuance.insert(currency_id, issuance);
    }

    /// Reads the balance record of the account.
    pub fn get_account(&self, currency_id: CurrencyId, who: AccountId) -> (data: AccountData)
        ensures
            data == self.account(currency_id, who),
    {
        match self.accounts.get(&(currency_id, who)) {
            Some(data) => *data,
            None => AccountData::default(),
        }
    }

    /// Reads the balance record of the account, changes it with `change`,
    /// and keeps what comes out.
    pub fn mutate_account<F: FnOnce(AccountData) -> AccountData>(
        &mut self,
        currency_id: CurrencyId,
        who: AccountId,
        change: F,
    )
        requires
            change.requires((old(self).account(currency_id, who), )),
        ensures
            change.ensures(
                (old(self).account(currency_id, who), ),
                final(self).account(currency_id, who),
            ),
            final(self).records() == old(self).records().insert(
                (currency_id, who),
                final(self).account(currency_id, who),
            ),
            final(self).issuances() == old(self).issuances(),
            final(self).lock_lists() == old(self).lock_lists(),
    {
        let data = self.get_account(currency_id, who);
        let changed = change(data);
        self.accounts.insert((currency_id, who), changed);
    }

    /// Reads the locks of the account.
    pub fn get_locks(&self, currency_id: CurrencyId, who: AccountId) -> (locks: Vec<BalanceLock>)
        ensures
            locks@ == self.locks_of(currency_id, who),
    {
        match self.locks.get(&(currency_id, who)) {
            Some(locks) => copy_locks(locks),
            None => Vec::new(),
        }
    }

    /// Keeps `locks` as the locks of the account.
    pub fn set_locks(&mut self, currency_id: CurrencyId, who: AccountId, locks: Vec<BalanceLock>)
        ensures
            final(self).lock_lists() == old(self).lock_lists().insert((currency_id, who), locks@),
            final(self).issuances() == old(self).issuances(),
            final(self).records() == old(self).records(),
    {
        let ghost kept = locks@;
        self.locks.insert((currency_id, who), locks);
        proof {
            assert(self.lock_lists() =~= old(self).lock_lists().insert((currency_id, who), kept));
        }
    }

    /// Keeps no locks for the account any more.
    pub fn remove_locks(&mut self, currency_id: CurrencyId, who: AccountId)
        ensures
            final(self).lock_lists() == old(self).lock_lists().remove((currency_id, who)),
            final(self).issuances() == old(self).issuances(),
            final(self).records() == old(self).records(),
    {
        self.locks.remove(&(currency_id, who));
        proof {
            assert(self.lock_lists() =~= old(self).lock_lists().remove((currency_id, who)));
        }
    }

    /// Whether locks are kept for the account.
    pub fn locks_exist(&self, currency_id: CurrencyId, who: AccountId) -> (exist: bool)
        ensures
            exist == self.lock_lists().contains_key((currency_id, who)),
    {
        self.locks.contains_key(&(currency_id, who))
    }
}

} // verus!
