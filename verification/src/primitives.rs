//! Value types shared by the engine and the dispatch layer.

use vstd::prelude::*;

verus! {

/// An amount of some currency.
pub type Balance = u128;

/// A signed change of a balance.
pub type Amount = i128;

/// Names a currency.
pub type CurrencyId = u32;

/// Names an account.
pub type AccountId = u64;

/// Names a lock: an opaque tag of eight bytes.
pub type LockIdentifier = [u8; 8];

/// The pool of the beneficiary into which repatriated funds are paid.
#[derive(Clone, Copy, Debug, PartialEq, Eq, Structural)]
pub enum BalanceStatus {
    Free,
    Reserved,
}

/// Why an operation was refused.
#[derive(Clone, Copy, Debug, PartialEq, Eq, Structural)]
pub enum Error {
    /// The free balance is smaller than the amount asked for.
    BalanceTooLow,
    /// The total issuance of the currency would exceed the range of `Balance`.
    TotalIssuanceOverflow,
    /// The magnitude of a signed amount has no `Balance`.
    AmountIntoBalanceFailed,
    /// The receiving account would be left with less than the existential deposit.
    ExistentialDeposit,
    /// Locks on the account forbid taking the amount out of its free balance.
    LiquidityRestrictions,
    /// The caller's origin may not make the call.
    NoPermission,
}

/// Who makes a call, as the host has established it.
#[derive(Clone, Copy, Debug, PartialEq, Eq, Structural)]
pub enum Origin {
    /// The host itself.
    Root,
    /// The account that signed the call.
    Signed(AccountId),
    /// Nobody: the call carries no authority.
    Nobody,
}

impl Origin {
    /// The account that signed, where one did.
    pub open spec fn signer(self) -> Option<AccountId> {
        match self {
            Origin::Signed(who) => Some(who),
            _ => None,
        }
    }
}

/// The account that signed the call; `NoPermission` where none did.
pub fn ensure_signed(origin: Origin) -> (signer: Result<AccountId, Error>)
    ensures
        signer == match origin.signer() {
            Some(who) => Ok::<AccountId, Error>(who),
            None => Err(Error::NoPermission),
        },
{
    match origin {
        Origin::Signed(who) => Ok(who),
        _ => Err(Error::NoPermission),
    }
}

/// Passes the call of the host itself; `NoPermission` for any other origin.
pub fn ensure_root(origin: Origin) -> (passed: Result<(), Error>)
    ensures
        passed == if origin == Origin::Root {
            Ok::<(), Error>(())
        } else {
            Err(Error::NoPermission)
        },
{
    match origin {
        Origin::Root => Ok(()),
        _ => Err(Error::NoPermission),
    }
}

/// Whether two lock identifiers are the same tag.
pub fn same_lock_id(a: &LockIdentifier, b: &LockIdentifier) -> (same: bool)
    ensures
        same == (*a == *b),
{
    let mut i: usize = 0;
    while i < 8
        invariant
            i <= 8,
            forall|j: int| 0 <= j < i ==> a@[j] == b@[j],
        decreases 8 - i,
    {
        if a[i] != b[i] {
            return false;
        }
        i += 1;
    }
    assert(*a =~= *b);
    true
}

} // verus!
