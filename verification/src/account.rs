//! The balance record of one account in one currency.

use vstd::prelude::*;
use crate::primitives::Balance;

verus! {

/// Balance information for an account.
#[derive(Clone, Copy, Debug, PartialEq, Eq, Structural)]
pub struct AccountData {
    /// Non-reserved part of the balance: what may in principle be transferred,
    /// reserved or withdrawn, subject to the locks on the account.
    pub free: Balance,
    /// Balance that is set aside and cannot be spent until it is unreserved.
    /// It can still be slashed, after the free balance, and repatriated.
    pub reserved: Balance,
    /// The amount that `free` may not drop below when withdrawing.
    pub frozen: Balance,
}

impl AccountData {
    /// The record of an account that holds nothing.
    pub open spec fn empty() -> AccountData {
        AccountData { free: 0, reserved: 0, frozen: 0 }
    }

    /// What the account holds: its free and its reserved balance together.
    pub open spec fn holding(self) -> nat {
        (self.free + self.reserved) as nat
    }

    /// The holding as far as a `Balance` can express it.
    pub open spec fn spec_total(self) -> Balance {
        if self.free + self.reserved > Balance::MAX {
            Balance::MAX
        } else {
            (self.free + self.reserved) as Balance
        }
    }

    /// The amount that this account's free balance may not be reduced beyond.
    pub fn frozen(&self) -> (frozen: Balance)
        ensures
            frozen == self.frozen,
    {
        self.frozen
    }

    /// The total balance in this account, including any that is reserved and
    /// ignoring any frozen. The sum saturates at the largest `Balance`.
    pub fn total(&self) -> (total: Balance)
        ensures
            total == self.spec_total(),
    {
        self.free.saturating_add(self.reserved)
    }
}

impl Default for AccountData {
    fn default() -> (data: AccountData)
        ensures
            data == AccountData::empty(),
    {
        AccountData { free: 0, reserved: 0, frozen: 0 }
    }
}

} // verus!
