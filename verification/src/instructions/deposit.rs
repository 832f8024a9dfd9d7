//! Adding to a user's running deposit balance of one mint.

use vstd::prelude::*;
use crate::instructions::Address;
use crate::state::UserAccount;

verus! {

/// The mint deposited and the user's balance account for it.
pub struct Deposit {
    pub mint: Address,
    pub user_account: UserAccount,
}

/// The balance account after a deposit of `amount` under `bump`: a new one
/// for the mint if it was not yet initialized, else the old one with the
/// amount added and the bump replaced.
pub open spec fn deposited(before: UserAccount, mint: Address, amount: u64, bump: u8) -> UserAccount {
    if !before.is_initialized {
        UserAccount { mint, bump, amount, is_initialized: true }
    } else {
        UserAccount { amount: (before.amount + amount) as u64, bump, ..before }
    }
}

impl Deposit {
    /// Records a deposit of `amount` and returns the amount of tokens to
    /// move from the depositor into the vault.
    pub fn handler(&mut self, amount: u64, bump: u8) -> (r: u64)
        requires
            old(self).user_account.is_initialized ==> old(self).user_account.amount + amount
                <= u64::MAX,
        ensures
            final(self).mint == old(self).mint,
            final(self).user_account == deposited(old(self).user_account, old(self).mint, amount, bump),
            r == amount,
    {
        if !self.user_account.is_initialized {
            self.user_account = UserAccount { mint: self.mint, bump, amount, is_initialized: true };
        } else {
            self.user_account.amount = self.user_account.amount + amount;
            self.user_account.bump = bump;
        }
        amount
    }
}

} // verus!
