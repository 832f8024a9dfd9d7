//! Opening an intent: its deposit account, its intent account and the
//! deposit that funds it.

use vstd::prelude::*;
use crate::instructions::Address;
use crate::state::{DepositAccount, IntentAccount};

verus! {

/// Side of an intent that buys SOL and so deposits tokens.
pub const BUY_SIDE: u8 = 0;

/// The accounts that placing an intent fills in.
pub struct PlaceIntent {
    /// The user who places the intent and pays for it.
    pub user: Address,
    pub deposit: DepositAccount,
    pub intent_account: IntentAccount,
}

/// The bump seeds under which the deposit and intent accounts were found.
#[derive(Debug, Clone, Copy, PartialEq, Eq, Structural)]
pub struct PlaceIntentBumps {
    pub deposit: u8,
    pub intent_account: u8,
}

/// The deposit that funds a new intent, from the user to the program.
#[derive(Debug, Clone, Copy, PartialEq, Eq, Structural)]
pub enum DepositTransfer {
    /// Tokens from the user's token account into the deposit's vault.
    Usdc { amount: u64 },
    /// Lamports from the user into the deposit account.
    Sol { lamports: u64 },
}

/// The deposit that an intent on `side` is funded with.
pub open spec fn spec_deposit_transfer(side: u8, deposit_amount: u64) -> DepositTransfer {
    if side == BUY_SIDE {
        DepositTransfer::Usdc { amount: deposit_amount }
    } else {
        DepositTransfer::Sol { lamports: deposit_amount }
    }
}

/// A new intent is funded with exactly `deposit_amount`: in tokens for a
/// buy, in lamports for any other side.
pub proof fn lemma_deposit_transfer_law(side: u8, deposit_amount: u64)
    ensures
        match spec_deposit_transfer(side, deposit_amount) {
            DepositTransfer::Usdc { amount } => side == 0 && amount == deposit_amount,
            DepositTransfer::Sol { lamports } => side != 0 && lamports == deposit_amount,
        },
{
}

impl PlaceIntent {
    /// Records the deposit account (whose amount is the traded quantity) and
    /// an open, unmatched intent owned by the user, and returns the deposit
    /// to make: tokens for a buy, lamports for a sell, `deposit_amount` of
    /// them either way.
    pub fn handler(
        &mut self,
        id: u64,
        side: u8,
        deposit_amount: u64,
        trade_quantity: u64,
        limit_price: u64,
        expiry: i64,
        bumps: PlaceIntentBumps,
    ) -> (r: DepositTransfer)
        ensures
            final(self).user == old(self).user,
            final(self).deposit == (DepositAccount { id, bump: bumps.deposit, amount: trade_quantity }),
            final(self).intent_account == (IntentAccount {
                id,
                owner: old(self).user,
                side,
                quantity: trade_quantity,
                limit_price,
                expiry,
                is_matched: false,
            }),
            r == spec_deposit_transfer(side, deposit_amount),
    {
        self.deposit = DepositAccount { id, bump: bumps.deposit, amount: trade_quantity };
        self.intent_account = IntentAccount {
            id,
            owner: self.user,
            side,
            quantity: trade_quantity,
            limit_price,
            expiry,
            is_matched: false,
        };
        if side == BUY_SIDE {
            DepositTransfer::Usdc { amount: deposit_amount }
        } else {
            DepositTransfer::Sol { lamports: deposit_amount }
        }
    }
}

} // verus!
