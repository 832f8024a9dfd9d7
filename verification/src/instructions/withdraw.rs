//! Withdrawing what a deposit account holds once its intent is done.

use vstd::prelude::*;
use crate::error::{DarkTradeErrors, InstructionError};
use crate::instructions::{
    account_seeds, append_bump_seed, bytes_list, derive_seeds_from_account_type, seeds_with_bump,
    AccountType, Address,
};
use crate::state::{DepositAccount, IntentAccount};

verus! {

/// What a withdrawal reads and writes.
pub struct Withdraw {
    /// The owner of the intent, who signs.
    pub owner: Address,
    pub deposit: DepositAccount,
    pub intent: IntentAccount,
    /// Token balance of the deposit's vault.
    pub usdc_vault_amount: u64,
    /// Lamports of the deposit account.
    pub deposit_lamports: u64,
    /// Lamports of the account that receives the SOL.
    pub receiver_lamports: u64,
}

/// The token transfer of a withdrawal: the whole vault balance, signed for
/// by the deposit account under its seeds.
pub struct WithdrawTransfer {
    pub usdc_amount: u64,
    pub signer_seeds: Vec<Vec<u8>>,
}

/// A withdrawal may go ahead once the intent is done: matched, or expired at
/// `now`.
pub open spec fn withdrawal_allowed(intent: IntentAccount, now: i64) -> bool {
    now >= intent.expiry || intent.is_matched
}

/// What a withdrawal pays out to the receiver: the whole vault balance in
/// tokens and every lamport of the deposit account.
pub open spec fn withdrawal_payout(w: Withdraw) -> (u64, u64) {
    (w.usdc_vault_amount, w.deposit_lamports)
}

/// A withdrawal is allowed exactly for a matched intent or one whose expiry
/// has come, and it pays out the vault's whole balance and every lamport of
/// the deposit account.
pub proof fn lemma_withdrawal_law(w: Withdraw, now: i64)
    ensures
        withdrawal_allowed(w.intent, now) <==> w.intent.is_matched || w.intent.expiry <= now,
        !w.intent.is_matched && now < w.intent.expiry ==> !withdrawal_allowed(w.intent, now),
        withdrawal_payout(w).0 == w.usdc_vault_amount,
        withdrawal_payout(w).1 == w.deposit_lamports,
{
}

impl Withdraw {
    /// Checks that the intent allows a withdrawal at `now`; then returns the
    /// transfer of the whole vault balance to the receiver, signed with the
    /// deposit account's seeds and bump, and moves every lamport of the
    /// deposit account to the receiver. On error nothing changes.
    pub fn handler(&mut self, id: u64, intent_side: u8, now: i64) -> (r: Result<
        WithdrawTransfer,
        InstructionError,
    >)
        requires
            withdrawal_allowed(old(self).intent, now) ==> old(self).receiver_lamports
                + old(self).deposit_lamports <= u64::MAX,
        ensures
            r is Ok <==> withdrawal_allowed(old(self).intent, now),
            r is Err ==> r->Err_0 == InstructionError::Custom(DarkTradeErrors::OrderNotComplete),
            r is Err ==> *final(self) == *old(self),
            r is Ok ==> r->Ok_0.usdc_amount == withdrawal_payout(*old(self)).0,
            r is Ok ==> bytes_list(r->Ok_0.signer_seeds) == seeds_with_bump(
                account_seeds(AccountType::DepositAccount { side: intent_side, user: old(self).owner, id }),
                old(self).deposit.bump,
            ),
            r is Ok ==> final(self).deposit_lamports == 0,
            r is Ok ==> final(self).receiver_lamports == old(self).receiver_lamports
                + withdrawal_payout(*old(self)).1,
            r is Ok ==> final(self).owner == old(self).owner && final(self).deposit == old(
                self,
            ).deposit && final(self).intent == old(self).intent
                && final(self).usdc_vault_amount == old(self).usdc_vault_amount,
    {
        if !(now >= self.intent.expiry || self.intent.is_matched) {
            return Err(InstructionError::Custom(DarkTradeErrors::OrderNotComplete));
        }
        let seeds = derive_seeds_from_account_type(
            &AccountType::DepositAccount { side: intent_side, user: self.owner, id },
        );
        let signer_seeds = append_bump_seed(seeds, self.deposit.bump);
        let amount_to_transfer = self.deposit_lamports;
        self.deposit_lamports = self.deposit_lamports - amount_to_transfer;
        self.receiver_lamports = self.receiver_lamports + amount_to_transfer;
        Ok(WithdrawTransfer { usdc_amount: self.usdc_vault_amount, signer_seeds })
    }
}

} // verus!
