//! Returning a filled intent to the base layer.

use vstd::prelude::*;
use crate::constants::MATCHER_PUBKEY;
use crate::error::{DarkTradeErrors, InstructionError};
use crate::instructions::{check_matcher, Address};
use crate::state::IntentAccount;

verus! {

/// Committing an intent's accounts and giving them back to the base layer.
pub struct SettleAndUndelegate {
    /// The signer, who must be the matcher.
    pub matcher: Address,
    pub intent: IntentAccount,
}

impl SettleAndUndelegate {
    /// Decides whether the intent's accounts may be committed and
    /// undelegated: only the matcher may ask, and only for a matched intent.
    pub fn handler(&self) -> (r: Result<(), InstructionError>)
        ensures
            r is Ok <==> self.matcher@ == MATCHER_PUBKEY@ && self.intent.is_matched,
            self.matcher@ != MATCHER_PUBKEY@ ==> r matches Err(InstructionError::ConstraintAddress),
            self.matcher@ == MATCHER_PUBKEY@ && !self.intent.is_matched ==> r matches Err(
                InstructionError::Custom(DarkTradeErrors::OrderNotComplete),
            ),
    {
        check_matcher(&self.matcher)?;
        if !self.intent.is_matched {
            return Err(InstructionError::Custom(DarkTradeErrors::OrderNotComplete));
        }
        Ok(())
    }
}

} // verus!
