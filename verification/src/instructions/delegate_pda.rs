//! Handing one of the program's accounts to the delegation program.

use vstd::prelude::*;
use crate::instructions::{account_seeds, bytes_list, derive_seeds_from_account_type, AccountType, Address};

verus! {

/// Delegating an account, optionally to a chosen validator.
pub struct DelegatePda {
    pub validator: Option<Address>,
}

/// What a delegation is made with: the account's seeds and the validator.
pub struct DelegateRequest {
    pub seeds: Vec<Vec<u8>>,
    pub validator: Option<Address>,
}

impl DelegatePda {
    /// Returns the account's seeds and the validator, if one was given, with
    /// which the account is delegated.
    pub fn handler(&self, account_type: &AccountType) -> (r: DelegateRequest)
        ensures
            bytes_list(r.seeds) == account_seeds(*account_type),
            r.validator == self.validator,
    {
        DelegateRequest { seeds: derive_seeds_from_account_type(account_type), validator: self.validator }
    }
}

} // verus!
