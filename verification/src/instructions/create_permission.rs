//! The signer seeds under which an account's permission is created.

use vstd::prelude::*;
use crate::constants::{DEPOSIT_ACCOUNT_SEEDS, INTENT_ACCOUNT_SEEDS, PROGRAM_ID};
use crate::instructions::{
    account_seeds, append_bump_seed, bytes_list, derive_account_address,
    derive_seeds_from_account_type, lemma_account_seeds_layout, seeds_with_bump, AccountType,
};
use crate::pda::program_address_search;

verus! {

/// Creating the permission account of one of the program's accounts.
pub struct CreatePermission {}

/// The signer seeds of an account: its seeds followed by the bump that the
/// address search found for them, or nothing where the search found none.
pub open spec fn permission_signer_seeds(
    account_type: AccountType,
    found: Option<([u8; 32], u8)>,
) -> Option<Seq<Seq<u8>>> {
    match found {
        Some((_, bump)) => Some(seeds_with_bump(account_seeds(account_type), bump)),
        None => None,
    }
}

/// The signer seeds of an account, once the address search found `bump`
/// for the account's seeds, are exactly the searched seeds, those of the
/// given account (its own kind, side, user and id), followed by the bump as
/// a single byte; where the search found nothing there are none.
pub proof fn lemma_permission_signer_seeds_law(
    account_type: AccountType,
    found: Option<([u8; 32], u8)>,
)
    ensures
        found is None ==> permission_signer_seeds(account_type, found) is None,
        found matches Some((address, bump)) ==> {
            let r = permission_signer_seeds(account_type, found);
            &&& r is Some
            &&& r->0.len() == 5
            &&& r->0.take(4) == account_seeds(account_type)
            &&& r->0[4].len() == 1 && r->0[4][0] == bump
            &&& account_type is Intent ==> r->0[0] == INTENT_ACCOUNT_SEEDS@
            &&& account_type is DepositAccount ==> r->0[0] == DEPOSIT_ACCOUNT_SEEDS@
        },
{
    lemma_account_seeds_layout(account_type);
    if let Some((address, bump)) = found {
        let r = permission_signer_seeds(account_type, found)->0;
        assert(r.take(4) =~= account_seeds(account_type));
    }
}

impl CreatePermission {
    /// Derives the seeds of the account, finds their bump under the
    /// program's address and returns the seeds with the bump appended, with
    /// which the program signs for the account when it creates the account's
    /// permission. `None` where no bump exists; the creation cannot go on.
    pub fn handler(&self, account_type: &AccountType) -> (r: Option<Vec<Vec<u8>>>)
        ensures
            r matches Some(seeds) ==> Some(bytes_list(seeds)) == permission_signer_seeds(
                *account_type,
                program_address_search(account_seeds(*account_type), PROGRAM_ID),
            ),
            r is None <==> program_address_search(account_seeds(*account_type), PROGRAM_ID) is None,
    {
        match derive_account_address(account_type) {
            Some((_, bump)) => Some(append_bump_seed(derive_seeds_from_account_type(account_type), bump)),
            None => None,
        }
    }

    /// The signer seeds of an account once the address search found `bump`.
    pub fn signer_seeds_with_bump(account_type: &AccountType, bump: u8) -> (r: Vec<Vec<u8>>)
        ensures
            bytes_list(r) == seeds_with_bump(account_seeds(*account_type), bump),
    {
        append_bump_seed(derive_seeds_from_account_type(account_type), bump)
    }
}

} // verus!
