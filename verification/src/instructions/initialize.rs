//! Creating the program's configuration.

use vstd::prelude::*;
use crate::instructions::Address;
use crate::state::DarkConfig;

verus! {

/// The configuration account and the admin who creates it.
pub struct Initialize {
    pub admin: Address,
    pub config: DarkConfig,
}

/// Records the admin and the configuration's bump seed.
pub fn handler(accounts: &mut Initialize, config_bump: u8)
    ensures
        final(accounts).admin == old(accounts).admin,
        final(accounts).config == (DarkConfig { admin: old(accounts).admin, bump: config_bump }),
{
    accounts.config = DarkConfig { admin: accounts.admin, bump: config_bump };
}

} // verus!
