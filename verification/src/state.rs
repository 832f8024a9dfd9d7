//! The accounts that the program owns.

use vstd::prelude::*;
use crate::instructions::Address;

verus! {

/// The program's global configuration.
#[derive(Debug, Clone, Copy, PartialEq, Eq)]
pub struct DarkConfig {
    pub admin: Address,
    pub bump: u8,
}

/// The account that holds what a user deposited for one intent: lamports
/// directly, tokens in the vault that it owns.
#[derive(Debug, Clone, Copy, PartialEq, Eq, Structural)]
pub struct DepositAccount {
    pub id: u64,
    pub bump: u8,
    pub amount: u64,
}

/// A user's standing order: buy (side 0) or sell (side 1) `quantity`
/// lamports at a limit price, until `expiry`.
#[derive(Debug, Clone, Copy, PartialEq, Eq)]
pub struct IntentAccount {
    pub id: u64,
    pub owner: Address,
    pub side: u8,
    pub quantity: u64,
    pub limit_price: u64,
    pub expiry: i64,
    pub is_matched: bool,
}

/// A user's running balance of deposits of one mint.
#[derive(Debug, Clone, Copy, PartialEq, Eq)]
pub struct UserAccount {
    pub mint: Address,
    pub bump: u8,
    pub amount: u64,
    pub is_initialized: bool,
}

} // verus!
