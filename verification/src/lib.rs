//! Verified core of a dark-pool trading program: intent placement, order
//! matching with midpoint crossing, settlement checks, withdrawals and the
//! program-derived-address seed scheme that ties the accounts together.

pub mod constants;
pub mod error;
pub mod instructions;
pub mod pda;
pub mod state;
pub mod token;
