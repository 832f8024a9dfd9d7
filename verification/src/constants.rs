use vstd::prelude::*;

verus! {

/// Seed prefix of the global configuration account.
pub const DARK_CONFIG_SEEDS: [u8; 18] = [
    100, 97, 114, 107, 95, 116, 114, 97, 100, 101, 115, 95, 99, 111, 110, 102, 105, 103,
];

/// Seed prefix of every deposit account (`b"dark_trades_deposits"`).
pub const DEPOSIT_ACCOUNT_SEEDS: [u8; 20] = [
    100, 97, 114, 107, 95, 116, 114, 97, 100, 101, 115, 95, 100, 101, 112, 111, 115, 105, 116, 115,
];

/// Seed prefix of every intent account (`b"dark_trades_intents"`).
pub const INTENT_ACCOUNT_SEEDS: [u8; 19] = [
    100, 97, 114, 107, 95, 116, 114, 97, 100, 101, 115, 95, 105, 110, 116, 101, 110, 116, 115,
];

/// The only key allowed to run matching and settlement
/// (`Bgsbppow2TFYGs71xohv3aNdDbQGoXGZ7ez1VBLc8kp9`).
pub const MATCHER_PUBKEY: [u8; 32] = [
    158, 203, 188, 34, 80, 67, 137, 247, 157, 150, 180, 74, 151, 118, 57, 159, 66, 56, 57, 127,
    129, 23, 60, 214, 108, 209, 8, 251, 238, 150, 141, 98,
];

/// The program's own address (`65GJ4WBAz7oF5TdPH8tJpsLkmq2AwT92pQAyi5decD1U`).
pub const PROGRAM_ID: [u8; 32] = [
    75, 98, 13, 15, 42, 238, 200, 240, 170, 11, 16, 190, 55, 128, 199, 79, 208, 101, 30, 135, 97,
    153, 157, 4, 75, 124, 221, 162, 178, 57, 108, 147,
];

/// Size of the account discriminator that precedes every account's data.
pub const ANCHOR_DISCRIMINATOR: usize = 8;

} // verus!
