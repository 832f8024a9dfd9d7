use vstd::prelude::*;

verus! {

/// The program's own error codes, in declaration order.
#[derive(Debug, Clone, Copy, PartialEq, Eq, Structural)]
pub enum DarkTradeErrors {
    CustomError,
    AlreadyMatched,
    MintMismatch,
    NoMatchFound,
    IntentExpired,
    ArithmeticError,
    InsufficientFunds,
    OrderNotComplete,
}

/// Offset of the first custom error code of a program.
pub const ERROR_CODE_OFFSET: u32 = 6000;

/// Position of an error in the declaration of `DarkTradeErrors`.
pub open spec fn error_index(e: DarkTradeErrors) -> u32 {
    match e {
        DarkTradeErrors::CustomError => 0,
        DarkTradeErrors::AlreadyMatched => 1,
        DarkTradeErrors::MintMismatch => 2,
        DarkTradeErrors::NoMatchFound => 3,
        DarkTradeErrors::IntentExpired => 4,
        DarkTradeErrors::ArithmeticError => 5,
        DarkTradeErrors::InsufficientFunds => 6,
        DarkTradeErrors::OrderNotComplete => 7,
    }
}

/// The message of an error: the one given in its declaration, else the
/// variant's name.
pub open spec fn error_message(e: DarkTradeErrors) -> Seq<char> {
    match e {
        DarkTradeErrors::CustomError => "Custom error message"@,
        DarkTradeErrors::AlreadyMatched => "AlreadyMatched"@,
        DarkTradeErrors::MintMismatch => "MintMismatch"@,
        DarkTradeErrors::NoMatchFound => "NoMatchFound"@,
        DarkTradeErrors::IntentExpired => "IntentExpired"@,
        DarkTradeErrors::ArithmeticError => "ArithmeticError"@,
        DarkTradeErrors::InsufficientFunds => "InsufficientFunds"@,
        DarkTradeErrors::OrderNotComplete => "OrderNotComplete"@,
    }
}

/// Each error has its own code, between 6000 and 6007, in declaration order
/// from `CustomError` at 6000 to `OrderNotComplete` at 6007.
pub proof fn lemma_error_codes(a: DarkTradeErrors, b: DarkTradeErrors)
    ensures
        error_index(a) < 8,
        error_index(a) == error_index(b) ==> a == b,
        error_index(DarkTradeErrors::CustomError) == 0,
        error_index(DarkTradeErrors::AlreadyMatched) == 1,
        error_index(DarkTradeErrors::MintMismatch) == 2,
        error_index(DarkTradeErrors::NoMatchFound) == 3,
        error_index(DarkTradeErrors::IntentExpired) == 4,
        error_index(DarkTradeErrors::ArithmeticError) == 5,
        error_index(DarkTradeErrors::InsufficientFunds) == 6,
        error_index(DarkTradeErrors::OrderNotComplete) == 7,
        ERROR_CODE_OFFSET == 6000,
{
}

impl DarkTradeErrors {
    /// The numeric code reported for this error: the offset plus its position.
    pub fn code(&self) -> (r: u32)
        ensures
            r == ERROR_CODE_OFFSET + error_index(*self),
    {
        match self {
            DarkTradeErrors::CustomError => 6000,
            DarkTradeErrors::AlreadyMatched => 6001,
            DarkTradeErrors::MintMismatch => 6002,
            DarkTradeErrors::NoMatchFound => 6003,
            DarkTradeErrors::IntentExpired => 6004,
            DarkTradeErrors::ArithmeticError => 6005,
            DarkTradeErrors::InsufficientFunds => 6006,
            DarkTradeErrors::OrderNotComplete => 6007,
        }
    }

    /// The message attached to this error.
    pub fn message(&self) -> (r: &'static str)
        ensures
            r@ == error_message(*self),
    {
        match self {
            DarkTradeErrors::CustomError => "Custom error message",
            DarkTradeErrors::AlreadyMatched => "AlreadyMatched",
            DarkTradeErrors::MintMismatch => "MintMismatch",
            DarkTradeErrors::NoMatchFound => "NoMatchFound",
            DarkTradeErrors::IntentExpired => "IntentExpired",
            DarkTradeErrors::ArithmeticError => "ArithmeticError",
            DarkTradeErrors::InsufficientFunds => "InsufficientFunds",
            DarkTradeErrors::OrderNotComplete => "OrderNotComplete",
        }
    }
}

/// Every way an instruction of the program can fail.
#[derive(Debug, Clone, Copy, PartialEq, Eq, Structural)]
pub enum InstructionError {
    /// One of the program's own errors.
    Custom(DarkTradeErrors),
    /// A token account's data did not have the expected layout.
    InvalidAccountData,
    /// A token account's data is not initialized.
    UninitializedAccount,
    /// An account was not at the address that the instruction requires.
    ConstraintAddress,
}

} // verus!
