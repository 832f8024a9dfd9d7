//! Reading and writing the balance held in a token account's raw data.

use vstd::prelude::*;
use vstd::bytes::{lemma_auto_spec_u64_to_from_le_bytes, spec_u64_from_le_bytes, spec_u64_to_le_bytes};
use anchor_lang::solana_program::program_error::ProgramError;
use anchor_lang::solana_program::program_pack::Pack;
use anchor_spl::token::spl_token::state::Account as RawTokenAccount;
use crate::error::InstructionError;

verus! {

/// Length of a token account's data.
pub const TOKEN_ACCOUNT_LEN: usize = 165;

/// The balance stored at its offset in a token account's data.
pub open spec fn stored_token_amount(data: Seq<u8>) -> u64 {
    spec_u64_from_le_bytes(data.subrange(64, 72))
}

/// The data with the balance at its offset replaced by `amount`.
pub open spec fn with_token_amount(data: Seq<u8>, amount: u64) -> Seq<u8> {
    data.subrange(0, 64) + spec_u64_to_le_bytes(amount) + data.subrange(72, data.len() as int)
}

/// The four bytes at `offset` are a valid option tag: `[0, 0, 0, 0]` for
/// none, `[1, 0, 0, 0]` for some.
pub open spec fn valid_option_tag(data: Seq<u8>, offset: int) -> bool {
    &&& data[offset] == 0 || data[offset] == 1
    &&& data[offset + 1] == 0
    &&& data[offset + 2] == 0
    &&& data[offset + 3] == 0
}

/// Offset of the account state byte: 0 uninitialized, 1 initialized,
/// 2 frozen.
pub open spec fn token_state_offset() -> int {
    108
}

/// What unpacking a token account from `data` gives, reduced to its balance:
/// data of 165 bytes whose option tags (delegate, native reserve, close
/// authority at 72, 109 and 129) are valid and whose state byte is at most 2
/// unpacks, unless the state is uninitialized; every other failure is
/// invalid account data.
pub open spec fn unpacked_token_amount(data: Seq<u8>) -> Result<u64, InstructionError> {
    if data.len() != 165 {
        Err(InstructionError::InvalidAccountData)
    } else if !(valid_option_tag(data, 72) && data[token_state_offset()] <= 2 && valid_option_tag(
        data,
        109,
    ) && valid_option_tag(data, 129)) {
        Err(InstructionError::InvalidAccountData)
    } else if data[token_state_offset()] == 0 {
        Err(InstructionError::UninitializedAccount)
    } else {
        Ok(stored_token_amount(data))
    }
}

/// `data` unpacks to a token account holding `amount`.
pub open spec fn unpacks_to(data: Seq<u8>, amount: u64) -> bool {
    unpacked_token_amount(data) == Ok::<u64, InstructionError>(amount)
}

/// Writing a balance into unpackable data keeps it unpackable, and it then
/// unpacks to the written balance.
pub proof fn lemma_unpack_after_write(data: Seq<u8>, amount: u64)
    requires
        unpacked_token_amount(data) is Ok,
    ensures
        unpacks_to(with_token_amount(data, amount), amount),
        with_token_amount(data, amount).len() == 165,
{
    lemma_auto_spec_u64_to_from_le_bytes();
    let w = with_token_amount(data, amount);
    assert(w.subrange(64, 72) =~= spec_u64_to_le_bytes(amount));
    assert(forall|i: int| 72 <= i < 165 ==> w[i] == data[i]);
}

/// Unpacks a token account (`spl_token::state::Account::unpack`) from `data`
/// and returns its balance. The source of `Pack::unpack_unchecked`, of
/// `Pack::unpack` and of the account's `unpack_from_slice` gives exactly
/// `unpacked_token_amount`: the length check, the three option tags, the
/// state byte, then the initialized check, with the balance read as the
/// little-endian `u64` at bytes 64..72.
#[verifier::external_body]
pub(crate) fn unpack_token_amount(data: &Vec<u8>) -> (r: Result<u64, InstructionError>)
    ensures
        r == unpacked_token_amount(data@),
{
    match RawTokenAccount::unpack(&data[..]) {
        Ok(account) => Ok(account.amount),
        Err(ProgramError::UninitializedAccount) => Err(InstructionError::UninitializedAccount),
        Err(_) => Err(InstructionError::InvalidAccountData),
    }
}

/// Unpacks a token account (`spl_token::state::Account::unpack`) from
/// `data`, sets its balance to `amount` and packs it back
/// (`spl_token::state::Account::pack`) into the same data; `pack` takes the
/// whole account, which only unpacking the same data gives. Where the
/// unpacking fails, its error is returned and the data is not touched. Else
/// packing cannot fail (the length is already 165), and the source of
/// `pack_into_slice` shows that it writes back every field as it was read
/// (an empty option leaves its body bytes untouched), so that only the eight
/// balance bytes change.
#[verifier::external_body]
pub(crate) fn pack_token_amount(data: &mut Vec<u8>, amount: u64) -> (r: Result<(), InstructionError>)
    ensures
        unpacked_token_amount(old(data)@) is Err ==> r is Err && r->Err_0 == unpacked_token_amount(
            old(data)@,
        )->Err_0 && final(data)@ == old(data)@,
        unpacked_token_amount(old(data)@) is Ok ==> r is Ok && final(data)@ == with_token_amount(
            old(data)@,
            amount,
        ),
{
    let mut account = match RawTokenAccount::unpack(&data[..]) {
        Ok(account) => account,
        Err(ProgramError::UninitializedAccount) => return Err(InstructionError::UninitializedAccount),
        Err(_) => return Err(InstructionError::InvalidAccountData),
    };
    account.amount = amount;
    match RawTokenAccount::pack(account, &mut data[..]) {
        Ok(()) => Ok(()),
        Err(_) => Err(InstructionError::InvalidAccountData),
    }
}

} // verus!
