//! Finding the bump seed of a program-derived address.

use vstd::prelude::*;
use anchor_lang::prelude::Pubkey;
use crate::instructions::{bytes_list, Address};

verus! {

/// What the search for a program-derived address over `seeds` and
/// `program_id` finds: the address and its bump seed, or nothing.
pub uninterp spec fn program_address_search(seeds: Seq<Seq<u8>>, program_id: Address) -> Option<
    (Address, u8),
>;

/// Searches for the program-derived address of `seeds` under `program_id`
/// (`Pubkey::try_find_program_address`). Its source shows: bumps are tried
/// from 255 down to 1, so a found bump is never 0; nothing is found where
/// the seeds with the bump appended would be more than 16 seeds, or where a
/// seed is longer than 32 bytes. Which bump is found, and the address, are
/// left to the name `program_address_search`: they come from a hash.
#[verifier::external_body]
pub(crate) fn try_find_program_address(seeds: &Vec<Vec<u8>>, program_id: &Address) -> (r: Option<
    (Address, u8),
>)
    ensures
        r == program_address_search(bytes_list(*seeds), *program_id),
        r matches Some((_, bump)) ==> bump >= 1,
        bytes_list(*seeds).len() >= 16 ==> r is None,
        (exists|i: int| 0 <= i < seeds@.len() && #[trigger] seeds@[i]@.len() > 32) ==> r is None,
{
    let refs: Vec<&[u8]> = seeds.iter().map(|s| s.as_slice()).collect();
    match Pubkey::try_find_program_address(&refs, &Pubkey::new_from_array(*program_id)) {
        Some((address, bump)) => Some((address.to_bytes(), bump)),
        None => None,
    }
}

} // verus!
