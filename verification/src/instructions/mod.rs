//! The program's instructions and the seed scheme shared by all of them.

pub mod create_permission;
pub mod delegate_pda;
pub mod deposit;
pub mod initialize;
pub mod match_orders;
pub mod place_intent;
pub mod settle_and_undelegate;
pub mod withdraw;

use vstd::prelude::*;
use vstd::bytes::{
    lemma_auto_spec_u64_to_from_le_bytes, spec_u64_from_le_bytes, spec_u64_to_le_bytes,
    u64_to_le_bytes,
};
use vstd::slice::slice_to_vec;
use crate::constants::{DEPOSIT_ACCOUNT_SEEDS, INTENT_ACCOUNT_SEEDS, MATCHER_PUBKEY, PROGRAM_ID};
use crate::pda::{program_address_search, try_find_program_address};
use crate::error::InstructionError;

verus! {

broadcast use vstd::array::group_array_axioms;

/// A 32-byte account address.
pub type Address = [u8; 32];

/// Names one of the program-derived accounts of a user: the deposit account
/// or the intent account of the intent `id` on `side`.
#[derive(Debug, Clone, Copy, PartialEq, Eq)]
pub enum AccountType {
    DepositAccount { side: u8, user: Address, id: u64 },
    Intent { side: u8, user: Address, id: u64 },
}

/// The four seeds of an account: the kind's prefix, the side, the user's
/// address and the id in little-endian order.
pub open spec fn account_seeds(account_type: AccountType) -> Seq<Seq<u8>> {
    match account_type {
        AccountType::Intent { side, user, id } => seq![
            INTENT_ACCOUNT_SEEDS@,
            seq![side],
            user@,
            spec_u64_to_le_bytes(id),
        ],
        AccountType::DepositAccount { side, user, id } => seq![
            DEPOSIT_ACCOUNT_SEEDS@,
            seq![side],
            user@,
            spec_u64_to_le_bytes(id),
        ],
    }
}

/// What a list of byte strings holds.
pub open spec fn bytes_list(v: Vec<Vec<u8>>) -> Seq<Seq<u8>> {
    v@.map_values(|s: Vec<u8>| s@)
}

/// The seeds followed by the one-byte bump seed.
pub open spec fn seeds_with_bump(seeds: Seq<Seq<u8>>, bump: u8) -> Seq<Seq<u8>> {
    seeds.push(seq![bump])
}

/// Builds the seeds of an account; the single source of every account seed.
pub fn derive_seeds_from_account_type(account_type: &AccountType) -> (r: Vec<Vec<u8>>)
    ensures
        bytes_list(r) == account_seeds(*account_type),
{
    let (prefix, side, user, id) = match account_type {
        AccountType::Intent { side, user, id } => (
            slice_to_vec(INTENT_ACCOUNT_SEEDS.as_slice()),
            *side,
            user,
            *id,
        ),
        AccountType::DepositAccount { side, user, id } => (
            slice_to_vec(DEPOSIT_ACCOUNT_SEEDS.as_slice()),
            *side,
            user,
            *id,
        ),
    };
    let mut side_seed: Vec<u8> = Vec::new();
    side_seed.push(side);
    let mut seeds: Vec<Vec<u8>> = Vec::new();
    seeds.push(prefix);
    seeds.push(side_seed);
    seeds.push(slice_to_vec(user.as_slice()));
    seeds.push(u64_to_le_bytes(id));
    assert(seeds@[1]@ =~= seq![side]);
    assert(bytes_list(seeds) =~= account_seeds(*account_type));
    seeds
}

/// The address of an account of the program and its bump seed: what the
/// program-address search finds for the account's seeds under the program's
/// id, or nothing where no bump exists.
pub fn derive_account_address(account_type: &AccountType) -> (r: Option<(Address, u8)>)
    ensures
        r == program_address_search(account_seeds(*account_type), PROGRAM_ID),
        r matches Some((_, bump)) ==> bump >= 1,
{
    try_find_program_address(&derive_seeds_from_account_type(account_type), &PROGRAM_ID)
}

/// Appends the one-byte bump seed to a list of seeds, as a signer needs them.
pub fn append_bump_seed(seeds: Vec<Vec<u8>>, bump: u8) -> (r: Vec<Vec<u8>>)
    ensures
        bytes_list(r) == seeds_with_bump(bytes_list(seeds), bump),
{
    let mut seeds = seeds;
    let ghost before = bytes_list(seeds);
    let mut bump_seed: Vec<u8> = Vec::new();
    bump_seed.push(bump);
    assert(bump_seed@ =~= seq![bump]);
    seeds.push(bump_seed);
    assert(bytes_list(seeds) =~= seeds_with_bump(before, bump));
    seeds
}

/// Checks that `key` is the matcher's address.
pub fn check_matcher(key: &Address) -> (r: Result<(), InstructionError>)
    ensures
        r is Ok <==> key@ == MATCHER_PUBKEY@,
        r is Err ==> r->Err_0 == InstructionError::ConstraintAddress,
{
    let mut i: usize = 0;
    while i < 32
        invariant
            i <= 32,
            forall|j: int| 0 <= j < i ==> key@[j] == MATCHER_PUBKEY@[j],
        decreases 32 - i,
    {
        if key[i] != MATCHER_PUBKEY[i] {
            return Err(InstructionError::ConstraintAddress);
        }
        i = i + 1;
    }
    assert(key@ =~= MATCHER_PUBKEY@);
    Ok(())
}

/// The seeds of an account, byte for byte: the kind's prefix
/// (`dark_trades_intents` or `dark_trades_deposits`), the one side byte, the
/// user's 32 key bytes in order, and the 8 bytes that read back as the id in
/// little-endian order.
pub proof fn lemma_account_seeds_layout(account_type: AccountType)
    ensures
        ({
            let seeds = account_seeds(account_type);
            let (side, user, id) = match account_type {
                AccountType::Intent { side, user, id } => (side, user, id),
                AccountType::DepositAccount { side, user, id } => (side, user, id),
            };
            &&& seeds.len() == 4
            &&& account_type is Intent ==> seeds[0] == INTENT_ACCOUNT_SEEDS@
            &&& account_type is DepositAccount ==> seeds[0] == DEPOSIT_ACCOUNT_SEEDS@
            &&& seeds[1].len() == 1 && seeds[1][0] == side
            &&& seeds[2].len() == 32
            &&& forall|j: int| 0 <= j < 32 ==> seeds[2][j] == user[j]
            &&& seeds[3].len() == 8
            &&& spec_u64_from_le_bytes(seeds[3]) == id
        }),
{
    lemma_auto_spec_u64_to_from_le_bytes();
}

/// Distinct accounts never share their seeds: the seeds determine the kind
/// of account, its side, its user and its id.
pub proof fn lemma_account_seeds_injective(a: AccountType, b: AccountType)
    requires
        account_seeds(a) == account_seeds(b),
    ensures
        a == b,
{
    lemma_auto_spec_u64_to_from_le_bytes();
    let sa = account_seeds(a);
    let sb = account_seeds(b);
    assert(sa[0] == sb[0]);
    assert(sa[1] == sb[1]);
    assert(sa[2] == sb[2]);
    assert(sa[3] == sb[3]);
    match (a, b) {
        (AccountType::Intent { side: s1, user: u1, id: i1 },
         AccountType::Intent { side: s2, user: u2, id: i2 }) => {
            assert(seq![s1][0] == s1 && seq![s2][0] == s2);
            assert(sa[1][0] == sb[1][0]);
            assert(s1 == s2);
            assert(u1@ =~= u2@);
            assert(u1 == u2);
            assert(spec_u64_to_le_bytes(i1) == spec_u64_to_le_bytes(i2));
            assert(i1 == i2);
        },
        (AccountType::DepositAccount { side: s1, user: u1, id: i1 },
         AccountType::DepositAccount { side: s2, user: u2, id: i2 }) => {
            assert(seq![s1][0] == s1 && seq![s2][0] == s2);
            assert(sa[1][0] == sb[1][0]);
            assert(s1 == s2);
            assert(u1@ =~= u2@);
            assert(u1 == u2);
            assert(spec_u64_to_le_bytes(i1) == spec_u64_to_le_bytes(i2));
            assert(i1 == i2);
        },
        (AccountType::Intent { .. }, AccountType::DepositAccount { .. }) => {
            assert(sa[0].len() == 19 && sb[0].len() == 20);
        },
        (AccountType::DepositAccount { .. }, AccountType::Intent { .. }) => {
            assert(sa[0].len() == 20 && sb[0].len() == 19);
        },
    }
}

} // verus!
