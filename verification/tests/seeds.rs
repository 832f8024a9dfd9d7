use anchor_lang::prelude::Pubkey;
use mb_dark_trades::constants::{DEPOSIT_ACCOUNT_SEEDS, INTENT_ACCOUNT_SEEDS, PROGRAM_ID};
use mb_dark_trades::instructions::create_permission::CreatePermission;
use mb_dark_trades::instructions::delegate_pda::DelegatePda;
use mb_dark_trades::instructions::{
    append_bump_seed, derive_account_address, derive_seeds_from_account_type, AccountType,
};

#[test]
fn constants_match_their_text() {
    assert_eq!(&DEPOSIT_ACCOUNT_SEEDS[..], b"dark_trades_deposits");
    assert_eq!(&INTENT_ACCOUNT_SEEDS[..], b"dark_trades_intents");
    assert_eq!(mb_dark_trades::constants::DARK_CONFIG_SEEDS, *b"dark_trades_config");
    let id: Pubkey = "65GJ4WBAz7oF5TdPH8tJpsLkmq2AwT92pQAyi5decD1U".parse().unwrap();
    assert_eq!(id.to_bytes(), PROGRAM_ID);
    let matcher: Pubkey = "Bgsbppow2TFYGs71xohv3aNdDbQGoXGZ7ez1VBLc8kp9".parse().unwrap();
    assert_eq!(matcher.to_bytes(), mb_dark_trades::constants::MATCHER_PUBKEY);
}

#[test]
fn intent_and_deposit_seeds() {
    let user = [5u8; 32];
    let seeds = derive_seeds_from_account_type(&AccountType::Intent { side: 1, user, id: 0x0102 });
    assert_eq!(
        seeds,
        vec![b"dark_trades_intents".to_vec(), vec![1], user.to_vec(), vec![2, 1, 0, 0, 0, 0, 0, 0]]
    );
    let seeds = derive_seeds_from_account_type(&AccountType::DepositAccount { side: 0, user, id: 7 });
    assert_eq!(
        seeds,
        vec![b"dark_trades_deposits".to_vec(), vec![0], user.to_vec(), 7u64.to_le_bytes().to_vec()]
    );
}

#[test]
fn different_accounts_have_different_seeds() {
    let user = [5u8; 32];
    let a = derive_seeds_from_account_type(&AccountType::Intent { side: 0, user, id: 7 });
    let b = derive_seeds_from_account_type(&AccountType::DepositAccount { side: 0, user, id: 7 });
    let c = derive_seeds_from_account_type(&AccountType::Intent { side: 0, user, id: 8 });
    assert_ne!(a, b);
    assert_ne!(a, c);
}

#[test]
fn bump_is_appended_last() {
    let seeds = append_bump_seed(vec![vec![1, 2], vec![3]], 254);
    assert_eq!(seeds, vec![vec![1, 2], vec![3], vec![254]]);
}

#[test]
fn permission_seeds_carry_the_program_address_bump() {
    let account_type = AccountType::DepositAccount { side: 1, user: [9u8; 32], id: 42 };
    let seeds = CreatePermission {}.handler(&account_type).unwrap();
    assert_eq!(seeds.len(), 5);
    let plain = derive_seeds_from_account_type(&account_type);
    assert_eq!(&seeds[..4], &plain[..]);
    let refs: Vec<&[u8]> = plain.iter().map(|s| s.as_slice()).collect();
    let (_, bump) = Pubkey::find_program_address(&refs, &Pubkey::new_from_array(PROGRAM_ID));
    assert_eq!(seeds[4], vec![bump]);
    assert_eq!(CreatePermission::signer_seeds_with_bump(&account_type, bump), seeds);
}

#[test]
fn delegation_uses_the_account_seeds() {
    let account_type = AccountType::Intent { side: 0, user: [1u8; 32], id: 3 };
    let request = DelegatePda { validator: Some([2u8; 32]) }.handler(&account_type);
    assert_eq!(request.seeds, derive_seeds_from_account_type(&account_type));
    assert_eq!(request.validator, Some([2u8; 32]));
    let request = DelegatePda { validator: None }.handler(&account_type);
    assert_eq!(request.validator, None);
}

#[test]
fn account_addresses_follow_the_seed_scheme() {
    let program = Pubkey::new_from_array(PROGRAM_ID);
    let user = Pubkey::new_from_array([9u8; 32]);
    let id: u64 = 42;
    let (deposit, deposit_bump) = Pubkey::find_program_address(
        &[b"dark_trades_deposits", &[1], user.as_ref(), &id.to_le_bytes()],
        &program,
    );
    assert_eq!(
        derive_account_address(&AccountType::DepositAccount { side: 1, user: [9u8; 32], id }),
        Some((deposit.to_bytes(), deposit_bump))
    );
    let (intent, intent_bump) = Pubkey::find_program_address(
        &[b"dark_trades_intents", &[0], user.as_ref(), &id.to_le_bytes()],
        &program,
    );
    assert_eq!(
        derive_account_address(&AccountType::Intent { side: 0, user: [9u8; 32], id }),
        Some((intent.to_bytes(), intent_bump))
    );
    assert_ne!(deposit, intent);
}
