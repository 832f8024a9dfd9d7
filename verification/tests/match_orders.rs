use mb_dark_trades::constants::MATCHER_PUBKEY;
use mb_dark_trades::error::{DarkTradeErrors, InstructionError};
use mb_dark_trades::instructions::match_orders::{
    check_intents_open, exchange_tokens, plan_trade, read_feed_price, MatchOrders, Trade,
};
use mb_dark_trades::state::IntentAccount;

fn token_data(amount: u64) -> Vec<u8> {
    let mut data = vec![0u8; 165];
    for i in 0..32 {
        data[i] = 7;
        data[32 + i] = 9;
    }
    data[64..72].copy_from_slice(&amount.to_le_bytes());
    data[108] = 1;
    data
}

fn amount_of(data: &[u8]) -> u64 {
    u64::from_le_bytes(data[64..72].try_into().unwrap())
}

fn feed(price: u64) -> Vec<u8> {
    let mut data = vec![3u8; 100];
    data[73..81].copy_from_slice(&price.to_le_bytes());
    data
}

fn intent(side: u8, quantity: u64, limit_price: u64) -> IntentAccount {
    IntentAccount {
        id: 1,
        owner: [side; 32],
        side,
        quantity,
        limit_price,
        expiry: 1_000,
        is_matched: false,
    }
}

fn orders(seller: IntentAccount, buyer: IntentAccount, price: u64, buyer_usdc: u64, seller_usdc: u64) -> MatchOrders {
    MatchOrders {
        matcher: MATCHER_PUBKEY,
        seller_intent: seller,
        buyer_intent: buyer,
        seller_sol_deposit_lamports: 10_000_000_000,
        buyer_usdc_deposit_lamports: 1_000_000,
        seller_usdc_vault: token_data(seller_usdc),
        buyer_usdc_vault: token_data(buyer_usdc),
        pyth_price_feed: feed(price),
    }
}

#[test]
fn match_moves_sol_and_tokens_and_fills_smaller_intent() {
    // 2 SOL for sale at >= 140, 3 SOL wanted at <= 160, price 150 (token units per SOL).
    let mut m = orders(intent(1, 2_000_000_000, 140), intent(0, 3_000_000_000, 160), 150, 1_000, 50);
    assert!(!m.would_abort(500));
    assert_eq!(m.handler(500), Ok(()));
    assert_eq!(m.seller_sol_deposit_lamports, 8_000_000_000);
    assert_eq!(m.buyer_usdc_deposit_lamports, 2_001_000_000);
    assert_eq!(amount_of(&m.buyer_usdc_vault), 700);
    assert_eq!(amount_of(&m.seller_usdc_vault), 350);
    assert_eq!(m.seller_intent.quantity, 0);
    assert!(m.seller_intent.is_matched);
    assert_eq!(m.buyer_intent.quantity, 1_000_000_000);
    assert!(!m.buyer_intent.is_matched);
    // only the balance bytes of the vaults changed
    let expected = token_data(700);
    assert_eq!(m.buyer_usdc_vault, expected);
}

#[test]
fn matched_pair_cannot_match_again() {
    let mut m = orders(intent(1, 2_000_000_000, 140), intent(0, 3_000_000_000, 160), 150, 1_000, 50);
    assert_eq!(m.handler(500), Ok(()));
    assert_eq!(m.handler(501), Err(InstructionError::Custom(DarkTradeErrors::AlreadyMatched)));
}

#[test]
fn equal_quantities_fill_both_intents() {
    let mut m = orders(intent(1, 1_000_000_000, 100), intent(0, 1_000_000_000, 100), 100, 100, 0);
    assert_eq!(m.handler(0), Ok(()));
    assert!(m.seller_intent.is_matched && m.buyer_intent.is_matched);
    assert_eq!(amount_of(&m.buyer_usdc_vault), 0);
    assert_eq!(amount_of(&m.seller_usdc_vault), 100);
}

fn assert_unchanged_error(mut m: MatchOrders, now: i64, e: InstructionError) {
    let before = (
        m.seller_intent,
        m.buyer_intent,
        m.seller_sol_deposit_lamports,
        m.buyer_usdc_deposit_lamports,
        m.seller_usdc_vault.clone(),
        m.buyer_usdc_vault.clone(),
    );
    assert_eq!(m.handler(now), Err(e));
    let after = (
        m.seller_intent,
        m.buyer_intent,
        m.seller_sol_deposit_lamports,
        m.buyer_usdc_deposit_lamports,
        m.seller_usdc_vault.clone(),
        m.buyer_usdc_vault.clone(),
    );
    assert_eq!(before, after);
}

#[test]
fn already_matched_intent_is_refused() {
    let mut seller = intent(1, 5, 1);
    seller.is_matched = true;
    let m = orders(seller, intent(0, 5, 1), 1, 0, 0);
    assert_unchanged_error(m, 0, InstructionError::Custom(DarkTradeErrors::AlreadyMatched));
}

#[test]
fn expired_intent_is_refused() {
    let m = orders(intent(1, 5, 1), intent(0, 5, 1), 1, 0, 0);
    assert_unchanged_error(m, 1_000, InstructionError::Custom(DarkTradeErrors::IntentExpired));
}

#[test]
fn prices_that_do_not_cross_are_refused() {
    let m = orders(intent(1, 5, 200), intent(0, 5, 300), 150, 0, 0);
    assert_unchanged_error(m, 0, InstructionError::Custom(DarkTradeErrors::NoMatchFound));
    let m = orders(intent(1, 5, 100), intent(0, 5, 120), 150, 0, 0);
    assert_unchanged_error(m, 0, InstructionError::Custom(DarkTradeErrors::NoMatchFound));
}

#[test]
fn overflowing_trade_value_is_refused() {
    let m = orders(intent(1, u64::MAX, 2), intent(0, u64::MAX, 2), 2, 0, 0);
    assert_unchanged_error(m, 0, InstructionError::Custom(DarkTradeErrors::ArithmeticError));
}

#[test]
fn buyer_without_enough_tokens_is_refused() {
    let m = orders(intent(1, 2_000_000_000, 140), intent(0, 3_000_000_000, 160), 150, 299, 50);
    assert_unchanged_error(m, 0, InstructionError::Custom(DarkTradeErrors::InsufficientFunds));
}

#[test]
fn seller_balance_overflow_is_refused() {
    let m = orders(intent(1, 2_000_000_000, 140), intent(0, 3_000_000_000, 160), 150, 1_000, u64::MAX - 10);
    assert_unchanged_error(m, 0, InstructionError::Custom(DarkTradeErrors::InsufficientFunds));
}

#[test]
fn malformed_vault_data_is_refused() {
    let mut m = orders(intent(1, 2_000_000_000, 140), intent(0, 3_000_000_000, 160), 150, 1_000, 0);
    m.buyer_usdc_vault.push(0);
    assert_unchanged_error(m, 0, InstructionError::InvalidAccountData);
    let mut m = orders(intent(1, 2_000_000_000, 140), intent(0, 3_000_000_000, 160), 150, 1_000, 0);
    m.seller_usdc_vault[108] = 0;
    assert_unchanged_error(m, 0, InstructionError::UninitializedAccount);
    let mut m = orders(intent(1, 2_000_000_000, 140), intent(0, 3_000_000_000, 160), 150, 1_000, 0);
    m.seller_usdc_vault[72] = 2;
    assert_unchanged_error(m, 0, InstructionError::InvalidAccountData);
}

#[test]
fn buyer_shortfall_is_reported_before_bad_seller_vault() {
    let mut m = orders(intent(1, 2_000_000_000, 140), intent(0, 3_000_000_000, 160), 150, 10, 0);
    m.seller_usdc_vault.truncate(10);
    assert_unchanged_error(m, 0, InstructionError::Custom(DarkTradeErrors::InsufficientFunds));
}

#[test]
fn would_abort_flags_short_feed_and_lamport_shortfall() {
    let mut m = orders(intent(1, 2_000_000_000, 140), intent(0, 3_000_000_000, 160), 150, 1_000, 0);
    m.pyth_price_feed.truncate(80);
    assert!(m.would_abort(0));
    let mut m = orders(intent(1, 2_000_000_000, 140), intent(0, 3_000_000_000, 160), 150, 1_000, 0);
    m.seller_sol_deposit_lamports = 1_999_999_999;
    assert!(m.would_abort(0));
    let mut m = orders(intent(1, 2_000_000_000, 140), intent(0, 3_000_000_000, 160), 150, 1_000, 0);
    m.buyer_usdc_deposit_lamports = u64::MAX - 1;
    assert!(m.would_abort(0));
    // an expired pair fails with an error and does not abort, whatever the feed
    let mut m = orders(intent(1, 2_000_000_000, 140), intent(0, 3_000_000_000, 160), 150, 1_000, 0);
    m.pyth_price_feed.clear();
    assert!(!m.would_abort(5_000));
}

#[test]
fn trade_plan_uses_smaller_quantity_and_scales_value() {
    let s = intent(1, 2_500_000_000, 100);
    let b = intent(0, 4_000_000_000, 300);
    assert_eq!(
        plan_trade(&s, &b, 200),
        Ok(Trade { quantity: 2_500_000_000, value: 500, price: 200 })
    );
    // value rounds down
    let s = intent(1, 1_999_999_999, 1);
    assert_eq!(plan_trade(&s, &b, 1), Ok(Trade { quantity: 1_999_999_999, value: 1, price: 1 }));
    // limit prices equal to the price cross
    let s = intent(1, 10, 7);
    let b = intent(0, 10, 7);
    assert_eq!(plan_trade(&s, &b, 7), Ok(Trade { quantity: 10, value: 0, price: 7 }));
}

#[test]
fn intents_open_checks() {
    let s = intent(1, 1, 1);
    let b = intent(0, 1, 1);
    assert_eq!(check_intents_open(&s, &b, 999), Ok(()));
    assert_eq!(
        check_intents_open(&s, &b, 1_000),
        Err(InstructionError::Custom(DarkTradeErrors::IntentExpired))
    );
}

#[test]
fn token_exchange_orders_errors() {
    assert_eq!(exchange_tokens(Ok(10), Ok(1), 4), Ok((6, 5)));
    assert_eq!(
        exchange_tokens(Err(InstructionError::UninitializedAccount), Ok(1), 4),
        Err(InstructionError::UninitializedAccount)
    );
    assert_eq!(
        exchange_tokens(Ok(10), Err(InstructionError::InvalidAccountData), 4),
        Err(InstructionError::InvalidAccountData)
    );
}

#[test]
fn price_is_read_little_endian_at_offset() {
    assert_eq!(read_feed_price(&feed(0x0102_0304_0506_0708)), 0x0102_0304_0506_0708);
}

#[test]
fn only_the_matcher_may_match() {
    let mut m = orders(intent(1, 2_000_000_000, 140), intent(0, 3_000_000_000, 160), 150, 1_000, 50);
    m.matcher[0] ^= 0xff;
    assert!(!m.would_abort(0));
    assert_unchanged_error(m, 0, InstructionError::ConstraintAddress);
}
