//! Matching a sell intent against a buy intent at the oracle price.

use vstd::prelude::*;
use vstd::bytes::{spec_u64_from_le_bytes, u64_from_le_bytes};
use vstd::slice::slice_subrange;
use crate::constants::MATCHER_PUBKEY;
use crate::error::{DarkTradeErrors, InstructionError};
use crate::instructions::{check_matcher, Address};
use crate::instructions::withdraw::{withdrawal_allowed, withdrawal_payout, Withdraw};
use crate::state::IntentAccount;
use crate::token::{
    lemma_unpack_after_write, pack_token_amount, stored_token_amount, unpack_token_amount,
    unpacked_token_amount, unpacks_to, with_token_amount,
};

verus! {

/// Lamports in one SOL: a trade's value in token units is its quantity in
/// lamports times the price, divided by this.
pub const LAMPORTS_PER_SOL: u64 = 1_000_000_000;

/// Offset of the little-endian price inside the price feed's data.
pub const PRICE_OFFSET: usize = 73;

/// What a match reads and writes: the signer, both intents, the lamports of
/// both deposit accounts, the data of both token vaults and of the price
/// feed.
pub struct MatchOrders {
    /// The signer, who must be the matcher.
    pub matcher: Address,
    pub seller_intent: IntentAccount,
    pub buyer_intent: IntentAccount,
    /// Lamports of the seller's deposit account, which hold the SOL for sale.
    pub seller_sol_deposit_lamports: u64,
    /// Lamports of the buyer's deposit account, which receive the SOL.
    pub buyer_usdc_deposit_lamports: u64,
    /// Data of the seller's token vault, which receives the payment.
    pub seller_usdc_vault: Vec<u8>,
    /// Data of the buyer's token vault, which pays.
    pub buyer_usdc_vault: Vec<u8>,
    /// Data of the price feed account.
    pub pyth_price_feed: Vec<u8>,
}

/// The mathematical state of a match.
pub struct MatchOrdersView {
    pub matcher: Address,
    pub seller_intent: IntentAccount,
    pub buyer_intent: IntentAccount,
    pub seller_lamports: u64,
    pub buyer_lamports: u64,
    pub seller_vault: Seq<u8>,
    pub buyer_vault: Seq<u8>,
    pub price_feed: Seq<u8>,
}

impl View for MatchOrders {
    type V = MatchOrdersView;

    open spec fn view(&self) -> MatchOrdersView {
        MatchOrdersView {
            matcher: self.matcher,
            seller_intent: self.seller_intent,
            buyer_intent: self.buyer_intent,
            seller_lamports: self.seller_sol_deposit_lamports,
            buyer_lamports: self.buyer_usdc_deposit_lamports,
            seller_vault: self.seller_usdc_vault@,
            buyer_vault: self.buyer_usdc_vault@,
            price_feed: self.pyth_price_feed@,
        }
    }
}

/// The outcome of a crossing: how many lamports change hands, for how many
/// token units, at which price.
#[derive(Debug, Clone, Copy, PartialEq, Eq, Structural)]
pub struct Trade {
    pub quantity: u64,
    pub value: u64,
    pub price: u64,
}

/// The price that the feed holds: the little-endian word at bytes 73..81.
pub open spec fn feed_price(feed: Seq<u8>) -> u64 {
    spec_u64_from_le_bytes(feed.subrange(73, 81))
}

/// The smaller of two quantities.
pub open spec fn min_u64(a: u64, b: u64) -> u64 {
    if a <= b {
        a
    } else {
        b
    }
}

/// Neither intent is matched yet, and neither has expired at `now`.
pub open spec fn spec_check_intents_open(
    seller: IntentAccount,
    buyer: IntentAccount,
    now: i64,
) -> Result<(), InstructionError> {
    if seller.is_matched || buyer.is_matched {
        Err(InstructionError::Custom(DarkTradeErrors::AlreadyMatched))
    } else if !(now < seller.expiry && now < buyer.expiry) {
        Err(InstructionError::Custom(DarkTradeErrors::IntentExpired))
    } else {
        Ok(())
    }
}

/// The trade at `price`: the prices cross when the seller asks at most the
/// price and the buyer bids at least the price; the smaller quantity is
/// traded, and its value must fit in a `u64` before the division.
pub open spec fn spec_plan_trade(seller: IntentAccount, buyer: IntentAccount, price: u64) -> Result<
    Trade,
    InstructionError,
> {
    if !(seller.limit_price <= price && buyer.limit_price >= price) {
        Err(InstructionError::Custom(DarkTradeErrors::NoMatchFound))
    } else {
        let quantity = min_u64(seller.quantity, buyer.quantity);
        if quantity * price > u64::MAX {
            Err(InstructionError::Custom(DarkTradeErrors::ArithmeticError))
        } else {
            Ok(Trade { quantity, value: (quantity * price / LAMPORTS_PER_SOL as int) as u64, price })
        }
    }
}

/// The two vault balances after the payment of `value`, from what unpacking
/// the buyer's and the seller's vault gave: the buyer's unpacking error, a
/// shortfall, the seller's unpacking error or an overflow, in this order.
pub open spec fn spec_exchange_tokens(
    buyer_unpacked: Result<u64, InstructionError>,
    seller_unpacked: Result<u64, InstructionError>,
    value: u64,
) -> Result<(u64, u64), InstructionError> {
    match buyer_unpacked {
        Err(e) => Err(e),
        Ok(buyer_amount) => if buyer_amount < value {
            Err(InstructionError::Custom(DarkTradeErrors::InsufficientFunds))
        } else {
            match seller_unpacked {
                Err(e) => Err(e),
                Ok(seller_amount) => if seller_amount + value > u64::MAX {
                    Err(InstructionError::Custom(DarkTradeErrors::InsufficientFunds))
                } else {
                    Ok(((buyer_amount - value) as u64, (seller_amount + value) as u64))
                },
            }
        },
    }
}

/// An intent after `quantity` of it was traded: it is matched once nothing
/// is left.
pub open spec fn filled_intent(intent: IntentAccount, quantity: u64) -> IntentAccount {
    IntentAccount {
        quantity: (intent.quantity - quantity) as u64,
        is_matched: intent.is_matched || intent.quantity - quantity == 0,
        ..intent
    }
}

impl MatchOrdersView {
    /// The match runs to its end without aborting: the price feed is long
    /// enough to be read once the intents are open, and moving the traded
    /// lamports neither underflows the seller's nor overflows the buyer's
    /// balance.
    pub open spec fn runs_to_completion(self, now: i64) -> bool {
        self.matcher@ == MATCHER_PUBKEY@ && spec_check_intents_open(
            self.seller_intent,
            self.buyer_intent,
            now,
        ) is Ok ==> {
            &&& self.price_feed.len() >= 81
            &&& spec_plan_trade(
                self.seller_intent,
                self.buyer_intent,
                feed_price(self.price_feed),
            ) matches Ok(t) ==> {
                &&& self.seller_lamports >= t.quantity
                &&& self.buyer_lamports + t.quantity <= u64::MAX
            }
        }
    }

    /// The state after matching at `now`, or the error that stops the match:
    /// a signer other than the matcher, an intent that is matched or expired,
    /// prices that do not cross, an overflowing value, then the vaults'
    /// errors.
    pub open spec fn match_result(self, now: i64) -> Result<MatchOrdersView, InstructionError> {
        if self.matcher@ != MATCHER_PUBKEY@ {
            Err(InstructionError::ConstraintAddress)
        } else {
            match spec_check_intents_open(self.seller_intent, self.buyer_intent, now) {
                Err(e) => Err(e),
                Ok(_) => match spec_plan_trade(
                    self.seller_intent,
                    self.buyer_intent,
                    feed_price(self.price_feed),
                ) {
                    Err(e) => Err(e),
                    Ok(t) => match spec_exchange_tokens(
                        unpacked_token_amount(self.buyer_vault),
                        unpacked_token_amount(self.seller_vault),
                        t.value,
                    ) {
                        Err(e) => Err(e),
                        Ok((buyer_amount, seller_amount)) => Ok(
                            MatchOrdersView {
                                matcher: self.matcher,
                                seller_intent: filled_intent(self.seller_intent, t.quantity),
                                buyer_intent: filled_intent(self.buyer_intent, t.quantity),
                                seller_lamports: (self.seller_lamports - t.quantity) as u64,
                                buyer_lamports: (self.buyer_lamports + t.quantity) as u64,
                                seller_vault: with_token_amount(self.seller_vault, seller_amount),
                                buyer_vault: with_token_amount(self.buyer_vault, buyer_amount),
                                price_feed: self.price_feed,
                            },
                        ),
                    },
                },
            }
        }
    }
}

/// Checks that neither intent is matched and neither has expired at `now`.
pub fn check_intents_open(seller: &IntentAccount, buyer: &IntentAccount, now: i64) -> (r: Result<
    (),
    InstructionError,
>)
    ensures
        r == spec_check_intents_open(*seller, *buyer, now),
{
    if seller.is_matched || buyer.is_matched {
        return Err(InstructionError::Custom(DarkTradeErrors::AlreadyMatched));
    }
    if !(now < seller.expiry && now < buyer.expiry) {
        return Err(InstructionError::Custom(DarkTradeErrors::IntentExpired));
    }
    Ok(())
}

/// Reads the price from the price feed's data.
pub fn read_feed_price(feed: &Vec<u8>) -> (r: u64)
    requires
        feed@.len() >= 81,
    ensures
        r == feed_price(feed@),
{
    u64_from_le_bytes(slice_subrange(feed.as_slice(), PRICE_OFFSET, 81))
}

/// Decides whether the intents cross at `price` and what is traded.
pub fn plan_trade(seller: &IntentAccount, buyer: &IntentAccount, price: u64) -> (r: Result<
    Trade,
    InstructionError,
>)
    ensures
        r == spec_plan_trade(*seller, *buyer, price),
{
    if seller.limit_price <= price && buyer.limit_price >= price {
        let quantity = if seller.quantity <= buyer.quantity {
            seller.quantity
        } else {
            buyer.quantity
        };
        match quantity.checked_mul(price) {
            Some(product) => Ok(Trade { quantity, value: product / LAMPORTS_PER_SOL, price }),
            None => Err(InstructionError::Custom(DarkTradeErrors::ArithmeticError)),
        }
    } else {
        Err(InstructionError::Custom(DarkTradeErrors::NoMatchFound))
    }
}

/// Computes both vault balances after the payment of `value`, from what
/// unpacking each vault gave.
pub fn exchange_tokens(
    buyer_unpacked: Result<u64, InstructionError>,
    seller_unpacked: Result<u64, InstructionError>,
    value: u64,
) -> (r: Result<(u64, u64), InstructionError>)
    ensures
        r == spec_exchange_tokens(buyer_unpacked, seller_unpacked, value),
{
    let buyer_amount = match buyer_unpacked {
        Ok(amount) => amount,
        Err(e) => return Err(e),
    };
    let buyer_left = match buyer_amount.checked_sub(value) {
        Some(left) => left,
        None => return Err(InstructionError::Custom(DarkTradeErrors::InsufficientFunds)),
    };
    let seller_amount = match seller_unpacked {
        Ok(amount) => amount,
        Err(e) => return Err(e),
    };
    match seller_amount.checked_add(value) {
        Some(total) => Ok((buyer_left, total)),
        None => Err(InstructionError::Custom(DarkTradeErrors::InsufficientFunds)),
    }
}

impl MatchOrders {
    /// Whether matching at `now` would abort the instruction instead of
    /// ending with a result.
    pub fn would_abort(&self, now: i64) -> (r: bool)
        ensures
            r == !self@.runs_to_completion(now),
    {
        if check_matcher(&self.matcher).is_err() {
            return false;
        }
        if check_intents_open(&self.seller_intent, &self.buyer_intent, now).is_err() {
            return false;
        }
        if self.pyth_price_feed.len() < 81 {
            return true;
        }
        let price = read_feed_price(&self.pyth_price_feed);
        match plan_trade(&self.seller_intent, &self.buyer_intent, price) {
            Ok(t) => self.seller_sol_deposit_lamports < t.quantity
                || self.buyer_usdc_deposit_lamports > u64::MAX - t.quantity,
            Err(_) => false,
        }
    }

    /// Matches the two intents at the feed's price at time `now`, if the
    /// signer is the matcher: moves the
    /// traded lamports from the seller's to the buyer's deposit account,
    /// pays their value from the buyer's vault into the seller's, reduces
    /// both intents and marks the one that is filled. On error nothing
    /// changes. Lamports and tokens are only moved, never created.
    pub fn handler(&mut self, now: i64) -> (r: Result<(), InstructionError>)
        requires
            old(self)@.runs_to_completion(now),
        ensures
            r is Ok <==> old(self)@.match_result(now) is Ok,
            r is Ok ==> final(self)@ == old(self)@.match_result(now)->Ok_0,
            r is Err ==> final(self)@ == old(self)@ && r->Err_0 == old(self)@.match_result(
                now,
            )->Err_0,
            r is Ok ==> final(self).seller_sol_deposit_lamports
                + final(self).buyer_usdc_deposit_lamports == old(self).seller_sol_deposit_lamports
                + old(self).buyer_usdc_deposit_lamports,
            r is Ok ==> stored_token_amount(final(self).seller_usdc_vault@) + stored_token_amount(
                final(self).buyer_usdc_vault@,
            ) == stored_token_amount(old(self).seller_usdc_vault@) + stored_token_amount(
                old(self).buyer_usdc_vault@,
            ),
            r is Ok ==> unpacked_token_amount(final(self).seller_usdc_vault@) is Ok
                && unpacked_token_amount(final(self).buyer_usdc_vault@) is Ok,
    {
        check_matcher(&self.matcher)?;
        check_intents_open(&self.seller_intent, &self.buyer_intent, now)?;
        let price = read_feed_price(&self.pyth_price_feed);
        let trade = plan_trade(&self.seller_intent, &self.buyer_intent, price)?;
        let seller_lamports = self.seller_sol_deposit_lamports - trade.quantity;
        let buyer_lamports = self.buyer_usdc_deposit_lamports + trade.quantity;
        let buyer_unpacked = unpack_token_amount(&self.buyer_usdc_vault);
        let seller_unpacked = unpack_token_amount(&self.seller_usdc_vault);
        let (buyer_amount, seller_amount) = exchange_tokens(
            buyer_unpacked,
            seller_unpacked,
            trade.value,
        )?;
        proof {
            lemma_unpack_after_write(self.buyer_usdc_vault@, buyer_amount);
            lemma_unpack_after_write(self.seller_usdc_vault@, seller_amount);
        }
        pack_token_amount(&mut self.buyer_usdc_vault, buyer_amount)?;
        pack_token_amount(&mut self.seller_usdc_vault, seller_amount)?;
        self.seller_sol_deposit_lamports = seller_lamports;
        self.buyer_usdc_deposit_lamports = buyer_lamports;
        self.seller_intent.quantity = self.seller_intent.quantity - trade.quantity;
        self.buyer_intent.quantity = self.buyer_intent.quantity - trade.quantity;
        if self.seller_intent.quantity == 0 {
            self.seller_intent.is_matched = true;
        }
        if self.buyer_intent.quantity == 0 {
            self.buyer_intent.is_matched = true;
        }
        Ok(())
    }
}

/// A match that does not abort moves lamports from the seller's deposit to
/// the buyer's and tokens from the buyer's vault to the seller's, creating
/// none: both sums are unchanged, and both vaults still unpack.
pub proof fn lemma_match_conserves(pre: MatchOrdersView, now: i64)
    requires
        pre.runs_to_completion(now),
        pre.match_result(now) is Ok,
    ensures
        ({
            let post = pre.match_result(now)->Ok_0;
            &&& post.seller_lamports + post.buyer_lamports == pre.seller_lamports
                + pre.buyer_lamports
            &&& stored_token_amount(post.seller_vault) + stored_token_amount(post.buyer_vault)
                == stored_token_amount(pre.seller_vault) + stored_token_amount(pre.buyer_vault)
            &&& unpacked_token_amount(post.seller_vault) is Ok
            &&& unpacked_token_amount(post.buyer_vault) is Ok
        }),
{
    let t = spec_plan_trade(pre.seller_intent, pre.buyer_intent, feed_price(pre.price_feed))->Ok_0;
    let (b, s) = spec_exchange_tokens(
        unpacked_token_amount(pre.buyer_vault),
        unpacked_token_amount(pre.seller_vault),
        t.value,
    )->Ok_0;
    lemma_unpack_after_write(pre.buyer_vault, b);
    lemma_unpack_after_write(pre.seller_vault, s);
}

/// The trade that a successful match at `now` makes.
pub open spec fn trade_of(step: MatchOrdersView, now: i64) -> Trade {
    spec_plan_trade(step.seller_intent, step.buyer_intent, feed_price(step.price_feed))->Ok_0
}

/// Each step matches without aborting, at its time.
pub open spec fn steps_succeed(steps: Seq<MatchOrdersView>, times: Seq<i64>) -> bool {
    &&& steps.len() == times.len()
    &&& forall|i: int|
        0 <= i < steps.len() ==> #[trigger] steps[i].runs_to_completion(times[i])
            && steps[i].match_result(times[i]) is Ok
}

/// A run of matches of one sell intent against buy intents: each step
/// starts from the sell intent, deposit lamports and vault data that the
/// step before left.
pub open spec fn is_seller_run(steps: Seq<MatchOrdersView>, times: Seq<i64>) -> bool {
    &&& steps_succeed(steps, times)
    &&& forall|i: int|
        #![trigger steps[i].match_result(times[i])]
        0 <= i < steps.len() - 1 ==> {
            let post = steps[i].match_result(times[i])->Ok_0;
            &&& steps[i + 1].seller_intent == post.seller_intent
            &&& steps[i + 1].seller_lamports == post.seller_lamports
            &&& steps[i + 1].seller_vault == post.seller_vault
        }
}

/// A run of matches of one buy intent against sell intents.
pub open spec fn is_buyer_run(steps: Seq<MatchOrdersView>, times: Seq<i64>) -> bool {
    &&& steps_succeed(steps, times)
    &&& forall|i: int|
        #![trigger steps[i].match_result(times[i])]
        0 <= i < steps.len() - 1 ==> {
            let post = steps[i].match_result(times[i])->Ok_0;
            &&& steps[i + 1].buyer_intent == post.buyer_intent
            &&& steps[i + 1].buyer_lamports == post.buyer_lamports
            &&& steps[i + 1].buyer_vault == post.buyer_vault
        }
}

/// The lamports traded in the first `n` steps.
pub open spec fn traded_quantity(steps: Seq<MatchOrdersView>, times: Seq<i64>, n: nat) -> int
    decreases n,
{
    if n == 0 {
        0
    } else {
        traded_quantity(steps, times, (n - 1) as nat) + trade_of(
            steps[n - 1],
            times[n - 1],
        ).quantity
    }
}

/// The token units paid in the first `n` steps.
pub open spec fn traded_value(steps: Seq<MatchOrdersView>, times: Seq<i64>, n: nat) -> int
    decreases n,
{
    if n == 0 {
        0
    } else {
        traded_value(steps, times, (n - 1) as nat) + trade_of(steps[n - 1], times[n - 1]).value
    }
}

/// What one successful match does to each side, in terms of its trade.
pub proof fn lemma_match_step(pre: MatchOrdersView, now: i64)
    requires
        pre.runs_to_completion(now),
        pre.match_result(now) is Ok,
    ensures
        ({
            let post = pre.match_result(now)->Ok_0;
            let t = trade_of(pre, now);
            &&& post.seller_intent.quantity == pre.seller_intent.quantity - t.quantity
            &&& post.buyer_intent.quantity == pre.buyer_intent.quantity - t.quantity
            &&& post.seller_lamports == pre.seller_lamports - t.quantity
            &&& post.buyer_lamports == pre.buyer_lamports + t.quantity
            &&& stored_token_amount(post.seller_vault) == stored_token_amount(pre.seller_vault)
                + t.value
            &&& stored_token_amount(post.buyer_vault) == stored_token_amount(pre.buyer_vault)
                - t.value
            &&& unpacked_token_amount(post.seller_vault) is Ok
            &&& unpacked_token_amount(post.buyer_vault) is Ok
        }),
{
    let t = trade_of(pre, now);
    let (b, s) = spec_exchange_tokens(
        unpacked_token_amount(pre.buyer_vault),
        unpacked_token_amount(pre.seller_vault),
        t.value,
    )->Ok_0;
    lemma_unpack_after_write(pre.buyer_vault, b);
    lemma_unpack_after_write(pre.seller_vault, s);
}

/// Over a run of matches a sell intent loses the sum of the traded
/// quantities, its deposit account pays out that many lamports, and its
/// vault receives the sum of the trades' values.
pub proof fn lemma_seller_run(steps: Seq<MatchOrdersView>, times: Seq<i64>, n: nat)
    requires
        is_seller_run(steps, times),
        1 <= n <= steps.len(),
        unpacked_token_amount(steps[0].seller_vault) is Ok,
    ensures
        ({
            let post = steps[n - 1].match_result(times[n - 1])->Ok_0;
            &&& post.seller_intent.quantity == steps[0].seller_intent.quantity - traded_quantity(
                steps,
                times,
                n,
            )
            &&& post.seller_lamports == steps[0].seller_lamports - traded_quantity(steps, times, n)
            &&& stored_token_amount(post.seller_vault) == stored_token_amount(steps[0].seller_vault)
                + traded_value(steps, times, n)
            &&& unpacked_token_amount(post.seller_vault) is Ok
        }),
    decreases n,
{
    let i = n - 1;
    assert(steps[i].runs_to_completion(times[i]) && steps[i].match_result(times[i]) is Ok);
    lemma_match_step(steps[i], times[i]);
    assert(traded_quantity(steps, times, 0) == 0);
    assert(traded_value(steps, times, 0) == 0);
    if n > 1 {
        lemma_seller_run(steps, times, (n - 1) as nat);
        let prev = steps[i - 1].match_result(times[i - 1])->Ok_0;
        assert(steps[i].seller_intent == prev.seller_intent);
        assert(steps[i].seller_lamports == prev.seller_lamports);
        assert(steps[i].seller_vault == prev.seller_vault);
    }
}

/// Over a run of matches a buy intent loses the sum of the traded
/// quantities, its deposit account receives that many lamports, and its
/// vault pays the sum of the trades' values.
pub proof fn lemma_buyer_run(steps: Seq<MatchOrdersView>, times: Seq<i64>, n: nat)
    requires
        is_buyer_run(steps, times),
        1 <= n <= steps.len(),
        unpacked_token_amount(steps[0].buyer_vault) is Ok,
    ensures
        ({
            let post = steps[n - 1].match_result(times[n - 1])->Ok_0;
            &&& post.buyer_intent.quantity == steps[0].buyer_intent.quantity - traded_quantity(
                steps,
                times,
                n,
            )
            &&& post.buyer_lamports == steps[0].buyer_lamports + traded_quantity(steps, times, n)
            &&& stored_token_amount(post.buyer_vault) == stored_token_amount(steps[0].buyer_vault)
                - traded_value(steps, times, n)
            &&& unpacked_token_amount(post.buyer_vault) is Ok
        }),
    decreases n,
{
    let i = n - 1;
    assert(steps[i].runs_to_completion(times[i]) && steps[i].match_result(times[i]) is Ok);
    lemma_match_step(steps[i], times[i]);
    assert(traded_quantity(steps, times, 0) == 0);
    assert(traded_value(steps, times, 0) == 0);
    if n > 1 {
        lemma_buyer_run(steps, times, (n - 1) as nat);
        let prev = steps[i - 1].match_result(times[i - 1])->Ok_0;
        assert(steps[i].buyer_intent == prev.buyer_intent);
        assert(steps[i].buyer_lamports == prev.buyer_lamports);
        assert(steps[i].buyer_vault == prev.buyer_vault);
    }
}

/// A sell intent funded with `d` lamports on a deposit account that held
/// `rent` lamports and an empty vault, then matched `n` times, is withdrawn
/// with a payout of the trades' total value in tokens and `rent + d` less
/// the total traded quantity in lamports; with no match, the deposit itself.
pub proof fn lemma_sell_intent_payout(
    steps: Seq<MatchOrdersView>,
    times: Seq<i64>,
    n: nat,
    rent: u64,
    d: u64,
    w: Withdraw,
)
    requires
        is_seller_run(steps, times),
        n <= steps.len(),
        n > 0 ==> steps[0].seller_lamports == rent + d && unpacks_to(steps[0].seller_vault, 0),
        n == 0 ==> w.deposit_lamports == rent + d && w.usdc_vault_amount == 0,
        n > 0 ==> w.deposit_lamports == steps[n - 1].match_result(times[n - 1])->Ok_0.seller_lamports
            && w.usdc_vault_amount == stored_token_amount(
            steps[n - 1].match_result(times[n - 1])->Ok_0.seller_vault,
        ),
    ensures
        withdrawal_payout(w).0 == traded_value(steps, times, n),
        withdrawal_payout(w).1 == rent + d - traded_quantity(steps, times, n),
{
    if n > 0 {
        lemma_seller_run(steps, times, n);
    }
}

/// A buy intent funded with `d` tokens in an empty vault, on a deposit
/// account that held `rent` lamports, then matched `n` times, is withdrawn
/// with a payout of `d` less the trades' total value in tokens and `rent`
/// plus the total traded quantity in lamports; with no match, the deposit
/// itself.
pub proof fn lemma_buy_intent_payout(
    steps: Seq<MatchOrdersView>,
    times: Seq<i64>,
    n: nat,
    rent: u64,
    d: u64,
    w: Withdraw,
)
    requires
        is_buyer_run(steps, times),
        n <= steps.len(),
        n > 0 ==> steps[0].buyer_lamports == rent && unpacks_to(steps[0].buyer_vault, d),
        n == 0 ==> w.deposit_lamports == rent && w.usdc_vault_amount == d,
        n > 0 ==> w.deposit_lamports == steps[n - 1].match_result(times[n - 1])->Ok_0.buyer_lamports
            && w.usdc_vault_amount == stored_token_amount(
            steps[n - 1].match_result(times[n - 1])->Ok_0.buyer_vault,
        ),
    ensures
        withdrawal_payout(w).0 == d - traded_value(steps, times, n),
        withdrawal_payout(w).1 == rent + traded_quantity(steps, times, n),
{
    if n > 0 {
        lemma_buyer_run(steps, times, n);
    }
}

/// A trade at `price` happens only when the seller asks at most the price
/// and the buyer bids at least it; it moves the smaller of the two
/// quantities, and its value is that quantity times the price divided by
/// the lamports in a SOL, rounded down. The only failures are prices that
/// do not cross and a product that overflows.
pub proof fn lemma_plan_trade_law(seller: IntentAccount, buyer: IntentAccount, price: u64)
    ensures
        ({
            let q: int = if seller.quantity <= buyer.quantity {
                seller.quantity as int
            } else {
                buyer.quantity as int
            };
            let crosses = seller.limit_price <= price && price <= buyer.limit_price;
            &&& spec_plan_trade(seller, buyer, price) is Ok <==> crosses && q * price
                <= 0xffff_ffff_ffff_ffff
            &&& !crosses ==> spec_plan_trade(seller, buyer, price) is Err && spec_plan_trade(
                seller,
                buyer,
                price,
            )->Err_0 == InstructionError::Custom(DarkTradeErrors::NoMatchFound)
            &&& crosses && q * price > 0xffff_ffff_ffff_ffff ==> spec_plan_trade(
                seller,
                buyer,
                price,
            ) is Err && spec_plan_trade(seller, buyer, price)->Err_0 == InstructionError::Custom(
                DarkTradeErrors::ArithmeticError,
            )
            &&& spec_plan_trade(seller, buyer, price) matches Ok(t) ==> {
                &&& t.quantity == q
                &&& t.quantity <= seller.quantity && t.quantity <= buyer.quantity
                &&& t.price == price
                &&& t.value * 1_000_000_000 <= q * price
                &&& q * price < (t.value + 1) * 1_000_000_000
            }
        }),
{
}

/// The payment of `value` takes exactly `value` from the buyer's balance and
/// adds exactly `value` to the seller's; it fails on an unreadable buyer
/// vault first, then on a buyer balance below `value`, then on an
/// unreadable seller vault, then on a seller balance that would overflow.
pub proof fn lemma_exchange_tokens_law(
    buyer_unpacked: Result<u64, InstructionError>,
    seller_unpacked: Result<u64, InstructionError>,
    value: u64,
)
    ensures
        spec_exchange_tokens(buyer_unpacked, seller_unpacked, value) matches Ok((b, s)) ==> {
            &&& buyer_unpacked is Ok && seller_unpacked is Ok
            &&& b + value == buyer_unpacked->Ok_0
            &&& s == seller_unpacked->Ok_0 + value
        },
        buyer_unpacked is Err ==> spec_exchange_tokens(buyer_unpacked, seller_unpacked, value)
            is Err && spec_exchange_tokens(buyer_unpacked, seller_unpacked, value)->Err_0
            == buyer_unpacked->Err_0,
        buyer_unpacked is Ok && buyer_unpacked->Ok_0 < value ==> spec_exchange_tokens(
            buyer_unpacked,
            seller_unpacked,
            value,
        ) is Err && spec_exchange_tokens(buyer_unpacked, seller_unpacked, value)->Err_0
            == InstructionError::Custom(DarkTradeErrors::InsufficientFunds),
        buyer_unpacked is Ok && buyer_unpacked->Ok_0 >= value && seller_unpacked is Err
            ==> spec_exchange_tokens(buyer_unpacked, seller_unpacked, value) is Err
            && spec_exchange_tokens(buyer_unpacked, seller_unpacked, value)->Err_0
            == seller_unpacked->Err_0,
        buyer_unpacked is Ok && buyer_unpacked->Ok_0 >= value && seller_unpacked is Ok
            && seller_unpacked->Ok_0 + value > 0xffff_ffff_ffff_ffff ==> spec_exchange_tokens(
            buyer_unpacked,
            seller_unpacked,
            value,
        ) is Err && spec_exchange_tokens(buyer_unpacked, seller_unpacked, value)->Err_0
            == InstructionError::Custom(DarkTradeErrors::InsufficientFunds),
        buyer_unpacked is Ok && buyer_unpacked->Ok_0 >= value && seller_unpacked is Ok
            && seller_unpacked->Ok_0 + value <= 0xffff_ffff_ffff_ffff ==> spec_exchange_tokens(
            buyer_unpacked,
            seller_unpacked,
            value,
        ) is Ok,
{
}

/// A match goes ahead only for two unmatched intents that have both not
/// expired at `now`; an unmatched pair of which either intent has expired is
/// refused as expired.
pub proof fn lemma_intents_open_law(seller: IntentAccount, buyer: IntentAccount, now: i64)
    ensures
        spec_check_intents_open(seller, buyer, now) is Ok <==> !seller.is_matched
            && !buyer.is_matched && now < seller.expiry && now < buyer.expiry,
        seller.is_matched || buyer.is_matched ==> spec_check_intents_open(seller, buyer, now)
            matches Err(InstructionError::Custom(DarkTradeErrors::AlreadyMatched)),
        !seller.is_matched && !buyer.is_matched && (now >= seller.expiry || now >= buyer.expiry)
            ==> spec_check_intents_open(seller, buyer, now) matches Err(
            InstructionError::Custom(DarkTradeErrors::IntentExpired),
        ),
{
}

/// What a successful match does, from its inputs: both intents were open
/// and unexpired, the feed's price (the little-endian word at bytes 73..81)
/// lies between the two limits, the smaller quantity `q` of lamports moves
/// from the seller's deposit to the buyer's, and `q * price / 10^9` token
/// units, rounded down, move from the buyer's vault to the seller's.
pub proof fn lemma_match_law(pre: MatchOrdersView, now: i64)
    requires
        pre.runs_to_completion(now),
        pre.match_result(now) is Ok,
    ensures
        ({
            let post = pre.match_result(now)->Ok_0;
            let s = pre.seller_intent;
            let b = pre.buyer_intent;
            let q: int = if s.quantity <= b.quantity {
                s.quantity as int
            } else {
                b.quantity as int
            };
            let price = spec_u64_from_le_bytes(pre.price_feed.subrange(73, 81));
            let value = q * price / 1_000_000_000;
            &&& pre.matcher@ == MATCHER_PUBKEY@
            &&& !s.is_matched && !b.is_matched
            &&& now < s.expiry && now < b.expiry
            &&& s.limit_price <= price <= b.limit_price
            &&& post.seller_intent.quantity == s.quantity - q
            &&& post.buyer_intent.quantity == b.quantity - q
            &&& post.seller_intent.is_matched == (s.quantity == q)
            &&& post.buyer_intent.is_matched == (b.quantity == q)
            &&& post.seller_lamports == pre.seller_lamports - q
            &&& post.buyer_lamports == pre.buyer_lamports + q
            &&& stored_token_amount(post.seller_vault) == stored_token_amount(pre.seller_vault)
                + value
            &&& stored_token_amount(post.buyer_vault) == stored_token_amount(pre.buyer_vault)
                - value
        }),
{
    lemma_match_step(pre, now);
    lemma_intents_open_law(pre.seller_intent, pre.buyer_intent, now);
    lemma_plan_trade_law(pre.seller_intent, pre.buyer_intent, feed_price(pre.price_feed));
}

/// After a successful match at least one of the two intents is matched:
/// the traded quantity is the smaller of the two, which fills that intent.
pub proof fn lemma_match_fills_an_intent(pre: MatchOrdersView, now: i64)
    requires
        pre.match_result(now) is Ok,
    ensures
        pre.match_result(now)->Ok_0.seller_intent.is_matched || pre.match_result(
            now,
        )->Ok_0.buyer_intent.is_matched,
{
}

/// Both intents lose exactly the traded quantity, and keep their id, owner,
/// side, limit price and expiry.
pub proof fn lemma_match_reduces_both_intents(pre: MatchOrdersView, now: i64)
    requires
        pre.match_result(now) is Ok,
    ensures
        ({
            let post = pre.match_result(now)->Ok_0;
            let q = pre.seller_intent.quantity - post.seller_intent.quantity;
            &&& q == pre.buyer_intent.quantity - post.buyer_intent.quantity
            &&& q == min_u64(pre.seller_intent.quantity, pre.buyer_intent.quantity)
            &&& post.seller_intent.id == pre.seller_intent.id
            &&& post.seller_intent.owner == pre.seller_intent.owner
            &&& post.seller_intent.limit_price == pre.seller_intent.limit_price
            &&& post.buyer_intent.id == pre.buyer_intent.id
            &&& post.buyer_intent.owner == pre.buyer_intent.owner
            &&& post.buyer_intent.limit_price == pre.buyer_intent.limit_price
        }),
{
}

/// A pair of intents that was matched cannot be matched again, at any time.
pub proof fn lemma_no_second_match(pre: MatchOrdersView, now: i64, later: i64)
    requires
        pre.match_result(now) is Ok,
    ensures
        pre.match_result(now)->Ok_0.match_result(later) matches Err(
            InstructionError::Custom(DarkTradeErrors::AlreadyMatched),
        ),
{
}

/// An intent that a match filled may be settled and its deposit withdrawn,
/// at any time.
pub proof fn lemma_filled_intent_is_withdrawable(pre: MatchOrdersView, now: i64, later: i64)
    requires
        pre.match_result(now) is Ok,
    ensures
        pre.match_result(now)->Ok_0.seller_intent.is_matched ==> withdrawal_allowed(
            pre.match_result(now)->Ok_0.seller_intent,
            later,
        ),
        pre.match_result(now)->Ok_0.buyer_intent.is_matched ==> withdrawal_allowed(
            pre.match_result(now)->Ok_0.buyer_intent,
            later,
        ),
{
}

} // verus!
