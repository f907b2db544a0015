use vstd::prelude::*;

use crate::error::TradingBotError;
use crate::instructions::management::signed_by_owner;
use crate::state::{Pubkey, StrategyType, TradingBot};

verus! {

/// Fixed-point scale of price ratios: four decimal digits.
pub const RATIO_SCALE: u64 = 10000;

/// Seconds that must pass after a trade before a DCA strategy buys again.
pub const DCA_INTERVAL: i64 = 3600;

/// Seconds that must pass after a trade before trading is allowed again.
pub const MIN_TRADE_INTERVAL: i64 = 60;

/// Accounts of a price update: the record and the signer.
#[derive(Clone, Copy, Debug)]
pub struct UpdatePrice {
    pub trading_bot: TradingBot,
    pub authority: Pubkey,
}

/// Accounts of a strategy check: the record and the signer.
#[derive(Clone, Copy, Debug)]
pub struct CheckStrategy {
    pub trading_bot: TradingBot,
    pub authority: Pubkey,
}

/// A price observation of the two tokens.
#[derive(Clone, Copy, Debug, PartialEq, Eq, Structural)]
pub struct PriceData {
    pub token_a_price: u64,
    pub token_b_price: u64,
    pub timestamp: i64,
    pub confidence: u32,
}

/// What a strategy makes of a price observation.
#[derive(Clone, Copy, Debug, PartialEq, Eq, Structural)]
pub enum Signal {
    Buy,
    Sell,
    /// The two prices differ by more than the strategy's threshold.
    Opportunity,
    /// Nothing to do.
    Hold,
}

/// Price of token A in units of token B, scaled by `RATIO_SCALE` and rounded
/// down; zero when token B has no price.
pub open spec fn ratio_of(token_a_price: u64, token_b_price: u64) -> int {
    if token_b_price > 0 {
        (token_a_price * RATIO_SCALE) / (token_b_price as int)
    } else {
        0
    }
}

/// Buy at or below the buy threshold, else sell at or above the sell
/// threshold, else hold.
pub open spec fn threshold_signal(ratio: int, buy_threshold: u64, sell_threshold: u64) -> Signal {
    if ratio <= buy_threshold {
        Signal::Buy
    } else if ratio >= sell_threshold {
        Signal::Sell
    } else {
        Signal::Hold
    }
}

/// Buy once more than `DCA_INTERVAL` seconds have passed since the last trade.
pub open spec fn dca_signal(now: i64, last_trade_timestamp: i64) -> Signal {
    if now - last_trade_timestamp > DCA_INTERVAL {
        Signal::Buy
    } else {
        Signal::Hold
    }
}

/// An opportunity when the two prices differ by more than `threshold`.
pub open spec fn arbitrage_signal(token_a_price: u64, token_b_price: u64, threshold: u64) -> Signal {
    let diff = if token_a_price >= token_b_price {
        token_a_price - token_b_price
    } else {
        token_b_price - token_a_price
    };
    if diff > threshold {
        Signal::Opportunity
    } else {
        Signal::Hold
    }
}

/// The signal of the bot's strategy for a price observation at time `now`.
pub open spec fn strategy_signal(bot: TradingBot, price_data: PriceData, now: i64) -> Signal {
    let s = bot.strategy;
    let ratio = ratio_of(price_data.token_a_price, price_data.token_b_price);
    match s.strategy_type {
        StrategyType::GridTrading => threshold_signal(ratio, s.buy_threshold, s.sell_threshold),
        StrategyType::MeanReversion => threshold_signal(ratio, s.buy_threshold, s.sell_threshold),
        StrategyType::DCA => dca_signal(now, bot.last_trade_timestamp),
        StrategyType::Arbitrage => arbitrage_signal(
            price_data.token_a_price,
            price_data.token_b_price,
            s.buy_threshold,
        ),
    }
}

/// Whether trading may go on at time `now`: enough time since the last
/// trade, the balance above the stop loss and below the take profit, where
/// those are set.
pub open spec fn trading_allowed(bot: TradingBot, now: i64) -> bool {
    &&& now - bot.last_trade_timestamp >= MIN_TRADE_INTERVAL
    &&& match bot.strategy.stop_loss {
        Some(stop_loss) => bot.balance > stop_loss,
        None => true,
    }
    &&& match bot.strategy.take_profit {
        Some(take_profit) => bot.balance < take_profit,
        None => true,
    }
}

/// Computes the scaled price ratio in a width where the product cannot
/// overflow.
pub fn price_ratio(token_a_price: u64, token_b_price: u64) -> (r: u128)
    ensures
        r == ratio_of(token_a_price, token_b_price),
{
    if token_b_price > 0 {
        let a = token_a_price as u128;
        assert(a * 10000 <= u64::MAX as u128 * 10000) by (nonlinear_arith)
            requires
                a <= u64::MAX,
        ;
        a * (RATIO_SCALE as u128) / (token_b_price as u128)
    } else {
        0
    }
}

/// Grid trading: buy low and sell high between the two thresholds.
pub fn check_grid_trading_conditions(trading_bot: &TradingBot, price_ratio: u128) -> (r: Signal)
    ensures
        r == threshold_signal(
            price_ratio as int,
            trading_bot.strategy.buy_threshold,
            trading_bot.strategy.sell_threshold,
        ),
{
    let strategy = &trading_bot.strategy;
    if price_ratio <= strategy.buy_threshold as u128 {
        Signal::Buy
    } else if price_ratio >= strategy.sell_threshold as u128 {
        Signal::Sell
    } else {
        Signal::Hold
    }
}

/// Dollar-cost averaging: buy at regular intervals, whatever the price.
pub fn check_dca_conditions(trading_bot: &TradingBot, now: i64) -> (r: Signal)
    ensures
        r == dca_signal(now, trading_bot.last_trade_timestamp),
{
    let elapsed = now as i128 - trading_bot.last_trade_timestamp as i128;
    if elapsed > DCA_INTERVAL as i128 {
        Signal::Buy
    } else {
        Signal::Hold
    }
}

/// Mean reversion: buy below the mean band, sell above it. Shares the
/// threshold rule of grid trading but is a trigger of its own.
pub fn check_mean_reversion_conditions(trading_bot: &TradingBot, price_ratio: u128) -> (r: Signal)
    ensures
        r == threshold_signal(
            price_ratio as int,
            trading_bot.strategy.buy_threshold,
            trading_bot.strategy.sell_threshold,
        ),
{
    let strategy = &trading_bot.strategy;
    if price_ratio <= strategy.buy_threshold as u128 {
        Signal::Buy
    } else if price_ratio >= strategy.sell_threshold as u128 {
        Signal::Sell
    } else {
        Signal::Hold
    }
}

/// Arbitrage: reports an opportunity when the two prices differ by more
/// than the buy threshold, which this strategy reads as its opportunity
/// threshold.
pub fn check_arbitrage_conditions(trading_bot: &TradingBot, price_data: &PriceData) -> (r: Signal)
    ensures
        r == arbitrage_signal(
            price_data.token_a_price,
            price_data.token_b_price,
            trading_bot.strategy.buy_threshold,
        ),
{
    let price_difference = if price_data.token_a_price > price_data.token_b_price {
        price_data.token_a_price - price_data.token_b_price
    } else {
        price_data.token_b_price - price_data.token_a_price
    };
    if price_difference > trading_bot.strategy.buy_threshold {
        Signal::Opportunity
    } else {
        Signal::Hold
    }
}

/// Evaluates the bot's strategy on a price observation at time `now`. The
/// record is not changed.
pub fn update_price_handler(ctx: &UpdatePrice, price_data: PriceData, now: i64) -> (r: Result<
    Signal,
    TradingBotError,
>)
    ensures
        r == (if signed_by_owner(ctx.trading_bot, ctx.authority) {
            Ok(strategy_signal(ctx.trading_bot, price_data, now))
        } else {
            Err(TradingBotError::Unauthorized)
        }),
{
    if ctx.authority != ctx.trading_bot.authority {
        return Err(TradingBotError::Unauthorized);
    }
    let trading_bot = &ctx.trading_bot;
    let ratio = price_ratio(price_data.token_a_price, price_data.token_b_price);
    let signal = match trading_bot.strategy.strategy_type {
        StrategyType::GridTrading => check_grid_trading_conditions(trading_bot, ratio),
        StrategyType::DCA => check_dca_conditions(trading_bot, now),
        StrategyType::MeanReversion => check_mean_reversion_conditions(trading_bot, ratio),
        StrategyType::Arbitrage => check_arbitrage_conditions(trading_bot, &price_data),
    };
    Ok(signal)
}

/// Read-only gate: whether the bot may trade at time `now`. Fails on a
/// paused bot.
pub fn check_strategy_handler(ctx: &CheckStrategy, now: i64) -> (r: Result<bool, TradingBotError>)
    ensures
        r == (if !signed_by_owner(ctx.trading_bot, ctx.authority) {
            Err(TradingBotError::Unauthorized)
        } else if !ctx.trading_bot.is_active {
            Err(TradingBotError::BotNotActive)
        } else {
            Ok(trading_allowed(ctx.trading_bot, now))
        }),
{
    if ctx.authority != ctx.trading_bot.authority {
        return Err(TradingBotError::Unauthorized);
    }
    let trading_bot = &ctx.trading_bot;
    if !trading_bot.is_active {
        return Err(TradingBotError::BotNotActive);
    }
    let time_since_last_trade = now as i128 - trading_bot.last_trade_timestamp as i128;
    if time_since_last_trade < MIN_TRADE_INTERVAL as i128 {
        return Ok(false);
    }
    if let Some(stop_loss) = trading_bot.strategy.stop_loss {
        if trading_bot.balance <= stop_loss {
            return Ok(false);
        }
    }
    if let Some(take_profit) = trading_bot.strategy.take_profit {
        if trading_bot.balance >= take_profit {
            return Ok(false);
        }
    }
    Ok(true)
}

} // verus!
