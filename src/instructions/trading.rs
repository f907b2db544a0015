use vstd::prelude::*;

use crate::error::TradingBotError;
use crate::instructions::management::signed_by_owner;
use crate::state::{Pubkey, TradeParams, TradingBot};

verus! {

/// Accounts of a trade: the record and the signer.
#[derive(Clone, Copy, Debug)]
pub struct ExecuteTrade {
    pub trading_bot: TradingBot,
    pub authority: Pubkey,
}

/// The record after one trade at time `now`: one more trade, one more
/// successful trade if `success`, and the trade time stamped.
pub open spec fn after_trade(bot: TradingBot, now: i64, success: bool) -> TradingBot {
    TradingBot {
        total_trades: (bot.total_trades + 1) as u64,
        successful_trades: if success {
            (bot.successful_trades + 1) as u64
        } else {
            bot.successful_trades
        },
        last_trade_timestamp: now,
        ..bot
    }
}

/// The accounting point that every trade goes through, whichever venue made
/// it: counts the trade, counts it as successful if the venue said so, and
/// stamps its time.
pub fn record_trade_outcome(bot: &mut TradingBot, now: i64, success: bool)
    requires
        old(bot).wf(),
        old(bot).total_trades < u64::MAX,
    ensures
        *final(bot) == after_trade(*old(bot), now, success),
        final(bot).wf(),
{
    bot.total_trades = bot.total_trades + 1;
    if success {
        bot.successful_trades = bot.successful_trades + 1;
    }
    bot.last_trade_timestamp = now;
}

/// Result and accounts after a trade request at time `now`.
pub open spec fn execute_trade_outcome(ctx: ExecuteTrade, now: i64) -> (
    Result<(), TradingBotError>,
    ExecuteTrade,
) {
    if !signed_by_owner(ctx.trading_bot, ctx.authority) {
        (Err(TradingBotError::Unauthorized), ctx)
    } else if !ctx.trading_bot.is_active {
        (Err(TradingBotError::BotNotActive), ctx)
    } else {
        (Ok(()), ExecuteTrade { trading_bot: after_trade(ctx.trading_bot, now, false), ..ctx })
    }
}

/// Records a trade of either direction: the trade count grows by one and
/// the trade time is stamped. Funds and the minimum output are left to the
/// venues.
pub fn execute_trade_handler(ctx: &mut ExecuteTrade, trade_params: TradeParams, now: i64) -> (r:
    Result<(), TradingBotError>)
    requires
        old(ctx).trading_bot.wf(),
        old(ctx).trading_bot.total_trades < u64::MAX,
    ensures
        (r, *final(ctx)) == execute_trade_outcome(*old(ctx), now),
        final(ctx).trading_bot.wf(),
{
    if ctx.authority != ctx.trading_bot.authority {
        return Err(TradingBotError::Unauthorized);
    }
    if !ctx.trading_bot.is_active {
        return Err(TradingBotError::BotNotActive);
    }
    record_trade_outcome(&mut ctx.trading_bot, now, false);
    Ok(())
}

/// The record after the trades `trades`, each a time and whether it
/// succeeded, applied in order.
pub open spec fn after_trades(bot: TradingBot, trades: Seq<(i64, bool)>) -> TradingBot
    decreases trades.len(),
{
    if trades.len() == 0 {
        bot
    } else {
        after_trade(after_trades(bot, trades.drop_last()), trades.last().0, trades.last().1)
    }
}

/// However trades succeed or fail, the successful ones never outnumber all
/// of them, and every trade is counted once.
pub proof fn lemma_trades_keep_counters_ordered(bot: TradingBot, trades: Seq<(i64, bool)>)
    requires
        bot.wf(),
        bot.total_trades + trades.len() <= u64::MAX,
    ensures
        after_trades(bot, trades).wf(),
        after_trades(bot, trades).total_trades == bot.total_trades + trades.len(),
        after_trades(bot, trades).successful_trades >= bot.successful_trades,
    decreases trades.len(),
{
    if trades.len() > 0 {
        lemma_trades_keep_counters_ordered(bot, trades.drop_last());
    }
}

} // verus!
