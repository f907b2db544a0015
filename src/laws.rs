//! Properties that hold across operations and sequences of operations.
use vstd::prelude::*;

use crate::error::TradingBotError;
use crate::instructions::jupiter::swap_outcome;
use crate::instructions::management::{
    pause_outcome, resume_outcome, update_strategy_outcome, withdraw_outcome, PauseBot, ResumeBot,
    UpdateStrategy, WithdrawFunds,
};
use crate::instructions::price_monitor::{
    strategy_signal, PriceData, Signal, DCA_INTERVAL,
};
use crate::instructions::trading::{execute_trade_outcome, ExecuteTrade};
use crate::state::{Pubkey, StrategyParams, StrategyType, TradingBot};

verus! {

/// No signer but the record's authority can change it: every operation
/// submitted by another signer fails with `Unauthorized` and leaves the
/// accounts exactly as they were.
pub proof fn lemma_single_owner(
    bot: TradingBot,
    signer: Pubkey,
    strategy_params: StrategyParams,
    amount: u64,
    bot_lamports: u64,
    authority_lamports: u64,
    now: i64,
    trade_successful: bool,
)
    requires
        signer != bot.authority,
    ensures
        ({
            let c = UpdateStrategy { trading_bot: bot, authority: signer };
            update_strategy_outcome(c, strategy_params) == (Err::<(), _>(TradingBotError::Unauthorized), c)
        }),
        ({
            let c = PauseBot { trading_bot: bot, authority: signer };
            pause_outcome(c) == (Err::<(), _>(TradingBotError::Unauthorized), c)
        }),
        ({
            let c = ResumeBot { trading_bot: bot, authority: signer };
            resume_outcome(c) == (Err::<(), _>(TradingBotError::Unauthorized), c)
        }),
        ({
            let c = WithdrawFunds { trading_bot: bot, authority: signer, bot_lamports, authority_lamports };
            withdraw_outcome(c, amount) == (Err::<(), _>(TradingBotError::Unauthorized), c)
        }),
        ({
            let c = ExecuteTrade { trading_bot: bot, authority: signer };
            execute_trade_outcome(c, now) == (Err::<(), _>(TradingBotError::Unauthorized), c)
        }),
        swap_outcome(bot, signer, amount, now, trade_successful) == (Err::<(), _>(
            TradingBotError::Unauthorized,
        ), bot),
{
}

/// Pausing twice in a row succeeds both times and leaves the bot inactive
/// after each call; the second call changes nothing.
pub proof fn lemma_pause_twice(ctx: PauseBot)
    requires
        ctx.authority == ctx.trading_bot.authority,
    ensures
        pause_outcome(ctx).0 is Ok,
        !pause_outcome(ctx).1.trading_bot.is_active,
        pause_outcome(pause_outcome(ctx).1).0 is Ok,
        pause_outcome(pause_outcome(ctx).1).1 == pause_outcome(ctx).1,
{
}

/// A withdrawal of more than the balance fails with `InsufficientFunds` and
/// changes nothing.
pub proof fn lemma_overdraw_rejected(ctx: WithdrawFunds, amount: u64)
    requires
        ctx.authority == ctx.trading_bot.authority,
        amount > ctx.trading_bot.balance,
    ensures
        withdraw_outcome(ctx, amount) == (Err::<(), _>(TradingBotError::InsufficientFunds), ctx),
{
}

/// The accounts after the withdrawals `amounts`, attempted in order.
pub open spec fn after_withdrawals(ctx: WithdrawFunds, amounts: Seq<u64>) -> WithdrawFunds
    decreases amounts.len(),
{
    if amounts.len() == 0 {
        ctx
    } else {
        withdraw_outcome(after_withdrawals(ctx, amounts.drop_last()), amounts.last()).1
    }
}

/// Total of the withdrawals among `amounts` that succeed, attempted in order.
pub open spec fn withdrawn_total(ctx: WithdrawFunds, amounts: Seq<u64>) -> int
    decreases amounts.len(),
{
    if amounts.len() == 0 {
        0
    } else {
        let before = after_withdrawals(ctx, amounts.drop_last());
        withdrawn_total(ctx, amounts.drop_last()) + if withdraw_outcome(before, amounts.last()).0 is Ok {
            amounts.last() as int
        } else {
            0
        }
    }
}

/// However many withdrawals are attempted, the balance goes down by exactly
/// what was withdrawn and never below zero: it never wraps around.
pub proof fn lemma_withdrawals_never_overdraw(ctx: WithdrawFunds, amounts: Seq<u64>)
    ensures
        after_withdrawals(ctx, amounts).trading_bot.balance == ctx.trading_bot.balance - withdrawn_total(ctx, amounts),
        withdrawn_total(ctx, amounts) <= ctx.trading_bot.balance,
    decreases amounts.len(),
{
    if amounts.len() > 0 {
        lemma_withdrawals_never_overdraw(ctx, amounts.drop_last());
    }
}

/// A DCA strategy holds one second before its interval has passed since the
/// last trade and buys one second after.
pub proof fn lemma_dca_gating(bot: TradingBot, price_data: PriceData, t: i64)
    requires
        bot.strategy.strategy_type == StrategyType::DCA,
        bot.last_trade_timestamp == t,
        t + DCA_INTERVAL + 1 <= i64::MAX,
    ensures
        strategy_signal(bot, price_data, (t + DCA_INTERVAL - 1) as i64) == Signal::Hold,
        strategy_signal(bot, price_data, (t + DCA_INTERVAL + 1) as i64) == Signal::Buy,
{
}

} // verus!
