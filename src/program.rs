//! The program's operations, one entry point each. Every entry point takes
//! the accounts of its operation and, where time matters, the current time.
use vstd::prelude::*;

use crate::error::TradingBotError;
use crate::instructions::initialize::{initialize_bot_handler, initialize_outcome, InitializeBot};
use crate::instructions::jupiter::{
    execute_jupiter_swap_handler, execute_raydium_swap_handler, swap_outcome, JupiterSwap,
    JupiterSwapParams, RaydiumSwap, RaydiumSwapParams,
};
use crate::instructions::management::{
    pause_bot_handler, pause_outcome, resume_bot_handler, resume_outcome, signed_by_owner,
    update_strategy_handler, update_strategy_outcome, withdraw_funds_handler, withdraw_outcome,
    PauseBot, ResumeBot, UpdateStrategy, WithdrawFunds,
};
use crate::instructions::price_monitor::{
    check_strategy_handler, strategy_signal, trading_allowed, update_price_handler, CheckStrategy,
    PriceData, Signal, UpdatePrice,
};
use crate::instructions::trading::{execute_trade_handler, execute_trade_outcome, ExecuteTrade};
use crate::state::{InitializeBotParams, StrategyParams, TradeParams};

verus! {

pub fn initialize_bot(ctx: &mut InitializeBot, params: InitializeBotParams, now: i64) -> (r: Result<
    (),
    TradingBotError,
>)
    ensures
        (r, *final(ctx)) == initialize_outcome(*old(ctx), params, now),
        r is Ok ==> final(ctx).trading_bot.unwrap().wf(),
{
    initialize_bot_handler(ctx, params, now)
}

pub fn update_strategy(ctx: &mut UpdateStrategy, strategy_params: StrategyParams) -> (r: Result<
    (),
    TradingBotError,
>)
    ensures
        (r, *final(ctx)) == update_strategy_outcome(*old(ctx), strategy_params),
        old(ctx).trading_bot.wf() ==> final(ctx).trading_bot.wf(),
{
    update_strategy_handler(ctx, strategy_params)
}

pub fn execute_trade(ctx: &mut ExecuteTrade, trade_params: TradeParams, now: i64) -> (r: Result<
    (),
    TradingBotError,
>)
    requires
        old(ctx).trading_bot.wf(),
        old(ctx).trading_bot.total_trades < u64::MAX,
    ensures
        (r, *final(ctx)) == execute_trade_outcome(*old(ctx), now),
        final(ctx).trading_bot.wf(),
{
    execute_trade_handler(ctx, trade_params, now)
}

pub fn pause_bot(ctx: &mut PauseBot) -> (r: Result<(), TradingBotError>)
    ensures
        (r, *final(ctx)) == pause_outcome(*old(ctx)),
        old(ctx).trading_bot.wf() ==> final(ctx).trading_bot.wf(),
{
    pause_bot_handler(ctx)
}

pub fn resume_bot(ctx: &mut ResumeBot) -> (r: Result<(), TradingBotError>)
    ensures
        (r, *final(ctx)) == resume_outcome(*old(ctx)),
        old(ctx).trading_bot.wf() ==> final(ctx).trading_bot.wf(),
{
    resume_bot_handler(ctx)
}

pub fn withdraw_funds(ctx: &mut WithdrawFunds, amount: u64) -> (r: Result<(), TradingBotError>)
    requires
        old(ctx).authority_lamports + amount <= u64::MAX,
    ensures
        (r, *final(ctx)) == withdraw_outcome(*old(ctx), amount),
        old(ctx).trading_bot.wf() ==> final(ctx).trading_bot.wf(),
{
    withdraw_funds_handler(ctx, amount)
}

/// `trade_successful` is what the venue reported for the swap.
pub fn jupiter_swap(ctx: &mut JupiterSwap, params: JupiterSwapParams, now: i64, trade_successful: bool) -> (r:
    Result<(), TradingBotError>)
    requires
        old(ctx).trading_bot.wf(),
        old(ctx).trading_bot.total_trades < u64::MAX,
    ensures
        (r, final(ctx).trading_bot) == swap_outcome(
            old(ctx).trading_bot,
            old(ctx).authority,
            params.amount_in,
            now,
            trade_successful,
        ),
        *final(ctx) == (JupiterSwap { trading_bot: final(ctx).trading_bot, ..*old(ctx) }),
        final(ctx).trading_bot.wf(),
{
    execute_jupiter_swap_handler(ctx, params, now, trade_successful)
}

/// `trade_successful` is what the venue reported for the swap.
pub fn raydium_swap(ctx: &mut RaydiumSwap, params: RaydiumSwapParams, now: i64, trade_successful: bool) -> (r:
    Result<(), TradingBotError>)
    requires
        old(ctx).trading_bot.wf(),
        old(ctx).trading_bot.total_trades < u64::MAX,
    ensures
        (r, final(ctx).trading_bot) == swap_outcome(
            old(ctx).trading_bot,
            old(ctx).authority,
            params.amount_in,
            now,
            trade_successful,
        ),
        *final(ctx) == (RaydiumSwap { trading_bot: final(ctx).trading_bot, ..*old(ctx) }),
        final(ctx).trading_bot.wf(),
{
    execute_raydium_swap_handler(ctx, params, now, trade_successful)
}

pub fn update_price(ctx: &UpdatePrice, price_data: PriceData, now: i64) -> (r: Result<Signal, TradingBotError>)
    ensures
        r == (if signed_by_owner(ctx.trading_bot, ctx.authority) {
            Ok(strategy_signal(ctx.trading_bot, price_data, now))
        } else {
            Err(TradingBotError::Unauthorized)
        }),
{
    update_price_handler(ctx, price_data, now)
}

pub fn check_strategy(ctx: &CheckStrategy, now: i64) -> (r: Result<bool, TradingBotError>)
    ensures
        r == (if !signed_by_owner(ctx.trading_bot, ctx.authority) {
            Err(TradingBotError::Unauthorized)
        } else if !ctx.trading_bot.is_active {
            Err(TradingBotError::BotNotActive)
        } else {
            Ok(trading_allowed(ctx.trading_bot, now))
        }),
{
    check_strategy_handler(ctx, now)
}

} // verus!
