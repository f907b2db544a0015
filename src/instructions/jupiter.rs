use vstd::prelude::*;

use crate::error::TradingBotError;
use crate::instructions::management::signed_by_owner;
use crate::instructions::trading::{after_trade, record_trade_outcome};
use crate::state::{Pubkey, TradingBot};

verus! {

/// Accounts of a swap through the aggregator venue.
#[derive(Clone, Copy, Debug)]
pub struct JupiterSwap {
    pub trading_bot: TradingBot,
    pub authority: Pubkey,
    pub source_token_account: Pubkey,
    pub destination_token_account: Pubkey,
    pub jupiter_program: Pubkey,
    pub token_program: Pubkey,
}

#[derive(Clone, Copy, Debug, PartialEq, Eq, Structural)]
pub struct JupiterSwapParams {
    pub amount_in: u64,
    pub minimum_amount_out: u64,
    pub platform_fee_bps: u16,
}

/// Accounts of a swap through the pool venue.
#[derive(Clone, Copy, Debug)]
pub struct RaydiumSwap {
    pub trading_bot: TradingBot,
    pub authority: Pubkey,
    pub source_token_account: Pubkey,
    pub destination_token_account: Pubkey,
    pub amm_program: Pubkey,
    pub amm_pool: Pubkey,
    pub token_program: Pubkey,
}

#[derive(Clone, Copy, Debug)]
pub struct RaydiumSwapParams {
    pub amount_in: u64,
    pub minimum_amount_out: u64,
    pub pool_coin_token_account: Pubkey,
    pub pool_pc_token_account: Pubkey,
}

/// Result and record after a swap of `amount_in` at time `now` that the
/// venue reported as `trade_successful`.
pub open spec fn swap_outcome(
    bot: TradingBot,
    signer: Pubkey,
    amount_in: u64,
    now: i64,
    trade_successful: bool,
) -> (Result<(), TradingBotError>, TradingBot) {
    if !signed_by_owner(bot, signer) {
        (Err(TradingBotError::Unauthorized), bot)
    } else if !bot.is_active {
        (Err(TradingBotError::BotNotActive), bot)
    } else if amount_in == 0 {
        (Err(TradingBotError::TradeAmountTooSmall), bot)
    } else {
        (Ok(()), after_trade(bot, now, trade_successful))
    }
}

/// Records a swap through the aggregator venue. The venue decides whether
/// the swap succeeded; this records the trade either way.
pub fn execute_jupiter_swap_handler(
    ctx: &mut JupiterSwap,
    params: JupiterSwapParams,
    now: i64,
    trade_successful: bool,
) -> (r: Result<(), TradingBotError>)
    requires
        old(ctx).trading_bot.wf(),
        old(ctx).trading_bot.total_trades < u64::MAX,
    ensures
        (r, final(ctx).trading_bot) == swap_outcome(
            old(ctx).trading_bot,
            old(ctx).authority,
            params.amount_in,
            now,
            trade_successful,
        ),
        *final(ctx) == (JupiterSwap { trading_bot: final(ctx).trading_bot, ..*old(ctx) }),
        final(ctx).trading_bot.wf(),
{
    if ctx.authority != ctx.trading_bot.authority {
        return Err(TradingBotError::Unauthorized);
    }
    if !ctx.trading_bot.is_active {
        return Err(TradingBotError::BotNotActive);
    }
    if params.amount_in == 0 {
        return Err(TradingBotError::TradeAmountTooSmall);
    }
    record_trade_outcome(&mut ctx.trading_bot, now, trade_successful);
    Ok(())
}

/// Records a swap through the pool venue. The venue decides whether the
/// swap succeeded; this records the trade either way.
pub fn execute_raydium_swap_handler(
    ctx: &mut RaydiumSwap,
    params: RaydiumSwapParams,
    now: i64,
    trade_successful: bool,
) -> (r: Result<(), TradingBotError>)
    requires
        old(ctx).trading_bot.wf(),
        old(ctx).trading_bot.total_trades < u64::MAX,
    ensures
        (r, final(ctx).trading_bot) == swap_outcome(
            old(ctx).trading_bot,
            old(ctx).authority,
            params.amount_in,
            now,
            trade_successful,
        ),
        *final(ctx) == (RaydiumSwap { trading_bot: final(ctx).trading_bot, ..*old(ctx) }),
        final(ctx).trading_bot.wf(),
{
    if ctx.authority != ctx.trading_bot.authority {
        return Err(TradingBotError::Unauthorized);
    }
    if !ctx.trading_bot.is_active {
        return Err(TradingBotError::BotNotActive);
    }
    if params.amount_in == 0 {
        return Err(TradingBotError::TradeAmountTooSmall);
    }
    record_trade_outcome(&mut ctx.trading_bot, now, trade_successful);
    Ok(())
}

} // verus!
