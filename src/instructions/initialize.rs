use vstd::prelude::*;

use crate::error::TradingBotError;
use crate::state::{InitializeBotParams, Pubkey, TradingBot};

verus! {

/// Accounts of a bot creation: the record at the authority's address (none
/// yet when the address is free), the signer, and the address's bump byte.
#[derive(Clone, Copy, Debug)]
pub struct InitializeBot {
    pub trading_bot: Option<TradingBot>,
    pub authority: Pubkey,
    pub bump: u8,
}

/// A fresh record: active, counters at zero, no trade yet.
pub open spec fn new_bot(authority: Pubkey, params: InitializeBotParams, now: i64, bump: u8) -> TradingBot {
    TradingBot {
        authority,
        is_active: true,
        strategy: params.strategy,
        balance: params.initial_balance,
        total_trades: 0,
        successful_trades: 0,
        last_trade_timestamp: 0,
        created_at: now,
        bump,
    }
}

/// Result and accounts after a creation at time `now`.
pub open spec fn initialize_outcome(ctx: InitializeBot, params: InitializeBotParams, now: i64) -> (
    Result<(), TradingBotError>,
    InitializeBot,
) {
    if ctx.trading_bot is Some {
        (Err(TradingBotError::AlreadyExists), ctx)
    } else {
        (
            Ok(()),
            InitializeBot {
                trading_bot: Some(new_bot(ctx.authority, params, now, ctx.bump)),
                ..ctx
            },
        )
    }
}

/// Creates the signer's record; fails if the signer already has one.
pub fn initialize_bot_handler(ctx: &mut InitializeBot, params: InitializeBotParams, now: i64) -> (r:
    Result<(), TradingBotError>)
    ensures
        (r, *final(ctx)) == initialize_outcome(*old(ctx), params, now),
        r is Ok ==> final(ctx).trading_bot.unwrap().wf(),
{
    if ctx.trading_bot.is_some() {
        return Err(TradingBotError::AlreadyExists);
    }
    ctx.trading_bot = Some(
        TradingBot {
            authority: ctx.authority,
            is_active: true,
            strategy: params.strategy,
            balance: params.initial_balance,
            total_trades: 0,
            successful_trades: 0,
            last_trade_timestamp: 0,
            created_at: now,
            bump: ctx.bump,
        },
    );
    Ok(())
}

} // verus!
