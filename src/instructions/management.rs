use vstd::prelude::*;

use crate::error::TradingBotError;
use crate::state::{Pubkey, StrategyParams, TradingBot};

verus! {

/// Accounts of a strategy update: the record and the signer.
#[derive(Clone, Copy, Debug)]
pub struct UpdateStrategy {
    pub trading_bot: TradingBot,
    pub authority: Pubkey,
}

/// Accounts of a pause: the record and the signer.
#[derive(Clone, Copy, Debug)]
pub struct PauseBot {
    pub trading_bot: TradingBot,
    pub authority: Pubkey,
}

/// Accounts of a resume: the record and the signer.
#[derive(Clone, Copy, Debug)]
pub struct ResumeBot {
    pub trading_bot: TradingBot,
    pub authority: Pubkey,
}

/// Accounts of a withdrawal: the record, the signer, and the native funds
/// that the record's account and the signer's account hold.
#[derive(Clone, Copy, Debug)]
pub struct WithdrawFunds {
    pub trading_bot: TradingBot,
    pub authority: Pubkey,
    pub bot_lamports: u64,
    pub authority_lamports: u64,
}

/// The signer controls the record.
pub open spec fn signed_by_owner(bot: TradingBot, signer: Pubkey) -> bool {
    bot.authority == signer
}

/// The record with its active flag set to `flag`.
pub open spec fn with_active(bot: TradingBot, flag: bool) -> TradingBot {
    TradingBot { is_active: flag, ..bot }
}

/// Result and accounts after a strategy update.
pub open spec fn update_strategy_outcome(ctx: UpdateStrategy, p: StrategyParams) -> (
    Result<(), TradingBotError>,
    UpdateStrategy,
) {
    if !signed_by_owner(ctx.trading_bot, ctx.authority) {
        (Err(TradingBotError::Unauthorized), ctx)
    } else {
        (Ok(()), UpdateStrategy { trading_bot: TradingBot { strategy: p.strategy, ..ctx.trading_bot }, ..ctx })
    }
}

/// Result and accounts after a pause.
pub open spec fn pause_outcome(ctx: PauseBot) -> (Result<(), TradingBotError>, PauseBot) {
    if !signed_by_owner(ctx.trading_bot, ctx.authority) {
        (Err(TradingBotError::Unauthorized), ctx)
    } else {
        (Ok(()), PauseBot { trading_bot: with_active(ctx.trading_bot, false), ..ctx })
    }
}

/// Result and accounts after a resume.
pub open spec fn resume_outcome(ctx: ResumeBot) -> (Result<(), TradingBotError>, ResumeBot) {
    if !signed_by_owner(ctx.trading_bot, ctx.authority) {
        (Err(TradingBotError::Unauthorized), ctx)
    } else {
        (Ok(()), ResumeBot { trading_bot: with_active(ctx.trading_bot, true), ..ctx })
    }
}

/// Result and accounts after a withdrawal of `amount`: both the logical
/// balance and the custodied funds must cover it; then both decrease by it
/// and the signer's funds increase by it.
pub open spec fn withdraw_outcome(ctx: WithdrawFunds, amount: u64) -> (
    Result<(), TradingBotError>,
    WithdrawFunds,
) {
    if !signed_by_owner(ctx.trading_bot, ctx.authority) {
        (Err(TradingBotError::Unauthorized), ctx)
    } else if amount > ctx.trading_bot.balance || amount > ctx.bot_lamports {
        (Err(TradingBotError::InsufficientFunds), ctx)
    } else {
        (
            Ok(()),
            WithdrawFunds {
                trading_bot: TradingBot {
                    balance: (ctx.trading_bot.balance - amount) as u64,
                    ..ctx.trading_bot
                },
                bot_lamports: (ctx.bot_lamports - amount) as u64,
                authority_lamports: (ctx.authority_lamports + amount) as u64,
                ..ctx
            },
        )
    }
}

/// Replaces the strategy wholesale. Thresholds are deliberately not checked
/// against each other.
pub fn update_strategy_handler(ctx: &mut UpdateStrategy, strategy_params: StrategyParams) -> (r:
    Result<(), TradingBotError>)
    ensures
        (r, *final(ctx)) == update_strategy_outcome(*old(ctx), strategy_params),
        old(ctx).trading_bot.wf() ==> final(ctx).trading_bot.wf(),
{
    if ctx.authority != ctx.trading_bot.authority {
        return Err(TradingBotError::Unauthorized);
    }
    ctx.trading_bot.strategy = strategy_params.strategy;
    Ok(())
}

/// Marks the bot inactive. Pausing a paused bot is no error.
pub fn pause_bot_handler(ctx: &mut PauseBot) -> (r: Result<(), TradingBotError>)
    ensures
        (r, *final(ctx)) == pause_outcome(*old(ctx)),
        old(ctx).trading_bot.wf() ==> final(ctx).trading_bot.wf(),
{
    if ctx.authority != ctx.trading_bot.authority {
        return Err(TradingBotError::Unauthorized);
    }
    ctx.trading_bot.is_active = false;
    Ok(())
}

/// Marks the bot active. Resuming an active bot is no error.
pub fn resume_bot_handler(ctx: &mut ResumeBot) -> (r: Result<(), TradingBotError>)
    ensures
        (r, *final(ctx)) == resume_outcome(*old(ctx)),
        old(ctx).trading_bot.wf() ==> final(ctx).trading_bot.wf(),
{
    if ctx.authority != ctx.trading_bot.authority {
        return Err(TradingBotError::Unauthorized);
    }
    ctx.trading_bot.is_active = true;
    Ok(())
}

/// Moves `amount` of native funds from the record's account to the signer,
/// after checking it against the logical balance and against the funds the
/// account really holds, which may differ.
pub fn withdraw_funds_handler(ctx: &mut WithdrawFunds, amount: u64) -> (r: Result<(), TradingBotError>)
    requires
        old(ctx).authority_lamports + amount <= u64::MAX,
    ensures
        (r, *final(ctx)) == withdraw_outcome(*old(ctx), amount),
        old(ctx).trading_bot.wf() ==> final(ctx).trading_bot.wf(),
{
    if ctx.authority != ctx.trading_bot.authority {
        return Err(TradingBotError::Unauthorized);
    }
    if ctx.trading_bot.balance < amount {
        return Err(TradingBotError::InsufficientFunds);
    }
    if ctx.bot_lamports < amount {
        return Err(TradingBotError::InsufficientFunds);
    }
    ctx.trading_bot.balance = ctx.trading_bot.balance - amount;
    ctx.bot_lamports = ctx.bot_lamports - amount;
    ctx.authority_lamports = ctx.authority_lamports + amount;
    Ok(())
}

} // verus!
