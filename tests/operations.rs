use solana_trading_bot::error::ERROR_CODE_OFFSET;
use solana_trading_bot::{
    check_arbitrage_conditions, check_dca_conditions, check_grid_trading_conditions,
    check_mean_reversion_conditions, check_strategy, execute_trade, initialize_bot, jupiter_swap,
    pause_bot, price_ratio, raydium_swap, record_trade_outcome, resume_bot, update_price,
    update_strategy, withdraw_funds, CheckStrategy, ExecuteTrade, InitializeBot,
    InitializeBotParams, JupiterSwap, JupiterSwapParams, PauseBot, PriceData, Pubkey,
    RaydiumSwap, RaydiumSwapParams, ResumeBot, Signal, Strategy, StrategyParams, StrategyType,
    TradeParams, TradeType, TradingBot, TradingBotError, UpdatePrice, UpdateStrategy,
    WithdrawFunds,
};

fn key(b: u8) -> Pubkey {
    Pubkey { bytes: [b; 32] }
}

fn strategy(kind: StrategyType) -> Strategy {
    Strategy {
        strategy_type: kind,
        token_a: key(10),
        token_b: key(11),
        buy_threshold: 9500,
        sell_threshold: 10500,
        max_slippage: 50,
        trade_amount: 1000,
        stop_loss: None,
        take_profit: None,
    }
}

fn bot(kind: StrategyType) -> TradingBot {
    TradingBot {
        authority: key(1),
        is_active: true,
        strategy: strategy(kind),
        balance: 1_000,
        total_trades: 0,
        successful_trades: 0,
        last_trade_timestamp: 0,
        created_at: 100,
        bump: 254,
    }
}

fn prices(a: u64, b: u64) -> PriceData {
    PriceData { token_a_price: a, token_b_price: b, timestamp: 0, confidence: 0 }
}

fn trade(amount: u64) -> TradeParams {
    TradeParams { amount, min_amount_out: 0, trade_type: TradeType::Buy }
}

fn jupiter(b: TradingBot, signer: Pubkey) -> JupiterSwap {
    JupiterSwap {
        trading_bot: b,
        authority: signer,
        source_token_account: key(20),
        destination_token_account: key(21),
        jupiter_program: key(22),
        token_program: key(23),
    }
}

fn raydium(b: TradingBot, signer: Pubkey) -> RaydiumSwap {
    RaydiumSwap {
        trading_bot: b,
        authority: signer,
        source_token_account: key(20),
        destination_token_account: key(21),
        amm_program: key(24),
        amm_pool: key(25),
        token_program: key(23),
    }
}

fn jupiter_params(amount_in: u64) -> JupiterSwapParams {
    JupiterSwapParams { amount_in, minimum_amount_out: 1, platform_fee_bps: 30 }
}

fn raydium_params(amount_in: u64) -> RaydiumSwapParams {
    RaydiumSwapParams {
        amount_in,
        minimum_amount_out: 1,
        pool_coin_token_account: key(26),
        pool_pc_token_account: key(27),
    }
}

#[test]
fn initialize_creates_active_record() {
    let params = InitializeBotParams { strategy: strategy(StrategyType::GridTrading), initial_balance: 5_000 };
    let mut ctx = InitializeBot { trading_bot: None, authority: key(1), bump: 253 };
    assert_eq!(initialize_bot(&mut ctx, params, 1_700_000_000), Ok(()));
    let b = ctx.trading_bot.unwrap();
    assert_eq!(b.authority, key(1));
    assert!(b.is_active);
    assert_eq!(b.strategy, strategy(StrategyType::GridTrading));
    assert_eq!(b.balance, 5_000);
    assert_eq!(b.total_trades, 0);
    assert_eq!(b.successful_trades, 0);
    assert_eq!(b.last_trade_timestamp, 0);
    assert_eq!(b.created_at, 1_700_000_000);
    assert_eq!(b.bump, 253);
}

#[test]
fn initialize_twice_fails() {
    let params = InitializeBotParams { strategy: strategy(StrategyType::DCA), initial_balance: 1 };
    let existing = bot(StrategyType::GridTrading);
    let mut ctx = InitializeBot { trading_bot: Some(existing), authority: key(1), bump: 253 };
    assert_eq!(initialize_bot(&mut ctx, params, 5), Err(TradingBotError::AlreadyExists));
    assert_eq!(ctx.trading_bot, Some(existing));
}

#[test]
fn other_signer_is_unauthorized_everywhere() {
    let b = bot(StrategyType::GridTrading);
    let intruder = key(2);

    let mut u = UpdateStrategy { trading_bot: b, authority: intruder };
    assert_eq!(
        update_strategy(&mut u, StrategyParams { strategy: strategy(StrategyType::DCA) }),
        Err(TradingBotError::Unauthorized)
    );
    assert_eq!(u.trading_bot, b);

    let mut p = PauseBot { trading_bot: b, authority: intruder };
    assert_eq!(pause_bot(&mut p), Err(TradingBotError::Unauthorized));
    assert_eq!(p.trading_bot, b);

    let mut paused = b;
    paused.is_active = false;
    let mut r = ResumeBot { trading_bot: paused, authority: intruder };
    assert_eq!(resume_bot(&mut r), Err(TradingBotError::Unauthorized));
    assert_eq!(r.trading_bot, paused);

    let mut w = WithdrawFunds { trading_bot: b, authority: intruder, bot_lamports: 5_000, authority_lamports: 0 };
    assert_eq!(withdraw_funds(&mut w, 10), Err(TradingBotError::Unauthorized));
    assert_eq!(w.trading_bot, b);
    assert_eq!((w.bot_lamports, w.authority_lamports), (5_000, 0));

    let mut e = ExecuteTrade { trading_bot: b, authority: intruder };
    assert_eq!(execute_trade(&mut e, trade(10), 99), Err(TradingBotError::Unauthorized));
    assert_eq!(e.trading_bot, b);

    let mut j = jupiter(b, intruder);
    assert_eq!(jupiter_swap(&mut j, jupiter_params(10), 99, true), Err(TradingBotError::Unauthorized));
    assert_eq!(j.trading_bot, b);

    let mut ry = raydium(b, intruder);
    assert_eq!(raydium_swap(&mut ry, raydium_params(10), 99, true), Err(TradingBotError::Unauthorized));
    assert_eq!(ry.trading_bot, b);

    let up = UpdatePrice { trading_bot: b, authority: intruder };
    assert_eq!(update_price(&up, prices(94, 100), 99), Err(TradingBotError::Unauthorized));

    let cs = CheckStrategy { trading_bot: b, authority: intruder };
    assert_eq!(check_strategy(&cs, 99), Err(TradingBotError::Unauthorized));
}

#[test]
fn keys_differing_in_last_byte_are_distinct() {
    let mut other = key(1);
    other.bytes[31] = 0;
    let b = bot(StrategyType::GridTrading);
    let mut p = PauseBot { trading_bot: b, authority: other };
    assert_eq!(pause_bot(&mut p), Err(TradingBotError::Unauthorized));
    assert!(p.trading_bot.is_active);
}

#[test]
fn update_strategy_replaces_without_validation() {
    let mut s = strategy(StrategyType::MeanReversion);
    s.buy_threshold = 20_000;
    s.sell_threshold = 100;
    let mut u = UpdateStrategy { trading_bot: bot(StrategyType::GridTrading), authority: key(1) };
    assert_eq!(update_strategy(&mut u, StrategyParams { strategy: s }), Ok(()));
    assert_eq!(u.trading_bot.strategy, s);
    assert_eq!(u.trading_bot.balance, 1_000);
}

#[test]
fn pause_twice_is_idempotent() {
    let mut p = PauseBot { trading_bot: bot(StrategyType::GridTrading), authority: key(1) };
    assert_eq!(pause_bot(&mut p), Ok(()));
    assert!(!p.trading_bot.is_active);
    let once = p.trading_bot;
    assert_eq!(pause_bot(&mut p), Ok(()));
    assert!(!p.trading_bot.is_active);
    assert_eq!(p.trading_bot, once);
}

#[test]
fn resume_reactivates() {
    let mut b = bot(StrategyType::GridTrading);
    b.is_active = false;
    let mut r = ResumeBot { trading_bot: b, authority: key(1) };
    assert_eq!(resume_bot(&mut r), Ok(()));
    assert!(r.trading_bot.is_active);
    assert_eq!(resume_bot(&mut r), Ok(()));
    assert!(r.trading_bot.is_active);
}

#[test]
fn withdraw_moves_funds() {
    let mut w = WithdrawFunds {
        trading_bot: bot(StrategyType::GridTrading),
        authority: key(1),
        bot_lamports: 3_000,
        authority_lamports: 50,
    };
    assert_eq!(withdraw_funds(&mut w, 400), Ok(()));
    assert_eq!(w.trading_bot.balance, 600);
    assert_eq!(w.bot_lamports, 2_600);
    assert_eq!(w.authority_lamports, 450);
}

#[test]
fn withdraw_whole_balance() {
    let mut w = WithdrawFunds {
        trading_bot: bot(StrategyType::GridTrading),
        authority: key(1),
        bot_lamports: 1_000,
        authority_lamports: 0,
    };
    assert_eq!(withdraw_funds(&mut w, 1_000), Ok(()));
    assert_eq!(w.trading_bot.balance, 0);
    assert_eq!(w.bot_lamports, 0);
    assert_eq!(withdraw_funds(&mut w, 1), Err(TradingBotError::InsufficientFunds));
    assert_eq!(w.trading_bot.balance, 0);
}

#[test]
fn withdraw_over_balance_fails() {
    let b = bot(StrategyType::GridTrading);
    let mut w = WithdrawFunds { trading_bot: b, authority: key(1), bot_lamports: 10_000, authority_lamports: 7 };
    assert_eq!(withdraw_funds(&mut w, 1_001), Err(TradingBotError::InsufficientFunds));
    assert_eq!(w.trading_bot, b);
    assert_eq!((w.bot_lamports, w.authority_lamports), (10_000, 7));
}

#[test]
fn withdraw_over_custody_fails() {
    let b = bot(StrategyType::GridTrading);
    let mut w = WithdrawFunds { trading_bot: b, authority: key(1), bot_lamports: 300, authority_lamports: 7 };
    assert_eq!(withdraw_funds(&mut w, 500), Err(TradingBotError::InsufficientFunds));
    assert_eq!(w.trading_bot, b);
    assert_eq!((w.bot_lamports, w.authority_lamports), (300, 7));
}

#[test]
fn repeated_withdrawals_stop_at_zero() {
    let mut w = WithdrawFunds {
        trading_bot: bot(StrategyType::GridTrading),
        authority: key(1),
        bot_lamports: 100_000,
        authority_lamports: 0,
    };
    let mut accepted: u64 = 0;
    for _ in 0..5 {
        if withdraw_funds(&mut w, 300).is_ok() {
            accepted += 300;
        }
    }
    assert_eq!(accepted, 900);
    assert_eq!(w.trading_bot.balance, 100);
    assert_eq!(w.authority_lamports, 900);
}

#[test]
fn execute_trade_counts_and_stamps() {
    let mut e = ExecuteTrade { trading_bot: bot(StrategyType::GridTrading), authority: key(1) };
    assert_eq!(execute_trade(&mut e, trade(10), 1_234), Ok(()));
    let sell = TradeParams { amount: 5, min_amount_out: 3, trade_type: TradeType::Sell };
    assert_eq!(execute_trade(&mut e, sell, 1_300), Ok(()));
    assert_eq!(e.trading_bot.total_trades, 2);
    assert_eq!(e.trading_bot.successful_trades, 0);
    assert_eq!(e.trading_bot.last_trade_timestamp, 1_300);
    assert_eq!(e.trading_bot.balance, 1_000);
}

#[test]
fn execute_trade_on_paused_bot_fails() {
    let mut b = bot(StrategyType::GridTrading);
    b.is_active = false;
    let mut e = ExecuteTrade { trading_bot: b, authority: key(1) };
    assert_eq!(execute_trade(&mut e, trade(10), 1_234), Err(TradingBotError::BotNotActive));
    assert_eq!(e.trading_bot, b);
}

#[test]
fn swap_failure_counts_trade_only() {
    let mut b = bot(StrategyType::GridTrading);
    b.total_trades = 5;
    b.successful_trades = 3;
    let mut j = jupiter(b, key(1));
    assert_eq!(jupiter_swap(&mut j, jupiter_params(100), 777, false), Ok(()));
    assert_eq!(j.trading_bot.total_trades, 6);
    assert_eq!(j.trading_bot.successful_trades, 3);
    assert_eq!(j.trading_bot.last_trade_timestamp, 777);
}

#[test]
fn swap_success_counts_both() {
    let mut b = bot(StrategyType::GridTrading);
    b.total_trades = 5;
    b.successful_trades = 3;
    let mut r = raydium(b, key(1));
    assert_eq!(raydium_swap(&mut r, raydium_params(100), 778, true), Ok(()));
    assert_eq!(r.trading_bot.total_trades, 6);
    assert_eq!(r.trading_bot.successful_trades, 4);
    assert_eq!(r.trading_bot.last_trade_timestamp, 778);
    let mut j = jupiter(b, key(1));
    assert_eq!(jupiter_swap(&mut j, jupiter_params(1), 779, true), Ok(()));
    assert_eq!(j.trading_bot.total_trades, 6);
    assert_eq!(j.trading_bot.successful_trades, 4);
}

#[test]
fn swap_of_nothing_fails() {
    let b = bot(StrategyType::GridTrading);
    let mut j = jupiter(b, key(1));
    assert_eq!(jupiter_swap(&mut j, jupiter_params(0), 1, true), Err(TradingBotError::TradeAmountTooSmall));
    assert_eq!(j.trading_bot, b);
    let mut r = raydium(b, key(1));
    assert_eq!(raydium_swap(&mut r, raydium_params(0), 1, true), Err(TradingBotError::TradeAmountTooSmall));
    assert_eq!(r.trading_bot, b);
}

#[test]
fn swap_on_paused_bot_fails() {
    let mut b = bot(StrategyType::GridTrading);
    b.is_active = false;
    let mut j = jupiter(b, key(1));
    assert_eq!(jupiter_swap(&mut j, jupiter_params(0), 1, true), Err(TradingBotError::BotNotActive));
    let mut r = raydium(b, key(1));
    assert_eq!(raydium_swap(&mut r, raydium_params(5), 1, false), Err(TradingBotError::BotNotActive));
    assert_eq!(r.trading_bot, b);
}

#[test]
fn counters_stay_ordered_over_mixed_trades() {
    let mut b = bot(StrategyType::DCA);
    let outcomes = [true, false, true, true, false, false, true];
    for (i, ok) in outcomes.iter().enumerate() {
        record_trade_outcome(&mut b, i as i64, *ok);
        assert!(b.successful_trades <= b.total_trades);
    }
    let mut e = ExecuteTrade { trading_bot: b, authority: key(1) };
    assert_eq!(execute_trade(&mut e, trade(1), 50), Ok(()));
    assert_eq!(e.trading_bot.total_trades, 8);
    assert_eq!(e.trading_bot.successful_trades, 4);
}

#[test]
fn ratio_values() {
    assert_eq!(price_ratio(94, 100), 9_400);
    assert_eq!(price_ratio(1, 3), 3_333);
    assert_eq!(price_ratio(5, 0), 0);
    assert_eq!(price_ratio(0, 7), 0);
}

#[test]
fn ratio_of_largest_prices_does_not_overflow() {
    assert_eq!(price_ratio(u64::MAX, 1), u64::MAX as u128 * 10_000);
    assert_eq!(price_ratio(u64::MAX, u64::MAX), 10_000);
}

#[test]
fn grid_thresholds() {
    let up = UpdatePrice { trading_bot: bot(StrategyType::GridTrading), authority: key(1) };
    assert_eq!(update_price(&up, prices(94, 100), 0), Ok(Signal::Buy));
    assert_eq!(update_price(&up, prices(106, 100), 0), Ok(Signal::Sell));
    assert_eq!(update_price(&up, prices(100, 100), 0), Ok(Signal::Hold));
    assert_eq!(update_price(&up, prices(95, 100), 0), Ok(Signal::Buy));
    assert_eq!(update_price(&up, prices(105, 100), 0), Ok(Signal::Sell));
}

#[test]
fn grid_and_mean_reversion_conditions_directly() {
    let b = bot(StrategyType::GridTrading);
    assert_eq!(check_grid_trading_conditions(&b, 9_400), Signal::Buy);
    assert_eq!(check_grid_trading_conditions(&b, 10_600), Signal::Sell);
    assert_eq!(check_grid_trading_conditions(&b, 10_000), Signal::Hold);
    assert_eq!(check_grid_trading_conditions(&b, u64::MAX as u128 + 1), Signal::Sell);
    assert_eq!(check_mean_reversion_conditions(&b, 9_500), Signal::Buy);
    assert_eq!(check_mean_reversion_conditions(&b, 10_499), Signal::Hold);
    assert_eq!(check_mean_reversion_conditions(&b, 10_500), Signal::Sell);
}

#[test]
fn mean_reversion_thresholds() {
    let up = UpdatePrice { trading_bot: bot(StrategyType::MeanReversion), authority: key(1) };
    assert_eq!(update_price(&up, prices(94, 100), 0), Ok(Signal::Buy));
    assert_eq!(update_price(&up, prices(106, 100), 0), Ok(Signal::Sell));
    assert_eq!(update_price(&up, prices(100, 100), 0), Ok(Signal::Hold));
}

#[test]
fn zero_token_b_price_reads_as_zero_ratio() {
    let up = UpdatePrice { trading_bot: bot(StrategyType::GridTrading), authority: key(1) };
    assert_eq!(update_price(&up, prices(500, 0), 0), Ok(Signal::Buy));
}

#[test]
fn dca_gating() {
    let t: i64 = 1_700_000_000;
    let mut b = bot(StrategyType::DCA);
    b.last_trade_timestamp = t;
    let up = UpdatePrice { trading_bot: b, authority: key(1) };
    assert_eq!(update_price(&up, prices(94, 100), t + 3599), Ok(Signal::Hold));
    assert_eq!(update_price(&up, prices(94, 100), t + 3600), Ok(Signal::Hold));
    assert_eq!(update_price(&up, prices(94, 100), t + 3601), Ok(Signal::Buy));
    assert_eq!(check_dca_conditions(&b, t + 3599), Signal::Hold);
    assert_eq!(check_dca_conditions(&b, t + 3601), Signal::Buy);
}

#[test]
fn dca_with_extreme_times() {
    let mut b = bot(StrategyType::DCA);
    b.last_trade_timestamp = i64::MIN;
    assert_eq!(check_dca_conditions(&b, i64::MAX), Signal::Buy);
    b.last_trade_timestamp = i64::MAX;
    assert_eq!(check_dca_conditions(&b, i64::MIN), Signal::Hold);
}

#[test]
fn arbitrage_opportunity() {
    let mut b = bot(StrategyType::Arbitrage);
    b.strategy.buy_threshold = 10;
    let up = UpdatePrice { trading_bot: b, authority: key(1) };
    assert_eq!(update_price(&up, prices(100, 111), 0), Ok(Signal::Opportunity));
    assert_eq!(update_price(&up, prices(111, 100), 0), Ok(Signal::Opportunity));
    assert_eq!(update_price(&up, prices(100, 110), 0), Ok(Signal::Hold));
    assert_eq!(check_arbitrage_conditions(&b, &prices(0, u64::MAX)), Signal::Opportunity);
    assert_eq!(check_arbitrage_conditions(&b, &prices(7, 7)), Signal::Hold);
}

#[test]
fn check_strategy_gates() {
    let mut b = bot(StrategyType::GridTrading);
    b.last_trade_timestamp = 1_000;
    let cs = CheckStrategy { trading_bot: b, authority: key(1) };
    assert_eq!(check_strategy(&cs, 1_059), Ok(false));
    assert_eq!(check_strategy(&cs, 1_060), Ok(true));

    let mut stop = b;
    stop.strategy.stop_loss = Some(1_000);
    let cs = CheckStrategy { trading_bot: stop, authority: key(1) };
    assert_eq!(check_strategy(&cs, 5_000), Ok(false));
    stop.strategy.stop_loss = Some(999);
    let cs = CheckStrategy { trading_bot: stop, authority: key(1) };
    assert_eq!(check_strategy(&cs, 5_000), Ok(true));

    let mut take = b;
    take.strategy.take_profit = Some(1_000);
    let cs = CheckStrategy { trading_bot: take, authority: key(1) };
    assert_eq!(check_strategy(&cs, 5_000), Ok(false));
    take.strategy.take_profit = Some(1_001);
    let cs = CheckStrategy { trading_bot: take, authority: key(1) };
    assert_eq!(check_strategy(&cs, 5_000), Ok(true));
}

#[test]
fn check_strategy_on_paused_bot_fails() {
    let mut b = bot(StrategyType::GridTrading);
    b.is_active = false;
    let cs = CheckStrategy { trading_bot: b, authority: key(1) };
    assert_eq!(check_strategy(&cs, 5_000), Err(TradingBotError::BotNotActive));
}

#[test]
fn error_codes_follow_declaration_order() {
    assert_eq!(TradingBotError::BotNotActive.code(), ERROR_CODE_OFFSET);
    assert_eq!(TradingBotError::Unauthorized.code(), ERROR_CODE_OFFSET + 7);
    assert_eq!(TradingBotError::AlreadyExists.code(), 6008);
}

#[test]
fn record_sizes() {
    assert_eq!(Strategy::SIZE, 109);
    assert_eq!(TradingBot::SIZE, 8 + 32 + 1 + 109 + 8 * 5 + 1);
}
