//! State-transition logic of an automated trading bot: one record per
//! authority, a lifecycle (initialize, pause, resume, strategy updates,
//! withdrawals), a price-driven strategy evaluator and the trade accounting
//! that every venue goes through.
pub mod error;
pub mod instructions;
pub mod laws;
pub mod program;
pub mod state;

pub use error::TradingBotError;
pub use instructions::initialize::{initialize_bot_handler, InitializeBot};
pub use instructions::jupiter::{
    execute_jupiter_swap_handler, execute_raydium_swap_handler, JupiterSwap, JupiterSwapParams,
    RaydiumSwap, RaydiumSwapParams,
};
pub use instructions::management::{
    pause_bot_handler, resume_bot_handler, update_strategy_handler, withdraw_funds_handler,
    PauseBot, ResumeBot, UpdateStrategy, WithdrawFunds,
};
pub use instructions::price_monitor::{
    check_arbitrage_conditions, check_dca_conditions, check_grid_trading_conditions,
    check_mean_reversion_conditions, check_strategy_handler, price_ratio, update_price_handler,
    CheckStrategy, PriceData, Signal, UpdatePrice,
};
pub use instructions::trading::{execute_trade_handler, record_trade_outcome, ExecuteTrade};
pub use program::{
    check_strategy, execute_trade, initialize_bot, jupiter_swap, pause_bot, raydium_swap,
    resume_bot, update_price, update_strategy, withdraw_funds,
};
pub use state::{
    InitializeBotParams, Pubkey, Strategy, StrategyParams, StrategyType, TradeParams, TradeType,
    TradingBot,
};
