use vstd::prelude::*;

verus! {

/// Errors of the trading-bot operations. A failing operation leaves every
/// record it was handed exactly as it was.
#[derive(Clone, Copy, Debug, PartialEq, Eq, Structural)]
pub enum TradingBotError {
    /// The bot is paused.
    BotNotActive,
    /// The logical balance or the custodied funds do not cover the amount.
    InsufficientFunds,
    /// Reserved: strategy parameters are not validated.
    InvalidStrategy,
    /// A swap was asked for with an input amount of zero.
    TradeAmountTooSmall,
    /// Reserved: trade sizes have no upper bound yet.
    TradeAmountTooLarge,
    /// Reserved: the slippage tolerance is not enforced.
    SlippageExceeded,
    /// Reserved: price thresholds do not gate trades.
    PriceThresholdNotMet,
    /// The signer is not the authority of the record.
    Unauthorized,
    /// A record already exists for this authority.
    AlreadyExists,
}

impl TradingBotError {
    /// Position of the variant in the error list, counted from zero.
    pub open spec fn index(self) -> u32 {
        match self {
            TradingBotError::BotNotActive => 0,
            TradingBotError::InsufficientFunds => 1,
            TradingBotError::InvalidStrategy => 2,
            TradingBotError::TradeAmountTooSmall => 3,
            TradingBotError::TradeAmountTooLarge => 4,
            TradingBotError::SlippageExceeded => 5,
            TradingBotError::PriceThresholdNotMet => 6,
            TradingBotError::Unauthorized => 7,
            TradingBotError::AlreadyExists => 8,
        }
    }

    /// Numeric error code: program errors are numbered from `ERROR_CODE_OFFSET`
    /// in declaration order.
    pub fn code(&self) -> (r: u32)
        ensures
            r == ERROR_CODE_OFFSET + self.index(),
    {
        let i: u32 = match self {
            TradingBotError::BotNotActive => 0,
            TradingBotError::InsufficientFunds => 1,
            TradingBotError::InvalidStrategy => 2,
            TradingBotError::TradeAmountTooSmall => 3,
            TradingBotError::TradeAmountTooLarge => 4,
            TradingBotError::SlippageExceeded => 5,
            TradingBotError::PriceThresholdNotMet => 6,
            TradingBotError::Unauthorized => 7,
            TradingBotError::AlreadyExists => 8,
        };
        ERROR_CODE_OFFSET + i
    }
}

/// First code of the program's own errors.
pub const ERROR_CODE_OFFSET: u32 = 6000;

} // verus!
