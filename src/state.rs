use vstd::prelude::*;

verus! {

/// A 32-byte public key: the identity of an authority, a token mint or an
/// account.
#[derive(Clone, Copy, Debug, Eq)]
pub struct Pubkey {
    pub bytes: [u8; 32],
}

impl PartialEq for Pubkey {
    /// Two keys are equal when all their bytes are.
    fn eq(&self, other: &Pubkey) -> (r: bool)
        ensures
            r == (*self == *other),
    {
        let mut i: usize = 0;
        while i < 32
            invariant
                0 <= i <= 32,
                forall|j: int| 0 <= j < i ==> self.bytes[j] == other.bytes[j],
            decreases 32 - i,
        {
            if self.bytes[i] != other.bytes[i] {
                return false;
            }
            i = i + 1;
        }
        assert(self.bytes =~= other.bytes);
        true
    }
}

impl vstd::std_specs::cmp::PartialEqSpecImpl for Pubkey {
    open spec fn obeys_eq_spec() -> bool {
        true
    }

    open spec fn eq_spec(&self, other: &Pubkey) -> bool {
        *self == *other
    }
}

/// Which signal rule the evaluator applies to a price observation.
#[derive(Clone, Copy, Debug, PartialEq, Eq, Structural)]
pub enum StrategyType {
    GridTrading,
    DCA,
    Arbitrage,
    MeanReversion,
}

/// Direction of a trade.
#[derive(Clone, Copy, Debug, PartialEq, Eq, Structural)]
pub enum TradeType {
    Buy,
    Sell,
}

/// Configuration of a bot. Thresholds are price ratios scaled by
/// `RATIO_SCALE`; the Arbitrage rule reads `buy_threshold` as the smallest
/// price difference worth reporting.
#[derive(Clone, Copy, Debug, PartialEq, Eq)]
pub struct Strategy {
    pub strategy_type: StrategyType,
    pub token_a: Pubkey,
    pub token_b: Pubkey,
    pub buy_threshold: u64,
    pub sell_threshold: u64,
    /// Basis points; declared, not enforced.
    pub max_slippage: u16,
    pub trade_amount: u64,
    /// Trading stops once the balance is at or below this value.
    pub stop_loss: Option<u64>,
    /// Trading stops once the balance is at or above this value.
    pub take_profit: Option<u64>,
}

impl Strategy {
    /// Serialized size of a strategy.
    pub const SIZE: usize = 1 + 32 + 32 + 8 + 8 + 2 + 8 + 1 + 8 + 1 + 8;
}

/// The persistent per-authority record.
#[derive(Clone, Copy, Debug, PartialEq, Eq)]
pub struct TradingBot {
    pub authority: Pubkey,
    pub is_active: bool,
    pub strategy: Strategy,
    pub balance: u64,
    pub total_trades: u64,
    pub successful_trades: u64,
    pub last_trade_timestamp: i64,
    pub created_at: i64,
    pub bump: u8,
}

impl TradingBot {
    pub const DISCRIMINATOR_SIZE: usize = 8;
    pub const PUBKEY_SIZE: usize = 32;
    pub const BOOL_SIZE: usize = 1;
    pub const U64_SIZE: usize = 8;
    pub const I64_SIZE: usize = 8;
    /// Storage reserved for a record: discriminator, authority, flag,
    /// strategy, three counters, two timestamps and the bump byte.
    pub const SIZE: usize = Self::DISCRIMINATOR_SIZE + Self::PUBKEY_SIZE + Self::BOOL_SIZE
        + Strategy::SIZE + Self::U64_SIZE + Self::U64_SIZE + Self::U64_SIZE + Self::I64_SIZE
        + Self::I64_SIZE + 1;

    /// The record's invariant: no more successful trades than trades.
    pub open spec fn wf(self) -> bool {
        self.successful_trades <= self.total_trades
    }
}

#[derive(Clone, Copy, Debug, PartialEq, Eq)]
pub struct InitializeBotParams {
    pub strategy: Strategy,
    pub initial_balance: u64,
}

#[derive(Clone, Copy, Debug, PartialEq, Eq)]
pub struct StrategyParams {
    pub strategy: Strategy,
}

#[derive(Clone, Copy, Debug, PartialEq, Eq, Structural)]
pub struct TradeParams {
    pub amount: u64,
    pub min_amount_out: u64,
    pub trade_type: TradeType,
}

} // verus!
