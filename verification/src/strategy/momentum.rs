//! Momentum scalping: volume breakout with RSI confirmation.

use vstd::prelude::*;
use crate::domain::{Strategy, TradeIntent};

verus! {

#[derive(Debug, Clone, Copy)]
pub struct MomentumParams {
    pub rsi_period: usize,
    /// The RSI above which a breakout counts, in millionths of a point.
    pub rsi_breakout: u32,
    /// The least volume over a minute, in millionths of a USDC.
    pub min_volume_usdc_1m: i64,
}

#[derive(Debug, Clone)]
pub struct MomentumScalper {
    pub quote_mint: String,
    pub size_usdc: i64,
    pub params: MomentumParams,
    pub watchlist_base_mints: Vec<String>,
}

impl MomentumScalper {
    /// A scalper with the usual parameters: an RSI of 14 periods, a breakout
    /// at 60 points, and a volume of at least 50 000 USDC a minute.
    pub fn new(quote_mint: String, size_usdc: i64, watchlist_base_mints: Vec<String>) -> (scalper:
        Self)
        ensures
            scalper.quote_mint == quote_mint,
            scalper.size_usdc == size_usdc,
            scalper.watchlist_base_mints == watchlist_base_mints,
            scalper.params.rsi_period == 14,
            scalper.params.rsi_breakout == 60_000_000,
            scalper.params.min_volume_usdc_1m == 50_000_000_000,
    {
        MomentumScalper {
            quote_mint,
            size_usdc,
            params: MomentumParams {
                rsi_period: 14,
                rsi_breakout: 60_000_000,
                min_volume_usdc_1m: 50_000_000_000,
            },
            watchlist_base_mints,
        }
    }

    /// The intents of this round. With no market data wired in there are
    /// none.
    pub fn evaluate(&self) -> (intents: Result<Vec<TradeIntent>, anyhow::Error>)
        ensures
            intents matches Ok(list) && list@.len() == 0,
    {
        Ok(Vec::new())
    }
}

/// The intent to buy `base_mint` with `quote_mint`, on behalf of momentum
/// scalping.
pub fn intent_buy(base_mint: String, quote_mint: String, size_usdc: i64) -> (intent: TradeIntent)
    ensures
        intent.strategy == Strategy::MomentumScalping,
        intent.base_mint == base_mint,
        intent.quote_mint == quote_mint,
        intent.size_usdc == size_usdc,
        intent.notes@.len() == 0,
{
    TradeIntent {
        strategy: Strategy::MomentumScalping,
        base_mint,
        quote_mint,
        size_usdc,
        notes: Vec::new(),
    }
}

} // verus!
