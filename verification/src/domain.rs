//! What a strategy proposes.

use vstd::prelude::*;

verus! {

#[derive(Debug, Clone, Copy, PartialEq, Eq, Structural)]
pub enum Strategy {
    MomentumScalping,
    AntiRugSniping,
    LstArb,
}

#[derive(Debug, Clone)]
pub struct TradeIntent {
    pub strategy: Strategy,
    pub base_mint: String,
    pub quote_mint: String,
    /// Size of the proposed position, in millionths of a USDC.
    pub size_usdc: i64,
    /// Free text for the journal.
    pub notes: Vec<String>,
}

} // verus!
