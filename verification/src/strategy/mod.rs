//! Sources of trade intents.

pub mod momentum;

use vstd::prelude::*;
use crate::domain::TradeIntent;

verus! {

/// An error of any kind, as `anyhow` carries it.
#[verifier::external_type_specification]
#[verifier::external_body]
pub struct ExAnyhowError(anyhow::Error);

/// A source of trade intents that the market scan asks at every round.
pub trait StrategyEngine {
    fn name(&self) -> &'static str;

    fn tick(&mut self) -> Result<Vec<TradeIntent>, anyhow::Error>;
}

} // verus!
