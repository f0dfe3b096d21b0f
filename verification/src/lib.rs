//! Risk governance and position-exit rules for an automated trading daemon.
//!
//! Every amount of money is an integer count of millionths of a USDC, every
//! fraction an integer count of parts per million, and every price an integer
//! count of ticks of whatever size the price feed uses. All comparisons of the
//! rules are made on exact products of these integers, so no rounding enters a
//! decision.

pub mod fixed;
pub mod text;
pub mod risk;
pub mod ledger;
pub mod position;
pub mod state;
pub mod monitor;
pub mod orchestrator;
pub mod jupiter;
pub mod engine;
pub mod notifier;
pub mod domain;
pub mod config;
pub mod strategy;
pub mod time;
pub mod logger;
pub mod schedule;
