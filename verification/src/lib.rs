//! A genetic-algorithm trading simulator.
//!
//! Populations of trading bots are evolved against a historical price
//! series.  Each bot runs a per-period decision procedure (buy gating,
//! prioritised sell-reason resolution, fee-aware position accounting),
//! is scored by its final cash balance, and the best performers are
//! selected, crossed over and mutated to form the next generation.
//!
//! All prices and cash amounts are fixed-point integers: one unit of
//! currency is `fixed::MONEY_SCALE` ticks, purchased amounts are
//! counted in `fixed::AMOUNT_SCALE`-ths, and percentages in
//! `fixed::PCT_SCALE`-ths of a percent.

pub mod asset;
pub mod bot;
pub mod config;
pub mod fixed;
pub mod price_data;
mod rng;
pub mod simulation;
pub mod village;
