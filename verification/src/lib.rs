//! A perpetual-futures liquidation engine.
//!
//! The crate has two halves that share one fixed-point data model:
//! an off-chain monitor (oracle cache, position source, priority queue,
//! periodic margin scan) that flags under-margined positions, and an
//! on-chain style settlement state machine that re-verifies the
//! liquidation condition against a fresh price feed, closes positions
//! partially or fully, pays the liquidator, and routes bad debt to an
//! insurance fund.

pub mod engine;
pub mod errors;
pub mod executor;
pub mod insurance;
pub mod math;
pub mod models;
pub mod oracle;
pub mod position_manager;
pub mod queue;
pub mod settlement;

use vstd::prelude::*;

verus! {

/// Denominator for basis points: one ten-thousandth.
pub const BPS_DENOM: u64 = 10_000;

/// Liquidator bounty, in basis points of the liquidated notional (2.5%).
pub const LIQUIDATOR_REWARD_BPS: u64 = 250;

/// Settlement rejects a price feed older than this many seconds.
pub const MAX_ORACLE_STALENESS_SECS: i64 = 30;

/// Fixed-point scale for prices, sizes and monetary amounts.
pub const SCALE: u128 = 1_000_000;

/// Minimum time, in milliseconds, between liquidation attempts on one position.
pub const COOLDOWN_MS: u64 = 5_000;

/// The off-chain oracle cache serves a stored price younger than this, in milliseconds.
pub const FRESHNESS_WINDOW_MS: u64 = 200;

} // verus!
