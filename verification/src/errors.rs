//! Error kinds of the two halves of the engine.

use vstd::prelude::*;

verus! {

/// Settlement error kinds. Every settlement instruction is all-or-nothing:
/// on any of these, no account mutation is kept and no record is emitted.
#[derive(Clone, Copy, Debug, PartialEq, Eq, Structural)]
pub enum ErrorCode {
    /// A checked arithmetic step did not fit its result type.
    MathOverflow,
    /// The margin ratio is not below the maintenance threshold.
    PositionHealthy,
    /// The price feed is older than the staleness bound.
    StaleOraclePrice,
    /// The capped liquidation size came out as zero.
    InvalidLiquidationSize,
    /// The position was already closed; closed is terminal.
    PositionClosed,
}

/// Off-chain monitor error kinds. Tick-local errors are reported to the
/// caller of the tick, which logs them and proceeds with the next tick.
#[derive(Debug, PartialEq, Eq)]
pub enum LiquidationError {
    /// Transport failure talking to the chain or an upstream service.
    Rpc(String),
    /// The position source failed.
    Db(String),
    /// The price provider failed.
    Oracle(String),
    /// Anything else.
    Other(String),
}

} // verus!
