//! Shared data model of the monitor and the settlement state machine.
//!
//! All price and monetary fields are unsigned 64-bit integers scaled by
//! [`crate::SCALE`]; ratios are in basis points. Principals are opaque
//! numeric identifiers.

use vstd::prelude::*;

verus! {

/// A leveraged directional exposure.
///
/// Once `closed` is true the position is terminal: `size` and `collateral`
/// are zero and no further settlement is legal.
#[derive(Debug)]
pub struct Position {
    /// Opaque stable identifier.
    pub id: String,
    /// Opaque principal identifier of the position owner.
    pub owner: u64,
    /// Market tag, e.g. `"BTC-PERP"`.
    pub symbol: String,
    /// Non-negative magnitude in scaled base units.
    pub size: u64,
    /// Direction of the exposure.
    pub is_long: bool,
    /// Scaled entry price.
    pub entry_price: u64,
    /// Scaled collateral backing the position.
    pub collateral: u64,
    /// Leverage tier input; values outside `[1, 1000]` fall back to the
    /// most conservative maintenance tier.
    pub leverage: u16,
    /// Terminal flag set by full liquidation.
    pub closed: bool,
}

impl Clone for Position {
    fn clone(&self) -> (r: Self)
        ensures
            r == *self,
    {
        Position {
            id: self.id.clone(),
            owner: self.owner,
            symbol: self.symbol.clone(),
            size: self.size,
            is_long: self.is_long,
            entry_price: self.entry_price,
            collateral: self.collateral,
            leverage: self.leverage,
            closed: self.closed,
        }
    }
}

/// Snapshot of a position at the moment the monitor judged it unhealthy,
/// together with the mark price used and the margin ratio computed from it.
#[derive(Debug)]
pub struct LiquidationCandidate {
    /// The position record as observed.
    pub position: Position,
    /// The scaled mark price the judgement used.
    pub mark_price: u64,
    /// The margin ratio, in basis points, computed under `mark_price`.
    pub margin_ratio: u64,
}

impl Clone for LiquidationCandidate {
    fn clone(&self) -> (r: Self)
        ensures
            r == *self,
    {
        LiquidationCandidate {
            position: self.position.clone(),
            mark_price: self.mark_price,
            margin_ratio: self.margin_ratio,
        }
    }
}

/// An on-chain style price feed account: the last observed scaled mark
/// price and the unix timestamp of the observation.
#[derive(Clone, Copy, Debug, PartialEq, Eq, Structural)]
pub struct PriceFeed {
    /// Scaled mark price.
    pub price: u64,
    /// Unix timestamp of the last update, in seconds.
    pub last_updated: i64,
}

/// A pooled reserve that absorbs bad debt left by full liquidations.
/// All fields but `balance` are monotonically non-decreasing.
#[derive(Clone, Copy, Debug, PartialEq, Eq, Structural)]
pub struct InsuranceFund {
    /// Funds currently available to cover bad debt.
    pub balance: u64,
    /// Cumulative contributions ever made to the fund.
    pub total_contributions: u64,
    /// Cumulative bad debt the fund has covered.
    pub total_bad_debt_covered: u64,
    /// `total_bad_debt_covered * BPS_DENOM / total_contributions`, in basis
    /// points, refreshed whenever the fund covers a liquidation.
    pub utilization_ratio: u64,
}

/// The event emitted on every successful liquidation: the sole durable
/// output consumed by downstream bookkeeping.
#[derive(Debug, PartialEq)]
pub struct LiquidationRecord {
    /// Owner of the liquidated position.
    pub position_owner: u64,
    /// Principal that triggered the liquidation and receives the bounty.
    pub liquidator: u64,
    /// Market tag of the position.
    pub symbol: String,
    /// Scaled size closed by this liquidation.
    pub liquidated_size: u64,
    /// Scaled mark price the settlement used.
    pub liquidation_price: u64,
    /// Margin ratio, in basis points, before the liquidation.
    pub margin_before: u64,
    /// Margin ratio, in basis points, after the liquidation.
    pub margin_after: u64,
    /// Scaled bounty actually paid to the liquidator.
    pub liquidator_reward: u64,
    /// Scaled reward shortfall not payable from the position's equity.
    pub bad_debt: u64,
    /// Unix timestamp of the settlement, in seconds.
    pub timestamp: i64,
}

} // verus!
