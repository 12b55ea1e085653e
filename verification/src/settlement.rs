//! Settlement state machine.
//!
//! The authoritative half of the engine. It re-verifies every precondition
//! the monitor checked, because the monitor is advisory: the position must
//! be open, the price feed fresh, and the margin ratio strictly below the
//! maintenance threshold. A partial liquidation closes at most half the
//! position; a full liquidation closes it terminally, pays the liquidator
//! out of the remaining equity, and charges any reward shortfall to the
//! insurance fund as bad debt. Every instruction is all-or-nothing: on any
//! error no account is mutated and no record is emitted.

use vstd::prelude::*;

use crate::errors::ErrorCode;
use crate::math::{
    apply_pnl, compute_margin_ratio, lemma_pnl_overflow_monotonic, maintenance_bps_for_leverage,
    position_value_for_size, realized_pnl_for_size, spec_apply_pnl, spec_apply_pnl_overflows,
    spec_maintenance_bps, spec_margin_errs, spec_margin_ratio_bps, spec_position_value,
    spec_realized_pnl,
};
use crate::models::{InsuranceFund, LiquidationRecord, Position, PriceFeed};
use crate::{BPS_DENOM, LIQUIDATOR_REWARD_BPS, MAX_ORACLE_STALENESS_SECS};

verus! {

/// Accounts a partial liquidation touches: the position (writable), the
/// liquidator principal, and the price feed (read-only).
#[derive(Debug)]
pub struct LiquidatePartial {
    /// The position being liquidated.
    pub position: Position,
    /// Principal receiving the bounty.
    pub liquidator: u64,
    /// The oracle account settlement verifies against.
    pub price_feed: PriceFeed,
}

/// Accounts a full liquidation touches: as for a partial liquidation, plus
/// the insurance fund (writable).
#[derive(Debug)]
pub struct LiquidateFull {
    /// The position being liquidated.
    pub position: Position,
    /// Principal receiving the bounty.
    pub liquidator: u64,
    /// The oracle account settlement verifies against.
    pub price_feed: PriceFeed,
    /// The fund that absorbs bad debt.
    pub insurance_fund: InsuranceFund,
}

/// The feed is too old to settle against at time `now`.
pub open spec fn spec_stale(feed: PriceFeed, now: i64) -> bool {
    now - feed.last_updated > MAX_ORACLE_STALENESS_SECS
}

/// Liquidator bounty on a notional value, in scaled units.
pub open spec fn spec_reward(value: int) -> int {
    value * (LIQUIDATOR_REWARD_BPS as int) / (BPS_DENOM as int)
}

/// Saturating subtraction on non-negative amounts.
pub open spec fn spec_sat_sub(a: int, b: int) -> int {
    if a - b < 0 {
        0
    } else {
        a - b
    }
}

/// Saturating addition into `u64`.
pub open spec fn spec_sat_add_u64(a: int, b: int) -> int {
    if a + b > u64::MAX {
        u64::MAX as int
    } else {
        a + b
    }
}

/// Margin ratio of a position under a mark price, in basis points.
pub open spec fn spec_margin_before(p: Position, mark: u64) -> int {
    spec_margin_ratio_bps(p.size, p.entry_price, p.collateral, p.is_long, mark)
}

/// The size a partial liquidation actually closes: the requested size
/// capped at half the position's size.
pub open spec fn spec_partial_liq_size(size: u64, requested: u64) -> int {
    let half = size as int / 2;
    if requested < half {
        requested as int
    } else {
        half
    }
}

/// Profit-and-loss realized on the liquidated portion.
pub open spec fn spec_partial_pnl(p: Position, mark: u64, requested: u64) -> int {
    spec_realized_pnl(
        spec_partial_liq_size(p.size, requested) as u64,
        p.entry_price,
        mark,
        p.is_long,
    )
}

/// Bounty owed on the liquidated portion's notional value.
pub open spec fn spec_partial_reward(p: Position, mark: u64, requested: u64) -> int {
    spec_reward(spec_position_value(spec_partial_liq_size(p.size, requested) as u64, mark))
}

/// Size remaining after a partial liquidation.
pub open spec fn spec_partial_new_size(p: Position, requested: u64) -> int {
    p.size - spec_partial_liq_size(p.size, requested)
}

/// Collateral remaining after a partial liquidation: equity after the
/// realized profit-and-loss, minus the bounty, saturating at zero.
pub open spec fn spec_partial_new_collateral(p: Position, mark: u64, requested: u64) -> int {
    spec_sat_sub(
        spec_apply_pnl(p.collateral, spec_partial_pnl(p, mark, requested)),
        spec_partial_reward(p, mark, requested),
    )
}

/// Margin ratio of the position as a partial liquidation leaves it, under
/// the same mark price.
pub open spec fn spec_margin_after_partial(p: Position, mark: u64, requested: u64) -> int {
    spec_margin_ratio_bps(
        spec_partial_new_size(p, requested) as u64,
        p.entry_price,
        spec_partial_new_collateral(p, mark, requested) as u64,
        p.is_long,
        mark,
    )
}

/// The error a partial liquidation fails with, or `None` when it succeeds.
/// The checks run in this order; every arithmetic misfit surfaces as
/// `MathOverflow`.
pub open spec fn spec_partial_error(p: Position, feed: PriceFeed, now: i64, requested: u64) -> Option<
    ErrorCode,
> {
    let mark = feed.price;
    if p.closed {
        Some(ErrorCode::PositionClosed)
    } else if spec_stale(feed, now) {
        Some(ErrorCode::StaleOraclePrice)
    } else if spec_margin_errs(p.size, p.entry_price, p.collateral, p.is_long, mark) {
        Some(ErrorCode::MathOverflow)
    } else if spec_margin_before(p, mark) >= spec_maintenance_bps(p.leverage) {
        Some(ErrorCode::PositionHealthy)
    } else if spec_partial_liq_size(p.size, requested) == 0 {
        Some(ErrorCode::InvalidLiquidationSize)
    } else if spec_partial_reward(p, mark, requested) > u64::MAX {
        Some(ErrorCode::MathOverflow)
    } else if spec_apply_pnl_overflows(p.collateral, spec_partial_pnl(p, mark, requested)) {
        Some(ErrorCode::MathOverflow)
    } else if spec_margin_errs(
        spec_partial_new_size(p, requested) as u64,
        p.entry_price,
        spec_partial_new_collateral(p, mark, requested) as u64,
        p.is_long,
        mark,
    ) {
        Some(ErrorCode::MathOverflow)
    } else {
        None
    }
}

/// Bounty owed on the full notional value of a position.
pub open spec fn spec_full_reward(p: Position, mark: u64) -> int {
    spec_reward(spec_position_value(p.size, mark))
}

/// Profit-and-loss realized on the whole position.
pub open spec fn spec_full_pnl(p: Position, mark: u64) -> int {
    spec_realized_pnl(p.size, p.entry_price, mark, p.is_long)
}

/// Equity of the whole position after realizing its profit-and-loss.
pub open spec fn spec_full_equity(p: Position, mark: u64) -> int {
    spec_apply_pnl(p.collateral, spec_full_pnl(p, mark))
}

/// What the liquidator actually receives: the full bounty when equity
/// covers it, all remaining equity otherwise.
pub open spec fn spec_reward_paid(equity: int, reward: int) -> int {
    if equity >= reward {
        reward
    } else {
        equity
    }
}

/// What the position owner is refunded after the bounty is paid.
pub open spec fn spec_user_refund(equity: int, reward: int) -> int {
    if equity >= reward {
        equity - reward
    } else {
        0
    }
}

/// The bounty shortfall that equity cannot cover.
pub open spec fn spec_bad_debt(equity: int, reward: int) -> int {
    if equity >= reward {
        0
    } else {
        reward - equity
    }
}

/// The part of the bad debt the insurance fund can absorb.
pub open spec fn spec_covered(balance: u64, bad_debt: int) -> int {
    if balance <= bad_debt {
        balance as int
    } else {
        bad_debt
    }
}

/// The error a full liquidation fails with, or `None` when it succeeds.
pub open spec fn spec_full_error(p: Position, feed: PriceFeed, now: i64) -> Option<ErrorCode> {
    let mark = feed.price;
    if p.closed {
        Some(ErrorCode::PositionClosed)
    } else if spec_stale(feed, now) {
        Some(ErrorCode::StaleOraclePrice)
    } else if spec_margin_errs(p.size, p.entry_price, p.collateral, p.is_long, mark) {
        Some(ErrorCode::MathOverflow)
    } else if spec_margin_before(p, mark) >= spec_maintenance_bps(p.leverage) {
        Some(ErrorCode::PositionHealthy)
    } else if spec_apply_pnl_overflows(p.collateral, spec_full_pnl(p, mark)) {
        Some(ErrorCode::MathOverflow)
    } else if spec_full_reward(p, mark) > u64::MAX {
        Some(ErrorCode::MathOverflow)
    } else {
        None
    }
}

/// No money is minted by a full liquidation: the bounty paid, the owner's
/// refund and the bad debt charged to the insurance fund together never
/// exceed the position's post-PnL equity plus the fund's prior balance.
pub proof fn lemma_no_money_minted(equity: int, reward: int, balance: u64)
    requires
        0 <= equity,
        0 <= reward,
    ensures
        spec_reward_paid(equity, reward) + spec_user_refund(equity, reward) + spec_covered(
            balance,
            spec_bad_debt(equity, reward),
        ) <= equity + balance,
{
}

/// Partially liquidates an under-margined position: closes up to half its
/// size, realizes the proportional profit-and-loss, pays the liquidator's
/// bounty out of the remaining equity, and reports the settlement. On any
/// error nothing is mutated.
pub fn liquidate_partial(ctx: &mut LiquidatePartial, liquidation_size: u64, now: i64) -> (r: Result<
    LiquidationRecord,
    ErrorCode,
>)
    requires
        i64::MIN <= now - old(ctx).price_feed.last_updated <= i64::MAX,
    ensures
        final(ctx).liquidator == old(ctx).liquidator,
        final(ctx).price_feed == old(ctx).price_feed,
        match r {
            Ok(rec) => ({
                let p = old(ctx).position;
                let mark = old(ctx).price_feed.price;
                &&& spec_partial_error(p, old(ctx).price_feed, now, liquidation_size) is None
                &&& spec_margin_before(p, mark) < spec_maintenance_bps(p.leverage)
                &&& final(ctx).position.size == spec_partial_new_size(p, liquidation_size)
                &&& final(ctx).position.size < p.size
                &&& final(ctx).position.collateral == spec_partial_new_collateral(
                    p,
                    mark,
                    liquidation_size,
                )
                &&& final(ctx).position.id == p.id
                &&& final(ctx).position.owner == p.owner
                &&& final(ctx).position.symbol == p.symbol
                &&& final(ctx).position.is_long == p.is_long
                &&& final(ctx).position.entry_price == p.entry_price
                &&& final(ctx).position.leverage == p.leverage
                &&& final(ctx).position.closed == p.closed
                &&& rec.position_owner == p.owner
                &&& rec.liquidator == old(ctx).liquidator
                &&& rec.symbol == p.symbol
                &&& rec.liquidated_size == spec_partial_liq_size(p.size, liquidation_size)
                &&& rec.liquidation_price == mark
                &&& rec.margin_before == spec_margin_before(p, mark)
                &&& rec.margin_after == spec_margin_after_partial(p, mark, liquidation_size)
                &&& rec.liquidator_reward == spec_partial_reward(p, mark, liquidation_size)
                &&& rec.bad_debt == 0
                &&& rec.timestamp == now
            }),
            Err(e) => ({
                &&& spec_partial_error(
                    old(ctx).position,
                    old(ctx).price_feed,
                    now,
                    liquidation_size,
                ) == Some(e)
                &&& final(ctx).position == old(ctx).position
            }),
        },
{
    if ctx.position.closed {
        return Err(ErrorCode::PositionClosed);
    }
    let age = now - ctx.price_feed.last_updated;
    if age > MAX_ORACLE_STALENESS_SECS {
        return Err(ErrorCode::StaleOraclePrice);
    }
    let mark_price = ctx.price_feed.price;
    let (margin_before, _position_value) = match compute_margin_ratio(
        ctx.position.size,
        ctx.position.entry_price,
        ctx.position.collateral,
        ctx.position.is_long,
        mark_price,
    ) {
        Ok(pair) => pair,
        Err(e) => {
            return Err(e);
        },
    };
    let maintenance = maintenance_bps_for_leverage(ctx.position.leverage);
    if margin_before >= maintenance {
        return Err(ErrorCode::PositionHealthy);
    }
    let half_size = ctx.position.size / 2;
    let liq_size = if liquidation_size < half_size {
        liquidation_size
    } else {
        half_size
    };
    if liq_size == 0 {
        return Err(ErrorCode::InvalidLiquidationSize);
    }
    let pnl_on_liq = match realized_pnl_for_size(
        liq_size,
        ctx.position.entry_price,
        mark_price,
        ctx.position.is_long,
    ) {
        Ok(p) => p,
        Err(_) => {
            proof {
                // The margin check succeeded on the full size, so the
                // smaller liquidated portion cannot overflow.
                lemma_pnl_overflow_monotonic(
                    liq_size,
                    ctx.position.size,
                    ctx.position.entry_price,
                    mark_price,
                    ctx.position.is_long,
                );
                assert(false);
            }
            return Err(ErrorCode::MathOverflow);
        },
    };
    let liq_value = match position_value_for_size(liq_size, mark_price) {
        Ok(v) => v,
        Err(_) => {
            return Err(ErrorCode::MathOverflow);
        },
    };
    proof {
        crate::math::lemma_position_value_bound(liq_size, mark_price);
    }
    let reward_wide: u128 = liq_value * (LIQUIDATOR_REWARD_BPS as u128) / (BPS_DENOM as u128);
    if reward_wide > u64::MAX as u128 {
        return Err(ErrorCode::MathOverflow);
    }
    let liquidator_reward: u64 = reward_wide as u64;
    let equity_after_pnl = match apply_pnl(ctx.position.collateral, pnl_on_liq) {
        Ok(v) => v,
        Err(e) => {
            return Err(e);
        },
    };
    let remaining_equity = equity_after_pnl.saturating_sub(liquidator_reward);
    let new_size = ctx.position.size - liq_size;
    // Recompute the margin the settlement leaves behind before mutating
    // anything, so that an overflow there leaves the accounts untouched.
    let (margin_after, _) = match compute_margin_ratio(
        new_size,
        ctx.position.entry_price,
        remaining_equity,
        ctx.position.is_long,
        mark_price,
    ) {
        Ok(pair) => pair,
        Err(e) => {
            return Err(e);
        },
    };
    let record = LiquidationRecord {
        position_owner: ctx.position.owner,
        liquidator: ctx.liquidator,
        symbol: ctx.position.symbol.clone(),
        liquidated_size: liq_size,
        liquidation_price: mark_price,
        margin_before,
        margin_after,
        liquidator_reward,
        bad_debt: 0,
        timestamp: now,
    };
    ctx.position.collateral = remaining_equity;
    ctx.position.size = new_size;
    Ok(record)
}

/// Fully liquidates an under-margined position: realizes the whole
/// profit-and-loss, pays the liquidator as far as equity reaches, charges
/// the shortfall to the insurance fund, and closes the position terminally.
/// On any error nothing is mutated.
pub fn liquidate_full(ctx: &mut LiquidateFull, now: i64) -> (r: Result<LiquidationRecord, ErrorCode>)
    requires
        i64::MIN <= now - old(ctx).price_feed.last_updated <= i64::MAX,
    ensures
        final(ctx).liquidator == old(ctx).liquidator,
        final(ctx).price_feed == old(ctx).price_feed,
        final(ctx).insurance_fund.balance <= old(ctx).insurance_fund.balance,
        final(ctx).insurance_fund.total_bad_debt_covered >= old(
            ctx,
        ).insurance_fund.total_bad_debt_covered,
        final(ctx).insurance_fund.total_contributions == old(
            ctx,
        ).insurance_fund.total_contributions,
        match r {
            Ok(rec) => ({
                let p = old(ctx).position;
                let mark = old(ctx).price_feed.price;
                let ins = old(ctx).insurance_fund;
                let equity = spec_full_equity(p, mark);
                let reward = spec_full_reward(p, mark);
                let bad_debt = spec_bad_debt(equity, reward);
                let covered = spec_covered(ins.balance, bad_debt);
                let covered_total = spec_sat_add_u64(ins.total_bad_debt_covered as int, covered);
                &&& spec_full_error(p, old(ctx).price_feed, now) is None
                &&& spec_margin_before(p, mark) < spec_maintenance_bps(p.leverage)
                &&& final(ctx).position.size == 0
                &&& final(ctx).position.collateral == 0
                &&& final(ctx).position.closed
                &&& final(ctx).position.id == p.id
                &&& final(ctx).position.owner == p.owner
                &&& final(ctx).position.symbol == p.symbol
                &&& final(ctx).position.is_long == p.is_long
                &&& final(ctx).position.entry_price == p.entry_price
                &&& final(ctx).position.leverage == p.leverage
                &&& final(ctx).insurance_fund.balance == ins.balance - covered
                &&& final(ctx).insurance_fund.total_bad_debt_covered == covered_total
                &&& final(ctx).insurance_fund.utilization_ratio == if ins.total_contributions
                    > 0 {
                    (if covered_total * BPS_DENOM > u64::MAX {
                        u64::MAX as int
                    } else {
                        covered_total * BPS_DENOM
                    }) / ins.total_contributions as int
                } else {
                    ins.utilization_ratio as int
                }
                &&& rec.position_owner == p.owner
                &&& rec.liquidator == old(ctx).liquidator
                &&& rec.symbol == p.symbol
                &&& rec.liquidated_size == p.size
                &&& rec.liquidation_price == mark
                &&& rec.margin_before == spec_margin_before(p, mark)
                &&& rec.margin_after == 0
                &&& rec.liquidator_reward == spec_reward_paid(equity, reward)
                &&& rec.bad_debt == bad_debt
                &&& rec.timestamp == now
            }),
            Err(e) => ({
                &&& spec_full_error(old(ctx).position, old(ctx).price_feed, now) == Some(e)
                &&& final(ctx).position == old(ctx).position
                &&& final(ctx).insurance_fund == old(ctx).insurance_fund
            }),
        },
{
    if ctx.position.closed {
        return Err(ErrorCode::PositionClosed);
    }
    let age = now - ctx.price_feed.last_updated;
    if age > MAX_ORACLE_STALENESS_SECS {
        return Err(ErrorCode::StaleOraclePrice);
    }
    let mark_price = ctx.price_feed.price;
    let (margin_before, position_value) = match compute_margin_ratio(
        ctx.position.size,
        ctx.position.entry_price,
        ctx.position.collateral,
        ctx.position.is_long,
        mark_price,
    ) {
        Ok(pair) => pair,
        Err(e) => {
            return Err(e);
        },
    };
    let maintenance = maintenance_bps_for_leverage(ctx.position.leverage);
    if margin_before >= maintenance {
        return Err(ErrorCode::PositionHealthy);
    }
    let pnl_full = match realized_pnl_for_size(
        ctx.position.size,
        ctx.position.entry_price,
        mark_price,
        ctx.position.is_long,
    ) {
        Ok(p) => p,
        Err(_) => {
            proof {
                // The margin check already ruled a profit-and-loss
                // overflow out: the position's notional value is non-zero
                // here, else it would have been judged healthy.
                assert(false);
            }
            return Err(ErrorCode::MathOverflow);
        },
    };
    let equity_after_pnl = match apply_pnl(ctx.position.collateral, pnl_full) {
        Ok(v) => v,
        Err(e) => {
            return Err(e);
        },
    };
    proof {
        crate::math::lemma_position_value_bound(ctx.position.size, mark_price);
    }
    let reward_wide: u128 = position_value * (LIQUIDATOR_REWARD_BPS as u128) / (BPS_DENOM as u128);
    if reward_wide > u64::MAX as u128 {
        return Err(ErrorCode::MathOverflow);
    }
    let liquidator_reward: u64 = reward_wide as u64;
    let reward_paid: u64;
    let bad_debt: u64;
    if equity_after_pnl >= liquidator_reward {
        reward_paid = liquidator_reward;
        bad_debt = 0;
    } else {
        reward_paid = equity_after_pnl;
        bad_debt = liquidator_reward - equity_after_pnl;
    }
    if bad_debt > 0 {
        let covered = if ctx.insurance_fund.balance <= bad_debt {
            ctx.insurance_fund.balance
        } else {
            bad_debt
        };
        ctx.insurance_fund.balance = ctx.insurance_fund.balance - covered;
        ctx.insurance_fund.total_bad_debt_covered =
            ctx.insurance_fund.total_bad_debt_covered.saturating_add(covered);
    }
    if ctx.insurance_fund.total_contributions > 0 {
        let scaled = match ctx.insurance_fund.total_bad_debt_covered.checked_mul(BPS_DENOM) {
            Some(v) => v,
            None => u64::MAX,
        };
        ctx.insurance_fund.utilization_ratio = scaled / ctx.insurance_fund.total_contributions;
    }
    let old_size = ctx.position.size;
    let record = LiquidationRecord {
        position_owner: ctx.position.owner,
        liquidator: ctx.liquidator,
        symbol: ctx.position.symbol.clone(),
        liquidated_size: old_size,
        liquidation_price: mark_price,
        margin_before,
        margin_after: 0,
        liquidator_reward: reward_paid,
        bad_debt,
        timestamp: now,
    };
    ctx.position.size = 0;
    ctx.position.collateral = 0;
    ctx.position.closed = true;
    Ok(record)
}

} // verus!
