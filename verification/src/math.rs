//! Fixed-point math kernel.
//!
//! All monetary quantities are unsigned integers scaled by [`crate::SCALE`];
//! ratios are expressed in basis points with denominator [`crate::BPS_DENOM`].
//! Every multiplication is checked, and any value that does not fit its
//! result type surfaces as [`ErrorCode::MathOverflow`]. The same kernel
//! serves the off-chain monitor and the settlement state machine, so both
//! decide liquidation from identical integer arithmetic.

use vstd::prelude::*;

use vstd::arithmetic::div_mod::{lemma_div_is_ordered, lemma_div_of0};
use vstd::arithmetic::mul::{
    lemma_mul_inequality, lemma_mul_is_commutative, lemma_mul_unary_negation,
    lemma_mul_upper_bound,
};

use crate::errors::ErrorCode;
use crate::{BPS_DENOM, SCALE};

verus! {

/// Notional value of `size` base units at `price`, both scaled by `SCALE`.
pub open spec fn spec_position_value(size: u64, price: u64) -> int {
    (size * price) / (SCALE as int)
}

/// Price delta times size: the profit-and-loss numerator before scaling.
/// Positive when the position gained.
pub open spec fn spec_pnl_numerator(size: u64, entry_price: u64, mark_price: u64, is_long: bool) -> int {
    if is_long {
        (mark_price - entry_price) * size
    } else {
        (entry_price - mark_price) * size
    }
}

/// The checked product in the profit-and-loss computation does not fit `i128`.
pub open spec fn spec_pnl_overflows(size: u64, entry_price: u64, mark_price: u64, is_long: bool) -> bool {
    let num = spec_pnl_numerator(size, entry_price, mark_price, is_long);
    num < i128::MIN || i128::MAX < num
}

/// Division by `SCALE` truncating toward zero, as the executable
/// signed division does.
pub open spec fn spec_div_scale_trunc(num: int) -> int {
    if num >= 0 {
        num / (SCALE as int)
    } else {
        -((-num) / (SCALE as int))
    }
}

/// Realized profit-and-loss of `size` units entered at `entry_price` and
/// valued at `mark_price`, scaled back down by `SCALE`.
pub open spec fn spec_realized_pnl(size: u64, entry_price: u64, mark_price: u64, is_long: bool) -> int {
    spec_div_scale_trunc(spec_pnl_numerator(size, entry_price, mark_price, is_long))
}

/// Equity of a position: collateral plus realized profit-and-loss.
pub open spec fn spec_equity(size: u64, entry_price: u64, collateral: u64, is_long: bool, mark_price: u64) -> int {
    collateral + spec_realized_pnl(size, entry_price, mark_price, is_long)
}

/// Margin ratio in basis points. A position with zero notional value is
/// treated as infinitely safe; non-positive equity as fully under water.
pub open spec fn spec_margin_ratio_bps(
    size: u64,
    entry_price: u64,
    collateral: u64,
    is_long: bool,
    mark_price: u64,
) -> int {
    let pv = spec_position_value(size, mark_price);
    if pv == 0 {
        u64::MAX as int
    } else {
        let eq = spec_equity(size, entry_price, collateral, is_long, mark_price);
        if eq <= 0 {
            0
        } else {
            (eq * BPS_DENOM) / pv
        }
    }
}

/// The margin-ratio computation hits checked arithmetic that does not fit:
/// either the profit-and-loss product leaves `i128`, or the ratio itself
/// leaves `u64`.
pub open spec fn spec_margin_errs(
    size: u64,
    entry_price: u64,
    collateral: u64,
    is_long: bool,
    mark_price: u64,
) -> bool {
    let pv = spec_position_value(size, mark_price);
    pv != 0 && (spec_pnl_overflows(size, entry_price, mark_price, is_long)
        || spec_margin_ratio_bps(size, entry_price, collateral, is_long, mark_price) > u64::MAX)
}

/// Maintenance margin threshold in basis points, tiered by leverage.
/// Out-of-range leverage falls back to the most conservative tier.
pub open spec fn spec_maintenance_bps(leverage: u16) -> u64 {
    if 1 <= leverage && leverage <= 20 {
        250u64
    } else if 21 <= leverage && leverage <= 50 {
        100u64
    } else if 51 <= leverage && leverage <= 100 {
        50u64
    } else if 101 <= leverage && leverage <= 500 {
        25u64
    } else if 501 <= leverage && leverage <= 1000 {
        10u64
    } else {
        250u64
    }
}

/// Maintenance margin threshold in basis points for a leverage tier.
pub fn maintenance_bps_for_leverage(leverage: u16) -> (r: u64)
    ensures
        r == spec_maintenance_bps(leverage),
{
    if 1 <= leverage && leverage <= 20 {
        250
    } else if 21 <= leverage && leverage <= 50 {
        100
    } else if 51 <= leverage && leverage <= 100 {
        50
    } else if 101 <= leverage && leverage <= 500 {
        25
    } else if 501 <= leverage && leverage <= 1000 {
        10
    } else {
        250
    }
}

/// Notional value of `size` units at `price`. The widened product of two
/// 64-bit scaled integers always fits `u128`, so this never fails.
pub fn position_value_for_size(size: u64, price: u64) -> (r: Result<u128, ErrorCode>)
    ensures
        r matches Ok(v) && v == spec_position_value(size, price),
{
    proof {
        lemma_mul_upper_bound(size as int, u64::MAX as int, price as int, u64::MAX as int);
    }
    let v: u128 = (size as u128) * (price as u128);
    Ok(v / SCALE)
}

/// Realized profit-and-loss on `size` units, truncated toward zero after
/// scaling down, or `MathOverflow` when the price-delta product leaves `i128`.
pub fn realized_pnl_for_size(size: u64, entry_price: u64, mark_price: u64, is_long: bool) -> (r: Result<
    i128,
    ErrorCode,
>)
    ensures
        match r {
            Ok(pnl) => !spec_pnl_overflows(size, entry_price, mark_price, is_long)
                && pnl == spec_realized_pnl(size, entry_price, mark_price, is_long),
            Err(e) => spec_pnl_overflows(size, entry_price, mark_price, is_long)
                && e == ErrorCode::MathOverflow,
        },
{
    let diff_mag: u64 = if mark_price >= entry_price {
        mark_price - entry_price
    } else {
        entry_price - mark_price
    };
    let gain: bool = (mark_price >= entry_price) == is_long;
    proof {
        lemma_mul_upper_bound(diff_mag as int, u64::MAX as int, size as int, u64::MAX as int);
    }
    let mag: u128 = (diff_mag as u128) * (size as u128);
    proof {
        lemma_mul_unary_negation(diff_mag as int, size as int);
        assert(spec_pnl_numerator(size, entry_price, mark_price, is_long) == if gain {
            mag as int
        } else {
            -(mag as int)
        });
    }
    if gain {
        if mag > i128::MAX as u128 {
            return Err(ErrorCode::MathOverflow);
        }
        let q: u128 = mag / SCALE;
        proof {
            lemma_div_is_ordered(mag as int, i128::MAX as int, SCALE as int);
        }
        Ok(q as i128)
    } else {
        if mag > (i128::MAX as u128) + 1 {
            return Err(ErrorCode::MathOverflow);
        }
        let q: u128 = mag / SCALE;
        proof {
            lemma_div_is_ordered(mag as int, i128::MAX as int + 1, SCALE as int);
        }
        Ok(-(q as i128))
    }
}

/// Collateral after profit-and-loss, clamped at zero: `max(0, collateral + pnl)`.
pub open spec fn spec_apply_pnl(collateral: u64, pnl: int) -> int {
    if collateral + pnl <= 0 {
        0
    } else {
        collateral + pnl
    }
}

/// The equity after profit-and-loss does not fit `u64`.
pub open spec fn spec_apply_pnl_overflows(collateral: u64, pnl: int) -> bool {
    collateral + pnl > u64::MAX
}

/// Applies profit-and-loss to collateral, clamping negative equity at zero.
/// Fails with `MathOverflow` when the resulting equity does not fit `u64`.
pub fn apply_pnl(collateral: u64, pnl: i128) -> (r: Result<u64, ErrorCode>)
    ensures
        match r {
            Ok(v) => !spec_apply_pnl_overflows(collateral, pnl as int) && v == spec_apply_pnl(
                collateral,
                pnl as int,
            ),
            Err(e) => spec_apply_pnl_overflows(collateral, pnl as int) && e
                == ErrorCode::MathOverflow,
        },
{
    if pnl >= 0 {
        let sum: u128 = (collateral as u128) + (pnl as u128);
        if sum > u64::MAX as u128 {
            Err(ErrorCode::MathOverflow)
        } else {
            Ok(sum as u64)
        }
    } else if pnl + (collateral as i128) <= 0 {
        Ok(0)
    } else {
        let neg: u64 = (-pnl) as u64;
        Ok(collateral - neg)
    }
}

/// Margin ratio in basis points and notional position value under
/// `mark_price`, or `MathOverflow` when a checked step does not fit.
pub fn compute_margin_ratio(
    size: u64,
    entry_price: u64,
    collateral: u64,
    is_long: bool,
    mark_price: u64,
) -> (r: Result<(u64, u128), ErrorCode>)
    ensures
        match r {
            Ok(pair) => !spec_margin_errs(size, entry_price, collateral, is_long, mark_price)
                && pair.0 == spec_margin_ratio_bps(size, entry_price, collateral, is_long, mark_price)
                && pair.1 == spec_position_value(size, mark_price),
            Err(e) => spec_margin_errs(size, entry_price, collateral, is_long, mark_price)
                && e == ErrorCode::MathOverflow,
        },
{
    let position_value = match position_value_for_size(size, mark_price) {
        Ok(v) => v,
        Err(e) => {
            return Err(e);
        },
    };
    if position_value == 0 {
        return Ok((u64::MAX, position_value));
    }
    let unrealized = match realized_pnl_for_size(size, entry_price, mark_price, is_long) {
        Ok(p) => p,
        Err(e) => {
            return Err(e);
        },
    };
    proof {
        let num = spec_pnl_numerator(size, entry_price, mark_price, is_long);
        if num >= 0 {
            lemma_div_is_ordered(num, i128::MAX as int, SCALE as int);
        } else {
            lemma_div_is_ordered(-num, i128::MAX as int + 1, SCALE as int);
        }
    }
    let equity: i128 = (collateral as i128) + unrealized;
    if equity <= 0 {
        return Ok((0, position_value));
    }
    let ratio: u128 = (equity as u128) * (BPS_DENOM as u128) / position_value;
    if ratio > u64::MAX as u128 {
        return Err(ErrorCode::MathOverflow);
    }
    Ok((ratio as u64, position_value))
}

/// A notional position value is non-negative and small enough that the
/// basis-point reward product on it stays within `u128`.
pub proof fn lemma_position_value_bound(size: u64, price: u64)
    ensures
        0 <= spec_position_value(size, price),
        spec_position_value(size, price) * (crate::LIQUIDATOR_REWARD_BPS as int) <= u128::MAX,
{
    vstd::arithmetic::mul::lemma_mul_nonnegative(size as int, price as int);
    vstd::arithmetic::div_mod::lemma_div_pos_is_pos(size as int * price as int, SCALE as int);
    lemma_mul_upper_bound(size as int, u64::MAX as int, price as int, u64::MAX as int);
    assert(u64::MAX as int * u64::MAX as int == 0xfffffffffffffffe0000000000000001int)
        by (nonlinear_arith);
    lemma_div_is_ordered(size as int * price as int, 0xfffffffffffffffe0000000000000001int, SCALE as int);
    lemma_mul_inequality(
        spec_position_value(size, price),
        0xfffffffffffffffe0000000000000001int / (SCALE as int),
        crate::LIQUIDATOR_REWARD_BPS as int,
    );
}

/// At a mark price equal to the entry price the realized profit-and-loss is
/// zero, so equity equals collateral and the margin ratio is exactly
/// `BPS_DENOM * collateral / position_value`.
pub proof fn lemma_margin_ratio_at_entry(size: u64, entry_price: u64, collateral: u64, is_long: bool)
    requires
        spec_position_value(size, entry_price) > 0,
    ensures
        spec_margin_ratio_bps(size, entry_price, collateral, is_long, entry_price)
            == BPS_DENOM * collateral / spec_position_value(size, entry_price),
{
    let pv = spec_position_value(size, entry_price);
    assert(spec_pnl_numerator(size, entry_price, entry_price, is_long) == 0) by {
        lemma_mul_unary_negation(0, size as int);
        vstd::arithmetic::mul::lemma_mul_by_zero_is_zero(size as int);
    }
    assert(spec_realized_pnl(size, entry_price, entry_price, is_long) == 0) by {
        lemma_div_of0(SCALE as int);
    }
    if collateral == 0 {
        lemma_div_of0(pv);
        assert(BPS_DENOM * collateral == 0);
    } else {
        lemma_mul_is_commutative(collateral as int, BPS_DENOM as int);
    }
}

/// Shrinking the size cannot make the profit-and-loss product overflow:
/// the numerator's magnitude is monotone in the size.
pub proof fn lemma_pnl_overflow_monotonic(
    small: u64,
    big: u64,
    entry_price: u64,
    mark_price: u64,
    is_long: bool,
)
    requires
        small <= big,
        !spec_pnl_overflows(big, entry_price, mark_price, is_long),
    ensures
        !spec_pnl_overflows(small, entry_price, mark_price, is_long),
{
    let d: int = if is_long {
        mark_price - entry_price
    } else {
        entry_price - mark_price
    };
    if d >= 0 {
        lemma_mul_inequality(small as int, big as int, d);
        lemma_mul_is_commutative(small as int, d);
        lemma_mul_is_commutative(big as int, d);
        vstd::arithmetic::mul::lemma_mul_nonnegative(d, small as int);
        lemma_mul_is_commutative(d, small as int);
    } else {
        lemma_mul_unary_negation(d, small as int);
        lemma_mul_unary_negation(d, big as int);
        vstd::arithmetic::mul::lemma_mul_nonnegative(-d, small as int);
        lemma_mul_inequality(small as int, big as int, -d);
        lemma_mul_is_commutative(small as int, -d);
        lemma_mul_is_commutative(big as int, -d);
        lemma_mul_is_commutative(d, small as int);
        lemma_mul_is_commutative(d, big as int);
    }
}

} // verus!
