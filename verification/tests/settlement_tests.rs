//! Settlement state machine behavior: partial and full liquidation,
//! error kinds, insurance fund accounting.

use liquidation_engine::errors::ErrorCode;
use liquidation_engine::models::{InsuranceFund, Position, PriceFeed};
use liquidation_engine::settlement::{liquidate_full, liquidate_partial, LiquidateFull, LiquidatePartial};
use liquidation_engine::SCALE;

fn position(size: u64, entry_price: u64, collateral: u64, is_long: bool, leverage: u16) -> Position {
    Position {
        id: "pos-1".to_string(),
        owner: 7,
        symbol: "BTC-PERP".to_string(),
        size,
        is_long,
        entry_price,
        collateral,
        leverage,
        closed: false,
    }
}

fn fund(balance: u64, total_contributions: u64) -> InsuranceFund {
    InsuranceFund {
        balance,
        total_contributions,
        total_bad_debt_covered: 0,
        utilization_ratio: 0,
    }
}

#[test]
fn partial_liquidation_happy_path() {
    // 10 units long from 100 to 98, collateral 30, leverage 20.
    let mut ctx = LiquidatePartial {
        position: position(
            10 * SCALE as u64,
            100 * SCALE as u64,
            30 * SCALE as u64,
            true,
            20,
        ),
        liquidator: 99,
        price_feed: PriceFeed { price: 98 * SCALE as u64, last_updated: 1_000 },
    };
    let rec = liquidate_partial(&mut ctx, 4 * SCALE as u64, 1_010).unwrap();

    // Requested 4 is below half the size (5), so 4 units close.
    assert_eq!(rec.liquidated_size, 4 * SCALE as u64);
    assert_eq!(ctx.position.size, 6 * SCALE as u64);
    // Equity on the slice: 30 - 8 = 22; reward 2.5% of 392 = 9.8.
    assert_eq!(rec.liquidator_reward, 9_800_000);
    assert_eq!(ctx.position.collateral, 22_000_000 - 9_800_000);
    assert!(!ctx.position.closed);
    assert_eq!(rec.margin_before, 102);
    assert_eq!(rec.margin_after, 3);
    assert_eq!(rec.bad_debt, 0);
    assert_eq!(rec.liquidation_price, 98 * SCALE as u64);
    assert_eq!(rec.position_owner, 7);
    assert_eq!(rec.liquidator, 99);
    assert_eq!(rec.symbol, "BTC-PERP".to_string());
    assert_eq!(rec.timestamp, 1_010);
}

#[test]
fn partial_liquidation_caps_at_half_the_size() {
    let mut ctx = LiquidatePartial {
        position: position(
            10 * SCALE as u64,
            100 * SCALE as u64,
            30 * SCALE as u64,
            true,
            20,
        ),
        liquidator: 99,
        price_feed: PriceFeed { price: 98 * SCALE as u64, last_updated: 0 },
    };
    let rec = liquidate_partial(&mut ctx, u64::MAX, 1).unwrap();
    assert_eq!(rec.liquidated_size, 5 * SCALE as u64);
    assert_eq!(ctx.position.size, 5 * SCALE as u64);
}

#[test]
fn partial_liquidation_twice_is_not_idempotent() {
    let mut ctx = LiquidatePartial {
        position: position(
            10 * SCALE as u64,
            100 * SCALE as u64,
            30 * SCALE as u64,
            true,
            20,
        ),
        liquidator: 99,
        price_feed: PriceFeed { price: 98 * SCALE as u64, last_updated: 0 },
    };
    let first = liquidate_partial(&mut ctx, 4 * SCALE as u64, 1).unwrap();
    let size_after_first = ctx.position.size;
    let second = liquidate_partial(&mut ctx, 4 * SCALE as u64, 2).unwrap();
    // The same request closes a different slice of a smaller position.
    assert_eq!(first.liquidated_size, 4 * SCALE as u64);
    assert_eq!(second.liquidated_size, 3 * SCALE as u64);
    assert!(ctx.position.size < size_after_first);
    assert!(size_after_first < 10 * SCALE as u64);
}

#[test]
fn liquidating_a_closed_position_always_fails() {
    let mut closed_position = position(0, 100 * SCALE as u64, 0, true, 20);
    closed_position.closed = true;
    let feed = PriceFeed { price: 98 * SCALE as u64, last_updated: 0 };
    let mut partial_ctx = LiquidatePartial {
        position: closed_position,
        liquidator: 99,
        price_feed: feed,
    };
    assert_eq!(
        liquidate_partial(&mut partial_ctx, SCALE as u64, 1),
        Err(ErrorCode::PositionClosed)
    );
    let mut full_position = position(0, 100 * SCALE as u64, 0, true, 20);
    full_position.closed = true;
    let mut full_ctx = LiquidateFull {
        position: full_position,
        liquidator: 99,
        price_feed: feed,
        insurance_fund: fund(0, 0),
    };
    assert_eq!(liquidate_full(&mut full_ctx, 1), Err(ErrorCode::PositionClosed));
}

#[test]
fn stale_price_feed_is_rejected() {
    let mut ctx = LiquidatePartial {
        position: position(
            10 * SCALE as u64,
            100 * SCALE as u64,
            30 * SCALE as u64,
            true,
            20,
        ),
        liquidator: 99,
        price_feed: PriceFeed { price: 98 * SCALE as u64, last_updated: 0 },
    };
    // 31 seconds old: one past the staleness bound.
    assert_eq!(
        liquidate_partial(&mut ctx, SCALE as u64, 31),
        Err(ErrorCode::StaleOraclePrice)
    );
    assert_eq!(ctx.position.size, 10 * SCALE as u64);
}

#[test]
fn healthy_position_is_rejected() {
    // Plenty of collateral: margin far above the 250 bps tier.
    let mut ctx = LiquidatePartial {
        position: position(
            SCALE as u64,
            10 * SCALE as u64,
            5 * SCALE as u64,
            true,
            10,
        ),
        liquidator: 99,
        price_feed: PriceFeed { price: 10 * SCALE as u64, last_updated: 0 },
    };
    assert_eq!(
        liquidate_partial(&mut ctx, SCALE as u64, 1),
        Err(ErrorCode::PositionHealthy)
    );
}

#[test]
fn zero_capped_size_is_rejected() {
    // A position of size 1 halves to zero.
    let mut ctx = LiquidatePartial {
        position: position(1, 60_000 * SCALE as u64, 0, true, 20),
        liquidator: 99,
        price_feed: PriceFeed { price: 60_000 * SCALE as u64, last_updated: 0 },
    };
    assert_eq!(
        liquidate_partial(&mut ctx, 5, 1),
        Err(ErrorCode::InvalidLiquidationSize)
    );
}

#[test]
fn margin_overflow_is_rejected() {
    let mut ctx = LiquidatePartial {
        position: position(u64::MAX, 0, 0, true, 20),
        liquidator: 99,
        price_feed: PriceFeed { price: u64::MAX, last_updated: 0 },
    };
    assert_eq!(
        liquidate_partial(&mut ctx, SCALE as u64, 1),
        Err(ErrorCode::MathOverflow)
    );
}

#[test]
fn full_liquidation_rejects_a_stale_feed() {
    let mut ctx = LiquidateFull {
        position: position(
            SCALE as u64,
            60_000 * SCALE as u64,
            50,
            true,
            500,
        ),
        liquidator: 3,
        price_feed: PriceFeed { price: 58_000 * SCALE as u64, last_updated: 100 },
        insurance_fund: fund(10, 10),
    };
    assert_eq!(liquidate_full(&mut ctx, 131), Err(ErrorCode::StaleOraclePrice));
    assert!(!ctx.position.closed);
    // Exactly at the bound the feed is still acceptable.
    assert!(liquidate_full(&mut ctx, 130).is_ok());
}

#[test]
fn margin_ratio_larger_than_u64_is_an_overflow() {
    // Notional value 1 against astronomic collateral: the ratio leaves u64.
    let mut ctx = LiquidatePartial {
        position: position(1, SCALE as u64, u64::MAX, true, 20),
        liquidator: 3,
        price_feed: PriceFeed { price: SCALE as u64, last_updated: 0 },
    };
    assert_eq!(
        liquidate_partial(&mut ctx, 1, 1),
        Err(ErrorCode::MathOverflow)
    );
}

#[test]
fn full_liquidation_with_bad_debt_covered_by_insurance() {
    // 1 unit long from 60,000 to 58,000 on 500x with collateral of 50
    // scaled units: equity is wiped out and the whole reward is bad debt.
    let mut ctx = LiquidateFull {
        position: position(
            SCALE as u64,
            60_000 * SCALE as u64,
            50,
            true,
            500,
        ),
        liquidator: 3,
        price_feed: PriceFeed { price: 58_000 * SCALE as u64, last_updated: 100 },
    insurance_fund: fund(10_000 * SCALE as u64, 1_000_000),
    };
    let balance_before = ctx.insurance_fund.balance;
    let rec = liquidate_full(&mut ctx, 110).unwrap();

    assert!(ctx.position.closed);
    assert_eq!(ctx.position.size, 0);
    assert_eq!(ctx.position.collateral, 0);
    assert_eq!(rec.margin_after, 0);
    assert!(rec.bad_debt > 0);
    // Reward is 2.5% of the 58,000 notional; none of it is payable.
    assert_eq!(rec.bad_debt, 1_450 * SCALE as u64);
    assert_eq!(rec.liquidator_reward, 0);
    // The fund absorbed min(balance, bad_debt).
    let covered = rec.bad_debt.min(balance_before);
    assert_eq!(ctx.insurance_fund.balance, balance_before - covered);
    assert_eq!(ctx.insurance_fund.total_bad_debt_covered, covered);
    assert_eq!(rec.liquidated_size, SCALE as u64);
}

#[test]
fn full_liquidation_pays_reward_from_equity_when_it_suffices() {
    // A dusty position: notional value 100, reward rounds down to 2, and
    // collateral 2 covers it exactly, so no bad debt arises.
    let mut ctx = LiquidateFull {
        position: position(10, 10 * SCALE as u64, 2, true, 10),
        liquidator: 3,
        price_feed: PriceFeed { price: 10 * SCALE as u64, last_updated: 0 },
        insurance_fund: fund(5 * SCALE as u64, 10 * SCALE as u64),
    };
    let rec = liquidate_full(&mut ctx, 1).unwrap();
    assert_eq!(rec.liquidator_reward, 2);
    assert_eq!(rec.bad_debt, 0);
    // No bad debt: the fund is untouched.
    assert_eq!(ctx.insurance_fund.balance, 5 * SCALE as u64);
    assert_eq!(ctx.insurance_fund.total_bad_debt_covered, 0);
    assert!(ctx.position.closed);
}

#[test]
fn insurance_balance_never_increases_and_coverage_never_decreases() {
    // Bad debt larger than the fund: the balance drains to zero and the
    // uncovered remainder is only reported in the record.
    let mut ctx = LiquidateFull {
        position: position(
            SCALE as u64,
            60_000 * SCALE as u64,
            50,
            true,
            500,
        ),
        liquidator: 3,
        price_feed: PriceFeed { price: 58_000 * SCALE as u64, last_updated: 0 },
        insurance_fund: fund(100, 1_000),
    };
    let rec = liquidate_full(&mut ctx, 1).unwrap();
    assert_eq!(rec.bad_debt, 1_450 * SCALE as u64);
    assert_eq!(ctx.insurance_fund.balance, 0);
    assert_eq!(ctx.insurance_fund.total_bad_debt_covered, 100);
    // Utilization refreshes in basis points of contributions.
    assert_eq!(ctx.insurance_fund.utilization_ratio, 100 * 10_000 / 1_000);
    // No money minted: paid + refund + covered <= equity + prior balance.
    let paid = rec.liquidator_reward as u128;
    let covered = 100u128;
    let refund = 0u128;
    assert!(paid + refund + covered <= 0 + 100);
}

#[test]
fn failed_full_liquidation_leaves_accounts_untouched() {
    let mut ctx = LiquidateFull {
        position: position(
            SCALE as u64,
            10 * SCALE as u64,
            5 * SCALE as u64,
            true,
            10,
        ),
        liquidator: 3,
        price_feed: PriceFeed { price: 10 * SCALE as u64, last_updated: 0 },
        insurance_fund: fund(77, 88),
    };
    assert_eq!(liquidate_full(&mut ctx, 1), Err(ErrorCode::PositionHealthy));
    assert_eq!(ctx.position.size, SCALE as u64);
    assert_eq!(ctx.position.collateral, 5 * SCALE as u64);
    assert!(!ctx.position.closed);
    assert_eq!(ctx.insurance_fund.balance, 77);
    assert_eq!(ctx.insurance_fund.total_bad_debt_covered, 0);
}
