//! Monitor-side behavior: the tick, the per-tick price discipline, the
//! oracle cache, the position source, the executor drain, and the
//! agreement of the two maintenance tables.

use liquidation_engine::engine::LiquidationEngine;
use liquidation_engine::executor::LiquidationExecutor;
use liquidation_engine::insurance::InsuranceFundManager;
use liquidation_engine::math::maintenance_bps_for_leverage;
use liquidation_engine::models::Position;
use liquidation_engine::oracle::PriceOracle;
use liquidation_engine::position_manager::PositionManager;
use liquidation_engine::{COOLDOWN_MS, FRESHNESS_WINDOW_MS, SCALE};

fn position(id: &str, symbol: &str, collateral: u64) -> Position {
    Position {
        id: id.to_string(),
        owner: 1,
        symbol: symbol.to_string(),
        size: SCALE as u64,
        is_long: true,
        entry_price: 60_000 * SCALE as u64,
        collateral,
        leverage: 500,
        closed: false,
    }
}

#[test]
fn tick_enqueues_undermargined_positions_only() {
    let mut engine = LiquidationEngine::new();
    // Tiny collateral: under water at the 10 bps tier for 500x.
    engine.position_manager.add_position(position("pos-1", "BTC-PERP", 50));
    // Healthy: collateral worth 10% of the notional.
    engine
        .position_manager
        .add_position(position("pos-2", "BTC-PERP", 6_000 * SCALE as u64));
    let candidates = engine.check_all_positions(0).unwrap();
    assert_eq!(candidates.len(), 1);
    assert_eq!(candidates[0].position.id, "pos-1".to_string());
    assert_eq!(candidates[0].mark_price, 60_000 * SCALE as u64);
    assert_eq!(candidates[0].margin_ratio, 0);
    let ids = engine.queue.snapshot_ids();
    assert_eq!(ids, vec!["pos-1".to_string()]);
}

#[test]
fn tick_uses_one_mark_price_per_symbol() {
    let mut engine = LiquidationEngine::new();
    engine.position_manager.add_position(position("pos-1", "BTC-PERP", 50));
    engine.position_manager.add_position(position("pos-2", "BTC-PERP", 40));
    engine.position_manager.add_position(position("pos-3", "ETH-PERP", 30));
    let candidates = engine.check_all_positions(7).unwrap();
    assert_eq!(candidates.len(), 3);
    for a in &candidates {
        for b in &candidates {
            if a.position.symbol == b.position.symbol {
                assert_eq!(a.mark_price, b.mark_price);
            }
        }
    }
    assert_eq!(candidates[0].mark_price, candidates[1].mark_price);
    assert_eq!(candidates[2].mark_price, 3_000 * SCALE as u64);
}

#[test]
fn closed_positions_are_not_scanned() {
    let mut engine = LiquidationEngine::new();
    let mut closed = position("pos-1", "BTC-PERP", 50);
    closed.closed = true;
    engine.position_manager.add_position(closed);
    let candidates = engine.check_all_positions(0).unwrap();
    assert!(candidates.is_empty());
    assert_eq!(engine.queue.len(), 0);
}

#[test]
fn drain_queue_pops_everything_eligible_in_priority_order() {
    let mut engine = LiquidationEngine::new();
    engine.position_manager.add_position(position("pos-1", "BTC-PERP", 50));
    engine.position_manager.add_position(position("pos-2", "ETH-PERP", 0));
    let _ = engine.check_all_positions(0).unwrap();
    let executor = LiquidationExecutor::new();
    // Still cooling down right after the tick enqueued them.
    let drained = executor.drain_queue(&mut engine.queue, 0);
    assert!(drained.is_empty());
    assert_eq!(engine.queue.len(), 2);
    // After the cooldown both come out, and the queue is left empty.
    let drained = executor.drain_queue(&mut engine.queue, COOLDOWN_MS);
    assert_eq!(drained.len(), 2);
    assert_eq!(engine.queue.len(), 0);
    let drained = executor.drain_queue(&mut engine.queue, 2 * COOLDOWN_MS);
    assert!(drained.is_empty());
}

#[test]
fn oracle_serves_the_placeholder_upstream_table() {
    let mut oracle = PriceOracle::new();
    assert_eq!(oracle.get_mark_price("BTC-PERP", 0).unwrap(), 60_000 * SCALE as u64);
    assert_eq!(oracle.get_mark_price("ETH-PERP", 0).unwrap(), 3_000 * SCALE as u64);
    assert_eq!(oracle.get_mark_price("SOL-PERP", 0).unwrap(), 1_000 * SCALE as u64);
    assert_eq!(oracle.len(), 3);
}

#[test]
fn oracle_caches_within_the_freshness_window() {
    let mut oracle = PriceOracle::new();
    let p0 = oracle.get_mark_price("BTC-PERP", 0).unwrap();
    // A fresh lookup is served from the cache: no new entry appears.
    let p1 = oracle.get_mark_price("BTC-PERP", FRESHNESS_WINDOW_MS - 1).unwrap();
    assert_eq!(p0, p1);
    assert_eq!(oracle.len(), 1);
    // A stale lookup refreshes in place rather than appending.
    let p2 = oracle.get_mark_price("BTC-PERP", 10 * FRESHNESS_WINDOW_MS).unwrap();
    assert_eq!(p2, p0);
    assert_eq!(oracle.len(), 1);
}

#[test]
fn position_source_returns_open_positions_in_order() {
    let mut manager = PositionManager::new();
    manager.add_position(position("pos-1", "BTC-PERP", 50));
    let mut closed = position("pos-2", "BTC-PERP", 50);
    closed.closed = true;
    manager.add_position(closed);
    manager.add_position(position("pos-3", "ETH-PERP", 50));
    let open = manager.get_open_positions().unwrap();
    assert_eq!(open.len(), 2);
    assert_eq!(open[0].id, "pos-1".to_string());
    assert_eq!(open[1].id, "pos-3".to_string());
}

#[test]
fn insurance_manager_reports_its_fund_balance() {
    let mut manager = InsuranceFundManager::new();
    assert_eq!(manager.get_balance(), 0);
    manager.fund.balance = 42;
    assert_eq!(manager.get_balance(), 42);
}

#[test]
fn maintenance_tables_agree_between_monitor_and_settlement() {
    for leverage in 0..=u16::MAX {
        assert_eq!(
            LiquidationEngine::get_maintenance_margin_ratio(leverage),
            maintenance_bps_for_leverage(leverage)
        );
    }
}

#[test]
fn engine_defaults_to_a_one_second_tick() {
    let engine = LiquidationEngine::new();
    assert_eq!(engine.check_interval_ms, 1_000);
}
