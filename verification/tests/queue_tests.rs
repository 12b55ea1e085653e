//! Priority queue behavior: urgency ordering, identity replacement,
//! cooldown discipline, snapshots.

use liquidation_engine::models::Position;
use liquidation_engine::queue::LiquidationQueue;
use liquidation_engine::COOLDOWN_MS;

fn position(id: &str) -> Position {
    Position {
        id: id.to_string(),
        owner: 1,
        symbol: "BTC-PERP".to_string(),
        size: 1_000_000,
        is_long: true,
        entry_price: 60_000_000_000,
        collateral: 50,
        leverage: 500,
        closed: false,
    }
}

#[test]
fn pop_returns_lowest_margin_ratio_first() {
    let mut queue = LiquidationQueue::new();
    queue.enqueue(position("pos-a"), 100, 100, 0).unwrap();
    queue.enqueue(position("pos-b"), 100, 50, 0).unwrap();
    // Pop once the cooldown set at enqueue time has elapsed.
    let first = queue.pop(COOLDOWN_MS).unwrap();
    assert_eq!(first.position.id, "pos-b".to_string());
    assert_eq!(first.margin_ratio, 50);
    let second = queue.pop(COOLDOWN_MS).unwrap();
    assert_eq!(second.position.id, "pos-a".to_string());
    assert!(queue.pop(COOLDOWN_MS).is_none());
}

#[test]
fn pop_respects_cooldown() {
    let mut queue = LiquidationQueue::new();
    queue.enqueue(position("pos-a"), 100, 10, 1_000).unwrap();
    // Within the cooldown nothing is eligible, but the item stays queued.
    assert!(queue.pop(1_000).is_none());
    assert!(queue.pop(1_000 + COOLDOWN_MS - 1).is_none());
    assert_eq!(queue.len(), 1);
    // At the deadline the item comes out.
    let c = queue.pop(1_000 + COOLDOWN_MS).unwrap();
    assert_eq!(c.position.id, "pos-a".to_string());
    assert_eq!(queue.len(), 0);
}

#[test]
fn reenqueue_within_cooldown_keeps_the_deadline_and_refreshes_the_snapshot() {
    let mut queue = LiquidationQueue::new();
    queue.enqueue(position("pos-a"), 100, 100, 0).unwrap();
    // Re-enqueued while cooling down: the snapshot refreshes, the
    // deadline set at time 0 survives.
    queue.enqueue(position("pos-a"), 90, 80, 3_000).unwrap();
    assert_eq!(queue.len(), 1);
    // Were the deadline reset to 3,000 this pop would find nothing.
    let c = queue.pop(COOLDOWN_MS).unwrap();
    assert_eq!(c.margin_ratio, 80);
    assert_eq!(c.mark_price, 90);
}

#[test]
fn reenqueue_after_cooldown_resets_the_deadline() {
    let mut queue = LiquidationQueue::new();
    queue.enqueue(position("pos-a"), 100, 100, 0).unwrap();
    // Re-enqueued after the cooldown has elapsed: the deadline resets.
    queue.enqueue(position("pos-a"), 90, 80, COOLDOWN_MS).unwrap();
    assert!(queue.pop(COOLDOWN_MS + 1).is_none());
    let c = queue.pop(2 * COOLDOWN_MS).unwrap();
    assert_eq!(c.margin_ratio, 80);
}

#[test]
fn skipped_items_in_cooldown_are_retained() {
    let mut queue = LiquidationQueue::new();
    // pos-a is more urgent but was attempted recently; pos-b is due.
    queue.enqueue(position("pos-a"), 100, 10, 4_000).unwrap();
    queue.enqueue(position("pos-b"), 100, 20, 0).unwrap();
    let c = queue.pop(COOLDOWN_MS).unwrap();
    assert_eq!(c.position.id, "pos-b".to_string());
    assert_eq!(queue.len(), 1);
    // Later pos-a becomes eligible too.
    let c = queue.pop(4_000 + COOLDOWN_MS).unwrap();
    assert_eq!(c.position.id, "pos-a".to_string());
}

#[test]
fn snapshot_copies_without_consuming() {
    let mut queue = LiquidationQueue::new();
    queue.enqueue(position("pos-a"), 100, 100, 0).unwrap();
    queue.enqueue(position("pos-b"), 100, 50, 0).unwrap();
    let snap = queue.snapshot();
    assert_eq!(snap.len(), 2);
    assert_eq!(snap[0].position.id, "pos-a".to_string());
    assert_eq!(snap[1].position.id, "pos-b".to_string());
    assert_eq!(queue.len(), 2);
    let ids = queue.snapshot_ids();
    assert_eq!(ids, vec!["pos-a".to_string(), "pos-b".to_string()]);
}
