//! Monitor loop core.
//!
//! One tick of the monitor snapshots the open positions, resolves a mark
//! price per symbol through a tick-local cache backed by the oracle — so
//! every position on one symbol is judged against one price — computes each
//! position's margin ratio with the fixed-point kernel, and enqueues the
//! under-margined ones. The caller drives ticks on a timer and drains the
//! queue through the executor.

use vstd::prelude::*;

use crate::errors::LiquidationError;
use crate::executor::LiquidationExecutor;
use crate::math::{
    compute_margin_ratio, spec_margin_errs, spec_margin_ratio_bps, spec_maintenance_bps,
    spec_position_value,
};
use crate::models::{LiquidationCandidate, Position};
use crate::oracle::{
    lemma_refreshed_tick_prices, spec_fresh_price, spec_tick_price, PriceEntry, PriceOracle,
};
use crate::position_manager::{spec_open_positions, PositionManager};
use crate::queue::{spec_enqueue, spec_enqueue_all, LiquidationQueue};

verus! {

/// Maintenance margin threshold the off-chain monitor applies, in basis
/// points, tiered by leverage exactly as the settlement side does.
pub open spec fn spec_maintenance_margin_bps(leverage: u16) -> u64 {
    if 1 <= leverage && leverage <= 20 {
        250u64
    } else if 21 <= leverage && leverage <= 50 {
        100u64
    } else if 51 <= leverage && leverage <= 100 {
        50u64
    } else if 101 <= leverage && leverage <= 500 {
        25u64
    } else if 501 <= leverage && leverage <= 1000 {
        10u64
    } else {
        250u64
    }
}

/// The monitor's and the settlement side's maintenance thresholds agree on
/// every representable leverage, so an enqueue decision made off-chain is
/// never judged by a different tier on-chain.
pub proof fn lemma_maintenance_bps_agreement(leverage: u16)
    ensures
        spec_maintenance_margin_bps(leverage) == spec_maintenance_bps(leverage),
{
}

/// The monitor's judgement of one position under one mark price: a
/// candidate when the position has notional value, its margin computes
/// without overflow, and the ratio is below the maintenance threshold.
pub open spec fn spec_evaluate(p: Position, mark: u64) -> Option<LiquidationCandidate> {
    let ratio = spec_margin_ratio_bps(p.size, p.entry_price, p.collateral, p.is_long, mark);
    if spec_margin_errs(p.size, p.entry_price, p.collateral, p.is_long, mark) {
        None
    } else if spec_position_value(p.size, mark) == 0 {
        None
    } else if ratio < spec_maintenance_margin_bps(p.leverage) {
        Some(
            LiquidationCandidate {
                position: p,
                mark_price: mark,
                margin_ratio: ratio as u64,
            },
        )
    } else {
        None
    }
}

/// The candidates one tick produces: each position judged under the tick
/// price of its symbol, in position order.
pub open spec fn spec_tick_candidates(ps: Seq<Position>, cache: Seq<PriceEntry>, now: u64) -> Seq<
    LiquidationCandidate,
>
    decreases ps.len(),
{
    if ps.len() == 0 {
        Seq::empty()
    } else {
        let prefix = spec_tick_candidates(ps.drop_last(), cache, now);
        let p = ps.last();
        match spec_evaluate(p, spec_tick_price(cache, p.symbol@, now)) {
            Some(c) => prefix.push(c),
            None => prefix,
        }
    }
}

/// Every candidate of a tick carries exactly the tick price of its symbol.
pub proof fn lemma_tick_candidate_marks(ps: Seq<Position>, cache: Seq<PriceEntry>, now: u64)
    ensures
        forall|k: int|
            0 <= k < spec_tick_candidates(ps, cache, now).len()
                ==> #[trigger] spec_tick_candidates(ps, cache, now)[k].mark_price
                == spec_tick_price(
                cache,
                spec_tick_candidates(ps, cache, now)[k].position.symbol@,
                now,
            ),
    decreases ps.len(),
{
    if ps.len() > 0 {
        lemma_tick_candidate_marks(ps.drop_last(), cache, now);
        let cs = spec_tick_candidates(ps, cache, now);
        let prefix = spec_tick_candidates(ps.drop_last(), cache, now);
        let p = ps.last();
        assert forall|k: int| 0 <= k < cs.len() implies #[trigger] cs[k].mark_price
            == spec_tick_price(cache, cs[k].position.symbol@, now) by {
            match spec_evaluate(p, spec_tick_price(cache, p.symbol@, now)) {
                Some(c) => {
                    if k < prefix.len() {
                        assert(cs[k] == prefix[k]);
                        assert(prefix[k].mark_price == spec_tick_price(
                            cache,
                            prefix[k].position.symbol@,
                            now,
                        ));
                    } else {
                        assert(cs[k] == c);
                    }
                },
                None => {
                    assert(cs[k] == prefix[k]);
                    assert(prefix[k].mark_price == spec_tick_price(
                        cache,
                        prefix[k].position.symbol@,
                        now,
                    ));
                },
            }
        }
    }
}

/// Looks a symbol up in the tick-local price cache.
fn lookup_tick_price(cache: &Vec<PriceEntry>, symbol: &String) -> (r: Option<u64>)
    ensures
        r matches Some(p) ==> exists|k: int|
            0 <= k < cache@.len() && #[trigger] cache@[k].symbol@ == symbol@ && cache@[k].price
                == p,
{
    let n = cache.len();
    let mut i: usize = 0;
    while i < n
        invariant
            i <= n,
            n == cache@.len(),
        decreases n - i,
    {
        if cache[i].symbol == *symbol {
            return Some(cache[i].price);
        }
        i += 1;
    }
    None
}

/// The monitor's judgement of one position under one mark price.
fn evaluate_position(p: &Position, mark: u64) -> (r: Option<LiquidationCandidate>)
    ensures
        r == spec_evaluate(*p, mark),
{
    let (ratio, value) = match compute_margin_ratio(
        p.size,
        p.entry_price,
        p.collateral,
        p.is_long,
        mark,
    ) {
        Ok(pair) => pair,
        Err(_) => {
            return None;
        },
    };
    if value == 0 {
        return None;
    }
    let maintenance = LiquidationEngine::get_maintenance_margin_ratio(p.leverage);
    if ratio < maintenance {
        Some(LiquidationCandidate { position: p.clone(), mark_price: mark, margin_ratio: ratio })
    } else {
        None
    }
}

/// The off-chain monitor: oracle cache, position source, priority queue and
/// executor, scanned on a fixed period.
pub struct LiquidationEngine {
    /// Tick period, in milliseconds.
    pub check_interval_ms: u64,
    /// Shared symbol-to-price cache.
    pub oracle: PriceOracle,
    /// Source of open positions.
    pub position_manager: PositionManager,
    /// At-risk positions ordered by urgency.
    pub queue: LiquidationQueue,
    /// Hands drained candidates to the submitter.
    pub executor: LiquidationExecutor,
}

impl LiquidationEngine {
    /// An engine with the default tick period and empty components.
    pub fn new() -> (r: Self)
        ensures
            r.check_interval_ms == 1000,
            r.oracle@ == Seq::<PriceEntry>::empty(),
            r.oracle.wf(),
            r.position_manager@ == Seq::<Position>::empty(),
            r.queue@ == Seq::<crate::queue::QueueItem>::empty(),
            r.queue.wf(),
    {
        LiquidationEngine {
            check_interval_ms: 1000,
            oracle: PriceOracle::new(),
            position_manager: PositionManager::new(),
            queue: LiquidationQueue::new(),
            executor: LiquidationExecutor::new(),
        }
    }

    /// Maintenance margin threshold the monitor applies, in basis points.
    pub fn get_maintenance_margin_ratio(leverage: u16) -> (r: u64)
        ensures
            r == spec_maintenance_margin_bps(leverage),
    {
        if 1 <= leverage && leverage <= 20 {
            250
        } else if 21 <= leverage && leverage <= 50 {
            100
        } else if 51 <= leverage && leverage <= 100 {
            50
        } else if 101 <= leverage && leverage <= 500 {
            25
        } else if 501 <= leverage && leverage <= 1000 {
            10
        } else {
            250
        }
    }

    /// One monitor tick at time `now_ms`: judges every open position under
    /// its symbol's tick price, enqueues each violator, and returns the
    /// candidates in position order. Within the tick all positions on one
    /// symbol see the same mark price, and effective oracle lookups at
    /// `now_ms` are left unchanged for every symbol.
    pub fn check_all_positions(&mut self, now_ms: u64) -> (r: Result<
        Vec<LiquidationCandidate>,
        LiquidationError,
    >)
        requires
            old(self).oracle.wf(),
            old(self).queue.wf(),
        ensures
            final(self).oracle.wf(),
            final(self).queue.wf(),
            final(self).position_manager@ == old(self).position_manager@,
            final(self).check_interval_ms == old(self).check_interval_ms,
            r matches Ok(cs) && ({
                let ps = spec_open_positions(old(self).position_manager@);
                &&& cs@ == spec_tick_candidates(ps, old(self).oracle@, now_ms)
                &&& final(self).queue@ == spec_enqueue_all(old(self).queue@, cs@, now_ms)
                &&& forall|a: int, b: int|
                    0 <= a < cs@.len() && 0 <= b < cs@.len() && #[trigger] cs@[a].position.symbol@
                        == #[trigger] cs@[b].position.symbol@ ==> cs@[a].mark_price
                        == cs@[b].mark_price
                &&& forall|sym: Seq<char>| #[trigger]
                    spec_tick_price(final(self).oracle@, sym, now_ms) == spec_tick_price(
                        old(self).oracle@,
                        sym,
                        now_ms,
                    )
            }),
    {
        let positions = match self.position_manager.get_open_positions() {
            Ok(v) => v,
            Err(e) => {
                return Err(e);
            },
        };
        let ghost o0 = self.oracle@;
        let ghost q0 = self.queue@;
        let ghost ps = positions@;
        let mut tick_prices: Vec<PriceEntry> = Vec::new();
        let mut out: Vec<LiquidationCandidate> = Vec::new();
        let n = positions.len();
        let mut i: usize = 0;
        while i < n
            invariant
                i <= n,
                n == ps.len(),
                positions@ == ps,
                ps == spec_open_positions(old(self).position_manager@),
                self.position_manager@ == old(self).position_manager@,
                self.check_interval_ms == old(self).check_interval_ms,
                self.oracle.wf(),
                self.queue.wf(),
                q0 == old(self).queue@,
                o0 == old(self).oracle@,
                forall|k: int|
                    0 <= k < tick_prices@.len() ==> #[trigger] tick_prices@[k].price
                        == spec_tick_price(o0, tick_prices@[k].symbol@, now_ms),
                forall|sym: Seq<char>| #[trigger]
                    spec_tick_price(self.oracle@, sym, now_ms) == spec_tick_price(o0, sym, now_ms),
                out@ == spec_tick_candidates(ps.take(i as int), o0, now_ms),
                self.queue@ == spec_enqueue_all(q0, out@, now_ms),
            decreases n - i,
        {
            let mark: u64 = match lookup_tick_price(&tick_prices, &positions[i].symbol) {
                Some(p) => p,
                None => {
                    let ghost o_before = self.oracle@;
                    let price = match self.oracle.get_mark_price(
                        positions[i].symbol.as_str(),
                        now_ms,
                    ) {
                        Ok(v) => v,
                        Err(e) => {
                            return Err(e);
                        },
                    };
                    proof {
                        if spec_fresh_price(o_before, ps[i as int].symbol@, now_ms) is None {
                            lemma_refreshed_tick_prices(
                                o_before,
                                self.oracle@,
                                ps[i as int].symbol@,
                                now_ms,
                            );
                        }
                    }
                    tick_prices.push(
                        PriceEntry {
                            symbol: positions[i].symbol.clone(),
                            price,
                            stored_at: now_ms,
                        },
                    );
                    price
                },
            };
            proof {
                assert(mark == spec_tick_price(o0, ps[i as int].symbol@, now_ms));
            }
            let ghost out_before = out@;
            let ghost queue_before = self.queue@;
            match evaluate_position(&positions[i], mark) {
                Some(c) => {
                    let _ = self.queue.enqueue(
                        c.position.clone(),
                        c.mark_price,
                        c.margin_ratio,
                        now_ms,
                    );
                    proof {
                        assert(self.queue@ == spec_enqueue(queue_before, c, now_ms));
                    }
                    out.push(c);
                    proof {
                        assert(out@.drop_last() =~= out_before);
                        assert(out@.last() == c);
                    }
                },
                None => {},
            }
            proof {
                assert(ps.take(i as int + 1).drop_last() =~= ps.take(i as int));
                assert(ps.take(i as int + 1).last() == ps[i as int]);
                assert(out@ == spec_tick_candidates(ps.take(i as int + 1), o0, now_ms));
            }
            i += 1;
        }
        proof {
            assert(ps.take(n as int) =~= ps);
            lemma_tick_candidate_marks(ps, o0, now_ms);
        }
        Ok(out)
    }
}

} // verus!
