//! Price oracle cache.
//!
//! Maps a market symbol to its last observed scaled mark price and the time
//! of the observation, in monotonic milliseconds. A lookup younger than
//! [`crate::FRESHNESS_WINDOW_MS`] is served from the cache; otherwise the
//! upstream provider is consulted and the observation stored under the
//! current time.

use vstd::prelude::*;
use vstd::pervasive::VecAdditionalExecFns;

use crate::errors::LiquidationError;
use crate::FRESHNESS_WINDOW_MS;

verus! {

/// One cached observation: `(symbol, price, observed_at)`.
#[derive(Debug)]
pub struct PriceEntry {
    /// Market symbol the observation is for.
    pub symbol: String,
    /// Scaled mark price observed.
    pub price: u64,
    /// When the observation was stored, in monotonic milliseconds.
    pub stored_at: u64,
}

/// Index of the first entry for `sym` at or after `i`, or -1.
pub open spec fn spec_find_symbol_from(s: Seq<PriceEntry>, sym: Seq<char>, i: int) -> int
    decreases s.len() - i,
{
    if i < 0 || i >= s.len() {
        -1
    } else if s[i].symbol@ == sym {
        i
    } else {
        spec_find_symbol_from(s, sym, i + 1)
    }
}

/// Index of the entry for `sym`, or -1 when the symbol is not cached.
pub open spec fn spec_find_symbol(s: Seq<PriceEntry>, sym: Seq<char>) -> int {
    spec_find_symbol_from(s, sym, 0)
}

/// The cached price for `sym` when its observation is still fresh at `now`.
pub open spec fn spec_fresh_price(s: Seq<PriceEntry>, sym: Seq<char>, now: u64) -> Option<u64> {
    let i = spec_find_symbol(s, sym);
    if i != -1 && now - s[i].stored_at < FRESHNESS_WINDOW_MS {
        Some(s[i].price)
    } else {
        None
    }
}

/// The price the upstream provider reports for a symbol, scaled by
/// [`crate::SCALE`]. A placeholder table until a real provider is wired in;
/// it depends on the symbol alone.
pub open spec fn spec_upstream_price(sym: Seq<char>) -> u64 {
    if sym == "BTC-PERP"@ {
        60_000_000_000u64
    } else if sym == "ETH-PERP"@ {
        3_000_000_000u64
    } else {
        1_000_000_000u64
    }
}

/// The price a lookup at `now` yields: the cached observation while fresh,
/// the upstream price otherwise.
pub open spec fn spec_tick_price(s: Seq<PriceEntry>, sym: Seq<char>, now: u64) -> u64 {
    match spec_fresh_price(s, sym, now) {
        Some(p) => p,
        None => spec_upstream_price(sym),
    }
}

/// `t` is `s` with the observation `(sym, price, now)` stored: updated in
/// place when `sym` was present, appended otherwise. Stated over entry
/// fields because a `String` value cannot be written down in a
/// specification, only its view.
pub open spec fn spec_refreshed(s: Seq<PriceEntry>, t: Seq<PriceEntry>, sym: Seq<char>, price: u64, now: u64) -> bool {
    let i = spec_find_symbol(s, sym);
    if i == -1 {
        &&& t.len() == s.len() + 1
        &&& (forall|j: int| 0 <= j < s.len() ==> t[j] == s[j])
        &&& t[s.len() as int].symbol@ == sym
        &&& t[s.len() as int].price == price
        &&& t[s.len() as int].stored_at == now
    } else {
        &&& t.len() == s.len()
        &&& (forall|j: int| 0 <= j < s.len() && j != i ==> t[j] == s[j])
        &&& t[i].symbol@ == sym
        &&& t[i].price == price
        &&& t[i].stored_at == now
    }
}

/// What `spec_find_symbol_from` returns: a match position or -1 when no
/// entry at or after `i` has the symbol.
pub proof fn lemma_find_symbol_properties(s: Seq<PriceEntry>, sym: Seq<char>, i: int)
    requires
        0 <= i <= s.len(),
    ensures
        ({
            let f = spec_find_symbol_from(s, sym, i);
            &&& f == -1 ==> forall|j: int| i <= j < s.len() ==> #[trigger] s[j].symbol@ != sym
            &&& f != -1 ==> i <= f < s.len() && s[f].symbol@ == sym
        }),
    decreases s.len() - i,
{
    if i < s.len() {
        lemma_find_symbol_properties(s, sym, i + 1);
    }
}

/// Storing one symbol's observation does not move any other symbol's entry,
/// and lands the stored symbol at its old slot, or at the end when absent.
pub proof fn lemma_find_after_refresh(
    s: Seq<PriceEntry>,
    t: Seq<PriceEntry>,
    sym: Seq<char>,
    price: u64,
    now: u64,
    other: Seq<char>,
    k: int,
)
    requires
        spec_refreshed(s, t, sym, price, now),
        0 <= k <= s.len(),
    ensures
        other != sym ==> spec_find_symbol_from(t, other, k) == spec_find_symbol_from(s, other, k),
        other == sym && spec_find_symbol(s, sym) != -1 ==> spec_find_symbol_from(t, other, k)
            == spec_find_symbol_from(s, other, k),
        other == sym && spec_find_symbol(s, sym) == -1 ==> spec_find_symbol_from(t, other, k)
            == s.len(),
    decreases s.len() - k,
{
    let i = spec_find_symbol(s, sym);
    if i == -1 {
        lemma_find_symbol_properties(s, sym, 0);
    }
    if k < s.len() {
        lemma_find_after_refresh(s, t, sym, price, now, other, k + 1);
        if i != -1 {
            lemma_find_symbol_properties(s, sym, 0);
            assert(s[i].symbol@ == sym);
            if k == i {
                assert(t[k].symbol@ == s[k].symbol@);
            }
        }
    } else {
        // k == s.len(): s has no entry at or after k; in the appended case
        // the one extra entry of t carries exactly `sym`.
        if i == -1 {
            assert(spec_find_symbol_from(t, other, k + 1) == -1) by {
                lemma_find_symbol_properties(t, other, k + 1);
            }
        }
    }
}

/// Storing the upstream price for a symbol the cache could not serve
/// freshly leaves every symbol's effective lookup price at `now` unchanged.
pub proof fn lemma_refreshed_tick_prices(s: Seq<PriceEntry>, t: Seq<PriceEntry>, sym: Seq<char>, now: u64)
    requires
        spec_fresh_price(s, sym, now) is None,
        spec_refreshed(s, t, sym, spec_upstream_price(sym), now),
    ensures
        forall|other: Seq<char>| #[trigger]
            spec_tick_price(t, other, now) == spec_tick_price(s, other, now),
{
    assert forall|other: Seq<char>| #[trigger]
        spec_tick_price(t, other, now) == spec_tick_price(s, other, now) by {
        let i = spec_find_symbol(s, sym);
        lemma_find_after_refresh(s, t, sym, spec_upstream_price(sym), now, other, 0);
        if other == sym {
            if i == -1 {
                assert(spec_find_symbol(t, sym) == s.len());
                assert(t[s.len() as int].price == spec_upstream_price(sym));
            } else {
                assert(spec_find_symbol(t, sym) == i);
                assert(t[i].price == spec_upstream_price(sym));
                assert(t[i].stored_at == now);
            }
        } else {
            let f = spec_find_symbol(s, other);
            if f != -1 {
                lemma_find_symbol_properties(s, other, 0);
                if i != -1 {
                    lemma_find_symbol_properties(s, sym, 0);
                    assert(f != i);
                }
                assert(t[f] == s[f]);
            }
        }
    }
}

/// Shared symbol-to-price cache serving the monitor.
pub struct PriceOracle {
    entries: Vec<PriceEntry>,
}

impl View for PriceOracle {
    type V = Seq<PriceEntry>;

    closed spec fn view(&self) -> Seq<PriceEntry> {
        self.entries@
    }
}

/// The upstream provider's price for a symbol. A placeholder table until a
/// real provider is wired in.
fn default_upstream_price(symbol: &String) -> (r: u64)
    ensures
        r == spec_upstream_price(symbol@),
{
    let btc: String = "BTC-PERP".to_owned();
    if *symbol == btc {
        return 60_000_000_000;
    }
    let eth: String = "ETH-PERP".to_owned();
    if *symbol == eth {
        return 3_000_000_000;
    }
    1_000_000_000
}

impl PriceOracle {
    /// The cache never holds two entries for one symbol.
    pub open spec fn wf(&self) -> bool {
        forall|i: int, j: int|
            #![trigger self@[i], self@[j]]
            0 <= i < j < self@.len() ==> self@[i].symbol@ != self@[j].symbol@
    }

    /// An empty cache.
    pub fn new() -> (r: Self)
        ensures
            r@ == Seq::<PriceEntry>::empty(),
            r.wf(),
    {
        PriceOracle { entries: Vec::new() }
    }

    /// Number of symbols with a cached observation.
    pub fn len(&self) -> (r: usize)
        ensures
            r == self@.len(),
    {
        self.entries.len()
    }

    /// The mark price for `symbol` at time `now_ms`: the cached observation
    /// while it is younger than the freshness window, otherwise the upstream
    /// price, which is then stored under `now_ms`.
    pub fn get_mark_price(&mut self, symbol: &str, now_ms: u64) -> (r: Result<u64, LiquidationError>)
        requires
            old(self).wf(),
        ensures
            final(self).wf(),
            r matches Ok(p) && p == spec_tick_price(old(self)@, symbol@, now_ms),
            spec_fresh_price(old(self)@, symbol@, now_ms) is Some ==> final(self)@ == old(self)@,
            spec_fresh_price(old(self)@, symbol@, now_ms) is None ==> spec_refreshed(
                old(self)@,
                final(self)@,
                symbol@,
                spec_upstream_price(symbol@),
                now_ms,
            ),
    {
        let sym: String = symbol.to_owned();
        let ghost s0 = self.entries@;
        let ghost symv = symbol@;
        let n = self.entries.len();
        let mut i: usize = 0;
        while i < n
            invariant
                i <= n,
                n == self.entries@.len(),
                self.entries@ == s0,
                s0 == old(self)@,
                old(self).wf(),
                sym@ == symv,
                symv == symbol@,
                spec_find_symbol(s0, symv) == spec_find_symbol_from(s0, symv, i as int),
            decreases n - i,
        {
            if self.entries[i].symbol == sym {
                proof {
                    assert(spec_find_symbol(s0, symv) == i as int);
                }
                let stored_at = self.entries[i].stored_at;
                if now_ms < stored_at || now_ms - stored_at < FRESHNESS_WINDOW_MS {
                    return Ok(self.entries[i].price);
                }
                let price = default_upstream_price(&sym);
                self.entries.set(i, PriceEntry { symbol: sym, price, stored_at: now_ms });
                proof {
                    assert forall|p: int, q: int| 0 <= p < q < self.entries@.len() implies
                        self.entries@[p].symbol@ != self.entries@[q].symbol@ by {
                        assert(s0[p].symbol@ != s0[q].symbol@);
                        assert(self.entries@[p].symbol@ == s0[p].symbol@);
                        assert(self.entries@[q].symbol@ == s0[q].symbol@);
                    }
                }
                return Ok(price);
            }
            i += 1;
        }
        proof {
            assert(spec_find_symbol(s0, symv) == -1);
            lemma_find_symbol_properties(s0, symv, 0);
        }
        let price = default_upstream_price(&sym);
        self.entries.push(PriceEntry { symbol: sym, price, stored_at: now_ms });
        proof {
            assert forall|p: int, q: int| 0 <= p < q < self.entries@.len() implies
                self.entries@[p].symbol@ != self.entries@[q].symbol@ by {
                if q < s0.len() {
                    assert(s0[p].symbol@ != s0[q].symbol@);
                } else {
                    assert(self.entries@[q].symbol@ == symv);
                    assert(s0[p].symbol@ != symv);
                }
                assert(self.entries@[p] == s0[p]);
            }
        }
        Ok(price)
    }
}

} // verus!
