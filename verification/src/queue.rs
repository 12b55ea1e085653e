//! Liquidation priority queue.
//!
//! A bounded set of liquidation candidates, one per position id, ordered by
//! urgency: a lower margin ratio means higher priority. After each attempt a
//! position rests for [`crate::COOLDOWN_MS`]; items in cooldown are skipped
//! by [`LiquidationQueue::pop`] but retained. Re-enqueueing a position that
//! is still cooling down refreshes its candidate snapshot without resetting
//! the cooldown deadline, so a flapping position cannot starve others.

use vstd::prelude::*;
use vstd::pervasive::VecAdditionalExecFns;

use crate::errors::LiquidationError;
use crate::models::{LiquidationCandidate, Position};
use crate::COOLDOWN_MS;

verus! {

/// A queued candidate plus the time of the last liquidation attempt on it,
/// in monotonic milliseconds.
#[derive(Debug)]
pub struct QueueItem {
    /// The candidate snapshot, refreshed on re-enqueue.
    pub candidate: LiquidationCandidate,
    /// When this position was last attempted (or first enqueued).
    pub last_attempt: u64,
}

/// An item may be attempted once its cooldown has elapsed.
pub open spec fn spec_eligible(item: QueueItem, now: u64) -> bool {
    now - item.last_attempt >= COOLDOWN_MS
}

/// Index of the first item with position id `id` at or after `i`, or -1.
pub open spec fn spec_find_from(s: Seq<QueueItem>, id: Seq<char>, i: int) -> int
    decreases s.len() - i,
{
    if i < 0 || i >= s.len() {
        -1
    } else if s[i].candidate.position.id@ == id {
        i
    } else {
        spec_find_from(s, id, i + 1)
    }
}

/// Index of the item with position id `id`, or -1 when absent.
pub open spec fn spec_find(s: Seq<QueueItem>, id: Seq<char>) -> int {
    spec_find_from(s, id, 0)
}

/// The attempt timestamp a re-enqueued item keeps: preserved while the
/// previous attempt is still cooling down, reset to `now` otherwise.
pub open spec fn spec_refreshed_attempt(prev: u64, now: u64) -> u64 {
    if now - prev < COOLDOWN_MS {
        prev
    } else {
        now
    }
}

/// The queue contents after enqueueing `c` at time `now`: a new item when
/// the position id is absent, otherwise a replacement of the existing item's
/// snapshot under the cooldown-preserving attempt timestamp.
pub open spec fn spec_enqueue(s: Seq<QueueItem>, c: LiquidationCandidate, now: u64) -> Seq<
    QueueItem,
> {
    let i = spec_find(s, c.position.id@);
    if i == -1 {
        s.push(QueueItem { candidate: c, last_attempt: now })
    } else {
        s.update(
            i,
            QueueItem { candidate: c, last_attempt: spec_refreshed_attempt(s[i].last_attempt, now) },
        )
    }
}

/// Index of the highest-priority eligible item at or after `i`: minimal
/// margin ratio among eligible items, earliest index on ties; -1 when no
/// item at or after `i` is eligible.
pub open spec fn spec_best_from(s: Seq<QueueItem>, now: u64, i: int) -> int
    decreases s.len() - i,
{
    if i < 0 || i >= s.len() {
        -1
    } else {
        let rest = spec_best_from(s, now, i + 1);
        if !spec_eligible(s[i], now) {
            rest
        } else if rest == -1 {
            i
        } else if s[i].candidate.margin_ratio <= s[rest].candidate.margin_ratio {
            i
        } else {
            rest
        }
    }
}

/// Index of the item `pop` returns, or -1 when every item is in cooldown.
pub open spec fn spec_best(s: Seq<QueueItem>, now: u64) -> int {
    spec_best_from(s, now, 0)
}

/// The queue contents after enqueueing each candidate of `cs` in order.
pub open spec fn spec_enqueue_all(s: Seq<QueueItem>, cs: Seq<LiquidationCandidate>, now: u64) -> Seq<
    QueueItem,
>
    decreases cs.len(),
{
    if cs.len() == 0 {
        s
    } else {
        spec_enqueue(spec_enqueue_all(s, cs.drop_last(), now), cs.last(), now)
    }
}

/// What draining the queue at `now` leaves behind and hands out: repeated
/// pops of the best eligible item until every remaining item is in cooldown.
pub open spec fn spec_drain(s: Seq<QueueItem>, now: u64) -> (Seq<QueueItem>, Seq<
    LiquidationCandidate,
>)
    decreases s.len(),
{
    let b = spec_best(s, now);
    if b < 0 || b >= s.len() {
        (s, Seq::empty())
    } else {
        let rest = spec_drain(s.remove(b), now);
        (rest.0, seq![s[b].candidate] + rest.1)
    }
}

/// What `spec_find_from` returns: a match position, with no match before it,
/// or -1 when no item at or after `i` matches.
pub proof fn lemma_find_from_properties(s: Seq<QueueItem>, id: Seq<char>, i: int)
    requires
        0 <= i <= s.len(),
    ensures
        ({
            let f = spec_find_from(s, id, i);
            &&& f == -1 ==> forall|j: int|
                i <= j < s.len() ==> #[trigger] s[j].candidate.position.id@ != id
            &&& f != -1 ==> i <= f < s.len() && s[f].candidate.position.id@ == id
        }),
    decreases s.len() - i,
{
    if i < s.len() {
        lemma_find_from_properties(s, id, i + 1);
    }
}

/// What `spec_best_from` returns: -1 only when nothing is eligible, and
/// otherwise an eligible index whose margin ratio is minimal among the
/// eligible items.
pub proof fn lemma_best_from_properties(s: Seq<QueueItem>, now: u64, i: int)
    requires
        0 <= i <= s.len(),
    ensures
        ({
            let b = spec_best_from(s, now, i);
            &&& b == -1 ==> forall|j: int| i <= j < s.len() ==> !#[trigger] spec_eligible(s[j], now)
            &&& b != -1 ==> i <= b < s.len() && spec_eligible(s[b], now) && forall|j: int|
                i <= j < s.len() && #[trigger] spec_eligible(s[j], now)
                    ==> s[b].candidate.margin_ratio <= s[j].candidate.margin_ratio
        }),
    decreases s.len() - i,
{
    if i < s.len() {
        lemma_best_from_properties(s, now, i + 1);
    }
}

/// Priority queue of at-risk positions, keyed by position id.
pub struct LiquidationQueue {
    items: Vec<QueueItem>,
}

impl View for LiquidationQueue {
    type V = Seq<QueueItem>;

    closed spec fn view(&self) -> Seq<QueueItem> {
        self.items@
    }
}

impl LiquidationQueue {
    /// Identity: the queue never holds two items for one position id.
    pub open spec fn wf(&self) -> bool {
        forall|i: int, j: int|
            #![trigger self@[i], self@[j]]
            0 <= i < j < self@.len() ==> self@[i].candidate.position.id@
                != self@[j].candidate.position.id@
    }

    /// An empty queue.
    pub fn new() -> (r: Self)
        ensures
            r@ == Seq::<QueueItem>::empty(),
            r.wf(),
    {
        LiquidationQueue { items: Vec::new() }
    }

    /// Number of queued candidates, eligible or cooling down.
    pub fn len(&self) -> (r: usize)
        ensures
            r == self@.len(),
    {
        self.items.len()
    }

    /// Inserts a candidate snapshot for `position` judged at `mark_price`
    /// with `margin_ratio`. An id already present is replaced in place; its
    /// cooldown deadline survives a replacement made within the cooldown.
    pub fn enqueue(
        &mut self,
        position: Position,
        mark_price: u64,
        margin_ratio: u64,
        now: u64,
    ) -> (r: Result<(), LiquidationError>)
        requires
            old(self).wf(),
        ensures
            final(self).wf(),
            r is Ok,
            final(self)@ == spec_enqueue(
                old(self)@,
                LiquidationCandidate { position, mark_price, margin_ratio },
                now,
            ),
    {
        let ghost s0 = self.items@;
        let ghost id = position.id@;
        let n = self.items.len();
        let mut i: usize = 0;
        while i < n
            invariant
                i <= n,
                n == self.items@.len(),
                self.items@ == s0,
                s0 == old(self)@,
                old(self).wf(),
                id == position.id@,
                spec_find(s0, id) == spec_find_from(s0, id, i as int),
            decreases n - i,
        {
            if self.items[i].candidate.position.id == position.id {
                let prev = self.items[i].last_attempt;
                let last_attempt = if now < prev || now - prev < COOLDOWN_MS {
                    prev
                } else {
                    now
                };
                let candidate = LiquidationCandidate { position, mark_price, margin_ratio };
                proof {
                    assert(spec_find(s0, id) == i as int);
                    assert(last_attempt == spec_refreshed_attempt(s0[i as int].last_attempt, now));
                }
                self.items.set(i, QueueItem { candidate, last_attempt });
                proof {
                    assert(self.items@ == spec_enqueue(s0, candidate, now));
                    assert forall|p: int, q: int| 0 <= p < q < self.items@.len() implies
                        self.items@[p].candidate.position.id@
                            != self.items@[q].candidate.position.id@ by {
                        assert(s0[p].candidate.position.id@ != s0[q].candidate.position.id@);
                        assert(self.items@[p].candidate.position.id@
                            == s0[p].candidate.position.id@);
                        assert(self.items@[q].candidate.position.id@
                            == s0[q].candidate.position.id@);
                    }
                }
                return Ok(());
            }
            i += 1;
        }
        let candidate = LiquidationCandidate { position, mark_price, margin_ratio };
        proof {
            assert(spec_find(s0, id) == -1);
            lemma_find_from_properties(s0, id, 0);
        }
        self.items.push(QueueItem { candidate, last_attempt: now });
        proof {
            assert forall|p: int, q: int| 0 <= p < q < self.items@.len() implies
                self.items@[p].candidate.position.id@
                    != self.items@[q].candidate.position.id@ by {
                if q < s0.len() {
                    assert(s0[p].candidate.position.id@ != s0[q].candidate.position.id@);
                } else {
                    assert(self.items@[q].candidate.position.id@ == id);
                    assert(s0[p].candidate.position.id@ != id);
                }
                assert(self.items@[p] == s0[p]);
            }
        }
        Ok(())
    }

    /// Removes and returns the highest-priority candidate whose cooldown has
    /// elapsed: minimal margin ratio among eligible items, earliest index on
    /// ties. Items still in cooldown are skipped but retained. Returns `None`
    /// when every item is in cooldown.
    pub fn pop(&mut self, now: u64) -> (r: Option<LiquidationCandidate>)
        requires
            old(self).wf(),
        ensures
            final(self).wf(),
            spec_best(old(self)@, now) == -1 ==> r is None && final(self)@ == old(self)@,
            spec_best(old(self)@, now) != -1 ==> ({
                let b = spec_best(old(self)@, now);
                &&& r == Some(old(self)@[b].candidate)
                &&& final(self)@ == old(self)@.remove(b)
                &&& now - old(self)@[b].last_attempt >= COOLDOWN_MS
                &&& forall|j: int|
                    0 <= j < old(self)@.len() && #[trigger] spec_eligible(old(self)@[j], now)
                        ==> old(self)@[b].candidate.margin_ratio
                        <= old(self)@[j].candidate.margin_ratio
            }),
    {
        let ghost s0 = self.items@;
        let n = self.items.len();
        let mut best: usize = n;
        let mut i: usize = n;
        while i > 0
            invariant
                i <= n,
                best <= n,
                n == self.items@.len(),
                self.items@ == s0,
                spec_best_from(s0, now, i as int) == -1 <==> best == n,
                best < n ==> spec_best_from(s0, now, i as int) == best as int,
            decreases i,
        {
            i -= 1;
            let it_last = self.items[i].last_attempt;
            let eligible = now >= it_last && now - it_last >= COOLDOWN_MS;
            if eligible {
                if best == n {
                    best = i;
                } else if self.items[i].candidate.margin_ratio
                    <= self.items[best].candidate.margin_ratio {
                    best = i;
                }
            }
        }
        proof {
            lemma_best_from_properties(s0, now, 0);
        }
        if best == n {
            return None;
        }
        let item = self.items.remove(best);
        proof {
            s0.remove_ensures(best as int);
            assert forall|p: int, q: int| 0 <= p < q < self.items@.len() implies
                self.items@[p].candidate.position.id@
                    != self.items@[q].candidate.position.id@ by {
                let p0: int = if p < best as int { p } else { p + 1 };
                let q0: int = if q < best as int { q } else { q + 1 };
                assert(self.items@[p] == s0[p0]);
                assert(self.items@[q] == s0[q0]);
                assert(s0[p0].candidate.position.id@ != s0[q0].candidate.position.id@);
            }
        }
        Some(item.candidate)
    }

    /// A point-in-time copy of all queued candidates, most recent snapshot
    /// per position id, eligible or not. The queue is not consumed.
    pub fn snapshot(&self) -> (r: Vec<LiquidationCandidate>)
        ensures
            r@.len() == self@.len(),
            forall|i: int| 0 <= i < self@.len() ==> #[trigger] r@[i] == self@[i].candidate,
    {
        let mut out: Vec<LiquidationCandidate> = Vec::new();
        let n = self.items.len();
        let mut i: usize = 0;
        while i < n
            invariant
                i <= n,
                n == self@.len(),
                out@.len() == i,
                forall|k: int| 0 <= k < i ==> #[trigger] out@[k] == self@[k].candidate,
            decreases n - i,
        {
            out.push(self.items[i].candidate.clone());
            i += 1;
        }
        out
    }

    /// The position ids currently queued, in queue order.
    pub fn snapshot_ids(&self) -> (r: Vec<String>)
        ensures
            r@.len() == self@.len(),
            forall|i: int|
                0 <= i < self@.len() ==> #[trigger] r@[i] == self@[i].candidate.position.id,
    {
        let mut out: Vec<String> = Vec::new();
        let n = self.items.len();
        let mut i: usize = 0;
        while i < n
            invariant
                i <= n,
                n == self@.len(),
                out@.len() == i,
                forall|k: int| 0 <= k < i ==> #[trigger] out@[k] == self@[k].candidate.position.id,
            decreases n - i,
        {
            out.push(self.items[i].candidate.position.id.clone());
            i += 1;
        }
        out
    }
}

} // verus!
