//! Liquidation executor.
//!
//! Drains the priority queue under the cooldown discipline and hands the
//! popped candidates to the caller, which submits each settlement
//! instruction. The drain is best-effort: a failed submission is the
//! caller's concern and never un-pops a candidate.

use vstd::prelude::*;

use crate::models::LiquidationCandidate;
use crate::queue::{spec_drain, LiquidationQueue};

verus! {

/// Turns drained queue candidates into settlement submissions.
pub struct LiquidationExecutor {}

impl LiquidationExecutor {
    /// An executor; it keeps no state of its own.
    pub fn new() -> (r: Self) {
        LiquidationExecutor {  }
    }

    /// Pops every candidate whose cooldown has elapsed at `now`, highest
    /// priority first, and returns them in pop order for submission. Items
    /// still in cooldown stay queued.
    pub fn drain_queue(&self, queue: &mut LiquidationQueue, now: u64) -> (r: Vec<
        LiquidationCandidate,
    >)
        requires
            old(queue).wf(),
        ensures
            final(queue).wf(),
            final(queue)@ == spec_drain(old(queue)@, now).0,
            r@ == spec_drain(old(queue)@, now).1,
    {
        let mut out: Vec<LiquidationCandidate> = Vec::new();
        loop
            invariant
                queue.wf(),
                spec_drain(old(queue)@, now).0 == spec_drain(queue@, now).0,
                spec_drain(old(queue)@, now).1 == out@ + spec_drain(queue@, now).1,
            decreases queue@.len(),
        {
            let ghost before = queue@;
            match queue.pop(now) {
                Some(candidate) => {
                    out.push(candidate);
                    proof {
                        let b = crate::queue::spec_best(before, now);
                        crate::queue::lemma_best_from_properties(before, now, 0);
                        assert(out@ =~= out@.drop_last() + seq![before[b].candidate]);
                        assert(out@.drop_last() + (seq![before[b].candidate] + spec_drain(
                            before.remove(b),
                            now,
                        ).1) =~= out@ + spec_drain(before.remove(b), now).1);
                    }
                },
                None => {
                    proof {
                        assert(out@ + spec_drain(queue@, now).1 =~= out@);
                    }
                    return out;
                },
            }
        }
    }
}

} // verus!
