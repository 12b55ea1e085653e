//! Position source.
//!
//! Enumerates the currently open positions. The monitor treats each call as
//! a fresh snapshot; no invariant is assumed across calls.

use vstd::prelude::*;

use crate::errors::LiquidationError;
use crate::models::Position;

verus! {

/// The positions of `s` that are not closed, in order.
pub open spec fn spec_open_positions(s: Seq<Position>) -> Seq<Position>
    decreases s.len(),
{
    if s.len() == 0 {
        Seq::empty()
    } else {
        let prefix = spec_open_positions(s.drop_last());
        if s.last().closed {
            prefix
        } else {
            prefix.push(s.last())
        }
    }
}

/// Holds the known positions and serves the open ones to the monitor.
pub struct PositionManager {
    positions: Vec<Position>,
}

impl View for PositionManager {
    type V = Seq<Position>;

    closed spec fn view(&self) -> Seq<Position> {
        self.positions@
    }
}

impl PositionManager {
    /// A source with no positions yet.
    pub fn new() -> (r: Self)
        ensures
            r@ == Seq::<Position>::empty(),
    {
        PositionManager { positions: Vec::new() }
    }

    /// Registers a position with the source.
    pub fn add_position(&mut self, position: Position)
        ensures
            final(self)@ == old(self)@.push(position),
    {
        self.positions.push(position);
    }

    /// All positions not marked closed, in registration order.
    pub fn get_open_positions(&self) -> (r: Result<Vec<Position>, LiquidationError>)
        ensures
            r matches Ok(v) && v@ == spec_open_positions(self@),
    {
        let mut out: Vec<Position> = Vec::new();
        let n = self.positions.len();
        let mut i: usize = 0;
        while i < n
            invariant
                i <= n,
                n == self@.len(),
                out@ == spec_open_positions(self@.take(i as int)),
            decreases n - i,
        {
            proof {
                assert(self@.take(i + 1).drop_last() =~= self@.take(i as int));
                assert(self@.take(i + 1).last() == self@[i as int]);
            }
            if !self.positions[i].closed {
                out.push(self.positions[i].clone());
            }
            i += 1;
        }
        proof {
            assert(self@.take(n as int) =~= self@);
        }
        Ok(out)
    }
}

} // verus!
