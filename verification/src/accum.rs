//! The distance accumulator: a stateful filter that coalesces many pointer
//! motion samples into sparse "distance traveled" emissions.
//!
//! Each motion sample adds one input unit; distances are held in millionths
//! of a reporting unit (`scale_micros` per sample), so a crossing of the
//! one-unit threshold is exact integer arithmetic.

use vstd::prelude::*;
use crate::decimal::MICROS_PER_UNIT;

verus! {

/// Micro-units added per motion sample by default: 0.0005 reporting units.
pub const DEFAULT_SCALE_MICROS: u64 = 500;

/// Largest admitted scale; keeps all intermediate sums far from overflow.
pub const MAX_SCALE_MICROS: u64 = 1_000_000_000_000;

/// Accumulated pointer motion since the last emission.
pub struct DistanceAccumulator {
    /// Motion samples counted since the last emission.
    pub total: u64,
    /// Micro-units of distance per motion sample.
    pub scale_micros: u64,
}

impl DistanceAccumulator {
    /// The counter stands below the emission threshold and the scale is in
    /// range; holds after construction and after every sample.
    pub open spec fn wf(self) -> bool {
        1 <= self.scale_micros <= MAX_SCALE_MICROS && (self.total as int) * (
        self.scale_micros as int) < MICROS_PER_UNIT as int
    }

    /// A fresh accumulator: nothing accumulated yet.
    pub fn new(scale_micros: u64) -> (a: DistanceAccumulator)
        requires
            1 <= scale_micros <= MAX_SCALE_MICROS,
        ensures
            a.wf(),
            a.total == 0,
            a.scale_micros == scale_micros,
    {
        DistanceAccumulator { total: 0, scale_micros }
    }

    /// Records one motion sample. Emits the distance traveled (in
    /// micro-units) exactly when the accumulated distance crosses one
    /// reporting unit, resetting the counter; otherwise only counts.
    /// The counter never goes negative and is reset exactly on emission.
    pub fn on_mouse_move(&mut self) -> (r: Option<u64>)
        requires
            old(self).wf(),
        ensures
            final(self).wf(),
            final(self).scale_micros == old(self).scale_micros,
            final(self).total >= 0,
            r is Some <==> (old(self).total + 1) * (old(self).scale_micros as int)
                >= MICROS_PER_UNIT as int,
            r matches Some(m) ==> m == (old(self).total + 1) * (old(self).scale_micros as int)
                && final(self).total == 0,
            r is None ==> final(self).total == old(self).total + 1,
    {
        proof {
            let t = old(self).total as int;
            let sc = old(self).scale_micros as int;
            assert(t < 1_000_000) by (nonlinear_arith)
                requires
                    t * sc < 1_000_000,
                    sc >= 1,
                    t >= 0,
            ;
            assert((t + 1) * sc == t * sc + sc) by (nonlinear_arith);
        }
        let moved = self.total + 1;
        let micros = moved * self.scale_micros;
        if micros >= MICROS_PER_UNIT {
            self.total = 0;
            Some(micros)
        } else {
            self.total = moved;
            None
        }
    }
}

} // verus!
