use vstd::prelude::*;

verus! {

/// Length of one tick in time units. A time unit is a sixtieth of a
/// nanosecond, so that a tick of a sixtieth of a second is a whole number.
pub const TICK_LENGTH: u64 = 1_000_000_000;

/// Accumulates elapsed time and hands out whole ticks of `step` time units,
/// carrying the remainder over to the next call.
#[derive(Clone, Copy, Debug, PartialEq, Eq, Structural)]
pub struct FixedTimestep {
    pub step: u64,
    pub accumulated: u64,
}

impl FixedTimestep {
    /// The step is positive and less than one step of time is pending.
    pub open spec fn wf(&self) -> bool {
        0 < self.step && self.accumulated < self.step
    }

    /// An accumulator of ticks `step` time units long, with nothing pending.
    pub fn new(step: u64) -> (r: FixedTimestep)
        requires
            step > 0,
        ensures
            r.wf(),
            r.step == step,
            r.accumulated == 0,
    {
        FixedTimestep { step, accumulated: 0 }
    }

    /// Adds `elapsed` time units and returns how many whole ticks are due;
    /// what is left over stays pending.
    pub fn advance(&mut self, elapsed: u64) -> (ticks: u64)
        requires
            old(self).wf(),
        ensures
            final(self).wf(),
            final(self).step == old(self).step,
            ticks == (old(self).accumulated + elapsed) / (old(self).step as int),
            final(self).accumulated == (old(self).accumulated + elapsed) % (old(self).step as int),
    {
        let step = self.step;
        let total: u128 = self.accumulated as u128 + elapsed as u128;
        let q: u128 = total / (step as u128);
        let rem: u128 = total % (step as u128);
        proof {
            let t = total as int;
            let s = step as int;
            if s == 1 {
                assert(t / s == t) by (nonlinear_arith)
                    requires
                        s == 1,
                ;
            } else {
                assert(t / s <= t / 2) by (nonlinear_arith)
                    requires
                        s >= 2,
                        t >= 0,
                ;
            }
        }
        self.accumulated = rem as u64;
        q as u64
    }
}

} // verus!
