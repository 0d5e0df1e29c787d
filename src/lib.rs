//! A two-player Pong core: paddle movement on a fixed timestep, over
//! integer fixed-point positions.
//!
//! Positions are held in sixtieths of a pixel. The simulation runs at sixty
//! ticks a second, so a speed of `S` pixels per second moves a paddle exactly
//! `S` units per tick and no rounding ever enters the arithmetic.
use vstd::prelude::*;

pub mod config;
pub mod input;
pub mod paddle;
pub mod scene;
pub mod timestep;

verus! {

/// `v` constrained to the closed interval `[lo, hi]`, saturating at the bounds.
pub open spec fn clamp(v: int, lo: int, hi: int) -> int {
    if v < lo {
        lo
    } else if v > hi {
        hi
    } else {
        v
    }
}

} // verus!
