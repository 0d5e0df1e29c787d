use vstd::prelude::*;

use crate::clamp;
use crate::config::{Config, UNITS_PER_PIXEL};
use crate::input::{direction, resolve, Binding, Direction, Input};

verus! {

/// Which side of the field a paddle guards.
#[derive(Clone, Copy, Debug, PartialEq, Eq, Structural)]
pub enum Side {
    Left,
    Right,
}

/// A paddle's centre, in units. `x` is fixed at creation; only `y` moves.
#[derive(Clone, Copy, Debug, PartialEq, Eq, Structural)]
pub struct Paddle {
    pub side: Side,
    pub x: i64,
    pub y: i64,
}

/// The position after one tick heading `d` from `y`.
pub open spec fn next_y(cfg: Config, y: int, d: Direction) -> int {
    clamp(y + d.sign() * cfg.step(), cfg.min_y(), cfg.max_y())
}

/// The position after `n` ticks heading `d` from `y`.
pub open spec fn after_ticks(cfg: Config, y: int, d: Direction, n: nat) -> int
    decreases n,
{
    if n == 0 {
        y
    } else {
        next_y(cfg, after_ticks(cfg, y, d, (n - 1) as nat), d)
    }
}

/// The position after one tick heading `d` from `y`, for any starting `y`.
pub fn next_position(cfg: &Config, y: i64, d: Direction) -> (r: i64)
    requires
        cfg.wf(),
    ensures
        r == next_y(*cfg, y as int, d),
        cfg.in_range(r as int),
{
    let lo = cfg.min_pos();
    let hi = cfg.max_pos();
    let s = cfg.step_units() as i128;
    let moved: i128 = match d {
        Direction::Up => y as i128 + s,
        Direction::Down => y as i128 - s,
        Direction::Idle => y as i128,
    };
    if moved < lo as i128 {
        lo
    } else if moved > hi as i128 {
        hi
    } else {
        moved as i64
    }
}

impl Paddle {
    /// Applies one tick of movement under `input`.
    pub fn update(&mut self, cfg: &Config, binding: &Binding, input: &Input)
        requires
            cfg.wf(),
        ensures
            final(self).side == old(self).side,
            final(self).x == old(self).x,
            final(self).y == next_y(
                *cfg,
                old(self).y as int,
                resolve(input.holds(binding.up), input.holds(binding.down)),
            ),
            cfg.in_range(final(self).y as int),
    {
        let d = direction(input, binding);
        self.y = next_position(cfg, self.y, d);
    }
}

/// A paddle never leaves `[min_y, max_y]`, wherever it starts and whichever way it heads.
pub proof fn lemma_next_in_range(cfg: Config, y: int, d: Direction)
    requires
        cfg.wf(),
    ensures
        cfg.min_y() <= next_y(cfg, y, d) <= cfg.max_y(),
{
    cfg.lemma_bounds_ordered();
}

/// With no key held, a paddle in range stays where it is.
pub proof fn lemma_idle_no_drift(cfg: Config, y: int)
    requires
        cfg.wf(),
        cfg.in_range(y),
    ensures
        next_y(cfg, y, resolve(false, false)) == y,
{
}

/// Holding only "up" adds one step and clamps; holding only "down" subtracts
/// one step and clamps.
pub proof fn lemma_single_key(cfg: Config, y: int)
    ensures
        next_y(cfg, y, resolve(true, false)) == clamp(y + cfg.step(), cfg.min_y(), cfg.max_y()),
        next_y(cfg, y, resolve(false, true)) == clamp(y - cfg.step(), cfg.min_y(), cfg.max_y()),
{
}

/// At the top with "up" held, a paddle stays at the top.
pub proof fn lemma_saturates_at_top(cfg: Config)
    requires
        cfg.wf(),
    ensures
        next_y(cfg, cfg.max_y(), resolve(true, false)) == cfg.max_y(),
{
    cfg.lemma_bounds_ordered();
}

/// Holding both keys moves a paddle exactly as holding "up" alone.
pub proof fn lemma_up_wins(cfg: Config, y: int)
    ensures
        next_y(cfg, y, resolve(true, true)) == next_y(cfg, y, resolve(true, false)),
{
}

/// Under the reference field (600 pixels tall, half-height 32, margin 16) a
/// paddle stays within 252 pixels of the centre line, both ways inclusive.
pub proof fn lemma_reference_bounds(cfg: Config, y: int, d: Direction)
    requires
        cfg.window_height == 600,
        cfg.paddle_half_height == 32,
        cfg.margin == 16,
    ensures
        cfg.max_y() == 252 * UNITS_PER_PIXEL,
        cfg.min_y() == -252 * UNITS_PER_PIXEL,
        -252 * UNITS_PER_PIXEL <= next_y(cfg, y, d) <= 252 * UNITS_PER_PIXEL,
{
}

/// Holding "up" for `n` ticks from a position in range climbs one step a tick
/// until the top, then stays there.
pub proof fn lemma_hold_up(cfg: Config, y: int, n: nat)
    requires
        cfg.wf(),
        cfg.in_range(y),
    ensures
        after_ticks(cfg, y, Direction::Up, n) == if y + n * cfg.step() <= cfg.max_y() {
            y + n * cfg.step()
        } else {
            cfg.max_y()
        },
    decreases n,
{
    cfg.lemma_bounds_ordered();
    if n == 0 {
        assert(n * cfg.step() == 0);
    } else {
        let m = (n - 1) as nat;
        lemma_hold_up(cfg, y, m);
        assert(y + n * cfg.step() == y + m * cfg.step() + cfg.step()) by (nonlinear_arith)
            requires
                n == m + 1,
        ;
        assert(cfg.step() >= 0);
        assert(m * cfg.step() >= 0) by (nonlinear_arith)
            requires
                cfg.step() >= 0,
        ;
    }
}

/// From the centre of the reference field at 400 pixels a second, holding
/// "up" reaches the top (252 pixels) on the 38th tick, not before, and stays
/// there on every later tick.
pub proof fn lemma_reference_climb(cfg: Config, n: nat)
    requires
        cfg.window_height == 600,
        cfg.paddle_half_height == 32,
        cfg.margin == 16,
        cfg.speed == 400,
    ensures
        after_ticks(cfg, 0, Direction::Up, 37) == 37 * 400,
        after_ticks(cfg, 0, Direction::Up, 37) < 252 * UNITS_PER_PIXEL,
        n >= 38 ==> after_ticks(cfg, 0, Direction::Up, n) == 252 * UNITS_PER_PIXEL,
{
    lemma_hold_up(cfg, 0, 37);
    lemma_hold_up(cfg, 0, n);
    if n >= 38 {
        assert(n * 400 >= 38 * 400) by (nonlinear_arith)
            requires
                n >= 38,
        ;
    }
}

} // verus!
