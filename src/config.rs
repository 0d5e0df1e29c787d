use vstd::prelude::*;

verus! {

/// Units of position in one pixel.
pub const UNITS_PER_PIXEL: i64 = 60;

/// Simulation ticks in one second.
pub const TICKS_PER_SECOND: u64 = 60;

/// Distance, in pixels, between a paddle's centre and the side of the window.
pub const PADDLE_INSET: u32 = 64;

/// The playing field and paddle constants, in whole pixels (speed in pixels
/// per second).
#[derive(Clone, Copy, Debug, PartialEq, Eq)]
pub struct Config {
    pub window_width: u32,
    pub window_height: u32,
    pub paddle_half_height: u32,
    pub margin: u32,
    pub speed: u32,
}

impl Config {
    /// The paddles fit between the top and bottom margins.
    pub open spec fn wf(&self) -> bool {
        2 * (self.paddle_half_height + self.margin) <= self.window_height
    }

    /// Highest centre position of a paddle, in units.
    pub open spec fn max_y(&self) -> int {
        self.window_height * (UNITS_PER_PIXEL / 2) - (self.paddle_half_height + self.margin)
            * UNITS_PER_PIXEL
    }

    /// Lowest centre position of a paddle, in units.
    pub open spec fn min_y(&self) -> int {
        -self.max_y()
    }

    /// Distance a paddle moves in one tick, in units: `speed` pixels a second
    /// is `speed * UNITS_PER_PIXEL / TICKS_PER_SECOND` units a tick, which is
    /// `speed` itself.
    pub open spec fn step(&self) -> int {
        self.speed as int
    }

    /// The range of positions is never empty.
    pub proof fn lemma_bounds_ordered(&self)
        requires
            self.wf(),
        ensures
            self.min_y() <= 0 <= self.max_y(),
    {
        assert(self.window_height * 30 - (self.paddle_half_height + self.margin) * 60 >= 0)
            by (nonlinear_arith)
            requires
                2 * (self.paddle_half_height + self.margin) <= self.window_height,
        ;
    }

    /// Whether `y` is a position a paddle may hold.
    pub open spec fn in_range(&self, y: int) -> bool {
        self.min_y() <= y <= self.max_y()
    }

    /// An 800 by 600 window, paddles 64 pixels tall kept 16 pixels from the
    /// edges, moving at 400 pixels per second.
    pub fn reference() -> (r: Config)
        ensures
            r.window_width == 800,
            r.window_height == 600,
            r.paddle_half_height == 32,
            r.margin == 16,
            r.speed == 400,
            r.wf(),
    {
        Config { window_width: 800, window_height: 600, paddle_half_height: 32, margin: 16, speed: 400 }
    }

    /// Whether the paddles fit between the top and bottom margins.
    pub fn is_valid(&self) -> (r: bool)
        ensures
            r == self.wf(),
    {
        2 * (self.paddle_half_height as u64 + self.margin as u64) <= self.window_height as u64
    }

    /// `max_y` as an executable value.
    pub fn max_pos(&self) -> (r: i64)
        requires
            self.wf(),
        ensures
            r == self.max_y(),
            r >= 0,
    {
        let h = self.window_height as i64 * (UNITS_PER_PIXEL / 2);
        let inner = (self.paddle_half_height as i64 + self.margin as i64) * UNITS_PER_PIXEL;
        h - inner
    }

    /// `min_y` as an executable value.
    pub fn min_pos(&self) -> (r: i64)
        requires
            self.wf(),
        ensures
            r == self.min_y(),
            r <= 0,
    {
        -self.max_pos()
    }

    /// `step` as an executable value.
    pub fn step_units(&self) -> (r: i64)
        ensures
            r == self.step(),
            r == self.speed,
    {
        self.speed as i64
    }
}

} // verus!
