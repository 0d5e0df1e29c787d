use vstd::prelude::*;

use crate::config::{Config, PADDLE_INSET, UNITS_PER_PIXEL};
use crate::input::{resolve, Binding, Input, Key};
use crate::paddle::{after_ticks, lemma_next_in_range, next_y, Paddle, Side};

verus! {

/// The ball's centre, in units. Nothing moves it yet.
#[derive(Clone, Copy, Debug, PartialEq, Eq, Structural)]
pub struct Ball {
    pub x: i64,
    pub y: i64,
}

/// Every entity of a game: the two paddles and the ball.
#[derive(Clone, Copy, Debug, PartialEq, Eq, Structural)]
pub struct Scene {
    pub left: Paddle,
    pub right: Paddle,
    pub ball: Ball,
}

/// The direction the left player's keys give in `input`.
pub open spec fn left_heading(input: Input) -> crate::input::Direction {
    resolve(input.holds(Key::A), input.holds(Key::D))
}

/// The direction the right player's keys give in `input`.
pub open spec fn right_heading(input: Input) -> crate::input::Direction {
    resolve(input.holds(Key::Left), input.holds(Key::Right))
}

impl Scene {
    /// Each paddle is on its own side and in range.
    pub open spec fn wf(&self, cfg: Config) -> bool {
        &&& self.left.side == Side::Left
        &&& self.right.side == Side::Right
        &&& cfg.in_range(self.left.y as int)
        &&& cfg.in_range(self.right.y as int)
    }

    /// This scene after the left paddle's update under `input`.
    pub open spec fn moved_left(self, cfg: Config, input: Input) -> Scene {
        Scene {
            left: Paddle {
                side: self.left.side,
                x: self.left.x,
                y: next_y(cfg, self.left.y as int, left_heading(input)) as i64,
            },
            right: self.right,
            ball: self.ball,
        }
    }

    /// This scene after the right paddle's update under `input`.
    pub open spec fn moved_right(self, cfg: Config, input: Input) -> Scene {
        Scene {
            left: self.left,
            right: Paddle {
                side: self.right.side,
                x: self.right.x,
                y: next_y(cfg, self.right.y as int, right_heading(input)) as i64,
            },
            ball: self.ball,
        }
    }

    /// This scene after one tick: the left paddle moves, then the right one.
    pub open spec fn ticked(self, cfg: Config, input: Input) -> Scene {
        self.moved_left(cfg, input).moved_right(cfg, input)
    }

    /// This scene after `n` ticks under an unchanging `input`.
    pub open spec fn ticked_n(self, cfg: Config, input: Input, n: nat) -> Scene
        decreases n,
    {
        if n == 0 {
            self
        } else {
            self.ticked_n(cfg, input, (n - 1) as nat).ticked(cfg, input)
        }
    }

    /// The starting scene: both paddles on the centre line, `PADDLE_INSET`
    /// pixels in from their sides, and the ball at the origin.
    pub fn setup(cfg: &Config) -> (r: Scene)
        requires
            cfg.wf(),
        ensures
            r.wf(*cfg),
            r.left.x == -(cfg.window_width * (UNITS_PER_PIXEL / 2)) + PADDLE_INSET
                * UNITS_PER_PIXEL,
            r.right.x == cfg.window_width * (UNITS_PER_PIXEL / 2) - PADDLE_INSET
                * UNITS_PER_PIXEL,
            r.left.y == 0,
            r.right.y == 0,
            r.ball == (Ball { x: 0, y: 0 }),
    {
        proof {
            cfg.lemma_bounds_ordered();
        }
        let half_width = cfg.window_width as i64 * (UNITS_PER_PIXEL / 2);
        let inset = PADDLE_INSET as i64 * UNITS_PER_PIXEL;
        Scene {
            left: Paddle { side: Side::Left, x: inset - half_width, y: 0 },
            right: Paddle { side: Side::Right, x: half_width - inset, y: 0 },
            ball: Ball { x: 0, y: 0 },
        }
    }

    /// Moves the left paddle one tick under `input`.
    pub fn update_left(&mut self, cfg: &Config, input: &Input)
        requires
            cfg.wf(),
        ensures
            *final(self) == old(self).moved_left(*cfg, *input),
            old(self).wf(*cfg) ==> final(self).wf(*cfg),
    {
        let binding = Binding::left_player();
        self.left.update(cfg, &binding, input);
    }

    /// Moves the right paddle one tick under `input`.
    pub fn update_right(&mut self, cfg: &Config, input: &Input)
        requires
            cfg.wf(),
        ensures
            *final(self) == old(self).moved_right(*cfg, *input),
            old(self).wf(*cfg) ==> final(self).wf(*cfg),
    {
        let binding = Binding::right_player();
        self.right.update(cfg, &binding, input);
    }

    /// Runs one tick: the left paddle's update, then the right one's.
    pub fn tick(&mut self, cfg: &Config, input: &Input)
        requires
            cfg.wf(),
        ensures
            *final(self) == old(self).ticked(*cfg, *input),
            old(self).wf(*cfg) ==> final(self).wf(*cfg),
    {
        self.update_left(cfg, input);
        self.update_right(cfg, input);
    }

    /// Runs `n` ticks under an unchanging `input`.
    pub fn run_ticks(&mut self, cfg: &Config, input: &Input, n: u64)
        requires
            cfg.wf(),
        ensures
            *final(self) == old(self).ticked_n(*cfg, *input, n as nat),
            old(self).wf(*cfg) ==> final(self).wf(*cfg),
    {
        let mut i: u64 = 0;
        while i < n
            invariant
                cfg.wf(),
                i <= n,
                *self == old(self).ticked_n(*cfg, *input, i as nat),
                old(self).wf(*cfg) ==> self.wf(*cfg),
            decreases n - i,
        {
            self.tick(cfg, input);
            i = i + 1;
        }
    }
}

/// The two paddle updates of a tick commute: running the right one first
/// gives the same scene.
pub proof fn lemma_update_order(s: Scene, cfg: Config, input: Input)
    ensures
        s.moved_left(cfg, input).moved_right(cfg, input) == s.moved_right(cfg, input).moved_left(
            cfg,
            input,
        ),
{
}

/// Over `n` ticks of a well-formed scene each paddle follows its own heading
/// alone, and the ball stays put.
pub proof fn lemma_ticks_per_paddle(s: Scene, cfg: Config, input: Input, n: nat)
    requires
        cfg.wf(),
        s.wf(cfg),
    ensures
        s.ticked_n(cfg, input, n).wf(cfg),
        s.ticked_n(cfg, input, n).left.y == after_ticks(cfg, s.left.y as int, left_heading(input), n),
        s.ticked_n(cfg, input, n).right.y == after_ticks(cfg, s.right.y as int, right_heading(input), n),
        s.ticked_n(cfg, input, n).left.x == s.left.x,
        s.ticked_n(cfg, input, n).right.x == s.right.x,
        s.ticked_n(cfg, input, n).ball == s.ball,
    decreases n,
{
    if n > 0 {
        let m = (n - 1) as nat;
        lemma_ticks_per_paddle(s, cfg, input, m);
        let p = s.ticked_n(cfg, input, m);
        lemma_next_in_range(cfg, p.left.y as int, left_heading(input));
        lemma_next_in_range(cfg, p.right.y as int, right_heading(input));
        cfg.lemma_bounds_ordered();
    }
}

} // verus!
