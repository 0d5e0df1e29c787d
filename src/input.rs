use vstd::prelude::*;

verus! {

/// The keys that steer the paddles.
#[derive(Clone, Copy, Debug, PartialEq, Eq, Structural)]
pub enum Key {
    A,
    D,
    Left,
    Right,
}

/// A snapshot of which steering keys are held down during one tick.
#[derive(Clone, Copy, Debug, PartialEq, Eq, Structural)]
pub struct Input {
    pub a: bool,
    pub d: bool,
    pub left: bool,
    pub right: bool,
}

impl Input {
    /// Whether `k` is held in this snapshot.
    pub open spec fn holds(&self, k: Key) -> bool {
        match k {
            Key::A => self.a,
            Key::D => self.d,
            Key::Left => self.left,
            Key::Right => self.right,
        }
    }

    /// A snapshot with no key held.
    pub fn released() -> (r: Input)
        ensures
            forall|k: Key| !#[trigger] r.holds(k),
    {
        Input { a: false, d: false, left: false, right: false }
    }

    /// Whether `k` is held.
    pub fn pressed(&self, k: Key) -> (r: bool)
        ensures
            r == self.holds(k),
    {
        match k {
            Key::A => self.a,
            Key::D => self.d,
            Key::Left => self.left,
            Key::Right => self.right,
        }
    }
}

/// Which key moves a paddle up and which moves it down.
#[derive(Clone, Copy, Debug, PartialEq, Eq, Structural)]
pub struct Binding {
    pub up: Key,
    pub down: Key,
}

impl Binding {
    /// The left player steers with `A` (up) and `D` (down).
    pub fn left_player() -> (r: Binding)
        ensures
            r.up == Key::A,
            r.down == Key::D,
    {
        Binding { up: Key::A, down: Key::D }
    }

    /// The right player steers with the left arrow (up) and the right arrow (down).
    pub fn right_player() -> (r: Binding)
        ensures
            r.up == Key::Left,
            r.down == Key::Right,
    {
        Binding { up: Key::Left, down: Key::Right }
    }
}

/// Where a paddle heads during one tick.
#[derive(Clone, Copy, Debug, PartialEq, Eq, Structural)]
pub enum Direction {
    Up,
    Down,
    Idle,
}

impl Direction {
    /// The sign of the displacement: `+1`, `-1` or `0`.
    pub open spec fn sign(self) -> int {
        match self {
            Direction::Up => 1,
            Direction::Down => -1,
            Direction::Idle => 0,
        }
    }
}

/// "Up" wins over "down" when both are held.
pub open spec fn resolve(up: bool, down: bool) -> Direction {
    if up {
        Direction::Up
    } else if down {
        Direction::Down
    } else {
        Direction::Idle
    }
}

/// The direction that `input` gives a paddle steered by `binding`.
pub fn direction(input: &Input, binding: &Binding) -> (r: Direction)
    ensures
        r == resolve(input.holds(binding.up), input.holds(binding.down)),
{
    if input.pressed(binding.up) {
        Direction::Up
    } else if input.pressed(binding.down) {
        Direction::Down
    } else {
        Direction::Idle
    }
}

} // verus!
