//! The four facings of a bot and the step each one takes on the torus.

use vstd::prelude::*;
use crate::config::Config;
use crate::random::uniform;

verus! {

/// The way a bot faces.
#[derive(Clone, Copy, Debug, PartialEq, Eq, Structural)]
pub enum Direction {
    Left,
    Right,
    Up,
    Down,
}

impl Direction {
    /// The coordinate one step from `(x, y)` in this direction, on a torus of
    /// `width` by `height` cells: a step over an edge arrives at the
    /// opposite edge.
    pub open spec fn step(self, x: int, y: int, width: int, height: int) -> (int, int) {
        match self {
            Direction::Left => (if x == 0 { width - 1 } else { x - 1 }, y),
            Direction::Right => (if x == width - 1 { 0 } else { x + 1 }, y),
            Direction::Up => (x, if y == 0 { height - 1 } else { y - 1 }),
            Direction::Down => (x, if y == height - 1 { 0 } else { y + 1 }),
        }
    }

    /// This direction after a quarter turn to the left.
    pub open spec fn spec_left(self) -> Direction {
        match self {
            Direction::Down => Direction::Right,
            Direction::Right => Direction::Up,
            Direction::Up => Direction::Left,
            Direction::Left => Direction::Down,
        }
    }

    /// This direction after a quarter turn to the right.
    pub open spec fn spec_right(self) -> Direction {
        match self {
            Direction::Left => Direction::Up,
            Direction::Up => Direction::Right,
            Direction::Right => Direction::Down,
            Direction::Down => Direction::Left,
        }
    }

    /// The direction that a draw of `index` stands for. Indices past the
    /// last direction stand for the last.
    pub open spec fn spec_from_index(index: u32) -> Direction {
        if index == 0 {
            Direction::Left
        } else if index == 1 {
            Direction::Right
        } else if index == 2 {
            Direction::Up
        } else {
            Direction::Down
        }
    }

    /// Applies one step in this direction to the given coordinates, wrapping
    /// around the edges of the grid that `config` describes.
    pub fn apply_direction(&self, x: usize, y: usize, config: &Config) -> (r: (usize, usize))
        requires
            x < config.width,
            y < config.height,
        ensures
            (r.0 as int, r.1 as int) == self.step(
                x as int,
                y as int,
                config.width as int,
                config.height as int,
            ),
            r.0 < config.width,
            r.1 < config.height,
            *self == Direction::Left && x == 0 ==> r.0 == config.width - 1 && r.1 == y,
            *self == Direction::Right && x == config.width - 1 ==> r.0 == 0 && r.1 == y,
            *self == Direction::Up && y == 0 ==> r.0 == x && r.1 == config.height - 1,
            *self == Direction::Down && y == config.height - 1 ==> r.0 == x && r.1 == 0,
    {
        match self {
            Direction::Left => {
                if x == 0 {
                    (config.width - 1, y)
                } else {
                    (x - 1, y)
                }
            },
            Direction::Right => {
                if x == config.width - 1 {
                    (0, y)
                } else {
                    (x + 1, y)
                }
            },
            Direction::Up => {
                if y == 0 {
                    (x, config.height - 1)
                } else {
                    (x, y - 1)
                }
            },
            Direction::Down => {
                if y == config.height - 1 {
                    (x, 0)
                } else {
                    (x, y + 1)
                }
            },
        }
    }

    /// Rotates the direction a quarter turn to the left.
    pub fn left(&self) -> (r: Direction)
        ensures
            r == self.spec_left(),
    {
        match self {
            Direction::Down => Direction::Right,
            Direction::Right => Direction::Up,
            Direction::Up => Direction::Left,
            Direction::Left => Direction::Down,
        }
    }

    /// Rotates the direction a quarter turn to the right.
    pub fn right(&self) -> (r: Direction)
        ensures
            r == self.spec_right(),
    {
        match self {
            Direction::Left => Direction::Up,
            Direction::Up => Direction::Right,
            Direction::Right => Direction::Down,
            Direction::Down => Direction::Left,
        }
    }

    /// A direction chosen at random, each with the same chance.
    pub fn new_random() -> (r: Direction) {
        Direction::from_index(uniform(0, 4) as u32)
    }

    /// The direction that a draw of `index` stands for.
    pub fn from_index(index: u32) -> (r: Direction)
        ensures
            r == Direction::spec_from_index(index),
    {
        if index == 0 {
            Direction::Left
        } else if index == 1 {
            Direction::Right
        } else if index == 2 {
            Direction::Up
        } else {
            Direction::Down
        }
    }
}

/// A step over an edge of the grid arrives at the opposite edge, whatever
/// the other coordinate is.
pub proof fn lemma_step_wraps(x: int, y: int, width: int, height: int)
    ensures
        Direction::Left.step(0, y, width, height) == (width - 1, y),
        Direction::Right.step(width - 1, y, width, height) == (0int, y),
        Direction::Up.step(x, 0, width, height) == (x, height - 1),
        Direction::Down.step(x, height - 1, width, height) == (x, 0int),
{
}

/// A step stays on the grid, and the step in the opposite direction leads
/// back.
pub proof fn lemma_step_back(d: Direction, x: int, y: int, width: int, height: int)
    requires
        0 <= x < width,
        0 <= y < height,
    ensures
        0 <= d.step(x, y, width, height).0 < width,
        0 <= d.step(x, y, width, height).1 < height,
        d.spec_left().spec_left().step(
            d.step(x, y, width, height).0,
            d.step(x, y, width, height).1,
            width,
            height,
        ) == (x, y),
{
}

/// A left turn and a right turn undo each other, and four turns the same
/// way lead back to the start.
pub proof fn lemma_turns(d: Direction)
    ensures
        d.spec_left().spec_right() == d,
        d.spec_right().spec_left() == d,
        d.spec_left().spec_left().spec_left().spec_left() == d,
        d.spec_right().spec_right().spec_right().spec_right() == d,
        d.spec_left() != d,
        d.spec_right() != d,
{
}

/// A step is the same as adding or subtracting one modulo the size of the
/// axis it runs along; the other coordinate stays.
pub proof fn lemma_step_is_modular(d: Direction, x: int, y: int, width: int, height: int)
    requires
        0 <= x < width,
        0 <= y < height,
    ensures
        d == Direction::Left ==> d.step(x, y, width, height) == ((x + width - 1) % width, y),
        d == Direction::Right ==> d.step(x, y, width, height) == ((x + 1) % width, y),
        d == Direction::Up ==> d.step(x, y, width, height) == (x, (y + height - 1) % height),
        d == Direction::Down ==> d.step(x, y, width, height) == (x, (y + 1) % height),
{
    lemma_wrapped_sum(x, width - 1, width);
    lemma_wrapped_sum(x, 1, width);
    lemma_wrapped_sum(y, height - 1, height);
    lemma_wrapped_sum(y, 1, height);
}

/// The remainder of `a + b` by `n`, for `a` below `n` and `b` at most `n`.
proof fn lemma_wrapped_sum(a: int, b: int, n: int)
    requires
        0 <= a < n,
        0 <= b <= n,
    ensures
        (a + b) % n == if a + b < n { a + b } else { a + b - n },
{
    if a + b < n {
        vstd::arithmetic::div_mod::lemma_fundamental_div_mod_converse(a + b, n, 0, a + b);
    } else {
        vstd::arithmetic::div_mod::lemma_fundamental_div_mod_converse(a + b, n, 1, a + b - n);
    }
}

} // verus!
