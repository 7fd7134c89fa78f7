//! A player's paddle: where it stands and how input moves it.

use vstd::prelude::*;
use crate::config::{PADDLE_THICKNESS, PADDLE_WIDTH, SCREEN_HEIGHT, SCREEN_WIDTH};
use crate::fixed::{pixels, round_to_pixel, UNIT};

verus! {

/// A side of the screen.
#[derive(Clone, Copy, Debug, PartialEq, Eq, Structural)]
pub enum End {
    Left,
    Right,
}

/// What one frame's input asks of a paddle.
#[derive(Clone, Copy, Debug, PartialEq, Eq, Structural)]
pub enum PaddleMove {
    Left,
    Right,
    Stay,
}

/// An axis-parallel rectangle in whole pixels, given by its top-left and
/// bottom-right corners; the origin is the display's top-left corner.
#[derive(Clone, Copy, Debug, PartialEq, Eq, Structural)]
pub struct Rectangle {
    pub left: i32,
    pub top: i32,
    pub right: i32,
    pub bottom: i32,
}

/// A player: the top edge of the paddle and the side it defends.
#[derive(Clone, Copy, Debug, PartialEq, Eq)]
pub struct Player {
    /// Top edge of the paddle, in fixed-point units.
    pub paddle_position: i64,
    /// The side of the screen the paddle stands at.
    pub end: End,
}

/// The lowest position a paddle's top edge can take, in fixed-point units:
/// one pixel short of touching the bottom.
pub open spec fn paddle_limit() -> int {
    (SCREEN_HEIGHT - PADDLE_WIDTH - 1) * UNIT
}

/// The movement that the levels of a player's two input lines ask for. Each
/// reading says whether the line is low, or is an error. Exactly one line low
/// moves the paddle; anything else, a failed reading included, leaves it.
pub open spec fn requested_move(first_low: Result<bool, ()>, second_low: Result<bool, ()>)
    -> PaddleMove {
    if first_low == Ok::<bool, ()>(true) && second_low == Ok::<bool, ()>(false) {
        PaddleMove::Left
    } else if first_low == Ok::<bool, ()>(false) && second_low == Ok::<bool, ()>(true) {
        PaddleMove::Right
    } else {
        PaddleMove::Stay
    }
}

/// Decides a paddle's movement from one reading of its two input lines.
pub fn read_move(first_low: Result<bool, ()>, second_low: Result<bool, ()>) -> (m: PaddleMove)
    ensures
        m == requested_move(first_low, second_low),
{
    match (first_low, second_low) {
        (Ok(true), Ok(false)) => PaddleMove::Left,
        (Ok(false), Ok(true)) => PaddleMove::Right,
        _ => PaddleMove::Stay,
    }
}

impl End {
    /// The column of the left edge of the paddle at this end, in pixels.
    pub open spec fn paddle_column(self) -> int {
        match self {
            End::Left => 0,
            End::Right => SCREEN_WIDTH - PADDLE_THICKNESS,
        }
    }
}

impl Player {
    /// The paddle lies within the screen: its top edge is in `[0, paddle_limit()]`.
    pub open spec fn wf(self) -> bool {
        0 <= self.paddle_position <= paddle_limit()
    }

    /// The paddle one pixel toward the top, stopping at the top.
    pub open spec fn moved_left(self) -> Player {
        Player {
            paddle_position: if self.paddle_position - UNIT < 0 {
                0i64
            } else {
                (self.paddle_position - UNIT) as i64
            },
            end: self.end,
        }
    }

    /// The paddle one pixel toward the bottom, stopping at `paddle_limit()`.
    pub open spec fn moved_right(self) -> Player {
        Player {
            paddle_position: if self.paddle_position + UNIT > paddle_limit() {
                paddle_limit() as i64
            } else {
                (self.paddle_position + UNIT) as i64
            },
            end: self.end,
        }
    }

    /// The paddle after one frame's input.
    pub open spec fn moved(self, m: PaddleMove) -> Player {
        match m {
            PaddleMove::Left => self.moved_left(),
            PaddleMove::Right => self.moved_right(),
            PaddleMove::Stay => self,
        }
    }

    /// The rectangle that the paddle covers on the display.
    pub open spec fn shape(self) -> Rectangle {
        Rectangle {
            left: self.end.paddle_column() as i32,
            top: (self.paddle_position / UNIT) as i32,
            right: (self.end.paddle_column() + PADDLE_THICKNESS) as i32,
            bottom: (round_to_pixel(self.paddle_position as int) + PADDLE_WIDTH) as i32,
        }
    }

    /// Tells whether the paddle lies within the screen.
    pub fn is_valid(&self) -> (r: bool)
        ensures
            r == self.wf(),
    {
        0 <= self.paddle_position && self.paddle_position <= pixels(
            SCREEN_HEIGHT - PADDLE_WIDTH - 1,
        )
    }

    /// A player at `end` with the paddle at the top of the screen.
    pub fn new(end: End) -> (p: Player)
        ensures
            p == (Player { paddle_position: 0, end }),
            p.wf(),
    {
        Player { paddle_position: 0, end }
    }

    /// Moves the paddle one pixel toward the top; at the top it stays.
    pub fn move_paddle_left(&mut self)
        requires
            old(self).wf(),
        ensures
            *final(self) == old(self).moved_left(),
            final(self).wf(),
            final(self).paddle_position >= 0,
    {
        let new_position: i64 = self.paddle_position - UNIT;
        self.paddle_position = if new_position < 0 {
            0
        } else {
            new_position
        };
    }

    /// Moves the paddle one pixel toward the bottom; at the limit it stays.
    pub fn move_paddle_right(&mut self)
        requires
            old(self).wf(),
        ensures
            *final(self) == old(self).moved_right(),
            final(self).wf(),
            final(self).paddle_position <= paddle_limit(),
    {
        let new_position: i64 = self.paddle_position + UNIT;
        let limit: i64 = pixels(SCREEN_HEIGHT - PADDLE_WIDTH - 1);
        self.paddle_position = if new_position > limit {
            limit
        } else {
            new_position
        };
    }

    /// Applies one frame's input to the paddle.
    pub fn steer(&mut self, m: PaddleMove)
        requires
            old(self).wf(),
        ensures
            *final(self) == old(self).moved(m),
            final(self).wf(),
    {
        match m {
            PaddleMove::Left => self.move_paddle_left(),
            PaddleMove::Right => self.move_paddle_right(),
            PaddleMove::Stay => {},
        }
    }

    /// The rectangle to draw for the paddle: from its top-left corner, the
    /// top edge rounded down to a pixel, to its bottom-right corner, the top
    /// edge rounded to the nearest pixel plus the paddle's length.
    pub fn paddle_drawable(&self) -> (r: Rectangle)
        requires
            self.wf(),
        ensures
            r == self.shape(),
    {
        let x: i32 = match self.end {
            End::Left => 0,
            End::Right => SCREEN_WIDTH as i32 - PADDLE_THICKNESS as i32,
        };
        let top: i64 = self.paddle_position / UNIT;
        let nearest: i64 = (self.paddle_position + UNIT / 2) / UNIT;
        Rectangle {
            left: x,
            top: top as i32,
            right: x + PADDLE_THICKNESS as i32,
            bottom: nearest as i32 + PADDLE_WIDTH as i32,
        }
    }
}

} // verus!
