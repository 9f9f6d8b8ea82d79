//! The playing field and the fixed measures of the game.

use vstd::prelude::*;
use crate::fixed::{cells, span};

verus! {

/// Cells from a paddle's centre to either of its ends.
pub const PADDLE_HALF_WIDTH: u16 = 4;

/// Least distance, in cells, between a paddle's centre and a side of the board:
/// half a paddle and one cell more.
pub const MARGIN: u16 = 5;

/// Row of the computer's paddle, counted from the top.
pub const COMPUTER_ROW: u16 = 2;

/// The player's paddle stands this many rows above the bottom edge.
pub const PLAYER_INSET: u16 = 3;

/// Depth, in cells, of the band below the top edge (and above the bottom edge)
/// in which a paddle can return the ball.
pub const BAND: u16 = 4;

/// A paddle returns a ball whose horizontal distance from the paddle's centre
/// is below this: half a paddle and one cell of tolerance.
pub const REACH: i64 = 5_000_000;

/// Distance a paddle moves in one step.
pub const PADDLE_STEP: i64 = 2_000_000;

/// The computer leaves its paddle alone while the ball is no further than this
/// from the paddle's centre, horizontally.
pub const DEAD_ZONE: i64 = 1_000_000;

/// Speed at which the ball is launched, in units per tick: three tenths of a cell.
pub const LAUNCH_SPEED: i64 = 300_000;

/// Narrowest board on which a paddle has room between the two margins.
pub const MIN_WIDTH: u16 = 10;

/// Lowest board on which the two paddles' bands do not meet.
pub const MIN_HEIGHT: u16 = 8;

/// Size of the board in cells. Fixed when a game starts.
#[derive(Clone, Copy, Debug, PartialEq, Eq, Structural)]
pub struct Board {
    pub width: u16,
    pub height: u16,
}

/// A point of the board, or a displacement, in fixed-point units.
#[derive(Clone, Copy, Debug, PartialEq, Eq, Structural)]
pub struct Vector {
    pub x: i64,
    pub y: i64,
}

/// The mathematical value of a `Vector`.
pub struct Vec2 {
    pub x: int,
    pub y: int,
}

impl View for Vector {
    type V = Vec2;

    open spec fn view(&self) -> Vec2 {
        Vec2 { x: self.x as int, y: self.y as int }
    }
}

impl Vec2 {
    /// The square of the vector's length.
    pub open spec fn norm_squared(self) -> int {
        self.x * self.x + self.y * self.y
    }

    /// Whether the ball may be launched with this velocity: its length is
    /// `LAUNCH_SPEED`, give or take one unit.
    pub open spec fn is_launch(self) -> bool {
        let least = (LAUNCH_SPEED - 1) * (LAUNCH_SPEED - 1);
        let most = (LAUNCH_SPEED + 1) * (LAUNCH_SPEED + 1);
        least <= self.norm_squared() <= most
    }
}

impl Vector {
    /// The velocity `(x, y)`, if the ball may be launched with it.
    pub fn launch(x: i64, y: i64) -> (v: Option<Vector>)
        ensures
            v == if (Vec2 { x: x as int, y: y as int }).is_launch() {
                Some(Vector { x, y })
            } else {
                None
            },
    {
        let bound: i64 = LAUNCH_SPEED + 1;
        if x > bound || x < -bound || y > bound || y < -bound {
            proof {
                lemma_square_grows(bound as int, x as int);
                lemma_square_grows(bound as int, y as int);
            }
            return None;
        }
        proof {
            lemma_square_bounded(x as int, bound as int);
            lemma_square_bounded(y as int, bound as int);
        }
        let norm: i64 = x * x + y * y;
        if (LAUNCH_SPEED - 1) * (LAUNCH_SPEED - 1) <= norm && norm <= bound * bound {
            Some(Vector { x, y })
        } else {
            None
        }
    }
}

/// A number beyond `b` on either side has a square above `b * b`, and every
/// square is at least zero.
pub proof fn lemma_square_grows(b: int, c: int)
    requires
        b >= 0,
    ensures
        c * c >= 0,
        (c > b || c < -b) ==> c * c > b * b,
{
    assert(c * c >= 0) by (nonlinear_arith);
    assert((c > b || c < -b) ==> c * c > b * b) by (nonlinear_arith)
        requires
            b >= 0,
    ;
}

/// A number within `b` of zero has a square within `b * b`.
pub proof fn lemma_square_bounded(c: int, b: int)
    requires
        -b <= c <= b,
    ensures
        0 <= c * c <= b * b,
{
    assert(0 <= c * c <= b * b) by (nonlinear_arith)
        requires
            -b <= c <= b,
    ;
}

impl Board {
    /// A board is usable when it is at least `MIN_WIDTH` by `MIN_HEIGHT`.
    pub open spec fn wf(self) -> bool {
        self.width >= MIN_WIDTH && self.height >= MIN_HEIGHT
    }

    /// Coordinate of the right edge.
    pub open spec fn right(self) -> int {
        span(self.width as int)
    }

    /// Coordinate of the bottom edge.
    pub open spec fn bottom(self) -> int {
        span(self.height as int)
    }

    /// The point where the ball is put into play: the corner of the middle cell.
    pub open spec fn center(self) -> Vec2 {
        Vec2 { x: span(self.width as int / 2), y: span(self.height as int / 2) }
    }

    /// Least coordinate of a paddle's centre.
    pub open spec fn paddle_min(self) -> int {
        span(MARGIN as int)
    }

    /// Greatest coordinate of a paddle's centre.
    pub open spec fn paddle_max(self) -> int {
        span(self.width as int - MARGIN as int)
    }

    /// Row of the player's paddle.
    pub open spec fn player_row(self) -> int {
        self.height as int - PLAYER_INSET as int
    }

    /// A ball above this coordinate is within the top paddle's band.
    pub open spec fn top_band(self) -> int {
        span(BAND as int)
    }

    /// A ball below this coordinate is within the bottom paddle's band.
    pub open spec fn bottom_band(self) -> int {
        span(self.height as int - BAND as int)
    }

    /// `x` brought into the range that a paddle's centre may take.
    pub open spec fn clamped(self, x: int) -> int {
        if x > self.paddle_max() {
            self.paddle_max()
        } else if x < self.paddle_min() {
            self.paddle_min()
        } else {
            x
        }
    }

    /// A board of the given size, if the size is usable.
    pub fn new(width: u16, height: u16) -> (b: Option<Board>)
        ensures
            b == if width >= MIN_WIDTH && height >= MIN_HEIGHT {
                Some(Board { width, height })
            } else {
                None
            },
            b is Some ==> b->0.wf(),
    {
        if width >= MIN_WIDTH && height >= MIN_HEIGHT {
            Some(Board { width, height })
        } else {
            None
        }
    }

    /// The usual board: 135 columns by 37 rows.
    pub fn standard() -> (b: Board)
        ensures
            b == (Board { width: 135, height: 37 }),
            b.wf(),
    {
        Board { width: 135, height: 37 }
    }

    /// The point where the ball is put into play.
    pub fn get_center(&self) -> (c: Vector)
        ensures
            c@ == self.center(),
    {
        Vector { x: cells(self.width / 2), y: cells(self.height / 2) }
    }

    /// `x` brought into the range that a paddle's centre may take.
    pub fn clamp(&self, x: i64) -> (r: i64)
        requires
            self.wf(),
        ensures
            r == self.clamped(x as int),
            self.paddle_min() <= r <= self.paddle_max(),
    {
        let low: i64 = cells(MARGIN);
        let high: i64 = cells(self.width - MARGIN);
        if x > high {
            high
        } else if x < low {
            low
        } else {
            x
        }
    }
}

} // verus!
