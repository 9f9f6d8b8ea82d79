//! The rules of the game as functions on a mathematical state.
//!
//! A tick moves the ball, lets it grow faster, resolves walls, goals and paddles,
//! steers the computer's paddle, and then applies the player's keys in the order
//! in which they were pressed.

use vstd::prelude::*;
use crate::fixed::{grown, magnitude, SPEED_LIMIT};
use crate::board::{Board, Vec2, COMPUTER_ROW, DEAD_ZONE, PADDLE_STEP, REACH};

verus! {

/// A key that the player pressed.
#[derive(Clone, Copy, Debug, PartialEq, Eq, Structural)]
pub enum Key {
    /// Left arrow: the player's paddle moves one step to the left.
    Left,
    /// Right arrow: the player's paddle moves one step to the right.
    Right,
    /// The quit key: the game ends at once.
    Quit,
    /// Any other key: nothing happens.
    Other,
}

/// The character that stands for the quit key.
pub const QUIT_CHAR: char = 'c';

impl Key {
    /// The key that a typed character stands for: `QUIT_CHAR` asks to quit, and
    /// no other character means anything.
    pub fn from_char(c: char) -> (key: Key)
        ensures
            key == if c == QUIT_CHAR {
                Key::Quit
            } else {
                Key::Other
            },
    {
        if c == QUIT_CHAR {
            Key::Quit
        } else {
            Key::Other
        }
    }
}

/// Who is credited with a goal.
#[derive(Clone, Copy, Debug, PartialEq, Eq, Structural)]
pub enum Side {
    /// The player, who defends the bottom edge.
    Player,
    /// The computer, which defends the top edge.
    Computer,
}

/// The mathematical value of a paddle: the coordinate of its centre and its row.
pub struct Pad {
    pub x: int,
    pub row: int,
}

/// The mathematical value of a game.
pub struct Game {
    pub ball_r: Vec2,
    pub ball_v: Vec2,
    pub player_r: Pad,
    pub computer_r: Pad,
    pub player_score: nat,
    pub computer_score: nat,
}

impl Vec2 {
    /// Whether both components are within the speed limit.
    pub open spec fn within_speed_limit(self) -> bool {
        magnitude(self.x) <= SPEED_LIMIT && magnitude(self.y) <= SPEED_LIMIT
    }
}

impl Game {
    /// The states that a game on `board` passes through: the ball on the board,
    /// its velocity within the speed limit, each paddle in its row and between
    /// the margins.
    pub open spec fn wf(self, board: Board) -> bool {
        &&& 0 <= self.ball_r.x <= board.right()
        &&& 0 <= self.ball_r.y <= board.bottom()
        &&& self.ball_v.within_speed_limit()
        &&& self.paddles_within(board)
        &&& self.player_r.row == board.player_row()
        &&& self.computer_r.row == COMPUTER_ROW
    }

    /// Whether the centre of each paddle lies between the margins of `board`.
    pub open spec fn paddles_within(self, board: Board) -> bool {
        &&& board.paddle_min() <= self.player_r.x <= board.paddle_max()
        &&& board.paddle_min() <= self.computer_r.x <= board.paddle_max()
    }
}

/// The state in which a game on `board` starts: the ball at the centre with the
/// velocity `launch`, both paddles centred, no goals yet.
pub open spec fn opening(board: Board, launch: Vec2) -> Game {
    Game {
        ball_r: board.center(),
        ball_v: launch,
        player_r: Pad { x: board.center().x, row: board.player_row() },
        computer_r: Pad { x: board.center().x, row: COMPUTER_ROW as int },
        player_score: 0,
        computer_score: 0,
    }
}

/// The ball moves by its velocity, and then both components of the velocity grow.
pub open spec fn drifted(s: Game) -> Game {
    Game {
        ball_r: Vec2 { x: s.ball_r.x + s.ball_v.x, y: s.ball_r.y + s.ball_v.y },
        ball_v: Vec2 { x: grown(s.ball_v.x), y: grown(s.ball_v.y) },
        ..s
    }
}

/// A ball beyond a side wall is put back on the wall and sent inward, at the speed
/// it had. Nothing else changes.
pub open spec fn walled(board: Board, s: Game) -> Game {
    if s.ball_r.x > board.right() {
        Game {
            ball_r: Vec2 { x: board.right(), y: s.ball_r.y },
            ball_v: Vec2 { x: -magnitude(s.ball_v.x), y: s.ball_v.y },
            ..s
        }
    } else if s.ball_r.x < 0 {
        Game {
            ball_r: Vec2 { x: 0, y: s.ball_r.y },
            ball_v: Vec2 { x: magnitude(s.ball_v.x), y: s.ball_v.y },
            ..s
        }
    } else {
        s
    }
}

/// Who scores, if the ball has left the board: past the bottom edge the computer,
/// past the top edge the player.
pub open spec fn goal(board: Board, s: Game) -> Option<Side> {
    if s.ball_r.y > board.bottom() {
        Some(Side::Computer)
    } else if s.ball_r.y < 0 {
        Some(Side::Player)
    } else {
        None
    }
}

/// Whether the computer's paddle returns the ball: the ball is in the top band and
/// within reach of the paddle's centre.
pub open spec fn meets_computer(board: Board, s: Game) -> bool {
    s.ball_r.y < board.top_band() && magnitude(s.ball_r.x - s.computer_r.x) < REACH
}

/// Whether the player's paddle returns the ball: the ball is in the bottom band,
/// within reach of the paddle's centre, and the computer's paddle does not return it.
pub open spec fn meets_player(board: Board, s: Game) -> bool {
    !meets_computer(board, s) && s.ball_r.y > board.bottom_band() && magnitude(
        s.ball_r.x - s.player_r.x,
    ) < REACH
}

/// A goal is credited and the ball put back at the centre with the velocity
/// `launch`; or else a paddle that the ball meets sends it away from its edge, at
/// the speed it had. A goal comes before a paddle.
pub open spec fn resolved(board: Board, s: Game, launch: Vec2) -> Game {
    match goal(board, s) {
        Some(Side::Computer) => Game {
            ball_r: board.center(),
            ball_v: launch,
            computer_score: s.computer_score + 1,
            ..s
        },
        Some(Side::Player) => Game {
            ball_r: board.center(),
            ball_v: launch,
            player_score: s.player_score + 1,
            ..s
        },
        None => if meets_computer(board, s) {
            Game { ball_v: Vec2 { x: s.ball_v.x, y: magnitude(s.ball_v.y) }, ..s }
        } else if meets_player(board, s) {
            Game { ball_v: Vec2 { x: s.ball_v.x, y: -magnitude(s.ball_v.y) }, ..s }
        } else {
            s
        },
    }
}

/// Where the computer's paddle goes when the ball is at `ball_x`: one step toward
/// the ball unless the ball is within the dead zone, and never beyond the margins.
pub open spec fn pursued(board: Board, x: int, ball_x: int) -> int {
    board.clamped(
        if x - ball_x > DEAD_ZONE {
            x - PADDLE_STEP
        } else if x - ball_x < -DEAD_ZONE {
            x + PADDLE_STEP
        } else {
            x
        },
    )
}

/// The computer's paddle follows the ball.
pub open spec fn steered(board: Board, s: Game) -> Game {
    Game {
        computer_r: Pad { x: pursued(board, s.computer_r.x, s.ball_r.x), row: s.computer_r.row },
        ..s
    }
}

/// One tick of the simulation before any key is applied.
pub open spec fn advanced(board: Board, s: Game, launch: Vec2) -> Game {
    steered(board, resolved(board, walled(board, drifted(s)), launch))
}

/// Where the player's paddle goes on `key`.
pub open spec fn nudged(board: Board, x: int, key: Key) -> int {
    match key {
        Key::Right => board.clamped(x + PADDLE_STEP),
        Key::Left => board.clamped(x - PADDLE_STEP),
        _ => x,
    }
}

/// The state after one key.
pub open spec fn pressed(board: Board, s: Game, key: Key) -> Game {
    Game { player_r: Pad { x: nudged(board, s.player_r.x, key), row: s.player_r.row }, ..s }
}

/// The state after the keys of one tick, applied in order up to the first quit
/// key. What follows a quit key changes nothing.
pub open spec fn drained(board: Board, s: Game, keys: Seq<Key>) -> Game
    decreases keys.len(),
{
    if keys.len() == 0 || keys[0] == Key::Quit {
        s
    } else {
        drained(board, pressed(board, s, keys[0]), keys.drop_first())
    }
}

/// One whole tick: the simulation advances, then the keys are applied.
pub open spec fn updated(board: Board, s: Game, launch: Vec2, keys: Seq<Key>) -> Game {
    drained(board, advanced(board, s, launch), keys)
}

/// Whether the rally goes on through the tick that starts in `s`: the ball's move
/// takes it past neither goal line.
pub open spec fn rally(board: Board, s: Game) -> bool {
    goal(board, walled(board, drifted(s))) is None
}

/// What the caller supplies for one tick: the velocity with which the ball is
/// relaunched if a goal falls, and the keys pressed since the last tick.
pub struct TickInput {
    pub launch: Vec2,
    pub keys: Seq<Key>,
}

/// The state after the ticks `ticks`, one after the other, from `s`.
pub open spec fn played(board: Board, s: Game, ticks: Seq<TickInput>) -> Game
    decreases ticks.len(),
{
    if ticks.len() == 0 {
        s
    } else {
        updated(
            board,
            played(board, s, ticks.drop_last()),
            ticks.last().launch,
            ticks.last().keys,
        )
    }
}

} // verus!
