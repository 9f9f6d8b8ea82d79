//! What a frame shows: the score line and the cells of the paddles and the ball.

use vstd::prelude::*;
use vstd::string::StringExecFns;
use crate::fixed::{cell_index, cell_of};
use crate::board::{Board, Vec2, PADDLE_HALF_WIDTH};
use crate::model::{Game, Pad};
use crate::state::GameState;

verus! {

/// A cell of the screen.
#[derive(Clone, Copy, Debug, PartialEq, Eq, Structural)]
pub struct Cell {
    pub column: u16,
    pub row: u16,
}

/// The mathematical value of a `Cell`.
pub struct Spot {
    pub column: int,
    pub row: int,
}

impl View for Cell {
    type V = Spot;

    open spec fn view(&self) -> Spot {
        Spot { column: self.column as int, row: self.row as int }
    }
}

/// A colour of the terminal's palette.
#[derive(Clone, Copy, Debug, PartialEq, Eq, Structural)]
pub enum Paint {
    /// The terminal's own colour.
    Default,
    DarkRed,
    Red,
    DarkBlue,
    Blue,
    Grey,
}

/// A piece of text at a place of the screen, in given colours.
#[derive(Debug, PartialEq, Eq)]
pub struct Stroke {
    /// The cell of the first character.
    pub at: Cell,
    pub text: String,
    pub background: Paint,
    pub foreground: Paint,
}

/// The mathematical value of a `Stroke`.
pub struct Mark {
    pub at: Spot,
    pub text: Seq<char>,
    pub background: Paint,
    pub foreground: Paint,
}

impl View for Stroke {
    type V = Mark;

    open spec fn view(&self) -> Mark {
        Mark {
            at: self.at@,
            text: self.text@,
            background: self.background,
            foreground: self.foreground,
        }
    }
}

/// One full repaint: on a cleared screen the four strokes are painted in the
/// order of the fields, the ball last and over whatever lies under it, and then
/// the cursor is parked.
#[derive(Debug, PartialEq, Eq)]
pub struct Frame {
    /// The score line, in the top left corner.
    pub score: Stroke,
    /// The computer's paddle.
    pub computer: Stroke,
    /// The player's paddle.
    pub player: Stroke,
    /// The ball: one blank cell.
    pub ball: Stroke,
    /// Where the cursor rests: on the ball, which hides it.
    pub cursor: Cell,
}

/// The mathematical value of a `Frame`.
pub struct Picture {
    pub score: Mark,
    pub computer: Mark,
    pub player: Mark,
    pub ball: Mark,
    pub cursor: Spot,
}

impl View for Frame {
    type V = Picture;

    open spec fn view(&self) -> Picture {
        Picture {
            score: self.score@,
            computer: self.computer@,
            player: self.player@,
            ball: self.ball@,
            cursor: self.cursor@,
        }
    }
}

/// The character for the digit `d`.
pub open spec fn digit(d: int) -> char {
    if d == 0 {
        '0'
    } else if d == 1 {
        '1'
    } else if d == 2 {
        '2'
    } else if d == 3 {
        '3'
    } else if d == 4 {
        '4'
    } else if d == 5 {
        '5'
    } else if d == 6 {
        '6'
    } else if d == 7 {
        '7'
    } else if d == 8 {
        '8'
    } else {
        '9'
    }
}

/// `n` in decimal, without leading zeros.
pub open spec fn decimal(n: nat) -> Seq<char>
    decreases n,
{
    if n < 10 {
        seq![digit(n as int)]
    } else {
        decimal(n / 10).push(digit((n % 10) as int))
    }
}

/// The score line: the player's goals, then the computer's.
pub open spec fn score_text(player: nat, computer: nat) -> Seq<char> {
    decimal(player) + " You - "@ + decimal(computer) + " Cpu"@
}

/// Where a paddle's label begins: half a paddle to the left of the cell that holds
/// its centre, in its row.
pub open spec fn pad_spot(p: Pad) -> Spot {
    Spot { column: cell_index(p.x) - PADDLE_HALF_WIDTH, row: p.row }
}

/// The cell that holds the ball.
pub open spec fn ball_spot(r: Vec2) -> Spot {
    Spot { column: cell_index(r.x), row: cell_index(r.y) }
}

/// What is drawn of a game.
pub open spec fn pictured(s: Game) -> Picture {
    Picture {
        score: Mark {
            at: Spot { column: 0, row: 0 },
            text: score_text(s.player_score, s.computer_score),
            background: Paint::Default,
            foreground: Paint::Default,
        },
        computer: Mark {
            at: pad_spot(s.computer_r),
            text: "- -CPU- -"@,
            background: Paint::DarkRed,
            foreground: Paint::Red,
        },
        player: Mark {
            at: pad_spot(s.player_r),
            text: "- -YOU- -"@,
            background: Paint::DarkBlue,
            foreground: Paint::Blue,
        },
        ball: Mark {
            at: ball_spot(s.ball_r),
            text: " "@,
            background: Paint::Grey,
            foreground: Paint::Default,
        },
        cursor: ball_spot(s.ball_r),
    }
}

/// The label of the player's paddle.
pub fn player_label() -> (label: &'static str)
    ensures
        label@ == "- -YOU- -"@,
        label@.len() == 2 * PADDLE_HALF_WIDTH + 1,
{
    proof {
        reveal_strlit("- -YOU- -");
    }
    "- -YOU- -"
}

/// The label of the computer's paddle.
pub fn computer_label() -> (label: &'static str)
    ensures
        label@ == "- -CPU- -"@,
        label@.len() == 2 * PADDLE_HALF_WIDTH + 1,
{
    proof {
        reveal_strlit("- -CPU- -");
    }
    "- -CPU- -"
}

/// The one-character text of a digit.
fn digit_text(d: u64) -> (text: &'static str)
    requires
        d < 10,
    ensures
        text@ == seq![digit(d as int)],
{
    proof {
        reveal_strlit("0");
        reveal_strlit("1");
        reveal_strlit("2");
        reveal_strlit("3");
        reveal_strlit("4");
        reveal_strlit("5");
        reveal_strlit("6");
        reveal_strlit("7");
        reveal_strlit("8");
        reveal_strlit("9");
    }
    let text: &'static str = if d == 0 {
        "0"
    } else if d == 1 {
        "1"
    } else if d == 2 {
        "2"
    } else if d == 3 {
        "3"
    } else if d == 4 {
        "4"
    } else if d == 5 {
        "5"
    } else if d == 6 {
        "6"
    } else if d == 7 {
        "7"
    } else if d == 8 {
        "8"
    } else {
        "9"
    };
    assert(text@ =~= seq![digit(d as int)]);
    text
}

/// Appends `n` in decimal to `out`.
pub fn push_decimal(out: &mut String, n: u64)
    ensures
        final(out)@ == old(out)@ + decimal(n as nat),
    decreases n,
{
    if n >= 10 {
        push_decimal(out, n / 10);
    }
    out.append(digit_text(n % 10));
    assert(out@ =~= old(out)@ + decimal(n as nat));
}

/// The score line for the given goals.
pub fn score_line(player: u64, computer: u64) -> (line: String)
    ensures
        line@ == score_text(player as nat, computer as nat),
{
    let mut line: String = String::new();
    push_decimal(&mut line, player);
    line.append(" You - ");
    push_decimal(&mut line, computer);
    line.append(" Cpu");
    assert(line@ =~= score_text(player as nat, computer as nat));
    line
}

/// The frame that shows `state`. Both paddles lie wholly on the board, and the
/// ball's cell is on it or just beyond its right or bottom edge.
pub fn draw(board: &Board, state: &GameState) -> (frame: Frame)
    requires
        board.wf(),
        state@.wf(*board),
    ensures
        frame@ == pictured(state@),
        1 <= frame.computer.at.column,
        frame.computer.at.column + frame.computer.text@.len() <= board.width,
        1 <= frame.player.at.column,
        frame.player.at.column + frame.player.text@.len() <= board.width,
        frame.ball.at.column <= board.width,
        frame.ball.at.row <= board.height,
{
    let ball: Cell = Cell { column: cell_of(state.ball_r.x), row: cell_of(state.ball_r.y) };
    Frame {
        score: Stroke {
            at: Cell { column: 0, row: 0 },
            text: score_line(state.player_score, state.computer_score),
            background: Paint::Default,
            foreground: Paint::Default,
        },
        computer: Stroke {
            at: Cell {
                column: cell_of(state.computer_r.x) - PADDLE_HALF_WIDTH,
                row: state.computer_r.row,
            },
            text: String::from_str(computer_label()),
            background: Paint::DarkRed,
            foreground: Paint::Red,
        },
        player: Stroke {
            at: Cell {
                column: cell_of(state.player_r.x) - PADDLE_HALF_WIDTH,
                row: state.player_r.row,
            },
            text: String::from_str(player_label()),
            background: Paint::DarkBlue,
            foreground: Paint::Blue,
        },
        ball: Stroke {
            at: ball,
            text: String::from_str(" "),
            background: Paint::Grey,
            foreground: Paint::Default,
        },
        cursor: ball,
    }
}

} // verus!
