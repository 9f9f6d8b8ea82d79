//! The game as it runs: the state in machine integers, and the tick that changes it.

use vstd::prelude::*;
use crate::fixed::{abs_of, cells, grow, SPEED_LIMIT};
use crate::board::{
    Board, Vector, BAND, COMPUTER_ROW, DEAD_ZONE, MARGIN, PADDLE_STEP, PLAYER_INSET, REACH,
};
use crate::model::{advanced, drained, opening, pressed, updated, Game, Key, Pad};
use crate::laws::lemma_launch_within_limit;

verus! {

/// A paddle: the coordinate of its centre, and the row in which it stands.
#[derive(Clone, Copy, Debug, PartialEq, Eq, Structural)]
pub struct Paddle {
    pub x: i64,
    pub row: u16,
}

impl View for Paddle {
    type V = Pad;

    open spec fn view(&self) -> Pad {
        Pad { x: self.x as int, row: self.row as int }
    }
}

/// Everything that changes while a game runs.
#[derive(Clone, Copy, Debug, PartialEq, Eq, Structural)]
pub struct GameState {
    /// Where the ball is.
    pub ball_r: Vector,
    /// How far the ball moves in one tick.
    pub ball_v: Vector,
    /// The player's paddle, near the bottom edge.
    pub player_r: Paddle,
    /// The computer's paddle, near the top edge.
    pub computer_r: Paddle,
    /// Goals of the player.
    pub player_score: u64,
    /// Goals of the computer.
    pub computer_score: u64,
}

impl View for GameState {
    type V = Game;

    open spec fn view(&self) -> Game {
        Game {
            ball_r: self.ball_r@,
            ball_v: self.ball_v@,
            player_r: self.player_r@,
            computer_r: self.computer_r@,
            player_score: self.player_score as nat,
            computer_score: self.computer_score as nat,
        }
    }
}

/// What the caller's loop does after a tick.
#[derive(Clone, Copy, Debug, PartialEq, Eq, Structural)]
pub enum Outcome {
    /// The game goes on.
    Continue,
    /// The player asked to leave.
    QuitRequested,
}

/// What a run of keys asks of the loop: to stop if the quit key is among them.
pub open spec fn verdict(keys: Seq<Key>) -> Outcome {
    if keys.contains(Key::Quit) {
        Outcome::QuitRequested
    } else {
        Outcome::Continue
    }
}

impl GameState {
    /// A game at its start: the ball at the centre with the velocity `launch`, both
    /// paddles centred in their rows, no goals.
    pub fn new(board: &Board, launch: Vector) -> (s: GameState)
        requires
            board.wf(),
            launch@.is_launch(),
        ensures
            s@ == opening(*board, launch@),
            s@.wf(*board),
    {
        proof {
            lemma_launch_within_limit(launch@);
        }
        let center: Vector = board.get_center();
        GameState {
            ball_r: center,
            ball_v: launch,
            player_r: Paddle { x: center.x, row: board.height - PLAYER_INSET },
            computer_r: Paddle { x: center.x, row: COMPUTER_ROW },
            player_score: 0,
            computer_score: 0,
        }
    }

    /// Whether this is a state that a game on `board` passes through.
    pub fn is_valid(&self, board: &Board) -> (ok: bool)
        requires
            board.wf(),
        ensures
            ok == self@.wf(*board),
    {
        let right: i64 = cells(board.width);
        let bottom: i64 = cells(board.height);
        let low: i64 = cells(MARGIN);
        let high: i64 = cells(board.width - MARGIN);
        0 <= self.ball_r.x && self.ball_r.x <= right && 0 <= self.ball_r.y && self.ball_r.y
            <= bottom && -SPEED_LIMIT <= self.ball_v.x && self.ball_v.x <= SPEED_LIMIT
            && -SPEED_LIMIT <= self.ball_v.y && self.ball_v.y <= SPEED_LIMIT && low
            <= self.player_r.x && self.player_r.x <= high && low <= self.computer_r.x
            && self.computer_r.x <= high && self.player_r.row == board.height - PLAYER_INSET
            && self.computer_r.row == COMPUTER_ROW
    }

    /// One tick of the simulation, keys apart: the ball moves and grows faster,
    /// a side wall sends it back, a goal is credited and the ball relaunched with
    /// `launch`, or a paddle returns it, and the computer's paddle follows the ball.
    pub fn advance(&mut self, board: &Board, launch: Vector)
        requires
            board.wf(),
            old(self)@.wf(*board),
            launch@.is_launch(),
            old(self).player_score < u64::MAX,
            old(self).computer_score < u64::MAX,
        ensures
            final(self)@ == advanced(*board, old(self)@, launch@),
            final(self)@.wf(*board),
    {
        proof {
            lemma_launch_within_limit(launch@);
        }
        let right: i64 = cells(board.width);
        let bottom: i64 = cells(board.height);

        self.ball_r.x = self.ball_r.x + self.ball_v.x;
        self.ball_r.y = self.ball_r.y + self.ball_v.y;
        self.ball_v.x = grow(self.ball_v.x);
        self.ball_v.y = grow(self.ball_v.y);

        if self.ball_r.x > right {
            self.ball_r.x = right;
            self.ball_v.x = -abs_of(self.ball_v.x);
        } else if self.ball_r.x < 0 {
            self.ball_r.x = 0;
            self.ball_v.x = abs_of(self.ball_v.x);
        }

        if self.ball_r.y > bottom {
            self.ball_r = board.get_center();
            self.ball_v = launch;
            self.computer_score = self.computer_score + 1;
        } else if self.ball_r.y < 0 {
            self.ball_r = board.get_center();
            self.ball_v = launch;
            self.player_score = self.player_score + 1;
        } else if self.ball_r.y < cells(BAND) && abs_of(self.ball_r.x - self.computer_r.x)
            < REACH {
            self.ball_v.y = abs_of(self.ball_v.y);
        } else if self.ball_r.y > cells(board.height - BAND) && abs_of(
            self.ball_r.x - self.player_r.x,
        ) < REACH {
            self.ball_v.y = -abs_of(self.ball_v.y);
        }

        let gap: i64 = self.computer_r.x - self.ball_r.x;
        if gap > DEAD_ZONE {
            self.computer_r.x = self.computer_r.x - PADDLE_STEP;
        } else if gap < -DEAD_ZONE {
            self.computer_r.x = self.computer_r.x + PADDLE_STEP;
        }
        self.computer_r.x = board.clamp(self.computer_r.x);
    }

    /// One key of the player: an arrow moves the paddle a step, held between the
    /// margins; the quit key and every other key leave the state as it is.
    pub fn press(&mut self, board: &Board, key: Key) -> (outcome: Outcome)
        requires
            board.wf(),
            old(self)@.wf(*board),
        ensures
            final(self)@ == pressed(*board, old(self)@, key),
            final(self)@.wf(*board),
            outcome == (if key == Key::Quit {
                Outcome::QuitRequested
            } else {
                Outcome::Continue
            }),
            key == Key::Quit ==> *final(self) == *old(self),
    {
        match key {
            Key::Right => {
                self.player_r.x = board.clamp(self.player_r.x + PADDLE_STEP);
                Outcome::Continue
            },
            Key::Left => {
                self.player_r.x = board.clamp(self.player_r.x - PADDLE_STEP);
                Outcome::Continue
            },
            Key::Quit => Outcome::QuitRequested,
            Key::Other => Outcome::Continue,
        }
    }

    /// The keys of one tick, in the order in which they were pressed. Each arrow
    /// takes effect at once. The quit key ends the run: the keys behind it are not
    /// applied.
    pub fn drain(&mut self, board: &Board, keys: &[Key]) -> (outcome: Outcome)
        requires
            board.wf(),
            old(self)@.wf(*board),
        ensures
            final(self)@ == drained(*board, old(self)@, keys@),
            final(self)@.wf(*board),
            outcome == verdict(keys@),
    {
        let mut i: usize = 0;
        assert(keys@.subrange(0, keys@.len() as int) =~= keys@);
        while i < keys.len()
            invariant
                0 <= i <= keys.len(),
                board.wf(),
                self@.wf(*board),
                drained(*board, old(self)@, keys@) == drained(
                    *board,
                    self@,
                    keys@.subrange(i as int, keys@.len() as int),
                ),
                forall|j: int| 0 <= j < i ==> keys@[j] != Key::Quit,
            decreases keys.len() - i,
        {
            let key: Key = keys[i];
            let ghost rest = keys@.subrange(i as int, keys@.len() as int);
            assert(rest[0] == key);
            assert(rest.drop_first() =~= keys@.subrange(i as int + 1, keys@.len() as int));
            let ghost before = self@;
            let outcome: Outcome = self.press(board, key);
            if outcome == Outcome::QuitRequested {
                assert(keys@[i as int] == Key::Quit);
                assert(drained(*board, before, rest) == before);
                return outcome;
            }
            i = i + 1;
        }
        assert(keys@.subrange(i as int, keys@.len() as int).len() == 0);
        Outcome::Continue
    }

    /// One whole tick: the simulation advances, then the keys that were pressed
    /// since the last tick are applied, up to the first quit key.
    pub fn update(&mut self, board: &Board, launch: Vector, keys: &[Key]) -> (outcome: Outcome)
        requires
            board.wf(),
            old(self)@.wf(*board),
            launch@.is_launch(),
            old(self).player_score < u64::MAX,
            old(self).computer_score < u64::MAX,
        ensures
            final(self)@ == updated(*board, old(self)@, launch@, keys@),
            final(self)@.wf(*board),
            outcome == verdict(keys@),
    {
        self.advance(board, launch);
        self.drain(board, keys)
    }
}

} // verus!
