//! What holds of every game: theorems about the rules.

use vstd::prelude::*;
use vstd::arithmetic::power::pow;
use crate::fixed::{
    grown, magnitude, scaled_up, GROWTH_DENOMINATOR, GROWTH_NUMERATOR, SPEED_LIMIT,
};
use crate::board::{lemma_square_grows, Board, Vec2, LAUNCH_SPEED, PADDLE_STEP};
use crate::model::{
    advanced, drained, drifted, goal, meets_computer, meets_player, played, pressed, rally,
    updated, walled, Game, Key, TickInput,
};

verus! {

/// Growth never shrinks a component within the speed limit, never turns it round,
/// and below the limit multiplies its magnitude by at least the growth factor.
pub proof fn lemma_growth(c: int)
    ensures
        c > 0 ==> grown(c) > 0,
        c < 0 ==> grown(c) < 0,
        c == 0 ==> grown(c) == 0,
        magnitude(grown(c)) <= SPEED_LIMIT,
        magnitude(c) <= SPEED_LIMIT ==> magnitude(grown(c)) >= magnitude(c),
        magnitude(grown(c)) < SPEED_LIMIT ==> {
            &&& magnitude(grown(c)) == scaled_up(magnitude(c))
            &&& GROWTH_DENOMINATOR * magnitude(grown(c)) >= GROWTH_NUMERATOR * magnitude(c)
            &&& magnitude(grown(c)) >= magnitude(c)
            &&& c != 0 ==> magnitude(grown(c)) > magnitude(c)
        },
{
}

/// A launch velocity is far within the speed limit.
pub proof fn lemma_launch_within_limit(launch: Vec2)
    requires
        launch.is_launch(),
    ensures
        launch.within_speed_limit(),
        magnitude(launch.x) <= LAUNCH_SPEED + 1,
        magnitude(launch.y) <= LAUNCH_SPEED + 1,
{
    lemma_square_grows(LAUNCH_SPEED + 1, launch.x);
    lemma_square_grows(LAUNCH_SPEED + 1, launch.y);
}

/// Wall reflection. When the ball's move takes it beyond a side wall, the tick
/// puts it on that wall and turns its horizontal velocity inward without changing
/// the speed; the wall changes neither the ball's height nor its vertical velocity;
/// and unless a goal falls in the same tick, the tick ends with the ball there.
pub proof fn lemma_wall_reflection(board: Board, s: Game, launch: Vec2)
    requires
        board.wf(),
        s.wf(board),
    ensures
        ({
            let d = drifted(s);
            let w = walled(board, d);
            let a = advanced(board, s, launch);
            &&& w.ball_r.y == d.ball_r.y
            &&& w.ball_v.y == d.ball_v.y
            &&& magnitude(w.ball_v.x) == magnitude(d.ball_v.x)
            &&& d.ball_r.x > board.right() ==> w.ball_r.x == board.right() && w.ball_v.x < 0
            &&& d.ball_r.x < 0 ==> w.ball_r.x == 0 && w.ball_v.x > 0
            &&& goal(board, w) is None ==> a.ball_r == w.ball_r && a.ball_v.x == w.ball_v.x
        }),
{
    lemma_growth(s.ball_v.x);
}

/// Goal reset. When the ball's move takes it past the bottom edge, the computer's
/// score goes up by one and the player's stays; past the top edge it is the other
/// way round. Either way the ball is back at the exact centre with the launch
/// velocity, whose length is the launch speed, give or take one unit.
pub proof fn lemma_goal_reset(board: Board, s: Game, launch: Vec2)
    requires
        launch.is_launch(),
    ensures
        ({
            let a = advanced(board, s, launch);
            let below = s.ball_r.y + s.ball_v.y > board.bottom();
            let above = s.ball_r.y + s.ball_v.y < 0;
            &&& below ==> a.computer_score == s.computer_score + 1 && a.player_score
                == s.player_score
            &&& above && !below ==> a.player_score == s.player_score + 1 && a.computer_score
                == s.computer_score
            &&& below || above ==> a.ball_r == board.center() && a.ball_v == launch
            &&& !below && !above ==> a.player_score == s.player_score && a.computer_score
                == s.computer_score
            &&& (LAUNCH_SPEED - 1) * (LAUNCH_SPEED - 1) <= launch.norm_squared() <= (LAUNCH_SPEED
                + 1) * (LAUNCH_SPEED + 1)
        }),
{
}

/// Paddle bounce. With no goal in the tick, a ball that its move brings into the
/// top band within reach of the computer's paddle ends the tick moving down, and
/// one that it brings into the bottom band within reach of the player's paddle
/// ends it moving up. The bounce changes the sign only: the vertical speed is what
/// growth made it, and the horizontal velocity is untouched.
pub proof fn lemma_paddle_bounce(board: Board, s: Game, launch: Vec2)
    ensures
        ({
            let w = walled(board, drifted(s));
            let a = advanced(board, s, launch);
            &&& goal(board, w) is None ==> {
                &&& magnitude(a.ball_v.y) == magnitude(grown(s.ball_v.y))
                &&& a.ball_v.x == w.ball_v.x
                &&& meets_computer(board, w) ==> a.ball_v.y >= 0
                &&& meets_computer(board, w) && s.ball_v.y != 0 ==> a.ball_v.y > 0
                &&& meets_player(board, w) ==> a.ball_v.y <= 0
                &&& meets_player(board, w) && s.ball_v.y != 0 ==> a.ball_v.y < 0
            }
        }),
{
    lemma_growth(s.ball_v.y);
}

/// A tick keeps both paddles between the margins, whatever the keys.
pub proof fn lemma_update_keeps_paddles(board: Board, s: Game, launch: Vec2, keys: Seq<Key>)
    requires
        board.wf(),
        s.paddles_within(board),
    ensures
        updated(board, s, launch, keys).paddles_within(board),
{
    lemma_drain_keeps_paddles(board, advanced(board, s, launch), keys);
}

/// A run of keys keeps both paddles between the margins.
pub proof fn lemma_drain_keeps_paddles(board: Board, s: Game, keys: Seq<Key>)
    requires
        board.wf(),
        s.paddles_within(board),
    ensures
        drained(board, s, keys).paddles_within(board),
        drained(board, s, keys).computer_r == s.computer_r,
    decreases keys.len(),
{
    if keys.len() != 0 && keys[0] != Key::Quit {
        lemma_drain_keeps_paddles(board, pressed(board, s, keys[0]), keys.drop_first());
    }
}

/// A tick keeps the state one that a game passes through: the ball on the board,
/// its velocity within the speed limit, the paddles in their rows and between the
/// margins.
pub proof fn lemma_update_keeps_wf(board: Board, s: Game, launch: Vec2, keys: Seq<Key>)
    requires
        board.wf(),
        s.wf(board),
        launch.is_launch(),
    ensures
        updated(board, s, launch, keys).wf(board),
{
    lemma_launch_within_limit(launch);
    lemma_growth(s.ball_v.x);
    lemma_growth(s.ball_v.y);
    let a = advanced(board, s, launch);
    assert(a.wf(board));
    lemma_drain_keeps_paddles(board, a, keys);
    lemma_drain_leaves_ball(board, a, keys);
}

/// At every tick of a game the state is one that a game passes through. So
/// whenever a frame is drawn the ball lies between the goal lines and between the
/// side walls.
pub proof fn lemma_play_stays_valid(board: Board, s: Game, ticks: Seq<TickInput>)
    requires
        board.wf(),
        s.wf(board),
        forall|i: int| 0 <= i < ticks.len() ==> (#[trigger] ticks[i]).launch.is_launch(),
    ensures
        played(board, s, ticks).wf(board),
    decreases ticks.len(),
{
    if ticks.len() != 0 {
        lemma_play_stays_valid(board, s, ticks.drop_last());
        lemma_update_keeps_wf(
            board,
            played(board, s, ticks.drop_last()),
            ticks.last().launch,
            ticks.last().keys,
        );
    }
}

/// Scores never fall, and a tick adds at most one goal.
pub proof fn lemma_scores_never_fall(board: Board, s: Game, ticks: Seq<TickInput>)
    ensures
        played(board, s, ticks).player_score >= s.player_score,
        played(board, s, ticks).computer_score >= s.computer_score,
        played(board, s, ticks).player_score + played(board, s, ticks).computer_score
            <= s.player_score + s.computer_score + ticks.len(),
    decreases ticks.len(),
{
    if ticks.len() != 0 {
        let p = played(board, s, ticks.drop_last());
        lemma_scores_never_fall(board, s, ticks.drop_last());
        lemma_drain_leaves_ball(
            board,
            advanced(board, p, ticks.last().launch),
            ticks.last().keys,
        );
    }
}

/// Paddle clamp. After any number of ticks, with any keys in each, both paddles
/// lie between the margins.
pub proof fn lemma_paddles_stay_within(board: Board, s: Game, ticks: Seq<TickInput>)
    requires
        board.wf(),
        s.paddles_within(board),
    ensures
        played(board, s, ticks).paddles_within(board),
    decreases ticks.len(),
{
    if ticks.len() != 0 {
        lemma_paddles_stay_within(board, s, ticks.drop_last());
        lemma_update_keeps_paddles(
            board,
            played(board, s, ticks.drop_last()),
            ticks.last().launch,
            ticks.last().keys,
        );
    }
}

/// A run of keys changes nothing but the player's paddle.
pub proof fn lemma_drain_leaves_ball(board: Board, s: Game, keys: Seq<Key>)
    ensures
        drained(board, s, keys) == (Game { player_r: drained(board, s, keys).player_r, ..s }),
        drained(board, s, keys).player_r.row == s.player_r.row,
    decreases keys.len(),
{
    if keys.len() != 0 && keys[0] != Key::Quit {
        lemma_drain_leaves_ball(board, pressed(board, s, keys[0]), keys.drop_first());
    }
}

/// A tick without a goal leaves each component of the velocity with the magnitude
/// that growth gives it: walls and paddles change signs only.
pub proof fn lemma_rally_tick(board: Board, s: Game, launch: Vec2, keys: Seq<Key>)
    requires
        rally(board, s),
    ensures
        magnitude(updated(board, s, launch, keys).ball_v.x) == magnitude(grown(s.ball_v.x)),
        magnitude(updated(board, s, launch, keys).ball_v.y) == magnitude(grown(s.ball_v.y)),
{
    lemma_drain_leaves_ball(board, advanced(board, s, launch), keys);
}

/// The square of a number is the square of its magnitude, and grows with it.
pub proof fn lemma_square_of_magnitude(a: int, b: int)
    requires
        magnitude(a) <= magnitude(b),
    ensures
        a * a <= b * b,
        magnitude(a) < magnitude(b) ==> a * a < b * b,
{
    assert(a * a <= b * b && (magnitude(a) < magnitude(b) ==> a * a < b * b))
        by (nonlinear_arith)
        requires
            magnitude(a) <= magnitude(b),
            magnitude(a) == a || magnitude(a) == -a,
            magnitude(b) == b || magnitude(b) == -b,
            magnitude(a) >= 0,
    ;
}

/// Velocity growth. Over one or more ticks in a row without a goal, with or
/// without a paddle in the way, a ball that moves at all ends faster than it
/// began, and each component of its velocity has grown by at least the growth
/// factor compounded over the ticks. This is stated of runs that end below the
/// speed limit, where growth stops.
pub proof fn lemma_speed_grows(board: Board, s: Game, ticks: Seq<TickInput>)
    requires
        ticks.len() >= 1,
        forall|i: int|
            0 <= i < ticks.len() ==> rally(board, #[trigger] played(board, s, ticks.take(i))),
        s.ball_v.x != 0 || s.ball_v.y != 0,
        magnitude(played(board, s, ticks).ball_v.x) < SPEED_LIMIT,
        magnitude(played(board, s, ticks).ball_v.y) < SPEED_LIMIT,
    ensures
        played(board, s, ticks).ball_v.norm_squared() > s.ball_v.norm_squared(),
        pow(GROWTH_DENOMINATOR as int, ticks.len()) * magnitude(played(board, s, ticks).ball_v.x)
            >= pow(GROWTH_NUMERATOR as int, ticks.len()) * magnitude(s.ball_v.x),
        pow(GROWTH_DENOMINATOR as int, ticks.len()) * magnitude(played(board, s, ticks).ball_v.y)
            >= pow(GROWTH_NUMERATOR as int, ticks.len()) * magnitude(s.ball_v.y),
        magnitude(played(board, s, ticks).ball_v.x) >= magnitude(s.ball_v.x),
        magnitude(played(board, s, ticks).ball_v.y) >= magnitude(s.ball_v.y),
    decreases ticks.len(),
{
    let n = ticks.len();
    let earlier = ticks.drop_last();
    let p = played(board, s, earlier);
    let e = played(board, s, ticks);
    assert(ticks.take(n as int - 1) =~= earlier);
    assert(rally(board, p));
    lemma_rally_tick(board, p, ticks.last().launch, ticks.last().keys);
    lemma_growth(p.ball_v.x);
    lemma_growth(p.ball_v.y);
    let den = GROWTH_DENOMINATOR as int;
    let num = GROWTH_NUMERATOR as int;
    if n == 1 {
        assert(p == s);
        vstd::arithmetic::power::lemma_pow1(den);
        vstd::arithmetic::power::lemma_pow1(num);
    } else {
        assert forall|i: int| 0 <= i < earlier.len() implies rally(
            board,
            #[trigger] played(board, s, earlier.take(i)),
        ) by {
            assert(earlier.take(i) =~= ticks.take(i));
        }
        lemma_speed_grows(board, s, earlier);
        lemma_compound(
            den,
            num,
            (n - 1) as nat,
            magnitude(s.ball_v.x),
            magnitude(p.ball_v.x),
            magnitude(e.ball_v.x),
        );
        lemma_compound(
            den,
            num,
            (n - 1) as nat,
            magnitude(s.ball_v.y),
            magnitude(p.ball_v.y),
            magnitude(e.ball_v.y),
        );
    }
    lemma_square_of_magnitude(p.ball_v.x, e.ball_v.x);
    lemma_square_of_magnitude(p.ball_v.y, e.ball_v.y);
    lemma_square_of_magnitude(s.ball_v.x, p.ball_v.x);
    lemma_square_of_magnitude(s.ball_v.y, p.ball_v.y);
}

/// One more factor on both sides of a compounded bound.
pub proof fn lemma_compound(den: int, num: int, k: nat, a: int, b: int, c: int)
    requires
        den > 0,
        num > 0,
        a >= 0,
        pow(den, k) * b >= pow(num, k) * a,
        den * c >= num * b,
    ensures
        pow(den, (k + 1) as nat) * c >= pow(num, (k + 1) as nat) * a,
{
    vstd::arithmetic::power::lemma_pow_positive(den, k);
    vstd::arithmetic::power::lemma_pow_positive(num, k);
    let dk = pow(den, k);
    let nk = pow(num, k);
    assert(pow(den, (k + 1) as nat) == den * dk && pow(num, (k + 1) as nat) == num * nk) by {
        reveal(pow);
    }
    assert((den * dk) * c >= (num * nk) * a) by (nonlinear_arith)
        requires
            dk > 0,
            nk > 0,
            den > 0,
            num > 0,
            a >= 0,
            dk * b >= nk * a,
            den * c >= num * b,
    ;
}

/// Quit. Keys behind the first quit key change nothing: a run of keys with a quit
/// key in it leaves the state that the keys before the quit key leave.
pub proof fn lemma_quit_ends_drain(board: Board, s: Game, before: Seq<Key>, after: Seq<Key>)
    requires
        !before.contains(Key::Quit),
    ensures
        drained(board, s, before + seq![Key::Quit] + after) == drained(board, s, before),
    decreases before.len(),
{
    let all = before + seq![Key::Quit] + after;
    if before.len() == 0 {
        assert(all[0] == Key::Quit);
    } else {
        assert(before.contains(before[0]));
        assert(all[0] == before[0]);
        assert(all.drop_first() =~= before.drop_first() + seq![Key::Quit] + after);
        assert forall|k: Key| before.drop_first().contains(k) implies before.contains(k) by {
            let j = choose|j: int| 0 <= j < before.drop_first().len() && before.drop_first()[j] == k;
            assert(before[j + 1] == k);
        }
        lemma_quit_ends_drain(board, pressed(board, s, before[0]), before.drop_first(), after);
    }
}

/// A burst of right arrows moves the player's paddle one step for each, and stops
/// it at the right margin.
pub proof fn lemma_burst_right(board: Board, s: Game, keys: Seq<Key>)
    requires
        board.wf(),
        s.paddles_within(board),
        forall|i: int| 0 <= i < keys.len() ==> keys[i] == Key::Right,
    ensures
        drained(board, s, keys).player_r.x == if s.player_r.x + keys.len() * PADDLE_STEP
            > board.paddle_max() {
            board.paddle_max()
        } else {
            s.player_r.x + keys.len() * PADDLE_STEP
        },
    decreases keys.len(),
{
    if keys.len() != 0 {
        lemma_burst_right(board, pressed(board, s, keys[0]), keys.drop_first());
    }
}

/// A burst of left arrows moves the player's paddle one step for each, and stops
/// it at the left margin.
pub proof fn lemma_burst_left(board: Board, s: Game, keys: Seq<Key>)
    requires
        board.wf(),
        s.paddles_within(board),
        forall|i: int| 0 <= i < keys.len() ==> keys[i] == Key::Left,
    ensures
        drained(board, s, keys).player_r.x == if s.player_r.x - keys.len() * PADDLE_STEP
            < board.paddle_min() {
            board.paddle_min()
        } else {
            s.player_r.x - keys.len() * PADDLE_STEP
        },
    decreases keys.len(),
{
    if keys.len() != 0 {
        lemma_burst_left(board, pressed(board, s, keys[0]), keys.drop_first());
    }
}

} // verus!
