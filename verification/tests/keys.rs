use pong::board::{Board, Vector};
use pong::model::{Key, QUIT_CHAR};
use pong::state::{GameState, Outcome, Paddle};

fn fresh(board: &Board) -> GameState {
    GameState::new(board, Vector::launch(0, 300_000).expect("a launch velocity"))
}

#[test]
fn opening_state() {
    let board = Board::standard();
    let state = fresh(&board);
    assert_eq!(state.ball_r, Vector { x: 67_000_000, y: 18_000_000 });
    assert_eq!(state.ball_v, Vector { x: 0, y: 300_000 });
    assert_eq!(state.player_r, Paddle { x: 67_000_000, row: 34 });
    assert_eq!(state.computer_r, Paddle { x: 67_000_000, row: 2 });
    assert_eq!((state.player_score, state.computer_score), (0, 0));
    assert!(state.is_valid(&board));
}

#[test]
fn opening_state_on_a_small_board() {
    let board = Board::new(10, 8).expect("a usable board");
    let state = fresh(&board);
    assert_eq!(state.ball_r, Vector { x: 5_000_000, y: 4_000_000 });
    assert_eq!(state.player_r, Paddle { x: 5_000_000, row: 5 });
    assert_eq!(state.computer_r, Paddle { x: 5_000_000, row: 2 });
    assert!(state.is_valid(&board));
}

#[test]
fn ball_past_the_bottom_scores_for_the_computer() {
    let board = Board::standard();
    let mut state = fresh(&board);
    let out_of_the_way = vec![Key::Left; 40];
    assert_eq!(state.drain(&board, &out_of_the_way), Outcome::Continue);
    assert_eq!(state.player_r.x, 5_000_000);
    let relaunch = Vector::launch(-180_000, 240_000).expect("a launch velocity");
    let mut ticks = 0;
    while state.computer_score == 0 {
        assert!(ticks < 62);
        assert_eq!(state.update(&board, relaunch, &[]), Outcome::Continue);
        ticks += 1;
    }
    assert_eq!(ticks, 62);
    assert_eq!(state.computer_score, 1);
    assert_eq!(state.player_score, 0);
    assert_eq!(state.ball_r, Vector { x: 67_000_000, y: 18_000_000 });
    assert_eq!(state.ball_v, relaunch);
}

#[test]
fn burst_of_right_arrows() {
    let board = Board::standard();
    let mut state = fresh(&board);
    let burst = [Key::Right, Key::Right, Key::Right, Key::Right, Key::Right];
    assert_eq!(state.drain(&board, &burst), Outcome::Continue);
    assert_eq!(state.player_r.x, 67_000_000 + 5 * 2_000_000);
}

#[test]
fn burst_of_right_arrows_in_a_tick() {
    let board = Board::standard();
    let mut state = fresh(&board);
    let burst = [Key::Right, Key::Right, Key::Right, Key::Right, Key::Right];
    let relaunch = Vector::launch(300_000, 0).expect("a launch velocity");
    assert_eq!(state.update(&board, relaunch, &burst), Outcome::Continue);
    assert_eq!(state.player_r.x, 77_000_000);
    assert_eq!(state.ball_r, Vector { x: 67_000_000, y: 18_300_000 });
    assert_eq!(state.ball_v, Vector { x: 0, y: 300_300 });
}

#[test]
fn burst_stops_at_the_right_margin() {
    let board = Board::standard();
    let mut state = fresh(&board);
    state.player_r.x = 125_000_000;
    let burst = [Key::Right, Key::Right, Key::Right, Key::Right, Key::Right];
    assert_eq!(state.drain(&board, &burst), Outcome::Continue);
    assert_eq!(state.player_r.x, 130_000_000);
}

#[test]
fn burst_stops_at_the_left_margin() {
    let board = Board::standard();
    let mut state = fresh(&board);
    state.player_r.x = 8_000_000;
    assert_eq!(state.drain(&board, &[Key::Left, Key::Left, Key::Left]), Outcome::Continue);
    assert_eq!(state.player_r.x, 5_000_000);
}

#[test]
fn quit_key_ends_the_drain() {
    let board = Board::standard();
    let mut state = fresh(&board);
    let queue = [Key::Right, Key::Quit, Key::Right, Key::Left];
    assert_eq!(state.drain(&board, &queue), Outcome::QuitRequested);
    assert_eq!(state.player_r.x, 69_000_000);
    let mut alone = fresh(&board);
    assert_eq!(alone.drain(&board, &[Key::Right]), Outcome::Continue);
    assert_eq!(state, alone);
}

#[test]
fn quit_key_first_changes_nothing() {
    let board = Board::standard();
    let mut state = fresh(&board);
    let untouched = state;
    assert_eq!(state.drain(&board, &[Key::Quit, Key::Left, Key::Left]), Outcome::QuitRequested);
    assert_eq!(state, untouched);
}

#[test]
fn quit_key_in_a_tick() {
    let board = Board::standard();
    let relaunch = Vector::launch(300_000, 0).expect("a launch velocity");
    let mut state = fresh(&board);
    let queue = [Key::Left, Key::Quit, Key::Left, Key::Left];
    assert_eq!(state.update(&board, relaunch, &queue), Outcome::QuitRequested);
    let mut other = fresh(&board);
    assert_eq!(other.update(&board, relaunch, &[Key::Left]), Outcome::Continue);
    assert_eq!(state, other);
    assert_eq!(state.player_r.x, 65_000_000);
}

#[test]
fn arrows_move_one_step() {
    let board = Board::standard();
    let mut state = fresh(&board);
    assert_eq!(state.press(&board, Key::Right), Outcome::Continue);
    assert_eq!(state.player_r.x, 69_000_000);
    assert_eq!(state.press(&board, Key::Left), Outcome::Continue);
    assert_eq!(state.press(&board, Key::Left), Outcome::Continue);
    assert_eq!(state.player_r.x, 65_000_000);
    assert_eq!(state.computer_r.x, 67_000_000);
}

#[test]
fn other_keys_change_nothing() {
    let board = Board::standard();
    let mut state = fresh(&board);
    let untouched = state;
    assert_eq!(state.press(&board, Key::Other), Outcome::Continue);
    assert_eq!(state, untouched);
    assert_eq!(state.press(&board, Key::Quit), Outcome::QuitRequested);
    assert_eq!(state, untouched);
    assert_eq!(state.drain(&board, &[]), Outcome::Continue);
    assert_eq!(state, untouched);
}

#[test]
fn paddle_stays_between_the_margins() {
    let board = Board::standard();
    let mut state = fresh(&board);
    for _ in 0..100 {
        state.press(&board, Key::Right);
        assert!(5_000_000 <= state.player_r.x && state.player_r.x <= 130_000_000);
    }
    assert_eq!(state.player_r.x, 130_000_000);
    state.press(&board, Key::Left);
    assert_eq!(state.player_r.x, 128_000_000);
    for _ in 0..100 {
        state.press(&board, Key::Left);
        assert!(5_000_000 <= state.player_r.x && state.player_r.x <= 130_000_000);
    }
    assert_eq!(state.player_r.x, 5_000_000);
    state.press(&board, Key::Right);
    assert_eq!(state.player_r.x, 7_000_000);
}

#[test]
fn long_game_stays_valid() {
    let board = Board::standard();
    let launches = [
        Vector::launch(180_000, 240_000).expect("a launch velocity"),
        Vector::launch(-240_000, -180_000).expect("a launch velocity"),
        Vector::launch(212_132, -212_132).expect("a launch velocity"),
        Vector::launch(-299_999, 1).expect("a launch velocity"),
    ];
    let mut state = GameState::new(&board, launches[0]);
    let mut seed: u64 = 12345;
    let mut goals = 0;
    for tick in 0..20_000 {
        seed = seed.wrapping_mul(6364136223846793005).wrapping_add(1442695040888963407);
        let keys: Vec<Key> = match (seed >> 33) % 4 {
            0 => vec![Key::Left, Key::Left],
            1 => vec![Key::Right, Key::Right, Key::Other],
            2 => vec![Key::Right],
            _ => vec![],
        };
        let before = (state.player_score, state.computer_score);
        assert_eq!(state.update(&board, launches[tick % 4], &keys), Outcome::Continue);
        assert!(state.is_valid(&board));
        assert!(state.player_score >= before.0 && state.computer_score >= before.1);
        if (state.player_score, state.computer_score) != before {
            assert_eq!(state.player_score + state.computer_score, before.0 + before.1 + 1);
            assert_eq!(state.ball_r, board.get_center());
            goals += 1;
        }
    }
    assert!(goals > 0);
}

#[test]
fn keys_from_characters() {
    assert_eq!(QUIT_CHAR, 'c');
    assert_eq!(Key::from_char('c'), Key::Quit);
    assert_eq!(Key::from_char('C'), Key::Other);
    assert_eq!(Key::from_char('q'), Key::Other);
    assert_eq!(Key::from_char(' '), Key::Other);
}

#[test]
fn invalid_states_are_told_apart() {
    let board = Board::standard();
    let good = fresh(&board);
    assert!(good.is_valid(&board));
    let mut state = good;
    state.ball_r.x = 135_000_001;
    assert!(!state.is_valid(&board));
    state.ball_r.x = 135_000_000;
    assert!(state.is_valid(&board));
    state.ball_r.y = -1;
    assert!(!state.is_valid(&board));
    let mut state = good;
    state.ball_v.x = 1_000_000_000_000_001;
    assert!(!state.is_valid(&board));
    state.ball_v.x = -1_000_000_000_000_000;
    assert!(state.is_valid(&board));
    let mut state = good;
    state.player_r.x = 4_999_999;
    assert!(!state.is_valid(&board));
    let mut state = good;
    state.computer_r.x = 130_000_001;
    assert!(!state.is_valid(&board));
    let mut state = good;
    state.player_r.row = 33;
    assert!(!state.is_valid(&board));
    let mut state = good;
    state.computer_r.row = 3;
    assert!(!state.is_valid(&board));
}
