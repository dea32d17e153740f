use xiangqi::endgame::{classify_endgame, endgame_eval, is_simple_endgame, EndgameResult};
use xiangqi::xiangqi::{Board, Color};

#[test]
fn king_vs_king_is_draw() {
    let board = Board::from_fen("4k4/9/9/9/9/9/9/9/9/4K4 w - - 0 1").unwrap();
    assert_eq!(classify_endgame(&board), EndgameResult::Draw);
}

#[test]
fn single_chariot_wins() {
    let board = Board::from_fen("4k4/9/9/9/9/9/9/9/9/4KR3 w - - 0 1").unwrap();
    assert_eq!(classify_endgame(&board), EndgameResult::Win(Color::Red));
}

#[test]
fn single_horse_draws() {
    let board = Board::from_fen("4k4/9/9/9/9/9/9/9/9/4KN3 w - - 0 1").unwrap();
    assert_eq!(classify_endgame(&board), EndgameResult::Draw);
}

#[test]
fn double_horse_wins() {
    let board = Board::from_fen("4k4/9/9/9/9/9/9/9/9/3KN1N2 w - - 0 1").unwrap();
    assert_eq!(classify_endgame(&board), EndgameResult::Win(Color::Red));
}

#[test]
fn horse_cannon_wins() {
    let board = Board::from_fen("4k4/9/9/9/9/9/9/9/9/3KN1C2 w - - 0 1").unwrap();
    assert_eq!(classify_endgame(&board), EndgameResult::Win(Color::Red));
}

#[test]
fn single_cannon_draws() {
    let board = Board::from_fen("4k4/9/9/9/9/9/9/9/9/4KC3 w - - 0 1").unwrap();
    assert_eq!(classify_endgame(&board), EndgameResult::Draw);
}

#[test]
fn start_position_unknown() {
    let board = Board::start_position();
    assert_eq!(classify_endgame(&board), EndgameResult::Unknown);
}

#[test]
fn endgame_eval_returns_correct_scores() {
    let board = Board::from_fen("4k4/9/9/9/9/9/9/9/9/4KR3 w - - 0 1").unwrap();
    assert_eq!(endgame_eval(&board), Some(800));

    let board = Board::from_fen("4k4/9/9/9/9/9/9/9/9/4K4 w - - 0 1").unwrap();
    assert_eq!(endgame_eval(&board), Some(0));

    let board = Board::start_position();
    assert_eq!(endgame_eval(&board), None);
}

#[test]
fn black_chariot_wins_for_black() {
    let board = Board::from_fen("3kr4/9/9/9/9/9/9/9/9/4K4 w - - 0 1").unwrap();
    assert_eq!(classify_endgame(&board), EndgameResult::Win(Color::Black));
    assert_eq!(endgame_eval(&board), Some(-800));
}

#[test]
fn missing_king_is_unknown() {
    let board = Board::from_fen("9/9/9/9/9/9/9/9/9/4KR3 w - - 0 1").unwrap();
    assert_eq!(classify_endgame(&board), EndgameResult::Unknown);
}

#[test]
fn simple_endgame_limits() {
    assert!(is_simple_endgame(&[1, 1, 1, 1, 0, 0, 0], &[1, 0, 0, 0, 1, 0, 0]));
    assert!(!is_simple_endgame(&[1, 1, 1, 1, 1, 0, 0], &[1, 0, 0, 0, 0, 0, 0]));
    assert!(!is_simple_endgame(&[1, 0, 0, 0, 2, 0, 0], &[1, 0, 0, 0, 0, 0, 0]));
}

#[test]
fn colour_swapped_board_swaps_the_result() {
    let red_wins = Board::from_fen("4k4/9/9/9/9/9/9/9/9/4KR3 w - - 0 1").unwrap();
    let black_wins = Board::from_fen("4k4/4r4/9/9/9/9/9/9/9/4K4 w - - 0 1").unwrap();
    assert_eq!(classify_endgame(&red_wins), EndgameResult::Win(Color::Red));
    assert_eq!(classify_endgame(&black_wins), EndgameResult::Win(Color::Black));
}

#[test]
fn simple_endgame_accepts_any_counts() {
    assert!(!is_simple_endgame(&[1, 500, 0, 0, 0, 0, 0], &[1, 0, 0, 0, 0, 0, 0]));
    assert!(is_simple_endgame(&[1, 1, 1, 0, 1, 0, 0], &[1, 0, 0, 0, 0, 0, 3]));
}

#[test]
fn mirrored_colour_swap_swaps_the_result() {
    let red = Board::from_fen("4k4/9/9/9/9/9/9/9/9/3KN1C2 w - - 0 1").unwrap();
    let black = Board::from_fen("2c1nk3/9/9/9/9/9/9/9/9/4K4 w - - 0 1").unwrap();
    assert_eq!(classify_endgame(&red), EndgameResult::Win(Color::Red));
    assert_eq!(classify_endgame(&black), EndgameResult::Win(Color::Black));
}
