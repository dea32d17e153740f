use xiangqi::xiangqi::{Board, Color};

#[test]
fn test_fen_roundtrip() {
    let board = Board::start_position();
    let fen = board.to_fen();
    let parsed = Board::from_fen(&fen).unwrap();
    assert_eq!(board.squares, parsed.squares);
    assert_eq!(board.side, parsed.side);
}

#[test]
fn test_custom_fen() {
    let fen = "rnbakabnr/9/1c5c1/p1p1p1p1p/9/9/P1P1P1P1P/1C5C1/9/RNBAKABNR w - - 0 1";
    let board = Board::from_fen(fen).unwrap();
    let exported = board.to_fen();
    assert_eq!(fen, exported);
}

#[test]
fn test_invalid_fen() {
    let invalid_fen = "invalid fen string";
    assert!(Board::from_fen(invalid_fen).is_none());
}

#[test]
fn black_to_move_round_trips() {
    let fen = "4k4/9/9/9/9/9/9/9/9/4KR3 b - - 0 1";
    let board = Board::from_fen(fen).unwrap();
    assert_eq!(board.side, Color::Black);
    assert_eq!(board.to_fen(), fen);
}

#[test]
fn short_rows_are_refused() {
    assert!(Board::from_fen("4k4/9/9/9/9/9/9/9/9 w").is_none());
    assert!(Board::from_fen("4k3/9/9/9/9/9/9/9/9/4K4 w").is_none());
    assert!(Board::from_fen("4k4/9/9/9/9/9/9/9/9/4K4 x").is_none());
}
