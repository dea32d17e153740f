use xiangqi::exchange::see;
use xiangqi::xiangqi::{Board, Color, Move, Piece, PieceKind, Square};

fn sq(file: u8, rank: u8) -> Square {
    Square { file, rank }
}

fn mv(a: Square, b: Square) -> Move {
    Move { from: a, to: b }
}

fn board_with(pieces: &[(Square, Color, PieceKind)]) -> Board {
    let mut b = Board::empty();
    for &(s, color, kind) in pieces {
        b.set_piece(s, Some(Piece { color, kind }));
    }
    b
}

#[test]
fn quiet_move_is_worth_nothing() {
    let b = board_with(&[(sq(0, 0), Color::Red, PieceKind::Chariot)]);
    assert_eq!(see(&b, mv(sq(0, 0), sq(0, 5)), &[]), 0);
}

#[test]
fn undefended_capture_wins_the_victim() {
    let b = board_with(&[
        (sq(0, 0), Color::Red, PieceKind::Chariot),
        (sq(0, 6), Color::Black, PieceKind::Pawn),
    ]);
    let legal = [mv(sq(0, 0), sq(0, 6))];
    assert_eq!(see(&b, legal[0], &legal), 100);
}

#[test]
fn defended_capture_folds_the_recapture() {
    let b = board_with(&[
        (sq(0, 0), Color::Red, PieceKind::Chariot),
        (sq(0, 6), Color::Black, PieceKind::Pawn),
        (sq(0, 9), Color::Black, PieceKind::Chariot),
    ]);
    let legal = [mv(sq(0, 0), sq(0, 6)), mv(sq(0, 9), sq(0, 6))];
    assert_eq!(see(&b, legal[0], &legal), -100);
}
