use xiangqi::eval::{evaluate, king_safety_score, material_value, MATE};
use xiangqi::xiangqi::{Board, Color, Piece, PieceKind, Square};

#[test]
fn start_position_is_roughly_equal() {
    let b = Board::start_position();
    let score = evaluate(&b, Color::Red);
    assert!(score.abs() < 50, "start position should be roughly equal, got {score}");
}

#[test]
fn chariot_advantage_is_positive() {
    let mut b = Board::start_position();
    let sq = Square::new(0, 9).unwrap();
    b.set_piece(sq, None);
    let score = evaluate(&b, Color::Red);
    assert!(score > 800, "extra chariot should give Red a large advantage, got {score}");
}

#[test]
fn mobility_bonus_matters() {
    let mut b = Board::empty();
    b.set_piece(Square::new(0, 0).unwrap(), Some(Piece::new(Color::Red, PieceKind::King)));
    b.set_piece(Square::new(8, 9).unwrap(), Some(Piece::new(Color::Black, PieceKind::King)));
    b.set_piece(Square::new(4, 4).unwrap(), Some(Piece::new(Color::Red, PieceKind::Chariot)));
    let center_score = evaluate(&b, Color::Red);

    b.set_piece(Square::new(4, 4).unwrap(), None);
    b.set_piece(Square::new(0, 4).unwrap(), Some(Piece::new(Color::Red, PieceKind::Chariot)));
    let corner_score = evaluate(&b, Color::Red);

    assert!(
        center_score > corner_score,
        "center chariot should score higher: center={center_score} vs corner={corner_score}"
    );
}

#[test]
fn king_safety_rewards_defenders() {
    let mut b = Board::empty();
    b.set_piece(Square::new(4, 0).unwrap(), Some(Piece::new(Color::Red, PieceKind::King)));
    b.set_piece(Square::new(4, 9).unwrap(), Some(Piece::new(Color::Black, PieceKind::King)));
    let bare_score = king_safety_score(&b, Color::Red);

    b.set_piece(Square::new(3, 0).unwrap(), Some(Piece::new(Color::Red, PieceKind::Advisor)));
    b.set_piece(Square::new(5, 0).unwrap(), Some(Piece::new(Color::Red, PieceKind::Advisor)));
    let guarded_score = king_safety_score(&b, Color::Red);

    assert!(
        guarded_score > bare_score,
        "advisors should improve king safety: guarded={guarded_score} vs bare={bare_score}"
    );
}

#[test]
fn evaluation_is_antisymmetric_in_side() {
    let mut b = Board::start_position();
    b.set_piece(Square::new(8, 9).unwrap(), None);
    assert_eq!(evaluate(&b, Color::Red), -evaluate(&b, Color::Black));
}

#[test]
fn material_values_are_standard() {
    assert_eq!(material_value(PieceKind::King), 60_000);
    assert_eq!(material_value(PieceKind::Chariot), 1_000);
    assert_eq!(material_value(PieceKind::Cannon), 500);
    assert_eq!(material_value(PieceKind::Horse), 450);
    assert_eq!(material_value(PieceKind::Elephant), 200);
    assert_eq!(material_value(PieceKind::Advisor), 200);
    assert_eq!(material_value(PieceKind::Pawn), 100);
    assert_eq!(MATE, 1_000_000);
}

#[test]
fn bare_king_safety_exact_value() {
    let mut b = Board::empty();
    b.set_piece(Square::new(4, 0).unwrap(), Some(Piece::new(Color::Red, PieceKind::King)));
    assert_eq!(king_safety_score(&b, Color::Red), 8);
    assert_eq!(king_safety_score(&b, Color::Black), -500);
}
