use xiangqi::book::OpeningBook;
use xiangqi::xiangqi::{Board, Move};

/// The legal moves of the starting position (Red to move).
fn start_legal() -> Vec<Move> {
    [
        "a0a1", "a0a2", "i0i1", "i0i2", "b0a2", "b0c2", "h0g2", "h0i2", "c0a2", "c0e2", "g0e2",
        "g0i2", "d0e1", "f0e1", "e0e1", "b2a2", "b2c2", "b2d2", "b2e2", "b2f2", "b2g2", "b2b3",
        "b2b4", "b2b5", "b2b6", "b2b9", "b2b1", "h2i2", "h2g2", "h2f2", "h2e2", "h2d2", "h2c2",
        "h2h3", "h2h4", "h2h5", "h2h6", "h2h9", "h2h1", "a3a4", "c3c4", "e3e4", "g3g4", "i3i4",
    ]
    .iter()
    .map(|s| Move::from_iccs(s).unwrap())
    .collect()
}

#[test]
fn book_has_start_position_moves() {
    let book = OpeningBook::default_book();
    let b = Board::start_position();
    let mv = book.lookup(&b, &start_legal());
    assert!(mv.is_some(), "book should have moves for start position");
}

#[test]
fn book_returns_legal_move() {
    let book = OpeningBook::default_book();
    let b = Board::start_position();
    let legal = start_legal();
    let mv = book.lookup(&b, &legal).unwrap();
    assert!(legal.contains(&mv), "book move must be legal");
}

#[test]
fn book_returns_none_for_unknown() {
    let book = OpeningBook::default_book();
    let b = Board::empty();
    assert!(book.lookup(&b, &[]).is_none());
}

#[test]
fn book_has_multiple_opening_moves() {
    let book = OpeningBook::default_book();
    let b = Board::start_position();
    let candidates = book.candidates(&b.to_fen());
    assert!(candidates.is_some());
    let candidates = candidates.unwrap();
    assert!(candidates.len() >= 5, "Expected at least 5 opening moves, got {}", candidates.len());
}

#[test]
fn book_covers_central_cannon_variations() {
    let book = OpeningBook::default_book();
    let b = Board::start_position();
    let mv = Move::from_iccs("h2e2").unwrap();
    let mut b = b.clone();
    b.make_move(mv);
    let candidates = book.candidates(&b.to_fen());
    assert!(candidates.is_some(), "Should have responses to the central cannon");
    assert!(candidates.unwrap().len() >= 3, "Should have multiple responses");
}

#[test]
fn book_covers_pawn_opening() {
    let book = OpeningBook::default_book();
    let b = Board::start_position();
    let mv = Move::from_iccs("e3e4").unwrap();
    let mut b = b.clone();
    b.make_move(mv);
    let candidates = book.candidates(&b.to_fen());
    assert!(candidates.is_some(), "Should have responses to the pawn opening");
}

#[test]
fn book_covers_elephant_opening() {
    let book = OpeningBook::default_book();
    let b = Board::start_position();
    let mv = Move::from_iccs("c0e2").unwrap();
    let mut b = b.clone();
    b.make_move(mv);
    let candidates = book.candidates(&b.to_fen());
    assert!(candidates.is_some(), "Should have responses to the elephant opening");
}

#[test]
fn book_covers_horse_openings() {
    let book = OpeningBook::default_book();
    let b = Board::start_position();
    for mv_str in &["b0c2", "h0g2"] {
        let mv = Move::from_iccs(mv_str).unwrap();
        let mut board = b.clone();
        board.make_move(mv);
        let candidates = book.candidates(&board.to_fen());
        assert!(candidates.is_some(), "Should have responses to {}", mv_str);
    }
}

#[test]
fn book_depth_covers_multiple_plies() {
    let book = OpeningBook::default_book();
    let b = Board::start_position();
    let mut board = b.clone();
    let moves = ["h2e2", "h9g7", "b0c2", "i9h9"];
    let mut found_depths = 0;
    for mv_str in &moves {
        let fen = board.to_fen();
        if book.candidates(&fen).is_some() {
            found_depths += 1;
        }
        let mv = Move::from_iccs(mv_str).unwrap();
        board.make_move(mv);
    }
    assert!(found_depths >= 3, "Book should cover at least 3 plies deep, found {}", found_depths);
}

#[test]
fn start_position_book_move_is_central_cannon() {
    let book = OpeningBook::default_book();
    let b = Board::start_position();
    assert_eq!(book.lookup(&b, &start_legal()), Some(Move::from_iccs("h2e2").unwrap()));
}

#[test]
fn illegal_candidates_are_skipped() {
    let book = OpeningBook::default_book();
    let b = Board::start_position();
    let legal: Vec<Move> =
        start_legal().into_iter().filter(|m| *m != Move::from_iccs("h2e2").unwrap()).collect();
    assert_eq!(book.lookup(&b, &legal), Some(Move::from_iccs("e3e4").unwrap()));
    assert_eq!(book.lookup(&b, &[]), None);
}

#[test]
fn start_candidates_in_book_order() {
    let book = OpeningBook::default_book();
    let b = Board::start_position();
    let c = book.candidates(&b.to_fen()).unwrap();
    let first: Vec<String> = c.iter().take(3).map(|bm| bm.mv.to_iccs()).collect();
    assert_eq!(first[0], "h2e2");
    assert_eq!(c[0].weight, 100);
    let e3e4 = c.iter().find(|bm| bm.mv.to_iccs() == "e3e4").unwrap();
    assert_eq!(e3e4.weight, 80);
}

#[test]
fn empty_book_has_no_candidates() {
    let book = OpeningBook::new();
    assert!(book.candidates(&Board::start_position().to_fen()).is_none());
}
