use xiangqi::search::HistoryTable;
use xiangqi::xiangqi::{Board, Move, Square};

#[test]
fn cutoffs_credit_depth_squared_and_halve_on_overflow() {
    let board = Board::start_position();
    let mv = Move { from: Square { file: 7, rank: 0 }, to: Square { file: 6, rank: 2 } };
    let mut h = HistoryTable::new();
    h.record_cutoff(&board, mv, 3);
    assert_eq!(h.score(&board, mv), 9);
    h.record_cutoff(&board, mv, 1000);
    assert_eq!(h.score(&board, mv), 500_004);
    h.record_cutoff(&board, mv, 1);
    assert_eq!(h.score(&board, mv), 500_005);
}
