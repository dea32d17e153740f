use xiangqi::gui::clipboard::{notice, paste_position, ClipboardOutcome};
use xiangqi::xiangqi::Board;

#[test]
fn test_paste_start_position() {
    let start = Board::start_position();
    let fen = start.to_fen();
    let (board, outcome) = paste_position(&fen);
    assert_eq!(outcome, ClipboardOutcome::Loaded);
    let board = board.unwrap();
    assert_eq!(board.squares, start.squares);
    assert_eq!(board.side, start.side);
}

#[test]
fn test_paste_garbage() {
    let (board, outcome) = paste_position("invalid fen string");
    assert!(board.is_none());
    assert_eq!(outcome, ClipboardOutcome::InvalidFen);
}

#[test]
fn test_notices() {
    assert_eq!(notice(ClipboardOutcome::Copied, "9/9 w"), "已复制FEN: 9/9 w");
    assert_eq!(notice(ClipboardOutcome::CopyFailed, "x"), "复制失败");
    assert_eq!(notice(ClipboardOutcome::Unavailable, ""), "剪贴板不可用");
    assert_eq!(notice(ClipboardOutcome::Loaded, "x"), "已从剪贴板加载局面");
    assert_eq!(notice(ClipboardOutcome::NoText, ""), "剪贴板无文本");
}
