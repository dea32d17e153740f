use xiangqi::gui::annotations::{bookmark_label, CommentsPanel, GameBookmarks, GameComments};
use xiangqi::xiangqi::Move;

#[test]
fn game_bookmarks_test_add() {
    let mut b = GameBookmarks::default();
    b.add(0, "test".to_string(), "fen".to_string(), 1_700_000_000);
    assert_eq!(b.count(), 1);
    assert_eq!(b.bookmarks[0].timestamp, 1_700_000_000);
}

#[test]
fn game_bookmarks_test_remove() {
    let mut b = GameBookmarks::default();
    b.add(0, "test".to_string(), "fen".to_string(), 0);
    b.remove(0);
    assert_eq!(b.count(), 0);
    b.remove(3);
    assert_eq!(b.count(), 0);
}

#[test]
fn test_find() {
    let mut b = GameBookmarks::default();
    b.add(0, "好棋".to_string(), "fen1".to_string(), 0);
    b.add(5, "妙手".to_string(), "fen2".to_string(), 0);
    assert_eq!(b.find_by_label("好").len(), 1);
    assert_eq!(b.find_by_label("妙"), vec![1]);
}

#[test]
fn bookmark_labels_count_from_one() {
    assert_eq!(bookmark_label(0), "第1步");
    assert_eq!(bookmark_label(41), "第42步");
}

#[test]
fn game_comments_test_add() {
    let mut gc = GameComments::default();
    gc.add(0, "好棋".to_string());
    assert_eq!(gc.count(), 1);
}

#[test]
fn test_for_move() {
    let mut gc = GameComments::default();
    gc.add(5, "关键着".to_string());
    assert_eq!(gc.for_move(5).len(), 1);
    gc.add(5, "second".to_string());
    gc.add(6, "other".to_string());
    assert_eq!(gc.for_move(5), vec!["关键着", "second"]);
}

#[test]
fn test_add_comment() {
    let mut c = CommentsPanel::default();
    c.add_comment(0, "好棋".to_string());
    assert_eq!(c.comment_count(), 1);
    c.add_comment(0, "妙".to_string());
    assert_eq!(c.comment_count(), 1);
    assert_eq!(c.get_comment(0), Some(&"妙".to_string()));
}

#[test]
fn comments_panel_test_remove() {
    let mut c = CommentsPanel::default();
    c.add_comment(0, "test".to_string());
    c.remove_comment(0);
    assert_eq!(c.comment_count(), 0);
}

#[test]
fn comments_panel_test_clear() {
    let mut c = CommentsPanel::default();
    c.add_comment(0, "a".to_string());
    c.game_comment = "b".to_string();
    c.clear();
    assert_eq!(c.comment_count(), 0);
    assert!(c.game_comment.is_empty());
}

#[test]
fn export_numbers_moves_and_inlines_comments() {
    let mut c = CommentsPanel::default();
    c.game_comment = "casual".to_string();
    c.add_comment(1, "solid".to_string());
    let moves = [Move::from_iccs("h2e2").unwrap(), Move::from_iccs("h9g7").unwrap(), Move::from_iccs("b0c2").unwrap()];
    assert_eq!(c.export_annotated(&moves), "{ casual }\n1. h3e3 h10g8 { solid } 2. b1c3 \n");
    let empty = CommentsPanel::default();
    assert_eq!(empty.export_annotated(&[]), "\n");
}
