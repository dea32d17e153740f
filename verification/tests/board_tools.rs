use xiangqi::gui::board_tools::{BoardArrowDrawing, BoardEditor, BoardTheme, EditorMode};
use xiangqi::xiangqi::Board;

#[test]
fn board_editor_test_default() {
    let e = BoardEditor::default();
    assert!(!e.active);
    assert_eq!(e.mode, EditorMode::Palette);
}

#[test]
fn test_start_stop() {
    let mut e = BoardEditor::default();
    e.start();
    assert!(e.active);
    e.stop();
    assert!(!e.active);
}

#[test]
fn test_select_piece() {
    let mut e = BoardEditor::default();
    e.select_piece('R', true);
    assert_eq!(e.selected_piece, Some(('R', true)));
    assert_eq!(e.mode, EditorMode::Placing);
}

#[test]
fn test_clear_selection() {
    let mut e = BoardEditor::default();
    e.select_piece('R', true);
    e.clear_selection();
    assert!(e.selected_piece.is_none());
    assert_eq!(e.mode, EditorMode::Palette);
}

#[test]
fn test_toggle_side() {
    let mut e = BoardEditor::default();
    assert!(e.side_to_move);
    e.toggle_side_to_move();
    assert!(!e.side_to_move);
}

#[test]
fn test_palette() {
    let palette = BoardEditor::palette();
    assert_eq!(palette.len(), 14);
    assert!(palette.iter().any(|p| p.piece == 'K' && p.is_red));
    assert!(palette.iter().any(|p| p.piece == 'K' && !p.is_red));
}

#[test]
fn test_fen_status() {
    let mut e = BoardEditor::default();
    assert_eq!(e.fen_status(), "正常模式");
    e.start();
    assert_eq!(e.fen_status(), "编辑模式");
}

#[test]
fn editor_fen_is_the_board_fen() {
    let e = BoardEditor::default();
    let b = Board::start_position();
    assert_eq!(e.generate_fen(&b), b.to_fen());
}

#[test]
fn board_arrow_drawing_test_add_arrow() {
    let mut bad = BoardArrowDrawing::new((51u8, 153u8, 255u8));
    bad.add_arrow((0, 0), (1, 1));
    assert_eq!(bad.arrows.len(), 1);
}

#[test]
fn board_arrow_drawing_test_clear() {
    let mut bad = BoardArrowDrawing::new(0u32);
    bad.add_arrow((0, 0), (1, 1));
    bad.clear_arrows();
    assert!(bad.arrows.is_empty());
}

#[test]
fn test_drawing() {
    let mut bad = BoardArrowDrawing::new(0u32);
    bad.start_drawing((0, 0));
    bad.finish_drawing((1, 1));
    assert_eq!(bad.arrows.len(), 1);
    assert!(!bad.drawing_mode);
    bad.start_drawing((2, 2));
    bad.finish_drawing((2, 2));
    assert_eq!(bad.arrows.len(), 1);
}

#[test]
fn board_theme_selector_test_cycle() {
    let mut t = BoardTheme::Classic;
    t = t.next();
    assert_eq!(t, BoardTheme::Modern);
    assert_eq!(BoardTheme::HighContrast.next(), BoardTheme::Classic);
    assert_eq!(BoardTheme::Wood.label_cn(), "木纹");
}

#[test]
fn set_color_styles_new_arrows() {
    let mut bad = BoardArrowDrawing::new(0u32);
    bad.set_color(5u32);
    assert_eq!(bad.current_style, 5);
    bad.add_arrow((0, 0), (1, 1));
    assert_eq!(bad.arrows.len(), 1);
}
