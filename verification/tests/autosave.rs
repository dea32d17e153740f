use xiangqi::gui::autosave::{
    autosave_meta, autosave_pgn, clear_due_on_menu, periodic_save_due, save_due_on_move, AutoSaveMeta,
};
use xiangqi::gui::game_settings::GameMode;
use xiangqi::xiangqi::Move;

#[test]
fn test_meta_display() {
    let meta = AutoSaveMeta { mode: "VsAi".to_string(), move_count: 42, fen: String::new() };
    let display = meta.display();
    assert!(display.contains("人机"));
    assert!(display.contains("42"));
    assert_eq!(display, "人机对局, 42步");
}

#[test]
fn test_meta_display_local() {
    let meta = AutoSaveMeta { mode: "Local".to_string(), move_count: 10, fen: String::new() };
    let display = meta.display();
    assert!(display.contains("本地"));
}

#[test]
fn test_disabled_autosave() {
    assert!(!save_due_on_move(false, 5, 0));
    assert!(!periodic_save_due(false, GameMode::VsAi, 5, true));
}

#[test]
fn save_decisions() {
    assert!(save_due_on_move(true, 5, 4));
    assert!(!save_due_on_move(true, 4, 4));
    assert!(periodic_save_due(true, GameMode::LocalPvp, 1, true));
    assert!(!periodic_save_due(true, GameMode::LanHost, 1, true));
    assert!(!periodic_save_due(true, GameMode::VsAi, 0, true));
    assert!(clear_due_on_menu(0, true));
    assert!(!clear_due_on_menu(1, true));
}

#[test]
fn pgn_and_meta_text() {
    let moves = [Move::from_iccs("h2e2").unwrap(), Move::from_iccs("h9g7").unwrap(), Move::from_iccs("b0c2").unwrap()];
    let pgn = autosave_pgn(GameMode::VsAi, "FEN", &moves);
    assert_eq!(
        pgn,
        "[Event \"AutoSave\"]\n[Mode \"VsAi\"]\n[FEN \"FEN\"]\n[MoveCount \"3\"]\n\n1. h3e3 h10g8 2. b1c3"
    );
    assert_eq!(autosave_meta(GameMode::LanJoin, 3, "X"), "mode=Other\nmoves=3\nfen=X");
}

#[test]
fn meta_reads_back_what_was_written() {
    let text = autosave_meta(GameMode::LocalPvp, 17, "4k4/9 w");
    let meta = AutoSaveMeta::parse(&text);
    assert_eq!(meta.mode, "Local");
    assert_eq!(meta.move_count, 17);
    assert_eq!(meta.fen, "4k4/9 w");
}

#[test]
fn meta_parse_tolerates_noise() {
    let meta = AutoSaveMeta::parse("junk\r\nmoves=abc\r\nmode=VsAi\r\n");
    assert_eq!(meta.mode, "VsAi");
    assert_eq!(meta.move_count, 0);
    assert_eq!(meta.fen, "");
    let empty = AutoSaveMeta::parse("");
    assert_eq!(empty.mode, "");
}

#[test]
fn saved_meta_reads_back() {
    let fen = "rnbakabnr/9/1c5c1/p1p1p1p1p/9/9/P1P1P1P1P/1C5C1/9/RNBAKABNR w - - 0 1";
    for (mode, name) in [(GameMode::VsAi, "VsAi"), (GameMode::LocalPvp, "Local"), (GameMode::LanJoin, "Other")] {
        let meta = AutoSaveMeta::parse(&autosave_meta(mode, 37, fen));
        assert_eq!(meta.mode, name);
        assert_eq!(meta.move_count, 37);
        assert_eq!(meta.fen, fen);
    }
    let empty = AutoSaveMeta::parse(&autosave_meta(GameMode::VsAi, 0, ""));
    assert_eq!(empty.move_count, 0);
    assert_eq!(empty.fen, "");
}

#[test]
fn board_fen_meta_reads_back() {
    let board = xiangqi::xiangqi::Board::start_position();
    let fen = board.to_fen();
    assert!(!fen.contains('\n'));
    let meta = AutoSaveMeta::parse(&autosave_meta(GameMode::LocalPvp, 3, &fen));
    assert_eq!(meta.fen, fen);
    assert_eq!(meta.mode, "Local");
    assert_eq!(meta.move_count, 3);
}
