use xiangqi::difficulty::Difficulty;
use xiangqi::gui::board_view::{can_interact, drop_outcome, drop_target, DropOutcome, file_labels, plan_sprites, CoordinateStyle};
use xiangqi::gui::captured_tray::{balance_caption, captured_tray, row_caption, sort_for_tray};
use xiangqi::gui::clock_ui::{is_low_time, timeout_result, warning_tick};
use xiangqi::gui::confirm_resign::resign_prompt;
use xiangqi::gui::difficulty_dialog::{dialog_levels, engine_line, level_desc, level_for_digit};
use xiangqi::xiangqi::{Color, GameResult, Piece, PieceKind, Square, WinReason};

fn sq(file: u8, rank: u8) -> Square {
    Square { file, rank }
}

fn piece(color: Color, kind: PieceKind) -> Piece {
    Piece { color, kind }
}

#[test]
fn tray_sorts_most_valuable_first() {
    let kinds = [
        PieceKind::Pawn,
        PieceKind::Chariot,
        PieceKind::Horse,
        PieceKind::Cannon,
        PieceKind::Pawn,
        PieceKind::Advisor,
        PieceKind::Elephant,
    ];
    let sorted = sort_for_tray(&kinds);
    assert_eq!(
        sorted,
        vec![
            PieceKind::Chariot,
            PieceKind::Cannon,
            PieceKind::Horse,
            PieceKind::Elephant,
            PieceKind::Advisor,
            PieceKind::Pawn,
            PieceKind::Pawn,
        ]
    );
}

#[test]
fn tray_groups_captures_by_capturer() {
    let caps = [
        None,
        Some(piece(Color::Black, PieceKind::Pawn)),
        Some(piece(Color::Red, PieceKind::Horse)),
        Some(piece(Color::Black, PieceKind::Chariot)),
        None,
        Some(piece(Color::Red, PieceKind::Cannon)),
    ];
    let t = captured_tray(&caps, false);
    assert_eq!(t.red_captured, vec![PieceKind::Chariot, PieceKind::Pawn]);
    assert_eq!(t.black_captured, vec![PieceKind::Cannon, PieceKind::Horse]);
    assert_eq!(t.last_capture, Some(Color::Red));
    let over = captured_tray(&caps, true);
    assert_eq!(over.last_capture, None);
    let quiet = captured_tray(&caps[..5], false);
    assert_eq!(quiet.last_capture, None);
}

#[test]
fn tray_captions() {
    assert_eq!(row_caption(13, 2), " (13, 2子)");
    assert_eq!(row_caption(0, 0), "");
    assert_eq!(balance_caption(13, 4, 5), "红方大优 +9 (吃5子)");
    assert_eq!(balance_caption(5, 2, 2), "红方优势 +3 (吃2子)");
    assert_eq!(balance_caption(2, 9, 3), "黑方大优 +7 (吃3子)");
    assert_eq!(balance_caption(2, 4, 2), "黑方优势 +2 (吃2子)");
    assert_eq!(balance_caption(4, 4, 2), "「衡」 子力平衡 (吃2子)");
}

#[test]
fn resign_prompt_variants() {
    assert_eq!(
        resign_prompt(4, 50, 50, 32, 45),
        "确认认输？\n(仅走4手, 45秒 · 开局 · 局面尚早!)"
    );
    assert_eq!(
        resign_prompt(24, 60, 50, 20, 125),
        "确认认输？\n(已走24手, 2分5秒 · 中局 · 你的子力领先!)"
    );
    assert_eq!(resign_prompt(40, 20, 30, 12, 600), "确认认输？\n(已走40手, 10分0秒 · 残局)");
}

#[test]
fn difficulty_dialog_offers_four_levels() {
    assert_eq!(
        dialog_levels(),
        vec![Difficulty::Easy, Difficulty::Medium, Difficulty::Hard, Difficulty::Master]
    );
    assert_eq!(level_desc(Difficulty::Hard).0, "困难");
    assert_eq!(level_desc(Difficulty::Easy).1, "每步约 0.2 秒 · 轻快随手，适合热身");
    assert_eq!(level_for_digit(4), Some(Difficulty::Master));
    assert_eq!(level_for_digit(5), None);
    assert_eq!(engine_line(false), "引擎 · 内置（基础）");
}

#[test]
fn coordinate_labels() {
    assert_eq!(CoordinateStyle::Traditional.next(), CoordinateStyle::Algebraic);
    assert_eq!(CoordinateStyle::Algebraic.label(), "代数");
    assert_eq!(file_labels(CoordinateStyle::Traditional, 0), ('九', '1'));
    assert_eq!(file_labels(CoordinateStyle::Traditional, 8), ('一', '9'));
    assert_eq!(file_labels(CoordinateStyle::Algebraic, 2), ('c', 'c'));
}

#[test]
fn sprite_plan_slides_the_mover_and_keeps_the_captured() {
    let red_chariot = piece(Color::Red, PieceKind::Chariot);
    let black_horse = piece(Color::Black, PieceKind::Horse);
    let red_king = piece(Color::Red, PieceKind::King);
    // On screen: chariot on a0, horse on a5, king on e0.
    let sprites = [(sq(0, 0), red_chariot), (sq(0, 5), black_horse), (sq(4, 0), red_king)];
    // Now: chariot took the horse on a5.
    let board = [(sq(0, 5), red_chariot), (sq(4, 0), red_king)];
    let plan = plan_sprites(&sprites, &board, Some((sq(0, 0), sq(0, 5))), false);
    assert_eq!(plan.kept, vec![true, true, true]);
    assert_eq!(plan.covered, vec![true, true]);
    assert_eq!(plan.mover, Some(0));
    assert_eq!(plan.captured, Some(1));
    let viewing = plan_sprites(&sprites, &board, Some((sq(0, 0), sq(0, 5))), true);
    assert_eq!(viewing.kept, vec![false, false, true]);
    assert_eq!(viewing.covered, vec![false, true]);
    assert_eq!(viewing.mover, None);
}

#[test]
fn clock_decisions() {
    assert!(is_low_time(29));
    assert!(!is_low_time(30));
    assert_eq!(
        timeout_result(true, true),
        Some(GameResult::Win { winner: Color::Black, reason: WinReason::Timeout })
    );
    assert_eq!(
        timeout_result(false, true),
        Some(GameResult::Win { winner: Color::Red, reason: WinReason::Timeout })
    );
    assert_eq!(timeout_result(false, false), None);
    assert_eq!(warning_tick(true, 9, u32::MAX), (true, 9));
    assert_eq!(warning_tick(true, 9, 9), (false, 9));
    assert_eq!(warning_tick(true, 12, 9), (false, u32::MAX));
    assert_eq!(warning_tick(false, 5, 6), (false, u32::MAX));
}

#[test]
fn drag_needs_a_live_local_turn() {
    assert!(can_interact(false, false, false, false, false, true));
    assert!(!can_interact(true, false, false, false, false, true));
    assert!(!can_interact(false, true, false, false, false, true));
    assert!(!can_interact(false, false, false, false, false, false));
}

#[test]
fn drop_decisions() {
    let from = sq(1, 2);
    assert_eq!(drop_target(Some(sq(1, 5)), from), Some(sq(1, 5)));
    assert_eq!(drop_target(Some(from), from), None);
    assert_eq!(drop_target(None, from), None);
    assert_eq!(drop_outcome(Some(sq(1, 5)), from, true), DropOutcome::Applied);
    assert_eq!(drop_outcome(Some(sq(1, 5)), from, false), DropOutcome::SnapBack { invalid: true });
    assert_eq!(drop_outcome(Some(from), from, false), DropOutcome::SnapBack { invalid: false });
    assert_eq!(drop_outcome(None, from, false), DropOutcome::SnapBack { invalid: false });
}
