use xiangqi::gui::analysis_mode::{analysis_step, pv_line, AnalysisMode, AnalysisStep};
use xiangqi::uci::SearchInfo;
use xiangqi::xiangqi::{Color, Move, Square};

#[test]
fn test_analysis_mode_toggle() {
    let mut analysis = AnalysisMode::default();
    assert!(!analysis.active);
    analysis.toggle();
    assert!(analysis.active);
    analysis.toggle();
    assert!(!analysis.active);
}

#[test]
fn test_eval_string_normal() {
    let mut analysis = AnalysisMode::default();
    analysis.eval_score = 150;
    assert_eq!(analysis.eval_string(), "+1.50");
    analysis.eval_score = -250;
    assert_eq!(analysis.eval_string(), "-2.50");
}

#[test]
fn eval_string_small_and_zero_scores() {
    let mut analysis = AnalysisMode::default();
    analysis.eval_score = 0;
    assert_eq!(analysis.eval_string(), "+0.00");
    analysis.eval_score = -5;
    assert_eq!(analysis.eval_string(), "-0.05");
    analysis.eval_score = 9899;
    assert_eq!(analysis.eval_string(), "+98.99");
}

#[test]
fn test_eval_string_mate() {
    let mut analysis = AnalysisMode::default();
    analysis.eval_score = 9990;
    assert_eq!(analysis.eval_string(), "M5 (红胜)");
    analysis.eval_score = -9980;
    assert_eq!(analysis.eval_string(), "M10 (黑胜)");
}

#[test]
fn test_record_eval() {
    let mut analysis = AnalysisMode::default();
    analysis.eval_score = 100;
    analysis.record_eval();
    assert_eq!(analysis.eval_history.len(), 1);
    assert_eq!(analysis.eval_history[0], 100);
    analysis.eval_score = 200;
    analysis.record_eval();
    assert_eq!(analysis.eval_history.len(), 2);
    assert_eq!(analysis.eval_history[1], 200);
}

#[test]
fn history_keeps_the_last_hundred() {
    let mut analysis = AnalysisMode::default();
    for i in 0..150 {
        analysis.eval_score = i;
        analysis.record_eval();
    }
    assert_eq!(analysis.eval_history.len(), 100);
    assert_eq!(analysis.eval_history[0], 50);
    assert_eq!(analysis.eval_history[99], 149);
}

#[test]
fn analysis_mode_test_clear() {
    let mut analysis = AnalysisMode::default();
    analysis.eval_score = 100;
    analysis.best_move = Some(Move { from: Square::new(0, 0).unwrap(), to: Square::new(0, 1).unwrap() });
    analysis.depth = 10;
    analysis.nodes = 1000;
    analysis.clear();
    assert_eq!(analysis.eval_score, 0);
    assert!(analysis.best_move.is_none());
    assert_eq!(analysis.depth, 0);
    assert_eq!(analysis.nodes, 0);
}

#[test]
fn update_from_search_info_uses_red_perspective() {
    let mut analysis = AnalysisMode::default();
    let info = SearchInfo {
        depth: 12,
        score: -100,
        side_to_move: Color::Black,
        pv: vec![Move::new(Square::new(4, 2).unwrap(), Square::new(4, 5).unwrap())],
        nodes: 5000,
        elapsed_ms: 0,
        is_final: false,
    };
    analysis.update_from_search_info(&info);
    assert_eq!(analysis.eval_score, 100, "...stored as Red advantage");
    assert_eq!(analysis.depth, 12);
    assert!(analysis.best_move.is_some());
}

#[test]
fn stale_position_data_is_cleared_on_fen_mismatch() {
    let mut analysis = AnalysisMode::default();
    analysis.active = true;
    analysis.info_fen = "some-position".to_string();
    analysis.eval_score = 150;
    analysis.best_move = Some(Move::new(Square::new(0, 0).unwrap(), Square::new(0, 1).unwrap()));
    if analysis.info_fen != "a-different-position" {
        analysis.clear_position_data();
    }
    assert!(analysis.best_move.is_none());
    assert_eq!(analysis.eval_score, 0);
    assert!(analysis.info_fen.is_empty());
}

#[test]
fn variation_line_shows_six_moves() {
    let moves: Vec<Move> = ["h2e2", "h9g7", "b0c2", "i9h9", "a0b0", "b9c7", "c3c4"]
        .iter()
        .map(|s| Move::from_iccs(s).unwrap())
        .collect();
    assert_eq!(pv_line(&moves), "变化：h2e2 h9g7 b0c2 i9h9 a0b0 b9c7");
    assert_eq!(pv_line(&moves[..1]), "");
    assert_eq!(pv_line(&moves[..2]), "变化：h2e2 h9g7");
}

#[test]
fn sync_to_position_clears_stale_and_records() {
    let mut analysis = AnalysisMode::default();
    analysis.eval_score = 120;
    analysis.depth = 9;
    analysis.info_fen = String::from("old");
    analysis.sync_to_position("new", 1);
    assert_eq!(analysis.eval_score, 0);
    assert_eq!(analysis.depth, 0);
    assert_eq!(analysis.info_fen, "");
    assert_eq!(analysis.eval_history, vec![0]);
    analysis.eval_score = 40;
    analysis.info_fen = String::from("new");
    analysis.sync_to_position("new", 1);
    assert_eq!(analysis.eval_score, 40);
    assert_eq!(analysis.eval_history, vec![0]);
    analysis.sync_to_position("new", 2);
    assert_eq!(analysis.eval_history, vec![0, 40]);
}

#[test]
fn analysis_step_decisions() {
    assert_eq!(analysis_step(false, false, false, true, false, "a", "b"), AnalysisStep::Stop);
    assert_eq!(analysis_step(true, true, false, false, false, "a", "a"), AnalysisStep::Stop);
    assert_eq!(analysis_step(true, false, true, true, false, "a", "b"), AnalysisStep::Mirror);
    assert_eq!(
        analysis_step(true, false, false, true, false, "a", "b"),
        AnalysisStep::Run { abort: true, finished: false, launch: true }
    );
    assert_eq!(
        analysis_step(true, false, false, true, true, "a", "a"),
        AnalysisStep::Run { abort: false, finished: true, launch: false }
    );
    assert_eq!(
        analysis_step(true, false, false, false, false, "", "a"),
        AnalysisStep::Run { abort: false, finished: false, launch: true }
    );
}
