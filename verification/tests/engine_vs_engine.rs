use xiangqi::gui::engine_vs_engine::{outcome_of, EngineGameStatus, EngineVsEngine, EngineVsEngineConfig};
use xiangqi::xiangqi::{Color, DrawReason, GameResult, Move, Square, WinReason};

/// A stand-in engine handle.
#[derive(Debug, Clone, Copy, PartialEq)]
struct Engine(u8);

fn create_test_move() -> Move {
    Move { from: Square::new(4, 0).unwrap(), to: Square::new(4, 1).unwrap() }
}

fn started(config: EngineVsEngineConfig) -> EngineVsEngine<Engine> {
    let mut evs = EngineVsEngine::new();
    evs.start_game(config, Engine(1), Engine(2), 0);
    evs
}

#[test]
fn test_engine_vs_engine_default() {
    let evs: EngineVsEngine<Engine> = EngineVsEngine::new();
    assert_eq!(evs.status, EngineGameStatus::Idle);
    assert_eq!(evs.move_number, 0);
    assert!(evs.moves.is_empty());
}

#[test]
fn test_start_game() {
    let evs = started(EngineVsEngineConfig::default());
    assert_eq!(evs.status, EngineGameStatus::Running);
    assert!(evs.red_engine.is_some());
    assert!(evs.black_engine.is_some());
}

#[test]
fn test_pause_resume() {
    let mut evs = started(EngineVsEngineConfig::default());
    evs.pause();
    assert_eq!(evs.status, EngineGameStatus::Paused);
    evs.resume(10);
    assert_eq!(evs.status, EngineGameStatus::Running);
}

#[test]
fn test_stop_game() {
    let mut evs = started(EngineVsEngineConfig::default());
    evs.stop();
    assert_eq!(evs.status, EngineGameStatus::Finished);
    assert!(evs.end_reason.is_some());
}

#[test]
fn test_record_move() {
    let mut evs = started(EngineVsEngineConfig::default());
    evs.record_move(create_test_move(), 5);
    assert_eq!(evs.moves.len(), 1);
    assert_eq!(evs.move_number, 1);
}

#[test]
fn test_side_to_move() {
    let mut evs = started(EngineVsEngineConfig::default());
    assert_eq!(evs.side_to_move(), Color::Red);
    evs.record_move(create_test_move(), 1);
    assert_eq!(evs.side_to_move(), Color::Black);
    evs.record_move(create_test_move(), 2);
    assert_eq!(evs.side_to_move(), Color::Red);
}

#[test]
fn test_end_game() {
    let mut evs = started(EngineVsEngineConfig::default());
    evs.end_game(Some(Color::Red), "Checkmate".to_string());
    assert_eq!(evs.status, EngineGameStatus::Finished);
    assert_eq!(evs.winner, Some(Color::Red));
    assert_eq!(evs.end_reason, Some("Checkmate".to_string()));
}

#[test]
fn engine_vs_engine_test_summary() {
    let evs = started(EngineVsEngineConfig::default());
    let summary = evs.summary();
    assert!(summary.contains("Running"));
    assert!(summary.contains("Move 0"));
    assert_eq!(summary, "Engine vs Engine - Running - Move 0 - In progress");
}

#[test]
fn test_should_make_move() {
    let mut config = EngineVsEngineConfig::default();
    config.move_delay_ms = 0;
    let mut evs = started(config);
    assert!(evs.should_make_move(0));
    evs.pause();
    assert!(!evs.should_make_move(1000));
}

#[test]
fn delay_is_measured_from_the_last_move() {
    let mut evs = started(EngineVsEngineConfig::default());
    evs.record_move(create_test_move(), 1000);
    assert!(!evs.should_make_move(1499));
    assert!(evs.should_make_move(1500));
    assert!(!evs.should_make_move(10));
}

#[test]
fn test_get_search_limits() {
    let mut config = EngineVsEngineConfig::default();
    config.time_per_move_ms = 2000;
    config.max_depth = 15;
    let evs = started(config);
    let limits = evs.get_search_limits();
    assert_eq!(limits.movetime_ms, 2000);
    assert_eq!(limits.max_depth, 15);
}

#[test]
fn test_config_default() {
    let config = EngineVsEngineConfig::default();
    assert_eq!(config.time_per_move_ms, 1000);
    assert_eq!(config.max_depth, 10);
    assert_eq!(config.move_delay_ms, 500);
    assert!(!config.random_opening);
}

#[test]
fn test_current_engine() {
    let mut evs = started(EngineVsEngineConfig::default());
    assert_eq!(evs.current_engine(), Some(&Engine(1)));
    evs.record_move(create_test_move(), 1);
    assert_eq!(evs.current_engine(), Some(&Engine(2)));
}

#[test]
fn outcomes_name_winner_and_reason() {
    assert_eq!(
        outcome_of(GameResult::Win { winner: Color::Black, reason: WinReason::PerpetualCheck }),
        (Some(Color::Black), "Perpetual check")
    );
    assert_eq!(outcome_of(GameResult::Draw(DrawReason::NoCapture)), (None, "60 moves no capture"));
}

#[test]
fn current_engine_mut_drives_the_side_to_move() {
    let mut evs = started(EngineVsEngineConfig::default());
    if let Some(e) = evs.current_engine_mut() {
        *e = Engine(7);
    }
    assert_eq!(evs.red_engine, Some(Engine(7)));
    evs.record_move(create_test_move(), 1);
    if let Some(e) = evs.current_engine_mut() {
        *e = Engine(9);
    }
    assert_eq!(evs.black_engine, Some(Engine(9)));
    assert_eq!(evs.red_engine, Some(Engine(7)));
}
