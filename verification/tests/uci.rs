use xiangqi::difficulty::Difficulty;
use xiangqi::uci::{
    engine_config, engine_tuning, go_command, parse_bestmove_line, parse_info_line, position_command,
    setoption_command, SearchInfo, UciConfig,
};
use xiangqi::xiangqi::{Color, Move};

fn parse(line: &str, stm: Color) -> Option<SearchInfo> {
    parse_info_line(line, stm, 123)
}

#[test]
fn parse_info_line_cp_with_pv() {
    let info = parse(
        "info depth 22 seldepth 30 multipv 1 score cp 35 nodes 1234567 time 1234 pv h2e2 h9g7 b0c2",
        Color::Red,
    )
    .expect("should parse");
    assert_eq!(info.depth, 22);
    assert_eq!(info.score, 35);
    assert_eq!(info.nodes, 1234567);
    assert_eq!(info.side_to_move, Color::Red);
    assert!(!info.is_final);
    assert_eq!(info.pv.len(), 3);
    assert_eq!(info.pv[0].to_iccs(), "h2e2");
}

#[test]
fn parse_info_line_negative_score_and_black_stm() {
    let info = parse("info depth 10 score cp -88 nodes 42", Color::Black).unwrap();
    assert_eq!(info.score, -88);
    assert_eq!(info.side_to_move, Color::Black);
    assert_eq!(info.red_score(), 88);
}

#[test]
fn parse_info_line_mate_encoding() {
    let mate3 = parse("info depth 20 score mate 3 nodes 1", Color::Red).unwrap();
    assert!(mate3.score >= 9900, "mate must use the >=9900 convention");
    assert_eq!((10000 - mate3.score.abs()) / 2, 3);

    let mate10 = parse("info depth 20 score mate -10 nodes 1", Color::Red).unwrap();
    assert!(mate10.score <= -9900);
    assert_eq!((10000 - mate10.score.abs()) / 2, 10);
}

#[test]
fn parse_info_line_rejects_non_info() {
    assert!(parse("bestmove h2e2", Color::Red).is_none());
    assert!(parse("uciok", Color::Red).is_none());
    assert!(parse("", Color::Red).is_none());
    assert!(parse("info string Pikafish is thinking", Color::Red).is_none());
    assert!(parse("info depth 5 currmove h2e2", Color::Red).is_none());
}

#[test]
fn parse_bestmove_with_and_without_ponder() {
    let (mv, ponder) = parse_bestmove_line("bestmove h2e2").unwrap();
    assert_eq!(mv.to_iccs(), "h2e2");
    assert!(ponder.is_none());

    let (mv, ponder) = parse_bestmove_line("bestmove h2e2 ponder h9g7").unwrap();
    assert_eq!(mv.to_iccs(), "h2e2");
    assert_eq!(ponder.unwrap().to_iccs(), "h9g7");

    assert!(parse_bestmove_line("info depth 3").is_none());
    assert!(parse_bestmove_line("bestmove (none)").is_none());
    let (_, ponder) = parse_bestmove_line("bestmove h2e2 ponder (none)").unwrap();
    assert!(ponder.is_none());
}

#[test]
fn info_line_keeps_elapsed_time_given() {
    let info = parse_info_line("info depth 3 score cp 7 nodes 9", Color::Red, 456).unwrap();
    assert_eq!(info.elapsed_ms, 456);
    assert!(info.pv.is_empty());
}

#[test]
fn mate_scores_are_clamped() {
    let big = parse("info depth 1 score mate 900 nodes 1", Color::Red).unwrap();
    assert_eq!(big.score, 10000 - 1000);
    let zero = parse("info depth 1 score mate 0 nodes 1", Color::Red).unwrap();
    assert_eq!(zero.score, 9998);
}

#[test]
fn commands_are_formatted() {
    assert_eq!(setoption_command("Threads", "4"), "setoption name Threads value 4");
    assert_eq!(go_command(1500, false), "go movetime 1500");
    assert_eq!(go_command(1500, true), "go ponder movetime 1500");
    let h2e2 = Move::from_iccs("h2e2").unwrap();
    let h9g7 = Move::from_iccs("h9g7").unwrap();
    assert_eq!(
        position_command("startfen w", &[h2e2, h9g7]),
        "position fen startfen w moves h2e2 h9g7"
    );
    assert_eq!(position_command("startfen w", &[]), "position fen startfen w");
}

#[test]
fn config_builder_collects_options() {
    let cfg = UciConfig::new("pikafish".to_string())
        .with_option("Threads".to_string(), "2".to_string())
        .with_option("Hash".to_string(), "16".to_string());
    assert_eq!(cfg.path, "pikafish");
    assert_eq!(cfg.options.len(), 2);
    assert_eq!(cfg.options[1], ("Hash".to_string(), "16".to_string()));
    assert_eq!(cfg.handshake_timeout_ms, 10_000);
}

#[test]
fn tuning_scales_with_difficulty_and_cores() {
    assert_eq!(engine_tuning(Difficulty::Master, 8), (4, 32));
    assert_eq!(engine_tuning(Difficulty::Easy, 1), (1, 32));
    assert_eq!(engine_tuning(Difficulty::Extreme, 8), (8, 256));
    assert_eq!(engine_tuning(Difficulty::Extreme, 64), (16, 256));
    let cfg = engine_config(
        Some("pikafish".to_string()),
        Some("pikafish.nnue".to_string()),
        Difficulty::Hard,
        4,
    )
    .unwrap();
    assert_eq!(cfg.options[0], ("EvalFile".to_string(), "pikafish.nnue".to_string()));
    assert_eq!(cfg.options[1], ("Threads".to_string(), "2".to_string()));
    assert_eq!(cfg.options[2], ("Hash".to_string(), "32".to_string()));
    assert!(engine_config(None, None, Difficulty::Easy, 4).is_none());
}

#[test]
fn engine_config_none_without_external_engine() {
    assert!(engine_config(None, None, Difficulty::Easy, 8).is_none(), "no engine -> built-in");
}

#[test]
fn engine_config_carries_eval_and_tuning_options() {
    let cfg = engine_config(
        Some("/tmp/fake-pikafish".to_string()),
        Some("/tmp/fake.nnue".to_string()),
        Difficulty::Hard,
        8,
    )
    .expect("engine configured");
    let keys: Vec<&str> = cfg.options.iter().map(|(k, _)| k.as_str()).collect();
    assert!(keys.contains(&"EvalFile"));
    assert!(keys.contains(&"Threads"));
    assert!(keys.contains(&"Hash"));
}

#[test]
fn engine_tuning_gives_extreme_the_whole_machine() {
    for cores in [1usize, 2, 6, 12, 32] {
        let (threads, hash) = engine_tuning(Difficulty::Extreme, cores);
        assert_eq!(threads, cores.clamp(1, 16));
        assert_eq!(hash, 256);
        let (t, h) = engine_tuning(Difficulty::Hard, cores);
        assert_eq!(t, (cores / 2).clamp(1, 4));
        assert_eq!(h, 32);
    }
}
