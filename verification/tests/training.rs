use xiangqi::gui::training::{EndgamePuzzleGen, EndgameResult, EndgameTablebase, EndgameTraining, EndgameTrainingMode};

#[test]
fn endgame_training_test_default() {
    let t = EndgameTraining::default();
    assert!(!t.active);
    assert!(!t.exercises.is_empty());
}

#[test]
fn test_progress() {
    let t = EndgameTraining::default();
    let (done, all) = t.progress_counts();
    assert_eq!(done as f32 / all as f32 * 100.0, 0.0);
}

#[test]
fn test_mark_complete() {
    let mut t = EndgameTraining::default();
    t.mark_complete();
    assert!(t.completed[0]);
    assert!(t.progress_counts().0 > 0);
}

#[test]
fn exercises_advance_and_stop_at_the_last() {
    let mut t = EndgameTraining::default();
    assert_eq!(t.current_exercise().unwrap().name_cn, "单车杀王");
    t.next_exercise();
    t.next_exercise();
    assert_eq!(t.current_idx, 1);
    assert_eq!(t.current_exercise().unwrap().name_cn, "双车杀王");
}

#[test]
fn test_record_attempt() {
    let mut etm = EndgameTrainingMode::default();
    etm.record_attempt(true);
    etm.record_attempt(false);
    assert_eq!(etm.attempts, 2);
    assert_eq!(etm.solved, 1);
    assert_eq!(etm.solved as f32 / etm.attempts as f32 * 100.0, 50.0);
}

#[test]
fn test_next_puzzle() {
    let mut etm = EndgameTrainingMode::default();
    etm.next_puzzle();
    assert_eq!(etm.current_puzzle, 1);
    etm.next_puzzle();
    assert_eq!(etm.current_puzzle, 1);
    assert_eq!(etm.current_puzzle().unwrap().name, "双车杀王");
}

#[test]
fn test_generate() {
    let mut gen = EndgamePuzzleGen::default();
    gen.generate_from_position("fen", vec!["e3e9".to_string()], 2);
    assert_eq!(gen.puzzle_count(), 1);
    assert_eq!(gen.generated[0].description, "残局难题 #1");
}

#[test]
fn endgame_puzzle_gen_test_clear() {
    let mut gen = EndgamePuzzleGen::default();
    gen.generate_from_position("fen", vec![], 1);
    gen.clear();
    assert_eq!(gen.puzzle_count(), 0);
}

#[test]
fn test_lookup() {
    let mut etb = EndgameTablebase::default();
    etb.add_position("test", EndgameResult::Win, 5);
    assert_eq!(etb.lookup("test"), Some((EndgameResult::Win, 5)));
    assert_eq!(etb.lookup("other"), None);
    etb.add_position("test", EndgameResult::Draw, 0);
    assert_eq!(etb.lookup("test"), Some((EndgameResult::Draw, 0)));
    assert_eq!(etb.position_count(), 1);
    assert!(etb.best_move("test").is_none());
    assert_eq!(EndgameResult::Loss.label_cn(), "必败");
}
