use xiangqi::gui::daily_puzzle::{is_consecutive_day, DailyPuzzleChallenge};

#[test]
fn daily_puzzle_test_default() {
    let dpc = DailyPuzzleChallenge::default();
    assert!(!dpc.completed_today);
    assert_eq!(dpc.total_completed, 0);
    assert_eq!(dpc.daily_streak, 0);
}

#[test]
fn test_generate_puzzle() {
    let mut dpc = DailyPuzzleChallenge::default();
    dpc.generate_puzzle_for_date("2026-06-06");
    assert!(dpc.current_puzzle.is_some());
    assert_eq!(dpc.current_puzzle.as_ref().unwrap().date, "2026-06-06");
}

#[test]
fn test_same_date_same_puzzle() {
    let mut dpc1 = DailyPuzzleChallenge::default();
    let mut dpc2 = DailyPuzzleChallenge::default();
    dpc1.generate_puzzle_for_date("2026-06-06");
    dpc2.generate_puzzle_for_date("2026-06-06");
    assert_eq!(dpc1.current_puzzle.as_ref().unwrap().fen, dpc2.current_puzzle.as_ref().unwrap().fen);
}

#[test]
fn puzzle_is_picked_by_the_date_hash() {
    let date = "2026-06-06";
    let h = date.bytes().fold(0u64, |acc, b| acc.wrapping_mul(31).wrapping_add(b as u64));
    let fens = [
        "4k4/9/9/9/9/9/9/9/4R4/4K4 w - - 0 1",
        "3k5/9/9/9/9/9/9/9/R8/4K4 w - - 0 1",
        "4k4/9/9/9/9/9/9/4R4/9/4K4 w - - 0 1",
    ];
    let mut dpc = DailyPuzzleChallenge::default();
    dpc.generate_puzzle_for_date(date);
    assert_eq!(dpc.current_puzzle.as_ref().unwrap().fen, fens[(h % 3) as usize]);
}

#[test]
fn test_record_completion() {
    let mut dpc = DailyPuzzleChallenge::default();
    dpc.record_completion("2026-06-06");
    assert!(dpc.completed_today);
    assert_eq!(dpc.total_completed, 1);
    assert_eq!(dpc.daily_streak, 1);
}

#[test]
fn test_consecutive_days() {
    let mut dpc = DailyPuzzleChallenge::default();
    dpc.record_completion("2026-06-06");
    dpc.record_completion("2026-06-07");
    assert_eq!(dpc.daily_streak, 2);
    assert_eq!(dpc.longest_streak, 2);
}

#[test]
fn test_non_consecutive_resets_streak() {
    let mut dpc = DailyPuzzleChallenge::default();
    dpc.record_completion("2026-06-06");
    dpc.record_completion("2026-06-10");
    assert_eq!(dpc.daily_streak, 1);
}

#[test]
fn daily_puzzle_test_summary() {
    let mut dpc = DailyPuzzleChallenge::default();
    let summary = dpc.summary();
    assert!(summary.contains("未"));
    dpc.record_completion("2026-06-06");
    let summary = dpc.summary();
    assert!(summary.contains("已"));
    assert_eq!(summary, "每日残局: 已完成 | 连续1天 | 最长连续1天");
}

#[test]
fn test_is_consecutive_day() {
    assert!(is_consecutive_day("2026-06-06", "2026-06-07"));
    assert!(!is_consecutive_day("2026-06-06", "2026-06-08"));
    assert!(!is_consecutive_day("2026-06-06", "2026-06-06"));
}

#[test]
fn malformed_dates_are_never_consecutive() {
    assert!(!is_consecutive_day("2026-06", "2026-06-07"));
    assert!(!is_consecutive_day("2026-06-06", "tomorrow"));
    assert!(!is_consecutive_day("2026-06-06-01", "2026-06-07"));
    assert!(is_consecutive_day("2026-06-30", "2026-07-01"));
    assert!(is_consecutive_day("+2026-06-06", "2026-06-07"));
}
