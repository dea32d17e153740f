use xiangqi::gui::analytics::{Analytics, GameOutcome, TimeControlCategory};

#[test]
fn analytics_test_default() {
    let a = Analytics::new();
    assert_eq!(a.total_games(), 0);
    assert_eq!(a.win_totals(), (0, 0));
}

#[test]
fn test_record_game() {
    let mut a = Analytics::new();
    a.record_game(10, GameOutcome::Win, 40, Some("中炮"));
    assert_eq!(a.total_games(), 1);
    let (w, n) = a.win_totals();
    assert_eq!(w as f32 / n as f32 * 100.0, 100.0);
}

#[test]
fn test_time_control_categories() {
    assert_eq!(TimeControlCategory::from_minutes(0), TimeControlCategory::Unlimited);
    assert_eq!(TimeControlCategory::from_minutes(2), TimeControlCategory::Bullet);
    assert_eq!(TimeControlCategory::from_minutes(5), TimeControlCategory::Blitz);
    assert_eq!(TimeControlCategory::from_minutes(15), TimeControlCategory::Rapid);
    assert_eq!(TimeControlCategory::from_minutes(60), TimeControlCategory::Classical);
}

#[test]
fn test_win_rate_by_category() {
    let mut a = Analytics::new();
    a.record_game(5, GameOutcome::Win, 30, None);
    a.record_game(5, GameOutcome::Loss, 25, None);
    a.record_game(15, GameOutcome::Win, 50, None);
    let blitz = a.time_control_tally(TimeControlCategory::Blitz).unwrap();
    assert_eq!(blitz.wins, 1);
    assert_eq!(blitz.losses, 1);
    assert!(a.time_control_tally(TimeControlCategory::Bullet).is_none());
}

#[test]
fn test_avg_game_length() {
    let mut a = Analytics::new();
    a.record_game(5, GameOutcome::Win, 30, None);
    a.record_game(5, GameOutcome::Loss, 50, None);
    let (sum, n) = a.length_totals();
    assert_eq!(sum as f32 / n as f32, 40.0);
}

#[test]
fn test_opening_stats() {
    let mut a = Analytics::new();
    a.record_game(10, GameOutcome::Win, 40, Some("中炮"));
    a.record_game(10, GameOutcome::Win, 35, Some("中炮"));
    a.record_game(10, GameOutcome::Loss, 30, Some("中炮"));
    a.record_game(10, GameOutcome::Win, 45, Some("飞相"));
    let (wins, total) = a.opening_stats("中炮").unwrap();
    assert_eq!(wins, 2);
    assert_eq!(total, 3);
}

#[test]
fn test_best_opening() {
    let mut a = Analytics::new();
    for _ in 0..5 {
        a.record_game(10, GameOutcome::Win, 40, Some("中炮"));
    }
    for _ in 0..3 {
        a.record_game(10, GameOutcome::Loss, 40, Some("中炮"));
    }
    let best = a.best_opening();
    assert!(best.is_some());
    let (name, wins, total) = best.unwrap();
    assert_eq!(name, "中炮");
    let rate = wins as f32 / total as f32 * 100.0;
    assert!((rate - 62.5).abs() < 0.1);
}

#[test]
fn best_opening_needs_three_games() {
    let mut a = Analytics::new();
    a.record_game(10, GameOutcome::Win, 40, Some("x"));
    a.record_game(10, GameOutcome::Win, 40, Some("x"));
    assert!(a.best_opening().is_none());
    for _ in 0..3 {
        a.record_game(10, GameOutcome::Loss, 40, Some("y"));
    }
    assert_eq!(a.best_opening().unwrap().0, "y");
}

#[test]
fn test_reset() {
    let mut a = Analytics::new();
    a.record_game(10, GameOutcome::Win, 40, Some("中炮"));
    a.reset();
    assert_eq!(a.total_games(), 0);
    assert!(a.game_lengths.is_empty());
    assert_eq!(a.opening_stats("中炮"), None);
}

#[test]
fn test_time_control_labels() {
    assert_eq!(TimeControlCategory::Bullet.label_cn(), "子弹棋");
    assert_eq!(TimeControlCategory::Blitz.label_cn(), "快棋");
}
