use xiangqi::gui::achievements::{AchievementTracker, ACHIEVEMENT_COUNT};

#[test]
fn achievements_test_default() {
    let tracker = AchievementTracker::default();
    assert_eq!(tracker.unlocked_count(), 0);
    assert_eq!(tracker.total_wins, 0);
}

#[test]
fn test_try_unlock() {
    let mut tracker = AchievementTracker::default();
    assert!(tracker.try_unlock("first_win"));
    assert!(!tracker.try_unlock("first_win"));
    assert!(tracker.is_unlocked("first_win"));
}

#[test]
fn test_record_win() {
    let mut tracker = AchievementTracker::default();
    tracker.record_win(Some("中炮"));
    assert_eq!(tracker.total_wins, 1);
    assert_eq!(tracker.current_streak, 1);
    assert_eq!(tracker.unique_opening_wins.len(), 1);
}

#[test]
fn test_record_loss() {
    let mut tracker = AchievementTracker::default();
    tracker.record_win(None);
    tracker.record_win(None);
    assert_eq!(tracker.current_streak, 2);
    tracker.record_loss();
    assert_eq!(tracker.current_streak, 0);
}

#[test]
fn test_check_first_win() {
    let mut tracker = AchievementTracker::default();
    tracker.record_win(None);
    let unlocked = tracker.check_achievements();
    assert!(unlocked.iter().any(|a| a.id == "first_win"));
}

#[test]
fn test_check_win_streak() {
    let mut tracker = AchievementTracker::default();
    for _ in 0..3 {
        tracker.record_win(None);
    }
    let unlocked = tracker.check_achievements();
    assert!(unlocked.iter().any(|a| a.id == "win_streak_3"));
}

#[test]
fn test_check_puzzles() {
    let mut tracker = AchievementTracker::default();
    tracker.record_puzzle();
    let unlocked = tracker.check_achievements();
    assert!(unlocked.iter().any(|a| a.id == "puzzle_first"));
}

#[test]
fn test_progress_percentage() {
    let mut tracker = AchievementTracker::default();
    let pct = |t: &AchievementTracker| t.unlocked_count() as f32 / t.total_count() as f32 * 100.0;
    assert_eq!(pct(&tracker), 0.0);
    tracker.try_unlock("first_win");
    assert!(pct(&tracker) > 0.0);
}

#[test]
fn test_all_achievements_have_data() {
    for a in AchievementTracker::all_achievements() {
        assert!(!a.id.is_empty());
        assert!(!a.name_cn.is_empty());
        assert!(!a.description.is_empty());
    }
    assert_eq!(AchievementTracker::all_achievements().len(), ACHIEVEMENT_COUNT);
}

#[test]
fn test_longest_streak() {
    let mut tracker = AchievementTracker::default();
    for _ in 0..5 {
        tracker.record_win(None);
    }
    assert_eq!(tracker.longest_streak, 5);
    tracker.record_loss();
    for _ in 0..3 {
        tracker.record_win(None);
    }
    assert_eq!(tracker.longest_streak, 5);
}

#[test]
fn test_opening_tracking() {
    let mut tracker = AchievementTracker::default();
    tracker.record_win(Some("中炮"));
    tracker.record_win(Some("中炮"));
    tracker.record_win(Some("飞相"));
    assert_eq!(tracker.opening_wins.get("中炮"), Some(2));
    assert_eq!(tracker.unique_opening_wins.len(), 2);
}

#[test]
fn unlocks_are_reported_once_in_catalogue_order() {
    let mut tracker = AchievementTracker::default();
    for _ in 0..10 {
        tracker.record_win(None);
    }
    let first: Vec<&str> = tracker.check_achievements().iter().map(|a| a.id).collect();
    assert_eq!(first, vec!["first_win", "win_streak_3", "win_streak_5", "win_streak_10", "win_10_games"]);
    assert!(tracker.check_achievements().is_empty());
    assert_eq!(tracker.unlocked_count(), 5);
}

#[test]
fn five_openings_unlock_diversity() {
    let mut tracker = AchievementTracker::default();
    for name in ["a", "b", "c", "d", "e"] {
        tracker.record_win(Some(name));
    }
    let ids: Vec<&str> = tracker.check_achievements().iter().map(|a| a.id).collect();
    assert!(ids.contains(&"opening_diversity"));
}

#[test]
fn second_check_unlocks_nothing_and_keeps_everything() {
    let mut tracker = AchievementTracker::default();
    tracker.try_unlock("puzzle_master");
    for _ in 0..5 {
        tracker.record_win(None);
    }
    let first = tracker.check_achievements();
    assert!(!first.is_empty());
    let count = tracker.unlocked_count();
    let second = tracker.check_achievements();
    assert!(second.is_empty());
    assert_eq!(tracker.unlocked_count(), count);
    assert!(tracker.is_unlocked("puzzle_master"));
}
