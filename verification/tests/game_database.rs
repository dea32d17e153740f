use xiangqi::gui::game_database::{GameDatabase, GameRecord};
use xiangqi::xiangqi::{Color, GameResult, Move, Square, WinReason};

fn create_test_game(id: &str, red: &str, black: &str, winner: Option<Color>) -> GameRecord {
    let from = Square::new(4, 0).unwrap();
    let to = Square::new(4, 1).unwrap();
    let result = winner.map(|w| GameResult::Win { winner: w, reason: WinReason::Checkmate });
    GameRecord::new(id.to_string(), red.to_string(), black.to_string(), vec![Move { from, to }], result)
}

#[test]
fn test_game_record_creation() {
    let game = create_test_game("test_1", "Alice", "Bob", Some(Color::Red));
    assert_eq!(game.id, "test_1");
    assert_eq!(game.red_player, "Alice");
    assert_eq!(game.black_player, "Bob");
    assert_eq!(game.move_count, 1);
}

#[test]
fn test_game_record_winner() {
    let game = create_test_game("test_1", "Alice", "Bob", Some(Color::Red));
    assert_eq!(game.winner(), Some(Color::Red));
    let draw_game = create_test_game("test_2", "Alice", "Bob", None);
    assert_eq!(draw_game.winner(), None);
}

#[test]
fn test_game_record_summary() {
    let game = create_test_game("test_1", "Alice", "Bob", Some(Color::Red));
    let summary = game.summary();
    assert!(summary.contains("Alice"));
    assert!(summary.contains("Bob"));
    assert!(summary.contains("1-0"));
}

#[test]
fn summary_exact_text() {
    let game = create_test_game("g", "Alice", "Bob", Some(Color::Black));
    assert_eq!(game.summary(), "Alice vs Bob - 0-1 (1 moves)");
    let unfinished = create_test_game("h", "A", "B", None);
    assert_eq!(unfinished.summary(), "A vs B - * (1 moves)");
}

#[test]
fn test_game_database_add() {
    let mut db = GameDatabase::default();
    let game = create_test_game("test_1", "Alice", "Bob", Some(Color::Red));
    db.add_game(game);
    assert_eq!(db.game_count(), 1);
}

#[test]
fn test_game_database_remove() {
    let mut db = GameDatabase::default();
    db.add_game(create_test_game("test_1", "Alice", "Bob", Some(Color::Red)));
    db.add_game(create_test_game("test_2", "Charlie", "David", Some(Color::Black)));
    assert_eq!(db.game_count(), 2);
    let removed = db.remove_game(0);
    assert!(removed.is_some());
    assert_eq!(db.game_count(), 1);
    assert!(db.remove_game(5).is_none());
}

#[test]
fn test_game_database_search_by_player() {
    let mut db = GameDatabase::default();
    db.add_game(create_test_game("test_1", "Alice", "Bob", Some(Color::Red)));
    db.add_game(create_test_game("test_2", "Charlie", "Alice", Some(Color::Black)));
    db.add_game(create_test_game("test_3", "David", "Eve", Some(Color::Red)));
    let results = db.search_by_player("Alice");
    assert_eq!(results.len(), 2);
    assert!(results.contains(&0));
    assert!(results.contains(&1));
}

#[test]
fn test_game_database_search_by_player_case_insensitive() {
    let mut db = GameDatabase::default();
    db.add_game(create_test_game("test_1", "Alice", "Bob", Some(Color::Red)));
    let results = db.search_by_player("alice");
    assert_eq!(results.len(), 1);
}

#[test]
fn test_game_database_get_by_result() {
    let mut db = GameDatabase::default();
    db.add_game(create_test_game("test_1", "Alice", "Bob", Some(Color::Red)));
    db.add_game(create_test_game("test_2", "Charlie", "David", Some(Color::Black)));
    db.add_game(create_test_game("test_3", "Eve", "Frank", Some(Color::Red)));
    let red_wins = db.get_games_by_result(Some(Color::Red));
    assert_eq!(red_wins.len(), 2);
    let black_wins = db.get_games_by_result(Some(Color::Black));
    assert_eq!(black_wins.len(), 1);
}

#[test]
fn test_player_stats() {
    let mut db = GameDatabase::default();
    db.add_game(create_test_game("test_1", "Alice", "Bob", Some(Color::Red)));
    db.add_game(create_test_game("test_2", "Charlie", "Alice", Some(Color::Black)));
    db.add_game(create_test_game("test_3", "Alice", "David", Some(Color::Red)));
    let stats = db.player_stats("Alice");
    assert_eq!(stats.total_games(), 3);
    assert_eq!(stats.games_as_red, 2);
    assert_eq!(stats.games_as_black, 1);
    assert_eq!(stats.wins, 3);
    assert_eq!(stats.losses, 0);
}

#[test]
fn test_game_database_select() {
    let mut db = GameDatabase::default();
    db.add_game(create_test_game("test_1", "Alice", "Bob", Some(Color::Red)));
    db.select_game(0);
    assert_eq!(db.selected_index, Some(0));
    assert!(db.selected_game().is_some());
    db.clear_selection();
    assert_eq!(db.selected_index, None);
    assert!(db.selected_game().is_none());
}

#[test]
fn test_game_database_clear() {
    let mut db = GameDatabase::default();
    db.add_game(create_test_game("test_1", "Alice", "Bob", Some(Color::Red)));
    db.add_game(create_test_game("test_2", "Charlie", "David", Some(Color::Black)));
    db.clear();
    assert_eq!(db.game_count(), 0);
    assert!(db.selected_index.is_none());
}

#[test]
fn test_game_record_tags() {
    let mut game = create_test_game("test_1", "Alice", "Bob", Some(Color::Red));
    game.add_tag("Event".to_string(), "Tournament".to_string());
    game.add_tag("Round".to_string(), "5".to_string());
    assert_eq!(game.get_tag("Event"), Some(&"Tournament".to_string()));
    assert_eq!(game.get_tag("Round"), Some(&"5".to_string()));
    assert_eq!(game.get_tag("NonExistent"), None);
    game.add_tag("Round".to_string(), "6".to_string());
    assert_eq!(game.get_tag("Round"), Some(&"6".to_string()));
}

#[test]
fn draws_and_openings_are_searchable() {
    let mut db = GameDatabase::default();
    let mut g = create_test_game("d", "A", "B", None);
    g.result = Some(GameResult::Draw(xiangqi::xiangqi::DrawReason::Repetition));
    g.opening = Some("Central Cannon".to_string());
    db.add_game(g);
    db.add_game(create_test_game("e", "C", "D", Some(Color::Red)));
    assert_eq!(db.get_draws(), vec![0]);
    assert_eq!(db.search_by_opening("cannon"), vec![0]);
    assert_eq!(db.get_games_by_result(None), vec![0]);
    let stats = db.player_stats("a");
    assert_eq!(stats.draws, 1);
    assert_eq!(stats.games_as_red, 1);
}
