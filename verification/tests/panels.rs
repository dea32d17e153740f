use xiangqi::gui::panels::{GameCollectionManager, GameDatabaseBrowser, GameRecord};

fn record(white: &str, black: &str, opening: &str) -> GameRecord {
    GameRecord {
        id: 1,
        date: "2026-01-01".to_string(),
        white: white.to_string(),
        black: black.to_string(),
        result: "1-0".to_string(),
        moves: vec![],
        opening: opening.to_string(),
    }
}

#[test]
fn game_database_browser_test_add() {
    let mut gdb = GameDatabaseBrowser::default();
    gdb.add_game(record("Red", "Black", "中炮"));
    assert_eq!(gdb.game_count(), 1);
}

#[test]
fn test_search() {
    let mut gdb = GameDatabaseBrowser::default();
    gdb.add_game(record("张三", "李四", "中炮"));
    let results = gdb.search("张三");
    assert_eq!(results.len(), 1);
    assert_eq!(gdb.search_query, "张三");
    assert_eq!(gdb.search("1-0"), vec![0]);
    assert!(gdb.search("王五").is_empty());
}

#[test]
fn browser_selection() {
    let mut gdb = GameDatabaseBrowser::default();
    gdb.add_game(record("a", "b", "c"));
    gdb.select_game(3);
    assert!(gdb.selected_game().is_none());
    gdb.select_game(0);
    assert_eq!(gdb.selected_game().unwrap().white, "a");
}

#[test]
fn test_create() {
    let mut gcm = GameCollectionManager::default();
    gcm.create_collection("测试", "测试描述");
    assert_eq!(gcm.collection_count(), 1);
}

#[test]
fn test_add_game() {
    let mut gcm = GameCollectionManager::default();
    gcm.create_collection("test", "");
    gcm.add_game_to_collection("test", 1);
    assert_eq!(gcm.collections[0].game_ids.len(), 1);
    gcm.add_game_to_collection("test", 1);
    assert_eq!(gcm.collections[0].game_ids.len(), 1);
    gcm.add_game_to_collection("missing", 2);
    assert_eq!(gcm.collection_names(), vec!["test"]);
}

#[test]
fn removing_and_recreating_collections() {
    let mut gcm = GameCollectionManager::default();
    gcm.create_collection("a", "");
    gcm.create_collection("b", "");
    gcm.add_game_to_collection("a", 1);
    gcm.add_game_to_collection("a", 2);
    gcm.add_game_to_collection("a", 1);
    gcm.remove_game_from_collection("a", 1);
    assert_eq!(gcm.collections[0].game_ids, vec![2]);
    gcm.create_collection("a", "again");
    assert_eq!(gcm.collection_count(), 2);
    assert!(gcm.collections[0].game_ids.is_empty());
    assert_eq!(gcm.collections[0].description, "again");
}
