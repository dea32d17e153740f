use xiangqi::gui::chinese_notation::{to_chinese_notation, ChineseNotation};

#[test]
fn test_cannon_central() {
    assert_eq!(to_chinese_notation('C', true, 7, 4, 2, 2), "炮二平五");
}

#[test]
fn test_horse_advance() {
    assert_eq!(to_chinese_notation('H', true, 1, 2, 0, 2), "馬八进二");
}

#[test]
fn test_rook_horizontal() {
    let result = to_chinese_notation('R', true, 8, 0, 3, 3);
    assert!(result.starts_with("車"));
    assert!(result.contains("平"));
}

#[test]
fn test_pawn_advance() {
    let result = to_chinese_notation('P', true, 2, 2, 3, 4);
    assert!(result.starts_with("兵"));
    assert!(result.contains("进"));
    assert_eq!(result, "兵七进一");
}

#[test]
fn test_black_notation() {
    let result = to_chinese_notation('C', false, 7, 4, 7, 7);
    assert!(result.starts_with("砲"));
    assert_eq!(result, "砲八平五");
}

#[test]
fn test_king_retreat() {
    let result = to_chinese_notation('K', true, 4, 4, 9, 8);
    assert!(result.starts_with("帅"));
    assert!(result.contains("退"));
    assert_eq!(result, "帅五退一");
}

#[test]
fn test_notation_default() {
    let n = ChineseNotation::default();
    assert!(!n.enabled);
}

#[test]
fn black_advisor_retreats_by_ranks() {
    assert_eq!(to_chinese_notation('A', false, 3, 4, 8, 9), "士四退一");
    assert_eq!(to_chinese_notation('X', true, 4, 4, 0, 1), "?五进一");
}

#[test]
fn chariot_and_cannon_count_ranks_moved() {
    assert_eq!(to_chinese_notation('R', true, 0, 0, 0, 3), "車九进三");
    assert_eq!(to_chinese_notation('C', false, 1, 1, 7, 3), "砲二进四");
    assert_eq!(to_chinese_notation('R', false, 8, 8, 2, 9), "車九退七");
}
