use xiangqi::gui::ai_style::{adjusted_level, AiPersonality, DifficultyLevel};
use xiangqi::gui::blindfold::{BlindfoldLevel, BlindfoldMode};
use xiangqi::gui::board_view_options::{BoardRotationView, Perspective, Rotation};
use xiangqi::gui::coord_style::{CoordStyle, CoordStyleResource};
use xiangqi::gui::game_settings::{
    local_to_move, oriented_point, AnimSpeed, BoardOrientation, BoardSize, GameMode, ThemeId,
};
use xiangqi::gui::panels::{AutoFlip, BoardCoordinateDisplay, CoordinateStyle, LastMoveHighlight};
use xiangqi::xiangqi::{Color, Square};

#[test]
fn test_blindfold_default() {
    let blindfold = BlindfoldMode::default();
    assert!(!blindfold.active);
    assert_eq!(blindfold.level, BlindfoldLevel::Off);
}

#[test]
fn blindfold_test_toggle() {
    let mut blindfold = BlindfoldMode::default();
    blindfold.toggle();
    assert!(blindfold.active);
    assert_eq!(blindfold.level, BlindfoldLevel::OpponentHidden);
    blindfold.toggle();
    assert!(blindfold.active);
    assert_eq!(blindfold.level, BlindfoldLevel::FullBlindfold);
    blindfold.toggle();
    assert!(blindfold.active);
    assert_eq!(blindfold.level, BlindfoldLevel::ExtremeBlindfold);
    blindfold.toggle();
    assert!(!blindfold.active);
    assert_eq!(blindfold.level, BlindfoldLevel::Off);
}

#[test]
fn test_piece_visibility_none() {
    let blindfold = BlindfoldMode::default();
    assert!(blindfold.is_piece_visible(true, true));
    assert!(blindfold.is_piece_visible(false, true));
}

#[test]
fn test_piece_visibility_opponent_hidden() {
    let mut blindfold = BlindfoldMode::default();
    blindfold.level = BlindfoldLevel::OpponentHidden;
    blindfold.active = true;
    assert!(blindfold.is_piece_visible(true, true));
    assert!(!blindfold.is_piece_visible(false, true));
    assert!(!blindfold.is_piece_visible(true, false));
    assert!(blindfold.is_piece_visible(false, false));
}

#[test]
fn test_piece_visibility_full_blindfold() {
    let mut blindfold = BlindfoldMode::default();
    blindfold.level = BlindfoldLevel::FullBlindfold;
    blindfold.active = true;
    assert!(!blindfold.is_piece_visible(true, true));
    assert!(!blindfold.is_piece_visible(false, true));
    assert!(!blindfold.is_piece_visible(true, false));
    assert!(!blindfold.is_piece_visible(false, false));
}

#[test]
fn test_move_indicators() {
    let mut blindfold = BlindfoldMode::default();
    assert!(!blindfold.show_move_indicators());
    blindfold.level = BlindfoldLevel::OpponentHidden;
    assert!(blindfold.show_move_indicators());
    blindfold.level = BlindfoldLevel::FullBlindfold;
    assert!(blindfold.show_move_indicators());
    blindfold.level = BlindfoldLevel::ExtremeBlindfold;
    assert!(!blindfold.show_move_indicators());
}

#[test]
fn blindfold_test_labels() {
    assert_eq!(BlindfoldLevel::Off.label_cn(), "正常");
    assert_eq!(BlindfoldLevel::OpponentHidden.label_cn(), "半盲棋");
    assert_eq!(BlindfoldLevel::FullBlindfold.label_cn(), "全盲棋");
    assert_eq!(BlindfoldLevel::ExtremeBlindfold.label_cn(), "极限盲棋");
}

#[test]
fn test_level_cycle() {
    let mut level = BlindfoldLevel::Off;
    level = level.next();
    assert_eq!(level, BlindfoldLevel::OpponentHidden);
    level = level.next();
    assert_eq!(level, BlindfoldLevel::FullBlindfold);
    level = level.next();
    assert_eq!(level, BlindfoldLevel::ExtremeBlindfold);
    level = level.next();
    assert_eq!(level, BlindfoldLevel::Off);
}

#[test]
fn test_western_files() {
    let style = CoordStyleResource::default();
    assert_eq!(style.file_label(0), "a");
    assert_eq!(style.file_label(8), "i");
}

#[test]
fn test_western_ranks() {
    let style = CoordStyleResource::default();
    assert_eq!(style.rank_label(0), "0");
    assert_eq!(style.rank_label(9), "9");
}

#[test]
fn test_chinese_files() {
    let mut style = CoordStyleResource::default();
    style.file_style = CoordStyle::ChineseNumeric;
    assert_eq!(style.file_label(0), "九");
    assert_eq!(style.file_label(8), "一");
}

#[test]
fn test_chinese_ranks() {
    let mut style = CoordStyleResource::default();
    style.rank_style = CoordStyle::ChineseNumeric;
    assert_eq!(style.rank_label(0), "〇");
    assert_eq!(style.rank_label(1), "一");
    assert_eq!(style.rank_label(9), "九");
    assert_eq!(style.rank_label(10), "?");
}

#[test]
fn test_format_square() {
    let style = CoordStyleResource::default();
    assert_eq!(style.format_square(7, 2), "h2");
    assert_eq!(style.format_square(0, 0), "a0");
}

#[test]
fn test_format_square_hidden() {
    let mut style = CoordStyleResource::default();
    style.visible = false;
    assert_eq!(style.format_square(7, 2), "");
}

#[test]
fn test_style_cycle() {
    let mut style = CoordStyle::Western;
    style = style.next();
    assert_eq!(style, CoordStyle::ChineseNumeric);
    style = style.next();
    assert_eq!(style, CoordStyle::Hidden);
    style = style.next();
    assert_eq!(style, CoordStyle::Western);
}

#[test]
fn coord_style_test_labels() {
    assert_eq!(CoordStyle::Western.label_cn(), "西式坐标");
    assert_eq!(CoordStyle::ChineseNumeric.label_cn(), "中文数字");
    assert_eq!(CoordStyle::Hidden.label_cn(), "无坐标");
}

#[test]
fn cycling_keeps_rank_style_with_file_style() {
    let mut style = CoordStyleResource::default();
    style.cycle();
    assert_eq!(style.file_style, CoordStyle::ChineseNumeric);
    assert_eq!(style.rank_style, CoordStyle::ChineseNumeric);
    assert_eq!(style.format_square(0, 9), "九九");
}

#[test]
fn test_rotate() {
    let mut brv = BoardRotationView::default();
    brv.rotate();
    assert_eq!(brv.rotation, Rotation::Rotated90);
}

#[test]
fn test_transform() {
    let brv = BoardRotationView::default();
    assert_eq!(brv.transform_coordinates(0, 0), (0, 0));
    let mut brv180 = BoardRotationView::default();
    brv180.rotation = Rotation::Rotated180;
    assert_eq!(brv180.transform_coordinates(0, 0), (8, 9));
}

#[test]
fn quarter_turns_transform() {
    let mut v = BoardRotationView::default();
    v.rotation = Rotation::Rotated90;
    assert_eq!(v.transform_coordinates(2, 3), (5, 2));
    v.rotation = Rotation::Rotated270;
    assert_eq!(v.transform_coordinates(2, 3), (3, 7));
    assert_eq!(Rotation::Rotated180.label_cn(), "180°");
}

#[test]
fn board_perspective_test_cycle() {
    let mut p = Perspective::Red;
    p = p.next();
    assert_eq!(p, Perspective::Black);
    p = p.next();
    assert_eq!(p, Perspective::Dynamic);
    assert_eq!(Perspective::default(), Perspective::Dynamic);
}

#[test]
fn ai_difficulty_scaling_test_cycle() {
    let mut d = DifficultyLevel::Beginner;
    d = d.next();
    assert_eq!(d, DifficultyLevel::Easy);
}

#[test]
fn test_adjust() {
    let win_rate = 0.8f32;
    let current = adjusted_level(DifficultyLevel::Medium, true, win_rate > 0.7, win_rate < 0.3);
    assert_eq!(current, DifficultyLevel::Hard);
}

#[test]
fn adjustment_rules() {
    assert_eq!(adjusted_level(DifficultyLevel::Medium, false, true, false), DifficultyLevel::Medium);
    assert_eq!(adjusted_level(DifficultyLevel::Medium, true, false, true), DifficultyLevel::Easy);
    assert_eq!(adjusted_level(DifficultyLevel::Beginner, true, false, true), DifficultyLevel::Beginner);
    assert_eq!(adjusted_level(DifficultyLevel::Master, true, true, false), DifficultyLevel::Beginner);
    assert_eq!(DifficultyLevel::Expert.depth_limit(), 10);
    assert_eq!(DifficultyLevel::Expert.time_limit_ms(), 5000);
    assert_eq!(DifficultyLevel::Hard.label_cn(), "困难");
}

#[test]
fn ai_personality_test_cycle() {
    let mut p = AiPersonality::Aggressive;
    p = p.next();
    assert_eq!(p, AiPersonality::Balanced);
    p = p.next();
    assert_eq!(p, AiPersonality::Defensive);
}

#[test]
fn test_apply() {
    let (attack, defense) = AiPersonality::Aggressive.bonuses();
    assert!(attack > 0);
    assert_eq!((attack, defense), (50, -20));
    assert_eq!(AiPersonality::default().bonuses(), (0, 0));
}

#[test]
fn board_coordinate_display_test_cycle() {
    let mut s = CoordinateStyle::Files;
    s = s.next();
    assert_eq!(s, CoordinateStyle::Ranks);
    assert_eq!(BoardCoordinateDisplay::default().style, CoordinateStyle::Both);
}

#[test]
fn auto_flip_test_default() {
    let af = AutoFlip::default();
    assert!(af.enabled);
    assert!(af.flip_on_connect);
    assert!(!af.flip_on_turn);
}

#[test]
fn test_highlight() {
    let mut bhl = LastMoveHighlight::default();
    bhl.highlight((0, 0), (1, 1));
    assert_eq!(bhl.from_square, Some((0, 0)));
    bhl.clear();
    assert_eq!(bhl.to_square, None);
}

#[test]
fn test_board_size_pixels() {
    assert_eq!(BoardSize::Small.pixels(), 400);
    assert_eq!(BoardSize::Medium.pixels(), 600);
    assert_eq!(BoardSize::Large.pixels(), 800);
    assert_eq!(BoardSize::ExtraLarge.pixels(), 1000);
    assert_eq!(BoardSize::Custom(500).pixels(), 500);
}

#[test]
fn test_next_larger() {
    assert_eq!(BoardSize::Small.next_larger(), BoardSize::Medium);
    assert_eq!(BoardSize::Medium.next_larger(), BoardSize::Large);
    assert_eq!(BoardSize::Large.next_larger(), BoardSize::ExtraLarge);
    assert_eq!(BoardSize::ExtraLarge.next_larger(), BoardSize::ExtraLarge);
    assert_eq!(BoardSize::Custom(500).next_larger(), BoardSize::Custom(600));
}

#[test]
fn test_next_smaller() {
    assert_eq!(BoardSize::Small.next_smaller(), BoardSize::Small);
    assert_eq!(BoardSize::Medium.next_smaller(), BoardSize::Small);
    assert_eq!(BoardSize::Large.next_smaller(), BoardSize::Medium);
    assert_eq!(BoardSize::ExtraLarge.next_smaller(), BoardSize::Large);
    assert_eq!(BoardSize::Custom(50).next_smaller(), BoardSize::Custom(0));
}

#[test]
fn orientation_from_color_matches_color() {
    assert_eq!(BoardOrientation::from_color(Color::Red), BoardOrientation::Red);
    assert_eq!(BoardOrientation::from_color(Color::Black), BoardOrientation::Black);
}

#[test]
fn orientation_is_180_rotation_not_mirror() {
    let sq = Square::new(7, 2).unwrap();
    assert_eq!(oriented_point(sq, BoardOrientation::Red), (7, 2));
    assert_eq!(oriented_point(sq, BoardOrientation::Black), (1, 7));
}

#[test]
fn red_orientation_puts_rank_zero_at_bottom() {
    let sq = Square::new(4, 0).unwrap();
    assert_eq!(oriented_point(sq, BoardOrientation::Red).1, 0);
}

#[test]
fn black_orientation_puts_rank_zero_at_top() {
    let sq = Square::new(4, 0).unwrap();
    assert_eq!(oriented_point(sq, BoardOrientation::Black).1, 9);
}

#[test]
fn black_orientation_puts_black_back_rank_at_bottom() {
    let sq = Square::new(4, 9).unwrap();
    assert_eq!(oriented_point(sq, BoardOrientation::Black).1, 0);
}

#[test]
fn game_modes_and_turns() {
    assert!(GameMode::RelayJoin.is_networked());
    assert!(!GameMode::VsAi.is_networked());
    assert!(GameMode::LanHost.is_net_host());
    assert!(!GameMode::LanJoin.is_net_host());
    assert!(local_to_move(GameMode::LocalPvp, Color::Black, Color::Red));
    assert!(!local_to_move(GameMode::VsAi, Color::Black, Color::Red));
    assert!(local_to_move(GameMode::VsAi, Color::Red, Color::Red));
}

#[test]
fn speed_and_theme_cycles() {
    assert_eq!(AnimSpeed::default().next(), AnimSpeed::Slow);
    assert_eq!(AnimSpeed::Slow.next(), AnimSpeed::Fast);
    assert_eq!(AnimSpeed::Fast.label(), "快");
    assert_eq!(AnimSpeed::Normal.emoji(), "「常」");
    assert_eq!(ThemeId::Jade.next(), ThemeId::Classic);
    assert_eq!(ThemeId::default().label(), "经典");
}
