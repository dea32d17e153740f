use xiangqi::gui::coordinate_highlight::CoordinateHighlight;
use xiangqi::xiangqi::Square;

type Rgb = (u8, u8, u8);
const GOLD: Rgb = (255, 204, 0);
const GRAY: Rgb = (77, 77, 77);

fn highlight_default() -> CoordinateHighlight<Rgb> {
    CoordinateHighlight::new(GOLD, GRAY)
}

#[test]
fn test_coordinate_highlight_default() {
    let highlight = highlight_default();
    assert!(highlight.enabled);
    assert!(highlight.highlighted_square.is_none());
}

#[test]
fn test_enable_disable() {
    let mut highlight = highlight_default();
    highlight.disable();
    assert!(!highlight.enabled);
    highlight.enable();
    assert!(highlight.enabled);
}

#[test]
fn coordinate_highlight_test_toggle() {
    let mut highlight = highlight_default();
    highlight.toggle();
    assert!(!highlight.enabled);
    highlight.toggle();
    assert!(highlight.enabled);
}

#[test]
fn test_set_square() {
    let mut highlight = highlight_default();
    let square = Square::new(4, 5).unwrap();
    highlight.set_square(Some(square));
    assert_eq!(highlight.highlighted_square, Some(square));
}

#[test]
fn test_set_square_disabled() {
    let mut highlight = highlight_default();
    highlight.disable();
    highlight.set_square(Some(Square::new(4, 5).unwrap()));
    assert!(highlight.highlighted_square.is_none());
}

#[test]
fn coordinate_highlight_test_clear() {
    let mut highlight = highlight_default();
    highlight.set_square(Some(Square::new(4, 5).unwrap()));
    highlight.clear();
    assert!(highlight.highlighted_square.is_none());
}

#[test]
fn test_is_file_highlighted() {
    let mut highlight = highlight_default();
    highlight.set_square(Some(Square::new(4, 5).unwrap()));
    assert!(highlight.is_file_highlighted(4));
    assert!(!highlight.is_file_highlighted(3));
}

#[test]
fn test_is_rank_highlighted() {
    let mut highlight = highlight_default();
    highlight.set_square(Some(Square::new(4, 5).unwrap()));
    assert!(highlight.is_rank_highlighted(5));
    assert!(!highlight.is_rank_highlighted(4));
}

#[test]
fn test_file_color() {
    let mut highlight = highlight_default();
    highlight.set_square(Some(Square::new(4, 5).unwrap()));
    assert_eq!(highlight.file_color(4), highlight.highlight_color);
    assert_eq!(highlight.file_color(3), highlight.normal_color);
}

#[test]
fn test_rank_color() {
    let mut highlight = highlight_default();
    highlight.set_square(Some(Square::new(4, 5).unwrap()));
    assert_eq!(highlight.rank_color(5), highlight.highlight_color);
    assert_eq!(highlight.rank_color(4), highlight.normal_color);
}

#[test]
fn test_no_highlight_when_no_square() {
    let highlight = highlight_default();
    assert!(!highlight.is_file_highlighted(4));
    assert!(!highlight.is_rank_highlighted(5));
}

#[test]
fn follows_selection_and_clears_without_one() {
    let mut highlight = highlight_default();
    highlight.follow_selection(Some(Square::new(2, 3).unwrap()));
    assert!(highlight.is_file_highlighted(2) && highlight.is_rank_highlighted(3));
    highlight.follow_selection(None);
    assert!(highlight.highlighted_square.is_none());
}
