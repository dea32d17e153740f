use xiangqi::gui::arrow_annotation::{Arrow, ArrowAnnotations};
use xiangqi::xiangqi::Square;

/// Drawing style used in these tests: a colour and a width in tenths of a
/// pixel.
#[derive(Debug, Clone, Copy, PartialEq)]
struct Style {
    rgb: (u8, u8, u8),
    width_tenths: u32,
}

const WHITE: Style = Style { rgb: (255, 255, 255), width_tenths: 40 };
const RED: Style = Style { rgb: (255, 0, 0), width_tenths: 40 };

fn test_square(file: u8, rank: u8) -> Square {
    Square::new(file, rank).unwrap()
}

#[test]
fn test_arrow_creation() {
    let from = test_square(0, 0);
    let to = test_square(1, 1);
    let arrow = Arrow::new(from, to, RED);
    assert_eq!(arrow.from, from);
    assert_eq!(arrow.to, to);
    assert!(!arrow.persistent);
}

#[test]
fn test_persistent_arrow() {
    let arrow = Arrow::persistent(test_square(0, 0), test_square(1, 1), RED);
    assert!(arrow.persistent);
}

#[test]
fn arrow_annotation_test_add_arrow() {
    let mut annotations = ArrowAnnotations::new(WHITE);
    let arrow = Arrow::new(test_square(0, 0), test_square(1, 1), WHITE);
    annotations.add_arrow(arrow);
    assert_eq!(annotations.count(), 1);
}

#[test]
fn test_remove_arrow() {
    let mut annotations = ArrowAnnotations::new(WHITE);
    annotations.add_arrow(Arrow::new(test_square(0, 0), test_square(1, 1), WHITE));
    let removed = annotations.remove_arrow(0);
    assert!(removed.is_some());
    assert_eq!(annotations.count(), 0);
    assert!(annotations.remove_arrow(0).is_none());
}

#[test]
fn test_clear_all() {
    let mut annotations = ArrowAnnotations::new(WHITE);
    annotations.add_arrow(Arrow::new(test_square(0, 0), test_square(1, 1), WHITE));
    annotations.add_arrow(Arrow::new(test_square(2, 2), test_square(3, 3), WHITE));
    annotations.clear_all();
    assert!(annotations.is_empty());
}

#[test]
fn test_clear_temporary() {
    let mut annotations = ArrowAnnotations::new(WHITE);
    annotations.add_arrow(Arrow::new(test_square(0, 0), test_square(1, 1), WHITE));
    annotations.add_arrow(Arrow::persistent(test_square(2, 2), test_square(3, 3), WHITE));
    annotations.clear_temporary();
    assert_eq!(annotations.count(), 1);
    assert!(annotations.arrows[0].persistent);
}

#[test]
fn test_remove_arrows_from() {
    let mut annotations = ArrowAnnotations::new(WHITE);
    let sq = test_square(0, 0);
    annotations.add_arrow(Arrow::new(sq, test_square(1, 1), WHITE));
    annotations.add_arrow(Arrow::new(test_square(2, 2), test_square(3, 3), WHITE));
    annotations.remove_arrows_from(sq);
    assert_eq!(annotations.count(), 1);
}

#[test]
fn test_remove_arrows_to() {
    let mut annotations = ArrowAnnotations::new(WHITE);
    let sq = test_square(1, 1);
    annotations.add_arrow(Arrow::new(test_square(0, 0), sq, WHITE));
    annotations.add_arrow(Arrow::new(test_square(2, 2), test_square(3, 3), WHITE));
    annotations.remove_arrows_to(sq);
    assert_eq!(annotations.count(), 1);
}

#[test]
fn test_toggle_drawing() {
    let mut annotations = ArrowAnnotations::new(WHITE);
    annotations.toggle_drawing();
    assert!(annotations.drawing_mode);
    annotations.toggle_drawing();
    assert!(!annotations.drawing_mode);
}

#[test]
fn test_start_drawing() {
    let mut annotations = ArrowAnnotations::new(WHITE);
    annotations.enable_drawing();
    let sq = test_square(0, 0);
    annotations.start_drawing(sq);
    assert_eq!(annotations.drawing_start, Some(sq));
}

#[test]
fn test_finish_drawing() {
    let mut annotations = ArrowAnnotations::new(WHITE);
    annotations.enable_drawing();
    annotations.start_drawing(test_square(0, 0));
    let arrow = annotations.finish_drawing(test_square(1, 1));
    assert!(arrow.is_some());
    assert_eq!(annotations.count(), 1);
    assert!(annotations.drawing_start.is_none());
}

#[test]
fn test_finish_drawing_same_square() {
    let mut annotations = ArrowAnnotations::new(WHITE);
    annotations.enable_drawing();
    let sq = test_square(0, 0);
    annotations.start_drawing(sq);
    let arrow = annotations.finish_drawing(sq);
    assert!(arrow.is_none());
    assert_eq!(annotations.count(), 0);
}

#[test]
fn test_cancel_drawing() {
    let mut annotations = ArrowAnnotations::new(WHITE);
    annotations.enable_drawing();
    annotations.start_drawing(test_square(0, 0));
    annotations.cancel_drawing();
    assert!(annotations.drawing_start.is_none());
}

#[test]
fn test_set_default_color() {
    let mut annotations = ArrowAnnotations::new(WHITE);
    let color = Style { rgb: (0, 255, 0), width_tenths: 40 };
    annotations.set_default_color(color);
    assert_eq!(annotations.default_style, color);
}

#[test]
fn start_is_ignored_outside_drawing_mode() {
    let mut annotations = ArrowAnnotations::new(WHITE);
    annotations.start_drawing(test_square(0, 0));
    assert!(annotations.drawing_start.is_none());
    assert!(annotations.finish_drawing(test_square(1, 1)).is_none());
}
