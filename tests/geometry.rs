use game_engine::geometry::{Point, Rect};

#[test]
fn rect_edges() {
    let rect = Rect::new_from_x_y(10, 20, 30, 40);
    assert_eq!(rect.x(), 10);
    assert_eq!(rect.y(), 20);
    assert_eq!(rect.right(), 40);
    assert_eq!(rect.bottom(), 60);
    assert_eq!(rect, Rect::new(Point { x: 10, y: 20 }, 30, 40));
}

#[test]
fn rect_set_x_moves_left_edge() {
    let mut rect = Rect::new_from_x_y(10, 20, 30, 40);
    rect.set_x(-5);
    assert_eq!(rect.x(), -5);
    assert_eq!(rect.y(), 20);
    assert_eq!(rect.right(), 25);
}

#[test]
fn overlapping_rects_intersect() {
    let a = Rect::new_from_x_y(0, 0, 10, 10);
    let b = Rect::new_from_x_y(5, 5, 10, 10);
    assert!(a.intersects(&b));
    assert!(b.intersects(&a));
}

#[test]
fn touching_rects_do_not_intersect() {
    let a = Rect::new_from_x_y(0, 0, 10, 10);
    let b = Rect::new_from_x_y(10, 0, 10, 10);
    let c = Rect::new_from_x_y(0, 10, 10, 10);
    assert!(!a.intersects(&b));
    assert!(!a.intersects(&c));
}

#[test]
fn intersects_near_the_largest_coordinates() {
    let a = Rect::new_from_x_y(i16::MAX - 5, 0, i16::MAX, 10);
    let b = Rect::new_from_x_y(i16::MAX - 1, 0, 1, 10);
    assert!(a.intersects(&b));
}

#[test]
fn defaults_are_zero() {
    assert_eq!(Point::default(), Point { x: 0, y: 0 });
    assert_eq!(Rect::default(), Rect::new_from_x_y(0, 0, 0, 0));
}
