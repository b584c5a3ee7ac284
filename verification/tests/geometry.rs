use electrum::utils::{clamp_coordinate, saturate, Point, Rectangle, Size};

#[test]
fn rectangle_contains_is_half_open() {
    let r = Rectangle::from_loc_and_size(Point::new(10, 20), Size::new(100, 50));
    assert!(r.contains(Point::new(10, 20)));
    assert!(r.contains(Point::new(109, 69)));
    assert!(!r.contains(Point::new(110, 20)));
    assert!(!r.contains(Point::new(10, 70)));
    assert!(!r.contains(Point::new(9, 20)));
}

#[test]
fn empty_rectangle_contains_nothing() {
    let r = Rectangle::from_loc_and_size(Point::new(0, 0), Size::new(0, 10));
    assert!(!r.contains(Point::new(0, 0)));
    let n = Rectangle::from_loc_and_size(Point::new(0, 0), Size::new(-5, 10));
    assert!(!n.contains(Point::new(-1, 0)));
}

#[test]
fn rectangle_far_edge_saturates() {
    let r = Rectangle::from_loc_and_size(Point::new(i32::MAX - 5, 0), Size::new(100, 1));
    assert!(r.contains(Point::new(i32::MAX - 1, 0)));
    assert!(!r.contains(Point::new(i32::MAX, 0)));
}

#[test]
fn saturate_clamps_to_i32() {
    assert_eq!(saturate(0), 0);
    assert_eq!(saturate(-7), -7);
    assert_eq!(saturate(i32::MAX as i64 + 1), i32::MAX);
    assert_eq!(saturate(i32::MIN as i64 - 1), i32::MIN);
    assert_eq!(saturate(i64::MAX), i32::MAX);
}

#[test]
fn point_arithmetic_saturates() {
    assert_eq!(Point::new(1, 2).saturating_add(Point::new(10, 20)), Point::new(11, 22));
    assert_eq!(Point::new(1, 2).saturating_sub(Point::new(10, 20)), Point::new(-9, -18));
    assert_eq!(
        Point::new(i32::MAX, i32::MIN).saturating_add(Point::new(1, -1)),
        Point::new(i32::MAX, i32::MIN)
    );
    assert_eq!(
        Point::new(i32::MIN, i32::MAX).saturating_sub(Point::new(1, -1)),
        Point::new(i32::MIN, i32::MAX)
    );
}

#[test]
fn clamp_point_includes_both_edges() {
    let r = Rectangle::from_loc_and_size(Point::new(100, 50), Size::new(1920, 1080));
    assert_eq!(r.clamp_point(Point::new(0, 0)), Point::new(100, 50));
    assert_eq!(r.clamp_point(Point::new(5000, 5000)), Point::new(2020, 1130));
    assert_eq!(r.clamp_point(Point::new(500, 5000)), Point::new(500, 1130));
    assert_eq!(r.clamp_point(Point::new(101, 51)), Point::new(101, 51));
}

#[test]
fn clamp_coordinate_of_empty_range_takes_upper_bound() {
    assert_eq!(clamp_coordinate(5, 10, -3), 7);
    assert_eq!(clamp_coordinate(50, 10, 20), 30);
    assert_eq!(clamp_coordinate(-50, 10, 20), 10);
}
