use krusty_grab::geometry::{
    midpoint_of, scale, to_i32_saturating, to_i64_saturating, Point, Rect, Size, Vector,
};

#[test]
fn scale_rounds_towards_negative_infinity() {
    assert_eq!(scale(10, 4, 1), 40);
    assert_eq!(scale(7, 1, 2), 3);
    assert_eq!(scale(-7, 1, 2), -4);
    assert_eq!(scale(-1, 400, 300), -2);
    assert_eq!(scale(1, 400, 300), 1);
    assert_eq!(scale(-6, 1, 3), -2);
    assert_eq!(scale(0, 5, 7), 0);
    assert_eq!(scale(5, 0, 7), 0);
}

#[test]
fn scale_holds_the_largest_products() {
    assert_eq!(scale(i64::MAX, u32::MAX, 1), i64::MAX as i128 * u32::MAX as i128);
    assert_eq!(scale(i64::MIN, u32::MAX, 1), i64::MIN as i128 * u32::MAX as i128);
    assert_eq!(scale(i64::MIN, u32::MAX, u32::MAX), i64::MIN as i128);
}

#[test]
fn saturation_limits_to_the_type() {
    assert_eq!(to_i32_saturating(5), 5);
    assert_eq!(to_i32_saturating(i32::MAX as i128 + 1), i32::MAX);
    assert_eq!(to_i32_saturating(i32::MIN as i128 - 1), i32::MIN);
    assert_eq!(to_i64_saturating(-9), -9);
    assert_eq!(to_i64_saturating(i64::MAX as i128 + 1), i64::MAX);
    assert_eq!(to_i64_saturating(i64::MIN as i128 - 1), i64::MIN);
}

#[test]
fn midpoint_rounds_down() {
    assert_eq!(midpoint_of(0, 10), 5);
    assert_eq!(midpoint_of(0, 11), 5);
    assert_eq!(midpoint_of(-1, 0), -1);
    assert_eq!(midpoint_of(-3, -4), -4);
    assert_eq!(midpoint_of(i32::MAX, i32::MAX), i32::MAX);
    assert_eq!(midpoint_of(i32::MIN, i32::MIN), i32::MIN);
    assert_eq!(midpoint_of(i32::MIN, i32::MAX), -1);
}

#[test]
fn point_difference_never_overflows() {
    let a = Point::new(i32::MAX, i32::MIN);
    let b = Point::new(i32::MIN, i32::MAX);
    assert_eq!(
        a.minus(b),
        Vector { dx: i32::MAX as i64 - i32::MIN as i64, dy: i32::MIN as i64 - i32::MAX as i64 }
    );
    assert_eq!(Point::new(5, 7).minus(Point::zero()), Vector { dx: 5, dy: 7 });
}

#[test]
fn clamp_moves_a_point_into_the_window() {
    let w = Size::new(200, 100);
    assert_eq!(Point::new(-5, 50).clamp(w), Point::new(0, 50));
    assert_eq!(Point::new(250, 150).clamp(w), Point::new(200, 100));
    assert_eq!(Point::new(200, 0).clamp(w), Point::new(200, 0));
    assert_eq!(Point::new(17, 23).clamp(w), Point::new(17, 23));
}

#[test]
fn spanning_orders_each_axis_on_its_own() {
    let r = Rect::spanning(Point::new(10, 10), Point::new(50, 5));
    assert_eq!(r, Rect { min: Point::new(10, 5), max: Point::new(50, 10) });
    let r = Rect::spanning(Point::new(50, 5), Point::new(10, 10));
    assert_eq!(r, Rect { min: Point::new(10, 5), max: Point::new(50, 10) });
    let r = Rect::spanning(Point::new(3, 3), Point::new(3, 3));
    assert_eq!(r, Rect { min: Point::new(3, 3), max: Point::new(3, 3) });
}

#[test]
fn from_min_max_keeps_the_corners() {
    let r = Rect::from_min_max(Point::new(9, 9), Point::new(1, 1));
    assert_eq!(r.min, Point::new(9, 9));
    assert_eq!(r.max, Point::new(1, 1));
    assert_eq!(r.width(), -8);
    assert_eq!(r.height(), -8);
}

#[test]
fn contains_counts_the_edges() {
    let r = Rect { min: Point::new(0, 0), max: Point::new(10, 20) };
    assert!(r.contains(Point::new(0, 0)));
    assert!(r.contains(Point::new(10, 20)));
    assert!(r.contains(Point::new(5, 20)));
    assert!(!r.contains(Point::new(11, 5)));
    assert!(!r.contains(Point::new(5, -1)));
}

#[test]
fn extent_and_center_of_a_rectangle() {
    let r = Rect { min: Point::new(10, 20), max: Point::new(31, 60) };
    assert_eq!(r.width(), 21);
    assert_eq!(r.height(), 40);
    assert_eq!(r.center(), Point::new(20, 40));
    let wide = Rect { min: Point::new(i32::MIN, 0), max: Point::new(i32::MAX, 0) };
    assert_eq!(wide.width(), u32::MAX as i64);
}

#[test]
fn near_is_a_square_around_the_center() {
    let c = Point::new(100, 100);
    assert!(Point::new(105, 95).is_near(c, 5));
    assert!(Point::new(100, 100).is_near(c, 5));
    assert!(!Point::new(106, 100).is_near(c, 5));
    assert!(!Point::new(100, 94).is_near(c, 5));
    assert!(Point::new(i32::MAX, i32::MIN).is_near(Point::new(i32::MAX, i32::MIN), i32::MAX));
}
