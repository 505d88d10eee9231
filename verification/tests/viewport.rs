use krusty_grab::annotation::{Color, DrawingType, Stroke};
use krusty_grab::geometry::{Point, Rect, Size, Vector};
use krusty_grab::viewport::{fit, ViewportTransform};

fn rect(x0: i32, y0: i32, x1: i32, y1: i32) -> Rect {
    Rect { min: Point { x: x0, y: y0 }, max: Point { x: x1, y: y1 } }
}

fn stroke(width: u32) -> Stroke {
    Stroke { width, color: Color { r: 1, g: 2, b: 3, a: 4 } }
}

#[test]
fn fit_limited_by_height_is_centred_across() {
    let v = fit(rect(0, 0, 200, 100), Size::new(400, 400)).unwrap();
    assert_eq!(v.area, rect(50, 0, 150, 100));
    assert_eq!(v.transform.image_extent(), 400);
    assert_eq!(v.transform.render_extent(), 100);
    assert_eq!(v.transform.origin(), Point::new(50, 0));
}

#[test]
fn fit_limited_by_width_is_centred_down() {
    let v = fit(rect(10, 20, 110, 320), Size::new(200, 100)).unwrap();
    assert_eq!(v.area, rect(10, 145, 110, 195));
    assert_eq!(v.transform.image_extent(), 200);
    assert_eq!(v.transform.render_extent(), 100);
    assert_eq!(v.transform.origin(), Point::new(10, 145));
}

#[test]
fn fit_of_the_same_shape_fills_what_is_free() {
    let v = fit(rect(0, 0, 100, 100), Size::new(100, 100)).unwrap();
    assert_eq!(v.area, rect(0, 0, 100, 100));
    assert_eq!(v.transform.image_extent(), 100);
    assert_eq!(v.transform.render_extent(), 100);
}

#[test]
fn fit_needs_an_image_and_room() {
    assert_eq!(fit(rect(0, 0, 100, 100), Size::new(0, 100)), None);
    assert_eq!(fit(rect(0, 0, 100, 100), Size::new(100, 0)), None);
    assert_eq!(fit(rect(0, 0, 100, 100), Size::new(-5, 100)), None);
    assert_eq!(fit(rect(0, 0, 0, 100), Size::new(100, 100)), None);
    assert_eq!(fit(rect(100, 100, 0, 0), Size::new(100, 100)), None);
    // so tall an image that nothing of its width is left
    assert_eq!(fit(rect(0, 0, 100, 1), Size::new(1, 1000)), None);
}

#[test]
fn fit_with_no_height_shows_a_flat_image() {
    // 100 pixels across would be 1 pixel down, which is too much: the
    // image is laid out 0 pixels down, and so 0 pixels across
    assert_eq!(fit(rect(0, 0, 100, 0), Size::new(100, 1)), None);
    // 100 pixels across is less than one pixel down
    let v = fit(rect(0, 0, 100, 0), Size::new(1000, 1)).unwrap();
    assert_eq!(v.area, rect(0, 0, 100, 0));
}

#[test]
fn new_refuses_a_zero_extent() {
    assert_eq!(ViewportTransform::new(0, 10, Point::zero()), None);
    assert_eq!(ViewportTransform::new(10, 0, Point::zero()), None);
    let t = ViewportTransform::new(3, 2, Point::new(1, 1)).unwrap();
    assert_eq!(t.image_extent(), 3);
    assert_eq!(t.render_extent(), 2);
    assert_eq!(t.origin(), Point::new(1, 1));
}

#[test]
fn to_image_space_scales_from_the_origin() {
    let t = ViewportTransform::new(400, 100, Point::new(50, 0)).unwrap();
    assert_eq!(t.to_image_space(Point::new(60, 10), Point::zero()), Point::new(40, 40));
    assert_eq!(t.to_image_space(Point::new(50, 0), Point::zero()), Point::new(0, 0));
    assert_eq!(t.to_image_space(Point::new(49, -1), Point::zero()), Point::new(-4, -4));
    assert_eq!(t.to_image_space(Point::new(60, 10), Point::new(5, 7)), Point::new(45, 47));
}

#[test]
fn to_render_space_is_the_way_back() {
    let t = ViewportTransform::new(400, 100, Point::new(50, 0)).unwrap();
    assert_eq!(t.to_render_space(Point::new(40, 40), Point::zero()), Point::new(60, 10));
    assert_eq!(t.to_render_space(Point::new(45, 47), Point::new(5, 7)), Point::new(60, 10));
    assert_eq!(t.to_render_space(Point::new(43, 41), Point::zero()), Point::new(60, 10));
    assert_eq!(t.to_render_space(Point::new(-1, -4), Point::zero()), Point::new(49, -1));
}

#[test]
fn conversions_round_down() {
    let t = ViewportTransform::new(400, 300, Point::zero()).unwrap();
    assert_eq!(t.to_image_space(Point::new(-1, 1), Point::zero()), Point::new(-2, 1));
    assert_eq!(t.to_render_space(Point::new(-2, 1), Point::zero()), Point::new(-2, 0));
}

#[test]
fn round_trip_is_exact_for_a_whole_ratio() {
    let t = ViewportTransform::new(300, 100, Point::new(7, 9)).unwrap();
    let m = Point::new(11, 13);
    for x in -50..50 {
        for y in -3..3 {
            let p = Point::new(x, y);
            assert_eq!(t.to_render_space(t.to_image_space(p, m), m), p);
        }
    }
}

#[test]
fn round_trip_loses_at_most_the_rounding() {
    // 3 image pixels on 7 window pixels: at most 7 / 3 rounded up, that is 3
    let t = ViewportTransform::new(3, 7, Point::new(2, 2)).unwrap();
    let m = Point::new(-4, 6);
    for x in -40..40 {
        let p = Point::new(x, -x);
        let q = t.to_render_space(t.to_image_space(p, m), m);
        assert!(0 <= p.x - q.x && p.x - q.x <= 3);
        assert!(0 <= p.y - q.y && p.y - q.y <= 3);
    }
    // 7 image pixels on 3 window pixels: at most 1
    let t = ViewportTransform::new(7, 3, Point::new(2, 2)).unwrap();
    for x in -40..40 {
        let p = Point::new(x, -x);
        let q = t.to_render_space(t.to_image_space(p, m), m);
        assert!(0 <= p.x - q.x && p.x - q.x <= 1);
        assert!(0 <= p.y - q.y && p.y - q.y <= 1);
    }
}

#[test]
fn conversions_saturate() {
    let t = ViewportTransform::new(u32::MAX, 1, Point::new(i32::MIN, i32::MAX)).unwrap();
    assert_eq!(
        t.to_image_space(Point::new(i32::MAX, i32::MIN), Point::zero()),
        Point::new(i32::MAX, i32::MIN)
    );
    let t = ViewportTransform::new(1, u32::MAX, Point::zero()).unwrap();
    assert_eq!(
        t.to_render_space(Point::new(i32::MAX, i32::MIN), Point::zero()),
        Point::new(i32::MAX, i32::MIN)
    );
}

#[test]
fn lengths_and_widths_are_divided_by_the_ratio() {
    let t = ViewportTransform::new(400, 100, Point::new(50, 0)).unwrap();
    assert_eq!(t.length_to_render(40), 10);
    assert_eq!(t.length_to_render(-41), -11);
    assert_eq!(t.width_to_render(100), 25);
    assert_eq!(t.width_to_render(10), 2);
    assert_eq!(t.stroke_to_render(stroke(100)), stroke(25));
    let big = ViewportTransform::new(1, u32::MAX, Point::zero()).unwrap();
    assert_eq!(big.length_to_render(i64::MAX), i64::MAX);
    assert_eq!(big.length_to_render(i64::MIN), i64::MIN);
    assert_eq!(big.width_to_render(2), u32::MAX);
}

#[test]
fn to_render_maps_every_kind_of_drawing() {
    let t = ViewportTransform::new(400, 100, Point::new(50, 0)).unwrap();
    let m = Point::zero();
    assert_eq!(
        t.to_render(
            &DrawingType::Brush {
                points: vec![Point::new(0, 0), Point::new(40, 80)],
                s: stroke(40),
                end: true
            },
            m
        ),
        DrawingType::Brush {
            points: vec![Point::new(50, 0), Point::new(60, 20)],
            s: stroke(10),
            end: true
        }
    );
    assert_eq!(
        t.to_render(&DrawingType::Rectangle { r: Rect { min: Point::new(40, 40), max: Point::new(80, 120) }, s: stroke(40) }, m),
        DrawingType::Rectangle { r: Rect { min: Point::new(60, 10), max: Point::new(70, 30) }, s: stroke(10) }
    );
    assert_eq!(
        t.to_render(&DrawingType::Circle { c: Point::new(40, 40), r: 80, s: stroke(40) }, m),
        DrawingType::Circle { c: Point::new(60, 10), r: 20, s: stroke(10) }
    );
    assert_eq!(
        t.to_render(&DrawingType::Arrow { p: Point::new(40, 40), v: Vector { dx: -40, dy: 8 }, s: stroke(40) }, m),
        DrawingType::Arrow { p: Point::new(60, 10), v: Vector { dx: -10, dy: 2 }, s: stroke(10) }
    );
    assert_eq!(
        t.to_render(&DrawingType::Text { p: Point::new(40, 40), t: "note".to_string(), s: stroke(40) }, m),
        DrawingType::Text { p: Point::new(60, 10), t: "note".to_string(), s: stroke(10) }
    );
}

#[test]
fn all_to_render_keeps_the_order() {
    let t = ViewportTransform::new(200, 100, Point::zero()).unwrap();
    let drawings = vec![
        DrawingType::Circle { c: Point::new(2, 2), r: 4, s: stroke(20) },
        DrawingType::Rectangle { r: Rect { min: Point::new(0, 0), max: Point::new(8, 8) }, s: stroke(20) },
    ];
    let out = t.all_to_render(&drawings, Point::new(2, 2));
    assert_eq!(
        out,
        vec![
            DrawingType::Circle { c: Point::new(0, 0), r: 2, s: stroke(10) },
            DrawingType::Rectangle { r: Rect { min: Point::new(-1, -1), max: Point::new(3, 3) }, s: stroke(10) },
        ]
    );
    assert_eq!(t.all_to_render(&Vec::new(), Point::zero()), Vec::new());
}
