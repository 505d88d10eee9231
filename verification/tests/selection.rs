use krusty_grab::drawing::PointerInput;
use krusty_grab::geometry::{Point, Rect, Size, Vector};
use krusty_grab::selection::{
    CropAction, CropInput, CursorIcon, GrabStatus, SelectionState, HANDLE_REACH,
};

fn rect(x0: i32, y0: i32, x1: i32, y1: i32) -> Rect {
    Rect { min: Point { x: x0, y: y0 }, max: Point { x: x1, y: y1 } }
}

fn window() -> Size {
    Size::new(200, 200)
}

fn pointer(at: (i32, i32), clicked: bool, down: bool, released: bool, press: Option<(i32, i32)>) -> PointerInput {
    PointerInput {
        hover: Some(Point::new(at.0, at.1)),
        clicked,
        down,
        released,
        press_origin: press.map(|p| Point::new(p.0, p.1)),
    }
}

fn input(pointer: PointerInput) -> CropInput {
    CropInput {
        window: window(),
        pointer,
        interact_pos: pointer.hover,
        save_button: Some(rect(140, 0, 200, 20)),
        cancel_button: Some(rect(80, 0, 140, 20)),
    }
}

fn down_at(at: (i32, i32), press: (i32, i32)) -> CropInput {
    input(pointer(at, false, true, false, Some(press)))
}

fn up_at(at: (i32, i32)) -> CropInput {
    input(pointer(at, false, false, true, None))
}

fn with_area(r: Rect) -> SelectionState {
    let mut s = SelectionState::new();
    s.select = Some(r);
    s
}

#[test]
fn a_new_selection_is_empty() {
    let s = SelectionState::new();
    assert_eq!(s.select, None);
    assert_eq!(s.grab_status, GrabStatus::Idle);
    assert_eq!(s.grab_offset, None);
    assert_eq!(s.prev_area, None);
    assert_eq!(s.area_min(), Point::zero());
    assert_eq!(with_area(rect(3, 4, 5, 6)).area_min(), Point::new(3, 4));
}

#[test]
fn dragging_out_an_area() {
    let mut s = SelectionState::new();
    s.begin();
    let out = s.crop_screen_window(&input(pointer((0, 0), true, true, false, Some((0, 0)))));
    assert_eq!(out.action, CropAction::Stay);
    assert_eq!(s.grab_status, GrabStatus::Select);
    assert_eq!(s.select, None);
    s.crop_screen_window(&down_at((100, 100), (0, 0)));
    assert_eq!(s.grab_status, GrabStatus::Select);
    assert_eq!(s.select, Some(rect(0, 0, 100, 100)));
    let out = s.crop_screen_window(&up_at((100, 100)));
    assert_eq!(out.action, CropAction::Stay);
    assert_eq!(s.grab_status, GrabStatus::Idle);
    assert_eq!(s.select, Some(rect(0, 0, 100, 100)));
}

#[test]
fn an_area_dragged_backwards_is_put_in_order() {
    let mut s = SelectionState::new();
    s.crop_screen_window(&down_at((150, 150), (150, 150)));
    s.crop_screen_window(&down_at((50, 180), (150, 150)));
    assert_eq!(s.select, Some(rect(50, 150, 150, 180)));
    assert_eq!(s.grab_status, GrabStatus::Select);
}

#[test]
fn an_area_dragged_out_of_the_window_is_clipped() {
    let mut s = SelectionState::new();
    s.crop_screen_window(&down_at((50, 50), (50, 50)));
    s.crop_screen_window(&down_at((500, -30), (50, 50)));
    assert_eq!(s.select, Some(rect(50, 0, 200, 50)));
}

#[test]
fn a_press_outside_the_area_starts_a_new_one() {
    let mut s = with_area(rect(50, 50, 100, 100));
    s.crop_screen_window(&down_at((150, 150), (150, 150)));
    assert_eq!(s.grab_status, GrabStatus::Select);
    assert_eq!(s.select, Some(rect(50, 50, 100, 100)));
    s.crop_screen_window(&down_at((180, 190), (150, 150)));
    assert_eq!(s.select, Some(rect(150, 150, 180, 190)));
}

#[test]
fn check_coordinates_clips_orders_and_mirrors() {
    let cases = [
        (GrabStatus::TopLeft, GrabStatus::TopRight, GrabStatus::BotLeft, GrabStatus::BotRight),
        (GrabStatus::TopRight, GrabStatus::TopLeft, GrabStatus::BotRight, GrabStatus::BotLeft),
        (GrabStatus::BotLeft, GrabStatus::BotRight, GrabStatus::TopLeft, GrabStatus::TopRight),
        (GrabStatus::BotRight, GrabStatus::BotLeft, GrabStatus::TopRight, GrabStatus::TopLeft),
        (GrabStatus::MidLeft, GrabStatus::MidRight, GrabStatus::MidLeft, GrabStatus::MidRight),
        (GrabStatus::MidRight, GrabStatus::MidLeft, GrabStatus::MidRight, GrabStatus::MidLeft),
        (GrabStatus::TopMid, GrabStatus::TopMid, GrabStatus::BotMid, GrabStatus::BotMid),
        (GrabStatus::BotMid, GrabStatus::BotMid, GrabStatus::TopMid, GrabStatus::TopMid),
        (GrabStatus::Idle, GrabStatus::Idle, GrabStatus::Idle, GrabStatus::Idle),
        (GrabStatus::Select, GrabStatus::Select, GrabStatus::Select, GrabStatus::Select),
        (GrabStatus::Move, GrabStatus::Move, GrabStatus::Move, GrabStatus::Move),
    ];
    for (grab, flipped_x, flipped_y, flipped_both) in cases {
        let mut s = SelectionState::new();
        s.grab_status = grab;
        let r = s.check_coordinates(Point::new(10, 20), Point::new(30, 40), window());
        assert_eq!(r, (Point::new(10, 20), Point::new(30, 40)));
        assert_eq!(s.grab_status, grab);

        s.grab_status = grab;
        let r = s.check_coordinates(Point::new(30, 20), Point::new(10, 40), window());
        assert_eq!(r, (Point::new(10, 20), Point::new(30, 40)));
        assert_eq!(s.grab_status, flipped_x);

        s.grab_status = grab;
        let r = s.check_coordinates(Point::new(10, 40), Point::new(30, 20), window());
        assert_eq!(r, (Point::new(10, 20), Point::new(30, 40)));
        assert_eq!(s.grab_status, flipped_y);

        s.grab_status = grab;
        let r = s.check_coordinates(Point::new(30, 40), Point::new(10, 20), window());
        assert_eq!(r, (Point::new(10, 20), Point::new(30, 40)));
        assert_eq!(s.grab_status, flipped_both);

        assert_eq!(grab.mirror_x(), flipped_x);
        assert_eq!(grab.mirror_y(), flipped_y);
        assert_eq!(grab.mirror_x().mirror_y(), flipped_both);
    }
    let mut s = SelectionState::new();
    let r = s.check_coordinates(Point::new(-10, 500), Point::new(700, -1), window());
    assert_eq!(r, (Point::new(0, 0), Point::new(200, 200)));
    // equal coordinates are in order
    let r = s.check_coordinates(Point::new(5, 5), Point::new(5, 5), window());
    assert_eq!(r, (Point::new(5, 5), Point::new(5, 5)));
}

#[test]
fn handles_lie_on_the_corners_and_edge_middles() {
    let sel = rect(50, 60, 100, 121);
    assert_eq!(HANDLE_REACH, 5);
    assert_eq!(SelectionState::handle_pos(&sel, GrabStatus::TopLeft), Point::new(50, 60));
    assert_eq!(SelectionState::handle_pos(&sel, GrabStatus::TopMid), Point::new(75, 60));
    assert_eq!(SelectionState::handle_pos(&sel, GrabStatus::TopRight), Point::new(100, 60));
    assert_eq!(SelectionState::handle_pos(&sel, GrabStatus::MidLeft), Point::new(50, 90));
    assert_eq!(SelectionState::handle_pos(&sel, GrabStatus::MidRight), Point::new(100, 90));
    assert_eq!(SelectionState::handle_pos(&sel, GrabStatus::BotLeft), Point::new(50, 121));
    assert_eq!(SelectionState::handle_pos(&sel, GrabStatus::BotMid), Point::new(75, 121));
    assert_eq!(SelectionState::handle_pos(&sel, GrabStatus::BotRight), Point::new(100, 121));
    assert_eq!(SelectionState::handle_pos(&sel, GrabStatus::Move), Point::new(75, 90));
}

#[test]
fn hovering_finds_the_handle_under_the_pointer() {
    let sel = rect(50, 50, 100, 100);
    let at = |x, y| SelectionState::hovered_handle(&sel, Point::new(x, y), GrabStatus::Idle);
    assert_eq!(at(50, 50), GrabStatus::TopLeft);
    assert_eq!(at(45, 55), GrabStatus::TopLeft);
    assert_eq!(at(44, 50), GrabStatus::Idle);
    assert_eq!(at(75, 47), GrabStatus::TopMid);
    assert_eq!(at(103, 52), GrabStatus::TopRight);
    assert_eq!(at(52, 78), GrabStatus::MidLeft);
    assert_eq!(at(100, 75), GrabStatus::MidRight);
    assert_eq!(at(50, 105), GrabStatus::BotLeft);
    assert_eq!(at(75, 100), GrabStatus::BotMid);
    assert_eq!(at(100, 100), GrabStatus::BotRight);
    assert_eq!(at(60, 60), GrabStatus::Move);
    assert_eq!(at(150, 150), GrabStatus::Idle);
    // a small area: the middles of the edges are asked before the corners
    let small = rect(50, 50, 54, 54);
    assert_eq!(
        SelectionState::hovered_handle(&small, Point::new(50, 50), GrabStatus::Idle),
        GrabStatus::TopMid
    );
    // what is in hand is kept wherever the pointer is
    assert_eq!(
        SelectionState::hovered_handle(&sel, Point::new(150, 150), GrabStatus::BotRight),
        GrabStatus::BotRight
    );
    assert_eq!(
        SelectionState::hovered_handle(&sel, Point::new(150, 150), GrabStatus::Move),
        GrabStatus::Move
    );
    // but a handle under the pointer that is asked earlier wins
    assert_eq!(
        SelectionState::hovered_handle(&sel, Point::new(75, 50), GrabStatus::BotRight),
        GrabStatus::TopMid
    );
}

#[test]
fn cursor_icons() {
    assert_eq!(GrabStatus::TopMid.cursor_icon(), CursorIcon::ResizeNorth);
    assert_eq!(GrabStatus::MidLeft.cursor_icon(), CursorIcon::ResizeWest);
    assert_eq!(GrabStatus::MidRight.cursor_icon(), CursorIcon::ResizeEast);
    assert_eq!(GrabStatus::BotMid.cursor_icon(), CursorIcon::ResizeSouth);
    assert_eq!(GrabStatus::TopLeft.cursor_icon(), CursorIcon::ResizeNorthWest);
    assert_eq!(GrabStatus::TopRight.cursor_icon(), CursorIcon::ResizeNorthEast);
    assert_eq!(GrabStatus::BotLeft.cursor_icon(), CursorIcon::ResizeSouthWest);
    assert_eq!(GrabStatus::BotRight.cursor_icon(), CursorIcon::ResizeSouthEast);
    assert_eq!(GrabStatus::Move.cursor_icon(), CursorIcon::Grab);
    assert_eq!(GrabStatus::Idle.cursor_icon(), CursorIcon::Crosshair);
    assert_eq!(GrabStatus::Select.cursor_icon(), CursorIcon::Crosshair);
}

#[test]
fn dragging_the_top_left_handle_past_the_right_edge_mirrors_it() {
    let mut s = with_area(rect(50, 50, 100, 100));
    let out = s.crop_screen_window(&down_at((50, 50), (50, 50)));
    assert_eq!(out.cursor, CursorIcon::ResizeNorthWest);
    assert_eq!(s.grab_status, GrabStatus::TopLeft);
    assert_eq!(s.select, Some(rect(50, 50, 100, 100)));
    s.crop_screen_window(&down_at((70, 60), (50, 50)));
    assert_eq!(s.grab_status, GrabStatus::TopLeft);
    assert_eq!(s.select, Some(rect(70, 60, 100, 100)));
    s.crop_screen_window(&down_at((120, 60), (50, 50)));
    assert_eq!(s.grab_status, GrabStatus::TopRight);
    assert_eq!(s.select, Some(rect(100, 60, 120, 100)));
    // the handle is still under the pointer: dragging on moves the right edge
    s.crop_screen_window(&down_at((130, 70), (50, 50)));
    assert_eq!(s.grab_status, GrabStatus::TopRight);
    assert_eq!(s.select, Some(rect(100, 70, 130, 100)));
    // past the bottom edge as well
    s.crop_screen_window(&down_at((130, 150), (50, 50)));
    assert_eq!(s.grab_status, GrabStatus::BotRight);
    assert_eq!(s.select, Some(rect(100, 100, 130, 150)));
    s.crop_screen_window(&up_at((130, 150)));
    assert_eq!(s.grab_status, GrabStatus::Idle);
    assert_eq!(s.select, Some(rect(100, 100, 130, 150)));
}

#[test]
fn a_corner_dragged_past_both_edges_is_mirrored_twice() {
    let mut s = with_area(rect(50, 50, 100, 100));
    s.crop_screen_window(&down_at((50, 50), (50, 50)));
    s.crop_screen_window(&down_at((150, 160), (50, 50)));
    assert_eq!(s.grab_status, GrabStatus::BotRight);
    assert_eq!(s.select, Some(rect(100, 100, 150, 160)));
}

#[test]
fn edge_handles_move_one_edge() {
    let sel = rect(50, 50, 100, 100);
    let cases = [
        (GrabStatus::TopMid, (70, 20), rect(50, 20, 100, 100), GrabStatus::TopMid),
        (GrabStatus::BotMid, (70, 120), rect(50, 50, 100, 120), GrabStatus::BotMid),
        (GrabStatus::MidLeft, (20, 70), rect(20, 50, 100, 100), GrabStatus::MidLeft),
        (GrabStatus::MidRight, (120, 70), rect(50, 50, 120, 100), GrabStatus::MidRight),
        (GrabStatus::TopMid, (70, 150), rect(50, 100, 100, 150), GrabStatus::BotMid),
        (GrabStatus::MidRight, (10, 70), rect(10, 50, 50, 100), GrabStatus::MidLeft),
        (GrabStatus::TopRight, (150, 10), rect(50, 10, 150, 100), GrabStatus::TopRight),
        (GrabStatus::BotLeft, (10, 150), rect(10, 50, 100, 150), GrabStatus::BotLeft),
        (GrabStatus::BotRight, (150, 150), rect(50, 50, 150, 150), GrabStatus::BotRight),
        (GrabStatus::BotLeft, (300, 70), rect(100, 50, 200, 70), GrabStatus::BotRight),
    ];
    for (grab, to, area, after) in cases {
        let mut s = with_area(sel);
        s.grab_status = grab;
        s.update_area(Point::new(to.0, to.1), grab, true, None, window());
        assert_eq!(s.select, Some(area));
        assert_eq!(s.grab_status, after);
    }
}

#[test]
fn moving_the_area_follows_the_pointer_inside_the_window() {
    let mut s = with_area(rect(50, 50, 100, 100));
    let out = s.crop_screen_window(&down_at((75, 75), (75, 75)));
    assert_eq!(out.cursor, CursorIcon::Grab);
    assert_eq!(s.grab_status, GrabStatus::Move);
    assert_eq!(s.select, Some(rect(50, 50, 100, 100)));
    assert_eq!(s.grab_offset, None);
    let mut next = down_at((80, 80), (75, 75));
    next.interact_pos = Some(Point::new(75, 75));
    let out = s.crop_screen_window(&next);
    assert_eq!(out.cursor, CursorIcon::Grabbing);
    assert_eq!(s.grab_offset, Some(Vector { dx: 25, dy: 25 }));
    assert_eq!(s.select, Some(rect(55, 55, 105, 105)));
    s.crop_screen_window(&down_at((300, 10), (75, 75)));
    assert_eq!(s.select, Some(rect(150, 0, 200, 50)));
    s.crop_screen_window(&down_at((0, 400), (75, 75)));
    assert_eq!(s.select, Some(rect(0, 150, 50, 200)));
    s.crop_screen_window(&up_at((0, 400)));
    assert_eq!(s.grab_status, GrabStatus::Idle);
    assert_eq!(s.grab_offset, None);
    assert_eq!(s.select, Some(rect(0, 150, 50, 200)));
}

#[test]
fn an_area_larger_than_the_window_is_moved_to_the_origin() {
    let mut s = with_area(rect(10, 10, 310, 60));
    s.grab_status = GrabStatus::Move;
    s.update_area(Point::new(100, 100), GrabStatus::Move, true, Some(Point::new(20, 20)), window());
    assert_eq!(s.select, Some(rect(0, 90, 300, 140)));
}

#[test]
fn show_selected_area_shades_what_is_outside() {
    let s = with_area(rect(50, 60, 100, 120));
    assert_eq!(
        s.show_selected_area(window()),
        vec![rect(0, 0, 50, 200), rect(100, 0, 200, 200), rect(50, 0, 100, 60), rect(50, 120, 100, 200)]
    );
    assert_eq!(SelectionState::new().show_selected_area(window()), vec![rect(0, 0, 200, 200)]);
}

#[test]
fn save_confirms_and_cancel_restores() {
    let mut s = with_area(rect(50, 50, 100, 100));
    s.begin();
    assert_eq!(s.prev_area, Some(rect(50, 50, 100, 100)));
    s.crop_screen_window(&down_at((150, 150), (150, 150)));
    s.crop_screen_window(&down_at((180, 190), (150, 150)));
    s.crop_screen_window(&up_at((180, 190)));
    assert_eq!(s.select, Some(rect(150, 150, 180, 190)));
    // over a button without a click
    let out = s.crop_screen_window(&input(pointer((100, 10), false, false, false, None)));
    assert_eq!(out, krusty_grab::selection::CropOutput { action: CropAction::Stay, cursor: CursorIcon::PointingHand });
    // a press on a button starts no new area
    let out = s.crop_screen_window(&input(pointer((100, 10), false, true, false, Some((100, 10)))));
    assert_eq!(out.action, CropAction::Stay);
    assert_eq!(s.grab_status, GrabStatus::Idle);
    let mut saved = s;
    let out = saved.crop_screen_window(&input(pointer((150, 10), true, false, false, None)));
    assert_eq!(out.action, CropAction::Save);
    assert_eq!(saved.select, Some(rect(150, 150, 180, 190)));
    let out = s.crop_screen_window(&input(pointer((100, 10), true, false, false, None)));
    assert_eq!(out.action, CropAction::Cancel);
    assert_eq!(s.select, Some(rect(50, 50, 100, 100)));
}

#[test]
fn buttons_do_not_count_while_something_is_in_hand() {
    let mut s = SelectionState::new();
    s.crop_screen_window(&down_at((10, 100), (10, 100)));
    let out = s.crop_screen_window(&input(pointer((150, 10), true, true, false, Some((10, 100)))));
    assert_eq!(out.action, CropAction::Stay);
    assert_eq!(s.grab_status, GrabStatus::Select);
    assert_eq!(s.select, Some(rect(10, 10, 150, 100)));
}

#[test]
fn without_the_pointer_nothing_happens() {
    let mut s = with_area(rect(50, 50, 100, 100));
    let before = s;
    let none = PointerInput { hover: None, clicked: true, down: true, released: true, press_origin: None };
    let out = s.crop_screen_window(&input(none));
    assert_eq!(out.action, CropAction::Stay);
    assert_eq!(out.cursor, CursorIcon::Crosshair);
    assert_eq!(s, before);
}

#[test]
fn select_area_and_grabbable_corners_on_their_own() {
    let mut s = SelectionState::new();
    let p = pointer((30, 40), false, true, false, Some((10, 10)));
    s.select_area(Point::new(30, 40), &p, window());
    assert_eq!(s.select, Some(rect(10, 10, 30, 40)));
    assert_eq!(s.grab_status, GrabStatus::Select);
    assert_eq!(s.grabbable_corners(Some(Point::new(10, 10)), true, None, window()), CursorIcon::Crosshair);
    assert_eq!(s.grab_status, GrabStatus::Select);
    let p = pointer((30, 40), false, false, true, None);
    s.select_area(Point::new(30, 40), &p, window());
    assert_eq!(s.grab_status, GrabStatus::Idle);
    assert_eq!(s.grabbable_corners(Some(Point::new(30, 40)), false, None, window()), CursorIcon::ResizeSouthEast);
    assert_eq!(s.grab_status, GrabStatus::Idle);
    assert_eq!(s.grabbable_corners(Some(Point::new(30, 40)), true, None, window()), CursorIcon::ResizeSouthEast);
    assert_eq!(s.grab_status, GrabStatus::BotRight);
    assert_eq!(s.grabbable_corners(None, true, None, window()), CursorIcon::Crosshair);
    assert_eq!(s.grab_status, GrabStatus::BotRight);
}

#[test]
fn a_release_from_a_handle_forgets_a_move_offset() {
    let mut s = with_area(rect(50, 50, 100, 100));
    s.grab_status = GrabStatus::BotRight;
    s.grab_offset = Some(Vector { dx: 3, dy: 4 });
    s.update_area(Point::new(120, 120), GrabStatus::BotRight, false, None, window());
    assert_eq!(s.grab_status, GrabStatus::Idle);
    assert_eq!(s.grab_offset, None);
    assert_eq!(s.select, Some(rect(50, 50, 100, 100)));
}
