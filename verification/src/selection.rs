//! The selection of a part of the image: dragging a rectangle out, resizing
//! it by one of eight handles, and moving it.
//!
//! Every change keeps the rectangle inside the window. When a handle is
//! dragged across the opposite edge the corners swap, and the handle in hand
//! becomes its mirror image, so that it stays under the pointer.

use vstd::prelude::*;
use crate::drawing::{point_or, PointerInput};
use crate::geometry::{max_int, min_int, saturate_i32, to_i32_saturating, Point, Rect, Size, Vector};

verus! {

/// How far a handle reaches from its centre on either axis.
pub const HANDLE_REACH: i32 = 5;

/// What is being done to the selected area.
#[derive(Clone, Copy, Debug, PartialEq, Eq, Structural)]
pub enum GrabStatus {
    /// Nothing is in hand: the handles are shown.
    Idle,
    /// A new rectangle is being dragged out.
    Select,
    TopLeft,
    TopMid,
    TopRight,
    MidLeft,
    MidRight,
    BotLeft,
    BotMid,
    BotRight,
    /// The rectangle is being moved.
    Move,
}

/// The pointer's shape.
#[derive(Clone, Copy, Debug, PartialEq, Eq, Structural)]
pub enum CursorIcon {
    Crosshair,
    PointingHand,
    ResizeNorth,
    ResizeWest,
    ResizeEast,
    ResizeSouth,
    ResizeNorthWest,
    ResizeNorthEast,
    ResizeSouthWest,
    ResizeSouthEast,
    Grab,
    Grabbing,
}

/// How a frame of the selection screen ends.
#[derive(Clone, Copy, Debug, PartialEq, Eq, Structural)]
pub enum CropAction {
    /// The screen stays.
    Stay,
    /// The selection is confirmed: the image is to be cut to it and the
    /// screen left.
    Save,
    /// The selection is given up and the screen left.
    Cancel,
}

impl GrabStatus {
    /// The handle on the other side of a vertical axis; what is no handle on
    /// the left or right is its own mirror image.
    pub open spec fn mirrored_x(self) -> GrabStatus {
        match self {
            GrabStatus::MidLeft => GrabStatus::MidRight,
            GrabStatus::MidRight => GrabStatus::MidLeft,
            GrabStatus::TopLeft => GrabStatus::TopRight,
            GrabStatus::TopRight => GrabStatus::TopLeft,
            GrabStatus::BotLeft => GrabStatus::BotRight,
            GrabStatus::BotRight => GrabStatus::BotLeft,
            other => other,
        }
    }

    /// The handle on the other side of a horizontal axis; what is no handle
    /// at the top or bottom is its own mirror image.
    pub open spec fn mirrored_y(self) -> GrabStatus {
        match self {
            GrabStatus::TopMid => GrabStatus::BotMid,
            GrabStatus::BotMid => GrabStatus::TopMid,
            GrabStatus::TopLeft => GrabStatus::BotLeft,
            GrabStatus::TopRight => GrabStatus::BotRight,
            GrabStatus::BotLeft => GrabStatus::TopLeft,
            GrabStatus::BotRight => GrabStatus::TopRight,
            other => other,
        }
    }

    /// This status after the flips that took place, the horizontal one
    /// first.
    pub open spec fn relabeled(self, flip_x: bool, flip_y: bool) -> GrabStatus {
        let after_x = if flip_x {
            self.mirrored_x()
        } else {
            self
        };
        if flip_y {
            after_x.mirrored_y()
        } else {
            after_x
        }
    }

    /// The handle on the other side of a vertical axis.
    pub fn mirror_x(self) -> (r: GrabStatus)
        ensures
            r == self.mirrored_x(),
    {
        match self {
            GrabStatus::MidLeft => GrabStatus::MidRight,
            GrabStatus::MidRight => GrabStatus::MidLeft,
            GrabStatus::TopLeft => GrabStatus::TopRight,
            GrabStatus::TopRight => GrabStatus::TopLeft,
            GrabStatus::BotLeft => GrabStatus::BotRight,
            GrabStatus::BotRight => GrabStatus::BotLeft,
            other => other,
        }
    }

    /// The handle on the other side of a horizontal axis.
    pub fn mirror_y(self) -> (r: GrabStatus)
        ensures
            r == self.mirrored_y(),
    {
        match self {
            GrabStatus::TopMid => GrabStatus::BotMid,
            GrabStatus::BotMid => GrabStatus::TopMid,
            GrabStatus::TopLeft => GrabStatus::BotLeft,
            GrabStatus::TopRight => GrabStatus::BotRight,
            GrabStatus::BotLeft => GrabStatus::TopLeft,
            GrabStatus::BotRight => GrabStatus::TopRight,
            other => other,
        }
    }

    /// The pointer's shape over this handle, or over the rectangle for
    /// `Move`.
    pub open spec fn cursor(self) -> CursorIcon {
        match self {
            GrabStatus::TopMid => CursorIcon::ResizeNorth,
            GrabStatus::MidLeft => CursorIcon::ResizeWest,
            GrabStatus::MidRight => CursorIcon::ResizeEast,
            GrabStatus::BotMid => CursorIcon::ResizeSouth,
            GrabStatus::TopLeft => CursorIcon::ResizeNorthWest,
            GrabStatus::TopRight => CursorIcon::ResizeNorthEast,
            GrabStatus::BotLeft => CursorIcon::ResizeSouthWest,
            GrabStatus::BotRight => CursorIcon::ResizeSouthEast,
            GrabStatus::Move => CursorIcon::Grab,
            GrabStatus::Idle => CursorIcon::Crosshair,
            GrabStatus::Select => CursorIcon::Crosshair,
        }
    }

    /// The pointer's shape over this handle, or over the rectangle for
    /// `Move`; the crosshair for the rest.
    pub fn cursor_icon(self) -> (c: CursorIcon)
        ensures
            c == self.cursor(),
    {
        match self {
            GrabStatus::TopMid => CursorIcon::ResizeNorth,
            GrabStatus::MidLeft => CursorIcon::ResizeWest,
            GrabStatus::MidRight => CursorIcon::ResizeEast,
            GrabStatus::BotMid => CursorIcon::ResizeSouth,
            GrabStatus::TopLeft => CursorIcon::ResizeNorthWest,
            GrabStatus::TopRight => CursorIcon::ResizeNorthEast,
            GrabStatus::BotLeft => CursorIcon::ResizeSouthWest,
            GrabStatus::BotRight => CursorIcon::ResizeSouthEast,
            GrabStatus::Move => CursorIcon::Grab,
            GrabStatus::Idle => CursorIcon::Crosshair,
            GrabStatus::Select => CursorIcon::Crosshair,
        }
    }
}

/// Where the handle `h` of `sel` has its centre: on a corner or in the
/// middle of an edge. For what is no handle, the rectangle's centre.
pub open spec fn handle_center(sel: Rect, h: GrabStatus) -> Point {
    let c = sel.spec_center();
    match h {
        GrabStatus::TopLeft => sel.min,
        GrabStatus::TopMid => Point { x: c.x, y: sel.min.y },
        GrabStatus::TopRight => Point { x: sel.max.x, y: sel.min.y },
        GrabStatus::MidLeft => Point { x: sel.min.x, y: c.y },
        GrabStatus::MidRight => Point { x: sel.max.x, y: c.y },
        GrabStatus::BotLeft => Point { x: sel.min.x, y: sel.max.y },
        GrabStatus::BotMid => Point { x: c.x, y: sel.max.y },
        GrabStatus::BotRight => sel.max,
        _ => c,
    }
}

/// Whether the handle `h` is the one to act on: the pointer is on it, or it
/// is already in hand.
pub open spec fn takes(sel: Rect, pos: Point, grab: GrabStatus, h: GrabStatus) -> bool {
    pos.near(handle_center(sel, h), HANDLE_REACH as int) || grab == h
}

/// What the pointer at `pos` acts on. The handles in the middle of the edges
/// are asked first, then the corners, then the rectangle itself, which
/// stands for moving it; `GrabStatus::Idle` where the pointer is on none of
/// them and nothing is in hand.
pub open spec fn hovered(sel: Rect, pos: Point, grab: GrabStatus) -> GrabStatus {
    if takes(sel, pos, grab, GrabStatus::TopMid) {
        GrabStatus::TopMid
    } else if takes(sel, pos, grab, GrabStatus::MidLeft) {
        GrabStatus::MidLeft
    } else if takes(sel, pos, grab, GrabStatus::MidRight) {
        GrabStatus::MidRight
    } else if takes(sel, pos, grab, GrabStatus::BotMid) {
        GrabStatus::BotMid
    } else if takes(sel, pos, grab, GrabStatus::TopLeft) {
        GrabStatus::TopLeft
    } else if takes(sel, pos, grab, GrabStatus::TopRight) {
        GrabStatus::TopRight
    } else if takes(sel, pos, grab, GrabStatus::BotLeft) {
        GrabStatus::BotLeft
    } else if takes(sel, pos, grab, GrabStatus::BotRight) {
        GrabStatus::BotRight
    } else if sel.holds(pos) || grab == GrabStatus::Move {
        GrabStatus::Move
    } else {
        GrabStatus::Idle
    }
}

/// The rectangle between `start` and `end` once both are moved into the
/// window.
pub open spec fn checked_rect(start: Point, end: Point, window: Size) -> Rect {
    Rect::spanned(start.clamped(window), end.clamped(window))
}

/// The corners that a drag of the handle `grab` to `pos` asks for, before
/// they are put in order: a corner handle moves two edges, an edge handle
/// one. Anything else leaves `sel` as it is.
pub open spec fn resized(sel: Rect, grab: GrabStatus, pos: Point) -> Rect {
    match grab {
        GrabStatus::TopLeft => Rect { min: pos, max: sel.max },
        GrabStatus::TopMid => Rect { min: Point { x: sel.min.x, y: pos.y }, max: sel.max },
        GrabStatus::TopRight => Rect {
            min: Point { x: sel.min.x, y: pos.y },
            max: Point { x: pos.x, y: sel.max.y },
        },
        GrabStatus::MidLeft => Rect { min: Point { x: pos.x, y: sel.min.y }, max: sel.max },
        GrabStatus::MidRight => Rect { min: sel.min, max: Point { x: pos.x, y: sel.max.y } },
        GrabStatus::BotLeft => Rect {
            min: Point { x: pos.x, y: sel.min.y },
            max: Point { x: sel.max.x, y: pos.y },
        },
        GrabStatus::BotMid => Rect { min: sel.min, max: Point { x: sel.max.x, y: pos.y } },
        GrabStatus::BotRight => Rect { min: sel.min, max: pos },
        _ => sel,
    }
}

/// Where the near edge of an extent goes when the pointer, which took it
/// `offset` from that edge, is at `pos`: it follows the pointer but stays in
/// the window, whose far side the far edge does not pass. The window's near
/// side wins where the extent is larger than the window.
pub open spec fn slid(pos: int, offset: int, extent: int, window: int) -> int {
    max_int(0, min_int(pos - offset, window - extent))
}

/// `sel` moved so that the pointer at `pos` is `offset` from its `min`
/// corner again, and kept in the window.
pub open spec fn moved(sel: Rect, pos: Point, offset: Vector, window: Size) -> Rect {
    let x = slid(pos.x as int, offset.dx as int, sel.spec_width(), window.width as int);
    let y = slid(pos.y as int, offset.dy as int, sel.spec_height(), window.height as int);
    Rect {
        min: Point { x: saturate_i32(x) as i32, y: saturate_i32(y) as i32 },
        max: Point {
            x: saturate_i32(x + sel.spec_width()) as i32,
            y: saturate_i32(y + sel.spec_height()) as i32,
        },
    }
}

/// What one frame hands to the selection screen: the window's extent, the
/// pointer, where the pointer last acted, and where the buttons that
/// confirm and give up the selection lie, if they are shown.
#[derive(Clone, Copy, Debug, PartialEq, Eq)]
pub struct CropInput {
    pub window: Size,
    pub pointer: PointerInput,
    pub interact_pos: Option<Point>,
    pub save_button: Option<Rect>,
    pub cancel_button: Option<Rect>,
}

/// What a frame of the selection screen asks of the window.
#[derive(Clone, Copy, Debug, PartialEq, Eq)]
pub struct CropOutput {
    pub action: CropAction,
    pub cursor: CursorIcon,
}

/// Whether `button` is shown and `p` is on it.
pub open spec fn on_button(button: Option<Rect>, p: Point) -> bool {
    button matches Some(r) && r.holds(p)
}

/// The selected area and what is being done to it.
#[derive(Clone, Copy, Debug, PartialEq, Eq)]
pub struct SelectionState {
    /// The selected area; none as long as nothing was selected.
    pub select: Option<Rect>,
    /// What is being done to it.
    pub grab_status: GrabStatus,
    /// While the area is moved: how far the pointer was from its `min`
    /// corner when the move began.
    pub grab_offset: Option<Vector>,
    /// The area as it was when the selection screen was entered.
    pub prev_area: Option<Rect>,
}

impl SelectionState {
    /// The selected area, if any, has its corners in order, and so has the
    /// area that giving up restores.
    pub open spec fn wf(self) -> bool {
        &&& self.select matches Some(r) ==> r.is_normalized()
        &&& self.prev_area matches Some(r) ==> r.is_normalized()
    }

    /// The selected area, if any, lies in the window, and so does the area
    /// that giving up restores.
    pub open spec fn within(self, window: Size) -> bool {
        &&& self.select matches Some(r) ==> window.holds_rect(r)
        &&& self.prev_area matches Some(r) ==> window.holds_rect(r)
    }

    /// After two corners were checked: both are moved into the window, and
    /// where that leaves the first right of or below the second, the status
    /// becomes the mirrored handle.
    pub open spec fn after_check(self, start: Point, end: Point, window: Size) -> SelectionState {
        let a = start.clamped(window);
        let b = end.clamped(window);
        SelectionState { grab_status: self.grab_status.relabeled(a.x > b.x, a.y > b.y), ..self }
    }

    /// After a frame in which the area is dragged out. A release ends the
    /// drag. While the button is held and nothing else is in hand, the area
    /// is the rectangle between the press and the pointer, kept in the
    /// window; it is left as it was while the pointer is still where the
    /// press was.
    pub open spec fn after_select(self, hover: Point, pointer: PointerInput, window: Size)
        -> SelectionState {
        if pointer.released && self.grab_status == GrabStatus::Select {
            SelectionState { grab_status: GrabStatus::Idle, ..self }
        } else if pointer.down && (self.grab_status == GrabStatus::Select || self.grab_status
            == GrabStatus::Idle) {
            let init = point_or(pointer.press_origin, hover);
            if init != hover {
                SelectionState {
                    grab_status: GrabStatus::Select,
                    select: Some(checked_rect(init, hover, window)),
                    ..self
                }
            } else {
                SelectionState { grab_status: GrabStatus::Select, ..self }
            }
        } else {
            self
        }
    }

    /// After a frame in which the pointer at `pos` acts on `status`, on the
    /// area `sel`. With the button up, whatever was in hand is let go and
    /// the offset noted for a move forgotten. With it held: if nothing was in hand, `status` is taken; a handle in hand
    /// is dragged to `pos`; an area being moved follows the pointer.
    pub open spec fn after_update(
        self,
        sel: Rect,
        pos: Point,
        status: GrabStatus,
        down: bool,
        interact_pos: Option<Point>,
        window: Size,
    ) -> SelectionState {
        if !down {
            SelectionState { grab_status: GrabStatus::Idle, grab_offset: None, ..self }
        } else if self.grab_status == GrabStatus::Move {
            let offset = match self.grab_offset {
                Some(o) => o,
                None => point_or(interact_pos, pos).offset_from(sel.min),
            };
            SelectionState {
                grab_offset: Some(offset),
                select: Some(moved(sel, pos, offset, window)),
                ..self
            }
        } else {
            let taken = if self.grab_status == GrabStatus::Idle {
                status
            } else {
                self.grab_status
            };
            if taken == GrabStatus::Move {
                SelectionState { grab_status: taken, ..self }
            } else {
                let want = resized(sel, self.grab_status, pos);
                let a = want.min.clamped(window);
                let b = want.max.clamped(window);
                SelectionState {
                    grab_status: taken.relabeled(a.x > b.x, a.y > b.y),
                    select: Some(checked_rect(want.min, want.max, window)),
                    ..self
                }
            }
        }
    }

    /// After the handles' part of a frame. Nothing happens without an area,
    /// without the pointer, or while a new area is dragged out; else the
    /// pointer acts on what it is over, if anything.
    pub open spec fn after_corners(
        self,
        hover: Option<Point>,
        down: bool,
        interact_pos: Option<Point>,
        window: Size,
    ) -> SelectionState {
        match (self.select, hover) {
            (Some(sel), Some(pos)) => {
                let status = hovered(sel, pos, self.grab_status);
                if self.grab_status != GrabStatus::Select && status != GrabStatus::Idle {
                    self.after_update(sel, pos, status, down, interact_pos, window)
                } else {
                    self
                }
            },
            _ => self,
        }
    }

    /// The pointer's shape after the handles' part of a frame.
    pub open spec fn cursor_over(self, hover: Option<Point>, down: bool) -> CursorIcon {
        match (self.select, hover) {
            (Some(sel), Some(pos)) => {
                if self.grab_status == GrabStatus::Select {
                    CursorIcon::Crosshair
                } else if self.grab_status == GrabStatus::Move && down {
                    CursorIcon::Grabbing
                } else {
                    hovered(sel, pos, self.grab_status).cursor()
                }
            },
            _ => CursorIcon::Crosshair,
        }
    }

    /// How a frame of the selection screen ends: with a click on a button
    /// while nothing is in hand, the selection is confirmed or given up.
    pub open spec fn crop_action(self, input: CropInput) -> CropAction {
        match input.pointer.hover {
            Some(p) => {
                if self.grab_status != GrabStatus::Idle {
                    CropAction::Stay
                } else if on_button(input.save_button, p) {
                    if input.pointer.clicked {
                        CropAction::Save
                    } else {
                        CropAction::Stay
                    }
                } else if on_button(input.cancel_button, p) {
                    if input.pointer.clicked {
                        CropAction::Cancel
                    } else {
                        CropAction::Stay
                    }
                } else {
                    CropAction::Stay
                }
            },
            None => CropAction::Stay,
        }
    }

    /// Whether the pointer is on one of the buttons, which are shown while
    /// nothing is in hand.
    pub open spec fn over_button(self, input: CropInput) -> bool {
        &&& self.grab_status == GrabStatus::Idle
        &&& input.pointer.hover matches Some(p)
        &&& (on_button(input.save_button, p) || on_button(input.cancel_button, p))
    }

    /// After one frame of the selection screen. Giving up restores the area
    /// as it was when the screen was entered; confirming keeps the area.
    /// Else the handles are served first, then the dragging out of a new
    /// area, unless the pointer is on a button.
    pub open spec fn after_crop(self, input: CropInput) -> SelectionState {
        match self.crop_action(input) {
            CropAction::Save => self,
            CropAction::Cancel => SelectionState { select: self.prev_area, ..self },
            CropAction::Stay => {
                let served = self.after_corners(
                    input.pointer.hover,
                    input.pointer.down,
                    input.interact_pos,
                    input.window,
                );
                match input.pointer.hover {
                    Some(p) => if self.over_button(input) {
                        served
                    } else {
                        served.after_select(p, input.pointer, input.window)
                    },
                    None => served,
                }
            },
        }
    }

    /// The pointer's shape after one frame of the selection screen.
    pub open spec fn crop_cursor(self, input: CropInput) -> CursorIcon {
        if self.over_button(input) {
            CursorIcon::PointingHand
        } else if self.crop_action(input) == CropAction::Stay {
            self.cursor_over(input.pointer.hover, input.pointer.down)
        } else {
            CursorIcon::Crosshair
        }
    }

    /// Nothing selected and nothing in hand.
    pub fn new() -> (s: SelectionState)
        ensures
            s == (SelectionState {
                select: None,
                grab_status: GrabStatus::Idle,
                grab_offset: None,
                prev_area: None,
            }),
            s.wf(),
    {
        SelectionState {
            select: None,
            grab_status: GrabStatus::Idle,
            grab_offset: None,
            prev_area: None,
        }
    }

    /// Enters the selection screen: the area as it is now is what giving up
    /// will restore, and nothing is in hand.
    pub fn begin(&mut self)
        ensures
            *final(self) == (SelectionState {
                prev_area: old(self).select,
                grab_status: GrabStatus::Idle,
                grab_offset: None,
                ..*old(self)
            }),
            old(self).wf() ==> final(self).wf(),
    {
        self.prev_area = self.select;
        self.grab_status = GrabStatus::Idle;
        self.grab_offset = None;
    }

    /// The top-left corner of the selected area, or the origin without one.
    pub fn area_min(&self) -> (p: Point)
        ensures
            p == (match self.select {
                Some(r) => r.min,
                None => Point { x: 0, y: 0 },
            }),
    {
        match self.select {
            Some(r) => r.min,
            None => Point { x: 0, y: 0 },
        }
    }

    /// Moves both corners into the window and puts them in order, each axis
    /// on its own. Where an axis had to be swapped, the status becomes the
    /// mirrored handle: the horizontal swap is looked at first, then the
    /// vertical one.
    pub fn check_coordinates(&mut self, start: Point, end: Point, window: Size) -> (r: (Point, Point))
        requires
            window.is_valid(),
        ensures
            *final(self) == old(self).after_check(start, end, window),
            r.0 == checked_rect(start, end, window).min,
            r.1 == checked_rect(start, end, window).max,
            r.0.x <= r.1.x,
            r.0.y <= r.1.y,
            window.holds(r.0),
            window.holds(r.1),
    {
        let mut init_pos = start.clamp(window);
        let mut end_pos = end.clamp(window);
        let mut grab_status = self.grab_status;
        if init_pos.x > end_pos.x {
            let tmp: i32 = init_pos.x;
            init_pos.x = end_pos.x;
            end_pos.x = tmp;
            grab_status = grab_status.mirror_x();
        }
        if init_pos.y > end_pos.y {
            let tmp: i32 = init_pos.y;
            init_pos.y = end_pos.y;
            end_pos.y = tmp;
            grab_status = grab_status.mirror_y();
        }
        self.grab_status = grab_status;
        (init_pos, end_pos)
    }

    /// One frame of dragging out a new area, with the pointer at `hover`.
    pub fn select_area(&mut self, hover: Point, pointer: &PointerInput, window: Size)
        requires
            window.is_valid(),
        ensures
            *final(self) == old(self).after_select(hover, *pointer, window),
            old(self).wf() ==> final(self).wf(),
    {
        if pointer.released && self.grab_status == GrabStatus::Select {
            self.grab_status = GrabStatus::Idle;
        } else if pointer.down && (self.grab_status == GrabStatus::Select || self.grab_status
            == GrabStatus::Idle) {
            self.grab_status = GrabStatus::Select;
            let init_pos: Point = match pointer.press_origin {
                Some(p) => p,
                None => hover,
            };
            if init_pos != hover {
                let (a, b) = self.check_coordinates(init_pos, hover, window);
                self.select = Some(Rect::from_min_max(a, b));
            }
        }
    }

    /// The centre of the handle `h` of the area `sel`.
    pub fn handle_pos(sel: &Rect, h: GrabStatus) -> (p: Point)
        ensures
            p == handle_center(*sel, h),
    {
        let c = sel.center();
        match h {
            GrabStatus::TopLeft => sel.min,
            GrabStatus::TopMid => Point { x: c.x, y: sel.min.y },
            GrabStatus::TopRight => Point { x: sel.max.x, y: sel.min.y },
            GrabStatus::MidLeft => Point { x: sel.min.x, y: c.y },
            GrabStatus::MidRight => Point { x: sel.max.x, y: c.y },
            GrabStatus::BotLeft => Point { x: sel.min.x, y: sel.max.y },
            GrabStatus::BotMid => Point { x: c.x, y: sel.max.y },
            GrabStatus::BotRight => sel.max,
            _ => c,
        }
    }

    fn takes_handle(sel: &Rect, pos: Point, grab: GrabStatus, h: GrabStatus) -> (b: bool)
        ensures
            b == takes(*sel, pos, grab, h),
    {
        pos.is_near(Self::handle_pos(sel, h), HANDLE_REACH) || grab == h
    }

    /// What the pointer at `pos` acts on; see [`hovered`].
    pub fn hovered_handle(sel: &Rect, pos: Point, grab: GrabStatus) -> (h: GrabStatus)
        ensures
            h == hovered(*sel, pos, grab),
    {
        if Self::takes_handle(sel, pos, grab, GrabStatus::TopMid) {
            GrabStatus::TopMid
        } else if Self::takes_handle(sel, pos, grab, GrabStatus::MidLeft) {
            GrabStatus::MidLeft
        } else if Self::takes_handle(sel, pos, grab, GrabStatus::MidRight) {
            GrabStatus::MidRight
        } else if Self::takes_handle(sel, pos, grab, GrabStatus::BotMid) {
            GrabStatus::BotMid
        } else if Self::takes_handle(sel, pos, grab, GrabStatus::TopLeft) {
            GrabStatus::TopLeft
        } else if Self::takes_handle(sel, pos, grab, GrabStatus::TopRight) {
            GrabStatus::TopRight
        } else if Self::takes_handle(sel, pos, grab, GrabStatus::BotLeft) {
            GrabStatus::BotLeft
        } else if Self::takes_handle(sel, pos, grab, GrabStatus::BotRight) {
            GrabStatus::BotRight
        } else if sel.contains(pos) || grab == GrabStatus::Move {
            GrabStatus::Move
        } else {
            GrabStatus::Idle
        }
    }

    /// The handles' part of a frame: finds what the pointer is over and acts
    /// on it. Returns the pointer's shape.
    pub fn grabbable_corners(
        &mut self,
        hover: Option<Point>,
        down: bool,
        interact_pos: Option<Point>,
        window: Size,
    ) -> (cursor: CursorIcon)
        requires
            window.is_valid(),
        ensures
            *final(self) == old(self).after_corners(hover, down, interact_pos, window),
            cursor == old(self).cursor_over(hover, down),
            old(self).wf() ==> final(self).wf(),
    {
        match (self.select, hover) {
            (Some(sel), Some(pos)) => {
                if self.grab_status == GrabStatus::Select {
                    return CursorIcon::Crosshair;
                }
                let status = Self::hovered_handle(&sel, pos, self.grab_status);
                let cursor = if self.grab_status == GrabStatus::Move && down {
                    CursorIcon::Grabbing
                } else {
                    status.cursor_icon()
                };
                if status != GrabStatus::Idle {
                    self.update_area(pos, status, down, interact_pos, window);
                }
                cursor
            },
            _ => CursorIcon::Crosshair,
        }
    }

    /// Acts on the selected area with the pointer at `pos`, which is over
    /// `status`. There must be an area, and no new one being dragged out.
    pub fn update_area(
        &mut self,
        pos: Point,
        status: GrabStatus,
        down: bool,
        interact_pos: Option<Point>,
        window: Size,
    )
        requires
            window.is_valid(),
            old(self).select is Some,
            old(self).grab_status != GrabStatus::Select,
        ensures
            *final(self) == old(self).after_update(
                old(self).select->0,
                pos,
                status,
                down,
                interact_pos,
                window,
            ),
            old(self).wf() ==> final(self).wf(),
    {
        let sel: Rect = self.select.unwrap();
        if !down {
            self.grab_offset = None;
            self.grab_status = GrabStatus::Idle;
            return ;
        }
        let mut new_min = sel.min;
        let mut new_max = sel.max;
        match self.grab_status {
            GrabStatus::Idle => {
                self.grab_status = status;
            },
            GrabStatus::Select => {},
            GrabStatus::TopLeft => {
                new_min = pos;
            },
            GrabStatus::TopMid => {
                new_min = Point { x: sel.min.x, y: pos.y };
            },
            GrabStatus::TopRight => {
                new_min = Point { x: sel.min.x, y: pos.y };
                new_max = Point { x: pos.x, y: sel.max.y };
            },
            GrabStatus::MidLeft => {
                new_min = Point { x: pos.x, y: sel.min.y };
            },
            GrabStatus::MidRight => {
                new_max = Point { x: pos.x, y: sel.max.y };
            },
            GrabStatus::BotLeft => {
                new_min = Point { x: pos.x, y: sel.min.y };
                new_max = Point { x: sel.max.x, y: pos.y };
            },
            GrabStatus::BotMid => {
                new_max = Point { x: sel.max.x, y: pos.y };
            },
            GrabStatus::BotRight => {
                new_max = pos;
            },
            GrabStatus::Move => {
                let offset: Vector = match self.grab_offset {
                    Some(o) => o,
                    None => {
                        let start: Point = match interact_pos {
                            Some(p) => p,
                            None => pos,
                        };
                        start.minus(sel.min)
                    },
                };
                self.grab_offset = Some(offset);
                let (x0, x1) = slide(pos.x, offset.dx, sel.width(), window.width);
                let (y0, y1) = slide(pos.y, offset.dy, sel.height(), window.height);
                self.select = Some(
                    Rect { min: Point { x: x0, y: y0 }, max: Point { x: x1, y: y1 } },
                );
                return ;
            },
        }
        if self.grab_status != GrabStatus::Move {
            let (a, b) = self.check_coordinates(new_min, new_max, window);
            self.select = Some(Rect::from_min_max(a, b));
        }
    }

    /// The parts of the window that lie outside the selected area, which
    /// the selection screen darkens: left of it, right of it, above and
    /// below it. Without an area, the whole window.
    pub fn show_selected_area(&self, window: Size) -> (r: Vec<Rect>)
        ensures
            r@ == shade(self.select, window),
    {
        let mut out: Vec<Rect> = Vec::new();
        match self.select {
            Some(sel) => {
                out.push(
                    Rect {
                        min: Point { x: 0, y: 0 },
                        max: Point { x: sel.min.x, y: window.height },
                    },
                );
                out.push(
                    Rect {
                        min: Point { x: sel.max.x, y: 0 },
                        max: Point { x: window.width, y: window.height },
                    },
                );
                out.push(
                    Rect {
                        min: Point { x: sel.min.x, y: 0 },
                        max: Point { x: sel.max.x, y: sel.min.y },
                    },
                );
                out.push(
                    Rect {
                        min: Point { x: sel.min.x, y: sel.max.y },
                        max: Point { x: sel.max.x, y: window.height },
                    },
                );
            },
            None => {
                out.push(
                    Rect {
                        min: Point { x: 0, y: 0 },
                        max: Point { x: window.width, y: window.height },
                    },
                );
            },
        }
        assert(out@ =~= shade(self.select, window));
        out
    }

    /// One frame of the selection screen.
    pub fn crop_screen_window(&mut self, input: &CropInput) -> (out: CropOutput)
        requires
            input.window.is_valid(),
        ensures
            *final(self) == old(self).after_crop(*input),
            out.action == old(self).crop_action(*input),
            out.cursor == old(self).crop_cursor(*input),
            old(self).wf() ==> final(self).wf(),
    {
        let mut over_button = false;
        if self.grab_status == GrabStatus::Idle {
            match input.pointer.hover {
                Some(p) => {
                    let on_save = match input.save_button {
                        Some(r) => r.contains(p),
                        None => false,
                    };
                    let on_cancel = match input.cancel_button {
                        Some(r) => r.contains(p),
                        None => false,
                    };
                    if on_save {
                        if input.pointer.clicked {
                            return CropOutput {
                                action: CropAction::Save,
                                cursor: CursorIcon::PointingHand,
                            };
                        }
                        over_button = true;
                    } else if on_cancel {
                        if input.pointer.clicked {
                            self.select = self.prev_area;
                            return CropOutput {
                                action: CropAction::Cancel,
                                cursor: CursorIcon::PointingHand,
                            };
                        }
                        over_button = true;
                    }
                },
                None => {},
            }
        }
        let cursor = self.grabbable_corners(
            input.pointer.hover,
            input.pointer.down,
            input.interact_pos,
            input.window,
        );
        match input.pointer.hover {
            Some(p) => {
                if !over_button {
                    self.select_area(p, &input.pointer, input.window);
                }
            },
            None => {},
        }
        CropOutput {
            action: CropAction::Stay,
            cursor: if over_button {
                CursorIcon::PointingHand
            } else {
                cursor
            },
        }
    }
}

/// What the selection screen darkens: see
/// [`SelectionState::show_selected_area`].
pub open spec fn shade(select: Option<Rect>, window: Size) -> Seq<Rect> {
    match select {
        Some(sel) => seq![
            Rect { min: Point { x: 0, y: 0 }, max: Point { x: sel.min.x, y: window.height } },
            Rect {
                min: Point { x: sel.max.x, y: 0 },
                max: Point { x: window.width, y: window.height },
            },
            Rect { min: Point { x: sel.min.x, y: 0 }, max: Point { x: sel.max.x, y: sel.min.y } },
            Rect {
                min: Point { x: sel.min.x, y: sel.max.y },
                max: Point { x: sel.max.x, y: window.height },
            },
        ],
        None => seq![
            Rect { min: Point { x: 0, y: 0 }, max: Point { x: window.width, y: window.height } },
        ],
    }
}

/// Slides an extent along one axis: returns where its near and far edges
/// go.
fn slide(pos: i32, offset: i64, extent: i64, window: i32) -> (r: (i32, i32))
    ensures
        r.0 == saturate_i32(slid(pos as int, offset as int, extent as int, window as int)),
        r.1 == saturate_i32(
            slid(pos as int, offset as int, extent as int, window as int) + extent,
        ),
{
    let want: i128 = pos as i128 - offset as i128;
    let room: i128 = window as i128 - extent as i128;
    let low: i128 = if want <= room {
        want
    } else {
        room
    };
    let near: i128 = if low < 0 {
        0
    } else {
        low
    };
    (to_i32_saturating(near), to_i32_saturating(near + extent as i128))
}

/// Whether `g` is one of the eight handles.
pub open spec fn is_handle(g: GrabStatus) -> bool {
    g != GrabStatus::Idle && g != GrabStatus::Select && g != GrabStatus::Move
}

/// Mirroring twice gives the handle back, and a mirrored handle is a
/// handle.
pub proof fn lemma_mirror_twice(g: GrabStatus)
    ensures
        g.mirrored_x().mirrored_x() == g,
        g.mirrored_y().mirrored_y() == g,
        g.mirrored_x().mirrored_y() == g.mirrored_y().mirrored_x(),
        is_handle(g) <==> is_handle(g.mirrored_x()),
        is_handle(g) <==> is_handle(g.mirrored_y()),
{
}

/// Whatever handle is dragged wherever, the area stays in order and in the
/// window, and the handle in hand is the one dragged, mirrored on each axis
/// on which the corners had to be swapped.
pub proof fn lemma_resize_keeps_order(
    s: SelectionState,
    sel: Rect,
    pos: Point,
    status: GrabStatus,
    interact_pos: Option<Point>,
    window: Size,
)
    requires
        window.is_valid(),
        is_handle(s.grab_status),
    ensures
        ({
            let after = s.after_update(sel, pos, status, true, interact_pos, window);
            let want = resized(sel, s.grab_status, pos);
            let a = want.min.clamped(window);
            let b = want.max.clamped(window);
            &&& after.select matches Some(r)
            &&& r.is_normalized()
            &&& window.holds_rect(r)
            &&& r == Rect::spanned(a, b)
            &&& after.grab_status == s.grab_status.relabeled(a.x > b.x, a.y > b.y)
            &&& is_handle(after.grab_status)
        }),
{
}

/// Handle mirroring: when the top-left handle is dragged past the area's
/// right edge, the area's horizontal extent turns over. The handle in hand
/// is then the top-right one, and the area reaches from its old right edge
/// to the pointer, corners in order.
pub proof fn lemma_top_left_past_right_edge(
    s: SelectionState,
    sel: Rect,
    pos: Point,
    status: GrabStatus,
    interact_pos: Option<Point>,
    window: Size,
)
    requires
        window.is_valid(),
        s.grab_status == GrabStatus::TopLeft,
        sel.is_normalized(),
        window.holds_rect(sel),
        window.holds(pos),
        pos.x > sel.max.x,
        pos.y <= sel.max.y,
    ensures
        ({
            let after = s.after_update(sel, pos, status, true, interact_pos, window);
            &&& after.grab_status == GrabStatus::TopRight
            &&& after.select == Some(
                Rect {
                    min: Point { x: sel.max.x, y: pos.y },
                    max: Point { x: pos.x, y: sel.max.y },
                },
            )
            &&& after.select->0.is_normalized()
        }),
{
}

/// An area that is moved keeps its extent and stays in the window, provided
/// that it is in order and no larger than the window.
pub proof fn lemma_moved_within(sel: Rect, pos: Point, offset: Vector, window: Size)
    requires
        window.is_valid(),
        sel.is_normalized(),
        sel.spec_width() <= window.width,
        sel.spec_height() <= window.height,
    ensures
        ({
            let r = moved(sel, pos, offset, window);
            &&& r.spec_width() == sel.spec_width()
            &&& r.spec_height() == sel.spec_height()
            &&& window.holds_rect(r)
            &&& r.min.x == slid(pos.x as int, offset.dx as int, sel.spec_width(), window.width as int)
            &&& r.min.y == slid(
                pos.y as int,
                offset.dy as int,
                sel.spec_height(),
                window.height as int,
            )
        }),
{
}

/// A release lets go of whatever was in hand, a handle or the area itself:
/// nothing is in hand afterwards, no offset is noted any more, and the area
/// is as it was.
pub proof fn lemma_release_lets_go(
    s: SelectionState,
    sel: Rect,
    pos: Point,
    status: GrabStatus,
    interact_pos: Option<Point>,
    window: Size,
)
    ensures
        s.after_update(sel, pos, status, false, interact_pos, window).grab_status
            == GrabStatus::Idle,
        s.after_update(sel, pos, status, false, interact_pos, window).grab_offset is None,
        s.after_update(sel, pos, status, false, interact_pos, window).select == s.select,
{
}

/// No frame of the selection screen takes the selected area out of the
/// window or out of order: whatever the pointer does, an area that lay in
/// the window with its corners in order still does so afterwards.
pub proof fn lemma_crop_keeps_area_in_window(s: SelectionState, input: CropInput)
    requires
        input.window.is_valid(),
        s.wf(),
        s.within(input.window),
    ensures
        s.after_crop(input).wf(),
        s.after_crop(input).within(input.window),
{
    let served = s.after_corners(
        input.pointer.hover,
        input.pointer.down,
        input.interact_pos,
        input.window,
    );
    assert(served.wf() && served.within(input.window)) by {
        match (s.select, input.pointer.hover) {
            (Some(sel), Some(pos)) => {
                if s.grab_status == GrabStatus::Move && input.pointer.down {
                    let offset = match s.grab_offset {
                        Some(o) => o,
                        None => point_or(input.interact_pos, pos).offset_from(sel.min),
                    };
                    lemma_moved_within(sel, pos, offset, input.window);
                }
            },
            _ => {},
        }
    }
}

} // verus!
