//! The drawing session: how pointer gestures and text input, read with the
//! current tool, become drawings.
//!
//! Once per frame the window hands in what the pointer does. A press in text
//! mode opens the text editor. While the button is held, the brush adds the
//! pointer's position to the stroke that is being drawn, and the other tools
//! show what a release would add. A release commits that shape, or ends the
//! brush stroke; leaving the image ends a brush stroke as well.

use vstd::prelude::*;
use crate::annotation::{shapes, Color, DrawingMode, DrawingType, Shape, Stroke};
use crate::geometry::{clamp_int, saturate_i32, Point, Rect, Size};
use crate::history::{
    lemma_sealed_closed, only_last_open, sealed, AnnotationHistory, HistoryState,
};
use crate::viewport::{fit, fitted, Viewport};

verus! {

/// The thinnest stroke the toolbar offers, in tenths of a pixel.
pub const THICKNESS_MIN: u32 = 10;

/// The thickest stroke the toolbar offers, in tenths of a pixel.
pub const THICKNESS_MAX: u32 = 100;

/// The font size, in pixels, of a text whose stroke is one pixel wide.
pub const BASE_TEXT_SIZE: u32 = 30;

/// How far below the click the text editor is placed.
pub const EDITOR_DROP: i32 = 20;

/// How far above the click the text editor is placed where it would not fit
/// below.
pub const EDITOR_LIFT: i32 = 95;

/// The room below the click that the text editor needs.
pub const EDITOR_ROOM: i32 = 97;

/// What the pointer does in one frame. `hover` is where it is, if it is over
/// the window; `press_origin` is where the button went down.
#[derive(Clone, Copy, Debug, PartialEq, Eq)]
pub struct PointerInput {
    pub hover: Option<Point>,
    pub clicked: bool,
    pub down: bool,
    pub released: bool,
    pub press_origin: Option<Point>,
}

/// What one frame hands to the drawing session: the part of the window that
/// is free for the image, the image's extent, the pointer, and whether a
/// popup or menu lies over the image.
#[derive(Clone, Copy, Debug, PartialEq, Eq)]
pub struct FrameInput {
    pub available: Rect,
    pub image: Size,
    pub pointer: PointerInput,
    pub overlay_open: bool,
}

/// What the text editor reports in one frame.
#[derive(Debug, PartialEq, Eq)]
pub enum TextEvent {
    /// Nothing happened, or no editor is shown.
    Idle,
    /// The editor lost the keyboard focus.
    LostFocus,
    /// The text changed, and this is all of it.
    Changed(String),
}

/// The mathematical form of a [`TextEvent`].
pub enum TextChange {
    Idle,
    LostFocus,
    Changed(Seq<char>),
}

impl View for TextEvent {
    type V = TextChange;

    open spec fn view(&self) -> TextChange {
        match *self {
            TextEvent::Idle => TextChange::Idle,
            TextEvent::LostFocus => TextChange::LostFocus,
            TextEvent::Changed(t) => TextChange::Changed(t@),
        }
    }
}

/// What the window is to paint after a frame: where the image goes, the
/// drawings as they stood when the frame began, and the shape that a release
/// would add, all in render space.
#[derive(Debug)]
pub struct FrameOutput {
    pub viewport: Option<Viewport>,
    pub shapes: Vec<DrawingType>,
    pub preview: Option<DrawingType>,
}

/// The mathematical form of a [`FrameOutput`].
pub struct FrameView {
    pub viewport: Option<Viewport>,
    pub shapes: Seq<Shape>,
    pub preview: Option<Shape>,
}

impl View for FrameOutput {
    type V = FrameView;

    open spec fn view(&self) -> FrameView {
        FrameView {
            viewport: self.viewport,
            shapes: shapes(self.shapes@),
            preview: match self.preview {
                Some(d) => Some(d@),
                None => None,
            },
        }
    }
}

/// The shape that a drag from `start` to `at` adds with the tool `mode`: the
/// rectangle between the two, the circle in that rectangle's middle whose
/// radius is the rectangle's width, or the arrow from `start` to `at`. The
/// brush and the text tool add none.
pub open spec fn shape_between(mode: DrawingMode, start: Point, at: Point, s: Stroke) -> Option<Shape> {
    match mode {
        DrawingMode::Rectangle => Some(Shape::Rectangle { r: Rect::spanned(start, at), s }),
        DrawingMode::Circle => Some(
            Shape::Circle {
                c: Rect::spanned(start, at).spec_center(),
                r: Rect::spanned(start, at).spec_width() as i64,
                s,
            },
        ),
        DrawingMode::Arrow => Some(Shape::Arrow { p: start, v: at.offset_from(start), s }),
        DrawingMode::Brush => None,
        DrawingMode::Text => None,
    }
}

/// Where the text editor goes for a text at the render-space position `at`:
/// a little below it, or above it where the editor would reach below the
/// shown image.
pub open spec fn editor_pos(at: Point, area: Rect) -> Point {
    Point {
        x: at.x,
        y: saturate_i32(
            if at.y + EDITOR_ROOM > area.max.y {
                at.y - EDITOR_LIFT
            } else {
                at.y + EDITOR_DROP
            },
        ) as i32,
    }
}

/// The font size of a text drawn with a stroke of `width` tenths of a pixel,
/// in tenths of a pixel: the base size times the width.
pub open spec fn font_size(width: u32) -> int {
    BASE_TEXT_SIZE * width
}

/// The font size of a text drawn with the stroke `s`, in tenths of a pixel.
pub fn text_size(s: Stroke) -> (r: u64)
    ensures
        r == font_size(s.width),
{
    assert(BASE_TEXT_SIZE * s.width <= 30 * 0xffff_ffff) by (nonlinear_arith)
        requires
            BASE_TEXT_SIZE == 30,
            s.width <= 0xffff_ffff,
    ;
    BASE_TEXT_SIZE as u64 * s.width as u64
}

/// `p`, or `default` where there is none.
pub open spec fn point_or(p: Option<Point>, default: Point) -> Point {
    match p {
        Some(p) => p,
        None => default,
    }
}

/// The mathematical form of a [`Painting`].
pub struct PaintingState {
    /// The tool in use.
    pub mode: DrawingMode,
    /// The stroke that new drawings get.
    pub stroke: Stroke,
    /// The drawings and what redo can bring back.
    pub history: HistoryState,
    /// Where the current drag began, in image space.
    pub initial_pos: Option<Point>,
    /// Where the brush was last, in image space.
    pub previous_pos: Option<Point>,
    /// The shown image's rectangle when the current drag was last seen.
    pub hover_rect: Option<Rect>,
    /// Whether the text editor is open.
    pub te_open: bool,
    /// Whether the text being edited already has its drawing.
    pub te_continue: bool,
    /// The text in the editor.
    pub te_text: Seq<char>,
    /// Where the text being edited goes, in image space.
    pub text_pos: Point,
    /// The layout of the last frame.
    pub viewport: Option<Viewport>,
}

impl PaintingState {
    /// The history is well formed.
    pub open spec fn wf(self) -> bool {
        self.history.wf()
    }

    /// The state a session starts in, with a redo buffer for `capacity`
    /// items: the brush, a green stroke one pixel wide, nothing drawn.
    pub open spec fn initial(capacity: nat) -> PaintingState {
        PaintingState {
            mode: DrawingMode::Brush,
            stroke: Stroke { width: THICKNESS_MIN, color: Color { r: 0, g: 255, b: 0, a: 255 } },
            history: HistoryState { drawings: Seq::empty(), redo: Seq::empty(), capacity },
            initial_pos: None,
            previous_pos: None,
            hover_rect: None,
            te_open: false,
            te_continue: false,
            te_text: Seq::empty(),
            text_pos: Point { x: 0, y: 0 },
            viewport: None,
        }
    }

    /// After `color` is picked for new drawings.
    pub open spec fn with_color(self, color: Color) -> PaintingState {
        PaintingState { stroke: Stroke { width: self.stroke.width, color }, ..self }
    }

    /// After `width` is picked for new drawings: it is kept between
    /// [`THICKNESS_MIN`] and [`THICKNESS_MAX`].
    pub open spec fn with_thickness(self, width: u32) -> PaintingState {
        PaintingState {
            stroke: Stroke {
                width: clamp_int(width as int, THICKNESS_MIN as int, THICKNESS_MAX as int) as u32,
                color: self.stroke.color,
            },
            ..self
        }
    }

    /// After the text session is closed: the editor is gone and empty. What
    /// it has drawn stays.
    pub open spec fn text_closed(self) -> PaintingState {
        PaintingState { te_open: false, te_continue: false, te_text: Seq::empty(), ..self }
    }

    /// Whether the last drawing is the draft of the text session: a text at
    /// the session's position with the text that the editor reported last.
    pub open spec fn has_draft(self) -> bool {
        &&& self.te_continue
        &&& self.history.drawings.len() > 0
        &&& self.history.drawings.last() matches Shape::Text { p, t, .. }
        &&& p == self.text_pos
        &&& t == self.te_text
    }

    /// After the editor reports `t` as its text: the text's drawing is added
    /// as a new edit. It takes the place of the session's draft if that is
    /// still the last drawing, so that a session leaves one text; any other
    /// drawing stays, and the text goes on top of it.
    pub open spec fn text_changed(self, t: Seq<char>) -> PaintingState {
        let base = if self.has_draft() {
            self.history.without_last()
        } else {
            self.history
        };
        PaintingState {
            te_text: t,
            te_continue: true,
            history: base.committed(Shape::Text { p: self.text_pos, t, s: self.stroke }),
            ..self
        }
    }

    /// After the text editor's report is taken in. With another tool than
    /// the text tool a session whose text is the last drawing is closed;
    /// with the text tool an open editor's report is followed.
    pub open spec fn after_text(self, text: TextChange) -> PaintingState {
        if self.mode != DrawingMode::Text {
            if self.history.drawings.len() > 0 && self.history.drawings.last() is Text {
                self.text_closed()
            } else {
                self
            }
        } else if self.te_open {
            match text {
                TextChange::Idle => self,
                TextChange::LostFocus => self.text_closed(),
                TextChange::Changed(t) => self.text_changed(t),
            }
        } else {
            self
        }
    }

    /// After a click at `at` on the image: with the text tool the editor
    /// opens for a text at `at`; another tool does nothing.
    pub open spec fn clicked(self, at: Point) -> PaintingState {
        if self.mode == DrawingMode::Text {
            PaintingState { te_open: true, te_continue: false, text_pos: at, ..self }
        } else {
            self
        }
    }

    /// After a frame in which the button is held at `at` on the image. The
    /// drag's start is kept from its first frame, for which it is `origin`.
    /// The brush adds `at` to the stroke that is being drawn, or begins one
    /// that leads from where the brush was last, or else from the drag's
    /// start, to `at`.
    pub open spec fn held(self, at: Point, origin: Point, area: Rect) -> PaintingState {
        let start = point_or(self.initial_pos, origin);
        if self.mode == DrawingMode::Brush {
            let prev = point_or(self.previous_pos, start);
            PaintingState {
                initial_pos: Some(start),
                previous_pos: Some(at),
                hover_rect: Some(area),
                history: if self.history.has_open_brush() {
                    self.history.brush_extended(at, self.stroke)
                } else {
                    self.history.appended(
                        Shape::Brush { points: seq![prev, at], s: self.stroke, end: false },
                    )
                },
                ..self
            }
        } else {
            PaintingState { initial_pos: Some(start), hover_rect: Some(area), ..self }
        }
    }

    /// The shape that a release at `at` would add, while the button is held:
    /// see [`shape_between`].
    pub open spec fn pending(self, at: Point, origin: Point) -> Option<Shape> {
        shape_between(self.mode, point_or(self.initial_pos, origin), at, self.stroke)
    }

    /// After the button is released at `at` on the image. Without a drag
    /// nothing changes. Else the brush stroke is ended, or the shape between
    /// the drag's start and `at` is added; the drag is forgotten and the
    /// redo buffer emptied.
    pub open spec fn released(self, at: Point) -> PaintingState {
        match self.initial_pos {
            None => self,
            Some(start) => PaintingState {
                history: match shape_between(self.mode, start, at, self.stroke) {
                    Some(shape) => self.history.committed(shape),
                    None => if self.mode == DrawingMode::Brush {
                        self.history.brush_finished().redo_cleared()
                    } else {
                        self.history.redo_cleared()
                    },
                },
                previous_pos: None,
                initial_pos: None,
                hover_rect: None,
                ..self
            },
        }
    }

    /// After a frame in which the pointer is off the image, or under a
    /// popup, at the image-space position `at`. The brush ends the stroke
    /// that is being drawn as a release does, which empties the redo buffer;
    /// without such a stroke drawings and redo buffer stay. While the button
    /// is held the brush remembers `at`; the drag is forgotten. Another tool
    /// forgets the drag once the button is up.
    pub open spec fn left(self, at: Point, down: bool) -> PaintingState {
        if self.mode == DrawingMode::Brush {
            PaintingState {
                history: if self.history.has_open_brush() {
                    self.history.brush_finished().redo_cleared()
                } else {
                    self.history
                },
                previous_pos: if down {
                    Some(at)
                } else {
                    None
                },
                initial_pos: None,
                hover_rect: None,
                ..self
            }
        } else if !down {
            PaintingState { previous_pos: None, initial_pos: None, hover_rect: None, ..self }
        } else {
            self
        }
    }

    /// Whether the pointer at the render-space position `m` counts as on the
    /// image: within the rectangle remembered for the drag, or else within
    /// the shown image, and not under a popup.
    pub open spec fn on_image(self, m: Point, area: Rect, overlay_open: bool) -> bool {
        let hover_rect = match self.hover_rect {
            Some(r) => r,
            None => area,
        };
        hover_rect.holds(m) && !overlay_open
    }

    /// After the pointer's part of a frame, with the layout `v`. A click
    /// counts only if no editor was shown when the frame began. Click, hold
    /// and release are followed in this order.
    pub open spec fn after_pointer(
        self,
        pointer: PointerInput,
        overlay_open: bool,
        editor_shown: bool,
        v: Viewport,
        area_min: Point,
    ) -> PaintingState {
        match pointer.hover {
            None => self,
            Some(m) => {
                let at = v.transform.image_of(m, area_min);
                if self.on_image(m, v.area, overlay_open) {
                    let s1 = if pointer.clicked && !editor_shown {
                        self.clicked(at)
                    } else {
                        self
                    };
                    let s2 = if pointer.down {
                        s1.held(
                            at,
                            v.transform.image_of(point_or(pointer.press_origin, m), area_min),
                            v.area,
                        )
                    } else {
                        s1
                    };
                    if pointer.released {
                        s2.released(at)
                    } else {
                        s2
                    }
                } else {
                    self.left(at, pointer.down)
                }
            },
        }
    }

    /// After one frame. The layout is computed anew before any position is
    /// converted; without a layout nothing else happens.
    pub open spec fn after_frame(self, input: FrameInput, text: TextChange, area_min: Point)
        -> PaintingState {
        match fitted(input.available, input.image) {
            None => PaintingState { viewport: None, ..self },
            Some(v) => (PaintingState { viewport: Some(v), ..self }).after_text(text).after_pointer(
                input.pointer,
                input.overlay_open,
                self.te_open,
                v,
                area_min,
            ),
        }
    }

    /// The shape to preview in a frame: what a release would add, while the
    /// button is held on the image, in render space.
    pub open spec fn preview(self, input: FrameInput, text: TextChange, area_min: Point) -> Option<
        Shape,
    > {
        match (fitted(input.available, input.image), input.pointer.hover) {
            (Some(v), Some(m)) => {
                let s = (PaintingState { viewport: Some(v), ..self }).after_text(text);
                if s.on_image(m, v.area, input.overlay_open) && input.pointer.down {
                    let at = v.transform.image_of(m, area_min);
                    let origin = v.transform.image_of(
                        point_or(input.pointer.press_origin, m),
                        area_min,
                    );
                    match s.pending(at, origin) {
                        Some(shape) => Some(v.transform.render_shape(shape, area_min)),
                        None => None,
                    }
                } else {
                    None
                }
            },
            _ => None,
        }
    }

    /// What is to be painted after a frame: see [`FrameOutput`].
    pub open spec fn frame_output(self, input: FrameInput, text: TextChange, area_min: Point)
        -> FrameView {
        match fitted(input.available, input.image) {
            None => FrameView { viewport: None, shapes: Seq::empty(), preview: None },
            Some(v) => FrameView {
                viewport: Some(v),
                shapes: v.transform.render_shapes(self.history.drawings, area_min),
                preview: self.preview(input, text, area_min),
            },
        }
    }

    /// After the button was held at each position of `points` in turn, in a
    /// drag that began at `origin`.
    pub open spec fn dragged(self, points: Seq<Point>, origin: Point, area: Rect) -> PaintingState
        decreases points.len(),
    {
        if points.len() == 0 {
            self
        } else {
            self.dragged(points.drop_last(), origin, area).held(points.last(), origin, area)
        }
    }
}

/// The state of the drawing session.
pub struct Painting {
    mode: DrawingMode,
    stroke: Stroke,
    history: AnnotationHistory,
    initial_pos: Option<Point>,
    previous_pos: Option<Point>,
    hover_rect: Option<Rect>,
    te_open: bool,
    te_continue: bool,
    te_text: String,
    text_pos: Point,
    viewport: Option<Viewport>,
}

impl View for Painting {
    type V = PaintingState;

    closed spec fn view(&self) -> PaintingState {
        PaintingState {
            mode: self.mode,
            stroke: self.stroke,
            history: self.history@,
            initial_pos: self.initial_pos,
            previous_pos: self.previous_pos,
            hover_rect: self.hover_rect,
            te_open: self.te_open,
            te_continue: self.te_continue,
            te_text: self.te_text@,
            text_pos: self.text_pos,
            viewport: self.viewport,
        }
    }
}

impl Painting {
    /// See [`PaintingState::wf`].
    pub open spec fn wf(&self) -> bool {
        self@.wf()
    }

    /// A session with nothing drawn, the brush as its tool and a redo
    /// buffer for `capacity` items.
    pub fn new(capacity: usize) -> (p: Painting)
        ensures
            p@ == PaintingState::initial(capacity as nat),
            p.wf(),
    {
        Painting {
            mode: DrawingMode::Brush,
            stroke: Stroke { width: THICKNESS_MIN, color: Color { r: 0, g: 255, b: 0, a: 255 } },
            history: AnnotationHistory::new(capacity),
            initial_pos: None,
            previous_pos: None,
            hover_rect: None,
            te_open: false,
            te_continue: false,
            te_text: String::new(),
            text_pos: Point { x: 0, y: 0 },
            viewport: None,
        }
    }

    /// The tool in use.
    pub fn mode(&self) -> (m: DrawingMode)
        ensures
            m == self@.mode,
    {
        self.mode
    }

    /// The stroke that new drawings get.
    pub fn stroke(&self) -> (s: Stroke)
        ensures
            s == self@.stroke,
    {
        self.stroke
    }

    /// The drawings and the redo buffer.
    pub fn history(&self) -> (h: &AnnotationHistory)
        ensures
            h@ == self@.history,
    {
        &self.history
    }

    /// The layout of the last frame.
    pub fn viewport(&self) -> (v: Option<Viewport>)
        ensures
            v == self@.viewport,
    {
        self.viewport
    }

    /// The text in the editor.
    pub fn te_text(&self) -> (t: &String)
        ensures
            t@ == self@.te_text,
    {
        &self.te_text
    }

    /// Tells whether the text editor is open.
    pub fn te_open(&self) -> (b: bool)
        ensures
            b == self@.te_open,
    {
        self.te_open
    }

    /// Picks the tool. No drawing changes.
    pub fn set_mode(&mut self, mode: DrawingMode)
        ensures
            final(self)@ == (PaintingState { mode, ..old(self)@ }),
    {
        self.mode = mode;
    }

    /// Picks the colour of new drawings.
    pub fn set_color(&mut self, color: Color)
        ensures
            final(self)@ == old(self)@.with_color(color),
    {
        self.stroke = Stroke { width: self.stroke.width, color };
    }

    /// Picks the stroke width of new drawings, in tenths of a pixel. It is
    /// kept between [`THICKNESS_MIN`] and [`THICKNESS_MAX`].
    pub fn set_thickness(&mut self, width: u32)
        ensures
            final(self)@ == old(self)@.with_thickness(width),
    {
        let w: u32 = if width < THICKNESS_MIN {
            THICKNESS_MIN
        } else if width > THICKNESS_MAX {
            THICKNESS_MAX
        } else {
            width
        };
        self.stroke = Stroke { width: w, color: self.stroke.color };
    }

    /// Takes the last drawing away and keeps it for redo. Returns whether
    /// there was one.
    pub fn undo(&mut self) -> (done: bool)
        ensures
            final(self)@ == (PaintingState { history: old(self)@.history.undone(), ..old(self)@ }),
            done == (old(self)@.history.drawings.len() > 0),
            old(self).wf() ==> final(self).wf(),
    {
        self.history.undo()
    }

    /// Brings back the drawing that was undone last. Returns whether there
    /// was one.
    pub fn redo(&mut self) -> (done: bool)
        ensures
            final(self)@ == (PaintingState { history: old(self)@.history.redone(), ..old(self)@ }),
            done == (old(self)@.history.redo.len() > 0),
            old(self).wf() ==> final(self).wf(),
    {
        self.history.redo()
    }

    /// Drops every drawing, as for a new capture. What redo can bring back
    /// stays.
    pub fn clear_drawings(&mut self)
        ensures
            final(self)@ == (PaintingState {
                history: HistoryState { drawings: Seq::empty(), ..old(self)@.history },
                ..old(self)@
            }),
            old(self).wf() ==> final(self).wf(),
    {
        self.history.clear_drawings();
    }

    /// Drops every drawing and what redo could bring back, as for an image
    /// that was opened.
    pub fn clear(&mut self)
        ensures
            final(self)@ == (PaintingState {
                history: HistoryState {
                    drawings: Seq::empty(),
                    redo: Seq::empty(),
                    capacity: old(self)@.history.capacity,
                },
                ..old(self)@
            }),
            final(self).wf(),
    {
        self.history.clear();
    }

    /// Closes the text session.
    pub fn close_text(&mut self)
        ensures
            final(self)@ == old(self)@.text_closed(),
            old(self).wf() ==> final(self).wf(),
    {
        self.te_open = false;
        self.te_continue = false;
        self.te_text = String::new();
    }

    /// Takes in the text editor's report for this frame.
    pub fn text_event(&mut self, text: TextEvent)
        ensures
            final(self)@ == old(self)@.after_text(text@),
            old(self).wf() ==> final(self).wf(),
    {
        match self.mode {
            DrawingMode::Text => {
                if self.te_open {
                    match text {
                        TextEvent::Idle => {},
                        TextEvent::LostFocus => {
                            self.close_text();
                        },
                        TextEvent::Changed(t) => {
                            if self.te_continue && self.history.last_is_text_of(
                                self.text_pos,
                                &self.te_text,
                            ) {
                                self.history.pop_last();
                            }
                            self.te_continue = true;
                            self.history.commit(
                                DrawingType::Text { p: self.text_pos, t: t.clone(), s: self.stroke },
                            );
                            self.te_text = t;
                        },
                    }
                }
            },
            _ => {
                if self.history.last_is_text() {
                    self.close_text();
                }
            },
        }
    }

    /// A click at the image-space position `at`.
    pub fn pointer_clicked(&mut self, at: Point)
        ensures
            final(self)@ == old(self)@.clicked(at),
            old(self).wf() ==> final(self).wf(),
    {
        match self.mode {
            DrawingMode::Text => {
                self.te_open = true;
                self.te_continue = false;
                self.text_pos = at;
            },
            _ => {},
        }
    }

    /// The button is held at the image-space position `at`; the press was at
    /// `origin`, and `area` is where the image is shown. Returns the shape
    /// that a release would add, in image space.
    pub fn pointer_held(&mut self, at: Point, origin: Point, area: Rect) -> (pending: Option<
        DrawingType,
    >)
        ensures
            final(self)@ == old(self)@.held(at, origin, area),
            pending is Some <==> old(self)@.pending(at, origin) is Some,
            pending matches Some(d) ==> Some(d@) == old(self)@.pending(at, origin),
            old(self).wf() ==> final(self).wf(),
    {
        let start: Point = match self.initial_pos {
            Some(p) => p,
            None => origin,
        };
        self.initial_pos = Some(start);
        self.hover_rect = Some(area);
        match self.mode {
            DrawingMode::Brush => {
                let prev: Point = match self.previous_pos {
                    Some(p) => p,
                    None => start,
                };
                if !self.history.extend_brush(at, self.stroke) {
                    let mut points: Vec<Point> = Vec::new();
                    points.push(prev);
                    points.push(at);
                    assert(points@ =~= seq![prev, at]);
                    self.history.append(DrawingType::Brush { points, s: self.stroke, end: false });
                }
                self.previous_pos = Some(at);
                None
            },
            DrawingMode::Rectangle => Some(
                DrawingType::Rectangle { r: Rect::spanning(start, at), s: self.stroke },
            ),
            DrawingMode::Circle => {
                let r = Rect::spanning(start, at);
                Some(DrawingType::Circle { c: r.center(), r: r.width(), s: self.stroke })
            },
            DrawingMode::Arrow => Some(
                DrawingType::Arrow { p: start, v: at.minus(start), s: self.stroke },
            ),
            DrawingMode::Text => None,
        }
    }

    /// The button is released at the image-space position `at`.
    pub fn pointer_released(&mut self, at: Point)
        ensures
            final(self)@ == old(self)@.released(at),
            old(self).wf() ==> final(self).wf(),
    {
        match self.initial_pos {
            None => {},
            Some(start) => {
                match self.mode {
                    DrawingMode::Brush => {
                        self.history.finish_brush();
                        self.history.clear_redo();
                    },
                    DrawingMode::Rectangle => {
                        self.history.commit(
                            DrawingType::Rectangle { r: Rect::spanning(start, at), s: self.stroke },
                        );
                    },
                    DrawingMode::Circle => {
                        let r = Rect::spanning(start, at);
                        self.history.commit(
                            DrawingType::Circle { c: r.center(), r: r.width(), s: self.stroke },
                        );
                    },
                    DrawingMode::Arrow => {
                        self.history.commit(
                            DrawingType::Arrow { p: start, v: at.minus(start), s: self.stroke },
                        );
                    },
                    DrawingMode::Text => {
                        self.history.clear_redo();
                    },
                }
                self.previous_pos = None;
                self.initial_pos = None;
                self.hover_rect = None;
            },
        }
    }

    /// The pointer is off the image, or under a popup, at the image-space
    /// position `at`; `down` tells whether the button is held.
    pub fn pointer_left(&mut self, at: Point, down: bool)
        ensures
            final(self)@ == old(self)@.left(at, down),
            old(self).wf() ==> final(self).wf(),
    {
        match self.mode {
            DrawingMode::Brush => {
                if self.history.has_open_brush() {
                    self.history.finish_brush();
                    self.history.clear_redo();
                }
                self.previous_pos = if down {
                    Some(at)
                } else {
                    None
                };
                self.initial_pos = None;
                self.hover_rect = None;
            },
            _ => {
                if !down {
                    self.previous_pos = None;
                    self.initial_pos = None;
                    self.hover_rect = None;
                }
            },
        }
    }

    /// Where the text editor is to be shown in this frame, in render space;
    /// none unless the text tool is in use, the editor is open and the image
    /// can be laid out.
    pub fn text_editor_pos(&self, available: Rect, image: Size, area_min: Point) -> (r: Option<
        Point,
    >)
        ensures
            r == (match fitted(available, image) {
                Some(v) => if self@.mode == DrawingMode::Text && self@.te_open {
                    Some(editor_pos(v.transform.render_of(self@.text_pos, area_min), v.area))
                } else {
                    None
                },
                None => None,
            }),
    {
        match self.mode {
            DrawingMode::Text => {
                if !self.te_open {
                    return None;
                }
                match fit(available, image) {
                    Some(v) => {
                        let at = v.transform.to_render_space(self.text_pos, area_min);
                        let y: i64 = if at.y as i64 + EDITOR_ROOM as i64 > v.area.max.y as i64 {
                            at.y as i64 - EDITOR_LIFT as i64
                        } else {
                            at.y as i64 + EDITOR_DROP as i64
                        };
                        Some(Point { x: at.x, y: crate::geometry::to_i32_saturating(y as i128) })
                    },
                    None => None,
                }
            },
            _ => None,
        }
    }

    /// One frame of the drawing session. Lays the image out, takes in the
    /// text editor's report and then the pointer, and returns what is to be
    /// painted. `area_min` is the top-left corner of the selected part of
    /// the image, or the origin without a selection.
    pub fn render_drawing(&mut self, input: &FrameInput, text: TextEvent, area_min: Point) -> (out:
        FrameOutput)
        ensures
            final(self)@ == old(self)@.after_frame(*input, text@, area_min),
            out@ == old(self)@.frame_output(*input, text@, area_min),
            old(self).wf() ==> final(self).wf(),
    {
        let viewport = fit(input.available, input.image);
        self.viewport = viewport;
        match viewport {
            None => {
                let out = FrameOutput { viewport: None, shapes: Vec::new(), preview: None };
                assert(shapes(out.shapes@) =~= Seq::<Shape>::empty());
                out
            },
            Some(v) => {
                let painted = v.transform.all_to_render(self.history.drawings(), area_min);
                let editor_shown = self.te_open;
                self.text_event(text);
                let mut preview: Option<DrawingType> = None;
                match input.pointer.hover {
                    None => {},
                    Some(m) => {
                        let hover_rect: Rect = match self.hover_rect {
                            Some(r) => r,
                            None => v.area,
                        };
                        let at = v.transform.to_image_space(m, area_min);
                        if hover_rect.contains(m) && !input.overlay_open {
                            if input.pointer.clicked && !editor_shown {
                                self.pointer_clicked(at);
                            }
                            if input.pointer.down {
                                let pressed: Point = match input.pointer.press_origin {
                                    Some(p) => p,
                                    None => m,
                                };
                                let origin = v.transform.to_image_space(pressed, area_min);
                                match self.pointer_held(at, origin, v.area) {
                                    Some(d) => {
                                        preview = Some(v.transform.to_render(&d, area_min));
                                    },
                                    None => {},
                                }
                            }
                            if input.pointer.released {
                                self.pointer_released(at);
                            }
                        } else {
                            self.pointer_left(at, input.pointer.down);
                        }
                    },
                }
                FrameOutput { viewport: Some(v), shapes: painted, preview }
            },
        }
    }
}

/// What a brush drag through `points` leaves: one brush stroke on top, still
/// being drawn, that leads from the drag's start through every point.
pub proof fn lemma_dragged_brush(s: PaintingState, points: Seq<Point>, origin: Point, area: Rect)
    requires
        s.mode == DrawingMode::Brush,
        s.initial_pos is None,
        s.previous_pos is None,
        !s.history.has_open_brush(),
        points.len() >= 1,
    ensures
        ({
            let d = s.dragged(points, origin, area);
            &&& d.mode == DrawingMode::Brush
            &&& d.stroke == s.stroke
            &&& d.initial_pos == Some(origin)
            &&& d.previous_pos == Some(points.last())
            &&& d.history.redo == s.history.redo
            &&& d.history.capacity == s.history.capacity
            &&& d.history.drawings == s.history.drawings.push(
                Shape::Brush { points: seq![origin] + points, s: s.stroke, end: false },
            )
        }),
    decreases points.len(),
{
    let head = points.drop_last();
    if head.len() == 0 {
        assert(s.dragged(head, origin, area) == s);
        assert(sealed(s.history.drawings) =~= s.history.drawings);
        assert(seq![origin, points.last()] =~= seq![origin] + points);
    } else {
        lemma_dragged_brush(s, head, origin, area);
        let d = s.dragged(head, origin, area);
        assert(d.history.has_open_brush());
        assert((seq![origin] + head).push(points.last()) =~= seq![origin] + points);
        assert(d.held(points.last(), origin, area).history.drawings =~= s.history.drawings.push(
            Shape::Brush { points: seq![origin] + points, s: s.stroke, end: false },
        ));
    }
}

/// Brush continuity: a brush drag that begins at `origin`, passes through
/// each position of `points` and is then released adds exactly one brush
/// stroke. The stroke is ended and its points are `origin` followed by
/// `points`; every earlier drawing is as it was.
pub proof fn lemma_brush_continuity(
    s: PaintingState,
    points: Seq<Point>,
    origin: Point,
    at: Point,
    area: Rect,
)
    requires
        s.mode == DrawingMode::Brush,
        s.initial_pos is None,
        s.previous_pos is None,
        !s.history.has_open_brush(),
        points.len() >= 1,
    ensures
        s.dragged(points, origin, area).released(at).history.drawings == s.history.drawings.push(
            Shape::Brush { points: seq![origin] + points, s: s.stroke, end: true },
        ),
        s.dragged(points, origin, area).released(at).history.redo.len() == 0,
        s.dragged(points, origin, area).released(at).initial_pos is None,
{
    lemma_dragged_brush(s, points, origin, area);
    let d = s.dragged(points, origin, area);
    assert(d.released(at).history.drawings =~= s.history.drawings.push(
        Shape::Brush { points: seq![origin] + points, s: s.stroke, end: true },
    ));
}

/// Rectangle normalization: whichever way a drag with the rectangle tool
/// went, the rectangle that its release commits has its `min` corner left of
/// and above its `max` corner, and both ends of the drag are corners of it.
pub proof fn lemma_committed_rectangle_normalized(s: PaintingState, at: Point)
    requires
        s.mode == DrawingMode::Rectangle,
        s.initial_pos is Some,
    ensures
        ({
            let after = s.released(at).history.drawings;
            let start = s.initial_pos->0;
            &&& after.len() == s.history.drawings.len() + 1
            &&& after.last() matches Shape::Rectangle { r, s: stroke }
            &&& stroke == s.stroke
            &&& r == Rect::spanned(start, at)
            &&& r.is_normalized()
            &&& r.holds(start)
            &&& r.holds(at)
        }),
{
}

/// A text session leaves one text however often its text changes: after a
/// second report the drawings are what they were before the first, with the
/// text of the second report on top.
pub proof fn lemma_typing_keeps_one_text(s: PaintingState, first: Seq<char>, second: Seq<char>)
    requires
        !s.te_continue,
    ensures
        s.text_changed(first).text_changed(second).history.drawings == sealed(
            s.history.drawings,
        ).push(Shape::Text { p: s.text_pos, t: second, s: s.stroke }),
        s.text_changed(first).text_changed(second).history.drawings.len()
            == s.history.drawings.len() + 1,
{
    let once = s.text_changed(first);
    assert(once.has_draft());
    assert(once.history.without_last().drawings =~= sealed(s.history.drawings));
    assert(sealed(sealed(s.history.drawings)) =~= sealed(s.history.drawings));
}

/// Leaving the image invalidates redo as a release does: once the brush
/// has left the image while a stroke was being drawn, the stroke is ended,
/// every other drawing is as it was, the drag is forgotten, and redo changes
/// nothing, whatever was undone before.
pub proof fn lemma_leave_invalidates_redo(s: PaintingState, at: Point, down: bool)
    requires
        s.mode == DrawingMode::Brush,
        s.history.has_open_brush(),
    ensures
        s.left(at, down).history.drawings == sealed(s.history.drawings),
        s.left(at, down).history.drawings.last() == s.history.drawings.last().finished(),
        s.left(at, down).history.redo.len() == 0,
        s.left(at, down).history.redone() == s.left(at, down).history,
        s.left(at, down).initial_pos is None,
        s.left(at, down).hover_rect is None,
{
}

/// The same of a whole frame: with the brush in use and a stroke being
/// drawn, a frame in which the pointer is off the image or under a popup
/// ends the stroke, leaves every other drawing as it was, forgets the drag
/// and empties the redo buffer, whether or not the button is held.
pub proof fn lemma_frame_off_image_ends_stroke(
    s: PaintingState,
    input: FrameInput,
    text: TextChange,
    area_min: Point,
)
    requires
        s.mode == DrawingMode::Brush,
        s.history.has_open_brush(),
        fitted(input.available, input.image) is Some,
        input.pointer.hover is Some,
        !s.on_image(
            input.pointer.hover->0,
            fitted(input.available, input.image)->0.area,
            input.overlay_open,
        ),
    ensures
        s.after_frame(input, text, area_min).history == s.history.brush_finished().redo_cleared(),
        s.after_frame(input, text, area_min).history.drawings == sealed(s.history.drawings),
        s.after_frame(input, text, area_min).history.redo.len() == 0,
        s.after_frame(input, text, area_min).initial_pos is None,
        s.after_frame(input, text, area_min).hover_rect is None,
{
}

/// Without a stroke that is being drawn, a frame with the pointer off the
/// image changes neither the drawings nor what redo can bring back.
pub proof fn lemma_leave_without_stroke(s: PaintingState, at: Point, down: bool)
    requires
        !s.history.has_open_brush(),
    ensures
        s.left(at, down).history == s.history,
{
}

/// No frame leaves a brush stroke open below another drawing, or the redo
/// buffer over its limit: a well-formed session is well formed after any
/// frame.
pub proof fn lemma_frame_keeps_wf(
    s: PaintingState,
    input: FrameInput,
    text: TextChange,
    area_min: Point,
)
    requires
        s.wf(),
    ensures
        s.after_frame(input, text, area_min).wf(),
{
    match fitted(input.available, input.image) {
        None => {},
        Some(v) => {
            let s0 = PaintingState { viewport: Some(v), ..s };
            let s1 = s0.after_text(text);
            lemma_text_keeps_wf(s0, text);
            match input.pointer.hover {
                None => {},
                Some(m) => {
                    let at = v.transform.image_of(m, area_min);
                    if s1.on_image(m, v.area, input.overlay_open) {
                        let s2 = if input.pointer.clicked && !s.te_open {
                            s1.clicked(at)
                        } else {
                            s1
                        };
                        let origin = v.transform.image_of(
                            point_or(input.pointer.press_origin, m),
                            area_min,
                        );
                        lemma_held_keeps_wf(s2, at, origin, v.area);
                        let s3 = if input.pointer.down {
                            s2.held(at, origin, v.area)
                        } else {
                            s2
                        };
                        lemma_released_keeps_wf(s3, at);
                    } else {
                        lemma_sealed_closed(s1.history.drawings);
                    }
                },
            }
        },
    }
}

proof fn lemma_text_keeps_wf(s: PaintingState, text: TextChange)
    requires
        s.wf(),
    ensures
        s.after_text(text).wf(),
{
    if let TextChange::Changed(t) = text {
        let base = if s.has_draft() {
            s.history.without_last()
        } else {
            s.history
        };
        assert(only_last_open(base.drawings));
        lemma_sealed_closed(base.drawings);
    }
}

proof fn lemma_held_keeps_wf(s: PaintingState, at: Point, origin: Point, area: Rect)
    requires
        s.wf(),
    ensures
        s.held(at, origin, area).wf(),
{
    lemma_sealed_closed(s.history.drawings);
}

proof fn lemma_released_keeps_wf(s: PaintingState, at: Point)
    requires
        s.wf(),
    ensures
        s.released(at).wf(),
{
    lemma_sealed_closed(s.history.drawings);
}

} // verus!
