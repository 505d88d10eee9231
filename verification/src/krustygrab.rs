//! The application's state as far as drawing and selecting go, and what the
//! toolbar and the keyboard shortcuts do to it.

use vstd::prelude::*;
use crate::annotation::{shapes, Color, DrawingMode, DrawingType};
use crate::drawing::{FrameInput, FrameOutput, Painting, PaintingState, TextEvent};
use crate::geometry::{Point, Rect, Size};
use crate::history::AnnotationHistory;
use crate::selection::{CropAction, CropInput, CropOutput, GrabStatus, SelectionState};

verus! {

/// The file format in which an image is saved.
#[derive(Clone, Copy, Debug, PartialEq, Eq, Structural)]
pub enum Format {
    Jpeg,
    Png,
    Gif,
}

impl Format {
    /// The file name extension of the format.
    pub open spec fn extension(self) -> Seq<char> {
        match self {
            Format::Jpeg => "jpg"@,
            Format::Png => "png"@,
            Format::Gif => "gif"@,
        }
    }

    /// The format that a file name extension stands for.
    pub open spec fn of_extension(ext: Seq<char>) -> Option<Format> {
        if ext == "png"@ {
            Some(Format::Png)
        } else if ext == "jpg"@ {
            Some(Format::Jpeg)
        } else if ext == "gif"@ {
            Some(Format::Gif)
        } else {
            None
        }
    }

    /// The file name extension of the format: `jpg`, `png` or `gif`.
    pub fn to_string(&self) -> (s: String)
        ensures
            s@ == self.extension(),
    {
        match self {
            Format::Jpeg => "jpg".to_owned(),
            Format::Png => "png".to_owned(),
            Format::Gif => "gif".to_owned(),
        }
    }

    /// The format that the file name extension `ext` stands for; none for
    /// any other extension than `png`, `jpg` and `gif`.
    pub fn from_extension(ext: &str) -> (f: Option<Format>)
        ensures
            f == Format::of_extension(ext@),
    {
        let e = ext.to_owned();
        if e == "png".to_owned() {
            Some(Format::Png)
        } else if e == "jpg".to_owned() {
            Some(Format::Jpeg)
        } else if e == "gif".to_owned() {
            Some(Format::Gif)
        } else {
            None
        }
    }
}

/// The screen that is shown.
#[derive(Clone, Copy, Debug, PartialEq, Eq, Structural)]
pub enum WindowStatus {
    Main,
    Crop,
    Save,
}

/// What the user did on the toolbar.
#[derive(Clone, Copy, Debug, PartialEq, Eq)]
pub enum ToolbarEvent {
    /// A tool was picked.
    Mode(DrawingMode),
    /// A colour was picked.
    ColorChanged(Color),
    /// A stroke width was picked, in tenths of a pixel.
    ThicknessChanged(u32),
    Undo,
    Redo,
    /// The image is to be cut to a part of it.
    Cut,
    /// The image is to be saved under a name of the application's choice.
    Save,
    /// The image is to be saved under a name that the user gives.
    SaveAs,
}

/// What the window is to do after a toolbar event.
#[derive(Clone, Copy, Debug, PartialEq, Eq, Structural)]
pub enum ToolbarAction {
    Nothing,
    /// The selection screen was entered: an image is needed.
    EnterCrop,
    /// Save the image under a name made of the time and the format.
    Save,
    /// Ask for a file name and save the image there.
    SaveAs,
}

/// A keyboard shortcut.
#[derive(Clone, Copy, Debug, PartialEq, Eq, Structural)]
pub enum Shortcut {
    /// Capture the screen.
    Screen,
    /// Capture the screen and select a part.
    ScreenArea,
    Undo,
    Redo,
}

impl Shortcut {
    /// The shortcut that is configured under `name`.
    pub open spec fn of_name(name: Seq<char>) -> Option<Shortcut> {
        if name == "Undo"@ {
            Some(Shortcut::Undo)
        } else if name == "Redo"@ {
            Some(Shortcut::Redo)
        } else if name == "Screen"@ {
            Some(Shortcut::Screen)
        } else if name == "Screen Area"@ {
            Some(Shortcut::ScreenArea)
        } else {
            None
        }
    }

    /// The shortcut that is configured under `name`: `Screen`, `Screen
    /// Area`, `Undo` or `Redo`; none for any other name.
    pub fn from_name(name: &str) -> (s: Option<Shortcut>)
        ensures
            s == Shortcut::of_name(name@),
    {
        let n = name.to_owned();
        if n == "Undo".to_owned() {
            Some(Shortcut::Undo)
        } else if n == "Redo".to_owned() {
            Some(Shortcut::Redo)
        } else if n == "Screen".to_owned() {
            Some(Shortcut::Screen)
        } else if n == "Screen Area".to_owned() {
            Some(Shortcut::ScreenArea)
        } else {
            None
        }
    }
}

/// The mathematical form of a [`KrustyGrab`].
pub struct KrustyGrabState {
    pub painting: PaintingState,
    pub selection: SelectionState,
    pub window_status: WindowStatus,
    pub selected_screen: usize,
    pub screenshot_requested: bool,
}

impl KrustyGrabState {
    /// The drawing session and the selection are well formed.
    pub open spec fn wf(self) -> bool {
        self.painting.wf() && self.selection.wf()
    }

    /// The top-left corner of the selected area, or the origin without one.
    pub open spec fn area_min(self) -> Point {
        match self.selection.select {
            Some(r) => r.min,
            None => Point { x: 0, y: 0 },
        }
    }

    /// After the screen `status` is shown. Entering the selection screen
    /// notes the selected area, for giving up, and lets go of what was in
    /// hand.
    pub open spec fn with_window_status(self, status: WindowStatus) -> KrustyGrabState {
        KrustyGrabState {
            window_status: status,
            selection: if status == WindowStatus::Crop {
                SelectionState {
                    prev_area: self.selection.select,
                    grab_status: GrabStatus::Idle,
                    grab_offset: None,
                    ..self.selection
                }
            } else {
                self.selection
            },
            ..self
        }
    }

    /// After a toolbar event. Picking a tool, a colour or a width touches no
    /// drawing; undo and redo move one drawing; cutting enters the selection
    /// screen; saving changes nothing here.
    pub open spec fn after_toolbar(self, event: ToolbarEvent) -> KrustyGrabState {
        match event {
            ToolbarEvent::Mode(mode) => KrustyGrabState {
                painting: PaintingState { mode, ..self.painting },
                ..self
            },
            ToolbarEvent::ColorChanged(color) => KrustyGrabState {
                painting: self.painting.with_color(color),
                ..self
            },
            ToolbarEvent::ThicknessChanged(width) => KrustyGrabState {
                painting: self.painting.with_thickness(width),
                ..self
            },
            ToolbarEvent::Undo => KrustyGrabState {
                painting: PaintingState {
                    history: self.painting.history.undone(),
                    ..self.painting
                },
                ..self
            },
            ToolbarEvent::Redo => KrustyGrabState {
                painting: PaintingState {
                    history: self.painting.history.redone(),
                    ..self.painting
                },
                ..self
            },
            ToolbarEvent::Cut => self.with_window_status(WindowStatus::Crop),
            ToolbarEvent::Save => self,
            ToolbarEvent::SaveAs => self,
        }
    }

    /// What the window is to do after a toolbar event.
    pub open spec fn toolbar_action(event: ToolbarEvent) -> ToolbarAction {
        match event {
            ToolbarEvent::Cut => ToolbarAction::EnterCrop,
            ToolbarEvent::Save => ToolbarAction::Save,
            ToolbarEvent::SaveAs => ToolbarAction::SaveAs,
            _ => ToolbarAction::Nothing,
        }
    }

    /// After a keyboard shortcut. Undo and redo work only once there is an
    /// image. The capture shortcuts ask for a capture, the second one on the
    /// selection screen.
    pub open spec fn after_shortcut(self, shortcut: Shortcut, has_screen: bool) -> KrustyGrabState {
        match shortcut {
            Shortcut::Undo => if has_screen {
                self.after_toolbar(ToolbarEvent::Undo)
            } else {
                self
            },
            Shortcut::Redo => if has_screen {
                self.after_toolbar(ToolbarEvent::Redo)
            } else {
                self
            },
            Shortcut::Screen => KrustyGrabState { screenshot_requested: true, ..self },
            Shortcut::ScreenArea => KrustyGrabState {
                screenshot_requested: true,
                ..self.with_window_status(WindowStatus::Crop)
            },
        }
    }

    /// After a frame of the selection screen: the selection follows the
    /// pointer, and confirming or giving up leads back to the main screen.
    pub open spec fn after_crop(self, input: CropInput) -> KrustyGrabState {
        KrustyGrabState {
            selection: self.selection.after_crop(input),
            window_status: if self.selection.crop_action(input) == CropAction::Stay {
                self.window_status
            } else {
                WindowStatus::Main
            },
            ..self
        }
    }

    /// After a capture was tried. No capture is asked for any more. If it
    /// was taken, nothing is selected and nothing is drawn on the new image;
    /// if it failed, selection and drawings are as before.
    pub open spec fn after_screenshot(self, captured: bool) -> KrustyGrabState {
        if captured {
            KrustyGrabState {
                selection: SelectionState { select: None, ..self.selection },
                painting: PaintingState {
                    history: crate::history::HistoryState {
                        drawings: Seq::empty(),
                        ..self.painting.history
                    },
                    ..self.painting
                },
                screenshot_requested: false,
                ..self
            }
        } else {
            KrustyGrabState { screenshot_requested: false, ..self }
        }
    }
}

/// The state of the application as far as drawing and selecting go.
pub struct KrustyGrab {
    painting: Painting,
    selection: SelectionState,
    window_status: WindowStatus,
    selected_screen: usize,
    screenshot_requested: bool,
}

impl View for KrustyGrab {
    type V = KrustyGrabState;

    closed spec fn view(&self) -> KrustyGrabState {
        KrustyGrabState {
            painting: self.painting@,
            selection: self.selection,
            window_status: self.window_status,
            selected_screen: self.selected_screen,
            screenshot_requested: self.screenshot_requested,
        }
    }
}

impl KrustyGrab {
    /// See [`KrustyGrabState::wf`].
    pub open spec fn wf(&self) -> bool {
        self@.wf()
    }

    /// The state at start: the main screen, the first monitor, nothing
    /// selected and nothing drawn.
    pub fn new() -> (k: KrustyGrab)
        ensures
            k@ == (KrustyGrabState {
                painting: PaintingState::initial(AnnotationHistory::REDO_LIST_SIZE as nat),
                selection: SelectionState {
                    select: None,
                    grab_status: GrabStatus::Idle,
                    grab_offset: None,
                    prev_area: None,
                },
                window_status: WindowStatus::Main,
                selected_screen: 0,
                screenshot_requested: false,
            }),
            k.wf(),
    {
        KrustyGrab {
            painting: Painting::new(AnnotationHistory::REDO_LIST_SIZE),
            selection: SelectionState::new(),
            window_status: WindowStatus::Main,
            selected_screen: 0,
            screenshot_requested: false,
        }
    }

    /// What is being done to the selected area.
    pub fn get_grab_status(&self) -> (g: GrabStatus)
        ensures
            g == self@.selection.grab_status,
    {
        self.selection.grab_status
    }

    /// The selected area.
    pub fn get_selected_area(&self) -> (r: Option<Rect>)
        ensures
            r == self@.selection.select,
    {
        self.selection.select
    }

    /// The monitor that captures are taken of.
    pub fn get_selected_screen(&self) -> (n: usize)
        ensures
            n == self@.selected_screen,
    {
        self.selected_screen
    }

    /// The screen that is shown.
    pub fn get_window_status(&self) -> (s: WindowStatus)
        ensures
            s == self@.window_status,
    {
        self.window_status
    }

    /// Whether a capture has been asked for and not yet taken.
    pub fn screenshot_requested(&self) -> (b: bool)
        ensures
            b == self@.screenshot_requested,
    {
        self.screenshot_requested
    }

    /// The selection.
    pub fn selection(&self) -> (s: SelectionState)
        ensures
            s == self@.selection,
    {
        self.selection
    }

    /// The parts of the window that the selection screen darkens; see
    /// [`SelectionState::show_selected_area`].
    pub fn show_selected_area(&self, window: Size) -> (r: Vec<Rect>)
        ensures
            r@ == crate::selection::shade(self@.selection.select, window),
    {
        self.selection.show_selected_area(window)
    }

    /// The drawing session.
    pub fn painting(&self) -> (p: &Painting)
        ensures
            p@ == self@.painting,
    {
        &self.painting
    }

    /// Says what is being done to the selected area.
    pub fn set_grab_status(&mut self, new_status: GrabStatus)
        ensures
            final(self)@ == (KrustyGrabState {
                selection: SelectionState { grab_status: new_status, ..old(self)@.selection },
                ..old(self)@
            }),
    {
        self.selection.grab_status = new_status;
    }

    /// Shows the screen `new_status`. Entering the selection screen notes
    /// the selected area, which giving up restores.
    pub fn set_window_status(&mut self, new_status: WindowStatus)
        ensures
            final(self)@ == old(self)@.with_window_status(new_status),
            old(self).wf() ==> final(self).wf(),
    {
        self.window_status = new_status;
        match new_status {
            WindowStatus::Crop => {
                self.selection.begin();
            },
            _ => {},
        }
    }

    /// Replaces the selected area.
    pub fn set_select_area(&mut self, new_area: Option<Rect>)
        ensures
            final(self)@ == (KrustyGrabState {
                selection: SelectionState { select: new_area, ..old(self)@.selection },
                ..old(self)@
            }),
    {
        self.selection.select = new_area;
    }

    /// Picks the monitor that captures are taken of.
    pub fn set_selected_screen(&mut self, new_screen: usize)
        ensures
            final(self)@ == (KrustyGrabState { selected_screen: new_screen, ..old(self)@ }),
    {
        self.selected_screen = new_screen;
    }

    /// Asks for a capture, or withdraws the request.
    pub fn set_screenshot_requested(&mut self, requested: bool)
        ensures
            final(self)@ == (KrustyGrabState { screenshot_requested: requested, ..old(self)@ }),
    {
        self.screenshot_requested = requested;
    }

    /// Tells whether the selection screen is shown.
    pub fn is_window_status_crop(&self) -> (b: bool)
        ensures
            b == (self@.window_status == WindowStatus::Crop),
    {
        match self.window_status {
            WindowStatus::Crop => true,
            _ => false,
        }
    }

    /// Tells whether the screen for saving is shown.
    pub fn is_window_status_save(&self) -> (b: bool)
        ensures
            b == (self@.window_status == WindowStatus::Save),
    {
        match self.window_status {
            WindowStatus::Save => true,
            _ => false,
        }
    }

    /// Takes in what the user did on the toolbar, and says what the window
    /// is to do about it.
    pub fn render_drawing_toolbar(&mut self, event: ToolbarEvent) -> (action: ToolbarAction)
        ensures
            final(self)@ == old(self)@.after_toolbar(event),
            action == KrustyGrabState::toolbar_action(event),
            old(self).wf() ==> final(self).wf(),
    {
        match event {
            ToolbarEvent::Mode(mode) => {
                self.painting.set_mode(mode);
                ToolbarAction::Nothing
            },
            ToolbarEvent::ColorChanged(color) => {
                self.painting.set_color(color);
                ToolbarAction::Nothing
            },
            ToolbarEvent::ThicknessChanged(width) => {
                self.painting.set_thickness(width);
                ToolbarAction::Nothing
            },
            ToolbarEvent::Undo => {
                self.painting.undo();
                ToolbarAction::Nothing
            },
            ToolbarEvent::Redo => {
                self.painting.redo();
                ToolbarAction::Nothing
            },
            ToolbarEvent::Cut => {
                self.set_window_status(WindowStatus::Crop);
                ToolbarAction::EnterCrop
            },
            ToolbarEvent::Save => ToolbarAction::Save,
            ToolbarEvent::SaveAs => ToolbarAction::SaveAs,
        }
    }

    /// Takes in a keyboard shortcut. `has_screen` tells whether there is an
    /// image to draw on.
    pub fn handle_shortcut(&mut self, shortcut: Shortcut, has_screen: bool)
        ensures
            final(self)@ == old(self)@.after_shortcut(shortcut, has_screen),
            old(self).wf() ==> final(self).wf(),
    {
        match shortcut {
            Shortcut::Undo => {
                if has_screen {
                    self.painting.undo();
                }
            },
            Shortcut::Redo => {
                if has_screen {
                    self.painting.redo();
                }
            },
            Shortcut::Screen => {
                self.screenshot_requested = true;
            },
            Shortcut::ScreenArea => {
                self.set_window_status(WindowStatus::Crop);
                self.screenshot_requested = true;
            },
        }
    }

    /// One frame of the drawing session on the main screen; see
    /// [`Painting::render_drawing`]. Image space is offset by the selected
    /// area's top-left corner.
    pub fn render_drawing(&mut self, input: &FrameInput, text: TextEvent) -> (out: FrameOutput)
        ensures
            final(self)@ == (KrustyGrabState {
                painting: old(self)@.painting.after_frame(*input, text@, old(self)@.area_min()),
                ..old(self)@
            }),
            out@ == old(self)@.painting.frame_output(*input, text@, old(self)@.area_min()),
            old(self).wf() ==> final(self).wf(),
    {
        let area_min = self.selection.area_min();
        self.painting.render_drawing(input, text, area_min)
    }

    /// Where the text editor is to be shown in this frame; see
    /// [`Painting::text_editor_pos`].
    pub fn text_editor_pos(&self, available: Rect, image: Size) -> (r: Option<Point>)
        ensures
            r == (match crate::viewport::fitted(available, image) {
                Some(v) => if self@.painting.mode == DrawingMode::Text && self@.painting.te_open {
                    Some(
                        crate::drawing::editor_pos(
                            v.transform.render_of(self@.painting.text_pos, self@.area_min()),
                            v.area,
                        ),
                    )
                } else {
                    None
                },
                None => None,
            }),
    {
        self.painting.text_editor_pos(available, image, self.selection.area_min())
    }

    /// Converts a position with the layout of the last frame: from image
    /// space to render space if `render` is set, else from render space to
    /// image space. None before the first layout.
    pub fn adjust_drawing_pos(&self, pos: Point, render: bool) -> (r: Option<Point>)
        ensures
            r == (match self@.painting.viewport {
                Some(v) => Some(
                    if render {
                        v.transform.render_of(pos, self@.area_min())
                    } else {
                        v.transform.image_of(pos, self@.area_min())
                    },
                ),
                None => None,
            }),
    {
        let area_min = self.selection.area_min();
        match self.painting.viewport() {
            Some(v) => Some(
                if render {
                    v.transform.to_render_space(pos, area_min)
                } else {
                    v.transform.to_image_space(pos, area_min)
                },
            ),
            None => None,
        }
    }

    /// The drawings as the selection screen paints them: as they are stored,
    /// since that screen shows the image at its native size.
    pub fn show_drawings_in_select(&self) -> (r: Vec<DrawingType>)
        ensures
            shapes(r@) == self@.painting.history.drawings,
    {
        let drawings = self.painting.history().drawings();
        let mut out: Vec<DrawingType> = Vec::new();
        let mut i: usize = 0;
        while i < drawings.len()
            invariant
                i <= drawings.len(),
                out@.len() == i,
                forall|k: int| 0 <= k < i ==> (#[trigger] out@[k])@ == drawings@[k]@,
            decreases drawings.len() - i,
        {
            out.push(drawings[i].clone());
            i = i + 1;
        }
        assert(shapes(out@) =~= shapes(drawings@));
        out
    }

    /// One frame of the selection screen; see
    /// [`SelectionState::crop_screen_window`]. Confirming or giving up leads
    /// back to the main screen.
    pub fn crop_screen_window(&mut self, input: &CropInput) -> (out: CropOutput)
        requires
            input.window.is_valid(),
        ensures
            final(self)@ == old(self)@.after_crop(*input),
            out.action == old(self)@.selection.crop_action(*input),
            out.cursor == old(self)@.selection.crop_cursor(*input),
            old(self).wf() ==> final(self).wf(),
    {
        let out = self.selection.crop_screen_window(input);
        match out.action {
            CropAction::Stay => {},
            _ => {
                self.window_status = WindowStatus::Main;
            },
        }
        out
    }

    /// Takes note that a capture was tried, and whether it was taken. A
    /// capture that failed leaves selection and drawings as they are.
    pub fn set_screenshot(&mut self, captured: bool)
        ensures
            final(self)@ == old(self)@.after_screenshot(captured),
            old(self).wf() ==> final(self).wf(),
    {
        if captured {
            self.selection.select = None;
            self.painting.clear_drawings();
        }
        self.screenshot_requested = false;
    }

    /// Takes note that an image was opened from a file: nothing is drawn on
    /// it, and nothing is left to redo.
    pub fn image_opened(&mut self)
        ensures
            final(self)@ == (KrustyGrabState {
                painting: PaintingState {
                    history: crate::history::HistoryState {
                        drawings: Seq::empty(),
                        redo: Seq::empty(),
                        capacity: old(self)@.painting.history.capacity,
                    },
                    ..old(self)@.painting
                },
                ..old(self)@
            }),
    {
        self.painting.clear();
    }

    /// The part of the window that is saved: the selected area, or all of
    /// the window without one.
    pub fn save_region(&self, window: Size) -> (r: Rect)
        ensures
            r == (match self@.selection.select {
                Some(sel) => sel,
                None => Rect {
                    min: Point { x: 0, y: 0 },
                    max: Point { x: window.width, y: window.height },
                },
            }),
    {
        match self.selection.select {
            Some(sel) => sel,
            None => Rect {
                min: Point { x: 0, y: 0 },
                max: Point { x: window.width, y: window.height },
            },
        }
    }
}

} // verus!
