//! The drawing and selecting engine of a screenshot tool.
//!
//! A captured image is shown in a window, scaled to fit. The user draws on
//! it with a brush, or adds rectangles, circles, arrows and texts; every
//! drawing can be undone and redone. On a second screen the user selects a
//! part of the image by dragging a rectangle out, resizing it by its
//! handles or moving it.
//!
//! The library keeps the state of all this and says how each frame's input
//! changes it. It neither captures nor paints: the window hands in what the
//! pointer does and gets back what is to be painted. All positions are whole
//! pixels.
//!
//! - [`geometry`]: points, vectors, extents, rectangles, scaling.
//! - [`annotation`]: what can be drawn.
//! - [`redo`]: the bounded buffer of undone drawings.
//! - [`history`]: the drawings with undo and redo.
//! - [`viewport`]: the mapping between window and image.
//! - [`drawing`]: the drawing session, frame by frame.
//! - [`selection`]: the selection of a part of the image.
//! - [`krustygrab`]: the application's state, toolbar and shortcuts.
//! - [`hotkey`]: shortcuts as the settings show and compare them.
//! - [`filename`]: the name under which an image is saved.

pub mod annotation;
pub mod drawing;
pub mod filename;
pub mod geometry;
pub mod history;
pub mod hotkey;
pub mod krustygrab;
pub mod redo;
pub mod selection;
pub mod viewport;
