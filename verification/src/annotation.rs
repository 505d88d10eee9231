//! The annotation model: what can be drawn on a captured image.
//!
//! Every stored coordinate is a position in the captured image at its native
//! resolution, so an annotation stays where it was drawn when the window that
//! shows the image changes its size.

use vstd::prelude::*;
use crate::geometry::{Point, Rect, Vector};

verus! {

/// A colour with its opacity, eight bits a channel.
#[derive(Clone, Copy, Debug, PartialEq, Eq, Structural)]
pub struct Color {
    pub r: u8,
    pub g: u8,
    pub b: u8,
    pub a: u8,
}

/// How an outline is drawn. `width` counts tenths of a pixel; for a text it
/// multiplies the base font size.
#[derive(Clone, Copy, Debug, PartialEq, Eq, Structural)]
pub struct Stroke {
    pub width: u32,
    pub color: Color,
}

/// The tool that pointer gestures are read with.
#[derive(Clone, Copy, Debug, PartialEq, Eq, Structural)]
pub enum DrawingMode {
    Brush,
    Rectangle,
    Circle,
    Arrow,
    Text,
}

/// One drawn object.
///
/// A `Brush` whose `end` is false is still being drawn; once `end` is true
/// the stroke no longer changes.
#[derive(Debug, PartialEq, Eq)]
#[allow(inconsistent_fields)]
pub enum DrawingType {
    Brush { points: Vec<Point>, s: Stroke, end: bool },
    Rectangle { r: Rect, s: Stroke },
    Circle { c: Point, r: i64, s: Stroke },
    Arrow { p: Point, v: Vector, s: Stroke },
    Text { p: Point, t: String, s: Stroke },
}

/// The mathematical form of a [`DrawingType`].
#[allow(inconsistent_fields)]
pub enum Shape {
    Brush { points: Seq<Point>, s: Stroke, end: bool },
    Rectangle { r: Rect, s: Stroke },
    Circle { c: Point, r: i64, s: Stroke },
    Arrow { p: Point, v: Vector, s: Stroke },
    Text { p: Point, t: Seq<char>, s: Stroke },
}

impl Shape {
    /// The stroke the shape is drawn with.
    pub open spec fn stroke(self) -> Stroke {
        match self {
            Shape::Brush { s, .. } => s,
            Shape::Rectangle { s, .. } => s,
            Shape::Circle { s, .. } => s,
            Shape::Arrow { s, .. } => s,
            Shape::Text { s, .. } => s,
        }
    }

    /// A brush stroke that is still being drawn.
    pub open spec fn is_open_brush(self) -> bool {
        self matches Shape::Brush { end, .. } && !end
    }

    /// This shape with `end` set, if it is a brush stroke; else unchanged.
    pub open spec fn finished(self) -> Shape {
        match self {
            Shape::Brush { points, s, .. } => Shape::Brush { points, s, end: true },
            other => other,
        }
    }
}

impl View for DrawingType {
    type V = Shape;

    open spec fn view(&self) -> Shape {
        match *self {
            DrawingType::Brush { points, s, end } => Shape::Brush { points: points@, s, end },
            DrawingType::Rectangle { r, s } => Shape::Rectangle { r, s },
            DrawingType::Circle { c, r, s } => Shape::Circle { c, r, s },
            DrawingType::Arrow { p, v, s } => Shape::Arrow { p, v, s },
            DrawingType::Text { p, t, s } => Shape::Text { p, t: t@, s },
        }
    }
}

/// The mathematical forms of a sequence of drawings, in the same order.
pub open spec fn shapes(s: Seq<DrawingType>) -> Seq<Shape> {
    s.map_values(|d: DrawingType| d@)
}

/// Appending a drawing appends its mathematical form.
pub proof fn lemma_shapes_push(s: Seq<DrawingType>, d: DrawingType)
    ensures
        shapes(s.push(d)) == shapes(s).push(d@),
{
    assert(shapes(s.push(d)) =~= shapes(s).push(d@));
}

/// A part of a sequence of drawings has the matching part of the forms.
pub proof fn lemma_shapes_subrange(s: Seq<DrawingType>, from: int, to: int)
    requires
        0 <= from <= to <= s.len(),
    ensures
        shapes(s.subrange(from, to)) == shapes(s).subrange(from, to),
{
    assert(shapes(s.subrange(from, to)) =~= shapes(s).subrange(from, to));
}

/// A copy of `points`.
pub fn copy_points(points: &Vec<Point>) -> (r: Vec<Point>)
    ensures
        r@ == points@,
{
    let mut r: Vec<Point> = Vec::new();
    let mut i: usize = 0;
    while i < points.len()
        invariant
            i <= points.len(),
            r@ == points@.subrange(0, i as int),
        decreases points.len() - i,
    {
        r.push(points[i]);
        i = i + 1;
        assert(r@ =~= points@.subrange(0, i as int));
    }
    assert(points@.subrange(0, points.len() as int) =~= points@);
    r
}

impl Clone for DrawingType {
    fn clone(&self) -> (r: Self)
        ensures
            r@ == self@,
    {
        match self {
            DrawingType::Brush { points, s, end } => DrawingType::Brush {
                points: copy_points(points),
                s: *s,
                end: *end,
            },
            DrawingType::Rectangle { r, s } => DrawingType::Rectangle { r: *r, s: *s },
            DrawingType::Circle { c, r, s } => DrawingType::Circle { c: *c, r: *r, s: *s },
            DrawingType::Arrow { p, v, s } => DrawingType::Arrow { p: *p, v: *v, s: *s },
            DrawingType::Text { p, t, s } => DrawingType::Text { p: *p, t: t.clone(), s: *s },
        }
    }
}

impl DrawingType {
    /// The stroke the drawing is made with.
    pub fn stroke(&self) -> (s: Stroke)
        ensures
            s == self@.stroke(),
    {
        match self {
            DrawingType::Brush { s, .. } => *s,
            DrawingType::Rectangle { s, .. } => *s,
            DrawingType::Circle { s, .. } => *s,
            DrawingType::Arrow { s, .. } => *s,
            DrawingType::Text { s, .. } => *s,
        }
    }

    /// Tells whether this is a brush stroke that is still being drawn.
    pub fn is_open_brush(&self) -> (b: bool)
        ensures
            b == self@.is_open_brush(),
    {
        match self {
            DrawingType::Brush { end, .. } => !*end,
            _ => false,
        }
    }

    /// Tells whether this is a text label.
    pub fn is_text(&self) -> (b: bool)
        ensures
            b == (self@ is Text),
    {
        match self {
            DrawingType::Text { .. } => true,
            _ => false,
        }
    }
}

} // verus!
