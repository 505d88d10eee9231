//! The ordered list of drawings with undo and redo.
//!
//! Drawings are painted in the order in which they were added, so a later
//! one lies on top. Undo moves the last drawing into a bounded buffer, redo
//! brings it back, and committing a new drawing empties that buffer.

use vstd::prelude::*;
use crate::annotation::{lemma_shapes_push, lemma_shapes_subrange, shapes, DrawingType, Shape, Stroke};
use crate::geometry::Point;
use crate::redo::{limit_of, newest, pushed, RedoList};

verus! {

/// The mathematical form of an [`AnnotationHistory`].
pub struct HistoryState {
    /// The drawings, oldest first.
    pub drawings: Seq<Shape>,
    /// The undone drawings, the one undone last at the end.
    pub redo: Seq<Shape>,
    /// The capacity the redo buffer was made with.
    pub capacity: nat,
}

/// `drawings` with its last brush stroke, if it ends in one, marked as ended.
pub open spec fn sealed(drawings: Seq<Shape>) -> Seq<Shape> {
    if drawings.len() == 0 {
        drawings
    } else {
        drawings.update(drawings.len() - 1, drawings.last().finished())
    }
}

/// No drawing but the last is a brush stroke that is still being drawn.
pub open spec fn only_last_open(drawings: Seq<Shape>) -> bool {
    forall|i: int| 0 <= i < drawings.len() - 1 ==> !(#[trigger] drawings[i]).is_open_brush()
}

impl HistoryState {
    /// The redo buffer is within its limit, and at most the last drawing is
    /// a brush stroke that is still being drawn.
    pub open spec fn wf(self) -> bool {
        &&& self.redo.len() <= limit_of(self.capacity)
        &&& only_last_open(self.drawings)
    }

    /// After `d` is added on top: a brush stroke that was being drawn is
    /// ended first. The redo buffer is as before.
    pub open spec fn appended(self, d: Shape) -> HistoryState {
        HistoryState { drawings: sealed(self.drawings).push(d), ..self }
    }

    /// After `d` is added on top as a new edit, which empties the redo
    /// buffer.
    pub open spec fn committed(self, d: Shape) -> HistoryState {
        HistoryState { drawings: sealed(self.drawings).push(d), redo: Seq::empty(), ..self }
    }

    /// After the last drawing is taken away; unchanged where there is none.
    pub open spec fn without_last(self) -> HistoryState {
        if self.drawings.len() == 0 {
            self
        } else {
            HistoryState { drawings: self.drawings.drop_last(), ..self }
        }
    }

    /// After the redo buffer is emptied.
    pub open spec fn redo_cleared(self) -> HistoryState {
        HistoryState { redo: Seq::empty(), ..self }
    }

    /// Whether the last drawing is a brush stroke that is still being drawn.
    pub open spec fn has_open_brush(self) -> bool {
        self.drawings.len() > 0 && self.drawings.last().is_open_brush()
    }

    /// After `p` is added to the brush stroke that is being drawn, which
    /// takes the stroke `s`; unchanged where no brush stroke is being drawn.
    pub open spec fn brush_extended(self, p: Point, s: Stroke) -> HistoryState {
        if self.has_open_brush() {
            HistoryState {
                drawings: self.drawings.update(
                    self.drawings.len() - 1,
                    Shape::Brush {
                        points: self.drawings.last()->points.push(p),
                        s,
                        end: false,
                    },
                ),
                ..self
            }
        } else {
            self
        }
    }

    /// After the last drawing, if it is a brush stroke, is marked as ended.
    pub open spec fn brush_finished(self) -> HistoryState {
        HistoryState { drawings: sealed(self.drawings), ..self }
    }

    /// After one undo: the last drawing moves into the redo buffer.
    /// Unchanged where there is no drawing.
    pub open spec fn undone(self) -> HistoryState {
        if self.drawings.len() == 0 {
            self
        } else {
            HistoryState {
                drawings: self.drawings.drop_last(),
                redo: pushed(self.redo, self.capacity, self.drawings.last()),
                ..self
            }
        }
    }

    /// After one redo: the drawing that was undone last comes back on top.
    /// Unchanged where the redo buffer is empty.
    pub open spec fn redone(self) -> HistoryState {
        if self.redo.len() == 0 {
            self
        } else {
            HistoryState {
                drawings: sealed(self.drawings).push(self.redo.last()),
                redo: self.redo.drop_last(),
                ..self
            }
        }
    }

    /// After `k` undos.
    pub open spec fn undone_n(self, k: nat) -> HistoryState
        decreases k,
    {
        if k == 0 {
            self
        } else {
            self.undone().undone_n((k - 1) as nat)
        }
    }

    /// After `k` redos.
    pub open spec fn redone_n(self, k: nat) -> HistoryState
        decreases k,
    {
        if k == 0 {
            self
        } else {
            self.redone_n((k - 1) as nat).redone()
        }
    }
}

/// The drawings of a session and the buffer that redo draws from.
pub struct AnnotationHistory {
    drawings: Vec<DrawingType>,
    redo: RedoList,
}

impl View for AnnotationHistory {
    type V = HistoryState;

    closed spec fn view(&self) -> HistoryState {
        HistoryState {
            drawings: shapes(self.drawings@),
            redo: self.redo@,
            capacity: self.redo.spec_capacity() as nat,
        }
    }
}

impl AnnotationHistory {
    /// The number of undone drawings that redo can bring back.
    pub const REDO_LIST_SIZE: usize = 10;

    /// See [`HistoryState::wf`].
    pub open spec fn wf(&self) -> bool {
        self@.wf()
    }

    /// A history without drawings, whose redo buffer has room for
    /// `capacity` items.
    pub fn new(capacity: usize) -> (h: AnnotationHistory)
        ensures
            h@ == (HistoryState {
                drawings: Seq::empty(),
                redo: Seq::empty(),
                capacity: capacity as nat,
            }),
            h.wf(),
    {
        let h = AnnotationHistory { drawings: Vec::new(), redo: RedoList::new(capacity) };
        assert(shapes(h.drawings@) =~= Seq::<Shape>::empty());
        h
    }

    /// The drawings, oldest first.
    pub fn drawings(&self) -> (r: &Vec<DrawingType>)
        ensures
            shapes(r@) == self@.drawings,
    {
        &self.drawings
    }

    /// The number of drawings.
    pub fn len(&self) -> (n: usize)
        ensures
            n == self@.drawings.len(),
    {
        self.drawings.len()
    }

    /// Tells whether there is a drawing that undo can take away.
    pub fn can_undo(&self) -> (b: bool)
        ensures
            b == (self@.drawings.len() > 0),
    {
        self.drawings.len() > 0
    }

    /// Tells whether there is a drawing that redo can bring back.
    pub fn can_redo(&self) -> (b: bool)
        ensures
            b == (self@.redo.len() > 0),
    {
        !self.redo.is_empty()
    }

    /// Tells whether the last drawing is a text label.
    pub fn last_is_text(&self) -> (b: bool)
        ensures
            b == (self@.drawings.len() > 0 && self@.drawings.last() is Text),
    {
        let n: usize = self.drawings.len();
        n > 0 && self.drawings[n - 1].is_text()
    }

    /// Tells whether the last drawing is a text at `p` that reads `t`.
    pub fn last_is_text_of(&self, p: Point, t: &String) -> (b: bool)
        ensures
            b == (self@.drawings.len() > 0 && (self@.drawings.last() matches Shape::Text {
                p: q,
                t: u,
                ..
            } && q == p && u == t@)),
    {
        let n: usize = self.drawings.len();
        if n == 0 {
            return false;
        }
        match &self.drawings[n - 1] {
            DrawingType::Text { p: q, t: u, .. } => *q == p && *u == *t,
            _ => false,
        }
    }

    /// Tells whether the last drawing is a brush stroke that is still being
    /// drawn.
    pub fn has_open_brush(&self) -> (b: bool)
        ensures
            b == self@.has_open_brush(),
    {
        let n: usize = self.drawings.len();
        n > 0 && self.drawings[n - 1].is_open_brush()
    }

    /// Marks the last drawing as ended if it is a brush stroke.
    pub fn finish_brush(&mut self)
        ensures
            final(self)@ == old(self)@.brush_finished(),
            old(self).wf() ==> final(self).wf(),
    {
        let ghost before = self.drawings@;
        match self.drawings.pop() {
            Some(DrawingType::Brush { points, s, end }) => {
                self.drawings.push(DrawingType::Brush { points, s, end: true });
            },
            Some(other) => {
                self.drawings.push(other);
            },
            None => {},
        }
        assert(shapes(self.drawings@) =~= sealed(shapes(before)));
    }

    /// Adds `d` on top. A brush stroke that was being drawn is ended first.
    pub fn append(&mut self, d: DrawingType)
        ensures
            final(self)@ == old(self)@.appended(d@),
            old(self).wf() ==> final(self).wf(),
    {
        let ghost before = self.drawings@;
        self.finish_brush();
        let ghost mid = self.drawings@;
        self.drawings.push(d);
        proof {
            lemma_shapes_push(mid, d);
        }
    }

    /// Adds `d` on top as a new edit: what was undone can no longer be
    /// brought back.
    pub fn commit(&mut self, d: DrawingType)
        ensures
            final(self)@ == old(self)@.committed(d@),
            old(self).wf() ==> final(self).wf(),
    {
        self.append(d);
        self.redo.clear();
    }

    /// Takes the last drawing away, if there is one.
    pub fn pop_last(&mut self) -> (r: Option<DrawingType>)
        ensures
            final(self)@ == old(self)@.without_last(),
            r is Some <==> old(self)@.drawings.len() > 0,
            r matches Some(d) ==> d@ == old(self)@.drawings.last(),
            old(self).wf() ==> final(self).wf(),
    {
        let ghost before = self.drawings@;
        let r = self.drawings.pop();
        proof {
            if before.len() > 0 {
                lemma_shapes_subrange(before, 0, before.len() - 1);
            }
        }
        r
    }

    /// Adds `p` to the brush stroke that is being drawn and gives it the
    /// stroke `s`. Changes nothing, and says so, where the last drawing is
    /// no such brush stroke.
    pub fn extend_brush(&mut self, p: Point, s: Stroke) -> (done: bool)
        ensures
            done == old(self)@.has_open_brush(),
            final(self)@ == old(self)@.brush_extended(p, s),
            old(self).wf() ==> final(self).wf(),
    {
        let ghost before = self.drawings@;
        if !self.has_open_brush() {
            return false;
        }
        match self.drawings.pop() {
            Some(DrawingType::Brush { points, s: _, end: _ }) => {
                let mut points = points;
                points.push(p);
                self.drawings.push(DrawingType::Brush { points, s, end: false });
            },
            Some(other) => {
                self.drawings.push(other);
            },
            None => {},
        }
        assert(shapes(self.drawings@) =~= shapes(before).update(
            before.len() - 1,
            Shape::Brush { points: shapes(before).last()->points.push(p), s, end: false },
        ));
        true
    }

    /// Empties the redo buffer.
    pub fn clear_redo(&mut self)
        ensures
            final(self)@ == old(self)@.redo_cleared(),
            old(self).wf() ==> final(self).wf(),
    {
        self.redo.clear();
    }

    /// Drops every drawing. The redo buffer is as before.
    pub fn clear_drawings(&mut self)
        ensures
            final(self)@ == (HistoryState { drawings: Seq::empty(), ..old(self)@ }),
            old(self).wf() ==> final(self).wf(),
    {
        self.drawings.clear();
        assert(shapes(self.drawings@) =~= Seq::<Shape>::empty());
    }

    /// Drops every drawing and empties the redo buffer.
    pub fn clear(&mut self)
        ensures
            final(self)@ == (HistoryState {
                drawings: Seq::empty(),
                redo: Seq::empty(),
                capacity: old(self)@.capacity,
            }),
            final(self).wf(),
    {
        self.drawings.clear();
        self.redo.clear();
        assert(shapes(self.drawings@) =~= Seq::<Shape>::empty());
    }

    /// Takes the last drawing away and keeps it for redo. Returns whether
    /// there was one; without one nothing changes.
    pub fn undo(&mut self) -> (done: bool)
        ensures
            final(self)@ == old(self)@.undone(),
            done == (old(self)@.drawings.len() > 0),
            old(self).wf() ==> final(self).wf(),
    {
        let ghost before = self.drawings@;
        match self.drawings.pop() {
            Some(last) => {
                proof {
                    lemma_shapes_subrange(before, 0, before.len() - 1);
                }
                self.redo.push(last);
                true
            },
            None => false,
        }
    }

    /// Brings back the drawing that was undone last. Returns whether there
    /// was one; without one nothing changes.
    pub fn redo(&mut self) -> (done: bool)
        ensures
            final(self)@ == old(self)@.redone(),
            done == (old(self)@.redo.len() > 0),
            old(self).wf() ==> final(self).wf(),
    {
        match self.redo.pop() {
            Some(last) => {
                self.append(last);
                true
            },
            None => false,
        }
    }
}

/// Ending the last brush stroke leaves no brush stroke open.
pub proof fn lemma_sealed_closed(drawings: Seq<Shape>)
    requires
        only_last_open(drawings),
    ensures
        forall|i: int| 0 <= i < drawings.len() ==> !(#[trigger] sealed(drawings)[i]).is_open_brush(),
        only_last_open(sealed(drawings)),
        !drawings.last().is_open_brush() || drawings.len() == 0 ==> sealed(drawings) == drawings,
{
    if drawings.len() > 0 && !drawings.last().is_open_brush() {
        assert(sealed(drawings) =~= drawings);
    }
}

/// An undo followed by a redo restores the drawings, whatever the redo
/// buffer held.
pub proof fn lemma_undo_then_redo(h: HistoryState)
    requires
        h.wf(),
        h.drawings.len() > 0,
    ensures
        h.undone().redone().drawings == h.drawings,
        h.undone().redone().redo == newest(h.redo, (limit_of(h.capacity) - 1) as nat),
        h.undone().redone().wf(),
{
    let u = h.undone();
    let rest = h.drawings.drop_last();
    assert(only_last_open(rest));
    assert(!rest.last().is_open_brush() || rest.len() == 0) by {
        if rest.len() > 0 {
            assert(rest.last() == h.drawings[rest.len() - 1]);
        }
    }
    lemma_sealed_closed(rest);
    assert(u.redo.last() == h.drawings.last());
    assert(rest.push(h.drawings.last()) =~= h.drawings);
    assert(u.redo.drop_last() =~= newest(h.redo, (limit_of(h.capacity) - 1) as nat));
}

/// Undo and redo are inverse: after `k` undos, `k` redos restore the
/// drawings exactly as they were, as long as `k` is within the redo
/// buffer's limit. Of what the buffer held before, the newest stay, as many
/// as fit beside the `k`.
pub proof fn lemma_undo_redo_inverse(h: HistoryState, k: nat)
    requires
        h.wf(),
        k <= h.drawings.len(),
        k <= limit_of(h.capacity),
    ensures
        h.undone_n(k).redone_n(k).drawings == h.drawings,
        h.undone_n(k).redone_n(k).redo == newest(h.redo, (limit_of(h.capacity) - k) as nat),
        h.undone_n(k).redone_n(k).capacity == h.capacity,
        h.undone_n(k).redone_n(k).wf(),
    decreases k,
{
    if k == 0 {
        assert(newest(h.redo, limit_of(h.capacity)) == h.redo);
    } else {
        let h1 = h.undone();
        let d = h.drawings.last();
        let lim = limit_of(h.capacity);
        assert(only_last_open(h1.drawings));
        lemma_undo_redo_inverse(h1, (k - 1) as nat);
        let mid = h1.undone_n((k - 1) as nat).redone_n((k - 1) as nat);
        assert(h.undone_n(k).redone_n(k) == mid.redone());
        assert(mid.redo == newest(h1.redo, (lim - (k - 1)) as nat));
        assert(h1.redo.last() == d);
        assert(mid.redo.len() > 0);
        assert(mid.redo.last() == d);
        assert(!h1.drawings.last().is_open_brush() || h1.drawings.len() == 0) by {
            if h1.drawings.len() > 0 {
                assert(h1.drawings.last() == h.drawings[h1.drawings.len() - 1]);
            }
        }
        lemma_sealed_closed(h1.drawings);
        assert(h1.drawings.push(d) =~= h.drawings);
        assert(mid.redo.drop_last() =~= newest(h.redo, (lim - k) as nat));
    }
}

/// A new edit invalidates redo: once a drawing has been committed, redo
/// changes nothing, whatever was undone before.
pub proof fn lemma_commit_invalidates_redo(h: HistoryState, d: Shape)
    ensures
        h.committed(d).redo.len() == 0,
        h.committed(d).redone() == h.committed(d),
        h.undone().committed(d).redone() == h.undone().committed(d),
{
}

/// Undo on a history without drawings changes nothing.
pub proof fn lemma_undo_empty(h: HistoryState)
    requires
        h.drawings.len() == 0,
    ensures
        h.undone() == h,
{
}

} // verus!
