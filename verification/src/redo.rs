//! The bounded buffer of undone drawings.

use vstd::prelude::*;
use std::collections::VecDeque;
use crate::annotation::{lemma_shapes_push, lemma_shapes_subrange, shapes, DrawingType, Shape};

verus! {

/// The most items a buffer made with `capacity` ever keeps: `capacity`, and
/// one where `capacity` is zero.
pub open spec fn limit_of(capacity: nat) -> nat {
    if capacity == 0 {
        1
    } else {
        capacity
    }
}

/// What a buffer with `capacity` holds after `d` is pushed onto `items`:
/// the oldest item gives way when the buffer is full.
pub open spec fn pushed(items: Seq<Shape>, capacity: nat, d: Shape) -> Seq<Shape> {
    if items.len() >= capacity && items.len() > 0 {
        items.subrange(1, items.len() as int).push(d)
    } else {
        items.push(d)
    }
}

/// What a buffer with `capacity` holds after each item of `ds` is pushed
/// onto `items`, first to last.
pub open spec fn pushed_all(items: Seq<Shape>, capacity: nat, ds: Seq<Shape>) -> Seq<Shape>
    decreases ds.len(),
{
    if ds.len() == 0 {
        items
    } else {
        pushed(pushed_all(items, capacity, ds.drop_last()), capacity, ds.last())
    }
}

/// The last `n` items of `s`, or all of `s` where it has fewer.
pub open spec fn newest(s: Seq<Shape>, n: nat) -> Seq<Shape> {
    if s.len() <= n {
        s
    } else {
        s.subrange(s.len() - n, s.len() as int)
    }
}

/// A buffer that keeps the most recently undone drawings, newest last. It is
/// made for a fixed capacity; a push onto a full buffer drops the oldest
/// item.
pub struct RedoList {
    drawings: VecDeque<DrawingType>,
    cap: usize,
}

impl View for RedoList {
    type V = Seq<Shape>;

    closed spec fn view(&self) -> Seq<Shape> {
        shapes(self.drawings@)
    }
}

impl RedoList {
    /// The capacity the buffer was made with.
    pub closed spec fn spec_capacity(&self) -> usize {
        self.cap
    }

    /// The buffer holds no more than its limit.
    pub open spec fn wf(&self) -> bool {
        self@.len() <= limit_of(self.spec_capacity() as nat)
    }

    /// An empty buffer for `capacity` items.
    pub fn new(capacity: usize) -> (r: RedoList)
        ensures
            r@ == Seq::<Shape>::empty(),
            r.spec_capacity() == capacity,
            r.wf(),
    {
        let r = RedoList { drawings: VecDeque::with_capacity(capacity), cap: capacity };
        assert(r@ =~= Seq::<Shape>::empty());
        r
    }

    /// Puts `d` in as the newest item. A full buffer first drops its oldest
    /// item.
    pub fn push(&mut self, d: DrawingType)
        ensures
            final(self)@ == pushed(old(self)@, old(self).spec_capacity() as nat, d@),
            final(self).spec_capacity() == old(self).spec_capacity(),
            old(self).wf() ==> final(self).wf(),
    {
        let ghost before = self.drawings@;
        if self.drawings.len() >= self.cap {
            self.drawings.pop_front();
        }
        self.drawings.push_back(d);
        proof {
            if before.len() >= self.cap && before.len() > 0 {
                lemma_shapes_subrange(before, 1, before.len() as int);
                lemma_shapes_push(before.subrange(1, before.len() as int), d);
            } else {
                lemma_shapes_push(before, d);
            }
        }
    }

    /// Takes the newest item out, if there is one.
    pub fn pop(&mut self) -> (r: Option<DrawingType>)
        ensures
            final(self).spec_capacity() == old(self).spec_capacity(),
            old(self).wf() ==> final(self).wf(),
            match r {
                Some(d) => old(self)@.len() > 0 && d@ == old(self)@.last() && final(self)@ == old(
                    self,
                )@.drop_last(),
                None => old(self)@.len() == 0 && final(self)@ == old(self)@,
            },
    {
        let ghost before = self.drawings@;
        let r = self.drawings.pop_back();
        proof {
            if before.len() > 0 {
                lemma_shapes_subrange(before, 0, before.len() - 1);
            }
        }
        r
    }

    /// Tells whether the buffer holds nothing.
    pub fn is_empty(&self) -> (b: bool)
        ensures
            b == (self@.len() == 0),
    {
        self.drawings.len() == 0
    }

    /// The capacity the buffer was made with.
    #[verifier::when_used_as_spec(spec_capacity)]
    pub fn capacity(&self) -> (c: usize)
        ensures
            c == self.spec_capacity(),
    {
        self.cap
    }

    /// Drops every item.
    pub fn clear(&mut self)
        ensures
            final(self)@ == Seq::<Shape>::empty(),
            final(self).spec_capacity() == old(self).spec_capacity(),
            final(self).wf(),
    {
        self.drawings.clear();
        assert(self@ =~= Seq::<Shape>::empty());
    }
}

/// A buffer never holds more than its limit, however many items are pushed.
pub proof fn lemma_pushed_bounded(items: Seq<Shape>, capacity: nat, d: Shape)
    requires
        items.len() <= limit_of(capacity),
    ensures
        pushed(items, capacity, d).len() <= limit_of(capacity),
        pushed(items, capacity, d).last() == d,
{
}

/// Pushing a run of items leaves the newest of all that went in: the
/// buffer's limit decides how many, and what is older has been dropped.
pub proof fn lemma_pushed_all_keeps_newest(items: Seq<Shape>, capacity: nat, ds: Seq<Shape>)
    requires
        items.len() <= limit_of(capacity),
    ensures
        pushed_all(items, capacity, ds) == newest(items + ds, limit_of(capacity)),
    decreases ds.len(),
{
    if ds.len() == 0 {
        assert(items + ds =~= items);
    } else {
        let head = ds.drop_last();
        lemma_pushed_all_keeps_newest(items, capacity, head);
        let mid = newest(items + head, limit_of(capacity));
        assert((items + head).push(ds.last()) =~= items + ds);
        assert(pushed(mid, capacity, ds.last()) =~= newest(items + ds, limit_of(capacity)));
    }
}

} // verus!
