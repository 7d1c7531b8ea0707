//! The three ways to walk a `Vector`: shared, exclusive and consuming.
use vstd::prelude::*;

use crate::vector::Vector;

verus! {

/// A shared, forward walk over the elements of a borrowed array.
pub struct VectorIter<'a, T> {
    ptr_vec: &'a Vector<T>,
    current: usize,
}

/// An exclusive, forward walk that hands out each element for writing.
pub struct VectorMutIter<'a, T> {
    ptr_vec: &'a mut Vector<T>,
    current: usize,
}

/// A walk that owns the array and yields its elements, last first.
pub struct VecIntoIter<T> {
    vec: Vector<T>,
}

impl<T> Vector<T> {
    /// A shared walk starting at index 0.
    pub fn iter(&self) -> (r: VectorIter<'_, T>)
        requires
            self.wf(),
        ensures
            r.wf(),
            r.remaining() == self@,
    {
        let r = VectorIter { ptr_vec: self, current: 0 };
        assert(r.remaining() =~= self@);
        r
    }

    /// An exclusive walk starting at index 0. When it ends, the array holds
    /// what the walk holds at that point.
    pub fn iter_mut(&mut self) -> (r: VectorMutIter<'_, T>)
        requires
            old(self).wf(),
        ensures
            r.wf(),
            r.position() == 0,
            r.position() <= r.elements().len(),
            r.elements() == old(self)@,
            r.capacity_of() == old(self).cap(),
            *final(self) == *final(r.borrowed()),
    {
        VectorMutIter { ptr_vec: self, current: 0 }
    }

    /// A consuming walk over this array.
    pub fn into_iter(self) -> (r: VecIntoIter<T>)
        requires
            self.wf(),
        ensures
            r.wf(),
            r.remaining() == self@,
    {
        VecIntoIter { vec: self }
    }
}

impl<'a, T> VectorIter<'a, T> {
    /// The array is well formed and the cursor lies within its elements.
    pub closed spec fn wf(&self) -> bool {
        self.ptr_vec.wf() && self.current <= self.ptr_vec@.len()
    }

    /// The elements not yet visited, in the order they come.
    pub closed spec fn remaining(&self) -> Seq<T> {
        self.ptr_vec@.subrange(self.current as int, self.ptr_vec@.len() as int)
    }

    /// The next element in index order, or `None` once all have been seen.
    pub fn next(&mut self) -> (r: Option<&'a T>)
        requires
            old(self).wf(),
        ensures
            final(self).wf(),
            old(self).remaining().len() == 0 ==> r is None && final(self).remaining()
                == old(self).remaining(),
            old(self).remaining().len() > 0 ==> r is Some && *r->0 == old(self).remaining()[0]
                && final(self).remaining() == old(self).remaining().drop_first(),
    {
        if self.current < self.ptr_vec.len() {
            let i = self.current;
            self.current = self.current + 1;
            assert(self.remaining() =~= old(self).remaining().drop_first());
            Some(self.ptr_vec.get(i))
        } else {
            None
        }
    }
}

impl<'a, T> VectorMutIter<'a, T> {
    /// The array is well formed and the cursor lies within its elements.
    pub closed spec fn wf(&self) -> bool {
        self.ptr_vec.wf() && self.current <= self.ptr_vec@.len()
    }

    /// The cursor never passes the end of the elements.
    pub proof fn lemma_position_in_range(&self)
        requires
            self.wf(),
        ensures
            self.position() <= self.elements().len(),
    {
    }

    /// Index of the next element to hand out.
    pub closed spec fn position(&self) -> nat {
        self.current as nat
    }

    /// The elements of the borrowed array as they stand now.
    pub closed spec fn elements(&self) -> Seq<T> {
        self.ptr_vec@
    }

    /// The borrow of the array that the walk holds; what it points to when
    /// the walk ends is what the array then holds.
    pub closed spec fn borrowed(&self) -> &'a mut Vector<T> {
        self.ptr_vec
    }

    /// The capacity of the borrowed array.
    pub closed spec fn capacity_of(&self) -> nat {
        self.ptr_vec.cap()
    }

    /// The next element in index order, for writing, or `None` once all have
    /// been handed out.
    pub fn next(&mut self) -> (r: Option<&mut T>)
        requires
            old(self).wf(),
        ensures
            final(self).wf(),
            final(self).position() <= final(self).elements().len(),
            final(self).elements().len() == old(self).elements().len(),
            final(self).capacity_of() == old(self).capacity_of(),
            *final(final(self).borrowed()) == *final(old(self).borrowed()),
            old(self).position() == old(self).elements().len() ==> r is None && *final(self)
                == *old(self),
            old(self).position() < old(self).elements().len() ==> r is Some && *r->0
                == old(self).elements()[old(self).position() as int] && final(self).position()
                == old(self).position() + 1 && final(self).elements() == old(self).elements().update(
                old(self).position() as int,
                *final(r->0),
            ),
    {
        if self.current < self.ptr_vec.len() {
            let i = self.current;
            self.current = self.current + 1;
            Some(self.ptr_vec.get_mut(i))
        } else {
            None
        }
    }
}

/// Once a walk is no longer written through, the array holds what the walk
/// holds.
pub proof fn lemma_walk_resolved<'a, T>(it: VectorMutIter<'a, T>)
    requires
        it.wf(),
        has_resolved(it),
    ensures
        *it.borrowed() == *final(it.borrowed()),
        it.elements() == final(it.borrowed())@,
        final(it.borrowed()).wf(),
        final(it.borrowed()).cap() == it.capacity_of(),
{
}

impl<T> VecIntoIter<T> {
    /// The owned array is well formed.
    pub closed spec fn wf(&self) -> bool {
        self.vec.wf()
    }

    /// The elements still owned by the walk, in index order; they come out
    /// last first.
    pub closed spec fn remaining(&self) -> Seq<T> {
        self.vec@
    }

    /// Removes and yields the last remaining element, or `None` once none
    /// is left.
    pub fn next(&mut self) -> (r: Option<T>)
        requires
            old(self).wf(),
        ensures
            final(self).wf(),
            old(self).remaining().len() == 0 ==> r is None && final(self).remaining()
                == old(self).remaining(),
            old(self).remaining().len() > 0 ==> r == Some(old(self).remaining().last())
                && final(self).remaining() == old(self).remaining().drop_last(),
    {
        self.vec.pop()
    }
}

} // verus!

