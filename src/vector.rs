//! The growable array: a buffer of slots whose first `length` slots hold the
//! live elements, in order.
use vstd::prelude::*;

use crate::buffer::{fits_in_memory, grown_capacity, Buffer};

verus! {

/// The capacity after one `push` onto an array of capacity `cap` holding
/// `len` elements: grown when every slot is occupied, kept otherwise.
pub open spec fn capacity_after_push(cap: nat, len: nat) -> nat {
    if len == cap {
        grown_capacity(cap)
    } else {
        cap
    }
}

/// A growable array. Slots `[0, length)` of the buffer hold the elements;
/// the remaining slots are empty.
#[derive(Debug)]
pub struct Vector<T> {
    buffer: Buffer<T>,
    length: usize,
}

impl<T> View for Vector<T> {
    type V = Seq<T>;

    /// The live elements, in index order.
    closed spec fn view(&self) -> Seq<T> {
        Seq::new(self.length as nat, |i: int| self.buffer@[i]->0)
    }
}

impl<T> Vector<T> {
    /// The number of slots backed by the buffer.
    pub closed spec fn cap(&self) -> nat {
        self.buffer@.len()
    }

    /// Exactly the slots below the length are occupied.
    pub closed spec fn wf(&self) -> bool {
        &&& self.length <= self.buffer@.len() <= usize::MAX
        &&& forall|i: int| 0 <= i < self.length ==> #[trigger] self.buffer@[i] is Some
        &&& forall|i: int| self.length <= i < self.buffer@.len() ==> #[trigger] self.buffer@[i] is None
    }

    /// An empty array with room for `size` elements before it first grows.
    pub fn new(size: usize) -> (r: Self)
        requires
            fits_in_memory::<T>(size as nat),
        ensures
            r.wf(),
            r@ == Seq::<T>::empty(),
            r.cap() == size,
    {
        let r = Vector { buffer: Buffer::new(size), length: 0 };
        assert(r@ =~= Seq::<T>::empty());
        r
    }

    /// A well-formed array never holds more elements than it has slots.
    pub proof fn lemma_len_le_cap(&self)
        requires
            self.wf(),
        ensures
            self@.len() <= self.cap(),
    {
    }

    /// The number of elements.
    pub fn len(&self) -> (r: usize)
        requires
            self.wf(),
        ensures
            r == self@.len(),
            r <= self.cap(),
    {
        self.length
    }

    /// The number of slots backed by the buffer.
    pub fn capacity(&self) -> (r: usize)
        requires
            self.wf(),
        ensures
            r == self.cap(),
            r >= self@.len(),
    {
        self.buffer.capacity()
    }

    /// Whether the array holds no element.
    pub fn is_empty(&self) -> (r: bool)
        requires
            self.wf(),
        ensures
            r == (self@.len() == 0),
    {
        self.length == 0
    }

    /// Whether the next `push` has to grow the buffer.
    pub fn is_full(&self) -> (r: bool)
        requires
            self.wf(),
        ensures
            r == (self@.len() == self.cap()),
    {
        self.length == self.buffer.capacity()
    }

    /// Appends `value`, first growing the buffer to `grown_capacity` of its
    /// capacity when every slot is occupied.
    pub fn push(&mut self, value: T)
        requires
            old(self).wf(),
            old(self)@.len() == old(self).cap() ==> old(self).cap() <= usize::MAX / 2
                && fits_in_memory::<T>(grown_capacity(old(self).cap())),
        ensures
            final(self).wf(),
            final(self)@ == old(self)@.push(value),
            final(self).cap() == capacity_after_push(old(self).cap(), old(self)@.len()),
            final(self).cap() >= old(self).cap(),
            final(self)@.len() <= final(self).cap(),
    {
        if self.is_full() {
            self.buffer.grow();
        }
        self.buffer.put(self.length, value);
        self.length = self.length + 1;
        assert(self@ =~= old(self)@.push(value));
    }

    /// Removes the last element and hands it back; `None` when the array is
    /// empty, which is then left as it was.
    pub fn pop(&mut self) -> (r: Option<T>)
        requires
            old(self).wf(),
        ensures
            final(self).wf(),
            final(self).cap() == old(self).cap(),
            old(self)@.len() == 0 ==> r is None && final(self)@ == old(self)@,
            old(self)@.len() > 0 ==> r == Some(old(self)@.last()) && final(self)@
                == old(self)@.drop_last(),
    {
        if self.length == 0 {
            return None;
        }
        self.length = self.length - 1;
        let r = self.buffer.take(self.length);
        assert(self@ =~= old(self)@.drop_last());
        r
    }

    /// The element at index `i`.
    pub fn get(&self, i: usize) -> (r: &T)
        requires
            self.wf(),
            i < self@.len(),
        ensures
            *r == self@[i as int],
    {
        self.buffer.slot(i).as_ref().unwrap()
    }

    /// The element at index `i`, for writing.
    pub fn get_mut(&mut self, i: usize) -> (r: &mut T)
        requires
            old(self).wf(),
            i < old(self)@.len(),
        ensures
            *r == old(self)@[i as int],
            final(self).wf(),
            final(self).cap() == old(self).cap(),
            final(self)@ == old(self)@.update(i as int, *final(r)),
    {
        let r = self.buffer.slot_mut(i).as_mut().unwrap();
        proof {
            assert(after_borrow(self)@ =~= old(self)@.update(i as int, *final(r)));
        }
        r
    }
}

} // verus!
