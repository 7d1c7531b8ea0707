//! A fixed-size block of element slots, each either holding a live value or
//! empty, with an explicit growth policy.
use vstd::prelude::*;

verus! {

/// The capacity a block of `cap` slots grows to: one slot for an empty
/// block, twice as many otherwise.
pub open spec fn grown_capacity(cap: nat) -> nat {
    if cap == 0 {
        1
    } else {
        2 * cap
    }
}

/// Whether a block of `capacity` slots fits the largest allocation the
/// machine allows (`isize::MAX` bytes); larger requests abort.
pub open spec fn fits_in_memory<T>(capacity: nat) -> bool {
    capacity * vstd::layout::size_of::<Option<T>>() <= isize::MAX
}

/// A block of `capacity` slots. A slot is `None` while it holds no value.
#[derive(Debug)]
pub struct Buffer<T> {
    slots: Vec<Option<T>>,
}

impl<T> View for Buffer<T> {
    type V = Seq<Option<T>>;

    closed spec fn view(&self) -> Seq<Option<T>> {
        self.slots@
    }
}

impl<T> Buffer<T> {
    /// A block of `capacity` empty slots.
    pub fn new(capacity: usize) -> (b: Self)
        requires
            fits_in_memory::<T>(capacity as nat),
        ensures
            b@.len() == capacity,
            forall|i: int| 0 <= i < capacity ==> #[trigger] b@[i] is None,
    {
        let mut slots: Vec<Option<T>> = Vec::with_capacity(capacity);
        while slots.len() < capacity
            invariant
                slots@.len() <= capacity,
                forall|i: int| 0 <= i < slots@.len() ==> #[trigger] slots@[i] is None,
            decreases capacity - slots@.len(),
        {
            slots.push(None);
        }
        Buffer { slots }
    }

    /// The number of slots.
    pub fn capacity(&self) -> (r: usize)
        ensures
            r == self@.len(),
    {
        self.slots.len()
    }

    /// Moves every slot, in place, into a fresh block of
    /// `grown_capacity(capacity)` slots; the added slots are empty.
    pub fn grow(&mut self)
        requires
            old(self)@.len() <= usize::MAX / 2,
            fits_in_memory::<T>(grown_capacity(old(self)@.len() as nat)),
        ensures
            final(self)@.len() == grown_capacity(old(self)@.len() as nat),
            final(self)@.len() > old(self)@.len(),
            forall|i: int| 0 <= i < old(self)@.len() ==> #[trigger] final(self)@[i] == old(self)@[i],
            forall|i: int|
                old(self)@.len() <= i < final(self)@.len() ==> #[trigger] final(self)@[i] is None,
    {
        let cap = self.slots.len();
        let new_cap: usize = if cap == 0 {
            1
        } else {
            cap * 2
        };
        let fresh = Buffer::new(new_cap);
        let mut moved = fresh.slots;
        std::mem::swap(&mut self.slots, &mut moved);
        let ghost prev = moved@;
        // `moved` is the old block; drain it from the end into the new one.
        while moved.len() > 0
            invariant
                moved@.len() <= cap,
                moved@ == prev.subrange(0, moved@.len() as int),
                prev.len() == cap,
                self.slots@.len() == new_cap,
                cap < new_cap,
                forall|i: int| moved@.len() <= i < cap ==> #[trigger] self.slots@[i] == prev[i],
                forall|i: int| cap <= i < new_cap ==> #[trigger] self.slots@[i] is None,
            decreases moved@.len(),
        {
            let j = moved.len() - 1;
            let slot = moved.pop().unwrap();
            self.slots[j] = slot;
        }
    }

    /// Moves the value out of slot `i`, leaving it empty.
    pub fn take(&mut self, i: usize) -> (r: Option<T>)
        requires
            i < old(self)@.len(),
        ensures
            r == old(self)@[i as int],
            final(self)@ == old(self)@.update(i as int, None),
    {
        self.slots[i].take()
    }

    /// Writes `value` into slot `i`, which must be empty.
    pub fn put(&mut self, i: usize, value: T)
        requires
            i < old(self)@.len(),
            old(self)@[i as int] is None,
        ensures
            final(self)@ == old(self)@.update(i as int, Some(value)),
    {
        self.slots[i] = Some(value);
    }

    /// Slot `i`.
    pub fn slot(&self, i: usize) -> (r: &Option<T>)
        requires
            i < self@.len(),
        ensures
            *r == self@[i as int],
    {
        &self.slots[i]
    }

    /// Slot `i`, for writing.
    pub fn slot_mut(&mut self, i: usize) -> (r: &mut Option<T>)
        requires
            i < old(self)@.len(),
        ensures
            *r == old(self)@[i as int],
            final(self)@ == old(self)@.update(i as int, *final(r)),
    {
        &mut self.slots[i]
    }
}

} // verus!
