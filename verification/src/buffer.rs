//! The batch buffer: accumulates entities of one kind up to a configured
//! batch size, then hands them out in insertion order for one relational
//! flush.

use vstd::prelude::*;

verus! {

/// A bounded accumulation buffer. Its view is the sequence of entities
/// appended and not yet drained, oldest first.
pub struct BatchBuffer<T> {
    items: Vec<T>,
    capacity: usize,
}

impl<T> View for BatchBuffer<T> {
    type V = Seq<T>;

    closed spec fn view(&self) -> Seq<T> {
        self.items@
    }
}

impl<T> BatchBuffer<T> {
    /// The batch size this buffer was created with.
    pub closed spec fn cap(&self) -> usize {
        self.capacity
    }

    /// An empty buffer that will report itself full at `capacity` entities.
    pub fn new(capacity: usize) -> (b: BatchBuffer<T>)
        requires
            capacity >= 1,
        ensures
            b@ == Seq::<T>::empty(),
            b.cap() == capacity,
    {
        BatchBuffer { items: Vec::new(), capacity }
    }

    /// The number of entities awaiting a flush.
    pub fn len(&self) -> (n: usize)
        ensures
            n == self@.len(),
    {
        self.items.len()
    }

    /// Appends one entity at the end of the buffer.
    pub fn append(&mut self, entity: T)
        ensures
            final(self)@ == old(self)@.push(entity),
            final(self).cap() == old(self).cap(),
    {
        self.items.push(entity);
    }

    /// True exactly when the appended count has reached the batch size,
    /// never before.
    pub fn is_full(&self) -> (r: bool)
        ensures
            r == (self@.len() >= self.cap()),
    {
        self.items.len() >= self.capacity
    }

    /// Empties the buffer and returns its whole contents in insertion order.
    pub fn drain(&mut self) -> (out: Vec<T>)
        ensures
            out@ == old(self)@,
            final(self)@ == Seq::<T>::empty(),
            final(self).cap() == old(self).cap(),
    {
        let mut out: Vec<T> = Vec::new();
        core::mem::swap(&mut self.items, &mut out);
        out
    }
}

/// The sequence obtained by appending the given entities one at a time,
/// oldest first, into an empty buffer.
pub open spec fn appended_in_order<T>(entities: Seq<T>) -> Seq<T>
    decreases entities.len(),
{
    if entities.len() == 0 {
        Seq::<T>::empty()
    } else {
        appended_in_order(entities.drop_last()).push(entities.last())
    }
}

/// Law: appending any entities one at a time into an empty buffer and then
/// draining it returns exactly those entities, in the order appended.
pub proof fn lemma_append_then_drain_order<T>(entities: Seq<T>)
    ensures
        appended_in_order(entities) == entities,
    decreases entities.len(),
{
    if entities.len() > 0 {
        lemma_append_then_drain_order(entities.drop_last());
        assert(entities.drop_last().push(entities.last()) =~= entities);
    } else {
        assert(appended_in_order(entities) =~= entities);
    }
}

} // verus!
