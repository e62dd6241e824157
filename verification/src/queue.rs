//! A bounded first-in, first-out queue.
//!
//! The queue is used by one owner at a time. An operation that would have to
//! wait for another party cannot be served: `pop` on an empty queue ends as
//! a timeout does, and `push` asks for room.

use std::collections::VecDeque;
use vstd::prelude::*;

verus! {

/// The queue was closed.
#[derive(Debug, PartialEq, Eq, Structural)]
pub struct QueueClosed;

/// Why nothing could be taken from the queue.
#[derive(Debug, PartialEq, Eq, Structural)]
pub enum PopError {
    /// Nothing arrived in time.
    Timeout,
    /// The queue was closed.
    QueueClosed,
}

/// The queue: its items, oldest first, and the room it has.
#[derive(Debug)]
pub struct Queue<T> {
    items: VecDeque<T>,
    size: usize,
}

impl<T> View for Queue<T> {
    type V = Seq<T>;

    closed spec fn view(&self) -> Seq<T> {
        self.items@
    }
}

impl<T> Queue<T> {
    /// How many items the queue has room for.
    pub closed spec fn capacity(&self) -> nat {
        self.size as nat
    }

    /// The queue holds no more than its capacity.
    pub open spec fn wf(&self) -> bool {
        self@.len() <= self.capacity()
    }

    /// An empty queue with room for `size` items.
    pub fn new(size: usize) -> (queue: Self)
        ensures
            queue@ == Seq::<T>::empty(),
            queue.capacity() == size,
            queue.wf(),
    {
        Queue { items: VecDeque::new(), size }
    }

    pub fn len(&self) -> (n: usize)
        ensures
            n == self@.len(),
    {
        self.items.len()
    }

    /// Appends `x`. The queue is never closed, so this always succeeds.
    pub fn push(&mut self, x: T) -> (result: Result<(), QueueClosed>)
        requires
            old(self).wf(),
            old(self)@.len() < old(self).capacity(),
        ensures
            result is Ok,
            final(self)@ == old(self)@.push(x),
            final(self).capacity() == old(self).capacity(),
            final(self).wf(),
    {
        self.items.push_back(x);
        Ok(())
    }

    /// Takes the oldest item. On an empty queue the wait for an item ends
    /// with `PopError::Timeout`; without a timeout it would not end, so an
    /// empty queue asks for one.
    pub fn pop(&mut self, timeout: Option<std::time::Duration>) -> (result: Result<T, PopError>)
        requires
            old(self)@.len() > 0 || timeout is Some,
        ensures
            final(self).capacity() == old(self).capacity(),
            old(self).wf() ==> final(self).wf(),
            old(self)@.len() > 0 ==> result == Ok::<T, PopError>(old(self)@[0]) && final(self)@ == old(
                self,
            )@.drop_first(),
            old(self)@.len() == 0 ==> result == Err::<T, PopError>(PopError::Timeout) && final(self)@
                == old(self)@,
    {
        match self.items.pop_front() {
            Some(x) => {
                assert(self.items@ =~= old(self)@.drop_first());
                Ok(x)
            },
            None => Err(PopError::Timeout),
        }
    }
}

} // verus!
