//! A first-in, first-out queue: the hand-over point between the producers
//! of work and its single consumer.
//!
//! The queue itself is sequential; whoever shares it between threads guards
//! it with a lock and waits, while it is empty, before taking from it.

use std::collections::VecDeque;
use vstd::prelude::*;

verus! {

pub struct TSDequeue<T> {
    data: VecDeque<T>,
}

impl<T> View for TSDequeue<T> {
    type V = Seq<T>;

    /// The queued values, oldest first.
    closed spec fn view(&self) -> Seq<T> {
        self.data@
    }
}

impl<T> TSDequeue<T> {
    /// An empty queue.
    pub fn new() -> (q: Self)
        ensures
            q@ == Seq::<T>::empty(),
    {
        Self { data: VecDeque::new() }
    }

    /// Puts `value` behind everything that is already queued.
    pub fn push(&mut self, value: T)
        ensures
            final(self)@ == old(self)@.push(value),
    {
        self.data.push_back(value);
    }

    /// Takes the oldest value. On an empty queue there is nothing to take:
    /// a consumer waits until `is_empty` is false before it calls this.
    pub fn pop(&mut self) -> (value: T)
        requires
            old(self)@.len() > 0,
        ensures
            value == old(self)@[0],
            final(self)@ == old(self)@.drop_first(),
    {
        let front = self.data.pop_front();
        assert(self.data@ =~= old(self).data@.drop_first());
        front.unwrap()
    }

    /// The number of queued values.
    pub fn len(&self) -> (n: usize)
        ensures
            n == self@.len(),
    {
        self.data.len()
    }

    /// Whether nothing is queued.
    pub fn is_empty(&self) -> (empty: bool)
        ensures
            empty == (self@.len() == 0),
    {
        self.data.len() == 0
    }
}

} // verus!
