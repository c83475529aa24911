use std::collections::VecDeque;
use vstd::prelude::*;

verus! {

/// Hands out integer handles first in, first out; destroyed handles go to the back.
pub struct HandleQueue {
    handles: VecDeque<u64>,
}

impl View for HandleQueue {
    type V = Seq<u64>;

    closed spec fn view(&self) -> Seq<u64> {
        self.handles@
    }
}

impl HandleQueue {
    /// A queue holding the handles `0, 1, ..., capacity - 1` in order.
    pub fn new(capacity: u64) -> (r: Self)
        ensures
            r@ == Seq::new(capacity as nat, |i: int| i as u64),
    {
        let mut queue = HandleQueue { handles: VecDeque::new() };
        let mut i: u64 = 0;
        while i < capacity
            invariant
                i <= capacity,
                queue@ == Seq::new(i as nat, |k: int| k as u64),
            decreases capacity - i,
        {
            queue.handles.push_back(i);
            assert(queue@ =~= Seq::new((i + 1) as nat, |k: int| k as u64));
            i = i + 1;
        }
        queue
    }

    /// Number of handles available.
    pub fn len(&self) -> (r: usize)
        ensures
            r == self@.len(),
    {
        self.handles.len()
    }

    /// Takes the handle at the front; the queue must not be empty.
    pub fn create(&mut self) -> (r: u64)
        requires
            old(self)@.len() > 0,
        ensures
            r == old(self)@[0],
            final(self)@ == old(self)@.drop_first(),
    {
        match self.handles.pop_front() {
            Some(handle) => handle,
            None => {
                assert(false);
                0
            },
        }
    }

    /// Puts a handle back, at the end of the queue.
    pub fn destroy(&mut self, handle: u64)
        ensures
            final(self)@ == old(self)@.push(handle),
    {
        self.handles.push_back(handle);
    }
}

} // verus!
