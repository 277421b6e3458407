//! Bounded FIFO channels: the command bus that carries decoded commands from
//! producers to the interpreter, and the mode channel that carries blink-mode
//! changes from button handling to the pattern blinker.
//!
//! A full channel exerts backpressure: `try_send` hands the value back and
//! the producer suspends and retries, so nothing is ever silently dropped.
//! FIFO order is preserved; producers have no priority among each other.

use vstd::prelude::*;

verus! {

/// Capacity of the command bus feeding the interpreter.
pub const COMMAND_BUS_CAPACITY: usize = 6;

/// Capacity of the mode channel feeding the pattern blinker.
pub const BLINK_CHANNEL_CAPACITY: usize = 3;

/// A bounded multi-producer single-consumer FIFO queue.
#[derive(Debug)]
pub struct Channel<T> {
    items: Vec<T>,
    capacity: usize,
}

impl<T> View for Channel<T> {
    type V = Seq<T>;

    closed spec fn view(&self) -> Seq<T> {
        self.items@
    }
}

impl<T> Channel<T> {
    /// The queue never holds more than its capacity.
    pub open spec fn wf(&self) -> bool {
        self@.len() <= self.spec_capacity()
    }

    pub closed spec fn spec_capacity(&self) -> usize {
        self.capacity
    }

    /// An empty channel with the given capacity.
    pub fn new(capacity: usize) -> (c: Channel<T>)
        ensures
            c@ == Seq::<T>::empty(),
            c.spec_capacity() == capacity,
            c.wf(),
    {
        Channel { items: Vec::new(), capacity }
    }

    /// The bound the channel was created with.
    pub fn capacity(&self) -> (r: usize)
        ensures
            r == self.spec_capacity(),
    {
        self.capacity
    }

    /// How many values are queued.
    pub fn len(&self) -> (r: usize)
        ensures
            r == self@.len(),
    {
        self.items.len()
    }

    /// Enqueue a value at the back. When the channel is full the value comes
    /// back unchanged in `Err` and the queue is untouched: the caller is
    /// expected to suspend and retry, never to drop the value.
    pub fn try_send(&mut self, value: T) -> (r: Result<(), T>)
        requires
            old(self).wf(),
        ensures
            final(self).wf(),
            final(self).spec_capacity() == old(self).spec_capacity(),
            if old(self)@.len() < old(self).spec_capacity() {
                r is Ok && final(self)@ == old(self)@.push(value)
            } else {
                (r matches Err(v) && v == value) && final(self)@ == old(self)@
            },
    {
        if self.items.len() < self.capacity {
            self.items.push(value);
            Ok(())
        } else {
            Err(value)
        }
    }

    /// Dequeue the oldest value, without suspending: `None` when the channel
    /// is empty.
    pub fn try_receive(&mut self) -> (r: Option<T>)
        requires
            old(self).wf(),
        ensures
            final(self).wf(),
            final(self).spec_capacity() == old(self).spec_capacity(),
            if old(self)@.len() == 0 {
                r is None && final(self)@ == old(self)@
            } else {
                (r matches Some(v) && v == old(self)@[0]) && final(self)@ == old(self)@.skip(1)
            },
    {
        if self.items.len() == 0 {
            None
        } else {
            let v = self.items.remove(0);
            proof {
                assert(self.items@ =~= old(self).items@.skip(1));
            }
            Some(v)
        }
    }
}

} // verus!
