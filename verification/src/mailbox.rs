//! Per-light mailbox: a single-slot, overwrite-on-publish cell between one
//! writer (the command interpreter) and one reader (the light's render loop).
//!
//! The cell holds at most one pending value. A publish overwrites whatever is
//! pending, so a reader that is slower than the writer observes only the most
//! recently published value (at-most-one-pending, not at-least-once
//! delivery). Waking the reader when a value arrives is the scheduler's job;
//! this type carries the value and the latest-wins semantics.

use vstd::prelude::*;

verus! {

/// The mailbox contents after a publish: always exactly the published value,
/// whatever was pending before.
pub open spec fn spec_publish<T>(pending: Option<T>, value: T) -> Option<T> {
    Some(value)
}

/// Single-slot, overwrite-on-publish cell.
#[derive(Clone, Copy, Debug, PartialEq, Eq)]
pub struct Mailbox<T> {
    pub pending: Option<T>,
}

impl<T> View for Mailbox<T> {
    type V = Option<T>;

    open spec fn view(&self) -> Option<T> {
        self.pending
    }
}

impl<T> Mailbox<T> {
    /// A fresh mailbox with nothing pending.
    pub fn new() -> (m: Mailbox<T>)
        ensures
            m@ is None,
    {
        Mailbox { pending: None }
    }

    /// Whether a published value is waiting to be consumed.
    pub fn is_pending(&self) -> (r: bool)
        ensures
            r == self@ is Some,
    {
        self.pending.is_some()
    }

    /// Publish a value, overwriting any pending unread value.
    pub fn publish(&mut self, value: T)
        ensures
            final(self)@ == spec_publish(old(self)@, value),
    {
        self.pending = Some(value);
    }

    /// Consume the pending value, if any, leaving the mailbox empty. This is
    /// what the reader does on wake; it never suspends.
    pub fn take(&mut self) -> (r: Option<T>)
        ensures
            r == old(self)@,
            final(self)@ is None,
    {
        self.pending.take()
    }
}

/// Latest-wins law: however many values are published before the reader
/// wakes, consuming the mailbox observes only the most recent one. Stated for
/// two rapid publishes into a cell with arbitrary prior contents.
pub proof fn lemma_latest_wins<T>(pending: Option<T>, first: T, second: T)
    ensures
        spec_publish(spec_publish(pending, first), second) == Some(second),
{
}

} // verus!
