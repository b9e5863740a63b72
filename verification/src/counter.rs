//! The identifier allocator: a counter that only grows, so that no identifier is
//! issued twice.
//!
//! The counter is a plain number. Whoever owns it keeps it durable: the count is
//! handed in when the counter is made and can be read back after every change.

use vstd::prelude::*;

verus! {

/// The identifier that the first item of a menu gets, where nothing was stored
/// before.
pub const FIRST_ID: u64 = 0;

/// The next identifier to issue.
#[derive(Debug)]
pub struct IdCounter {
    next: u64,
}

impl IdCounter {
    /// The identifier that the next [`IdCounter::next_id`] returns.
    pub closed spec fn value(&self) -> u64 {
        self.next
    }

    /// A counter that issues `next` first: [`FIRST_ID`] on first use, and the
    /// count that was kept where identifiers were issued before.
    pub fn new(next: u64) -> (counter: IdCounter)
        ensures
            counter.value() == next,
    {
        IdCounter { next }
    }

    /// The identifier that would be issued next, without issuing it.
    pub fn peek(&self) -> (v: u64)
        ensures
            v == self.value(),
    {
        self.next
    }

    /// Whether the counter has run out: the last identifier that fits has been
    /// reached and nothing more can be issued.
    pub fn is_exhausted(&self) -> (r: bool)
        ensures
            r == (self.value() == u64::MAX),
    {
        self.next == u64::MAX
    }

    /// Issues an identifier: returns the current count and moves the counter one
    /// on, in one step. Every identifier issued is above all that were issued
    /// before.
    ///
    /// The counter must not be exhausted; see [`IdCounter::is_exhausted`].
    pub fn next_id(&mut self) -> (id: u64)
        requires
            old(self).value() < u64::MAX,
        ensures
            id == old(self).value(),
            final(self).value() == id + 1,
    {
        let id: u64 = self.next;
        self.next = id + 1;
        id
    }
}

} // verus!
