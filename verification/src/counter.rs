//! The per-instance request counter.
//!
//! Every handled request increments the counter by exactly one and reports
//! the post-increment value, so that the values handed out over a run are
//! the consecutive integers starting at 1.

use vstd::prelude::*;

verus! {

/// A per-instance request counter, initialised to 0 at instance startup.
///
/// All workers of one instance must share a single `RequestCounter` (behind
/// the same exclusive lock as the rest of the instance state), so the
/// reported count reflects total instance traffic.
pub struct RequestCounter {
    count: usize,
}

impl View for RequestCounter {
    type V = int;

    closed spec fn view(&self) -> int {
        self.count as int
    }
}

impl RequestCounter {
    /// A fresh counter, starting at 0.
    pub fn new() -> (c: Self)
        ensures
            c@ == 0,
    {
        RequestCounter { count: 0 }
    }

    /// The current value, i.e. the number of requests handled so far.
    pub fn current(&self) -> (v: usize)
        ensures
            v == self@,
    {
        self.count
    }

    /// Increments the counter by exactly one and returns the post-increment
    /// value. No value is ever skipped and no value is handed out twice.
    pub fn increment_and_get(&mut self) -> (v: usize)
        requires
            old(self)@ < usize::MAX,
        ensures
            v == old(self)@ + 1,
            final(self)@ == old(self)@ + 1,
    {
        self.count = self.count + 1;
        self.count
    }
}

} // verus!
