//! Process-wide allocation of instance identities.
//!
//! Each logical server instance created within one process lifetime receives
//! an identity from a single allocator; identities start at 0 and are
//! strictly increasing, so no two instances ever share one.

use vstd::prelude::*;

verus! {

/// The process-wide instance-identity allocator.
///
/// One allocator exists per process (the embedding program keeps it behind
/// its own synchronisation); identities are assigned before an instance's
/// workers start and are immutable afterwards.
pub struct InstanceIdAllocator {
    next: usize,
}

impl View for InstanceIdAllocator {
    type V = int;

    closed spec fn view(&self) -> int {
        self.next as int
    }
}

impl InstanceIdAllocator {
    /// A fresh allocator; the first identity it hands out is 0.
    pub fn new() -> (a: Self)
        ensures
            a@ == 0,
    {
        InstanceIdAllocator { next: 0 }
    }

    /// The identity the next call will hand out.
    pub fn peek_next(&self) -> (v: usize)
        ensures
            v == self@,
    {
        self.next
    }

    /// Hands out the next instance identity. Successive calls return a
    /// strictly increasing sequence of integers starting at 0.
    pub fn next_instance_id(&mut self) -> (id: usize)
        requires
            old(self)@ < usize::MAX,
        ensures
            id == old(self)@,
            final(self)@ == old(self)@ + 1,
    {
        let id = self.next;
        self.next = self.next + 1;
        id
    }
}

/// The identities a fresh allocator hands out over its first `n` calls:
/// the `i`-th call returns exactly `i`.
pub open spec fn ids_issued(n: nat) -> Seq<int> {
    Seq::new(n, |i: int| i)
}

/// Instance identities are distinct and strictly increasing: over any run of
/// `n` allocations from a fresh allocator, the `i`-th identity is `i`, so an
/// earlier instance always has a strictly smaller identity than a later one.
pub proof fn lemma_instance_ids_strictly_increasing(n: nat)
    ensures
        ids_issued(n).len() == n,
        forall|i: int| 0 <= i < n ==> #[trigger] ids_issued(n)[i] == i,
        forall|i: int, j: int| 0 <= i < j < n ==> ids_issued(n)[i] < ids_issued(n)[j],
{
}

} // verus!
