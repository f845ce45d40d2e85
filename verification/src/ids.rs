//! Request-id allocator: a persisted, strictly increasing counter that issues
//! unique correlation ids for dispatched sub-operations.

use vstd::prelude::*;

verus! {

/// The persisted request-id counter.  A value of 0 means no id has been
/// issued yet; the first issued id is 1.  Ids strictly increase and are never
/// reused within the contract's lifetime.
pub struct RequestIdCounter {
    pub value: u64,
}

impl RequestIdCounter {
    /// A fresh counter that has issued no ids yet.
    pub fn new() -> (c: RequestIdCounter)
        ensures
            c.value == 0,
    {
        RequestIdCounter { value: 0 }
    }

    /// Issues the next request id: one more than every id issued so far.
    pub fn next_id(&mut self) -> (id: u64)
        requires
            old(self).value < u64::MAX,
        ensures
            id == old(self).value + 1,
            final(self).value == id,
    {
        self.value = self.value + 1;
        self.value
    }
}

/// The ids issued by `n` consecutive `next_id` calls on a counter whose value
/// starts at `start`: by `next_id`'s contract the k-th call returns
/// `start + k + 1` and leaves the counter at that value.
pub open spec fn issued_ids(start: u64, n: nat) -> Seq<int> {
    Seq::new(n, |k: int| start + k + 1)
}

/// Allocator uniqueness: the ids returned by any number of consecutive
/// `next_id` calls are strictly increasing, and therefore pairwise distinct.
pub proof fn lemma_issued_ids_strictly_increase(start: u64, n: nat)
    ensures
        forall|i: int, j: int|
            0 <= i < j < n ==> #[trigger] issued_ids(start, n)[i] < #[trigger] issued_ids(start, n)[j],
{
}

} // verus!
