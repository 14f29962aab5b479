//! Identifiers that tell streams apart in the event log.

use vstd::prelude::*;

verus! {

/// Hands out stream identifiers: 1 first, then each time one more.
///
/// Incoming unidirectional streams and locally opened bidirectional streams
/// draw from the same allocator. An allocation is a single `&mut` call, so no
/// two requests can observe the same value.
#[derive(Debug)]
pub struct StreamIdAllocator {
    next: u32,
}

impl StreamIdAllocator {
    #[verifier::type_invariant]
    spec fn starts_at_one(self) -> bool {
        self.next >= 1
    }

    /// The identifier that the next allocation hands out.
    pub closed spec fn next_id(&self) -> u32 {
        self.next
    }

    /// The identifiers handed out so far.
    pub open spec fn issued(&self) -> Set<u32> {
        Set::new(|id: u32| 1 <= id < self.next_id())
    }

    /// No identifier is left that is greater than all those handed out.
    pub open spec fn exhausted(&self) -> bool {
        self.next_id() == u32::MAX
    }

    /// One allocation: `pre` hands out `id` and becomes `post`.
    pub open spec fn allocates(pre: Self, id: u32, post: Self) -> bool {
        &&& !pre.exhausted()
        &&& id == pre.next_id()
        &&& post.next_id() == id + 1
    }

    /// An allocator that has handed out nothing.
    pub fn new() -> (ids: Self)
        ensures
            ids.next_id() == 1,
            ids.issued() == Set::<u32>::empty(),
    {
        let ids = StreamIdAllocator { next: 1 };
        assert(ids.issued() =~= Set::<u32>::empty());
        ids
    }

    /// Whether `allocate` may be called.
    pub fn can_allocate(&self) -> (ready: bool)
        ensures
            ready == !self.exhausted(),
    {
        self.next < u32::MAX
    }

    /// The identifier the next allocation would hand out.
    pub fn peek(&self) -> (id: u32)
        ensures
            id == self.next_id(),
            id >= 1,
    {
        proof {
            use_type_invariant(self);
        }
        self.next
    }

    /// Hands out the next identifier. It is at least 1, was never handed out
    /// before and is greater than every identifier handed out before.
    pub fn allocate(&mut self) -> (id: u32)
        requires
            !old(self).exhausted(),
        ensures
            Self::allocates(*old(self), id, *final(self)),
            id >= 1,
            !old(self).issued().contains(id),
            forall|earlier: u32| old(self).issued().contains(earlier) ==> earlier < id,
            final(self).issued() == old(self).issued().insert(id),
    {
        proof {
            use_type_invariant(&*self);
        }
        let id: u32 = self.next;
        self.next = id + 1;
        assert(self.issued() =~= old(self).issued().insert(id));
        id
    }
}

/// A run of allocations that starts with a fresh allocator: `states[k]` hands
/// out `ids[k]` and becomes `states[k + 1]`.
pub open spec fn allocation_run(states: Seq<StreamIdAllocator>, ids: Seq<u32>) -> bool {
    &&& states.len() == ids.len() + 1
    &&& states[0].next_id() == 1
    &&& forall|k: int|
        0 <= k < ids.len() ==> StreamIdAllocator::allocates(
            #[trigger] states[k],
            ids[k],
            states[k + 1],
        )
}

/// However the requests of the stream acceptor and of bidirectional sends are
/// interleaved, they reach the allocator one after another, and the n-th of
/// them gets n: the identifiers of a run of n allocations are 1, 2, ..., n in
/// this order, so no two are equal and together they are exactly the set
/// {1, ..., n}.
pub proof fn lemma_allocations_are_dense(states: Seq<StreamIdAllocator>, ids: Seq<u32>)
    requires
        allocation_run(states, ids),
    ensures
        forall|k: int| 0 <= k < ids.len() ==> ids[k] == k + 1,
        forall|j: int, k: int| 0 <= j < k < ids.len() ==> ids[j] < ids[k],
        ids.no_duplicates(),
        ids.to_set() == Set::new(|id: u32| 1 <= id <= ids.len()),
{
    lemma_run_prefix(states, ids, ids.len() as int);
    assert forall|k: int| 0 <= k < ids.len() implies ids[k] == k + 1 by {
        lemma_run_prefix(states, ids, k);
    }
    assert(ids.to_set() =~= Set::new(|id: u32| 1 <= id <= ids.len())) by {
        assert forall|id: u32| 1 <= id <= ids.len() implies ids.to_set().contains(id) by {
            assert(ids[id - 1] == id);
        }
    }
}

proof fn lemma_run_prefix(states: Seq<StreamIdAllocator>, ids: Seq<u32>, k: int)
    requires
        allocation_run(states, ids),
        0 <= k <= ids.len(),
    ensures
        states[k].next_id() == k + 1,
    decreases k,
{
    if k > 0 {
        lemma_run_prefix(states, ids, k - 1);
        assert(StreamIdAllocator::allocates(states[k - 1], ids[k - 1], states[k - 1 + 1]));
    }
}

} // verus!
