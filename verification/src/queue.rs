//! The bounded dispatch queue: a FIFO of unified contexts with a fixed
//! capacity. Producers are the ingestion front-ends, consumers the workers.
//! An enqueue on a full queue does not go through — the producer keeps the
//! context and retries once a consumer has freed a slot; that refusal is the
//! pipeline's only flow control. Within one producer the queue preserves
//! enqueue order; dequeues hand contexts out strictly front first.

use vstd::prelude::*;
use vstd::seq_lib::lemma_multiset_commutative;

use crate::context::UnifyedContext;

verus! {

/// A bounded multi-producer multi-consumer FIFO of unified contexts.
pub struct DispatchQueue {
    items: Vec<UnifyedContext>,
    capacity: usize,
}

impl View for DispatchQueue {
    type V = Seq<UnifyedContext>;

    /// The queued contexts, front first.
    closed spec fn view(&self) -> Seq<UnifyedContext> {
        self.items@
    }
}

impl DispatchQueue {
    /// The fixed capacity the queue was created with.
    pub closed spec fn cap(self) -> nat {
        self.capacity as nat
    }

    /// The queue never holds more than its capacity.
    pub open spec fn wf(self) -> bool {
        self@.len() <= self.cap()
    }

    /// Creates an empty queue with the given fixed capacity.
    pub fn new(capacity: usize) -> (q: Self)
        requires
            capacity > 0,
        ensures
            q@ =~= Seq::<UnifyedContext>::empty(),
            q.cap() == capacity,
            q.wf(),
    {
        DispatchQueue { items: Vec::new(), capacity }
    }

    /// How many contexts are queued.
    pub fn len(&self) -> (n: usize)
        ensures
            n == self@.len(),
    {
        self.items.len()
    }

    /// Whether the queue is full; a producer that wants to enqueue now must
    /// wait for a consumer.
    pub fn is_full(&self) -> (b: bool)
        ensures
            b == (self@.len() == self.cap()),
    {
        self.items.len() == self.capacity
    }

    /// Attempts to enqueue one context at the back. On a full queue nothing
    /// is accepted and the queue is unchanged: the attempt does not take
    /// effect until a consumer has freed a slot. Otherwise the context is
    /// appended — it now appears in the queue exactly once more than before.
    pub fn try_enqueue(&mut self, ctx: UnifyedContext) -> (accepted: bool)
        requires
            old(self).wf(),
        ensures
            final(self).wf(),
            final(self).cap() == old(self).cap(),
            accepted == (old(self)@.len() < old(self).cap()),
            accepted ==> final(self)@ == old(self)@.push(ctx),
            !accepted ==> final(self)@ == old(self)@,
    {
        if self.items.len() < self.capacity {
            self.items.push(ctx);
            true
        } else {
            false
        }
    }

    /// Removes and returns the front context; nothing on an empty queue.
    pub fn dequeue(&mut self) -> (front: Option<UnifyedContext>)
        requires
            old(self).wf(),
        ensures
            final(self).wf(),
            final(self).cap() == old(self).cap(),
            old(self)@.len() == 0 ==> front is None && final(self)@ == old(self)@,
            old(self)@.len() > 0 ==> {
                &&& front matches Some(c) && c == old(self)@[0]
                &&& final(self)@ == old(self)@.drop_first()
            },
    {
        if self.items.len() == 0 {
            None
        } else {
            let front = self.items.remove(0);
            proof {
                assert(self.items@ =~= old(self)@.drop_first());
            }
            Some(front)
        }
    }

    /// Enqueues a batch front to back until the queue fills up, and reports
    /// how many were accepted: the queue grows by exactly the accepted
    /// prefix, in order, and the producer keeps the rest of the batch for
    /// when a slot frees up.
    #[verifier::loop_isolation(false)]
    pub fn enqueue_batch(&mut self, batch: &mut Vec<UnifyedContext>) -> (accepted: usize)
        requires
            old(self).wf(),
        ensures
            final(self).wf(),
            final(self).cap() == old(self).cap(),
            accepted <= old(batch)@.len(),
            final(self)@ == old(self)@ + old(batch)@.take(accepted as int),
            final(batch)@ == old(batch)@.skip(accepted as int),
            accepted == vstd::math::min(
                old(batch)@.len() as int,
                old(self).cap() - old(self)@.len(),
            ),
    {
        let ghost batch0 = batch@;
        let total = batch.len();
        let mut i: usize = 0;
        proof {
            assert(self@ =~= self@ + batch0.take(0));
        }
        while i < total
            invariant
                i <= total,
                total == batch0.len(),
                i + batch@.len() == batch0.len(),
                batch@ =~= batch0.skip(i as int),
                self.wf(),
                self.cap() == old(self).cap(),
                self@ == old(self)@ + batch0.take(i as int),
            decreases total - i,
        {
            if self.is_full() {
                return i;
            }
            let ctx = batch.remove(0);
            proof {
                assert(batch@ =~= batch0.skip(i + 1));
            }
            let accepted_one = self.try_enqueue(ctx);
            proof {
                assert(accepted_one);
                assert(old(self)@ + batch0.take(i + 1) =~= (old(self)@ + batch0.take(
                    i as int,
                )).push(batch0[i as int]));
            }
            i += 1;
        }
        i
    }
}

/// Appending a batch to the queue's contents makes each context of the batch
/// appear exactly once more: the count of every context after the append is
/// its count before plus its count in the batch.
pub proof fn lemma_batch_exactly_once(
    pre: Seq<UnifyedContext>,
    batch: Seq<UnifyedContext>,
    post: Seq<UnifyedContext>,
)
    requires
        post == pre + batch,
    ensures
        forall|c: UnifyedContext|
            post.to_multiset().count(c) == pre.to_multiset().count(c)
                + batch.to_multiset().count(c),
{
    lemma_multiset_commutative(pre, batch);
    assert forall|c: UnifyedContext|
        post.to_multiset().count(c) == pre.to_multiset().count(c)
            + batch.to_multiset().count(c) by {
        assert(post.to_multiset() == pre.to_multiset().add(batch.to_multiset()));
    }
}

} // verus!
