//! Bounded byte-buffer queues of the transport.
//!
//! The outbound queue preserves insertion order and rejects new buffers when
//! full. The inbound queue also preserves order but evicts the *oldest*
//! buffer on overflow, so a slow consumer sees a contiguous suffix of what
//! arrived: bounded staleness rather than loss of the newest data.

use vstd::prelude::*;

verus! {

/// One enqueue step with drop-oldest overflow.
pub open spec fn evict_push<T>(q: Seq<T>, v: T, cap: nat) -> Seq<T> {
    if q.len() < cap {
        q.push(v)
    } else {
        q.drop_first().push(v)
    }
}

/// The queue contents after every buffer of `arrivals` has been enqueued.
pub open spec fn evict_push_all<T>(q: Seq<T>, arrivals: Seq<T>, cap: nat) -> Seq<T>
    decreases arrivals.len(),
{
    if arrivals.len() == 0 {
        q
    } else {
        evict_push_all(evict_push(q, arrivals.first(), cap), arrivals.drop_first(), cap)
    }
}

/// Drop-oldest eviction keeps a contiguous suffix: after any run of
/// arrivals the queue holds the last `cap` entries of the combined history
/// (all of it, when it fits), so the bound is never exceeded and only the
/// oldest buffers are lost.
pub proof fn lemma_evict_push_all_suffix<T>(q: Seq<T>, arrivals: Seq<T>, cap: nat)
    requires
        q.len() <= cap,
        1 <= cap,
    ensures
        evict_push_all(q, arrivals, cap) == if q.len() + arrivals.len() <= cap {
            q + arrivals
        } else {
            (q + arrivals).skip(q.len() + arrivals.len() - cap)
        },
        evict_push_all(q, arrivals, cap).len() <= cap,
    decreases arrivals.len(),
{
    if arrivals.len() == 0 {
        assert(q + arrivals =~= q);
    } else {
        let q1 = evict_push(q, arrivals.first(), cap);
        lemma_evict_push_all_suffix(q1, arrivals.drop_first(), cap);
        if q.len() < cap {
            assert(q1 + arrivals.drop_first() =~= q + arrivals);
        } else {
            assert(q1 + arrivals.drop_first() =~= (q + arrivals).skip(1));
            if q1.len() + arrivals.drop_first().len() > cap {
                assert((q + arrivals).skip(1).skip(
                    q1.len() + arrivals.drop_first().len() - cap,
                ) =~= (q + arrivals).skip(q.len() + arrivals.len() - cap));
            }
        }
    }
}

/// Received buffers awaiting a consumer; oldest first, oldest evicted on
/// overflow.
pub struct InboundQueue {
    items: Vec<Vec<u8>>,
    capacity: usize,
}

impl InboundQueue {
    /// The queued buffers, oldest first.
    pub closed spec fn view(&self) -> Seq<Vec<u8>> {
        self.items@
    }

    pub closed spec fn spec_capacity(&self) -> nat {
        self.capacity as nat
    }

    pub closed spec fn well_formed(&self) -> bool {
        1 <= self.capacity && self.items@.len() <= self.capacity
    }

    pub fn new(capacity: usize) -> (r: InboundQueue)
        requires
            1 <= capacity,
        ensures
            r.well_formed(),
            r@ == Seq::<Vec<u8>>::empty(),
            r.spec_capacity() == capacity,
    {
        InboundQueue { items: Vec::new(), capacity }
    }

    /// Enqueues a received buffer, discarding the oldest one when full.
    pub fn push_evict(&mut self, buf: Vec<u8>)
        requires
            old(self).well_formed(),
        ensures
            final(self).well_formed(),
            final(self).spec_capacity() == old(self).spec_capacity(),
            final(self)@ == evict_push(old(self)@, buf, old(self).spec_capacity()),
    {
        if self.items.len() >= self.capacity {
            let _oldest = self.items.remove(0);
        }
        self.items.push(buf);
    }

    /// Dequeues the oldest buffer, if any.
    pub fn pop_oldest(&mut self) -> (r: Option<Vec<u8>>)
        requires
            old(self).well_formed(),
        ensures
            final(self).well_formed(),
            final(self).spec_capacity() == old(self).spec_capacity(),
            match r {
                Some(buf) => old(self)@.len() > 0 && buf == old(self)@.first() && final(self)@
                    == old(self)@.drop_first(),
                None => old(self)@.len() == 0 && final(self)@ == old(self)@,
            },
    {
        if self.items.len() == 0 {
            None
        } else {
            Some(self.items.remove(0))
        }
    }

    pub fn len(&self) -> (r: usize)
        ensures
            r == self@.len(),
    {
        self.items.len()
    }
}

/// Buffers awaiting transmission; insertion order is transmission order,
/// and a buffer offered to a full queue is refused rather than queued.
pub struct OutboundQueue {
    items: Vec<Vec<u8>>,
    capacity: usize,
}

impl OutboundQueue {
    /// The queued buffers, next-to-transmit first.
    pub closed spec fn view(&self) -> Seq<Vec<u8>> {
        self.items@
    }

    pub closed spec fn spec_capacity(&self) -> nat {
        self.capacity as nat
    }

    pub closed spec fn well_formed(&self) -> bool {
        1 <= self.capacity && self.items@.len() <= self.capacity
    }

    pub fn new(capacity: usize) -> (r: OutboundQueue)
        requires
            1 <= capacity,
        ensures
            r.well_formed(),
            r@ == Seq::<Vec<u8>>::empty(),
            r.spec_capacity() == capacity,
    {
        OutboundQueue { items: Vec::new(), capacity }
    }

    /// Offers a buffer for transmission. Returns whether it was accepted;
    /// a full queue leaves the contents unchanged.
    pub fn try_push(&mut self, buf: Vec<u8>) -> (accepted: bool)
        requires
            old(self).well_formed(),
        ensures
            final(self).well_formed(),
            final(self).spec_capacity() == old(self).spec_capacity(),
            accepted == (old(self)@.len() < old(self).spec_capacity()),
            accepted ==> final(self)@ == old(self)@.push(buf),
            !accepted ==> final(self)@ == old(self)@,
    {
        if self.items.len() < self.capacity {
            self.items.push(buf);
            true
        } else {
            false
        }
    }

    /// Takes the next buffer to transmit, if any.
    pub fn pop_next(&mut self) -> (r: Option<Vec<u8>>)
        requires
            old(self).well_formed(),
        ensures
            final(self).well_formed(),
            final(self).spec_capacity() == old(self).spec_capacity(),
            match r {
                Some(buf) => old(self)@.len() > 0 && buf == old(self)@.first() && final(self)@
                    == old(self)@.drop_first(),
                None => old(self)@.len() == 0 && final(self)@ == old(self)@,
            },
    {
        if self.items.len() == 0 {
            None
        } else {
            Some(self.items.remove(0))
        }
    }

    pub fn len(&self) -> (r: usize)
        ensures
            r == self@.len(),
    {
        self.items.len()
    }
}

} // verus!
