//! The one structure shared by all collectors and the sink: a bounded
//! first-in-first-out channel of formatted records.
//!
//! Its capacity is fixed at creation and is never exceeded: a push against a
//! full channel is refused and hands the record back unchanged — the
//! producer suspends and retries rather than dropping it. Closing the
//! channel refuses all further pushes; what is already queued still drains.

use vstd::prelude::*;

verus! {

/// A bounded queue of records with a closed flag.
pub struct BoundedQueue {
    /// The queued records, oldest first.
    pub items: Vec<Vec<u8>>,
    /// The fixed capacity.
    pub capacity: usize,
    /// Whether producers are shut out.
    pub closed: bool,
}

impl BoundedQueue {
    /// The channel never holds more than its capacity.
    pub open spec fn wf(&self) -> bool {
        self.items@.len() <= self.capacity as int
    }

    /// An empty, open channel of the given capacity.
    pub fn new(capacity: usize) -> (r: BoundedQueue)
        ensures
            r.wf(),
            r.items@.len() == 0,
            r.capacity == capacity,
            !r.closed,
    {
        BoundedQueue { items: Vec::new(), capacity, closed: false }
    }

    /// How many records are queued.
    pub fn len(&self) -> (r: usize)
        ensures
            r == self.items@.len(),
    {
        self.items.len()
    }

    /// Offers one record. A full or closed channel refuses and hands the
    /// record back unchanged — nothing is ever dropped for capacity
    /// reasons, and the capacity is never exceeded. Otherwise the record is
    /// appended in order.
    pub fn try_push(&mut self, rec: Vec<u8>) -> (refused: Option<Vec<u8>>)
        requires
            old(self).wf(),
        ensures
            final(self).wf(),
            final(self).capacity == old(self).capacity,
            final(self).closed == old(self).closed,
            old(self).closed || old(self).items@.len() >= old(self).capacity as int ==> *final(self) == *old(self) && (refused matches Some(b) && b@ == rec@),
            !old(self).closed && old(self).items@.len() < old(self).capacity as int ==> refused
                is None && final(self).items@ == old(self).items@.push(rec),
    {
        if self.closed || self.items.len() >= self.capacity {
            Some(rec)
        } else {
            self.items.push(rec);
            None
        }
    }

    /// Takes the oldest record, if any: the consumer's end of the channel.
    pub fn pop(&mut self) -> (r: Option<Vec<u8>>)
        requires
            old(self).wf(),
        ensures
            final(self).wf(),
            final(self).capacity == old(self).capacity,
            final(self).closed == old(self).closed,
            old(self).items@.len() == 0 ==> r is None && *final(self) == *old(self),
            old(self).items@.len() > 0 ==> (r matches Some(b) && b == old(self).items@[0] && final(self).items@ == old(self).items@.skip(1)),
    {
        if self.items.len() == 0 {
            None
        } else {
            let b = self.items.remove(0);
            proof {
                assert(old(self).items@.remove(0) =~= old(self).items@.skip(1));
            }
            Some(b)
        }
    }

    /// Shuts producers out; queued records still drain.
    pub fn close(&mut self)
        ensures
            final(self).closed,
            final(self).items@ == old(self).items@,
            final(self).capacity == old(self).capacity,
    {
        self.closed = true;
    }
}

} // verus!
