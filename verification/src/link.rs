//! In-flight accounting of one virtual network link.
//!
//! The virtual TCP transport gives every link a byte budget: a message is
//! accepted onto the link only while the bytes already in flight leave room
//! for it, so at any tick the bytes in flight never exceed the configured
//! capacity. Messages leave the link in the order they entered.

use vstd::prelude::*;

verus! {

/// The sum of the message sizes in flight.
pub open spec fn bytes_in_flight(sizes: Seq<u64>) -> int
    decreases sizes.len(),
{
    if sizes.len() == 0 {
        0int
    } else {
        bytes_in_flight(sizes.drop_last()) + sizes.last()
    }
}

/// One direction of one link: its byte budget and the sizes of the messages
/// currently in flight, oldest first.
pub struct Link {
    capacity: u64,
    in_flight: Vec<u64>,
    total: u64,
}

impl Link {
    pub closed spec fn capacity(&self) -> u64 {
        self.capacity
    }

    pub closed spec fn in_flight(&self) -> Seq<u64> {
        self.in_flight@
    }

    /// The link's invariant: the running total is exactly the bytes in
    /// flight, and it never exceeds the capacity.
    pub closed spec fn wf(&self) -> bool {
        &&& self.total == bytes_in_flight(self.in_flight@)
        &&& self.total <= self.capacity
    }

    /// How the invariant reads from outside.
    pub proof fn lemma_wf(&self)
        requires
            self.wf(),
        ensures
            bytes_in_flight(self.in_flight()) <= self.capacity(),
    {
    }

    /// A fresh link with nothing in flight.
    pub fn new(capacity: u64) -> (r: Self)
        ensures
            r.wf(),
            r.capacity() == capacity,
            r.in_flight().len() == 0,
    {
        Link { capacity, in_flight: Vec::new(), total: 0 }
    }

    /// The bytes currently in flight.
    pub fn total_in_flight(&self) -> (r: u64)
        requires
            self.wf(),
        ensures
            r == bytes_in_flight(self.in_flight()),
    {
        self.total
    }

    /// Offer a message to the link: accepted — and counted against the
    /// budget — exactly when it still fits; refused untouched otherwise, to
    /// be offered again at a later tick.
    pub fn try_send(&mut self, size: u64) -> (accepted: bool)
        requires
            old(self).wf(),
        ensures
            final(self).wf(),
            final(self).capacity() == old(self).capacity(),
            accepted == (bytes_in_flight(old(self).in_flight()) + size
                <= old(self).capacity()),
            accepted ==> final(self).in_flight() == old(self).in_flight().push(size),
            !accepted ==> *final(self) == *old(self),
    {
        proof {
            lemma_bytes_in_flight_nonneg(self.in_flight@);
        }
        if size <= self.capacity - self.total {
            self.in_flight.push(size);
            self.total = self.total + size;
            proof {
                assert(self.in_flight@.drop_last() =~= old(self).in_flight@);
            }
            true
        } else {
            false
        }
    }

    /// Deliver the oldest message in flight, releasing its budget.
    pub fn deliver(&mut self) -> (r: Option<u64>)
        requires
            old(self).wf(),
        ensures
            final(self).wf(),
            final(self).capacity() == old(self).capacity(),
            old(self).in_flight().len() == 0 ==> r is None && *final(self) == *old(self),
            old(self).in_flight().len() > 0 ==> r == Some(old(self).in_flight()[0])
                && final(self).in_flight() == old(self).in_flight().skip(1),
    {
        if self.in_flight.len() == 0 {
            return None;
        }
        proof {
            lemma_bytes_in_flight_first(self.in_flight@);
        }
        let ghost pre = self.in_flight@;
        let first = self.in_flight.remove(0);
        self.total = self.total - first;
        proof {
            assert(pre.remove(0) =~= pre.skip(1));
            lemma_bytes_in_flight_skip(pre);
        }
        Some(first)
    }
}

/// Bytes in flight never count negative.
pub proof fn lemma_bytes_in_flight_nonneg(sizes: Seq<u64>)
    ensures
        bytes_in_flight(sizes) >= 0,
    decreases sizes.len(),
{
    if sizes.len() > 0 {
        lemma_bytes_in_flight_nonneg(sizes.drop_last());
    }
}

/// The first message's size is within the total.
proof fn lemma_bytes_in_flight_first(sizes: Seq<u64>)
    requires
        sizes.len() > 0,
    ensures
        bytes_in_flight(sizes) >= sizes[0],
    decreases sizes.len(),
{
    if sizes.len() == 1 {
        assert(sizes.drop_last().len() == 0);
        assert(bytes_in_flight(sizes.drop_last()) == 0);
        assert(sizes.last() == sizes[0]);
    } else {
        lemma_bytes_in_flight_first(sizes.drop_last());
        assert(sizes.drop_last()[0] == sizes[0]);
        assert(bytes_in_flight(sizes) == bytes_in_flight(sizes.drop_last()) + sizes.last());
    }
}

/// Delivering the first message releases exactly its size.
proof fn lemma_bytes_in_flight_skip(sizes: Seq<u64>)
    requires
        sizes.len() > 0,
    ensures
        bytes_in_flight(sizes.skip(1)) == bytes_in_flight(sizes) - sizes[0],
    decreases sizes.len(),
{
    if sizes.len() == 1 {
        assert(sizes.skip(1).len() == 0);
        assert(bytes_in_flight(sizes.skip(1)) == 0);
        assert(sizes.drop_last().len() == 0);
        assert(bytes_in_flight(sizes.drop_last()) == 0);
        assert(sizes.last() == sizes[0]);
    } else {
        lemma_bytes_in_flight_skip(sizes.drop_last());
        assert(sizes.skip(1).drop_last() =~= sizes.drop_last().skip(1));
        assert(sizes.drop_last()[0] == sizes[0]);
        assert(sizes.skip(1).last() == sizes.last());
        assert(bytes_in_flight(sizes.skip(1)) == bytes_in_flight(sizes.skip(1).drop_last())
            + sizes.skip(1).last());
        assert(bytes_in_flight(sizes) == bytes_in_flight(sizes.drop_last()) + sizes.last());
    }
}

/// Bounded in-flight data: whatever a run does to a well-formed link — any
/// mix of accepted sends and deliveries — the bytes in flight never exceed
/// its capacity at any tick.
pub proof fn lemma_link_bounded(link: Link)
    requires
        link.wf(),
    ensures
        bytes_in_flight(link.in_flight()) <= link.capacity(),
{
    link.lemma_wf();
}

} // verus!
