use vstd::prelude::*;

use crate::event::Event;

verus! {

/// The in-memory staging area for events that are not yet durably written.
///
/// The buffer is a bounded FIFO queue: `push` appends at the tail, `drain`
/// removes from the head in arrival order.  Its overflow policy is *reject*:
/// a push against a full buffer hands the event back to the caller instead of
/// dropping it.
pub struct IngestBuffer {
    items: Vec<Event>,
    capacity: usize,
}

impl View for IngestBuffer {
    type V = Seq<Event>;

    /// The pending events, head first, in arrival order.
    closed spec fn view(&self) -> Seq<Event> {
        self.items@
    }
}

impl IngestBuffer {
    /// The hard ceiling on the number of staged events.
    pub closed spec fn cap(self) -> nat {
        self.capacity as nat
    }

    /// The buffer never holds more than its capacity, and a capacity of zero
    /// would make every push fail, so construction rules it out.
    pub open spec fn wf(self) -> bool {
        &&& self.cap() >= 1
        &&& self@.len() <= self.cap()
    }

    /// An empty buffer with the given ceiling.
    pub fn new(capacity: usize) -> (r: IngestBuffer)
        requires
            capacity >= 1,
        ensures
            r.wf(),
            r.cap() == capacity,
            r@ == Seq::<Event>::empty(),
    {
        IngestBuffer { items: Vec::new(), capacity }
    }

    /// The configured ceiling.
    pub fn capacity(&self) -> (r: usize)
        ensures
            r == self.cap(),
    {
        self.capacity
    }

    /// The current pending count, for observability and flush decisions.
    pub fn len(&self) -> (r: usize)
        ensures
            r == self@.len(),
    {
        self.items.len()
    }

    /// Appends one event at the tail.  Below capacity the event is staged and
    /// the result says whether the buffer has now reached its ceiling (the
    /// threshold flush trigger); at capacity the event is handed back
    /// unchanged, so an overflow is signalled and nothing is ever silently
    /// dropped.
    pub fn push(&mut self, e: Event) -> (r: Result<bool, Event>)
        requires
            old(self).wf(),
        ensures
            final(self).wf(),
            final(self).cap() == old(self).cap(),
            old(self)@.len() < old(self).cap() ==> {
                &&& final(self)@ == old(self)@.push(e)
                &&& (r matches Ok(at_cap) && (at_cap <==> final(self)@.len() >= final(self).cap()))
            },
            old(self)@.len() >= old(self).cap() ==> {
                &&& final(self)@ == old(self)@
                &&& r == Result::<bool, Event>::Err(e)
            },
    {
        if self.items.len() < self.capacity {
            self.items.push(e);
            Ok(self.items.len() >= self.capacity)
        } else {
            Err(e)
        }
    }

    /// Atomically removes up to `max_count` events from the head, preserving
    /// arrival order: the result is exactly the removed prefix and the buffer
    /// keeps exactly the remaining suffix.
    pub fn drain(&mut self, max_count: usize) -> (r: Vec<Event>)
        requires
            old(self).wf(),
        ensures
            final(self).wf(),
            final(self).cap() == old(self).cap(),
            r@.len() == vstd::math::min(max_count as int, old(self)@.len() as int),
            r@ == old(self)@.take(r@.len() as int),
            final(self)@ == old(self)@.skip(r@.len() as int),
    {
        let k: usize = if max_count < self.items.len() {
            max_count
        } else {
            self.items.len()
        };
        let ghost orig = self.items@;
        let mut out: Vec<Event> = Vec::new();
        let mut i: usize = 0;
        while i < k
            invariant
                i <= k,
                k <= orig.len(),
                out@ == orig.take(i as int),
                self.items@ == orig.skip(i as int),
                self.capacity == old(self).capacity,
            decreases k - i,
        {
            let e = self.items.remove(0);
            proof {
                assert(orig.skip(i as int)[0] == orig[i as int]);
                assert(orig.skip(i as int).remove(0) =~= orig.skip(i as int + 1));
                assert(orig.take(i as int).push(orig[i as int]) =~= orig.take(i as int + 1));
            }
            out.push(e);
            i = i + 1;
        }
        proof {
            assert(self.items@ =~= orig.skip(k as int));
        }
        out
    }
}

/// A requested drain count clamped to what the buffer still holds, exactly as
/// `drain` clamps it.
pub open spec fn clamp_count(c: int, len: int) -> int {
    if c < 0 {
        0
    } else if c > len {
        len
    } else {
        c
    }
}

/// The events drained by a sequence of `drain` calls with the given batch
/// sizes, concatenated in the order the calls were made.
pub open spec fn drained_concat(s: Seq<Event>, counts: Seq<int>) -> Seq<Event>
    decreases counts.len(),
{
    if counts.len() == 0 {
        Seq::empty()
    } else {
        let k = clamp_count(counts[0], s.len() as int);
        s.take(k) + drained_concat(s.skip(k), counts.drop_first())
    }
}

/// What the buffer still holds after that same sequence of `drain` calls.
pub open spec fn drained_rest(s: Seq<Event>, counts: Seq<int>) -> Seq<Event>
    decreases counts.len(),
{
    if counts.len() == 0 {
        s
    } else {
        let k = clamp_count(counts[0], s.len() as int);
        drained_rest(s.skip(k), counts.drop_first())
    }
}

/// FIFO law: for any buffer contents and any sequence of `drain` calls, the
/// concatenation of the drained batches followed by what is left in the
/// buffer is exactly the original arrival order.  In particular, once the
/// drains cover everything, the batches reassemble the push order.
pub proof fn lemma_fifo_reassembly(s: Seq<Event>, counts: Seq<int>)
    ensures
        drained_concat(s, counts) + drained_rest(s, counts) == s,
    decreases counts.len(),
{
    if counts.len() == 0 {
        assert(drained_concat(s, counts) + drained_rest(s, counts) =~= s);
    } else {
        let k = clamp_count(counts[0], s.len() as int);
        let rest = counts.drop_first();
        lemma_fifo_reassembly(s.skip(k), rest);
        assert(drained_concat(s, counts) + drained_rest(s, counts) =~= s.take(k) + (
        drained_concat(s.skip(k), rest) + drained_rest(s.skip(k), rest)));
        assert(s.take(k) + s.skip(k) =~= s);
    }
}

} // verus!
