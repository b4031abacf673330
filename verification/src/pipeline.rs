use vstd::prelude::*;

use crate::buffer::IngestBuffer;
use crate::event::Event;
use crate::storage::{records_match_rows, row_matches_event, rows_match_events, PersistedRecord, Row, StorageError, Store};
use crate::writer::{FlushOutcome, StorageWriter};

verus! {

/// How one `push` ended.
pub enum PushOutcome {
    /// The event was staged; the buffer is still below its threshold.
    Staged,
    /// The event was staged, the buffer thereby reached its capacity, and a
    /// flush ran before returning (the synchronous threshold trigger).
    Flushed(FlushOutcome),
    /// The buffer was already at capacity: the event is handed back to the
    /// caller, unchanged, as the overflow signal.
    Rejected(Event),
}

/// The texts a persisted row carries, with the storage-assigned id stripped.
pub open spec fn row_body(r: Row) -> (Seq<char>, Seq<char>, Seq<char>) {
    (r.1, r.2, r.3)
}

/// The texts an event carries.
pub open spec fn event_body(e: Event) -> (Seq<char>, Seq<char>, Seq<char>) {
    (e.timestamp@, e.bucket@, e.payload@)
}

/// The texts carried by a sequence of rows, in order.
pub open spec fn row_bodies(rows: Seq<Row>) -> Seq<(Seq<char>, Seq<char>, Seq<char>)> {
    rows.map_values(|r: Row| row_body(r))
}

/// The texts carried by a sequence of events, in order.
pub open spec fn event_bodies(events: Seq<Event>) -> Seq<(Seq<char>, Seq<char>, Seq<char>)> {
    events.map_values(|e: Event| event_body(e))
}

/// The buffered ingestion pipeline: a bounded FIFO staging buffer in front of
/// the batch writer.  Producers call `push`; the background task calls
/// `flush` on its interval; both triggers funnel into the same exclusive
/// drain-and-commit cycle, so no two of them can drain the same event twice.
pub struct Pipeline {
    buffer: IngestBuffer,
    writer: StorageWriter,
}

impl Pipeline {
    /// The staged events, head first, in arrival order.
    pub closed spec fn buffered(self) -> Seq<Event> {
        self.buffer@
    }

    /// The rows durably committed to the store.
    pub closed spec fn stored(self) -> Seq<Row> {
        self.writer.stored()
    }

    /// The dead-lettered events, oldest first.
    pub closed spec fn dead(self) -> Seq<Event> {
        self.writer.dead()
    }

    /// The configured buffer capacity, which is also the largest batch one
    /// flush drains.
    pub closed spec fn capacity(self) -> nat {
        self.buffer.cap()
    }

    /// Whether the store is still trusted to accept transactions.
    pub closed spec fn is_healthy(self) -> bool {
        self.writer.is_healthy()
    }

    /// The pipeline's invariant: both halves keep theirs.
    pub closed spec fn wf(self) -> bool {
        &&& self.buffer.wf()
        &&& self.writer.wf()
    }

    /// How many events the next flush would drain.
    pub open spec fn flush_count(self) -> int {
        vstd::math::min(self.buffered().len() as int, self.capacity() as int)
    }

    /// An empty pipeline over a ready store.
    pub fn new(store: Store, capacity: usize, max_attempts: usize) -> (r: Pipeline)
        requires
            store.wf(),
            store.ready(),
            capacity >= 1,
            max_attempts >= 1,
        ensures
            r.wf(),
            r.is_healthy(),
            r.capacity() == capacity,
            r.buffered() == Seq::<Event>::empty(),
            r.stored() == store.committed(),
            r.dead() == Seq::<Event>::empty(),
    {
        Pipeline {
            buffer: IngestBuffer::new(capacity),
            writer: StorageWriter::new(store, max_attempts),
        }
    }

    /// The current buffer depth, for the operator surface.
    pub fn depth(&self) -> (r: usize)
        ensures
            r == self.buffered().len(),
    {
        self.buffer.len()
    }

    /// Whether the store is still trusted to accept transactions.
    pub fn healthy(&self) -> (r: bool)
        ensures
            r == self.is_healthy(),
    {
        self.writer.healthy()
    }

    /// The number of dead-lettered events, for the operator surface.
    pub fn dead_letter_len(&self) -> (r: usize)
        ensures
            r == self.dead().len(),
    {
        self.writer.dead_letter_len()
    }

    /// Reads back every persisted record, in id (that is, insertion) order:
    /// the minimal read-side surface, over which the read queries project.
    pub fn read_all(&mut self) -> (r: Result<Vec<PersistedRecord>, StorageError>)
        requires
            old(self).wf(),
            old(self).is_healthy(),
        ensures
            final(self).wf(),
            final(self).capacity() == old(self).capacity(),
            final(self).buffered() == old(self).buffered(),
            final(self).stored() == old(self).stored(),
            final(self).dead() == old(self).dead(),
            final(self).is_healthy() == old(self).is_healthy(),
            r matches Ok(v) ==> records_match_rows(v@, final(self).stored()),
    {
        self.writer.read_all()
    }

    /// One drain-and-commit cycle: drains up to one capacity's worth of
    /// events from the head of the buffer and hands them to the writer as a
    /// single batch.  The drained prefix moves exactly once — either into the
    /// store or into the dead-letter queue — and the buffer keeps exactly the
    /// remaining suffix; `Nothing` happens exactly when the buffer was empty.
    pub fn flush(&mut self) -> (r: FlushOutcome)
        requires
            old(self).wf(),
        ensures
            final(self).wf(),
            final(self).capacity() == old(self).capacity(),
            final(self).is_healthy() ==> old(self).is_healthy(),
            r == FlushOutcome::Nothing <==> old(self).buffered().len() == 0,
            r == FlushOutcome::Nothing ==> {
                &&& final(self).buffered() == old(self).buffered()
                &&& final(self).stored() == old(self).stored()
                &&& final(self).dead() == old(self).dead()
            },
            r matches FlushOutcome::Committed(n) ==> {
                &&& n == old(self).flush_count()
                &&& final(self).buffered() == old(self).buffered().skip(n as int)
                &&& final(self).stored().len() == old(self).stored().len() + n
                &&& final(self).stored().take(old(self).stored().len() as int) == old(
                    self,
                ).stored()
                &&& rows_match_events(
                    final(self).stored().skip(old(self).stored().len() as int),
                    old(self).buffered().take(n as int),
                )
                &&& final(self).dead() == old(self).dead()
            },
            r matches FlushOutcome::DeadLettered(n) ==> {
                &&& n == old(self).flush_count()
                &&& final(self).buffered() == old(self).buffered().skip(n as int)
                &&& final(self).stored() == old(self).stored()
                &&& final(self).dead() == old(self).dead() + old(self).buffered().take(n as int)
            },
    {
        let cap = self.buffer.capacity();
        let batch = self.buffer.drain(cap);
        self.writer.commit(batch)
    }

    /// Stages one event at the tail of the buffer.  Below the threshold it
    /// returns at once; reaching the configured capacity triggers a flush
    /// before returning; a full buffer rejects the event and hands it back,
    /// so an overflow is always signalled, never a silent drop.
    pub fn push(&mut self, e: Event) -> (r: PushOutcome)
        requires
            old(self).wf(),
        ensures
            final(self).wf(),
            final(self).capacity() == old(self).capacity(),
            old(self).buffered().len() >= old(self).capacity() ==> {
                &&& (r matches PushOutcome::Rejected(back) && back == e)
                &&& final(self).buffered() == old(self).buffered()
                &&& final(self).stored() == old(self).stored()
                &&& final(self).dead() == old(self).dead()
            },
            old(self).buffered().len() + 1 < old(self).capacity() ==> {
                &&& r matches PushOutcome::Staged
                &&& final(self).buffered() == old(self).buffered().push(e)
                &&& final(self).stored() == old(self).stored()
                &&& final(self).dead() == old(self).dead()
            },
            old(self).buffered().len() + 1 == old(self).capacity() ==> {
                &&& (r matches PushOutcome::Flushed(f) && {
                    let staged = old(self).buffered().push(e);
                    &&& f != FlushOutcome::Nothing
                    &&& final(self).buffered() == Seq::<Event>::empty()
                    &&& (f matches FlushOutcome::Committed(n) ==> {
                        &&& n == staged.len()
                        &&& final(self).stored().len() == old(self).stored().len() + n
                        &&& final(self).stored().take(old(self).stored().len() as int) == old(
                            self,
                        ).stored()
                        &&& rows_match_events(
                            final(self).stored().skip(old(self).stored().len() as int),
                            staged,
                        )
                        &&& final(self).dead() == old(self).dead()
                    })
                    &&& (f matches FlushOutcome::DeadLettered(n) ==> {
                        &&& n == staged.len()
                        &&& final(self).stored() == old(self).stored()
                        &&& final(self).dead() == old(self).dead() + staged
                    })
                })
            },
    {
        match self.buffer.push(e) {
            Err(back) => PushOutcome::Rejected(back),
            Ok(at_capacity) => {
                if at_capacity {
                    proof {
                        assert(self.buffer@.len() == self.buffer.cap());
                    }
                    let ghost staged = self.buffer@;
                    let f = self.flush();
                    proof {
                        assert(staged.take(staged.len() as int) =~= staged);
                        assert(staged.skip(staged.len() as int) =~= Seq::<Event>::empty());
                    }
                    PushOutcome::Flushed(f)
                } else {
                    PushOutcome::Staged
                }
            },
        }
    }

    /// Durably deletes every persisted record, leaving the buffer and the
    /// dead-letter queue untouched; on failure nothing changes.
    pub fn clear_store(&mut self) -> (r: Result<(), StorageError>)
        requires
            old(self).wf(),
            old(self).is_healthy(),
        ensures
            final(self).wf(),
            final(self).capacity() == old(self).capacity(),
            final(self).buffered() == old(self).buffered(),
            final(self).dead() == old(self).dead(),
            final(self).is_healthy() == old(self).is_healthy(),
            r is Ok ==> final(self).stored() == Seq::<Row>::empty(),
            r is Err ==> final(self).stored() == old(self).stored(),
    {
        self.writer.clear_store()
    }
}

/// No-loss law, commit side: when a flush commits, the bodies of the rows in
/// storage followed by the events still buffered are, as one sequence,
/// exactly what they were before plus nothing — every drained event appears
/// in storage exactly once and every other event is still buffered.
pub proof fn lemma_commit_no_loss(
    stored_pre: Seq<Row>,
    stored_post: Seq<Row>,
    buffered_pre: Seq<Event>,
    k: int,
)
    requires
        0 <= k <= buffered_pre.len(),
        stored_post.len() == stored_pre.len() + k,
        stored_post.take(stored_pre.len() as int) == stored_pre,
        rows_match_events(stored_post.skip(stored_pre.len() as int), buffered_pre.take(k)),
    ensures
        row_bodies(stored_post) + event_bodies(buffered_pre.skip(k)) == row_bodies(stored_pre)
            + event_bodies(buffered_pre),
{
    let lhs = row_bodies(stored_post) + event_bodies(buffered_pre.skip(k));
    let rhs = row_bodies(stored_pre) + event_bodies(buffered_pre);
    assert forall|i: int| 0 <= i < lhs.len() implies lhs[i] == rhs[i] by {
        if i < stored_pre.len() {
            assert(stored_post[i] == stored_post.take(stored_pre.len() as int)[i]);
        } else if i < stored_post.len() {
            let m = i - stored_pre.len();
            assert(row_matches_event(
                stored_post.skip(stored_pre.len() as int)[m],
                buffered_pre.take(k)[m],
            ));
        } else {
            assert(buffered_pre.skip(k)[i - stored_post.len()] == buffered_pre[i - stored_post.len()
                + k]);
        }
    }
    assert(lhs =~= rhs);
}

/// No-loss law, dead-letter side: when a flush gives a batch up, the
/// dead-letter queue followed by what is still buffered is exactly what the
/// queue and the buffer held before — every drained event is dead-lettered
/// exactly once, none vanishes.
pub proof fn lemma_dead_letter_no_loss(dead_pre: Seq<Event>, buffered_pre: Seq<Event>, k: int)
    requires
        0 <= k <= buffered_pre.len(),
    ensures
        (dead_pre + buffered_pre.take(k)) + buffered_pre.skip(k) == dead_pre + buffered_pre,
{
    assert((dead_pre + buffered_pre.take(k)) + buffered_pre.skip(k) =~= dead_pre + buffered_pre);
}

} // verus!
