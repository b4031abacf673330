use vstd::prelude::*;

use crate::event::Event;
use crate::storage::{records_match_rows, rows_match_events, PersistedRecord, Row, StorageError, Store};

verus! {

/// How one drain-and-commit cycle ended.
#[derive(PartialEq, Eq, Structural, Clone, Copy, Debug)]
pub enum FlushOutcome {
    /// There was nothing to write.
    Nothing,
    /// The whole batch was committed; carries the number of events written.
    Committed(usize),
    /// The batch could not be committed within the bounded retries (or the
    /// store is degraded) and was routed whole to the dead-letter queue;
    /// carries the number of events dead-lettered.
    DeadLettered(usize),
}

/// Durably persists batches, one transaction per batch.
///
/// Failure policy: a rolled-back transaction is retried immediately, up to a
/// bounded number of attempts; a batch still failing after that, or arriving
/// while the store is degraded, goes whole to the dead-letter queue.  Events
/// are never silently dropped and the process is never asked to abort: every
/// event handed to `commit` ends up either in the store or in the dead-letter
/// queue.  A store whose rollback itself failed is marked unhealthy and is
/// not written to again, which the caller observes as a degraded-health
/// signal.
pub struct StorageWriter {
    store: Store,
    max_attempts: usize,
    dead_letter: Vec<Event>,
    healthy: bool,
}

impl StorageWriter {
    /// The rows durably committed to the store.
    pub closed spec fn stored(self) -> Seq<Row> {
        self.store.committed()
    }

    /// The events routed to the dead-letter queue, oldest first.
    pub closed spec fn dead(self) -> Seq<Event> {
        self.dead_letter@
    }

    /// Whether the store is still trusted to accept transactions.
    pub closed spec fn is_healthy(self) -> bool {
        self.healthy
    }

    /// The writer's invariant: committed ids keep increasing, and while the
    /// writer is healthy the store has no transaction pending and allows at
    /// least one attempt per batch.
    pub closed spec fn wf(self) -> bool {
        &&& self.store.wf()
        &&& self.healthy ==> self.store.ready()
        &&& self.max_attempts >= 1
    }

    /// A writer over a ready store.
    pub fn new(store: Store, max_attempts: usize) -> (r: StorageWriter)
        requires
            store.wf(),
            store.ready(),
            max_attempts >= 1,
        ensures
            r.wf(),
            r.is_healthy(),
            r.stored() == store.committed(),
            r.dead() == Seq::<Event>::empty(),
    {
        StorageWriter { store, max_attempts, dead_letter: Vec::new(), healthy: true }
    }

    /// Whether the store is still trusted to accept transactions.
    pub fn healthy(&self) -> (r: bool)
        ensures
            r == self.is_healthy(),
    {
        self.healthy
    }

    /// The number of dead-lettered events, for the operator surface.
    pub fn dead_letter_len(&self) -> (r: usize)
        ensures
            r == self.dead().len(),
    {
        self.dead_letter.len()
    }

    /// Reads back every persisted record, in id (that is, insertion) order.
    pub fn read_all(&mut self) -> (r: Result<Vec<PersistedRecord>, StorageError>)
        requires
            old(self).wf(),
            old(self).is_healthy(),
        ensures
            final(self).wf(),
            final(self).stored() == old(self).stored(),
            final(self).dead() == old(self).dead(),
            final(self).is_healthy() == old(self).is_healthy(),
            r matches Ok(v) ==> records_match_rows(v@, final(self).stored()),
    {
        self.store.read_all()
    }

    /// Durably deletes every persisted record; on failure nothing changes.
    pub fn clear_store(&mut self) -> (r: Result<(), StorageError>)
        requires
            old(self).wf(),
            old(self).is_healthy(),
        ensures
            final(self).wf(),
            final(self).is_healthy() == old(self).is_healthy(),
            final(self).dead() == old(self).dead(),
            r is Ok ==> final(self).stored() == Seq::<Row>::empty(),
            r is Err ==> final(self).stored() == old(self).stored(),
    {
        self.store.clear()
    }

    /// Persists one batch as one atomic transaction, retrying a rolled-back
    /// transaction up to the bounded attempt count and dead-lettering the
    /// whole batch when the store keeps failing or is degraded.  Exactly one
    /// outcome holds: the batch lands in the store, appended once in order,
    /// or it lands in the dead-letter queue, appended once in order — never
    /// both, never partially, and `Nothing` exactly for an empty batch.
    pub fn commit(&mut self, batch: Vec<Event>) -> (r: FlushOutcome)
        requires
            old(self).wf(),
        ensures
            final(self).wf(),
            final(self).is_healthy() ==> old(self).is_healthy(),
            r == FlushOutcome::Nothing <==> batch@.len() == 0,
            r == FlushOutcome::Nothing ==> {
                &&& final(self).stored() == old(self).stored()
                &&& final(self).dead() == old(self).dead()
                &&& final(self).is_healthy() == old(self).is_healthy()
            },
            r matches FlushOutcome::Committed(n) ==> {
                &&& n == batch@.len()
                &&& final(self).stored().len() == old(self).stored().len() + batch@.len()
                &&& final(self).stored().take(old(self).stored().len() as int) == old(
                    self,
                ).stored()
                &&& rows_match_events(
                    final(self).stored().skip(old(self).stored().len() as int),
                    batch@,
                )
                &&& final(self).dead() == old(self).dead()
                &&& final(self).is_healthy() == old(self).is_healthy()
            },
            r matches FlushOutcome::DeadLettered(n) ==> {
                &&& n == batch@.len()
                &&& final(self).stored() == old(self).stored()
                &&& final(self).dead() == old(self).dead() + batch@
            },
    {
        let n = batch.len();
        self.commit_with_fault(batch, n)
    }

    /// `commit` with a store fault injected into every attempt after
    /// `fail_after` rows when `fail_after` is smaller than the batch, which
    /// makes the bounded-retry and dead-letter path exercisable: such a batch
    /// is rolled back on each attempt and ends up dead-lettered whole.
    pub fn commit_with_fault(&mut self, batch: Vec<Event>, fail_after: usize) -> (r: FlushOutcome)
        requires
            old(self).wf(),
        ensures
            final(self).wf(),
            final(self).is_healthy() ==> old(self).is_healthy(),
            r == FlushOutcome::Nothing <==> batch@.len() == 0,
            r == FlushOutcome::Nothing ==> {
                &&& final(self).stored() == old(self).stored()
                &&& final(self).dead() == old(self).dead()
                &&& final(self).is_healthy() == old(self).is_healthy()
            },
            r matches FlushOutcome::Committed(n) ==> {
                &&& n == batch@.len()
                &&& fail_after >= batch@.len()
                &&& final(self).stored().len() == old(self).stored().len() + batch@.len()
                &&& final(self).stored().take(old(self).stored().len() as int) == old(
                    self,
                ).stored()
                &&& rows_match_events(
                    final(self).stored().skip(old(self).stored().len() as int),
                    batch@,
                )
                &&& final(self).dead() == old(self).dead()
                &&& final(self).is_healthy() == old(self).is_healthy()
            },
            r matches FlushOutcome::DeadLettered(n) ==> {
                &&& n == batch@.len()
                &&& final(self).stored() == old(self).stored()
                &&& final(self).dead() == old(self).dead() + batch@
            },
            fail_after < batch@.len() ==> r matches FlushOutcome::DeadLettered(_),
    {
        let mut work = batch;
        if work.len() == 0 {
            return FlushOutcome::Nothing;
        }
        if self.healthy {
            let mut attempt: usize = 0;
            while attempt < self.max_attempts
                invariant
                    attempt <= self.max_attempts,
                    work@ == batch@,
                    work@.len() > 0,
                    self.max_attempts >= 1,
                    self.healthy,
                    old(self).is_healthy(),
                    self.store.wf(),
                    self.store.ready(),
                    self.store.committed() == old(self).stored(),
                    self.dead_letter@ == old(self).dead(),
                decreases self.max_attempts - attempt,
            {
                match self.store.commit_batch_with_fault(&work, fail_after) {
                    Ok(_) => {
                        return FlushOutcome::Committed(work.len());
                    },
                    Err(StorageError::RolledBack) => {
                        // the transaction was rolled back and the store is
                        // ready again: worth another bounded attempt
                    },
                    Err(StorageError::Wedged) | Err(StorageError::Unavailable) => {
                        self.healthy = false;
                        let n = work.len();
                        self.dead_letter.append(&mut work);
                        return FlushOutcome::DeadLettered(n);
                    },
                }
                attempt = attempt + 1;
            }
        }
        let n = work.len();
        self.dead_letter.append(&mut work);
        FlushOutcome::DeadLettered(n)
    }
}

} // verus!
