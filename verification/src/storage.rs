use vstd::prelude::*;

use crate::event::Event;

verus! {

#[verifier::external_type_specification]
#[verifier::external_body]
pub struct ExConnection(rusqlite::Connection);

#[verifier::external_type_specification]
#[verifier::external_body]
pub struct ExSqliteError(rusqlite::Error);

#[verifier::external_type_specification]
#[verifier::external_body]
pub struct ExMigrationError(rusqlite_migration::Error);

/// One row of the metrics table, as the specifications see it: the assigned
/// id, then the timestamp, bucket and payload texts.
pub type Row = (int, Seq<char>, Seq<char>, Seq<char>);

/// The rows of the metrics table as this connection currently sees them, in
/// insertion order: inside a transaction this includes the staged,
/// not-yet-committed rows.
pub uninterp spec fn db_rows(c: rusqlite::Connection) -> Seq<Row>;

/// The rows of the metrics table that are durably committed: what a rollback
/// falls back to, and what any later observer is guaranteed to see.
pub uninterp spec fn db_committed(c: rusqlite::Connection) -> Seq<Row>;

/// Whether the connection has an open explicit transaction.
pub uninterp spec fn db_in_tx(c: rusqlite::Connection) -> bool;

/// The ids of the rows are strictly increasing in insertion order.
pub open spec fn ids_increasing(rows: Seq<Row>) -> bool {
    forall|i: int, j: int|
        #![trigger rows[i], rows[j]]
        0 <= i < j < rows.len() ==> rows[i].0 < rows[j].0
}

/// The row carries exactly the event's timestamp, bucket and payload.
pub open spec fn row_matches_event(r: Row, e: Event) -> bool {
    &&& r.1 == e.timestamp@
    &&& r.2 == e.bucket@
    &&& r.3 == e.payload@
}

/// The rows carry exactly these events, in the same order.
pub open spec fn rows_match_events(rows: Seq<Row>, events: Seq<Event>) -> bool {
    &&& rows.len() == events.len()
    &&& forall|i: int| 0 <= i < rows.len() ==> row_matches_event(#[trigger] rows[i], events[i])
}

/// Id assignment law: strictly increasing ids are never reused — two distinct
/// persisted rows never share an id, however many batches, rollbacks and
/// retries produced them.
pub proof fn lemma_ids_never_reused(rows: Seq<Row>)
    requires
        ids_increasing(rows),
    ensures
        forall|i: int, j: int|
            #![trigger rows[i], rows[j]]
            0 <= i < rows.len() && 0 <= j < rows.len() && i != j ==> rows[i].0 != rows[j].0,
{
}

/// Relies on `rusqlite::Connection::open_in_memory`: a fresh in-memory
/// database is empty and has no open transaction.
#[verifier::external_body]
fn conn_open_in_memory() -> (r: Result<rusqlite::Connection, rusqlite::Error>)
    ensures
        r matches Ok(c) ==> {
            &&& db_rows(c) == Seq::<Row>::empty()
            &&& db_committed(c) == Seq::<Row>::empty()
            &&& !db_in_tx(c)
        },
{
    rusqlite::Connection::open_in_memory()
}

/// Brings the metrics schema (table plus the timestamp and bucket indexes) to
/// its latest version.  Relies on `rusqlite_migration::Migrations::to_latest`
/// running `CREATE TABLE IF NOT EXISTS` / `CREATE INDEX IF NOT EXISTS`
/// statements inside its own transaction: no existing row is ever touched and
/// the transaction state of the connection is left as it was.
#[verifier::external_body]
pub fn apply_migrations(connection: &mut rusqlite::Connection) -> (r: Result<
    (),
    rusqlite_migration::Error,
>)
    ensures
        db_rows(*final(connection)) == db_rows(*old(connection)),
        db_committed(*final(connection)) == db_committed(*old(connection)),
        db_in_tx(*final(connection)) == db_in_tx(*old(connection)),
{
    let migrations = rusqlite_migration::Migrations::new(vec![
        rusqlite_migration::M::up(
            "CREATE TABLE IF NOT EXISTS metrics (
            id INTEGER PRIMARY KEY AUTOINCREMENT,
            timestamp TEXT NOT NULL,
            bucket TEXT NOT NULL,
            data TEXT NOT NULL
        );",
        ),
        rusqlite_migration::M::up("CREATE INDEX IF NOT EXISTS timestamp_index on metrics(timestamp);"),
        rusqlite_migration::M::up("CREATE INDEX IF NOT EXISTS bucket_index on metrics(bucket);"),
    ]);
    migrations.to_latest(connection)
}

/// Relies on `rusqlite::Connection::execute_batch` running `BEGIN`: it never
/// changes a row, and on success a transaction is open whose staged view
/// starts out equal to the committed rows.
#[verifier::external_body]
fn exec_begin(conn: &mut rusqlite::Connection) -> (r: Result<(), rusqlite::Error>)
    ensures
        db_committed(*final(conn)) == db_committed(*old(conn)),
        r is Ok ==> {
            &&& db_in_tx(*final(conn))
            &&& db_rows(*final(conn)) == db_committed(*final(conn))
        },
        r is Err ==> {
            &&& db_rows(*final(conn)) == db_rows(*old(conn))
            &&& db_in_tx(*final(conn)) == db_in_tx(*old(conn))
        },
{
    conn.execute_batch("BEGIN")
}

/// Relies on `rusqlite::Connection::execute` running one `INSERT` into the
/// metrics table while a transaction is open: on success exactly one row is
/// staged at the tail, carrying the given texts, and — by SQLite's
/// `AUTOINCREMENT` guarantee — an id larger than that of every row the
/// connection currently sees.  Nothing becomes durable, and on failure the
/// staged rows are either untouched or (if SQLite aborted the transaction)
/// reset to the committed rows.
#[verifier::external_body]
fn exec_insert(
    conn: &mut rusqlite::Connection,
    timestamp: &str,
    bucket: &str,
    data: &str,
) -> (r: Result<usize, rusqlite::Error>)
    requires
        db_in_tx(*old(conn)),
    ensures
        db_committed(*final(conn)) == db_committed(*old(conn)),
        r is Ok ==> {
            &&& db_in_tx(*final(conn))
            &&& db_rows(*final(conn)).len() == db_rows(*old(conn)).len() + 1
            &&& db_rows(*final(conn)).drop_last() == db_rows(*old(conn))
            &&& db_rows(*final(conn)).last().1 == timestamp@
            &&& db_rows(*final(conn)).last().2 == bucket@
            &&& db_rows(*final(conn)).last().3 == data@
            &&& forall|i: int|
                0 <= i < db_rows(*old(conn)).len() ==> (#[trigger] db_rows(*old(conn))[i]).0
                    < db_rows(*final(conn)).last().0
        },
        r is Err ==> db_rows(*final(conn)) == db_rows(*old(conn)) || db_rows(*final(conn))
            == db_committed(*old(conn)),
{
    conn.execute(
        "INSERT INTO metrics (timestamp, bucket, data) VALUES (?1, ?2, ?3);",
        (timestamp, bucket, data),
    )
}

/// Relies on `rusqlite::Connection::execute_batch` running `COMMIT`: on
/// success the staged rows become the committed rows and the transaction is
/// closed; on failure nothing becomes durable and the staged rows are either
/// kept (the transaction is still open) or reset to the committed rows.
#[verifier::external_body]
fn exec_commit(conn: &mut rusqlite::Connection) -> (r: Result<(), rusqlite::Error>)
    ensures
        r is Ok ==> {
            &&& db_committed(*final(conn)) == db_rows(*old(conn))
            &&& db_rows(*final(conn)) == db_rows(*old(conn))
            &&& !db_in_tx(*final(conn))
        },
        r is Err ==> {
            &&& db_committed(*final(conn)) == db_committed(*old(conn))
            &&& (db_rows(*final(conn)) == db_rows(*old(conn)) || db_rows(*final(conn))
                == db_committed(*old(conn)))
        },
{
    conn.execute_batch("COMMIT")
}

/// Relies on `rusqlite::Connection::execute_batch` running `ROLLBACK`: it
/// never changes a committed row, and on success every staged change is
/// discarded and the transaction is closed.
#[verifier::external_body]
fn exec_rollback(conn: &mut rusqlite::Connection) -> (r: Result<(), rusqlite::Error>)
    ensures
        db_committed(*final(conn)) == db_committed(*old(conn)),
        r is Ok ==> {
            &&& db_rows(*final(conn)) == db_committed(*old(conn))
            &&& !db_in_tx(*final(conn))
        },
{
    conn.execute_batch("ROLLBACK")
}

/// Relies on `rusqlite::Connection::execute` running `DELETE FROM metrics`
/// outside any transaction: on success every row is gone, durably (the
/// statement autocommits); on failure SQLite aborts the statement and no row
/// changes.
#[verifier::external_body]
fn exec_delete_all(conn: &mut rusqlite::Connection) -> (r: Result<usize, rusqlite::Error>)
    requires
        !db_in_tx(*old(conn)),
    ensures
        !db_in_tx(*final(conn)),
        r is Ok ==> {
            &&& db_rows(*final(conn)) == Seq::<Row>::empty()
            &&& db_committed(*final(conn)) == Seq::<Row>::empty()
        },
        r is Err ==> {
            &&& db_rows(*final(conn)) == db_rows(*old(conn))
            &&& db_committed(*final(conn)) == db_committed(*old(conn))
        },
{
    conn.execute("DELETE FROM metrics", ())
}

/// An event as it came back out of the store: the storage-assigned id plus
/// the persisted texts.
#[derive(Debug, Clone, PartialEq, Eq)]
pub struct PersistedRecord {
    pub id: i64,
    pub timestamp: String,
    pub bucket: String,
    pub data: String,
}

impl PersistedRecord {
    /// Bundles one fetched row.
    pub fn new(id: i64, timestamp: String, bucket: String, data: String) -> (r: PersistedRecord)
        ensures
            r.id == id,
            r.timestamp == timestamp,
            r.bucket == bucket,
            r.data == data,
    {
        PersistedRecord { id, timestamp, bucket, data }
    }
}

/// The fetched records carry exactly these rows, in the same order.
pub open spec fn records_match_rows(recs: Seq<PersistedRecord>, rows: Seq<Row>) -> bool {
    &&& recs.len() == rows.len()
    &&& forall|i: int|
        0 <= i < recs.len() ==> {
            &&& (#[trigger] recs[i]).id as int == rows[i].0
            &&& recs[i].timestamp@ == rows[i].1
            &&& recs[i].bucket@ == rows[i].2
            &&& recs[i].data@ == rows[i].3
        }
}

/// Relies on `rusqlite::Connection::prepare` and
/// `rusqlite::Statement::query_map` running `SELECT ... ORDER BY id`: a read
/// never changes the table, and on success it returns every visible row; with
/// ids strictly increasing in insertion order, ordering by id returns them in
/// insertion order.
#[verifier::external_body]
fn fetch_rows(conn: &mut rusqlite::Connection) -> (r: Result<
    Vec<PersistedRecord>,
    rusqlite::Error,
>)
    requires
        ids_increasing(db_rows(*old(conn))),
    ensures
        db_rows(*final(conn)) == db_rows(*old(conn)),
        db_committed(*final(conn)) == db_committed(*old(conn)),
        db_in_tx(*final(conn)) == db_in_tx(*old(conn)),
        r matches Ok(v) ==> records_match_rows(v@, db_rows(*final(conn))),
{
    let mut stmt = match conn.prepare("SELECT id, timestamp, bucket, data FROM metrics ORDER BY id;") {
        Ok(s) => s,
        Err(e) => return Err(e),
    };
    let mapped = match stmt.query_map([], |row| {
        Ok(PersistedRecord::new(row.get(0)?, row.get(1)?, row.get(2)?, row.get(3)?))
    }) {
        Ok(it) => it,
        Err(e) => return Err(e),
    };
    mapped.collect()
}

/// How a storage operation failed.
#[derive(PartialEq, Eq, Structural, Clone, Copy, Debug)]
pub enum StorageError {
    /// The store could not be opened or read.
    Unavailable,
    /// The batch was not committed; the transaction was rolled back and the
    /// store is ready for the next attempt.
    RolledBack,
    /// The batch was not committed and the rollback itself failed: nothing
    /// became durable, but the connection state is unknown and the store
    /// must be treated as degraded.
    Wedged,
}

/// The embedded transactional store: a SQLite connection holding the metrics
/// table, reached only through the trusted wrappers above, so that every
/// write goes through one explicit transaction.
pub struct Store {
    conn: rusqlite::Connection,
}

impl Store {
    /// The durably committed rows.
    pub closed spec fn committed(self) -> Seq<Row> {
        db_committed(self.conn)
    }

    /// No transaction is pending: what the connection sees is what is
    /// committed.
    pub closed spec fn ready(self) -> bool {
        &&& !db_in_tx(self.conn)
        &&& db_rows(self.conn) == db_committed(self.conn)
    }

    /// The store's invariant: committed ids strictly increase in insertion
    /// order (SQLite assigns them, the writer never bypasses it).
    pub open spec fn wf(self) -> bool {
        ids_increasing(self.committed())
    }

    /// Opens a fresh in-memory store and brings up the metrics schema.
    pub fn open_in_memory() -> (r: Result<Store, StorageError>)
        ensures
            r matches Ok(s) ==> {
                &&& s.wf()
                &&& s.ready()
                &&& s.committed() == Seq::<Row>::empty()
            },
    {
        let mut conn = match conn_open_in_memory() {
            Ok(c) => c,
            Err(_) => return Err(StorageError::Unavailable),
        };
        match apply_migrations(&mut conn) {
            Ok(()) => (),
            Err(_) => return Err(StorageError::Unavailable),
        };
        Ok(Store { conn })
    }

    /// Commits the whole batch as one transaction, with a fault injected
    /// after `fail_after` rows when `fail_after` is smaller than the batch:
    /// the injected fault unwinds exactly as a failed statement does, which
    /// makes the rollback path exercisable.  All-or-nothing either way: on
    /// success every event of the batch is appended, in order, each with a
    /// fresh id above all earlier ones; on any failure not one row of the
    /// batch becomes durable.
    pub fn commit_batch_with_fault(&mut self, batch: &Vec<Event>, fail_after: usize) -> (r: Result<
        (),
        StorageError,
    >)
        requires
            old(self).wf(),
            old(self).ready(),
        ensures
            final(self).wf(),
            r is Ok ==> {
                &&& final(self).ready()
                &&& fail_after >= batch@.len()
                &&& final(self).committed().len() == old(self).committed().len() + batch@.len()
                &&& final(self).committed().take(old(self).committed().len() as int) == old(
                    self,
                ).committed()
                &&& rows_match_events(
                    final(self).committed().skip(old(self).committed().len() as int),
                    batch@,
                )
            },
            r matches Err(e) ==> {
                &&& final(self).committed() == old(self).committed()
                &&& (e == StorageError::RolledBack ==> final(self).ready())
                &&& (e == StorageError::RolledBack || e == StorageError::Wedged)
            },
            fail_after < batch@.len() ==> r is Err,
    {
        let ghost committed0 = self.committed();
        match exec_begin(&mut self.conn) {
            Ok(()) => (),
            Err(_) => {
                return Err(StorageError::RolledBack);
            },
        }
        let ghost l0 = committed0.len() as int;
        let n = batch.len();
        let mut i: usize = 0;
        while i < n
            invariant
                i <= n,
                n == batch@.len(),
                i <= fail_after,
                committed0 == old(self).committed(),
                l0 == committed0.len() as int,
                db_in_tx(self.conn),
                db_committed(self.conn) == committed0,
                db_rows(self.conn).len() == l0 + i,
                db_rows(self.conn).take(l0) == committed0,
                rows_match_events(db_rows(self.conn).skip(l0), batch@.take(i as int)),
                ids_increasing(db_rows(self.conn)),
            decreases n - i,
        {
            if i >= fail_after {
                return match exec_rollback(&mut self.conn) {
                    Ok(_) => Err(StorageError::RolledBack),
                    Err(_) => Err(StorageError::Wedged),
                };
            } else {
                let e = &batch[i];
                let ghost rows_pre = db_rows(self.conn);
                let res = exec_insert(
                    &mut self.conn,
                    e.timestamp.as_str(),
                    e.bucket.as_str(),
                    e.payload.as_str(),
                );
                match res {
                    Ok(_) => {},
                    Err(_) => {
                        return match exec_rollback(&mut self.conn) {
                            Ok(_) => Err(StorageError::RolledBack),
                            Err(_) => Err(StorageError::Wedged),
                        };
                    },
                }
                proof {
                    let rows_post = db_rows(self.conn);
                    assert(rows_post.drop_last() == rows_pre);
                    assert forall|m: int| 0 <= m < rows_pre.len() implies #[trigger] rows_post[m]
                        == rows_pre[m] by {
                        assert(rows_pre[m] == rows_post.drop_last()[m]);
                    }
                    assert(rows_post.take(l0) =~= committed0);
                    assert(rows_post.skip(l0) =~= rows_pre.skip(l0).push(rows_post.last()));
                    assert(batch@.take(i as int + 1) =~= batch@.take(i as int).push(
                        batch@[i as int],
                    ));
                    assert(rows_match_events(rows_post.skip(l0), batch@.take(i as int + 1)));
                    assert forall|p: int, q: int|
                        #![trigger rows_post[p], rows_post[q]]
                        0 <= p < q < rows_post.len() implies rows_post[p].0 < rows_post[q].0 by {
                        if q < rows_post.len() - 1 {
                            assert(rows_pre[p].0 < rows_pre[q].0);
                        } else {
                            assert(rows_post[p] == rows_pre[p]);
                            assert(rows_pre[p].0 < rows_post.last().0);
                        }
                    }
                }
                i = i + 1;
            }
        }
        proof {
            assert(batch@.take(n as int) =~= batch@);
        }
        match exec_commit(&mut self.conn) {
            Ok(_) => Ok(()),
            Err(_) => {
                match exec_rollback(&mut self.conn) {
                    Ok(_) => Err(StorageError::RolledBack),
                    Err(_) => Err(StorageError::Wedged),
                }
            },
        }
    }

    /// Commits the whole batch to the store as one atomic transaction:
    /// either every event becomes a persisted row, appended in arrival order
    /// with fresh, strictly increasing ids, or — on any failure — none does.
    pub fn commit_batch(&mut self, batch: &Vec<Event>) -> (r: Result<(), StorageError>)
        requires
            old(self).wf(),
            old(self).ready(),
        ensures
            final(self).wf(),
            r is Ok ==> {
                &&& final(self).ready()
                &&& final(self).committed().len() == old(self).committed().len() + batch@.len()
                &&& final(self).committed().take(old(self).committed().len() as int) == old(
                    self,
                ).committed()
                &&& rows_match_events(
                    final(self).committed().skip(old(self).committed().len() as int),
                    batch@,
                )
            },
            r matches Err(e) ==> {
                &&& final(self).committed() == old(self).committed()
                &&& (e == StorageError::RolledBack ==> final(self).ready())
                &&& (e == StorageError::RolledBack || e == StorageError::Wedged)
            },
    {
        let n = batch.len();
        self.commit_batch_with_fault(batch, n)
    }

    /// Reads back every persisted record, in id (that is, insertion) order.
    pub fn read_all(&mut self) -> (r: Result<Vec<PersistedRecord>, StorageError>)
        requires
            old(self).wf(),
            old(self).ready(),
        ensures
            final(self).wf(),
            final(self).ready(),
            final(self).committed() == old(self).committed(),
            r matches Ok(v) ==> records_match_rows(v@, final(self).committed()),
    {
        match fetch_rows(&mut self.conn) {
            Ok(v) => Ok(v),
            Err(_) => Err(StorageError::Unavailable),
        }
    }

    /// Durably deletes every persisted record; on failure nothing changes.
    pub fn clear(&mut self) -> (r: Result<(), StorageError>)
        requires
            old(self).wf(),
            old(self).ready(),
        ensures
            final(self).wf(),
            final(self).ready(),
            r is Ok ==> final(self).committed() == Seq::<Row>::empty(),
            r is Err ==> final(self).committed() == old(self).committed(),
    {
        match exec_delete_all(&mut self.conn) {
            Ok(_) => Ok(()),
            Err(_) => Err(StorageError::Unavailable),
        }
    }
}

} // verus!
