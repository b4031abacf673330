use telemetry_ingest::event::Event;
use telemetry_ingest::pipeline::{Pipeline, PushOutcome};
use telemetry_ingest::storage::{apply_migrations, PersistedRecord, Store};
use telemetry_ingest::writer::{FlushOutcome, StorageWriter};

fn ev(ts: &str, bucket: &str, data: &str) -> Event {
    Event::new(ts.to_owned(), bucket.to_owned(), data.to_owned())
}

fn assert_ids_strictly_increasing(records: &[PersistedRecord]) {
    for w in records.windows(2) {
        assert!(w[0].id < w[1].id, "ids must strictly increase: {} then {}", w[0].id, w[1].id);
    }
}

#[test]
fn migrations_are_idempotent() {
    let mut conn = rusqlite::Connection::open_in_memory().unwrap();
    apply_migrations(&mut conn).expect("first migration run");
    apply_migrations(&mut conn).expect("second migration run is a no-op");
}

#[test]
fn commit_batch_persists_in_order() {
    let mut store = Store::open_in_memory().unwrap();
    let batch = vec![
        ev("t1", "humidity", "{\"h\":40}"),
        ev("t2", "co2", "{\"c\":400}"),
        ev("t3", "humidity", "{\"h\":41}"),
    ];
    store.commit_batch(&batch).expect("commit succeeds");

    let rows = store.read_all().unwrap();
    assert_eq!(rows.len(), 3);
    assert_ids_strictly_increasing(&rows);
    for (row, event) in rows.iter().zip(batch.iter()) {
        assert_eq!(row.timestamp, event.timestamp);
        assert_eq!(row.bucket, event.bucket);
        assert_eq!(row.data, event.payload);
    }
}

#[test]
fn empty_batch_commits_no_rows() {
    let mut store = Store::open_in_memory().unwrap();
    store.commit_batch(&Vec::new()).expect("empty commit succeeds");
    assert_eq!(store.read_all().unwrap().len(), 0);
}

#[test]
fn interrupted_commit_leaves_no_partial_batch() {
    let mut store = Store::open_in_memory().unwrap();
    let first = vec![ev("t1", "logs", "{\"l\":1}"), ev("t2", "logs", "{\"l\":2}")];
    store.commit_batch(&first).unwrap();

    let batch = vec![
        ev("t3", "co2", "{\"c\":1}"),
        ev("t4", "co2", "{\"c\":2}"),
        ev("t5", "co2", "{\"c\":3}"),
        ev("t6", "co2", "{\"c\":4}"),
    ];
    let err = store.commit_batch_with_fault(&batch, 2).expect_err("fault must fail the batch");
    let _ = err;

    // all-or-nothing: the two rows written before the fault are gone
    let rows = store.read_all().unwrap();
    assert_eq!(rows.len(), 2, "a query must see 0 or 4 rows of the batch, never 1..3");
    assert_eq!(rows[0].timestamp, "t1");
    assert_eq!(rows[1].timestamp, "t2");
}

#[test]
fn retried_batch_is_not_double_inserted() {
    let mut store = Store::open_in_memory().unwrap();
    let batch = vec![ev("t1", "co2", "{\"c\":1}"), ev("t2", "co2", "{\"c\":2}")];

    store.commit_batch_with_fault(&batch, 1).expect_err("first attempt is interrupted");
    store.commit_batch(&batch).expect("retry succeeds");

    let rows = store.read_all().unwrap();
    assert_eq!(rows.len(), 2, "the retried batch must appear exactly once");
    assert_ids_strictly_increasing(&rows);
    assert_eq!(rows[0].timestamp, "t1");
    assert_eq!(rows[1].timestamp, "t2");
}

#[test]
fn ids_keep_increasing_across_batches_and_rollbacks() {
    let mut store = Store::open_in_memory().unwrap();
    store.commit_batch(&vec![ev("t1", "a", "{}"), ev("t2", "a", "{}")]).unwrap();
    store
        .commit_batch_with_fault(&vec![ev("x", "a", "{}"), ev("y", "a", "{}")], 1)
        .expect_err("interrupted");
    store.commit_batch(&vec![ev("t3", "a", "{}")]).unwrap();

    let rows = store.read_all().unwrap();
    assert_eq!(rows.len(), 3);
    assert_ids_strictly_increasing(&rows);
    let mut ids: Vec<i64> = rows.iter().map(|r| r.id).collect();
    ids.dedup();
    assert_eq!(ids.len(), 3, "ids are never reused");
}

#[test]
fn interval_tick_persists_three_events_in_order() {
    let store = Store::open_in_memory().unwrap();
    let mut pipeline = Pipeline::new(store, 10, 3);

    let a = ev("1", "humidity", "{\"h\":40}");
    let b = ev("2", "co2", "{\"c\":400}");
    let c = ev("3", "humidity", "{\"h\":41}");
    assert!(matches!(pipeline.push(a), PushOutcome::Staged));
    assert!(matches!(pipeline.push(b), PushOutcome::Staged));
    assert!(matches!(pipeline.push(c), PushOutcome::Staged));
    assert_eq!(pipeline.depth(), 3);

    // one interval tick
    assert_eq!(pipeline.flush(), FlushOutcome::Committed(3));
    assert_eq!(pipeline.depth(), 0);

    let rows = pipeline.read_all().unwrap();
    assert_eq!(rows.len(), 3);
    assert_ids_strictly_increasing(&rows);
    assert_eq!(rows[0].bucket, "humidity");
    assert_eq!(rows[0].data, "{\"h\":40}");
    assert_eq!(rows[1].bucket, "co2");
    assert_eq!(rows[1].data, "{\"c\":400}");
    assert_eq!(rows[2].bucket, "humidity");
    assert_eq!(rows[2].data, "{\"h\":41}");
}

#[test]
fn threshold_push_flushes_before_returning() {
    let store = Store::open_in_memory().unwrap();
    let mut pipeline = Pipeline::new(store, 3, 3);

    assert!(matches!(pipeline.push(ev("1", "logs", "{}")), PushOutcome::Staged));
    assert!(matches!(pipeline.push(ev("2", "logs", "{}")), PushOutcome::Staged));
    let third = pipeline.push(ev("3", "logs", "{}"));
    assert!(matches!(third, PushOutcome::Flushed(FlushOutcome::Committed(3))));
    assert_eq!(pipeline.depth(), 0);
    assert_eq!(pipeline.read_all().unwrap().len(), 3);
}

#[test]
fn no_loss_under_capacity() {
    let store = Store::open_in_memory().unwrap();
    let mut pipeline = Pipeline::new(store, 10, 3);

    for i in 0..4 {
        let outcome = pipeline.push(ev(&format!("t{i}"), "logs", &format!("{{\"n\":{i}}}")));
        assert!(matches!(outcome, PushOutcome::Staged), "no push below capacity may be refused");
    }
    assert_eq!(pipeline.flush(), FlushOutcome::Committed(4));
    assert_eq!(pipeline.flush(), FlushOutcome::Nothing);

    let rows = pipeline.read_all().unwrap();
    assert_eq!(rows.len(), 4, "every event is observable exactly once");
    assert_ids_strictly_increasing(&rows);
    for (i, row) in rows.iter().enumerate() {
        assert_eq!(row.timestamp, format!("t{i}"));
        assert_eq!(row.data, format!("{{\"n\":{i}}}"));
    }
    assert!(pipeline.healthy());
}

#[test]
fn exhausted_retries_dead_letter_the_whole_batch() {
    let store = Store::open_in_memory().unwrap();
    let mut writer = StorageWriter::new(store, 3);
    let batch = vec![ev("t1", "logs", "{}"), ev("t2", "logs", "{}")];
    let out = writer.commit_with_fault(batch, 1);
    assert_eq!(out, FlushOutcome::DeadLettered(2));
    assert_eq!(writer.dead_letter_len(), 2);
    assert!(writer.healthy(), "a rolled-back store stays usable");
    assert_eq!(writer.read_all().unwrap().len(), 0, "nothing became durable");

    // the writer keeps accepting work after dead-lettering
    let out2 = writer.commit(vec![ev("t3", "logs", "{}")]);
    assert_eq!(out2, FlushOutcome::Committed(1));
    assert_eq!(writer.read_all().unwrap().len(), 1);
}

#[test]
fn clear_store_deletes_all_rows() {
    let mut store = Store::open_in_memory().unwrap();
    store.commit_batch(&vec![ev("t1", "a", "{}"), ev("t2", "a", "{}")]).unwrap();
    store.clear().expect("clear succeeds");
    assert_eq!(store.read_all().unwrap().len(), 0);
    // the store keeps working after a clear
    store.commit_batch(&vec![ev("t3", "a", "{}")]).unwrap();
    let rows = store.read_all().unwrap();
    assert_eq!(rows.len(), 1);
    assert_eq!(rows[0].timestamp, "t3");
}

#[test]
fn flush_of_empty_pipeline_is_nothing() {
    let store = Store::open_in_memory().unwrap();
    let mut pipeline = Pipeline::new(store, 5, 2);
    assert_eq!(pipeline.flush(), FlushOutcome::Nothing);
    assert_eq!(pipeline.read_all().unwrap().len(), 0);
}
