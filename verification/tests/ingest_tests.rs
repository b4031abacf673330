use telemetry_ingest::buffer::IngestBuffer;
use telemetry_ingest::event::{capture, resolve_timestamp, Event, EventInput};
use telemetry_ingest::policy::{threshold_reached, Scheduler, SchedulerAction, SchedulerEvent};

fn ev(ts: &str, bucket: &str, data: &str) -> Event {
    Event::new(ts.to_owned(), bucket.to_owned(), data.to_owned())
}

#[test]
fn fifo_drain_reassembles_push_order() {
    let mut buf = IngestBuffer::new(10);
    for i in 0..5 {
        let r = buf.push(ev(&format!("t{i}"), "logs", &format!("{{\"n\":{i}}}")));
        assert!(r.is_ok());
    }
    assert_eq!(buf.len(), 5);

    let mut all = Vec::new();
    all.extend(buf.drain(2));
    all.extend(buf.drain(2));
    all.extend(buf.drain(2));
    assert_eq!(buf.len(), 0);
    assert_eq!(all.len(), 5);
    for (i, e) in all.iter().enumerate() {
        assert_eq!(e.timestamp, format!("t{i}"));
        assert_eq!(e.payload, format!("{{\"n\":{i}}}"));
    }
}

#[test]
fn drain_clamps_to_available() {
    let mut buf = IngestBuffer::new(4);
    buf.push(ev("1", "co2", "{}")).unwrap();
    buf.push(ev("2", "co2", "{}")).unwrap();
    let none = buf.drain(0);
    assert!(none.is_empty());
    assert_eq!(buf.len(), 2);
    let all = buf.drain(100);
    assert_eq!(all.len(), 2);
    assert_eq!(all[0].timestamp, "1");
    assert_eq!(all[1].timestamp, "2");
    assert_eq!(buf.len(), 0);
}

#[test]
fn reject_at_capacity_keeps_buffer() {
    let mut buf = IngestBuffer::new(2);
    assert_eq!(buf.push(ev("1", "humidity", "{\"h\":40}")), Ok(false));
    assert_eq!(buf.push(ev("2", "co2", "{\"c\":400}")), Ok(true));

    let rejected = buf.push(ev("3", "logs", "{\"l\":1}"));
    let back = rejected.expect_err("push beyond capacity must signal overflow");
    assert_eq!(back.timestamp, "3");
    assert_eq!(back.bucket, "logs");
    assert_eq!(back.payload, "{\"l\":1}");

    assert_eq!(buf.len(), 2);
    let kept = buf.drain(10);
    assert_eq!(kept[0].bucket, "humidity");
    assert_eq!(kept[1].bucket, "co2");
}

#[test]
fn push_reports_threshold() {
    let mut buf = IngestBuffer::new(3);
    assert_eq!(buf.push(ev("1", "co2", "{}")), Ok(false));
    assert_eq!(buf.push(ev("2", "co2", "{}")), Ok(false));
    assert_eq!(buf.push(ev("3", "co2", "{}")), Ok(true));
}

#[test]
fn capture_rejects_empty_bucket() {
    let input = EventInput {
        timestamp: Some("2024-01-01".to_owned()),
        bucket: String::new(),
        payload: "{}".to_owned(),
    };
    assert!(capture(input).is_none());
}

#[test]
fn capture_keeps_given_timestamp() {
    let input = EventInput {
        timestamp: Some("2024-03-07 12:00:00".to_owned()),
        bucket: "location".to_owned(),
        payload: "{\"longitude\":7.5}".to_owned(),
    };
    let e = capture(input).expect("non-empty bucket is accepted");
    assert_eq!(e.timestamp, "2024-03-07 12:00:00");
    assert_eq!(e.bucket, "location");
    assert_eq!(e.payload, "{\"longitude\":7.5}");
}

#[test]
fn capture_defaults_timestamp_from_clock() {
    let input = EventInput { timestamp: None, bucket: "logs".to_owned(), payload: "{}".to_owned() };
    let e = capture(input).expect("non-empty bucket is accepted");
    assert!(!e.timestamp.is_empty());
}

#[test]
fn resolve_timestamp_exact() {
    assert_eq!(resolve_timestamp(Some("a".to_owned()), "now".to_owned()), "a");
    assert_eq!(resolve_timestamp(None, "now".to_owned()), "now");
}

#[test]
fn scheduler_ticks_and_shuts_down() {
    let mut s = Scheduler::new();
    assert!(s.is_running());
    assert_eq!(s.step(SchedulerEvent::Tick, 0), SchedulerAction::Idle);
    assert_eq!(s.step(SchedulerEvent::Tick, 7), SchedulerAction::Flush);
    assert_eq!(s.step(SchedulerEvent::Shutdown, 1), SchedulerAction::FinalFlush);
    assert!(!s.is_running());
    assert_eq!(s.step(SchedulerEvent::Tick, 4), SchedulerAction::Idle);
    assert_eq!(s.step(SchedulerEvent::Shutdown, 4), SchedulerAction::Idle);
}

#[test]
fn threshold_boundary() {
    assert!(!threshold_reached(9, 10));
    assert!(threshold_reached(10, 10));
    assert!(threshold_reached(11, 10));
}
