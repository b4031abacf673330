use vstd::prelude::*;

verus! {

/// One ingested record awaiting persistence: a resolved timestamp, a
/// non-empty category bucket and an opaque JSON payload kept as text.  An
/// event is immutable once constructed; its timestamp is fixed at ingestion
/// and never recomputed at flush time.
#[derive(Debug, Clone, PartialEq, Eq)]
pub struct Event {
    pub timestamp: String,
    pub bucket: String,
    pub payload: String,
}

impl Event {
    /// A well-formed event carries a non-empty bucket tag.
    pub open spec fn wf(self) -> bool {
        self.bucket@.len() > 0
    }

    /// Builds an event from already-resolved parts.
    pub fn new(timestamp: String, bucket: String, payload: String) -> (r: Event)
        requires
            bucket@.len() > 0,
        ensures
            r.timestamp == timestamp,
            r.bucket == bucket,
            r.payload == payload,
            r.wf(),
    {
        Event { timestamp, bucket, payload }
    }
}

/// The descriptor handed in by the boundary layer: the timestamp may still be
/// absent and the bucket is not yet checked.
pub struct EventInput {
    pub timestamp: Option<String>,
    pub bucket: String,
    pub payload: String,
}

/// Relies on `chrono::Utc::now` and the `Display` form of
/// `chrono::DateTime<Utc>`, which always prints a date, a time and an offset;
/// assumes the system clock lies at or after the Unix epoch (`Utc::now`
/// panics otherwise).
#[verifier::external_body]
fn now_utc_string() -> (r: String)
    ensures
        r@.len() > 0,
{
    chrono::Utc::now().to_string()
}

/// Picks the recorded timestamp: the one the producer supplied if any, else
/// the clock reading taken at ingestion.
pub fn resolve_timestamp(stamp: Option<String>, now: String) -> (r: String)
    ensures
        stamp matches Some(t) ==> r == t,
        stamp is None ==> r == now,
{
    match stamp {
        Some(t) => t,
        None => now,
    }
}

/// Turns a boundary descriptor into an event, reading the clock when the
/// producer gave no timestamp.  Returns `None` exactly when the bucket is
/// empty, so a caller can never construct an ill-formed event through here.
pub fn capture(input: EventInput) -> (r: Option<Event>)
    ensures
        r is None <==> input.bucket@.len() == 0,
        r matches Some(e) ==> {
            &&& e.wf()
            &&& e.bucket == input.bucket
            &&& e.payload == input.payload
            &&& (input.timestamp matches Some(t) ==> e.timestamp == t)
            &&& (input.timestamp is None ==> e.timestamp@.len() > 0)
        },
{
    if input.bucket.as_str().is_empty() {
        return None;
    }
    let now = now_utc_string();
    let ts = resolve_timestamp(input.timestamp, now);
    Some(Event::new(ts, input.bucket, input.payload))
}

} // verus!
