//! The event bus: an in-process fan-out broadcast channel with a bounded
//! history buffer. Publishing never blocks and never fails visibly; slow or
//! absent subscribers silently miss backlog beyond the buffer. It carries
//! best-effort UI notifications only — the system of record is the job
//! store, never the event stream.

use crate::status::JobStatus;
use vstd::prelude::*;
use vstd::string::StringExecFns;

verus! {

/// Smallest history buffer the bus will allocate.
pub const MIN_BUS_CAPACITY: usize = 16;

/// The payload of one published event.
#[derive(Clone)]
pub enum EventData {
    /// A job row changed state.
    Job { id: i64, kind: String, status: String, title: Option<String> },
    /// A domain entity governed by an executor changed.
    Song { action: String, song_ids: Vec<i64> },
}

/// One broadcast envelope: event name, payload and a millisecond timestamp.
#[derive(Clone)]
pub struct EventEnvelope {
    pub event: String,
    pub data: EventData,
    pub ts_millis: i64,
}

#[verifier::external_type_specification]
#[verifier::external_body]
#[verifier::reject_recursive_types(T)]
pub struct ExBroadcastSender<T>(tokio::sync::broadcast::Sender<T>);

#[verifier::external_type_specification]
#[verifier::external_body]
#[verifier::reject_recursive_types(T)]
pub struct ExBroadcastReceiver<T>(tokio::sync::broadcast::Receiver<T>);

/// Relies on tokio's `Sender::clone`: another handle to the same channel.
pub assume_specification<T>[ <tokio::sync::broadcast::Sender<T> as core::clone::Clone>::clone ](
    tx: &tokio::sync::broadcast::Sender<T>,
) -> tokio::sync::broadcast::Sender<T>;

/// Relies on tokio's `broadcast::channel`: allocates a channel whose buffer
/// holds `capacity` messages. It panics on a zero capacity or one above
/// `usize::MAX / 2`, which the precondition rules out.
#[verifier::external_body]
fn broadcast_channel(capacity: usize) -> (
    tokio::sync::broadcast::Sender<EventEnvelope>,
    tokio::sync::broadcast::Receiver<EventEnvelope>,
)
    requires
        1 <= capacity <= usize::MAX / 4,
{
    tokio::sync::broadcast::channel(capacity)
}

/// Relies on tokio's `Sender::send`: enqueues for every current subscriber
/// and returns at once; the error for "no subscribers" is discarded, so the
/// publisher never observes a failure.
#[verifier::external_body]
fn broadcast_send(tx: &tokio::sync::broadcast::Sender<EventEnvelope>, env: EventEnvelope) {
    let _ = tx.send(env);
}

/// Relies on tokio's `Sender::subscribe`: a new receiver that sees values
/// sent after this call.
#[verifier::external_body]
fn broadcast_subscribe(tx: &tokio::sync::broadcast::Sender<EventEnvelope>) -> (
    tokio::sync::broadcast::Receiver<EventEnvelope>
) {
    tx.subscribe()
}

/// Relies on tokio's `Receiver::try_recv`: the next pending envelope, if
/// one is buffered; lagging skips ahead and reports nothing here.
#[verifier::external_body]
pub fn try_recv_event(rx: &mut tokio::sync::broadcast::Receiver<EventEnvelope>) -> (r: Option<
    EventEnvelope,
>) {
    match rx.try_recv() {
        Ok(env) => Some(env),
        Err(_) => None,
    }
}

/// Relies on chrono's clock: the current time in milliseconds since the
/// Unix epoch.
#[verifier::external_body]
fn now_unix_millis() -> i64 {
    chrono::Utc::now().timestamp_millis()
}

/// The bus itself: a handle that can be cloned into every publisher.
#[derive(Clone)]
pub struct EventBus {
    tx: tokio::sync::broadcast::Sender<EventEnvelope>,
}

impl EventBus {
    /// A bus whose buffer holds at least `MIN_BUS_CAPACITY` envelopes.
    pub fn new(capacity: usize) -> Self
        requires
            capacity <= usize::MAX / 4,
    {
        let cap = if capacity < MIN_BUS_CAPACITY {
            MIN_BUS_CAPACITY
        } else {
            capacity
        };
        let (tx, _rx) = broadcast_channel(cap);
        EventBus { tx }
    }

    /// Publishes one envelope, stamped with the current time. Never blocks,
    /// never reports failure.
    pub fn publish(&self, event: String, data: EventData) {
        let env = EventEnvelope { event, data, ts_millis: now_unix_millis() };
        broadcast_send(&self.tx, env);
    }

    /// A new subscription to everything published from now on.
    pub fn subscribe(&self) -> tokio::sync::broadcast::Receiver<EventEnvelope> {
        broadcast_subscribe(&self.tx)
    }
}

impl Default for EventBus {
    /// A bus with a 64-envelope buffer.
    fn default() -> Self {
        EventBus::new(64)
    }
}

/// The payload of a `"job"` event, carrying the row's identifier, kind,
/// status label and title.
pub fn job_event_data(id: i64, kind: &str, status: JobStatus, title: Option<&str>) -> (r:
    EventData)
    ensures
        (r matches EventData::Job { id: rid, kind: rkind, status: rstatus, title: rtitle } && {
            &&& rid == id
            &&& rkind@ == kind@
            &&& rstatus@ == status.label()
            &&& match (rtitle, title) {
                (Some(a), Some(b)) => a@ == b@,
                (None, None) => true,
                _ => false,
            }
        }),
{
    EventData::Job {
        id,
        kind: kind.to_owned(),
        status: status.as_str().to_owned(),
        title: match title {
            Some(t) => Some(t.to_owned()),
            None => None,
        },
    }
}

/// The payload of a `"song"` event: an action name and the one affected
/// entity.
pub fn song_event_data(action: &str, song_id: i64) -> (r: EventData)
    ensures
        (r matches EventData::Song { action: ra, song_ids: rs } && ra@ == action@ && rs@.len() == 1
            && rs@[0] == song_id),
{
    let mut ids: Vec<i64> = Vec::new();
    ids.push(song_id);
    EventData::Song { action: action.to_owned(), song_ids: ids }
}

/// Publishes the `"job"` envelope for a row's state change.
pub fn publish_job_event(bus: &EventBus, id: i64, kind: &str, status: JobStatus, title: Option<
    &str,
>) {
    let data = job_event_data(id, kind, status, title);
    bus.publish(String::from_str("job"), data);
}

/// Publishes the `"song"` envelope for a changed domain entity.
pub fn publish_song_event(bus: &EventBus, action: &str, song_id: i64) {
    let data = song_event_data(action, song_id);
    bus.publish(String::from_str("song"), data);
}

} // verus!
