//! Producer-side rules of the bounded event channel: when an event is lost
//! and when the aggregator is asked to drain early.
use vstd::prelude::*;

verus! {

/// Default capacity of the event channel.
pub const DEFAULT_EVENT_BUFFER_CAPACITY: usize = 102400;

/// Default capacity of each subscriber's channel.
pub const DEFAULT_CLIENT_BUFFER_CAPACITY: usize = 4096;

/// Default publish interval, in nanoseconds (one second).
pub const DEFAULT_PUBLISH_INTERVAL: u64 = 1000000000;

/// Default retention of closed entities, in nanoseconds (one hour).
pub const DEFAULT_RETENTION: u64 = 3600000000000;

/// Default port of the server.
pub const DEFAULT_PORT: u16 = 6669;

/// What a non-blocking send into the event channel found.
#[derive(Clone, Copy, Debug, PartialEq, Eq)]
pub enum TrySend {
    Sent,
    Closed,
    Full,
}

/// What a producer does after a send attempt.
#[derive(Clone, Copy, Debug, PartialEq, Eq)]
pub struct SendDecision {
    /// The event was queued.
    pub sent: bool,
    /// The event was lost to a full channel and counts as dropped.
    pub count_drop: bool,
    /// The aggregator should be woken to drain the channel.
    pub trigger_flush: bool,
}

/// The remaining capacity at or under which a flush is triggered: half the
/// channel.
pub fn flush_threshold(event_buffer_capacity: usize) -> (r: usize)
    ensures
        r == event_buffer_capacity / 2,
{
    event_buffer_capacity / 2
}

/// The decision after a send attempt that found `result`, with
/// `remaining_capacity` left in the channel afterwards.
pub fn decide_send(result: TrySend, remaining_capacity: usize, flush_under_capacity: usize) -> (r:
    SendDecision)
    ensures
        r.sent == (result == TrySend::Sent),
        r.count_drop == (result == TrySend::Full),
        r.trigger_flush == (remaining_capacity <= flush_under_capacity),
{
    SendDecision {
        sent: match result {
            TrySend::Sent => true,
            _ => false,
        },
        count_drop: match result {
            TrySend::Full => true,
            _ => false,
        },
        trigger_flush: remaining_capacity <= flush_under_capacity,
    }
}

} // verus!
