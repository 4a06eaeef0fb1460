use vstd::prelude::*;

verus! {

/// A device event, such as a gear change, recorded during an activity.
#[derive(Clone, Copy, PartialEq, Eq, Structural)]
pub struct Event {
    /// Timestamp (in milliseconds) at which the event occurred.
    pub timestamp_ms: u64,
    /// Event type, from the file.
    pub event_type: u8,
    /// Event-type dependent data.
    pub event_data: u8,
}

impl Event {
    /// Creates a new, zeroed [`Event`].
    pub fn new() -> (e: Event)
        ensures
            e.timestamp_ms == 0,
            e.event_type == 0,
            e.event_data == 0,
    {
        Event { timestamp_ms: 0, event_type: 0, event_data: 0 }
    }
}

} // verus!
