//! The latch that remembers whether the backend is believed to be healthy.

use vstd::prelude::*;

verus! {

/// What can change the latch.
pub enum HealthEvent {
    /// A generation stream ended in an error.
    StreamError,
    /// The backend answered an explicit probe.
    Probe(bool),
}

/// The latch after one event: an error clears it, a probe sets it to the
/// backend's answer.
pub open spec fn latch(before: bool, event: HealthEvent) -> bool {
    match event {
        HealthEvent::StreamError => false,
        HealthEvent::Probe(answer) => answer,
    }
}

/// The latch after a sequence of events, oldest first.
pub open spec fn latch_all(start: bool, events: Seq<HealthEvent>) -> bool
    decreases events.len(),
{
    if events.len() == 0 {
        start
    } else {
        latch(latch_all(start, events.drop_last()), events.last())
    }
}

/// The last known health of the backend.
#[derive(Debug)]
pub struct HealthTracker {
    healthy: bool,
}

impl View for HealthTracker {
    type V = bool;

    closed spec fn view(&self) -> bool {
        self.healthy
    }
}

impl HealthTracker {
    /// A latch that starts at the health the backend reports on startup.
    pub fn new(start_health: bool) -> (tracker: HealthTracker)
        ensures
            tracker@ == start_health,
    {
        HealthTracker { healthy: start_health }
    }

    /// The latched value, which a probe hands to the backend as a hint.
    pub fn current(&self) -> (healthy: bool)
        ensures
            healthy == self@,
    {
        self.healthy
    }

    /// Records that a stream ended in an error.
    pub fn mark_unhealthy(&mut self)
        ensures
            final(self)@ == latch(old(self)@, HealthEvent::StreamError),
    {
        self.healthy = false;
    }

    /// Records the backend's answer to a probe and returns it.
    pub fn record_probe(&mut self, answer: bool) -> (healthy: bool)
        ensures
            healthy == answer,
            final(self)@ == latch(old(self)@, HealthEvent::Probe(answer)),
    {
        self.healthy = answer;
        answer
    }
}

/// Health latching: once a stream error has been recorded, the latch reads
/// false after every later event up to, and not including, the first probe
/// that the backend answers with true.
pub proof fn law_health_latching(start: bool, events: Seq<HealthEvent>, error_at: int)
    requires
        0 <= error_at < events.len(),
        events[error_at] is StreamError,
        forall|k: int| error_at < k < events.len() ==> events[k] != HealthEvent::Probe(true),
    ensures
        !latch_all(start, events),
{
    let last = events.last();
    if error_at < events.len() - 1 {
        assert(last != HealthEvent::Probe(true));
    }
}

} // verus!
