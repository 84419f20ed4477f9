//! The kernel's event queue: output requests recorded by producers and
//! drained by a single sequential owner.
//!
//! There is no concurrency here: one logical owner appends and drains, so
//! the queue is an ordinary vector passed by mutable reference.  Performing
//! an event — painting text or writing to the serial line — is the front
//! end's job.

use vstd::prelude::*;

verus! {

/// What an event asks for: a framed line, raw text, or serial output.
pub enum EventType {
    PrintLine(String),
    Print(String),
    SerialIO(String),
}

/// One recorded event and whether it has already been performed.
pub struct KernelEvent {
    pub event_type: EventType,
    pub fired: bool,
}

/// The queue of pending events, in arrival order.
pub struct EventManager {
    pub events: Vec<KernelEvent>,
}

impl EventManager {
    /// An empty queue.
    pub fn new() -> (r: Self)
        ensures
            r.events@.len() == 0,
    {
        Self { events: Vec::new() }
    }

    /// Discards every recorded event.
    pub fn clean_events(&mut self)
        ensures
            final(self).events@.len() == 0,
    {
        self.events.clear();
    }

    /// Appends one event, not yet fired, after all earlier ones.
    pub fn new_event(&mut self, event: EventType)
        ensures
            final(self).events@.len() == old(self).events@.len() + 1,
            final(self).events@.last().event_type == event,
            final(self).events@.last().fired == false,
            final(self).events@.take(old(self).events@.len() as int) == old(self).events@,
    {
        let kernel_event = KernelEvent { event_type: event, fired: false };
        self.events.push(kernel_event);
        proof {
            assert(self.events@.take(old(self).events@.len() as int) =~= old(self).events@);
        }
    }
}

} // verus!
