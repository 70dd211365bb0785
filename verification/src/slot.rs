//! The global callback slot: the single nullable slot that native
//! delivery invokes into.
//!
//! The slot follows a small state machine: empty, until a sink is
//! installed; armed, while one is; empty again after `clear`. `invoke`
//! delivers to the armed sink and is a defensive no-op on an empty
//! slot — native delivery may still fire in the narrow window after
//! deregistration. At most one sink is armed at a time: installing
//! into an armed slot keeps the first sink and hands the offered one
//! back.

use vstd::prelude::*;
use crate::events::Event;

verus! {

/// Where delivered events go: the listener's callback, seen as a sink
/// with a ghost log of everything delivered to it, in order.
pub trait EventSink: Sized {
    /// Everything delivered to this sink so far, in delivery order.
    spec fn delivered(&self) -> Seq<Event>;

    /// Accept one event: the log grows by exactly that event.
    fn deliver(&mut self, event: Event)
        ensures
            final(self).delivered() == old(self).delivered().push(event),
    ;
}

/// A sink that records every delivered event: the library's own
/// callback for tests and for observing delivery order.
pub struct EventLog {
    pub events: Vec<Event>,
}

impl EventLog {
    /// An empty log.
    pub fn new() -> (log: EventLog)
        ensures
            log.delivered() == Seq::<Event>::empty(),
    {
        EventLog { events: Vec::new() }
    }

    /// How many events have been delivered.
    pub fn len(&self) -> (n: usize)
        ensures
            n == self.delivered().len(),
    {
        self.events.len()
    }
}

impl EventSink for EventLog {
    open spec fn delivered(&self) -> Seq<Event> {
        self.events@
    }

    fn deliver(&mut self, event: Event) {
        self.events.push(event);
    }
}

/// The process-wide single-slot callback storage.
///
/// The ghost `invocations` counter records how many times an armed
/// sink was invoked over the slot's lifetime; invocations on an empty
/// slot do not count, and do nothing.
pub struct CallbackSlot<S: EventSink> {
    sink: Option<S>,
    invocations: Ghost<nat>,
}

impl<S: EventSink> CallbackSlot<S> {
    /// Whether a sink is installed.
    pub closed spec fn armed(&self) -> bool {
        self.sink is Some
    }

    /// The log of the armed sink; arbitrary when the slot is empty.
    pub closed spec fn sink_log(&self) -> Seq<Event> {
        self.sink->0.delivered()
    }

    /// How many deliveries the slot has made while armed.
    pub closed spec fn invocation_count(&self) -> nat {
        self.invocations@
    }

    /// Whether a sink is currently installed.
    pub fn is_armed(&self) -> (b: bool)
        ensures
            b == self.armed(),
    {
        match &self.sink {
            Some(_) => true,
            None => false,
        }
    }

    /// An empty slot that has never delivered.
    pub fn new() -> (slot: CallbackSlot<S>)
        ensures
            !slot.armed(),
            slot.invocation_count() == 0,
    {
        CallbackSlot { sink: None, invocations: Ghost(0) }
    }

    /// Install a sink. An empty slot becomes armed with it; an armed
    /// slot keeps its first sink and hands the offered one back, so a
    /// second listener never silently replaces the first.
    pub fn install(&mut self, sink: S) -> (rejected: Option<S>)
        ensures
            final(self).armed(),
            final(self).invocation_count() == old(self).invocation_count(),
            if old(self).armed() {
                &&& *final(self) == *old(self)
                &&& rejected == Some(sink)
            } else {
                &&& final(self).sink_log() == sink.delivered()
                &&& rejected is None
            },
    {
        match &self.sink {
            Some(_) => Some(sink),
            None => {
                self.sink = Some(sink);
                None
            }
        }
    }

    /// Deliver one event. An armed slot passes it to the sink, whose
    /// log grows by exactly this event, and counts the invocation; an
    /// empty slot is left exactly as it was — a no-op, however often it
    /// is called.
    pub fn invoke(&mut self, event: Event)
        ensures
            final(self).armed() == old(self).armed(),
            if old(self).armed() {
                &&& final(self).sink_log() == old(self).sink_log().push(event)
                &&& final(self).invocation_count() == old(self).invocation_count() + 1
            } else {
                *final(self) == *old(self)
            },
    {
        match &mut self.sink {
            Some(sink) => {
                sink.deliver(event);
                self.invocations = Ghost(self.invocations@ + 1);
            }
            None => {}
        }
    }

    /// Empty the slot, handing back the sink that was armed, if any.
    /// Clearing an already-empty slot is a no-op and returns `None`.
    pub fn clear(&mut self) -> (removed: Option<S>)
        ensures
            !final(self).armed(),
            final(self).invocation_count() == old(self).invocation_count(),
            if old(self).armed() {
                match removed {
                    Some(sink) => sink.delivered() == old(self).sink_log(),
                    None => false,
                }
            } else {
                &&& *final(self) == *old(self)
                &&& removed is None
            },
    {
        let mut removed: Option<S> = None;
        core::mem::swap(&mut self.sink, &mut removed);
        removed
    }

    /// Deliver a batch of events in order. An armed slot delivers each
    /// in turn — exactly as many invocations as events, with the sink's
    /// log extended by the batch in delivery order; an empty slot is
    /// left untouched.
    pub fn deliver_all(&mut self, events: &Vec<Event>)
        ensures
            final(self).armed() == old(self).armed(),
            if old(self).armed() {
                &&& final(self).sink_log() == old(self).sink_log() + events@
                &&& final(self).invocation_count() == old(self).invocation_count() + events@.len()
            } else {
                *final(self) == *old(self)
            },
    {
        let ghost orig = *self;
        for i in 0..events.len()
            invariant
                self.armed() == orig.armed(),
                if orig.armed() {
                    &&& self.sink_log() == orig.sink_log() + events@.take(i as int)
                    &&& self.invocation_count() == orig.invocation_count() + i
                } else {
                    *self == orig
                },
        {
            self.invoke(events[i].clone());
            proof {
                assert(events@.take(i + 1) == events@.take(i as int).push(events@[i as int]));
            }
        }
        proof {
            assert(events@.take(events@.len() as int) == events@);
        }
    }
}

} // verus!
