//! Timed plugin events and the bounded queue that accumulates them between
//! render calls.
//!
//! Events are created by the host, flushed to the plugin instance atomically
//! before the render call that should observe them, and never retained after
//! the flush.

use vstd::prelude::*;

use crate::errors::HostError;
use crate::instance::same_static;
use crate::instance::PluginInstance;

verus! {

/// A note event: the one event kind the host currently produces.
#[derive(Clone, Copy, Debug)]
pub struct NoteEvent {
    /// MIDI-style note number.
    pub note_number: u8,
    /// Key velocity.
    pub velocity: u8,
    /// Length of the note in samples; `None` means indefinite.
    pub duration_samples: Option<u32>,
    /// Sample offset within the block at which the event takes effect.
    pub delta_frames: u32,
    /// True for note-on, false for note-off.
    pub is_note_on: bool,
}

/// A timed event, a discriminated union over event kinds.
#[derive(Clone, Copy, Debug)]
pub enum TimedEvent {
    /// A note-on or note-off.
    Note(NoteEvent),
}

impl TimedEvent {
    /// The note payload of the event.
    pub open spec fn note(self) -> NoteEvent {
        match self {
            TimedEvent::Note(n) => n,
        }
    }

    /// Whether the event starts a note.
    pub open spec fn starts_note(self) -> bool {
        self.note().is_note_on
    }
}

/// A bounded, ordered queue of timed events awaiting the next render call.
pub struct EventQueue {
    /// Events in the order they were pushed and will be delivered.
    pub events: Vec<TimedEvent>,
    /// The fixed capacity of the underlying event transport buffer.
    pub capacity: usize,
}

impl EventQueue {
    /// The queue never holds more events than its capacity.
    pub open spec fn wf(self) -> bool {
        self.events@.len() <= self.capacity
    }

    /// Create an empty queue whose transport buffer holds `capacity` events.
    pub fn new(capacity: usize) -> (q: EventQueue)
        ensures
            q.events@.len() == 0,
            q.capacity == capacity,
            q.wf(),
    {
        EventQueue { events: Vec::new(), capacity }
    }

    /// How many events are waiting.
    pub fn len(&self) -> (r: usize)
        ensures
            r == self.events@.len(),
    {
        self.events.len()
    }

    /// Whether no events are waiting.
    pub fn is_empty(&self) -> (r: bool)
        ensures
            r == (self.events@.len() == 0),
    {
        self.events.len() == 0
    }

    /// Append an event, or reject it with `QueueFull` once the transport
    /// buffer's capacity is reached. A rejected event is dropped, but the
    /// caller is always signalled: no event is ever lost silently.
    pub fn push(&mut self, event: TimedEvent) -> (r: Result<(), HostError>)
        ensures
            final(self).capacity == old(self).capacity,
            old(self).events@.len() < old(self).capacity ==> {
                &&& r is Ok
                &&& final(self).events@ == old(self).events@.push(event)
            },
            old(self).events@.len() >= old(self).capacity ==> {
                &&& r == Err::<(), HostError>(HostError::QueueFull)
                &&& final(self).events@ == old(self).events@
            },
            old(self).wf() ==> final(self).wf(),
    {
        if self.events.len() < self.capacity {
            self.events.push(event);
            Ok(())
        } else {
            Err(HostError::QueueFull)
        }
    }

    /// Send the entire queued sequence to the instance in its order, then
    /// clear the queue: the flush is atomic, and must complete before the
    /// render call that should observe the events.
    pub fn flush_to(&mut self, instance: &mut PluginInstance)
        ensures
            final(self).capacity == old(self).capacity,
            final(self).events@.len() == 0,
            final(instance).pending@ == old(instance).pending@ + old(self).events@,
            same_static(*old(instance), *final(instance)),
            final(instance).editor_open == old(instance).editor_open,
    {
        instance.send_events(&self.events);
        self.events.clear();
    }
}

} // verus!
