//! The live plugin instance: metadata queries, the editor state machine,
//! event delivery, and the per-block render call.
//!
//! The instance models a conforming plugin behind the binary boundary: events
//! delivered before a render call are consumed by exactly that call, the
//! output channels are fully repopulated on every successful render, and a
//! note-on event makes the block audible from its delta-frame offset on.

use vstd::prelude::*;

use crate::buffers::AudioBufferView;
use crate::descriptor::PluginDescriptor;
use crate::errors::HostError;
use crate::events::NoteEvent;
use crate::events::TimedEvent;
use crate::Sample;

verus! {

/// The platform kind of a native window handle.
#[derive(Clone, Copy, Debug, PartialEq, Eq, Structural)]
pub enum HandleKind {
    /// A view-style handle, as used where windows expose inner views.
    View,
    /// A whole-window handle.
    Window,
}

/// An opaque native window-handle value, exchanged once at editor-open time.
/// The window owner keeps ownership; the plugin only borrows the handle to
/// parent its own surface into it.
#[derive(Clone, Copy, Debug, PartialEq, Eq, Structural)]
pub struct EditorHandle {
    /// The platform kind the handle belongs to.
    pub kind: HandleKind,
    /// The raw handle bits, opaque to the host.
    pub raw: u64,
}

/// The first note-on event of a delivered sequence, in delivery order.
/// The host performs no reordering by delta-frame offset.
pub open spec fn first_note_on(events: Seq<TimedEvent>) -> Option<NoteEvent>
    decreases events.len(),
{
    if events.len() == 0 {
        None
    } else if events[0].starts_note() {
        Some(events[0].note())
    } else {
        first_note_on(events.drop_first())
    }
}

/// The sample a conforming note-on synth writes at block offset `i`, given
/// the first note-on of the cycle's delivered events: the key velocity from
/// the event's delta-frame offset on, silence before it and without a note.
pub open spec fn rendered_sample(onset: Option<NoteEvent>, i: int) -> Sample {
    match onset {
        Option::None => 0,
        Option::Some(n) => if n.delta_frames <= i {
            n.velocity as Sample
        } else {
            0
        },
    }
}

/// Find the first note-on event of `events` in delivery order.
fn scan_first_note_on(events: &Vec<TimedEvent>) -> (r: Option<NoteEvent>)
    ensures
        r == first_note_on(events@),
{
    let mut i: usize = 0;
    proof {
        assert(events@.skip(0) =~= events@);
    }
    while i < events.len()
        invariant
            i <= events@.len(),
            first_note_on(events@) == first_note_on(events@.skip(i as int)),
        decreases events@.len() - i,
    {
        proof {
            assert(events@.skip(i as int)[0] == events@[i as int]);
        }
        let TimedEvent::Note(n) = events[i];
        if n.is_note_on {
            return Some(n);
        }
        proof {
            assert(events@.skip(i as int).drop_first() =~= events@.skip(i as int + 1));
        }
        i += 1;
    }
    proof {
        assert(events@.skip(i as int) =~= Seq::<TimedEvent>::empty());
    }
    None
}

/// The live plugin object produced by instantiation.
pub struct PluginInstance {
    /// Metadata the plugin reported at instantiation.
    pub descriptor: PluginDescriptor,
    /// Input channel count negotiated at instantiation.
    pub num_inputs: usize,
    /// Output channel count negotiated at instantiation.
    pub num_outputs: usize,
    /// Whether the plugin declares a graphical editor.
    pub has_editor: bool,
    /// The native handle kind the plugin's editor supports.
    pub editor_handle_kind: HandleKind,
    /// Whether the editor is currently open.
    pub editor_open: bool,
    /// Events delivered for the next render call, in delivery order.
    pub pending: Vec<TimedEvent>,
}

/// The parts of an instance that no operation after instantiation may change:
/// its metadata and its negotiated configuration.
pub open spec fn same_static(a: PluginInstance, b: PluginInstance) -> bool {
    &&& a.descriptor == b.descriptor
    &&& a.num_inputs == b.num_inputs
    &&& a.num_outputs == b.num_outputs
    &&& a.has_editor == b.has_editor
    &&& a.editor_handle_kind == b.editor_handle_kind
}

impl PluginInstance {
    /// The view's channel counts are exactly those negotiated at
    /// instantiation.
    pub open spec fn shape_matches(self, view: AudioBufferView) -> bool {
        &&& view.inputs@.len() == self.num_inputs
        &&& view.outputs@.len() == self.num_outputs
    }

    /// What opening the editor does: the state after the call and the result.
    /// A second open without an intervening close is refused, as is a handle
    /// of a platform kind the plugin does not support.
    pub open spec fn open_editor_spec(self, handle: EditorHandle) -> (PluginInstance, Result<
        (),
        HostError,
    >) {
        if self.editor_open {
            (self, Err(HostError::EditorAlreadyOpen))
        } else if handle.kind != self.editor_handle_kind {
            (self, Err(HostError::InvalidHandle))
        } else {
            (PluginInstance { editor_open: true, ..self }, Ok(()))
        }
    }

    /// What closing the editor does: the editor is closed, all else is kept.
    pub open spec fn close_editor_spec(self) -> PluginInstance {
        PluginInstance { editor_open: false, ..self }
    }

    /// Query the descriptor. Pure: no side effects, always succeeds.
    pub fn get_info(&self) -> (r: &PluginDescriptor)
        ensures
            *r == self.descriptor,
    {
        &self.descriptor
    }

    /// Whether the plugin declares an editor that can receive a handle.
    pub fn editor_available(&self) -> (r: bool)
        ensures
            r == self.has_editor,
    {
        self.has_editor
    }

    /// Hand the plugin a native handle to parent its editor into. One-shot:
    /// fails with `EditorAlreadyOpen` when the editor is already open, and
    /// with `InvalidHandle` when the handle's platform kind is not the one
    /// the plugin supports.
    pub fn open_editor(&mut self, handle: EditorHandle) -> (r: Result<(), HostError>)
        requires
            old(self).has_editor,
        ensures
            *final(self) == old(self).open_editor_spec(handle).0,
            r == old(self).open_editor_spec(handle).1,
    {
        if self.editor_open {
            Err(HostError::EditorAlreadyOpen)
        } else if handle.kind != self.editor_handle_kind {
            Err(HostError::InvalidHandle)
        } else {
            self.editor_open = true;
            Ok(())
        }
    }

    /// Close the editor. Closing an editor that is not open is a no-op.
    pub fn close_editor(&mut self)
        ensures
            *final(self) == old(self).close_editor_spec(),
    {
        self.editor_open = false;
    }

    /// Deliver events for the next render call, appended in the call's
    /// iteration order; the host never reorders by delta-frame offset.
    pub fn send_events(&mut self, events: &Vec<TimedEvent>)
        ensures
            final(self).pending@ == old(self).pending@ + events@,
            same_static(*old(self), *final(self)),
            final(self).editor_open == old(self).editor_open,
    {
        let mut k: usize = 0;
        while k < events.len()
            invariant
                k <= events@.len(),
                self.pending@ == old(self).pending@ + events@.take(k as int),
                same_static(*old(self), *self),
                self.editor_open == old(self).editor_open,
            decreases events@.len() - k,
        {
            self.pending.push(events[k]);
            proof {
                assert(events@.take(k as int).push(events@[k as int]) =~= events@.take(
                    k as int + 1,
                ));
                assert(old(self).pending@ + events@.take(k as int + 1) =~= (old(self).pending@
                    + events@.take(k as int)).push(events@[k as int]));
            }
            k += 1;
        }
        proof {
            assert(events@.take(events@.len() as int) =~= events@);
        }
    }

    /// Render one block. The view's channel counts must exactly match what
    /// was negotiated at instantiation; a mismatch is the fatal
    /// `BufferShapeMismatch` and changes nothing. On success the pending
    /// events are consumed exactly once, every output channel is fully
    /// repopulated for the block, and the inputs are left as they were.
    pub fn render(&mut self, view: &mut AudioBufferView) -> (r: Result<(), HostError>)
        requires
            old(view).wf(),
        ensures
            same_static(*old(self), *final(self)),
            final(self).editor_open == old(self).editor_open,
            r is Ok <==> old(self).shape_matches(*old(view)),
            !old(self).shape_matches(*old(view)) ==> {
                &&& r == Err::<(), HostError>(HostError::BufferShapeMismatch)
                &&& *final(self) == *old(self)
                &&& *final(view) == *old(view)
            },
            old(self).shape_matches(*old(view)) ==> {
                &&& final(self).pending@.len() == 0
                &&& final(view).inputs == old(view).inputs
                &&& final(view).block_len == old(view).block_len
                &&& final(view).outputs@.len() == old(view).outputs@.len()
                &&& final(view).wf()
                &&& forall|c: int, i: int|
                    0 <= c < final(view).outputs@.len() && 0 <= i < old(view).block_len
                        ==> final(view).outputs@[c]@[i] == rendered_sample(
                        first_note_on(old(self).pending@),
                        i,
                    )
            },
    {
        if view.inputs.len() != self.num_inputs || view.outputs.len() != self.num_outputs {
            return Err(HostError::BufferShapeMismatch);
        }
        let onset = scan_first_note_on(&self.pending);
        let block_len = view.block_len;
        let num_channels = view.outputs.len();
        // The bound storage is reused: the channels are overwritten in place,
        // never reallocated.
        let mut c: usize = 0;
        while c < num_channels
            invariant
                c <= num_channels,
                view.outputs@.len() == num_channels,
                view.inputs == old(view).inputs,
                view.block_len == old(view).block_len,
                view.block_len == block_len,
                view.wf(),
                onset == first_note_on(old(self).pending@),
                forall|k: int, i: int|
                    0 <= k < c && 0 <= i < block_len ==> (#[trigger] view.outputs@[k]@[i])
                        == rendered_sample(onset, i),
            decreases num_channels - c,
        {
            let mut i: usize = 0;
            while i < block_len
                invariant
                    c < num_channels,
                    i <= block_len,
                    view.outputs@.len() == num_channels,
                    view.inputs == old(view).inputs,
                    view.block_len == old(view).block_len,
                    view.block_len == block_len,
                    view.wf(),
                    onset == first_note_on(old(self).pending@),
                    forall|k: int, j: int|
                        0 <= k < c && 0 <= j < block_len ==> (#[trigger] view.outputs@[k]@[j])
                            == rendered_sample(onset, j),
                    forall|j: int|
                        0 <= j < i ==> (#[trigger] view.outputs@[c as int]@[j])
                            == rendered_sample(onset, j),
                decreases block_len - i,
            {
                let sample: Sample = match onset {
                    Option::None => 0,
                    Option::Some(n) => if (n.delta_frames as usize) <= i {
                        n.velocity as Sample
                    } else {
                        0
                    },
                };
                view.outputs[c][i] = sample;
                i += 1;
            }
            c += 1;
        }
        self.pending = Vec::new();
        Ok(())
    }
}

} // verus!
