//! The host's cross-cutting guarantees, stated over the same spec functions
//! the components' contracts use.

use vstd::prelude::*;

use crate::buffers::AudioBufferView;
use crate::errors::HostError;
use crate::events::TimedEvent;
use crate::instance::first_note_on;
use crate::instance::rendered_sample;
use crate::instance::same_static;
use crate::instance::EditorHandle;
use crate::instance::PluginInstance;
use crate::module::instance_of_prototype;
use crate::module::load_spec;
use crate::module::ModuleResource;
use crate::module::PluginPrototype;
use crate::render_loop::teardown_steps_spec;
use crate::render_loop::LoopState;
use crate::render_loop::RenderLoop;
use crate::render_loop::TeardownStep;
use crate::render_loop::UiAction;
use crate::render_loop::UiEvent;

verus! {

/// Law: for a conforming prototype, loading succeeds with that prototype,
/// any instance created from it carries the prototype's descriptor, and —
/// since every instance operation keeps `same_static` — the unique id every
/// `get_info` reports stays that of the prototype for the instance's whole
/// life.
pub proof fn lemma_unique_id_stable(p: PluginPrototype, inst: PluginInstance)
    requires
        p.yields_instance,
        instance_of_prototype(inst, p),
    ensures
        load_spec(ModuleResource::Module(p)) matches Ok(m) && m.prototype == p,
        inst.descriptor.unique_id == p.descriptor.unique_id,
{
}

/// Law: the descriptor, and with it the unique id, survives any chain of
/// instance operations: each of them ensures `same_static`.
pub proof fn lemma_descriptor_survives_operations(a: PluginInstance, b: PluginInstance)
    requires
        same_static(a, b),
    ensures
        a.descriptor == b.descriptor,
        a.descriptor.unique_id == b.descriptor.unique_id,
{
}

/// Law: whether a render call is accepted depends only on the bound shape.
/// `render` keeps both the negotiated channel counts and the view's channel
/// counts, so repeated renders with views of one bound shape never raise
/// `BufferShapeMismatch`, while a view with a mismatched channel count is
/// refused every time.
pub proof fn lemma_render_acceptance_is_shape_only(
    a: PluginInstance,
    b: PluginInstance,
    v: AudioBufferView,
    w: AudioBufferView,
)
    requires
        same_static(a, b),
        v.inputs@.len() == w.inputs@.len(),
        v.outputs@.len() == w.outputs@.len(),
    ensures
        a.shape_matches(v) == b.shape_matches(w),
{
}

/// Law: flushing an empty queue is indistinguishable, in the plugin's
/// observable output, from never flushing: the pending sequence is unchanged,
/// and with it every sample the next render produces.
pub proof fn lemma_empty_flush_indistinguishable(
    pending: Seq<TimedEvent>,
    queued: Seq<TimedEvent>,
)
    requires
        queued.len() == 0,
    ensures
        pending + queued == pending,
        first_note_on(pending + queued) == first_note_on(pending),
        forall|i: int|
            rendered_sample(first_note_on(pending + queued), i) == rendered_sample(
                first_note_on(pending),
                i,
            ),
{
    assert(pending + queued =~= pending);
}

/// Law: opening an open editor fails with `EditorAlreadyOpen` and changes
/// nothing, while closing and then reopening with a supported handle
/// succeeds.
pub proof fn lemma_editor_reopen(inst: PluginInstance, handle: EditorHandle)
    requires
        inst.has_editor,
        !inst.editor_open,
        handle.kind == inst.editor_handle_kind,
    ensures
        ({
            let (opened, first) = inst.open_editor_spec(handle);
            let (still_open, second) = opened.open_editor_spec(handle);
            let closed = still_open.close_editor_spec();
            let (reopened, third) = closed.open_editor_spec(handle);
            &&& first == Ok::<(), HostError>(())
            &&& opened.editor_open
            &&& second == Err::<(), HostError>(HostError::EditorAlreadyOpen)
            &&& still_open == opened
            &&& third == Ok::<(), HostError>(())
            &&& reopened.editor_open
        }),
{
}

/// Law: a close request moves a running loop to `ShuttingDown` and stops the
/// polling, and teardown runs each step exactly once, in order: the editor
/// close (only when one is open), then the instance destruction, then the
/// module unload.
pub proof fn lemma_close_request_shuts_down(rl: RenderLoop)
    requires
        rl.state == LoopState::Running,
    ensures
        rl.ui_step_spec(UiEvent::CloseRequested).0 == LoopState::ShuttingDown,
        rl.ui_step_spec(UiEvent::CloseRequested).1 == UiAction::StopPolling,
        teardown_steps_spec(true) == seq![
            TeardownStep::EditorClosed,
            TeardownStep::InstanceDestroyed,
            TeardownStep::ModuleUnloaded,
        ],
        teardown_steps_spec(false) == seq![
            TeardownStep::InstanceDestroyed,
            TeardownStep::ModuleUnloaded,
        ],
{
}

} // verus!
