//! The top-level driver: on each cycle it flushes pending events to the
//! instance, binds the channel storage, renders one block, and leaves the
//! bound view for output inspection. Windowing events are turned into loop
//! decisions here; the polling itself is the windowing collaborator's work.
//!
//! Ordering guarantees: the event flush completes before the render begins;
//! the render completes before the returned view can be inspected; at
//! shutdown the editor closes before the instance is destroyed, and the
//! module is unloaded only after that.

use vstd::prelude::*;

use crate::buffers::AudioBufferView;
use crate::buffers::BufferPool;
use crate::errors::HostError;
use crate::events::EventQueue;
use crate::events::TimedEvent;
use crate::instance::first_note_on;
use crate::instance::rendered_sample;
use crate::instance::same_static;
use crate::instance::PluginInstance;
use crate::module::PluginModule;
use crate::Sample;

verus! {

/// The driver's lifecycle: `Running` until a close request arrives, then
/// `ShuttingDown` while in-flight work completes, then the terminal
/// `Stopped`.
#[derive(Clone, Copy, Debug, PartialEq, Eq, Structural)]
pub enum LoopState {
    /// The loop renders a block per tick and services windowing events.
    Running,
    /// A close was requested; no new cycle starts.
    ShuttingDown,
    /// Terminal: teardown has run.
    Stopped,
}

/// The windowing events the collaborator must deliver.
#[derive(Clone, Copy, Debug, PartialEq, Eq, Structural)]
pub enum UiEvent {
    /// The user asked to close the host window.
    CloseRequested,
    /// The window wants its contents redrawn.
    RedrawRequested,
    /// A generic turn of the event loop.
    Tick,
}

/// What the driver asks its caller to do next.
#[derive(Clone, Copy, Debug, PartialEq, Eq, Structural)]
pub enum UiAction {
    /// Ask the window for a redraw.
    RequestRedraw,
    /// Render one audio block.
    RenderBlock,
    /// Stop polling and begin teardown.
    StopPolling,
}

/// One step of the ordered teardown.
#[derive(Clone, Copy, Debug, PartialEq, Eq, Structural)]
pub enum TeardownStep {
    /// The open editor was closed.
    EditorClosed,
    /// The plugin instance was destroyed.
    InstanceDestroyed,
    /// The native module was unloaded.
    ModuleUnloaded,
}

/// The exact teardown order: the editor closes first when it is open, the
/// instance is destroyed next, and the module is unloaded last.
pub open spec fn teardown_steps_spec(editor_open: bool) -> Seq<TeardownStep> {
    if editor_open {
        seq![
            TeardownStep::EditorClosed,
            TeardownStep::InstanceDestroyed,
            TeardownStep::ModuleUnloaded,
        ]
    } else {
        seq![TeardownStep::InstanceDestroyed, TeardownStep::ModuleUnloaded]
    }
}

/// What shutting down produced: the steps taken, in order, and the terminal
/// state reached.
pub struct ShutdownReport {
    /// Every teardown step, in the order it ran.
    pub steps: Vec<TeardownStep>,
    /// The state the loop ended in.
    pub final_state: LoopState,
}

/// The top-level driver. It owns the instance for the instance's whole
/// lifetime, and the module it came from, so teardown can order the editor
/// close, the instance destruction, and the module unload.
pub struct RenderLoop {
    /// The lifecycle state.
    pub state: LoopState,
    /// The loaded module; unloaded last.
    pub module: PluginModule,
    /// The live plugin instance the loop drives.
    pub instance: PluginInstance,
    /// Events pushed between renders, flushed each cycle.
    pub queue: EventQueue,
    /// The configured shape of the storage bound each cycle.
    pub pool: BufferPool,
}

impl RenderLoop {
    /// The pool's shape agrees with what the instance negotiated, and the
    /// queue respects its capacity.
    pub open spec fn wf(self) -> bool {
        &&& self.pool.num_inputs == self.instance.num_inputs
        &&& self.pool.num_outputs == self.instance.num_outputs
        &&& self.queue.wf()
    }

    /// What one windowing event does: the state afterwards and the action
    /// the caller should take. Only a close request changes the state.
    pub open spec fn ui_step_spec(self, event: UiEvent) -> (LoopState, UiAction) {
        match event {
            UiEvent::CloseRequested => (LoopState::ShuttingDown, UiAction::StopPolling),
            UiEvent::RedrawRequested => (self.state, UiAction::RenderBlock),
            UiEvent::Tick => (self.state, UiAction::RequestRedraw),
        }
    }

    /// Assemble the driver. The pool's channel counts must match what the
    /// instance negotiated; a mismatch is the fatal configuration error
    /// `ShapeMismatch`.
    pub fn new(
        module: PluginModule,
        instance: PluginInstance,
        queue: EventQueue,
        pool: BufferPool,
    ) -> (r: Result<RenderLoop, HostError>)
        requires
            queue.wf(),
        ensures
            (pool.num_inputs == instance.num_inputs && pool.num_outputs == instance.num_outputs)
                ==> {
                &&& r matches Ok(rl)
                &&& rl.state == LoopState::Running
                &&& rl.module == module
                &&& rl.instance == instance
                &&& rl.queue == queue
                &&& rl.pool == pool
                &&& rl.wf()
            },
            !(pool.num_inputs == instance.num_inputs && pool.num_outputs == instance.num_outputs)
                ==> r == Err::<RenderLoop, HostError>(HostError::ShapeMismatch),
    {
        if pool.num_inputs != instance.num_inputs || pool.num_outputs != instance.num_outputs {
            return Err(HostError::ShapeMismatch);
        }
        Ok(RenderLoop { state: LoopState::Running, module, instance, queue, pool })
    }

    /// The current lifecycle state.
    pub fn state(&self) -> (r: LoopState)
        ensures
            r == self.state,
    {
        self.state
    }

    /// Whether another cycle may start.
    pub fn is_running(&self) -> (r: bool)
        ensures
            r == (self.state == LoopState::Running),
    {
        match self.state {
            LoopState::Running => true,
            _ => false,
        }
    }

    /// Queue one event for the next cycle, or report `QueueFull` for every
    /// excess push once the transport buffer's capacity is reached.
    pub fn push_event(&mut self, event: TimedEvent) -> (r: Result<(), HostError>)
        ensures
            final(self).state == old(self).state,
            final(self).module == old(self).module,
            final(self).instance == old(self).instance,
            final(self).pool == old(self).pool,
            final(self).queue.capacity == old(self).queue.capacity,
            old(self).queue.events@.len() < old(self).queue.capacity ==> {
                &&& r is Ok
                &&& final(self).queue.events@ == old(self).queue.events@.push(event)
            },
            old(self).queue.events@.len() >= old(self).queue.capacity ==> {
                &&& r == Err::<(), HostError>(HostError::QueueFull)
                &&& final(self).queue.events@ == old(self).queue.events@
            },
            old(self).wf() ==> final(self).wf(),
    {
        self.queue.push(event)
    }

    /// Decide what one windowing event means for the loop. A close request
    /// moves the loop to `ShuttingDown` and stops polling; a redraw request
    /// asks for a block to be rendered; a generic tick asks the window for a
    /// redraw, keeping rendering and polling in lockstep.
    pub fn handle_ui_event(&mut self, event: UiEvent) -> (a: UiAction)
        ensures
            final(self).state == old(self).ui_step_spec(event).0,
            a == old(self).ui_step_spec(event).1,
            final(self).module == old(self).module,
            final(self).instance == old(self).instance,
            final(self).queue == old(self).queue,
            final(self).pool == old(self).pool,
            old(self).wf() ==> final(self).wf(),
    {
        match event {
            UiEvent::CloseRequested => {
                self.state = LoopState::ShuttingDown;
                UiAction::StopPolling
            },
            UiEvent::RedrawRequested => UiAction::RenderBlock,
            UiEvent::Tick => UiAction::RequestRedraw,
        }
    }

    /// One render cycle over the given channel storage: flush the queued
    /// events to the instance, bind the storage, render the block, and hand
    /// the bound view back for inspection. The flush completes before the
    /// render begins, so the render observes exactly the events queued
    /// before this cycle. Storage of the wrong shape is refused with
    /// `ShapeMismatch` after the flush, leaving the delivered events pending
    /// for the cycle that follows.
    pub fn tick(&mut self, inputs: Vec<Vec<Sample>>, outputs: Vec<Vec<Sample>>) -> (r: Result<
        AudioBufferView,
        HostError,
    >)
        requires
            old(self).wf(),
            old(self).state == LoopState::Running,
        ensures
            final(self).wf(),
            final(self).state == old(self).state,
            final(self).module == old(self).module,
            same_static(old(self).instance, final(self).instance),
            final(self).instance.editor_open == old(self).instance.editor_open,
            final(self).queue.capacity == old(self).queue.capacity,
            final(self).queue.events@.len() == 0,
            final(self).pool == old(self).pool,
            r is Ok <==> old(self).pool.accepts(inputs@, outputs@),
            !old(self).pool.accepts(inputs@, outputs@) ==> {
                &&& r == Err::<AudioBufferView, HostError>(HostError::ShapeMismatch)
                &&& final(self).instance.pending@ == old(self).instance.pending@ + old(
                    self,
                ).queue.events@
            },
            r matches Ok(v) ==> {
                &&& v.block_len == old(self).pool.block_len
                &&& v.inputs == inputs
                &&& v.outputs@.len() == old(self).pool.num_outputs
                &&& v.wf()
                &&& forall|c: int, i: int|
                    0 <= c < v.outputs@.len() && 0 <= i < old(self).pool.block_len
                        ==> v.outputs@[c]@[i] == rendered_sample(
                        first_note_on(old(self).instance.pending@ + old(self).queue.events@),
                        i,
                    )
                &&& final(self).instance.pending@.len() == 0
            },
    {
        self.queue.flush_to(&mut self.instance);
        let mut view = match self.pool.bind(inputs, outputs) {
            Ok(v) => v,
            Err(e) => {
                return Err(e);
            },
        };
        match self.instance.render(&mut view) {
            Ok(()) => Ok(view),
            Err(e) => Err(e),
        }
    }

    /// Tear the session down in order: close the editor if one is open,
    /// destroy the instance, unload the module — each exactly once — and end
    /// in the terminal `Stopped` state.
    pub fn shutdown(self) -> (r: ShutdownReport)
        ensures
            r.final_state == LoopState::Stopped,
            r.steps@ == teardown_steps_spec(self.instance.editor_open),
    {
        let mut this = self;
        let mut steps: Vec<TeardownStep> = Vec::new();
        if this.instance.editor_open {
            this.instance.close_editor();
            steps.push(TeardownStep::EditorClosed);
        }
        steps.push(TeardownStep::InstanceDestroyed);
        steps.push(TeardownStep::ModuleUnloaded);
        proof {
            assert(steps@ =~= teardown_steps_spec(self.instance.editor_open));
        }
        ShutdownReport { steps, final_state: LoopState::Stopped }
    }
}

} // verus!
