use plugin_host::buffers::BufferPool;
use plugin_host::callback::HostCallback;
use plugin_host::descriptor::PluginDescriptor;
use plugin_host::errors::ErrorClass;
use plugin_host::errors::HostError;
use plugin_host::events::EventQueue;
use plugin_host::events::NoteEvent;
use plugin_host::events::TimedEvent;
use plugin_host::instance::EditorHandle;
use plugin_host::instance::HandleKind;
use plugin_host::module::ModuleResource;
use plugin_host::module::PluginModule;
use plugin_host::module::PluginPrototype;
use plugin_host::render_loop::LoopState;
use plugin_host::render_loop::RenderLoop;
use plugin_host::render_loop::TeardownStep;
use plugin_host::render_loop::UiAction;
use plugin_host::render_loop::UiEvent;

fn test_prototype() -> PluginPrototype {
    PluginPrototype {
        descriptor: PluginDescriptor {
            name: String::from("TestSynth"),
            vendor: String::from("TestVendor"),
            unique_id: 0x54535431,
            version: 1000,
            num_parameters: 4,
            num_presets: 2,
            initial_delay_samples: 0,
        },
        num_inputs: 2,
        num_outputs: 2,
        has_editor: true,
        editor_handle_kind: HandleKind::View,
        yields_instance: true,
    }
}

fn note_on(velocity: u8, delta_frames: u32) -> TimedEvent {
    TimedEvent::Note(NoteEvent {
        note_number: 60,
        velocity,
        duration_samples: Some(40),
        delta_frames,
        is_note_on: true,
    })
}

fn note_off(delta_frames: u32) -> TimedEvent {
    TimedEvent::Note(NoteEvent {
        note_number: 60,
        velocity: 0,
        duration_samples: None,
        delta_frames,
        is_note_on: false,
    })
}

#[test]
fn load_missing_path_fails() {
    let r = PluginModule::load(ModuleResource::Missing);
    assert!(matches!(r, Err(HostError::ModuleNotFound)));
}

#[test]
fn load_rejected_file_fails() {
    let r = PluginModule::load(ModuleResource::Rejected);
    assert!(matches!(r, Err(HostError::ModuleLoadError)));
}

#[test]
fn load_without_entry_point_fails() {
    let r = PluginModule::load(ModuleResource::MissingEntryPoint);
    assert!(matches!(r, Err(HostError::EntryPointMissing)));
}

#[test]
fn instantiate_null_entry_fails() {
    let mut proto = test_prototype();
    proto.yields_instance = false;
    let module = PluginModule::load(ModuleResource::Module(proto)).unwrap();
    let host = HostCallback::new();
    let r = module.instantiate(&host);
    assert!(matches!(r, Err(HostError::InstantiationFailed)));
}

#[test]
fn unique_id_stable_across_get_info() {
    let module = PluginModule::load(ModuleResource::Module(test_prototype())).unwrap();
    let host = HostCallback::new();
    let instance = module.instantiate(&host).unwrap();
    let first = instance.get_info().unique_id;
    let second = instance.get_info().unique_id;
    assert_eq!(first, 0x54535431);
    assert_eq!(first, second);
    assert_eq!(instance.get_info().name, "TestSynth");
    assert_eq!(instance.get_info().vendor, "TestVendor");
}

#[test]
fn queue_rejects_every_excess_push() {
    let mut queue = EventQueue::new(2);
    assert!(queue.push(note_on(100, 0)).is_ok());
    assert!(queue.push(note_on(101, 0)).is_ok());
    assert!(matches!(queue.push(note_on(102, 0)), Err(HostError::QueueFull)));
    assert!(matches!(queue.push(note_on(103, 0)), Err(HostError::QueueFull)));
    assert_eq!(queue.len(), 2);
}

#[test]
fn queue_full_is_recoverable() {
    assert!(HostError::QueueFull.is_recoverable());
    assert_eq!(HostError::QueueFull.class(), ErrorClass::Capacity);
    assert_eq!(HostError::ModuleNotFound.class(), ErrorClass::Configuration);
    assert_eq!(HostError::BufferShapeMismatch.class(), ErrorClass::Configuration);
    assert_eq!(HostError::EditorAlreadyOpen.class(), ErrorClass::Protocol);
    assert!(!HostError::ModuleNotFound.is_recoverable());
}

#[test]
fn bind_rejects_mismatched_storage() {
    let pool = BufferPool::new(2, 2, 16);
    let bad_inputs = vec![vec![0i64; 16]; 3];
    let outputs = vec![vec![0i64; 16]; 2];
    assert!(matches!(pool.bind(bad_inputs, outputs), Err(HostError::ShapeMismatch)));

    let inputs = vec![vec![0i64; 16]; 2];
    let short_outputs = vec![vec![0i64; 15]; 2];
    assert!(matches!(pool.bind(inputs, short_outputs), Err(HostError::ShapeMismatch)));

    let inputs = pool.silent_inputs();
    let outputs = pool.silent_outputs();
    let view = pool.bind(inputs, outputs).unwrap();
    assert_eq!(view.num_inputs(), 2);
    assert_eq!(view.num_outputs(), 2);
    assert!(!view.any_output_nonzero());
}

#[test]
fn render_shape_acceptance_is_idempotent() {
    let module = PluginModule::load(ModuleResource::Module(test_prototype())).unwrap();
    let host = HostCallback::new();
    let mut instance = module.instantiate(&host).unwrap();
    let pool = BufferPool::new(2, 2, 64);
    for _ in 0..3 {
        let mut view = pool.bind(pool.silent_inputs(), pool.silent_outputs()).unwrap();
        assert!(instance.render(&mut view).is_ok());
    }
    let wide_pool = BufferPool::new(3, 2, 64);
    let mut wide_view = wide_pool
        .bind(wide_pool.silent_inputs(), wide_pool.silent_outputs())
        .unwrap();
    assert!(matches!(
        instance.render(&mut wide_view),
        Err(HostError::BufferShapeMismatch)
    ));
}

#[test]
fn empty_flush_is_indistinguishable_from_no_flush() {
    let module = PluginModule::load(ModuleResource::Module(test_prototype())).unwrap();
    let host = HostCallback::new();
    let mut flushed = module.instantiate(&host).unwrap();
    let mut unflushed = module.instantiate(&host).unwrap();
    let pool = BufferPool::new(2, 2, 32);

    let mut queue = EventQueue::new(8);
    assert!(queue.is_empty());
    queue.flush_to(&mut flushed);

    let mut view_a = pool.bind(pool.silent_inputs(), pool.silent_outputs()).unwrap();
    let mut view_b = pool.bind(pool.silent_inputs(), pool.silent_outputs()).unwrap();
    assert!(flushed.render(&mut view_a).is_ok());
    assert!(unflushed.render(&mut view_b).is_ok());
    for c in 0..2 {
        for i in 0..32 {
            assert_eq!(view_a.output_sample(c, i), view_b.output_sample(c, i));
        }
    }
}

#[test]
fn editor_double_open_then_reopen() {
    let module = PluginModule::load(ModuleResource::Module(test_prototype())).unwrap();
    let host = HostCallback::new();
    let mut instance = module.instantiate(&host).unwrap();
    assert!(instance.editor_available());
    let handle = EditorHandle { kind: HandleKind::View, raw: 0x1000 };
    assert!(instance.open_editor(handle).is_ok());
    assert!(matches!(instance.open_editor(handle), Err(HostError::EditorAlreadyOpen)));
    instance.close_editor();
    assert!(instance.open_editor(handle).is_ok());
}

#[test]
fn editor_rejects_wrong_handle_kind() {
    let module = PluginModule::load(ModuleResource::Module(test_prototype())).unwrap();
    let host = HostCallback::new();
    let mut instance = module.instantiate(&host).unwrap();
    let wrong = EditorHandle { kind: HandleKind::Window, raw: 0x1000 };
    assert!(matches!(instance.open_editor(wrong), Err(HostError::InvalidHandle)));
    let right = EditorHandle { kind: HandleKind::View, raw: 0x1000 };
    assert!(instance.open_editor(right).is_ok());
}

#[test]
fn note_on_produces_sound_end_to_end() {
    let module = PluginModule::load(ModuleResource::Module(test_prototype())).unwrap();
    let host = HostCallback::new();
    let instance = module.instantiate(&host).unwrap();
    let pool = BufferPool::new(2, 2, 1000);
    let queue = EventQueue::new(1024);
    let mut rl = RenderLoop::new(module, instance, queue, pool).unwrap();

    assert!(rl.push_event(note_on(100, 0)).is_ok());
    let inputs = vec![vec![0i64; 1000]; 2];
    let outputs = vec![vec![0i64; 1000]; 2];
    let view = rl.tick(inputs, outputs).unwrap();
    assert!(view.any_output_nonzero());
    assert_eq!(view.output_sample(0, 0), 100);
    assert_eq!(view.output_sample(1, 999), 100);
}

#[test]
fn note_on_offset_starts_mid_block() {
    let module = PluginModule::load(ModuleResource::Module(test_prototype())).unwrap();
    let host = HostCallback::new();
    let mut instance = module.instantiate(&host).unwrap();
    let events = vec![note_on(90, 500)];
    instance.send_events(&events);
    let pool = BufferPool::new(2, 2, 1000);
    let mut view = pool.bind(pool.silent_inputs(), pool.silent_outputs()).unwrap();
    assert!(instance.render(&mut view).is_ok());
    assert_eq!(view.output_sample(0, 499), 0);
    assert_eq!(view.output_sample(0, 500), 90);
    assert_eq!(view.output_sample(1, 999), 90);
}

#[test]
fn note_off_alone_stays_silent() {
    let module = PluginModule::load(ModuleResource::Module(test_prototype())).unwrap();
    let host = HostCallback::new();
    let mut instance = module.instantiate(&host).unwrap();
    let events = vec![note_off(0)];
    instance.send_events(&events);
    let pool = BufferPool::new(2, 2, 64);
    let mut view = pool.bind(pool.silent_inputs(), pool.silent_outputs()).unwrap();
    assert!(instance.render(&mut view).is_ok());
    assert!(!view.any_output_nonzero());
}

#[test]
fn events_are_consumed_exactly_once() {
    let module = PluginModule::load(ModuleResource::Module(test_prototype())).unwrap();
    let host = HostCallback::new();
    let mut instance = module.instantiate(&host).unwrap();
    let events = vec![note_on(100, 0)];
    instance.send_events(&events);
    let pool = BufferPool::new(2, 2, 16);
    let mut first = pool.bind(pool.silent_inputs(), pool.silent_outputs()).unwrap();
    assert!(instance.render(&mut first).is_ok());
    assert!(first.any_output_nonzero());
    let mut second = pool.bind(pool.silent_inputs(), pool.silent_outputs()).unwrap();
    assert!(instance.render(&mut second).is_ok());
    assert!(!second.any_output_nonzero());
}

#[test]
fn render_loop_rejects_mismatched_pool() {
    let module = PluginModule::load(ModuleResource::Module(test_prototype())).unwrap();
    let host = HostCallback::new();
    let instance = module.instantiate(&host).unwrap();
    let pool = BufferPool::new(2, 32, 1000);
    let queue = EventQueue::new(1024);
    let r = RenderLoop::new(module, instance, queue, pool);
    assert!(matches!(r, Err(HostError::ShapeMismatch)));
}

#[test]
fn close_request_transitions_and_teardown_order() {
    let module = PluginModule::load(ModuleResource::Module(test_prototype())).unwrap();
    let host = HostCallback::new();
    let mut instance = module.instantiate(&host).unwrap();
    let handle = EditorHandle { kind: HandleKind::View, raw: 0x2000 };
    assert!(instance.open_editor(handle).is_ok());

    let pool = BufferPool::new(2, 2, 256);
    let queue = EventQueue::new(16);
    let mut rl = RenderLoop::new(module, instance, queue, pool).unwrap();
    assert_eq!(rl.state(), LoopState::Running);

    assert_eq!(rl.handle_ui_event(UiEvent::Tick), UiAction::RequestRedraw);
    assert_eq!(rl.state(), LoopState::Running);
    assert_eq!(rl.handle_ui_event(UiEvent::RedrawRequested), UiAction::RenderBlock);
    assert_eq!(rl.state(), LoopState::Running);

    assert_eq!(rl.handle_ui_event(UiEvent::CloseRequested), UiAction::StopPolling);
    assert_eq!(rl.state(), LoopState::ShuttingDown);
    assert!(!rl.is_running());

    let report = rl.shutdown();
    assert_eq!(report.final_state, LoopState::Stopped);
    assert_eq!(
        report.steps,
        vec![
            TeardownStep::EditorClosed,
            TeardownStep::InstanceDestroyed,
            TeardownStep::ModuleUnloaded,
        ]
    );
}

#[test]
fn teardown_without_editor_skips_editor_close() {
    let mut proto = test_prototype();
    proto.has_editor = false;
    let module = PluginModule::load(ModuleResource::Module(proto)).unwrap();
    let host = HostCallback::new();
    let instance = module.instantiate(&host).unwrap();
    let pool = BufferPool::new(2, 2, 256);
    let queue = EventQueue::new(16);
    let rl = RenderLoop::new(module, instance, queue, pool).unwrap();
    let report = rl.shutdown();
    assert_eq!(report.final_state, LoopState::Stopped);
    assert_eq!(
        report.steps,
        vec![TeardownStep::InstanceDestroyed, TeardownStep::ModuleUnloaded]
    );
}

#[test]
fn tick_flushes_queue_before_render() {
    let module = PluginModule::load(ModuleResource::Module(test_prototype())).unwrap();
    let host = HostCallback::new();
    let instance = module.instantiate(&host).unwrap();
    let pool = BufferPool::new(2, 2, 8);
    let queue = EventQueue::new(4);
    let mut rl = RenderLoop::new(module, instance, queue, pool).unwrap();
    assert!(rl.push_event(note_on(42, 3)).is_ok());
    let view = rl.tick(vec![vec![0i64; 8]; 2], vec![vec![0i64; 8]; 2]).unwrap();
    assert_eq!(view.output_sample(0, 2), 0);
    assert_eq!(view.output_sample(0, 3), 42);
    let silent = rl.tick(vec![vec![0i64; 8]; 2], vec![vec![0i64; 8]; 2]).unwrap();
    assert!(!silent.any_output_nonzero());
}

#[test]
fn tick_rejects_storage_of_wrong_shape() {
    let module = PluginModule::load(ModuleResource::Module(test_prototype())).unwrap();
    let host = HostCallback::new();
    let instance = module.instantiate(&host).unwrap();
    let pool = BufferPool::new(2, 2, 8);
    let queue = EventQueue::new(4);
    let mut rl = RenderLoop::new(module, instance, queue, pool).unwrap();
    let r = rl.tick(vec![vec![0i64; 8]; 1], vec![vec![0i64; 8]; 2]);
    assert!(matches!(r, Err(HostError::ShapeMismatch)));
}

#[test]
fn callback_records_parameter_changes() {
    let mut host = HostCallback::new();
    assert_eq!(host.notification_count(), 0);
    host.on_parameter_automate(3, 500000);
    host.on_parameter_automate(0, 0);
    assert_eq!(host.notification_count(), 2);
    assert_eq!(host.automations[0].index, 3);
    assert_eq!(host.automations[0].value, 500000);
    assert_eq!(host.automations[1].index, 0);
}

#[test]
fn zero_capacity_queue_rejects_first_push() {
    let mut queue = EventQueue::new(0);
    assert!(matches!(queue.push(note_on(100, 0)), Err(HostError::QueueFull)));
    assert_eq!(queue.len(), 0);
}

#[test]
fn zero_length_block_renders_silently() {
    let module = PluginModule::load(ModuleResource::Module(test_prototype())).unwrap();
    let host = HostCallback::new();
    let mut instance = module.instantiate(&host).unwrap();
    let events = vec![note_on(100, 0)];
    instance.send_events(&events);
    let pool = BufferPool::new(2, 2, 0);
    let mut view = pool.bind(pool.silent_inputs(), pool.silent_outputs()).unwrap();
    assert!(instance.render(&mut view).is_ok());
    assert!(!view.any_output_nonzero());
}

#[test]
fn first_note_on_wins_over_later_events() {
    let module = PluginModule::load(ModuleResource::Module(test_prototype())).unwrap();
    let host = HostCallback::new();
    let mut instance = module.instantiate(&host).unwrap();
    let events = vec![note_off(0), note_on(70, 0), note_on(120, 0)];
    instance.send_events(&events);
    let pool = BufferPool::new(2, 2, 8);
    let mut view = pool.bind(pool.silent_inputs(), pool.silent_outputs()).unwrap();
    assert!(instance.render(&mut view).is_ok());
    assert_eq!(view.output_sample(0, 0), 70);
    assert_eq!(view.output_sample(1, 7), 70);
}

#[test]
fn view_storage_round_trip() {
    let pool = BufferPool::new(1, 1, 4);
    let view = pool
        .bind(vec![vec![1i64, 2, 3, 4]], vec![vec![0i64; 4]])
        .unwrap();
    let (inputs, outputs) = view.into_storage();
    assert_eq!(inputs, vec![vec![1i64, 2, 3, 4]]);
    assert_eq!(outputs, vec![vec![0i64; 4]]);
}
