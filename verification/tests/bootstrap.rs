//! Bootstraps driven against a native layer that only counts.
use shroud::bootstrap::{Bootstrap, MethodTables};
use shroud::directx11::{DirectX11ContextMethods, DirectX11DeviceMethods, DirectX11SwapchainMethods};
use shroud::directx12::{
    DirectX12CommandAllocatorMethods, DirectX12CommandListMethods, DirectX12CommandQueueMethods,
    DirectX12DeviceMethods, DirectX12SwapchainMethods,
};
use shroud::directx9::{DirectX9DeviceMethods, DirectX9Methods};
use shroud::protocol::{Action, Event, NativeObject, Stage};
use shroud::swapchain_util::default_swapchain_descriptor;
use shroud::vulkan::VulkanStaticMethods;
use shroud::{RenderEngine, ShroudError};

/// A native layer that hands out made-up addresses and writes down what it is asked.
struct FakeNative {
    window: Option<usize>,
    library: Option<usize>,
    fail: Option<(Stage, i32)>,
    missing: Option<Stage>,
    short_table: Option<Stage>,
    next_handle: usize,
    asked: Vec<Action>,
    created: Vec<NativeObject>,
    released: Vec<NativeObject>,
}

impl FakeNative {
    fn new() -> FakeNative {
        FakeNative {
            window: Some(0x5000),
            library: Some(0x7000),
            fail: None,
            missing: None,
            short_table: None,
            next_handle: 0x1000,
            asked: Vec::new(),
            created: Vec::new(),
            released: Vec::new(),
        }
    }

    fn failing(stage: Stage, status: i32) -> FakeNative {
        let mut fake = FakeNative::new();
        fake.fail = Some((stage, status));
        fake
    }

    fn make(&mut self, stage: Stage) -> Option<usize> {
        if self.missing == Some(stage) {
            return None;
        }
        let handle = self.next_handle;
        self.next_handle += 0x100;
        self.created.push(NativeObject { stage, handle });
        Some(handle)
    }

    fn create(&mut self, stage: Stage) -> Event {
        if let Some((failing, status)) = self.fail {
            if failing == stage {
                return Event::Created { status, object: None };
            }
        }
        if stage == Stage::DeviceAndSwapchain {
            let swapchain = self.make(Stage::Swapchain);
            let device = self.make(Stage::Device);
            let context = self.make(Stage::Context);
            return Event::CoCreated { status: 0, swapchain, device, context };
        }
        let object = self.make(stage);
        Event::Created { status: 0, object }
    }

    fn answer(&mut self, action: Action) -> Event {
        self.asked.push(action);
        match action {
            Action::FindWindow => Event::Found(self.window),
            Action::FindLibrary(_) => Event::Found(self.library),
            Action::Create(stage) => self.create(stage),
            Action::CreateDevice(_) => self.create(Stage::Device),
            Action::CreateSurface(stage, _) => {
                if let Some((failing, status)) = self.fail {
                    if failing == stage && stage == Stage::DeviceAndSwapchain {
                        return Event::CoCreated {
                            status,
                            swapchain: None,
                            device: None,
                            context: None,
                        };
                    }
                }
                self.create(stage)
            }
            Action::ReadTable { object, slots } => {
                let slots = if self.short_table == Some(object.stage) { slots - 1 } else { slots };
                Event::Table((0..slots).map(|slot| address_of(object.handle, slot)).collect())
            }
            Action::ResolveSymbols { library, slots } => {
                Event::Table((0..slots).map(|slot| address_of(library, slot)).collect())
            }
            Action::Release(object) => {
                self.released.push(object);
                Event::Released
            }
            Action::Finished => unreachable!(),
        }
    }
}

fn address_of(handle: usize, slot: usize) -> usize {
    handle * 0x1000 + 8 * slot
}

fn table_of(handle: usize, slots: usize) -> Vec<usize> {
    (0..slots).map(|slot| address_of(handle, slot)).collect()
}

fn extract_methods(engine: RenderEngine, native: &mut FakeNative) -> Result<MethodTables, ShroudError> {
    let mut bootstrap = Bootstrap::new(engine);
    let mut calls = 0;
    while !bootstrap.is_done() {
        let event = native.answer(bootstrap.pending());
        bootstrap = bootstrap.step(event);
        calls += 1;
        assert!(calls < 100);
    }
    assert_eq!(bootstrap.pending(), Action::Finished);
    assert!(bootstrap.guards().is_empty());
    bootstrap.outcome().expect("a bootstrap that is done has an outcome")
}

fn reversed(objects: &[NativeObject]) -> Vec<NativeObject> {
    objects.iter().rev().copied().collect()
}

fn stages(objects: &[NativeObject]) -> Vec<Stage> {
    objects.iter().map(|object| object.stage).collect()
}

#[test]
fn directx9_collects_the_device_table() {
    let mut native = FakeNative::new();
    let tables = extract_methods(RenderEngine::DirectX9, &mut native).unwrap();
    assert_eq!(tables.render_engine(), RenderEngine::DirectX9);
    let MethodTables::DirectX9(methods) = tables else { panic!("tables of another backend") };
    assert_eq!(methods.device_vmt().len(), DirectX9DeviceMethods::COUNT);
    assert_eq!(methods.device_vmt().len(), 119);
    assert_eq!(stages(&native.created), vec![Stage::Entry, Stage::Device]);
    let device = native.created[1].handle;
    assert_eq!(methods.device_vmt(), &table_of(device, 119));
}

#[test]
fn directx9_asks_for_a_device_without_hardware() {
    let mut native = FakeNative::new();
    extract_methods(RenderEngine::DirectX9, &mut native).unwrap();
    let request = native
        .asked
        .iter()
        .find_map(|action| match action {
            Action::CreateDevice(request) => Some(*request),
            _ => None,
        })
        .expect("the device is asked for");
    assert_eq!(request.focus_window, 0x5000);
    assert_eq!(request.device_type, 4);
    assert_eq!(request.behavior_flags, 0x20 | 0x100);
    assert!(request.presentation.windowed);
    assert_eq!(request.presentation.device_window, 0x5000);
    assert_eq!(request.presentation.swap_effect, 1);
    assert_eq!(request.presentation.back_buffer_count, 0);
    assert_eq!(request.presentation.back_buffer_format, 0);
}

#[test]
fn directx11_collects_three_tables_from_one_call() {
    let mut native = FakeNative::new();
    let tables = extract_methods(RenderEngine::DirectX11, &mut native).unwrap();
    let MethodTables::DirectX11(methods) = tables else { panic!("tables of another backend") };
    assert_eq!(methods.swapchain_vmt().len(), DirectX11SwapchainMethods::COUNT);
    assert_eq!(methods.device_vmt().len(), DirectX11DeviceMethods::COUNT);
    assert_eq!(methods.context_vmt().len(), DirectX11ContextMethods::COUNT);
    assert_eq!(stages(&native.created), vec![Stage::Swapchain, Stage::Device, Stage::Context]);
    assert_eq!(methods.swapchain_vmt(), &table_of(native.created[0].handle, 18));
    assert_eq!(methods.device_vmt(), &table_of(native.created[1].handle, 43));
    assert_eq!(methods.context_vmt(), &table_of(native.created[2].handle, 144));
    let creations = native.asked.iter().filter(|a| matches!(a, Action::CreateSurface(..))).count();
    assert_eq!(creations, 1);
    assert_eq!(
        native.asked[1],
        Action::CreateSurface(Stage::DeviceAndSwapchain, default_swapchain_descriptor(0x5000))
    );
}

#[test]
fn directx12_collects_five_tables() {
    let mut native = FakeNative::new();
    let tables = extract_methods(RenderEngine::DirectX12, &mut native).unwrap();
    let MethodTables::DirectX12(methods) = tables else { panic!("tables of another backend") };
    assert_eq!(methods.device_vmt().len(), DirectX12DeviceMethods::COUNT);
    assert_eq!(methods.command_queue_vmt().len(), DirectX12CommandQueueMethods::COUNT);
    assert_eq!(methods.command_allocator_vmt().len(), DirectX12CommandAllocatorMethods::COUNT);
    assert_eq!(methods.command_list_vmt().len(), DirectX12CommandListMethods::COUNT);
    assert_eq!(methods.swapchain_vmt().len(), DirectX12SwapchainMethods::COUNT);
    assert_eq!(
        stages(&native.created),
        vec![
            Stage::Entry,
            Stage::Adapter,
            Stage::Device,
            Stage::CommandQueue,
            Stage::CommandAllocator,
            Stage::CommandList,
            Stage::Swapchain,
        ]
    );
    assert_eq!(methods.device_vmt(), &table_of(native.created[2].handle, 44));
    assert_eq!(methods.command_queue_vmt(), &table_of(native.created[3].handle, 19));
    assert_eq!(methods.command_allocator_vmt(), &table_of(native.created[4].handle, 9));
    assert_eq!(methods.command_list_vmt(), &table_of(native.created[5].handle, 60));
    assert_eq!(methods.swapchain_vmt(), &table_of(native.created[6].handle, 18));
}

#[test]
fn directx12_presents_to_two_flipping_buffers() {
    let mut native = FakeNative::new();
    extract_methods(RenderEngine::DirectX12, &mut native).unwrap();
    let surface = native
        .asked
        .iter()
        .find_map(|action| match action {
            Action::CreateSurface(Stage::Swapchain, surface) => Some(*surface),
            _ => None,
        })
        .expect("the swapchain is asked for");
    assert_eq!(surface.buffer_count, 2);
    assert_eq!(surface.swap_effect, 4);
    assert_eq!(surface.output_window, 0x5000);
    let mut expected = default_swapchain_descriptor(0x5000);
    expected.swap_effect = 4;
    assert_eq!(surface, expected);
}

#[test]
fn vulkan_resolves_the_exported_functions() {
    let mut native = FakeNative::new();
    let tables = extract_methods(RenderEngine::Vulkan, &mut native).unwrap();
    let MethodTables::Vulkan(methods) = tables else { panic!("tables of another backend") };
    assert_eq!(methods.static_methods().len(), VulkanStaticMethods::COUNT);
    assert_eq!(methods.static_methods(), &table_of(0x7000, 136));
    assert_eq!(
        native.asked,
        vec![
            Action::FindLibrary(RenderEngine::Vulkan),
            Action::ResolveSymbols { library: 0x7000, slots: 136 },
        ]
    );
    assert!(native.created.is_empty());
    assert!(native.released.is_empty());
}

#[test]
fn vulkan_without_its_library_is_not_found() {
    let mut native = FakeNative::new();
    native.library = None;
    let outcome = extract_methods(RenderEngine::Vulkan, &mut native);
    assert_eq!(outcome, Err(ShroudError::BackendNotFound(RenderEngine::Vulkan)));
}

#[test]
fn directx10_is_not_found() {
    let bootstrap = Bootstrap::new(RenderEngine::DirectX10);
    assert!(bootstrap.is_done());
    assert_eq!(bootstrap.pending(), Action::Finished);
    assert_eq!(
        bootstrap.outcome(),
        Some(Err(ShroudError::BackendNotFound(RenderEngine::DirectX10)))
    );
}

#[test]
fn every_table_has_the_declared_length() {
    for engine in [RenderEngine::DirectX9, RenderEngine::DirectX11, RenderEngine::DirectX12, RenderEngine::Vulkan] {
        let mut native = FakeNative::new();
        let tables = extract_methods(engine, &mut native).unwrap();
        let lengths: Vec<usize> = match &tables {
            MethodTables::DirectX9(m) => vec![m.device_vmt().len()],
            MethodTables::DirectX11(m) => {
                vec![m.swapchain_vmt().len(), m.device_vmt().len(), m.context_vmt().len()]
            }
            MethodTables::DirectX12(m) => vec![
                m.device_vmt().len(),
                m.command_queue_vmt().len(),
                m.command_allocator_vmt().len(),
                m.command_list_vmt().len(),
                m.swapchain_vmt().len(),
            ],
            MethodTables::Vulkan(m) => vec![m.static_methods().len()],
        };
        let declared: Vec<usize> = match engine {
            RenderEngine::DirectX9 => vec![119],
            RenderEngine::DirectX11 => vec![18, 43, 144],
            RenderEngine::DirectX12 => vec![44, 19, 9, 60, 18],
            _ => vec![136],
        };
        assert_eq!(lengths, declared);
    }
}

#[test]
fn releases_come_in_reverse_order_of_creation() {
    for engine in [RenderEngine::DirectX9, RenderEngine::DirectX11, RenderEngine::DirectX12] {
        let mut native = FakeNative::new();
        extract_methods(engine, &mut native).unwrap();
        assert!(!native.created.is_empty());
        assert_eq!(native.released, reversed(&native.created));
    }
}

#[test]
fn as_many_releases_as_creations_when_a_stage_fails() {
    let failing = [
        Stage::Entry,
        Stage::Adapter,
        Stage::Device,
        Stage::CommandQueue,
        Stage::CommandAllocator,
        Stage::CommandList,
        Stage::Swapchain,
    ];
    for (position, stage) in failing.iter().enumerate() {
        let mut native = FakeNative::failing(*stage, -3);
        let outcome = extract_methods(RenderEngine::DirectX12, &mut native);
        assert!(outcome.is_err());
        assert_eq!(native.created.len(), position);
        assert_eq!(native.released.len(), native.created.len());
        assert_eq!(native.released, reversed(&native.created));
    }
}

#[test]
fn queue_failure_releases_factory_adapter_and_device_once() {
    let status = -2005270523;
    let mut native = FakeNative::failing(Stage::CommandQueue, status);
    let outcome = extract_methods(RenderEngine::DirectX12, &mut native);
    assert_eq!(outcome, Err(ShroudError::QueueCreationError(status)));
    assert_eq!(stages(&native.created), vec![Stage::Entry, Stage::Adapter, Stage::Device]);
    for object in &native.created {
        let times = native.released.iter().filter(|released| *released == object).count();
        assert_eq!(times, 1);
    }
    assert_eq!(stages(&native.released), vec![Stage::Device, Stage::Adapter, Stage::Entry]);
    assert!(!native.asked.contains(&Action::Create(Stage::CommandAllocator)));
}

#[test]
fn each_stage_fails_with_its_own_error() {
    let cases = [
        (RenderEngine::DirectX9, Stage::Entry, ShroudError::BackendInitError(-7)),
        (RenderEngine::DirectX9, Stage::Device, ShroudError::DeviceCreationError(-7)),
        (RenderEngine::DirectX11, Stage::DeviceAndSwapchain, ShroudError::DeviceCreationError(-7)),
        (RenderEngine::DirectX12, Stage::Entry, ShroudError::BackendInitError(-7)),
        (RenderEngine::DirectX12, Stage::Adapter, ShroudError::AdapterEnumerationError(-7)),
        (RenderEngine::DirectX12, Stage::Device, ShroudError::DeviceCreationError(-7)),
        (RenderEngine::DirectX12, Stage::CommandQueue, ShroudError::QueueCreationError(-7)),
        (RenderEngine::DirectX12, Stage::CommandAllocator, ShroudError::AllocatorCreationError(-7)),
        (RenderEngine::DirectX12, Stage::CommandList, ShroudError::CommandListCreationError(-7)),
        (RenderEngine::DirectX12, Stage::Swapchain, ShroudError::SurfaceCreationError(-7)),
    ];
    for (engine, stage, error) in cases {
        let mut native = FakeNative::failing(stage, -7);
        assert_eq!(extract_methods(engine, &mut native), Err(error));
        assert_eq!(native.released, reversed(&native.created));
    }
}

#[test]
fn a_positive_status_is_a_success() {
    let mut native = FakeNative::failing(Stage::Device, 1);
    native.fail = None;
    let mut bootstrap = Bootstrap::new(RenderEngine::DirectX9);
    bootstrap = bootstrap.step(Event::Found(Some(9)));
    bootstrap = bootstrap.step(Event::Created { status: 1, object: Some(0x10) });
    assert_eq!(bootstrap.guards(), &vec![NativeObject { stage: Stage::Entry, handle: 0x10 }]);
    assert!(matches!(bootstrap.pending(), Action::CreateDevice(_)));
}

#[test]
fn a_missing_object_violates_the_expectation() {
    let mut native = FakeNative::new();
    native.missing = Some(Stage::Device);
    let outcome = extract_methods(RenderEngine::DirectX12, &mut native);
    assert_eq!(outcome, Err(ShroudError::ExpectationViolated(Stage::Device)));
    assert_eq!(stages(&native.released), vec![Stage::Adapter, Stage::Entry]);
}

#[test]
fn a_missing_co_created_object_releases_the_others() {
    for (missing, left) in [
        (Stage::Swapchain, vec![Stage::Context, Stage::Device]),
        (Stage::Device, vec![Stage::Context, Stage::Swapchain]),
        (Stage::Context, vec![Stage::Device, Stage::Swapchain]),
    ] {
        let mut native = FakeNative::new();
        native.missing = Some(missing);
        let outcome = extract_methods(RenderEngine::DirectX11, &mut native);
        assert_eq!(outcome, Err(ShroudError::ExpectationViolated(missing)));
        assert_eq!(stages(&native.released), left);
        assert_eq!(native.released, reversed(&native.created));
    }
}

#[test]
fn a_failed_co_creation_holds_nothing() {
    let mut bootstrap = Bootstrap::new(RenderEngine::DirectX11);
    bootstrap = bootstrap.step(Event::Found(Some(9)));
    bootstrap = bootstrap.step(Event::CoCreated {
        status: -1,
        swapchain: Some(1),
        device: Some(2),
        context: Some(3),
    });
    assert!(bootstrap.is_done());
    assert!(bootstrap.guards().is_empty());
    assert_eq!(bootstrap.outcome(), Some(Err(ShroudError::DeviceCreationError(-1))));
}

#[test]
fn a_table_of_the_wrong_length_is_refused() {
    let mut native = FakeNative::new();
    native.short_table = Some(Stage::CommandList);
    let outcome = extract_methods(RenderEngine::DirectX12, &mut native);
    assert_eq!(outcome, Err(ShroudError::ExpectationViolated(Stage::CommandList)));
    assert_eq!(native.created.len(), 6);
    assert_eq!(native.released, reversed(&native.created));
}

#[test]
fn an_owned_window_is_used_and_not_released() {
    let mut native = FakeNative::new();
    extract_methods(RenderEngine::DirectX9, &mut native).unwrap();
    assert_eq!(native.asked[0], Action::FindWindow);
    assert!(!native.asked.contains(&Action::Create(Stage::Window)));
    assert!(native.released.iter().all(|object| object.stage != Stage::Window));
}

#[test]
fn without_an_owned_window_a_scratch_window_is_made_and_destroyed_last() {
    let mut native = FakeNative::new();
    native.window = None;
    extract_methods(RenderEngine::DirectX12, &mut native).unwrap();
    assert_eq!(
        native.asked[..3],
        [Action::FindWindow, Action::Create(Stage::WindowClass), Action::Create(Stage::Window)]
    );
    assert_eq!(stages(&native.created)[..2], [Stage::WindowClass, Stage::Window]);
    let window = native.created[1].handle;
    let surface = native
        .asked
        .iter()
        .find_map(|action| match action {
            Action::CreateSurface(_, surface) => Some(*surface),
            _ => None,
        })
        .unwrap();
    assert_eq!(surface.output_window, window);
    let released = stages(&native.released);
    assert_eq!(released[released.len() - 2..], [Stage::Window, Stage::WindowClass]);
    assert_eq!(native.released, reversed(&native.created));
}

#[test]
fn no_window_at_all_is_window_unavailable() {
    let mut native = FakeNative::failing(Stage::Window, -1);
    native.window = None;
    let outcome = extract_methods(RenderEngine::DirectX11, &mut native);
    assert_eq!(outcome, Err(ShroudError::WindowUnavailable));
    assert_eq!(stages(&native.released), vec![Stage::WindowClass]);

    let mut native = FakeNative::new();
    native.window = None;
    native.missing = Some(Stage::WindowClass);
    let outcome = extract_methods(RenderEngine::DirectX9, &mut native);
    assert_eq!(outcome, Err(ShroudError::WindowUnavailable));
    assert!(native.released.is_empty());
}

#[test]
fn an_answer_of_the_wrong_kind_ends_the_creations() {
    let mut bootstrap = Bootstrap::new(RenderEngine::DirectX12);
    bootstrap = bootstrap.step(Event::Found(Some(9)));
    bootstrap = bootstrap.step(Event::Created { status: 0, object: Some(0x10) });
    assert_eq!(bootstrap.pending(), Action::Create(Stage::Adapter));
    bootstrap = bootstrap.step(Event::Table(vec![1, 2, 3]));
    assert_eq!(
        bootstrap.pending(),
        Action::Release(NativeObject { stage: Stage::Entry, handle: 0x10 })
    );
    bootstrap = bootstrap.step(Event::Released);
    assert_eq!(bootstrap.outcome(), Some(Err(ShroudError::ExpectationViolated(Stage::Adapter))));
}

#[test]
fn a_bootstrap_that_is_done_stays_done() {
    let mut bootstrap = Bootstrap::new(RenderEngine::Vulkan);
    bootstrap = bootstrap.step(Event::Found(None));
    assert!(bootstrap.is_done());
    bootstrap = bootstrap.step(Event::Created { status: 0, object: Some(1) });
    bootstrap = bootstrap.step(Event::Found(Some(1)));
    assert!(bootstrap.is_done());
    assert!(bootstrap.guards().is_empty());
    assert_eq!(bootstrap.outcome(), Some(Err(ShroudError::BackendNotFound(RenderEngine::Vulkan))));
}

#[test]
fn a_running_bootstrap_has_no_outcome() {
    let bootstrap = Bootstrap::new(RenderEngine::DirectX9);
    assert_eq!(bootstrap.engine(), RenderEngine::DirectX9);
    assert_eq!(bootstrap.outcome(), None);
}

#[test]
fn the_first_failure_is_kept_while_objects_are_released() {
    let mut bootstrap = Bootstrap::new(RenderEngine::DirectX12);
    bootstrap = bootstrap.step(Event::Found(Some(9)));
    bootstrap = bootstrap.step(Event::Created { status: 0, object: Some(0x10) });
    bootstrap = bootstrap.step(Event::Created { status: 0, object: Some(0x20) });
    bootstrap = bootstrap.step(Event::Created { status: -11, object: None });
    assert_eq!(
        bootstrap.pending(),
        Action::Release(NativeObject { stage: Stage::Adapter, handle: 0x20 })
    );
    bootstrap = bootstrap.step(Event::Created { status: -12, object: None });
    assert_eq!(
        bootstrap.pending(),
        Action::Release(NativeObject { stage: Stage::Entry, handle: 0x10 })
    );
    bootstrap = bootstrap.step(Event::Released);
    assert_eq!(bootstrap.outcome(), Some(Err(ShroudError::DeviceCreationError(-11))));
}

#[test]
fn two_bootstraps_in_a_row_agree() {
    for engine in [RenderEngine::DirectX9, RenderEngine::DirectX11, RenderEngine::DirectX12, RenderEngine::Vulkan] {
        let first = extract_methods(engine, &mut FakeNative::new()).unwrap();
        let second = extract_methods(engine, &mut FakeNative::new()).unwrap();
        assert_eq!(first, second);
        let mut elsewhere = FakeNative::new();
        elsewhere.next_handle = 0x9000;
        elsewhere.library = Some(0x9900);
        let third = extract_methods(engine, &mut elsewhere).unwrap();
        assert_ne!(first, third);
        let lengths = |tables: &MethodTables| -> Vec<usize> {
            let mut lengths = vec![0usize; 10];
            for entry in tables.entries() {
                lengths[entry.interface as usize] += 1;
            }
            lengths
        };
        assert_eq!(lengths(&first), lengths(&third));
    }
}

#[test]
fn tables_are_put_together_only_when_complete() {
    assert!(DirectX9Methods::new(vec![0; 119]).is_some());
    assert!(DirectX9Methods::new(vec![0; 118]).is_none());
    assert!(DirectX9Methods::new(vec![0; 120]).is_none());
    assert!(DirectX9Methods::new(Vec::new()).is_none());
}

#[test]
fn a_replay_ends_where_the_steps_end() {
    let answers = || {
        vec![
            Event::Found(Some(9)),
            Event::Created { status: 0, object: Some(0x10) },
            Event::Created { status: 0, object: Some(0x20) },
            Event::Table(table_of(0x20, 119)),
            Event::Released,
        ]
    };
    let mut stepped = Bootstrap::new(RenderEngine::DirectX9);
    for event in answers() {
        stepped = stepped.step(event);
    }
    let replayed = Bootstrap::replay(RenderEngine::DirectX9, answers());
    assert_eq!(replayed.pending(), stepped.pending());
    assert_eq!(replayed.guards(), stepped.guards());
    assert_eq!(
        replayed.pending(),
        Action::Release(NativeObject { stage: Stage::Entry, handle: 0x10 })
    );
    let replayed = replayed.step(Event::Released);
    let stepped = stepped.step(Event::Released);
    assert_eq!(replayed.outcome(), stepped.outcome());
    let mut all = answers();
    all.push(Event::Released);
    let outcome = Bootstrap::replay(RenderEngine::DirectX9, all).outcome();
    assert_eq!(outcome, Some(Ok(MethodTables::DirectX9(DirectX9Methods::new(table_of(0x20, 119)).unwrap()))));
}

#[test]
fn a_replay_of_nothing_has_not_begun() {
    let bootstrap = Bootstrap::replay(RenderEngine::DirectX11, Vec::new());
    assert_eq!(bootstrap.pending(), Action::FindWindow);
    assert!(bootstrap.guards().is_empty());
    assert_eq!(bootstrap.outcome(), None);
}

/// How many answers the longest bootstrap of a backend takes: every call
/// succeeds, and the scratch window has to be made.
fn longest(engine: RenderEngine) -> usize {
    let mut native = FakeNative::new();
    native.window = None;
    extract_methods(engine, &mut native).unwrap();
    native.asked.len()
}

#[test]
fn no_bootstrap_takes_more_answers_than_its_bound() {
    assert_eq!(longest(RenderEngine::DirectX9), 10);
    assert_eq!(longest(RenderEngine::DirectX11), 12);
    assert_eq!(longest(RenderEngine::DirectX12), 24);
    assert_eq!(longest(RenderEngine::Vulkan), 2);
    for (engine, bound) in [
        (RenderEngine::DirectX9, 10),
        (RenderEngine::DirectX10, 0),
        (RenderEngine::DirectX11, 12),
        (RenderEngine::DirectX12, 24),
        (RenderEngine::Vulkan, 2),
    ] {
        for stubborn in 0..4 {
            let mut bootstrap = Bootstrap::new(engine);
            for _ in 0..bound {
                let event = match stubborn {
                    0 => Event::Released,
                    1 => Event::Found(Some(1)),
                    2 => Event::Created { status: -1, object: None },
                    _ => Event::Table(Vec::new()),
                };
                bootstrap = bootstrap.step(event);
            }
            assert!(bootstrap.is_done());
            assert!(bootstrap.guards().is_empty());
        }
    }
}
